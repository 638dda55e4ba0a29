//! Account identifiers and byte-for-byte equality on them.

use vstd::prelude::*;

verus! {

broadcast use vstd::array::group_array_axioms;

/// An opaque account identifier: a 32-byte value distinguishing callers,
/// compared only for equality and used as a map key.
#[derive(Clone, Copy, Debug, PartialEq, Eq, Hash)]
pub struct AccountId(pub [u8; 32]);

/// Compares two 32-byte values byte by byte.
pub fn bytes32_eq(a: &[u8; 32], b: &[u8; 32]) -> (res: bool)
    ensures
        res == (a@ == b@),
{
    let mut i: usize = 0;
    while i < 32
        invariant
            i <= 32,
            forall|j: int| 0 <= j < i ==> a@[j] == b@[j],
        decreases 32 - i,
    {
        if a[i] != b[i] {
            return false;
        }
        i = i + 1;
    }
    proof {
        assert(a@ =~= b@);
    }
    true
}

/// Equality of account identifiers, with its meaning visible to callers.
pub fn account_eq(a: &AccountId, b: &AccountId) -> (res: bool)
    ensures
        res == (*a == *b),
{
    let r = bytes32_eq(&a.0, &b.0);
    proof {
        if a.0@ == b.0@ {
            assert(a.0 =~= b.0);
        }
    }
    r
}

} // verus!
