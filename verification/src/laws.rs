//! Laws of the registry: properties that hold of every state and every
//! sequence of operations, proved over the spec-level transitions that
//! the executable operations are contracted to perform.

use vstd::prelude::*;
use crate::account::AccountId;
use crate::registry::{add_verifier_transition, remove_verifier_transition, submit_transition,
    submitted_identity, verify_transition, Error, RegistryView};

verus! {

/// Submitting twice from one account: the first submission succeeds,
/// the second answers `AlreadySubmitted` and leaves the registry
/// exactly as the first left it, and the stored record holds the first
/// submission's fields.
pub proof fn lemma_submit_twice(
    pre: RegistryView,
    a: AccountId,
    name1: Seq<char>,
    age1: u32,
    doc1: Seq<char>,
    hash1: Seq<u8>,
    name2: Seq<char>,
    age2: u32,
    doc2: Seq<char>,
    hash2: Seq<u8>,
)
    requires
        !pre.identities.dom().contains(a),
    ensures
        ({
            let (s1, r1) = submit_transition(pre, a, name1, age1, doc1, hash1);
            let (s2, r2) = submit_transition(s1, a, name2, age2, doc2, hash2);
            r1 == Ok::<(), Error>(()) && r2 == Err::<(), Error>(Error::AlreadySubmitted)
                && s2 == s1 && s1.identities[a] == submitted_identity(name1, age1, doc1, hash1)
        }),
{
}

/// A caller outside the verifier set cannot verify: the attempt answers
/// `NotAuthorized`, the registry is unchanged, and the account's record
/// stays unverified.
pub proof fn lemma_verify_unauthorized(
    pre: RegistryView,
    caller: AccountId,
    a: AccountId,
    hash: Seq<u8>,
)
    requires
        !pre.verifiers.contains(caller),
        pre.identities.dom().contains(a),
        !pre.identities[a].is_verified,
    ensures
        verify_transition(pre, caller, a, hash) == (pre, Err::<(), Error>(Error::NotAuthorized)),
        !verify_transition(pre, caller, a, hash).0.identities[a].is_verified,
{
}

/// Presenting a hash other than the stored one answers `ProofMismatch`,
/// the registry is unchanged, and the account's record stays
/// unverified.
pub proof fn lemma_verify_mismatch(
    pre: RegistryView,
    caller: AccountId,
    a: AccountId,
    hash: Seq<u8>,
)
    requires
        pre.verifiers.contains(caller),
        pre.identities.dom().contains(a),
        !pre.identities[a].is_verified,
        hash != pre.identities[a].proof_hash,
    ensures
        verify_transition(pre, caller, a, hash) == (pre, Err::<(), Error>(Error::ProofMismatch)),
        !verify_transition(pre, caller, a, hash).0.identities[a].is_verified,
{
}

/// A successful verification is final: it succeeds, marks the record
/// verified by the verifying caller, and a second attempt, by any
/// verifier presenting any hash, answers `AlreadyVerified` and changes
/// nothing.
pub proof fn lemma_verify_then_reverify(
    pre: RegistryView,
    v1: AccountId,
    v2: AccountId,
    a: AccountId,
    hash: Seq<u8>,
    hash2: Seq<u8>,
)
    requires
        pre.verifiers.contains(v1),
        pre.verifiers.contains(v2),
        pre.identities.dom().contains(a),
        !pre.identities[a].is_verified,
        hash == pre.identities[a].proof_hash,
    ensures
        ({
            let (s1, r1) = verify_transition(pre, v1, a, hash);
            let (s2, r2) = verify_transition(s1, v2, a, hash2);
            r1 == Ok::<(), Error>(()) && s1.identities[a].is_verified
                && s1.identities[a].verifier == Some(v1)
                && s1.identities[a].proof_hash == hash
                && r2 == Err::<(), Error>(Error::AlreadyVerified) && s2 == s1
        }),
{
}

/// Adding a verifier as the owner succeeds and makes the account a
/// member of the verifier set.
pub proof fn lemma_add_verifier_member(pre: RegistryView, v: AccountId)
    ensures
        ({
            let (s1, r1) = add_verifier_transition(pre, pre.owner, v);
            r1 == Ok::<(), Error>(()) && s1.verifiers.contains(v)
        }),
{
}

/// Removing a verifier as the owner succeeds and the account is no
/// longer a member of the verifier set.
pub proof fn lemma_remove_verifier_member(pre: RegistryView, v: AccountId)
    ensures
        ({
            let (s1, r1) = remove_verifier_transition(pre, pre.owner, v);
            r1 == Ok::<(), Error>(()) && !s1.verifiers.contains(v)
        }),
{
}

/// A failed operation leaves the registry entirely unchanged: whenever
/// a transition answers an error, its post-state is its pre-state.
pub proof fn lemma_failure_leaves_state_unchanged(
    pre: RegistryView,
    caller: AccountId,
    account: AccountId,
    name: Seq<char>,
    age: u32,
    doc: Seq<char>,
    hash: Seq<u8>,
)
    ensures
        submit_transition(pre, caller, name, age, doc, hash).1 is Err ==> submit_transition(
            pre,
            caller,
            name,
            age,
            doc,
            hash,
        ).0 == pre,
        verify_transition(pre, caller, account, hash).1 is Err ==> verify_transition(
            pre,
            caller,
            account,
            hash,
        ).0 == pre,
        add_verifier_transition(pre, caller, account).1 is Err ==> add_verifier_transition(
            pre,
            caller,
            account,
        ).0 == pre,
        remove_verifier_transition(pre, caller, account).1 is Err ==> remove_verifier_transition(
            pre,
            caller,
            account,
        ).0 == pre,
{
}

/// The owner is fixed at creation: no operation changes it.
pub proof fn lemma_owner_is_fixed(
    pre: RegistryView,
    caller: AccountId,
    account: AccountId,
    name: Seq<char>,
    age: u32,
    doc: Seq<char>,
    hash: Seq<u8>,
)
    ensures
        submit_transition(pre, caller, name, age, doc, hash).0.owner == pre.owner,
        verify_transition(pre, caller, account, hash).0.owner == pre.owner,
        add_verifier_transition(pre, caller, account).0.owner == pre.owner,
        remove_verifier_transition(pre, caller, account).0.owner == pre.owner,
{
}

/// No operation removes an identity record: an account that holds a
/// record before any operation still holds one after it.
pub proof fn lemma_no_record_is_lost(
    pre: RegistryView,
    caller: AccountId,
    account: AccountId,
    name: Seq<char>,
    age: u32,
    doc: Seq<char>,
    hash: Seq<u8>,
    holder: AccountId,
)
    requires
        pre.identities.dom().contains(holder),
    ensures
        submit_transition(pre, caller, name, age, doc, hash).0.identities.dom().contains(holder),
        verify_transition(pre, caller, account, hash).0.identities.dom().contains(holder),
        add_verifier_transition(pre, caller, account).0.identities.dom().contains(holder),
        remove_verifier_transition(pre, caller, account).0.identities.dom().contains(holder),
{
}

/// From any caller other than the owner, adding or removing a verifier
/// answers `NotAuthorized` and leaves the registry, its verifier set
/// included, unchanged.
pub proof fn lemma_manage_verifiers_not_owner(
    pre: RegistryView,
    caller: AccountId,
    v: AccountId,
)
    requires
        caller != pre.owner,
    ensures
        add_verifier_transition(pre, caller, v) == (pre, Err::<(), Error>(Error::NotAuthorized)),
        remove_verifier_transition(pre, caller, v) == (
            pre,
            Err::<(), Error>(Error::NotAuthorized),
        ),
{
}

} // verus!
