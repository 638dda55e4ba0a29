//! The identity-verification registry: an access-controlled state
//! machine over identity records, a verifier set and a fixed owner.
//!
//! Each operation's behaviour is given by a spec-level transition
//! function over [`RegistryView`]; the executable operation's contract
//! says that it performs exactly that transition.

use vstd::prelude::*;
use crate::account::{AccountId, account_eq, bytes32_eq};
use crate::identity::{Event, EventView, Identity, IdentitySubmitted, IdentityVerified,
    IdentityView};

verus! {

/// The error kinds an operation can report. Every failure leaves the
/// registry unchanged.
#[derive(Clone, Copy, Debug, PartialEq, Eq, Structural)]
pub enum Error {
    AlreadySubmitted,
    NotAuthorized,
    NotFound,
    AlreadyVerified,
    ProofMismatch,
}

/// Spec-level model of the whole registry: the identity records by
/// account, the verifier set, the fixed owner, and the notifications
/// recorded so far in emission order.
#[verifier::ext_equal]
pub struct RegistryView {
    pub identities: Map<AccountId, IdentityView>,
    pub verifiers: Set<AccountId>,
    pub owner: AccountId,
    pub events: Seq<EventView>,
}

/// The record stored for a fresh submission: the given fields, not yet
/// verified, no verifier.
pub open spec fn submitted_identity(
    name: Seq<char>,
    age: u32,
    document_id: Seq<char>,
    proof_hash: Seq<u8>,
) -> IdentityView {
    IdentityView {
        name: name,
        age: age,
        document_id: document_id,
        proof_hash: proof_hash,
        is_verified: false,
        verifier: None,
    }
}

/// What submission does: fails with `AlreadySubmitted` if the caller
/// already holds a record, otherwise stores the fresh record under the
/// caller and records an `IdentitySubmitted` notification.
pub open spec fn submit_transition(
    pre: RegistryView,
    caller: AccountId,
    name: Seq<char>,
    age: u32,
    document_id: Seq<char>,
    proof_hash: Seq<u8>,
) -> (RegistryView, Result<(), Error>) {
    if pre.identities.dom().contains(caller) {
        (pre, Err(Error::AlreadySubmitted))
    } else {
        (
            RegistryView {
                identities: pre.identities.insert(
                    caller,
                    submitted_identity(name, age, document_id, proof_hash),
                ),
                verifiers: pre.verifiers,
                owner: pre.owner,
                events: pre.events.push(
                    EventView::Submitted {
                        account: caller,
                        name: name,
                        age: age,
                        proof_hash: proof_hash,
                    },
                ),
            },
            Ok(()),
        )
    }
}

/// What verification does, with the error precedence fixed as
/// authorization, then existence, then already-verified, then hash
/// match; on success the record is marked verified by the caller and an
/// `IdentityVerified` notification is recorded.
pub open spec fn verify_transition(
    pre: RegistryView,
    caller: AccountId,
    account: AccountId,
    proof_hash: Seq<u8>,
) -> (RegistryView, Result<(), Error>) {
    if !pre.verifiers.contains(caller) {
        (pre, Err(Error::NotAuthorized))
    } else if !pre.identities.dom().contains(account) {
        (pre, Err(Error::NotFound))
    } else if pre.identities[account].is_verified {
        (pre, Err(Error::AlreadyVerified))
    } else if pre.identities[account].proof_hash != proof_hash {
        (pre, Err(Error::ProofMismatch))
    } else {
        (
            RegistryView {
                identities: pre.identities.insert(
                    account,
                    IdentityView {
                        name: pre.identities[account].name,
                        age: pre.identities[account].age,
                        document_id: pre.identities[account].document_id,
                        proof_hash: pre.identities[account].proof_hash,
                        is_verified: true,
                        verifier: Some(caller),
                    },
                ),
                verifiers: pre.verifiers,
                owner: pre.owner,
                events: pre.events.push(
                    EventView::Verified { account: account, verifier: caller },
                ),
            },
            Ok(()),
        )
    }
}

/// What adding a verifier does: owner only, idempotent set insertion.
pub open spec fn add_verifier_transition(
    pre: RegistryView,
    caller: AccountId,
    verifier: AccountId,
) -> (RegistryView, Result<(), Error>) {
    if caller != pre.owner {
        (pre, Err(Error::NotAuthorized))
    } else {
        (
            RegistryView {
                identities: pre.identities,
                verifiers: pre.verifiers.insert(verifier),
                owner: pre.owner,
                events: pre.events,
            },
            Ok(()),
        )
    }
}

/// What removing a verifier does: owner only, absence is a no-op.
pub open spec fn remove_verifier_transition(
    pre: RegistryView,
    caller: AccountId,
    verifier: AccountId,
) -> (RegistryView, Result<(), Error>) {
    if caller != pre.owner {
        (pre, Err(Error::NotAuthorized))
    } else {
        (
            RegistryView {
                identities: pre.identities,
                verifiers: pre.verifiers.remove(verifier),
                owner: pre.owner,
                events: pre.events,
            },
            Ok(()),
        )
    }
}

/// Whether some entry of `s` is keyed by `a`.
spec fn assoc_contains(s: Seq<(AccountId, Identity)>, a: AccountId) -> bool {
    exists|i: int| 0 <= i < s.len() && (#[trigger] s[i]).0 == a
}

/// The index of the entry of `s` keyed by `a` (meaningful only when one
/// exists and keys are unique).
spec fn assoc_index(s: Seq<(AccountId, Identity)>, a: AccountId) -> int {
    choose|i: int| 0 <= i < s.len() && (#[trigger] s[i]).0 == a
}

/// The map a sequence of key-record pairs stands for.
spec fn assoc_map(s: Seq<(AccountId, Identity)>) -> Map<AccountId, IdentityView> {
    Map::new(|a: AccountId| assoc_contains(s, a), |a: AccountId| s[assoc_index(s, a)].1@)
}

/// No two entries share a key.
spec fn id_keys_unique(s: Seq<(AccountId, Identity)>) -> bool {
    forall|i: int, j: int|
        0 <= i < j < s.len() ==> (#[trigger] s[i]).0 != (#[trigger] s[j]).0
}

/// Whether `a` occurs in `s`.
spec fn acct_in(s: Seq<AccountId>, a: AccountId) -> bool {
    exists|i: int| 0 <= i < s.len() && (#[trigger] s[i]) == a
}

/// No account occurs twice.
spec fn accts_unique(s: Seq<AccountId>) -> bool {
    forall|i: int, j: int| 0 <= i < j < s.len() ==> (#[trigger] s[i]) != (#[trigger] s[j])
}

/// With unique keys, the chosen index for a present key is the one and
/// only index holding it.
proof fn lemma_assoc_index(s: Seq<(AccountId, Identity)>, a: AccountId)
    requires
        id_keys_unique(s),
        assoc_contains(s, a),
    ensures
        0 <= assoc_index(s, a) < s.len(),
        s[assoc_index(s, a)].0 == a,
        forall|i: int| 0 <= i < s.len() && (#[trigger] s[i]).0 == a ==> i == assoc_index(s, a),
{
    let k = assoc_index(s, a);
    assert(0 <= k < s.len() && s[k].0 == a);
    assert forall|i: int| 0 <= i < s.len() && (#[trigger] s[i]).0 == a implies i == k by {
        if i < k {
            assert(s[i].0 != s[k].0);
        } else if k < i {
            assert(s[k].0 != s[i].0);
        }
    }
}

/// Appending an entry with a fresh key keeps keys unique and inserts
/// the entry's record into the map the sequence stands for.
proof fn lemma_assoc_push(s: Seq<(AccountId, Identity)>, p: (AccountId, Identity))
    requires
        id_keys_unique(s),
        !assoc_contains(s, p.0),
    ensures
        id_keys_unique(s.push(p)),
        assoc_map(s.push(p)) =~= assoc_map(s).insert(p.0, p.1@),
{
    let s2 = s.push(p);
    assert forall|x: int, y: int|
        0 <= x < y < s2.len() implies (#[trigger] s2[x]).0 != (#[trigger] s2[y]).0 by {
        if y < s.len() {
            assert(s2[x] == s[x] && s2[y] == s[y]);
        } else {
            assert(s2[y] == p && s2[x] == s[x]);
            if s[x].0 == p.0 {
                assert(assoc_contains(s, p.0));
            }
        }
    }
    assert forall|a: AccountId| #[trigger]
        assoc_contains(s2, a) <==> (assoc_contains(s, a) || a == p.0) by {
        if assoc_contains(s2, a) {
            let i = choose|i: int| 0 <= i < s2.len() && (#[trigger] s2[i]).0 == a;
            if i < s.len() {
                assert(s[i] == s2[i]);
                assert(assoc_contains(s, a));
            } else {
                assert(s2[i] == p);
            }
        }
        if assoc_contains(s, a) {
            let i = choose|i: int| 0 <= i < s.len() && (#[trigger] s[i]).0 == a;
            assert(s2[i] == s[i]);
            assert(assoc_contains(s2, a));
        }
        if a == p.0 {
            assert(s2[s.len() as int] == p);
            assert(assoc_contains(s2, a));
        }
    }
    assert forall|a: AccountId| #[trigger] assoc_contains(s2, a) implies
        assoc_map(s2)[a] == assoc_map(s).insert(p.0, p.1@)[a] by {
        lemma_assoc_index(s2, a);
        let k = assoc_index(s2, a);
        if a == p.0 {
            assert(s2[s.len() as int] == p);
            assert(k == s.len());
            assert(assoc_map(s2)[a] == p.1@);
        } else {
            assert(s2[k].0 == a);
            if k == s.len() {
                assert(s2[k] == p);
            }
            assert(k < s.len());
            assert(s2[k] == s[k]);
            assert(assoc_contains(s, a));
            lemma_assoc_index(s, a);
            assert(assoc_index(s, a) == k);
        }
    }
    assert(assoc_map(s2) =~= assoc_map(s).insert(p.0, p.1@));
}

/// Replacing the record at one index, keeping its key, keeps keys
/// unique and updates that key's record in the map the sequence stands
/// for.
proof fn lemma_assoc_update(s: Seq<(AccountId, Identity)>, i: int, v: Identity)
    requires
        id_keys_unique(s),
        0 <= i < s.len(),
    ensures
        id_keys_unique(s.update(i, (s[i].0, v))),
        assoc_map(s.update(i, (s[i].0, v))) =~= assoc_map(s).insert(s[i].0, v@),
{
    let a0 = s[i].0;
    let s2 = s.update(i, (a0, v));
    assert forall|j: int| 0 <= j < s2.len() implies (#[trigger] s2[j]).0 == s[j].0 by {
        if j != i {
            assert(s2[j] == s[j]);
        }
    }
    assert forall|x: int, y: int|
        0 <= x < y < s2.len() implies (#[trigger] s2[x]).0 != (#[trigger] s2[y]).0 by {
        assert(s[x].0 != s[y].0);
    }
    assert forall|a: AccountId| #[trigger]
        assoc_contains(s2, a) <==> assoc_contains(s, a) by {
        if assoc_contains(s2, a) {
            let k = choose|k: int| 0 <= k < s2.len() && (#[trigger] s2[k]).0 == a;
            assert(s[k].0 == a);
            assert(assoc_contains(s, a));
        }
        if assoc_contains(s, a) {
            let k = choose|k: int| 0 <= k < s.len() && (#[trigger] s[k]).0 == a;
            assert(s2[k].0 == a);
            assert(assoc_contains(s2, a));
        }
    }
    assert forall|a: AccountId| #[trigger] assoc_contains(s2, a) implies
        assoc_map(s2)[a] == assoc_map(s).insert(a0, v@)[a] by {
        lemma_assoc_index(s2, a);
        let k = assoc_index(s2, a);
        if a == a0 {
            assert(s2[i].0 == a0);
            assert(k == i);
            assert(s2[k].1 == v);
        } else {
            assert(k != i);
            assert(s2[k] == s[k]);
            assert(assoc_contains(s, a));
            lemma_assoc_index(s, a);
            assert(assoc_index(s, a) == k);
        }
    }
    assert(assoc_map(s2) =~= assoc_map(s).insert(a0, v@));
}

/// Appending a fresh account keeps the entries unique and inserts it
/// into the set the sequence stands for.
proof fn lemma_acct_push(s: Seq<AccountId>, v: AccountId)
    requires
        accts_unique(s),
        !acct_in(s, v),
    ensures
        accts_unique(s.push(v)),
        Set::new(|a: AccountId| acct_in(s.push(v), a)) =~= Set::new(
            |a: AccountId| acct_in(s, a),
        ).insert(v),
{
    let s2 = s.push(v);
    assert forall|x: int, y: int|
        0 <= x < y < s2.len() implies (#[trigger] s2[x]) != (#[trigger] s2[y]) by {
        if y < s.len() {
            assert(s2[x] == s[x] && s2[y] == s[y]);
        } else {
            assert(s2[y] == v && s2[x] == s[x]);
            if s[x] == v {
                assert(acct_in(s, v));
            }
        }
    }
    assert forall|a: AccountId| #[trigger] acct_in(s2, a) <==> (acct_in(s, a) || a == v) by {
        if acct_in(s2, a) {
            let i = choose|i: int| 0 <= i < s2.len() && (#[trigger] s2[i]) == a;
            if i < s.len() {
                assert(s[i] == s2[i]);
                assert(acct_in(s, a));
            } else {
                assert(s2[i] == v);
            }
        }
        if acct_in(s, a) {
            let i = choose|i: int| 0 <= i < s.len() && (#[trigger] s[i]) == a;
            assert(s2[i] == s[i]);
            assert(acct_in(s2, a));
        }
        if a == v {
            assert(s2[s.len() as int] == v);
            assert(acct_in(s2, a));
        }
    }
    assert(Set::new(|a: AccountId| acct_in(s2, a)) =~= Set::new(
        |a: AccountId| acct_in(s, a),
    ).insert(v));
}

/// Removing the one occurrence of an account keeps the entries unique
/// and removes it from the set the sequence stands for.
proof fn lemma_acct_remove(s: Seq<AccountId>, i: int)
    requires
        accts_unique(s),
        0 <= i < s.len(),
    ensures
        accts_unique(s.remove(i)),
        Set::new(|a: AccountId| acct_in(s.remove(i), a)) =~= Set::new(
            |a: AccountId| acct_in(s, a),
        ).remove(s[i]),
{
    let s2 = s.remove(i);
    s.remove_ensures(i);
    assert forall|x: int, y: int|
        0 <= x < y < s2.len() implies (#[trigger] s2[x]) != (#[trigger] s2[y]) by {
        let x0: int = if x < i { x } else { x + 1 };
        let y0: int = if y < i { y } else { y + 1 };
        assert(s2[x] == s[x0] && s2[y] == s[y0]);
        assert(s[x0] != s[y0]);
    }
    assert forall|a: AccountId| #[trigger] acct_in(s2, a) <==> (acct_in(s, a) && a != s[i]) by {
        if acct_in(s2, a) {
            let j = choose|j: int| 0 <= j < s2.len() && (#[trigger] s2[j]) == a;
            let j0: int = if j < i { j } else { j + 1 };
            assert(s2[j] == s[j0]);
            assert(acct_in(s, a));
            assert(j0 != i);
            assert(s[j0] != s[i]);
        }
        if acct_in(s, a) && a != s[i] {
            let j = choose|j: int| 0 <= j < s.len() && (#[trigger] s[j]) == a;
            assert(j != i);
            if j < i {
                assert(s2[j] == s[j]);
                assert(acct_in(s2, a));
            } else {
                assert(s2[j - 1] == s[j]);
                assert(acct_in(s2, a));
            }
        }
    }
    assert(Set::new(|a: AccountId| acct_in(s2, a)) =~= Set::new(
        |a: AccountId| acct_in(s, a),
    ).remove(s[i]));
}

/// The identity-verification registry. Records are created only by
/// submission, one per account, and never removed; the verifier set is
/// managed by the owner alone; the owner is fixed at creation.
pub struct DIDVerifier {
    identities: Vec<(AccountId, Identity)>,
    verifiers: Vec<AccountId>,
    owner: AccountId,
    events: Vec<Event>,
}

impl View for DIDVerifier {
    type V = RegistryView;

    closed spec fn view(&self) -> RegistryView {
        RegistryView {
            identities: assoc_map(self.identities@),
            verifiers: Set::new(|a: AccountId| acct_in(self.verifiers@, a)),
            owner: self.owner,
            events: self.events@.map_values(|e: Event| e@),
        }
    }
}

/// The index of `a` in `ids`' keys, if any.
fn find_identity(ids: &Vec<(AccountId, Identity)>, a: &AccountId) -> (res: Option<usize>)
    ensures
        match res {
            Some(i) => i < ids@.len() && ids@[i as int].0 == *a,
            None => !assoc_contains(ids@, *a),
        },
{
    let mut i: usize = 0;
    while i < ids.len()
        invariant
            i <= ids@.len(),
            forall|j: int| 0 <= j < i ==> (#[trigger] ids@[j]).0 != *a,
        decreases ids@.len() - i,
    {
        if account_eq(&ids[i].0, a) {
            return Some(i);
        }
        i = i + 1;
    }
    None
}

/// The index of `a` in `accts`, if any.
fn find_account(accts: &Vec<AccountId>, a: &AccountId) -> (res: Option<usize>)
    ensures
        match res {
            Some(i) => i < accts@.len() && accts@[i as int] == *a,
            None => !acct_in(accts@, *a),
        },
{
    let mut i: usize = 0;
    while i < accts.len()
        invariant
            i <= accts@.len(),
            forall|j: int| 0 <= j < i ==> (#[trigger] accts@[j]) != *a,
        decreases accts@.len() - i,
    {
        if account_eq(&accts[i], a) {
            return Some(i);
        }
        i = i + 1;
    }
    None
}

impl DIDVerifier {
    /// Keys of stored records are unique, and so are the verifier
    /// entries, so each collection stands for exactly one map or set.
    #[verifier::type_invariant]
    spec fn wf(self) -> bool {
        id_keys_unique(self.identities@) && accts_unique(self.verifiers@)
    }

    /// Creates the registry: the creator becomes the fixed owner;
    /// no identities, no verifiers, no recorded notifications.
    pub fn new(caller: AccountId) -> (res: Self)
        ensures
            res@ == (RegistryView {
                identities: Map::<AccountId, IdentityView>::empty(),
                verifiers: Set::<AccountId>::empty(),
                owner: caller,
                events: Seq::<EventView>::empty(),
            }),
    {
        let r = DIDVerifier {
            identities: Vec::new(),
            verifiers: Vec::new(),
            owner: caller,
            events: Vec::new(),
        };
        proof {
            assert(r@.identities =~= Map::<AccountId, IdentityView>::empty());
            assert(r@.verifiers =~= Set::<AccountId>::empty());
            assert(r@.events =~= Seq::<EventView>::empty());
            assert(r@ =~= (RegistryView {
                identities: Map::<AccountId, IdentityView>::empty(),
                verifiers: Set::<AccountId>::empty(),
                owner: caller,
                events: Seq::<EventView>::empty(),
            }));
        }
        r
    }

    /// Records a fresh identity claim for the caller. Any field values
    /// are accepted; the one failure, `AlreadySubmitted`, answers a
    /// caller that already holds a record, and leaves the registry
    /// unchanged.
    pub fn submit_identity(
        &mut self,
        caller: AccountId,
        name: String,
        age: u32,
        document_id: String,
        proof_hash: [u8; 32],
    ) -> (res: Result<(), Error>)
        ensures
            ({
                let (post, r) = submit_transition(
                    old(self)@,
                    caller,
                    name@,
                    age,
                    document_id@,
                    proof_hash@,
                );
                final(self)@ == post && res == r
            }),
    {
        proof {
            use_type_invariant(&*self);
        }
        match find_identity(&self.identities, &caller) {
            Some(_) => Err(Error::AlreadySubmitted),
            None => {
                let identity = Identity {
                    name: name.clone(),
                    age: age,
                    document_id: document_id,
                    proof_hash: proof_hash,
                    is_verified: false,
                    verifier: None,
                };
                let ghost pre = self@;
                let mut ids: Vec<(AccountId, Identity)> = Vec::new();
                core::mem::swap(&mut ids, &mut self.identities);
                let ghost s0 = ids@;
                let ghost gpair = (caller, identity);
                proof {
                    lemma_assoc_push(s0, gpair);
                }
                ids.push((caller, identity));
                self.identities = ids;
                let ev = Event::Submitted(
                    IdentitySubmitted {
                        account: caller,
                        name: name,
                        age: age,
                        proof_hash: proof_hash,
                    },
                );
                let ghost gev = ev;
                let mut evs: Vec<Event> = Vec::new();
                core::mem::swap(&mut evs, &mut self.events);
                evs.push(ev);
                self.events = evs;
                proof {
                    let (post, r) = submit_transition(
                        pre,
                        caller,
                        name@,
                        age,
                        document_id@,
                        proof_hash@,
                    );
                    assert(gpair.1@ == submitted_identity(name@, age, document_id@, proof_hash@));
                    assert(self@.identities =~= post.identities);
                    assert(self@.events =~= old(self).events@.map_values(|e: Event| e@).push(
                        gev@,
                    ));
                    assert(self@.events =~= post.events);
                    assert(self@ =~= post);
                }
                Ok(())
            },
        }
    }

    /// Marks `account`'s record verified by the caller when the caller
    /// is an authorized verifier, the record exists, is not yet
    /// verified, and the presented proof hash equals the stored one;
    /// the checks fail in exactly that order, and any failure leaves
    /// the registry unchanged.
    pub fn verify_identity(
        &mut self,
        caller: AccountId,
        account: AccountId,
        proof_hash: [u8; 32],
    ) -> (res: Result<(), Error>)
        ensures
            ({
                let (post, r) = verify_transition(old(self)@, caller, account, proof_hash@);
                final(self)@ == post && res == r
            }),
    {
        proof {
            use_type_invariant(&*self);
        }
        if find_account(&self.verifiers, &caller).is_none() {
            return Err(Error::NotAuthorized);
        }
        let idx = match find_identity(&self.identities, &account) {
            None => {
                return Err(Error::NotFound);
            },
            Some(i) => i,
        };
        proof {
            lemma_assoc_index(self.identities@, account);
        }
        if self.identities[idx].1.is_verified {
            return Err(Error::AlreadyVerified);
        }
        if !bytes32_eq(&self.identities[idx].1.proof_hash, &proof_hash) {
            return Err(Error::ProofMismatch);
        }
        let ghost pre = self@;
        let mut ids: Vec<(AccountId, Identity)> = Vec::new();
        core::mem::swap(&mut ids, &mut self.identities);
        let ghost s0 = ids@;
        ids[idx].1.is_verified = true;
        ids[idx].1.verifier = Some(caller);
        let ghost newpair = ids@[idx as int];
        proof {
            assert(ids@ =~= s0.update(idx as int, (s0[idx as int].0, newpair.1)));
            lemma_assoc_update(s0, idx as int, newpair.1);
        }
        self.identities = ids;
        let ev = Event::Verified(IdentityVerified { account: account, verifier: caller });
        let ghost gev = ev;
        let mut evs: Vec<Event> = Vec::new();
        core::mem::swap(&mut evs, &mut self.events);
        evs.push(ev);
        self.events = evs;
        proof {
            let (post, r) = verify_transition(pre, caller, account, proof_hash@);
            assert(newpair.1@ == (IdentityView {
                name: pre.identities[account].name,
                age: pre.identities[account].age,
                document_id: pre.identities[account].document_id,
                proof_hash: pre.identities[account].proof_hash,
                is_verified: true,
                verifier: Some(caller),
            }));
            assert(self@.identities =~= post.identities);
            assert(self@.events =~= old(self).events@.map_values(|e: Event| e@).push(gev@));
            assert(self@.events =~= post.events);
            assert(self@ =~= post);
        }
        Ok(())
    }

    /// Grants `verifier` the right to verify identities. Owner only;
    /// adding a present member changes nothing. A non-owner caller gets
    /// `NotAuthorized` and the registry is unchanged.
    pub fn add_verifier(&mut self, caller: AccountId, verifier: AccountId) -> (res: Result<
        (),
        Error,
    >)
        ensures
            ({
                let (post, r) = add_verifier_transition(old(self)@, caller, verifier);
                final(self)@ == post && res == r
            }),
    {
        proof {
            use_type_invariant(&*self);
        }
        if !account_eq(&caller, &self.owner) {
            return Err(Error::NotAuthorized);
        }
        let ghost pre = self@;
        match find_account(&self.verifiers, &verifier) {
            Some(_) => {
                proof {
                    assert(pre.verifiers.insert(verifier) =~= pre.verifiers);
                    assert(self@ =~= add_verifier_transition(pre, caller, verifier).0);
                }
                Ok(())
            },
            None => {
                let mut vs: Vec<AccountId> = Vec::new();
                core::mem::swap(&mut vs, &mut self.verifiers);
                let ghost v0 = vs@;
                proof {
                    lemma_acct_push(v0, verifier);
                }
                vs.push(verifier);
                self.verifiers = vs;
                proof {
                    assert(self@.verifiers =~= pre.verifiers.insert(verifier));
                    assert(self@ =~= add_verifier_transition(pre, caller, verifier).0);
                }
                Ok(())
            },
        }
    }

    /// Withdraws `verifier`'s right to verify identities. Owner only;
    /// removing an absent member changes nothing. A non-owner caller
    /// gets `NotAuthorized` and the registry is unchanged.
    pub fn remove_verifier(&mut self, caller: AccountId, verifier: AccountId) -> (res: Result<
        (),
        Error,
    >)
        ensures
            ({
                let (post, r) = remove_verifier_transition(old(self)@, caller, verifier);
                final(self)@ == post && res == r
            }),
    {
        proof {
            use_type_invariant(&*self);
        }
        if !account_eq(&caller, &self.owner) {
            return Err(Error::NotAuthorized);
        }
        let ghost pre = self@;
        match find_account(&self.verifiers, &verifier) {
            None => {
                proof {
                    assert(pre.verifiers.remove(verifier) =~= pre.verifiers);
                    assert(self@ =~= remove_verifier_transition(pre, caller, verifier).0);
                }
                Ok(())
            },
            Some(i) => {
                let mut vs: Vec<AccountId> = Vec::new();
                core::mem::swap(&mut vs, &mut self.verifiers);
                let ghost v0 = vs@;
                proof {
                    lemma_acct_remove(v0, i as int);
                }
                vs.remove(i);
                self.verifiers = vs;
                proof {
                    assert(self@.verifiers =~= pre.verifiers.remove(verifier));
                    assert(self@ =~= remove_verifier_transition(pre, caller, verifier).0);
                }
                Ok(())
            },
        }
    }

    /// Whether `account` holds a record that has been verified. Unknown
    /// accounts answer `false`. Pure read, open to any caller.
    pub fn is_verified(&self, account: AccountId) -> (res: bool)
        ensures
            res == (self@.identities.dom().contains(account)
                && self@.identities[account].is_verified),
    {
        proof {
            use_type_invariant(&*self);
        }
        match find_identity(&self.identities, &account) {
            Some(i) => {
                proof {
                    lemma_assoc_index(self.identities@, account);
                }
                self.identities[i].1.is_verified
            },
            None => false,
        }
    }

    /// A copy of the record stored for `account`, if any. Pure read,
    /// open to any caller.
    pub fn get_identity(&self, account: AccountId) -> (res: Option<Identity>)
        ensures
            match res {
                Some(id) => self@.identities.dom().contains(account)
                    && id@ == self@.identities[account],
                None => !self@.identities.dom().contains(account),
            },
    {
        proof {
            use_type_invariant(&*self);
        }
        match find_identity(&self.identities, &account) {
            Some(i) => {
                proof {
                    lemma_assoc_index(self.identities@, account);
                }
                Some(self.identities[i].1.clone())
            },
            None => None,
        }
    }

    /// Whether `account` is currently an authorized verifier. Pure
    /// read, open to any caller.
    pub fn is_verifier(&self, account: AccountId) -> (res: bool)
        ensures
            res == self@.verifiers.contains(account),
    {
        match find_account(&self.verifiers, &account) {
            Some(_) => true,
            None => false,
        }
    }

    /// Read-only access to the recorded notifications, in emission
    /// order.
    pub fn events(&self) -> (res: &Vec<Event>)
        ensures
            res@.map_values(|e: Event| e@) == self@.events,
    {
        &self.events
    }
}

} // verus!
