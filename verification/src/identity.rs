//! Identity records and the notifications recorded about them.

use vstd::prelude::*;
use crate::account::AccountId;

verus! {

/// Spec-level model of an identity record.
#[verifier::ext_equal]
pub struct IdentityView {
    pub name: Seq<char>,
    pub age: u32,
    pub document_id: Seq<char>,
    pub proof_hash: Seq<u8>,
    pub is_verified: bool,
    pub verifier: Option<AccountId>,
}

/// A self-asserted identity claim keyed by an account, together with its
/// verification status. The proof hash is an opaque 32-byte value,
/// compared only for equality.
#[derive(Debug, PartialEq, Eq)]
pub struct Identity {
    pub name: String,
    pub age: u32,
    pub document_id: String,
    pub proof_hash: [u8; 32],
    pub is_verified: bool,
    pub verifier: Option<AccountId>,
}

impl View for Identity {
    type V = IdentityView;

    open spec fn view(&self) -> IdentityView {
        IdentityView {
            name: self.name@,
            age: self.age,
            document_id: self.document_id@,
            proof_hash: self.proof_hash@,
            is_verified: self.is_verified,
            verifier: self.verifier,
        }
    }
}

impl Clone for Identity {
    /// Field-for-field copy of the record.
    fn clone(&self) -> (res: Self)
        ensures
            res == *self,
    {
        Identity {
            name: self.name.clone(),
            age: self.age,
            document_id: self.document_id.clone(),
            proof_hash: self.proof_hash,
            is_verified: self.is_verified,
            verifier: self.verifier,
        }
    }
}

/// Notification recorded after a successful submission.
#[derive(Debug, PartialEq, Eq)]
pub struct IdentitySubmitted {
    pub account: AccountId,
    pub name: String,
    pub age: u32,
    pub proof_hash: [u8; 32],
}

/// Notification recorded after a successful verification.
#[derive(Debug, Clone, Copy, PartialEq, Eq)]
pub struct IdentityVerified {
    pub account: AccountId,
    pub verifier: AccountId,
}

/// Spec-level model of a recorded notification.
#[verifier::ext_equal]
pub enum EventView {
    Submitted { account: AccountId, name: Seq<char>, age: u32, proof_hash: Seq<u8> },
    Verified { account: AccountId, verifier: AccountId },
}

/// A recorded notification, kept in emission order.
#[derive(Debug, PartialEq, Eq)]
pub enum Event {
    Submitted(IdentitySubmitted),
    Verified(IdentityVerified),
}

impl View for Event {
    type V = EventView;

    open spec fn view(&self) -> EventView {
        match self {
            Event::Submitted(e) => EventView::Submitted {
                account: e.account,
                name: e.name@,
                age: e.age,
                proof_hash: e.proof_hash@,
            },
            Event::Verified(e) => EventView::Verified { account: e.account, verifier: e.verifier },
        }
    }
}

} // verus!
