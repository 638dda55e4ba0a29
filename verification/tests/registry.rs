use did_verifier::account::AccountId;
use did_verifier::identity::Event;
use did_verifier::registry::{DIDVerifier, Error};

fn acct(b: u8) -> AccountId {
    AccountId([b; 32])
}

#[test]
fn submit_twice_keeps_first_record() {
    let owner = acct(0);
    let alice = acct(1);
    let mut reg = DIDVerifier::new(owner);
    let h = [7u8; 32];
    let r1 = reg.submit_identity(alice, "Alice".to_string(), 30, "doc1".to_string(), h);
    assert_eq!(r1, Ok(()));
    let r2 = reg.submit_identity(alice, "Other".to_string(), 44, "doc9".to_string(), [9u8; 32]);
    assert_eq!(r2, Err(Error::AlreadySubmitted));
    let stored = reg.get_identity(alice).unwrap();
    assert_eq!(stored.name, "Alice");
    assert_eq!(stored.age, 30);
    assert_eq!(stored.document_id, "doc1");
    assert_eq!(stored.proof_hash, h);
    assert!(!stored.is_verified);
    assert_eq!(stored.verifier, None);
}

#[test]
fn verify_by_non_verifier_is_not_authorized() {
    let owner = acct(0);
    let alice = acct(1);
    let outsider = acct(2);
    let mut reg = DIDVerifier::new(owner);
    let h = [7u8; 32];
    assert_eq!(reg.submit_identity(alice, "Alice".to_string(), 30, "doc1".to_string(), h), Ok(()));
    let r = reg.verify_identity(outsider, alice, h);
    assert_eq!(r, Err(Error::NotAuthorized));
    assert!(!reg.is_verified(alice));
    let stored = reg.get_identity(alice).unwrap();
    assert!(!stored.is_verified);
    assert_eq!(stored.verifier, None);
}

#[test]
fn verify_with_mismatched_hash_is_proof_mismatch() {
    let owner = acct(0);
    let alice = acct(1);
    let vfr = acct(3);
    let mut reg = DIDVerifier::new(owner);
    assert_eq!(reg.add_verifier(owner, vfr), Ok(()));
    assert_eq!(
        reg.submit_identity(alice, "Alice".to_string(), 30, "doc1".to_string(), [7u8; 32]),
        Ok(()),
    );
    let r = reg.verify_identity(vfr, alice, [8u8; 32]);
    assert_eq!(r, Err(Error::ProofMismatch));
    assert!(!reg.is_verified(alice));
}

#[test]
fn second_verification_is_already_verified() {
    let owner = acct(0);
    let alice = acct(1);
    let vfr = acct(3);
    let mut reg = DIDVerifier::new(owner);
    let h = [7u8; 32];
    assert_eq!(reg.add_verifier(owner, vfr), Ok(()));
    assert_eq!(reg.submit_identity(alice, "Alice".to_string(), 30, "doc1".to_string(), h), Ok(()));
    assert_eq!(reg.verify_identity(vfr, alice, h), Ok(()));
    assert!(reg.is_verified(alice));
    let again = reg.verify_identity(vfr, alice, h);
    assert_eq!(again, Err(Error::AlreadyVerified));
    assert!(reg.is_verified(alice));
}

#[test]
fn add_then_remove_verifier_membership() {
    let owner = acct(0);
    let vfr = acct(3);
    let mut reg = DIDVerifier::new(owner);
    assert!(!reg.is_verifier(vfr));
    assert_eq!(reg.add_verifier(owner, vfr), Ok(()));
    assert!(reg.is_verifier(vfr));
    // adding a present member is an accepted no-op
    assert_eq!(reg.add_verifier(owner, vfr), Ok(()));
    assert!(reg.is_verifier(vfr));
    assert_eq!(reg.remove_verifier(owner, vfr), Ok(()));
    assert!(!reg.is_verifier(vfr));
    // removing an absent member is an accepted no-op
    assert_eq!(reg.remove_verifier(owner, vfr), Ok(()));
    assert!(!reg.is_verifier(vfr));
}

#[test]
fn non_owner_cannot_manage_verifiers() {
    let owner = acct(0);
    let outsider = acct(2);
    let vfr = acct(3);
    let mut reg = DIDVerifier::new(owner);
    assert_eq!(reg.add_verifier(outsider, vfr), Err(Error::NotAuthorized));
    assert!(!reg.is_verifier(vfr));
    assert_eq!(reg.add_verifier(owner, vfr), Ok(()));
    assert_eq!(reg.remove_verifier(outsider, vfr), Err(Error::NotAuthorized));
    assert!(reg.is_verifier(vfr));
}

#[test]
fn unknown_account_reads_are_absent_and_unverified() {
    let owner = acct(0);
    let stranger = acct(9);
    let reg = DIDVerifier::new(owner);
    assert!(reg.get_identity(stranger).is_none());
    assert!(!reg.is_verified(stranger));
    assert!(!reg.is_verifier(stranger));
}

#[test]
fn full_flow_submit_and_verify() {
    let owner = acct(0);
    let alice = acct(1);
    let vfr = acct(3);
    let h = [7u8; 32];
    let mut reg = DIDVerifier::new(owner);
    assert_eq!(reg.add_verifier(owner, vfr), Ok(()));
    assert_eq!(reg.submit_identity(alice, "Alice".to_string(), 30, "doc1".to_string(), h), Ok(()));
    assert_eq!(reg.verify_identity(vfr, alice, h), Ok(()));
    assert!(reg.is_verified(alice));
    let stored = reg.get_identity(alice).unwrap();
    assert!(stored.is_verified);
    assert_eq!(stored.verifier, Some(vfr));
    assert_eq!(stored.name, "Alice");
    assert_eq!(stored.age, 30);
    assert_eq!(stored.document_id, "doc1");
    assert_eq!(stored.proof_hash, h);
}

#[test]
fn verify_unknown_account_is_not_found() {
    let owner = acct(0);
    let vfr = acct(3);
    let stranger = acct(9);
    let mut reg = DIDVerifier::new(owner);
    assert_eq!(reg.add_verifier(owner, vfr), Ok(()));
    assert_eq!(reg.verify_identity(vfr, stranger, [7u8; 32]), Err(Error::NotFound));
}

#[test]
fn error_precedence_follows_check_order() {
    let owner = acct(0);
    let alice = acct(1);
    let vfr = acct(3);
    let outsider = acct(2);
    let h = [7u8; 32];
    let wrong = [8u8; 32];
    let mut reg = DIDVerifier::new(owner);
    // authorization is checked before existence: unknown account, outsider caller
    assert_eq!(reg.verify_identity(outsider, alice, h), Err(Error::NotAuthorized));
    assert_eq!(reg.add_verifier(owner, vfr), Ok(()));
    // existence is checked before the hash
    assert_eq!(reg.verify_identity(vfr, alice, wrong), Err(Error::NotFound));
    assert_eq!(reg.submit_identity(alice, "Alice".to_string(), 30, "doc1".to_string(), h), Ok(()));
    assert_eq!(reg.verify_identity(vfr, alice, h), Ok(()));
    // already-verified is checked before the hash
    assert_eq!(reg.verify_identity(vfr, alice, wrong), Err(Error::AlreadyVerified));
}

#[test]
fn events_are_recorded_in_emission_order() {
    let owner = acct(0);
    let alice = acct(1);
    let vfr = acct(3);
    let h = [7u8; 32];
    let mut reg = DIDVerifier::new(owner);
    assert_eq!(reg.add_verifier(owner, vfr), Ok(()));
    assert!(reg.events().is_empty());
    assert_eq!(reg.submit_identity(alice, "Alice".to_string(), 30, "doc1".to_string(), h), Ok(()));
    // a failed operation records nothing
    assert_eq!(
        reg.submit_identity(alice, "Alice".to_string(), 30, "doc1".to_string(), h),
        Err(Error::AlreadySubmitted),
    );
    assert_eq!(reg.verify_identity(vfr, alice, h), Ok(()));
    let events = reg.events();
    assert_eq!(events.len(), 2);
    match &events[0] {
        Event::Submitted(e) => {
            assert_eq!(e.account, alice);
            assert_eq!(e.name, "Alice");
            assert_eq!(e.age, 30);
            assert_eq!(e.proof_hash, h);
        },
        other => panic!("unexpected first event: {:?}", other),
    }
    match &events[1] {
        Event::Verified(e) => {
            assert_eq!(e.account, alice);
            assert_eq!(e.verifier, vfr);
        },
        other => panic!("unexpected second event: {:?}", other),
    }
}

#[test]
fn verifier_membership_is_independent_of_submission() {
    let owner = acct(0);
    let vfr = acct(3);
    let mut reg = DIDVerifier::new(owner);
    assert_eq!(reg.add_verifier(owner, vfr), Ok(()));
    assert!(reg.is_verifier(vfr));
    assert!(reg.get_identity(vfr).is_none());
    // a verifier may itself submit an identity without losing membership
    assert_eq!(reg.submit_identity(vfr, "Vera".to_string(), 40, "doc2".to_string(), [5u8; 32]), Ok(()));
    assert!(reg.is_verifier(vfr));
}
