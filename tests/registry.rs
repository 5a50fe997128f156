use poe::{Error, Event, Pallet};

const ALICE: u64 = 1;
const BOB: u64 = 2;
const CAROL: u64 = 3;

fn doc(name: &str) -> Vec<u8> {
    name.as_bytes().to_vec()
}

#[test]
fn scenario_create_then_lookup() {
    let mut p = Pallet::new();
    assert_eq!(p.create_claim(ALICE, doc("doc1"), 10), Ok(()));
    assert_eq!(p.proofs(&doc("doc1")), Some((ALICE, 10)));
    assert_eq!(p.events(), &vec![Event::ClaimCreated(ALICE, doc("doc1"))]);
}

#[test]
fn scenario_second_create_fails() {
    let mut p = Pallet::new();
    assert_eq!(p.create_claim(ALICE, doc("doc1"), 10), Ok(()));
    assert_eq!(p.create_claim(BOB, doc("doc1"), 11), Err(Error::ProofAlreadyClaimed));
    assert_eq!(p.proofs(&doc("doc1")), Some((ALICE, 10)));
    assert_eq!(p.events().len(), 1);
}

#[test]
fn scenario_revoke_by_non_owner_fails() {
    let mut p = Pallet::new();
    assert_eq!(p.create_claim(ALICE, doc("doc1"), 10), Ok(()));
    assert_eq!(p.create_claim(BOB, doc("doc1"), 11), Err(Error::ProofAlreadyClaimed));
    assert_eq!(p.revoke_claim(BOB, doc("doc1")), Err(Error::NotProofOwner));
    assert_eq!(p.proofs(&doc("doc1")), Some((ALICE, 10)));
    assert_eq!(p.events().len(), 1);
}

#[test]
fn scenario_revoke_by_owner() {
    let mut p = Pallet::new();
    assert_eq!(p.create_claim(ALICE, doc("doc1"), 10), Ok(()));
    assert_eq!(p.create_claim(BOB, doc("doc1"), 11), Err(Error::ProofAlreadyClaimed));
    assert_eq!(p.revoke_claim(BOB, doc("doc1")), Err(Error::NotProofOwner));
    assert_eq!(p.revoke_claim(ALICE, doc("doc1")), Ok(()));
    assert_eq!(p.proofs(&doc("doc1")), None);
    assert_eq!(
        p.events(),
        &vec![
            Event::ClaimCreated(ALICE, doc("doc1")),
            Event::ClaimRevoked(ALICE, doc("doc1")),
        ]
    );
}

#[test]
fn scenario_transfer_then_revoke() {
    let mut p = Pallet::new();
    assert_eq!(p.create_claim(ALICE, doc("doc2"), 5), Ok(()));
    assert_eq!(p.transfer_claim(ALICE, BOB, doc("doc2"), 9), Ok(()));
    assert_eq!(p.proofs(&doc("doc2")), Some((BOB, 9)));
    assert_eq!(p.revoke_claim(ALICE, doc("doc2")), Err(Error::NotProofOwner));
    assert_eq!(p.revoke_claim(BOB, doc("doc2")), Ok(()));
    assert_eq!(p.proofs(&doc("doc2")), None);
    assert_eq!(
        p.events(),
        &vec![
            Event::ClaimCreated(ALICE, doc("doc2")),
            Event::TransferCreated(BOB, doc("doc2")),
            Event::ClaimRevoked(BOB, doc("doc2")),
        ]
    );
}

#[test]
fn create_twice_by_same_account_fails() {
    let mut p = Pallet::new();
    assert_eq!(p.create_claim(ALICE, doc("x"), 1), Ok(()));
    assert_eq!(p.create_claim(ALICE, doc("x"), 2), Err(Error::ProofAlreadyClaimed));
    assert_eq!(p.proofs(&doc("x")), Some((ALICE, 1)));
}

#[test]
fn revoke_and_transfer_of_unknown_proof_fail() {
    let mut p = Pallet::new();
    assert_eq!(p.revoke_claim(ALICE, doc("none")), Err(Error::NoSuchProof));
    assert_eq!(p.transfer_claim(ALICE, BOB, doc("none"), 3), Err(Error::NoSuchProof));
    assert!(p.events().is_empty());
}

#[test]
fn revoke_and_transfer_after_revoke_fail() {
    let mut p = Pallet::new();
    assert_eq!(p.create_claim(ALICE, doc("gone"), 1), Ok(()));
    assert_eq!(p.revoke_claim(ALICE, doc("gone")), Ok(()));
    assert_eq!(p.revoke_claim(ALICE, doc("gone")), Err(Error::NoSuchProof));
    assert_eq!(p.transfer_claim(ALICE, BOB, doc("gone"), 4), Err(Error::NoSuchProof));
    assert_eq!(p.events().len(), 2);
}

#[test]
fn missing_claim_is_checked_before_ownership() {
    let mut p = Pallet::new();
    assert_eq!(p.create_claim(ALICE, doc("a"), 1), Ok(()));
    assert_eq!(p.revoke_claim(BOB, doc("b")), Err(Error::NoSuchProof));
    assert_eq!(p.transfer_claim(BOB, CAROL, doc("b"), 2), Err(Error::NoSuchProof));
}

#[test]
fn transfer_by_non_owner_fails() {
    let mut p = Pallet::new();
    assert_eq!(p.create_claim(ALICE, doc("t"), 1), Ok(()));
    assert_eq!(p.transfer_claim(BOB, CAROL, doc("t"), 2), Err(Error::NotProofOwner));
    assert_eq!(p.proofs(&doc("t")), Some((ALICE, 1)));
    assert_eq!(p.events().len(), 1);
}

#[test]
fn transfer_resets_height_regardless_of_creation_height() {
    let mut p = Pallet::new();
    assert_eq!(p.create_claim(ALICE, doc("h"), 100), Ok(()));
    assert_eq!(p.transfer_claim(ALICE, CAROL, doc("h"), 7), Ok(()));
    assert_eq!(p.proofs(&doc("h")), Some((CAROL, 7)));
}

#[test]
fn self_transfer_refreshes_height() {
    let mut p = Pallet::new();
    assert_eq!(p.create_claim(ALICE, doc("s"), 3), Ok(()));
    assert_eq!(p.transfer_claim(ALICE, ALICE, doc("s"), 8), Ok(()));
    assert_eq!(p.proofs(&doc("s")), Some((ALICE, 8)));
    assert_eq!(p.events()[1], Event::TransferCreated(ALICE, doc("s")));
}

#[test]
fn failures_leave_state_and_events_unchanged() {
    let mut p = Pallet::new();
    assert_eq!(p.create_claim(ALICE, doc("k"), 1), Ok(()));
    assert_eq!(p.create_claim(BOB, doc("k"), 2), Err(Error::ProofAlreadyClaimed));
    assert_eq!(p.revoke_claim(BOB, doc("k")), Err(Error::NotProofOwner));
    assert_eq!(p.transfer_claim(BOB, BOB, doc("k"), 3), Err(Error::NotProofOwner));
    assert_eq!(p.revoke_claim(BOB, doc("other")), Err(Error::NoSuchProof));
    assert_eq!(p.proofs(&doc("k")), Some((ALICE, 1)));
    assert_eq!(p.proofs(&doc("other")), None);
    assert_eq!(p.events(), &vec![Event::ClaimCreated(ALICE, doc("k"))]);
}

#[test]
fn fingerprints_are_compared_byte_for_byte() {
    let mut p = Pallet::new();
    assert_eq!(p.create_claim(ALICE, vec![1, 2, 3], 1), Ok(()));
    assert_eq!(p.create_claim(BOB, vec![1, 2], 2), Ok(()));
    assert_eq!(p.create_claim(CAROL, vec![1, 2, 4], 3), Ok(()));
    assert_eq!(p.create_claim(CAROL, vec![], 4), Ok(()));
    assert_eq!(p.proofs(&vec![1, 2, 3]), Some((ALICE, 1)));
    assert_eq!(p.proofs(&vec![1, 2]), Some((BOB, 2)));
    assert_eq!(p.proofs(&vec![1, 2, 4]), Some((CAROL, 3)));
    assert_eq!(p.proofs(&vec![]), Some((CAROL, 4)));
    assert_eq!(p.proofs(&vec![1]), None);
}

#[test]
fn revoke_in_the_middle_keeps_other_claims() {
    let mut p = Pallet::new();
    assert_eq!(p.create_claim(ALICE, doc("one"), 1), Ok(()));
    assert_eq!(p.create_claim(BOB, doc("two"), 2), Ok(()));
    assert_eq!(p.create_claim(CAROL, doc("three"), 3), Ok(()));
    assert_eq!(p.revoke_claim(BOB, doc("two")), Ok(()));
    assert_eq!(p.proofs(&doc("one")), Some((ALICE, 1)));
    assert_eq!(p.proofs(&doc("two")), None);
    assert_eq!(p.proofs(&doc("three")), Some((CAROL, 3)));
    assert_eq!(p.create_claim(CAROL, doc("two"), 4), Ok(()));
    assert_eq!(p.proofs(&doc("two")), Some((CAROL, 4)));
}

#[test]
fn largest_values_are_kept() {
    let mut p = Pallet::new();
    assert_eq!(p.create_claim(u64::MAX, doc("max"), u64::MAX), Ok(()));
    assert_eq!(p.proofs(&doc("max")), Some((u64::MAX, u64::MAX)));
}
