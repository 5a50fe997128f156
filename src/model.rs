//! The mathematical model of the registry and of its three operations.

use vstd::prelude::*;

use crate::types::{AccountId, BlockNumber, Error};

verus! {

/// An event, with the fingerprint as a sequence of bytes.
pub enum EventModel {
    ClaimCreated(AccountId, Seq<u8>),
    ClaimRevoked(AccountId, Seq<u8>),
    TransferCreated(AccountId, Seq<u8>),
}

/// The registry as a map from fingerprint to (owner, height at which the
/// owner took it), together with the history of events emitted so far.
pub struct RegistryModel {
    pub proofs: Map<Seq<u8>, (AccountId, BlockNumber)>,
    pub events: Seq<EventModel>,
}

/// The empty registry.
pub open spec fn empty_registry() -> RegistryModel {
    RegistryModel { proofs: Map::empty(), events: Seq::empty() }
}

/// `create`: claims `proof` for `sender` at height `now` when it is unclaimed.
pub open spec fn create_step(
    s: RegistryModel,
    sender: AccountId,
    proof: Seq<u8>,
    now: BlockNumber,
) -> (RegistryModel, Result<(), Error>) {
    if s.proofs.contains_key(proof) {
        (s, Err(Error::ProofAlreadyClaimed))
    } else {
        (
            RegistryModel {
                proofs: s.proofs.insert(proof, (sender, now)),
                events: s.events.push(EventModel::ClaimCreated(sender, proof)),
            },
            Ok(()),
        )
    }
}

/// `revoke`: removes the claim on `proof` when it exists and `sender` owns it.
/// Existence is checked before ownership.
pub open spec fn revoke_step(s: RegistryModel, sender: AccountId, proof: Seq<u8>) -> (
    RegistryModel,
    Result<(), Error>,
) {
    if !s.proofs.contains_key(proof) {
        (s, Err(Error::NoSuchProof))
    } else if s.proofs[proof].0 != sender {
        (s, Err(Error::NotProofOwner))
    } else {
        (
            RegistryModel {
                proofs: s.proofs.remove(proof),
                events: s.events.push(EventModel::ClaimRevoked(sender, proof)),
            },
            Ok(()),
        )
    }
}

/// `transfer`: hands the claim on `proof` to `receiver` at height `now` when
/// it exists and `sender` owns it. Existence is checked before ownership.
pub open spec fn transfer_step(
    s: RegistryModel,
    sender: AccountId,
    receiver: AccountId,
    proof: Seq<u8>,
    now: BlockNumber,
) -> (RegistryModel, Result<(), Error>) {
    if !s.proofs.contains_key(proof) {
        (s, Err(Error::NoSuchProof))
    } else if s.proofs[proof].0 != sender {
        (s, Err(Error::NotProofOwner))
    } else {
        (
            RegistryModel {
                proofs: s.proofs.insert(proof, (receiver, now)),
                events: s.events.push(EventModel::TransferCreated(receiver, proof)),
            },
            Ok(()),
        )
    }
}

} // verus!
