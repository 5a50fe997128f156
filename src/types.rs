//! The values that cross the registry's boundary: identities, heights,
//! errors and events.

use vstd::prelude::*;

use crate::model::EventModel;

verus! {

/// The identity of an already authenticated caller.
pub type AccountId = u64;

/// A block height supplied by the host.
pub type BlockNumber = u64;

/// Why an operation was refused. A refused operation changes nothing.
#[derive(PartialEq, Eq, Structural, Clone, Copy, Debug)]
pub enum Error {
    /// `create_claim` on a fingerprint that is already claimed.
    ProofAlreadyClaimed,
    /// `revoke_claim` or `transfer_claim` on a fingerprint that is not claimed.
    NoSuchProof,
    /// `revoke_claim` or `transfer_claim` by an account that does not own the claim.
    NotProofOwner,
}

/// The record that a successful operation appends to the event history.
#[derive(Debug, PartialEq, Eq)]
pub enum Event {
    /// A claim was created; holds the owner and the fingerprint.
    ClaimCreated(AccountId, Vec<u8>),
    /// A claim was revoked; holds the former owner and the fingerprint.
    ClaimRevoked(AccountId, Vec<u8>),
    /// A claim changed hands; holds the new owner and the fingerprint.
    TransferCreated(AccountId, Vec<u8>),
}

impl View for Event {
    type V = EventModel;

    open spec fn view(&self) -> EventModel {
        match self {
            Event::ClaimCreated(who, proof) => EventModel::ClaimCreated(*who, proof@),
            Event::ClaimRevoked(who, proof) => EventModel::ClaimRevoked(*who, proof@),
            Event::TransferCreated(who, proof) => EventModel::TransferCreated(*who, proof@),
        }
    }
}

} // verus!
