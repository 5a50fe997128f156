//! A proof-of-existence claim registry.
//!
//! The registry records which account first claimed a content fingerprint
//! (an opaque byte string) and at which block height, and lets that account
//! revoke the claim or hand it over to another account. Every operation
//! either applies in full, appending exactly one event, or fails and leaves
//! the registry untouched.
//!
//! The abstract behaviour of each operation is a spec function in `model`;
//! the executable `Pallet` in `pallet` is proved to follow it, and the laws
//! that the operations obey are proved over the model in `laws`.

pub mod types;
pub mod model;
pub mod pallet;
pub mod laws;

pub use types::{AccountId, BlockNumber, Error, Event};
pub use model::{EventModel, RegistryModel};
pub use pallet::Pallet;
