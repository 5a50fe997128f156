//! Laws that the registry's operations obey, proved over the model.

use vstd::prelude::*;

use crate::model::{create_step, revoke_step, transfer_step, RegistryModel};
use crate::types::{AccountId, BlockNumber, Error};

verus! {

/// Once `create` of a fingerprint by `a` has succeeded, a later `create` of
/// the same fingerprint by any account fails with `ProofAlreadyClaimed`,
/// changes nothing, and leaves `a` as the owner.
pub proof fn lemma_claim_is_unique(
    s: RegistryModel,
    a: AccountId,
    b: AccountId,
    f: Seq<u8>,
    h1: BlockNumber,
    h2: BlockNumber,
)
    requires
        create_step(s, a, f, h1).1 is Ok,
    ensures
        ({
            let s1 = create_step(s, a, f, h1).0;
            let (s2, r) = create_step(s1, b, f, h2);
            &&& r == Err::<(), Error>(Error::ProofAlreadyClaimed)
            &&& s2 == s1
            &&& s2.proofs[f].0 == a
        }),
{
}

/// Of a claim owned by `a`, `revoke` by any other account fails with
/// `NotProofOwner` and changes nothing, while `revoke` by `a` succeeds and
/// leaves the fingerprint unclaimed.
pub proof fn lemma_only_owner_revokes(s: RegistryModel, a: AccountId, b: AccountId, f: Seq<u8>)
    requires
        s.proofs.contains_key(f),
        s.proofs[f].0 == a,
    ensures
        b != a ==> revoke_step(s, b, f) == (s, Err::<(), Error>(Error::NotProofOwner)),
        revoke_step(s, a, f).1 is Ok,
        !revoke_step(s, a, f).0.proofs.contains_key(f),
{
}

/// On an unclaimed fingerprint, `revoke` and `transfer` fail with
/// `NoSuchProof`.
pub proof fn lemma_missing_claim(
    s: RegistryModel,
    x: AccountId,
    r: AccountId,
    f: Seq<u8>,
    h: BlockNumber,
)
    requires
        !s.proofs.contains_key(f),
    ensures
        revoke_step(s, x, f).1 == Err::<(), Error>(Error::NoSuchProof),
        transfer_step(s, x, r, f, h).1 == Err::<(), Error>(Error::NoSuchProof),
{
}

/// After a successful `revoke`, the fingerprint is unclaimed again: a
/// further `revoke` or `transfer` of it fails with `NoSuchProof`.
pub proof fn lemma_revoked_claim_is_missing(
    s: RegistryModel,
    a: AccountId,
    x: AccountId,
    r: AccountId,
    f: Seq<u8>,
    h: BlockNumber,
)
    requires
        revoke_step(s, a, f).1 is Ok,
    ensures
        ({
            let s1 = revoke_step(s, a, f).0;
            &&& revoke_step(s1, x, f).1 == Err::<(), Error>(Error::NoSuchProof)
            &&& transfer_step(s1, x, r, f, h).1 == Err::<(), Error>(Error::NoSuchProof)
        }),
{
}

/// A transfer by the owner of a claim made at any height `h1` succeeds and
/// leaves the claim with the receiver, at the height `h2` of the transfer.
pub proof fn lemma_transfer_sets_owner_and_height(
    s: RegistryModel,
    a: AccountId,
    r: AccountId,
    f: Seq<u8>,
    h1: BlockNumber,
    h2: BlockNumber,
)
    requires
        s.proofs.contains_key(f),
        s.proofs[f] == (a, h1),
    ensures
        transfer_step(s, a, r, f, h2).1 is Ok,
        transfer_step(s, a, r, f, h2).0.proofs[f] == (r, h2),
{
}

/// A failing operation leaves the registry and the event history exactly as
/// they were.
pub proof fn lemma_failure_changes_nothing(
    s: RegistryModel,
    a: AccountId,
    b: AccountId,
    f: Seq<u8>,
    h: BlockNumber,
)
    ensures
        create_step(s, a, f, h).1 is Err ==> create_step(s, a, f, h).0 == s,
        revoke_step(s, a, f).1 is Err ==> revoke_step(s, a, f).0 == s,
        transfer_step(s, a, b, f, h).1 is Err ==> transfer_step(s, a, b, f, h).0 == s,
{
}

} // verus!
