//! The executable registry.

use vstd::prelude::*;

use crate::model::{
    create_step, empty_registry, revoke_step, transfer_step, EventModel, RegistryModel,
};
use crate::types::{AccountId, BlockNumber, Error, Event};

verus! {

/// Whether two byte strings are equal.
fn bytes_eq(a: &Vec<u8>, b: &Vec<u8>) -> (r: bool)
    ensures
        r == (a@ == b@),
{
    if a.len() != b.len() {
        return false;
    }
    let mut i: usize = 0;
    while i < a.len()
        invariant
            a@.len() == b@.len(),
            0 <= i <= a@.len(),
            forall|j: int| 0 <= j < i ==> a@[j] == b@[j],
        decreases a@.len() - i,
    {
        if a[i] != b[i] {
            return false;
        }
        i = i + 1;
    }
    assert(a@ =~= b@);
    true
}

/// The claim registry: which account holds each fingerprint, since which
/// height, and the events emitted so far.
///
/// `keys[i]` is a claimed fingerprint and `claims[i]` its (owner, height);
/// no fingerprint appears twice.
pub struct Pallet {
    keys: Vec<Vec<u8>>,
    claims: Vec<(AccountId, BlockNumber)>,
    events: Vec<Event>,
    proofs_map: Ghost<Map<Seq<u8>, (AccountId, BlockNumber)>>,
}

impl View for Pallet {
    type V = RegistryModel;

    closed spec fn view(&self) -> RegistryModel {
        RegistryModel {
            proofs: self.proofs_map@,
            events: self.events@.map_values(|e: Event| e@),
        }
    }
}

impl Pallet {
    /// The internal invariant: the two vectors line up, fingerprints are
    /// unique, and the map holds exactly the listed claims.
    pub closed spec fn wf(&self) -> bool {
        &&& self.keys@.len() == self.claims@.len()
        &&& forall|i: int, j: int|
            0 <= i < self.keys@.len() && 0 <= j < self.keys@.len() && i != j
                ==> self.keys@[i]@ != self.keys@[j]@
        &&& forall|i: int|
            #![trigger self.keys@[i]]
            0 <= i < self.keys@.len() ==> {
                &&& self.proofs_map@.contains_key(self.keys@[i]@)
                &&& self.proofs_map@[self.keys@[i]@] == self.claims@[i]
            }
        &&& forall|k: Seq<u8>|
            #[trigger] self.proofs_map@.contains_key(k) ==> exists|i: int|
                0 <= i < self.keys@.len() && self.keys@[i]@ == k
    }

    /// An empty registry with no events.
    pub fn new() -> (r: Pallet)
        ensures
            r.wf(),
            r@ == empty_registry(),
    {
        let r = Pallet {
            keys: Vec::new(),
            claims: Vec::new(),
            events: Vec::new(),
            proofs_map: Ghost(Map::empty()),
        };
        assert(r@.events =~= Seq::<EventModel>::empty());
        r
    }

    /// The position of `proof` among the claimed fingerprints.
    fn find(&self, proof: &Vec<u8>) -> (r: Option<usize>)
        requires
            self.wf(),
        ensures
            match r {
                Some(i) => i < self.keys@.len() && self.keys@[i as int]@ == proof@,
                None => !self.proofs_map@.contains_key(proof@),
            },
    {
        let mut i: usize = 0;
        while i < self.keys.len()
            invariant
                self.wf(),
                0 <= i <= self.keys@.len(),
                forall|j: int| 0 <= j < i ==> self.keys@[j]@ != proof@,
            decreases self.keys@.len() - i,
        {
            if bytes_eq(&self.keys[i], proof) {
                return Some(i);
            }
            i = i + 1;
        }
        None
    }

    /// The owner of `proof` and the height since which it holds it, if the
    /// fingerprint is claimed.
    pub fn proofs(&self, proof: &Vec<u8>) -> (r: Option<(AccountId, BlockNumber)>)
        requires
            self.wf(),
        ensures
            r == (if self@.proofs.contains_key(proof@) {
                Some(self@.proofs[proof@])
            } else {
                None
            }),
    {
        match self.find(proof) {
            Some(i) => Some(self.claims[i]),
            None => None,
        }
    }

    /// The events emitted so far, oldest first.
    pub fn events(&self) -> (r: &Vec<Event>)
        ensures
            r@.map_values(|e: Event| e@) == self@.events,
    {
        &self.events
    }
    /// Claims `proof` for `sender` at height `current_block`.
    ///
    /// Fails with `ProofAlreadyClaimed` when the fingerprint is already
    /// claimed; otherwise records the claim and emits `ClaimCreated`.
    pub fn create_claim(&mut self, sender: AccountId, proof: Vec<u8>, current_block: BlockNumber) -> (r: Result<(), Error>)
        requires
            old(self).wf(),
        ensures
            final(self).wf(),
            (final(self)@, r) == create_step(old(self)@, sender, proof@, current_block),
    {
        if self.find(&proof).is_some() {
            return Err(Error::ProofAlreadyClaimed);
        }
        let ghost pre = self@;
        let key = proof.clone();
        assert(key@ =~= proof@);
        self.keys.push(key);
        self.claims.push((sender, current_block));
        self.proofs_map = Ghost(self.proofs_map@.insert(proof@, (sender, current_block)));
        let ghost pre_events = self.events@;
        self.events.push(Event::ClaimCreated(sender, proof));
        proof {
            assert(self.events@ == pre_events.push(Event::ClaimCreated(sender, proof)));
            assert(self.events@.map_values(|e: Event| e@) =~= pre.events.push(
                EventModel::ClaimCreated(sender, proof@),
            ));
            let n = self.keys@.len() - 1;
            assert forall|k: Seq<u8>| #[trigger] self.proofs_map@.contains_key(k) implies exists|i: int|
                0 <= i < self.keys@.len() && self.keys@[i]@ == k by {
                if k == proof@ {
                    assert(self.keys@[n]@ == k);
                } else {
                    assert(pre.proofs.contains_key(k));
                    let i = choose|i: int| 0 <= i < n && old(self).keys@[i]@ == k;
                    assert(self.keys@[i] == old(self).keys@[i]);
                }
            }
        }
        Ok(())
    }

    /// Revokes the claim on `proof` held by `sender`.
    ///
    /// Fails with `NoSuchProof` when the fingerprint is not claimed, then
    /// with `NotProofOwner` when `sender` does not own it; otherwise removes
    /// the claim and emits `ClaimRevoked`.
    pub fn revoke_claim(&mut self, sender: AccountId, proof: Vec<u8>) -> (r: Result<(), Error>)
        requires
            old(self).wf(),
        ensures
            final(self).wf(),
            (final(self)@, r) == revoke_step(old(self)@, sender, proof@),
    {
        let i = match self.find(&proof) {
            Some(i) => i,
            None => return Err(Error::NoSuchProof),
        };
        let (owner, _) = self.claims[i];
        if sender != owner {
            return Err(Error::NotProofOwner);
        }
        let ghost pre = self@;
        let ghost old_keys = self.keys@;
        self.keys.remove(i);
        self.claims.remove(i);
        self.proofs_map = Ghost(self.proofs_map@.remove(proof@));
        let ghost pre_events = self.events@;
        self.events.push(Event::ClaimRevoked(sender, proof));
        proof {
            assert(self.events@ == pre_events.push(Event::ClaimRevoked(sender, proof)));
            assert(self.events@.map_values(|e: Event| e@) =~= pre.events.push(
                EventModel::ClaimRevoked(sender, proof@),
            ));
            assert forall|j: int|
                #![trigger self.keys@[j]]
                0 <= j < self.keys@.len() implies {
                    &&& self.proofs_map@.contains_key(self.keys@[j]@)
                    &&& self.proofs_map@[self.keys@[j]@] == self.claims@[j]
                } by {
                if j < i {
                    assert(self.keys@[j] == old_keys[j]);
                    assert(old_keys[j]@ != old_keys[i as int]@);
                } else {
                    assert(self.keys@[j] == old_keys[j + 1]);
                    assert(old_keys[j + 1]@ != old_keys[i as int]@);
                }
            }
            assert forall|k: Seq<u8>| #[trigger] self.proofs_map@.contains_key(k) implies exists|j: int|
                0 <= j < self.keys@.len() && self.keys@[j]@ == k by {
                let j = choose|j: int| 0 <= j < old_keys.len() && old_keys[j]@ == k;
                if j < i {
                    assert(self.keys@[j] == old_keys[j]);
                } else {
                    assert(j != i);
                    assert(self.keys@[j - 1] == old_keys[j]);
                }
            }
        }
        Ok(())
    }

    /// Hands the claim on `proof` from `sender` to `receiver` at height
    /// `current_block`.
    ///
    /// Fails with `NoSuchProof` when the fingerprint is not claimed, then
    /// with `NotProofOwner` when `sender` does not own it; otherwise the claim
    /// becomes (`receiver`, `current_block`) and `TransferCreated` is emitted
    /// with the new owner. A transfer to oneself is allowed.
    pub fn transfer_claim(&mut self, sender: AccountId, receiver: AccountId, proof: Vec<u8>, current_block: BlockNumber) -> (r: Result<(), Error>)
        requires
            old(self).wf(),
        ensures
            final(self).wf(),
            (final(self)@, r) == transfer_step(old(self)@, sender, receiver, proof@, current_block),
    {
        let i = match self.find(&proof) {
            Some(i) => i,
            None => return Err(Error::NoSuchProof),
        };
        let (owner, _) = self.claims[i];
        if sender != owner {
            return Err(Error::NotProofOwner);
        }
        let ghost pre = self@;
        self.claims.set(i, (receiver, current_block));
        self.proofs_map = Ghost(self.proofs_map@.insert(proof@, (receiver, current_block)));
        let ghost pre_events = self.events@;
        self.events.push(Event::TransferCreated(receiver, proof));
        proof {
            assert(self.events@ == pre_events.push(Event::TransferCreated(receiver, proof)));
            assert(self.events@.map_values(|e: Event| e@) =~= pre.events.push(
                EventModel::TransferCreated(receiver, proof@),
            ));
            assert forall|j: int|
                #![trigger self.keys@[j]]
                0 <= j < self.keys@.len() implies {
                    &&& self.proofs_map@.contains_key(self.keys@[j]@)
                    &&& self.proofs_map@[self.keys@[j]@] == self.claims@[j]
                } by {
                if j != i {
                    assert(self.keys@[j]@ != self.keys@[i as int]@);
                }
            }
            assert forall|k: Seq<u8>| #[trigger] self.proofs_map@.contains_key(k) implies exists|j: int|
                0 <= j < self.keys@.len() && self.keys@[j]@ == k by {
                if k == proof@ {
                    assert(self.keys@[i as int]@ == k);
                } else {
                    assert(pre.proofs.contains_key(k));
                }
            }
        }
        Ok(())
    }
}

} // verus!
