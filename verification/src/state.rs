//! The registry as a mathematical state machine: what its three stores and
//! its notification log hold, and how each request changes them.

use vstd::prelude::*;
use crate::address::Address;
use crate::document::{
    spec_register_record, spec_revoke_record, spec_verify_record, DocumentInfo, Verification,
};
use crate::error::RegistryError;
use crate::event::EventView;
use crate::owner_index::{documents_of, spec_add};

verus! {

/// A request to the registry.
pub enum Call {
    /// Register a fingerprint for `caller` at time `timestamp`.
    RegisterDocument { document_hash: Seq<u8>, caller: Address, timestamp: u64 },
    /// Ask what is known of a fingerprint.
    VerifyDocument { document_hash: Seq<u8> },
    /// Revoke the attestation of a fingerprint on behalf of `caller`.
    RevokeDocument { document_hash: Seq<u8>, caller: Address },
    /// Ask for the fingerprints that `user` registered.
    GetUserDocuments { user: Address },
    /// Ask for the number of registered fingerprints.
    GetTotalDocuments,
}

/// Everything the registry remembers.
pub struct RegistryState {
    /// The record of each registered fingerprint.
    pub records: Map<Seq<u8>, DocumentInfo>,
    /// For each identity, the fingerprints it registered, oldest first.
    pub owned: Map<Address, Seq<Seq<u8>>>,
    /// The number of successful registrations.
    pub total: nat,
    /// The notifications emitted so far, oldest first.
    pub events: Seq<EventView>,
}

impl RegistryState {
    /// The state of a registry that was just created.
    pub open spec fn empty() -> RegistryState {
        RegistryState {
            records: Map::empty(),
            owned: Map::empty(),
            total: 0,
            events: Seq::empty(),
        }
    }

    /// The record of a fingerprint, if it has one.
    pub open spec fn record(self, document_hash: Seq<u8>) -> Option<DocumentInfo> {
        if self.records.dom().contains(document_hash) {
            Some(self.records[document_hash])
        } else {
            None
        }
    }

    /// The fingerprints listed for an identity, oldest first.
    pub open spec fn documents_of(self, owner: Address) -> Seq<Seq<u8>> {
        documents_of(self.owned, owner)
    }

    /// Whether `document_hash` is listed for `owner`.
    pub open spec fn lists(self, owner: Address, document_hash: Seq<u8>) -> bool {
        self.documents_of(owner).contains(document_hash)
    }

    /// Whether `document_hash` has a record whose owner is `owner`.
    pub open spec fn owns(self, owner: Address, document_hash: Seq<u8>) -> bool {
        self.records.dom().contains(document_hash) && self.records[document_hash].owner == owner
    }

    /// What holds of every state that the registry can reach: the counter
    /// is the number of records, every fingerprint is 32 bytes long, and an
    /// identity's list names exactly the fingerprints whose record it
    /// owns, each once.
    pub open spec fn inv(self) -> bool {
        &&& self.records.dom().finite()
        &&& self.total == self.records.dom().len()
        &&& forall|h: Seq<u8>| #[trigger] self.records.dom().contains(h) ==> h.len() == 32
        &&& forall|o: Address, h: Seq<u8>| #[trigger] self.lists(o, h) <==> self.owns(o, h)
        &&& forall|o: Address| (#[trigger] self.documents_of(o)).no_duplicates()
    }

    /// The outcome of a registration: the record to create, or the reason
    /// for which the request is refused.
    pub open spec fn register_outcome(
        self,
        document_hash: Seq<u8>,
        caller: Address,
        now: u64,
    ) -> Result<DocumentInfo, RegistryError> {
        spec_register_record(document_hash.len(), self.record(document_hash), caller, now)
    }

    /// The state after a registration was asked. A refused request
    /// changes nothing; an accepted one stores the new record, lists the
    /// fingerprint for the caller, adds one to the counter and emits a
    /// notification.
    pub open spec fn register(
        self,
        document_hash: Seq<u8>,
        caller: Address,
        now: u64,
    ) -> RegistryState {
        match self.register_outcome(document_hash, caller, now) {
            Ok(info) => RegistryState {
                records: self.records.insert(document_hash, info),
                owned: spec_add(self.owned, caller, document_hash),
                total: self.total + 1,
                events: self.events.push(
                    EventView::DocumentRegistered { owner: caller, document_hash, timestamp: now },
                ),
            },
            Err(_) => self,
        }
    }

    /// The answer to a query about a fingerprint.
    pub open spec fn verify(self, document_hash: Seq<u8>) -> Verification {
        spec_verify_record(self.record(document_hash))
    }

    /// The outcome of a revocation: the record to store in place of the
    /// current one, or the reason for which the request is refused.
    pub open spec fn revoke_outcome(self, document_hash: Seq<u8>, caller: Address) -> Result<
        DocumentInfo,
        RegistryError,
    > {
        spec_revoke_record(self.record(document_hash), caller)
    }

    /// The state after a revocation was asked. A refused request changes
    /// nothing; an accepted one sets the flag of the record and emits a
    /// notification.
    pub open spec fn revoke(self, document_hash: Seq<u8>, caller: Address) -> RegistryState {
        match self.revoke_outcome(document_hash, caller) {
            Ok(info) => RegistryState {
                records: self.records.insert(document_hash, info),
                owned: self.owned,
                total: self.total,
                events: self.events.push(
                    EventView::DocumentRevoked { owner: caller, document_hash },
                ),
            },
            Err(_) => self,
        }
    }

    /// The state after one request. Queries change nothing.
    pub open spec fn apply(self, call: Call) -> RegistryState {
        match call {
            Call::RegisterDocument { document_hash, caller, timestamp } => self.register(
                document_hash,
                caller,
                timestamp,
            ),
            Call::RevokeDocument { document_hash, caller } => self.revoke(document_hash, caller),
            _ => self,
        }
    }

    /// The reason for which this state refuses `call`, if it does. Queries
    /// are never refused.
    pub open spec fn refusal(self, call: Call) -> Option<RegistryError> {
        match call {
            Call::RegisterDocument { document_hash, caller, timestamp } => {
                self.register_outcome(document_hash, caller, timestamp).err()
            },
            Call::RevokeDocument { document_hash, caller } => {
                self.revoke_outcome(document_hash, caller).err()
            },
            _ => None,
        }
    }

    /// The state after a series of requests, applied in order.
    pub open spec fn run(self, calls: Seq<Call>) -> RegistryState
        decreases calls.len(),
    {
        if calls.len() == 0 {
            self
        } else {
            self.run(calls.drop_last()).apply(calls.last())
        }
    }

    /// Whether `call` is a registration that this state accepts.
    pub open spec fn accepts_registration(self, call: Call) -> bool {
        call matches Call::RegisterDocument { document_hash, caller, timestamp }
            && self.register_outcome(document_hash, caller, timestamp) is Ok
    }

    /// The fingerprints whose registration was accepted in the course of
    /// `calls`, applied in order from this state.
    pub open spec fn registered_during(self, calls: Seq<Call>) -> Set<Seq<u8>>
        decreases calls.len(),
    {
        if calls.len() == 0 {
            Set::empty()
        } else {
            let earlier = self.registered_during(calls.drop_last());
            if self.run(calls.drop_last()).accepts_registration(calls.last()) {
                earlier.insert(calls.last()->RegisterDocument_document_hash)
            } else {
                earlier
            }
        }
    }

    /// A registry that was just created is in a reachable state.
    pub proof fn lemma_empty_inv()
        ensures
            RegistryState::empty().inv(),
    {
        let s = RegistryState::empty();
        assert forall|o: Address, h: Seq<u8>| !#[trigger] s.lists(o, h) by {}
    }

    /// A registration leads from a reachable state to a reachable state.
    pub proof fn lemma_register_keeps_inv(self, document_hash: Seq<u8>, caller: Address, now: u64)
        requires
            self.inv(),
        ensures
            self.register(document_hash, caller, now).inv(),
    {
        let next = self.register(document_hash, caller, now);
        if self.register_outcome(document_hash, caller, now) is Ok {
            let listed = self.documents_of(caller);
            assert(!self.lists(caller, document_hash));
            assert(next.documents_of(caller) == listed.push(document_hash));
            assert forall|o: Address, h: Seq<u8>| #[trigger]
                next.lists(o, h) <==> next.owns(o, h) by {
                assert(self.lists(o, h) <==> self.owns(o, h));
                if o == caller {
                    if h == document_hash {
                        assert(next.documents_of(o)[listed.len() as int] == h);
                    } else if self.lists(o, h) {
                        assert(next.documents_of(o)[listed.index_of(h)] == h);
                    }
                }
            }
            assert forall|o: Address| (#[trigger] next.documents_of(o)).no_duplicates() by {
                assert(self.documents_of(o).no_duplicates());
            }
        }
    }

    /// A revocation leads from a reachable state to a reachable state.
    pub proof fn lemma_revoke_keeps_inv(self, document_hash: Seq<u8>, caller: Address)
        requires
            self.inv(),
        ensures
            self.revoke(document_hash, caller).inv(),
    {
        let next = self.revoke(document_hash, caller);
        if self.revoke_outcome(document_hash, caller) is Ok {
            assert forall|o: Address, h: Seq<u8>| #[trigger]
                next.lists(o, h) <==> next.owns(o, h) by {
                assert(self.lists(o, h) <==> self.owns(o, h));
            }
            assert forall|o: Address| (#[trigger] next.documents_of(o)).no_duplicates() by {
                assert(self.documents_of(o).no_duplicates());
            }
        }
    }
}

} // verus!
