//! The registry itself: three stores and a notification log, changed only
//! by registrations and revocations.

use vstd::prelude::*;
use vstd::slice::slice_to_vec;
use crate::address::Address;
use crate::counter::DocumentCounter;
use crate::document::{register_record, revoke_record, verify_record, Verification};
use crate::error::RegistryError;
use crate::event::{Event, EventLog};
use crate::owner_index::OwnerIndex;
use crate::registry_store::RegistryStore;
use crate::state::RegistryState;

verus! {

/// A registry of document fingerprints. Each request is applied as a whole
/// or not at all.
pub struct DocumentVerification {
    document_registry: RegistryStore,
    user_documents: OwnerIndex,
    total_documents: DocumentCounter,
    events: EventLog,
}

impl View for DocumentVerification {
    type V = RegistryState;

    closed spec fn view(&self) -> RegistryState {
        RegistryState {
            records: self.document_registry@,
            owned: self.user_documents@,
            total: self.total_documents@,
            events: self.events@,
        }
    }
}

impl DocumentVerification {
    /// The stores are well formed and hold a state that the registry can
    /// reach.
    pub closed spec fn wf(self) -> bool {
        &&& self.document_registry.wf()
        &&& self.user_documents.wf()
        &&& self@.inv()
    }

    /// Whoever holds a well-formed registry holds a reachable state.
    pub proof fn lemma_wf_inv(self)
        requires
            self.wf(),
        ensures
            self@.inv(),
    {
    }

    /// A new registry: empty stores, a counter at zero, no notifications.
    pub fn init() -> (contract: DocumentVerification)
        ensures
            contract.wf(),
            contract@ == RegistryState::empty(),
    {
        proof {
            RegistryState::lemma_empty_inv();
        }
        DocumentVerification {
            document_registry: RegistryStore::new(),
            user_documents: OwnerIndex::new(),
            total_documents: DocumentCounter::new(),
            events: EventLog::new(),
        }
    }

    /// Replacing the code of the registry keeps everything it remembers.
    pub fn upgrade(&mut self)
        ensures
            *final(self) == *old(self),
    {
    }

    /// Registers `document_hash` for `caller` at time `timestamp`.
    ///
    /// Refused with `InvalidHashLength` unless the fingerprint is 32 bytes
    /// long, and with `DuplicateDocument` if it has a record already.
    pub fn register_document(
        &mut self,
        document_hash: &[u8],
        caller: Address,
        timestamp: u64,
    ) -> (outcome: Result<(), RegistryError>)
        requires
            old(self).wf(),
        ensures
            final(self).wf(),
            final(self)@ == old(self)@.register(document_hash@, caller, timestamp),
            outcome == match old(self)@.register_outcome(document_hash@, caller, timestamp) {
                Ok(_) => Ok::<(), RegistryError>(()),
                Err(e) => Err(e),
            },
    {
        let existing = self.document_registry.get(document_hash);
        match register_record(document_hash.len(), &existing, caller, timestamp) {
            Err(e) => Err(e),
            Ok(doc_info) => {
                proof {
                    old(self)@.lemma_register_keeps_inv(document_hash@, caller, timestamp);
                    old(self).document_registry.lemma_size();
                }
                self.document_registry.put(document_hash, doc_info);
                self.user_documents.add(caller, document_hash);
                proof {
                    self.document_registry.lemma_size();
                }
                self.total_documents.increment();
                self.events.emit(
                    Event::DocumentRegistered {
                        owner: caller,
                        document_hash: slice_to_vec(document_hash),
                        timestamp,
                    },
                );
                Ok(())
            },
        }
    }

    /// Tells whether `document_hash` is registered and, if so, by whom,
    /// when, and whether it was revoked. For a fingerprint without a record
    /// the answer names the all-zero identity and time 0.
    pub fn verify_document(&self, document_hash: &[u8]) -> (answer: Verification)
        requires
            self.wf(),
        ensures
            answer == self@.verify(document_hash@),
    {
        let existing = self.document_registry.get(document_hash);
        verify_record(&existing)
    }

    /// Revokes the attestation of `document_hash` on behalf of `caller`.
    ///
    /// Refused with `NotRegistered` if the fingerprint has no record, with
    /// `Unauthorized` if `caller` is not its owner, and with
    /// `AlreadyRevoked` if it was revoked before.
    pub fn revoke_document(&mut self, document_hash: &[u8], caller: Address) -> (outcome: Result<
        (),
        RegistryError,
    >)
        requires
            old(self).wf(),
        ensures
            final(self).wf(),
            final(self)@ == old(self)@.revoke(document_hash@, caller),
            outcome == match old(self)@.revoke_outcome(document_hash@, caller) {
                Ok(_) => Ok::<(), RegistryError>(()),
                Err(e) => Err(e),
            },
    {
        let existing = self.document_registry.get(document_hash);
        match revoke_record(&existing, &caller) {
            Err(e) => Err(e),
            Ok(doc_info) => {
                proof {
                    old(self)@.lemma_revoke_keeps_inv(document_hash@, caller);
                }
                self.document_registry.put(document_hash, doc_info);
                self.events.emit(
                    Event::DocumentRevoked {
                        owner: caller,
                        document_hash: slice_to_vec(document_hash),
                    },
                );
                Ok(())
            },
        }
    }

    /// The fingerprints that `user` registered, oldest first.
    pub fn get_user_documents(&self, user: &Address) -> (documents: Vec<Vec<u8>>)
        requires
            self.wf(),
        ensures
            documents@.map_values(|d: Vec<u8>| d@) == self@.documents_of(*user),
    {
        self.user_documents.list(user)
    }

    /// The number of fingerprints registered so far.
    pub fn get_total_documents(&self) -> (total: u64)
        requires
            self.wf(),
        ensures
            total == self@.total,
    {
        self.total_documents.value()
    }

    /// The notifications emitted so far, oldest first.
    pub fn events(&self) -> (events: &[Event])
        ensures
            events@.map_values(|e: Event| e@) == self@.events,
    {
        self.events.entries()
    }
}

} // verus!
