//! The notifications that successful requests leave for outside observers.

use vstd::prelude::*;
use vstd::slice::slice_to_vec;
use crate::address::Address;

verus! {

/// A notification about a change of the registry. The owner and the
/// fingerprint are the fields by which observers filter; the timestamp is
/// plain payload.
#[derive(Debug, PartialEq, Eq)]
pub enum Event {
    /// A fingerprint was registered.
    DocumentRegistered { owner: Address, document_hash: Vec<u8>, timestamp: u64 },
    /// The attestation of a fingerprint was revoked by its owner.
    DocumentRevoked { owner: Address, document_hash: Vec<u8> },
}

/// What an [`Event`] says, with the fingerprint as a byte sequence.
pub enum EventView {
    DocumentRegistered { owner: Address, document_hash: Seq<u8>, timestamp: u64 },
    DocumentRevoked { owner: Address, document_hash: Seq<u8> },
}

impl View for Event {
    type V = EventView;

    open spec fn view(&self) -> EventView {
        match *self {
            Event::DocumentRegistered { owner, document_hash, timestamp } => {
                EventView::DocumentRegistered { owner, document_hash: document_hash@, timestamp }
            },
            Event::DocumentRevoked { owner, document_hash } => {
                EventView::DocumentRevoked { owner, document_hash: document_hash@ }
            },
        }
    }
}

impl EventView {
    /// The name under which observers subscribe to this kind of event.
    pub open spec fn identifier(self) -> Seq<char> {
        match self {
            EventView::DocumentRegistered { .. } => "documentRegistered"@,
            EventView::DocumentRevoked { .. } => "documentRevoked"@,
        }
    }

    /// The filterable fields: the owner's bytes, then the fingerprint.
    pub open spec fn indexed_fields(self) -> Seq<Seq<u8>> {
        match self {
            EventView::DocumentRegistered { owner, document_hash, .. } => {
                seq![owner@, document_hash]
            },
            EventView::DocumentRevoked { owner, document_hash } => seq![owner@, document_hash],
        }
    }

    /// The payload: the registration time, for a registration.
    pub open spec fn payload(self) -> Option<u64> {
        match self {
            EventView::DocumentRegistered { timestamp, .. } => Some(timestamp),
            EventView::DocumentRevoked { .. } => None,
        }
    }
}

impl Event {
    /// The name under which observers subscribe to this kind of event.
    pub fn identifier(&self) -> (name: &'static str)
        ensures
            name@ == self@.identifier(),
    {
        match self {
            Event::DocumentRegistered { .. } => "documentRegistered",
            Event::DocumentRevoked { .. } => "documentRevoked",
        }
    }

    /// The filterable fields: the owner's bytes, then the fingerprint.
    pub fn indexed_fields(&self) -> (fields: Vec<Vec<u8>>)
        ensures
            fields@.map_values(|f: Vec<u8>| f@) == self@.indexed_fields(),
    {
        let (owner, document_hash) = match self {
            Event::DocumentRegistered { owner, document_hash, .. } => (owner, document_hash),
            Event::DocumentRevoked { owner, document_hash } => (owner, document_hash),
        };
        let bytes = owner.to_bytes();
        let mut fields: Vec<Vec<u8>> = Vec::new();
        fields.push(slice_to_vec(bytes.as_slice()));
        fields.push(slice_to_vec(document_hash.as_slice()));
        fields
    }

    /// The payload: the registration time, for a registration.
    pub fn payload(&self) -> (timestamp: Option<u64>)
        ensures
            timestamp == self@.payload(),
    {
        match self {
            Event::DocumentRegistered { timestamp, .. } => Some(*timestamp),
            Event::DocumentRevoked { .. } => None,
        }
    }
}

/// The notifications emitted so far, oldest first. Entries are only ever
/// appended.
pub struct EventLog {
    entries: Vec<Event>,
}

impl View for EventLog {
    type V = Seq<EventView>;

    closed spec fn view(&self) -> Seq<EventView> {
        self.entries@.map_values(|e: Event| e@)
    }
}

impl EventLog {
    /// The empty log.
    pub fn new() -> (log: EventLog)
        ensures
            log@ == Seq::<EventView>::empty(),
    {
        EventLog { entries: Vec::new() }
    }

    /// Appends a notification.
    pub fn emit(&mut self, event: Event)
        ensures
            final(self)@ == old(self)@.push(event@),
    {
        self.entries.push(event);
    }

    /// The notifications emitted so far, oldest first.
    pub fn entries(&self) -> (events: &[Event])
        ensures
            events@.map_values(|e: Event| e@) == self@,
    {
        self.entries.as_slice()
    }
}

} // verus!
