use document_verification::bytes::bytes_equal;
use document_verification::{
    Address, DocumentCounter, DocumentInfo, Event, EventLog, OwnerIndex, RegistryStore,
};

fn erin() -> Address {
    Address::new([0xE5; 32])
}

fn frank() -> Address {
    Address::new([0xF6; 32])
}

#[test]
fn bytes_equal_compares_length_and_content() {
    assert!(bytes_equal(&[], &[]));
    assert!(bytes_equal(&[1, 2, 3], &[1, 2, 3]));
    assert!(!bytes_equal(&[1, 2, 3], &[1, 2]));
    assert!(!bytes_equal(&[1, 2], &[1, 2, 3]));
    assert!(!bytes_equal(&[1, 2, 3], &[1, 2, 4]));
    assert!(!bytes_equal(&[0, 2, 3], &[1, 2, 3]));
}

#[test]
fn store_starts_empty() {
    let store = RegistryStore::new();
    assert!(!store.contains(&[1u8; 32]));
    assert_eq!(store.get(&[1u8; 32]), None);
}

#[test]
fn store_put_then_get() {
    let mut store = RegistryStore::new();
    let info = DocumentInfo::new(erin(), 5);
    store.put(&[1u8; 32], info);
    assert!(store.contains(&[1u8; 32]));
    assert!(!store.contains(&[2u8; 32]));
    assert_eq!(store.get(&[1u8; 32]), Some(info));
    assert_eq!(store.get(&[2u8; 32]), None);
}

#[test]
fn store_put_overwrites() {
    let mut store = RegistryStore::new();
    let first = DocumentInfo::new(erin(), 5);
    let other = DocumentInfo::new(frank(), 6);
    let second = DocumentInfo { owner: erin(), timestamp: 5, is_revoked: true };
    store.put(&[1u8; 32], first);
    store.put(&[2u8; 32], other);
    store.put(&[1u8; 32], second);
    assert_eq!(store.get(&[1u8; 32]), Some(second));
    assert_eq!(store.get(&[2u8; 32]), Some(other));
}

#[test]
fn index_starts_empty() {
    let index = OwnerIndex::new();
    assert!(index.list(&erin()).is_empty());
}

#[test]
fn index_add_is_idempotent() {
    let mut index = OwnerIndex::new();
    index.add(erin(), &[1u8; 32]);
    index.add(erin(), &[1u8; 32]);
    index.add(erin(), &[2u8; 32]);
    index.add(erin(), &[1u8; 32]);
    index.add(frank(), &[1u8; 32]);
    assert_eq!(index.list(&erin()), vec![vec![1u8; 32], vec![2u8; 32]]);
    assert_eq!(index.list(&frank()), vec![vec![1u8; 32]]);
    assert!(index.list(&Address::zero()).is_empty());
}

#[test]
fn counter_adds_one() {
    let mut counter = DocumentCounter::new();
    assert_eq!(counter.value(), 0);
    counter.increment();
    assert_eq!(counter.value(), 1);
    counter.increment();
    counter.increment();
    assert_eq!(counter.value(), 3);
}

#[test]
fn registered_event_fields() {
    let event =
        Event::DocumentRegistered { owner: erin(), document_hash: vec![9u8; 32], timestamp: 100 };
    assert_eq!(event.identifier(), "documentRegistered");
    assert_eq!(event.indexed_fields(), vec![vec![0xE5u8; 32], vec![9u8; 32]]);
    assert_eq!(event.payload(), Some(100));
}

#[test]
fn revoked_event_fields() {
    let event = Event::DocumentRevoked { owner: frank(), document_hash: vec![9u8; 32] };
    assert_eq!(event.identifier(), "documentRevoked");
    assert_eq!(event.indexed_fields(), vec![vec![0xF6u8; 32], vec![9u8; 32]]);
    assert_eq!(event.payload(), None);
}

#[test]
fn log_appends_in_order() {
    let mut log = EventLog::new();
    assert!(log.entries().is_empty());
    log.emit(Event::DocumentRegistered {
        owner: erin(),
        document_hash: vec![1u8; 32],
        timestamp: 1,
    });
    log.emit(Event::DocumentRevoked { owner: erin(), document_hash: vec![1u8; 32] });
    let entries = log.entries();
    assert_eq!(entries.len(), 2);
    assert_eq!(
        entries[0],
        Event::DocumentRegistered { owner: erin(), document_hash: vec![1u8; 32], timestamp: 1 }
    );
    assert_eq!(entries[1], Event::DocumentRevoked { owner: erin(), document_hash: vec![1u8; 32] });
}
