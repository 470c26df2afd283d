use document_verification::{Address, DocumentVerification, Event, RegistryError};

fn hash(fill: u8) -> [u8; 32] {
    [fill; 32]
}

fn alice() -> Address {
    Address::new([0xA1; 32])
}

fn bob() -> Address {
    Address::new([0xB0; 32])
}

#[test]
fn new_registry_is_empty() {
    let registry = DocumentVerification::init();
    assert_eq!(registry.get_total_documents(), 0);
    assert!(registry.get_user_documents(&alice()).is_empty());
    assert!(registry.events().is_empty());
    assert_eq!(registry.verify_document(&hash(1)), (false, Address::zero(), 0, false));
}

#[test]
fn register_verify_revoke_scenario() {
    let mut registry = DocumentVerification::init();
    let h1 = hash(0x11);
    let h2 = hash(0x22);

    assert_eq!(registry.register_document(&h1, alice(), 100), Ok(()));
    assert_eq!(registry.verify_document(&h1), (true, alice(), 100, false));

    assert_eq!(registry.revoke_document(&h1, bob()), Err(RegistryError::Unauthorized));
    assert_eq!(registry.verify_document(&h1), (true, alice(), 100, false));
    assert_eq!(registry.get_total_documents(), 1);
    assert_eq!(registry.get_user_documents(&alice()), vec![h1.to_vec()]);
    assert_eq!(registry.events().len(), 1);

    assert_eq!(registry.revoke_document(&h1, alice()), Ok(()));
    assert_eq!(registry.verify_document(&h1), (true, alice(), 100, true));

    assert!(registry.get_user_documents(&alice()).contains(&h1.to_vec()));
    assert_eq!(registry.get_total_documents(), 1);
    assert_eq!(registry.verify_document(&h2), (false, Address::zero(), 0, false));
}

#[test]
fn second_registration_is_a_duplicate() {
    let mut registry = DocumentVerification::init();
    let h = hash(7);
    assert_eq!(registry.register_document(&h, alice(), 10), Ok(()));

    assert_eq!(registry.register_document(&h, alice(), 10), Err(RegistryError::DuplicateDocument));
    assert_eq!(registry.register_document(&h, alice(), 99), Err(RegistryError::DuplicateDocument));
    assert_eq!(registry.register_document(&h, bob(), 11), Err(RegistryError::DuplicateDocument));

    assert_eq!(registry.verify_document(&h), (true, alice(), 10, false));
    assert_eq!(registry.get_total_documents(), 1);
    assert!(registry.get_user_documents(&bob()).is_empty());
    assert_eq!(registry.get_user_documents(&alice()).len(), 1);
    assert_eq!(registry.events().len(), 1);
}

#[test]
fn revoked_fingerprint_cannot_be_registered_again() {
    let mut registry = DocumentVerification::init();
    let h = hash(7);
    assert_eq!(registry.register_document(&h, alice(), 10), Ok(()));
    assert_eq!(registry.revoke_document(&h, alice()), Ok(()));
    assert_eq!(registry.register_document(&h, alice(), 20), Err(RegistryError::DuplicateDocument));
    assert_eq!(registry.register_document(&h, bob(), 20), Err(RegistryError::DuplicateDocument));
    assert_eq!(registry.verify_document(&h), (true, alice(), 10, true));
    assert_eq!(registry.get_total_documents(), 1);
}

#[test]
fn wrong_lengths_are_refused() {
    let mut registry = DocumentVerification::init();
    let lengths: [usize; 7] = [0, 1, 16, 31, 33, 64, 1000];
    for len in lengths {
        let bytes = vec![0x5A_u8; len];
        assert_eq!(
            registry.register_document(&bytes, alice(), 1),
            Err(RegistryError::InvalidHashLength)
        );
        assert_eq!(registry.verify_document(&bytes), (false, Address::zero(), 0, false));
    }
    assert_eq!(registry.get_total_documents(), 0);
    assert!(registry.get_user_documents(&alice()).is_empty());
    assert!(registry.events().is_empty());
}

#[test]
fn hex_text_of_a_digest_is_refused() {
    let mut registry = DocumentVerification::init();
    let text = b"e3b0c44298fc1c149afbf4c8996fb92427ae41e4649b934ca495991b7852b855";
    assert_eq!(text.len(), 64);
    assert_eq!(
        registry.register_document(text, alice(), 1),
        Err(RegistryError::InvalidHashLength)
    );
    assert_eq!(registry.get_total_documents(), 0);
}

#[test]
fn length_is_judged_before_presence() {
    let mut registry = DocumentVerification::init();
    let h = hash(3);
    assert_eq!(registry.register_document(&h, alice(), 1), Ok(()));
    assert_eq!(
        registry.register_document(&h[..31], alice(), 1),
        Err(RegistryError::InvalidHashLength)
    );
    assert_eq!(registry.register_document(&h, alice(), 1), Err(RegistryError::DuplicateDocument));
}

#[test]
fn revoke_of_unknown_fingerprint_is_refused() {
    let mut registry = DocumentVerification::init();
    assert_eq!(registry.revoke_document(&hash(9), alice()), Err(RegistryError::NotRegistered));
    assert_eq!(registry.revoke_document(&[], alice()), Err(RegistryError::NotRegistered));
    assert_eq!(registry.revoke_document(&[1, 2, 3], alice()), Err(RegistryError::NotRegistered));
    assert_eq!(registry.register_document(&hash(1), alice(), 5), Ok(()));
    assert_eq!(registry.revoke_document(&hash(2), alice()), Err(RegistryError::NotRegistered));
    assert_eq!(registry.verify_document(&hash(1)), (true, alice(), 5, false));
    assert_eq!(registry.events().len(), 1);
}

#[test]
fn only_the_owner_revokes() {
    let mut registry = DocumentVerification::init();
    let h = hash(4);
    assert_eq!(registry.register_document(&h, alice(), 77), Ok(()));
    assert_eq!(registry.revoke_document(&h, bob()), Err(RegistryError::Unauthorized));
    assert_eq!(registry.revoke_document(&h, Address::zero()), Err(RegistryError::Unauthorized));
    assert_eq!(registry.verify_document(&h), (true, alice(), 77, false));
    assert_eq!(registry.revoke_document(&h, alice()), Ok(()));
}

#[test]
fn ownership_is_judged_before_the_flag() {
    let mut registry = DocumentVerification::init();
    let h = hash(4);
    assert_eq!(registry.register_document(&h, alice(), 77), Ok(()));
    assert_eq!(registry.revoke_document(&h, alice()), Ok(()));
    assert_eq!(registry.revoke_document(&h, bob()), Err(RegistryError::Unauthorized));
    assert_eq!(registry.revoke_document(&h, alice()), Err(RegistryError::AlreadyRevoked));
}

#[test]
fn revocation_is_final() {
    let mut registry = DocumentVerification::init();
    let h = hash(5);
    assert_eq!(registry.register_document(&h, alice(), 1), Ok(()));
    assert_eq!(registry.revoke_document(&h, alice()), Ok(()));
    assert_eq!(registry.revoke_document(&h, alice()), Err(RegistryError::AlreadyRevoked));
    assert_eq!(registry.register_document(&hash(6), bob(), 2), Ok(()));
    assert_eq!(registry.revoke_document(&hash(6), bob()), Ok(()));
    assert_eq!(registry.register_document(&h, bob(), 3), Err(RegistryError::DuplicateDocument));
    assert_eq!(registry.revoke_document(&h, alice()), Err(RegistryError::AlreadyRevoked));
    assert_eq!(registry.verify_document(&h), (true, alice(), 1, true));
    assert_eq!(registry.events().len(), 4);
}

#[test]
fn counter_counts_accepted_registrations_only() {
    let mut registry = DocumentVerification::init();
    let mut accepted: u64 = 0;
    for round in 0..3 {
        for fill in 0..20u8 {
            let owner = if fill % 2 == 0 { alice() } else { bob() };
            if registry.register_document(&hash(fill), owner, round).is_ok() {
                accepted += 1;
            }
            let _ = registry.register_document(&[fill; 5], owner, round);
            let _ = registry.revoke_document(&hash(fill), alice());
            let _ = registry.revoke_document(&hash(fill.wrapping_add(100)), alice());
            let _ = registry.verify_document(&hash(fill));
        }
        assert_eq!(registry.get_total_documents(), 20);
    }
    assert_eq!(accepted, 20);
    assert_eq!(registry.get_total_documents(), 20);
    let of_alice = registry.get_user_documents(&alice()).len();
    let of_bob = registry.get_user_documents(&bob()).len();
    assert_eq!(of_alice, 10);
    assert_eq!(of_bob, 10);
}

#[test]
fn documents_are_listed_per_owner_in_order_of_registration() {
    let mut registry = DocumentVerification::init();
    assert_eq!(registry.register_document(&hash(3), alice(), 1), Ok(()));
    assert_eq!(registry.register_document(&hash(1), bob(), 2), Ok(()));
    assert_eq!(registry.register_document(&hash(2), alice(), 3), Ok(()));
    assert_eq!(
        registry.get_user_documents(&alice()),
        vec![hash(3).to_vec(), hash(2).to_vec()]
    );
    assert_eq!(registry.get_user_documents(&bob()), vec![hash(1).to_vec()]);
    assert!(registry.get_user_documents(&Address::zero()).is_empty());
}

#[test]
fn revocation_keeps_the_listing() {
    let mut registry = DocumentVerification::init();
    assert_eq!(registry.register_document(&hash(3), alice(), 1), Ok(()));
    assert_eq!(registry.register_document(&hash(2), alice(), 3), Ok(()));
    assert_eq!(registry.revoke_document(&hash(3), alice()), Ok(()));
    assert_eq!(
        registry.get_user_documents(&alice()),
        vec![hash(3).to_vec(), hash(2).to_vec()]
    );
    assert_eq!(registry.get_total_documents(), 2);
}

#[test]
fn zero_identity_can_own_a_record() {
    let mut registry = DocumentVerification::init();
    let h = hash(8);
    assert_eq!(registry.register_document(&h, Address::zero(), 0), Ok(()));
    assert_eq!(registry.verify_document(&h), (true, Address::zero(), 0, false));
    assert_eq!(registry.verify_document(&hash(9)), (false, Address::zero(), 0, false));
    assert_eq!(registry.revoke_document(&h, Address::zero()), Ok(()));
    assert_eq!(registry.verify_document(&h), (true, Address::zero(), 0, true));
}

#[test]
fn extreme_timestamps_are_kept() {
    let mut registry = DocumentVerification::init();
    assert_eq!(registry.register_document(&hash(1), alice(), u64::MAX), Ok(()));
    assert_eq!(registry.register_document(&hash(2), alice(), 0), Ok(()));
    assert_eq!(registry.verify_document(&hash(1)), (true, alice(), u64::MAX, false));
    assert_eq!(registry.verify_document(&hash(2)), (true, alice(), 0, false));
}

#[test]
fn fingerprints_that_differ_in_one_byte_are_distinct() {
    let mut registry = DocumentVerification::init();
    let first = hash(0);
    let mut second = hash(0);
    second[31] = 1;
    assert_eq!(registry.register_document(&first, alice(), 1), Ok(()));
    assert_eq!(registry.verify_document(&second), (false, Address::zero(), 0, false));
    assert_eq!(registry.register_document(&second, bob(), 2), Ok(()));
    assert_eq!(registry.verify_document(&first), (true, alice(), 1, false));
    assert_eq!(registry.verify_document(&second), (true, bob(), 2, false));
    assert_eq!(registry.get_total_documents(), 2);
}

#[test]
fn accepted_requests_are_logged() {
    let mut registry = DocumentVerification::init();
    let h = hash(0x42);
    assert_eq!(registry.register_document(&h, alice(), 123), Ok(()));
    assert_eq!(registry.register_document(&h, bob(), 124), Err(RegistryError::DuplicateDocument));
    assert_eq!(registry.revoke_document(&h, bob()), Err(RegistryError::Unauthorized));
    assert_eq!(registry.revoke_document(&h, alice()), Ok(()));
    assert_eq!(registry.revoke_document(&h, alice()), Err(RegistryError::AlreadyRevoked));

    let events = registry.events();
    assert_eq!(events.len(), 2);
    assert_eq!(
        events[0],
        Event::DocumentRegistered { owner: alice(), document_hash: h.to_vec(), timestamp: 123 }
    );
    assert_eq!(events[1], Event::DocumentRevoked { owner: alice(), document_hash: h.to_vec() });
}

#[test]
fn upgrade_keeps_the_state() {
    let mut registry = DocumentVerification::init();
    assert_eq!(registry.register_document(&hash(1), alice(), 9), Ok(()));
    assert_eq!(registry.revoke_document(&hash(1), alice()), Ok(()));
    registry.upgrade();
    assert_eq!(registry.verify_document(&hash(1)), (true, alice(), 9, true));
    assert_eq!(registry.get_total_documents(), 1);
    assert_eq!(registry.get_user_documents(&alice()), vec![hash(1).to_vec()]);
    assert_eq!(registry.events().len(), 2);
}
