//! The record kept for one fingerprint, and the rules by which a record is
//! created, read and revoked.

use vstd::prelude::*;
use crate::address::Address;
use crate::error::RegistryError;

verus! {

/// Number of bytes in a document fingerprint.
pub const HASH_LENGTH: usize = 32;

/// What the registry keeps for one registered fingerprint.
#[derive(Clone, Copy, Debug, PartialEq, Eq)]
pub struct DocumentInfo {
    /// Who registered the fingerprint. Never changes.
    pub owner: Address,
    /// When the fingerprint was registered. Never changes.
    pub timestamp: u64,
    /// Whether the owner has withdrawn the attestation. Once set, stays set.
    pub is_revoked: bool,
}

/// The answer to a query about one fingerprint: whether it has a record, and
/// the record's owner, timestamp and revocation flag.
pub type Verification = (bool, Address, u64, bool);

impl DocumentInfo {
    /// The record that a successful registration creates.
    pub open spec fn spec_new(owner: Address, timestamp: u64) -> DocumentInfo {
        DocumentInfo { owner, timestamp, is_revoked: false }
    }

    /// The record that a successful registration creates.
    pub fn new(owner: Address, timestamp: u64) -> (info: DocumentInfo)
        ensures
            info == DocumentInfo::spec_new(owner, timestamp),
    {
        DocumentInfo { owner, timestamp, is_revoked: false }
    }

    /// This record with its revocation flag set.
    pub open spec fn revoked(self) -> DocumentInfo {
        DocumentInfo { owner: self.owner, timestamp: self.timestamp, is_revoked: true }
    }
}

/// The outcome of registering a fingerprint of `hash_len` bytes whose
/// current record is `existing`: the length is judged first, then the
/// presence of a record.
pub open spec fn spec_register_record(
    hash_len: nat,
    existing: Option<DocumentInfo>,
    caller: Address,
    now: u64,
) -> Result<DocumentInfo, RegistryError> {
    if hash_len != 32 {
        Err(RegistryError::InvalidHashLength)
    } else if existing is Some {
        Err(RegistryError::DuplicateDocument)
    } else {
        Ok(DocumentInfo::spec_new(caller, now))
    }
}

/// The answer to a query about a fingerprint whose current record is
/// `existing`.
pub open spec fn spec_verify_record(existing: Option<DocumentInfo>) -> Verification {
    match existing {
        Some(info) => (true, info.owner, info.timestamp, info.is_revoked),
        None => (false, Address::spec_zero(), 0u64, false),
    }
}

/// The outcome of a revocation asked by `caller` of a fingerprint whose
/// current record is `existing`: presence is judged first, then ownership,
/// then the flag.
pub open spec fn spec_revoke_record(existing: Option<DocumentInfo>, caller: Address) -> Result<
    DocumentInfo,
    RegistryError,
> {
    match existing {
        None => Err(RegistryError::NotRegistered),
        Some(info) => if info.owner != caller {
            Err(RegistryError::Unauthorized)
        } else if info.is_revoked {
            Err(RegistryError::AlreadyRevoked)
        } else {
            Ok(info.revoked())
        },
    }
}

/// Decides a registration: returns the record to store, or the reason for
/// which the request is refused.
pub fn register_record(
    hash_len: usize,
    existing: &Option<DocumentInfo>,
    caller: Address,
    now: u64,
) -> (outcome: Result<DocumentInfo, RegistryError>)
    ensures
        outcome == spec_register_record(hash_len as nat, *existing, caller, now),
{
    if hash_len != HASH_LENGTH {
        return Err(RegistryError::InvalidHashLength);
    }
    if existing.is_some() {
        return Err(RegistryError::DuplicateDocument);
    }
    Ok(DocumentInfo::new(caller, now))
}

/// Answers a query from the record found for the fingerprint, if any.
pub fn verify_record(existing: &Option<DocumentInfo>) -> (answer: Verification)
    ensures
        answer == spec_verify_record(*existing),
{
    match existing {
        Some(info) => (true, info.owner, info.timestamp, info.is_revoked),
        None => (false, Address::zero(), 0u64, false),
    }
}

/// Decides a revocation: returns the record to store in place of the
/// current one, or the reason for which the request is refused.
pub fn revoke_record(existing: &Option<DocumentInfo>, caller: &Address) -> (outcome: Result<
    DocumentInfo,
    RegistryError,
>)
    ensures
        outcome == spec_revoke_record(*existing, *caller),
{
    match existing {
        None => Err(RegistryError::NotRegistered),
        Some(info) => {
            if info.owner != *caller {
                Err(RegistryError::Unauthorized)
            } else if info.is_revoked {
                Err(RegistryError::AlreadyRevoked)
            } else {
                Ok(DocumentInfo { owner: info.owner, timestamp: info.timestamp, is_revoked: true })
            }
        },
    }
}

} // verus!
