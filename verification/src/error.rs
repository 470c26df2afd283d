//! The reasons for which the registry refuses a request.

use vstd::prelude::*;

verus! {

/// Why a request was refused. Every refusal leaves the registry untouched.
#[derive(Clone, Copy, Debug, PartialEq, Eq, Structural)]
pub enum RegistryError {
    /// The fingerprint is not exactly 32 bytes long.
    InvalidHashLength,
    /// The fingerprint already has a record.
    DuplicateDocument,
    /// The fingerprint has no record.
    NotRegistered,
    /// The caller is not the owner of the record.
    Unauthorized,
    /// The record was revoked before.
    AlreadyRevoked,
}

impl RegistryError {
    /// The text that goes with each refusal.
    pub open spec fn spec_message(self) -> Seq<char> {
        match self {
            RegistryError::InvalidHashLength => "Hash invalid: trebuie sa fie un hash SHA-256 (32 bytes)"@,
            RegistryError::DuplicateDocument => "Documentul este deja inregistrat"@,
            RegistryError::NotRegistered => "Documentul nu este înregistrat"@,
            RegistryError::Unauthorized => "Doar proprietarul poate revoca documentul"@,
            RegistryError::AlreadyRevoked => "Documentul este deja revocat"@,
        }
    }

    /// The message shown to the party whose request was refused.
    pub fn message(&self) -> (text: &'static str)
        ensures
            text@ == self.spec_message(),
    {
        match self {
            RegistryError::InvalidHashLength => "Hash invalid: trebuie sa fie un hash SHA-256 (32 bytes)",
            RegistryError::DuplicateDocument => "Documentul este deja inregistrat",
            RegistryError::NotRegistered => "Documentul nu este înregistrat",
            RegistryError::Unauthorized => "Doar proprietarul poate revoca documentul",
            RegistryError::AlreadyRevoked => "Documentul este deja revocat",
        }
    }
}

} // verus!
