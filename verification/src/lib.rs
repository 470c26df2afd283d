//! A registry of document fingerprints: who attested which 32-byte digest,
//! when, and whether the attestation has since been revoked.
//!
//! [`DocumentVerification`] is the registry. Its three stores are
//! [`RegistryStore`], [`OwnerIndex`] and [`DocumentCounter`]; successful
//! requests leave an [`Event`] in its log. The rules that decide a request
//! from the record of one fingerprint stand in [`document`], so that a host
//! with stores of its own can apply them too. [`RegistryState`] is the
//! mathematical model over which all contracts are stated, and [`laws`] holds
//! what is proved of every series of requests.

pub mod address;
pub mod bytes;
pub mod contract;
pub mod counter;
pub mod document;
pub mod error;
pub mod event;
pub mod laws;
pub mod owner_index;
pub mod registry_store;
pub mod state;

pub use address::Address;
pub use contract::DocumentVerification;
pub use counter::DocumentCounter;
pub use document::{
    register_record, revoke_record, verify_record, DocumentInfo, Verification, HASH_LENGTH,
};
pub use error::RegistryError;
pub use event::{Event, EventLog};
pub use owner_index::OwnerIndex;
pub use registry_store::RegistryStore;
pub use state::{Call, RegistryState};
