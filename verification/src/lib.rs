//! A registry of decentralized-identifier documents and verifiable-credential
//! metadata, with an append-only, capacity-bounded trail of status changes per
//! credential.
//!
//! [`Pallet`] is the registry: it holds the records in memory and offers the
//! operations that create, update, revoke and trace. Each operation is
//! verified against the state machine in [`model`], and [`laws`] proves what
//! holds of that state machine over single operations and over whole runs.
//! The host supplies the caller's account, the block number and durable
//! storage; it gets back the event to carry.
//!
//! - [`types`]: the records, errors and events, and their views.
//! - [`identifier`]: the account identifier that a public key has to be.
//! - [`trail`]: the trail of one credential, and the trails of all.
//! - [`storage`]: the map from byte strings that holds the records.
//! - [`bytes`]: comparing and copying byte strings.
//! - [`signature`]: the signature record of a DID controller.

pub mod bytes;
pub mod identifier;
pub mod laws;
pub mod model;
pub mod pallet;
pub mod signature;
pub mod storage;
pub mod trail;
pub mod types;

pub use crate::identifier::AccountIdentifier;
pub use crate::pallet::Pallet;
pub use crate::signature::DIDSignature;
pub use crate::storage::StorageMap;
pub use crate::trail::{CredentialTrail, TrailStore, TRAIL_CAPACITY};
pub use crate::types::{
    AccountId, BlockNumber, DIDMetadataPayload, Error, Event, VerifiableCredentialLog,
    VerifiableCredentialMetadata, VerifiableCredentialMetadataPayload,
    VerifiableCredentialStatus, DID,
};
