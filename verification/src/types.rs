//! The records the registry stores and the values its operations exchange.
//!
//! Byte strings are held as `Vec<u8>`; each record has a view in which they
//! are `Seq<u8>`, and the contracts of the registry speak of those views.

use vstd::prelude::*;

verus! {

/// The number by which the host names an account: the caller of an
/// operation, the controller of a document, the holder of a credential.
pub type AccountId = u64;

/// The host's block counter.
pub type BlockNumber = u64;

/// The view of an optional byte string.
pub open spec fn optional_bytes(blob: Option<Vec<u8>>) -> Option<Seq<u8>> {
    match blob {
        Some(bytes) => Some(bytes@),
        None => None,
    }
}

/// A stored DID document.
#[derive(Clone, Debug, PartialEq, Eq)]
pub struct DID {
    /// Proof material supplied by the caller; stored, never checked.
    pub signatures: Vec<u8>,
    pub did_resolution_metadata: Option<Vec<u8>>,
    pub did_document_metadata: Option<Vec<u8>>,
    /// The block at which the document was created.
    pub block_number: BlockNumber,
    /// The block of the latest creation or update.
    pub updated_block_number: BlockNumber,
    /// A pointer to the document body held elsewhere.
    pub did_ref: Option<Vec<u8>>,
    /// The account named as the document's controller.
    pub sender_account_id: AccountId,
}

/// What a DID document holds, as mathematical values.
pub ghost struct DIDView {
    pub signatures: Seq<u8>,
    pub did_resolution_metadata: Option<Seq<u8>>,
    pub did_document_metadata: Option<Seq<u8>>,
    pub block_number: BlockNumber,
    pub updated_block_number: BlockNumber,
    pub did_ref: Option<Seq<u8>>,
    pub sender_account_id: AccountId,
}

impl View for DID {
    type V = DIDView;

    open spec fn view(&self) -> DIDView {
        DIDView {
            signatures: self.signatures@,
            did_resolution_metadata: optional_bytes(self.did_resolution_metadata),
            did_document_metadata: optional_bytes(self.did_document_metadata),
            block_number: self.block_number,
            updated_block_number: self.updated_block_number,
            did_ref: optional_bytes(self.did_ref),
            sender_account_id: self.sender_account_id,
        }
    }
}

impl Default for DID {
    /// A document without content, created at block 0 for account 0.
    fn default() -> (document: Self)
        ensures
            document@ == (DIDView {
                signatures: Seq::empty(),
                did_resolution_metadata: None,
                did_document_metadata: None,
                block_number: 0,
                updated_block_number: 0,
                did_ref: None,
                sender_account_id: 0,
            }),
    {
        DID {
            signatures: Vec::new(),
            did_resolution_metadata: None,
            did_document_metadata: None,
            block_number: 0,
            updated_block_number: 0,
            did_ref: None,
            sender_account_id: 0,
        }
    }
}

/// The fields of a DID document that a caller supplies.
#[derive(Clone, Debug, PartialEq, Eq)]
pub struct DIDMetadataPayload {
    pub signatures: Vec<u8>,
    pub did_resolution_metadata: Option<Vec<u8>>,
    pub did_document_metadata: Option<Vec<u8>>,
    pub did_ref: Option<Vec<u8>>,
    pub sender_account_id: AccountId,
}

/// What a DID payload holds, as mathematical values.
pub ghost struct DIDMetadataPayloadView {
    pub signatures: Seq<u8>,
    pub did_resolution_metadata: Option<Seq<u8>>,
    pub did_document_metadata: Option<Seq<u8>>,
    pub did_ref: Option<Seq<u8>>,
    pub sender_account_id: AccountId,
}

impl View for DIDMetadataPayload {
    type V = DIDMetadataPayloadView;

    open spec fn view(&self) -> DIDMetadataPayloadView {
        DIDMetadataPayloadView {
            signatures: self.signatures@,
            did_resolution_metadata: optional_bytes(self.did_resolution_metadata),
            did_document_metadata: optional_bytes(self.did_document_metadata),
            did_ref: optional_bytes(self.did_ref),
            sender_account_id: self.sender_account_id,
        }
    }
}

impl Default for DIDMetadataPayload {
    /// A payload without content, for account 0.
    fn default() -> (payload: Self)
        ensures
            payload@ == (DIDMetadataPayloadView {
                signatures: Seq::empty(),
                did_resolution_metadata: None,
                did_document_metadata: None,
                did_ref: None,
                sender_account_id: 0,
            }),
    {
        DIDMetadataPayload {
            signatures: Vec::new(),
            did_resolution_metadata: None,
            did_document_metadata: None,
            did_ref: None,
            sender_account_id: 0,
        }
    }
}

impl DIDMetadataPayloadView {
    /// The document made of this payload and the two block stamps.
    pub open spec fn document(self, created: BlockNumber, updated: BlockNumber) -> DIDView {
        DIDView {
            signatures: self.signatures,
            did_resolution_metadata: self.did_resolution_metadata,
            did_document_metadata: self.did_document_metadata,
            block_number: created,
            updated_block_number: updated,
            did_ref: self.did_ref,
            sender_account_id: self.sender_account_id,
        }
    }
}

/// The stored metadata of a verifiable credential.
#[derive(Clone, Debug, PartialEq, Eq)]
pub struct VerifiableCredentialMetadata {
    /// The holder of the credential.
    pub account_id: Option<AccountId>,
    pub public_key: Vec<u8>,
    /// The block at which the record was created.
    pub block_number: BlockNumber,
    /// The block of the latest creation or update.
    pub updated_block_number: BlockNumber,
    /// Only `Some(true)` counts as active.
    pub active: Option<bool>,
}

/// What a credential record holds, as mathematical values.
pub ghost struct VerifiableCredentialMetadataView {
    pub account_id: Option<AccountId>,
    pub public_key: Seq<u8>,
    pub block_number: BlockNumber,
    pub updated_block_number: BlockNumber,
    pub active: Option<bool>,
}

impl View for VerifiableCredentialMetadata {
    type V = VerifiableCredentialMetadataView;

    open spec fn view(&self) -> VerifiableCredentialMetadataView {
        VerifiableCredentialMetadataView {
            account_id: self.account_id,
            public_key: self.public_key@,
            block_number: self.block_number,
            updated_block_number: self.updated_block_number,
            active: self.active,
        }
    }
}

impl Default for VerifiableCredentialMetadata {
    /// A record without holder, key or flag, created at block 0.
    fn default() -> (record: Self)
        ensures
            record@ == (VerifiableCredentialMetadataView {
                account_id: None,
                public_key: Seq::empty(),
                block_number: 0,
                updated_block_number: 0,
                active: None,
            }),
    {
        VerifiableCredentialMetadata {
            account_id: None,
            public_key: Vec::new(),
            block_number: 0,
            updated_block_number: 0,
            active: None,
        }
    }
}

impl VerifiableCredentialMetadataView {
    /// Whether the trail of this credential may grow.
    pub open spec fn is_active(self) -> bool {
        self.active == Some(true)
    }
}

/// The fields of a credential record that a caller supplies.
#[derive(Clone, Debug, PartialEq, Eq)]
pub struct VerifiableCredentialMetadataPayload {
    pub account_id: Option<AccountId>,
    pub public_key: Vec<u8>,
    pub active: Option<bool>,
}

/// What a credential payload holds, as mathematical values.
pub ghost struct VerifiableCredentialMetadataPayloadView {
    pub account_id: Option<AccountId>,
    pub public_key: Seq<u8>,
    pub active: Option<bool>,
}

impl View for VerifiableCredentialMetadataPayload {
    type V = VerifiableCredentialMetadataPayloadView;

    open spec fn view(&self) -> VerifiableCredentialMetadataPayloadView {
        VerifiableCredentialMetadataPayloadView {
            account_id: self.account_id,
            public_key: self.public_key@,
            active: self.active,
        }
    }
}

impl Default for VerifiableCredentialMetadataPayload {
    /// A payload without holder, key or flag.
    fn default() -> (payload: Self)
        ensures
            payload@ == (VerifiableCredentialMetadataPayloadView {
                account_id: None,
                public_key: Seq::empty(),
                active: None,
            }),
    {
        VerifiableCredentialMetadataPayload { account_id: None, public_key: Vec::new(), active: None }
    }
}

impl VerifiableCredentialMetadataPayloadView {
    /// The record made of this payload, the two block stamps and the flag.
    pub open spec fn record(
        self,
        created: BlockNumber,
        updated: BlockNumber,
        active: Option<bool>,
    ) -> VerifiableCredentialMetadataView {
        VerifiableCredentialMetadataView {
            account_id: self.account_id,
            public_key: self.public_key,
            block_number: created,
            updated_block_number: updated,
            active,
        }
    }
}

/// The lifecycle label carried by one trail entry.
#[derive(Clone, Copy, Debug, PartialEq, Eq, Structural)]
pub enum VerifiableCredentialStatus {
    Pending,
    Created,
    Scanned,
    Suspended,
    Resumed,
    Migrated,
    Split,
    Merged,
    Frozen,
}

/// One entry of a credential's trail.
#[derive(Clone, Copy, Debug, PartialEq, Eq, Structural)]
pub struct VerifiableCredentialLog {
    /// The account the entry is about, which need not be the caller.
    pub account_id: Option<AccountId>,
    pub status: VerifiableCredentialStatus,
    /// The block at which the entry was appended.
    pub block_number: Option<BlockNumber>,
}

impl VerifiableCredentialLog {
    /// An entry about nobody, pending, at no block.
    pub fn default() -> (entry: Self)
        ensures
            entry == (VerifiableCredentialLog {
                account_id: None,
                status: VerifiableCredentialStatus::Pending,
                block_number: None,
            }),
    {
        VerifiableCredentialLog {
            account_id: None,
            status: VerifiableCredentialStatus::Pending,
            block_number: None,
        }
    }
}

/// Why an operation was refused.
#[derive(Clone, Copy, Debug, PartialEq, Eq, Structural)]
pub enum Error {
    /// A document is already stored under the DID URI.
    DIDExists,
    InvalidDIDURI,
    InvalidDIDSignature,
    InvalidDID,
    /// No document is stored under the DID URI.
    DIDDoesNotExist,
    /// A credential is already stored under the fingerprint.
    VerifiableCredentialFingerPrintExists,
    /// No credential is stored under the fingerprint.
    VerifiableCredentialFingerPrintDoesNotExist,
    /// The credential's `active` flag is not `Some(true)`.
    VerifiableCredentialInactive,
    /// The trail already holds as many entries as it may.
    VerifiableCredentialLogLimitReached,
    /// The public key is not exactly one encoded account identifier.
    InvalidPublicKey,
}

/// What a successful operation reports.
#[derive(Clone, Debug, PartialEq, Eq)]
pub enum Event {
    DIDDocumentCreated { did_uri: Vec<u8>, account_id: AccountId, created_block_number: BlockNumber },
    DIDDocumentUpdated { did_uri: Vec<u8>, account_id: AccountId, updated_block_number: BlockNumber },
    DIDDocumentRevoked { did_uri: Vec<u8>, account_id: AccountId, revoked_block_number: BlockNumber },
    VerifiableCredentialFingerPrintCreated {
        vc_finger_print: Vec<u8>,
        account_id: AccountId,
        created_block_number: BlockNumber,
    },
    VerifiableCredentialFingerPrintUpdated {
        vc_finger_print: Vec<u8>,
        account_id: AccountId,
        updated_block_number: BlockNumber,
    },
    VerifiableCredentialFingerPrintRevoked {
        vc_finger_print: Vec<u8>,
        account_id: AccountId,
        revoked_block_number: BlockNumber,
    },
    VerifiableCredentialEvent {
        vc_finger_print: Vec<u8>,
        origin: AccountId,
        block_number: BlockNumber,
        status: VerifiableCredentialStatus,
    },
}

/// What an event holds, as mathematical values.
pub ghost enum EventView {
    DIDDocumentCreated { did_uri: Seq<u8>, account_id: AccountId, created_block_number: BlockNumber },
    DIDDocumentUpdated { did_uri: Seq<u8>, account_id: AccountId, updated_block_number: BlockNumber },
    DIDDocumentRevoked { did_uri: Seq<u8>, account_id: AccountId, revoked_block_number: BlockNumber },
    VerifiableCredentialFingerPrintCreated {
        vc_finger_print: Seq<u8>,
        account_id: AccountId,
        created_block_number: BlockNumber,
    },
    VerifiableCredentialFingerPrintUpdated {
        vc_finger_print: Seq<u8>,
        account_id: AccountId,
        updated_block_number: BlockNumber,
    },
    VerifiableCredentialFingerPrintRevoked {
        vc_finger_print: Seq<u8>,
        account_id: AccountId,
        revoked_block_number: BlockNumber,
    },
    VerifiableCredentialEvent {
        vc_finger_print: Seq<u8>,
        origin: AccountId,
        block_number: BlockNumber,
        status: VerifiableCredentialStatus,
    },
}

impl View for Event {
    type V = EventView;

    open spec fn view(&self) -> EventView {
        match *self {
            Event::DIDDocumentCreated { did_uri, account_id, created_block_number } => {
                EventView::DIDDocumentCreated { did_uri: did_uri@, account_id, created_block_number }
            },
            Event::DIDDocumentUpdated { did_uri, account_id, updated_block_number } => {
                EventView::DIDDocumentUpdated { did_uri: did_uri@, account_id, updated_block_number }
            },
            Event::DIDDocumentRevoked { did_uri, account_id, revoked_block_number } => {
                EventView::DIDDocumentRevoked { did_uri: did_uri@, account_id, revoked_block_number }
            },
            Event::VerifiableCredentialFingerPrintCreated {
                vc_finger_print,
                account_id,
                created_block_number,
            } => EventView::VerifiableCredentialFingerPrintCreated {
                vc_finger_print: vc_finger_print@,
                account_id,
                created_block_number,
            },
            Event::VerifiableCredentialFingerPrintUpdated {
                vc_finger_print,
                account_id,
                updated_block_number,
            } => EventView::VerifiableCredentialFingerPrintUpdated {
                vc_finger_print: vc_finger_print@,
                account_id,
                updated_block_number,
            },
            Event::VerifiableCredentialFingerPrintRevoked {
                vc_finger_print,
                account_id,
                revoked_block_number,
            } => EventView::VerifiableCredentialFingerPrintRevoked {
                vc_finger_print: vc_finger_print@,
                account_id,
                revoked_block_number,
            },
            Event::VerifiableCredentialEvent { vc_finger_print, origin, block_number, status } => {
                EventView::VerifiableCredentialEvent {
                    vc_finger_print: vc_finger_print@,
                    origin,
                    block_number,
                    status,
                }
            },
        }
    }
}

/// The view of what an operation returned.
pub open spec fn outcome_view(outcome: Result<Event, Error>) -> Result<EventView, Error> {
    match outcome {
        Ok(event) => Ok(event@),
        Err(error) => Err(error),
    }
}

} // verus!
