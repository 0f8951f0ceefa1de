//! The registry as a mathematical state machine.
//!
//! A `Registry` is what the pallet holds, as maps over byte sequences. Each
//! operation of the pallet has a function here that gives, for a registry and
//! the operation's arguments, the registry afterwards and what is reported.
//! The contracts of the pallet refer to these functions.

use vstd::prelude::*;

use crate::identifier::is_account_identifier;
use crate::trail::{recorded_entry, recorded_status, trail_of, valid_trails, TRAIL_CAPACITY};
use crate::types::{
    AccountId, BlockNumber, DIDMetadataPayloadView, DIDView, Error, EventView,
    VerifiableCredentialLog, VerifiableCredentialMetadataPayloadView,
    VerifiableCredentialMetadataView, VerifiableCredentialStatus,
};

verus! {

/// The state of the registry.
pub ghost struct Registry {
    /// The block that the host is at.
    pub block_number: BlockNumber,
    /// The DID documents, by DID URI.
    pub did_documents: Map<Seq<u8>, DIDView>,
    /// The credential records, by fingerprint.
    pub credentials: Map<Seq<u8>, VerifiableCredentialMetadataView>,
    /// The trails, by fingerprint.
    pub trails: Map<Seq<u8>, Seq<VerifiableCredentialLog>>,
}

/// The result of one operation: the registry afterwards, and the event of a
/// success or the error of a refusal.
pub ghost struct Transition {
    pub registry: Registry,
    pub outcome: Result<EventView, Error>,
}

impl Registry {
    /// The registry at block 0 with nothing stored.
    pub open spec fn empty() -> Registry {
        Registry {
            block_number: 0,
            did_documents: Map::empty(),
            credentials: Map::empty(),
            trails: Map::empty(),
        }
    }

    /// What holds of every registry that the operations can reach.
    pub open spec fn valid(self) -> bool {
        valid_trails(self.trails)
    }

    /// The same registry with the host at `block_number`.
    pub open spec fn at_block(self, block_number: BlockNumber) -> Registry {
        Registry { block_number, ..self }
    }

    /// A refusal: nothing changes, nothing is reported but the error.
    pub open spec fn refuse(self, error: Error) -> Transition {
        Transition { registry: self, outcome: Err(error) }
    }

    /// Creating a DID document: refused while one is stored under the URI;
    /// otherwise the payload is stored with both stamps at the current block.
    pub open spec fn create_did(
        self,
        origin: AccountId,
        did_uri: Seq<u8>,
        did_input: DIDMetadataPayloadView,
    ) -> Transition {
        if self.did_documents.contains_key(did_uri) {
            self.refuse(Error::DIDExists)
        } else {
            Transition {
                registry: Registry {
                    did_documents: self.did_documents.insert(
                        did_uri,
                        did_input.document(self.block_number, self.block_number),
                    ),
                    ..self
                },
                outcome: Ok(
                    EventView::DIDDocumentCreated {
                        did_uri,
                        account_id: origin,
                        created_block_number: self.block_number,
                    },
                ),
            }
        }
    }

    /// Updating a DID document: refused while none is stored under the URI;
    /// otherwise the payload replaces the stored fields, the creation stamp
    /// stays, and the update stamp becomes the current block.
    pub open spec fn update_did_document(
        self,
        origin: AccountId,
        did_uri: Seq<u8>,
        did_input: DIDMetadataPayloadView,
    ) -> Transition {
        if !self.did_documents.contains_key(did_uri) {
            self.refuse(Error::DIDDoesNotExist)
        } else {
            Transition {
                registry: Registry {
                    did_documents: self.did_documents.insert(
                        did_uri,
                        did_input.document(
                            self.did_documents[did_uri].block_number,
                            self.block_number,
                        ),
                    ),
                    ..self
                },
                outcome: Ok(
                    EventView::DIDDocumentUpdated {
                        did_uri,
                        account_id: origin,
                        updated_block_number: self.block_number,
                    },
                ),
            }
        }
    }

    /// Revoking a DID document: refused while none is stored under the URI;
    /// otherwise the document is gone.
    pub open spec fn revoke_did_document(self, origin: AccountId, did_uri: Seq<u8>) -> Transition {
        if !self.did_documents.contains_key(did_uri) {
            self.refuse(Error::DIDDoesNotExist)
        } else {
            Transition {
                registry: Registry { did_documents: self.did_documents.remove(did_uri), ..self },
                outcome: Ok(
                    EventView::DIDDocumentRevoked {
                        did_uri,
                        account_id: origin,
                        revoked_block_number: self.block_number,
                    },
                ),
            }
        }
    }

    /// Creating a credential record: refused if the public key is no account
    /// identifier, and then while a record is stored under the fingerprint;
    /// otherwise the payload is stored as active, whatever flag it carries,
    /// with both stamps at the current block.
    pub open spec fn create_verifiable_credential(
        self,
        origin: AccountId,
        vc_finger_print: Seq<u8>,
        input: VerifiableCredentialMetadataPayloadView,
    ) -> Transition {
        if !is_account_identifier(input.public_key) {
            self.refuse(Error::InvalidPublicKey)
        } else if self.credentials.contains_key(vc_finger_print) {
            self.refuse(Error::VerifiableCredentialFingerPrintExists)
        } else {
            Transition {
                registry: Registry {
                    credentials: self.credentials.insert(
                        vc_finger_print,
                        input.record(self.block_number, self.block_number, Some(true)),
                    ),
                    ..self
                },
                outcome: Ok(
                    EventView::VerifiableCredentialFingerPrintCreated {
                        vc_finger_print,
                        account_id: origin,
                        created_block_number: self.block_number,
                    },
                ),
            }
        }
    }

    /// Updating a credential record: refused while none is stored under the
    /// fingerprint; otherwise holder, public key and flag are taken from the
    /// payload as they are, the creation stamp stays, and the update stamp
    /// becomes the current block. The public key is not looked at.
    pub open spec fn update_verifiable_credential(
        self,
        origin: AccountId,
        vc_finger_print: Seq<u8>,
        input: VerifiableCredentialMetadataPayloadView,
    ) -> Transition {
        if !self.credentials.contains_key(vc_finger_print) {
            self.refuse(Error::VerifiableCredentialFingerPrintDoesNotExist)
        } else {
            Transition {
                registry: Registry {
                    credentials: self.credentials.insert(
                        vc_finger_print,
                        input.record(
                            self.credentials[vc_finger_print].block_number,
                            self.block_number,
                            input.active,
                        ),
                    ),
                    ..self
                },
                outcome: Ok(
                    EventView::VerifiableCredentialFingerPrintUpdated {
                        vc_finger_print,
                        account_id: origin,
                        updated_block_number: self.block_number,
                    },
                ),
            }
        }
    }

    /// Revoking a credential record: refused while none is stored under the
    /// fingerprint; otherwise the record is gone. Its trail stays.
    pub open spec fn revoke_verifiable_credential(
        self,
        origin: AccountId,
        vc_finger_print: Seq<u8>,
    ) -> Transition {
        if !self.credentials.contains_key(vc_finger_print) {
            self.refuse(Error::VerifiableCredentialFingerPrintDoesNotExist)
        } else {
            Transition {
                registry: Registry { credentials: self.credentials.remove(vc_finger_print), ..self },
                outcome: Ok(
                    EventView::VerifiableCredentialFingerPrintRevoked {
                        vc_finger_print,
                        account_id: origin,
                        revoked_block_number: self.block_number,
                    },
                ),
            }
        }
    }

    /// Tracing a credential: refused while no record is stored under the
    /// fingerprint, then unless the record is active, then if the trail is
    /// full; otherwise one entry is added at the end of the trail, recorded
    /// as `Created` if it is the first and under the requested status if not.
    pub open spec fn trace_credential(
        self,
        origin: AccountId,
        account_id: Option<AccountId>,
        vc_finger_print: Seq<u8>,
        status: VerifiableCredentialStatus,
    ) -> Transition {
        let so_far = trail_of(self.trails, vc_finger_print);
        if !self.credentials.contains_key(vc_finger_print) {
            self.refuse(Error::VerifiableCredentialFingerPrintDoesNotExist)
        } else if !self.credentials[vc_finger_print].is_active() {
            self.refuse(Error::VerifiableCredentialInactive)
        } else if so_far.len() >= TRAIL_CAPACITY {
            self.refuse(Error::VerifiableCredentialLogLimitReached)
        } else {
            Transition {
                registry: Registry {
                    trails: self.trails.insert(
                        vc_finger_print,
                        so_far.push(recorded_entry(so_far, account_id, status, self.block_number)),
                    ),
                    ..self
                },
                outcome: Ok(
                    EventView::VerifiableCredentialEvent {
                        vc_finger_print,
                        origin,
                        block_number: self.block_number,
                        status: recorded_status(so_far, status),
                    },
                ),
            }
        }
    }
}

/// One of the operations, with its arguments.
pub ghost enum Call {
    CreateDid { did_uri: Seq<u8>, did_input: DIDMetadataPayloadView },
    UpdateDidDocument { did_uri: Seq<u8>, did_input: DIDMetadataPayloadView },
    RevokeDidDocument { did_uri: Seq<u8> },
    CreateVerifiableCredential {
        vc_finger_print: Seq<u8>,
        input: VerifiableCredentialMetadataPayloadView,
    },
    UpdateVerifiableCredential {
        vc_finger_print: Seq<u8>,
        input: VerifiableCredentialMetadataPayloadView,
    },
    RevokeVerifiableCredential { vc_finger_print: Seq<u8> },
    TraceCredential {
        account_id: Option<AccountId>,
        vc_finger_print: Seq<u8>,
        status: VerifiableCredentialStatus,
    },
}

/// A call as the host hands it over: made by `origin` while the host is at
/// `block_number`.
pub ghost struct Submission {
    pub block_number: BlockNumber,
    pub origin: AccountId,
    pub call: Call,
}

impl Registry {
    /// What `call`, made by `origin`, does to the registry.
    pub open spec fn dispatch(self, origin: AccountId, call: Call) -> Transition {
        match call {
            Call::CreateDid { did_uri, did_input } => self.create_did(origin, did_uri, did_input),
            Call::UpdateDidDocument { did_uri, did_input } => self.update_did_document(
                origin,
                did_uri,
                did_input,
            ),
            Call::RevokeDidDocument { did_uri } => self.revoke_did_document(origin, did_uri),
            Call::CreateVerifiableCredential {
                vc_finger_print,
                input,
            } => self.create_verifiable_credential(origin, vc_finger_print, input),
            Call::UpdateVerifiableCredential {
                vc_finger_print,
                input,
            } => self.update_verifiable_credential(origin, vc_finger_print, input),
            Call::RevokeVerifiableCredential {
                vc_finger_print,
            } => self.revoke_verifiable_credential(origin, vc_finger_print),
            Call::TraceCredential { account_id, vc_finger_print, status } => self.trace_credential(
                origin,
                account_id,
                vc_finger_print,
                status,
            ),
        }
    }

    /// What one submission does: the host moves to its block, then the call
    /// is made.
    pub open spec fn submit(self, submission: Submission) -> Transition {
        self.at_block(submission.block_number).dispatch(submission.origin, submission.call)
    }

    /// The registry after a sequence of submissions, made one after another.
    pub open spec fn run(self, submissions: Seq<Submission>) -> Registry
        decreases submissions.len(),
    {
        if submissions.len() == 0 {
            self
        } else {
            self.run(submissions.drop_last()).submit(submissions.last()).registry
        }
    }
}

} // verus!
