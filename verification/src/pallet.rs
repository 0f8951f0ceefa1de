//! The registry itself: DID documents, credential records and trails, held
//! in memory, with the operations that create, update, revoke and trace.
//!
//! Every operation either succeeds, changes the registry and returns the one
//! event to report, or is refused with an error and changes nothing. What
//! each does is given by the function of the same name on
//! [`Registry`](crate::model::Registry).

use vstd::prelude::*;

use crate::bytes::bytes_clone;
use crate::identifier::{decode_account_identifier, is_account_identifier};
use crate::model::Registry;
use crate::storage::StorageMap;
use crate::trail::{CredentialTrail, TrailStore};
use crate::types::{
    outcome_view, AccountId, BlockNumber, DIDMetadataPayload, Error, Event,
    VerifiableCredentialMetadata, VerifiableCredentialMetadataPayload,
    VerifiableCredentialStatus, DID,
};

verus! {

/// The registry.
pub struct Pallet {
    block_number: BlockNumber,
    did_documents: StorageMap<DID>,
    credentials: StorageMap<VerifiableCredentialMetadata>,
    trails: TrailStore,
}

impl View for Pallet {
    type V = Registry;

    closed spec fn view(&self) -> Registry {
        Registry {
            block_number: self.block_number,
            did_documents: self.did_documents@,
            credentials: self.credentials@,
            trails: self.trails@,
        }
    }
}

impl Pallet {
    /// A registry at block 0 with nothing stored.
    pub fn new() -> (pallet: Self)
        ensures
            pallet@ == Registry::empty(),
            pallet@.valid(),
    {
        Pallet {
            block_number: 0,
            did_documents: StorageMap::new(),
            credentials: StorageMap::new(),
            trails: TrailStore::new(),
        }
    }

    /// The block that the host is at.
    pub fn block_number(&self) -> (block_number: BlockNumber)
        ensures
            block_number == self@.block_number,
    {
        self.block_number
    }

    /// Tells the registry which block the host is at.
    pub fn set_block_number(&mut self, block_number: BlockNumber)
        ensures
            final(self)@ == old(self)@.at_block(block_number),
            final(self)@.valid(),
    {
        self.trails.validity();
        self.block_number = block_number;
    }

    /// The document stored under `did_uri`, if any.
    pub fn get_did_document(&self, did_uri: &[u8]) -> (found: Option<&DID>)
        ensures
            match found {
                Some(document) => self@.did_documents.contains_key(did_uri@)
                    && self@.did_documents[did_uri@] == document@,
                None => !self@.did_documents.contains_key(did_uri@),
            },
    {
        self.did_documents.get(did_uri)
    }

    /// The credential record stored under `vc_finger_print`, if any.
    pub fn get_verifiable_credential_hash(&self, vc_finger_print: &[u8]) -> (found: Option<
        &VerifiableCredentialMetadata,
    >)
        ensures
            match found {
                Some(record) => self@.credentials.contains_key(vc_finger_print@)
                    && self@.credentials[vc_finger_print@] == record@,
                None => !self@.credentials.contains_key(vc_finger_print@),
            },
    {
        self.credentials.get(vc_finger_print)
    }

    /// The trail stored under `vc_finger_print`, if any.
    pub fn get_verifiable_credential_trail(&self, vc_finger_print: &[u8]) -> (found: Option<
        &CredentialTrail,
    >)
        ensures
            self@.valid(),
            match found {
                Some(trail) => self@.trails.contains_key(vc_finger_print@)
                    && self@.trails[vc_finger_print@] == trail@,
                None => !self@.trails.contains_key(vc_finger_print@),
            },
    {
        self.trails.get(vc_finger_print)
    }

    /// Puts back a document that the host had stored under `did_uri`, in
    /// place of whatever is stored there. This is how a host that keeps the
    /// records itself hands them over; it is no operation of the registry and
    /// reports nothing.
    pub fn restore_did_document(&mut self, did_uri: Vec<u8>, document: DID)
        ensures
            final(self)@ == (Registry {
                did_documents: old(self)@.did_documents.insert(did_uri@, document@),
                ..old(self)@
            }),
            final(self)@.valid(),
    {
        self.trails.validity();
        self.did_documents.insert(did_uri, document);
    }

    /// Puts back a credential record that the host had stored under
    /// `vc_finger_print`, in place of whatever is stored there.
    pub fn restore_verifiable_credential(
        &mut self,
        vc_finger_print: Vec<u8>,
        record: VerifiableCredentialMetadata,
    )
        ensures
            final(self)@ == (Registry {
                credentials: old(self)@.credentials.insert(vc_finger_print@, record@),
                ..old(self)@
            }),
            final(self)@.valid(),
    {
        self.trails.validity();
        self.credentials.insert(vc_finger_print, record);
    }

    /// Puts back a trail that the host had stored under `vc_finger_print`, in
    /// place of whatever is stored there. A trail without entries is not
    /// stored, and `false` is returned.
    pub fn restore_verifiable_credential_trail(
        &mut self,
        vc_finger_print: Vec<u8>,
        trail: CredentialTrail,
    ) -> (stored: bool)
        ensures
            stored == (trail@.len() > 0),
            final(self)@ == (if stored {
                Registry {
                    trails: old(self)@.trails.insert(vc_finger_print@, trail@),
                    ..old(self)@
                }
            } else {
                old(self)@
            }),
            final(self)@.valid(),
    {
        self.trails.restore(vc_finger_print, trail)
    }

    /// Whether `public_key` is exactly one encoded account identifier, with
    /// nothing left over.
    pub fn is_substrate_public_key(public_key: &[u8]) -> (valid: bool)
        ensures
            valid == is_account_identifier(public_key@),
    {
        decode_account_identifier(public_key).is_some()
    }

    /// Stores a new DID document under `did_uri`.
    ///
    /// Refused with `DIDExists` while a document is stored there. Otherwise
    /// the document holds the payload's fields and is stamped, as created and
    /// as updated, with the current block.
    pub fn create_did(
        &mut self,
        origin: AccountId,
        did_uri: Vec<u8>,
        did_input: DIDMetadataPayload,
    ) -> (outcome: Result<Event, Error>)
        ensures
            final(self)@ == old(self)@.create_did(origin, did_uri@, did_input@).registry,
            outcome_view(outcome) == old(self)@.create_did(origin, did_uri@, did_input@).outcome,
            final(self)@.valid(),
    {
        self.trails.validity();
        let block_number = self.block_number;
        let did_document = DID {
            signatures: did_input.signatures,
            did_resolution_metadata: did_input.did_resolution_metadata,
            did_document_metadata: did_input.did_document_metadata,
            block_number,
            updated_block_number: block_number,
            did_ref: did_input.did_ref,
            sender_account_id: did_input.sender_account_id,
        };
        if self.did_documents.contains_key(did_uri.as_slice()) {
            return Err(Error::DIDExists);
        }
        self.did_documents.insert(bytes_clone(did_uri.as_slice()), did_document);
        Ok(Event::DIDDocumentCreated { did_uri, account_id: origin, created_block_number: block_number })
    }

    /// Replaces the DID document stored under `did_uri`.
    ///
    /// Refused with `DIDDoesNotExist` while no document is stored there.
    /// Otherwise the document holds the payload's fields, keeps the block of
    /// its creation, and is stamped as updated with the current block. Any
    /// caller may update any document.
    pub fn update_did_document(
        &mut self,
        origin: AccountId,
        did_uri: Vec<u8>,
        did_input: DIDMetadataPayload,
    ) -> (outcome: Result<Event, Error>)
        ensures
            final(self)@ == old(self)@.update_did_document(origin, did_uri@, did_input@).registry,
            outcome_view(outcome) == old(self)@.update_did_document(
                origin,
                did_uri@,
                did_input@,
            ).outcome,
            final(self)@.valid(),
    {
        self.trails.validity();
        let block_number = self.block_number;
        let created = match self.did_documents.get(did_uri.as_slice()) {
            None => {
                return Err(Error::DIDDoesNotExist);
            },
            Some(did) => did.block_number,
        };
        let did_document = DID {
            signatures: did_input.signatures,
            did_resolution_metadata: did_input.did_resolution_metadata,
            did_document_metadata: did_input.did_document_metadata,
            block_number: created,
            updated_block_number: block_number,
            did_ref: did_input.did_ref,
            sender_account_id: did_input.sender_account_id,
        };
        self.did_documents.insert(bytes_clone(did_uri.as_slice()), did_document);
        Ok(Event::DIDDocumentUpdated { did_uri, account_id: origin, updated_block_number: block_number })
    }

    /// Removes the DID document stored under `did_uri`.
    ///
    /// Refused with `DIDDoesNotExist` while no document is stored there.
    pub fn revoke_did_document(&mut self, origin: AccountId, did_uri: Vec<u8>) -> (outcome: Result<
        Event,
        Error,
    >)
        ensures
            final(self)@ == old(self)@.revoke_did_document(origin, did_uri@).registry,
            outcome_view(outcome) == old(self)@.revoke_did_document(origin, did_uri@).outcome,
            final(self)@.valid(),
    {
        self.trails.validity();
        if !self.did_documents.contains_key(did_uri.as_slice()) {
            return Err(Error::DIDDoesNotExist);
        }
        let block_number = self.block_number;
        self.did_documents.remove(did_uri.as_slice());
        Ok(Event::DIDDocumentRevoked { did_uri, account_id: origin, revoked_block_number: block_number })
    }

    /// Stores a new credential record under `vc_finger_print`.
    ///
    /// Refused with `InvalidPublicKey` unless the payload's public key is
    /// exactly one encoded account identifier, and else with
    /// `VerifiableCredentialFingerPrintExists` while a record is stored under
    /// the fingerprint. Otherwise the record holds the payload's holder and
    /// public key, is active whatever flag the payload carries, and is
    /// stamped, as created and as updated, with the current block.
    pub fn create_verifiable_credential(
        &mut self,
        origin: AccountId,
        vc_finger_print: Vec<u8>,
        verifiable_credential_input_metadata: VerifiableCredentialMetadataPayload,
    ) -> (outcome: Result<Event, Error>)
        ensures
            final(self)@ == old(self)@.create_verifiable_credential(
                origin,
                vc_finger_print@,
                verifiable_credential_input_metadata@,
            ).registry,
            outcome_view(outcome) == old(self)@.create_verifiable_credential(
                origin,
                vc_finger_print@,
                verifiable_credential_input_metadata@,
            ).outcome,
            final(self)@.valid(),
    {
        self.trails.validity();
        if !Self::is_substrate_public_key(
            verifiable_credential_input_metadata.public_key.as_slice(),
        ) {
            return Err(Error::InvalidPublicKey);
        }
        if self.credentials.contains_key(vc_finger_print.as_slice()) {
            return Err(Error::VerifiableCredentialFingerPrintExists);
        }
        let block_number = self.block_number;
        let verifiable_credential_metadata = VerifiableCredentialMetadata {
            account_id: verifiable_credential_input_metadata.account_id,
            public_key: verifiable_credential_input_metadata.public_key,
            block_number,
            updated_block_number: block_number,
            active: Some(true),
        };
        self.credentials.insert(
            bytes_clone(vc_finger_print.as_slice()),
            verifiable_credential_metadata,
        );
        Ok(
            Event::VerifiableCredentialFingerPrintCreated {
                vc_finger_print,
                account_id: origin,
                created_block_number: block_number,
            },
        )
    }

    /// Removes the credential record stored under `vc_finger_print`.
    ///
    /// Refused with `VerifiableCredentialFingerPrintDoesNotExist` while no
    /// record is stored there. The trail of the credential stays.
    pub fn revoke_verifiable_credential(
        &mut self,
        origin: AccountId,
        vc_finger_print: Vec<u8>,
    ) -> (outcome: Result<Event, Error>)
        ensures
            final(self)@ == old(self)@.revoke_verifiable_credential(
                origin,
                vc_finger_print@,
            ).registry,
            outcome_view(outcome) == old(self)@.revoke_verifiable_credential(
                origin,
                vc_finger_print@,
            ).outcome,
            final(self)@.valid(),
    {
        self.trails.validity();
        if !self.credentials.contains_key(vc_finger_print.as_slice()) {
            return Err(Error::VerifiableCredentialFingerPrintDoesNotExist);
        }
        let block_number = self.block_number;
        self.credentials.remove(vc_finger_print.as_slice());
        Ok(
            Event::VerifiableCredentialFingerPrintRevoked {
                vc_finger_print,
                account_id: origin,
                revoked_block_number: block_number,
            },
        )
    }

    /// Replaces the credential record stored under `vc_finger_print`.
    ///
    /// Refused with `VerifiableCredentialFingerPrintDoesNotExist` while no
    /// record is stored there. Otherwise holder, public key and flag are
    /// taken from the payload as they are, the record keeps the block of its
    /// creation, and is stamped as updated with the current block. The public
    /// key is not checked here.
    pub fn update_verifiable_credential(
        &mut self,
        origin: AccountId,
        vc_finger_print: Vec<u8>,
        verifiable_credential_input_metadata: VerifiableCredentialMetadataPayload,
    ) -> (outcome: Result<Event, Error>)
        ensures
            final(self)@ == old(self)@.update_verifiable_credential(
                origin,
                vc_finger_print@,
                verifiable_credential_input_metadata@,
            ).registry,
            outcome_view(outcome) == old(self)@.update_verifiable_credential(
                origin,
                vc_finger_print@,
                verifiable_credential_input_metadata@,
            ).outcome,
            final(self)@.valid(),
    {
        self.trails.validity();
        let created = match self.credentials.get(vc_finger_print.as_slice()) {
            None => {
                return Err(Error::VerifiableCredentialFingerPrintDoesNotExist);
            },
            Some(vc) => vc.block_number,
        };
        let block_number = self.block_number;
        let verifiable_credential_metadata = VerifiableCredentialMetadata {
            account_id: verifiable_credential_input_metadata.account_id,
            public_key: verifiable_credential_input_metadata.public_key,
            block_number: created,
            updated_block_number: block_number,
            active: verifiable_credential_input_metadata.active,
        };
        self.credentials.insert(
            bytes_clone(vc_finger_print.as_slice()),
            verifiable_credential_metadata,
        );
        Ok(
            Event::VerifiableCredentialFingerPrintUpdated {
                vc_finger_print,
                account_id: origin,
                updated_block_number: block_number,
            },
        )
    }

    /// Appends one entry about `account_id` to the trail of the credential
    /// stored under `vc_finger_print`.
    ///
    /// Refused with `VerifiableCredentialFingerPrintDoesNotExist` while no
    /// record is stored under the fingerprint, else with
    /// `VerifiableCredentialInactive` unless the record's flag is
    /// `Some(true)`, else with `VerifiableCredentialLogLimitReached` if the
    /// trail is full. Otherwise the entry is stamped with the current block
    /// and added at the end of the trail; the first entry of a trail is
    /// recorded as `Created` whatever status was requested, every later one
    /// under the requested status, and the event carries the recorded status.
    pub fn trace_credential(
        &mut self,
        origin: AccountId,
        account_id: Option<AccountId>,
        vc_finger_print: Vec<u8>,
        status: VerifiableCredentialStatus,
    ) -> (outcome: Result<Event, Error>)
        ensures
            final(self)@ == old(self)@.trace_credential(
                origin,
                account_id,
                vc_finger_print@,
                status,
            ).registry,
            outcome_view(outcome) == old(self)@.trace_credential(
                origin,
                account_id,
                vc_finger_print@,
                status,
            ).outcome,
            final(self)@.valid(),
    {
        self.trails.validity();
        let active = match self.credentials.get(vc_finger_print.as_slice()) {
            None => {
                return Err(Error::VerifiableCredentialFingerPrintDoesNotExist);
            },
            Some(verifiable_credential_metadata) => verifiable_credential_metadata.active,
        };
        match active {
            Some(true) => {},
            _ => {
                return Err(Error::VerifiableCredentialInactive);
            },
        }
        let block_number = self.block_number;
        match self.trails.record(
            bytes_clone(vc_finger_print.as_slice()),
            account_id,
            status,
            block_number,
        ) {
            Err(error) => Err(error),
            Ok(recorded) => Ok(
                Event::VerifiableCredentialEvent {
                    vc_finger_print,
                    origin,
                    block_number,
                    status: recorded,
                },
            ),
        }
    }
}

} // verus!
