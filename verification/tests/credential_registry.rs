use verifiable::identifier::{decode_account_identifier, AccountIdentifier};
use verifiable::{
    Error, Event, Pallet, VerifiableCredentialLog, VerifiableCredentialMetadata,
    VerifiableCredentialMetadataPayload, VerifiableCredentialStatus, DID,
};

const ALICE: u64 = 1;

fn get_public_key(pk: Vec<u8>) -> Vec<u8> {
    pk
}

fn fingerprint() -> Vec<u8> {
    "vc_fingerprint".as_bytes().to_vec()
}

/// All that the registry holds under the key that these tests use.
fn state(
    pallet: &Pallet,
) -> (u64, Option<DID>, Option<VerifiableCredentialMetadata>, Option<Vec<VerifiableCredentialLog>>) {
    (
        pallet.block_number(),
        pallet.get_did_document(&fingerprint()).cloned(),
        pallet.get_verifiable_credential_hash(&fingerprint()).cloned(),
        pallet.get_verifiable_credential_trail(&fingerprint()).map(|trail| trail.to_vec()),
    )
}

/// One byte `scheme`, then `len` bytes of key.
fn tagged(scheme: u8, len: usize) -> Vec<u8> {
    let mut bytes = vec![scheme];
    bytes.extend((0..len).map(|i| i as u8));
    bytes
}

fn well_formed_key() -> Vec<u8> {
    vec![
        0, 1, 217, 200, 51, 244, 152, 125, 173, 92, 30, 224, 60, 141, 221, 44, 65, 132, 45, 94,
        199, 150, 116, 108, 95, 18, 118, 246, 86, 167, 64, 132, 76,
    ]
}

#[test]
fn create_verifiable_credential() {
    let mut pallet = Pallet::new();
    let vc_fingerprint = fingerprint();
    let public_key: Vec<u8> = vec![
        0, 1, 217, 200, 51, 244, 152, 125, 173, 92, 30, 224, 60, 141, 221, 44, 65, 132, 45, 94,
        199, 150, 116, 108, 95, 18, 118, 246, 86, 167, 64, 132, 76,
    ];
    let vc_metadata_inout = VerifiableCredentialMetadataPayload {
        account_id: Some(1),
        public_key: public_key.clone(),
        active: Some(true),
    };
    assert!(pallet
        .create_verifiable_credential(ALICE, vc_fingerprint.clone(), vc_metadata_inout)
        .is_ok());
    assert!(pallet.get_verifiable_credential_hash(&vc_fingerprint).is_some());
    let result = pallet.get_verifiable_credential_hash(&vc_fingerprint).unwrap();
    assert_eq!(result.account_id.unwrap(), 1);
    assert_eq!(result.active.unwrap(), true);
    assert_eq!(result.public_key, public_key);
}

#[test]
fn create_existing_verifiable_credential() {
    let mut pallet = Pallet::new();
    let vc_fingerprint = fingerprint();
    let public_key: Vec<u8> = vec![
        0, 1, 217, 200, 51, 244, 152, 125, 173, 92, 30, 224, 60, 141, 221, 44, 65, 132, 45, 94,
        199, 150, 116, 108, 95, 18, 118, 246, 86, 167, 64, 132, 76,
    ];
    let vc_metadata_input =
        VerifiableCredentialMetadataPayload { account_id: Some(1), public_key, active: Some(true) };
    assert!(pallet
        .create_verifiable_credential(ALICE, vc_fingerprint.clone(), vc_metadata_input.clone())
        .is_ok());
    let before = state(&pallet);
    assert_eq!(
        pallet.create_verifiable_credential(ALICE, vc_fingerprint, vc_metadata_input),
        Err(Error::VerifiableCredentialFingerPrintExists)
    );
    assert_eq!(state(&pallet), before);
}

#[test]
fn invalid_public_key() {
    let mut pallet = Pallet::new();
    let vc_fingerprint = fingerprint();

    let public_key: Vec<u8> = vec![255, 32];
    let vc_metadata_input =
        VerifiableCredentialMetadataPayload { account_id: Some(1), public_key, active: Some(true) };

    let before = state(&pallet);
    assert_eq!(
        pallet.create_verifiable_credential(ALICE, vc_fingerprint, vc_metadata_input),
        Err(Error::InvalidPublicKey)
    );
    assert_eq!(state(&pallet), before);
}

#[test]
fn update_verifiable_credential() {
    let mut pallet = Pallet::new();
    let vc_fingerprint = fingerprint();
    let public_key = get_public_key(vec![
        0, 1, 217, 200, 51, 244, 152, 125, 173, 92, 30, 224, 60, 141, 221, 44, 65, 132, 45, 94,
        199, 150, 116, 108, 95, 18, 118, 246, 86, 167, 64, 132, 76,
    ]);
    let vc_metadata_input =
        VerifiableCredentialMetadataPayload { account_id: Some(1), public_key, active: Some(true) };
    assert!(pallet
        .create_verifiable_credential(ALICE, vc_fingerprint.clone(), vc_metadata_input)
        .is_ok());

    let public_key = get_public_key(vec![
        1, 1, 1, 1, 1, 244, 152, 125, 173, 92, 30, 224, 60, 141, 221, 44, 65, 132, 45, 94, 199,
        150, 116, 108, 95, 18, 118, 246, 86, 167, 64, 132, 76,
    ]);
    let vc_metadata_input = VerifiableCredentialMetadataPayload {
        account_id: Some(2),
        public_key: public_key.clone(),
        active: Some(false),
    };
    assert!(pallet
        .update_verifiable_credential(ALICE, vc_fingerprint.clone(), vc_metadata_input)
        .is_ok());

    assert!(pallet.get_verifiable_credential_hash(&vc_fingerprint).is_some());
    let result = pallet.get_verifiable_credential_hash(&vc_fingerprint).unwrap();
    assert_eq!(result.account_id.unwrap(), 2);
    assert_eq!(result.active.unwrap(), false);
    assert_eq!(result.public_key, public_key);
}

#[test]
fn update_non_existing_verifiable_credential() {
    let mut pallet = Pallet::new();
    let vc_fingerprint = fingerprint();
    let public_key = get_public_key(vec![
        0, 1, 217, 200, 51, 244, 152, 125, 173, 92, 30, 224, 60, 141, 221, 44, 65, 132, 45, 94,
        199, 150, 116, 108, 95, 18, 118, 246, 86, 167, 64, 132, 76,
    ]);
    let vc_metadata_input =
        VerifiableCredentialMetadataPayload { account_id: Some(1), public_key, active: Some(true) };

    let before = state(&pallet);
    assert_eq!(
        pallet.update_verifiable_credential(ALICE, vc_fingerprint, vc_metadata_input),
        Err(Error::VerifiableCredentialFingerPrintDoesNotExist)
    );
    assert_eq!(state(&pallet), before);
}

#[test]
fn revoke_verifiable_credential() {
    let mut pallet = Pallet::new();
    let vc_fingerprint = fingerprint();
    let public_key = get_public_key(vec![
        0, 1, 217, 200, 51, 244, 152, 125, 173, 92, 30, 224, 60, 141, 221, 44, 65, 132, 45, 94,
        199, 150, 116, 108, 95, 18, 118, 246, 86, 167, 64, 132, 76,
    ]);
    let vc_metadata_input =
        VerifiableCredentialMetadataPayload { account_id: Some(1), public_key, active: Some(true) };
    assert!(pallet
        .create_verifiable_credential(ALICE, vc_fingerprint.clone(), vc_metadata_input)
        .is_ok());
    assert!(pallet.get_verifiable_credential_hash(&vc_fingerprint).is_some());

    assert!(pallet.revoke_verifiable_credential(ALICE, vc_fingerprint.clone()).is_ok());

    assert!(pallet.get_verifiable_credential_hash(&vc_fingerprint).is_none());
}

#[test]
fn revoke_non_exising_verifiable_credential() {
    let mut pallet = Pallet::new();
    let vc_fingerprint = fingerprint();

    let before = state(&pallet);
    assert_eq!(
        pallet.revoke_verifiable_credential(ALICE, vc_fingerprint),
        Err(Error::VerifiableCredentialFingerPrintDoesNotExist)
    );
    assert_eq!(state(&pallet), before);
}

#[test]
fn public_key_is_valid_when_it_is_exactly_one_identifier() {
    assert!(Pallet::is_substrate_public_key(&well_formed_key()));
    assert!(Pallet::is_substrate_public_key(&[0; 33]));
    assert!(Pallet::is_substrate_public_key(&tagged(0, 32)));
    assert!(Pallet::is_substrate_public_key(&tagged(1, 32)));
    assert!(Pallet::is_substrate_public_key(&tagged(2, 33)));
    assert!(Pallet::is_substrate_public_key(&tagged(3, 33)));
}

#[test]
fn public_key_with_bytes_left_over_is_invalid() {
    assert!(!Pallet::is_substrate_public_key(&tagged(0, 33)));
    assert!(!Pallet::is_substrate_public_key(&tagged(1, 33)));
    assert!(!Pallet::is_substrate_public_key(&tagged(2, 34)));
    assert!(!Pallet::is_substrate_public_key(&tagged(3, 34)));
    assert!(!Pallet::is_substrate_public_key(&tagged(0, 100)));
    let mut one_more = well_formed_key();
    one_more.push(0);
    assert!(!Pallet::is_substrate_public_key(&one_more));
}

#[test]
fn public_key_that_is_too_short_is_invalid() {
    assert!(!Pallet::is_substrate_public_key(&[]));
    assert!(!Pallet::is_substrate_public_key(&[0]));
    assert!(!Pallet::is_substrate_public_key(&[1, 2, 3, 4, 5, 6, 7]));
    assert!(!Pallet::is_substrate_public_key(&[1, 2, 3, 4, 5, 6, 7, 8]));
    assert!(!Pallet::is_substrate_public_key(&[0; 9]));
    assert!(!Pallet::is_substrate_public_key(&[0; 32]));
    assert!(!Pallet::is_substrate_public_key(&tagged(0, 31)));
    assert!(!Pallet::is_substrate_public_key(&tagged(2, 32)));
    assert!(!Pallet::is_substrate_public_key(&tagged(3, 32)));
    let mut one_less = well_formed_key();
    one_less.pop();
    assert!(!Pallet::is_substrate_public_key(&one_less));
}

#[test]
fn public_key_of_an_unknown_scheme_is_invalid() {
    assert!(!Pallet::is_substrate_public_key(&[255, 32]));
    assert!(!Pallet::is_substrate_public_key(&tagged(4, 32)));
    assert!(!Pallet::is_substrate_public_key(&tagged(4, 33)));
    assert!(!Pallet::is_substrate_public_key(&tagged(255, 32)));
    assert!(!Pallet::is_substrate_public_key(&[255; 33]));
    assert!(!Pallet::is_substrate_public_key(&[255; 34]));
}

#[test]
fn create_credential_forces_the_flag_and_stamps_the_block() {
    for flag in [None, Some(false), Some(true)] {
        let mut pallet = Pallet::new();
        pallet.set_block_number(11);
        let input = VerifiableCredentialMetadataPayload {
            account_id: None,
            public_key: well_formed_key(),
            active: flag,
        };
        let event = pallet.create_verifiable_credential(4, fingerprint(), input).unwrap();
        assert_eq!(
            event,
            Event::VerifiableCredentialFingerPrintCreated {
                vc_finger_print: fingerprint(),
                account_id: 4,
                created_block_number: 11
            }
        );
        assert_eq!(
            pallet.get_verifiable_credential_hash(&fingerprint()),
            Some(&VerifiableCredentialMetadata {
                account_id: None,
                public_key: well_formed_key(),
                block_number: 11,
                updated_block_number: 11,
                active: Some(true),
            })
        );
    }
}

#[test]
fn invalid_key_is_refused_whatever_else_the_payload_holds() {
    let keys: Vec<Vec<u8>> = vec![
        vec![],
        vec![0],
        vec![255, 32],
        vec![1, 2, 3, 4, 5, 6, 7],
        vec![0; 8],
        vec![0; 32],
        vec![0; 34],
        vec![2; 33],
        vec![4; 33],
    ];
    for key in keys {
        for flag in [None, Some(false), Some(true)] {
            for holder in [None, Some(3u64)] {
                let mut pallet = Pallet::new();
                let input = VerifiableCredentialMetadataPayload {
                    account_id: holder,
                    public_key: key.clone(),
                    active: flag,
                };
                assert_eq!(
                    pallet.create_verifiable_credential(ALICE, fingerprint(), input),
                    Err(Error::InvalidPublicKey)
                );
                assert!(pallet.get_verifiable_credential_hash(&fingerprint()).is_none());
            }
        }
    }
}

#[test]
fn invalid_key_is_reported_before_an_existing_record() {
    let mut pallet = Pallet::new();
    let input = VerifiableCredentialMetadataPayload {
        account_id: Some(1),
        public_key: well_formed_key(),
        active: None,
    };
    assert!(pallet.create_verifiable_credential(ALICE, fingerprint(), input).is_ok());
    let before = pallet.get_verifiable_credential_hash(&fingerprint()).cloned();
    let bad = VerifiableCredentialMetadataPayload {
        account_id: Some(1),
        public_key: vec![255, 32],
        active: None,
    };
    assert_eq!(
        pallet.create_verifiable_credential(ALICE, fingerprint(), bad),
        Err(Error::InvalidPublicKey)
    );
    assert_eq!(pallet.get_verifiable_credential_hash(&fingerprint()).cloned(), before);
}

#[test]
fn update_credential_takes_a_key_that_creation_would_refuse() {
    let mut pallet = Pallet::new();
    pallet.set_block_number(2);
    let input = VerifiableCredentialMetadataPayload {
        account_id: Some(1),
        public_key: well_formed_key(),
        active: Some(true),
    };
    assert!(pallet.create_verifiable_credential(ALICE, fingerprint(), input).is_ok());
    pallet.set_block_number(6);
    let odd = VerifiableCredentialMetadataPayload {
        account_id: None,
        public_key: vec![255, 32],
        active: None,
    };
    assert_eq!(
        pallet.update_verifiable_credential(8, fingerprint(), odd),
        Ok(Event::VerifiableCredentialFingerPrintUpdated {
            vc_finger_print: fingerprint(),
            account_id: 8,
            updated_block_number: 6
        })
    );
    assert_eq!(
        pallet.get_verifiable_credential_hash(&fingerprint()),
        Some(&VerifiableCredentialMetadata {
            account_id: None,
            public_key: vec![255, 32],
            block_number: 2,
            updated_block_number: 6,
            active: None,
        })
    );
}

#[test]
fn update_credential_keeps_the_creation_block_over_many_updates() {
    let mut pallet = Pallet::new();
    pallet.set_block_number(5);
    let input = VerifiableCredentialMetadataPayload {
        account_id: Some(1),
        public_key: well_formed_key(),
        active: Some(true),
    };
    assert!(pallet.create_verifiable_credential(ALICE, fingerprint(), input).is_ok());
    for block in 6..30u64 {
        pallet.set_block_number(block);
        let input = VerifiableCredentialMetadataPayload {
            account_id: Some(block),
            public_key: vec![block as u8],
            active: Some(block % 2 == 0),
        };
        assert!(pallet.update_verifiable_credential(ALICE, fingerprint(), input).is_ok());
        let stored = pallet.get_verifiable_credential_hash(&fingerprint()).unwrap();
        assert_eq!(stored.block_number, 5);
        assert_eq!(stored.updated_block_number, block);
        assert_eq!(stored.active, Some(block % 2 == 0));
    }
}

#[test]
fn credential_can_be_created_again_only_after_it_was_revoked() {
    let mut pallet = Pallet::new();
    let input = VerifiableCredentialMetadataPayload {
        account_id: Some(1),
        public_key: well_formed_key(),
        active: Some(true),
    };
    assert!(pallet.create_verifiable_credential(ALICE, fingerprint(), input.clone()).is_ok());
    assert_eq!(
        pallet.create_verifiable_credential(2, fingerprint(), input.clone()),
        Err(Error::VerifiableCredentialFingerPrintExists)
    );
    assert!(pallet.update_verifiable_credential(2, fingerprint(), input.clone()).is_ok());
    assert_eq!(
        pallet.create_verifiable_credential(2, fingerprint(), input.clone()),
        Err(Error::VerifiableCredentialFingerPrintExists)
    );
    pallet.set_block_number(9);
    assert_eq!(
        pallet.revoke_verifiable_credential(3, fingerprint()),
        Ok(Event::VerifiableCredentialFingerPrintRevoked {
            vc_finger_print: fingerprint(),
            account_id: 3,
            revoked_block_number: 9
        })
    );
    assert!(pallet.create_verifiable_credential(2, fingerprint(), input).is_ok());
    assert_eq!(pallet.get_verifiable_credential_hash(&fingerprint()).unwrap().block_number, 9);
}

#[test]
fn restored_credential_is_found_and_decides_on_traces() {
    let mut pallet = Pallet::new();
    let record = VerifiableCredentialMetadata {
        account_id: Some(3),
        public_key: vec![1],
        block_number: 4,
        updated_block_number: 5,
        active: Some(false),
    };
    pallet.restore_verifiable_credential(fingerprint(), record.clone());
    assert_eq!(pallet.get_verifiable_credential_hash(&fingerprint()), Some(&record));
    assert_eq!(
        pallet.trace_credential(ALICE, None, fingerprint(), VerifiableCredentialStatus::Scanned),
        Err(Error::VerifiableCredentialInactive)
    );
}

#[test]
fn default_credential_records_are_empty() {
    assert_eq!(
        VerifiableCredentialMetadata::default(),
        VerifiableCredentialMetadata {
            account_id: None,
            public_key: Vec::new(),
            block_number: 0,
            updated_block_number: 0,
            active: None,
        }
    );
    assert_eq!(
        VerifiableCredentialMetadataPayload::default(),
        VerifiableCredentialMetadataPayload {
            account_id: None,
            public_key: Vec::new(),
            active: None
        }
    );
}

#[test]
fn account_identifier_holds_the_scheme_and_the_key() {
    let key: Vec<u8> = (1..=33u8).collect();
    let mut first = [0u8; 32];
    first.copy_from_slice(&key[..32]);
    let mut whole = [0u8; 33];
    whole.copy_from_slice(&key);

    let mut bytes = vec![0];
    bytes.extend_from_slice(&first);
    assert_eq!(decode_account_identifier(&bytes), Some(AccountIdentifier::Ed25519(first)));
    bytes[0] = 1;
    assert_eq!(decode_account_identifier(&bytes), Some(AccountIdentifier::Sr25519(first)));
    bytes[0] = 2;
    assert_eq!(decode_account_identifier(&bytes), None);

    let mut bytes = vec![2];
    bytes.extend_from_slice(&whole);
    assert_eq!(decode_account_identifier(&bytes), Some(AccountIdentifier::Ecdsa(whole)));
    bytes[0] = 3;
    assert_eq!(decode_account_identifier(&bytes), Some(AccountIdentifier::Eth(whole)));
    bytes[0] = 0;
    assert_eq!(decode_account_identifier(&bytes), None);
    bytes[0] = 4;
    assert_eq!(decode_account_identifier(&bytes), None);

    assert_eq!(AccountIdentifier::Ed25519(first).encoded_len(), 33);
    assert_eq!(AccountIdentifier::Sr25519(first).encoded_len(), 33);
    assert_eq!(AccountIdentifier::Ecdsa(whole).encoded_len(), 34);
    assert_eq!(AccountIdentifier::Eth(whole).encoded_len(), 34);
}

#[test]
fn account_identifier_of_the_well_formed_key() {
    let mut key = [0u8; 32];
    key.copy_from_slice(&well_formed_key()[1..]);
    assert_eq!(
        decode_account_identifier(&well_formed_key()),
        Some(AccountIdentifier::Ed25519(key))
    );
    assert_eq!(key[0], 1);
    assert_eq!(key[31], 76);
    assert_eq!(decode_account_identifier(&[255, 32]), None);
    assert_eq!(decode_account_identifier(&[]), None);
}
