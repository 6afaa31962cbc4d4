use veracruz_nitro::attestation::{
    check_challenge, check_enclave_hash, check_measurement_and_key, hash_differs_from_measurement,
    public_key_hash, start,
    AttestationContexts, AttestationDocument, TabascoError,
};

fn document(nonce: Option<Vec<u8>>) -> AttestationDocument {
    AttestationDocument { nonce, pcrs: vec![vec![1, 2, 3]], public_key: Some(b"abc".to_vec()) }
}

const SHA256_ABC: [u8; 32] = [
    0xba, 0x78, 0x16, 0xbf, 0x8f, 0x01, 0xcf, 0xea, 0x41, 0x41, 0x40, 0xde, 0x5d, 0xae, 0x22, 0x23,
    0xb0, 0x03, 0x61, 0xa3, 0x96, 0x17, 0x7a, 0x9c, 0xb4, 0x10, 0xff, 0x61, 0xf2, 0x00, 0x15, 0xad,
];

#[test]
fn issued_challenge_is_accepted() {
    let mut contexts = AttestationContexts::new();
    let challenge = [7u8; 32];
    contexts.record_challenge("1.2.3", 5, challenge);
    let context = check_challenge(&contexts, 5, &document(Some(challenge.to_vec()))).unwrap();
    assert_eq!(context.firmware_version, "1.2.3");
    assert_eq!(context.challenge, challenge);
}

#[test]
fn started_challenge_is_accepted() {
    let mut contexts = AttestationContexts::new();
    let challenge = start(&mut contexts, "0.9", 42);
    assert!(contexts.contains(42));
    let context = check_challenge(&contexts, 42, &document(Some(challenge.to_vec()))).unwrap();
    assert_eq!(context.firmware_version, "0.9");
    assert_eq!(context.challenge, challenge);
}

#[test]
fn other_nonce_is_refused() {
    let mut contexts = AttestationContexts::new();
    contexts.record_challenge("1.2.3", 5, [7u8; 32]);
    let r = check_challenge(&contexts, 5, &document(Some(vec![7u8; 31])));
    assert_eq!(
        r.unwrap_err(),
        TabascoError::MismatchError {
            variable: "nonce/challenge",
            expected: vec![7u8; 32],
            received: vec![7u8; 31],
        }
    );
}

#[test]
fn missing_nonce_is_refused() {
    let mut contexts = AttestationContexts::new();
    contexts.record_challenge("1.2.3", 5, [7u8; 32]);
    let r = check_challenge(&contexts, 5, &document(None));
    assert_eq!(r.unwrap_err(), TabascoError::MissingFieldError("nonce"));
}

#[test]
fn unknown_device_is_refused() {
    let mut contexts = AttestationContexts::new();
    contexts.record_challenge("1.2.3", 5, [7u8; 32]);
    let r = check_challenge(&contexts, 6, &document(Some(vec![7u8; 32])));
    assert_eq!(r.unwrap_err(), TabascoError::NoDeviceError(6));
    assert!(!contexts.contains(6));
}

#[test]
fn restarting_replaces_the_challenge() {
    let mut contexts = AttestationContexts::new();
    contexts.record_challenge("1", 5, [1u8; 32]);
    contexts.record_challenge("2", 5, [2u8; 32]);
    let r = check_challenge(&contexts, 5, &document(Some(vec![1u8; 32])));
    assert!(matches!(r, Err(TabascoError::MismatchError { .. })));
    let context = check_challenge(&contexts, 5, &document(Some(vec![2u8; 32]))).unwrap();
    assert_eq!(context.firmware_version, "2");
}

#[test]
fn other_devices_are_unaffected() {
    let mut contexts = AttestationContexts::new();
    contexts.record_challenge("1", 5, [1u8; 32]);
    contexts.record_challenge("2", 6, [2u8; 32]);
    let context = check_challenge(&contexts, 5, &document(Some(vec![1u8; 32]))).unwrap();
    assert_eq!(context.firmware_version, "1");
}

#[test]
fn unregistered_firmware_is_refused() {
    let r = check_enclave_hash(None, &document(None), true);
    assert_eq!(r, Err(TabascoError::MissingFieldError("firmware version")));
}

#[test]
fn matching_measurement_passes() {
    assert_eq!(check_enclave_hash(Some(vec![1, 2, 3]), &document(None), false), Ok(()));
}

#[test]
fn differing_measurement_is_refused_outside_debug_mode() {
    let r = check_enclave_hash(Some(vec![1, 2, 4]), &document(None), false);
    assert_eq!(
        r,
        Err(TabascoError::MismatchError {
            variable: "received_enclave_hash",
            expected: vec![1, 2, 4],
            received: vec![1, 2, 3],
        })
    );
}

#[test]
fn differing_measurement_passes_in_debug_mode() {
    assert_eq!(check_enclave_hash(Some(vec![1, 2, 4]), &document(None), true), Ok(()));
}

#[test]
fn public_key_hash_is_sha256() {
    assert_eq!(public_key_hash(&document(None)), Ok(SHA256_ABC.to_vec()));
}

#[test]
fn missing_public_key_is_refused() {
    let doc = AttestationDocument { nonce: None, pcrs: vec![vec![]], public_key: None };
    assert_eq!(public_key_hash(&doc), Err(TabascoError::MissingFieldError("public_key")));
}

#[test]
fn measurement_is_checked_before_the_key() {
    let doc = AttestationDocument { nonce: None, pcrs: vec![vec![9]], public_key: None };
    let r = check_measurement_and_key(Some(vec![8]), &doc, false);
    assert!(matches!(r, Err(TabascoError::MismatchError { variable: "received_enclave_hash", .. })));
    let r = check_measurement_and_key(Some(vec![8]), &doc, true);
    assert_eq!(r, Err(TabascoError::MissingFieldError("public_key")));
}

#[test]
fn measurement_and_key_give_the_key_digest() {
    let r = check_measurement_and_key(Some(vec![1, 2, 3]), &document(None), false);
    assert_eq!(r, Ok(SHA256_ABC.to_vec()));
}

#[test]
fn unregistered_firmware_is_refused_without_pcrs() {
    let doc = AttestationDocument { nonce: None, pcrs: vec![], public_key: Some(vec![1]) };
    assert_eq!(
        check_measurement_and_key(None, &doc, false),
        Err(TabascoError::MissingFieldError("firmware version"))
    );
    assert_eq!(
        check_enclave_hash(None, &doc, true),
        Err(TabascoError::MissingFieldError("firmware version"))
    );
}

#[test]
fn debug_mode_matters_only_on_a_differing_hash() {
    assert!(!hash_differs_from_measurement(&None, &document(None)));
    assert!(!hash_differs_from_measurement(&Some(vec![1, 2, 3]), &document(None)));
    assert!(hash_differs_from_measurement(&Some(vec![1, 2]), &document(None)));
}

#[test]
fn debug_mode_ignores_the_measurement() {
    let a = AttestationDocument { nonce: None, pcrs: vec![vec![1]], public_key: Some(b"abc".to_vec()) };
    let b = AttestationDocument { nonce: None, pcrs: vec![vec![2]], public_key: Some(b"abc".to_vec()) };
    assert_eq!(
        check_measurement_and_key(Some(vec![3]), &a, true),
        check_measurement_and_key(Some(vec![3]), &b, true)
    );
}

#[test]
fn token_passes_when_every_check_passes() {
    let mut contexts = AttestationContexts::new();
    contexts.record_challenge("fw", 9, [3u8; 32]);
    let doc = AttestationDocument {
        nonce: Some(vec![3u8; 32]),
        pcrs: vec![vec![7]],
        public_key: Some(b"abc".to_vec()),
    };
    let context = check_challenge(&contexts, 9, &doc).unwrap();
    assert_eq!(context.firmware_version, "fw");
    assert_eq!(check_measurement_and_key(Some(vec![7]), &doc, false), Ok(SHA256_ABC.to_vec()));
}
