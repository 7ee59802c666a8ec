use ed25519_dalek::{Verifier, VerifyingKey};
use kicad_gateway::device::DeviceIdentity;
use kicad_gateway::error::CompanionError;
use kicad_gateway::identity::{
    compute_fingerprint, create_device_identity, identity_created_at_text, identity_from_row,
    identity_from_stored_row, key_material_from_secret,
    keyring_account, protected_blob_file_name, sign_with_device_key, DpapiSecretStore,
    IdentityError, NativeKeyringSecretStore, SecretStoreError, SigningKeyMaterial,
    KEYRING_SERVICE_NAME,
};
use kicad_gateway::ids::DeviceId;
use kicad_gateway::memory_store::InMemorySecretStore;
use kicad_gateway::time_model::Timestamp;

#[test]
fn debug_output_never_contains_key_bytes() {
    let key = SigningKeyMaterial::from_bytes([0x42; 32]);
    let debug = key.debug_text();
    assert_eq!(debug, "SigningKeyMaterial(REDACTED)");
    assert!(!debug.contains("42"));
}

#[test]
fn key_bytes_round_trip() {
    let key = SigningKeyMaterial::from_bytes([9; 32]);
    assert_eq!(key.to_bytes(), [9; 32]);
    assert_eq!(key.clone().to_bytes(), [9; 32]);
}

#[test]
fn memory_store_then_load_round_trips() {
    let mut store = InMemorySecretStore::new();
    let device_id = DeviceId::new();
    let key = SigningKeyMaterial::from_bytes([7; 32]);
    store.store_device_key(&device_id, &key).unwrap();

    let loaded = store
        .load_device_key(&device_id)
        .unwrap()
        .expect("key present");
    assert_eq!(loaded.to_bytes(), [7; 32]);
}

#[test]
fn load_unknown_device_returns_none_not_error() {
    let store = InMemorySecretStore::new();
    let result = store.load_device_key(&DeviceId::new()).unwrap();
    assert!(result.is_none());
}

#[test]
fn delete_then_load_returns_none() {
    let mut store = InMemorySecretStore::new();
    let device_id = DeviceId::new();
    store
        .store_device_key(&device_id, &SigningKeyMaterial::from_bytes([1; 32]))
        .unwrap();

    store.delete_device_key(&device_id).unwrap();

    assert!(store.load_device_key(&device_id).unwrap().is_none());
}

#[test]
fn storing_again_replaces_only_that_devices_key() {
    let mut store = InMemorySecretStore::new();
    let a = DeviceId::new();
    let b = DeviceId::new();
    store.store_device_key(&a, &SigningKeyMaterial::from_bytes([1; 32])).unwrap();
    store.store_device_key(&b, &SigningKeyMaterial::from_bytes([2; 32])).unwrap();
    store.store_device_key(&a, &SigningKeyMaterial::from_bytes([3; 32])).unwrap();
    assert_eq!(store.load_device_key(&a).unwrap().unwrap().to_bytes(), [3; 32]);
    assert_eq!(store.load_device_key(&b).unwrap().unwrap().to_bytes(), [2; 32]);
    store.delete_device_key(&a).unwrap();
    store.delete_device_key(&a).unwrap();
    assert_eq!(store.load_device_key(&b).unwrap().unwrap().to_bytes(), [2; 32]);
}

#[test]
fn binary_device_key_round_trips_through_backend() {
    let loaded = key_material_from_secret(Some(vec![0xa5; 32]))
        .unwrap()
        .unwrap();
    assert_eq!(loaded.to_bytes(), [0xa5; 32]);
}

#[test]
fn missing_device_key_returns_none() {
    assert!(key_material_from_secret(None).unwrap().is_none());
}

#[test]
fn wrong_length_secret_is_rejected_without_echoing_secret_bytes() {
    let err = match key_material_from_secret(Some(vec![7, 8, 9])) {
        Err(e) => e,
        Ok(_) => panic!("a three-byte secret must be refused"),
    };
    let SecretStoreError::Backend(message) = &err;
    assert!(message.contains("wrong length"));
    assert!(!message.contains("7, 8, 9"));
    assert_eq!(err.code(), "IDENTITY_SECRET_STORE_BACKEND");
    assert!(!err.retryable());
}

#[test]
fn keyring_entries_are_named_by_device_id() {
    let device_id = DeviceId::new();
    assert_eq!(keyring_account(&device_id), device_id.to_string());
    assert_eq!(
        protected_blob_file_name(&device_id),
        format!("{}.bin", device_id.to_string())
    );
    assert_eq!(NativeKeyringSecretStore::new().service(), KEYRING_SERVICE_NAME);
    assert_eq!(
        KEYRING_SERVICE_NAME,
        "dev.oaslananka.kicad-mcp-pro-gateway.device-key"
    );
    assert_eq!(DpapiSecretStore::new("C:/keys".to_string()).store_dir(), "C:/keys");
}

#[test]
fn fingerprint_is_the_hex_sha256_of_the_public_key() {
    // SHA-256 of 32 zero bytes begins 66687aadf862bd776c8f.
    let fingerprint = compute_fingerprint(&[0u8; 32]);
    assert_eq!(fingerprint.0, "6668-7AAD-F862-BD77-6C8F");
    assert_eq!(compute_fingerprint(&[0u8; 32]), fingerprint);
}

fn create(existing: &Option<DeviceIdentity>) -> Result<kicad_gateway::identity::NewDeviceIdentity, IdentityError> {
    create_device_identity(existing, DeviceId::new(), "dev-machine", Timestamp::unix_epoch())
}

#[test]
fn create_twice_fails_rather_than_overwriting() {
    let created = create(&None).unwrap();
    let second = create(&Some(created.identity.clone()));
    assert!(matches!(second, Err(IdentityError::AlreadyExists)));
}

#[test]
fn create_then_load_returns_matching_identity() {
    let created = create(&None).unwrap().identity;
    let loaded = identity_from_row(
        &created.device_id.to_string(),
        &created.public_key.0,
        created.fingerprint.0.clone(),
        created.display_name.clone(),
        Ok(created.created_at),
    )
    .unwrap();
    assert_eq!(loaded.device_id, created.device_id);
    assert_eq!(loaded.public_key, created.public_key);
    assert_eq!(loaded.fingerprint, created.fingerprint);
    assert!(!loaded.fingerprint.0.is_empty());
}

#[test]
fn fingerprint_is_deterministic_for_the_same_public_key() {
    let created = create(&None).unwrap().identity;
    assert_eq!(compute_fingerprint(&created.public_key.0), created.fingerprint);
}

#[test]
fn fingerprints_differ_between_distinct_identities() {
    let a = create(&None).unwrap().identity;
    let b = create(&None).unwrap().identity;
    assert_ne!(a.fingerprint, b.fingerprint);
}

#[test]
fn sign_produces_a_signature_verifiable_against_the_public_key() {
    let created = create(&None).unwrap();
    let message = b"hello companion";
    let signature = sign_with_device_key(
        &Some(created.identity.clone()),
        &Some(created.key.clone()),
        message,
    )
    .unwrap();
    let verifying_key = VerifyingKey::from_bytes(&created.identity.public_key.0).unwrap();
    let signature = ed25519_dalek::Signature::from_bytes(&signature);
    assert!(verifying_key.verify(message, &signature).is_ok());
}

#[test]
fn signing_without_identity_or_key_is_not_found() {
    let created = create(&None).unwrap();
    assert_eq!(
        sign_with_device_key(&None, &Some(created.key.clone()), b"x"),
        Err(IdentityError::NotFound)
    );
    assert_eq!(
        sign_with_device_key(&Some(created.identity.clone()), &None, b"x"),
        Err(IdentityError::NotFound)
    );
}

#[test]
fn stored_rows_are_checked_in_order() {
    let created = create(&None).unwrap().identity;
    assert!(matches!(
        identity_from_row("not-an-id", &[0; 32], String::new(), String::new(), Ok(Timestamp::unix_epoch())),
        Err(IdentityError::Storage(_))
    ));
    assert_eq!(
        identity_from_row(
            &created.device_id.to_string(),
            &[0; 31],
            String::new(),
            String::new(),
            Ok(Timestamp::unix_epoch())
        ),
        Err(IdentityError::InvalidKeyMaterial(
            "stored public key is not 32 bytes".to_string()
        ))
    );
    assert_eq!(
        identity_from_row(
            &created.device_id.to_string(),
            &[0; 32],
            String::new(),
            String::new(),
            Err("bad timestamp".to_string())
        ),
        Err(IdentityError::Storage("bad timestamp".to_string()))
    );
}

#[test]
fn delete_device_key_is_idempotent() {
    let mut store = InMemorySecretStore::new();
    let device_id = DeviceId::new();
    store.delete_device_key(&device_id).unwrap();
    store.delete_device_key(&device_id).unwrap();
    assert!(store.load_device_key(&device_id).unwrap().is_none());
}

#[test]
fn stored_identity_rows_round_trip_through_rfc3339_text() {
    let created = create(&None).unwrap().identity;
    let text = identity_created_at_text(created.created_at).expect("writable instant");
    let loaded = identity_from_stored_row(
        &created.device_id.to_string(),
        &created.public_key.0,
        created.fingerprint.0.clone(),
        created.display_name.clone(),
        &text,
    )
    .expect("a good row loads");
    assert_eq!(loaded, created);
    assert!(matches!(
        identity_from_stored_row(
            &created.device_id.to_string(),
            &created.public_key.0,
            String::new(),
            String::new(),
            "yesterday",
        ),
        Err(IdentityError::Storage(_))
    ));
}
