//! Completion keys and the origin that they are bound to.

use ed25519_dalek::SigningKey;
use identity_log::persistence::completion_key::{
    decode_descriptor, CompletionKeyDescriptor, CompletionSignerMetadata,
};
use identity_log::persistence::completion_receipt::{
    HistoryRecoveryCompletionRepository, StoredDescriptor, StoredDescriptorHead,
};
use identity_log::persistence::error::IdentityPersistenceError;
use identity_log::persistence::origin::is_canonical_https_origin;
use identity_log::wire::digest::Sha256Digest;
use identity_log::wire::number::UtcMillis;
use uuid::Uuid;

const ORIGIN: &str = "https://identity.example";

fn metadata(epoch: u64, previous: Option<Sha256Digest>) -> CompletionSignerMetadata {
    CompletionSignerMetadata {
        key_id: *Uuid::now_v7().as_bytes(),
        epoch,
        rollback_floor_epoch: 1,
        issued_at: UtcMillis::new(1_000).unwrap(),
        expires_at: UtcMillis::new(2_000).unwrap(),
        previous_descriptor_digest: previous,
    }
}

#[test]
fn canonical_https_origin_is_exact_and_shared() {
    for value in [
        "https://identity.example/path",
        "https://identity.example?query",
        "https://identity.example#fragment",
        "https://user@identity.example",
        "https://identity.example:443",
        "HTTPS://identity.example",
        "https://identity.example/",
    ] {
        assert!(!is_canonical_https_origin(value), "accepted {value}");
    }
    assert!(is_canonical_https_origin("https://identity.example"));
    assert!(is_canonical_https_origin("https://127.0.0.1"));
    assert!(!is_canonical_https_origin("http://127.0.0.1"));
}

#[test]
fn nested_texts_are_no_origins() {
    let nested = "blob:".repeat(100_000) + "https://identity.example";
    assert!(!is_canonical_https_origin(&nested));
    assert!(!is_canonical_https_origin("blob:https://identity.example"));
    assert!(!is_canonical_https_origin("https:"));
    assert!(!is_canonical_https_origin("data:text"));
}

#[test]
fn descriptor_is_canonical_and_signed_by_provisioned_key() {
    let key = SigningKey::from_bytes(&[7; 32]);
    let metadata = CompletionSignerMetadata {
        key_id: *Uuid::now_v7().as_bytes(),
        epoch: 1,
        rollback_floor_epoch: 1,
        issued_at: UtcMillis::new(1_000).unwrap(),
        expires_at: UtcMillis::new(2_000).unwrap(),
        previous_descriptor_digest: None,
    };
    let descriptor =
        CompletionKeyDescriptor::from_signer(metadata, "https://identity.example", key.as_bytes())
            .unwrap();
    let decoded = decode_descriptor(
        descriptor.exact_bytes.clone(),
        descriptor.digest.as_bytes().to_vec(),
    )
    .unwrap();
    assert_eq!(decoded, descriptor);
    assert_eq!(descriptor.public_key.as_bytes(), &key.verifying_key().to_bytes());
}

#[test]
fn descriptor_with_another_digest_or_byte_is_refused() {
    let descriptor =
        CompletionKeyDescriptor::from_signer(metadata(1, None), ORIGIN, &[7; 32]).unwrap();
    assert!(decode_descriptor(descriptor.exact_bytes.clone(), vec![0; 32]).is_err());
    assert!(decode_descriptor(descriptor.exact_bytes.clone(), vec![0; 31]).is_err());
    let mut tampered = descriptor.exact_bytes.clone();
    let last = tampered.len() - 1;
    tampered[last] ^= 1;
    assert!(decode_descriptor(tampered, descriptor.digest.as_bytes().to_vec()).is_err());
    assert!(
        CompletionKeyDescriptor::from_signer(metadata(1, None), "http://x.example", &[7; 32])
            .is_err()
    );
}

#[test]
fn descriptors_continue_one_another() {
    let repository = HistoryRecoveryCompletionRepository;
    let first_metadata = metadata(1, None);
    let (first, stores) = repository
        .ensure_descriptor(ORIGIN, first_metadata, &[7; 32], &None, &None)
        .unwrap();
    assert!(stores);
    let head = |descriptor: &CompletionKeyDescriptor| {
        Some(StoredDescriptorHead {
            descriptor_digest: descriptor.digest.as_bytes().to_vec(),
            epoch: descriptor.epoch as i64,
            rollback_floor_epoch: 1,
        })
    };
    let stored = Some(StoredDescriptor {
        descriptor_bytes: first.exact_bytes.clone(),
        epoch: 1,
        rollback_floor_epoch: 1,
    });
    let (again, stores) = repository
        .ensure_descriptor(ORIGIN, first_metadata, &[7; 32], &stored, &head(&first))
        .unwrap();
    assert!(!stores);
    assert_eq!(again, first);

    let (second, stores) = repository
        .ensure_descriptor(ORIGIN, metadata(2, Some(first.digest)), &[8; 32], &None, &head(&first))
        .unwrap();
    assert!(stores);
    assert_eq!(second.epoch, 2);
    for wrong in [metadata(3, Some(first.digest)), metadata(2, None)] {
        assert_eq!(
            repository
                .ensure_descriptor(ORIGIN, wrong, &[8; 32], &None, &head(&first))
                .err(),
            Some(IdentityPersistenceError::RecoveryCompletionSignerMismatch)
        );
    }
    assert_eq!(
        repository
            .ensure_descriptor(ORIGIN, metadata(2, Some(first.digest)), &[8; 32], &None, &None)
            .err(),
        Some(IdentityPersistenceError::RecoveryCompletionSignerMismatch)
    );
}
