//! Canonical values, digests and identifiers.

use identity_log::log::proof_input::{
    DEVICE_CERTIFICATE_SIGNATURE_DOMAIN, GENESIS_RECOVERY_ACCEPTANCE_SIGNATURE_DOMAIN,
    IDENTITY_LOG_SIGNATURE_DOMAIN, KEY_ROTATION_ACCEPTANCE_SIGNATURE_DOMAIN,
    RECOVERY_ROTATION_AUTHORIZATION_SIGNATURE_DOMAIN,
};
use identity_log::persistence::completion::COMPLETION_SIGNATURE_DOMAIN;
use identity_log::persistence::completion_key::COMPLETION_DESCRIPTOR_SIGNATURE_DOMAIN;
use identity_log::persistence::completion_receipt::COMPLETION_RECEIPT_SIGNATURE_DOMAIN;
use identity_log::persistence::enrollment_command::{
    HISTORY_RECOVERY_REQUEST_SIGNATURE_DOMAIN, HISTORY_RECOVERY_REQUEST_V4_SIGNATURE_DOMAIN,
};
use identity_log::persistence::key_package::{
    FEDERATED_KEY_PACKAGE_CLAIM_SIGNATURE_DOMAIN, KEY_PACKAGE_PUBLISH_SIGNATURE_DOMAIN,
};
use identity_log::persistence::session::DEVICE_SESSION_SIGNATURE_DOMAIN;
use identity_log::persistence::catalog_codec::{
    numbered_fields, parse_bounded_bytes, parse_device, parse_digest, parse_identity,
    parse_optional_digest, parse_positive_safe_uint, parse_safe_uint, parse_utc, parse_uuid,
    parse_uuid_v7, verify_signature,
};
use identity_log::persistence::error::IdentityPersistenceError;
use identity_log::wire::codec::{
    decode_deterministic_cbor, decode_deterministic_cbor_with_limit, encode_value,
};
use identity_log::wire::digest::Sha256Digest;
use identity_log::wire::id::{DeviceId, IdentityId};
use identity_log::wire::key::{DeviceEncryptionPublicKey, Ed25519Signature, SigningPublicKey};
use identity_log::wire::number::{SafeUint, UtcMillis};
use identity_log::wire::record::build_record;
use identity_log::wire::text::{from_hex, to_hex};
use identity_log::wire::value::CanonicalValue;

use ed25519_dalek::{Signer, SigningKey};

const DEVICE_A: &str = "0190f2a5-7b1c-7abc-8def-0123456789ab";

fn text(value: &str) -> CanonicalValue {
    CanonicalValue::Text(value.to_owned())
}

fn invalid<T>(label: &'static str) -> Result<T, IdentityPersistenceError> {
    Err(IdentityPersistenceError::InvalidCommand(label))
}

#[test]
fn values_have_one_byte_form() {
    let value = build_record(vec![
        CanonicalValue::Unsigned(0),
        CanonicalValue::Unsigned(24),
        CanonicalValue::Negative(-1),
        CanonicalValue::Bytes(vec![1, 2]),
        text("a\u{e9}"),
        CanonicalValue::Array(vec![CanonicalValue::Bool(true), CanonicalValue::Null]),
    ]);
    let bytes = encode_value(&value).unwrap();
    assert_eq!(
        bytes,
        [
            0xa6, 0x01, 0x00, 0x02, 0x18, 0x18, 0x03, 0x20, 0x04, 0x42, 0x01, 0x02, 0x05, 0x63,
            0x61, 0xc3, 0xa9, 0x06, 0x82, 0xf5, 0xf6
        ]
    );
    let decoded = decode_deterministic_cbor(&bytes).unwrap();
    assert_eq!(encode_value(&decoded).unwrap(), bytes);
    assert!(decode_deterministic_cbor_with_limit(&bytes, bytes.len()).is_ok());
    assert!(decode_deterministic_cbor_with_limit(&bytes, bytes.len() - 1).is_err());
}

#[test]
fn other_byte_forms_are_refused() {
    for bytes in [
        &[][..],
        &[0x18, 0x17],
        &[0x19, 0x00, 0xff],
        &[0x1b, 0, 0, 0, 0, 0xff, 0xff, 0xff, 0xff],
        &[0x00, 0x00],
        &[0x5f, 0x41, 0x01, 0xff],
        &[0x61, 0xff],
        &[0xa2, 0x02, 0x00, 0x01, 0x00],
        &[0xa2, 0x01, 0x00, 0x01, 0x00],
        &[0xf9, 0x00, 0x00],
        &[0xc0, 0x00],
        &[0x42, 0x01],
    ] {
        assert!(decode_deterministic_cbor(bytes).is_err(), "accepted {bytes:?}");
    }
}

#[test]
fn digests_and_identities_have_exact_values() {
    assert_eq!(
        Sha256Digest::hash_domain("dirextalk.test.v1\0", b"abc").to_text(),
        "9cc5008bd33c2c2828457ad318fe923d0fd553947a67bd7dd337a668b3800292"
    );
    let identity = IdentityId::derive(&[1; 32]);
    assert_eq!(
        identity.to_text(),
        "de7717958b752e0cfd44287cabc41776df2c32d3099deb8a5f5717cd03898ba4"
    );
    assert_eq!(IdentityId::from_text(&identity.to_text()), Ok(identity));
    assert!(IdentityId::from_text(&identity.to_text().to_uppercase()).is_err());
    assert!(identity.verify_subject_key(&[1; 32]).is_ok());
    assert!(identity.verify_subject_key(&[2; 32]).is_err());
    assert!(Sha256Digest::from_bytes([1; 32])
        .equal_in_constant_time(&Sha256Digest::from_bytes([1; 32])));
    assert!(!Sha256Digest::from_bytes([1; 32])
        .equal_in_constant_time(&Sha256Digest::from_bytes([2; 32])));
    assert_eq!(to_hex(&[0, 0x9f, 0xa0]), "009fa0");
    assert_eq!(from_hex::<3>("009fa0"), Some([0, 0x9f, 0xa0]));
    assert_eq!(from_hex::<3>("009FA0"), None);
    assert_eq!(from_hex::<3>("009fa"), None);
}

#[test]
fn identifiers_are_time_ordered_uuids() {
    let device = DeviceId::from_text(DEVICE_A).unwrap();
    assert_eq!(device.to_text(), DEVICE_A);
    assert_eq!(DeviceId::from_uuid_bytes(*device.as_uuid_bytes()), Ok(device));
    for wrong in [
        "0190f2a5-7b1c-4abc-8def-0123456789ab",
        "0190f2a5-7b1c-7abc-cdef-0123456789ab",
        "0190F2A5-7B1C-7ABC-8DEF-0123456789AB",
        "0190f2a57b1c7abc8def0123456789ab",
        "",
    ] {
        assert!(DeviceId::from_text(wrong).is_err(), "accepted {wrong}");
    }
}

#[test]
fn numbers_and_keys_keep_their_ranges() {
    assert!(SafeUint::new(9_007_199_254_740_991).is_ok());
    assert!(SafeUint::new(9_007_199_254_740_992).is_err());
    assert!(UtcMillis::new(-9_007_199_254_740_991).is_ok());
    assert!(UtcMillis::new(9_007_199_254_740_992).is_err());
    assert!(SigningPublicKey::try_from([0; 32]).is_err());
    assert!(DeviceEncryptionPublicKey::try_from([0; 32]).is_err());
    assert!(DeviceEncryptionPublicKey::try_from([1; 32]).is_ok());
}

#[test]
fn command_fields_are_read_with_their_own_errors() {
    let record = build_record(vec![CanonicalValue::Unsigned(7), text("x")]);
    assert_eq!(numbered_fields(&record, 2).unwrap().len(), 2);
    assert_eq!(
        numbered_fields(&record, 3).err(),
        Some(IdentityPersistenceError::InvalidCommand("numbered CBOR field count"))
    );
    assert_eq!(
        numbered_fields(&text("x"), 1).err(),
        Some(IdentityPersistenceError::InvalidCommand("numbered CBOR map"))
    );
    let misnumbered =
        CanonicalValue::Entries(vec![(CanonicalValue::Unsigned(2), CanonicalValue::Null)]);
    assert_eq!(
        numbered_fields(&misnumbered, 1).err(),
        Some(IdentityPersistenceError::InvalidCommand("numbered CBOR keys"))
    );
    let identity = IdentityId::derive(&[1; 32]);
    assert_eq!(parse_identity(&text(&identity.to_text())), Ok(identity));
    assert_eq!(parse_identity(&text("x")), invalid("identity ID"));
    assert_eq!(parse_device(&text(DEVICE_A)), Ok(DeviceId::from_text(DEVICE_A).unwrap()));
    assert_eq!(parse_device(&CanonicalValue::Null), invalid("device ID"));
    let simple = text("0190f2a57b1c7abc8def0123456789ab");
    assert_eq!(parse_uuid(&simple), Ok(*DeviceId::from_text(DEVICE_A).unwrap().as_uuid_bytes()));
    assert_eq!(parse_uuid_v7(&simple, "catalog ID"), invalid("catalog ID"));
    assert_eq!(parse_uuid_v7(&text("x"), "catalog ID"), invalid("UUID"));
    assert_eq!(parse_uuid_v7(&CanonicalValue::Null, "catalog ID"), invalid("catalog ID"));
    assert!(parse_uuid_v7(&text(DEVICE_A), "catalog ID").is_ok());
    assert_eq!(
        parse_safe_uint(&CanonicalValue::Unsigned(1 << 53)),
        invalid("safe uint")
    );
    assert_eq!(
        parse_positive_safe_uint(&CanonicalValue::Unsigned(0)),
        invalid("positive uint")
    );
    assert_eq!(
        parse_positive_safe_uint(&CanonicalValue::Unsigned(1)),
        Ok(SafeUint::new(1).unwrap())
    );
    assert_eq!(parse_utc(&CanonicalValue::Negative(-1)), invalid("UTC millis"));
    assert_eq!(parse_utc(&CanonicalValue::Unsigned(5)), Ok(UtcMillis::new(5).unwrap()));
    assert_eq!(parse_utc(&CanonicalValue::Unsigned(u64::MAX)), invalid("UTC millis"));
    assert_eq!(parse_digest(&CanonicalValue::Bytes(vec![1; 31])), invalid("fixed bytes"));
    assert_eq!(parse_optional_digest(&CanonicalValue::Null), Ok(None));
    assert_eq!(
        parse_optional_digest(&CanonicalValue::Bytes(vec![1; 32])),
        Ok(Some(Sha256Digest::from_bytes([1; 32])))
    );
    assert_eq!(parse_bounded_bytes(&CanonicalValue::Bytes(vec![1; 3]), 3), Ok(vec![1; 3]));
    assert_eq!(
        parse_bounded_bytes(&CanonicalValue::Bytes(vec![1; 4]), 3),
        invalid("bounded bytes")
    );
    assert_eq!(parse_bounded_bytes(&CanonicalValue::Bytes(vec![]), 3), invalid("bounded bytes"));
}

#[test]
fn command_signature_covers_domain_and_bytes() {
    let key = SigningKey::from_bytes(&[3; 32]);
    let public = SigningPublicKey::try_from(key.verifying_key().to_bytes()).unwrap();
    let unsigned = build_record(vec![CanonicalValue::Unsigned(7)]);
    let mut input = b"domain\0".to_vec();
    input.extend_from_slice(&encode_value(&unsigned).unwrap());
    let signature = Ed25519Signature::from_bytes(key.sign(&input).to_bytes());
    assert_eq!(verify_signature(public, "domain\0", &unsigned, signature, 3), Ok(()));
    assert_eq!(
        verify_signature(public, "domain\0", &unsigned, signature, 2),
        invalid("signature input")
    );
    assert_eq!(
        verify_signature(public, "other\0", &unsigned, signature, 3),
        invalid("signature")
    );
    let mut encoded = [0xff; 32];
    encoded[0] = 2;
    let unusable = SigningPublicKey::try_from(encoded).unwrap();
    if !unusable.is_usable() {
        assert_eq!(
            verify_signature(unusable, "domain\0", &unsigned, signature, 3),
            invalid("signing key")
        );
    }
}

#[test]
fn signature_domains_differ_before_either_ends() {
    let domains = [
        IDENTITY_LOG_SIGNATURE_DOMAIN,
        DEVICE_CERTIFICATE_SIGNATURE_DOMAIN,
        GENESIS_RECOVERY_ACCEPTANCE_SIGNATURE_DOMAIN,
        KEY_ROTATION_ACCEPTANCE_SIGNATURE_DOMAIN,
        RECOVERY_ROTATION_AUTHORIZATION_SIGNATURE_DOMAIN,
        DEVICE_SESSION_SIGNATURE_DOMAIN,
        KEY_PACKAGE_PUBLISH_SIGNATURE_DOMAIN,
        FEDERATED_KEY_PACKAGE_CLAIM_SIGNATURE_DOMAIN,
        HISTORY_RECOVERY_REQUEST_SIGNATURE_DOMAIN,
        HISTORY_RECOVERY_REQUEST_V4_SIGNATURE_DOMAIN,
        COMPLETION_DESCRIPTOR_SIGNATURE_DOMAIN,
        COMPLETION_SIGNATURE_DOMAIN,
        COMPLETION_RECEIPT_SIGNATURE_DOMAIN,
    ];
    for (i, first) in domains.iter().enumerate() {
        assert!(first.ends_with('\0'));
        for second in &domains[i + 1..] {
            assert!(!first.starts_with(second) && !second.starts_with(first));
        }
    }
}
