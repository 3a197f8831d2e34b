//! The signed identity log: events, pages and their projection.

use ed25519_dalek::{Signer, SigningKey};
use identity_log::log::authority::{
    genesis_recovery_acceptance_input, key_rotation_acceptance_input,
    recovery_rotation_authorization_input, KeyAcceptancePurposeV1,
};
use identity_log::log::certificate::{
    device_certificate_signature_input, DeviceCertificateV1, UnsignedDeviceCertificateV1,
};
use identity_log::log::error::{IdentityLogError, IdentityLogPageError};
use identity_log::log::event::{
    identity_log_signature_input, IdentityLogEventV1, UnsignedIdentityLogEventV1,
};
use identity_log::log::page::IdentityLogPageV1;
use identity_log::log::payload::IdentityLogEventPayloadV1;
use identity_log::log::projection::{HistoricalIdentityLogV1, IdentityLogV1};
use identity_log::log::relay::RelayDescriptorV1;
use identity_log::log::state::DeviceStatusV1;
use identity_log::log::wire_line::{IDENTITY_LOG_V1_0_WIRE_VERSION, IDENTITY_LOG_WIRE_VERSION};
use identity_log::wire::digest::Sha256Digest;
use identity_log::wire::id::{DeviceId, IdentityId};
use identity_log::wire::key::{DeviceEncryptionPublicKey, Ed25519Signature, SigningPublicKey};
use identity_log::wire::number::{SafeUint, UtcMillis};
use identity_log::wire::version::WireVersion;

const DEVICE_A: &str = "0190f2a5-7b1c-7abc-8def-0123456789ab";
const DEVICE_B: &str = "0190f2a5-7b1c-7abc-8def-0123456789ac";
const DEVICE_C: &str = "0190f2a5-7b1c-7abc-8def-0123456789ad";

fn signing_key(seed: u8) -> SigningKey {
    SigningKey::from_bytes(&[seed; 32])
}

fn public_key(key: &SigningKey) -> SigningPublicKey {
    SigningPublicKey::try_from(key.verifying_key().to_bytes()).unwrap()
}

fn signature(key: &SigningKey, input: &[u8]) -> Ed25519Signature {
    Ed25519Signature::from_bytes(key.sign(input).to_bytes())
}

fn safe(value: u64) -> SafeUint {
    SafeUint::new(value).unwrap()
}

fn timestamp(value: i64) -> UtcMillis {
    UtcMillis::new(value).unwrap()
}

fn device_id(value: &str) -> DeviceId {
    DeviceId::from_text(value).unwrap()
}

fn signed_event(
    signer: &SigningKey,
    identity_id: IdentityId,
    sequence: u64,
    previous_event_hash: Option<Sha256Digest>,
    occurred_at: i64,
    payload: IdentityLogEventPayloadV1,
) -> IdentityLogEventV1 {
    signed_event_with_wire(
        IDENTITY_LOG_WIRE_VERSION,
        signer,
        identity_id,
        sequence,
        previous_event_hash,
        occurred_at,
        payload,
    )
}

fn signed_event_with_wire(
    wire: WireVersion,
    signer: &SigningKey,
    identity_id: IdentityId,
    sequence: u64,
    previous_event_hash: Option<Sha256Digest>,
    occurred_at: i64,
    payload: IdentityLogEventPayloadV1,
) -> IdentityLogEventV1 {
    let unsigned = UnsignedIdentityLogEventV1::new(
        wire,
        identity_id,
        safe(sequence),
        previous_event_hash,
        timestamp(occurred_at),
        payload,
        public_key(signer),
    )
    .unwrap();
    IdentityLogEventV1::signed(
        unsigned.clone(),
        signature(
            signer,
            &identity_log_signature_input(unsigned.signing_digest().unwrap()),
        ),
    )
    .unwrap()
}

fn genesis(root: &SigningKey, recovery: &SigningKey) -> IdentityLogEventV1 {
    genesis_with_wire(IDENTITY_LOG_WIRE_VERSION, root, recovery)
}

fn genesis_with_wire(
    wire: WireVersion,
    root: &SigningKey,
    recovery: &SigningKey,
) -> IdentityLogEventV1 {
    let root_key = public_key(root);
    let recovery_key = public_key(recovery);
    let identity_id = IdentityId::derive(root_key.as_domain_key());
    let recovery_acceptance_signature = signature(
        recovery,
        &genesis_recovery_acceptance_input(identity_id, root_key, recovery_key).unwrap(),
    );
    signed_event_with_wire(
        wire,
        root,
        identity_id,
        1,
        None,
        1_000,
        IdentityLogEventPayloadV1::Genesis {
            root_signing_key: root_key,
            recovery_signing_key: recovery_key,
            recovery_acceptance_signature,
        },
    )
}

fn device_certificate(
    root: &SigningKey,
    identity_id: IdentityId,
    device: &SigningKey,
    device_id: DeviceId,
    encryption_seed: u8,
    issued_at: i64,
) -> DeviceCertificateV1 {
    let unsigned = UnsignedDeviceCertificateV1::new(
        IDENTITY_LOG_WIRE_VERSION,
        identity_id,
        device_id,
        public_key(device),
        DeviceEncryptionPublicKey::try_from([encryption_seed; 32]).unwrap(),
        public_key(root),
        timestamp(issued_at),
    )
    .unwrap();
    DeviceCertificateV1::signed(
        unsigned.clone(),
        signature(
            root,
            &device_certificate_signature_input(unsigned.signing_digest().unwrap()),
        ),
    )
    .unwrap()
}

fn descriptor(expires_at: i64) -> RelayDescriptorV1 {
    RelayDescriptorV1::new(
        IDENTITY_LOG_WIRE_VERSION,
        vec![
            "https://relay-a.example/v1".to_owned(),
            "https://relay-b.example/v1".to_owned(),
        ],
        timestamp(expires_at),
    )
    .unwrap()
}

fn frozen_v1_0_root_only_recovery_chain()
-> (IdentityLogEventV1, IdentityLogEventV1, IdentityLogEventV1) {
    let root = signing_key(1);
    let recovery = signing_key(2);
    let legacy_genesis = genesis_with_wire(IDENTITY_LOG_V1_0_WIRE_VERSION, &root, &recovery);
    let identity_id = legacy_genesis.identity_id();
    let legacy_head = legacy_genesis.entry_hash().unwrap();
    let successor = signing_key(3);
    let rotation = signed_event_with_wire(
        IDENTITY_LOG_V1_0_WIRE_VERSION,
        &root,
        identity_id,
        2,
        Some(legacy_head),
        1_100,
        IdentityLogEventPayloadV1::RecoveryRotate {
            new_recovery_signing_key: public_key(&successor),
            acceptance_signature: signature(
                &successor,
                &key_rotation_acceptance_input(
                    identity_id,
                    safe(2),
                    Some(legacy_head),
                    KeyAcceptancePurposeV1::RecoveryRotate,
                    public_key(&successor),
                )
                .unwrap(),
            ),
            recovery_authorization_signature: None,
        },
    );
    (legacy_genesis, genesis(&root, &recovery), rotation)
}

fn current_v1_1_chain() -> Vec<(&'static str, IdentityLogEventV1)> {
    let root = signing_key(1);
    let recovery = signing_key(2);
    let genesis = genesis(&root, &recovery);
    let identity_id = genesis.identity_id();
    let mut log = IdentityLogV1::bootstrap(&genesis).unwrap();
    let mut events = vec![("genesis", genesis)];

    let first_device = signing_key(3);
    let first_certificate = device_certificate(
        &root,
        identity_id,
        &first_device,
        device_id(DEVICE_A),
        31,
        1_050,
    );
    let device_add = signed_event(
        &root,
        identity_id,
        2,
        Some(log.head_hash()),
        1_100,
        IdentityLogEventPayloadV1::DeviceAdd {
            certificate: first_certificate,
        },
    );
    log.append(&device_add).unwrap();
    events.push(("device_add", device_add));

    let relay_descriptor = signed_event(
        &root,
        identity_id,
        3,
        Some(log.head_hash()),
        1_200,
        IdentityLogEventPayloadV1::RelayDescriptor {
            descriptor: descriptor(2_000),
        },
    );
    log.append(&relay_descriptor).unwrap();
    events.push(("relay_descriptor", relay_descriptor));

    let next_root = signing_key(4);
    let root_acceptance_signature = signature(
        &next_root,
        &key_rotation_acceptance_input(
            identity_id,
            safe(4),
            Some(log.head_hash()),
            KeyAcceptancePurposeV1::RootRotate,
            public_key(&next_root),
        )
        .unwrap(),
    );
    let root_rotate = signed_event(
        &root,
        identity_id,
        4,
        Some(log.head_hash()),
        1_300,
        IdentityLogEventPayloadV1::RootRotate {
            new_root_signing_key: public_key(&next_root),
            acceptance_signature: root_acceptance_signature,
        },
    );
    log.append(&root_rotate).unwrap();
    events.push(("root_rotate", root_rotate));

    let next_recovery = signing_key(5);
    let recovery_acceptance_signature = signature(
        &next_recovery,
        &key_rotation_acceptance_input(
            identity_id,
            safe(5),
            Some(log.head_hash()),
            KeyAcceptancePurposeV1::RecoveryRotate,
            public_key(&next_recovery),
        )
        .unwrap(),
    );
    let recovery_rotation_authorization_signature = signature(
        &recovery,
        &recovery_rotation_authorization_input(
            IDENTITY_LOG_WIRE_VERSION,
            identity_id,
            safe(5),
            Some(log.head_hash()),
            timestamp(1_400),
            public_key(&next_root),
            public_key(&next_recovery),
            recovery_acceptance_signature,
        )
        .unwrap(),
    );
    let recovery_rotate = signed_event(
        &next_root,
        identity_id,
        5,
        Some(log.head_hash()),
        1_400,
        IdentityLogEventPayloadV1::RecoveryRotate {
            new_recovery_signing_key: public_key(&next_recovery),
            acceptance_signature: recovery_acceptance_signature,
            recovery_authorization_signature: Some(recovery_rotation_authorization_signature),
        },
    );
    log.append(&recovery_rotate).unwrap();
    events.push(("recovery_rotate", recovery_rotate));

    let device_revoke = signed_event(
        &next_root,
        identity_id,
        6,
        Some(log.head_hash()),
        1_500,
        IdentityLogEventPayloadV1::DeviceRevoke {
            device_id: device_id(DEVICE_A),
        },
    );
    log.append(&device_revoke).unwrap();
    events.push(("device_revoke", device_revoke));

    let restored_root = signing_key(6);
    let restored_recovery = signing_key(7);
    let recovery_restore = signed_event(
        &next_recovery,
        identity_id,
        7,
        Some(log.head_hash()),
        1_600,
        IdentityLogEventPayloadV1::RecoveryRestore {
            new_root_signing_key: public_key(&restored_root),
            new_recovery_signing_key: public_key(&restored_recovery),
            root_acceptance_signature: signature(
                &restored_root,
                &key_rotation_acceptance_input(
                    identity_id,
                    safe(7),
                    Some(log.head_hash()),
                    KeyAcceptancePurposeV1::RecoveryRestoreRoot,
                    public_key(&restored_root),
                )
                .unwrap(),
            ),
            recovery_acceptance_signature: signature(
                &restored_recovery,
                &key_rotation_acceptance_input(
                    identity_id,
                    safe(7),
                    Some(log.head_hash()),
                    KeyAcceptancePurposeV1::RecoveryRestoreRecovery,
                    public_key(&restored_recovery),
                )
                .unwrap(),
            ),
        },
    );
    log.append(&recovery_restore).unwrap();
    events.push(("recovery_restore", recovery_restore));
    events
}

#[test]
fn root_and_active_device_can_enroll_then_root_can_revoke_devices() {
    let root = signing_key(1);
    let recovery = signing_key(2);
    let genesis = genesis(&root, &recovery);
    let identity_id = genesis.identity_id();
    let mut log = IdentityLogV1::bootstrap(&genesis).unwrap();

    let first_device = signing_key(3);
    let first_certificate = device_certificate(
        &root,
        identity_id,
        &first_device,
        device_id(DEVICE_A),
        31,
        1_050,
    );
    let first_add = signed_event(
        &root,
        identity_id,
        2,
        Some(log.head_hash()),
        1_100,
        IdentityLogEventPayloadV1::DeviceAdd {
            certificate: first_certificate,
        },
    );
    log.append(&first_add).unwrap();
    assert_eq!(
        log.device_status(device_id(DEVICE_A)),
        Some(DeviceStatusV1::Active)
    );

    let second_device = signing_key(4);
    let second_certificate = device_certificate(
        &root,
        identity_id,
        &second_device,
        device_id(DEVICE_B),
        41,
        1_150,
    );
    let second_add = signed_event(
        &first_device,
        identity_id,
        3,
        Some(log.head_hash()),
        1_200,
        IdentityLogEventPayloadV1::DeviceAdd {
            certificate: second_certificate,
        },
    );
    log.append(&second_add).unwrap();

    let relay_update = signed_event(
        &root,
        identity_id,
        4,
        Some(log.head_hash()),
        1_300,
        IdentityLogEventPayloadV1::RelayDescriptor {
            descriptor: descriptor(2_000),
        },
    );
    log.append(&relay_update).unwrap();
    assert_eq!(
        log.latest_relay_descriptor().unwrap().relay_urls(),
        ["https://relay-a.example/v1", "https://relay-b.example/v1"]
    );

    let revoke = signed_event(
        &root,
        identity_id,
        5,
        Some(log.head_hash()),
        1_400,
        IdentityLogEventPayloadV1::DeviceRevoke {
            device_id: device_id(DEVICE_A),
        },
    );
    log.append(&revoke).unwrap();
    assert_eq!(
        log.device_status(device_id(DEVICE_A)),
        Some(DeviceStatusV1::Revoked)
    );
    assert_eq!(
        log.device_status(device_id(DEVICE_B)),
        Some(DeviceStatusV1::Active)
    );
}

#[test]
fn replay_fork_and_tampering_fail_without_advancing_state() {
    let root = signing_key(1);
    let recovery = signing_key(2);
    let genesis = genesis(&root, &recovery);
    let identity_id = genesis.identity_id();
    let mut log = IdentityLogV1::bootstrap(&genesis).unwrap();

    let update = signed_event(
        &root,
        identity_id,
        2,
        Some(log.head_hash()),
        1_100,
        IdentityLogEventPayloadV1::RelayDescriptor {
            descriptor: descriptor(2_000),
        },
    );
    log.append(&update).unwrap();
    let head_before = (log.head_sequence(), log.head_hash());

    let skipped_sequence = signed_event(
        &root,
        identity_id,
        4,
        Some(log.head_hash()),
        1_200,
        IdentityLogEventPayloadV1::RelayDescriptor {
            descriptor: descriptor(2_100),
        },
    );
    let fork = signed_event(
        &root,
        identity_id,
        3,
        Some(Sha256Digest::from_bytes([9; 32])),
        1_200,
        IdentityLogEventPayloadV1::RelayDescriptor {
            descriptor: descriptor(2_100),
        },
    );
    for (candidate, expected_error) in [
        (update.clone(), IdentityLogError::Replay),
        (skipped_sequence, IdentityLogError::SequenceMismatch),
        (fork, IdentityLogError::PreviousHashMismatch),
    ] {
        assert_eq!(log.append(&candidate), Err(expected_error));
        assert_eq!((log.head_sequence(), log.head_hash()), head_before);
    }

    let signed_bytes = update.to_deterministic_cbor().unwrap();
    let mut tampered = signed_bytes.clone();
    *tampered.last_mut().unwrap() ^= 1;
    let mut trailing = signed_bytes;
    trailing.push(0);
    for (bytes, expected_error) in [
        (tampered, IdentityLogError::InvalidSignature),
        (trailing, IdentityLogError::InvalidCanonical),
    ] {
        assert_eq!(
            IdentityLogEventV1::decode_and_verify(&bytes),
            Err(expected_error)
        );
    }
}

#[test]
fn recovery_rotation_rejects_a_root_only_authorization() {
    let root = signing_key(1);
    let recovery = signing_key(2);
    let genesis = genesis(&root, &recovery);
    let identity_id = genesis.identity_id();
    let mut log = IdentityLogV1::bootstrap(&genesis).unwrap();
    let successor = signing_key(3);
    let root_only_rotation = UnsignedIdentityLogEventV1::new(
        IDENTITY_LOG_WIRE_VERSION,
        identity_id,
        safe(2),
        Some(log.head_hash()),
        timestamp(1_100),
        IdentityLogEventPayloadV1::RecoveryRotate {
            new_recovery_signing_key: public_key(&successor),
            acceptance_signature: signature(
                &successor,
                &key_rotation_acceptance_input(
                    identity_id,
                    safe(2),
                    Some(log.head_hash()),
                    KeyAcceptancePurposeV1::RecoveryRotate,
                    public_key(&successor),
                )
                .unwrap(),
            ),
            recovery_authorization_signature: None,
        },
        public_key(&root),
    );

    assert_eq!(root_only_rotation, Err(IdentityLogError::InvalidRotation));

    let successor_acceptance_signature = signature(
        &successor,
        &key_rotation_acceptance_input(
            identity_id,
            safe(2),
            Some(log.head_hash()),
            KeyAcceptancePurposeV1::RecoveryRotate,
            public_key(&successor),
        )
        .unwrap(),
    );
    let forged_recovery_authorization = signed_event(
        &root,
        identity_id,
        2,
        Some(log.head_hash()),
        1_100,
        IdentityLogEventPayloadV1::RecoveryRotate {
            new_recovery_signing_key: public_key(&successor),
            acceptance_signature: successor_acceptance_signature,
            recovery_authorization_signature: Some(signature(
                &root,
                &recovery_rotation_authorization_input(
                    IDENTITY_LOG_WIRE_VERSION,
                    identity_id,
                    safe(2),
                    Some(log.head_hash()),
                    timestamp(1_100),
                    public_key(&root),
                    public_key(&successor),
                    successor_acceptance_signature,
                )
                .unwrap(),
            )),
        },
    );
    assert_eq!(
        log.append(&forged_recovery_authorization),
        Err(IdentityLogError::InvalidRotation)
    );
    assert_eq!(log.current_recovery_key(), public_key(&recovery));
}

#[test]
fn current_write_entry_rejects_v1_0_root_only_recovery_chain() {
    let (legacy_genesis, current_genesis, rotation) = frozen_v1_0_root_only_recovery_chain();

    rotation.verify().unwrap();
    assert!(matches!(
        IdentityLogV1::bootstrap(&legacy_genesis),
        Err(IdentityLogError::InvalidWireVersion)
    ));

    let mut current_log = IdentityLogV1::bootstrap(&current_genesis).unwrap();
    assert_eq!(
        current_log.append(&rotation),
        Err(IdentityLogError::InvalidWireVersion)
    );
}

#[test]
fn historical_v1_0_chain_is_verified_without_current_append_access() {
    let (legacy_genesis, _, rotation) = frozen_v1_0_root_only_recovery_chain();
    let expected_recovery = match rotation.payload() {
        IdentityLogEventPayloadV1::RecoveryRotate {
            new_recovery_signing_key,
            ..
        } => *new_recovery_signing_key,
        _ => unreachable!("fixture contains a recovery rotation"),
    };
    let historical = HistoricalIdentityLogV1::import_v1_0(&[legacy_genesis, rotation]).unwrap();

    assert_eq!(historical.wire(), IDENTITY_LOG_V1_0_WIRE_VERSION);
    assert_eq!(historical.head_sequence(), safe(2));
    assert_eq!(historical.current_recovery_key(), expected_recovery);
}

#[test]
fn relay_history_replays_but_active_lookup_uses_trusted_now() {
    let root = signing_key(1);
    let recovery = signing_key(2);
    let genesis = genesis(&root, &recovery);
    let identity_id = genesis.identity_id();
    let mut log = IdentityLogV1::bootstrap(&genesis).unwrap();

    let backdated_descriptor = signed_event(
        &root,
        identity_id,
        2,
        Some(log.head_hash()),
        1_050,
        IdentityLogEventPayloadV1::RelayDescriptor {
            descriptor: descriptor(1_100),
        },
    );
    log.append(&backdated_descriptor).unwrap();
    assert!(log.latest_relay_descriptor().is_some());
    assert!(log.active_relay_descriptor(timestamp(1_099)).is_some());
    assert!(log.active_relay_descriptor(timestamp(1_100)).is_none());
    assert!(log.active_relay_descriptor(timestamp(1_500)).is_none());

    let already_expired_at_event_time = UnsignedIdentityLogEventV1::new(
        IDENTITY_LOG_WIRE_VERSION,
        identity_id,
        safe(3),
        Some(log.head_hash()),
        timestamp(1_200),
        IdentityLogEventPayloadV1::RelayDescriptor {
            descriptor: descriptor(1_100),
        },
        public_key(&root),
    );
    assert_eq!(
        already_expired_at_event_time,
        Err(IdentityLogError::InvalidRelayDescriptor)
    );
}

#[test]
fn current_wire_rejects_legacy_embedded_contracts() {
    let root = signing_key(1);
    let recovery = signing_key(2);
    let genesis = genesis(&root, &recovery);
    let identity_id = genesis.identity_id();
    let legacy_device = signing_key(3);
    let legacy_certificate_unsigned = UnsignedDeviceCertificateV1::new(
        IDENTITY_LOG_V1_0_WIRE_VERSION,
        identity_id,
        device_id(DEVICE_A),
        public_key(&legacy_device),
        DeviceEncryptionPublicKey::try_from([31; 32]).unwrap(),
        public_key(&root),
        timestamp(1_050),
    )
    .unwrap();
    let legacy_certificate = DeviceCertificateV1::signed(
        legacy_certificate_unsigned.clone(),
        signature(
            &root,
            &device_certificate_signature_input(
                legacy_certificate_unsigned.signing_digest().unwrap(),
            ),
        ),
    )
    .unwrap();

    let device_add = UnsignedIdentityLogEventV1::new(
        IDENTITY_LOG_WIRE_VERSION,
        identity_id,
        safe(2),
        Some(genesis.entry_hash().unwrap()),
        timestamp(1_100),
        IdentityLogEventPayloadV1::DeviceAdd {
            certificate: legacy_certificate,
        },
        public_key(&root),
    );
    assert_eq!(device_add, Err(IdentityLogError::InvalidWireVersion));

    let relay_update = UnsignedIdentityLogEventV1::new(
        IDENTITY_LOG_WIRE_VERSION,
        identity_id,
        safe(2),
        Some(genesis.entry_hash().unwrap()),
        timestamp(1_100),
        IdentityLogEventPayloadV1::RelayDescriptor {
            descriptor: RelayDescriptorV1::new(
                IDENTITY_LOG_V1_0_WIRE_VERSION,
                vec!["https://relay-a.example/v1".to_owned()],
                timestamp(2_000),
            )
            .unwrap(),
        },
        public_key(&root),
    );
    assert_eq!(relay_update, Err(IdentityLogError::InvalidWireVersion));
}

#[test]
fn root_recovery_rotation_and_restore_fence_old_authorities() {
    let root = signing_key(1);
    let recovery = signing_key(2);
    let genesis = genesis(&root, &recovery);
    let identity_id = genesis.identity_id();
    let mut log = IdentityLogV1::bootstrap(&genesis).unwrap();

    let first_device = signing_key(3);
    let first_certificate = device_certificate(
        &root,
        identity_id,
        &first_device,
        device_id(DEVICE_A),
        31,
        1_050,
    );
    let add = signed_event(
        &root,
        identity_id,
        2,
        Some(log.head_hash()),
        1_100,
        IdentityLogEventPayloadV1::DeviceAdd {
            certificate: first_certificate,
        },
    );
    log.append(&add).unwrap();

    let device_key_as_root = signed_event(
        &root,
        identity_id,
        3,
        Some(log.head_hash()),
        1_150,
        IdentityLogEventPayloadV1::RootRotate {
            new_root_signing_key: public_key(&first_device),
            acceptance_signature: signature(
                &first_device,
                &key_rotation_acceptance_input(
                    identity_id,
                    safe(3),
                    Some(log.head_hash()),
                    KeyAcceptancePurposeV1::RootRotate,
                    public_key(&first_device),
                )
                .unwrap(),
            ),
        },
    );
    assert_eq!(
        log.append(&device_key_as_root),
        Err(IdentityLogError::InvalidRotation)
    );

    let next_root = signing_key(4);
    let wrong_purpose_rotation = signed_event(
        &root,
        identity_id,
        3,
        Some(log.head_hash()),
        1_175,
        IdentityLogEventPayloadV1::RootRotate {
            new_root_signing_key: public_key(&next_root),
            acceptance_signature: signature(
                &next_root,
                &key_rotation_acceptance_input(
                    identity_id,
                    safe(3),
                    Some(log.head_hash()),
                    KeyAcceptancePurposeV1::RecoveryRestoreRoot,
                    public_key(&next_root),
                )
                .unwrap(),
            ),
        },
    );
    assert_eq!(
        log.append(&wrong_purpose_rotation),
        Err(IdentityLogError::InvalidRotation)
    );

    let root_rotation = signed_event(
        &root,
        identity_id,
        3,
        Some(log.head_hash()),
        1_200,
        IdentityLogEventPayloadV1::RootRotate {
            new_root_signing_key: public_key(&next_root),
            acceptance_signature: signature(
                &next_root,
                &key_rotation_acceptance_input(
                    identity_id,
                    safe(3),
                    Some(log.head_hash()),
                    KeyAcceptancePurposeV1::RootRotate,
                    public_key(&next_root),
                )
                .unwrap(),
            ),
        },
    );
    log.append(&root_rotation).unwrap();
    assert_eq!(log.current_root_key(), public_key(&next_root));

    let old_root_update = signed_event(
        &root,
        identity_id,
        4,
        Some(log.head_hash()),
        1_250,
        IdentityLogEventPayloadV1::RelayDescriptor {
            descriptor: descriptor(2_500),
        },
    );
    assert_eq!(
        log.append(&old_root_update),
        Err(IdentityLogError::UnauthorizedSigner)
    );

    let next_recovery = signing_key(5);
    let recovery_successor_acceptance_signature = signature(
        &next_recovery,
        &key_rotation_acceptance_input(
            identity_id,
            safe(4),
            Some(log.head_hash()),
            KeyAcceptancePurposeV1::RecoveryRotate,
            public_key(&next_recovery),
        )
        .unwrap(),
    );
    let old_root_recovery_rotation = signed_event(
        &root,
        identity_id,
        4,
        Some(log.head_hash()),
        1_300,
        IdentityLogEventPayloadV1::RecoveryRotate {
            new_recovery_signing_key: public_key(&next_recovery),
            acceptance_signature: recovery_successor_acceptance_signature,
            recovery_authorization_signature: Some(signature(
                &recovery,
                &recovery_rotation_authorization_input(
                    IDENTITY_LOG_WIRE_VERSION,
                    identity_id,
                    safe(4),
                    Some(log.head_hash()),
                    timestamp(1_300),
                    public_key(&root),
                    public_key(&next_recovery),
                    recovery_successor_acceptance_signature,
                )
                .unwrap(),
            )),
        },
    );
    assert_eq!(
        log.append(&old_root_recovery_rotation),
        Err(IdentityLogError::UnauthorizedSigner)
    );
    assert_eq!(log.current_recovery_key(), public_key(&recovery));

    let recovery_rotation = signed_event(
        &next_root,
        identity_id,
        4,
        Some(log.head_hash()),
        1_300,
        IdentityLogEventPayloadV1::RecoveryRotate {
            new_recovery_signing_key: public_key(&next_recovery),
            acceptance_signature: recovery_successor_acceptance_signature,
            recovery_authorization_signature: Some(signature(
                &recovery,
                &recovery_rotation_authorization_input(
                    IDENTITY_LOG_WIRE_VERSION,
                    identity_id,
                    safe(4),
                    Some(log.head_hash()),
                    timestamp(1_300),
                    public_key(&next_root),
                    public_key(&next_recovery),
                    recovery_successor_acceptance_signature,
                )
                .unwrap(),
            )),
        },
    );
    log.append(&recovery_rotation).unwrap();
    assert_eq!(log.current_recovery_key(), public_key(&next_recovery));

    let restored_root = signing_key(6);
    let restored_recovery = signing_key(7);
    let recovery_restore = signed_event(
        &next_recovery,
        identity_id,
        5,
        Some(log.head_hash()),
        1_400,
        IdentityLogEventPayloadV1::RecoveryRestore {
            new_root_signing_key: public_key(&restored_root),
            new_recovery_signing_key: public_key(&restored_recovery),
            root_acceptance_signature: signature(
                &restored_root,
                &key_rotation_acceptance_input(
                    identity_id,
                    safe(5),
                    Some(log.head_hash()),
                    KeyAcceptancePurposeV1::RecoveryRestoreRoot,
                    public_key(&restored_root),
                )
                .unwrap(),
            ),
            recovery_acceptance_signature: signature(
                &restored_recovery,
                &key_rotation_acceptance_input(
                    identity_id,
                    safe(5),
                    Some(log.head_hash()),
                    KeyAcceptancePurposeV1::RecoveryRestoreRecovery,
                    public_key(&restored_recovery),
                )
                .unwrap(),
            ),
        },
    );
    log.append(&recovery_restore).unwrap();
    assert_eq!(log.current_root_key(), public_key(&restored_root));
    assert_eq!(log.current_recovery_key(), public_key(&restored_recovery));
    assert_eq!(
        log.device_status(device_id(DEVICE_A)),
        Some(DeviceStatusV1::Revoked)
    );

    let new_device = signing_key(8);
    let new_certificate = device_certificate(
        &restored_root,
        identity_id,
        &new_device,
        device_id(DEVICE_C),
        81,
        1_450,
    );
    let revoked_device_attempt = signed_event(
        &first_device,
        identity_id,
        6,
        Some(log.head_hash()),
        1_500,
        IdentityLogEventPayloadV1::DeviceAdd {
            certificate: new_certificate.clone(),
        },
    );
    assert_eq!(
        log.append(&revoked_device_attempt),
        Err(IdentityLogError::UnauthorizedSigner)
    );

    let root_device_add = signed_event(
        &restored_root,
        identity_id,
        6,
        Some(log.head_hash()),
        1_500,
        IdentityLogEventPayloadV1::DeviceAdd {
            certificate: new_certificate,
        },
    );
    log.append(&root_device_add).unwrap();
    assert_eq!(
        log.device_status(device_id(DEVICE_C)),
        Some(DeviceStatusV1::Active)
    );
}

#[test]
fn identity_log_page_binds_a_contiguous_exact_chain_to_its_advertised_head() {
    let root = signing_key(1);
    let recovery = signing_key(2);
    let genesis = genesis(&root, &recovery);
    let identity_id = genesis.identity_id();
    let relay = signed_event(
        &root,
        identity_id,
        2,
        Some(genesis.entry_hash().expect("genesis hash")),
        1_100,
        IdentityLogEventPayloadV1::RelayDescriptor {
            descriptor: descriptor(2_000),
        },
    );
    let genesis_bytes = genesis
        .to_deterministic_cbor()
        .expect("exact genesis bytes");
    let relay_bytes = relay.to_deterministic_cbor().expect("exact relay bytes");
    let head_hash = relay.entry_hash().expect("relay hash");

    let page = IdentityLogPageV1::new(
        identity_id,
        safe(2),
        head_hash,
        0,
        vec![genesis_bytes, relay_bytes],
        2,
        false,
    )
    .expect("contiguous page");
    let exact = page.to_deterministic_cbor().expect("canonical page bytes");

    assert_eq!(IdentityLogPageV1::decode_and_verify(&exact), Ok(page));
}

#[test]
fn identity_log_page_rejects_a_terminal_head_that_does_not_match_the_exact_events() {
    let root = signing_key(1);
    let recovery = signing_key(2);
    let genesis = genesis(&root, &recovery);
    let identity_id = genesis.identity_id();
    let relay = signed_event(
        &root,
        identity_id,
        2,
        Some(genesis.entry_hash().expect("genesis hash")),
        1_100,
        IdentityLogEventPayloadV1::RelayDescriptor {
            descriptor: descriptor(2_000),
        },
    );

    assert_eq!(
        IdentityLogPageV1::new(
            identity_id,
            safe(2),
            Sha256Digest::from_bytes([0x55; 32]),
            0,
            vec![
                genesis
                    .to_deterministic_cbor()
                    .expect("exact genesis bytes"),
                relay.to_deterministic_cbor().expect("exact relay bytes"),
            ],
            2,
            false,
        ),
        Err(IdentityLogPageError::AdvertisedHeadMismatch)
    );
}

#[test]
fn current_chain_decodes_to_itself_and_replays() {
    let chain = current_v1_1_chain();
    let names: Vec<&str> = chain.iter().map(|(name, _)| *name).collect();
    assert_eq!(
        names,
        [
            "genesis",
            "device_add",
            "relay_descriptor",
            "root_rotate",
            "recovery_rotate",
            "device_revoke",
            "recovery_restore",
        ]
    );
    let mut decoded = Vec::new();
    for (_, event) in &chain {
        let bytes = event.to_deterministic_cbor().unwrap();
        let read = IdentityLogEventV1::decode_and_verify(&bytes).unwrap();
        assert_eq!(&read, event);
        assert_eq!(read.to_deterministic_cbor().unwrap(), bytes);
        assert_eq!(read.entry_hash().unwrap(), event.entry_hash().unwrap());
        decoded.push(read);
    }
    let mut log = IdentityLogV1::bootstrap(&decoded[0]).unwrap();
    assert_eq!(log.wire(), IDENTITY_LOG_WIRE_VERSION);
    for event in decoded.iter().skip(1) {
        log.append(event).unwrap();
    }
    assert_eq!(log.head_sequence(), safe(7));
    assert_eq!(log.head_hash(), decoded[6].entry_hash().unwrap());
    assert_eq!(
        log.device_status(device_id(DEVICE_A)),
        Some(DeviceStatusV1::Revoked)
    );
    assert_eq!(log.initial_device_id(), Some(device_id(DEVICE_A)));
    assert!(log.active_relay_descriptor(timestamp(1_999)).is_some());
    assert!(log.active_relay_descriptor(timestamp(2_000)).is_none());
}

#[test]
fn legacy_genesis_decodes_to_itself() {
    let expected =
        genesis_with_wire(IDENTITY_LOG_V1_0_WIRE_VERSION, &signing_key(1), &signing_key(2));
    let bytes = expected.to_deterministic_cbor().unwrap();
    let decoded = IdentityLogEventV1::decode_and_verify(&bytes).unwrap();
    assert_eq!(decoded, expected);
    assert_eq!(decoded.to_deterministic_cbor().unwrap(), bytes);
}

#[test]
fn copies_of_a_log_go_their_own_ways() {
    let chain = current_v1_1_chain();
    let log = IdentityLogV1::bootstrap(&chain[0].1).unwrap();
    let mut copy = log.clone();
    assert_eq!(copy.identity_id(), log.identity_id());
    assert_eq!(copy.head_hash(), log.head_hash());
    copy.append(&chain[1].1).unwrap();
    assert_eq!(copy.head_sequence(), safe(2));
    assert_eq!(log.head_sequence(), safe(1));
    assert_eq!(log.device_status(device_id(DEVICE_A)), None);

    let page = IdentityLogPageV1::new(
        log.identity_id(),
        safe(1),
        log.head_hash(),
        0,
        vec![chain[0].1.to_deterministic_cbor().unwrap()],
        1,
        false,
    )
    .unwrap();
    assert_eq!(page.clone(), page);
}

#[test]
fn rotated_root_stays_fenced_through_later_events() {
    let chain = current_v1_1_chain();
    let mut log = IdentityLogV1::bootstrap(&chain[0].1).unwrap();
    for (_, event) in chain.iter().skip(1).take(5) {
        log.append(event).unwrap();
    }
    let stale = signed_event(
        &signing_key(1),
        log.identity_id(),
        7,
        Some(log.head_hash()),
        2_000,
        IdentityLogEventPayloadV1::RelayDescriptor {
            descriptor: descriptor(3_000),
        },
    );
    assert_eq!(log.append(&stale), Err(IdentityLogError::UnauthorizedSigner));
    assert_eq!(log.head_sequence(), safe(6));
}

#[test]
fn accepted_events_are_replays_ever_after() {
    let chain = current_v1_1_chain();
    let mut log = IdentityLogV1::bootstrap(&chain[0].1).unwrap();
    for (place, (_, event)) in chain.iter().enumerate().skip(1) {
        log.append(event).unwrap();
        assert_eq!(log.identity_id(), chain[0].1.identity_id());
        assert_eq!(log.wire(), IDENTITY_LOG_WIRE_VERSION);
        assert_eq!(log.head_sequence(), safe(place as u64 + 1));
        assert_eq!(log.initial_device_id(), Some(device_id(DEVICE_A)));
        for (_, earlier) in &chain[..=place] {
            assert_eq!(log.append(earlier), Err(IdentityLogError::Replay));
        }
    }
}

#[test]
fn last_descriptor_is_the_current_one() {
    let root = signing_key(1);
    let genesis = genesis(&root, &signing_key(2));
    let mut log = IdentityLogV1::bootstrap(&genesis).unwrap();
    assert!(log.active_relay_descriptor(timestamp(0)).is_none());
    for (sequence, expires_at) in [(2, 3_000), (3, 2_000)] {
        let event = signed_event(
            &root,
            log.identity_id(),
            sequence,
            Some(log.head_hash()),
            1_000,
            IdentityLogEventPayloadV1::RelayDescriptor {
                descriptor: descriptor(expires_at),
            },
        );
        log.append(&event).unwrap();
        assert!(log.active_relay_descriptor(timestamp(expires_at - 1)).is_some());
        assert!(log.active_relay_descriptor(timestamp(expires_at)).is_none());
    }
    assert_eq!(log.initial_device_id(), None);
}
