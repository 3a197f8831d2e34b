//! Admission of history recovery requests.

use ed25519_dalek::{Signer, SigningKey};
use identity_log::log::authority::genesis_recovery_acceptance_input;
use identity_log::log::certificate::{
    device_certificate_signature_input, DeviceCertificateV1, UnsignedDeviceCertificateV1,
};
use identity_log::log::event::{
    identity_log_signature_input, IdentityLogEventV1, UnsignedIdentityLogEventV1,
};
use identity_log::log::payload::IdentityLogEventPayloadV1;
use identity_log::log::wire_line::IDENTITY_LOG_WIRE_VERSION;
use identity_log::persistence::enrollment::DeviceEnrollmentRepository;
use identity_log::persistence::enrollment_challenge::{
    DurableChallengeState, StoredEnrollmentChallenge,
};
use identity_log::persistence::enrollment_command::CreateHistoryRecoveryRequestV4Command;
use identity_log::persistence::error::IdentityPersistenceError;
use identity_log::persistence::head::{IdentityLogHead, IdentityLogSnapshot};
use identity_log::persistence::recovery_request::{
    manifest_head_bytes, manifest_leaves, AdmissionInputs, AdmittedRequest, CatalogRow,
    PreparationRow, ProviderResponse, SignedCatalogHead, LEAF_SET_DOMAIN,
};
use identity_log::wire::codec::encode_value;
use identity_log::wire::digest::Sha256Digest;
use identity_log::wire::id::{DeviceEnrollmentChallengeId, DeviceId, IdentityId};
use identity_log::wire::key::{DeviceEncryptionPublicKey, Ed25519Signature, SigningPublicKey};
use identity_log::wire::number::{SafeUint, UtcMillis};
use identity_log::wire::record::build_record;
use identity_log::wire::value::CanonicalValue;

const DEVICE_A: &str = "0190f2a5-7b1c-7abc-8def-0123456789ab";
const DEVICE_B: &str = "0190f2a5-7b1c-7abc-8def-0123456789ac";
const RECIPIENT_DOMAIN: &str = "recipient\0";

fn signing_key(seed: u8) -> SigningKey {
    SigningKey::from_bytes(&[seed; 32])
}

fn public_key(key: &SigningKey) -> SigningPublicKey {
    SigningPublicKey::try_from(key.verifying_key().to_bytes()).unwrap()
}

fn signature(key: &SigningKey, input: &[u8]) -> Ed25519Signature {
    Ed25519Signature::from_bytes(key.sign(input).to_bytes())
}

fn safe(value: u64) -> SafeUint {
    SafeUint::new(value).unwrap()
}

fn timestamp(value: i64) -> UtcMillis {
    UtcMillis::new(value).unwrap()
}

fn device_id(value: &str) -> DeviceId {
    DeviceId::from_text(value).unwrap()
}

fn signed_event(
    signer: &SigningKey,
    identity_id: IdentityId,
    sequence: u64,
    previous_event_hash: Option<Sha256Digest>,
    occurred_at: i64,
    payload: IdentityLogEventPayloadV1,
) -> IdentityLogEventV1 {
    let unsigned = UnsignedIdentityLogEventV1::new(
        IDENTITY_LOG_WIRE_VERSION,
        identity_id,
        safe(sequence),
        previous_event_hash,
        timestamp(occurred_at),
        payload,
        public_key(signer),
    )
    .unwrap();
    let input = identity_log_signature_input(unsigned.signing_digest().unwrap());
    IdentityLogEventV1::signed(unsigned, signature(signer, &input)).unwrap()
}

fn genesis() -> IdentityLogEventV1 {
    let root = signing_key(1);
    let recovery = signing_key(2);
    let identity_id = IdentityId::derive(public_key(&root).as_domain_key());
    let acceptance = signature(
        &recovery,
        &genesis_recovery_acceptance_input(identity_id, public_key(&root), public_key(&recovery))
            .unwrap(),
    );
    signed_event(
        &root,
        identity_id,
        1,
        None,
        1_000,
        IdentityLogEventPayloadV1::Genesis {
            root_signing_key: public_key(&root),
            recovery_signing_key: public_key(&recovery),
            recovery_acceptance_signature: acceptance,
        },
    )
}

fn device_add(previous: &IdentityLogEventV1, device: &SigningKey, id: &str) -> IdentityLogEventV1 {
    let root = signing_key(1);
    let identity_id = previous.identity_id();
    let unsigned = UnsignedDeviceCertificateV1::new(
        IDENTITY_LOG_WIRE_VERSION,
        identity_id,
        device_id(id),
        public_key(device),
        encryption_key(if id == DEVICE_A { 30 } else { 31 }),
        public_key(&root),
        timestamp(1_050),
    )
    .unwrap();
    let input = device_certificate_signature_input(unsigned.signing_digest().unwrap());
    let certificate = DeviceCertificateV1::signed(unsigned, signature(&root, &input)).unwrap();
    signed_event(
        &root,
        identity_id,
        previous.sequence().get() + 1,
        Some(previous.entry_hash().unwrap()),
        1_100,
        IdentityLogEventPayloadV1::DeviceAdd { certificate },
    )
}

fn encryption_key(seed: u8) -> DeviceEncryptionPublicKey {
    DeviceEncryptionPublicKey::try_from([seed; 32]).unwrap()
}

fn snapshot(events: &[&IdentityLogEventV1]) -> IdentityLogSnapshot {
    IdentityLogSnapshot::replay(
        events
            .iter()
            .map(|event| event.to_deterministic_cbor().unwrap())
            .collect(),
    )
    .unwrap()
}

fn digest(seed: u8) -> Sha256Digest {
    Sha256Digest::from_bytes([seed; 32])
}

const REQUEST: &str = "0190f2a5-7b1c-7abc-8def-0123456789ad";
const CATALOG: &str = "0190f2a5-7b1c-7abc-8def-0123456789ae";

fn request_id() -> DeviceEnrollmentChallengeId {
    DeviceEnrollmentChallengeId::from_text(REQUEST).unwrap()
}

fn catalog_id() -> [u8; 16] {
    *DeviceId::from_text(CATALOG).unwrap().as_uuid_bytes()
}

/// The log around the candidate's enrollment.
struct Log {
    identity_id: IdentityId,
    events: Vec<Vec<u8>>,
    before: IdentityLogHead,
    after: IdentityLogHead,
}

impl Log {
    fn new() -> Self {
        let first = genesis();
        let authority = device_add(&first, &signing_key(3), DEVICE_A);
        let candidate = device_add(&authority, &signing_key(4), DEVICE_B);
        Log {
            identity_id: first.identity_id(),
            events: [&first, &authority, &candidate]
                .iter()
                .map(|event| event.to_deterministic_cbor().unwrap())
                .collect(),
            before: snapshot(&[&first, &authority]).head(),
            after: snapshot(&[&first, &authority, &candidate]).head(),
        }
    }

    fn device_add_bytes(&self) -> Vec<u8> {
        self.events[2].clone()
    }

    fn snapshot(&self) -> IdentityLogSnapshot {
        IdentityLogSnapshot::replay(self.events.clone()).unwrap()
    }
}

fn leaves() -> CanonicalValue {
    CanonicalValue::Array(vec![
        CanonicalValue::Bytes(vec![41; 32]),
        CanonicalValue::Bytes(vec![42; 32]),
    ])
}

fn manifest_fields(log: &Log) -> Vec<CanonicalValue> {
    vec![
        CanonicalValue::Unsigned(2),
        CanonicalValue::Text(log.identity_id.to_text()),
        CanonicalValue::Text(CATALOG.to_owned()),
        CanonicalValue::Unsigned(1),
        CanonicalValue::Bytes(vec![1, 2, 3]),
        CanonicalValue::Bytes(vec![3; 32]),
        CanonicalValue::Bytes(vec![13; 32]),
        CanonicalValue::Unsigned(2),
        CanonicalValue::Bytes(
            Sha256Digest::hash_domain(LEAF_SET_DOMAIN, &encode_value(&leaves()).unwrap())
                .as_bytes()
                .to_vec(),
        ),
        leaves(),
    ]
}

fn manifest(fields: Vec<CanonicalValue>) -> Vec<u8> {
    encode_value(&build_record(fields)).unwrap()
}

fn command(log: &Log) -> CreateHistoryRecoveryRequestV4Command {
    CreateHistoryRecoveryRequestV4Command {
        enrollment_capability_digest: digest(50),
        idempotency_digest: digest(51),
        response_capability_digest: digest(52),
        request_id: request_id(),
        identity_id: log.identity_id,
        target_device_id: device_id(DEVICE_B),
        target_device_signing_key: public_key(&signing_key(4)),
        recipient_encryption_key: encryption_key(31),
        pre_head_sequence: log.before.sequence(),
        pre_head_hash: log.before.hash(),
        post_head_sequence: log.after.sequence(),
        post_head_hash: log.after.hash(),
        device_add_bytes: log.device_add_bytes(),
        device_add_digest: digest(53),
        preparation_bytes: vec![5, 5],
        preparation_digest: digest(54),
        manifest_bytes: manifest(manifest_fields(log)),
        manifest_digest: digest(55),
        issued_at: timestamp(2_000),
        expires_at: timestamp(8_000),
        candidate_signature: Ed25519Signature::from_bytes([0; 64]),
        exact_request_bytes: vec![6, 6],
        request_digest: digest(56),
    }
}

fn challenge(log: &Log) -> StoredEnrollmentChallenge {
    StoredEnrollmentChallenge {
        identity_id: log.identity_id,
        approved_head: Some(log.after),
        observed_head: None,
        protocol_version: 1,
        recovery_request_bytes: None,
        challenge_id: request_id(),
        creation_idempotency_key_hash: digest(60),
        target_device_id: device_id(DEVICE_B),
        target_device_signing_key: public_key(&signing_key(4)),
        target_device_encryption_key: encryption_key(31),
        capability_hash: digest(50),
        request_digest: digest(61),
        recovery_request_digest: None,
        request_issued_at: None,
        recipient_encryption_key: None,
        candidate_request_signature: None,
        state: DurableChallengeState::Approved,
        created_at: timestamp(1_000),
        expires_at: timestamp(9_000),
        approved_at: Some(timestamp(1_500)),
        cancelled_at: None,
        approval_request_digest: Some(digest(62)),
        approver_device_id: Some(device_id(DEVICE_A)),
        approver_session_id: None,
        retention_until: timestamp(90_000),
    }
}

fn preparation(log: &Log) -> PreparationRow {
    PreparationRow {
        identity_id: log.identity_id.to_text(),
        catalog_id: catalog_id(),
        candidate_device_id: *device_id(DEVICE_B).as_uuid_bytes(),
        candidate_signing_key: public_key(&signing_key(4)).as_bytes().to_vec(),
        candidate_recipient_key: vec![31; 32],
        observed_head_sequence: log.before.sequence().get() as i64,
        observed_head_hash: log.before.hash().as_bytes().to_vec(),
        issued_at_ms: 1_200,
        expires_at_ms: 8_500,
        enrollment_capability_hash: vec![50; 32],
        catalog_generation: 1,
        catalog_head_digest: vec![3; 32],
        authority_device_id: *device_id(DEVICE_A).as_uuid_bytes(),
        authority_signing_key: public_key(&signing_key(3)).as_bytes().to_vec(),
        preparation_bytes: vec![5, 5],
        preparation_digest: vec![54; 32],
        provider_response_bytes: Some(vec![7, 7]),
        provider_response_digest: Some(vec![57; 32]),
        provider_expires_at_ms: Some(7_000),
        provider_idempotency_key_hash: vec![58; 32],
    }
}

fn catalog(log: &Log) -> CatalogRow {
    CatalogRow {
        catalog_id: catalog_id(),
        generation: 1,
        head_bytes: vec![1, 2, 3],
        head_digest: vec![3; 32],
        leaf_count: 2,
        merkle_root: vec![13; 32],
        observed_head_sequence: log.before.sequence().get() as i64,
        observed_head_hash: log.before.hash().as_bytes().to_vec(),
        authority_device_id: *device_id(DEVICE_A).as_uuid_bytes(),
        authority_signing_key: public_key(&signing_key(3)).as_bytes().to_vec(),
        expires_at_ms: 9_500,
    }
}

fn provider(log: &Log) -> ProviderResponse {
    ProviderResponse {
        expires_at: timestamp(7_000),
        digest: digest(57),
        identity_id: log.identity_id,
        catalog_id: catalog_id(),
        catalog_generation: safe(1),
        catalog_head_digest: digest(3),
        candidate_device_id: device_id(DEVICE_B),
        device_add_digest: digest(53),
        device_add_bytes: log.device_add_bytes(),
        successor_head: log.after,
        recipient_key_digest: Sha256Digest::hash_domain(
            RECIPIENT_DOMAIN,
            command(log).recipient_encryption_key.as_bytes(),
        ),
        authority_kind: 1,
        authority_device_id: Some(device_id(DEVICE_A)),
        authority_signing_key: public_key(&signing_key(3)),
        provider_device_id: device_id(DEVICE_A),
        provider_signing_key: public_key(&signing_key(3)),
    }
}

fn inputs(log: &Log) -> AdmissionInputs {
    AdmissionInputs {
        existing: None,
        idempotency_taken: false,
        challenge: Ok(challenge(log)),
        candidate_reserved: false,
        preparation: Some(preparation(log)),
        catalog: Some(catalog(log)),
        signed_head: Ok(SignedCatalogHead {
            identity_id: log.identity_id,
            catalog_id: catalog_id(),
            generation: safe(1),
            digest: digest(3),
            merkle_root: digest(13),
        }),
        leaf_root: Some(digest(13)),
        provider: Ok(provider(log)),
        recipient_key_domain: RECIPIENT_DOMAIN.to_owned(),
        snapshot: Ok(log.snapshot()),
    }
}

fn request(
    command: &CreateHistoryRecoveryRequestV4Command,
    inputs: &AdmissionInputs,
    now: i64,
) -> Result<(bool, Vec<u8>), IdentityPersistenceError> {
    DeviceEnrollmentRepository.create_history_recovery_request_v4(command, inputs, timestamp(now))
}

#[test]
fn request_is_admitted_with_its_receipt() {
    let log = &Log::new();
    let (created, receipt) = request(&command(log), &inputs(log), 3_000).unwrap();
    assert!(created);
    assert_eq!(
        receipt,
        encode_value(&build_record(vec![
            CanonicalValue::Unsigned(4),
            CanonicalValue::Text(REQUEST.to_owned()),
            CanonicalValue::Bytes(vec![56; 32]),
            CanonicalValue::Bytes(vec![52; 32]),
            CanonicalValue::Unsigned(3_000),
        ]))
        .unwrap()
    );
    let bytes = manifest(manifest_fields(log));
    assert_eq!(manifest_head_bytes(&bytes), Some(vec![1, 2, 3]));
    assert_eq!(manifest_leaves(&bytes), Some(vec![digest(41), digest(42)]));
    assert_eq!(manifest_leaves(&[0]), None);
}

#[test]
fn admitted_request_is_replayed_whatever_changed() {
    let log = &Log::new();
    let existing = |seed: u8| {
        Some(AdmittedRequest {
            request_digest: vec![56; 32],
            request_bytes: vec![6, 6],
            idempotency_digest: vec![seed; 32],
            receipt_bytes: vec![8, 8],
        })
    };
    let mut drifted = inputs(log);
    drifted.existing = existing(51);
    drifted.idempotency_taken = true;
    drifted.challenge = Err(IdentityPersistenceError::DeviceEnrollmentCapabilityRejected);
    drifted.snapshot = Err(IdentityPersistenceError::IdentityInactive);
    assert_eq!(request(&command(log), &drifted, 100_000), Ok((false, vec![8, 8])));
    let replay = |seed: u8| {
        let existing = existing(seed).unwrap();
        DeviceEnrollmentRepository.replay_history_recovery_request_v4(&command(log), &existing)
    };
    assert_eq!(replay(51), Ok(vec![8, 8]));
    assert_eq!(replay(52), Err(IdentityPersistenceError::IdempotencyConflict));
    drifted.existing = existing(52);
    let conflict = Err(IdentityPersistenceError::IdempotencyConflict);
    assert_eq!(request(&command(log), &drifted, 100_000), conflict);
    let mut taken = inputs(log);
    taken.idempotency_taken = true;
    assert_eq!(request(&command(log), &taken, 3_000), conflict);
}

#[test]
fn candidate_is_admitted_before_anything_else_is_read() {
    let log = &Log::new();
    let admitted = |taken: bool, challenge: &Result<_, IdentityPersistenceError>, now: i64| {
        DeviceEnrollmentRepository
            .admit_recovery_candidate(&command(log), taken, challenge, timestamp(now))
            .map(|challenge| challenge.identity_id)
    };
    let missing = Err(IdentityPersistenceError::DeviceEnrollmentCapabilityRejected);
    assert_eq!(admitted(false, &Ok(challenge(log)), 3_000), Ok(log.identity_id));
    assert_eq!(
        admitted(true, &missing, 3_000),
        Err(IdentityPersistenceError::IdempotencyConflict)
    );
    assert_eq!(
        admitted(false, &missing, 3_000),
        Err(IdentityPersistenceError::DeviceEnrollmentCapabilityRejected)
    );
    assert_eq!(
        admitted(false, &Ok(challenge(log)), 8_000),
        Err(IdentityPersistenceError::RecoveryPreparationExpired)
    );
}

fn refused(
    log: &Log,
    change: fn(&mut AdmissionInputs),
    now: i64,
    error: IdentityPersistenceError,
) {
    let mut inputs = inputs(log);
    change(&mut inputs);
    assert_eq!(request(&command(log), &inputs, now), Err(error));
}

#[test]
fn challenge_and_preparation_must_still_hold() {
    let log = &Log::new();
    let invalidated = IdentityPersistenceError::RecoveryPreparationInvalidated;
    let revoked = IdentityPersistenceError::RecoveryPreparationRevoked;
    let expired = IdentityPersistenceError::RecoveryPreparationExpired;
    refused(
        log,
        |inputs| inputs.challenge.as_mut().unwrap().protocol_version = 2,
        3_000,
        invalidated,
    );
    refused(
        log,
        |inputs| inputs.challenge.as_mut().unwrap().cancelled_at = Some(timestamp(1_600)),
        3_000,
        revoked,
    );
    refused(
        log,
        |inputs| inputs.challenge.as_mut().unwrap().state = DurableChallengeState::Open,
        3_000,
        invalidated,
    );
    refused(
        log,
        |inputs| inputs.challenge.as_mut().unwrap().state = DurableChallengeState::Open,
        9_000,
        expired,
    );
    refused(log, |_| {}, 8_000, expired);
    refused(log, |_| {}, 1_999, invalidated);
    refused(
        log,
        |inputs| inputs.candidate_reserved = true,
        3_000,
        IdentityPersistenceError::RecoveryCandidateKeyChanged,
    );
    refused(log, |inputs| inputs.preparation = None, 3_000, revoked);
    refused(
        log,
        |inputs| inputs.preparation.as_mut().unwrap().provider_response_bytes = None,
        3_000,
        revoked,
    );
    refused(
        log,
        |inputs| inputs.preparation.as_mut().unwrap().preparation_bytes.push(1),
        3_000,
        invalidated,
    );
    refused(
        log,
        |inputs| inputs.preparation.as_mut().unwrap().provider_expires_at_ms = Some(3_000),
        3_000,
        expired,
    );
}

#[test]
fn catalog_manifest_and_provider_must_agree() {
    let log = &Log::new();
    let changed = IdentityPersistenceError::RecoveryCatalogHeadChanged;
    let invalidated = IdentityPersistenceError::RecoveryPreparationInvalidated;
    refused(log, |inputs| inputs.catalog = None, 3_000, changed);
    refused(
        log,
        |inputs| inputs.catalog.as_mut().unwrap().expires_at_ms = 3_000,
        3_000,
        IdentityPersistenceError::RecoveryCatalogExpired,
    );
    refused(log, |inputs| inputs.catalog.as_mut().unwrap().generation = 2, 3_000, changed);
    refused(
        log,
        |inputs| inputs.catalog.as_mut().unwrap().authority_signing_key = vec![1; 32],
        3_000,
        IdentityPersistenceError::RecoveryAuthorityChanged,
    );
    refused(log, |inputs| inputs.catalog.as_mut().unwrap().leaf_count = 3, 3_000, changed);
    refused(
        log,
        |inputs| inputs.catalog.as_mut().unwrap().merkle_root = vec![13; 31],
        3_000,
        IdentityPersistenceError::CorruptData("manifest merkle root"),
    );
    refused(log, |inputs| inputs.leaf_root = Some(digest(14)), 3_000, changed);
    refused(log, |inputs| inputs.leaf_root = None, 3_000, changed);
    refused(
        log,
        |inputs| inputs.provider.as_mut().unwrap().recipient_key_digest = digest(1),
        3_000,
        invalidated,
    );
    refused(
        log,
        |inputs| inputs.recipient_key_domain = "another\0".to_owned(),
        3_000,
        invalidated,
    );
    refused(
        log,
        |inputs| inputs.provider.as_mut().unwrap().authority_device_id = None,
        3_000,
        invalidated,
    );
    refused(
        log,
        |inputs| {
            inputs.provider.as_mut().unwrap().provider_signing_key = public_key(&signing_key(9));
        },
        3_000,
        invalidated,
    );
    refused(
        log,
        |inputs| inputs.provider.as_mut().unwrap().authority_kind = 2,
        3_000,
        IdentityPersistenceError::RecoveryAuthorityChanged,
    );
    let mut root = inputs(log);
    let response = root.provider.as_mut().unwrap();
    response.authority_kind = 2;
    response.authority_signing_key = public_key(&signing_key(1));
    assert!(request(&command(log), &root, 3_000).is_ok());
}

#[test]
fn log_must_end_with_the_added_device() {
    let log = &Log::new();
    let mut behind = inputs(log);
    behind.snapshot = Ok(IdentityLogSnapshot::replay(log.events[..2].to_vec()).unwrap());
    assert_eq!(
        request(&command(log), &behind, 3_000),
        Err(IdentityPersistenceError::HeadConflict {
            current: Some(log.before)
        })
    );
}

#[test]
fn manifest_has_one_exact_form() {
    let log = &Log::new();
    let inputs = inputs(log);
    let refused = |change: fn(&mut Vec<CanonicalValue>), label: &'static str| {
        let mut fields = manifest_fields(log);
        change(&mut fields);
        let mut command = command(log);
        command.manifest_bytes = manifest(fields);
        assert_eq!(
            request(&command, &inputs, 3_000),
            Err(IdentityPersistenceError::InvalidCommand(label))
        );
    };
    refused(
        |fields| {
            fields.pop();
        },
        "history recovery manifest fields",
    );
    refused(|fields| fields[2] = CanonicalValue::Null, "manifest catalog ID");
    refused(|fields| fields[3] = CanonicalValue::Unsigned(0), "manifest generation");
    refused(|fields| fields[4] = CanonicalValue::Bytes(vec![0; 467]), "manifest catalog head");
    refused(|fields| fields[5] = CanonicalValue::Null, "manifest head digest");
    refused(|fields| fields[6] = CanonicalValue::Null, "manifest merkle root");
    refused(|fields| fields[7] = CanonicalValue::Unsigned(1_024), "manifest leaf count");
    refused(|fields| fields[7] = CanonicalValue::Unsigned(3), "manifest leaf count");
    refused(|fields| fields[8] = CanonicalValue::Null, "manifest leaf-set digest");
    refused(|fields| fields[9] = CanonicalValue::Null, "manifest leaf set");
    refused(
        |fields| {
            fields[9] = CanonicalValue::Array(vec![
                CanonicalValue::Bytes(vec![41; 32]),
                CanonicalValue::Bytes(vec![41; 32]),
            ])
        },
        "manifest leaf digest",
    );
    let mut not_a_map = command(log);
    not_a_map.manifest_bytes = vec![0];
    assert_eq!(
        request(&not_a_map, &inputs, 3_000),
        Err(IdentityPersistenceError::InvalidCommand("history recovery manifest"))
    );
}
