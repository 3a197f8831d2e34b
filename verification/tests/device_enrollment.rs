//! Enrollment of devices by QR code.

use ed25519_dalek::{Signer, SigningKey};
use identity_log::log::authority::genesis_recovery_acceptance_input;
use identity_log::log::certificate::{
    device_certificate_signature_input, DeviceCertificateV1, UnsignedDeviceCertificateV1,
};
use identity_log::log::event::{
    identity_log_signature_input, IdentityLogEventV1, UnsignedIdentityLogEventV1,
};
use identity_log::log::payload::IdentityLogEventPayloadV1;
use identity_log::log::wire_line::IDENTITY_LOG_WIRE_VERSION;
use identity_log::persistence::enrollment::{
    ensure_exact_approved_replay, ensure_history_recovery_observed_head, ensure_session_identity,
    AppendDisposition, ApprovalStep, CreationDecision, DeviceEnrollmentRepository,
};
use identity_log::persistence::enrollment_challenge::{
    decode_stored_challenge, DurableChallengeState, EnrollmentChallengeRow,
    StoredEnrollmentChallenge,
};
use identity_log::persistence::enrollment_command::{
    history_recovery_request_signature_input, history_recovery_request_unsigned_canonical_bytes,
    CreateDeviceEnrollmentChallengeCommand, CreateHistoryRecoveryRequestCommand,
    DeviceEnrollmentApprovalCommand, DeviceEnrollmentCapability, DeviceEnrollmentChallengeOutcome,
    DeviceEnrollmentChallengeState,
};
use identity_log::persistence::error::IdentityPersistenceError;
use identity_log::persistence::head::{IdentityLogHead, IdentityLogSnapshot};
use identity_log::wire::digest::Sha256Digest;
use identity_log::wire::id::{DeviceEnrollmentChallengeId, DeviceId, IdentityId};
use identity_log::wire::key::{DeviceEncryptionPublicKey, Ed25519Signature, SigningPublicKey};
use identity_log::wire::number::{SafeUint, UtcMillis};
use uuid::Uuid;

const DEVICE_A: &str = "0190f2a5-7b1c-7abc-8def-0123456789ab";
const DEVICE_B: &str = "0190f2a5-7b1c-7abc-8def-0123456789ac";

fn signing_key(seed: u8) -> SigningKey {
    SigningKey::from_bytes(&[seed; 32])
}

fn public_key(key: &SigningKey) -> SigningPublicKey {
    SigningPublicKey::try_from(key.verifying_key().to_bytes()).unwrap()
}

fn signature(key: &SigningKey, input: &[u8]) -> Ed25519Signature {
    Ed25519Signature::from_bytes(key.sign(input).to_bytes())
}

fn safe(value: u64) -> SafeUint {
    SafeUint::new(value).unwrap()
}

fn timestamp(value: i64) -> UtcMillis {
    UtcMillis::new(value).unwrap()
}

fn device_id(value: &str) -> DeviceId {
    DeviceId::from_text(value).unwrap()
}

fn signed_event(
    signer: &SigningKey,
    identity_id: IdentityId,
    sequence: u64,
    previous_event_hash: Option<Sha256Digest>,
    occurred_at: i64,
    payload: IdentityLogEventPayloadV1,
) -> IdentityLogEventV1 {
    let unsigned = UnsignedIdentityLogEventV1::new(
        IDENTITY_LOG_WIRE_VERSION,
        identity_id,
        safe(sequence),
        previous_event_hash,
        timestamp(occurred_at),
        payload,
        public_key(signer),
    )
    .unwrap();
    let input = identity_log_signature_input(unsigned.signing_digest().unwrap());
    IdentityLogEventV1::signed(unsigned, signature(signer, &input)).unwrap()
}

fn genesis() -> IdentityLogEventV1 {
    let root = signing_key(1);
    let recovery = signing_key(2);
    let identity_id = IdentityId::derive(public_key(&root).as_domain_key());
    let acceptance = signature(
        &recovery,
        &genesis_recovery_acceptance_input(identity_id, public_key(&root), public_key(&recovery))
            .unwrap(),
    );
    signed_event(
        &root,
        identity_id,
        1,
        None,
        1_000,
        IdentityLogEventPayloadV1::Genesis {
            root_signing_key: public_key(&root),
            recovery_signing_key: public_key(&recovery),
            recovery_acceptance_signature: acceptance,
        },
    )
}

fn device_add(previous: &IdentityLogEventV1, device: &SigningKey, id: &str) -> IdentityLogEventV1 {
    let root = signing_key(1);
    let identity_id = previous.identity_id();
    let unsigned = UnsignedDeviceCertificateV1::new(
        IDENTITY_LOG_WIRE_VERSION,
        identity_id,
        device_id(id),
        public_key(device),
        encryption_key(31),
        public_key(&root),
        timestamp(1_050),
    )
    .unwrap();
    let input = device_certificate_signature_input(unsigned.signing_digest().unwrap());
    let certificate = DeviceCertificateV1::signed(unsigned, signature(&root, &input)).unwrap();
    signed_event(
        &root,
        identity_id,
        previous.sequence().get() + 1,
        Some(previous.entry_hash().unwrap()),
        1_100,
        IdentityLogEventPayloadV1::DeviceAdd { certificate },
    )
}

fn encryption_key(seed: u8) -> DeviceEncryptionPublicKey {
    DeviceEncryptionPublicKey::try_from([seed; 32]).unwrap()
}

fn snapshot(events: &[&IdentityLogEventV1]) -> IdentityLogSnapshot {
    IdentityLogSnapshot::replay(
        events
            .iter()
            .map(|event| event.to_deterministic_cbor().unwrap())
            .collect(),
    )
    .unwrap()
}

fn digest(seed: u8) -> Sha256Digest {
    Sha256Digest::from_bytes([seed; 32])
}

fn challenge_id() -> DeviceEnrollmentChallengeId {
    DeviceEnrollmentChallengeId::from_uuid_bytes(*Uuid::now_v7().as_bytes()).unwrap()
}

fn capability(seed: u8) -> DeviceEnrollmentCapability {
    DeviceEnrollmentCapability::new([seed; 32]).expect("nonzero capability")
}

fn create_command(idempotency: u8, capability_seed: u8) -> CreateDeviceEnrollmentChallengeCommand {
    CreateDeviceEnrollmentChallengeCommand::new(
        digest(idempotency),
        genesis().identity_id(),
        device_id(DEVICE_B),
        public_key(&signing_key(4)),
        encryption_key(31),
        capability(capability_seed),
    )
    .unwrap()
}

/// The row of the challenge that `create_command(1, 2)` creates at 1 000.
fn open_row() -> EnrollmentChallengeRow {
    let command = create_command(1, 2);
    EnrollmentChallengeRow {
        identity_id: command.identity_id().to_text(),
        approved_head_sequence: None,
        approved_head_hash: None,
        observed_head_sequence: None,
        observed_head_hash: None,
        protocol_version: 1,
        recovery_request_bytes: None,
        challenge_id: *challenge_id().as_uuid_bytes(),
        creation_idempotency_key_hash: vec![1; 32],
        target_device_id: *device_id(DEVICE_B).as_uuid_bytes(),
        target_device_signing_key: public_key(&signing_key(4)).as_bytes().to_vec(),
        target_device_encryption_key: vec![31; 32],
        capability_hash: capability(2).hash().as_bytes().to_vec(),
        request_digest: command.request_digest().unwrap().as_bytes().to_vec(),
        recovery_request_digest: None,
        request_issued_at: None,
        recipient_encryption_key: None,
        candidate_request_signature: None,
        state: "open".to_owned(),
        created_at: 1_000,
        expires_at: 301_000,
        approved_at: None,
        cancelled_at: None,
        approval_request_digest: None,
        approver_device_id: None,
        approver_session_id: None,
        retention_until: 301_000,
    }
}

fn open_challenge() -> StoredEnrollmentChallenge {
    decode_stored_challenge(&open_row()).unwrap()
}

#[test]
fn approval_replay_binds_transport_key_and_exact_request() {
    let challenge_id = challenge_id();
    let idempotency_key_hash = Sha256Digest::from_bytes([6; 32]);
    let expected_head_hash = Sha256Digest::from_bytes([8; 32]);
    let command = DeviceEnrollmentApprovalCommand::new(
        idempotency_key_hash,
        challenge_id,
        DeviceEnrollmentCapability::new([7; 32]).expect("nonzero capability"),
        expected_head_hash,
        vec![1, 2, 3],
    )
    .expect("bounded approval");
    let retry = DeviceEnrollmentApprovalCommand::new(
        idempotency_key_hash,
        challenge_id,
        DeviceEnrollmentCapability::new([7; 32]).expect("nonzero capability"),
        expected_head_hash,
        vec![1, 2, 3],
    )
    .expect("bounded approval");
    let changed_key = DeviceEnrollmentApprovalCommand::new(
        Sha256Digest::from_bytes([9; 32]),
        challenge_id,
        DeviceEnrollmentCapability::new([7; 32]).expect("nonzero capability"),
        expected_head_hash,
        vec![1, 2, 3],
    )
    .expect("bounded approval");
    let changed_body = DeviceEnrollmentApprovalCommand::new(
        idempotency_key_hash,
        challenge_id,
        DeviceEnrollmentCapability::new([7; 32]).expect("nonzero capability"),
        expected_head_hash,
        vec![1, 2, 4],
    )
    .expect("bounded approval");

    let exact_digest = command.request_digest().expect("canonical digest");
    assert_ne!(
        exact_digest,
        changed_key.request_digest().expect("canonical digest")
    );
    assert_ne!(
        exact_digest,
        changed_body.request_digest().expect("canonical digest")
    );
    assert_eq!(
        command.identity_append_idempotency_key(),
        retry.identity_append_idempotency_key()
    );
    assert_ne!(
        command.identity_append_idempotency_key(),
        changed_key.identity_append_idempotency_key()
    );
    assert!(ensure_exact_approved_replay(
        Some(exact_digest),
        retry.request_digest().expect("canonical digest")
    )
    .is_ok());
    assert!(matches!(
        ensure_exact_approved_replay(
            Some(exact_digest),
            changed_key.request_digest().expect("canonical digest")
        ),
        Err(IdentityPersistenceError::IdempotencyConflict)
    ));
}

#[test]
fn candidate_challenge_requires_distinct_public_keys_and_nonzero_capability() {
    assert!(matches!(
        DeviceEnrollmentCapability::new([0; 32]),
        Err(IdentityPersistenceError::InvalidCommand(_))
    ));
    let device_id =
        DeviceId::from_text("0190f2a5-7b1c-7abc-8def-0123456789ab").expect("valid UUIDv7");
    let signing = SigningPublicKey::try_from([9; 32]).expect("valid signing key");
    let encryption = DeviceEncryptionPublicKey::try_from([9; 32]).expect("valid encryption key");
    let root = SigningPublicKey::try_from([10; 32]).expect("valid root key");
    let identity = IdentityId::derive(root.as_domain_key());
    assert!(matches!(
        CreateDeviceEnrollmentChallengeCommand::new(
            Sha256Digest::from_bytes([1; 32]),
            identity,
            device_id,
            signing,
            encryption,
            DeviceEnrollmentCapability::new([2; 32]).expect("nonzero capability"),
        ),
        Err(IdentityPersistenceError::InvalidCommand(_))
    ));
}

#[test]
fn approved_replay_uses_only_the_exact_durable_approval_digest() {
    let exact = Sha256Digest::from_bytes([19; 32]);
    assert!(ensure_exact_approved_replay(Some(exact), exact).is_ok());
    assert!(matches!(
        ensure_exact_approved_replay(Some(exact), Sha256Digest::from_bytes([20; 32])),
        Err(IdentityPersistenceError::IdempotencyConflict)
    ));
}

#[test]
fn history_recovery_observed_head_must_remain_the_direct_predecessor() {
    let root = SigningPublicKey::try_from(
        ed25519_dalek::SigningKey::from_bytes(&[21; 32])
            .verifying_key()
            .to_bytes(),
    )
    .expect("valid root key");
    let identity = IdentityId::derive(root.as_domain_key());
    let observed = IdentityLogHead::observed(
        identity,
        SafeUint::new(7).expect("safe sequence"),
        Sha256Digest::from_bytes([22; 32]),
    )
    .expect("observed head");
    let advanced = IdentityLogHead::observed(
        identity,
        SafeUint::new(8).expect("safe sequence"),
        Sha256Digest::from_bytes([23; 32]),
    )
    .expect("advanced head");

    assert!(ensure_history_recovery_observed_head(Some(observed), observed).is_ok());
    assert!(matches!(
        ensure_history_recovery_observed_head(Some(observed), advanced),
        Err(IdentityPersistenceError::HeadConflict {
            current: Some(head)
        }) if head == advanced
    ));
    assert!(ensure_history_recovery_observed_head(None, advanced).is_ok());
}

#[test]
fn challenge_is_created_and_its_creation_replayed() {
    let repository = DeviceEnrollmentRepository;
    let command = create_command(1, 2);
    let now = timestamp(1_000);
    let (request_digest, expires_at) =
        match repository.create_challenge(&command, &None, now).unwrap() {
            CreationDecision::Insert(request_digest, expires_at) => (request_digest, expires_at),
            CreationDecision::Replay(_) => panic!("nothing was stored"),
        };
    assert_eq!(request_digest, command.request_digest().unwrap());
    assert_eq!(expires_at, timestamp(301_000));
    assert_eq!(
        repository.validate_challenge(&command, now),
        Ok((request_digest, expires_at))
    );

    let id = challenge_id();
    let persisted = repository
        .settle_challenge(&command, request_digest, Some((id, now, expires_at)), &None)
        .unwrap();
    assert!(!persisted.replayed);
    let outcome = repository.issue_card(create_command(1, 2), persisted);
    assert!(matches!(outcome, DeviceEnrollmentChallengeOutcome::Created(_)));
    assert_eq!(outcome.challenge().challenge_id(), id);
    assert_eq!(outcome.challenge().capability().as_bytes(), &[2; 32]);

    let stored = Some(open_challenge());
    match repository.create_challenge(&command, &stored, now).unwrap() {
        CreationDecision::Replay(persisted) => {
            assert!(persisted.replayed);
            assert_eq!(persisted.expires_at, timestamp(301_000));
        }
        CreationDecision::Insert(..) => panic!("the challenge was stored"),
    }
    assert!(matches!(
        repository.create_challenge(&create_command(1, 3), &stored, now),
        Err(IdentityPersistenceError::IdempotencyConflict)
    ));
    assert!(matches!(
        repository.settle_challenge(&command, request_digest, None, &None),
        Err(IdentityPersistenceError::CorruptData(_))
    ));
}

#[test]
fn status_expires_and_cancellation_is_idempotent() {
    let repository = DeviceEnrollmentRepository;
    let challenge = open_challenge();
    let identity = challenge.identity_id;
    let state_at = |now: i64| {
        repository
            .status(identity, &challenge, &capability(2), timestamp(now))
            .unwrap()
            .state()
    };
    assert_eq!(state_at(300_999), DeviceEnrollmentChallengeState::Open);
    assert_eq!(state_at(301_000), DeviceEnrollmentChallengeState::Expired);
    assert!(matches!(
        repository.status(identity, &challenge, &capability(3), timestamp(1_000)),
        Err(IdentityPersistenceError::DeviceEnrollmentCapabilityRejected)
    ));

    let (status, marks) = repository
        .cancel(identity, &challenge, &capability(2), timestamp(2_000))
        .unwrap();
    assert!(marks);
    assert_eq!(status.state(), DeviceEnrollmentChallengeState::Cancelled);
    assert!(matches!(
        repository.cancel(identity, &challenge, &capability(2), timestamp(301_000)),
        Err(IdentityPersistenceError::DeviceEnrollmentChallengeExpired)
    ));

    let mut row = open_row();
    row.state = "cancelled".to_owned();
    row.cancelled_at = Some(2_000);
    let cancelled = decode_stored_challenge(&row).unwrap();
    let (status, marks) = repository
        .cancel(identity, &cancelled, &capability(2), timestamp(3_000))
        .unwrap();
    assert!(!marks);
    assert_eq!(status.state(), DeviceEnrollmentChallengeState::Cancelled);
    assert!(repository.confirm_cancelled(1).is_ok());
    assert!(repository.confirm_cancelled(0).is_err());
}

#[test]
fn approval_appends_exactly_the_candidate_and_is_replayed() {
    let repository = DeviceEnrollmentRepository;
    let first = genesis();
    let log = snapshot(&[&first]);
    let add = device_add(&first, &signing_key(4), DEVICE_B);
    let approval = |idempotency: u8, capability_seed: u8, bytes: Vec<u8>| {
        DeviceEnrollmentApprovalCommand::new(
            digest(idempotency),
            challenge_id(),
            capability(capability_seed),
            log.head().hash(),
            bytes,
        )
        .unwrap()
    };
    let challenge = open_challenge();
    let identity = challenge.identity_id;
    let command = approval(5, 2, add.to_deterministic_cbor().unwrap());
    assert!(matches!(
        repository.approve(&command, identity, &challenge, timestamp(2_000)),
        Ok(ApprovalStep::Authenticate)
    ));
    assert!(matches!(
        repository.approve(&command, identity, &challenge, timestamp(301_000)),
        Err(IdentityPersistenceError::DeviceEnrollmentChallengeExpired)
    ));
    assert!(matches!(
        repository.approve(
            &approval(5, 3, add.to_deterministic_cbor().unwrap()),
            identity,
            &challenge,
            timestamp(2_000)
        ),
        Err(IdentityPersistenceError::DeviceEnrollmentCapabilityRejected)
    ));
    assert!(matches!(
        repository.approve(&approval(5, 2, vec![1, 2, 3]), identity, &challenge, timestamp(2_000)),
        Err(IdentityPersistenceError::IdentityLog(_))
    ));

    assert_eq!(ensure_session_identity(&challenge, identity), Ok(()));
    assert_eq!(
        ensure_session_identity(&challenge, IdentityId::from_bytes([9; 32])),
        Err(IdentityPersistenceError::DeviceAuthenticationRejected)
    );
    let plan = repository
        .approve_open(&command, &challenge, identity, identity, &log)
        .unwrap();
    assert_eq!(plan.expected_head, log.head());
    assert_eq!(plan.exact_event, add.to_deterministic_cbor().unwrap());
    assert_eq!(plan.idempotency_key_hash, command.identity_append_idempotency_key());
    let stranger = IdentityId::derive(&[9; 32]);
    assert!(matches!(
        repository.approve_open(&command, &challenge, stranger, identity, &log),
        Err(IdentityPersistenceError::DeviceAuthenticationRejected)
    ));
    let other_device = device_add(&first, &signing_key(4), DEVICE_A);
    assert!(matches!(
        repository.approve_open(
            &approval(5, 2, other_device.to_deterministic_cbor().unwrap()),
            &challenge,
            identity,
            identity,
            &log
        ),
        Err(IdentityPersistenceError::InvalidCommand(
            "device enrollment target certificate mismatch"
        ))
    ));

    let state = DurableChallengeState::Open;
    assert_eq!(
        repository
            .settle_approval(state, AppendDisposition::Committed, timestamp(2_000))
            .unwrap(),
        Some(timestamp(902_000))
    );

    let mut row = open_row();
    row.state = "approved".to_owned();
    row.approved_at = Some(2_000);
    row.approved_head_sequence = Some(2);
    row.approved_head_hash = Some(add.entry_hash().unwrap().as_bytes().to_vec());
    row.approval_request_digest = Some(command.request_digest().unwrap().as_bytes().to_vec());
    row.approver_device_id = Some(*device_id(DEVICE_A).as_uuid_bytes());
    row.approver_session_id = Some(*device_id(DEVICE_A).as_uuid_bytes());
    row.retention_until = 902_000;
    let approved = decode_stored_challenge(&row).unwrap();
    match repository
        .approve(&command, identity, &approved, timestamp(400_000))
        .unwrap()
    {
        ApprovalStep::Replay(plan) => assert_eq!(plan.expected_head, log.head()),
        ApprovalStep::Authenticate => panic!("the challenge is approved"),
    }
    assert!(matches!(
        repository.approve(
            &approval(6, 2, add.to_deterministic_cbor().unwrap()),
            identity,
            &approved,
            timestamp(2_000)
        ),
        Err(IdentityPersistenceError::IdempotencyConflict)
    ));
    assert!(matches!(
        repository.cancel(identity, &approved, &capability(2), timestamp(2_000)),
        Err(IdentityPersistenceError::DeviceEnrollmentChallengeApproved)
    ));
}

#[test]
fn malformed_rows_are_told_apart() {
    let fault = |change: fn(&mut EnrollmentChallengeRow)| {
        let mut row = open_row();
        change(&mut row);
        decode_stored_challenge(&row).unwrap_err()
    };
    assert_eq!(
        fault(|row| row.identity_id.push('0')),
        IdentityPersistenceError::CorruptData("device enrollment identity ID")
    );
    assert_eq!(
        fault(|row| row.approved_head_sequence = Some(1)),
        IdentityPersistenceError::CorruptData("device enrollment approved head fields")
    );
    assert_eq!(
        fault(|row| row.state = "lost".to_owned()),
        IdentityPersistenceError::CorruptData("device enrollment challenge state")
    );
    assert_eq!(
        fault(|row| row.protocol_version = 2),
        IdentityPersistenceError::CorruptData("device enrollment protocol fields")
    );
    assert_eq!(
        fault(|row| row.cancelled_at = Some(2_000)),
        IdentityPersistenceError::CorruptData("device enrollment challenge state fields")
    );
}

#[test]
fn recovery_request_must_be_signed_by_its_candidate() {
    let candidate = signing_key(4);
    let identity = genesis().identity_id();
    let head = IdentityLogHead::observed(identity, safe(7), digest(22)).unwrap();
    let id = challenge_id();
    let unsigned = history_recovery_request_unsigned_canonical_bytes(
        id,
        identity,
        device_id(DEVICE_B),
        public_key(&candidate),
        encryption_key(31),
        head,
        timestamp(1_000),
        timestamp(2_000),
    )
    .unwrap();
    let build = |signer: &SigningKey, exact: Vec<u8>| {
        CreateHistoryRecoveryRequestCommand::new(
            digest(1),
            id,
            identity,
            device_id(DEVICE_B),
            public_key(&candidate),
            encryption_key(31),
            head,
            timestamp(1_000),
            timestamp(2_000),
            capability(2),
            signature(signer, &history_recovery_request_signature_input(&unsigned)),
            exact,
        )
    };
    // One more field, the signature under the key twelve, behind the eleven
    // unsigned ones.
    let mut exact = unsigned.clone();
    assert_eq!(exact[0], 0xab);
    exact[0] = 0xac;
    exact.push(12);
    exact.extend_from_slice(&[0x58, 64]);
    exact.extend_from_slice(
        signature(&candidate, &history_recovery_request_signature_input(&unsigned)).as_bytes(),
    );
    let command = build(&candidate, exact.clone()).expect("signed request");
    assert_eq!(command.exact_request_bytes(), exact.as_slice());
    assert_eq!(command.observed_head(), head);
    assert!(build(&signing_key(5), exact).is_err());
    assert!(build(&candidate, unsigned.clone()).is_err());
}

/// A request of the candidate at `head`, from 1 000 to 2 000.
fn recovery_command(
    id: DeviceEnrollmentChallengeId,
    head: IdentityLogHead,
    idempotency: u8,
) -> CreateHistoryRecoveryRequestCommand {
    let candidate = signing_key(4);
    let unsigned = history_recovery_request_unsigned_canonical_bytes(
        id,
        head.identity_id(),
        device_id(DEVICE_B),
        public_key(&candidate),
        encryption_key(31),
        head,
        timestamp(1_000),
        timestamp(2_000),
    )
    .unwrap();
    let signed = signature(&candidate, &history_recovery_request_signature_input(&unsigned));
    let mut exact = unsigned;
    exact[0] = 0xac;
    exact.extend_from_slice(&[12, 0x58, 64]);
    exact.extend_from_slice(signed.as_bytes());
    CreateHistoryRecoveryRequestCommand::new(
        digest(idempotency),
        id,
        head.identity_id(),
        device_id(DEVICE_B),
        public_key(&candidate),
        encryption_key(31),
        head,
        timestamp(1_000),
        timestamp(2_000),
        capability(2),
        signed,
        exact,
    )
    .unwrap()
}

#[test]
fn recovery_request_is_created_at_its_observed_head() {
    let repository = DeviceEnrollmentRepository;
    let first = genesis();
    let log = Ok(snapshot(&[&first]));
    let head = snapshot(&[&first]).head();
    let id = challenge_id();
    let command = recovery_command(id, head, 1);
    let create = |existing: &Option<StoredEnrollmentChallenge>, now: i64| {
        repository.create_history_recovery_request(&command, existing, &log, timestamp(now))
    };
    match create(&None, 1_500) {
        Ok(CreationDecision::Insert(digest, expires_at)) => {
            assert_eq!(digest, command.request_digest());
            assert_eq!(expires_at, timestamp(2_000));
        }
        other => panic!("unexpected decision {other:?}"),
    }
    let expired = Some(IdentityPersistenceError::DeviceEnrollmentChallengeExpired);
    assert_eq!(create(&None, 999).err(), expired);
    assert_eq!(create(&None, 2_000).err(), expired);
    let validate =
        |now: i64| repository.validate_history_recovery_request(&command, timestamp(now));
    assert_eq!(validate(999).err(), expired);
    assert_eq!(validate(1_000), Ok(()));
    assert_eq!(validate(2_000).err(), expired);

    let row = |idempotency: u8| {
        let mut row = open_row();
        row.challenge_id = *id.as_uuid_bytes();
        row.creation_idempotency_key_hash = vec![idempotency; 32];
        row.protocol_version = 2;
        row.recovery_request_bytes = Some(command.exact_request_bytes().to_vec());
        row.recovery_request_digest = Some(command.request_digest().as_bytes().to_vec());
        row.request_digest = command.request_digest().as_bytes().to_vec();
        row.observed_head_sequence = Some(1);
        row.observed_head_hash = Some(head.hash().as_bytes().to_vec());
        row.request_issued_at = Some(1_000);
        row.recipient_encryption_key = Some(vec![31; 32]);
        row.candidate_request_signature = Some(command.candidate_signature().as_bytes().to_vec());
        row.created_at = 1_500;
        row.expires_at = 2_000;
        row.retention_until = 2_000;
        Some(decode_stored_challenge(&row).unwrap())
    };
    match create(&row(1), 1_600) {
        Ok(CreationDecision::Replay(persisted)) => {
            assert!(persisted.replayed);
            assert_eq!(persisted.challenge_id, id);
            assert_eq!(persisted.created_at, timestamp(1_500));
        }
        other => panic!("unexpected decision {other:?}"),
    }
    let conflict = Some(IdentityPersistenceError::IdempotencyConflict);
    assert_eq!(create(&row(2), 1_600).err(), conflict);
    let replay = |idempotency: u8| {
        repository.replay_history_recovery_request(&command, &row(idempotency).unwrap())
    };
    assert_eq!(replay(1).unwrap().challenge_id, id);
    assert_eq!(replay(2).err(), conflict);

    let inactive = Err(IdentityPersistenceError::IdentityInactive);
    let unlogged = |existing: &Option<StoredEnrollmentChallenge>| {
        repository.create_history_recovery_request(&command, existing, &inactive, timestamp(1_600))
    };
    assert!(unlogged(&row(1)).is_ok());
    assert_eq!(
        unlogged(&None).err(),
        Some(IdentityPersistenceError::IdentityInactive)
    );
    let moved = Ok(snapshot(&[&first, &device_add(&first, &signing_key(3), DEVICE_A)]));
    assert!(matches!(
        repository.create_history_recovery_request(&command, &None, &moved, timestamp(1_600)),
        Err(IdentityPersistenceError::HeadConflict { current: Some(_) })
    ));

    let settle = |inserted: bool, found: &Option<StoredEnrollmentChallenge>| {
        repository.settle_history_recovery_request(&command, inserted, found, timestamp(1_600))
    };
    let created = settle(true, &None).unwrap();
    assert!(!created.replayed);
    assert_eq!(created.created_at, timestamp(1_600));
    assert!(settle(false, &row(1)).unwrap().replayed);
    assert_eq!(settle(false, &row(2)).err(), conflict);
    assert_eq!(
        settle(false, &None).err(),
        Some(IdentityPersistenceError::CorruptData(
            "history recovery request conflict without durable row"
        ))
    );
    match repository.issue_recovery_card(command, created) {
        DeviceEnrollmentChallengeOutcome::Created(card) => {
            assert_eq!(card.challenge_id(), id);
            assert_eq!(card.capability().as_bytes(), &[2; 32]);
        }
        DeviceEnrollmentChallengeOutcome::Replayed(_) => panic!("nothing was replayed"),
    }
}
