//! Device sessions.

use ed25519_dalek::{Signer, SigningKey};
use identity_log::log::authority::genesis_recovery_acceptance_input;
use identity_log::log::certificate::{
    device_certificate_signature_input, DeviceCertificateV1, UnsignedDeviceCertificateV1,
};
use identity_log::log::event::{
    identity_log_signature_input, IdentityLogEventV1, UnsignedIdentityLogEventV1,
};
use identity_log::log::payload::IdentityLogEventPayloadV1;
use identity_log::log::wire_line::IDENTITY_LOG_WIRE_VERSION;
use identity_log::persistence::error::IdentityPersistenceError;
use identity_log::persistence::head::IdentityLogSnapshot;
use identity_log::persistence::session::{
    device_session_proof_input, validate_audience, DeviceSessionCompletionCommand,
    DeviceSessionCredential, DeviceSessionOutcome, DEVICE_SESSION_NONCE_HASH_DOMAIN,
};
use identity_log::persistence::session_decision::{
    DeviceSessionRepository, SessionChallengeRow, SessionClaimRow, SessionReceiptRow, SessionRow,
};
use identity_log::wire::digest::Sha256Digest;
use identity_log::wire::id::{
    DeviceId, DeviceSessionChallengeId, DeviceSessionId, IdentityId,
};
use identity_log::wire::key::{DeviceEncryptionPublicKey, Ed25519Signature, SigningPublicKey};
use identity_log::wire::number::{SafeUint, UtcMillis};
use uuid::Uuid;

const DEVICE_A: &str = "0190f2a5-7b1c-7abc-8def-0123456789ab";
const DEVICE_B: &str = "0190f2a5-7b1c-7abc-8def-0123456789ac";

fn signing_key(seed: u8) -> SigningKey {
    SigningKey::from_bytes(&[seed; 32])
}

fn public_key(key: &SigningKey) -> SigningPublicKey {
    SigningPublicKey::try_from(key.verifying_key().to_bytes()).unwrap()
}

fn signature(key: &SigningKey, input: &[u8]) -> Ed25519Signature {
    Ed25519Signature::from_bytes(key.sign(input).to_bytes())
}

fn safe(value: u64) -> SafeUint {
    SafeUint::new(value).unwrap()
}

fn timestamp(value: i64) -> UtcMillis {
    UtcMillis::new(value).unwrap()
}

fn device_id(value: &str) -> DeviceId {
    DeviceId::from_text(value).unwrap()
}

fn signed_event(
    signer: &SigningKey,
    identity_id: IdentityId,
    sequence: u64,
    previous_event_hash: Option<Sha256Digest>,
    occurred_at: i64,
    payload: IdentityLogEventPayloadV1,
) -> IdentityLogEventV1 {
    let unsigned = UnsignedIdentityLogEventV1::new(
        IDENTITY_LOG_WIRE_VERSION,
        identity_id,
        safe(sequence),
        previous_event_hash,
        timestamp(occurred_at),
        payload,
        public_key(signer),
    )
    .unwrap();
    let input = identity_log_signature_input(unsigned.signing_digest().unwrap());
    IdentityLogEventV1::signed(unsigned, signature(signer, &input)).unwrap()
}

fn genesis() -> IdentityLogEventV1 {
    let root = signing_key(1);
    let recovery = signing_key(2);
    let identity_id = IdentityId::derive(public_key(&root).as_domain_key());
    let acceptance = signature(
        &recovery,
        &genesis_recovery_acceptance_input(identity_id, public_key(&root), public_key(&recovery))
            .unwrap(),
    );
    signed_event(
        &root,
        identity_id,
        1,
        None,
        1_000,
        IdentityLogEventPayloadV1::Genesis {
            root_signing_key: public_key(&root),
            recovery_signing_key: public_key(&recovery),
            recovery_acceptance_signature: acceptance,
        },
    )
}

fn device_add(previous: &IdentityLogEventV1, device: &SigningKey, id: &str) -> IdentityLogEventV1 {
    let root = signing_key(1);
    let identity_id = previous.identity_id();
    let unsigned = UnsignedDeviceCertificateV1::new(
        IDENTITY_LOG_WIRE_VERSION,
        identity_id,
        device_id(id),
        public_key(device),
        encryption_key(31),
        public_key(&root),
        timestamp(1_050),
    )
    .unwrap();
    let input = device_certificate_signature_input(unsigned.signing_digest().unwrap());
    let certificate = DeviceCertificateV1::signed(unsigned, signature(&root, &input)).unwrap();
    signed_event(
        &root,
        identity_id,
        previous.sequence().get() + 1,
        Some(previous.entry_hash().unwrap()),
        1_100,
        IdentityLogEventPayloadV1::DeviceAdd { certificate },
    )
}

fn encryption_key(seed: u8) -> DeviceEncryptionPublicKey {
    DeviceEncryptionPublicKey::try_from([seed; 32]).unwrap()
}

fn snapshot(events: &[&IdentityLogEventV1]) -> IdentityLogSnapshot {
    IdentityLogSnapshot::replay(
        events
            .iter()
            .map(|event| event.to_deterministic_cbor().unwrap())
            .collect(),
    )
    .unwrap()
}

fn digest(seed: u8) -> Sha256Digest {
    Sha256Digest::from_bytes([seed; 32])
}

const AUDIENCE: &str = "https://identity.example";

fn session_id() -> DeviceSessionId {
    DeviceSessionId::from_uuid_bytes(*device_id(DEVICE_B).as_uuid_bytes()).unwrap()
}

fn challenge_id() -> DeviceSessionChallengeId {
    DeviceSessionChallengeId::from_uuid_bytes(*device_id(DEVICE_B).as_uuid_bytes()).unwrap()
}

fn log_with_device() -> IdentityLogSnapshot {
    let first = genesis();
    let add = device_add(&first, &signing_key(3), DEVICE_A);
    snapshot(&[&first, &add])
}

fn completion(
    idempotency: u8,
    audience: &str,
    signer: &SigningKey,
) -> DeviceSessionCompletionCommand {
    let identity = genesis().identity_id();
    let secret_hash = DeviceSessionCredential::new(session_id(), [7; 32])
        .unwrap()
        .secret_hash();
    let input = device_session_proof_input(
        identity,
        device_id(DEVICE_A),
        challenge_id(),
        &[5; 32],
        audience,
        session_id(),
        secret_hash,
        timestamp(901_000),
    )
    .unwrap();
    DeviceSessionCompletionCommand::new(
        digest(idempotency),
        identity,
        device_id(DEVICE_A),
        challenge_id(),
        session_id(),
        [5; 32],
        [7; 32],
        signature(signer, &input),
    )
    .unwrap()
}

fn challenge_row() -> SessionChallengeRow {
    SessionChallengeRow {
        nonce_hash: Sha256Digest::hash_domain(DEVICE_SESSION_NONCE_HASH_DOMAIN, &[5; 32])
            .as_bytes()
            .to_vec(),
        audience: AUDIENCE.to_owned(),
        state: "open".to_owned(),
        expires_at_ms: 301_000,
        session_expires_at_ms: 901_000,
    }
}

#[test]
fn database_secret_hash_is_fixed_and_redacted() {
    let credential = DeviceSessionCredential::new(
        DeviceSessionId::from_uuid_bytes(*Uuid::now_v7().as_bytes()).unwrap(),
        [7; 32],
    )
    .unwrap();
    let first = credential.database_secret_hash();
    let second = credential.database_secret_hash();
    assert!(first == second);
    assert_eq!(first.for_database_binding(), second.for_database_binding());
    let debug = first.redacted();
    assert!(debug.contains("REDACTED"));
    assert!(!debug.contains('7'));
}

#[test]
fn challenge_is_issued_to_an_active_device_at_intervals() {
    let repository = DeviceSessionRepository;
    let log = Ok(log_with_device());
    let issue = |device: &str, nonce: u8, audience: &str, last: Option<i64>| {
        repository.issue_challenge(
            challenge_id(),
            genesis().identity_id(),
            device_id(device),
            [nonce; 32],
            audience,
            &log,
            last,
            timestamp(1_000),
        )
    };
    let (challenge, nonce_hash) = issue(DEVICE_A, 5, AUDIENCE, None).ok().unwrap();
    assert_eq!(challenge.expires_at(), timestamp(301_000));
    assert_eq!(challenge.session_expires_at(), timestamp(901_000));
    assert_eq!(challenge.nonce(), &[5; 32]);
    assert_eq!(nonce_hash.as_bytes().to_vec(), challenge_row().nonce_hash);
    assert!(issue(DEVICE_A, 5, AUDIENCE, Some(-4_000)).is_ok());
    assert_eq!(
        issue(DEVICE_A, 5, AUDIENCE, Some(-3_999)).err(),
        Some(IdentityPersistenceError::DeviceSessionChallengeRateLimited)
    );
    assert_eq!(
        issue(DEVICE_B, 5, AUDIENCE, None).err(),
        Some(IdentityPersistenceError::DeviceAuthenticationRejected)
    );
    assert_eq!(
        issue(DEVICE_A, 0, AUDIENCE, None).err(),
        Some(IdentityPersistenceError::InvalidCommand(
            "device session challenge nonce cannot be all zero"
        ))
    );
    assert_eq!(
        issue(DEVICE_A, 5, "has space", None).err(),
        Some(IdentityPersistenceError::InvalidCommand("device session audience"))
    );
    assert_eq!(
        repository.validate_challenge(&[5; 32], AUDIENCE, timestamp(1_000)),
        Ok((timestamp(301_000), timestamp(901_000)))
    );
    assert_eq!(
        repository.validate_challenge(&[0; 32], AUDIENCE, timestamp(1_000)),
        Err(IdentityPersistenceError::InvalidCommand(
            "device session challenge nonce cannot be all zero"
        ))
    );
    assert!(validate_audience(AUDIENCE).is_ok());
    assert!(validate_audience("").is_err());
}

#[test]
fn completion_needs_an_open_challenge_and_the_device_proof() {
    let repository = DeviceSessionRepository;
    let log = log_with_device();
    let device = signing_key(3);
    let complete = |command: &DeviceSessionCompletionCommand, row: SessionChallengeRow, now: i64| {
        repository.complete(command, &Some(row), &log, timestamp(now))
    };
    let outcome = complete(&completion(1, AUDIENCE, &device), challenge_row(), 2_000).unwrap();
    let receipt = match &outcome {
        DeviceSessionOutcome::Issued(receipt) => receipt,
        DeviceSessionOutcome::Replayed(_) => panic!("nothing was stored"),
    };
    assert_eq!(receipt.issued_head(), log.head());
    assert_eq!(receipt.issued_at(), timestamp(2_000));
    assert_eq!(receipt.expires_at(), timestamp(901_000));
    assert!(receipt
        .verify_exact_bytes(receipt.exact_bytes(), receipt.receipt_digest())
        .is_ok());
    assert_eq!(
        receipt.verify_exact_bytes(&[1], receipt.receipt_digest()),
        Err(IdentityPersistenceError::ReceiptIntegrity)
    );

    assert_eq!(
        complete(&completion(1, AUDIENCE, &device), challenge_row(), 301_000),
        Err(IdentityPersistenceError::DeviceSessionChallengeExpired)
    );
    let mut consumed = challenge_row();
    consumed.state = "consumed".to_owned();
    assert_eq!(
        complete(&completion(1, AUDIENCE, &device), consumed, 2_000),
        Err(IdentityPersistenceError::DeviceSessionChallengeConsumed)
    );
    assert_eq!(
        complete(&completion(1, AUDIENCE, &signing_key(4)), challenge_row(), 2_000),
        Err(IdentityPersistenceError::DeviceAuthenticationRejected)
    );
    assert_eq!(
        complete(&completion(1, "https://other.example", &device), challenge_row(), 2_000),
        Err(IdentityPersistenceError::DeviceAuthenticationRejected)
    );
    assert_eq!(
        repository.complete(&completion(1, AUDIENCE, &device), &None, &log, timestamp(2_000)),
        Err(IdentityPersistenceError::DeviceAuthenticationRejected)
    );
    assert!(repository.confirm_consumed(1).is_ok());
    assert!(repository.confirm_consumed(0).is_err());
}

#[test]
fn completion_is_replayed_to_the_same_receipt() {
    let repository = DeviceSessionRepository;
    let log = log_with_device();
    let command = completion(1, AUDIENCE, &signing_key(3));
    let outcome = repository
        .complete(&command, &Some(challenge_row()), &log, timestamp(2_000))
        .unwrap();
    let receipt = outcome.receipt();
    let claim = || SessionClaimRow {
        identity_id: command.identity_id().to_text(),
        device_id: *command.device_id().as_uuid_bytes(),
        challenge_id: *command.challenge_id().as_uuid_bytes(),
        session_id: *command.session_id().as_uuid_bytes(),
        request_digest: command.request_digest().unwrap().as_bytes().to_vec(),
    };
    let stored = || SessionReceiptRow {
        identity_id: receipt.identity_id().to_text(),
        device_id: *receipt.device_id().as_uuid_bytes(),
        session_id: *receipt.session_id().as_uuid_bytes(),
        issued_head_sequence: receipt.issued_head().sequence().get() as i64,
        issued_head_hash: receipt.issued_head().hash().as_bytes().to_vec(),
        issued_at_ms: receipt.issued_at().get(),
        expires_at_ms: receipt.expires_at().get(),
        receipt_bytes: receipt.exact_bytes().to_vec(),
        receipt_digest: receipt.receipt_digest().as_bytes().to_vec(),
    };
    let replayed = repository
        .replay_completion(&command, &claim(), &Some(stored()))
        .unwrap();
    assert!(matches!(replayed, DeviceSessionOutcome::Replayed(_)));
    assert_eq!(replayed.receipt(), receipt);

    assert_eq!(
        repository.replay_completion(&command, &claim(), &None),
        Err(IdentityPersistenceError::IncompleteCommand)
    );
    let mut tampered = stored();
    tampered.receipt_bytes[0] ^= 1;
    assert_eq!(
        repository.replay_completion(&command, &claim(), &Some(tampered)),
        Err(IdentityPersistenceError::ReceiptIntegrity)
    );
    let mut conflicting = claim();
    conflicting.request_digest = vec![9; 32];
    assert_eq!(
        repository.replay_completion(&command, &conflicting, &Some(stored())),
        Err(IdentityPersistenceError::IdempotencyConflict)
    );
}

#[test]
fn session_opens_with_its_secret_until_it_expires() {
    let repository = DeviceSessionRepository;
    let credential = DeviceSessionCredential::new(session_id(), [7; 32]).ok().unwrap();
    let row = || SessionRow {
        identity_id: genesis().identity_id().to_text(),
        device_id: *device_id(DEVICE_A).as_uuid_bytes(),
        session_secret_hash: credential.secret_hash().as_bytes().to_vec(),
        expires_at_ms: 2_000,
    };
    let opened = repository
        .open_session(&credential, &Some(row()), timestamp(1_999))
        .unwrap();
    assert_eq!(opened.device_id(), device_id(DEVICE_A));
    assert_eq!(
        repository.open_session(&credential, &Some(row()), timestamp(2_000)),
        Err(IdentityPersistenceError::DeviceAuthenticationRejected)
    );
    let wrong = DeviceSessionCredential::new(session_id(), [8; 32]).ok().unwrap();
    assert_eq!(
        repository.open_session(&wrong, &Some(row()), timestamp(1_999)),
        Err(IdentityPersistenceError::DeviceAuthenticationRejected)
    );
    let mut short = row();
    short.session_secret_hash.pop();
    assert_eq!(
        repository.open_session(&credential, &Some(short), timestamp(1_999)),
        Err(IdentityPersistenceError::CorruptData("device session secret hash"))
    );
    assert!(DeviceSessionCredential::new(session_id(), [0; 32]).is_err());

    let log = log_with_device();
    let authenticated = repository
        .authenticate_with_signing_key_in_transaction(opened, &log)
        .unwrap();
    assert_eq!(authenticated.signing_key(), public_key(&signing_key(3)));
    assert_eq!(
        repository.authenticate_in_transaction(opened, &snapshot(&[&genesis()])),
        Err(IdentityPersistenceError::DeviceAuthenticationRejected)
    );
}

#[test]
fn wiping_a_credential_leaves_nothing_of_its_secret() {
    let mut credential = DeviceSessionCredential::new(session_id(), [7; 32]).ok().unwrap();
    let before = credential.secret_hash();
    credential.zeroize();
    assert_ne!(credential.secret_hash(), before);
}
