//! Recovery-scope catalogs.

use ed25519_dalek::{Signer, SigningKey};
use identity_log::log::authority::genesis_recovery_acceptance_input;
use identity_log::log::certificate::{
    device_certificate_signature_input, DeviceCertificateV1, UnsignedDeviceCertificateV1,
};
use identity_log::log::event::{
    identity_log_signature_input, IdentityLogEventV1, UnsignedIdentityLogEventV1,
};
use identity_log::log::payload::IdentityLogEventPayloadV1;
use identity_log::log::wire_line::IDENTITY_LOG_WIRE_VERSION;
use identity_log::persistence::enrollment_command::DeviceEnrollmentCapability;
use identity_log::persistence::error::IdentityPersistenceError;
use identity_log::persistence::head::{IdentityLogHead, IdentityLogSnapshot};
use identity_log::persistence::recovery_catalog::{
    read_linked_challenge, CatalogPreparationCommand, CatalogProviderResponseCommand,
    CatalogStatus, CatalogStatusInvalidation, CatalogUploadCommand, CurrentCatalogRow,
    LinkedChallengeRow, StoredPreparationRow,
};
use identity_log::persistence::recovery_catalog_decision::{
    LatestRow, PreparedRow, PublishInputs, PublishedRow, RecoveryScopeCatalogRepository,
    ResponseInputs,
};
use identity_log::persistence::session::{
    AuthenticatedDeviceSigningSession, DeviceSessionCredential,
};
use identity_log::persistence::session_decision::{DeviceSessionRepository, SessionRow};
use identity_log::wire::digest::Sha256Digest;
use identity_log::wire::id::{DeviceEnrollmentChallengeId, DeviceId, DeviceSessionId, IdentityId};
use identity_log::wire::key::{DeviceEncryptionPublicKey, Ed25519Signature, SigningPublicKey};
use identity_log::wire::number::{SafeUint, UtcMillis};

const DEVICE_A: &str = "0190f2a5-7b1c-7abc-8def-0123456789ab";
const DEVICE_B: &str = "0190f2a5-7b1c-7abc-8def-0123456789ac";

fn signing_key(seed: u8) -> SigningKey {
    SigningKey::from_bytes(&[seed; 32])
}

fn public_key(key: &SigningKey) -> SigningPublicKey {
    SigningPublicKey::try_from(key.verifying_key().to_bytes()).unwrap()
}

fn signature(key: &SigningKey, input: &[u8]) -> Ed25519Signature {
    Ed25519Signature::from_bytes(key.sign(input).to_bytes())
}

fn safe(value: u64) -> SafeUint {
    SafeUint::new(value).unwrap()
}

fn timestamp(value: i64) -> UtcMillis {
    UtcMillis::new(value).unwrap()
}

fn device_id(value: &str) -> DeviceId {
    DeviceId::from_text(value).unwrap()
}

fn signed_event(
    signer: &SigningKey,
    identity_id: IdentityId,
    sequence: u64,
    previous_event_hash: Option<Sha256Digest>,
    occurred_at: i64,
    payload: IdentityLogEventPayloadV1,
) -> IdentityLogEventV1 {
    let unsigned = UnsignedIdentityLogEventV1::new(
        IDENTITY_LOG_WIRE_VERSION,
        identity_id,
        safe(sequence),
        previous_event_hash,
        timestamp(occurred_at),
        payload,
        public_key(signer),
    )
    .unwrap();
    let input = identity_log_signature_input(unsigned.signing_digest().unwrap());
    IdentityLogEventV1::signed(unsigned, signature(signer, &input)).unwrap()
}

fn genesis() -> IdentityLogEventV1 {
    let root = signing_key(1);
    let recovery = signing_key(2);
    let identity_id = IdentityId::derive(public_key(&root).as_domain_key());
    let acceptance = signature(
        &recovery,
        &genesis_recovery_acceptance_input(identity_id, public_key(&root), public_key(&recovery))
            .unwrap(),
    );
    signed_event(
        &root,
        identity_id,
        1,
        None,
        1_000,
        IdentityLogEventPayloadV1::Genesis {
            root_signing_key: public_key(&root),
            recovery_signing_key: public_key(&recovery),
            recovery_acceptance_signature: acceptance,
        },
    )
}

fn device_add(previous: &IdentityLogEventV1, device: &SigningKey, id: &str) -> IdentityLogEventV1 {
    let root = signing_key(1);
    let identity_id = previous.identity_id();
    let unsigned = UnsignedDeviceCertificateV1::new(
        IDENTITY_LOG_WIRE_VERSION,
        identity_id,
        device_id(id),
        public_key(device),
        encryption_key(if id == DEVICE_A { 30 } else { 31 }),
        public_key(&root),
        timestamp(1_050),
    )
    .unwrap();
    let input = device_certificate_signature_input(unsigned.signing_digest().unwrap());
    let certificate = DeviceCertificateV1::signed(unsigned, signature(&root, &input)).unwrap();
    signed_event(
        &root,
        identity_id,
        previous.sequence().get() + 1,
        Some(previous.entry_hash().unwrap()),
        1_100,
        IdentityLogEventPayloadV1::DeviceAdd { certificate },
    )
}

fn encryption_key(seed: u8) -> DeviceEncryptionPublicKey {
    DeviceEncryptionPublicKey::try_from([seed; 32]).unwrap()
}

fn snapshot(events: &[&IdentityLogEventV1]) -> IdentityLogSnapshot {
    IdentityLogSnapshot::replay(
        events
            .iter()
            .map(|event| event.to_deterministic_cbor().unwrap())
            .collect(),
    )
    .unwrap()
}

fn digest(seed: u8) -> Sha256Digest {
    Sha256Digest::from_bytes([seed; 32])
}

const REQUEST: &str = "0190f2a5-7b1c-7abc-8def-0123456789ad";
const AUTHORITY_DOMAIN: &str = "authority\0";
const RECIPIENT_DOMAIN: &str = "recipient\0";
const CATALOG: [u8; 16] = [9; 16];
const REPOSITORY: RecoveryScopeCatalogRepository = RecoveryScopeCatalogRepository;

fn request_id() -> DeviceEnrollmentChallengeId {
    DeviceEnrollmentChallengeId::from_text(REQUEST).unwrap()
}

/// The log around the candidate's enrollment.
struct Log {
    identity_id: IdentityId,
    events: Vec<Vec<u8>>,
    before: IdentityLogHead,
    after: IdentityLogHead,
}

impl Log {
    fn new() -> Self {
        let first = genesis();
        let authority = device_add(&first, &signing_key(3), DEVICE_A);
        let candidate = device_add(&authority, &signing_key(4), DEVICE_B);
        Log {
            identity_id: first.identity_id(),
            events: [&first, &authority, &candidate]
                .iter()
                .map(|event| event.to_deterministic_cbor().unwrap())
                .collect(),
            before: snapshot(&[&first, &authority]).head(),
            after: snapshot(&[&first, &authority, &candidate]).head(),
        }
    }

    /// The log with the authority in it.
    fn before(&self) -> IdentityLogSnapshot {
        IdentityLogSnapshot::replay(self.events[..2].to_vec()).unwrap()
    }

    /// The log with the candidate in it too.
    fn after(&self) -> IdentityLogSnapshot {
        IdentityLogSnapshot::replay(self.events.clone()).unwrap()
    }
}

fn signing_session(
    log: &Log,
    device: &str,
    snapshot: &IdentityLogSnapshot,
) -> AuthenticatedDeviceSigningSession {
    let credential =
        DeviceSessionCredential::new(DeviceSessionId::from_text(DEVICE_A).unwrap(), [7; 32])
            .ok()
            .unwrap();
    let row = SessionRow {
        identity_id: log.identity_id.to_text(),
        device_id: *device_id(device).as_uuid_bytes(),
        session_secret_hash: credential.secret_hash().as_bytes().to_vec(),
        expires_at_ms: 1_000_000,
    };
    let opened = DeviceSessionRepository
        .open_session(&credential, &Some(row), timestamp(1_000))
        .unwrap();
    DeviceSessionRepository
        .authenticate_with_signing_key_in_transaction(opened, snapshot)
        .unwrap()
}

fn upload(log: &Log, generation: u64, previous: Option<Sha256Digest>) -> CatalogUploadCommand {
    CatalogUploadCommand {
        identity_id: log.identity_id,
        catalog_id: CATALOG,
        generation: safe(generation),
        previous_head_digest: previous,
        leaf_count: safe(1),
        merkle_root: digest(1),
        ciphertext_digest: digest(2),
        observed_head: log.before,
        issued_at: timestamp(1_000),
        expires_at: timestamp(100_000),
        signature: Ed25519Signature::from_bytes([0; 64]),
        head_bytes: vec![1, 2, 3],
        head_digest: digest(3),
        encrypted_catalog: vec![4],
        upload_digest: digest(4),
        idempotency_key_hash: digest(5),
    }
}

fn publish_inputs(log: &Log) -> PublishInputs {
    PublishInputs {
        authenticated: Ok(signing_session(log, DEVICE_A, &log.before())),
        signature: Ok(()),
        snapshot: Ok(log.before()),
        published: None,
        latest: None,
    }
}

#[test]
fn generations_are_consecutive() {
    let log = &Log::new();
    let publish = |command: CatalogUploadCommand, latest: Option<(i64, u8)>| {
        let mut inputs = publish_inputs(log);
        inputs.latest = latest.map(|(generation, seed)| LatestRow {
            generation,
            head_digest: vec![seed; 32],
        });
        REPOSITORY
            .publish(&command, &inputs, timestamp(2_000))
            .map(|outcome| (outcome.created, outcome.exact_head_bytes))
    };
    let conflict = Err(IdentityPersistenceError::RecoveryCatalogConflict);
    let created = Ok((true, vec![1, 2, 3]));
    assert_eq!(publish(upload(log, 1, None), None), created);
    assert_eq!(publish(upload(log, 2, None), None), conflict);
    assert_eq!(publish(upload(log, 1, Some(digest(3))), None), conflict);
    assert_eq!(publish(upload(log, 2, Some(digest(3))), Some((1, 3))), created);
    assert_eq!(publish(upload(log, 3, Some(digest(3))), Some((1, 3))), conflict);
    assert_eq!(publish(upload(log, 2, Some(digest(4))), Some((1, 3))), conflict);
    assert_eq!(publish(upload(log, 2, None), Some((1, 3))), conflict);
    assert_eq!(publish(upload(log, 1, None), Some((-1, 3))), conflict);
}

#[test]
fn generation_is_published_once_and_replayed() {
    let log = &Log::new();
    let publish = |inputs: PublishInputs, now: i64| {
        REPOSITORY
            .publish(&upload(log, 1, None), &inputs, timestamp(now))
            .map(|outcome| (outcome.created, outcome.exact_head_bytes))
    };
    let published = |generation: i64, seed: u8| {
        let mut inputs = publish_inputs(log);
        inputs.published = Some(PublishedRow {
            generation,
            upload_digest: vec![seed; 32],
            head_bytes: vec![8],
        });
        inputs
    };
    assert_eq!(publish(published(1, 4), 2_000), Ok((false, vec![8])));
    let conflict = Err(IdentityPersistenceError::IdempotencyConflict);
    assert_eq!(publish(published(2, 4), 2_000), conflict);
    assert_eq!(publish(published(1, 5), 2_000), conflict);
    assert_eq!(
        publish(publish_inputs(log), 999),
        Err(IdentityPersistenceError::InvalidCommand("catalog expiry"))
    );
    assert_eq!(
        publish(publish_inputs(log), 100_000),
        Err(IdentityPersistenceError::RecoveryCatalogExpired)
    );
    let mut unsigned = publish_inputs(log);
    unsigned.signature = Err(IdentityPersistenceError::InvalidCommand("signature"));
    assert_eq!(
        publish(unsigned, 2_000),
        Err(IdentityPersistenceError::InvalidCommand("signature"))
    );
    let command = upload(log, 1, None);
    assert_eq!(REPOSITORY.admit_upload(&command, timestamp(2_000)), Ok(()));
    assert_eq!(
        REPOSITORY.admit_upload(&command, timestamp(100_000)),
        Err(IdentityPersistenceError::RecoveryCatalogExpired)
    );
    let author = signing_session(log, DEVICE_A, &log.before());
    assert_eq!(REPOSITORY.admit_author(&command, &author), Ok(()));
    let mut moved = publish_inputs(log);
    moved.snapshot = Ok(log.after());
    assert_eq!(
        publish(moved, 2_000),
        Err(IdentityPersistenceError::HeadConflict {
            current: Some(log.after)
        })
    );
}

fn capability() -> DeviceEnrollmentCapability {
    DeviceEnrollmentCapability::new([6; 32]).ok().unwrap()
}

fn preparation_command(log: &Log) -> CatalogPreparationCommand {
    CatalogPreparationCommand {
        request_id: request_id(),
        identity_id: log.identity_id,
        catalog_id: CATALOG,
        candidate_device_id: device_id(DEVICE_B),
        candidate_signing_key: public_key(&signing_key(4)),
        candidate_recipient_key: encryption_key(31),
        observed_head: log.before,
        candidate_nonce: [8; 32],
        issued_at: timestamp(1_000),
        expires_at: timestamp(50_000),
        response_capability_hash: digest(12),
        enrollment_capability: capability(),
        candidate_signature: Ed25519Signature::from_bytes([0; 64]),
        exact_bytes: vec![5, 5],
        digest: digest(13),
        idempotency_key_hash: digest(14),
    }
}

fn challenge_row(log: &Log, state: &str) -> LinkedChallengeRow {
    let approved = state == "approved";
    let head = log.after;
    LinkedChallengeRow {
        identity_id: log.identity_id.to_text(),
        approved_head_sequence: approved.then_some(head.sequence().get() as i64),
        approved_head_hash: approved.then_some(head.hash().as_bytes().to_vec()),
        candidate_device_id: *device_id(DEVICE_B).as_uuid_bytes(),
        candidate_signing_key: public_key(&signing_key(4)).as_bytes().to_vec(),
        candidate_recipient_key: vec![31; 32],
        capability_hash: capability().hash().as_bytes().to_vec(),
        state: state.to_owned(),
        expires_at_ms: 60_000,
        protocol_version: 1,
        approver_device_id: approved.then_some(*device_id(DEVICE_A).as_uuid_bytes()),
    }
}

fn current_row(log: &Log) -> CurrentCatalogRow {
    let head = log.before;
    CurrentCatalogRow {
        catalog_id: CATALOG,
        generation: 1,
        head_digest: vec![3; 32],
        observed_head_sequence: head.sequence().get() as i64,
        observed_head_hash: head.hash().as_bytes().to_vec(),
        authority_device_id: *device_id(DEVICE_A).as_uuid_bytes(),
        authority_signing_key: public_key(&signing_key(3)).as_bytes().to_vec(),
        expires_at_ms: 100_000,
    }
}

fn preparation_row(log: &Log) -> StoredPreparationRow {
    let head = log.before;
    StoredPreparationRow {
        identity_id: log.identity_id.to_text(),
        catalog_id: CATALOG,
        candidate_device_id: *device_id(DEVICE_B).as_uuid_bytes(),
        candidate_signing_key: public_key(&signing_key(4)).as_bytes().to_vec(),
        candidate_recipient_key: vec![31; 32],
        observed_head_sequence: head.sequence().get() as i64,
        observed_head_hash: head.hash().as_bytes().to_vec(),
        expires_at_ms: 50_000,
        response_capability_hash: vec![12; 32],
        enrollment_capability_hash: capability().hash().as_bytes().to_vec(),
        catalog_generation: 1,
        catalog_head_digest: vec![3; 32],
        authority_device_id: *device_id(DEVICE_A).as_uuid_bytes(),
        authority_signing_key: public_key(&signing_key(3)).as_bytes().to_vec(),
        provider_response: None,
        provider_idempotency_key_hash: None,
    }
}

fn prepare(
    log: &Log,
    command: &CatalogPreparationCommand,
    challenge: LinkedChallengeRow,
    prepared: Option<PreparedRow>,
    current: Option<CurrentCatalogRow>,
    now: i64,
) -> Result<(bool, CatalogStatus), IdentityPersistenceError> {
    let challenge = read_linked_challenge(&challenge).unwrap();
    REPOSITORY
        .prepare(
            command,
            log.identity_id,
            &log.before(),
            &challenge,
            &prepared,
            &Some(preparation_row(log)),
            &current,
            timestamp(now),
        )
        .map(|preparation| (preparation.frozen.is_some(), preparation.outcome.status))
}

#[test]
fn preparation_freezes_catalog_and_head() {
    let log = &Log::new();
    let command = preparation_command(log);
    let run = |challenge: LinkedChallengeRow, current: CurrentCatalogRow, now: i64| {
        prepare(log, &command, challenge, None, Some(current), now)
    };
    assert_eq!(
        run(challenge_row(log, "open"), current_row(log), 2_000),
        Ok((true, CatalogStatus::Pending))
    );
    assert_eq!(
        run(challenge_row(log, "open"), current_row(log), 999),
        Err(IdentityPersistenceError::InvalidCommand("preparation issuance"))
    );
    assert_eq!(
        run(challenge_row(log, "open"), current_row(log), 50_000),
        Err(IdentityPersistenceError::RecoveryPreparationExpired)
    );
    assert_eq!(
        run(challenge_row(log, "cancelled"), current_row(log), 2_000),
        Err(IdentityPersistenceError::RecoveryPreparationRevoked)
    );
    let mut short = challenge_row(log, "open");
    short.expires_at_ms = 49_999;
    assert_eq!(
        run(short, current_row(log), 2_000),
        Err(IdentityPersistenceError::InvalidCommand("preparation exceeds enrollment expiry"))
    );
    let mut stranger = challenge_row(log, "open");
    stranger.candidate_signing_key = public_key(&signing_key(5)).as_bytes().to_vec();
    assert_eq!(
        run(stranger, current_row(log), 2_000),
        Err(IdentityPersistenceError::RecoveryCandidateKeyChanged)
    );
    let mut locked = challenge_row(log, "open");
    locked.capability_hash = vec![1; 32];
    assert_eq!(
        run(locked, current_row(log), 2_000),
        Err(IdentityPersistenceError::DeviceEnrollmentCapabilityRejected)
    );
    assert_eq!(
        prepare(log, &command, challenge_row(log, "open"), None, None, 2_000),
        Err(IdentityPersistenceError::RecoveryCatalogHeadChanged)
    );
    let mut expired = current_row(log);
    expired.expires_at_ms = 2_000;
    assert_eq!(
        run(challenge_row(log, "open"), expired, 2_000),
        Err(IdentityPersistenceError::RecoveryCatalogExpired)
    );
    let mut brief = current_row(log);
    brief.expires_at_ms = 49_999;
    assert_eq!(
        run(challenge_row(log, "open"), brief, 2_000),
        Err(IdentityPersistenceError::InvalidCommand("preparation exceeds catalog expiry"))
    );
    let mut inactive = current_row(log);
    inactive.authority_device_id = *device_id(DEVICE_B).as_uuid_bytes();
    assert_eq!(
        run(challenge_row(log, "open"), inactive, 2_000),
        Err(IdentityPersistenceError::RecoveryAuthorityChanged)
    );
    let mut other = current_row(log);
    other.catalog_id = [1; 16];
    assert_eq!(
        run(challenge_row(log, "open"), other, 2_000),
        Err(IdentityPersistenceError::RecoveryCatalogHeadChanged)
    );
    let mut broken = current_row(log);
    broken.head_digest.pop();
    assert_eq!(
        run(challenge_row(log, "open"), broken, 2_000),
        Err(IdentityPersistenceError::CorruptData("fixed bytes"))
    );
}

#[test]
fn preparation_is_replayed_exactly() {
    let log = &Log::new();
    let command = preparation_command(log);
    let run = |seed: u8, bytes: Vec<u8>| {
        let prepared = PreparedRow {
            preparation_digest: vec![seed; 32],
            preparation_bytes: bytes,
        };
        prepare(
            log,
            &command,
            challenge_row(log, "open"),
            Some(prepared),
            Some(current_row(log)),
            2_000,
        )
    };
    assert_eq!(run(13, vec![5, 5]), Ok((false, CatalogStatus::Pending)));
    let conflict = Err(IdentityPersistenceError::IdempotencyConflict);
    assert_eq!(run(13, vec![5]), conflict);
    assert_eq!(run(12, vec![5, 5]), conflict);
}

fn response(device: &str, key: &SigningKey) -> CatalogProviderResponseCommand {
    CatalogProviderResponseCommand {
        request_id: request_id(),
        provider_device_id: device_id(device),
        provider_signing_key: public_key(key),
        catalog_head_digest: digest(3),
        current_authority_digest: Sha256Digest::hash_domain(
            AUTHORITY_DOMAIN,
            public_key(&signing_key(3)).as_bytes(),
        ),
        recipient_key_digest: Sha256Digest::hash_domain(RECIPIENT_DOMAIN, &[31; 32]),
        ciphertext_digest: digest(20),
        expires_at: timestamp(40_000),
        exact_bytes: vec![1, 1],
        digest: digest(21),
        idempotency_key_hash: digest(22),
    }
}

fn response_inputs(log: &Log, device: &str, approved: bool) -> ResponseInputs {
    let snapshot = if approved { log.after() } else { log.before() };
    ResponseInputs {
        authenticated: Ok(signing_session(log, device, &snapshot)),
        snapshot: Ok(snapshot),
        challenge: Some(challenge_row(log, if approved { "approved" } else { "open" })),
        preparation: Some(preparation_row(log)),
        current: Some(current_row(log)),
        authority_key_domain: AUTHORITY_DOMAIN.to_owned(),
        recipient_key_domain: RECIPIENT_DOMAIN.to_owned(),
    }
}

fn respond(
    command: &CatalogProviderResponseCommand,
    inputs: &ResponseInputs,
    now: i64,
) -> Result<bool, IdentityPersistenceError> {
    REPOSITORY
        .put_provider_response(command, inputs, timestamp(now))
        .map(|decision| {
            assert_eq!(decision.outcome.status, CatalogStatus::ResponseAvailable);
            assert_eq!(decision.outcome.provider_response, Some(command.exact_bytes.clone()));
            decision.records
        })
}

#[test]
fn response_is_immutable() {
    let log = &Log::new();
    let authority = response(DEVICE_A, &signing_key(3));
    let answered = |seed: u8, bytes: Vec<u8>| {
        let mut inputs = response_inputs(log, DEVICE_A, false);
        let row = inputs.preparation.as_mut().unwrap();
        row.provider_response = Some(bytes);
        row.provider_idempotency_key_hash = Some(vec![seed; 32]);
        inputs
    };
    assert_eq!(respond(&authority, &response_inputs(log, DEVICE_A, false), 2_000), Ok(true));
    assert_eq!(respond(&authority, &answered(22, vec![1, 1]), 2_000), Ok(false));
    let conflict = Err(IdentityPersistenceError::RecoveryPreparationConflict);
    assert_eq!(respond(&authority, &answered(22, vec![1]), 2_000), conflict);
    assert_eq!(respond(&authority, &answered(23, vec![1, 1]), 2_000), conflict);
}

#[test]
fn only_allowed_providers_answer() {
    let log = &Log::new();
    let candidate = response(DEVICE_B, &signing_key(4));
    assert_eq!(respond(&candidate, &response_inputs(log, DEVICE_B, true), 2_000), Ok(true));
    let authority = response(DEVICE_A, &signing_key(3));
    assert_eq!(respond(&authority, &response_inputs(log, DEVICE_A, true), 2_000), Ok(true));
    let mut foreign = response_inputs(log, DEVICE_B, true);
    foreign.challenge = Some(challenge_row(log, "open"));
    assert_eq!(
        respond(&candidate, &foreign, 2_000),
        Err(IdentityPersistenceError::RecoveryPreparationInvalidated)
    );
    assert_eq!(
        respond(&candidate, &response_inputs(log, DEVICE_A, true), 2_000),
        Err(IdentityPersistenceError::DeviceAuthenticationRejected)
    );
    let provider = signing_session(log, DEVICE_A, &log.before());
    assert_eq!(REPOSITORY.admit_provider(&authority, &provider), Ok(()));
    assert_eq!(
        REPOSITORY.admit_provider(&candidate, &provider),
        Err(IdentityPersistenceError::DeviceAuthenticationRejected)
    );
    let admitted = |row: Option<LinkedChallengeRow>, identity_id: IdentityId| {
        REPOSITORY
            .admit_challenge(&row, identity_id)
            .map(|challenge| challenge.identity_id)
    };
    let other_identity = IdentityId::from_bytes([9; 32]);
    assert_eq!(
        admitted(Some(challenge_row(log, "open")), log.identity_id),
        Ok(log.identity_id)
    );
    assert_eq!(
        admitted(Some(challenge_row(log, "open")), other_identity),
        Err(IdentityPersistenceError::DeviceAuthenticationRejected)
    );
    assert_eq!(
        admitted(None, log.identity_id),
        Err(IdentityPersistenceError::RecoveryResponseCapabilityRejected)
    );
    let mut wrong_recipient = response(DEVICE_A, &signing_key(3));
    wrong_recipient.recipient_key_digest = digest(1);
    assert_eq!(
        respond(&wrong_recipient, &response_inputs(log, DEVICE_A, false), 2_000),
        Err(IdentityPersistenceError::RecoveryPreparationInvalidated)
    );
    let mut missing = response_inputs(log, DEVICE_A, false);
    missing.preparation = None;
    assert_eq!(
        respond(&authority, &missing, 2_000),
        Err(IdentityPersistenceError::RecoveryResponseCapabilityRejected)
    );
    let mut cancelled = response_inputs(log, DEVICE_A, false);
    cancelled.challenge = Some(challenge_row(log, "cancelled"));
    assert_eq!(
        respond(&authority, &cancelled, 2_000),
        Err(IdentityPersistenceError::RecoveryPreparationRevoked)
    );
    assert_eq!(
        respond(&authority, &response_inputs(log, DEVICE_A, false), 40_000),
        Err(IdentityPersistenceError::RecoveryPreparationExpired)
    );
}

#[test]
fn status_shows_the_response_only_while_it_holds() {
    let log = &Log::new();
    let status = |state: &str, current: Option<CurrentCatalogRow>, hash: u8, now: i64| {
        let snapshot = if state == "approved" { log.after() } else { log.before() };
        let mut row = preparation_row(log);
        row.provider_response = Some(vec![1, 1]);
        row.provider_idempotency_key_hash = Some(vec![22; 32]);
        REPOSITORY
            .status(
                request_id(),
                digest(hash),
                log.identity_id,
                &snapshot,
                &read_linked_challenge(&challenge_row(log, state)).unwrap(),
                &Some(row),
                &current,
                timestamp(now),
            )
            .map(|outcome| {
                assert_eq!(outcome.request_id, request_id());
                (outcome.status, outcome.provider_response, outcome.observed_at)
            })
    };
    let available = CatalogStatus::ResponseAvailable;
    assert_eq!(
        status("open", Some(current_row(log)), 12, 2_000),
        Ok((available, Some(vec![1, 1]), timestamp(2_000)))
    );
    assert_eq!(
        status("approved", Some(current_row(log)), 12, 2_000),
        Ok((available, Some(vec![1, 1]), timestamp(2_000)))
    );
    assert_eq!(
        status("open", None, 12, 2_000),
        Ok((
            CatalogStatus::Invalidated(CatalogStatusInvalidation::Catalog),
            None,
            timestamp(2_000)
        ))
    );
    assert_eq!(
        status("cancelled", Some(current_row(log)), 12, 2_000),
        Ok((CatalogStatus::Cancelled, None, timestamp(2_000)))
    );
    assert_eq!(
        status("open", Some(current_row(log)), 12, 60_000),
        Ok((CatalogStatus::Expired, None, timestamp(50_000)))
    );
    assert_eq!(
        status("open", Some(current_row(log)), 11, 2_000),
        Err(IdentityPersistenceError::RecoveryResponseCapabilityRejected)
    );
}

#[test]
fn linked_challenge_names_its_identity() {
    let log = &Log::new();
    assert_eq!(
        REPOSITORY.linked_challenge_identity_hint(&Some(log.identity_id.to_text())),
        Ok(log.identity_id)
    );
    assert_eq!(
        REPOSITORY.linked_challenge_identity_hint(&Some("x".to_owned())),
        Err(IdentityPersistenceError::CorruptData("linked enrollment identity"))
    );
    assert_eq!(
        REPOSITORY.linked_challenge_identity_hint(&None),
        Err(IdentityPersistenceError::RecoveryResponseCapabilityRejected)
    );
}
