//! Key packages.

use ed25519_dalek::{Signer, SigningKey};
use identity_log::log::authority::genesis_recovery_acceptance_input;
use identity_log::log::certificate::{
    device_certificate_signature_input, DeviceCertificateV1, UnsignedDeviceCertificateV1,
};
use identity_log::log::event::{
    identity_log_signature_input, IdentityLogEventV1, UnsignedIdentityLogEventV1,
};
use identity_log::log::payload::IdentityLogEventPayloadV1;
use identity_log::log::wire_line::IDENTITY_LOG_WIRE_VERSION;
use identity_log::persistence::error::IdentityPersistenceError;
use identity_log::persistence::head::IdentityLogSnapshot;
use identity_log::persistence::key_package::{
    federated_key_package_claim_body_digest, federated_key_package_claim_signature_input,
    key_package_publish_binding_canonical_bytes, key_package_publish_signature_input,
    FederatedKeyPackageClaimProof, HistoryRecoveryKeyPackageScope, KeyPackageClaimCommand,
    KeyPackageClaimOutcome, KeyPackageClaimReceipt, KeyPackagePublishCommand,
    KeyPackagePublishOutcome, KEY_PACKAGE_BYTES_HASH_DOMAIN,
};
use identity_log::persistence::key_package_decision::{
    claim_retention_until, ensure_scope, replay_claim, validate_publish_expiry,
    AvailablePackageRow, ClaimInputs, ClaimReceiptRow, ClaimRow, ClaimStep, KeyPackageRepository,
    PublishClaimRow, PublishInputs, LOCAL_CLAIMANT_ORIGIN,
};
use identity_log::persistence::session::{AuthenticatedDeviceSession, DeviceSessionCredential};
use identity_log::persistence::session_decision::{DeviceSessionRepository, SessionRow};
use identity_log::wire::codec::encode_value;
use identity_log::wire::digest::Sha256Digest;
use identity_log::wire::id::{DeviceId, DeviceSessionId, IdentityId, KeyPackageId};
use identity_log::wire::key::{DeviceEncryptionPublicKey, Ed25519Signature, SigningPublicKey};
use identity_log::wire::number::{SafeUint, UtcMillis};
use identity_log::wire::record::build_record;
use identity_log::wire::value::CanonicalValue;

const DEVICE_A: &str = "0190f2a5-7b1c-7abc-8def-0123456789ab";
const DEVICE_B: &str = "0190f2a5-7b1c-7abc-8def-0123456789ac";

fn signing_key(seed: u8) -> SigningKey {
    SigningKey::from_bytes(&[seed; 32])
}

fn public_key(key: &SigningKey) -> SigningPublicKey {
    SigningPublicKey::try_from(key.verifying_key().to_bytes()).unwrap()
}

fn signature(key: &SigningKey, input: &[u8]) -> Ed25519Signature {
    Ed25519Signature::from_bytes(key.sign(input).to_bytes())
}

fn safe(value: u64) -> SafeUint {
    SafeUint::new(value).unwrap()
}

fn timestamp(value: i64) -> UtcMillis {
    UtcMillis::new(value).unwrap()
}

fn device_id(value: &str) -> DeviceId {
    DeviceId::from_text(value).unwrap()
}

fn signed_event(
    signer: &SigningKey,
    identity_id: IdentityId,
    sequence: u64,
    previous_event_hash: Option<Sha256Digest>,
    occurred_at: i64,
    payload: IdentityLogEventPayloadV1,
) -> IdentityLogEventV1 {
    let unsigned = UnsignedIdentityLogEventV1::new(
        IDENTITY_LOG_WIRE_VERSION,
        identity_id,
        safe(sequence),
        previous_event_hash,
        timestamp(occurred_at),
        payload,
        public_key(signer),
    )
    .unwrap();
    let input = identity_log_signature_input(unsigned.signing_digest().unwrap());
    IdentityLogEventV1::signed(unsigned, signature(signer, &input)).unwrap()
}

fn genesis() -> IdentityLogEventV1 {
    let root = signing_key(1);
    let recovery = signing_key(2);
    let identity_id = IdentityId::derive(public_key(&root).as_domain_key());
    let acceptance = signature(
        &recovery,
        &genesis_recovery_acceptance_input(identity_id, public_key(&root), public_key(&recovery))
            .unwrap(),
    );
    signed_event(
        &root,
        identity_id,
        1,
        None,
        1_000,
        IdentityLogEventPayloadV1::Genesis {
            root_signing_key: public_key(&root),
            recovery_signing_key: public_key(&recovery),
            recovery_acceptance_signature: acceptance,
        },
    )
}

fn device_add(previous: &IdentityLogEventV1, device: &SigningKey, id: &str) -> IdentityLogEventV1 {
    let root = signing_key(1);
    let identity_id = previous.identity_id();
    let unsigned = UnsignedDeviceCertificateV1::new(
        IDENTITY_LOG_WIRE_VERSION,
        identity_id,
        device_id(id),
        public_key(device),
        encryption_key(31),
        public_key(&root),
        timestamp(1_050),
    )
    .unwrap();
    let input = device_certificate_signature_input(unsigned.signing_digest().unwrap());
    let certificate = DeviceCertificateV1::signed(unsigned, signature(&root, &input)).unwrap();
    signed_event(
        &root,
        identity_id,
        previous.sequence().get() + 1,
        Some(previous.entry_hash().unwrap()),
        1_100,
        IdentityLogEventPayloadV1::DeviceAdd { certificate },
    )
}

fn encryption_key(seed: u8) -> DeviceEncryptionPublicKey {
    DeviceEncryptionPublicKey::try_from([seed; 32]).unwrap()
}

fn snapshot(events: &[&IdentityLogEventV1]) -> IdentityLogSnapshot {
    IdentityLogSnapshot::replay(
        events
            .iter()
            .map(|event| event.to_deterministic_cbor().unwrap())
            .collect(),
    )
    .unwrap()
}

fn digest(seed: u8) -> Sha256Digest {
    Sha256Digest::from_bytes([seed; 32])
}

fn package_id() -> KeyPackageId {
    KeyPackageId::from_text(DEVICE_B).unwrap()
}

fn log_with_device() -> IdentityLogSnapshot {
    let first = genesis();
    let add = device_add(&first, &signing_key(3), DEVICE_A);
    snapshot(&[&first, &add])
}

fn session(device: &str) -> AuthenticatedDeviceSession {
    let credential =
        DeviceSessionCredential::new(DeviceSessionId::from_text(DEVICE_A).unwrap(), [7; 32])
            .ok()
            .unwrap();
    let row = SessionRow {
        identity_id: genesis().identity_id().to_text(),
        device_id: *device_id(device).as_uuid_bytes(),
        session_secret_hash: credential.secret_hash().as_bytes().to_vec(),
        expires_at_ms: 1_000_000,
    };
    DeviceSessionRepository
        .open_session(&credential, &Some(row), timestamp(1_000))
        .unwrap()
}

fn scope() -> HistoryRecoveryKeyPackageScope {
    HistoryRecoveryKeyPackageScope::new(digest(11), digest(12)).unwrap()
}

fn publish_bytes(
    head: Sha256Digest,
    expires_at: i64,
    package: &[u8],
    signature: Ed25519Signature,
    scope: Option<HistoryRecoveryKeyPackageScope>,
) -> Vec<u8> {
    let mut fields = vec![
        CanonicalValue::Unsigned(if scope.is_some() { 2 } else { 1 }),
        CanonicalValue::Text(genesis().identity_id().to_text()),
        CanonicalValue::Text(DEVICE_A.to_owned()),
        CanonicalValue::Text(DEVICE_B.to_owned()),
        CanonicalValue::Unsigned(2),
        CanonicalValue::Bytes(head.as_bytes().to_vec()),
        CanonicalValue::Unsigned(expires_at as u64),
        CanonicalValue::Bytes(package.to_vec()),
        CanonicalValue::Bytes(signature.as_bytes().to_vec()),
    ];
    if let Some(scope) = scope {
        fields.push(CanonicalValue::Bytes(scope.request_digest().as_bytes().to_vec()));
        fields.push(CanonicalValue::Bytes(scope.scope_digest().as_bytes().to_vec()));
        fields.push(CanonicalValue::Unsigned(1));
    }
    encode_value(&build_record(fields)).unwrap()
}

fn publish_command(signer: &SigningKey, expires_at: i64) -> KeyPackagePublishCommand {
    let head = log_with_device().head().hash();
    let input = key_package_publish_signature_input(
        genesis().identity_id(),
        device_id(DEVICE_A),
        package_id(),
        safe(2),
        head,
        timestamp(expires_at),
        &[1, 2, 3],
    )
    .unwrap();
    let signed = signature(signer, &input);
    KeyPackagePublishCommand::new(
        digest(1),
        genesis().identity_id(),
        device_id(DEVICE_A),
        package_id(),
        safe(2),
        head,
        timestamp(expires_at),
        vec![1, 2, 3],
        signed,
        publish_bytes(head, expires_at, &[1, 2, 3], signed, None),
    )
    .unwrap()
}

fn publish_inputs() -> PublishInputs {
    PublishInputs {
        authenticated: Ok(session(DEVICE_A)),
        removed: 0,
        claim: None,
        snapshot: Ok(log_with_device()),
        recovery_approved: false,
    }
}

#[test]
fn publish_command_holds_its_own_exact_bytes() {
    let command = publish_command(&signing_key(3), 50_000);
    assert_eq!(
        command.package_digest(),
        Sha256Digest::hash_domain(KEY_PACKAGE_BYTES_HASH_DOMAIN, &[1, 2, 3])
    );
    assert_eq!(command.opaque_key_package(), &[1, 2, 3]);
    assert!(command == command.clone());
    let build = |sequence: u64, package: Vec<u8>, bytes: Vec<u8>| {
        KeyPackagePublishCommand::new(
            digest(1),
            command.identity_id(),
            command.device_id(),
            command.package_id(),
            safe(sequence),
            command.published_head_hash(),
            command.expires_at(),
            package,
            command.detached_signature(),
            bytes,
        )
        .err()
    };
    let exact = command.exact_publish_bytes().to_vec();
    assert_eq!(build(2, vec![1, 2, 3], exact.clone()), None);
    assert_eq!(
        build(0, vec![1, 2, 3], exact.clone()),
        Some(IdentityPersistenceError::InvalidCommand("key package published head sequence"))
    );
    assert_eq!(
        build(2, vec![], exact.clone()),
        Some(IdentityPersistenceError::InvalidCommand("key package byte length"))
    );
    assert_eq!(
        build(2, vec![1, 2, 3], vec![]),
        Some(IdentityPersistenceError::InvalidCommand("key package publish byte length"))
    );
    assert_eq!(
        build(2, vec![1, 2, 4], exact),
        Some(IdentityPersistenceError::InvalidCommand("key package publish canonical bytes"))
    );
}

#[test]
fn publish_binding_has_its_exact_form() {
    let binding = key_package_publish_binding_canonical_bytes(
        genesis().identity_id(),
        device_id(DEVICE_A),
        package_id(),
        safe(2),
        digest(8),
        timestamp(50_000),
        digest(9),
    )
    .unwrap();
    assert_eq!(&binding[..3], &[0xa8, 0x01, 0x01]);
    assert_eq!(&binding[binding.len() - 32..], &[9; 32]);
}

#[test]
fn scoped_package_is_signed_over_its_scope() {
    assert!(HistoryRecoveryKeyPackageScope::new(digest(0), digest(1)).is_err());
    assert!(HistoryRecoveryKeyPackageScope::new(digest(1), digest(0)).is_err());
    let plain = publish_command(&signing_key(3), 50_000);
    let mut input = plain.signature_input();
    input.extend_from_slice(&[11; 32]);
    input.extend_from_slice(&[12; 32]);
    input.extend_from_slice(b"history_recovery");
    let signed = signature(&signing_key(3), &input);
    let head = plain.published_head_hash();
    let build = |bytes: Vec<u8>| {
        KeyPackagePublishCommand::new_history_recovery_v2(
            digest(1),
            plain.identity_id(),
            plain.device_id(),
            plain.package_id(),
            safe(2),
            head,
            plain.expires_at(),
            vec![1, 2, 3],
            scope(),
            signed,
            bytes,
        )
    };
    let command = build(publish_bytes(head, 50_000, &[1, 2, 3], signed, Some(scope())))
        .ok()
        .expect("scoped package");
    assert_eq!(command.signature_input(), input);
    assert!(build(publish_bytes(head, 50_000, &[1, 2, 3], signed, None)).is_err());

    let repository = KeyPackageRepository::new();
    assert_eq!(
        repository
            .publish(&command, &publish_inputs(), timestamp(2_000))
            .err(),
        Some(IdentityPersistenceError::KeyPackageUnavailable)
    );
    let mut approved = publish_inputs();
    approved.recovery_approved = true;
    assert!(repository.publish(&command, &approved, timestamp(2_000)).is_ok());
}

#[test]
fn package_is_published_once_and_replayed() {
    let repository = KeyPackageRepository::new();
    let command = publish_command(&signing_key(3), 50_000);
    let publish = |command: &KeyPackagePublishCommand, inputs: PublishInputs| {
        repository.publish(command, &inputs, timestamp(2_000))
    };
    let outcome = publish(&command, publish_inputs()).unwrap();
    assert!(matches!(outcome, KeyPackagePublishOutcome::Published(_)));
    let receipt = outcome.receipt();
    assert_eq!(receipt.package_digest(), command.package_digest());
    let claim = || PublishClaimRow {
        request_digest: command.request_digest().as_bytes().to_vec(),
        package_id: *command.package_id().as_uuid_bytes(),
        receipt_bytes: receipt.exact_bytes().to_vec(),
        receipt_digest: receipt.receipt_digest().as_bytes().to_vec(),
    };
    let with_claim = |claim: PublishClaimRow| {
        let mut inputs = publish_inputs();
        inputs.claim = Some(claim);
        publish(&command, inputs)
    };
    let replayed = with_claim(claim()).unwrap();
    assert!(matches!(replayed, KeyPackagePublishOutcome::Replayed(_)));
    assert_eq!(replayed.receipt(), receipt);
    let mut other = claim();
    other.request_digest = vec![1; 32];
    assert_eq!(repository.replay_publish(&command, &claim()), Ok(replayed));
    assert_eq!(
        repository.replay_publish(&command, &other),
        Err(IdentityPersistenceError::IdempotencyConflict)
    );
    assert_eq!(with_claim(other), Err(IdentityPersistenceError::IdempotencyConflict));
    assert_eq!(repository.admit_publisher(&command, &session(DEVICE_A)), Ok(()));
    assert_eq!(
        repository.admit_publisher(&command, &session(DEVICE_B)),
        Err(IdentityPersistenceError::DeviceAuthenticationRejected)
    );
    let mut broken = claim();
    broken.receipt_bytes.push(0);
    assert_eq!(with_claim(broken), Err(IdentityPersistenceError::ReceiptIntegrity));

    let mut stranger = publish_inputs();
    stranger.authenticated = Ok(session(DEVICE_B));
    assert_eq!(
        publish(&command, stranger),
        Err(IdentityPersistenceError::DeviceAuthenticationRejected)
    );
    let mut behind = publish_inputs();
    behind.snapshot = Ok(snapshot(&[&genesis()]));
    assert_eq!(publish(&command, behind), Err(IdentityPersistenceError::KeyPackageConflict));
    assert_eq!(
        publish(&publish_command(&signing_key(4), 50_000), publish_inputs()),
        Err(IdentityPersistenceError::InvalidCommand("key package device signature"))
    );
    assert_eq!(
        publish(&publish_command(&signing_key(3), 2_000), publish_inputs()),
        Err(IdentityPersistenceError::InvalidCommand("key package expiry"))
    );
    assert!(repository.confirm_published(1).is_ok());
    assert_eq!(
        repository.confirm_published(0),
        Err(IdentityPersistenceError::KeyPackageConflict)
    );
}

#[test]
fn expiry_and_retention_have_exact_bounds() {
    let now = timestamp(1_000);
    assert!(validate_publish_expiry(timestamp(1_000), now).is_err());
    assert!(validate_publish_expiry(timestamp(1_001), now).is_ok());
    assert!(validate_publish_expiry(timestamp(2_592_001_000), now).is_ok());
    assert!(validate_publish_expiry(timestamp(2_592_001_001), now).is_err());
    assert_eq!(claim_retention_until(timestamp(2_000), now), Ok(timestamp(901_000)));
    assert_eq!(claim_retention_until(timestamp(901_001), now), Ok(timestamp(901_001)));
    let last = timestamp(9_007_199_254_740_991);
    assert_eq!(
        claim_retention_until(last, last),
        Err(IdentityPersistenceError::CorruptData("key package claim retention"))
    );
}

fn claim_bytes(scope: Option<HistoryRecoveryKeyPackageScope>) -> Vec<u8> {
    let mut fields = vec![
        CanonicalValue::Unsigned(if scope.is_some() { 2 } else { 1 }),
        CanonicalValue::Text(genesis().identity_id().to_text()),
        CanonicalValue::Text(DEVICE_A.to_owned()),
    ];
    if let Some(scope) = scope {
        fields.push(CanonicalValue::Bytes(scope.request_digest().as_bytes().to_vec()));
        fields.push(CanonicalValue::Bytes(scope.scope_digest().as_bytes().to_vec()));
        fields.push(CanonicalValue::Unsigned(1));
    }
    encode_value(&build_record(fields)).unwrap()
}

fn claim_command() -> KeyPackageClaimCommand {
    KeyPackageClaimCommand::new(
        digest(2),
        genesis().identity_id(),
        device_id(DEVICE_A),
        claim_bytes(None),
    )
    .unwrap()
}

fn claim_inputs() -> ClaimInputs {
    ClaimInputs {
        removed: 0,
        claim: None,
        receipt: None,
        target: Ok(log_with_device()),
        package: Some(AvailablePackageRow {
            package_id: *package_id().as_uuid_bytes(),
            exact_publish_bytes: vec![4, 5, 6],
            expires_at_ms: 50_000,
        }),
    }
}

#[test]
fn package_is_claimed_once_and_replayed() {
    let repository = KeyPackageRepository::new();
    let command = claim_command();
    let claim = |inputs: ClaimInputs| {
        repository.claim(&command, &Ok(session(DEVICE_A)), &inputs, timestamp(2_000))
    };
    let step = claim(claim_inputs()).ok().expect("available package");
    match &step {
        ClaimStep::Take {
            package_id: taken,
            retention_until,
            exact_publish_bytes,
        } => {
            assert_eq!(*taken, package_id());
            assert_eq!(*retention_until, timestamp(902_000));
            assert_eq!(exact_publish_bytes, &[4, 5, 6]);
        }
        ClaimStep::Replay(_) => panic!("nothing was claimed"),
    }
    let outcome = repository.complete_claim(step, 1).ok().unwrap();
    assert!(matches!(outcome, KeyPackageClaimOutcome::Claimed(_)));
    assert_eq!(outcome.receipt().exact_publish_bytes(), &[4, 5, 6]);
    assert_eq!(
        repository
            .complete_claim(claim(claim_inputs()).ok().unwrap(), 0)
            .err(),
        Some(IdentityPersistenceError::KeyPackageUnavailable)
    );

    let replay_inputs = || {
        let mut inputs = claim_inputs();
        inputs.claim = Some(ClaimRow {
            target_identity_id: command.target_identity_id().to_text(),
            target_device_id: *command.target_device_id().as_uuid_bytes(),
            request_digest: command.request_digest().as_bytes().to_vec(),
            purpose: "general".to_owned(),
            recovery_request_digest: None,
            recovery_scope_digest: None,
        });
        inputs.receipt = Some(ClaimReceiptRow {
            receipt_bytes: vec![4, 5, 6],
            receipt_digest: outcome.receipt().receipt_digest().as_bytes().to_vec(),
        });
        inputs
    };
    let step = claim(replay_inputs()).ok().expect("replayed claim");
    assert!(matches!(
        repository.complete_claim(step, 0),
        Ok(KeyPackageClaimOutcome::Replayed(receipt)) if receipt.exact_publish_bytes() == [4, 5, 6]
    ));
    let replay = |inputs: ClaimInputs| {
        replay_claim(&command, &inputs.claim.unwrap(), &inputs.receipt)
    };
    assert!(matches!(
        replay(replay_inputs()),
        Ok(ClaimStep::Replay(receipt)) if receipt.exact_publish_bytes() == [4, 5, 6]
    ));
    let mut other = replay_inputs();
    other.claim.as_mut().unwrap().purpose = "history_recovery".to_owned();
    assert_eq!(claim(other).err(), Some(IdentityPersistenceError::IdempotencyConflict));
    let mut scoped = replay_inputs();
    scoped.claim.as_mut().unwrap().recovery_scope_digest = Some(vec![1; 32]);
    assert_eq!(claim(scoped).err(), Some(IdentityPersistenceError::IdempotencyConflict));
    let mut broken = replay_inputs();
    broken.receipt.as_mut().unwrap().receipt_bytes.push(7);
    assert_eq!(claim(broken).err(), Some(IdentityPersistenceError::ReceiptIntegrity));
    let mut incomplete = replay_inputs();
    incomplete.receipt = None;
    assert_eq!(claim(incomplete).err(), Some(IdentityPersistenceError::IncompleteCommand));
    assert!(KeyPackageClaimReceipt::new(vec![]).is_err());
}

#[test]
fn unavailable_targets_look_alike() {
    let repository = KeyPackageRepository::new();
    let claim = |inputs: ClaimInputs| {
        repository
            .claim(&claim_command(), &Ok(session(DEVICE_A)), &inputs, timestamp(2_000))
            .err()
    };
    let unavailable = Some(IdentityPersistenceError::KeyPackageUnavailable);
    let mut inactive = claim_inputs();
    inactive.target = Err(IdentityPersistenceError::IdentityInactive);
    assert_eq!(claim(inactive), unavailable);
    let mut unknown = claim_inputs();
    unknown.target = Ok(snapshot(&[&genesis()]));
    assert_eq!(claim(unknown), unavailable);
    let mut empty = claim_inputs();
    empty.package = None;
    assert_eq!(claim(empty), unavailable);
    let mut failing = claim_inputs();
    failing.target = Err(IdentityPersistenceError::ReceiptIntegrity);
    assert_eq!(claim(failing), Some(IdentityPersistenceError::ReceiptIntegrity));
    assert_eq!(
        repository
            .claim(
                &claim_command(),
                &Err(IdentityPersistenceError::DeviceAuthenticationRejected),
                &claim_inputs(),
                timestamp(2_000)
            )
            .err(),
        Some(IdentityPersistenceError::DeviceAuthenticationRejected)
    );
}

fn claim_proof(signer: &SigningKey, path: &str, expires_at: i64) -> FederatedKeyPackageClaimProof {
    let command = claim_command();
    let requester = IdentityId::derive(&[9; 32]);
    let body = federated_key_package_claim_body_digest(&command);
    let input = federated_key_package_claim_signature_input(
        "https://remote.example",
        requester,
        device_id(DEVICE_B),
        command.target_identity_id(),
        command.target_device_id(),
        "POST",
        path,
        body,
        timestamp(1_000),
        timestamp(expires_at),
        [5; 32],
        command.idempotency_key_hash(),
    )
    .unwrap();
    FederatedKeyPackageClaimProof::new(
        "https://remote.example".to_owned(),
        requester,
        device_id(DEVICE_B),
        command.target_identity_id(),
        command.target_device_id(),
        "POST".to_owned(),
        path.to_owned(),
        body,
        timestamp(1_000),
        timestamp(expires_at),
        [5; 32],
        command.idempotency_key_hash(),
        signature(signer, &input),
    )
    .unwrap()
}

#[test]
fn federated_claim_needs_a_current_proof_of_exactly_this_request() {
    const PATH: &str = "/v2/key-packages/claim";
    let device = signing_key(6);
    let verify = |proof: FederatedKeyPackageClaimProof, now: i64| {
        proof.verify(&claim_command(), timestamp(now), public_key(&device))
    };
    let claimant = verify(claim_proof(&device, PATH, 301_000), 2_000).unwrap();
    assert_eq!(claimant.identity_origin(), "https://remote.example");
    assert_eq!(claimant.device_id(), device_id(DEVICE_B));
    let rejected = Err(IdentityPersistenceError::DeviceAuthenticationRejected);
    assert_eq!(verify(claim_proof(&device, PATH, 301_001), 2_000), rejected);
    assert_eq!(verify(claim_proof(&device, PATH, 301_000), 301_000), rejected);
    assert_eq!(verify(claim_proof(&device, PATH, 301_000), 999), rejected);
    assert_eq!(verify(claim_proof(&device, "/v1", 301_000), 2_000), rejected);
    assert_eq!(verify(claim_proof(&signing_key(5), PATH, 301_000), 2_000), rejected);

    let repository = KeyPackageRepository::new();
    assert!(repository
        .claim_federated(&claim_command(), &claimant, &claim_inputs(), timestamp(2_000))
        .is_ok());
    let scoped = KeyPackageClaimCommand::new_history_recovery_v2(
        digest(2),
        genesis().identity_id(),
        device_id(DEVICE_A),
        scope(),
        claim_bytes(Some(scope())),
    )
    .unwrap();
    assert_eq!(
        repository
            .claim_federated(&scoped, &claimant, &claim_inputs(), timestamp(2_000))
            .err(),
        Some(IdentityPersistenceError::KeyPackageUnavailable)
    );
    assert!(repository
        .claim(&scoped, &Ok(session(DEVICE_A)), &claim_inputs(), timestamp(2_000))
        .is_ok());
}

#[test]
fn claim_proof_needs_a_plain_origin_and_a_nonce() {
    let build = |origin: &str, nonce: u8| {
        FederatedKeyPackageClaimProof::new(
            origin.to_owned(),
            IdentityId::derive(&[9; 32]),
            device_id(DEVICE_B),
            genesis().identity_id(),
            device_id(DEVICE_A),
            "POST".to_owned(),
            "/v2/key-packages/claim".to_owned(),
            digest(1),
            timestamp(1_000),
            timestamp(2_000),
            [nonce; 32],
            digest(2),
            Ed25519Signature::from_bytes([0; 64]),
        )
        .is_ok()
    };
    assert!(build("https://a", 1));
    assert!(!build("https:/", 1));
    assert!(!build("https://a b", 1));
    assert!(!build("https://a", 0));
    assert!(!build(&"a".repeat(513), 1));
    assert!(build(&"a".repeat(512), 1));
}

#[test]
fn scoped_claim_stays_within_its_own_identity() {
    let scoped = KeyPackageClaimCommand::new_history_recovery_v2(
        digest(2),
        genesis().identity_id(),
        device_id(DEVICE_A),
        scope(),
        claim_bytes(Some(scope())),
    )
    .unwrap();
    let own = genesis().identity_id();
    assert_eq!(ensure_scope(&scoped, LOCAL_CLAIMANT_ORIGIN, own), Ok(()));
    assert_eq!(
        ensure_scope(&scoped, "https://identity.example", own),
        Err(IdentityPersistenceError::KeyPackageUnavailable)
    );
    assert_eq!(ensure_scope(&claim_command(), "https://identity.example", own), Ok(()));
}
