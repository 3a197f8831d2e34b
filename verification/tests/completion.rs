//! Completions of history recoveries.

use ed25519_dalek::{Signature, Signer, SigningKey};
use identity_log::persistence::completion::{
    CatalogHeadFacts, HeadWindow, HistoryRecoveryCompletionCommand, ManifestFacts, NestedVerdicts,
    CATALOG_HEAD_DOMAIN, COMPLETION_CONTEXT_DOMAIN, COMPLETION_SIGNATURE_DOMAIN,
    DELIVERY_FACT_DOMAIN, PREPARATION_DIGEST_DOMAIN, RECIPIENT_OFFER_DOMAIN, RECOVERY_GRANT_DOMAIN,
    RECOVERY_MANIFEST_DOMAIN, RECOVERY_REQUEST_DOMAIN, RECOVERY_REQUEST_SIGNATURE_DOMAIN,
};
use identity_log::persistence::completion_key::{
    CompletionKeyDescriptor, CompletionSignerMetadata,
};
use identity_log::persistence::completion_receipt::{
    CompletionDecision, CompletionInsert, CompletionRows, HistoryRecoveryCompletionRepository,
    StoredCompletion, StoredRecoveryRequest, COMPLETION_COMMAND_DOMAIN, COMPLETION_RECEIPT_DOMAIN,
    COMPLETION_RECEIPT_SIGNATURE_DOMAIN,
};
use identity_log::persistence::error::IdentityPersistenceError;
use identity_log::persistence::merkle::{
    COMPLETION_ENTRY_DOMAIN, COMPLETION_ENTRY_NODE_DOMAIN,
};
use identity_log::wire::codec::{decode_deterministic_cbor, encode_value};
use identity_log::wire::digest::Sha256Digest;
use identity_log::wire::id::{DeviceId, IdentityId};
use identity_log::wire::key::SigningPublicKey;
use identity_log::wire::number::UtcMillis;
use identity_log::wire::record::build_record;
use identity_log::wire::value::CanonicalValue;

const COMPLETION: &str = "0190f2a5-7b1c-7abc-8def-0123456789a1";
const DEVICE: &str = "0190f2a5-7b1c-7abc-8def-0123456789a2";
const CATALOG: &str = "0190f2a5-7b1c-7abc-8def-0123456789a3";
const REQUEST: &str = "0190f2a5-7b1c-7abc-8def-0123456789a4";
const FACT: &str = "0190f2a5-7b1c-7abc-8def-0123456789a5";
const LINK: &str = "0190f2a5-7b1c-7abc-8def-0123456789a6";
const SERVICE_SECRET: [u8; 32] = [7; 32];
const REPOSITORY: HistoryRecoveryCompletionRepository = HistoryRecoveryCompletionRepository;

fn candidate() -> SigningKey {
    SigningKey::from_bytes(&[4; 32])
}

fn identity() -> IdentityId {
    IdentityId::derive(&[1; 32])
}

fn digest(seed: u8) -> Sha256Digest {
    Sha256Digest::from_bytes([seed; 32])
}

fn timestamp(value: i64) -> UtcMillis {
    UtcMillis::new(value).unwrap()
}

fn number(value: u64) -> CanonicalValue {
    CanonicalValue::Unsigned(value)
}

fn text(value: &str) -> CanonicalValue {
    CanonicalValue::Text(value.to_owned())
}

fn bytes(value: &[u8]) -> CanonicalValue {
    CanonicalValue::Bytes(value.to_vec())
}

fn hash(value: Sha256Digest) -> CanonicalValue {
    bytes(value.as_bytes())
}

fn encode(fields: Vec<CanonicalValue>) -> Vec<u8> {
    encode_value(&build_record(fields)).unwrap()
}

/// The record with the candidate's signature as its last field.
fn signed(domain: &str, mut fields: Vec<CanonicalValue>) -> Vec<u8> {
    let mut input = domain.as_bytes().to_vec();
    input.extend_from_slice(&encode(fields.iter().map(copy).collect()));
    fields.push(bytes(&candidate().sign(&input).to_bytes()));
    encode(fields)
}

fn copy(value: &CanonicalValue) -> CanonicalValue {
    decode_deterministic_cbor(&encode_value(value).unwrap()).unwrap()
}

/// The artifacts of one recovery, each made from those before it.
struct Artifacts {
    catalog_head: Vec<u8>,
    preparation: Vec<u8>,
    manifest: Vec<u8>,
    request: Vec<u8>,
    offer: Vec<u8>,
    grant: Vec<u8>,
    delivery: Vec<u8>,
}

impl Artifacts {
    fn new(delivered_at: u64) -> Self {
        let catalog_head = vec![1, 2, 3];
        let preparation = vec![4, 5];
        let head_digest = Sha256Digest::hash_domain(CATALOG_HEAD_DOMAIN, &catalog_head);
        let preparation_digest =
            Sha256Digest::hash_domain(PREPARATION_DIGEST_DOMAIN, &preparation);
        let mut manifest: Vec<CanonicalValue> = (0..10).map(number).collect();
        manifest[4] = bytes(&catalog_head);
        let manifest = encode(manifest);
        let manifest_digest = Sha256Digest::hash_domain(RECOVERY_MANIFEST_DOMAIN, &manifest);

        let mut request: Vec<CanonicalValue> = (0..20).map(number).collect();
        request[0] = number(4);
        request[1] = text(REQUEST);
        request[2] = text(&identity().to_text());
        request[3] = text(DEVICE);
        request[4] = bytes(&candidate().verifying_key().to_bytes());
        request[6] = number(2);
        request[7] = hash(digest(61));
        request[8] = number(3);
        request[9] = hash(digest(62));
        request[13] = hash(preparation_digest);
        request[15] = hash(manifest_digest);
        request[16] = number(1_000);
        request[17] = number(9_000);
        let request = signed(RECOVERY_REQUEST_SIGNATURE_DOMAIN, request);
        let request_digest = Sha256Digest::hash_domain(RECOVERY_REQUEST_DOMAIN, &request);

        let mut offer: Vec<CanonicalValue> = (0..16).map(number).collect();
        offer[0] = number(3);
        offer[1] = text(REQUEST);
        offer[2] = hash(request_digest);
        offer[3] = hash(manifest_digest);
        offer[4] = text(CATALOG);
        offer[5] = number(1);
        offer[6] = hash(head_digest);
        offer[7] = hash(digest(15));
        let offer = encode(offer);
        let offer_digest = Sha256Digest::hash_domain(RECIPIENT_OFFER_DOMAIN, &offer);

        let mut grant: Vec<CanonicalValue> = (0..36).map(number).collect();
        grant[0] = number(5);
        grant[1] = text(&identity().to_text());
        grant[2] = text(REQUEST);
        grant[3] = hash(request_digest);
        grant[4] = hash(manifest_digest);
        grant[5] = text(CATALOG);
        grant[6] = number(1);
        grant[8] = hash(head_digest);
        grant[9] = hash(digest(13));
        grant[10] = number(2);
        grant[11] = hash(digest(15));
        grant[12] = text(DEVICE);
        grant[15] = number(2);
        grant[17] = number(3);
        grant[18] = hash(digest(62));
        grant[20] = hash(preparation_digest);
        grant[24] = hash(offer_digest);
        grant[25] = text(LINK);
        grant[26] = text(LINK);
        grant[28] = number(77);
        grant[29] = text(FACT);
        grant[30] = number(1_500);
        grant[31] = number(8_000);
        let grant = encode(grant);

        let mut delivery: Vec<CanonicalValue> = (0..12).map(number).collect();
        delivery[0] = number(2);
        delivery[1] = text(FACT);
        delivery[2] = text(LINK);
        delivery[3] = text(LINK);
        delivery[4] = number(77);
        delivery[5] = hash(Sha256Digest::hash_domain(RECOVERY_GRANT_DOMAIN, &grant));
        delivery[6] = hash(offer_digest);
        delivery[7] = text(REQUEST);
        delivery[8] = text(DEVICE);
        delivery[9] = number(delivered_at);
        Artifacts {
            catalog_head,
            preparation,
            manifest,
            request,
            offer,
            grant,
            delivery: encode(delivery),
        }
    }

    fn request_digest(&self) -> Sha256Digest {
        Sha256Digest::hash_domain(RECOVERY_REQUEST_DOMAIN, &self.request)
    }
}

fn entries() -> Vec<CanonicalValue> {
    vec![number(101), text("second")]
}

/// The root over the two entries.
fn entry_root() -> Sha256Digest {
    let mut nodes = Vec::new();
    for entry in entries() {
        nodes.extend_from_slice(
            Sha256Digest::hash_domain(COMPLETION_ENTRY_DOMAIN, &encode_value(&entry).unwrap())
                .as_bytes(),
        );
    }
    Sha256Digest::hash_domain(COMPLETION_ENTRY_NODE_DOMAIN, &nodes)
}

/// All but the signature of a completion.
fn completion_fields(artifacts: &Artifacts) -> Vec<CanonicalValue> {
    let head_digest = Sha256Digest::hash_domain(CATALOG_HEAD_DOMAIN, &artifacts.catalog_head);
    let context = encode(vec![
        number(2),
        number(0),
        text(COMPLETION),
        text(REQUEST),
        hash(artifacts.request_digest()),
        text(&identity().to_text()),
        text(DEVICE),
        text(CATALOG),
        number(1),
        hash(head_digest),
        number(2),
        hash(digest(15)),
    ]);
    let mut fields = vec![
        number(2),
        text(COMPLETION),
        text(&identity().to_text()),
        text(DEVICE),
        number(2),
        hash(digest(61)),
        number(3),
        hash(digest(62)),
        text(CATALOG),
        number(1),
        bytes(&artifacts.catalog_head),
        hash(head_digest),
        hash(digest(13)),
        number(2),
        hash(digest(15)),
    ];
    for (artifact, domain) in [
        (&artifacts.preparation, PREPARATION_DIGEST_DOMAIN),
        (&artifacts.request, RECOVERY_REQUEST_DOMAIN),
        (&artifacts.manifest, RECOVERY_MANIFEST_DOMAIN),
        (&artifacts.grant, RECOVERY_GRANT_DOMAIN),
        (&artifacts.offer, RECIPIENT_OFFER_DOMAIN),
        (&artifacts.delivery, DELIVERY_FACT_DOMAIN),
    ] {
        fields.push(bytes(artifact));
        fields.push(hash(Sha256Digest::hash_domain(domain, artifact)));
    }
    fields.push(number(2));
    fields.push(hash(entry_root()));
    fields.push(CanonicalValue::Array(entries()));
    fields.push(number(2_000));
    fields.push(number(6_000));
    fields.push(hash(digest(33)));
    fields.push(bytes(&context));
    fields.push(hash(Sha256Digest::hash_domain(COMPLETION_CONTEXT_DOMAIN, &context)));
    fields
}

fn completion_bytes(artifacts: &Artifacts) -> Vec<u8> {
    signed(COMPLETION_SIGNATURE_DOMAIN, completion_fields(artifacts))
}

fn verdicts() -> NestedVerdicts {
    NestedVerdicts {
        catalog_head_accepted: true,
        request_accepted: true,
        grant_accepted: true,
        offer_accepted: true,
        delivery_accepted: true,
        manifest: Some(ManifestFacts {
            catalog_root_digest: digest(13),
            leaves: vec![digest(41), digest(42)],
        }),
        signed_head: Some(CatalogHeadFacts {
            catalog_id: *DeviceId::from_text(CATALOG).unwrap().as_uuid_bytes(),
            generation: 1,
            merkle_root: digest(13),
            leaf_count: 2,
        }),
        manifest_head: Some(HeadWindow {
            issued_at: 900,
            expires_at: 9_900,
        }),
        entries_accepted: vec![true, true],
        max_grant_bytes: 10_000,
        max_catalog_head_bytes: 466,
    }
}

fn parse(
    bytes: Vec<u8>,
    verdicts: &NestedVerdicts,
) -> Result<HistoryRecoveryCompletionCommand, IdentityPersistenceError> {
    HistoryRecoveryCompletionCommand::parse(bytes, digest(33), verdicts)
}

fn command(delivered_at: u64) -> HistoryRecoveryCompletionCommand {
    parse(completion_bytes(&Artifacts::new(delivered_at)), &verdicts()).unwrap()
}

#[test]
fn completion_holds_what_its_bytes_say() {
    let artifacts = Artifacts::new(2_500);
    let command = command(2_500);
    assert_eq!(command.completion_id, *DeviceId::from_text(COMPLETION).unwrap().as_uuid_bytes());
    assert_eq!(command.identity_id, identity().to_text());
    assert_eq!((command.highwater, command.highwater_next), (2, 3));
    assert_eq!(command.final_head_hash, digest(62));
    assert_eq!(command.request_digest, artifacts.request_digest());
    assert_eq!(command.candidate_signing_key, candidate().verifying_key().to_bytes());
    assert_eq!(command.entry_root, entry_root());
    assert_eq!(command.issued_at, timestamp(2_000));
    assert_eq!(command.exact_bytes, completion_bytes(&artifacts));
    let nested =
        HistoryRecoveryCompletionCommand::nested_artifacts(&command.exact_bytes).unwrap();
    assert_eq!(nested.request, artifacts.request);
    assert_eq!(nested.delivery, artifacts.delivery);
}

#[test]
fn entries_are_validated_against_the_whole_completion() {
    let bytes = completion_bytes(&Artifacts::new(2_500));
    let inputs =
        HistoryRecoveryCompletionCommand::entry_inputs(&bytes, digest(33), &verdicts()).unwrap();
    assert_eq!(inputs.len(), 2);
    let second = &inputs[1];
    assert_eq!(second.entry, encode_value(&entries()[1]).unwrap());
    assert_eq!((second.expected.index, second.expected.count), (2, 2));
    assert_eq!(second.expected.leaf_digest, digest(42));
    assert_eq!(
        (second.expected.request_issued_at, second.expected.request_expires_at),
        (1_000, 9_000)
    );
    assert_eq!((second.expected.head_issued_at, second.expected.head_expires_at), (900, 9_900));
    assert_eq!(
        (second.expected.grant_issued_at, second.expected.grant_expires_at),
        (1_500, 8_000)
    );
}

#[test]
fn inexact_completions_are_refused() {
    let artifacts = Artifacts::new(2_500);
    let invalid = IdentityPersistenceError::RecoveryCompletionInvalid;
    let refused = |change: fn(&mut Vec<CanonicalValue>), error: IdentityPersistenceError| {
        let mut fields = completion_fields(&artifacts);
        change(&mut fields);
        assert_eq!(
            parse(signed(COMPLETION_SIGNATURE_DOMAIN, fields), &verdicts()).err(),
            Some(error)
        );
    };
    refused(|fields| fields[0] = number(1), invalid);
    refused(|fields| fields[1] = text("x"), invalid);
    refused(|fields| fields[6] = number(4), invalid);
    refused(|fields| fields[5] = hash(digest(0)), invalid);
    refused(
        |fields| fields[5] = bytes(&[1; 31]),
        IdentityPersistenceError::CorruptData("completion digest"),
    );
    refused(|fields| fields[9] = number(2), invalid);
    refused(|fields| fields[15] = bytes(&[9]), invalid);
    refused(|fields| fields[28] = hash(digest(1)), invalid);
    refused(|fields| fields[31] = number(2_000), invalid);
    refused(|fields| fields[34] = hash(digest(1)), invalid);

    let idempotency = HistoryRecoveryCompletionCommand::parse(
        completion_bytes(&artifacts),
        digest(34),
        &verdicts(),
    );
    assert_eq!(idempotency.err(), Some(invalid));
    let mut tampered = completion_bytes(&artifacts);
    let last = tampered.len() - 1;
    tampered[last] ^= 1;
    assert_eq!(parse(tampered, &verdicts()).err(), Some(invalid));
    assert_eq!(parse(vec![], &verdicts()).err(), Some(invalid));
}

#[test]
fn protocol_verdicts_are_decisive() {
    let bytes = completion_bytes(&Artifacts::new(2_500));
    let refused = |change: fn(&mut NestedVerdicts)| {
        let mut verdicts = verdicts();
        change(&mut verdicts);
        assert_eq!(
            parse(bytes.clone(), &verdicts).err(),
            Some(IdentityPersistenceError::RecoveryCompletionInvalid)
        );
    };
    refused(|verdicts| verdicts.catalog_head_accepted = false);
    refused(|verdicts| verdicts.request_accepted = false);
    refused(|verdicts| verdicts.grant_accepted = false);
    refused(|verdicts| verdicts.offer_accepted = false);
    refused(|verdicts| verdicts.delivery_accepted = false);
    refused(|verdicts| verdicts.manifest = None);
    refused(|verdicts| verdicts.signed_head = None);
    refused(|verdicts| verdicts.manifest_head = None);
    refused(|verdicts| verdicts.entries_accepted = vec![true, false]);
    refused(|verdicts| verdicts.entries_accepted = vec![true]);
    refused(|verdicts| verdicts.max_grant_bytes = 10);
}

fn descriptor() -> CompletionKeyDescriptor {
    CompletionKeyDescriptor::from_signer(
        CompletionSignerMetadata {
            key_id: *DeviceId::from_text(LINK).unwrap().as_uuid_bytes(),
            epoch: 1,
            rollback_floor_epoch: 1,
            issued_at: timestamp(1_000),
            expires_at: timestamp(10_000),
            previous_descriptor_digest: None,
        },
        "https://identity.example",
        &SERVICE_SECRET,
    )
    .unwrap()
}

fn rows(command: &HistoryRecoveryCompletionCommand) -> CompletionRows {
    CompletionRows {
        by_completion: None,
        by_idempotency: None,
        by_request: None,
        request: Some(StoredRecoveryRequest {
            identity_id: command.identity_id.clone(),
            candidate_device_id: command.device_id,
            candidate_signing_key: command.candidate_signing_key.to_vec(),
            request_digest: command.request_digest.as_bytes().to_vec(),
            manifest_digest: command.manifest_digest.as_bytes().to_vec(),
            preparation_digest: command.preparation_digest.as_bytes().to_vec(),
            post_head_hash: command.final_head_hash.as_bytes().to_vec(),
            post_head_sequence: 3,
            expires_at_ms: 9_000,
        }),
        completed: None,
    }
}

fn submit(
    command: &HistoryRecoveryCompletionCommand,
    rows: &CompletionRows,
    now: i64,
) -> Result<CompletionDecision, IdentityPersistenceError> {
    REPOSITORY.submit(
        identity(),
        DeviceId::from_text(DEVICE).unwrap(),
        SigningPublicKey::try_from(candidate().verifying_key().to_bytes()).unwrap(),
        command,
        rows,
        &descriptor(),
        &SERVICE_SECRET,
        timestamp(now),
    )
}

fn insert(command: &HistoryRecoveryCompletionCommand) -> CompletionInsert {
    match submit(command, &rows(command), 3_000) {
        Ok(CompletionDecision::Insert(insert)) => insert,
        other => panic!("unexpected decision {other:?}"),
    }
}

#[test]
fn completion_gets_a_signed_receipt() {
    let command = command(2_500);
    let insert = insert(&command);
    assert_eq!(
        insert.completion_digest,
        Sha256Digest::hash_domain(COMPLETION_COMMAND_DOMAIN, &command.exact_bytes)
    );
    assert_eq!(insert.accepted_at, timestamp(3_000));
    let mut fields: Vec<CanonicalValue> =
        match decode_deterministic_cbor(&insert.receipt_bytes).unwrap() {
            CanonicalValue::Entries(entries) => {
                entries.into_iter().map(|(_, value)| value).collect()
            }
            _ => unreachable!(),
        };
    assert_eq!(fields.len(), 5);
    assert_eq!(
        Sha256Digest::hash_domain(COMPLETION_RECEIPT_DOMAIN, &encode_value(&fields[0]).unwrap()),
        insert.receipt_digest
    );
    let signature = match fields.pop() {
        Some(CanonicalValue::Bytes(signature)) => Signature::from_slice(&signature).unwrap(),
        _ => unreachable!(),
    };
    let mut input = COMPLETION_RECEIPT_SIGNATURE_DOMAIN.as_bytes().to_vec();
    input.extend_from_slice(&encode(fields));
    SigningKey::from_bytes(&SERVICE_SECRET)
        .verifying_key()
        .verify_strict(&input, &signature)
        .unwrap();
}

#[test]
fn completion_is_replayed_by_any_of_its_keys() {
    let first = command(2_500);
    let stored = |command: &HistoryRecoveryCompletionCommand| {
        let insert = insert(command);
        Some(StoredCompletion {
            receipt_bytes: insert.receipt_bytes,
            completion_digest: insert.completion_digest.as_bytes().to_vec(),
        })
    };
    let replays = |rows: &CompletionRows| match submit(&first, rows, 100_000) {
        Ok(CompletionDecision::Replay(outcome)) => {
            assert!(!outcome.created);
            assert_eq!(outcome.receipt_bytes, insert(&first).receipt_bytes);
            true
        }
        Ok(CompletionDecision::Insert(_)) => false,
        Err(error) => {
            assert_eq!(error, IdentityPersistenceError::IdempotencyConflict);
            false
        }
    };
    let mut by_completion = rows(&first);
    by_completion.by_completion = stored(&first);
    assert!(replays(&by_completion));
    let mut by_idempotency = rows(&first);
    by_idempotency.by_idempotency = stored(&first);
    assert!(replays(&by_idempotency));
    let mut by_request = rows(&first);
    by_request.by_request = stored(&first);
    assert!(replays(&by_request));

    let second = command(2_600);
    let mut other = rows(&first);
    other.by_request = stored(&second);
    assert!(!replays(&other));

    let resume = |rows: &CompletionRows, now: i64| {
        REPOSITORY.resume(
            identity(),
            DeviceId::from_text(DEVICE).unwrap(),
            SigningPublicKey::try_from(candidate().verifying_key().to_bytes()).unwrap(),
            &first,
            rows,
            &descriptor(),
            timestamp(now),
        )
    };
    assert_eq!(resume(&rows(&first), 3_000), Ok(None));
    assert_eq!(
        resume(&rows(&first), 100_000),
        Err(IdentityPersistenceError::RecoveryCompletionExpired)
    );
    let resumed = resume(&by_request, 100_000).unwrap().unwrap();
    assert!(!resumed.created);
    assert_eq!(resumed.receipt_bytes, insert(&first).receipt_bytes);

    let mut overtaken = rows(&first);
    overtaken.completed = stored(&first);
    assert_eq!(resume(&overtaken, 3_000), Ok(None));
    assert!(matches!(
        submit(&first, &overtaken, 3_000),
        Ok(CompletionDecision::Replay(outcome))
            if outcome.receipt_bytes == insert(&first).receipt_bytes
    ));
    overtaken.request = None;
    assert_eq!(
        submit(&first, &overtaken, 3_000).err(),
        Some(IdentityPersistenceError::RecoveryCompletionInvalid)
    );
    let mut beaten = rows(&first);
    beaten.completed = stored(&second);
    assert_eq!(
        submit(&first, &beaten, 3_000).err(),
        Some(IdentityPersistenceError::IdempotencyConflict)
    );

    assert_eq!(
        REPOSITORY
            .resolve_conflict(&first, None, stored(&first))
            .unwrap()
            .receipt_bytes,
        insert(&first).receipt_bytes
    );
    assert_eq!(
        REPOSITORY.resolve_conflict(&first, stored(&second), stored(&first)),
        Err(IdentityPersistenceError::IdempotencyConflict)
    );
    assert_eq!(
        REPOSITORY.resolve_conflict(&first, None, None),
        Err(IdentityPersistenceError::CorruptData("completion conflict"))
    );
}

#[test]
fn completion_is_refused_outside_its_scope() {
    let first = command(2_500);
    let invalid = Some(IdentityPersistenceError::RecoveryCompletionInvalid);
    let expired = Some(IdentityPersistenceError::RecoveryCompletionExpired);
    assert_eq!(submit(&first, &rows(&first), 1_999).err(), expired);
    assert_eq!(submit(&first, &rows(&first), 6_000).err(), expired);
    let mut missing = rows(&first);
    missing.request = None;
    assert_eq!(submit(&first, &missing, 3_000).err(), invalid);
    let mut moved = rows(&first);
    moved.request.as_mut().unwrap().post_head_sequence = 4;
    assert_eq!(submit(&first, &moved, 3_000).err(), invalid);
    let mut closed = rows(&first);
    closed.request.as_mut().unwrap().expires_at_ms = 3_000;
    assert_eq!(submit(&first, &closed, 3_000).err(), invalid);
    let early = command(1_499);
    assert_eq!(submit(&early, &rows(&early), 3_000).err(), invalid);
    assert!(submit(&command(8_000), &rows(&command(8_000)), 3_000).is_ok());
    let late = command(8_001);
    assert_eq!(submit(&late, &rows(&late), 3_000).err(), invalid);
    let stranger = REPOSITORY.submit(
        identity(),
        DeviceId::from_text(LINK).unwrap(),
        SigningPublicKey::try_from(candidate().verifying_key().to_bytes()).unwrap(),
        &first,
        &rows(&first),
        &descriptor(),
        &SERVICE_SECRET,
        timestamp(3_000),
    );
    assert_eq!(
        stranger.err(),
        Some(IdentityPersistenceError::DeviceAuthenticationRejected)
    );
}

#[test]
fn receipt_is_read_by_its_own_device() {
    let device = DeviceId::from_text(DEVICE).unwrap();
    let other = DeviceId::from_text(LINK).unwrap();
    let row = || Some((vec![1, 2], *device.as_uuid_bytes()));
    assert_eq!(REPOSITORY.get_receipt(device, row()), Some(vec![1, 2]));
    assert_eq!(REPOSITORY.get_receipt(other, row()), None);
    assert_eq!(REPOSITORY.get_receipt(device, None), None);
}
