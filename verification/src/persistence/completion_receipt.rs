//! Decisions on submitted completions and on completion keys.

use vstd::prelude::*;
use vstd::utf8::*;
use crate::outside;
use crate::outside::{sign, uuid_to_text};
use crate::persistence::completion;
use crate::persistence::completion::{Completion, HistoryRecoveryCompletionCommand};
use crate::persistence::completion_key;
use crate::persistence::completion_key::{
    decode_descriptor, CompletionKeyDescriptor, CompletionSignerMetadata, Descriptor,
};
use crate::persistence::error::IdentityPersistenceError;
use crate::persistence::fields;
use crate::persistence::fields::{
    bytes_of, digest_fault, digest_of, field, hold_same_uuid, holds_bytes, holds_number, is_digest,
    is_number, is_text, number_of, read_uuid, same_scalar,
};
use crate::wire::bytes::{append_bytes, bytes_equal, to_vec};
use crate::wire::cbor;
use crate::wire::codec::{canonical_bytes, decode_exact, encode_value};
use crate::wire::digest;
use crate::wire::digest::Sha256Digest;
use crate::wire::id::{DeviceId, IdentityId};
use crate::wire::key;
use crate::wire::key::{Ed25519Signature, SigningPublicKey};
use crate::wire::number;
use crate::wire::number::UtcMillis;
use crate::wire::record;
use crate::wire::record::{build_record, exact_fields, CanonicalEncode};
use crate::wire::text;
use crate::wire::text::{encoded_len, text_equal};
use crate::wire::value;
use crate::wire::value::{copy_value, CanonicalValue, Value};

verus! {

/// Domain separator for the digest of a completion receipt.
pub const COMPLETION_RECEIPT_DOMAIN: &'static str =
    "dirextalk.history-recovery.completion-receipt.v2\0";

/// Domain separator for the signature of a completion receipt.
pub const COMPLETION_RECEIPT_SIGNATURE_DOMAIN: &'static str =
    "dirextalk.history-recovery.completion-receipt-signature.v2\0";

/// Domain separator for the digest of a completion command.
pub const COMPLETION_COMMAND_DOMAIN: &'static str =
    "dirextalk.history-recovery.completion-command.v2\0";

/// Domain separator for the digest of an offer acknowledgement.
pub const OFFER_ACK_DOMAIN: &'static str = "dirextalk.history-recovery.offer-ack.v2\0";

/// Domain separator for the digest of a completion statement.
pub const COMPLETE_DOMAIN: &'static str = "dirextalk.history-recovery.complete.v2\0";

/// The lock that serializes changes of the completion key head.
pub const COMPLETION_DESCRIPTOR_HEAD_LOCK_DOMAIN: &'static str =
    "dirextalk.history-recovery.completion-descriptor-head.v2";

/// The lock that serializes the completion of one request.
pub const COMPLETION_REQUEST_LOCK_DOMAIN: &'static str =
    "dirextalk.history-recovery.completion-request.v2";

/// The most bytes of an artifact that a receipt is built from.
pub const MAX_RECEIPT_ARTIFACT_BYTES: usize = 1_100_000;

/// A completion that is already stored.
#[derive(Debug)]
pub struct StoredCompletion {
    /// The receipt that was issued.
    pub receipt_bytes: Vec<u8>,
    /// The digest of the completed command.
    pub completion_digest: Vec<u8>,
}

/// A recovery request as it is stored.
#[derive(Debug)]
pub struct StoredRecoveryRequest {
    /// The text of the identity.
    pub identity_id: String,
    /// The UUID of the candidate device.
    pub candidate_device_id: [u8; 16],
    /// The key of the candidate device.
    pub candidate_signing_key: Vec<u8>,
    /// The digest of the request.
    pub request_digest: Vec<u8>,
    /// The digest of its manifest.
    pub manifest_digest: Vec<u8>,
    /// The digest of its preparation.
    pub preparation_digest: Vec<u8>,
    /// The head after the device was added.
    pub post_head_hash: Vec<u8>,
    /// The sequence of that head.
    pub post_head_sequence: i64,
    /// When the request expires.
    pub expires_at_ms: i64,
}

/// What storage holds about a completion, read under the request's lock.
#[derive(Debug)]
pub struct CompletionRows {
    /// The completion with the same UUID.
    pub by_completion: Option<StoredCompletion>,
    /// The completion with the same idempotency key.
    pub by_idempotency: Option<StoredCompletion>,
    /// The completion of the same request.
    pub by_request: Option<StoredCompletion>,
    /// The request, read under its lock.
    pub request: Option<StoredRecoveryRequest>,
    /// The completion of the same request, looked up again under the lock.
    pub completed: Option<StoredCompletion>,
}

/// A receipt, and whether it was issued by this very submission.
#[derive(Clone, Debug, PartialEq, Eq)]
pub struct CompletionReceiptOutcome {
    /// Whether the receipt is new.
    pub created: bool,
    /// The exact signed receipt.
    pub receipt_bytes: Vec<u8>,
}

/// A completion that storage must insert.
#[derive(Debug)]
pub struct CompletionInsert {
    /// The digest of the command.
    pub completion_digest: Sha256Digest,
    /// The digest of the unsigned receipt.
    pub receipt_digest: Sha256Digest,
    /// The exact signed receipt.
    pub receipt_bytes: Vec<u8>,
    /// When the completion was accepted.
    pub accepted_at: UtcMillis,
}

/// What to do with a submitted completion.
#[derive(Debug)]
pub enum CompletionDecision {
    /// The completion is stored already; hand out its receipt again.
    Replay(CompletionReceiptOutcome),
    /// Insert the completion.
    Insert(CompletionInsert),
}

/// The digest of a completion command.
pub open spec fn command_digest(command: Completion) -> Seq<u8> {
    digest::hash_in_domain(COMPLETION_COMMAND_DOMAIN@, command.exact_bytes)
}

/// What a stored completion answers to a command: nothing if there is none, its
/// receipt if it is of the same command, and a conflict otherwise.
pub open spec fn replay_check(command: Completion, stored: Option<StoredCompletion>) -> Result<
    Option<Seq<u8>>,
    IdentityPersistenceError,
> {
    match stored {
        None => Ok(None),
        Some(stored) => if stored.completion_digest@ == command_digest(command) {
            Ok(Some(stored.receipt_bytes@))
        } else {
            Err(IdentityPersistenceError::IdempotencyConflict)
        },
    }
}

/// The stored request is the one that the command completes, and still open.
pub open spec fn is_request_row(command: Completion, row: StoredRecoveryRequest, now: i64) -> bool {
    &&& row.identity_id@ == command.identity_id
    &&& row.candidate_device_id@ == command.device_id
    &&& row.candidate_signing_key@ == command.candidate_signing_key
    &&& row.request_digest@ == command.request_digest
    &&& row.manifest_digest@ == command.manifest_digest
    &&& row.preparation_digest@ == command.preparation_digest
    &&& row.post_head_hash@ == command.final_head_hash
    &&& row.post_head_sequence as u64 == command.highwater_next
    &&& row.expires_at_ms > now
}

/// The value holds the UUID.
pub open spec fn holds_id(value: Value, id: Seq<u8>) -> bool {
    fields::is_uuid(value) && fields::uuid_of(value) == id
}

/// The artifact of a stored command is a byte string within the limit.
pub open spec fn has_artifact(bytes: Seq<u8>, key: int) -> bool {
    &&& completion::is_nested(bytes, 36)
    &&& fields::is_bytes_within(
        record::field_of(cbor::decoded(bytes), key),
        MAX_RECEIPT_ARTIFACT_BYTES,
    )
}

/// The artifact of a stored command, as a value.
pub open spec fn artifact_value(bytes: Seq<u8>, key: int) -> Value {
    cbor::decoded(record::field_of(cbor::decoded(bytes), key)->Bytes_0)
}

/// The artifact of a stored command is a record of `count` fields.
pub open spec fn is_artifact(bytes: Seq<u8>, key: int, count: nat) -> bool {
    &&& has_artifact(bytes, key)
    &&& completion::is_nested(record::field_of(cbor::decoded(bytes), key)->Bytes_0, count)
}

/// The grant is for the command and names the delivery fact.
pub open spec fn grant_check(grant: Value, command: Completion, delivery_fact: Seq<u8>) -> Result<
    (),
    IdentityPersistenceError,
> {
    if record::field_of(grant, 1) != Value::Unsigned(5) || record::field_of(grant, 2)
        != Value::Text(command.identity_id) || !holds_id(
        record::field_of(grant, 3),
        command.request_id,
    ) {
        completion::refused()
    } else if let Some(error) = fields::digest_error(record::field_of(grant, 4)) {
        Err(error)
    } else if record::field_of(grant, 4) != Value::Bytes(command.request_digest) {
        completion::refused()
    } else if let Some(error) = fields::digest_error(record::field_of(grant, 5)) {
        Err(error)
    } else if record::field_of(grant, 5) != Value::Bytes(command.manifest_digest) || !holds_id(
        record::field_of(grant, 6),
        command.catalog_id,
    ) || record::field_of(grant, 7) != Value::Unsigned(command.catalog_generation) {
        completion::refused()
    } else if let Some(error) = fields::digest_error(record::field_of(grant, 9)) {
        Err(error)
    } else if record::field_of(grant, 9) != Value::Bytes(command.catalog_head_digest) {
        completion::refused()
    } else if let Some(error) = fields::digest_error(record::field_of(grant, 10)) {
        Err(error)
    } else if record::field_of(grant, 10) != Value::Bytes(command.catalog_root_digest)
        || record::field_of(grant, 11) != Value::Unsigned(command.catalog_leaf_count) {
        completion::refused()
    } else if let Some(error) = fields::digest_error(record::field_of(grant, 12)) {
        Err(error)
    } else if record::field_of(grant, 12) != Value::Bytes(command.leaf_set_digest) || !holds_id(
        record::field_of(grant, 13),
        command.device_id,
    ) || record::field_of(grant, 16) != Value::Unsigned(command.highwater) || record::field_of(
        grant,
        18,
    ) != Value::Unsigned(command.highwater_next) {
        completion::refused()
    } else if let Some(error) = fields::digest_error(record::field_of(grant, 19)) {
        Err(error)
    } else if record::field_of(grant, 19) != Value::Bytes(command.final_head_hash) {
        completion::refused()
    } else if let Some(error) = fields::digest_error(record::field_of(grant, 21)) {
        Err(error)
    } else if record::field_of(grant, 21) != Value::Bytes(command.preparation_digest) {
        completion::refused()
    } else if let Some(error) = fields::digest_error(record::field_of(grant, 25)) {
        Err(error)
    } else if record::field_of(grant, 25) != Value::Bytes(command.offer_digest) || !holds_id(
        record::field_of(grant, 30),
        delivery_fact,
    ) {
        completion::refused()
    } else {
        Ok(())
    }
}

/// The delivery fact is of the grant, for the command, and in the grant's
/// window.
pub open spec fn delivery_check(delivery: Value, grant: Value, command: Completion) -> Result<
    (),
    IdentityPersistenceError,
> {
    if record::field_of(delivery, 1) != Value::Unsigned(2) || !fields::same_uuid(
        record::field_of(delivery, 3),
        record::field_of(grant, 26),
    ) || !fields::same_uuid(record::field_of(delivery, 4), record::field_of(grant, 27)) || !(
    record::field_of(delivery, 5) is Unsigned) || record::field_of(delivery, 5)
        != record::field_of(grant, 29) {
        completion::refused()
    } else if let Some(error) = fields::digest_error(record::field_of(delivery, 6)) {
        Err(error)
    } else if record::field_of(delivery, 6) != Value::Bytes(command.grant_digest) {
        completion::refused()
    } else if let Some(error) = fields::digest_error(record::field_of(delivery, 7)) {
        Err(error)
    } else if record::field_of(delivery, 7) != Value::Bytes(command.offer_digest) || !holds_id(
        record::field_of(delivery, 8),
        command.request_id,
    ) || !holds_id(record::field_of(delivery, 9), command.device_id) || !(record::field_of(
        delivery,
        10,
    ) is Unsigned) || !(record::field_of(grant, 31) is Unsigned) || record::field_of(
        delivery,
        10,
    )->Unsigned_0 < record::field_of(grant, 31)->Unsigned_0 || !(record::field_of(
        grant,
        32,
    ) is Unsigned) || record::field_of(delivery, 10)->Unsigned_0 > record::field_of(
        grant,
        32,
    )->Unsigned_0 {
        completion::refused()
    } else {
        Ok(())
    }
}

/// The recipient offer is for the command.
pub open spec fn offer_check(offer: Value, command: Completion) -> Result<
    (),
    IdentityPersistenceError,
> {
    if record::field_of(offer, 1) != Value::Unsigned(3) || !holds_id(
        record::field_of(offer, 2),
        command.request_id,
    ) {
        completion::refused()
    } else if let Some(error) = fields::digest_error(record::field_of(offer, 3)) {
        Err(error)
    } else if record::field_of(offer, 3) != Value::Bytes(command.request_digest) {
        completion::refused()
    } else if let Some(error) = fields::digest_error(record::field_of(offer, 4)) {
        Err(error)
    } else if record::field_of(offer, 4) != Value::Bytes(command.manifest_digest) || !holds_id(
        record::field_of(offer, 5),
        command.catalog_id,
    ) || record::field_of(offer, 6) != Value::Unsigned(command.catalog_generation) {
        completion::refused()
    } else if let Some(error) = fields::digest_error(record::field_of(offer, 7)) {
        Err(error)
    } else if record::field_of(offer, 7) != Value::Bytes(command.catalog_head_digest) {
        completion::refused()
    } else if let Some(error) = fields::digest_error(record::field_of(offer, 8)) {
        Err(error)
    } else if record::field_of(offer, 8) != Value::Bytes(command.leaf_set_digest) {
        completion::refused()
    } else {
        Ok(())
    }
}

/// The artifacts inside the command agree with it and with each other.
pub open spec fn evidence_check(command: Completion) -> Result<(), IdentityPersistenceError> {
    let bytes = command.exact_bytes;
    let delivery = artifact_value(bytes, 26);
    let grant = artifact_value(bytes, 22);
    if !is_artifact(bytes, 26, 12) || !fields::is_uuid(record::field_of(delivery, 2))
        || !is_artifact(bytes, 22, 36) {
        completion::refused()
    } else if let Err(error) = grant_check(
        grant,
        command,
        fields::uuid_of(record::field_of(delivery, 2)),
    ) {
        Err(error)
    } else if let Err(error) = delivery_check(delivery, grant, command) {
        Err(error)
    } else if !is_artifact(bytes, 24, 16) {
        completion::refused()
    } else if let Err(error) = offer_check(artifact_value(bytes, 24), command) {
        Err(error)
    } else if let Some(error) = fields::digest_error(
        record::field_of(cbor::decoded(bytes), 35),
    ) {
        Err(error)
    } else {
        Ok(())
    }
}

/// Whether a value holds the UUID.
fn is_id(value: &CanonicalValue, id: &[u8; 16]) -> (is: bool)
    ensures
        is == holds_id(value@, id@),
{
    match read_uuid(value) {
        Some(found) => bytes_equal(&found, id),
        None => false,
    }
}

/// Why a value is not the digest.
pub open spec fn digest_mismatch(value: Value, expected: Seq<u8>) -> Option<
    IdentityPersistenceError,
> {
    if let Some(error) = fields::digest_error(value) {
        Some(error)
    } else if value != Value::Bytes(expected) {
        Some(IdentityPersistenceError::RecoveryCompletionInvalid)
    } else {
        None
    }
}

/// Why a value is not the digest, if it is not.
fn digest_unlike(value: &CanonicalValue, expected: &Sha256Digest) -> (fault: Option<
    IdentityPersistenceError,
>)
    ensures
        fault == digest_mismatch(value@, expected@),
{
    if let Some(error) = digest_fault(value) {
        return Some(error);
    }
    if !is_digest(value, expected) {
        return Some(IdentityPersistenceError::RecoveryCompletionInvalid);
    }
    None
}

/// Checks the grant against the command and the delivery fact.
fn check_grant(
    grant: &CanonicalValue,
    command: &HistoryRecoveryCompletionCommand,
    delivery_fact: &[u8; 16],
) -> (checked: Result<(), IdentityPersistenceError>)
    requires
        record::is_record(grant@, 36),
    ensures
        checked == grant_check(grant@, command@, delivery_fact@),
{
    let invalid = IdentityPersistenceError::RecoveryCompletionInvalid;
    if !is_number(field(grant, 1), 5) || !is_text(field(grant, 2), command.identity_id.as_str())
        || !is_id(field(grant, 3), &command.request_id) {
        return Err(invalid);
    }
    if let Some(error) = digest_unlike(field(grant, 4), &command.request_digest) {
        return Err(error);
    }
    if let Some(error) = digest_unlike(field(grant, 5), &command.manifest_digest) {
        return Err(error);
    }
    if !is_id(field(grant, 6), &command.catalog_id) || !is_number(
        field(grant, 7),
        command.catalog_generation,
    ) {
        return Err(invalid);
    }
    if let Some(error) = digest_unlike(field(grant, 9), &command.catalog_head_digest) {
        return Err(error);
    }
    if let Some(error) = digest_unlike(field(grant, 10), &command.catalog_root_digest) {
        return Err(error);
    }
    if !is_number(field(grant, 11), command.catalog_leaf_count) {
        return Err(invalid);
    }
    if let Some(error) = digest_unlike(field(grant, 12), &command.leaf_set_digest) {
        return Err(error);
    }
    if !is_id(field(grant, 13), &command.device_id) || !is_number(
        field(grant, 16),
        command.highwater,
    ) || !is_number(field(grant, 18), command.highwater_next) {
        return Err(invalid);
    }
    if let Some(error) = digest_unlike(field(grant, 19), &command.final_head_hash) {
        return Err(error);
    }
    if let Some(error) = digest_unlike(field(grant, 21), &command.preparation_digest) {
        return Err(error);
    }
    if let Some(error) = digest_unlike(field(grant, 25), &command.offer_digest) {
        return Err(error);
    }
    if !is_id(field(grant, 30), delivery_fact) {
        return Err(invalid);
    }
    Ok(())
}

/// Checks the delivery fact against the grant and the command.
fn check_delivery(
    delivery: &CanonicalValue,
    grant: &CanonicalValue,
    command: &HistoryRecoveryCompletionCommand,
) -> (checked: Result<(), IdentityPersistenceError>)
    requires
        record::is_record(delivery@, 12),
        record::is_record(grant@, 36),
    ensures
        checked == delivery_check(delivery@, grant@, command@),
{
    let invalid = IdentityPersistenceError::RecoveryCompletionInvalid;
    if !is_number(field(delivery, 1), 2) || !hold_same_uuid(field(delivery, 3), field(grant, 26))
        || !hold_same_uuid(field(delivery, 4), field(grant, 27)) || !holds_number(
        field(delivery, 5),
    ) || !same_scalar(field(grant, 29), field(delivery, 5)) {
        return Err(invalid);
    }
    if let Some(error) = digest_unlike(field(delivery, 6), &command.grant_digest) {
        return Err(error);
    }
    if let Some(error) = digest_unlike(field(delivery, 7), &command.offer_digest) {
        return Err(error);
    }
    if !is_id(field(delivery, 8), &command.request_id) || !is_id(
        field(delivery, 9),
        &command.device_id,
    ) || !holds_number(field(delivery, 10)) || !holds_number(field(grant, 31)) || number_of(
        field(delivery, 10),
    ) < number_of(field(grant, 31)) || !holds_number(field(grant, 32)) || number_of(
        field(delivery, 10),
    ) > number_of(field(grant, 32)) {
        return Err(invalid);
    }
    Ok(())
}

/// Checks the recipient offer against the command.
fn check_offer(offer: &CanonicalValue, command: &HistoryRecoveryCompletionCommand) -> (checked:
    Result<(), IdentityPersistenceError>)
    requires
        record::is_record(offer@, 16),
    ensures
        checked == offer_check(offer@, command@),
{
    let invalid = IdentityPersistenceError::RecoveryCompletionInvalid;
    if !is_number(field(offer, 1), 3) || !is_id(field(offer, 2), &command.request_id) {
        return Err(invalid);
    }
    if let Some(error) = digest_unlike(field(offer, 3), &command.request_digest) {
        return Err(error);
    }
    if let Some(error) = digest_unlike(field(offer, 4), &command.manifest_digest) {
        return Err(error);
    }
    if !is_id(field(offer, 5), &command.catalog_id) || !is_number(
        field(offer, 6),
        command.catalog_generation,
    ) {
        return Err(invalid);
    }
    if let Some(error) = digest_unlike(field(offer, 7), &command.catalog_head_digest) {
        return Err(error);
    }
    if let Some(error) = digest_unlike(field(offer, 8), &command.leaf_set_digest) {
        return Err(error);
    }
    Ok(())
}

/// Opens an artifact of a stored command as a record of `count` fields.
fn open_artifact(bytes: &[u8], key: usize, count: usize) -> (artifact: Option<CanonicalValue>)
    requires
        1 <= key <= 36,
    ensures
        match artifact {
            Some(artifact) => {
                &&& is_artifact(bytes@, key as int, count as nat)
                &&& artifact@ == artifact_value(bytes@, key as int)
            },
            None => !is_artifact(bytes@, key as int, count as nat),
        },
{
    let value = match decode_exact(bytes) {
        Some(value) => value,
        None => {
            return None;
        },
    };
    if exact_fields(&value, 36).is_none() || !holds_bytes(
        field(&value, key),
        MAX_RECEIPT_ARTIFACT_BYTES,
    ) {
        return None;
    }
    match decode_exact(bytes_of(field(&value, key)).as_slice()) {
        Some(artifact) => {
            if exact_fields(&artifact, count).is_some() {
                Some(artifact)
            } else {
                None
            }
        },
        None => None,
    }
}

/// Checks the artifacts inside the command; gives the delivery fact and the
/// digest of the context.
fn check_evidence(command: &HistoryRecoveryCompletionCommand) -> (evidence: Result<
    ([u8; 16], Sha256Digest),
    IdentityPersistenceError,
>)
    ensures
        match evidence {
            Ok(evidence) => {
                &&& evidence_check(command@) is Ok
                &&& evidence.0@ == delivery_fact_of(command@)
                &&& evidence.1@ == context_digest_of(command@)
            },
            Err(error) => evidence_check(command@) == Err::<(), IdentityPersistenceError>(error),
        },
{
    let invalid = IdentityPersistenceError::RecoveryCompletionInvalid;
    let bytes = command.exact_bytes.as_slice();
    let delivery = match open_artifact(bytes, 26, 12) {
        Some(delivery) => delivery,
        None => {
            return Err(invalid);
        },
    };
    let delivery_fact = match read_uuid(field(&delivery, 2)) {
        Some(id) => id,
        None => {
            return Err(invalid);
        },
    };
    let grant = match open_artifact(bytes, 22, 36) {
        Some(grant) => grant,
        None => {
            return Err(invalid);
        },
    };
    if let Err(error) = check_grant(&grant, command, &delivery_fact) {
        return Err(error);
    }
    if let Err(error) = check_delivery(&delivery, &grant, command) {
        return Err(error);
    }
    let offer = match open_artifact(bytes, 24, 16) {
        Some(offer) => offer,
        None => {
            return Err(invalid);
        },
    };
    if let Err(error) = check_offer(&offer, command) {
        return Err(error);
    }
    let value = match decode_exact(bytes) {
        Some(value) => value,
        None => {
            return Err(invalid);
        },
    };
    if let Some(error) = digest_fault(field(&value, 35)) {
        return Err(error);
    }
    Ok((delivery_fact, digest_of(field(&value, 35))))
}

/// The UUID of the delivery fact inside a command.
pub open spec fn delivery_fact_of(command: Completion) -> Seq<u8> {
    fields::uuid_of(record::field_of(artifact_value(command.exact_bytes, 26), 2))
}

/// The digest of the context inside a command.
pub open spec fn context_digest_of(command: Completion) -> Seq<u8> {
    record::field_of(cbor::decoded(command.exact_bytes), 35)->Bytes_0
}

/// The fields of the acknowledgement of an offer.
pub open spec fn ack_fields(command: Completion, now: i64) -> Seq<Value> {
    seq![
        Value::Unsigned(2),
        Value::Text(text::hyphenated(command.completion_id)),
        Value::Text(text::hyphenated(command.request_id)),
        Value::Text(text::hyphenated(delivery_fact_of(command))),
        Value::Bytes(command.delivery_digest),
        Value::Bytes(command.offer_digest),
        Value::Bytes(context_digest_of(command)),
        number::millis_model(now),
    ]
}

/// The acknowledgement of an offer.
pub open spec fn ack_model(command: Completion, now: i64) -> Value {
    record::record(ack_fields(command, now))
}

/// The fields of the statement that a recovery is complete.
pub open spec fn complete_fields(command: Completion, now: i64) -> Seq<Value> {
    seq![
        Value::Unsigned(2),
        Value::Text(command.identity_id),
        Value::Text(text::hyphenated(command.completion_id)),
        Value::Text(text::hyphenated(command.request_id)),
        Value::Text(text::hyphenated(command.device_id)),
        Value::Bytes(command.request_digest),
        Value::Bytes(context_digest_of(command)),
        Value::Unsigned(command.catalog_leaf_count),
        Value::Bytes(command.entry_root),
        number::millis_model(now),
        Value::Unsigned(1),
    ]
}

/// The statement that a recovery is complete.
pub open spec fn complete_model(command: Completion, now: i64) -> Value {
    record::record(complete_fields(command, now))
}

/// The fields of a completion receipt.
pub open spec fn receipt_fields(
    command: Completion,
    descriptor: Descriptor,
    now: i64,
) -> Seq<Value> {
    seq![
        Value::Unsigned(2),
        Value::Text(text::hyphenated(command.completion_id)),
        Value::Text(command.identity_id),
        Value::Text(text::hyphenated(command.device_id)),
        Value::Unsigned(command.highwater),
        Value::Unsigned(command.highwater_next),
        Value::Bytes(command.final_head_hash),
        Value::Text(text::hyphenated(command.catalog_id)),
        Value::Unsigned(command.catalog_generation),
        Value::Bytes(command.catalog_head_digest),
        Value::Unsigned(command.catalog_leaf_count),
        Value::Bytes(command.leaf_set_digest),
        Value::Text(text::hyphenated(command.request_id)),
        Value::Bytes(command.request_digest),
        Value::Bytes(command.manifest_digest),
        Value::Bytes(command.grant_digest),
        Value::Bytes(command.offer_digest),
        Value::Text(text::hyphenated(delivery_fact_of(command))),
        Value::Bytes(command.delivery_digest),
        Value::Bytes(command.entry_root),
        Value::Unsigned(command.catalog_leaf_count),
        ack_model(command, now),
        Value::Bytes(
            digest::hash_in_domain(OFFER_ACK_DOMAIN@, cbor::encoding(ack_model(command, now))),
        ),
        complete_model(command, now),
        Value::Bytes(
            digest::hash_in_domain(COMPLETE_DOMAIN@, cbor::encoding(complete_model(command, now))),
        ),
        Value::Bytes(context_digest_of(command)),
        Value::Text(text::hyphenated(descriptor.key_id)),
        Value::Bytes(descriptor.digest),
        Value::Unsigned(descriptor.epoch),
        number::millis_model(now),
        Value::Unsigned(1),
    ]
}

/// A completion receipt.
pub open spec fn receipt_model(command: Completion, descriptor: Descriptor, now: i64) -> Value {
    record::record(receipt_fields(command, descriptor, now))
}

/// The digest of a completion receipt.
pub open spec fn receipt_digest_of(command: Completion, descriptor: Descriptor, now: i64) -> Seq<
    u8,
> {
    digest::hash_in_domain(
        COMPLETION_RECEIPT_DOMAIN@,
        cbor::encoding(receipt_model(command, descriptor, now)),
    )
}

/// A receipt together with its digest and the key that signs it.
pub open spec fn wrapper_fields(command: Completion, descriptor: Descriptor, now: i64) -> Seq<
    Value,
> {
    seq![
        receipt_model(command, descriptor, now),
        Value::Bytes(receipt_digest_of(command, descriptor, now)),
        cbor::decoded(descriptor.exact_bytes),
        Value::Bytes(descriptor.digest),
    ]
}

/// The bytes that the signature of a receipt is made over.
pub open spec fn receipt_signed_bytes(command: Completion, descriptor: Descriptor, now: i64) -> Seq<
    u8,
> {
    encode_utf8(COMPLETION_RECEIPT_SIGNATURE_DOMAIN@) + cbor::encoding(
        record::record(wrapper_fields(command, descriptor, now)),
    )
}

/// The signature of the completion key over a wrapped receipt.
pub open spec fn receipt_signature(
    command: Completion,
    descriptor: Descriptor,
    now: i64,
    secret: Seq<u8>,
) -> Seq<u8> {
    outside::ed25519_signature_of(secret, receipt_signed_bytes(command, descriptor, now))
}

/// The byte form of a signed receipt.
pub open spec fn signed_receipt(
    command: Completion,
    descriptor: Descriptor,
    now: i64,
    secret: Seq<u8>,
) -> Seq<u8> {
    cbor::encoding(
        record::record(
            wrapper_fields(command, descriptor, now).push(
                Value::Bytes(receipt_signature(command, descriptor, now, secret)),
            ),
        ),
    )
}

/// The descriptor's bytes are a value that a receipt can hold.
pub open spec fn is_receipt_descriptor(descriptor: Descriptor) -> bool {
    &&& cbor::is_encoded(descriptor.exact_bytes)
    &&& cbor::canonical_within(cbor::decoded(descriptor.exact_bytes), 31)
}

/// The parts of a command have the lengths that its types give them.
pub open spec fn has_lengths(command: Completion) -> bool {
    &&& command.completion_id.len() == 16
    &&& encode_utf8(command.identity_id).len() <= u64::MAX
    &&& command.device_id.len() == 16
    &&& command.catalog_id.len() == 16
    &&& command.request_id.len() == 16
    &&& command.final_head_hash.len() == 32
    &&& command.catalog_head_digest.len() == 32
    &&& command.leaf_set_digest.len() == 32
    &&& command.request_digest.len() == 32
    &&& command.manifest_digest.len() == 32
    &&& command.grant_digest.len() == 32
    &&& command.offer_digest.len() == 32
    &&& command.delivery_digest.len() == 32
    &&& command.entry_root.len() == 32
    &&& delivery_fact_of(command).len() == 16
    &&& context_digest_of(command).len() == 32
}

/// The parts of a receipt are canonical.
pub proof fn lemma_parts_canonical(command: Completion, now: i64)
    requires
        has_lengths(command),
    ensures
        cbor::canonical_within(ack_model(command, now), 29),
        cbor::canonical_within(complete_model(command, now), 29),
        cbor::canonical(ack_model(command, now)),
        cbor::canonical(complete_model(command, now)),
{
    record::lemma_uuid_canonical(command.completion_id);
    record::lemma_uuid_canonical(command.request_id);
    record::lemma_uuid_canonical(command.device_id);
    record::lemma_uuid_canonical(delivery_fact_of(command));
    record::lemma_record_canonical(ack_fields(command, now), 28);
    record::lemma_record_canonical(complete_fields(command, now), 28);
    record::lemma_canonical_deeper(ack_model(command, now), 29, 32);
    record::lemma_canonical_deeper(complete_model(command, now), 29, 32);
}

/// A receipt is canonical.
pub proof fn lemma_receipt_canonical(command: Completion, descriptor: Descriptor, now: i64)
    requires
        has_lengths(command),
        descriptor.key_id.len() == 16,
        descriptor.digest.len() == 32,
        digest::hash_in_domain(OFFER_ACK_DOMAIN@, cbor::encoding(ack_model(command, now))).len()
            == 32,
        digest::hash_in_domain(COMPLETE_DOMAIN@, cbor::encoding(complete_model(command, now))).len()
            == 32,
    ensures
        cbor::canonical_within(receipt_model(command, descriptor, now), 30),
        cbor::canonical(receipt_model(command, descriptor, now)),
{
    lemma_parts_canonical(command, now);
    record::lemma_uuid_canonical(command.completion_id);
    record::lemma_uuid_canonical(command.request_id);
    record::lemma_uuid_canonical(command.device_id);
    record::lemma_uuid_canonical(command.catalog_id);
    record::lemma_uuid_canonical(delivery_fact_of(command));
    record::lemma_uuid_canonical(descriptor.key_id);
    record::lemma_record_canonical(receipt_fields(command, descriptor, now), 29);
    record::lemma_canonical_deeper(receipt_model(command, descriptor, now), 30, 32);
}

/// Builds the acknowledgement of an offer.
fn ack_value(
    command: &HistoryRecoveryCompletionCommand,
    delivery_fact: &[u8; 16],
    context_digest: &Sha256Digest,
    now: UtcMillis,
) -> (value: CanonicalValue)
    requires
        delivery_fact@ == delivery_fact_of(command@),
        context_digest@ == context_digest_of(command@),
    ensures
        value@ == ack_model(command@, now@),
{
    let fields: Vec<CanonicalValue> = vec![
        CanonicalValue::Unsigned(2),
        CanonicalValue::Text(uuid_to_text(&command.completion_id)),
        CanonicalValue::Text(uuid_to_text(&command.request_id)),
        CanonicalValue::Text(uuid_to_text(delivery_fact)),
        command.delivery_digest.to_canonical_value(),
        command.offer_digest.to_canonical_value(),
        context_digest.to_canonical_value(),
        now.to_canonical_value(),
    ];
    assert(value::items_view(fields@) =~= ack_fields(command@, now@));
    build_record(fields)
}

/// Builds the statement that a recovery is complete.
fn complete_value(
    command: &HistoryRecoveryCompletionCommand,
    context_digest: &Sha256Digest,
    now: UtcMillis,
) -> (value: CanonicalValue)
    requires
        context_digest@ == context_digest_of(command@),
    ensures
        value@ == complete_model(command@, now@),
{
    let fields: Vec<CanonicalValue> = vec![
        CanonicalValue::Unsigned(2),
        CanonicalValue::Text(command.identity_id.clone()),
        CanonicalValue::Text(uuid_to_text(&command.completion_id)),
        CanonicalValue::Text(uuid_to_text(&command.request_id)),
        CanonicalValue::Text(uuid_to_text(&command.device_id)),
        command.request_digest.to_canonical_value(),
        context_digest.to_canonical_value(),
        CanonicalValue::Unsigned(command.catalog_leaf_count),
        command.entry_root.to_canonical_value(),
        now.to_canonical_value(),
        CanonicalValue::Unsigned(1),
    ];
    assert(value::items_view(fields@) =~= complete_fields(command@, now@));
    build_record(fields)
}

/// Builds a completion receipt.
fn receipt_value(
    command: &HistoryRecoveryCompletionCommand,
    descriptor: &CompletionKeyDescriptor,
    delivery_fact: &[u8; 16],
    context_digest: &Sha256Digest,
    now: UtcMillis,
) -> (value: CanonicalValue)
    requires
        has_lengths(command@),
        delivery_fact@ == delivery_fact_of(command@),
        context_digest@ == context_digest_of(command@),
    ensures
        value@ == receipt_model(command@, descriptor@, now@),
        cbor::canonical_within(value@, 30),
        cbor::canonical(value@),
{
    proof {
        lemma_parts_canonical(command@, now@);
    }
    let ack_bytes = canonical_bytes(&ack_value(command, delivery_fact, context_digest, now));
    let ack_digest = Sha256Digest::hash_domain(OFFER_ACK_DOMAIN, ack_bytes.as_slice());
    let complete_bytes = canonical_bytes(&complete_value(command, context_digest, now));
    let complete_digest = Sha256Digest::hash_domain(COMPLETE_DOMAIN, complete_bytes.as_slice());
    let fields: Vec<CanonicalValue> = vec![
        CanonicalValue::Unsigned(2),
        CanonicalValue::Text(uuid_to_text(&command.completion_id)),
        CanonicalValue::Text(command.identity_id.clone()),
        CanonicalValue::Text(uuid_to_text(&command.device_id)),
        CanonicalValue::Unsigned(command.highwater),
        CanonicalValue::Unsigned(command.highwater_next),
        command.final_head_hash.to_canonical_value(),
        CanonicalValue::Text(uuid_to_text(&command.catalog_id)),
        CanonicalValue::Unsigned(command.catalog_generation),
        command.catalog_head_digest.to_canonical_value(),
        CanonicalValue::Unsigned(command.catalog_leaf_count),
        command.leaf_set_digest.to_canonical_value(),
        CanonicalValue::Text(uuid_to_text(&command.request_id)),
        command.request_digest.to_canonical_value(),
        command.manifest_digest.to_canonical_value(),
        command.grant_digest.to_canonical_value(),
        command.offer_digest.to_canonical_value(),
        CanonicalValue::Text(uuid_to_text(delivery_fact)),
        command.delivery_digest.to_canonical_value(),
        command.entry_root.to_canonical_value(),
        CanonicalValue::Unsigned(command.catalog_leaf_count),
        ack_value(command, delivery_fact, context_digest, now),
        ack_digest.to_canonical_value(),
        complete_value(command, context_digest, now),
        complete_digest.to_canonical_value(),
        context_digest.to_canonical_value(),
        CanonicalValue::Text(uuid_to_text(&descriptor.key_id)),
        descriptor.digest.to_canonical_value(),
        CanonicalValue::Unsigned(descriptor.epoch),
        now.to_canonical_value(),
        CanonicalValue::Unsigned(1),
    ];
    proof {
        ack_digest.lemma_len();
        complete_digest.lemma_len();
        descriptor.digest.lemma_len();
        lemma_receipt_canonical(command@, descriptor@, now@);
    }
    assert(value::items_view(fields@) =~= receipt_fields(command@, descriptor@, now@));
    build_record(fields)
}

/// Builds and signs the receipt of a command whose evidence was checked.
fn build_receipt(
    command: &HistoryRecoveryCompletionCommand,
    descriptor: &CompletionKeyDescriptor,
    delivery_fact: &[u8; 16],
    context_digest: &Sha256Digest,
    secret_key: &[u8; 32],
    now: UtcMillis,
) -> (insert: Result<CompletionInsert, IdentityPersistenceError>)
    requires
        delivery_fact@ == delivery_fact_of(command@),
        context_digest@ == context_digest_of(command@),
    ensures
        match insert {
            Ok(insert) => {
                &&& is_receipt_descriptor(descriptor@)
                &&& is_insert(insert, command@, descriptor@, now@, secret_key@)
            },
            Err(error) => {
                &&& !is_receipt_descriptor(descriptor@)
                &&& error == IdentityPersistenceError::RecoveryCompletionInvalid
            },
        },
{
    let invalid = IdentityPersistenceError::RecoveryCompletionInvalid;
    let text_len: usize = encoded_len(command.identity_id.as_str());
    proof {
        command.final_head_hash.lemma_len();
        command.catalog_head_digest.lemma_len();
        command.leaf_set_digest.lemma_len();
        command.request_digest.lemma_len();
        command.manifest_digest.lemma_len();
        command.grant_digest.lemma_len();
        command.offer_digest.lemma_len();
        command.delivery_digest.lemma_len();
        command.entry_root.lemma_len();
        context_digest.lemma_len();
        descriptor.digest.lemma_len();
        assert(has_lengths(command@));
    }
    let descriptor_value = match decode_exact(descriptor.exact_bytes.as_slice()) {
        Some(value) => value,
        None => {
            return Err(invalid);
        },
    };
    let receipt = receipt_value(command, descriptor, delivery_fact, context_digest, now);
    let receipt_digest = Sha256Digest::hash_domain(
        COMPLETION_RECEIPT_DOMAIN,
        canonical_bytes(&receipt).as_slice(),
    );
    let ghost parts = wrapper_fields(command@, descriptor@, now@);
    let unsigned_fields: Vec<CanonicalValue> = vec![
        copy_value(&receipt),
        receipt_digest.to_canonical_value(),
        copy_value(&descriptor_value),
        descriptor.digest.to_canonical_value(),
    ];
    proof {
        receipt_digest.lemma_len();
        record::lemma_canonical_deeper(receipt@, 30, 31);
        if cbor::canonical_within(descriptor_value@, 31) {
            record::lemma_record_canonical(parts, 31);
        }
        assert(record::record(parts)->Entries_0[2].1 == descriptor_value@);
        assert(value::items_view(unsigned_fields@) =~= parts);
    }
    let unsigned_bytes = match encode_value(&build_record(unsigned_fields)) {
        Ok(bytes) => bytes,
        Err(_) => {
            return Err(invalid);
        },
    };
    let mut input: Vec<u8> = to_vec(COMPLETION_RECEIPT_SIGNATURE_DOMAIN.as_bytes());
    append_bytes(&mut input, unsigned_bytes.as_slice());
    let signature = Ed25519Signature::from_bytes(sign(secret_key, input.as_slice()));
    let signed_fields: Vec<CanonicalValue> = vec![
        receipt,
        receipt_digest.to_canonical_value(),
        descriptor_value,
        descriptor.digest.to_canonical_value(),
        signature.to_canonical_value(),
    ];
    proof {
        signature.lemma_len();
        let complete = parts.push(Value::Bytes(signature@));
        record::lemma_record_canonical(complete, 31);
        assert(value::items_view(signed_fields@) =~= complete);
    }
    let receipt_bytes = canonical_bytes(&build_record(signed_fields));
    Ok(
        CompletionInsert {
            completion_digest: digest_command(command),
            receipt_digest,
            receipt_bytes,
            accepted_at: now,
        },
    )
}

/// The digest of a command.
fn digest_command(command: &HistoryRecoveryCompletionCommand) -> (digest: Sha256Digest)
    ensures
        digest@ == command_digest(command@),
{
    Sha256Digest::hash_domain(COMPLETION_COMMAND_DOMAIN, command.exact_bytes.as_slice())
}

/// What is inserted for a command: its receipt, with a signature that the public
/// key of the secret verifies.
pub open spec fn is_insert(
    insert: CompletionInsert,
    command: Completion,
    descriptor: Descriptor,
    now: i64,
    secret: Seq<u8>,
) -> bool {
    &&& insert.completion_digest@ == command_digest(command)
    &&& insert.receipt_digest@ == receipt_digest_of(command, descriptor, now)
    &&& insert.receipt_bytes@ == signed_receipt(command, descriptor, now, secret)
    &&& outside::ed25519_accepted(
        outside::ed25519_public_key_of(secret),
        receipt_signed_bytes(command, descriptor, now),
        receipt_signature(command, descriptor, now, secret),
    )
    &&& insert.accepted_at@ == now
}

/// What stored rows answer to a command before it is looked at: a receipt, if
/// the same command was completed before.
pub open spec fn rows_check(command: Completion, rows: CompletionRows) -> Result<
    Option<Seq<u8>>,
    IdentityPersistenceError,
> {
    match replay_check(command, rows.by_completion) {
        Ok(None) => match replay_check(command, rows.by_idempotency) {
            Ok(None) => replay_check(command, rows.by_request),
            other => other,
        },
        other => other,
    }
}

/// The command and the completion key hold at `now`, and the command stays
/// within the lifetime of the key.
pub open spec fn is_current(command: Completion, descriptor: Descriptor, now: i64) -> bool {
    &&& command.issued_at <= now < command.expires_at
    &&& descriptor.issued_at <= now < descriptor.expires_at
    &&& descriptor.issued_at <= command.issued_at
    &&& command.expires_at <= descriptor.expires_at
}

/// What is answered to a command before the artifacts inside it are looked at:
/// the receipt that it earned before, even after its lifetime, or why it is
/// refused. A completion of its request that came in between is found under the
/// lock of an open request.
pub open spec fn answer_check(
    command: Completion,
    rows: CompletionRows,
    descriptor: Descriptor,
    now: i64,
) -> Result<Option<Seq<u8>>, IdentityPersistenceError> {
    match rows_check(command, rows) {
        Ok(None) => if !is_current(command, descriptor, now) {
            Err(IdentityPersistenceError::RecoveryCompletionExpired)
        } else if rows.request is None || !is_request_row(command, rows.request->0, now) {
            Err(IdentityPersistenceError::RecoveryCompletionInvalid)
        } else {
            replay_check(command, rows.completed)
        },
        other => other,
    }
}

/// Why no receipt can be made for a command and a completion key, if none can.
pub open spec fn receipt_check(command: Completion, descriptor: Descriptor) -> Result<
    (),
    IdentityPersistenceError,
> {
    if let Err(error) = evidence_check(command) {
        Err(error)
    } else if !is_receipt_descriptor(descriptor) {
        completion::refused()
    } else {
        Ok(())
    }
}

/// The session is that of the candidate device of the command.
pub open spec fn is_candidate_session(
    command: Completion,
    identity: Seq<u8>,
    device: Seq<u8>,
    key: Seq<u8>,
) -> bool {
    &&& text::hex(identity) == command.identity_id
    &&& device == command.device_id
    &&& key == command.candidate_signing_key
}

/// Looks up what a stored completion answers to a command.
fn replay(command: &HistoryRecoveryCompletionCommand, stored: &Option<StoredCompletion>) -> (answer:
    Result<Option<Vec<u8>>, IdentityPersistenceError>)
    ensures
        match answer {
            Ok(Some(receipt)) => replay_check(command@, *stored) == Ok::<
                Option<Seq<u8>>,
                IdentityPersistenceError,
            >(Some(receipt@)),
            Ok(None) => replay_check(command@, *stored) == Ok::<
                Option<Seq<u8>>,
                IdentityPersistenceError,
            >(None),
            Err(error) => replay_check(command@, *stored) == Err::<
                Option<Seq<u8>>,
                IdentityPersistenceError,
            >(error),
        },
{
    match stored {
        None => Ok(None),
        Some(stored) => {
            if bytes_equal(
                stored.completion_digest.as_slice(),
                digest_command(command).as_bytes(),
            ) {
                Ok(Some(to_vec(stored.receipt_bytes.as_slice())))
            } else {
                Err(IdentityPersistenceError::IdempotencyConflict)
            }
        },
    }
}

/// Whether the stored request is the one that the command completes.
fn matches_request(
    command: &HistoryRecoveryCompletionCommand,
    row: &StoredRecoveryRequest,
    now: UtcMillis,
) -> (matches: bool)
    ensures
        matches == is_request_row(command@, *row, now@),
{
    text_equal(row.identity_id.as_str(), command.identity_id.as_str()) && bytes_equal(
        &row.candidate_device_id,
        &command.device_id,
    ) && bytes_equal(row.candidate_signing_key.as_slice(), &command.candidate_signing_key)
        && bytes_equal(row.request_digest.as_slice(), command.request_digest.as_bytes())
        && bytes_equal(row.manifest_digest.as_slice(), command.manifest_digest.as_bytes())
        && bytes_equal(row.preparation_digest.as_slice(), command.preparation_digest.as_bytes())
        && bytes_equal(row.post_head_hash.as_slice(), command.final_head_hash.as_bytes())
        && row.post_head_sequence as u64 == command.highwater_next && row.expires_at_ms > now.get()
}

/// The completion key that storage knows under a digest.
#[derive(Debug)]
pub struct StoredDescriptor {
    /// The exact bytes of the descriptor.
    pub descriptor_bytes: Vec<u8>,
    /// Its epoch.
    pub epoch: i64,
    /// Its rollback floor.
    pub rollback_floor_epoch: i64,
}

/// The completion key that storage holds as current.
#[derive(Debug)]
pub struct StoredDescriptorHead {
    /// The digest of the descriptor.
    pub descriptor_digest: Vec<u8>,
    /// Its epoch.
    pub epoch: i64,
    /// Its rollback floor.
    pub rollback_floor_epoch: i64,
}

/// The epoch after `epoch`; the last one has no other.
pub open spec fn next_epoch(epoch: u64) -> u64 {
    if epoch == u64::MAX {
        epoch
    } else {
        (epoch + 1) as u64
    }
}

/// The descriptor keeps or continues the current one, and never lowers the
/// rollback floor.
pub open spec fn continues(descriptor: Descriptor, head: StoredDescriptorHead) -> bool {
    &&& if descriptor.digest == head.descriptor_digest@ {
        descriptor.epoch == head.epoch as u64
    } else {
        &&& descriptor.epoch == next_epoch(head.epoch as u64)
        &&& descriptor.previous_descriptor_digest == Some(head.descriptor_digest@)
    }
    &&& descriptor.rollback_floor_epoch >= head.rollback_floor_epoch as u64
}

/// The stored descriptor is this one.
pub open spec fn is_stored(descriptor: Descriptor, stored: StoredDescriptor) -> bool {
    &&& stored.descriptor_bytes@ == descriptor.exact_bytes
    &&& stored.epoch == descriptor.epoch as i64
    &&& stored.rollback_floor_epoch == descriptor.rollback_floor_epoch as i64
}

/// Whether a descriptor may become the current one, and if so whether it has to
/// be stored.
pub open spec fn descriptor_check(
    descriptor: Descriptor,
    existing: Option<StoredDescriptor>,
    head: Option<StoredDescriptorHead>,
) -> Result<bool, IdentityPersistenceError> {
    if head is Some && head->0.descriptor_digest@.len() != 32 {
        Err(IdentityPersistenceError::CorruptData("completion digest"))
    } else if head is Some && !continues(descriptor, head->0) {
        Err(IdentityPersistenceError::RecoveryCompletionSignerMismatch)
    } else if existing is Some {
        if is_stored(descriptor, existing->0) {
            Ok(false)
        } else {
            Err(IdentityPersistenceError::RecoveryCompletionSignerMismatch)
        }
    } else if head is None && (descriptor.epoch != 1 || descriptor.previous_descriptor_digest
        is Some) {
        Err(IdentityPersistenceError::RecoveryCompletionSignerMismatch)
    } else {
        Ok(true)
    }
}

/// Whether the descriptor keeps or continues the current one.
fn continues_head(
    descriptor: &CompletionKeyDescriptor,
    head: &StoredDescriptorHead,
) -> (continues_it:
    bool)
    ensures
        continues_it == continues(descriptor@, *head),
{
    let epoch: u64 = head.epoch as u64;
    let floor: u64 = head.rollback_floor_epoch as u64;
    let next: u64 = if epoch == u64::MAX {
        epoch
    } else {
        epoch + 1
    };
    let placed = if bytes_equal(
        descriptor.digest.as_bytes(),
        head.descriptor_digest.as_slice(),
    ) {
        descriptor.epoch == epoch
    } else {
        descriptor.epoch == next && match &descriptor.previous_descriptor_digest {
            Some(previous) => bytes_equal(
                previous.as_bytes(),
                head.descriptor_digest.as_slice(),
            ),
            None => false,
        }
    };
    placed && descriptor.rollback_floor_epoch >= floor
}

/// Completions of history recoveries.
#[derive(Clone, Copy, Debug, Default)]
pub struct HistoryRecoveryCompletionRepository;

impl HistoryRecoveryCompletionRepository {
    /// The receipt of a stored completion, if the session's device earned it.
    pub fn get_receipt(
        &self,
        session_device: DeviceId,
        stored: Option<(Vec<u8>, [u8; 16])>,
    ) -> (receipt: Option<Vec<u8>>)
        ensures
            match stored {
                Some(row) => if row.1@ == session_device@ {
                    receipt is Some && receipt->0@ == row.0@
                } else {
                    receipt is None
                },
                None => receipt is None,
            },
    {
        match stored {
            Some(row) => {
                if bytes_equal(&row.1, session_device.as_uuid_bytes()) {
                    Some(row.0)
                } else {
                    None
                }
            },
            None => None,
        }
    }

    /// Decides on a submitted completion as far as its request need not be
    /// locked: gives the receipt that the command earned before, if it did.
    pub fn resume(
        &self,
        session_identity: IdentityId,
        session_device: DeviceId,
        session_key: SigningPublicKey,
        command: &HistoryRecoveryCompletionCommand,
        rows: &CompletionRows,
        descriptor: &CompletionKeyDescriptor,
        now: UtcMillis,
    ) -> (resumed: Result<Option<CompletionReceiptOutcome>, IdentityPersistenceError>)
        ensures
            ({
                let candidate = is_candidate_session(
                    command@,
                    session_identity@,
                    session_device@,
                    session_key@,
                );
                let replayed = rows_check(command@, *rows);
                match resumed {
                    Ok(Some(outcome)) => {
                        &&& candidate
                        &&& replayed == Ok::<Option<Seq<u8>>, IdentityPersistenceError>(
                            Some(outcome.receipt_bytes@),
                        )
                        &&& !outcome.created
                    },
                    Ok(None) => {
                        &&& candidate
                        &&& replayed == Ok::<Option<Seq<u8>>, IdentityPersistenceError>(None)
                        &&& is_current(command@, descriptor@, now@)
                    },
                    Err(error) => if !candidate {
                        error == IdentityPersistenceError::DeviceAuthenticationRejected
                    } else if let Err(conflict) = replayed {
                        error == conflict
                    } else {
                        &&& replayed == Ok::<Option<Seq<u8>>, IdentityPersistenceError>(None)
                        &&& !is_current(command@, descriptor@, now@)
                        &&& error == IdentityPersistenceError::RecoveryCompletionExpired
                    },
                }
            }),
    {
        if !text_equal(session_identity.to_text().as_str(), command.identity_id.as_str())
            || !bytes_equal(session_device.as_uuid_bytes(), &command.device_id) || !bytes_equal(
            session_key.as_bytes(),
            &command.candidate_signing_key,
        ) {
            return Err(IdentityPersistenceError::DeviceAuthenticationRejected);
        }
        match replay(command, &rows.by_completion) {
            Ok(None) => {},
            Ok(Some(receipt_bytes)) => {
                return Ok(Some(CompletionReceiptOutcome { created: false, receipt_bytes }));
            },
            Err(error) => {
                return Err(error);
            },
        }
        match replay(command, &rows.by_idempotency) {
            Ok(None) => {},
            Ok(Some(receipt_bytes)) => {
                return Ok(Some(CompletionReceiptOutcome { created: false, receipt_bytes }));
            },
            Err(error) => {
                return Err(error);
            },
        }
        match replay(command, &rows.by_request) {
            Ok(None) => {},
            Ok(Some(receipt_bytes)) => {
                return Ok(Some(CompletionReceiptOutcome { created: false, receipt_bytes }));
            },
            Err(error) => {
                return Err(error);
            },
        }
        let at: i64 = now.get();
        if command.issued_at.get() > at || at >= command.expires_at.get() || at
            < descriptor.issued_at.get() || at >= descriptor.expires_at.get()
            || command.issued_at.get() < descriptor.issued_at.get() || command.expires_at.get()
            > descriptor.expires_at.get() {
            return Err(IdentityPersistenceError::RecoveryCompletionExpired);
        }
        Ok(None)
    }

    /// Decides on a submitted completion.
    ///
    /// One request is completed once; the same command again gets the same
    /// receipt.
    pub fn submit(
        &self,
        session_identity: IdentityId,
        session_device: DeviceId,
        session_key: SigningPublicKey,
        command: &HistoryRecoveryCompletionCommand,
        rows: &CompletionRows,
        descriptor: &CompletionKeyDescriptor,
        secret_key: &[u8; 32],
        now: UtcMillis,
    ) -> (decision: Result<CompletionDecision, IdentityPersistenceError>)
        ensures
            ({
                let candidate = is_candidate_session(
                    command@,
                    session_identity@,
                    session_device@,
                    session_key@,
                );
                let answer = answer_check(command@, *rows, descriptor@, now@);
                let checked = receipt_check(command@, descriptor@);
                match decision {
                    Ok(CompletionDecision::Replay(outcome)) => {
                        &&& candidate
                        &&& answer == Ok::<Option<Seq<u8>>, IdentityPersistenceError>(
                            Some(outcome.receipt_bytes@),
                        )
                        &&& !outcome.created
                    },
                    Ok(CompletionDecision::Insert(insert)) => {
                        &&& candidate
                        &&& answer == Ok::<Option<Seq<u8>>, IdentityPersistenceError>(None)
                        &&& checked is Ok
                        &&& is_insert(insert, command@, descriptor@, now@, secret_key@)
                    },
                    Err(error) => if !candidate {
                        error == IdentityPersistenceError::DeviceAuthenticationRejected
                    } else if let Err(refusal) = answer {
                        error == refusal
                    } else {
                        &&& answer == Ok::<Option<Seq<u8>>, IdentityPersistenceError>(None)
                        &&& checked == Err::<(), IdentityPersistenceError>(error)
                    },
                }
            }),
    {
        let invalid = IdentityPersistenceError::RecoveryCompletionInvalid;
        match self.resume(
            session_identity,
            session_device,
            session_key,
            command,
            rows,
            descriptor,
            now,
        ) {
            Ok(None) => {},
            Ok(Some(outcome)) => {
                return Ok(CompletionDecision::Replay(outcome));
            },
            Err(error) => {
                return Err(error);
            },
        }
        match &rows.request {
            Some(row) => {
                if !matches_request(command, row, now) {
                    return Err(invalid);
                }
            },
            None => {
                return Err(invalid);
            },
        }
        match replay(command, &rows.completed) {
            Ok(None) => {},
            Ok(Some(receipt_bytes)) => {
                return Ok(
                    CompletionDecision::Replay(
                        CompletionReceiptOutcome { created: false, receipt_bytes },
                    ),
                );
            },
            Err(error) => {
                return Err(error);
            },
        }
        let (delivery_fact, context_digest) = match check_evidence(command) {
            Ok(evidence) => evidence,
            Err(error) => {
                return Err(error);
            },
        };
        match build_receipt(
            command,
            descriptor,
            &delivery_fact,
            &context_digest,
            secret_key,
            now,
        ) {
            Ok(insert) => Ok(CompletionDecision::Insert(insert)),
            Err(error) => Err(error),
        }
    }

    /// Settles an insertion that met a row already there: the stored receipt
    /// is handed out if it is of the same command.
    pub fn resolve_conflict(
        &self,
        command: &HistoryRecoveryCompletionCommand,
        by_completion: Option<StoredCompletion>,
        by_request: Option<StoredCompletion>,
    ) -> (outcome: Result<CompletionReceiptOutcome, IdentityPersistenceError>)
        ensures
            ({
                let found = if by_completion is Some {
                    by_completion
                } else {
                    by_request
                };
                match outcome {
                    Ok(outcome) => {
                        &&& !outcome.created
                        &&& replay_check(command@, found) == Ok::<
                            Option<Seq<u8>>,
                            IdentityPersistenceError,
                        >(Some(outcome.receipt_bytes@))
                    },
                    Err(error) => if found is None {
                        error == IdentityPersistenceError::CorruptData("completion conflict")
                    } else {
                        replay_check(command@, found) == Err::<
                            Option<Seq<u8>>,
                            IdentityPersistenceError,
                        >(error)
                    },
                }
            }),
    {
        let found = match by_completion {
            Some(stored) => Some(stored),
            None => by_request,
        };
        match replay(command, &found) {
            Ok(Some(receipt_bytes)) => Ok(
                CompletionReceiptOutcome { created: false, receipt_bytes },
            ),
            Ok(None) => Err(IdentityPersistenceError::CorruptData("completion conflict")),
            Err(error) => Err(error),
        }
    }

    /// Decides whether a signer's key may become the current completion key,
    /// and whether its descriptor has to be stored.
    pub fn ensure_descriptor(
        &self,
        origin: &str,
        config: CompletionSignerMetadata,
        secret_key: &[u8; 32],
        existing: &Option<StoredDescriptor>,
        head: &Option<StoredDescriptorHead>,
    ) -> (ensured: Result<(CompletionKeyDescriptor, bool), IdentityPersistenceError>)
        ensures
            ({
                let made = completion_key::signed_descriptor(config, origin@, secret_key@);
                match ensured {
                    Ok(ensured) => {
                        &&& completion_key::is_signed(made, origin@)
                        &&& completion_key::is_signable(config, origin@)
                        &&& descriptor_check(made, *existing, *head) == Ok::<
                            bool,
                            IdentityPersistenceError,
                        >(ensured.1)
                        &&& completion_key::read_descriptor(made.exact_bytes, made.digest) == Ok::<
                            Descriptor,
                            IdentityPersistenceError,
                        >(ensured.0@)
                        &&& made.issued_at >= 0 && made.expires_at >= 0 ==> ensured.0@ == made
                    },
                    Err(error) => if !completion_key::is_signable(config, origin@) {
                        error == IdentityPersistenceError::InvalidCommand(
                            "invalid completion descriptor",
                        )
                    } else if !key::is_public_key(made.public_key) {
                        error == IdentityPersistenceError::InvalidCommand("completion public key")
                    } else if let Err(refusal) = descriptor_check(made, *existing, *head) {
                        error == refusal
                    } else {
                        &&& completion_key::read_descriptor(made.exact_bytes, made.digest) == Err::<
                            Descriptor,
                            IdentityPersistenceError,
                        >(error)
                        &&& made.issued_at < 0
                    },
                }
            }),
    {
        let descriptor = match CompletionKeyDescriptor::from_signer(config, origin, secret_key) {
            Ok(descriptor) => descriptor,
            Err(error) => {
                return Err(error);
            },
        };
        proof {
            descriptor.digest.lemma_len();
        }
        let mismatch = IdentityPersistenceError::RecoveryCompletionSignerMismatch;
        match head {
            Some(head) => {
                if head.descriptor_digest.len() != 32 {
                    return Err(IdentityPersistenceError::CorruptData("completion digest"));
                }
                if !continues_head(&descriptor, head) {
                    return Err(mismatch);
                }
            },
            None => {},
        }
        let created = match existing {
            Some(stored) => {
                if !bytes_equal(
                    stored.descriptor_bytes.as_slice(),
                    descriptor.exact_bytes.as_slice(),
                ) || stored.epoch != descriptor.epoch as i64 || stored.rollback_floor_epoch
                    != descriptor.rollback_floor_epoch as i64 {
                    return Err(mismatch);
                }
                false
            },
            None => {
                if head.is_none() && (descriptor.epoch != 1
                    || descriptor.previous_descriptor_digest.is_some()) {
                    return Err(mismatch);
                }
                true
            },
        };
        let digest_bytes = to_vec(descriptor.digest.as_bytes());
        match decode_descriptor(descriptor.exact_bytes, digest_bytes) {
            Ok(decoded) => Ok((decoded, created)),
            Err(error) => Err(error),
        }
    }
}

} // verus!
