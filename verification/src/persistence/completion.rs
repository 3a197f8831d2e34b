//! Completion commands of a history recovery.

use vstd::prelude::*;
use vstd::utf8::*;
use crate::outside;
use crate::outside::verify;
use crate::persistence::error::IdentityPersistenceError;
use crate::persistence::fields;
use crate::persistence::fields::{
    bytes_of, digest_fault, digest_of, field, fixed_of, has_digest, hold_same_uuid, holds_bytes,
    holds_fixed, holds_number, holds_text, holds_uuid, is_digest, is_number, number_of, read_time,
    read_uuid, same_scalar, text_of,
};
use crate::persistence::merkle;
use crate::persistence::merkle::merkle_entries;
use crate::wire::bytes;
use crate::wire::bytes::{append_bytes, bytes_equal, is_all_zero, to_vec};
use crate::wire::cbor;
use crate::wire::codec::{decode_exact, encode_value};
use crate::wire::digest::Sha256Digest;
use crate::wire::number::{UtcMillis, MAX_SAFE_INTEGER};
use crate::wire::record;
use crate::wire::record::{encode_without_last, exact_fields};
use crate::wire::value;
use crate::wire::value::{copy_value, CanonicalValue, Value};

verus! {

/// The most bytes of a completion command.
pub const MAX_COMPLETION_BYTES: usize = 3_593_836;

/// Domain separator for the signature of a completion command.
pub const COMPLETION_SIGNATURE_DOMAIN: &'static str =
    "dirextalk.history-recovery.completion-command-signature.v2\0";

/// Domain separator for the digest of a completion context.
pub const COMPLETION_CONTEXT_DOMAIN: &'static str =
    "dirextalk.history-recovery-completion-context.v2\0";

/// Domain separator for the digest of a catalog head.
pub const CATALOG_HEAD_DOMAIN: &'static str = "dirextalk.recovery-scope-catalog-head.v2\0";

/// Domain separator for the digest of a hand-off preparation.
pub const PREPARATION_DIGEST_DOMAIN: &'static str =
    "dirextalk.recovery-scope-catalog-handoff-preparation-digest.v2\0";

/// Domain separator for the digest of a recovery request.
pub const RECOVERY_REQUEST_DOMAIN: &'static str = "dirextalk.history-recovery.request.v4\0";

/// Domain separator for the signature of a recovery request.
pub const RECOVERY_REQUEST_SIGNATURE_DOMAIN: &'static str =
    "dirextalk.history-recovery.request-signature.v4\0";

/// Domain separator for the digest of a recovery manifest.
pub const RECOVERY_MANIFEST_DOMAIN: &'static str = "dirextalk.history-recovery.manifest.v2\0";

/// Domain separator for the digest of a recovery grant.
pub const RECOVERY_GRANT_DOMAIN: &'static str = "dirextalk.history-recovery.grant.v5\0";

/// Domain separator for the digest of a recipient offer.
pub const RECIPIENT_OFFER_DOMAIN: &'static str =
    "dirextalk.history-recovery.recipient-offer.v3\0";

/// Domain separator for the digest of a delivery fact.
pub const DELIVERY_FACT_DOMAIN: &'static str = "dirextalk.history-recovery.delivery-fact.v2\0";

/// What the catalog says of itself in a signed head.
#[derive(Clone, Copy, Debug)]
pub struct CatalogHeadFacts {
    /// The UUID of the catalog.
    pub catalog_id: [u8; 16],
    /// Its generation.
    pub generation: u64,
    /// The root over its leaves.
    pub merkle_root: Sha256Digest,
    /// How many leaves it has.
    pub leaf_count: u64,
}

/// What a validated manifest says.
#[derive(Debug)]
pub struct ManifestFacts {
    /// The root over the leaves of the catalog.
    pub catalog_root_digest: Sha256Digest,
    /// The digests of the leaves.
    pub leaves: Vec<Sha256Digest>,
}

/// When a validated catalog head holds.
#[derive(Clone, Copy, Debug)]
pub struct HeadWindow {
    /// When it was issued.
    pub issued_at: u64,
    /// When it expires.
    pub expires_at: u64,
}

/// What the recovery protocol says of the artifacts inside a completion.
///
/// The protocol owns the inner formats. Its validators run on the artifacts
/// before a completion is parsed, and their verdicts are taken here.
#[derive(Debug)]
pub struct NestedVerdicts {
    /// Whether the catalog head is valid.
    pub catalog_head_accepted: bool,
    /// Whether the request is valid.
    pub request_accepted: bool,
    /// Whether the grant is valid.
    pub grant_accepted: bool,
    /// Whether the recipient offer is valid.
    pub offer_accepted: bool,
    /// Whether the delivery fact is valid.
    pub delivery_accepted: bool,
    /// The manifest, if it is valid.
    pub manifest: Option<ManifestFacts>,
    /// The signed catalog head, if it parses.
    pub signed_head: Option<CatalogHeadFacts>,
    /// When the catalog head inside the manifest holds, if it is valid.
    pub manifest_head: Option<HeadWindow>,
    /// For each entry, whether it is valid.
    pub entries_accepted: Vec<bool>,
    /// The most bytes of a grant.
    pub max_grant_bytes: usize,
    /// The most bytes of a catalog head.
    pub max_catalog_head_bytes: usize,
}

/// The refusal of a completion that is not exact, authentic and in scope.
pub open spec fn refused() -> Result<(), IdentityPersistenceError> {
    Err(IdentityPersistenceError::RecoveryCompletionInvalid)
}

/// The bytes are one record of the current version, with artifacts that the
/// protocol accepts.
pub open spec fn opens(bytes: Seq<u8>, verdicts: NestedVerdicts) -> bool {
    &&& 0 < bytes.len() <= MAX_COMPLETION_BYTES
    &&& cbor::is_encoded(bytes)
    &&& record::is_record(cbor::decoded(bytes), 36)
    &&& has_artifacts(cbor::decoded(bytes))
    &&& verdicts.catalog_head_accepted
    &&& verdicts.manifest is Some
    &&& verdicts.request_accepted
    &&& verdicts.grant_accepted
    &&& verdicts.offer_accepted
    &&& verdicts.delivery_accepted
}

/// The record has the current version, and its artifacts are byte strings.
pub open spec fn has_artifacts(value: Value) -> bool {
    &&& record::field_of(value, 1) == Value::Unsigned(2)
    &&& fields::is_bytes_within(record::field_of(value, 11), MAX_COMPLETION_BYTES)
    &&& fields::is_bytes_within(record::field_of(value, 20), MAX_COMPLETION_BYTES)
    &&& fields::is_bytes_within(record::field_of(value, 18), MAX_COMPLETION_BYTES)
    &&& fields::is_bytes_within(record::field_of(value, 22), MAX_COMPLETION_BYTES)
    &&& fields::is_bytes_within(record::field_of(value, 24), MAX_COMPLETION_BYTES)
    &&& fields::is_bytes_within(record::field_of(value, 26), MAX_COMPLETION_BYTES)
}

/// The completion names who recovers and up to which event of the log.
pub open spec fn subject_check(value: Value) -> Result<(), IdentityPersistenceError> {
    if !fields::is_uuid(record::field_of(value, 2)) || !(record::field_of(value, 3) is Text)
        || !fields::is_uuid(record::field_of(value, 4)) || !(record::field_of(value, 5) is Unsigned)
        || !(record::field_of(value, 7) is Unsigned) {
        refused()
    } else if let Some(error) = fields::digest_error(record::field_of(value, 8)) {
        Err(error)
    } else if let Some(error) = fields::digest_error(record::field_of(value, 6)) {
        Err(error)
    } else if !(0 < record::field_of(value, 5)->Unsigned_0 < MAX_SAFE_INTEGER)
        || record::field_of(value, 7)->Unsigned_0 != record::field_of(value, 5)->Unsigned_0 + 1
        || bytes::all_zero(record::field_of(value, 6)->Bytes_0) {
        refused()
    } else {
        Ok(())
    }
}

/// The completion names the catalog that its signed head describes.
pub open spec fn catalog_check(value: Value, head: Option<CatalogHeadFacts>) -> Result<
    (),
    IdentityPersistenceError,
> {
    if !fields::is_uuid(record::field_of(value, 9)) || !(record::field_of(value, 10) is Unsigned)
        || record::field_of(value, 10)->Unsigned_0 == 0 || !fields::is_bytes_within(
        record::field_of(value, 11),
        466,
    ) {
        refused()
    } else if let Some(error) = fields::digest_error(record::field_of(value, 12)) {
        Err(error)
    } else if head is None || !fields::is_digest_of(
        record::field_of(value, 12),
        CATALOG_HEAD_DOMAIN@,
        record::field_of(value, 11),
    ) {
        refused()
    } else if let Some(error) = fields::digest_error(record::field_of(value, 13)) {
        Err(error)
    } else if !(record::field_of(value, 14) is Unsigned) || !(1 <= record::field_of(
        value,
        14,
    )->Unsigned_0 <= 1023) || head->0.catalog_id@ != fields::uuid_of(record::field_of(value, 9))
        || head->0.generation != record::field_of(value, 10)->Unsigned_0 || Value::Bytes(
        head->0.merkle_root@,
    ) != record::field_of(value, 13) || head->0.leaf_count != record::field_of(
        value,
        14,
    )->Unsigned_0 {
        refused()
    } else {
        Ok(())
    }
}

/// The artifact under `key` is within its limit, and the digest after it is its
/// own under the domain.
pub open spec fn artifact_check(value: Value, key: int, max: usize, domain: Seq<char>) -> Result<
    (),
    IdentityPersistenceError,
> {
    if !fields::is_bytes_within(record::field_of(value, key), max) {
        refused()
    } else if let Some(error) = fields::digest_error(record::field_of(value, key + 1)) {
        Err(error)
    } else if !fields::is_digest_of(
        record::field_of(value, key + 1),
        domain,
        record::field_of(value, key),
    ) {
        refused()
    } else {
        Ok(())
    }
}

/// Every artifact is within its limit and has its digest.
pub open spec fn artifacts_check(value: Value, max_grant_bytes: usize) -> Result<
    (),
    IdentityPersistenceError,
> {
    if let Some(error) = fields::digest_error(record::field_of(value, 15)) {
        Err(error)
    } else if let Err(error) = artifact_check(value, 16, 532, PREPARATION_DIGEST_DOMAIN@) {
        Err(error)
    } else if let Err(error) = artifact_check(value, 18, 37_114, RECOVERY_REQUEST_DOMAIN@) {
        Err(error)
    } else if let Err(error) = artifact_check(value, 20, 35_477, RECOVERY_MANIFEST_DOMAIN@) {
        Err(error)
    } else if let Err(error) = artifact_check(value, 22, max_grant_bytes, RECOVERY_GRANT_DOMAIN@) {
        Err(error)
    } else if let Err(error) = artifact_check(value, 24, 1_049_093, RECIPIENT_OFFER_DOMAIN@) {
        Err(error)
    } else {
        artifact_check(value, 26, 366, DELIVERY_FACT_DOMAIN@)
    }
}

/// There is one entry for each leaf under the stated root, the completion has a
/// lifetime, and it answers the idempotency key.
pub open spec fn entries_check(value: Value, idempotency: Seq<u8>) -> Result<
    (),
    IdentityPersistenceError,
> {
    let entries = record::field_of(value, 30);
    if record::field_of(value, 28) != record::field_of(value, 14) {
        refused()
    } else if let Some(error) = fields::digest_error(record::field_of(value, 29)) {
        Err(error)
    } else if !(entries is Array) || entries->Array_0.len() != record::field_of(
        value,
        28,
    )->Unsigned_0 || !merkle::all_canonical(entries->Array_0) || record::field_of(value, 29)
        != Value::Bytes(merkle::merkle_root(merkle::leaf_digests(entries->Array_0))) {
        refused()
    } else if !fields::is_time(record::field_of(value, 31)) || !fields::is_time(
        record::field_of(value, 32),
    ) || record::field_of(value, 31)->Unsigned_0 as i64 >= record::field_of(
        value,
        32,
    )->Unsigned_0 as i64 {
        refused()
    } else if let Some(error) = fields::digest_error(record::field_of(value, 33)) {
        Err(error)
    } else if record::field_of(value, 33) != Value::Bytes(idempotency) {
        refused()
    } else {
        Ok(())
    }
}

/// The bytes are a record of `count` fields.
pub open spec fn is_nested(bytes: Seq<u8>, count: nat) -> bool {
    cbor::is_encoded(bytes) && record::is_record(cbor::decoded(bytes), count)
}

/// The request inside a completion.
pub open spec fn request_value(value: Value) -> Value {
    cbor::decoded(record::field_of(value, 18)->Bytes_0)
}

/// The context inside a completion.
pub open spec fn context_value(value: Value) -> Value {
    cbor::decoded(record::field_of(value, 34)->Bytes_0)
}

/// The grant inside a completion.
pub open spec fn grant_value(value: Value) -> Value {
    cbor::decoded(record::field_of(value, 22)->Bytes_0)
}

/// The context repeats what the completion says, and its digest is stated.
pub open spec fn context_check(value: Value) -> Result<(), IdentityPersistenceError> {
    let request = record::field_of(value, 18)->Bytes_0;
    let context = context_value(value);
    if !fields::is_bytes_within(record::field_of(value, 34), 373) || !is_nested(
        record::field_of(value, 34)->Bytes_0,
        12,
    ) || record::field_of(context, 1) != Value::Unsigned(2) || !fields::same_uuid(
        record::field_of(context, 3),
        record::field_of(value, 2),
    ) || !is_nested(request, 21) || !fields::same_uuid(
        record::field_of(context, 4),
        record::field_of(request_value(value), 2),
    ) {
        refused()
    } else if let Some(error) = fields::digest_error(record::field_of(context, 5)) {
        Err(error)
    } else if record::field_of(context, 5) != record::field_of(value, 19) || record::field_of(
        context,
        6,
    ) != record::field_of(value, 3) || !fields::same_uuid(
        record::field_of(context, 7),
        record::field_of(value, 4),
    ) || !fields::same_uuid(record::field_of(context, 8), record::field_of(value, 9))
        || record::field_of(context, 9) != record::field_of(value, 10) {
        refused()
    } else if let Some(error) = fields::digest_error(record::field_of(context, 10)) {
        Err(error)
    } else if record::field_of(context, 10) != record::field_of(value, 12) || record::field_of(
        context,
        11,
    ) != record::field_of(value, 14) {
        refused()
    } else if let Some(error) = fields::digest_error(record::field_of(context, 12)) {
        Err(error)
    } else if record::field_of(context, 12) != record::field_of(value, 15) {
        refused()
    } else if let Some(error) = fields::digest_error(record::field_of(value, 35)) {
        Err(error)
    } else if !fields::is_digest_of(
        record::field_of(value, 35),
        COMPLETION_CONTEXT_DOMAIN@,
        record::field_of(value, 34),
    ) {
        refused()
    } else {
        Ok(())
    }
}

/// The bytes that a candidate signs for a record without its signature.
pub open spec fn candidate_signed_bytes(domain: Seq<char>, unsigned: Value) -> Seq<u8> {
    encode_utf8(domain) + cbor::encoding(unsigned)
}

/// The candidate signed the request, and the request says what the completion
/// says.
pub open spec fn request_check(value: Value) -> Result<(), IdentityPersistenceError> {
    let request = request_value(value);
    if !is_nested(record::field_of(value, 18)->Bytes_0, 21) || !fields::is_fixed(
        record::field_of(request, 5),
        32,
    ) || !fields::is_fixed(record::field_of(request, 21), 64) || !outside::ed25519_accepted(
        record::field_of(request, 5)->Bytes_0,
        candidate_signed_bytes(
            RECOVERY_REQUEST_SIGNATURE_DOMAIN@,
            record::without_last(request),
        ),
        record::field_of(request, 21)->Bytes_0,
    ) || record::field_of(request, 1) != Value::Unsigned(4) || !fields::is_uuid(
        record::field_of(request, 2),
    ) || record::field_of(request, 3) != record::field_of(value, 3) || !fields::same_uuid(
        record::field_of(request, 4),
        record::field_of(value, 4),
    ) || record::field_of(request, 7) != record::field_of(value, 5) {
        refused()
    } else if let Some(error) = fields::digest_error(record::field_of(request, 8)) {
        Err(error)
    } else if record::field_of(request, 8) != record::field_of(value, 6) || record::field_of(
        request,
        9,
    ) != record::field_of(value, 7) {
        refused()
    } else if let Some(error) = fields::digest_error(record::field_of(request, 10)) {
        Err(error)
    } else if record::field_of(request, 10) != record::field_of(value, 8) {
        refused()
    } else if let Some(error) = fields::digest_error(record::field_of(request, 14)) {
        Err(error)
    } else if record::field_of(request, 14) != record::field_of(value, 17) {
        refused()
    } else if let Some(error) = fields::digest_error(record::field_of(request, 16)) {
        Err(error)
    } else if record::field_of(request, 16) != record::field_of(value, 21) {
        refused()
    } else {
        Ok(())
    }
}

/// The manifest lists the leaves that the entries answer, and manifest, grant
/// and request state their windows.
pub open spec fn manifest_fits(value: Value, verdicts: NestedVerdicts) -> bool {
    let manifest = cbor::decoded(record::field_of(value, 20)->Bytes_0);
    let request = request_value(value);
    let grant = grant_value(value);
    &&& verdicts.manifest is Some
    &&& Value::Bytes(verdicts.manifest->0.catalog_root_digest@) == record::field_of(value, 13)
    &&& verdicts.manifest->0.leaves@.len() == record::field_of(value, 30)->Array_0.len()
    &&& is_nested(record::field_of(value, 20)->Bytes_0, 10)
    &&& fields::is_bytes_within(record::field_of(manifest, 5), verdicts.max_catalog_head_bytes)
    &&& verdicts.manifest_head is Some
    &&& is_nested(record::field_of(value, 22)->Bytes_0, 36)
    &&& record::field_of(request, 17) is Unsigned
    &&& record::field_of(request, 18) is Unsigned
    &&& record::field_of(grant, 31) is Unsigned
    &&& record::field_of(grant, 32) is Unsigned
}

/// The first `count` entries were accepted.
pub open spec fn all_accepted(accepted: Seq<bool>, count: nat) -> bool {
    accepted.len() >= count && forall|i: int| 0 <= i < count ==> #[trigger] accepted[i]
}

/// The candidate signed the completion.
pub open spec fn is_candidate_signed(value: Value) -> bool {
    &&& fields::is_fixed(record::field_of(value, 36), 64)
    &&& outside::ed25519_accepted(
        record::field_of(request_value(value), 5)->Bytes_0,
        candidate_signed_bytes(COMPLETION_SIGNATURE_DOMAIN@, record::without_last(value)),
        record::field_of(value, 36)->Bytes_0,
    )
}

/// Everything that a completion must satisfy before its entries are looked at.
pub open spec fn scope_check(
    bytes: Seq<u8>,
    idempotency: Seq<u8>,
    verdicts: NestedVerdicts,
) -> Result<
    (),
    IdentityPersistenceError,
> {
    let value = cbor::decoded(bytes);
    if !opens(bytes, verdicts) {
        refused()
    } else if let Err(error) = subject_check(value) {
        Err(error)
    } else if let Err(error) = catalog_check(value, verdicts.signed_head) {
        Err(error)
    } else if let Err(error) = artifacts_check(value, verdicts.max_grant_bytes) {
        Err(error)
    } else if let Err(error) = entries_check(value, idempotency) {
        Err(error)
    } else if let Err(error) = context_check(value) {
        Err(error)
    } else if let Err(error) = request_check(value) {
        Err(error)
    } else if !manifest_fits(value, verdicts) {
        refused()
    } else {
        Ok(())
    }
}

/// Everything that a completion must satisfy.
pub open spec fn completion_check(
    bytes: Seq<u8>,
    idempotency: Seq<u8>,
    verdicts: NestedVerdicts,
) -> Result<(), IdentityPersistenceError> {
    let value = cbor::decoded(bytes);
    if let Err(error) = scope_check(bytes, idempotency, verdicts) {
        Err(error)
    } else if !all_accepted(
        verdicts.entries_accepted@,
        record::field_of(value, 30)->Array_0.len(),
    ) || !is_candidate_signed(value) {
        refused()
    } else {
        Ok(())
    }
}

/// The model of a completion command.
pub struct Completion {
    pub completion_id: Seq<u8>,
    pub identity_id: Seq<char>,
    pub device_id: Seq<u8>,
    pub highwater: u64,
    pub head_at_highwater: Seq<u8>,
    pub highwater_next: u64,
    pub final_head_hash: Seq<u8>,
    pub catalog_id: Seq<u8>,
    pub catalog_generation: u64,
    pub catalog_head_digest: Seq<u8>,
    pub catalog_root_digest: Seq<u8>,
    pub catalog_leaf_count: u64,
    pub leaf_set_digest: Seq<u8>,
    pub preparation_digest: Seq<u8>,
    pub request_id: Seq<u8>,
    pub candidate_signing_key: Seq<u8>,
    pub request_digest: Seq<u8>,
    pub manifest_digest: Seq<u8>,
    pub grant_digest: Seq<u8>,
    pub offer_digest: Seq<u8>,
    pub delivery_digest: Seq<u8>,
    pub entry_root: Seq<u8>,
    pub idempotency_digest: Seq<u8>,
    pub issued_at: i64,
    pub expires_at: i64,
    pub exact_bytes: Seq<u8>,
}

/// The command that a completion's bytes hold.
pub open spec fn completion_of(bytes: Seq<u8>) -> Completion {
    let value = cbor::decoded(bytes);
    let request = request_value(value);
    Completion {
        completion_id: fields::uuid_of(record::field_of(value, 2)),
        identity_id: record::field_of(value, 3)->Text_0,
        device_id: fields::uuid_of(record::field_of(value, 4)),
        highwater: record::field_of(value, 5)->Unsigned_0,
        head_at_highwater: record::field_of(value, 6)->Bytes_0,
        highwater_next: record::field_of(value, 7)->Unsigned_0,
        final_head_hash: record::field_of(value, 8)->Bytes_0,
        catalog_id: fields::uuid_of(record::field_of(value, 9)),
        catalog_generation: record::field_of(value, 10)->Unsigned_0,
        catalog_head_digest: record::field_of(value, 12)->Bytes_0,
        catalog_root_digest: record::field_of(value, 13)->Bytes_0,
        catalog_leaf_count: record::field_of(value, 14)->Unsigned_0,
        leaf_set_digest: record::field_of(value, 15)->Bytes_0,
        preparation_digest: record::field_of(value, 17)->Bytes_0,
        request_id: fields::uuid_of(record::field_of(request, 2)),
        candidate_signing_key: record::field_of(request, 5)->Bytes_0,
        request_digest: record::field_of(value, 19)->Bytes_0,
        manifest_digest: record::field_of(value, 21)->Bytes_0,
        grant_digest: record::field_of(value, 23)->Bytes_0,
        offer_digest: record::field_of(value, 25)->Bytes_0,
        delivery_digest: record::field_of(value, 27)->Bytes_0,
        entry_root: record::field_of(value, 29)->Bytes_0,
        idempotency_digest: record::field_of(value, 33)->Bytes_0,
        issued_at: record::field_of(value, 31)->Unsigned_0 as i64,
        expires_at: record::field_of(value, 32)->Unsigned_0 as i64,
        exact_bytes: bytes,
    }
}

/// A command that completes a history recovery.
#[derive(Clone, Debug)]
pub struct HistoryRecoveryCompletionCommand {
    /// The UUID of the completion.
    pub completion_id: [u8; 16],
    /// The text of the recovering identity.
    pub identity_id: String,
    /// The UUID of the recovering device.
    pub device_id: [u8; 16],
    /// The last event that the recovery covers.
    pub highwater: u64,
    /// The entry hash at that event.
    pub head_at_highwater: Sha256Digest,
    /// The event after it.
    pub highwater_next: u64,
    /// The entry hash of the event after it.
    pub final_head_hash: Sha256Digest,
    /// The UUID of the catalog.
    pub catalog_id: [u8; 16],
    /// The generation of the catalog.
    pub catalog_generation: u64,
    /// The digest of the catalog head.
    pub catalog_head_digest: Sha256Digest,
    /// The root over the leaves of the catalog.
    pub catalog_root_digest: Sha256Digest,
    /// How many leaves the catalog has.
    pub catalog_leaf_count: u64,
    /// The digest of the set of leaves.
    pub leaf_set_digest: Sha256Digest,
    /// The digest of the preparation.
    pub preparation_digest: Sha256Digest,
    /// The UUID of the request.
    pub request_id: [u8; 16],
    /// The key of the candidate device.
    pub candidate_signing_key: [u8; 32],
    /// The digest of the request.
    pub request_digest: Sha256Digest,
    /// The digest of the manifest.
    pub manifest_digest: Sha256Digest,
    /// The digest of the grant.
    pub grant_digest: Sha256Digest,
    /// The digest of the recipient offer.
    pub offer_digest: Sha256Digest,
    /// The digest of the delivery fact.
    pub delivery_digest: Sha256Digest,
    /// The root over the entries.
    pub entry_root: Sha256Digest,
    /// The digest of the idempotency key.
    pub idempotency_digest: Sha256Digest,
    /// When the command starts to hold.
    pub issued_at: UtcMillis,
    /// When the command ceases to hold.
    pub expires_at: UtcMillis,
    /// The exact signed bytes.
    pub exact_bytes: Vec<u8>,
}

impl HistoryRecoveryCompletionCommand {
    /// The model of the command.
    pub open spec fn view(&self) -> Completion {
        Completion {
            completion_id: self.completion_id@,
            identity_id: self.identity_id@,
            device_id: self.device_id@,
            highwater: self.highwater,
            head_at_highwater: self.head_at_highwater@,
            highwater_next: self.highwater_next,
            final_head_hash: self.final_head_hash@,
            catalog_id: self.catalog_id@,
            catalog_generation: self.catalog_generation,
            catalog_head_digest: self.catalog_head_digest@,
            catalog_root_digest: self.catalog_root_digest@,
            catalog_leaf_count: self.catalog_leaf_count,
            leaf_set_digest: self.leaf_set_digest@,
            preparation_digest: self.preparation_digest@,
            request_id: self.request_id@,
            candidate_signing_key: self.candidate_signing_key@,
            request_digest: self.request_digest@,
            manifest_digest: self.manifest_digest@,
            grant_digest: self.grant_digest@,
            offer_digest: self.offer_digest@,
            delivery_digest: self.delivery_digest@,
            entry_root: self.entry_root@,
            idempotency_digest: self.idempotency_digest@,
            issued_at: self.issued_at@,
            expires_at: self.expires_at@,
            exact_bytes: self.exact_bytes@,
        }
    }
}

/// Opens the bytes of a completion whose artifacts the protocol accepts.
fn open_completion(bytes: &[u8], verdicts: &NestedVerdicts) -> (value: Option<CanonicalValue>)
    ensures
        match value {
            Some(value) => {
                &&& opens(bytes@, *verdicts)
                &&& value@ == cbor::decoded(bytes@)
                &&& cbor::canonical(value@)
                &&& cbor::encoding(value@) == bytes@
            },
            None => !opens(bytes@, *verdicts),
        },
{
    if bytes.len() == 0 || bytes.len() > MAX_COMPLETION_BYTES {
        return None;
    }
    let value = match decode_exact(bytes) {
        Some(value) => value,
        None => {
            return None;
        },
    };
    if exact_fields(&value, 36).is_none() {
        return None;
    }
    if is_number(field(&value, 1), 2) && holds_bytes(field(&value, 11), MAX_COMPLETION_BYTES)
        && holds_bytes(field(&value, 20), MAX_COMPLETION_BYTES) && holds_bytes(
        field(&value, 18),
        MAX_COMPLETION_BYTES,
    ) && holds_bytes(field(&value, 22), MAX_COMPLETION_BYTES) && holds_bytes(
        field(&value, 24),
        MAX_COMPLETION_BYTES,
    ) && holds_bytes(field(&value, 26), MAX_COMPLETION_BYTES) && verdicts.catalog_head_accepted
        && verdicts.manifest.is_some() && verdicts.request_accepted && verdicts.grant_accepted
        && verdicts.offer_accepted && verdicts.delivery_accepted {
        Some(value)
    } else {
        None
    }
}

/// Checks who recovers and up to which event of the log.
fn check_subject(value: &CanonicalValue) -> (checked: Result<(), IdentityPersistenceError>)
    requires
        record::is_record(value@, 36),
    ensures
        checked == subject_check(value@),
{
    let invalid = IdentityPersistenceError::RecoveryCompletionInvalid;
    if !holds_uuid(field(value, 2)) || !holds_text(field(value, 3)) || !holds_uuid(field(value, 4))
        || !holds_number(field(value, 5)) || !holds_number(field(value, 7)) {
        return Err(invalid);
    }
    if let Some(error) = digest_fault(field(value, 8)) {
        return Err(error);
    }
    if let Some(error) = digest_fault(field(value, 6)) {
        return Err(error);
    }
    let highwater: u64 = number_of(field(value, 5));
    if highwater == 0 || highwater >= MAX_SAFE_INTEGER || number_of(field(value, 7)) != highwater
        + 1 || is_all_zero(bytes_of(field(value, 6)).as_slice()) {
        return Err(invalid);
    }
    Ok(())
}

/// Checks the catalog against its signed head.
fn check_catalog(value: &CanonicalValue, head: &Option<CatalogHeadFacts>) -> (checked: Result<
    (),
    IdentityPersistenceError,
>)
    requires
        record::is_record(value@, 36),
    ensures
        checked == catalog_check(value@, *head),
{
    let invalid = IdentityPersistenceError::RecoveryCompletionInvalid;
    if !holds_uuid(field(value, 9)) || !holds_number(field(value, 10)) || number_of(
        field(value, 10),
    ) == 0 || !holds_bytes(field(value, 11), 466) {
        return Err(invalid);
    }
    if let Some(error) = digest_fault(field(value, 12)) {
        return Err(error);
    }
    let head = match head {
        Some(head) => head,
        None => {
            return Err(invalid);
        },
    };
    if !has_digest(field(value, 12), CATALOG_HEAD_DOMAIN, field(value, 11)) {
        return Err(invalid);
    }
    if let Some(error) = digest_fault(field(value, 13)) {
        return Err(error);
    }
    if !holds_number(field(value, 14)) || number_of(field(value, 14)) < 1 || number_of(
        field(value, 14),
    ) > 1023 {
        return Err(invalid);
    }
    let same_catalog = match read_uuid(field(value, 9)) {
        Some(catalog_id) => bytes_equal(&head.catalog_id, &catalog_id),
        None => false,
    };
    if !same_catalog || head.generation != number_of(field(value, 10)) || !is_digest(
        field(value, 13),
        &head.merkle_root,
    ) || head.leaf_count != number_of(field(value, 14)) {
        return Err(invalid);
    }
    Ok(())
}

/// Checks one artifact and its digest.
fn check_artifact(value: &CanonicalValue, key: usize, max: usize, domain: &str) -> (checked: Result<
    (),
    IdentityPersistenceError,
>)
    requires
        record::is_record(value@, 36),
        1 <= key <= 35,
    ensures
        checked == artifact_check(value@, key as int, max, domain@),
{
    if !holds_bytes(field(value, key), max) {
        return Err(IdentityPersistenceError::RecoveryCompletionInvalid);
    }
    if let Some(error) = digest_fault(field(value, key + 1)) {
        return Err(error);
    }
    if !has_digest(field(value, key + 1), domain, field(value, key)) {
        return Err(IdentityPersistenceError::RecoveryCompletionInvalid);
    }
    Ok(())
}

/// Checks every artifact and its digest.
fn check_artifacts(value: &CanonicalValue, max_grant_bytes: usize) -> (checked: Result<
    (),
    IdentityPersistenceError,
>)
    requires
        record::is_record(value@, 36),
    ensures
        checked == artifacts_check(value@, max_grant_bytes),
{
    if let Some(error) = digest_fault(field(value, 15)) {
        return Err(error);
    }
    if let Err(error) = check_artifact(value, 16, 532, PREPARATION_DIGEST_DOMAIN) {
        return Err(error);
    }
    if let Err(error) = check_artifact(value, 18, 37_114, RECOVERY_REQUEST_DOMAIN) {
        return Err(error);
    }
    if let Err(error) = check_artifact(value, 20, 35_477, RECOVERY_MANIFEST_DOMAIN) {
        return Err(error);
    }
    if let Err(error) = check_artifact(value, 22, max_grant_bytes, RECOVERY_GRANT_DOMAIN) {
        return Err(error);
    }
    if let Err(error) = check_artifact(value, 24, 1_049_093, RECIPIENT_OFFER_DOMAIN) {
        return Err(error);
    }
    check_artifact(value, 26, 366, DELIVERY_FACT_DOMAIN)
}

/// Whether the root over `count` entries is the stated one.
fn has_entry_root(value: &CanonicalValue, root: &CanonicalValue, count: u64) -> (has: bool)
    requires
        count > 0,
    ensures
        has == {
            &&& value@ is Array
            &&& value@->Array_0.len() == count
            &&& merkle::all_canonical(value@->Array_0)
            &&& root@ == Value::Bytes(merkle::merkle_root(merkle::leaf_digests(value@->Array_0)))
        },
{
    match value {
        CanonicalValue::Array(entries) => {
            proof {
                value::lemma_array_view(*entries);
            }
            if entries.len() as u64 != count {
                return false;
            }
            match merkle_entries(entries) {
                Ok(computed) => is_digest(root, &computed),
                Err(_) => false,
            }
        },
        _ => false,
    }
}

/// Checks the entries, the lifetime and the idempotency key.
fn check_entries(value: &CanonicalValue, idempotency_digest: &Sha256Digest) -> (checked: Result<
    (),
    IdentityPersistenceError,
>)
    requires
        record::is_record(value@, 36),
        record::field_of(value@, 14) is Unsigned,
        record::field_of(value@, 14)->Unsigned_0 >= 1,
    ensures
        checked == entries_check(value@, idempotency_digest@),
{
    let invalid = IdentityPersistenceError::RecoveryCompletionInvalid;
    if !same_scalar(field(value, 28), field(value, 14)) {
        return Err(invalid);
    }
    if let Some(error) = digest_fault(field(value, 29)) {
        return Err(error);
    }
    if !has_entry_root(field(value, 30), field(value, 29), number_of(field(value, 28))) {
        return Err(invalid);
    }
    let issued_at = match read_time(field(value, 31)) {
        Some(time) => time,
        None => {
            return Err(invalid);
        },
    };
    let expires_at = match read_time(field(value, 32)) {
        Some(time) => time,
        None => {
            return Err(invalid);
        },
    };
    if issued_at.get() >= expires_at.get() {
        return Err(invalid);
    }
    if let Some(error) = digest_fault(field(value, 33)) {
        return Err(error);
    }
    if !is_digest(field(value, 33), idempotency_digest) {
        return Err(invalid);
    }
    Ok(())
}

/// Opens a byte string as a record of `count` fields.
fn open_nested(value: &CanonicalValue, count: usize) -> (nested: Option<CanonicalValue>)
    requires
        value@ is Bytes,
    ensures
        match nested {
            Some(nested) => {
                &&& is_nested(value@->Bytes_0, count as nat)
                &&& nested@ == cbor::decoded(value@->Bytes_0)
                &&& cbor::canonical(nested@)
            },
            None => !is_nested(value@->Bytes_0, count as nat),
        },
{
    match value {
        CanonicalValue::Bytes(bytes) => match decode_exact(bytes.as_slice()) {
            Some(nested) => {
                if exact_fields(&nested, count).is_some() {
                    Some(nested)
                } else {
                    None
                }
            },
            None => None,
        },
        _ => None,
    }
}

/// Checks the context against the completion.
fn check_context(value: &CanonicalValue) -> (checked: Result<(), IdentityPersistenceError>)
    requires
        record::is_record(value@, 36),
        record::field_of(value@, 3) is Text,
        record::field_of(value@, 10) is Unsigned,
        fields::digest_error(record::field_of(value@, 12)) is None,
        record::field_of(value@, 14) is Unsigned,
        fields::digest_error(record::field_of(value@, 15)) is None,
        record::field_of(value@, 18) is Bytes,
        fields::digest_error(record::field_of(value@, 19)) is None,
    ensures
        checked == context_check(value@),
{
    let invalid = IdentityPersistenceError::RecoveryCompletionInvalid;
    if !holds_bytes(field(value, 34), 373) {
        return Err(invalid);
    }
    let context = match open_nested(field(value, 34), 12) {
        Some(context) => context,
        None => {
            return Err(invalid);
        },
    };
    let request = match open_nested(field(value, 18), 21) {
        Some(request) => request,
        None => {
            return Err(invalid);
        },
    };
    if !is_number(field(&context, 1), 2) || !hold_same_uuid(field(&context, 3), field(value, 2))
        || !hold_same_uuid(field(&context, 4), field(&request, 2)) {
        return Err(invalid);
    }
    if let Some(error) = digest_fault(field(&context, 5)) {
        return Err(error);
    }
    if !same_scalar(field(&context, 5), field(value, 19)) || !same_scalar(
        field(&context, 6),
        field(value, 3),
    ) || !hold_same_uuid(field(&context, 7), field(value, 4)) || !hold_same_uuid(
        field(&context, 8),
        field(value, 9),
    ) || !same_scalar(field(&context, 9), field(value, 10)) {
        return Err(invalid);
    }
    if let Some(error) = digest_fault(field(&context, 10)) {
        return Err(error);
    }
    if !same_scalar(field(&context, 10), field(value, 12)) || !same_scalar(
        field(&context, 11),
        field(value, 14),
    ) {
        return Err(invalid);
    }
    if let Some(error) = digest_fault(field(&context, 12)) {
        return Err(error);
    }
    if !same_scalar(field(&context, 12), field(value, 15)) {
        return Err(invalid);
    }
    if let Some(error) = digest_fault(field(value, 35)) {
        return Err(error);
    }
    if !has_digest(field(value, 35), COMPLETION_CONTEXT_DOMAIN, field(value, 34)) {
        return Err(invalid);
    }
    Ok(())
}

/// Whether the key signed a record, all but its last field, in that field.
fn is_signed_record(
    key: &[u8; 32],
    domain: &str,
    value: CanonicalValue,
    signature: &[u8; 64],
) -> (signed:
    bool)
    requires
        value@ is Entries,
        value@->Entries_0.len() > 0,
        cbor::canonical(value@),
    ensures
        signed == outside::ed25519_accepted(
            key@,
            candidate_signed_bytes(domain@, record::without_last(value@)),
            signature@,
        ),
{
    let unsigned_bytes = encode_without_last(value);
    let mut input: Vec<u8> = to_vec(domain.as_bytes());
    append_bytes(&mut input, unsigned_bytes.as_slice());
    verify(key, input.as_slice(), signature)
}

/// Whether the candidate signed the request.
fn is_request_signed(request: CanonicalValue) -> (signed: bool)
    requires
        record::is_record(request@, 21),
        cbor::canonical(request@),
    ensures
        signed == {
            &&& fields::is_fixed(record::field_of(request@, 5), 32)
            &&& fields::is_fixed(record::field_of(request@, 21), 64)
            &&& outside::ed25519_accepted(
                record::field_of(request@, 5)->Bytes_0,
                candidate_signed_bytes(
                    RECOVERY_REQUEST_SIGNATURE_DOMAIN@,
                    record::without_last(request@),
                ),
                record::field_of(request@, 21)->Bytes_0,
            )
        },
{
    if !holds_fixed(field(&request, 5), 32) || !holds_fixed(field(&request, 21), 64) {
        return false;
    }
    let key: [u8; 32] = fixed_of::<32>(field(&request, 5));
    let signature: [u8; 64] = fixed_of::<64>(field(&request, 21));
    is_signed_record(&key, RECOVERY_REQUEST_SIGNATURE_DOMAIN, request, &signature)
}

/// Checks the request against the completion.
fn check_request(value: &CanonicalValue) -> (checked: Result<(), IdentityPersistenceError>)
    requires
        record::is_record(value@, 36),
        record::field_of(value@, 3) is Text,
        record::field_of(value@, 5) is Unsigned,
        fields::digest_error(record::field_of(value@, 6)) is None,
        record::field_of(value@, 7) is Unsigned,
        fields::digest_error(record::field_of(value@, 8)) is None,
        fields::digest_error(record::field_of(value@, 17)) is None,
        record::field_of(value@, 18) is Bytes,
        fields::digest_error(record::field_of(value@, 21)) is None,
    ensures
        checked == request_check(value@),
{
    let invalid = IdentityPersistenceError::RecoveryCompletionInvalid;
    let request = match open_nested(field(value, 18), 21) {
        Some(request) => request,
        None => {
            return Err(invalid);
        },
    };
    if !is_number(field(&request, 1), 4) || !holds_uuid(field(&request, 2)) || !same_scalar(
        field(&request, 3),
        field(value, 3),
    ) || !hold_same_uuid(field(&request, 4), field(value, 4)) || !same_scalar(
        field(&request, 7),
        field(value, 5),
    ) {
        return Err(invalid);
    }
    if !is_request_signed(copy_value(&request)) {
        return Err(invalid);
    }
    if let Some(error) = digest_fault(field(&request, 8)) {
        return Err(error);
    }
    if !same_scalar(field(&request, 8), field(value, 6)) || !same_scalar(
        field(&request, 9),
        field(value, 7),
    ) {
        return Err(invalid);
    }
    if let Some(error) = digest_fault(field(&request, 10)) {
        return Err(error);
    }
    if !same_scalar(field(&request, 10), field(value, 8)) {
        return Err(invalid);
    }
    if let Some(error) = digest_fault(field(&request, 14)) {
        return Err(error);
    }
    if !same_scalar(field(&request, 14), field(value, 17)) {
        return Err(invalid);
    }
    if let Some(error) = digest_fault(field(&request, 16)) {
        return Err(error);
    }
    if !same_scalar(field(&request, 16), field(value, 21)) {
        return Err(invalid);
    }
    Ok(())
}

/// How many items a list has.
fn item_count(value: &CanonicalValue) -> (count: usize)
    requires
        value@ is Array,
    ensures
        count == value@->Array_0.len(),
{
    match value {
        CanonicalValue::Array(items) => items.len(),
        _ => 0,
    }
}

/// Whether the manifest lists the leaves that the entries answer, and all
/// windows are stated.
fn fits_manifest(value: &CanonicalValue, verdicts: &NestedVerdicts) -> (fits: bool)
    requires
        record::is_record(value@, 36),
        record::field_of(value@, 18) is Bytes,
        is_nested(record::field_of(value@, 18)->Bytes_0, 21),
        record::field_of(value@, 20) is Bytes,
        record::field_of(value@, 22) is Bytes,
        record::field_of(value@, 30) is Array,
    ensures
        fits == manifest_fits(value@, *verdicts),
{
    let facts = match &verdicts.manifest {
        Some(facts) => facts,
        None => {
            return false;
        },
    };
    if !is_digest(field(value, 13), &facts.catalog_root_digest) || facts.leaves.len() != item_count(
        field(value, 30),
    ) {
        return false;
    }
    let manifest = match open_nested(field(value, 20), 10) {
        Some(manifest) => manifest,
        None => {
            return false;
        },
    };
    if !holds_bytes(field(&manifest, 5), verdicts.max_catalog_head_bytes)
        || verdicts.manifest_head.is_none() {
        return false;
    }
    let grant = match open_nested(field(value, 22), 36) {
        Some(grant) => grant,
        None => {
            return false;
        },
    };
    let request = match open_nested(field(value, 18), 21) {
        Some(request) => request,
        None => {
            return false;
        },
    };
    holds_number(field(&request, 17)) && holds_number(field(&request, 18)) && holds_number(
        field(&grant, 31),
    ) && holds_number(field(&grant, 32))
}

/// Checks everything but the entries and the last signature.
fn check_scope(
    bytes: &[u8],
    idempotency_digest: &Sha256Digest,
    verdicts: &NestedVerdicts,
) -> (value:
    Result<CanonicalValue, IdentityPersistenceError>)
    ensures
        match value {
            Ok(value) => {
                &&& scope_check(bytes@, idempotency_digest@, *verdicts) is Ok
                &&& value@ == cbor::decoded(bytes@)
                &&& cbor::canonical(value@)
            },
            Err(error) => scope_check(bytes@, idempotency_digest@, *verdicts) == Err::<
                (),
                IdentityPersistenceError,
            >(error),
        },
{
    let value = match open_completion(bytes, verdicts) {
        Some(value) => value,
        None => {
            return Err(IdentityPersistenceError::RecoveryCompletionInvalid);
        },
    };
    if let Err(error) = check_subject(&value) {
        return Err(error);
    }
    if let Err(error) = check_catalog(&value, &verdicts.signed_head) {
        return Err(error);
    }
    if let Err(error) = check_artifacts(&value, verdicts.max_grant_bytes) {
        return Err(error);
    }
    if let Err(error) = check_entries(&value, idempotency_digest) {
        return Err(error);
    }
    if let Err(error) = check_context(&value) {
        return Err(error);
    }
    if let Err(error) = check_request(&value) {
        return Err(error);
    }
    if !fits_manifest(&value, verdicts) {
        return Err(IdentityPersistenceError::RecoveryCompletionInvalid);
    }
    Ok(value)
}

/// Whether the first `count` entries were accepted.
fn are_accepted(accepted: &Vec<bool>, count: usize) -> (all: bool)
    ensures
        all == all_accepted(accepted@, count as nat),
{
    if accepted.len() < count {
        return false;
    }
    for i in 0..count
        invariant
            accepted@.len() >= count,
            forall|j: int| 0 <= j < i ==> #[trigger] accepted@[j],
    {
        if !accepted[i] {
            return false;
        }
    }
    true
}

/// What an entry of a completion must agree with.
#[derive(Clone, Copy, Debug)]
pub struct CompletionEntryExpectations {
    /// The UUID of the catalog.
    pub catalog_id: [u8; 16],
    /// The generation of the catalog.
    pub generation: u64,
    /// The position of the entry, from one.
    pub index: u64,
    /// The UUID of the completion.
    pub completion_id: [u8; 16],
    /// How many entries there are.
    pub count: u64,
    /// The digest of the leaf that the entry answers.
    pub leaf_digest: Sha256Digest,
    /// The digest of the context.
    pub context_digest: Sha256Digest,
    /// The digest of the catalog head.
    pub head_digest: Sha256Digest,
    /// When the request was issued.
    pub request_issued_at: u64,
    /// When the request expires.
    pub request_expires_at: u64,
    /// When the catalog head was issued.
    pub head_issued_at: u64,
    /// When the catalog head expires.
    pub head_expires_at: u64,
    /// When the grant was issued.
    pub grant_issued_at: u64,
    /// When the grant expires.
    pub grant_expires_at: u64,
}

/// One entry as the protocol's validator takes it: its byte form and what it
/// must agree with.
#[derive(Debug)]
pub struct CompletionEntryInput {
    /// The byte form of the entry.
    pub entry: Vec<u8>,
    /// What the entry must agree with.
    pub expected: CompletionEntryExpectations,
}

/// The input for the entry at `i` of a completion.
pub open spec fn is_entry_input(
    input: CompletionEntryInput,
    value: Value,
    verdicts: NestedVerdicts,
    i: int,
) -> bool {
    let request = request_value(value);
    let grant = grant_value(value);
    let entries = record::field_of(value, 30)->Array_0;
    &&& input.entry@ == cbor::encoding(entries[i])
    &&& input.expected.catalog_id@ == fields::uuid_of(record::field_of(value, 9))
    &&& input.expected.generation == record::field_of(value, 10)->Unsigned_0
    &&& input.expected.index == i + 1
    &&& input.expected.completion_id@ == fields::uuid_of(record::field_of(value, 2))
    &&& input.expected.count == record::field_of(value, 14)->Unsigned_0
    &&& input.expected.leaf_digest@ == verdicts.manifest->0.leaves@[i]@
    &&& input.expected.context_digest@ == record::field_of(value, 35)->Bytes_0
    &&& input.expected.head_digest@ == record::field_of(value, 12)->Bytes_0
    &&& input.expected.request_issued_at == record::field_of(request, 17)->Unsigned_0
    &&& input.expected.request_expires_at == record::field_of(request, 18)->Unsigned_0
    &&& input.expected.head_issued_at == verdicts.manifest_head->0.issued_at
    &&& input.expected.head_expires_at == verdicts.manifest_head->0.expires_at
    &&& input.expected.grant_issued_at == record::field_of(grant, 31)->Unsigned_0
    &&& input.expected.grant_expires_at == record::field_of(grant, 32)->Unsigned_0
}

/// Builds the validator's inputs for every entry of a completion in scope.
fn build_entry_inputs(value: &CanonicalValue, verdicts: &NestedVerdicts) -> (inputs: Option<
    Vec<CompletionEntryInput>,
>)
    requires
        record::is_record(value@, 36),
        fields::is_uuid(record::field_of(value@, 2)),
        fields::is_uuid(record::field_of(value@, 9)),
        record::field_of(value@, 10) is Unsigned,
        fields::digest_error(record::field_of(value@, 12)) is None,
        record::field_of(value@, 14) is Unsigned,
        record::field_of(value@, 18) is Bytes,
        is_nested(record::field_of(value@, 18)->Bytes_0, 21),
        record::field_of(value@, 22) is Bytes,
        record::field_of(value@, 30) is Array,
        merkle::all_canonical(record::field_of(value@, 30)->Array_0),
        fields::digest_error(record::field_of(value@, 35)) is None,
        manifest_fits(value@, *verdicts),
    ensures
        inputs is Some,
        inputs->0@.len() == record::field_of(value@, 30)->Array_0.len(),
        forall|i: int|
            0 <= i < inputs->0@.len() ==> is_entry_input(
                #[trigger] inputs->0@[i],
                value@,
                *verdicts,
                i,
            ),
{
    let facts = match &verdicts.manifest {
        Some(facts) => facts,
        None => {
            return None;
        },
    };
    let window = match &verdicts.manifest_head {
        Some(window) => window,
        None => {
            return None;
        },
    };
    let request = match open_nested(field(value, 18), 21) {
        Some(request) => request,
        None => {
            return None;
        },
    };
    let grant = match open_nested(field(value, 22), 36) {
        Some(grant) => grant,
        None => {
            return None;
        },
    };
    let (completion_id, catalog_id) = match (
        read_uuid(field(value, 2)),
        read_uuid(field(value, 9)),
    ) {
        (Some(completion_id), Some(catalog_id)) => (completion_id, catalog_id),
        _ => {
            return None;
        },
    };
    let entries = match field(value, 30) {
        CanonicalValue::Array(entries) => entries,
        _ => {
            return None;
        },
    };
    proof {
        value::lemma_array_view(*entries);
    }
    let ghost models = value::items_view(entries@);
    let generation: u64 = number_of(field(value, 10));
    let count: u64 = number_of(field(value, 14));
    let context_digest = digest_of(field(value, 35));
    let head_digest = digest_of(field(value, 12));
    let request_issued_at: u64 = number_of(field(&request, 17));
    let request_expires_at: u64 = number_of(field(&request, 18));
    let grant_issued_at: u64 = number_of(field(&grant, 31));
    let grant_expires_at: u64 = number_of(field(&grant, 32));
    let mut inputs: Vec<CompletionEntryInput> = Vec::new();
    for i in 0..entries.len()
        invariant
            models == value::items_view(entries@),
            record::field_of(value@, 30) == Value::Array(models),
            merkle::all_canonical(models),
            facts.leaves@.len() == models.len(),
            verdicts.manifest == Some(*facts),
            verdicts.manifest_head == Some(*window),
            completion_id@ == fields::uuid_of(record::field_of(value@, 2)),
            catalog_id@ == fields::uuid_of(record::field_of(value@, 9)),
            generation == record::field_of(value@, 10)->Unsigned_0,
            count == record::field_of(value@, 14)->Unsigned_0,
            context_digest@ == record::field_of(value@, 35)->Bytes_0,
            head_digest@ == record::field_of(value@, 12)->Bytes_0,
            request_issued_at == record::field_of(request_value(value@), 17)->Unsigned_0,
            request_expires_at == record::field_of(request_value(value@), 18)->Unsigned_0,
            grant_issued_at == record::field_of(grant_value(value@), 31)->Unsigned_0,
            grant_expires_at == record::field_of(grant_value(value@), 32)->Unsigned_0,
            inputs@.len() == i,
            forall|j: int|
                0 <= j < i ==> is_entry_input(#[trigger] inputs@[j], value@, *verdicts, j),
    {
        assert(models[i as int] == entries@[i as int]@);
        let entry: Vec<u8> = match encode_value(&entries[i]) {
            Ok(bytes) => bytes,
            Err(_) => Vec::new(),
        };
        inputs.push(
            CompletionEntryInput {
                entry,
                expected: CompletionEntryExpectations {
                    catalog_id,
                    generation,
                    index: i as u64 + 1,
                    completion_id,
                    count,
                    leaf_digest: facts.leaves[i],
                    context_digest,
                    head_digest,
                    request_issued_at,
                    request_expires_at,
                    head_issued_at: window.issued_at,
                    head_expires_at: window.expires_at,
                    grant_issued_at,
                    grant_expires_at,
                },
            },
        );
    }
    Some(inputs)
}

/// Builds the command of a completion that passed every check.
fn build_command(value: &CanonicalValue, bytes: Vec<u8>) -> (command: Option<
    HistoryRecoveryCompletionCommand,
>)
    requires
        value@ == cbor::decoded(bytes@),
        record::is_record(value@, 36),
        subject_check(value@) is Ok,
        fields::is_uuid(record::field_of(value@, 9)),
        record::field_of(value@, 10) is Unsigned,
        fields::digest_error(record::field_of(value@, 12)) is None,
        fields::digest_error(record::field_of(value@, 13)) is None,
        record::field_of(value@, 14) is Unsigned,
        fields::digest_error(record::field_of(value@, 15)) is None,
        fields::digest_error(record::field_of(value@, 17)) is None,
        record::field_of(value@, 18) is Bytes,
        fields::digest_error(record::field_of(value@, 19)) is None,
        fields::digest_error(record::field_of(value@, 21)) is None,
        fields::digest_error(record::field_of(value@, 23)) is None,
        fields::digest_error(record::field_of(value@, 25)) is None,
        fields::digest_error(record::field_of(value@, 27)) is None,
        fields::digest_error(record::field_of(value@, 29)) is None,
        fields::is_time(record::field_of(value@, 31)),
        fields::is_time(record::field_of(value@, 32)),
        fields::digest_error(record::field_of(value@, 33)) is None,
        request_check(value@) is Ok,
    ensures
        command is Some,
        command->0@ == completion_of(bytes@),
{
    let request = match open_nested(field(value, 18), 21) {
        Some(request) => request,
        None => {
            return None;
        },
    };
    let (completion_id, device_id) = match (
        read_uuid(field(value, 2)),
        read_uuid(field(value, 4)),
    ) {
        (Some(completion_id), Some(device_id)) => (completion_id, device_id),
        _ => {
            return None;
        },
    };
    let (catalog_id, request_id) = match (
        read_uuid(field(value, 9)),
        read_uuid(field(&request, 2)),
    ) {
        (Some(catalog_id), Some(request_id)) => (catalog_id, request_id),
        _ => {
            return None;
        },
    };
    let (issued_at, expires_at) = match (
        read_time(field(value, 31)),
        read_time(field(value, 32)),
    ) {
        (Some(issued_at), Some(expires_at)) => (issued_at, expires_at),
        _ => {
            return None;
        },
    };
    Some(
        HistoryRecoveryCompletionCommand {
            completion_id,
            identity_id: text_of(field(value, 3)),
            device_id,
            highwater: number_of(field(value, 5)),
            head_at_highwater: digest_of(field(value, 6)),
            highwater_next: number_of(field(value, 7)),
            final_head_hash: digest_of(field(value, 8)),
            catalog_id,
            catalog_generation: number_of(field(value, 10)),
            catalog_head_digest: digest_of(field(value, 12)),
            catalog_root_digest: digest_of(field(value, 13)),
            catalog_leaf_count: number_of(field(value, 14)),
            leaf_set_digest: digest_of(field(value, 15)),
            preparation_digest: digest_of(field(value, 17)),
            request_id,
            candidate_signing_key: fixed_of::<32>(field(&request, 5)),
            request_digest: digest_of(field(value, 19)),
            manifest_digest: digest_of(field(value, 21)),
            grant_digest: digest_of(field(value, 23)),
            offer_digest: digest_of(field(value, 25)),
            delivery_digest: digest_of(field(value, 27)),
            entry_root: digest_of(field(value, 29)),
            idempotency_digest: digest_of(field(value, 33)),
            issued_at,
            expires_at,
            exact_bytes: bytes,
        },
    )
}

/// The artifacts inside a completion, as the protocol's validators take them.
#[derive(Debug)]
pub struct NestedArtifacts {
    /// The catalog head.
    pub catalog_head: Vec<u8>,
    /// The manifest.
    pub manifest: Vec<u8>,
    /// The request.
    pub request: Vec<u8>,
    /// The grant.
    pub grant: Vec<u8>,
    /// The recipient offer.
    pub offer: Vec<u8>,
    /// The delivery fact.
    pub delivery: Vec<u8>,
}

impl HistoryRecoveryCompletionCommand {
    /// The artifacts that the recovery protocol must accept before the
    /// completion can be parsed.
    pub fn nested_artifacts(bytes: &[u8]) -> (artifacts: Result<
        NestedArtifacts,
        IdentityPersistenceError,
    >)
        ensures
            match artifacts {
                Ok(artifacts) => {
                    &&& 0 < bytes@.len() <= MAX_COMPLETION_BYTES
                    &&& is_nested(bytes@, 36)
                    &&& has_artifacts(cbor::decoded(bytes@))
                    &&& Value::Bytes(artifacts.catalog_head@) == record::field_of(
                        cbor::decoded(bytes@),
                        11,
                    )
                    &&& Value::Bytes(artifacts.manifest@) == record::field_of(
                        cbor::decoded(bytes@),
                        20,
                    )
                    &&& Value::Bytes(artifacts.request@) == record::field_of(
                        cbor::decoded(bytes@),
                        18,
                    )
                    &&& Value::Bytes(artifacts.grant@) == record::field_of(
                        cbor::decoded(bytes@),
                        22,
                    )
                    &&& Value::Bytes(artifacts.offer@) == record::field_of(
                        cbor::decoded(bytes@),
                        24,
                    )
                    &&& Value::Bytes(artifacts.delivery@) == record::field_of(
                        cbor::decoded(bytes@),
                        26,
                    )
                },
                Err(error) => {
                    &&& error == IdentityPersistenceError::RecoveryCompletionInvalid
                    &&& !(0 < bytes@.len() <= MAX_COMPLETION_BYTES) || !is_nested(bytes@, 36)
                        || !has_artifacts(cbor::decoded(bytes@))
                },
            },
    {
        let invalid = IdentityPersistenceError::RecoveryCompletionInvalid;
        if bytes.len() == 0 || bytes.len() > MAX_COMPLETION_BYTES {
            return Err(invalid);
        }
        let value = match decode_exact(bytes) {
            Some(value) => value,
            None => {
                return Err(invalid);
            },
        };
        if exact_fields(&value, 36).is_none() || !is_number(field(&value, 1), 2) || !holds_bytes(
            field(&value, 11),
            MAX_COMPLETION_BYTES,
        ) || !holds_bytes(field(&value, 20), MAX_COMPLETION_BYTES) || !holds_bytes(
            field(&value, 18),
            MAX_COMPLETION_BYTES,
        ) || !holds_bytes(field(&value, 22), MAX_COMPLETION_BYTES) || !holds_bytes(
            field(&value, 24),
            MAX_COMPLETION_BYTES,
        ) || !holds_bytes(field(&value, 26), MAX_COMPLETION_BYTES) {
            return Err(invalid);
        }
        Ok(
            NestedArtifacts {
                catalog_head: bytes_of(field(&value, 11)),
                manifest: bytes_of(field(&value, 20)),
                request: bytes_of(field(&value, 18)),
                grant: bytes_of(field(&value, 22)),
                offer: bytes_of(field(&value, 24)),
                delivery: bytes_of(field(&value, 26)),
            },
        )
    }

    /// The entries that the recovery protocol must accept, each with what it
    /// must agree with.
    pub fn entry_inputs(
        bytes: &[u8],
        idempotency_digest: Sha256Digest,
        verdicts: &NestedVerdicts,
    ) -> (inputs: Result<Vec<CompletionEntryInput>, IdentityPersistenceError>)
        ensures
            match inputs {
                Ok(inputs) => {
                    &&& scope_check(bytes@, idempotency_digest@, *verdicts) is Ok
                    &&& inputs@.len() == record::field_of(
                        cbor::decoded(bytes@),
                        30,
                    )->Array_0.len()
                    &&& forall|i: int|
                        0 <= i < inputs@.len() ==> is_entry_input(
                            #[trigger] inputs@[i],
                            cbor::decoded(bytes@),
                            *verdicts,
                            i,
                        )
                },
                Err(error) => scope_check(bytes@, idempotency_digest@, *verdicts) == Err::<
                    (),
                    IdentityPersistenceError,
                >(error),
            },
    {
        let value = match check_scope(bytes, &idempotency_digest, verdicts) {
            Ok(value) => value,
            Err(error) => {
                return Err(error);
            },
        };
        match build_entry_inputs(&value, verdicts) {
            Some(inputs) => Ok(inputs),
            None => Err(IdentityPersistenceError::RecoveryCompletionInvalid),
        }
    }

    /// Parses one exact completion, given what the recovery protocol says of
    /// the artifacts and entries inside it.
    pub fn parse(
        bytes: Vec<u8>,
        idempotency_digest: Sha256Digest,
        verdicts: &NestedVerdicts,
    ) -> (command: Result<Self, IdentityPersistenceError>)
        ensures
            match command {
                Ok(command) => {
                    &&& completion_check(bytes@, idempotency_digest@, *verdicts) is Ok
                    &&& command@ == completion_of(bytes@)
                },
                Err(error) => completion_check(bytes@, idempotency_digest@, *verdicts) == Err::<
                    (),
                    IdentityPersistenceError,
                >(error),
            },
    {
        let invalid = IdentityPersistenceError::RecoveryCompletionInvalid;
        let value = match check_scope(bytes.as_slice(), &idempotency_digest, verdicts) {
            Ok(value) => value,
            Err(error) => {
                return Err(error);
            },
        };
        if !are_accepted(&verdicts.entries_accepted, item_count(field(&value, 30))) {
            return Err(invalid);
        }
        if !holds_fixed(field(&value, 36), 64) {
            return Err(invalid);
        }
        let command = match build_command(&value, bytes) {
            Some(command) => command,
            None => {
                return Err(invalid);
            },
        };
        let signature: [u8; 64] = fixed_of::<64>(field(&value, 36));
        if !is_signed_record(
            &command.candidate_signing_key,
            COMPLETION_SIGNATURE_DOMAIN,
            value,
            &signature,
        ) {
            return Err(invalid);
        }
        Ok(command)
    }
}

} // verus!
