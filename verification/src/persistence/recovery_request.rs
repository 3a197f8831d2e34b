//! Admission of catalog-exhaustive history recovery requests.

use vstd::prelude::*;
use crate::log::event::IdentityLogEventV1;
use crate::log::event_codec;
use crate::log::projection::IdentityLogV1;
use crate::log::state::{DeviceStatusV1, LogState};
use crate::log::wire_line::IDENTITY_LOG_WIRE_VERSION;
use crate::persistence::enrollment;
use crate::persistence::enrollment::{validate_device_add_matches, DeviceEnrollmentRepository};
use crate::persistence::enrollment_challenge::{DurableChallengeState, StoredEnrollmentChallenge};
use crate::persistence::enrollment_command::CreateHistoryRecoveryRequestV4Command;
use crate::persistence::error::IdentityPersistenceError;
use crate::persistence::fields;
use crate::persistence::fields::{
    bytes_of, field, fixed_of, holds_bytes, holds_fixed, is_digest, is_number, is_text,
    read_number, read_uuid,
};
use crate::persistence::head;
use crate::persistence::head::{Head, IdentityLogHead, IdentityLogSnapshot};
use crate::persistence::merkle;
use crate::persistence::row;
use crate::persistence::row::{parse_device_id, parse_signing_key, safe_uint};
use crate::wire::bytes::{bytes_equal, to_vec};
use crate::wire::cbor;
use crate::wire::codec::{canonical_bytes, decode_exact};
use crate::wire::digest;
use crate::wire::digest::Sha256Digest;
use crate::wire::id;
use crate::wire::id::{DeviceEnrollmentChallengeId, DeviceId, IdentityId};
use crate::wire::key;
use crate::wire::key::SigningPublicKey;
use crate::wire::number;
use crate::wire::number::{SafeUint, UtcMillis, MAX_SAFE_INTEGER};
use crate::wire::record;
use crate::wire::record::{build_record, exact_fields, CanonicalEncode};
use crate::wire::text;
use crate::wire::text::text_equal;
use crate::wire::value;
use crate::wire::value::{CanonicalValue, Value};

verus! {

/// The most bytes of a recovery manifest.
pub const MAX_RECOVERY_MANIFEST_BYTES: usize = 35_477;

/// Domain separator for the digest of a set of leaves.
pub const LEAF_SET_DOMAIN: &'static str = "dirextalk.history-recovery.leaf-set.v2\0";

/// A recovery request that was admitted before.
#[derive(Debug)]
pub struct AdmittedRequest {
    /// The digest of the request.
    pub request_digest: Vec<u8>,
    /// The exact request.
    pub request_bytes: Vec<u8>,
    /// The digest of its idempotency key.
    pub idempotency_digest: Vec<u8>,
    /// The receipt that was issued.
    pub receipt_bytes: Vec<u8>,
}

/// A hand-off preparation as its row holds it.
#[derive(Debug)]
pub struct PreparationRow {
    /// The text of the identity.
    pub identity_id: String,
    /// The UUID of the catalog.
    pub catalog_id: [u8; 16],
    /// The UUID of the candidate device.
    pub candidate_device_id: [u8; 16],
    /// The candidate signing key.
    pub candidate_signing_key: Vec<u8>,
    /// The key that grants are encrypted to.
    pub candidate_recipient_key: Vec<u8>,
    /// The sequence of the observed head.
    pub observed_head_sequence: i64,
    /// The hash of the observed head.
    pub observed_head_hash: Vec<u8>,
    /// When the preparation starts to hold.
    pub issued_at_ms: i64,
    /// When the preparation ceases to hold.
    pub expires_at_ms: i64,
    /// The digest of the enrollment capability.
    pub enrollment_capability_hash: Vec<u8>,
    /// The generation of the catalog.
    pub catalog_generation: i64,
    /// The digest of the catalog head.
    pub catalog_head_digest: Vec<u8>,
    /// The UUID of the catalog's authority.
    pub authority_device_id: [u8; 16],
    /// The key of the catalog's authority.
    pub authority_signing_key: Vec<u8>,
    /// The exact preparation.
    pub preparation_bytes: Vec<u8>,
    /// Its digest.
    pub preparation_digest: Vec<u8>,
    /// The exact response of the provider.
    pub provider_response_bytes: Option<Vec<u8>>,
    /// Its digest.
    pub provider_response_digest: Option<Vec<u8>>,
    /// When the response ceases to hold.
    pub provider_expires_at_ms: Option<i64>,
    /// The idempotency digest of the response.
    pub provider_idempotency_key_hash: Vec<u8>,
}

/// The latest catalog of an identity as its row holds it.
#[derive(Debug)]
pub struct CatalogRow {
    /// The UUID of the catalog.
    pub catalog_id: [u8; 16],
    /// Its generation.
    pub generation: i64,
    /// The exact signed head.
    pub head_bytes: Vec<u8>,
    /// The digest of the head.
    pub head_digest: Vec<u8>,
    /// How many leaves it has.
    pub leaf_count: i64,
    /// The root over its leaves.
    pub merkle_root: Vec<u8>,
    /// The sequence of the observed identity head.
    pub observed_head_sequence: i64,
    /// The hash of the observed identity head.
    pub observed_head_hash: Vec<u8>,
    /// The UUID of its authority.
    pub authority_device_id: [u8; 16],
    /// The key of its authority.
    pub authority_signing_key: Vec<u8>,
    /// When it expires.
    pub expires_at_ms: i64,
}

/// What a signed catalog head says.
#[derive(Clone, Copy, Debug)]
pub struct SignedCatalogHead {
    /// The identity of the catalog.
    pub identity_id: IdentityId,
    /// The UUID of the catalog.
    pub catalog_id: [u8; 16],
    /// Its generation.
    pub generation: SafeUint,
    /// The digest of the head.
    pub digest: Sha256Digest,
    /// The root over its leaves.
    pub merkle_root: Sha256Digest,
}

/// What a provider's response says.
#[derive(Debug)]
pub struct ProviderResponse {
    /// When the response ceases to hold.
    pub expires_at: UtcMillis,
    /// The digest of the response.
    pub digest: Sha256Digest,
    /// The identity.
    pub identity_id: IdentityId,
    /// The UUID of the catalog.
    pub catalog_id: [u8; 16],
    /// The generation of the catalog.
    pub catalog_generation: SafeUint,
    /// The digest of the catalog head.
    pub catalog_head_digest: Sha256Digest,
    /// The candidate device.
    pub candidate_device_id: DeviceId,
    /// The digest of the device add.
    pub device_add_digest: Sha256Digest,
    /// The exact device add.
    pub device_add_bytes: Vec<u8>,
    /// The head after the device add.
    pub successor_head: IdentityLogHead,
    /// The digest of the recipient key.
    pub recipient_key_digest: Sha256Digest,
    /// The kind of the authority: a device, the root, or the recovery key.
    pub authority_kind: u64,
    /// The authority, if it is a device.
    pub authority_device_id: Option<DeviceId>,
    /// The key of the authority.
    pub authority_signing_key: SigningPublicKey,
    /// The provider's device.
    pub provider_device_id: DeviceId,
    /// The provider's key.
    pub provider_signing_key: SigningPublicKey,
}

/// What storage and the catalog protocol say about a request, read under the
/// identity's lock.
#[derive(Debug)]
pub struct AdmissionInputs {
    /// The request with the same ID.
    pub existing: Option<AdmittedRequest>,
    /// Whether another request of the identity has the idempotency key.
    pub idempotency_taken: bool,
    /// The locked challenge.
    pub challenge: Result<StoredEnrollmentChallenge, IdentityPersistenceError>,
    /// Whether another open challenge reserves the candidate device.
    pub candidate_reserved: bool,
    /// The locked preparation.
    pub preparation: Option<PreparationRow>,
    /// The latest catalog.
    pub catalog: Option<CatalogRow>,
    /// What the catalog head inside the manifest says.
    pub signed_head: Result<SignedCatalogHead, IdentityPersistenceError>,
    /// The catalog root over the leaves of the manifest.
    pub leaf_root: Option<Sha256Digest>,
    /// What the stored response of the provider says.
    pub provider: Result<ProviderResponse, IdentityPersistenceError>,
    /// The domain separator for digests of recipient keys.
    pub recipient_key_domain: String,
    /// The active log of the identity.
    pub snapshot: Result<IdentityLogSnapshot, IdentityPersistenceError>,
}

/// The head of a sequence and a hash on the current wire version.
pub open spec fn head_at(identity: Seq<u8>, sequence: u64, hash: Seq<u8>) -> Head {
    Head { identity_id: identity, wire: IDENTITY_LOG_WIRE_VERSION, sequence, hash }
}

/// The request was admitted before, exactly as it is now.
pub open spec fn is_admitted(
    command: CreateHistoryRecoveryRequestV4Command,
    existing: AdmittedRequest,
) -> bool {
    &&& existing.request_digest@ == command.request_digest@
    &&& existing.request_bytes@ == command.exact_request_bytes@
    &&& existing.idempotency_digest@ == command.idempotency_digest@
}

/// Whether the challenge allows the request.
pub open spec fn challenge_stage(
    command: CreateHistoryRecoveryRequestV4Command,
    challenge: StoredEnrollmentChallenge,
    now: i64,
) -> Result<(), IdentityPersistenceError> {
    if challenge.identity_id@ != command.identity_id@ || challenge.protocol_version != 1 {
        Err(IdentityPersistenceError::RecoveryPreparationInvalidated)
    } else if challenge.cancelled_at is Some || challenge.state
        == DurableChallengeState::Cancelled {
        Err(IdentityPersistenceError::RecoveryPreparationRevoked)
    } else if challenge.state == DurableChallengeState::Open {
        if now >= challenge.expires_at@ {
            Err(IdentityPersistenceError::RecoveryPreparationExpired)
        } else {
            Err(IdentityPersistenceError::RecoveryPreparationInvalidated)
        }
    } else if now >= command.expires_at@ {
        Err(IdentityPersistenceError::RecoveryPreparationExpired)
    } else if command.post_head_sequence@ == 0 {
        Err(IdentityPersistenceError::InvalidCommand("observed identity log head sequence"))
    } else if head::head_view(challenge.approved_head) != Some(
        head_at(command.identity_id@, command.post_head_sequence@, command.post_head_hash@),
    ) || challenge.target_device_id@ != command.target_device_id@
        || challenge.target_device_signing_key@ != command.target_device_signing_key@
        || challenge.target_device_encryption_key@ != command.recipient_encryption_key@
        || challenge.capability_hash@ != command.enrollment_capability_digest@
        || command.issued_at@ < challenge.created_at@ || command.expires_at@
        > challenge.expires_at@ {
        Err(IdentityPersistenceError::RecoveryPreparationInvalidated)
    } else {
        Ok(())
    }
}

/// The preparation says what the request says.
pub open spec fn is_prepared(
    command: CreateHistoryRecoveryRequestV4Command,
    preparation: PreparationRow,
    now: i64,
) -> bool {
    &&& preparation.identity_id@ == text::hex(command.identity_id@)
    &&& preparation.candidate_device_id@ == command.target_device_id@
    &&& preparation.candidate_signing_key@ == command.target_device_signing_key@
    &&& preparation.candidate_recipient_key@ == command.recipient_encryption_key@
    &&& preparation.observed_head_sequence == command.pre_head_sequence@
    &&& preparation.observed_head_hash@ == command.pre_head_hash@
    &&& preparation.preparation_bytes@ == command.preparation_bytes@
    &&& preparation.preparation_digest@ == command.preparation_digest@
    &&& preparation.enrollment_capability_hash@ == command.enrollment_capability_digest@
    &&& now >= preparation.issued_at_ms
    &&& command.issued_at@ >= preparation.issued_at_ms
    &&& command.expires_at@ <= preparation.expires_at_ms
    &&& now >= command.issued_at@
}

/// Whether the preparation allows the request.
pub open spec fn preparation_stage(
    command: CreateHistoryRecoveryRequestV4Command,
    preparation: Option<PreparationRow>,
    now: i64,
) -> Result<(), IdentityPersistenceError> {
    match preparation {
        None => Err(IdentityPersistenceError::RecoveryPreparationRevoked),
        Some(preparation) => if preparation.provider_response_bytes is None {
            Err(IdentityPersistenceError::RecoveryPreparationRevoked)
        } else if preparation.provider_response_digest is None {
            Err(IdentityPersistenceError::RecoveryPreparationInvalidated)
        } else if now >= preparation.expires_at_ms {
            Err(IdentityPersistenceError::RecoveryPreparationExpired)
        } else if preparation.provider_expires_at_ms is None {
            Err(IdentityPersistenceError::RecoveryPreparationRevoked)
        } else if now >= preparation.provider_expires_at_ms->0 {
            Err(IdentityPersistenceError::RecoveryPreparationExpired)
        } else if !is_prepared(command, preparation, now) {
            Err(IdentityPersistenceError::RecoveryPreparationInvalidated)
        } else {
            Ok(())
        },
    }
}

/// Whether the latest catalog is the one that was prepared.
pub open spec fn catalog_stage(
    command: CreateHistoryRecoveryRequestV4Command,
    catalog: Option<CatalogRow>,
    preparation: PreparationRow,
    now: i64,
) -> Result<(), IdentityPersistenceError> {
    match catalog {
        None => Err(IdentityPersistenceError::RecoveryCatalogHeadChanged),
        Some(catalog) => if now >= catalog.expires_at_ms {
            Err(IdentityPersistenceError::RecoveryCatalogExpired)
        } else if catalog.catalog_id@ != preparation.catalog_id@ || catalog.generation
            != preparation.catalog_generation || catalog.head_digest@
            != preparation.catalog_head_digest@ || catalog.observed_head_sequence
            != command.pre_head_sequence@ || catalog.observed_head_hash@ != command.pre_head_hash@ {
            Err(IdentityPersistenceError::RecoveryCatalogHeadChanged)
        } else if catalog.authority_device_id@ != preparation.authority_device_id@
            || catalog.authority_signing_key@ != preparation.authority_signing_key@ {
            Err(IdentityPersistenceError::RecoveryAuthorityChanged)
        } else {
            Ok(())
        },
    }
}

/// The refusal of a malformed command.
pub open spec fn malformed(label: &'static str) -> Result<(), IdentityPersistenceError> {
    Err(IdentityPersistenceError::InvalidCommand(label))
}

/// Every leaf is a digest, and none occurs twice.
pub open spec fn are_leaves(leaves: Seq<Value>) -> bool {
    &&& forall|i: int| 0 <= i < leaves.len() ==> fields::is_fixed(#[trigger] leaves[i], 32)
    &&& forall|i: int, j: int|
        0 <= i < j < leaves.len() ==> #[trigger] leaves[i] != #[trigger] leaves[j]
}

/// Whether the fields of a manifest have the right form.
pub open spec fn manifest_form(
    bytes: Seq<u8>,
    identity: Seq<u8>,
    signed_head: Result<SignedCatalogHead, IdentityPersistenceError>,
) -> Result<(), IdentityPersistenceError> {
    let value = cbor::decoded(bytes);
    if !(0 < bytes.len() <= MAX_RECOVERY_MANIFEST_BYTES) || !cbor::is_encoded(bytes) || !(
    value is Entries) {
        malformed("history recovery manifest")
    } else if !record::is_record(value, 10) || record::field_of(value, 1) != Value::Unsigned(2)
        || record::field_of(value, 2) != Value::Text(text::hex(identity)) {
        malformed("history recovery manifest fields")
    } else if !fields::is_uuid(record::field_of(value, 3)) {
        malformed("manifest catalog ID")
    } else if !(record::field_of(value, 4) is Unsigned) || !(0 < record::field_of(
        value,
        4,
    )->Unsigned_0 <= MAX_SAFE_INTEGER) {
        malformed("manifest generation")
    } else if !fields::is_bytes_within(record::field_of(value, 5), 466) {
        malformed("manifest catalog head")
    } else if let Err(error) = signed_head {
        Err(error)
    } else if !fields::is_fixed(record::field_of(value, 6), 32) {
        malformed("manifest head digest")
    } else if !fields::is_fixed(record::field_of(value, 7), 32) {
        malformed("manifest merkle root")
    } else if !(record::field_of(value, 8) is Unsigned) || !(1 <= record::field_of(
        value,
        8,
    )->Unsigned_0 <= 1023) {
        malformed("manifest leaf count")
    } else if !fields::is_fixed(record::field_of(value, 9), 32) {
        malformed("manifest leaf-set digest")
    } else if !(record::field_of(value, 10) is Array) {
        malformed("manifest leaf set")
    } else if record::field_of(value, 10)->Array_0.len() != record::field_of(value, 8)->Unsigned_0 {
        malformed("manifest leaf count")
    } else if !are_leaves(record::field_of(value, 10)->Array_0) {
        malformed("manifest leaf digest")
    } else {
        Ok(())
    }
}

/// Why a stored number is not the expected one.
pub open spec fn number_mismatch(
    stored: i64,
    expected: u64,
    label: &'static str,
) -> Option<IdentityPersistenceError> {
    if !(0 <= stored <= MAX_SAFE_INTEGER) {
        Some(IdentityPersistenceError::CorruptData(label))
    } else if stored != expected {
        Some(IdentityPersistenceError::RecoveryCatalogHeadChanged)
    } else {
        None
    }
}

/// Why a stored digest is not the expected one.
pub open spec fn digest_mismatch(
    stored: Seq<u8>,
    expected: Seq<u8>,
    label: &'static str,
) -> Option<IdentityPersistenceError> {
    if stored.len() != 32 {
        Some(IdentityPersistenceError::CorruptData(label))
    } else if stored != expected {
        Some(IdentityPersistenceError::RecoveryCatalogHeadChanged)
    } else {
        None
    }
}

/// Whether a manifest of the right form describes the prepared catalog.
pub open spec fn manifest_match(
    value: Value,
    identity: Seq<u8>,
    signed_head: SignedCatalogHead,
    leaf_root: Option<Sha256Digest>,
    catalog: CatalogRow,
    preparation: PreparationRow,
) -> Result<(), IdentityPersistenceError> {
    let changed = Err::<(), IdentityPersistenceError>(
        IdentityPersistenceError::RecoveryCatalogHeadChanged,
    );
    let catalog_id = fields::uuid_of(record::field_of(value, 3));
    let generation = record::field_of(value, 4)->Unsigned_0;
    let head_digest = record::field_of(value, 6)->Bytes_0;
    let root = record::field_of(value, 7)->Bytes_0;
    if record::field_of(value, 9)->Bytes_0 != digest::hash_in_domain(
        LEAF_SET_DOMAIN@,
        cbor::encoding(record::field_of(value, 10)),
    ) || catalog_id != signed_head.catalog_id@ || generation != signed_head.generation@
        || head_digest != signed_head.digest@ || leaf_root is None || leaf_root->0@ != root || root
        != signed_head.merkle_root@ || signed_head.identity_id@ != identity || catalog_id
        != preparation.catalog_id@ {
        changed
    } else if let Some(error) = number_mismatch(
        preparation.catalog_generation,
        generation,
        "manifest preparation generation",
    ) {
        Err(error)
    } else if let Some(error) = digest_mismatch(
        preparation.catalog_head_digest@,
        head_digest,
        "manifest preparation head",
    ) {
        Err(error)
    } else if catalog_id != catalog.catalog_id@ {
        changed
    } else if let Some(error) = number_mismatch(
        catalog.generation,
        generation,
        "manifest catalog generation",
    ) {
        Err(error)
    } else if let Some(error) = digest_mismatch(
        catalog.head_digest@,
        head_digest,
        "manifest catalog head",
    ) {
        Err(error)
    } else if record::field_of(value, 5)->Bytes_0 != catalog.head_bytes@ {
        changed
    } else if let Some(error) = digest_mismatch(
        catalog.merkle_root@,
        root,
        "manifest merkle root",
    ) {
        Err(error)
    } else if record::field_of(value, 8)->Unsigned_0 != catalog.leaf_count {
        changed
    } else {
        Ok(())
    }
}

/// Whether the manifest describes the prepared catalog.
pub open spec fn manifest_stage(
    bytes: Seq<u8>,
    identity: Seq<u8>,
    signed_head: Result<SignedCatalogHead, IdentityPersistenceError>,
    leaf_root: Option<Sha256Digest>,
    catalog: CatalogRow,
    preparation: PreparationRow,
) -> Result<(), IdentityPersistenceError> {
    if let Err(error) = manifest_form(bytes, identity, signed_head) {
        Err(error)
    } else {
        manifest_match(
            cbor::decoded(bytes),
            identity,
            signed_head->Ok_0,
            leaf_root,
            catalog,
            preparation,
        )
    }
}

/// Whether every leaf is a digest and none occurs twice.
fn check_leaves(leaves: &Vec<CanonicalValue>) -> (distinct: bool)
    ensures
        distinct == are_leaves(value::items_view(leaves@)),
{
    let ghost models = value::items_view(leaves@);
    for i in 0..leaves.len()
        invariant
            models == value::items_view(leaves@),
            forall|k: int| 0 <= k < i ==> fields::is_fixed(#[trigger] models[k], 32),
            forall|j: int, k: int|
                0 <= j < k < i ==> #[trigger] models[j] != #[trigger] models[k],
    {
        assert(models[i as int] == leaves@[i as int]@);
        if !holds_fixed(&leaves[i], 32) {
            return false;
        }
        for j in 0..i
            invariant
                i < leaves@.len(),
                models == value::items_view(leaves@),
                fields::is_fixed(models[i as int], 32),
                forall|k: int| 0 <= k < i ==> fields::is_fixed(#[trigger] models[k], 32),
                forall|k: int| 0 <= k < j ==> #[trigger] models[k] != models[i as int],
        {
            assert(models[j as int] == leaves@[j as int]@);
            assert(models[i as int] == leaves@[i as int]@);
            if fields::same_scalar(&leaves[j], &leaves[i]) {
                return false;
            }
        }
    }
    true
}

/// Opens the bytes of a manifest as a map.
fn open_manifest(bytes: &[u8]) -> (value: Option<CanonicalValue>)
    ensures
        match value {
            Some(value) => {
                &&& 0 < bytes@.len() <= MAX_RECOVERY_MANIFEST_BYTES
                &&& cbor::is_encoded(bytes@)
                &&& value@ == cbor::decoded(bytes@)
                &&& value@ is Entries
                &&& cbor::canonical(value@)
            },
            None => !(0 < bytes@.len() <= MAX_RECOVERY_MANIFEST_BYTES) || !cbor::is_encoded(bytes@)
                || !(cbor::decoded(bytes@) is Entries),
        },
{
    if bytes.len() == 0 || bytes.len() > MAX_RECOVERY_MANIFEST_BYTES {
        return None;
    }
    match decode_exact(bytes) {
        Some(value) => match &value {
            CanonicalValue::Entries(_) => Some(value),
            _ => None,
        },
        None => None,
    }
}

/// Checks the form of a manifest.
fn check_manifest_form(
    bytes: &[u8],
    identity_id: &IdentityId,
    signed_head: &Result<SignedCatalogHead, IdentityPersistenceError>,
) -> (value: Result<CanonicalValue, IdentityPersistenceError>)
    ensures
        match value {
            Ok(value) => {
                &&& manifest_form(bytes@, identity_id@, *signed_head) is Ok
                &&& value@ == cbor::decoded(bytes@)
                &&& cbor::canonical(value@)
            },
            Err(error) => manifest_form(bytes@, identity_id@, *signed_head) == Err::<
                (),
                IdentityPersistenceError,
            >(error),
        },
{
    let value = match open_manifest(bytes) {
        Some(value) => value,
        None => {
            return Err(IdentityPersistenceError::InvalidCommand("history recovery manifest"));
        },
    };
    if exact_fields(&value, 10).is_none() || !is_number(field(&value, 1), 2) || !is_text(
        field(&value, 2),
        identity_id.to_text().as_str(),
    ) {
        return Err(IdentityPersistenceError::InvalidCommand("history recovery manifest fields"));
    }
    if !fields::holds_uuid(field(&value, 3)) {
        return Err(IdentityPersistenceError::InvalidCommand("manifest catalog ID"));
    }
    let generation = match read_number(field(&value, 4)) {
        Some(generation) => generation,
        None => 0,
    };
    if generation == 0 || generation > MAX_SAFE_INTEGER {
        return Err(IdentityPersistenceError::InvalidCommand("manifest generation"));
    }
    if !holds_bytes(field(&value, 5), 466) {
        return Err(IdentityPersistenceError::InvalidCommand("manifest catalog head"));
    }
    if let Err(error) = signed_head {
        return Err(*error);
    }
    if !holds_fixed(field(&value, 6), 32) {
        return Err(IdentityPersistenceError::InvalidCommand("manifest head digest"));
    }
    if !holds_fixed(field(&value, 7), 32) {
        return Err(IdentityPersistenceError::InvalidCommand("manifest merkle root"));
    }
    let leaf_count = match read_number(field(&value, 8)) {
        Some(leaf_count) => leaf_count,
        None => 0,
    };
    if leaf_count < 1 || leaf_count > 1023 {
        return Err(IdentityPersistenceError::InvalidCommand("manifest leaf count"));
    }
    if !holds_fixed(field(&value, 9), 32) {
        return Err(IdentityPersistenceError::InvalidCommand("manifest leaf-set digest"));
    }
    match field(&value, 10) {
        CanonicalValue::Array(leaves) => {
            proof {
                value::lemma_array_view(*leaves);
            }
            if leaves.len() as u64 != leaf_count {
                return Err(IdentityPersistenceError::InvalidCommand("manifest leaf count"));
            }
            if !check_leaves(leaves) {
                return Err(IdentityPersistenceError::InvalidCommand("manifest leaf digest"));
            }
        },
        _ => {
            return Err(IdentityPersistenceError::InvalidCommand("manifest leaf set"));
        },
    }
    Ok(value)
}

/// Why a stored number is not the expected one, if it is not.
fn number_unlike(stored: i64, expected: u64, label: &'static str) -> (fault: Option<
    IdentityPersistenceError,
>)
    ensures
        fault == number_mismatch(stored, expected, label),
{
    match safe_uint(stored, label) {
        Ok(stored) => {
            if stored.get() == expected {
                None
            } else {
                Some(IdentityPersistenceError::RecoveryCatalogHeadChanged)
            }
        },
        Err(error) => Some(error),
    }
}

/// Why a stored digest is not the expected one, if it is not.
fn digest_unlike(stored: &[u8], expected: &[u8], label: &'static str) -> (fault: Option<
    IdentityPersistenceError,
>)
    ensures
        fault == digest_mismatch(stored@, expected@, label),
{
    match row::digest(stored, label) {
        Ok(_) => {
            if bytes_equal(stored, expected) {
                None
            } else {
                Some(IdentityPersistenceError::RecoveryCatalogHeadChanged)
            }
        },
        Err(error) => Some(error),
    }
}

/// Whether the leaves have the stated digest.
fn has_leaf_set_digest(leaves: &CanonicalValue, stated: &CanonicalValue) -> (has: bool)
    requires
        cbor::canonical(leaves@),
        fields::is_fixed(stated@, 32),
    ensures
        has == (stated@->Bytes_0 == digest::hash_in_domain(
            LEAF_SET_DOMAIN@,
            cbor::encoding(leaves@),
        )),
{
    let bytes = canonical_bytes(leaves);
    is_digest(stated, &Sha256Digest::hash_domain(LEAF_SET_DOMAIN, bytes.as_slice()))
}

/// Whether the value is the digest.
fn is_stated(value: &CanonicalValue, expected: &Option<Sha256Digest>) -> (is: bool)
    requires
        value@ is Bytes,
    ensures
        is == (expected is Some && expected->0@ == value@->Bytes_0),
{
    match expected {
        Some(expected) => is_digest(value, expected),
        None => false,
    }
}

/// The field of a canonical record is canonical.
proof fn lemma_field_canonical(value: Value, count: nat, key: int)
    requires
        record::is_record(value, count),
        1 <= key <= count,
        cbor::canonical(value),
    ensures
        cbor::canonical(record::field_of(value, key)),
{
    let depth = cbor::MAX_CANONICAL_DEPTH as nat;
    let pair = value->Entries_0[key - 1];
    assert(cbor::canonical_within(pair.1, (depth - 1) as nat));
    record::lemma_canonical_deeper(pair.1, (depth - 1) as nat, depth);
}

/// Checks that a manifest describes the prepared catalog.
pub fn validate_history_recovery_manifest_v2(
    bytes: &[u8],
    identity_id: IdentityId,
    signed_head: &Result<SignedCatalogHead, IdentityPersistenceError>,
    leaf_root: Option<Sha256Digest>,
    catalog: &CatalogRow,
    preparation: &PreparationRow,
) -> (checked: Result<(), IdentityPersistenceError>)
    ensures
        checked == manifest_stage(
            bytes@,
            identity_id@,
            *signed_head,
            leaf_root,
            *catalog,
            *preparation,
        ),
{
    let changed = IdentityPersistenceError::RecoveryCatalogHeadChanged;
    let value = match check_manifest_form(bytes, &identity_id, signed_head) {
        Ok(value) => value,
        Err(error) => {
            return Err(error);
        },
    };
    let head = match signed_head {
        Ok(head) => head,
        Err(error) => {
            return Err(*error);
        },
    };
    let catalog_id = match read_uuid(field(&value, 3)) {
        Some(catalog_id) => catalog_id,
        None => {
            return Err(changed);
        },
    };
    let generation: u64 = fields::number_of(field(&value, 4));
    let head_digest = fixed_of::<32>(field(&value, 6));
    let root = fixed_of::<32>(field(&value, 7));
    proof {
        lemma_field_canonical(value@, 10, 10);
    }
    if !has_leaf_set_digest(field(&value, 10), field(&value, 9)) || !bytes_equal(
        &catalog_id,
        &head.catalog_id,
    ) || generation != head.generation.get() || !bytes_equal(&head_digest, head.digest.as_bytes())
        || !is_stated(field(&value, 7), &leaf_root) || !bytes_equal(
        &root,
        head.merkle_root.as_bytes(),
    ) || head.identity_id != identity_id || !bytes_equal(&catalog_id, &preparation.catalog_id) {
        return Err(changed);
    }
    if let Some(error) = number_unlike(
        preparation.catalog_generation,
        generation,
        "manifest preparation generation",
    ) {
        return Err(error);
    }
    if let Some(error) = digest_unlike(
        preparation.catalog_head_digest.as_slice(),
        &head_digest,
        "manifest preparation head",
    ) {
        return Err(error);
    }
    if !bytes_equal(&catalog_id, &catalog.catalog_id) {
        return Err(changed);
    }
    if let Some(error) = number_unlike(
        catalog.generation,
        generation,
        "manifest catalog generation",
    ) {
        return Err(error);
    }
    if let Some(error) = digest_unlike(
        catalog.head_digest.as_slice(),
        &head_digest,
        "manifest catalog head",
    ) {
        return Err(error);
    }
    if !bytes_equal(bytes_of(field(&value, 5)).as_slice(), catalog.head_bytes.as_slice()) {
        return Err(changed);
    }
    if let Some(error) = digest_unlike(
        catalog.merkle_root.as_slice(),
        &root,
        "manifest merkle root",
    ) {
        return Err(error);
    }
    if catalog.leaf_count < 0 || fields::number_of(field(&value, 8)) != catalog.leaf_count as u64 {
        return Err(changed);
    }
    Ok(())
}

/// The catalog head inside a manifest, as its parser takes it.
pub fn manifest_head_bytes(bytes: &[u8]) -> (head: Option<Vec<u8>>)
    ensures
        ({
            let value = cbor::decoded(bytes@);
            let found = 0 < bytes@.len() <= MAX_RECOVERY_MANIFEST_BYTES && cbor::is_encoded(bytes@)
                && record::is_record(value, 10) && fields::is_bytes_within(
                record::field_of(value, 5),
                466,
            );
            match head {
                Some(head) => found && head@ == record::field_of(value, 5)->Bytes_0,
                None => !found,
            }
        }),
{
    let value = match open_manifest(bytes) {
        Some(value) => value,
        None => {
            return None;
        },
    };
    if exact_fields(&value, 10).is_none() || !holds_bytes(field(&value, 5), 466) {
        return None;
    }
    Some(bytes_of(field(&value, 5)))
}

/// The leaves of a manifest, as the catalog root takes them.
pub fn manifest_leaves(bytes: &[u8]) -> (leaves: Option<Vec<Sha256Digest>>)
    ensures
        ({
            let value = cbor::decoded(bytes@);
            let found = 0 < bytes@.len() <= MAX_RECOVERY_MANIFEST_BYTES && cbor::is_encoded(bytes@)
                && record::is_record(value, 10) && record::field_of(value, 10) is Array
                && are_leaves(record::field_of(value, 10)->Array_0);
            match leaves {
                Some(leaves) => {
                    &&& found
                    &&& merkle::digests_view(leaves@) == Seq::new(
                        record::field_of(value, 10)->Array_0.len(),
                        |i: int| record::field_of(value, 10)->Array_0[i]->Bytes_0,
                    )
                },
                None => !found,
            }
        }),
{
    let value = match open_manifest(bytes) {
        Some(value) => value,
        None => {
            return None;
        },
    };
    if exact_fields(&value, 10).is_none() {
        return None;
    }
    let items = match field(&value, 10) {
        CanonicalValue::Array(items) => items,
        _ => {
            return None;
        },
    };
    proof {
        value::lemma_array_view(*items);
    }
    if !check_leaves(items) {
        return None;
    }
    let ghost models = value::items_view(items@);
    let mut leaves: Vec<Sha256Digest> = Vec::new();
    for i in 0..items.len()
        invariant
            models == value::items_view(items@),
            are_leaves(models),
            leaves@.len() == i,
            forall|j: int| 0 <= j < i ==> (#[trigger] leaves@[j])@ == models[j]->Bytes_0,
    {
        assert(models[i as int] == items@[i as int]@);
        leaves.push(Sha256Digest::from_bytes(fixed_of::<32>(&items[i])));
    }
    assert(merkle::digests_view(leaves@) =~= Seq::new(
        models.len(),
        |i: int| models[i]->Bytes_0,
    ));
    Some(leaves)
}

/// Whether the provider's response fits the request and the catalog.
pub open spec fn provider_stage(
    command: CreateHistoryRecoveryRequestV4Command,
    provider: Result<ProviderResponse, IdentityPersistenceError>,
    recipient_key_domain: Seq<char>,
    catalog: CatalogRow,
    preparation: PreparationRow,
    now: i64,
) -> Result<(), IdentityPersistenceError> {
    let invalidated = Err::<(), IdentityPersistenceError>(
        IdentityPersistenceError::RecoveryPreparationInvalidated,
    );
    if preparation.provider_idempotency_key_hash@.len() != 32 {
        Err(IdentityPersistenceError::CorruptData("provider idempotency key"))
    } else {
        match provider {
            Err(error) => Err(error),
            Ok(provider) => if now >= provider.expires_at@ {
                Err(IdentityPersistenceError::RecoveryPreparationExpired)
            } else if preparation.provider_response_digest->0@.len() != 32 {
                Err(IdentityPersistenceError::CorruptData("provider response digest"))
            } else if preparation.provider_response_digest->0@ != provider.digest@
                || provider.identity_id@ != command.identity_id@ || provider.catalog_id@
                != preparation.catalog_id@ {
                invalidated
            } else if !(0 <= preparation.catalog_generation <= MAX_SAFE_INTEGER) {
                Err(IdentityPersistenceError::CorruptData("catalog generation"))
            } else if provider.catalog_generation@ != preparation.catalog_generation {
                invalidated
            } else if preparation.catalog_head_digest@.len() != 32 {
                Err(IdentityPersistenceError::CorruptData("catalog head digest"))
            } else if provider.catalog_head_digest@ != preparation.catalog_head_digest@
                || provider.candidate_device_id@ != command.target_device_id@
                || provider.device_add_digest@ != command.device_add_digest@
                || provider.device_add_bytes@ != command.device_add_bytes@ {
                invalidated
            } else if command.post_head_sequence@ == 0 {
                malformed("observed identity log head sequence")
            } else if provider.successor_head@ != head_at(
                command.identity_id@,
                command.post_head_sequence@,
                command.post_head_hash@,
            ) || provider.recipient_key_digest@ != digest::hash_in_domain(
                recipient_key_domain,
                command.recipient_encryption_key@,
            ) || provider.expires_at@ > command.expires_at@ {
                invalidated
            } else if provider.authority_kind == 1 && !id::is_uuid_v7(
                catalog.authority_device_id@,
            ) {
                Err(IdentityPersistenceError::CorruptData("device enrollment device ID"))
            } else if provider.authority_kind == 1 && (provider.authority_device_id is None
                || provider.authority_device_id->0@ != catalog.authority_device_id@
                || provider.authority_signing_key@ != catalog.authority_signing_key@) {
                invalidated
            } else {
                Ok(())
            },
        }
    }
}

/// The device is active in the log with this signing key.
pub open spec fn is_active_device(state: LogState, device: Seq<u8>, signing_key: Seq<u8>) -> bool {
    &&& state.devices.dom().contains(device)
    &&& state.devices[device].status == DeviceStatusV1::Active
    &&& state.devices[device].certificate.unsigned.device_signing_key == signing_key
}

/// Whether the log still supports the request after its heads were matched.
pub open spec fn authority_stage(
    command: CreateHistoryRecoveryRequestV4Command,
    challenge: StoredEnrollmentChallenge,
    catalog: CatalogRow,
    provider: ProviderResponse,
    state: LogState,
    events: Seq<Seq<u8>>,
) -> Result<(), IdentityPersistenceError> {
    let changed = Err::<(), IdentityPersistenceError>(
        IdentityPersistenceError::RecoveryAuthorityChanged,
    );
    let pre_head = head_at(
        command.identity_id@,
        command.pre_head_sequence@,
        command.pre_head_hash@,
    );
    let decoded = event_codec::decode_event(command.device_add_bytes@);
    if !id::is_uuid_v7(catalog.authority_device_id@) {
        Err(IdentityPersistenceError::CorruptData("device enrollment device ID"))
    } else if !key::is_public_key(catalog.authority_signing_key@) {
        Err(IdentityPersistenceError::CorruptData("catalog authority key"))
    } else if !is_active_device(
        state,
        catalog.authority_device_id@,
        catalog.authority_signing_key@,
    ) {
        changed
    } else if let Err(error) = decoded {
        Err(IdentityPersistenceError::IdentityLog(error))
    } else if let Err(error) = enrollment::device_add_check(
        decoded->Ok_0,
        challenge,
        pre_head,
        Some(state.current_root_key),
    ) {
        Err(error)
    } else if events.len() == 0 || events.last() != command.device_add_bytes@
        || !is_active_device(state, provider.provider_device_id@, provider.provider_signing_key@) {
        Err(IdentityPersistenceError::RecoveryPreparationInvalidated)
    } else if provider.authority_kind == 1 && (provider.authority_device_id is None
        || !is_active_device(
        state,
        provider.authority_device_id->0@,
        provider.authority_signing_key@,
    )) {
        changed
    } else if provider.authority_kind == 2 && provider.authority_signing_key@
        != state.current_root_key || provider.authority_kind == 3 && provider.authority_signing_key@
        != state.current_recovery_key {
        changed
    } else {
        Ok(())
    }
}

/// Whether the idempotency key is free and the challenge allows the request.
pub open spec fn candidate_stage(
    command: CreateHistoryRecoveryRequestV4Command,
    idempotency_taken: bool,
    challenge: Result<StoredEnrollmentChallenge, IdentityPersistenceError>,
    now: i64,
) -> Result<(), IdentityPersistenceError> {
    if idempotency_taken {
        Err(IdentityPersistenceError::IdempotencyConflict)
    } else if let Err(error) = challenge {
        Err(error)
    } else {
        challenge_stage(command, challenge->Ok_0, now)
    }
}

/// Everything that a new request must satisfy before the log is looked at.
pub open spec fn admission_check(
    command: CreateHistoryRecoveryRequestV4Command,
    inputs: AdmissionInputs,
    now: i64,
) -> Result<(), IdentityPersistenceError> {
    if let Err(error) = candidate_stage(command, inputs.idempotency_taken, inputs.challenge, now) {
        Err(error)
    } else if inputs.candidate_reserved {
        Err(IdentityPersistenceError::RecoveryCandidateKeyChanged)
    } else if let Err(error) = preparation_stage(command, inputs.preparation, now) {
        Err(error)
    } else if let Err(error) = catalog_stage(
        command,
        inputs.catalog,
        inputs.preparation->0,
        now,
    ) {
        Err(error)
    } else if let Err(error) = manifest_stage(
        command.manifest_bytes@,
        command.identity_id@,
        inputs.signed_head,
        inputs.leaf_root,
        inputs.catalog->0,
        inputs.preparation->0,
    ) {
        Err(error)
    } else if let Err(error) = provider_stage(
        command,
        inputs.provider,
        inputs.recipient_key_domain@,
        inputs.catalog->0,
        inputs.preparation->0,
        now,
    ) {
        Err(error)
    } else if let Err(error) = inputs.snapshot {
        Err(error)
    } else if command.pre_head_sequence@ == 0 {
        malformed("observed identity log head sequence")
    } else {
        Ok(())
    }
}

/// The log's head is the one after the device add, as the challenge recorded
/// it.
pub open spec fn is_at_post_head(
    command: CreateHistoryRecoveryRequestV4Command,
    challenge: StoredEnrollmentChallenge,
    state: LogState,
) -> bool {
    &&& head::head_of(state) == head_at(
        command.identity_id@,
        command.post_head_sequence@,
        command.post_head_hash@,
    )
    &&& head::head_view(challenge.approved_head) == Some(head::head_of(state))
}

/// The fields of the receipt of an admitted request.
pub open spec fn admission_receipt_fields(
    request_id: Seq<u8>,
    request_digest: Seq<u8>,
    response_capability_digest: Seq<u8>,
    accepted_at: i64,
) -> Seq<Value> {
    seq![
        Value::Unsigned(4),
        Value::Text(text::hyphenated(request_id)),
        Value::Bytes(request_digest),
        Value::Bytes(response_capability_digest),
        number::millis_model(accepted_at),
    ]
}

/// The byte form of the receipt of an admitted request.
pub open spec fn admission_receipt(
    command: CreateHistoryRecoveryRequestV4Command,
    accepted_at: i64,
) -> Seq<u8> {
    cbor::encoding(
        record::record(
            admission_receipt_fields(
                command.request_id@,
                command.request_digest@,
                command.response_capability_digest@,
                accepted_at,
            ),
        ),
    )
}

/// Encodes the receipt of an admitted request.
fn encode_v4_request_receipt(
    request_id: DeviceEnrollmentChallengeId,
    request_digest: Sha256Digest,
    response_capability_digest: Sha256Digest,
    accepted_at: UtcMillis,
) -> (receipt: Vec<u8>)
    ensures
        receipt@ == cbor::encoding(
            record::record(
                admission_receipt_fields(
                    request_id@,
                    request_digest@,
                    response_capability_digest@,
                    accepted_at@,
                ),
            ),
        ),
{
    let values: Vec<CanonicalValue> = vec![
        CanonicalValue::Unsigned(4),
        CanonicalValue::Text(request_id.to_text()),
        request_digest.to_canonical_value(),
        response_capability_digest.to_canonical_value(),
        accepted_at.to_canonical_value(),
    ];
    request_id.checked();
    proof {
        let models = admission_receipt_fields(
            request_id@,
            request_digest@,
            response_capability_digest@,
            accepted_at@,
        );
        request_digest.lemma_len();
        response_capability_digest.lemma_len();
        record::lemma_uuid_canonical(request_id@);
        record::lemma_record_canonical(models, 31);
        assert(value::items_view(values@) =~= models);
    }
    canonical_bytes(&build_record(values))
}

/// Checks that the challenge allows the request.
fn check_challenge(
    command: &CreateHistoryRecoveryRequestV4Command,
    challenge: &StoredEnrollmentChallenge,
    now: UtcMillis,
) -> (checked: Result<(), IdentityPersistenceError>)
    ensures
        checked == challenge_stage(*command, *challenge, now@),
{
    let invalidated = IdentityPersistenceError::RecoveryPreparationInvalidated;
    if challenge.identity_id != command.identity_id || challenge.protocol_version != 1 {
        return Err(invalidated);
    }
    if challenge.cancelled_at.is_some() || challenge.state == DurableChallengeState::Cancelled {
        return Err(IdentityPersistenceError::RecoveryPreparationRevoked);
    }
    if challenge.state == DurableChallengeState::Open {
        return Err(
            if now.get() >= challenge.expires_at.get() {
                IdentityPersistenceError::RecoveryPreparationExpired
            } else {
                invalidated
            },
        );
    }
    if now.get() >= command.expires_at.get() {
        return Err(IdentityPersistenceError::RecoveryPreparationExpired);
    }
    let post_head = match IdentityLogHead::observed(
        command.identity_id,
        command.post_head_sequence,
        command.post_head_hash,
    ) {
        Ok(head) => head,
        Err(error) => {
            return Err(error);
        },
    };
    if !head::heads_equal(challenge.approved_head, Some(post_head)) || challenge.target_device_id
        != command.target_device_id || challenge.target_device_signing_key
        != command.target_device_signing_key || challenge.target_device_encryption_key
        != command.recipient_encryption_key || challenge.capability_hash
        != command.enrollment_capability_digest || command.issued_at.get()
        < challenge.created_at.get() || command.expires_at.get() > challenge.expires_at.get() {
        return Err(invalidated);
    }
    Ok(())
}

/// Whether the preparation says what the request says.
fn matches_preparation(
    command: &CreateHistoryRecoveryRequestV4Command,
    preparation: &PreparationRow,
    now: UtcMillis,
) -> (matches: bool)
    ensures
        matches == is_prepared(*command, *preparation, now@),
{
    let at: i64 = now.get();
    text_equal(preparation.identity_id.as_str(), command.identity_id.to_text().as_str())
        && bytes_equal(&preparation.candidate_device_id, command.target_device_id.as_uuid_bytes())
        && bytes_equal(
        preparation.candidate_signing_key.as_slice(),
        command.target_device_signing_key.as_bytes(),
    ) && bytes_equal(
        preparation.candidate_recipient_key.as_slice(),
        command.recipient_encryption_key.as_bytes(),
    ) && preparation.observed_head_sequence == row::to_i64(command.pre_head_sequence)
        && bytes_equal(preparation.observed_head_hash.as_slice(), command.pre_head_hash.as_bytes())
        && bytes_equal(
        preparation.preparation_bytes.as_slice(),
        command.preparation_bytes.as_slice(),
    ) && bytes_equal(
        preparation.preparation_digest.as_slice(),
        command.preparation_digest.as_bytes(),
    ) && bytes_equal(
        preparation.enrollment_capability_hash.as_slice(),
        command.enrollment_capability_digest.as_bytes(),
    ) && at >= preparation.issued_at_ms && command.issued_at.get() >= preparation.issued_at_ms
        && command.expires_at.get() <= preparation.expires_at_ms && at >= command.issued_at.get()
}

/// Checks that the preparation allows the request.
fn check_preparation<'a>(
    command: &CreateHistoryRecoveryRequestV4Command,
    preparation: &'a Option<PreparationRow>,
    now: UtcMillis,
) -> (checked: Result<&'a PreparationRow, IdentityPersistenceError>)
    ensures
        match checked {
            Ok(row) => {
                &&& preparation_stage(*command, *preparation, now@) is Ok
                &&& *preparation == Some(*row)
            },
            Err(error) => preparation_stage(*command, *preparation, now@) == Err::<
                (),
                IdentityPersistenceError,
            >(error),
        },
{
    let row = match preparation {
        Some(row) => row,
        None => {
            return Err(IdentityPersistenceError::RecoveryPreparationRevoked);
        },
    };
    if row.provider_response_bytes.is_none() {
        return Err(IdentityPersistenceError::RecoveryPreparationRevoked);
    }
    if row.provider_response_digest.is_none() {
        return Err(IdentityPersistenceError::RecoveryPreparationInvalidated);
    }
    if now.get() >= row.expires_at_ms {
        return Err(IdentityPersistenceError::RecoveryPreparationExpired);
    }
    match row.provider_expires_at_ms {
        Some(expires_at) => {
            if now.get() >= expires_at {
                return Err(IdentityPersistenceError::RecoveryPreparationExpired);
            }
        },
        None => {
            return Err(IdentityPersistenceError::RecoveryPreparationRevoked);
        },
    }
    if !matches_preparation(command, row, now) {
        return Err(IdentityPersistenceError::RecoveryPreparationInvalidated);
    }
    Ok(row)
}

/// Checks that the latest catalog is the one that was prepared.
fn check_catalog<'a>(
    command: &CreateHistoryRecoveryRequestV4Command,
    catalog: &'a Option<CatalogRow>,
    preparation: &PreparationRow,
    now: UtcMillis,
) -> (checked: Result<&'a CatalogRow, IdentityPersistenceError>)
    ensures
        match checked {
            Ok(row) => {
                &&& catalog_stage(*command, *catalog, *preparation, now@) is Ok
                &&& *catalog == Some(*row)
            },
            Err(error) => catalog_stage(*command, *catalog, *preparation, now@) == Err::<
                (),
                IdentityPersistenceError,
            >(error),
        },
{
    let row = match catalog {
        Some(row) => row,
        None => {
            return Err(IdentityPersistenceError::RecoveryCatalogHeadChanged);
        },
    };
    if now.get() >= row.expires_at_ms {
        return Err(IdentityPersistenceError::RecoveryCatalogExpired);
    }
    if !bytes_equal(&row.catalog_id, &preparation.catalog_id) || row.generation
        != preparation.catalog_generation || !bytes_equal(
        row.head_digest.as_slice(),
        preparation.catalog_head_digest.as_slice(),
    ) || row.observed_head_sequence != row::to_i64(command.pre_head_sequence) || !bytes_equal(
        row.observed_head_hash.as_slice(),
        command.pre_head_hash.as_bytes(),
    ) {
        return Err(IdentityPersistenceError::RecoveryCatalogHeadChanged);
    }
    if !bytes_equal(&row.authority_device_id, &preparation.authority_device_id) || !bytes_equal(
        row.authority_signing_key.as_slice(),
        preparation.authority_signing_key.as_slice(),
    ) {
        return Err(IdentityPersistenceError::RecoveryAuthorityChanged);
    }
    Ok(row)
}

/// Checks that the provider's response fits the request and the catalog.
fn check_provider<'a>(
    command: &CreateHistoryRecoveryRequestV4Command,
    provider: &'a Result<ProviderResponse, IdentityPersistenceError>,
    recipient_key_domain: &str,
    catalog: &CatalogRow,
    preparation: &PreparationRow,
    now: UtcMillis,
) -> (checked: Result<&'a ProviderResponse, IdentityPersistenceError>)
    requires
        preparation.provider_response_digest is Some,
    ensures
        match checked {
            Ok(response) => {
                &&& provider_stage(
                    *command,
                    *provider,
                    recipient_key_domain@,
                    *catalog,
                    *preparation,
                    now@,
                ) is Ok
                &&& *provider == Ok::<ProviderResponse, IdentityPersistenceError>(*response)
            },
            Err(error) => provider_stage(
                *command,
                *provider,
                recipient_key_domain@,
                *catalog,
                *preparation,
                now@,
            ) == Err::<(), IdentityPersistenceError>(error),
        },
{
    let invalidated = IdentityPersistenceError::RecoveryPreparationInvalidated;
    if let Err(error) = row::digest(
        preparation.provider_idempotency_key_hash.as_slice(),
        "provider idempotency key",
    ) {
        return Err(error);
    }
    let response = match provider {
        Ok(response) => response,
        Err(error) => {
            return Err(*error);
        },
    };
    if now.get() >= response.expires_at.get() {
        return Err(IdentityPersistenceError::RecoveryPreparationExpired);
    }
    let stored_digest = match &preparation.provider_response_digest {
        Some(stored) => match row::digest(stored.as_slice(), "provider response digest") {
            Ok(stored) => stored,
            Err(error) => {
                return Err(error);
            },
        },
        None => {
            return Err(invalidated);
        },
    };
    if stored_digest != response.digest || response.identity_id != command.identity_id
        || !bytes_equal(&response.catalog_id, &preparation.catalog_id) {
        return Err(invalidated);
    }
    let generation = match safe_uint(preparation.catalog_generation, "catalog generation") {
        Ok(generation) => generation,
        Err(error) => {
            return Err(error);
        },
    };
    if response.catalog_generation.get() != generation.get() {
        return Err(invalidated);
    }
    let head_digest = match row::digest(
        preparation.catalog_head_digest.as_slice(),
        "catalog head digest",
    ) {
        Ok(head_digest) => head_digest,
        Err(error) => {
            return Err(error);
        },
    };
    if response.catalog_head_digest != head_digest || response.candidate_device_id
        != command.target_device_id || response.device_add_digest != command.device_add_digest
        || !bytes_equal(
        response.device_add_bytes.as_slice(),
        command.device_add_bytes.as_slice(),
    ) {
        return Err(invalidated);
    }
    let post_head = match IdentityLogHead::observed(
        command.identity_id,
        command.post_head_sequence,
        command.post_head_hash,
    ) {
        Ok(head) => head,
        Err(error) => {
            return Err(error);
        },
    };
    let recipient_key_digest = Sha256Digest::hash_domain(
        recipient_key_domain,
        command.recipient_encryption_key.as_bytes(),
    );
    if response.successor_head != post_head || response.recipient_key_digest
        != recipient_key_digest || response.expires_at.get() > command.expires_at.get() {
        return Err(invalidated);
    }
    if response.authority_kind == 1 {
        let authority = match parse_device_id(
            catalog.authority_device_id,
            "device enrollment device ID",
        ) {
            Ok(authority) => authority,
            Err(error) => {
                return Err(error);
            },
        };
        let same_device = match response.authority_device_id {
            Some(device) => device == authority,
            None => false,
        };
        if !same_device || !bytes_equal(
            response.authority_signing_key.as_bytes(),
            catalog.authority_signing_key.as_slice(),
        ) {
            return Err(invalidated);
        }
    }
    Ok(response)
}

/// Whether the device is active in the log with this signing key.
pub fn has_active_device(
    projection: &IdentityLogV1,
    device_id: DeviceId,
    signing_key: SigningPublicKey,
) -> (active: bool)
    ensures
        active == is_active_device(projection@, device_id@, signing_key@),
{
    let is_active = match projection.device_status(device_id) {
        Some(DeviceStatusV1::Active) => true,
        _ => false,
    };
    let same_key = match projection.device_certificate(device_id) {
        Some(certificate) => certificate.device_signing_key() == signing_key,
        None => false,
    };
    is_active && same_key
}

/// Checks that the log still supports the request.
fn check_authority(
    command: &CreateHistoryRecoveryRequestV4Command,
    challenge: &StoredEnrollmentChallenge,
    catalog: &CatalogRow,
    provider: &ProviderResponse,
    pre_head: IdentityLogHead,
    snapshot: &IdentityLogSnapshot,
) -> (checked: Result<(), IdentityPersistenceError>)
    requires
        pre_head@ == head_at(
            command.identity_id@,
            command.pre_head_sequence@,
            command.pre_head_hash@,
        ),
    ensures
        checked == authority_stage(
            *command,
            *challenge,
            *catalog,
            *provider,
            snapshot@,
            snapshot.events(),
        ),
{
    let changed = IdentityPersistenceError::RecoveryAuthorityChanged;
    let invalidated = IdentityPersistenceError::RecoveryPreparationInvalidated;
    let projection = snapshot.projection();
    let authority = match parse_device_id(
        catalog.authority_device_id,
        "device enrollment device ID",
    ) {
        Ok(authority) => authority,
        Err(error) => {
            return Err(error);
        },
    };
    let authority_key = match parse_signing_key(
        catalog.authority_signing_key.as_slice(),
        "catalog authority key",
    ) {
        Ok(authority_key) => authority_key,
        Err(error) => {
            return Err(error);
        },
    };
    if !has_active_device(projection, authority, authority_key) {
        return Err(changed);
    }
    let event = match IdentityLogEventV1::decode_and_verify(command.device_add_bytes.as_slice()) {
        Ok(event) => event,
        Err(error) => {
            return Err(IdentityPersistenceError::IdentityLog(error));
        },
    };
    if let Err(error) = validate_device_add_matches(
        &event,
        challenge,
        pre_head,
        Some(projection.current_root_key()),
    ) {
        return Err(error);
    }
    let events = snapshot.exact_events();
    if events.len() == 0 {
        return Err(invalidated);
    }
    assert(snapshot.events().last() == events@[events@.len() - 1]@);
    if !bytes_equal(events[events.len() - 1].as_slice(), command.device_add_bytes.as_slice())
        || !has_active_device(
        projection,
        provider.provider_device_id,
        provider.provider_signing_key,
    ) {
        return Err(invalidated);
    }
    if provider.authority_kind == 1 {
        match provider.authority_device_id {
            Some(device) => {
                if !has_active_device(projection, device, provider.authority_signing_key) {
                    return Err(changed);
                }
            },
            None => {
                return Err(changed);
            },
        }
    }
    if provider.authority_kind == 2 && provider.authority_signing_key
        != projection.current_root_key() || provider.authority_kind == 3
        && provider.authority_signing_key != projection.current_recovery_key() {
        return Err(changed);
    }
    Ok(())
}

impl DeviceEnrollmentRepository {
    /// Gives the receipt of an admitted request again, to the very same request
    /// only.
    pub fn replay_history_recovery_request_v4(
        &self,
        command: &CreateHistoryRecoveryRequestV4Command,
        existing: &AdmittedRequest,
    ) -> (replayed: Result<Vec<u8>, IdentityPersistenceError>)
        ensures
            match replayed {
                Ok(receipt) => {
                    &&& is_admitted(*command, *existing)
                    &&& receipt@ == existing.receipt_bytes@
                },
                Err(error) => {
                    &&& !is_admitted(*command, *existing)
                    &&& error == IdentityPersistenceError::IdempotencyConflict
                },
            },
    {
        if bytes_equal(
            existing.request_digest.as_slice(),
            command.request_digest.as_bytes(),
        ) && bytes_equal(
            existing.request_bytes.as_slice(),
            command.exact_request_bytes.as_slice(),
        ) && bytes_equal(
            existing.idempotency_digest.as_slice(),
            command.idempotency_digest.as_bytes(),
        ) {
            Ok(to_vec(existing.receipt_bytes.as_slice()))
        } else {
            Err(IdentityPersistenceError::IdempotencyConflict)
        }
    }

    /// Takes a first request only where its idempotency key is free and its
    /// challenge allows it; gives the challenge.
    pub fn admit_recovery_candidate<'a>(
        &self,
        command: &CreateHistoryRecoveryRequestV4Command,
        idempotency_taken: bool,
        challenge: &'a Result<StoredEnrollmentChallenge, IdentityPersistenceError>,
        now: UtcMillis,
    ) -> (admitted: Result<&'a StoredEnrollmentChallenge, IdentityPersistenceError>)
        ensures
            match admitted {
                Ok(stored) => {
                    &&& candidate_stage(*command, idempotency_taken, *challenge, now@) is Ok
                    &&& *stored == challenge->Ok_0
                },
                Err(error) => candidate_stage(*command, idempotency_taken, *challenge, now@)
                    == Err::<(), IdentityPersistenceError>(error),
            },
    {
        if idempotency_taken {
            return Err(IdentityPersistenceError::IdempotencyConflict);
        }
        match challenge {
            Ok(challenge) => match check_challenge(command, challenge, now) {
                Ok(_) => Ok(challenge),
                Err(error) => Err(error),
            },
            Err(error) => Err(*error),
        }
    }

    /// Admits one immutable catalog-exhaustive history recovery request; the
    /// flag says whether it is new and has to be stored with the receipt.
    ///
    /// A replay is resolved before anything that can change, so that a receipt
    /// remains replayable after expiry, cancellation, rotation, or drift.
    pub fn create_history_recovery_request_v4(
        &self,
        command: &CreateHistoryRecoveryRequestV4Command,
        inputs: &AdmissionInputs,
        now: UtcMillis,
    ) -> (admitted: Result<(bool, Vec<u8>), IdentityPersistenceError>)
        ensures
            match inputs.existing {
                Some(existing) => match admitted {
                    Ok(admitted) => {
                        &&& is_admitted(*command, existing)
                        &&& !admitted.0
                        &&& admitted.1@ == existing.receipt_bytes@
                    },
                    Err(error) => {
                        &&& !is_admitted(*command, existing)
                        &&& error == IdentityPersistenceError::IdempotencyConflict
                    },
                },
                None => {
                    let checked = admission_check(*command, *inputs, now@);
                    let challenge = inputs.challenge->Ok_0;
                    let snapshot = inputs.snapshot->Ok_0;
                    let authority = authority_stage(
                        *command,
                        challenge,
                        inputs.catalog->0,
                        inputs.provider->Ok_0,
                        snapshot@,
                        snapshot.events(),
                    );
                    match admitted {
                        Ok(admitted) => {
                            &&& checked is Ok
                            &&& is_at_post_head(*command, challenge, snapshot@)
                            &&& authority is Ok
                            &&& admitted.0
                            &&& admitted.1@ == admission_receipt(*command, now@)
                        },
                        Err(error) => if let Err(refusal) = checked {
                            error == refusal
                        } else if !is_at_post_head(*command, challenge, snapshot@) {
                            enrollment::is_head_conflict(error, head::head_of(snapshot@))
                        } else {
                            authority == Err::<(), IdentityPersistenceError>(error)
                        },
                    }
                },
            },
    {
        match &inputs.existing {
            Some(existing) => {
                return match self.replay_history_recovery_request_v4(command, existing) {
                    Ok(receipt) => Ok((false, receipt)),
                    Err(error) => Err(error),
                };
            },
            None => {},
        }
        let challenge = match self.admit_recovery_candidate(
            command,
            inputs.idempotency_taken,
            &inputs.challenge,
            now,
        ) {
            Ok(challenge) => challenge,
            Err(error) => {
                return Err(error);
            },
        };
        if inputs.candidate_reserved {
            return Err(IdentityPersistenceError::RecoveryCandidateKeyChanged);
        }
        let preparation = match check_preparation(command, &inputs.preparation, now) {
            Ok(preparation) => preparation,
            Err(error) => {
                return Err(error);
            },
        };
        let catalog = match check_catalog(command, &inputs.catalog, preparation, now) {
            Ok(catalog) => catalog,
            Err(error) => {
                return Err(error);
            },
        };
        if let Err(error) = validate_history_recovery_manifest_v2(
            command.manifest_bytes.as_slice(),
            command.identity_id,
            &inputs.signed_head,
            inputs.leaf_root,
            catalog,
            preparation,
        ) {
            return Err(error);
        }
        let provider = match check_provider(
            command,
            &inputs.provider,
            inputs.recipient_key_domain.as_str(),
            catalog,
            preparation,
            now,
        ) {
            Ok(provider) => provider,
            Err(error) => {
                return Err(error);
            },
        };
        let snapshot = match &inputs.snapshot {
            Ok(snapshot) => snapshot,
            Err(error) => {
                return Err(*error);
            },
        };
        let pre_head = match IdentityLogHead::observed(
            command.identity_id,
            command.pre_head_sequence,
            command.pre_head_hash,
        ) {
            Ok(head) => head,
            Err(error) => {
                return Err(error);
            },
        };
        let post_head = match IdentityLogHead::observed(
            command.identity_id,
            command.post_head_sequence,
            command.post_head_hash,
        ) {
            Ok(head) => head,
            Err(error) => {
                return Err(error);
            },
        };
        let current = snapshot.head();
        if current != post_head || !head::heads_equal(challenge.approved_head, Some(current)) {
            return Err(IdentityPersistenceError::HeadConflict { current: Some(current) });
        }
        if let Err(error) = check_authority(
            command,
            challenge,
            catalog,
            provider,
            pre_head,
            snapshot,
        ) {
            return Err(error);
        }
        Ok(
            (
                true,
                encode_v4_request_receipt(
                    command.request_id,
                    command.request_digest,
                    command.response_capability_digest,
                    now,
                ),
            ),
        )
    }
}

} // verus!
