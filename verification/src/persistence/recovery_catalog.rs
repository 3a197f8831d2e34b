//! Recovery-scope catalogs: what storage holds of them.

use vstd::prelude::*;
use crate::log::wire_line::IDENTITY_LOG_WIRE_VERSION;
use crate::persistence::enrollment_command::DeviceEnrollmentCapability;
use crate::persistence::error::IdentityPersistenceError;
use crate::persistence::head;
use crate::persistence::head::{Head, IdentityLogHead};
use crate::persistence::row::{
    digest, parse_device_id, parse_encryption_key, parse_identity_id, parse_signing_key, safe_uint,
    utc_millis,
};
use crate::wire::bytes::to_vec;
use crate::wire::digest::Sha256Digest;
use crate::wire::id;
use crate::wire::id::{DeviceEnrollmentChallengeId, DeviceId, IdentityId};
use crate::wire::key;
use crate::wire::key::{DeviceEncryptionPublicKey, Ed25519Signature, SigningPublicKey};
use crate::wire::number;
use crate::wire::number::{SafeUint, UtcMillis, MAX_SAFE_INTEGER};
use crate::wire::text;

verus! {

/// An upload of one catalog generation.
#[derive(Debug)]
pub struct CatalogUploadCommand {
    /// The identity.
    pub identity_id: IdentityId,
    /// The UUID of the catalog.
    pub catalog_id: [u8; 16],
    /// Its generation.
    pub generation: SafeUint,
    /// The digest of the head before it.
    pub previous_head_digest: Option<Sha256Digest>,
    /// How many leaves it has.
    pub leaf_count: SafeUint,
    /// The root over its leaves.
    pub merkle_root: Sha256Digest,
    /// The digest of its ciphertext.
    pub ciphertext_digest: Sha256Digest,
    /// The identity head that its author observed.
    pub observed_head: IdentityLogHead,
    /// When it starts to hold.
    pub issued_at: UtcMillis,
    /// When it ceases to hold.
    pub expires_at: UtcMillis,
    /// The signature of its author.
    pub signature: Ed25519Signature,
    /// The exact signed head.
    pub head_bytes: Vec<u8>,
    /// The digest of the head.
    pub head_digest: Sha256Digest,
    /// The ciphertext.
    pub encrypted_catalog: Vec<u8>,
    /// The digest of the upload.
    pub upload_digest: Sha256Digest,
    /// The idempotency digest.
    pub idempotency_key_hash: Sha256Digest,
}

/// A preparation of a catalog for one enrollment. It holds a secret, so it has no
/// Debug.
pub struct CatalogPreparationCommand {
    /// The request.
    pub request_id: DeviceEnrollmentChallengeId,
    /// The identity.
    pub identity_id: IdentityId,
    /// The UUID of the catalog.
    pub catalog_id: [u8; 16],
    /// The candidate device.
    pub candidate_device_id: DeviceId,
    /// The candidate signing key.
    pub candidate_signing_key: SigningPublicKey,
    /// The key that responses are encrypted to.
    pub candidate_recipient_key: DeviceEncryptionPublicKey,
    /// The identity head that the candidate observed.
    pub observed_head: IdentityLogHead,
    /// The candidate's nonce.
    pub candidate_nonce: [u8; 32],
    /// When it starts to hold.
    pub issued_at: UtcMillis,
    /// When it ceases to hold.
    pub expires_at: UtcMillis,
    /// The digest of the response capability.
    pub response_capability_hash: Sha256Digest,
    /// The capability of the enrollment.
    pub enrollment_capability: DeviceEnrollmentCapability,
    /// The signature of the candidate.
    pub candidate_signature: Ed25519Signature,
    /// The exact preparation.
    pub exact_bytes: Vec<u8>,
    /// Its digest.
    pub digest: Sha256Digest,
    /// The idempotency digest.
    pub idempotency_key_hash: Sha256Digest,
}

/// A provider's response to a preparation.
#[derive(Debug)]
pub struct CatalogProviderResponseCommand {
    /// The request.
    pub request_id: DeviceEnrollmentChallengeId,
    /// The provider's device.
    pub provider_device_id: DeviceId,
    /// The provider's key.
    pub provider_signing_key: SigningPublicKey,
    /// The digest of the catalog head.
    pub catalog_head_digest: Sha256Digest,
    /// The digest of the authority's key.
    pub current_authority_digest: Sha256Digest,
    /// The digest of the recipient key.
    pub recipient_key_digest: Sha256Digest,
    /// The digest of the ciphertext.
    pub ciphertext_digest: Sha256Digest,
    /// When it ceases to hold.
    pub expires_at: UtcMillis,
    /// The exact response.
    pub exact_bytes: Vec<u8>,
    /// Its digest.
    pub digest: Sha256Digest,
    /// The idempotency digest.
    pub idempotency_key_hash: Sha256Digest,
}

/// Why a preparation no longer holds.
#[derive(Clone, Copy, Debug, PartialEq, Eq, Structural)]
pub enum CatalogStatusInvalidation {
    /// The candidate's keys or capability changed.
    Key,
    /// The catalog or its authority changed.
    Catalog,
    /// The identity moved on.
    Identity,
}

/// How a preparation stands.
#[derive(Clone, Copy, Debug, PartialEq, Eq, Structural)]
pub enum CatalogStatus {
    /// No provider has responded yet.
    Pending,
    /// A provider has responded.
    ResponseAvailable,
    /// The enrollment was cancelled.
    Cancelled,
    /// The preparation expired.
    Expired,
    /// The preparation no longer holds.
    Invalidated(CatalogStatusInvalidation),
}

/// What became of an upload.
#[derive(Clone, Debug)]
pub struct RecoveryScopeCatalogOutcome {
    /// Whether the generation is new.
    pub created: bool,
    /// The exact signed head of the generation.
    pub exact_head_bytes: Vec<u8>,
}

/// How a preparation stood at some time.
#[derive(Clone, Debug)]
pub struct RecoveryScopeCatalogStatusOutcome {
    /// The request.
    pub request_id: DeviceEnrollmentChallengeId,
    /// How the preparation stood.
    pub status: CatalogStatus,
    /// The exact response, where one is available.
    pub provider_response: Option<Vec<u8>>,
    /// The time.
    pub observed_at: UtcMillis,
}

/// The report of malformed stored data.
pub open spec fn corrupt(label: &'static str) -> IdentityPersistenceError {
    IdentityPersistenceError::CorruptData(label)
}

/// Why a column holds no number in the safe range.
pub open spec fn number_fault(stored: i64) -> Option<IdentityPersistenceError> {
    if 0 <= stored <= MAX_SAFE_INTEGER {
        None
    } else {
        Some(corrupt("safe integer"))
    }
}

/// Why a column holds no time.
pub open spec fn time_fault(stored: i64) -> Option<IdentityPersistenceError> {
    if number::is_utc_millis(stored as int) {
        None
    } else {
        Some(corrupt("UTC millis"))
    }
}

/// Why a column holds no digest.
pub open spec fn digest_fault(stored: Seq<u8>) -> Option<IdentityPersistenceError> {
    if stored.len() == 32 {
        None
    } else {
        Some(corrupt("fixed bytes"))
    }
}

/// Why a column holds no public key.
pub open spec fn key_fault(stored: Seq<u8>, label: &'static str) -> Option<
    IdentityPersistenceError,
> {
    if stored.len() != 32 {
        Some(corrupt("fixed bytes"))
    } else if !key::is_public_key(stored) {
        Some(corrupt(label))
    } else {
        None
    }
}

/// Why a column holds no device.
pub open spec fn device_fault(stored: Seq<u8>) -> Option<IdentityPersistenceError> {
    if id::is_uuid_v7(stored) {
        None
    } else {
        Some(corrupt("device ID"))
    }
}

/// Why a column holds no identity.
pub open spec fn identity_fault(stored: Seq<char>, label: &'static str) -> Option<
    IdentityPersistenceError,
> {
    if id::is_identity_text(stored) {
        None
    } else {
        Some(corrupt(label))
    }
}

/// Why two columns hold no head.
pub open spec fn head_fault(sequence: i64, hash: Seq<u8>) -> Option<IdentityPersistenceError> {
    if let Some(error) = number_fault(sequence) {
        Some(error)
    } else if let Some(error) = digest_fault(hash) {
        Some(error)
    } else if sequence == 0 {
        Some(IdentityPersistenceError::InvalidCommand("observed identity log head sequence"))
    } else {
        None
    }
}

/// The head that two columns hold.
pub open spec fn stored_head(identity: Seq<u8>, sequence: i64, hash: Seq<u8>) -> Head {
    Head {
        identity_id: identity,
        wire: IDENTITY_LOG_WIRE_VERSION,
        sequence: sequence as u64,
        hash,
    }
}

/// Reads a public signing key.
fn read_signing_key(stored: &[u8]) -> (read: Result<SigningPublicKey, IdentityPersistenceError>)
    ensures
        match read {
            Ok(read) => key_fault(stored@, "signing key") is None && read@ == stored@,
            Err(error) => key_fault(stored@, "signing key") == Some(error),
        },
{
    if stored.len() != 32 {
        return Err(IdentityPersistenceError::CorruptData("fixed bytes"));
    }
    parse_signing_key(stored, "signing key")
}

/// Reads a public encryption key.
fn read_encryption_key(stored: &[u8], label: &'static str) -> (read: Result<
    DeviceEncryptionPublicKey,
    IdentityPersistenceError,
>)
    ensures
        match read {
            Ok(read) => key_fault(stored@, label) is None && read@ == stored@,
            Err(error) => key_fault(stored@, label) == Some(error),
        },
{
    if stored.len() != 32 {
        return Err(IdentityPersistenceError::CorruptData("fixed bytes"));
    }
    parse_encryption_key(stored, label)
}

/// Reads a head.
fn read_head(identity_id: IdentityId, sequence: i64, hash: &[u8]) -> (read: Result<
    IdentityLogHead,
    IdentityPersistenceError,
>)
    ensures
        match read {
            Ok(read) => {
                &&& head_fault(sequence, hash@) is None
                &&& read@ == stored_head(identity_id@, sequence, hash@)
            },
            Err(error) => head_fault(sequence, hash@) == Some(error),
        },
{
    let sequence = match safe_uint(sequence, "safe integer") {
        Ok(sequence) => sequence,
        Err(error) => {
            return Err(error);
        },
    };
    let hash = match digest(hash, "fixed bytes") {
        Ok(hash) => hash,
        Err(error) => {
            return Err(error);
        },
    };
    IdentityLogHead::observed(identity_id, sequence, hash)
}

/// The optional bytes.
pub open spec fn bytes_view(bytes: Option<Vec<u8>>) -> Option<Seq<u8>> {
    match bytes {
        Some(bytes) => Some(bytes@),
        None => None,
    }
}

/// The optional digest.
pub open spec fn digest_view(digest: Option<Sha256Digest>) -> Option<Seq<u8>> {
    match digest {
        Some(digest) => Some(digest@),
        None => None,
    }
}

/// Copies optional bytes.
pub fn copy_optional(bytes: &Option<Vec<u8>>) -> (copy: Option<Vec<u8>>)
    ensures
        bytes_view(copy) == bytes_view(*bytes),
{
    match bytes {
        Some(bytes) => Some(to_vec(bytes.as_slice())),
        None => None,
    }
}

/// Why two optional columns hold neither a head nor nothing.
pub open spec fn optional_head_fault(sequence: Option<i64>, hash: Option<Seq<u8>>) -> Option<
    IdentityPersistenceError,
> {
    match (sequence, hash) {
        (Some(sequence), Some(hash)) => head_fault(sequence, hash),
        (None, None) => None,
        _ => Some(corrupt("linked enrollment approved head")),
    }
}

/// The head that two optional columns hold.
pub open spec fn stored_optional_head(
    identity: Seq<u8>,
    sequence: Option<i64>,
    hash: Option<Seq<u8>>,
) -> Option<Head> {
    match (sequence, hash) {
        (Some(sequence), Some(hash)) => Some(stored_head(identity, sequence, hash)),
        _ => None,
    }
}

/// Reads an optional head.
fn read_optional_head(
    identity_id: IdentityId,
    sequence: Option<i64>,
    hash: &Option<Vec<u8>>,
) -> (read: Result<Option<IdentityLogHead>, IdentityPersistenceError>)
    ensures
        match read {
            Ok(read) => {
                &&& optional_head_fault(sequence, bytes_view(*hash)) is None
                &&& head::head_view(read) == stored_optional_head(
                    identity_id@,
                    sequence,
                    bytes_view(*hash),
                )
            },
            Err(error) => optional_head_fault(sequence, bytes_view(*hash)) == Some(error),
        },
{
    match (sequence, hash) {
        (Some(sequence), Some(hash)) => match read_head(identity_id, sequence, hash.as_slice()) {
            Ok(head) => Ok(Some(head)),
            Err(error) => Err(error),
        },
        (None, None) => Ok(None),
        _ => Err(IdentityPersistenceError::CorruptData("linked enrollment approved head")),
    }
}

/// Why an optional column holds neither a device nor nothing.
pub open spec fn optional_device_fault(stored: Option<[u8; 16]>) -> Option<
    IdentityPersistenceError,
> {
    match stored {
        Some(stored) => device_fault(stored@),
        None => None,
    }
}

/// The device that an optional column holds.
pub open spec fn is_optional_device(device: Option<DeviceId>, stored: Option<[u8; 16]>) -> bool {
    match (device, stored) {
        (Some(device), Some(stored)) => device@ == stored@,
        (None, None) => true,
        _ => false,
    }
}

/// Reads an optional device.
fn read_optional_device(stored: Option<[u8; 16]>) -> (read: Result<
    Option<DeviceId>,
    IdentityPersistenceError,
>)
    ensures
        match read {
            Ok(read) => optional_device_fault(stored) is None && is_optional_device(read, stored),
            Err(error) => optional_device_fault(stored) == Some(error),
        },
{
    match stored {
        Some(stored) => match parse_device_id(stored, "device ID") {
            Ok(device) => Ok(Some(device)),
            Err(error) => Err(error),
        },
        None => Ok(None),
    }
}

/// Why an optional column holds neither a digest nor nothing.
pub open spec fn optional_digest_fault(stored: Option<Seq<u8>>) -> Option<
    IdentityPersistenceError,
> {
    match stored {
        Some(stored) => digest_fault(stored),
        None => None,
    }
}

/// Reads an optional digest.
fn read_optional_digest(stored: &Option<Vec<u8>>) -> (read: Result<
    Option<Sha256Digest>,
    IdentityPersistenceError,
>)
    ensures
        match read {
            Ok(read) => {
                &&& optional_digest_fault(bytes_view(*stored)) is None
                &&& digest_view(read) == bytes_view(*stored)
            },
            Err(error) => optional_digest_fault(bytes_view(*stored)) == Some(error),
        },
{
    match stored {
        Some(stored) => match digest(stored.as_slice(), "fixed bytes") {
            Ok(read) => Ok(Some(read)),
            Err(error) => Err(error),
        },
        None => Ok(None),
    }
}

/// The latest catalog of an identity as its row holds it.
#[derive(Debug)]
pub struct CurrentCatalogRow {
    /// The UUID of the catalog.
    pub catalog_id: [u8; 16],
    /// Its generation.
    pub generation: i64,
    /// The digest of its head.
    pub head_digest: Vec<u8>,
    /// The sequence of the identity head that it was made for.
    pub observed_head_sequence: i64,
    /// The hash of the identity head that it was made for.
    pub observed_head_hash: Vec<u8>,
    /// The device that is its authority.
    pub authority_device_id: [u8; 16],
    /// The key of that device.
    pub authority_signing_key: Vec<u8>,
    /// When it ceases to hold.
    pub expires_at_ms: i64,
}

/// The latest catalog of an identity.
#[derive(Debug)]
pub struct StoredCatalog {
    /// The UUID of the catalog.
    pub catalog_id: [u8; 16],
    /// Its generation.
    pub generation: SafeUint,
    /// The digest of its head.
    pub head_digest: Sha256Digest,
    /// The identity head that it was made for.
    pub observed_head: IdentityLogHead,
    /// The device that is its authority.
    pub authority_device_id: DeviceId,
    /// The key of that device.
    pub authority_key: SigningPublicKey,
    /// When it ceases to hold.
    pub expires_at: UtcMillis,
}

/// Why a row holds no catalog.
pub open spec fn catalog_fault(row: CurrentCatalogRow) -> Option<IdentityPersistenceError> {
    if let Some(error) = number_fault(row.generation) {
        Some(error)
    } else if let Some(error) = digest_fault(row.head_digest@) {
        Some(error)
    } else if let Some(error) = head_fault(row.observed_head_sequence, row.observed_head_hash@) {
        Some(error)
    } else if let Some(error) = device_fault(row.authority_device_id@) {
        Some(error)
    } else if let Some(error) = key_fault(row.authority_signing_key@, "signing key") {
        Some(error)
    } else if let Some(error) = time_fault(row.expires_at_ms) {
        Some(error)
    } else {
        None
    }
}

/// What was read is what the row holds.
pub open spec fn is_catalog_of(
    stored: StoredCatalog,
    row: CurrentCatalogRow,
    identity: Seq<u8>,
) -> bool {
    &&& stored.catalog_id@ == row.catalog_id@
    &&& stored.generation@ == row.generation
    &&& stored.head_digest@ == row.head_digest@
    &&& stored.observed_head@ == stored_head(
        identity,
        row.observed_head_sequence,
        row.observed_head_hash@,
    )
    &&& stored.authority_device_id@ == row.authority_device_id@
    &&& stored.authority_key@ == row.authority_signing_key@
    &&& stored.expires_at@ == row.expires_at_ms
}

/// Reads the latest catalog of an identity.
pub fn read_catalog(
    identity_id: IdentityId,
    row: &CurrentCatalogRow,
) -> (read: Result<StoredCatalog, IdentityPersistenceError>)
    ensures
        match read {
            Ok(stored) => {
                &&& catalog_fault(*row) is None
                &&& is_catalog_of(stored, *row, identity_id@)
            },
            Err(error) => catalog_fault(*row) == Some(error),
        },
{
    let generation = match safe_uint(row.generation, "safe integer") {
        Ok(part) => part,
        Err(error) => {
            return Err(error);
        },
    };
    let head_digest = match digest(row.head_digest.as_slice(), "fixed bytes") {
        Ok(part) => part,
        Err(error) => {
            return Err(error);
        },
    };
    let observed_head = match read_head(
        identity_id,
        row.observed_head_sequence,
        row.observed_head_hash.as_slice(),
    ) {
        Ok(part) => part,
        Err(error) => {
            return Err(error);
        },
    };
    let authority_device_id = match parse_device_id(row.authority_device_id, "device ID") {
        Ok(part) => part,
        Err(error) => {
            return Err(error);
        },
    };
    let authority_key = match read_signing_key(row.authority_signing_key.as_slice()) {
        Ok(part) => part,
        Err(error) => {
            return Err(error);
        },
    };
    let expires_at = match utc_millis(row.expires_at_ms, "UTC millis") {
        Ok(part) => part,
        Err(error) => {
            return Err(error);
        },
    };
    Ok(
        StoredCatalog {
            catalog_id: row.catalog_id,
            generation,
            head_digest,
            observed_head,
            authority_device_id,
            authority_key,
            expires_at,
        },
    )
}

/// An enrollment challenge as its row holds it.
#[derive(Debug)]
pub struct LinkedChallengeRow {
    /// The text of the identity.
    pub identity_id: String,
    /// The sequence of the head after the approval.
    pub approved_head_sequence: Option<i64>,
    /// The hash of the head after the approval.
    pub approved_head_hash: Option<Vec<u8>>,
    /// The candidate device.
    pub candidate_device_id: [u8; 16],
    /// The candidate signing key.
    pub candidate_signing_key: Vec<u8>,
    /// The key that responses are encrypted to.
    pub candidate_recipient_key: Vec<u8>,
    /// The digest of the capability.
    pub capability_hash: Vec<u8>,
    /// Its state.
    pub state: String,
    /// When it ceases to hold.
    pub expires_at_ms: i64,
    /// The version of its protocol.
    pub protocol_version: i16,
    /// The device that approved it.
    pub approver_device_id: Option<[u8; 16]>,
}

/// The enrollment challenge that a preparation belongs to.
#[derive(Debug)]
pub struct StoredLinkedChallenge {
    /// The identity.
    pub identity_id: IdentityId,
    /// The head after the approval.
    pub approved_head: Option<IdentityLogHead>,
    /// The candidate device.
    pub candidate_device_id: DeviceId,
    /// The candidate signing key.
    pub candidate_signing_key: SigningPublicKey,
    /// The key that responses are encrypted to.
    pub candidate_recipient_key: DeviceEncryptionPublicKey,
    /// The digest of the capability.
    pub capability_hash: Sha256Digest,
    /// Its state.
    pub state: String,
    /// When it ceases to hold.
    pub expires_at: UtcMillis,
    /// The version of its protocol.
    pub protocol_version: i16,
    /// The device that approved it.
    pub approver_device_id: Option<DeviceId>,
}

/// Why a row holds no challenge.
pub open spec fn linked_challenge_fault(
    row: LinkedChallengeRow,
) -> Option<IdentityPersistenceError> {
    if let Some(error) = identity_fault(row.identity_id@, "linked enrollment identity") {
        Some(error)
    } else if let Some(error) = optional_head_fault(
        row.approved_head_sequence,
        bytes_view(row.approved_head_hash),
    ) {
        Some(error)
    } else if let Some(error) = device_fault(row.candidate_device_id@) {
        Some(error)
    } else if let Some(error) = key_fault(row.candidate_signing_key@, "signing key") {
        Some(error)
    } else if let Some(error) = key_fault(
        row.candidate_recipient_key@,
        "linked enrollment recipient key",
    ) {
        Some(error)
    } else if let Some(error) = digest_fault(row.capability_hash@) {
        Some(error)
    } else if let Some(error) = time_fault(row.expires_at_ms) {
        Some(error)
    } else if let Some(error) = optional_device_fault(row.approver_device_id) {
        Some(error)
    } else {
        None
    }
}

/// What was read is what the row holds.
pub open spec fn is_linked_challenge_of(
    stored: StoredLinkedChallenge,
    row: LinkedChallengeRow,
) -> bool {
    &&& text::hex(stored.identity_id@) == row.identity_id@
    &&& head::head_view(stored.approved_head) == stored_optional_head(
        stored.identity_id@,
        row.approved_head_sequence,
        bytes_view(row.approved_head_hash),
    )
    &&& stored.candidate_device_id@ == row.candidate_device_id@
    &&& stored.candidate_signing_key@ == row.candidate_signing_key@
    &&& stored.candidate_recipient_key@ == row.candidate_recipient_key@
    &&& stored.capability_hash@ == row.capability_hash@
    &&& stored.state@ == row.state@
    &&& stored.expires_at@ == row.expires_at_ms
    &&& stored.protocol_version == row.protocol_version
    &&& is_optional_device(stored.approver_device_id, row.approver_device_id)
}

/// Reads an enrollment challenge.
pub fn read_linked_challenge(
    row: &LinkedChallengeRow,
) -> (read: Result<StoredLinkedChallenge, IdentityPersistenceError>)
    ensures
        match read {
            Ok(stored) => {
                &&& linked_challenge_fault(*row) is None
                &&& is_linked_challenge_of(stored, *row)
            },
            Err(error) => linked_challenge_fault(*row) == Some(error),
        },
{
    let identity_id = match parse_identity_id(
        row.identity_id.as_str(),
        "linked enrollment identity",
    ) {
        Ok(part) => part,
        Err(error) => {
            return Err(error);
        },
    };
    proof {
        identity_id.lemma_len();
        id::lemma_identity_text(identity_id@);
    }
    let approved_head = match read_optional_head(
        identity_id,
        row.approved_head_sequence,
        &row.approved_head_hash,
    ) {
        Ok(part) => part,
        Err(error) => {
            return Err(error);
        },
    };
    let candidate_device_id = match parse_device_id(row.candidate_device_id, "device ID") {
        Ok(part) => part,
        Err(error) => {
            return Err(error);
        },
    };
    let candidate_signing_key = match read_signing_key(row.candidate_signing_key.as_slice()) {
        Ok(part) => part,
        Err(error) => {
            return Err(error);
        },
    };
    let candidate_recipient_key = match read_encryption_key(
        row.candidate_recipient_key.as_slice(),
        "linked enrollment recipient key",
    ) {
        Ok(part) => part,
        Err(error) => {
            return Err(error);
        },
    };
    let capability_hash = match digest(row.capability_hash.as_slice(), "fixed bytes") {
        Ok(part) => part,
        Err(error) => {
            return Err(error);
        },
    };
    let expires_at = match utc_millis(row.expires_at_ms, "UTC millis") {
        Ok(part) => part,
        Err(error) => {
            return Err(error);
        },
    };
    let approver_device_id = match read_optional_device(row.approver_device_id) {
        Ok(part) => part,
        Err(error) => {
            return Err(error);
        },
    };
    Ok(
        StoredLinkedChallenge {
            identity_id,
            approved_head,
            candidate_device_id,
            candidate_signing_key,
            candidate_recipient_key,
            capability_hash,
            state: row.state.clone(),
            expires_at,
            protocol_version: row.protocol_version,
            approver_device_id,
        },
    )
}

/// A preparation as its row holds it.
#[derive(Debug)]
pub struct StoredPreparationRow {
    /// The text of the identity.
    pub identity_id: String,
    /// The UUID of the catalog.
    pub catalog_id: [u8; 16],
    /// The candidate device.
    pub candidate_device_id: [u8; 16],
    /// The candidate signing key.
    pub candidate_signing_key: Vec<u8>,
    /// The key that responses are encrypted to.
    pub candidate_recipient_key: Vec<u8>,
    /// The sequence of the identity head that the candidate observed.
    pub observed_head_sequence: i64,
    /// The hash of the identity head that the candidate observed.
    pub observed_head_hash: Vec<u8>,
    /// When it ceases to hold.
    pub expires_at_ms: i64,
    /// The digest of the response capability.
    pub response_capability_hash: Vec<u8>,
    /// The digest of the enrollment capability.
    pub enrollment_capability_hash: Vec<u8>,
    /// The generation of the catalog.
    pub catalog_generation: i64,
    /// The digest of the catalog head.
    pub catalog_head_digest: Vec<u8>,
    /// The device that is the authority.
    pub authority_device_id: [u8; 16],
    /// The key of that device.
    pub authority_signing_key: Vec<u8>,
    /// The exact response of a provider.
    pub provider_response: Option<Vec<u8>>,
    /// The idempotency digest of the response.
    pub provider_idempotency_key_hash: Option<Vec<u8>>,
}

/// A preparation of a catalog.
#[derive(Debug)]
pub struct StoredPreparation {
    /// The request.
    pub request_id: DeviceEnrollmentChallengeId,
    /// The identity.
    pub identity_id: IdentityId,
    /// The UUID of the catalog.
    pub catalog_id: [u8; 16],
    /// The candidate device.
    pub candidate_device_id: DeviceId,
    /// The candidate signing key.
    pub candidate_signing_key: SigningPublicKey,
    /// The key that responses are encrypted to.
    pub candidate_recipient_key: DeviceEncryptionPublicKey,
    /// The identity head that the candidate observed.
    pub observed_head: IdentityLogHead,
    /// When it ceases to hold.
    pub expires_at: UtcMillis,
    /// The digest of the response capability.
    pub response_capability_hash: Sha256Digest,
    /// The digest of the enrollment capability.
    pub enrollment_capability_hash: Sha256Digest,
    /// The generation of the catalog.
    pub catalog_generation: SafeUint,
    /// The digest of the catalog head.
    pub catalog_head_digest: Sha256Digest,
    /// The device that is the authority.
    pub authority_device_id: DeviceId,
    /// The key of that device.
    pub authority_key: SigningPublicKey,
    /// The exact response of a provider.
    pub provider_response: Option<Vec<u8>>,
    /// The idempotency digest of the response.
    pub provider_idempotency_key_hash: Option<Sha256Digest>,
}

/// Why a row holds no preparation.
pub open spec fn preparation_fault(row: StoredPreparationRow) -> Option<IdentityPersistenceError> {
    if let Some(error) = identity_fault(row.identity_id@, "preparation identity") {
        Some(error)
    } else if let Some(error) = device_fault(row.candidate_device_id@) {
        Some(error)
    } else if let Some(error) = key_fault(row.candidate_signing_key@, "signing key") {
        Some(error)
    } else if let Some(error) = key_fault(row.candidate_recipient_key@, "recipient key") {
        Some(error)
    } else if let Some(error) = head_fault(row.observed_head_sequence, row.observed_head_hash@) {
        Some(error)
    } else if let Some(error) = time_fault(row.expires_at_ms) {
        Some(error)
    } else if let Some(error) = digest_fault(row.response_capability_hash@) {
        Some(error)
    } else if let Some(error) = digest_fault(row.enrollment_capability_hash@) {
        Some(error)
    } else if let Some(error) = number_fault(row.catalog_generation) {
        Some(error)
    } else if let Some(error) = digest_fault(row.catalog_head_digest@) {
        Some(error)
    } else if let Some(error) = device_fault(row.authority_device_id@) {
        Some(error)
    } else if let Some(error) = key_fault(row.authority_signing_key@, "signing key") {
        Some(error)
    } else if let Some(error) = optional_digest_fault(
        bytes_view(row.provider_idempotency_key_hash),
    ) {
        Some(error)
    } else {
        None
    }
}

/// What was read is what the row holds.
pub open spec fn is_preparation_of(stored: StoredPreparation, row: StoredPreparationRow) -> bool {
    &&& text::hex(stored.identity_id@) == row.identity_id@
    &&& stored.catalog_id@ == row.catalog_id@
    &&& stored.candidate_device_id@ == row.candidate_device_id@
    &&& stored.candidate_signing_key@ == row.candidate_signing_key@
    &&& stored.candidate_recipient_key@ == row.candidate_recipient_key@
    &&& stored.observed_head@ == stored_head(
        stored.identity_id@,
        row.observed_head_sequence,
        row.observed_head_hash@,
    )
    &&& stored.expires_at@ == row.expires_at_ms
    &&& stored.response_capability_hash@ == row.response_capability_hash@
    &&& stored.enrollment_capability_hash@ == row.enrollment_capability_hash@
    &&& stored.catalog_generation@ == row.catalog_generation
    &&& stored.catalog_head_digest@ == row.catalog_head_digest@
    &&& stored.authority_device_id@ == row.authority_device_id@
    &&& stored.authority_key@ == row.authority_signing_key@
    &&& bytes_view(stored.provider_response) == bytes_view(row.provider_response)
    &&& digest_view(
        stored.provider_idempotency_key_hash,
    ) == bytes_view(row.provider_idempotency_key_hash)
}

/// Reads a preparation.
pub fn read_preparation(
    request_id: DeviceEnrollmentChallengeId,
    row: &StoredPreparationRow,
) -> (read: Result<StoredPreparation, IdentityPersistenceError>)
    ensures
        match read {
            Ok(stored) => {
                &&& preparation_fault(*row) is None
                &&& is_preparation_of(stored, *row)
                &&& stored.request_id@ == request_id@
            },
            Err(error) => preparation_fault(*row) == Some(error),
        },
{
    let identity_id = match parse_identity_id(row.identity_id.as_str(), "preparation identity") {
        Ok(part) => part,
        Err(error) => {
            return Err(error);
        },
    };
    proof {
        identity_id.lemma_len();
        id::lemma_identity_text(identity_id@);
    }
    let candidate_device_id = match parse_device_id(row.candidate_device_id, "device ID") {
        Ok(part) => part,
        Err(error) => {
            return Err(error);
        },
    };
    let candidate_signing_key = match read_signing_key(row.candidate_signing_key.as_slice()) {
        Ok(part) => part,
        Err(error) => {
            return Err(error);
        },
    };
    let candidate_recipient_key = match read_encryption_key(
        row.candidate_recipient_key.as_slice(),
        "recipient key",
    ) {
        Ok(part) => part,
        Err(error) => {
            return Err(error);
        },
    };
    let observed_head = match read_head(
        identity_id,
        row.observed_head_sequence,
        row.observed_head_hash.as_slice(),
    ) {
        Ok(part) => part,
        Err(error) => {
            return Err(error);
        },
    };
    let expires_at = match utc_millis(row.expires_at_ms, "UTC millis") {
        Ok(part) => part,
        Err(error) => {
            return Err(error);
        },
    };
    let response_capability_hash = match digest(
        row.response_capability_hash.as_slice(),
        "fixed bytes",
    ) {
        Ok(part) => part,
        Err(error) => {
            return Err(error);
        },
    };
    let enrollment_capability_hash = match digest(
        row.enrollment_capability_hash.as_slice(),
        "fixed bytes",
    ) {
        Ok(part) => part,
        Err(error) => {
            return Err(error);
        },
    };
    let catalog_generation = match safe_uint(row.catalog_generation, "safe integer") {
        Ok(part) => part,
        Err(error) => {
            return Err(error);
        },
    };
    let catalog_head_digest = match digest(row.catalog_head_digest.as_slice(), "fixed bytes") {
        Ok(part) => part,
        Err(error) => {
            return Err(error);
        },
    };
    let authority_device_id = match parse_device_id(row.authority_device_id, "device ID") {
        Ok(part) => part,
        Err(error) => {
            return Err(error);
        },
    };
    let authority_key = match read_signing_key(row.authority_signing_key.as_slice()) {
        Ok(part) => part,
        Err(error) => {
            return Err(error);
        },
    };
    let provider_response = copy_optional(&row.provider_response);
    let provider_idempotency_key_hash = match read_optional_digest(
        &row.provider_idempotency_key_hash,
    ) {
        Ok(part) => part,
        Err(error) => {
            return Err(error);
        },
    };
    Ok(
        StoredPreparation {
            identity_id,
            catalog_id: row.catalog_id,
            candidate_device_id,
            candidate_signing_key,
            candidate_recipient_key,
            observed_head,
            expires_at,
            response_capability_hash,
            enrollment_capability_hash,
            catalog_generation,
            catalog_head_digest,
            authority_device_id,
            authority_key,
            provider_response,
            provider_idempotency_key_hash,
            request_id,
        },
    )
}

} // verus!
