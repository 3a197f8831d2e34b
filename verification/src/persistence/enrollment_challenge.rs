//! Enrollment challenges as they are stored.

use vstd::prelude::*;
use crate::log::wire_line::IDENTITY_LOG_WIRE_VERSION;
use crate::persistence::enrollment_command;
use crate::persistence::enrollment_command::{
    ChallengeStatus, CreateChallenge, CreateDeviceEnrollmentChallengeCommand,
    CreateHistoryRecoveryRequestCommand, DeviceEnrollmentChallengeState,
    DeviceEnrollmentChallengeStatus, RecoveryRequest,
    DEVICE_ENROLLMENT_APPROVAL_RETENTION_MILLIS,
};
use crate::persistence::error::IdentityPersistenceError;
use crate::persistence::head;
use crate::persistence::head::{Head, IdentityLogHead};
use crate::persistence::row::{
    add_duration, digest, parse_device_id, parse_encryption_key, parse_enrollment_challenge_id,
    parse_identity_id, parse_session_id, parse_signature, parse_signing_key, safe_uint, utc_millis,
};
use crate::wire::bytes::{bytes_equal, to_vec};
use crate::wire::digest::Sha256Digest;
use crate::wire::id;
use crate::wire::id::{DeviceEnrollmentChallengeId, DeviceId, DeviceSessionId, IdentityId};
use crate::wire::key;
use crate::wire::key::{DeviceEncryptionPublicKey, Ed25519Signature, SigningPublicKey};
use crate::wire::number;
use crate::wire::number::{UtcMillis, MAX_SAFE_INTEGER};
use crate::wire::text;
use crate::wire::text::text_equal;

verus! {

/// The stored state of a challenge.
#[derive(Clone, Copy, Debug, PartialEq, Eq, Structural)]
pub enum DurableChallengeState {
    /// The challenge can still be approved or cancelled.
    Open,
    /// The challenge was approved.
    Approved,
    /// The challenge was cancelled.
    Cancelled,
}

/// The text is that of a state.
pub open spec fn is_state_text(text: Seq<char>) -> bool {
    text == "open"@ || text == "approved"@ || text == "cancelled"@
}

impl DurableChallengeState {
    /// The text under which the state is stored.
    pub open spec fn text(&self) -> Seq<char> {
        match self {
            DurableChallengeState::Open => "open"@,
            DurableChallengeState::Approved => "approved"@,
            DurableChallengeState::Cancelled => "cancelled"@,
        }
    }

    /// Reads a stored state.
    pub fn parse(value: &str) -> (state: Result<Self, IdentityPersistenceError>)
        ensures
            match state {
                Ok(state) => state.text() == value@,
                Err(error) => {
                    &&& !is_state_text(value@)
                    &&& error == IdentityPersistenceError::CorruptData(
                        "device enrollment challenge state",
                    )
                },
            },
    {
        if text_equal(value, "open") {
            Ok(DurableChallengeState::Open)
        } else if text_equal(value, "approved") {
            Ok(DurableChallengeState::Approved)
        } else if text_equal(value, "cancelled") {
            Ok(DurableChallengeState::Cancelled)
        } else {
            Err(IdentityPersistenceError::CorruptData("device enrollment challenge state"))
        }
    }
}

/// A challenge as its row holds it.
#[derive(Debug)]
pub struct EnrollmentChallengeRow {
    /// The text of the identity.
    pub identity_id: String,
    /// The sequence of the head after approval.
    pub approved_head_sequence: Option<i64>,
    /// The hash of the head after approval.
    pub approved_head_hash: Option<Vec<u8>>,
    /// The sequence of the head that the candidate observed.
    pub observed_head_sequence: Option<i64>,
    /// The hash of the head that the candidate observed.
    pub observed_head_hash: Option<Vec<u8>>,
    /// The protocol version.
    pub protocol_version: i16,
    /// The exact recovery request.
    pub recovery_request_bytes: Option<Vec<u8>>,
    /// The challenge.
    pub challenge_id: [u8; 16],
    /// The idempotency digest of its creation.
    pub creation_idempotency_key_hash: Vec<u8>,
    /// The candidate device.
    pub target_device_id: [u8; 16],
    /// The candidate signing key.
    pub target_device_signing_key: Vec<u8>,
    /// The candidate encryption key.
    pub target_device_encryption_key: Vec<u8>,
    /// The digest of the capability.
    pub capability_hash: Vec<u8>,
    /// The digest of the creation request.
    pub request_digest: Vec<u8>,
    /// The digest of the recovery request.
    pub recovery_request_digest: Option<Vec<u8>>,
    /// When the recovery request was issued.
    pub request_issued_at: Option<i64>,
    /// The key that grants are encrypted to.
    pub recipient_encryption_key: Option<Vec<u8>>,
    /// The signature of the recovery request.
    pub candidate_request_signature: Option<Vec<u8>>,
    /// The state.
    pub state: String,
    /// When the challenge was created.
    pub created_at: i64,
    /// When the challenge expires.
    pub expires_at: i64,
    /// When the challenge was approved.
    pub approved_at: Option<i64>,
    /// When the challenge was cancelled.
    pub cancelled_at: Option<i64>,
    /// The digest of the approval.
    pub approval_request_digest: Option<Vec<u8>>,
    /// The device that approved.
    pub approver_device_id: Option<[u8; 16]>,
    /// The session that approved.
    pub approver_session_id: Option<[u8; 16]>,
    /// Until when the row is kept.
    pub retention_until: i64,
}

/// A challenge read from its row.
#[derive(Debug)]
pub struct StoredEnrollmentChallenge {
    /// The identity.
    pub identity_id: IdentityId,
    /// The head after approval.
    pub approved_head: Option<IdentityLogHead>,
    /// The head that the candidate observed.
    pub observed_head: Option<IdentityLogHead>,
    /// The protocol version.
    pub protocol_version: i16,
    /// The exact recovery request.
    pub recovery_request_bytes: Option<Vec<u8>>,
    /// The challenge.
    pub challenge_id: DeviceEnrollmentChallengeId,
    /// The idempotency digest of its creation.
    pub creation_idempotency_key_hash: Sha256Digest,
    /// The candidate device.
    pub target_device_id: DeviceId,
    /// The candidate signing key.
    pub target_device_signing_key: SigningPublicKey,
    /// The candidate encryption key.
    pub target_device_encryption_key: DeviceEncryptionPublicKey,
    /// The digest of the capability.
    pub capability_hash: Sha256Digest,
    /// The digest of the creation request.
    pub request_digest: Sha256Digest,
    /// The digest of the recovery request.
    pub recovery_request_digest: Option<Sha256Digest>,
    /// When the recovery request was issued.
    pub request_issued_at: Option<UtcMillis>,
    /// The key that grants are encrypted to.
    pub recipient_encryption_key: Option<DeviceEncryptionPublicKey>,
    /// The signature of the recovery request.
    pub candidate_request_signature: Option<Ed25519Signature>,
    /// The state.
    pub state: DurableChallengeState,
    /// When the challenge was created.
    pub created_at: UtcMillis,
    /// When the challenge expires.
    pub expires_at: UtcMillis,
    /// When the challenge was approved.
    pub approved_at: Option<UtcMillis>,
    /// When the challenge was cancelled.
    pub cancelled_at: Option<UtcMillis>,
    /// The digest of the approval.
    pub approval_request_digest: Option<Sha256Digest>,
    /// The device that approved.
    pub approver_device_id: Option<DeviceId>,
    /// The session that approved.
    pub approver_session_id: Option<DeviceSessionId>,
    /// Until when the row is kept.
    pub retention_until: UtcMillis,
}

/// Why two optional columns are not a head.
pub open spec fn head_columns_error(
    sequence: Option<i64>,
    hash: Option<Vec<u8>>,
    sequence_label: &'static str,
    hash_label: &'static str,
    fields_label: &'static str,
) -> Option<IdentityPersistenceError> {
    match (sequence, hash) {
        (Some(sequence), Some(hash)) => if !(0 <= sequence <= MAX_SAFE_INTEGER) {
            Some(IdentityPersistenceError::CorruptData(sequence_label))
        } else if hash@.len() != 32 {
            Some(IdentityPersistenceError::CorruptData(hash_label))
        } else {
            None
        },
        (None, None) => None,
        _ => Some(IdentityPersistenceError::CorruptData(fields_label)),
    }
}

/// The head that two optional columns hold.
pub open spec fn head_columns(
    identity: Seq<u8>,
    sequence: Option<i64>,
    hash: Option<Vec<u8>>,
) -> Option<
    Head,
> {
    match (sequence, hash) {
        (Some(sequence), Some(hash)) => Some(
            Head {
                identity_id: identity,
                wire: IDENTITY_LOG_WIRE_VERSION,
                sequence: sequence as u64,
                hash: hash@,
            },
        ),
        _ => None,
    }
}

/// Reads an optional head from two optional columns.
pub fn decode_optional_head(
    identity_id: IdentityId,
    sequence: Option<i64>,
    hash: &Option<Vec<u8>>,
    sequence_label: &'static str,
    hash_label: &'static str,
    fields_label: &'static str,
) -> (read: Result<Option<IdentityLogHead>, IdentityPersistenceError>)
    ensures
        match read {
            Ok(read) => {
                &&& head_columns_error(sequence, *hash, sequence_label, hash_label, fields_label)
                    is None
                &&& head::head_view(read) == head_columns(identity_id@, sequence, *hash)
            },
            Err(error) => head_columns_error(
                sequence,
                *hash,
                sequence_label,
                hash_label,
                fields_label,
            ) == Some(error),
        },
{
    match (sequence, hash) {
        (Some(sequence), Some(hash)) => {
            let sequence = match safe_uint(sequence, sequence_label) {
                Ok(sequence) => sequence,
                Err(error) => {
                    return Err(error);
                },
            };
            match digest(hash.as_slice(), hash_label) {
                Ok(hash) => Ok(
                    Some(
                        IdentityLogHead::new(
                            identity_id,
                            IDENTITY_LOG_WIRE_VERSION,
                            sequence,
                            hash,
                        ),
                    ),
                ),
                Err(error) => Err(error),
            }
        },
        (None, None) => Ok(None),
        _ => Err(IdentityPersistenceError::CorruptData(fields_label)),
    }
}

/// The first column of a row that cannot be read.
pub open spec fn columns_error(raw: EnrollmentChallengeRow) -> Option<IdentityPersistenceError> {
    if !id::is_identity_text(raw.identity_id@) {
        Some(IdentityPersistenceError::CorruptData("device enrollment identity ID"))
    } else if let Some(error) = head_columns_error(
        raw.approved_head_sequence,
        raw.approved_head_hash,
        "device enrollment approved head sequence",
        "device enrollment approved head hash",
        "device enrollment approved head fields",
    ) {
        Some(error)
    } else if let Some(error) = head_columns_error(
        raw.observed_head_sequence,
        raw.observed_head_hash,
        "history recovery observed head sequence",
        "history recovery observed head hash",
        "history recovery observed head fields",
    ) {
        Some(error)
    } else if !id::is_uuid_v7(raw.challenge_id@) {
        Some(IdentityPersistenceError::CorruptData("device enrollment challenge ID"))
    } else if raw.creation_idempotency_key_hash@.len() != 32 {
        Some(IdentityPersistenceError::CorruptData("device enrollment creation key"))
    } else if !id::is_uuid_v7(raw.target_device_id@) {
        Some(IdentityPersistenceError::CorruptData("device enrollment device ID"))
    } else if !key::is_public_key(raw.target_device_signing_key@) {
        Some(IdentityPersistenceError::CorruptData("device enrollment target signing key"))
    } else if !key::is_public_key(raw.target_device_encryption_key@) {
        Some(IdentityPersistenceError::CorruptData("device enrollment target encryption key"))
    } else if raw.capability_hash@.len() != 32 {
        Some(IdentityPersistenceError::CorruptData("device enrollment capability hash"))
    } else if raw.request_digest@.len() != 32 {
        Some(IdentityPersistenceError::CorruptData("device enrollment request digest"))
    } else if !(
        raw.recovery_request_digest is None || raw.recovery_request_digest->0@.len() == 32
    ) {
        Some(IdentityPersistenceError::CorruptData("history recovery request digest"))
    } else if !(
        raw.request_issued_at is None || number::is_utc_millis(raw.request_issued_at->0 as int)
    ) {
        Some(IdentityPersistenceError::CorruptData("history recovery request issue time"))
    } else if !(
        raw.recipient_encryption_key is None || key::is_public_key(raw.recipient_encryption_key->0@)
    ) {
        Some(IdentityPersistenceError::CorruptData("history recovery recipient key"))
    } else if !(
        raw.candidate_request_signature is None || raw.candidate_request_signature->0@.len() == 64
    ) {
        Some(IdentityPersistenceError::CorruptData("history recovery candidate signature"))
    } else if !is_state_text(raw.state@) {
        Some(IdentityPersistenceError::CorruptData("device enrollment challenge state"))
    } else if !number::is_utc_millis(raw.created_at as int) {
        Some(IdentityPersistenceError::CorruptData("device enrollment creation time"))
    } else if !number::is_utc_millis(raw.expires_at as int) {
        Some(IdentityPersistenceError::CorruptData("device enrollment expiry"))
    } else if !(raw.approved_at is None || number::is_utc_millis(raw.approved_at->0 as int)) {
        Some(IdentityPersistenceError::CorruptData("device enrollment approval time"))
    } else if !(raw.cancelled_at is None || number::is_utc_millis(raw.cancelled_at->0 as int)) {
        Some(IdentityPersistenceError::CorruptData("device enrollment cancellation time"))
    } else if !(
        raw.approval_request_digest is None || raw.approval_request_digest->0@.len() == 32
    ) {
        Some(IdentityPersistenceError::CorruptData("device enrollment approval request digest"))
    } else if !(raw.approver_device_id is None || id::is_uuid_v7(raw.approver_device_id->0@)) {
        Some(IdentityPersistenceError::CorruptData("device enrollment device ID"))
    } else if !(raw.approver_session_id is None || id::is_uuid_v7(raw.approver_session_id->0@)) {
        Some(IdentityPersistenceError::CorruptData("device enrollment session ID"))
    } else if !number::is_utc_millis(raw.retention_until as int) {
        Some(IdentityPersistenceError::CorruptData("device enrollment retention time"))
    } else {
        None
    }
}

/// The challenge holds what the row holds.
pub open spec fn reads_as(raw: EnrollmentChallengeRow, stored: StoredEnrollmentChallenge) -> bool {
    &&& raw.identity_id@ == text::hex(stored.identity_id@)
    &&& head::head_view(stored.approved_head) == head_columns(
        stored.identity_id@,
        raw.approved_head_sequence,
        raw.approved_head_hash,
    )
    &&& head::head_view(stored.observed_head) == head_columns(
        stored.identity_id@,
        raw.observed_head_sequence,
        raw.observed_head_hash,
    )
    &&& stored.protocol_version == raw.protocol_version
    &&& (stored.recovery_request_bytes is Some <==> raw.recovery_request_bytes is Some)
    &&& stored.recovery_request_bytes is Some ==> stored.recovery_request_bytes->0@
        == raw.recovery_request_bytes->0@
    &&& stored.challenge_id@ == raw.challenge_id@
    &&& stored.creation_idempotency_key_hash@ == raw.creation_idempotency_key_hash@
    &&& stored.target_device_id@ == raw.target_device_id@
    &&& stored.target_device_signing_key@ == raw.target_device_signing_key@
    &&& stored.target_device_encryption_key@ == raw.target_device_encryption_key@
    &&& stored.capability_hash@ == raw.capability_hash@
    &&& stored.request_digest@ == raw.request_digest@
    &&& (stored.recovery_request_digest is Some <==> raw.recovery_request_digest is Some)
    &&& (stored.recovery_request_digest is Some
        ==> stored.recovery_request_digest->0@ == raw.recovery_request_digest->0@)
    &&& (stored.request_issued_at is Some <==> raw.request_issued_at is Some)
    &&& (stored.request_issued_at is Some
        ==> stored.request_issued_at->0@ == raw.request_issued_at->0)
    &&& (stored.recipient_encryption_key is Some <==> raw.recipient_encryption_key is Some)
    &&& (stored.recipient_encryption_key is Some
        ==> stored.recipient_encryption_key->0@ == raw.recipient_encryption_key->0@)
    &&& (stored.candidate_request_signature is Some <==> raw.candidate_request_signature is Some)
    &&& (stored.candidate_request_signature is Some
        ==> stored.candidate_request_signature->0@ == raw.candidate_request_signature->0@)
    &&& stored.state.text() == raw.state@
    &&& stored.created_at@ == raw.created_at
    &&& stored.expires_at@ == raw.expires_at
    &&& (stored.approved_at is Some <==> raw.approved_at is Some)
    &&& (stored.approved_at is Some ==> stored.approved_at->0@ == raw.approved_at->0)
    &&& (stored.cancelled_at is Some <==> raw.cancelled_at is Some)
    &&& (stored.cancelled_at is Some ==> stored.cancelled_at->0@ == raw.cancelled_at->0)
    &&& (stored.approval_request_digest is Some <==> raw.approval_request_digest is Some)
    &&& (stored.approval_request_digest is Some
        ==> stored.approval_request_digest->0@ == raw.approval_request_digest->0@)
    &&& (stored.approver_device_id is Some <==> raw.approver_device_id is Some)
    &&& (stored.approver_device_id is Some
        ==> stored.approver_device_id->0@ == raw.approver_device_id->0@)
    &&& (stored.approver_session_id is Some <==> raw.approver_session_id is Some)
    &&& (stored.approver_session_id is Some
        ==> stored.approver_session_id->0@ == raw.approver_session_id->0@)
    &&& stored.retention_until@ == raw.retention_until
}

/// The columns of the recovery request are there exactly for a challenge that
/// carries one.
pub open spec fn has_protocol_fields(stored: StoredEnrollmentChallenge) -> bool {
    if stored.protocol_version == 1 {
        &&& stored.recovery_request_bytes is None
        &&& stored.recovery_request_digest is None
        &&& stored.observed_head is None
        &&& stored.request_issued_at is None
        &&& stored.recipient_encryption_key is None
        &&& stored.candidate_request_signature is None
    } else {
        &&& stored.protocol_version == 2
        &&& stored.recovery_request_bytes is Some
        &&& stored.recovery_request_digest is Some
        &&& stored.observed_head is Some
        &&& stored.request_issued_at is Some
        &&& stored.recipient_encryption_key is Some
        &&& stored.recipient_encryption_key->0@ == stored.target_device_encryption_key@
        &&& stored.candidate_request_signature is Some
    }
}

/// Nothing of an approval is recorded.
pub open spec fn is_unapproved(stored: StoredEnrollmentChallenge) -> bool {
    &&& stored.approved_at is None
    &&& stored.approval_request_digest is None
    &&& stored.approver_device_id is None
    &&& stored.approver_session_id is None
    &&& stored.approved_head is None
    &&& stored.retention_until@ == stored.expires_at@
}

/// All of an approval is recorded.
pub open spec fn has_approval(stored: StoredEnrollmentChallenge) -> bool {
    &&& stored.approved_at is Some
    &&& stored.cancelled_at is None
    &&& stored.approval_request_digest is Some
    &&& stored.approver_device_id is Some
    &&& stored.approver_session_id is Some
    &&& stored.approved_head is Some
}

/// Whether the columns of a challenge fit its protocol and its state.
pub open spec fn challenge_check(stored: StoredEnrollmentChallenge) -> Result<
    (),
    IdentityPersistenceError,
> {
    let misfit = Err::<(), IdentityPersistenceError>(
        IdentityPersistenceError::CorruptData("device enrollment challenge state fields"),
    );
    if !has_protocol_fields(stored) {
        Err(IdentityPersistenceError::CorruptData("device enrollment protocol fields"))
    } else {
        match stored.state {
            DurableChallengeState::Open => if is_unapproved(stored) && stored.cancelled_at is None {
                Ok(())
            } else {
                misfit
            },
            DurableChallengeState::Cancelled => if is_unapproved(stored) && stored.cancelled_at
                is Some {
                Ok(())
            } else {
                misfit
            },
            DurableChallengeState::Approved => if !has_approval(stored) {
                misfit
            } else if stored.approved_at->0@ + DEVICE_ENROLLMENT_APPROVAL_RETENTION_MILLIS
                > MAX_SAFE_INTEGER {
                Err(IdentityPersistenceError::InvalidCommand("device enrollment expiry"))
            } else if stored.retention_until@ != stored.approved_at->0@
                + DEVICE_ENROLLMENT_APPROVAL_RETENTION_MILLIS {
                misfit
            } else {
                Ok(())
            },
        }
    }
}

/// The challenge is that of exactly this creation request.
pub open spec fn is_creation(
    stored: StoredEnrollmentChallenge,
    command: CreateChallenge,
    request_digest: Seq<u8>,
) -> bool {
    &&& stored.protocol_version == 1
    &&& stored.creation_idempotency_key_hash@ == command.idempotency_key_hash
    &&& stored.identity_id@ == command.identity_id
    &&& stored.target_device_id@ == command.target_device_id
    &&& stored.target_device_signing_key@ == command.target_device_signing_key
    &&& stored.target_device_encryption_key@ == command.target_device_encryption_key
    &&& stored.request_digest@ == request_digest
    &&& stored.capability_hash@ == enrollment_command::capability_digest(command.capability)
}

/// The challenge is that of exactly this recovery request.
pub open spec fn is_recovery_creation(
    stored: StoredEnrollmentChallenge,
    command: RecoveryRequest,
    request_digest: Seq<u8>,
) -> bool {
    &&& stored.protocol_version == 2
    &&& stored.challenge_id@ == command.request_id
    &&& stored.creation_idempotency_key_hash@ == command.idempotency_key_hash
    &&& stored.identity_id@ == command.identity_id
    &&& stored.target_device_id@ == command.target_device_id
    &&& stored.target_device_signing_key@ == command.target_device_signing_key
    &&& stored.target_device_encryption_key@ == command.recipient_encryption_key
    &&& stored.recovery_request_bytes is Some
    &&& stored.recovery_request_bytes->0@ == command.exact_request_bytes
    &&& stored.recovery_request_digest is Some
    &&& stored.recovery_request_digest->0@ == request_digest
    &&& head::head_view(stored.observed_head) == Some(command.observed_head)
    &&& stored.request_issued_at is Some
    &&& stored.request_issued_at->0@ == command.issued_at
    &&& stored.recipient_encryption_key is Some
    &&& stored.recipient_encryption_key->0@ == command.recipient_encryption_key
    &&& stored.candidate_request_signature is Some
    &&& stored.candidate_request_signature->0@ == command.candidate_signature
    &&& stored.capability_hash@ == enrollment_command::capability_digest(command.capability)
}

/// The state that a candidate sees at `now`.
pub open spec fn visible_state(
    stored: StoredEnrollmentChallenge,
    now: i64,
) -> DeviceEnrollmentChallengeState {
    match stored.state {
        DurableChallengeState::Open => if now >= stored.expires_at@ {
            DeviceEnrollmentChallengeState::Expired
        } else {
            DeviceEnrollmentChallengeState::Open
        },
        DurableChallengeState::Approved => DeviceEnrollmentChallengeState::Approved,
        DurableChallengeState::Cancelled => DeviceEnrollmentChallengeState::Cancelled,
    }
}

/// The status that a candidate sees at `now`.
pub open spec fn visible_status(stored: StoredEnrollmentChallenge, now: i64) -> ChallengeStatus {
    ChallengeStatus {
        challenge_id: stored.challenge_id@,
        identity_id: stored.identity_id@,
        target_device_id: stored.target_device_id@,
        state: visible_state(stored, now),
        created_at: stored.created_at@,
        expires_at: stored.expires_at@,
        approved_head: head::head_view(stored.approved_head),
    }
}

impl StoredEnrollmentChallenge {
    /// Whether the challenge is that of exactly this creation request.
    pub fn matches_creation(
        &self,
        command: &CreateDeviceEnrollmentChallengeCommand,
        request_digest: Sha256Digest,
    ) -> (matches: bool)
        ensures
            matches == is_creation(*self, command@, request_digest@),
    {
        self.protocol_version == 1 && self.creation_idempotency_key_hash
            == command.idempotency_key_hash() && self.identity_id == command.identity_id()
            && self.target_device_id == command.target_device_id()
            && self.target_device_signing_key == command.target_device_signing_key()
            && self.target_device_encryption_key == command.target_device_encryption_key()
            && self.request_digest == request_digest && self.capability_hash.equal_in_constant_time(
            &command.capability().hash(),
        )
    }

    /// Whether the challenge is that of exactly this recovery request.
    pub fn matches_history_recovery_creation(
        &self,
        command: &CreateHistoryRecoveryRequestCommand,
        request_digest: Sha256Digest,
    ) -> (matches: bool)
        ensures
            matches == is_recovery_creation(*self, command@, request_digest@),
    {
        let same_request = match (
            &self.recovery_request_bytes,
            &self.recovery_request_digest,
            &self.request_issued_at,
        ) {
            (Some(bytes), Some(digest), Some(issued_at)) => bytes_equal(
                bytes.as_slice(),
                command.exact_request_bytes(),
            ) && *digest == request_digest && issued_at.get() == command.issued_at().get(),
            _ => false,
        };
        let same_candidate = match (
            &self.observed_head,
            &self.recipient_encryption_key,
            &self.candidate_request_signature,
        ) {
            (Some(observed_head), Some(recipient), Some(signature)) => *observed_head
                == command.observed_head() && *recipient == command.recipient_encryption_key()
                && *signature == command.candidate_signature(),
            _ => false,
        };
        self.protocol_version == 2 && self.challenge_id == command.request_id()
            && self.creation_idempotency_key_hash == command.idempotency_key_hash()
            && self.identity_id == command.identity_id() && self.target_device_id
            == command.target_device_id() && self.target_device_signing_key
            == command.target_device_signing_key() && self.target_device_encryption_key
            == command.recipient_encryption_key() && same_request && same_candidate
            && self.capability_hash.equal_in_constant_time(&command.capability().hash())
    }

    /// The status that a candidate sees at `now`.
    pub fn status_at(&self, now: UtcMillis) -> (status: DeviceEnrollmentChallengeStatus)
        ensures
            status@ == visible_status(*self, now@),
            status@.state == DeviceEnrollmentChallengeState::Approved <==> self.state
                == DurableChallengeState::Approved,
            status@.state == DeviceEnrollmentChallengeState::Cancelled <==> self.state
                == DurableChallengeState::Cancelled,
            status@.state == DeviceEnrollmentChallengeState::Expired <==> self.state
                == DurableChallengeState::Open && self.expires_at@ <= now@,
    {
        let state = match self.state {
            DurableChallengeState::Open => {
                if now.get() >= self.expires_at.get() {
                    DeviceEnrollmentChallengeState::Expired
                } else {
                    DeviceEnrollmentChallengeState::Open
                }
            },
            DurableChallengeState::Approved => DeviceEnrollmentChallengeState::Approved,
            DurableChallengeState::Cancelled => DeviceEnrollmentChallengeState::Cancelled,
        };
        DeviceEnrollmentChallengeStatus::new(
            self.challenge_id,
            self.identity_id,
            self.target_device_id,
            state,
            self.created_at,
            self.expires_at,
            self.approved_head,
        )
    }

    /// Whether the columns of the recovery request fit the protocol version.
    fn fits_protocol(&self) -> (fits: bool)
        ensures
            fits == has_protocol_fields(*self),
    {
        if self.protocol_version == 1 {
            self.recovery_request_bytes.is_none() && self.recovery_request_digest.is_none()
                && self.observed_head.is_none() && self.request_issued_at.is_none()
                && self.recipient_encryption_key.is_none()
                && self.candidate_request_signature.is_none()
        } else {
            let same_recipient = match &self.recipient_encryption_key {
                Some(recipient) => *recipient == self.target_device_encryption_key,
                None => false,
            };
            self.protocol_version == 2 && self.recovery_request_bytes.is_some()
                && self.recovery_request_digest.is_some() && self.observed_head.is_some()
                && self.request_issued_at.is_some() && same_recipient
                && self.candidate_request_signature.is_some()
        }
    }

    /// Checks that the columns fit the protocol and the state.
    pub fn validate(&self) -> (checked: Result<(), IdentityPersistenceError>)
        ensures
            checked == challenge_check(*self),
    {
        if !self.fits_protocol() {
            return Err(IdentityPersistenceError::CorruptData("device enrollment protocol fields"));
        }
        let misfit = IdentityPersistenceError::CorruptData(
            "device enrollment challenge state fields",
        );
        let unapproved = self.approved_at.is_none() && self.approval_request_digest.is_none()
            && self.approver_device_id.is_none() && self.approver_session_id.is_none()
            && self.approved_head.is_none() && self.retention_until.get() == self.expires_at.get();
        match self.state {
            DurableChallengeState::Open => {
                if unapproved && self.cancelled_at.is_none() {
                    Ok(())
                } else {
                    Err(misfit)
                }
            },
            DurableChallengeState::Cancelled => {
                if unapproved && self.cancelled_at.is_some() {
                    Ok(())
                } else {
                    Err(misfit)
                }
            },
            DurableChallengeState::Approved => {
                let approved_at = match &self.approved_at {
                    Some(approved_at) => *approved_at,
                    None => {
                        return Err(misfit);
                    },
                };
                if self.cancelled_at.is_some() || self.approval_request_digest.is_none()
                    || self.approver_device_id.is_none() || self.approver_session_id.is_none()
                    || self.approved_head.is_none() {
                    return Err(misfit);
                }
                approved_at.checked();
                match add_duration(
                    approved_at,
                    DEVICE_ENROLLMENT_APPROVAL_RETENTION_MILLIS,
                    "device enrollment expiry overflow",
                    "device enrollment expiry",
                ) {
                    Ok(until) => {
                        until.checked();
                        if self.retention_until.get() == until.get() {
                            Ok(())
                        } else {
                            Err(misfit)
                        }
                    },
                    Err(error) => Err(error),
                }
            },
        }
    }
}

/// Reads the columns of a challenge, without checking how they fit together.
fn read_columns(raw: &EnrollmentChallengeRow) -> (stored: Result<
    StoredEnrollmentChallenge,
    IdentityPersistenceError,
>)
    ensures
        match stored {
            Ok(stored) => columns_error(*raw) is None && reads_as(*raw, stored),
            Err(error) => columns_error(*raw) == Some(error),
        },
{
    let identity_id = match parse_identity_id(
        raw.identity_id.as_str(),
        "device enrollment identity ID",
    ) {
        Ok(part) => part,
        Err(error) => {
            return Err(error);
        },
    };
    proof {
        identity_id.lemma_len();
        id::lemma_identity_text(identity_id@);
    }
    let approved_head = match decode_optional_head(
        identity_id,
        raw.approved_head_sequence,
        &raw.approved_head_hash,
        "device enrollment approved head sequence",
        "device enrollment approved head hash",
        "device enrollment approved head fields",
    ) {
        Ok(part) => part,
        Err(error) => {
            return Err(error);
        },
    };
    let observed_head = match decode_optional_head(
        identity_id,
        raw.observed_head_sequence,
        &raw.observed_head_hash,
        "history recovery observed head sequence",
        "history recovery observed head hash",
        "history recovery observed head fields",
    ) {
        Ok(part) => part,
        Err(error) => {
            return Err(error);
        },
    };
    let challenge_id = match parse_enrollment_challenge_id(
        raw.challenge_id,
        "device enrollment challenge ID",
    ) {
        Ok(part) => part,
        Err(error) => {
            return Err(error);
        },
    };
    let creation_idempotency_key_hash = match digest(
        raw.creation_idempotency_key_hash.as_slice(),
        "device enrollment creation key",
    ) {
        Ok(part) => part,
        Err(error) => {
            return Err(error);
        },
    };
    let target_device_id = match parse_device_id(
        raw.target_device_id,
        "device enrollment device ID",
    ) {
        Ok(part) => part,
        Err(error) => {
            return Err(error);
        },
    };
    let target_device_signing_key = match parse_signing_key(
        raw.target_device_signing_key.as_slice(),
        "device enrollment target signing key",
    ) {
        Ok(part) => part,
        Err(error) => {
            return Err(error);
        },
    };
    let target_device_encryption_key = match parse_encryption_key(
        raw.target_device_encryption_key.as_slice(),
        "device enrollment target encryption key",
    ) {
        Ok(part) => part,
        Err(error) => {
            return Err(error);
        },
    };
    let capability_hash = match digest(
        raw.capability_hash.as_slice(),
        "device enrollment capability hash",
    ) {
        Ok(part) => part,
        Err(error) => {
            return Err(error);
        },
    };
    let request_digest = match digest(
        raw.request_digest.as_slice(),
        "device enrollment request digest",
    ) {
        Ok(part) => part,
        Err(error) => {
            return Err(error);
        },
    };
    let recovery_request_digest = match &raw.recovery_request_digest {
        Some(part) => match digest(part.as_slice(), "history recovery request digest") {
            Ok(part) => Some(part),
            Err(error) => {
                return Err(error);
            },
        },
        None => None,
    };
    let request_issued_at = match &raw.request_issued_at {
        Some(part) => match utc_millis(*part, "history recovery request issue time") {
            Ok(part) => Some(part),
            Err(error) => {
                return Err(error);
            },
        },
        None => None,
    };
    let recipient_encryption_key = match &raw.recipient_encryption_key {
        Some(part) => match parse_encryption_key(
            part.as_slice(),
            "history recovery recipient key",
        ) {
            Ok(part) => Some(part),
            Err(error) => {
                return Err(error);
            },
        },
        None => None,
    };
    let candidate_request_signature = match &raw.candidate_request_signature {
        Some(part) => match parse_signature(
            part.as_slice(),
            "history recovery candidate signature",
        ) {
            Ok(part) => Some(part),
            Err(error) => {
                return Err(error);
            },
        },
        None => None,
    };
    let state = match DurableChallengeState::parse(raw.state.as_str()) {
        Ok(part) => part,
        Err(error) => {
            return Err(error);
        },
    };
    let created_at = match utc_millis(raw.created_at, "device enrollment creation time") {
        Ok(part) => part,
        Err(error) => {
            return Err(error);
        },
    };
    let expires_at = match utc_millis(raw.expires_at, "device enrollment expiry") {
        Ok(part) => part,
        Err(error) => {
            return Err(error);
        },
    };
    let approved_at = match &raw.approved_at {
        Some(part) => match utc_millis(*part, "device enrollment approval time") {
            Ok(part) => Some(part),
            Err(error) => {
                return Err(error);
            },
        },
        None => None,
    };
    let cancelled_at = match &raw.cancelled_at {
        Some(part) => match utc_millis(*part, "device enrollment cancellation time") {
            Ok(part) => Some(part),
            Err(error) => {
                return Err(error);
            },
        },
        None => None,
    };
    let approval_request_digest = match &raw.approval_request_digest {
        Some(part) => match digest(part.as_slice(), "device enrollment approval request digest") {
            Ok(part) => Some(part),
            Err(error) => {
                return Err(error);
            },
        },
        None => None,
    };
    let approver_device_id = match &raw.approver_device_id {
        Some(part) => match parse_device_id(*part, "device enrollment device ID") {
            Ok(part) => Some(part),
            Err(error) => {
                return Err(error);
            },
        },
        None => None,
    };
    let approver_session_id = match &raw.approver_session_id {
        Some(part) => match parse_session_id(*part, "device enrollment session ID") {
            Ok(part) => Some(part),
            Err(error) => {
                return Err(error);
            },
        },
        None => None,
    };
    let retention_until = match utc_millis(
        raw.retention_until,
        "device enrollment retention time",
    ) {
        Ok(part) => part,
        Err(error) => {
            return Err(error);
        },
    };
    let recovery_request_bytes = match &raw.recovery_request_bytes {
        Some(bytes) => Some(to_vec(bytes.as_slice())),
        None => None,
    };
    Ok(
        StoredEnrollmentChallenge {
            identity_id,
            approved_head,
            observed_head,
            protocol_version: raw.protocol_version,
            recovery_request_bytes,
            challenge_id,
            creation_idempotency_key_hash,
            target_device_id,
            target_device_signing_key,
            target_device_encryption_key,
            capability_hash,
            request_digest,
            recovery_request_digest,
            request_issued_at,
            recipient_encryption_key,
            candidate_request_signature,
            state,
            created_at,
            expires_at,
            approved_at,
            cancelled_at,
            approval_request_digest,
            approver_device_id,
            approver_session_id,
            retention_until,
        },
    )
}

/// Reads a stored challenge, and checks that its columns fit together.
pub fn decode_stored_challenge(raw: &EnrollmentChallengeRow) -> (stored: Result<
    StoredEnrollmentChallenge,
    IdentityPersistenceError,
>)
    ensures
        match stored {
            Ok(stored) => {
                &&& columns_error(*raw) is None
                &&& reads_as(*raw, stored)
                &&& challenge_check(stored) is Ok
            },
            Err(error) => {
                ||| columns_error(*raw) == Some(error)
                ||| columns_error(*raw) is None && exists|stored: StoredEnrollmentChallenge|
                    #[trigger] reads_as(*raw, stored) && challenge_check(stored) == Err::<
                        (),
                        IdentityPersistenceError,
                    >(error)
            },
        },
{
    let stored = match read_columns(raw) {
        Ok(stored) => stored,
        Err(error) => {
            return Err(error);
        },
    };
    match stored.validate() {
        Ok(_) => Ok(stored),
        Err(error) => Err(error),
    }
}

} // verus!
