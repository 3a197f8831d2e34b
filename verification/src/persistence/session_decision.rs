//! Decisions on device sessions.

use vstd::prelude::*;
use crate::log::projection::IdentityLogV1;
use crate::log::state::{DeviceStatusV1, LogState};
use crate::log::wire_line::IDENTITY_LOG_WIRE_VERSION;
use crate::outside;
use crate::persistence::error::IdentityPersistenceError;
use crate::persistence::head;
use crate::persistence::head::{Head, IdentityLogHead, IdentityLogSnapshot};
use crate::persistence::row;
use crate::persistence::row::{
    add_duration, digest, parse_device_id, parse_identity_id, parse_session_challenge_id,
    parse_session_id, safe_uint, utc_millis,
};
use crate::persistence::session;
use crate::persistence::session::{
    device_session_proof_input, validate_audience, AuthenticatedDeviceSession,
    AuthenticatedDeviceSigningSession, Credential, DeviceSessionChallenge,
    DeviceSessionCompletionCommand, DeviceSessionCredential, DeviceSessionOutcome,
    DeviceSessionReceipt, PushIdentityAuthObservation, PushObservation, Session, SessionChallenge,
    SessionCompletion, SessionReceipt, SigningSession,
    DEVICE_SESSION_CHALLENGE_MIN_INTERVAL_MILLIS, DEVICE_SESSION_CHALLENGE_TTL_MILLIS,
    DEVICE_SESSION_NONCE_HASH_DOMAIN, DEVICE_SESSION_TTL_MILLIS,
};
use crate::wire::bytes;
use crate::wire::bytes::is_all_zero;
use crate::wire::cbor;
use crate::wire::digest::Sha256Digest;
use crate::wire::id;
use crate::wire::id::{DeviceId, DeviceSessionChallengeId, IdentityId};
use crate::wire::key::{Ed25519Signature, SigningPublicKey};
use crate::wire::number;
use crate::wire::number::{UtcMillis, MAX_SAFE_INTEGER};
use crate::wire::record;
use crate::wire::text;
use crate::wire::text::text_equal;

verus! {

/// A session as its row holds it.
#[derive(Debug)]
pub struct SessionRow {
    /// The text of the identity.
    pub identity_id: String,
    /// The UUID of the device.
    pub device_id: [u8; 16],
    /// The digest of the secret.
    pub session_secret_hash: Vec<u8>,
    /// When the session expires.
    pub expires_at_ms: i64,
}

/// The claim of an idempotency key as its row holds it.
#[derive(Debug)]
pub struct SessionClaimRow {
    /// The text of the identity.
    pub identity_id: String,
    /// The UUID of the device.
    pub device_id: [u8; 16],
    /// The UUID of the challenge.
    pub challenge_id: [u8; 16],
    /// The UUID of the session.
    pub session_id: [u8; 16],
    /// The digest of the request.
    pub request_digest: Vec<u8>,
}

/// A challenge as its row holds it.
#[derive(Debug)]
pub struct SessionChallengeRow {
    /// The digest of the nonce.
    pub nonce_hash: Vec<u8>,
    /// The audience.
    pub audience: String,
    /// The state.
    pub state: String,
    /// When the challenge expires.
    pub expires_at_ms: i64,
    /// When a session issued from it expires.
    pub session_expires_at_ms: i64,
}

/// A session receipt as its row holds it.
#[derive(Debug)]
pub struct SessionReceiptRow {
    /// The text of the identity.
    pub identity_id: String,
    /// The UUID of the device.
    pub device_id: [u8; 16],
    /// The UUID of the session.
    pub session_id: [u8; 16],
    /// The sequence of the head at issuance.
    pub issued_head_sequence: i64,
    /// The hash of the head at issuance.
    pub issued_head_hash: Vec<u8>,
    /// When the session was issued.
    pub issued_at_ms: i64,
    /// When the session expires.
    pub expires_at_ms: i64,
    /// The exact receipt.
    pub receipt_bytes: Vec<u8>,
    /// Its digest.
    pub receipt_digest: Vec<u8>,
}

/// Why a device has no active signing key.
pub open spec fn active_key_check(state: LogState, device: Seq<u8>) -> Result<
    (),
    IdentityPersistenceError,
> {
    if state.devices.dom().contains(device) && state.devices[device].status
        == DeviceStatusV1::Active {
        Ok(())
    } else {
        Err(IdentityPersistenceError::DeviceAuthenticationRejected)
    }
}

/// The signing key of a device.
pub open spec fn device_key(state: LogState, device: Seq<u8>) -> Seq<u8> {
    state.devices[device].certificate.unsigned.device_signing_key
}

/// The signing key of an active device.
pub fn active_device_signing_key(projection: &IdentityLogV1, device_id: DeviceId) -> (key: Result<
    SigningPublicKey,
    IdentityPersistenceError,
>)
    ensures
        match key {
            Ok(key) => {
                &&& active_key_check(projection@, device_id@) is Ok
                &&& key@ == device_key(projection@, device_id@)
            },
            Err(error) => active_key_check(projection@, device_id@) == Err::<
                (),
                IdentityPersistenceError,
            >(error),
        },
        key is Ok <==> projection@.devices.dom().contains(device_id@)
            && projection@.devices[device_id@].status == DeviceStatusV1::Active,
        key is Err ==> key->Err_0 == IdentityPersistenceError::DeviceAuthenticationRejected,
{
    match projection.device_status(device_id) {
        Some(DeviceStatusV1::Active) => {},
        _ => {
            return Err(IdentityPersistenceError::DeviceAuthenticationRejected);
        },
    }
    match projection.device_certificate(device_id) {
        Some(certificate) => Ok(certificate.device_signing_key()),
        None => Err(IdentityPersistenceError::CorruptData("active device certificate missing")),
    }
}

/// Why a device may not register for push.
pub open spec fn push_key_check(state: LogState, device: Seq<u8>) -> Result<
    (),
    IdentityPersistenceError,
> {
    if !state.devices.dom().contains(device) {
        Err(IdentityPersistenceError::DeviceAuthenticationRejected)
    } else if state.devices[device].status == DeviceStatusV1::Revoked {
        Err(IdentityPersistenceError::DeviceSessionRevoked)
    } else {
        Ok(())
    }
}

/// The signing key of an active device; a revoked one is told so.
pub fn push_registration_device_signing_key(
    projection: &IdentityLogV1,
    device_id: DeviceId,
) -> (key:
    Result<SigningPublicKey, IdentityPersistenceError>)
    ensures
        match key {
            Ok(key) => {
                &&& push_key_check(projection@, device_id@) is Ok
                &&& key@ == device_key(projection@, device_id@)
            },
            Err(error) => push_key_check(projection@, device_id@) == Err::<
                (),
                IdentityPersistenceError,
            >(error),
        },
{
    match projection.device_status(device_id) {
        Some(DeviceStatusV1::Revoked) => Err(IdentityPersistenceError::DeviceSessionRevoked),
        Some(DeviceStatusV1::Active) => match projection.device_certificate(device_id) {
            Some(certificate) => Ok(certificate.device_signing_key()),
            None => Err(IdentityPersistenceError::DeviceAuthenticationRejected),
        },
        None => Err(IdentityPersistenceError::DeviceAuthenticationRejected),
    }
}

/// Accepts exactly the proofs that the device's key strictly authenticates.
pub fn verify_device_proof(
    signing_key: SigningPublicKey,
    proof_input: &[u8],
    device_proof: Ed25519Signature,
) -> (verified: Result<(), IdentityPersistenceError>)
    ensures
        verified == if outside::ed25519_strict_accepted(
            signing_key@,
            proof_input@,
            device_proof@,
        ) {
            Ok::<(), IdentityPersistenceError>(())
        } else {
            Err(IdentityPersistenceError::DeviceAuthenticationRejected)
        },
{
    if signing_key.authenticates(proof_input, &device_proof) {
        Ok(())
    } else {
        Err(IdentityPersistenceError::DeviceAuthenticationRejected)
    }
}

/// Whether a credential opens a stored session at `now`.
pub open spec fn session_check(credential: Credential, row: Option<SessionRow>, now: i64) -> Result<
    (),
    IdentityPersistenceError,
> {
    match row {
        None => Err(IdentityPersistenceError::DeviceAuthenticationRejected),
        Some(row) => if row.session_secret_hash@.len() != 32 {
            Err(IdentityPersistenceError::CorruptData("device session secret hash"))
        } else if row.session_secret_hash@ != session::secret_digest(credential.session_secret) {
            Err(IdentityPersistenceError::DeviceAuthenticationRejected)
        } else if !number::is_utc_millis(row.expires_at_ms as int) {
            Err(IdentityPersistenceError::CorruptData("device session expiry"))
        } else if now >= row.expires_at_ms {
            Err(IdentityPersistenceError::DeviceAuthenticationRejected)
        } else if !id::is_identity_text(row.identity_id@) {
            Err(IdentityPersistenceError::CorruptData("device session identity ID"))
        } else if !id::is_uuid_v7(row.device_id@) {
            Err(IdentityPersistenceError::CorruptData("device session device ID"))
        } else {
            Ok(())
        },
    }
}

/// The session is the one that the row holds.
pub open spec fn is_session_of(opened: Session, credential: Credential, row: SessionRow) -> bool {
    &&& text::hex(opened.identity_id) == row.identity_id@
    &&& opened.device_id == row.device_id@
    &&& opened.session_id == credential.session_id
    &&& opened.expires_at == row.expires_at_ms
}

/// The claim is that of exactly this command, or why it is not.
pub open spec fn claim_check(claim: SessionClaimRow, command: SessionCompletion) -> Result<
    (),
    IdentityPersistenceError,
> {
    let conflict = Err::<(), IdentityPersistenceError>(
        IdentityPersistenceError::IdempotencyConflict,
    );
    if claim.identity_id@ != text::hex(command.identity_id) {
        conflict
    } else if !id::is_uuid_v7(claim.device_id@) {
        Err(IdentityPersistenceError::CorruptData("device session device ID"))
    } else if claim.device_id@ != command.device_id {
        conflict
    } else if !id::is_uuid_v7(claim.challenge_id@) {
        Err(IdentityPersistenceError::CorruptData("device session challenge ID"))
    } else if claim.challenge_id@ != command.challenge_id {
        conflict
    } else if !id::is_uuid_v7(claim.session_id@) {
        Err(IdentityPersistenceError::CorruptData("device session ID"))
    } else if claim.session_id@ != command.session_id {
        conflict
    } else if claim.request_digest@.len() != 32 {
        Err(IdentityPersistenceError::CorruptData("device session claim request digest"))
    } else if claim.request_digest@ != session::completion_request_digest(command) {
        conflict
    } else {
        Ok(())
    }
}

/// The receipt that a row's columns describe.
pub open spec fn receipt_of(row: SessionReceiptRow) -> SessionReceipt {
    let identity = id::identity_of_text(row.identity_id@);
    session::session_receipt(
        identity,
        row.device_id@,
        row.session_id@,
        Head {
            identity_id: identity,
            wire: IDENTITY_LOG_WIRE_VERSION,
            sequence: row.issued_head_sequence as u64,
            hash: row.issued_head_hash@,
        },
        row.issued_at_ms,
        row.expires_at_ms,
    )
}

/// Whether a stored receipt is intact.
pub open spec fn receipt_check(row: Option<SessionReceiptRow>) -> Result<
    (),
    IdentityPersistenceError,
> {
    match row {
        None => Err(IdentityPersistenceError::IncompleteCommand),
        Some(row) => if !id::is_identity_text(row.identity_id@) {
            Err(IdentityPersistenceError::CorruptData("device session identity ID"))
        } else if !id::is_uuid_v7(row.device_id@) {
            Err(IdentityPersistenceError::CorruptData("device session device ID"))
        } else if !id::is_uuid_v7(row.session_id@) {
            Err(IdentityPersistenceError::CorruptData("device session ID"))
        } else if !(0 <= row.issued_head_sequence <= MAX_SAFE_INTEGER) {
            Err(IdentityPersistenceError::CorruptData("device session receipt head sequence"))
        } else if row.issued_head_hash@.len() != 32 {
            Err(IdentityPersistenceError::CorruptData("device session receipt head hash"))
        } else if !number::is_utc_millis(row.issued_at_ms as int) {
            Err(IdentityPersistenceError::CorruptData("device session receipt issued time"))
        } else if !number::is_utc_millis(row.expires_at_ms as int) {
            Err(IdentityPersistenceError::CorruptData("device session receipt expiry"))
        } else if row.expires_at_ms < row.issued_at_ms {
            Err(IdentityPersistenceError::CorruptData("device session receipt fields"))
        } else if row.receipt_digest@.len() != 32 {
            Err(IdentityPersistenceError::CorruptData("device session receipt digest"))
        } else if row.receipt_bytes@ != receipt_of(row).exact_bytes || row.receipt_digest@
            != session::session_receipt_digest(receipt_of(row)) {
            Err(IdentityPersistenceError::ReceiptIntegrity)
        } else {
            Ok(())
        },
    }
}

/// The bytes that the device must have signed to complete a challenge.
pub open spec fn completion_signed_bytes(
    command: SessionCompletion,
    audience: Seq<char>,
    session_expires_at: i64,
) -> Seq<u8> {
    session::proof_signed_bytes(
        cbor::encoding(
            record::record(
                session::proof_fields(
                    command.identity_id,
                    command.device_id,
                    command.challenge_id,
                    command.challenge_nonce,
                    audience,
                    command.session_id,
                    session::secret_digest(command.session_secret),
                    session_expires_at,
                ),
            ),
        ),
    )
}

/// Whether a locked challenge is completed by a command at `now`.
pub open spec fn challenge_check(
    command: SessionCompletion,
    row: Option<SessionChallengeRow>,
    signing_key: Seq<u8>,
    now: i64,
) -> Result<(), IdentityPersistenceError> {
    match row {
        None => Err(IdentityPersistenceError::DeviceAuthenticationRejected),
        Some(row) => if row.nonce_hash@.len() != 32 {
            Err(IdentityPersistenceError::CorruptData("device session challenge nonce hash"))
        } else if !number::is_utc_millis(row.expires_at_ms as int) {
            Err(IdentityPersistenceError::CorruptData("device session challenge expiry"))
        } else if !number::is_utc_millis(row.session_expires_at_ms as int) {
            Err(IdentityPersistenceError::CorruptData("device session expiry"))
        } else if row.state@ != "open"@ {
            Err(IdentityPersistenceError::DeviceSessionChallengeConsumed)
        } else if now >= row.expires_at_ms {
            Err(IdentityPersistenceError::DeviceSessionChallengeExpired)
        } else if row.nonce_hash@ != session::nonce_digest(command.challenge_nonce) {
            Err(IdentityPersistenceError::DeviceAuthenticationRejected)
        } else if !session::is_audience(row.audience@) {
            Err(IdentityPersistenceError::InvalidCommand("device session audience"))
        } else if !outside::ed25519_strict_accepted(
            signing_key,
            completion_signed_bytes(command, row.audience@, row.session_expires_at_ms),
            command.proof,
        ) {
            Err(IdentityPersistenceError::DeviceAuthenticationRejected)
        } else {
            Ok(())
        },
    }
}

/// Whether a challenge may be asked for at `now` with this nonce and audience.
pub open spec fn challenge_request_check(nonce: Seq<u8>, audience: Seq<char>, now: i64) -> Result<
    (),
    IdentityPersistenceError,
> {
    if !session::is_audience(audience) {
        Err(IdentityPersistenceError::InvalidCommand("device session audience"))
    } else if bytes::all_zero(nonce) {
        Err(
            IdentityPersistenceError::InvalidCommand(
                "device session challenge nonce cannot be all zero",
            ),
        )
    } else if now + DEVICE_SESSION_TTL_MILLIS > MAX_SAFE_INTEGER {
        Err(IdentityPersistenceError::InvalidCommand("device session expiry"))
    } else {
        Ok(())
    }
}

/// Whether a fresh challenge may be issued at `now`.
pub open spec fn issue_check(
    device: Seq<u8>,
    nonce: Seq<u8>,
    audience: Seq<char>,
    snapshot: Result<IdentityLogSnapshot, IdentityPersistenceError>,
    last_created_at: Option<i64>,
    now: i64,
) -> Result<(), IdentityPersistenceError> {
    if let Err(error) = challenge_request_check(nonce, audience, now) {
        Err(error)
    } else if let Err(error) = snapshot {
        Err(error)
    } else if let Err(error) = active_key_check(snapshot->Ok_0@, device) {
        Err(error)
    } else if last_created_at is Some && !number::is_utc_millis(last_created_at->0 as int) {
        Err(IdentityPersistenceError::CorruptData("device session challenge creation time"))
    } else if last_created_at is Some && now < last_created_at->0
        + DEVICE_SESSION_CHALLENGE_MIN_INTERVAL_MILLIS {
        Err(IdentityPersistenceError::DeviceSessionChallengeRateLimited)
    } else {
        Ok(())
    }
}

/// Reads a stored receipt and checks that it is intact.
fn load_session_receipt(row: &Option<SessionReceiptRow>) -> (receipt: Result<
    DeviceSessionReceipt,
    IdentityPersistenceError,
>)
    ensures
        match receipt {
            Ok(receipt) => {
                &&& receipt_check(*row) is Ok
                &&& receipt@ == receipt_of(row->0)
            },
            Err(error) => receipt_check(*row) == Err::<(), IdentityPersistenceError>(error),
        },
{
    let row = match row {
        Some(row) => row,
        None => {
            return Err(IdentityPersistenceError::IncompleteCommand);
        },
    };
    let identity_id = match parse_identity_id(
        row.identity_id.as_str(),
        "device session identity ID",
    ) {
        Ok(part) => part,
        Err(error) => {
            return Err(error);
        },
    };
    proof {
        identity_id.lemma_len();
        id::lemma_identity_text(identity_id@);
    }
    let device_id = match parse_device_id(row.device_id, "device session device ID") {
        Ok(part) => part,
        Err(error) => {
            return Err(error);
        },
    };
    let session_id = match parse_session_id(row.session_id, "device session ID") {
        Ok(part) => part,
        Err(error) => {
            return Err(error);
        },
    };
    let sequence = match safe_uint(
        row.issued_head_sequence,
        "device session receipt head sequence",
    ) {
        Ok(part) => part,
        Err(error) => {
            return Err(error);
        },
    };
    let hash = match digest(row.issued_head_hash.as_slice(), "device session receipt head hash") {
        Ok(part) => part,
        Err(error) => {
            return Err(error);
        },
    };
    let issued_at = match utc_millis(row.issued_at_ms, "device session receipt issued time") {
        Ok(part) => part,
        Err(error) => {
            return Err(error);
        },
    };
    let expires_at = match utc_millis(row.expires_at_ms, "device session receipt expiry") {
        Ok(part) => part,
        Err(error) => {
            return Err(error);
        },
    };
    let issued_head = IdentityLogHead::new(identity_id, IDENTITY_LOG_WIRE_VERSION, sequence, hash);
    let receipt = match DeviceSessionReceipt::new(
        identity_id,
        device_id,
        session_id,
        issued_head,
        issued_at,
        expires_at,
    ) {
        Ok(receipt) => receipt,
        Err(error) => {
            return Err(error);
        },
    };
    let stored_digest = match digest(
        row.receipt_digest.as_slice(),
        "device session receipt digest",
    ) {
        Ok(part) => part,
        Err(error) => {
            return Err(error);
        },
    };
    if let Err(error) = receipt.verify_exact_bytes(row.receipt_bytes.as_slice(), stored_digest) {
        return Err(error);
    }
    Ok(receipt)
}

/// Checks that a claim is that of exactly this command.
fn check_claim(
    claim: &SessionClaimRow,
    command: &DeviceSessionCompletionCommand,
) -> (checked: Result<
    (),
    IdentityPersistenceError,
>)
    ensures
        checked == claim_check(*claim, command@),
{
    let conflict = IdentityPersistenceError::IdempotencyConflict;
    if !text_equal(claim.identity_id.as_str(), command.identity_id().to_text().as_str()) {
        return Err(conflict);
    }
    let device_id = match parse_device_id(claim.device_id, "device session device ID") {
        Ok(part) => part,
        Err(error) => {
            return Err(error);
        },
    };
    if device_id != command.device_id() {
        return Err(conflict);
    }
    let challenge_id = match parse_session_challenge_id(
        claim.challenge_id,
        "device session challenge ID",
    ) {
        Ok(part) => part,
        Err(error) => {
            return Err(error);
        },
    };
    if challenge_id != command.challenge_id() {
        return Err(conflict);
    }
    let session_id = match parse_session_id(claim.session_id, "device session ID") {
        Ok(part) => part,
        Err(error) => {
            return Err(error);
        },
    };
    if session_id != command.session_id() {
        return Err(conflict);
    }
    let stored = match digest(
        claim.request_digest.as_slice(),
        "device session claim request digest",
    ) {
        Ok(part) => part,
        Err(error) => {
            return Err(error);
        },
    };
    match command.request_digest() {
        Ok(request_digest) => {
            if stored == request_digest {
                Ok(())
            } else {
                Err(conflict)
            }
        },
        Err(error) => Err(error),
    }
}

/// Checks that a command completes a locked challenge; gives the expiry of the
/// session.
fn check_challenge(
    command: &DeviceSessionCompletionCommand,
    row: &Option<SessionChallengeRow>,
    signing_key: SigningPublicKey,
    now: UtcMillis,
) -> (checked: Result<UtcMillis, IdentityPersistenceError>)
    ensures
        match checked {
            Ok(session_expires_at) => {
                &&& challenge_check(command@, *row, signing_key@, now@) is Ok
                &&& session_expires_at@ == (row->0).session_expires_at_ms
            },
            Err(error) => challenge_check(command@, *row, signing_key@, now@) == Err::<
                (),
                IdentityPersistenceError,
            >(error),
        },
{
    let row = match row {
        Some(row) => row,
        None => {
            return Err(IdentityPersistenceError::DeviceAuthenticationRejected);
        },
    };
    let nonce_hash = match digest(
        row.nonce_hash.as_slice(),
        "device session challenge nonce hash",
    ) {
        Ok(part) => part,
        Err(error) => {
            return Err(error);
        },
    };
    let expires_at = match utc_millis(row.expires_at_ms, "device session challenge expiry") {
        Ok(part) => part,
        Err(error) => {
            return Err(error);
        },
    };
    let session_expires_at = match utc_millis(row.session_expires_at_ms, "device session expiry") {
        Ok(part) => part,
        Err(error) => {
            return Err(error);
        },
    };
    if !text_equal(row.state.as_str(), "open") {
        return Err(IdentityPersistenceError::DeviceSessionChallengeConsumed);
    }
    if now.get() >= expires_at.get() {
        return Err(IdentityPersistenceError::DeviceSessionChallengeExpired);
    }
    if nonce_hash != command.challenge_nonce_hash() {
        return Err(IdentityPersistenceError::DeviceAuthenticationRejected);
    }
    let proof_input = match device_session_proof_input(
        command.identity_id(),
        command.device_id(),
        command.challenge_id(),
        command.challenge_nonce(),
        row.audience.as_str(),
        command.session_id(),
        command.session_secret_hash(),
        session_expires_at,
    ) {
        Ok(proof_input) => proof_input,
        Err(error) => {
            return Err(error);
        },
    };
    if let Err(error) = verify_device_proof(
        signing_key,
        proof_input.as_slice(),
        command.device_proof(),
    ) {
        return Err(error);
    }
    Ok(session_expires_at)
}

/// Identity-specific durable device-session repository.
#[derive(Clone, Copy, Debug, Default)]
pub struct DeviceSessionRepository;

impl DeviceSessionRepository {
    /// Opens the session that a credential names, before its device is looked up
    /// in the log of the returned identity.
    pub fn open_session(
        &self,
        credential: &DeviceSessionCredential,
        row: &Option<SessionRow>,
        now: UtcMillis,
    ) -> (opened: Result<AuthenticatedDeviceSession, IdentityPersistenceError>)
        ensures
            match opened {
                Ok(opened) => {
                    &&& session_check(credential@, *row, now@) is Ok
                    &&& is_session_of(opened@, credential@, row->0)
                },
                Err(error) => session_check(credential@, *row, now@) == Err::<
                    (),
                    IdentityPersistenceError,
                >(error),
            },
    {
        let row = match row {
            Some(row) => row,
            None => {
                return Err(IdentityPersistenceError::DeviceAuthenticationRejected);
            },
        };
        let stored_secret = match digest(
            row.session_secret_hash.as_slice(),
            "device session secret hash",
        ) {
            Ok(part) => part,
            Err(error) => {
                return Err(error);
            },
        };
        if !stored_secret.equal_in_constant_time(&credential.secret_hash()) {
            return Err(IdentityPersistenceError::DeviceAuthenticationRejected);
        }
        let expires_at = match utc_millis(row.expires_at_ms, "device session expiry") {
            Ok(part) => part,
            Err(error) => {
                return Err(error);
            },
        };
        if now.get() >= expires_at.get() {
            return Err(IdentityPersistenceError::DeviceAuthenticationRejected);
        }
        let identity_id = match parse_identity_id(
            row.identity_id.as_str(),
            "device session identity ID",
        ) {
            Ok(part) => part,
            Err(error) => {
                return Err(error);
            },
        };
        proof {
            identity_id.lemma_len();
            id::lemma_identity_text(identity_id@);
        }
        let device_id = match parse_device_id(row.device_id, "device session device ID") {
            Ok(part) => part,
            Err(error) => {
                return Err(error);
            },
        };
        Ok(
            AuthenticatedDeviceSession::new(
                identity_id,
                device_id,
                credential.session_id(),
                expires_at,
            ),
        )
    }

    /// Validates an opened session against the log of its identity, and resolves
    /// the signing key of its device from that same log.
    pub fn authenticate_with_signing_key_in_transaction(
        &self,
        opened: AuthenticatedDeviceSession,
        snapshot: &IdentityLogSnapshot,
    ) -> (authenticated: Result<AuthenticatedDeviceSigningSession, IdentityPersistenceError>)
        ensures
            match authenticated {
                Ok(authenticated) => {
                    &&& active_key_check(snapshot@, opened@.device_id) is Ok
                    &&& authenticated@ == (SigningSession {
                        session: opened@,
                        signing_key: device_key(snapshot@, opened@.device_id),
                    })
                },
                Err(error) => active_key_check(snapshot@, opened@.device_id) == Err::<
                    (),
                    IdentityPersistenceError,
                >(error),
            },
            authenticated is Ok <==> snapshot@.devices.dom().contains(opened@.device_id)
                && snapshot@.devices[opened@.device_id].status == DeviceStatusV1::Active,
            authenticated is Err ==> authenticated->Err_0
                == IdentityPersistenceError::DeviceAuthenticationRejected,
    {
        match active_device_signing_key(snapshot.projection(), opened.device_id()) {
            Ok(signing_key) => Ok(AuthenticatedDeviceSigningSession::new(opened, signing_key)),
            Err(error) => Err(error),
        }
    }

    /// Validates an opened session against the log of its identity.
    pub fn authenticate_in_transaction(
        &self,
        opened: AuthenticatedDeviceSession,
        snapshot: &IdentityLogSnapshot,
    ) -> (authenticated: Result<AuthenticatedDeviceSession, IdentityPersistenceError>)
        ensures
            match authenticated {
                Ok(authenticated) => {
                    &&& active_key_check(snapshot@, opened@.device_id) is Ok
                    &&& authenticated@ == opened@
                },
                Err(error) => active_key_check(snapshot@, opened@.device_id) == Err::<
                    (),
                    IdentityPersistenceError,
                >(error),
            },
            authenticated is Ok <==> snapshot@.devices.dom().contains(opened@.device_id)
                && snapshot@.devices[opened@.device_id].status == DeviceStatusV1::Active,
            authenticated is Err ==> authenticated->Err_0
                == IdentityPersistenceError::DeviceAuthenticationRejected,
    {
        match self.authenticate_with_signing_key_in_transaction(opened, snapshot) {
            Ok(authenticated) => Ok(authenticated.session()),
            Err(error) => Err(error),
        }
    }

    /// Opens a session for an opaque-push registration; whatever is wrong is
    /// one opaque rejection.
    pub fn open_push_session(
        &self,
        credential: &DeviceSessionCredential,
        row: &Option<SessionRow>,
        now: UtcMillis,
    ) -> (opened: Result<AuthenticatedDeviceSession, IdentityPersistenceError>)
        ensures
            match opened {
                Ok(opened) => {
                    &&& session_check(credential@, *row, now@) is Ok
                    &&& is_session_of(opened@, credential@, row->0)
                },
                Err(error) => {
                    &&& session_check(credential@, *row, now@) is Err
                    &&& error == IdentityPersistenceError::DeviceAuthenticationRejected
                },
            },
    {
        match self.open_session(credential, row, now) {
            Ok(opened) => Ok(opened),
            Err(_) => Err(IdentityPersistenceError::DeviceAuthenticationRejected),
        }
    }

    /// Authenticates an opaque-push registration against one snapshot.
    ///
    /// Only the holder of a verified, fresh session learns that its device was
    /// revoked; everything else is one opaque rejection.
    pub fn authenticate_push_registration_readonly(
        &self,
        opened: AuthenticatedDeviceSession,
        snapshot: &Result<IdentityLogSnapshot, IdentityPersistenceError>,
    ) -> (observation: Result<PushIdentityAuthObservation, IdentityPersistenceError>)
        ensures
            match snapshot {
                Err(_) => observation == Err::<
                    PushIdentityAuthObservation,
                    IdentityPersistenceError,
                >(IdentityPersistenceError::DeviceAuthenticationRejected),
                Ok(snapshot) => match observation {
                    Ok(observation) => {
                        &&& push_key_check(snapshot@, opened@.device_id) is Ok
                        &&& observation@ == (PushObservation {
                            identity_id: opened@.identity_id,
                            device_id: opened@.device_id,
                            signing_key: device_key(snapshot@, opened@.device_id),
                            head: head::head_of(snapshot@),
                        })
                    },
                    Err(error) => push_key_check(snapshot@, opened@.device_id) == Err::<
                        (),
                        IdentityPersistenceError,
                    >(error),
                },
            },
    {
        let snapshot = match snapshot {
            Ok(snapshot) => snapshot,
            Err(_) => {
                return Err(IdentityPersistenceError::DeviceAuthenticationRejected);
            },
        };
        match push_registration_device_signing_key(snapshot.projection(), opened.device_id()) {
            Ok(signing_key) => Ok(
                PushIdentityAuthObservation::new(
                    opened.identity_id(),
                    opened.device_id(),
                    signing_key,
                    snapshot.head(),
                ),
            ),
            Err(error) => Err(error),
        }
    }

    /// The current active signing key of a device, so that another boundary can
    /// verify its proof without accepting a key from the caller.
    pub fn active_device_signing_key_in_transaction(
        &self,
        snapshot: &IdentityLogSnapshot,
        device_id: DeviceId,
    ) -> (key: Result<SigningPublicKey, IdentityPersistenceError>)
        ensures
            match key {
                Ok(key) => {
                    &&& active_key_check(snapshot@, device_id@) is Ok
                    &&& key@ == device_key(snapshot@, device_id@)
                },
                Err(error) => active_key_check(snapshot@, device_id@) == Err::<
                    (),
                    IdentityPersistenceError,
                >(error),
            },
            key is Ok <==> snapshot@.devices.dom().contains(device_id@)
                && snapshot@.devices[device_id@].status == DeviceStatusV1::Active,
    {
        active_device_signing_key(snapshot.projection(), device_id)
    }

    /// Checks what a challenge is asked for with, before anything is stored;
    /// gives when the challenge and its session would expire.
    pub fn validate_challenge(&self, nonce: &[u8; 32], audience: &str, now: UtcMillis) -> (valid:
        Result<(UtcMillis, UtcMillis), IdentityPersistenceError>)
        ensures
            match valid {
                Ok(expiries) => {
                    &&& challenge_request_check(nonce@, audience@, now@) is Ok
                    &&& expiries.0@ == now@ + DEVICE_SESSION_CHALLENGE_TTL_MILLIS
                    &&& expiries.1@ == now@ + DEVICE_SESSION_TTL_MILLIS
                },
                Err(error) => challenge_request_check(nonce@, audience@, now@) == Err::<
                    (),
                    IdentityPersistenceError,
                >(error),
            },
    {
        if let Err(error) = validate_audience(audience) {
            return Err(error);
        }
        if is_all_zero(nonce) {
            return Err(
                IdentityPersistenceError::InvalidCommand(
                    "device session challenge nonce cannot be all zero",
                ),
            );
        }
        let expires_at = match add_duration(
            now,
            DEVICE_SESSION_CHALLENGE_TTL_MILLIS,
            "device session expiry overflow",
            "device session expiry",
        ) {
            Ok(time) => time,
            Err(error) => {
                return Err(error);
            },
        };
        let session_expires_at = match add_duration(
            now,
            DEVICE_SESSION_TTL_MILLIS,
            "device session expiry overflow",
            "device session expiry",
        ) {
            Ok(time) => time,
            Err(error) => {
                return Err(error);
            },
        };
        session_expires_at.checked();
        Ok((expires_at, session_expires_at))
    }

    /// Decides on a one-time challenge for an active device; the digest is what
    /// is stored of its nonce.
    pub fn issue_challenge(
        &self,
        challenge_id: DeviceSessionChallengeId,
        identity_id: IdentityId,
        device_id: DeviceId,
        nonce: [u8; 32],
        audience: &str,
        snapshot: &Result<IdentityLogSnapshot, IdentityPersistenceError>,
        last_created_at: Option<i64>,
        now: UtcMillis,
    ) -> (issued: Result<(DeviceSessionChallenge, Sha256Digest), IdentityPersistenceError>)
        ensures
            ({
                let checked = issue_check(
                    device_id@,
                    nonce@,
                    audience@,
                    *snapshot,
                    last_created_at,
                    now@,
                );
                match issued {
                    Ok(issued) => {
                        &&& checked is Ok
                        &&& issued.0@ == (SessionChallenge {
                            challenge_id: challenge_id@,
                            identity_id: identity_id@,
                            device_id: device_id@,
                            nonce: nonce@,
                            audience: audience@,
                            expires_at: (now@ + DEVICE_SESSION_CHALLENGE_TTL_MILLIS) as i64,
                            session_expires_at: (now@ + DEVICE_SESSION_TTL_MILLIS) as i64,
                        })
                        &&& issued.1@ == session::nonce_digest(nonce@)
                    },
                    Err(error) => checked == Err::<(), IdentityPersistenceError>(error),
                }
            }),
            issued is Ok ==> {
                &&& snapshot is Ok
                &&& (snapshot->Ok_0)@.devices.dom().contains(device_id@)
                &&& (snapshot->Ok_0)@.devices[device_id@].status == DeviceStatusV1::Active
            },
    {
        let (expires_at, session_expires_at) = match self.validate_challenge(
            &nonce,
            audience,
            now,
        ) {
            Ok(expiries) => expiries,
            Err(error) => {
                return Err(error);
            },
        };
        session_expires_at.checked();
        let snapshot = match snapshot {
            Ok(snapshot) => snapshot,
            Err(error) => {
                return Err(*error);
            },
        };
        if let Err(error) = active_device_signing_key(snapshot.projection(), device_id) {
            return Err(error);
        }
        match last_created_at {
            Some(created_at) => {
                let created_at = match utc_millis(
                    created_at,
                    "device session challenge creation time",
                ) {
                    Ok(created_at) => created_at,
                    Err(error) => {
                        return Err(error);
                    },
                };
                if now.get() < created_at.get() + DEVICE_SESSION_CHALLENGE_MIN_INTERVAL_MILLIS {
                    return Err(IdentityPersistenceError::DeviceSessionChallengeRateLimited);
                }
            },
            None => {},
        }
        let nonce_hash = Sha256Digest::hash_domain(DEVICE_SESSION_NONCE_HASH_DOMAIN, &nonce);
        let challenge = DeviceSessionChallenge::new(
            challenge_id,
            identity_id,
            device_id,
            nonce,
            audience.to_owned(),
            expires_at,
            session_expires_at,
        );
        Ok((challenge, nonce_hash))
    }

    /// How much session state one retention batch removed.
    pub fn prune_expired(&self, removed: i64) -> (count: Result<u64, IdentityPersistenceError>)
        ensures
            match count {
                Ok(count) => count == removed,
                Err(error) => {
                    &&& removed < 0
                    &&& error == IdentityPersistenceError::CorruptData(
                        "device session retention count",
                    )
                },
            },
    {
        row::removed_count(removed, "device session retention count")
    }

    /// Replays the exact stored receipt of a completion whose idempotency key
    /// was claimed before.
    pub fn replay_completion(
        &self,
        command: &DeviceSessionCompletionCommand,
        claim: &SessionClaimRow,
        receipt: &Option<SessionReceiptRow>,
    ) -> (outcome: Result<DeviceSessionOutcome, IdentityPersistenceError>)
        ensures
            match outcome {
                Ok(outcome) => {
                    &&& claim_check(*claim, command@) is Ok
                    &&& receipt_check(*receipt) is Ok
                    &&& outcome is Replayed
                    &&& outcome@ == receipt_of(receipt->0)
                },
                Err(error) => if let Err(refusal) = claim_check(*claim, command@) {
                    error == refusal
                } else {
                    receipt_check(*receipt) == Err::<(), IdentityPersistenceError>(error)
                },
            },
    {
        if let Err(error) = check_claim(claim, command) {
            return Err(error);
        }
        match load_session_receipt(receipt) {
            Ok(receipt) => Ok(DeviceSessionOutcome::Replayed(receipt)),
            Err(error) => Err(error),
        }
    }

    /// Verifies one device-signed completion of a locked challenge, under a
    /// fresh idempotency claim, and issues the session's receipt.
    pub fn complete(
        &self,
        command: &DeviceSessionCompletionCommand,
        challenge: &Option<SessionChallengeRow>,
        snapshot: &IdentityLogSnapshot,
        now: UtcMillis,
    ) -> (outcome: Result<DeviceSessionOutcome, IdentityPersistenceError>)
        ensures
            ({
                let active = active_key_check(snapshot@, command@.device_id);
                let checked = challenge_check(
                    command@,
                    *challenge,
                    device_key(snapshot@, command@.device_id),
                    now@,
                );
                let expires_at = (challenge->0).session_expires_at_ms;
                let issuable = snapshot@.identity_id == command@.identity_id && now@ <= expires_at;
                match outcome {
                    Ok(outcome) => {
                        &&& active is Ok
                        &&& checked is Ok
                        &&& issuable
                        &&& outcome is Issued
                        &&& outcome@ == session::session_receipt(
                            command@.identity_id,
                            command@.device_id,
                            command@.session_id,
                            head::head_of(snapshot@),
                            now@,
                            expires_at,
                        )
                    },
                    Err(error) => if let Err(refusal) = active {
                        error == refusal
                    } else if let Err(refusal) = checked {
                        error == refusal
                    } else {
                        &&& !issuable
                        &&& error == IdentityPersistenceError::CorruptData(
                            "device session receipt fields",
                        )
                    },
                }
            }),
            outcome is Ok ==> {
                &&& snapshot@.devices.dom().contains(command@.device_id)
                &&& snapshot@.devices[command@.device_id].status == DeviceStatusV1::Active
            },
    {
        let signing_key = match active_device_signing_key(
            snapshot.projection(),
            command.device_id(),
        ) {
            Ok(signing_key) => signing_key,
            Err(error) => {
                return Err(error);
            },
        };
        let session_expires_at = match check_challenge(command, challenge, signing_key, now) {
            Ok(time) => time,
            Err(error) => {
                return Err(error);
            },
        };
        match DeviceSessionReceipt::new(
            command.identity_id(),
            command.device_id(),
            command.session_id(),
            snapshot.head(),
            now,
            session_expires_at,
        ) {
            Ok(receipt) => Ok(DeviceSessionOutcome::Issued(receipt)),
            Err(error) => Err(error),
        }
    }

    /// Confirms that a session was inserted, or its challenge consumed, exactly
    /// once.
    pub fn confirm_consumed(&self, changed: u64) -> (confirmed: Result<
        (),
        IdentityPersistenceError,
    >)
        ensures
            confirmed == if changed == 1 {
                Ok::<(), IdentityPersistenceError>(())
            } else {
                Err(IdentityPersistenceError::DeviceSessionChallengeConsumed)
            },
    {
        if changed == 1 {
            Ok(())
        } else {
            Err(IdentityPersistenceError::DeviceSessionChallengeConsumed)
        }
    }
}

} // verus!
