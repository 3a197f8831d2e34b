//! What holds of device sessions, told by rows, commands and the state of the
//! log.

use vstd::prelude::*;
use vstd::utf8::*;
use crate::log::state::{DeviceStatusV1, LogState};
use crate::log::wire_line::IDENTITY_LOG_WIRE_VERSION;
use crate::outside;
use crate::persistence::error::IdentityPersistenceError;
use crate::persistence::head::{Head, IdentityLogSnapshot};
use crate::persistence::laws;
use crate::persistence::session;
use crate::persistence::session::{
    Credential, Session, SessionCompletion, DEVICE_SESSION_NONCE_HASH_DOMAIN,
    DEVICE_SESSION_PROOF_HASH_DOMAIN, DEVICE_SESSION_REQUEST_HASH_DOMAIN,
    DEVICE_SESSION_SECRET_HASH_DOMAIN, DEVICE_SESSION_SIGNATURE_DOMAIN,
};
use crate::persistence::session_decision;
use crate::persistence::session_decision::{
    SessionChallengeRow, SessionClaimRow, SessionReceiptRow, SessionRow,
};
use crate::wire::cbor;
use crate::wire::digest;
use crate::wire::id;
use crate::wire::number;
use crate::wire::number::MAX_SAFE_INTEGER;
use crate::wire::record;
use crate::wire::text;
use crate::wire::value::Value;

verus! {

/// The device is enrolled and not revoked.
pub open spec fn is_active(state: LogState, device: Seq<u8>) -> bool {
    state.devices.dom().contains(device) && state.devices[device].status == DeviceStatusV1::Active
}

/// Exactly the active devices authenticate, with the key of their certificate. A
/// device that is revoked, or was never enrolled, is refused in the same words.
pub proof fn law_only_active_devices_authenticate(state: LogState, device: Seq<u8>)
    ensures
        ({
            let checked = session_decision::active_key_check(state, device);
            &&& checked is Ok <==> state.devices.dom().contains(device)
                && state.devices[device].status == DeviceStatusV1::Active
            &&& state.devices.dom().contains(device) && state.devices[device].status
                == DeviceStatusV1::Revoked ==> checked == Err::<(), IdentityPersistenceError>(
                IdentityPersistenceError::DeviceAuthenticationRejected,
            )
            &&& !state.devices.dom().contains(device) ==> checked == Err::<
                (),
                IdentityPersistenceError,
            >(IdentityPersistenceError::DeviceAuthenticationRejected)
            &&& session_decision::device_key(state, device)
                == state.devices[device].certificate.unsigned.device_signing_key
        }),
{
}

/// For push registration too exactly the active devices authenticate; only there
/// a revoked device learns that it is revoked.
pub proof fn law_push_tells_revoked_devices(state: LogState, device: Seq<u8>)
    ensures
        ({
            let checked = session_decision::push_key_check(state, device);
            &&& checked is Ok <==> is_active(state, device)
            &&& state.devices.dom().contains(device) && state.devices[device].status
                == DeviceStatusV1::Revoked ==> checked == Err::<(), IdentityPersistenceError>(
                IdentityPersistenceError::DeviceSessionRevoked,
            )
            &&& !state.devices.dom().contains(device) ==> checked == Err::<
                (),
                IdentityPersistenceError,
            >(IdentityPersistenceError::DeviceAuthenticationRejected)
        }),
{
}

/// The row is one that a session was stored in.
pub open spec fn is_intact_session(row: SessionRow) -> bool {
    &&& row.session_secret_hash@.len() == 32
    &&& number::is_utc_millis(row.expires_at_ms as int)
    &&& exists|identity: Seq<u8>|
        identity.len() == 32 && #[trigger] text::hex(identity) == row.identity_id@
    &&& id::is_uuid_v7(row.device_id@)
}

/// A stored session opens to the holder of its secret until it expires, and to
/// nobody else; a wrong secret and an expired session are refused alike.
pub proof fn law_session_opens_until_it_expires(credential: Credential, row: SessionRow, now: i64)
    requires
        is_intact_session(row),
    ensures
        ({
            let opened = session_decision::session_check(credential, Some(row), now);
            let holds_secret = row.session_secret_hash@ == digest::hash_in_domain(
                DEVICE_SESSION_SECRET_HASH_DOMAIN@,
                credential.session_secret,
            );
            &&& opened is Ok <==> holds_secret && now < row.expires_at_ms
            &&& !(holds_secret && now < row.expires_at_ms) ==> opened == Err::<
                (),
                IdentityPersistenceError,
            >(IdentityPersistenceError::DeviceAuthenticationRejected)
        }),
{
}

/// No session opens without a row, nor from a row that is not intact.
pub proof fn law_broken_session_never_opens(
    credential: Credential,
    row: Option<SessionRow>,
    now: i64,
)
    requires
        row is Some ==> !is_intact_session(row->0),
    ensures
        session_decision::session_check(credential, row, now) is Err,
        row is None ==> session_decision::session_check(credential, row, now) == Err::<
            (),
            IdentityPersistenceError,
        >(IdentityPersistenceError::DeviceAuthenticationRejected),
{
}

/// What opens is the session of the row: its identity, its device and its expiry,
/// under the ID that the credential names. Two sessions that open with the same
/// credential from the same row are the same.
pub proof fn law_opened_session_is_that_of_the_row(
    opened: Session,
    again: Session,
    credential: Credential,
    row: SessionRow,
)
    requires
        session_decision::is_session_of(opened, credential, row),
        session_decision::is_session_of(again, credential, row),
        opened.identity_id.len() == 32,
        again.identity_id.len() == 32,
    ensures
        text::hex(opened.identity_id) == row.identity_id@,
        opened.device_id == row.device_id@,
        opened.session_id == credential.session_id,
        opened.expires_at == row.expires_at_ms,
        opened.identity_id == again.identity_id,
        opened.device_id == again.device_id,
        opened.session_id == again.session_id,
        opened.expires_at == again.expires_at,
{
    text::lemma_hex_injective(opened.identity_id, again.identity_id);
}

/// A challenge is issued exactly to an active device, for a plain audience and a
/// nonce that is not all zero, if the session could still be timed and the last
/// challenge is old enough.
pub proof fn law_challenge_goes_to_active_devices(
    device: Seq<u8>,
    nonce: Seq<u8>,
    audience: Seq<char>,
    snapshot: IdentityLogSnapshot,
    last_created_at: Option<i64>,
    now: i64,
)
    ensures
        ({
            let issued = session_decision::issue_check(
                device,
                nonce,
                audience,
                Ok(snapshot),
                last_created_at,
                now,
            );
            let bytes = encode_utf8(audience);
            let plain = 1 <= bytes.len() <= 256 && forall|i: int|
                0 <= i < bytes.len() ==> 0x21 <= #[trigger] bytes[i] <= 0x7e;
            let marked = exists|i: int| 0 <= i < nonce.len() && #[trigger] nonce[i] != 0;
            let timed = now + 900_000 <= MAX_SAFE_INTEGER;
            let spaced = last_created_at is Some ==> number::is_utc_millis(
                last_created_at->0 as int,
            ) && now >= last_created_at->0 + 5_000;
            let active = snapshot@.devices.dom().contains(device)
                && snapshot@.devices[device].status == DeviceStatusV1::Active;
            &&& issued is Ok <==> plain && marked && timed && active && spaced
            &&& plain && marked && timed && !active ==> issued == Err::<
                (),
                IdentityPersistenceError,
            >(IdentityPersistenceError::DeviceAuthenticationRejected)
            &&& plain && marked && timed && active && last_created_at is Some
                && number::is_utc_millis(last_created_at->0 as int) && now < last_created_at->0
                + 5_000 ==> issued == Err::<(), IdentityPersistenceError>(
                IdentityPersistenceError::DeviceSessionChallengeRateLimited,
            )
        }),
{
}

/// The row is one that a challenge was stored in.
pub open spec fn is_intact_challenge(row: SessionChallengeRow) -> bool {
    let audience = encode_utf8(row.audience@);
    &&& row.nonce_hash@.len() == 32
    &&& number::is_utc_millis(row.expires_at_ms as int)
    &&& number::is_utc_millis(row.session_expires_at_ms as int)
    &&& 1 <= audience.len() <= 256
    &&& forall|i: int| 0 <= i < audience.len() ==> 0x21 <= #[trigger] audience[i] <= 0x7e
}

/// A challenge is completed exactly while it is open and unexpired, by who knows
/// its nonce and signs, with the device's key, for this identity, device,
/// challenge, nonce, audience, session, secret and expiry.
pub proof fn law_challenge_is_completed_by_its_device(
    command: SessionCompletion,
    row: SessionChallengeRow,
    signing_key: Seq<u8>,
    now: i64,
)
    requires
        is_intact_challenge(row),
    ensures
        ({
            let completed = session_decision::challenge_check(command, Some(row), signing_key, now);
            let is_open = row.state@ == "open"@;
            let knows_nonce = row.nonce_hash@ == digest::hash_in_domain(
                DEVICE_SESSION_NONCE_HASH_DOMAIN@,
                command.challenge_nonce,
            );
            let transcript = cbor::encoding(
                record::record(
                    session::proof_fields(
                        command.identity_id,
                        command.device_id,
                        command.challenge_id,
                        command.challenge_nonce,
                        row.audience@,
                        command.session_id,
                        digest::hash_in_domain(
                            DEVICE_SESSION_SECRET_HASH_DOMAIN@,
                            command.session_secret,
                        ),
                        row.session_expires_at_ms,
                    ),
                ),
            );
            let signed = outside::ed25519_strict_accepted(
                signing_key,
                encode_utf8(DEVICE_SESSION_SIGNATURE_DOMAIN@) + digest::hash_in_domain(
                    DEVICE_SESSION_PROOF_HASH_DOMAIN@,
                    transcript,
                ),
                command.proof,
            );
            &&& completed is Ok <==> is_open && now < row.expires_at_ms && knows_nonce && signed
            &&& !is_open ==> completed == Err::<(), IdentityPersistenceError>(
                IdentityPersistenceError::DeviceSessionChallengeConsumed,
            )
            &&& is_open && now >= row.expires_at_ms ==> completed == Err::<
                (),
                IdentityPersistenceError,
            >(IdentityPersistenceError::DeviceSessionChallengeExpired)
            &&& is_open && now < row.expires_at_ms && !(knows_nonce && signed) ==> completed
                == Err::<(), IdentityPersistenceError>(
                IdentityPersistenceError::DeviceAuthenticationRejected,
            )
        }),
{
}

/// Without a row there is no challenge to complete.
pub proof fn law_missing_challenge_is_refused(
    command: SessionCompletion,
    signing_key: Seq<u8>,
    now: i64,
)
    ensures
        session_decision::challenge_check(command, None, signing_key, now) == Err::<
            (),
            IdentityPersistenceError,
        >(IdentityPersistenceError::DeviceAuthenticationRejected),
{
}

/// The transcript that a device signs reads back field by field: the identity, the
/// device, the challenge, the nonce, the audience, the session, the digest of the
/// secret and the expiry.
pub proof fn law_session_transcript_reads_back(
    identity: Seq<u8>,
    device: Seq<u8>,
    challenge: Seq<u8>,
    nonce: Seq<u8>,
    audience: Seq<char>,
    session: Seq<u8>,
    secret_hash: Seq<u8>,
    expires_at: i64,
)
    requires
        identity.len() == 32,
        device.len() == 16,
        challenge.len() == 16,
        nonce.len() == 32,
        session::is_audience(audience),
        session.len() == 16,
        secret_hash.len() == 32,
    ensures
        ({
            let read = cbor::decoded(
                cbor::encoding(
                    record::record(
                        session::proof_fields(
                            identity,
                            device,
                            challenge,
                            nonce,
                            audience,
                            session,
                            secret_hash,
                            expires_at,
                        ),
                    ),
                ),
            );
            &&& record::is_record(read, 9)
            &&& record::field_of(read, 1) == Value::Unsigned(1)
            &&& record::field_of(read, 2) == Value::Text(text::hex(identity))
            &&& record::field_of(read, 3) == Value::Text(text::hyphenated(device))
            &&& record::field_of(read, 4) == Value::Text(text::hyphenated(challenge))
            &&& record::field_of(read, 5) == Value::Bytes(nonce)
            &&& record::field_of(read, 6) == Value::Text(audience)
            &&& record::field_of(read, 7) == Value::Text(text::hyphenated(session))
            &&& record::field_of(read, 8) == Value::Bytes(secret_hash)
            &&& record::field_of(read, 9) == number::millis_model(expires_at)
        }),
{
    let fields = session::proof_fields(
        identity,
        device,
        challenge,
        nonce,
        audience,
        session,
        secret_hash,
        expires_at,
    );
    record::lemma_hex_canonical(identity);
    record::lemma_uuid_canonical(device);
    record::lemma_uuid_canonical(challenge);
    record::lemma_uuid_canonical(session);
    record::lemma_record_canonical(fields, 31);
    laws::lemma_record_read(fields);
}

/// The digest of a completion request is that of bytes which read back field by
/// field as the request, with its secret as a digest.
pub proof fn law_completion_digest_covers_the_request(command: SessionCompletion)
    requires
        command.identity_id.len() == 32,
        command.device_id.len() == 16,
        command.challenge_id.len() == 16,
        command.session_id.len() == 16,
        command.challenge_nonce.len() == 32,
        session::secret_digest(command.session_secret).len() == 32,
        command.proof.len() == 64,
    ensures
        ({
            let bytes = cbor::encoding(record::record(session::completion_request_fields(command)));
            let read = cbor::decoded(bytes);
            &&& session::completion_request_digest(command) == digest::hash_in_domain(
                DEVICE_SESSION_REQUEST_HASH_DOMAIN@,
                bytes,
            )
            &&& record::is_record(read, 8)
            &&& record::field_of(read, 1) == Value::Unsigned(1)
            &&& record::field_of(read, 2) == Value::Text(text::hex(command.identity_id))
            &&& record::field_of(read, 3) == Value::Text(text::hyphenated(command.device_id))
            &&& record::field_of(read, 4) == Value::Text(text::hyphenated(command.challenge_id))
            &&& record::field_of(read, 5) == Value::Text(text::hyphenated(command.session_id))
            &&& record::field_of(read, 6) == Value::Bytes(command.challenge_nonce)
            &&& record::field_of(read, 7) == Value::Bytes(
                digest::hash_in_domain(DEVICE_SESSION_SECRET_HASH_DOMAIN@, command.session_secret),
            )
            &&& record::field_of(read, 8) == Value::Bytes(command.proof)
        }),
{
    let fields = session::completion_request_fields(command);
    record::lemma_hex_canonical(command.identity_id);
    record::lemma_uuid_canonical(command.device_id);
    record::lemma_uuid_canonical(command.challenge_id);
    record::lemma_uuid_canonical(command.session_id);
    record::lemma_record_canonical(fields, 31);
    laws::lemma_record_read(fields);
}

/// A session receipt says whose session it is and when it was issued and expires,
/// and its bytes read back as the same.
pub proof fn law_session_receipt_says_what_was_issued(
    identity: Seq<u8>,
    device: Seq<u8>,
    session: Seq<u8>,
    head: Head,
    issued_at: i64,
    expires_at: i64,
)
    requires
        identity.len() == 32,
        device.len() == 16,
        session.len() == 16,
        head.hash.len() == 32,
    ensures
        ({
            let receipt = session::session_receipt(
                identity,
                device,
                session,
                head,
                issued_at,
                expires_at,
            );
            let read = cbor::decoded(receipt.exact_bytes);
            &&& receipt.identity_id == identity
            &&& receipt.device_id == device
            &&& receipt.session_id == session
            &&& receipt.issued_head == head
            &&& receipt.issued_at == issued_at
            &&& receipt.expires_at == expires_at
            &&& record::is_record(read, 8)
            &&& record::field_of(read, 1) == Value::Unsigned(1)
            &&& record::field_of(read, 2) == Value::Text(text::hex(identity))
            &&& record::field_of(read, 3) == Value::Text(text::hyphenated(device))
            &&& record::field_of(read, 4) == Value::Text(text::hyphenated(session))
            &&& record::field_of(read, 5) == Value::Unsigned(head.sequence)
            &&& record::field_of(read, 6) == Value::Bytes(head.hash)
            &&& record::field_of(read, 7) == number::millis_model(issued_at)
            &&& record::field_of(read, 8) == number::millis_model(expires_at)
        }),
{
    let fields = session::session_receipt_fields(
        identity,
        device,
        session,
        head,
        issued_at,
        expires_at,
    );
    record::lemma_hex_canonical(identity);
    record::lemma_uuid_canonical(device);
    record::lemma_uuid_canonical(session);
    record::lemma_record_canonical(fields, 31);
    laws::lemma_record_read(fields);
}

/// An earlier claim of an idempotency key lets exactly the same completion
/// through: the same identity, device, challenge, session and request.
pub proof fn law_claim_admits_the_same_completion(
    claim: SessionClaimRow,
    command: SessionCompletion,
)
    requires
        id::is_uuid_v7(claim.device_id@),
        id::is_uuid_v7(claim.challenge_id@),
        id::is_uuid_v7(claim.session_id@),
        claim.request_digest@.len() == 32,
    ensures
        ({
            let admitted = session_decision::claim_check(claim, command);
            let same = claim.identity_id@ == text::hex(command.identity_id) && claim.device_id@
                == command.device_id && claim.challenge_id@ == command.challenge_id
                && claim.session_id@ == command.session_id && claim.request_digest@
                == session::completion_request_digest(command);
            &&& admitted is Ok <==> same
            &&& !same ==> admitted == Err::<(), IdentityPersistenceError>(
                IdentityPersistenceError::IdempotencyConflict,
            )
        }),
{
}

/// A stored receipt is handed out again only where it is whole: its bytes are
/// those of the session that its columns describe, under their digest.
pub proof fn law_stored_receipt_must_be_whole(row: SessionReceiptRow)
    requires
        session_decision::receipt_check(Some(row)) is Ok,
    ensures
        ({
            let receipt = session_decision::receipt_of(row);
            &&& text::hex(receipt.identity_id) == row.identity_id@
            &&& receipt.device_id == row.device_id@
            &&& receipt.session_id == row.session_id@
            &&& receipt.issued_head.identity_id == receipt.identity_id
            &&& receipt.issued_head.wire == IDENTITY_LOG_WIRE_VERSION
            &&& receipt.issued_head.sequence == row.issued_head_sequence
            &&& receipt.issued_head.hash == row.issued_head_hash@
            &&& receipt.issued_at == row.issued_at_ms
            &&& receipt.expires_at == row.expires_at_ms
            &&& row.issued_at_ms <= row.expires_at_ms
            &&& receipt.exact_bytes == row.receipt_bytes@
            &&& session::session_receipt_digest(receipt) == row.receipt_digest@
        }),
{
    let identity = choose|bytes: Seq<u8>|
        bytes.len() == 32 && #[trigger] text::hex(bytes) == row.identity_id@;
    id::lemma_identity_text(identity);
}

/// A claim whose receipt was never stored is incomplete.
pub proof fn law_missing_receipt_is_incomplete()
    ensures
        session_decision::receipt_check(None) == Err::<(), IdentityPersistenceError>(
            IdentityPersistenceError::IncompleteCommand,
        ),
{
}

/// A stored receipt is handed out exactly if each of its columns can hold what it is
/// for, it does not expire before it was issued, and its bytes and their digest are
/// those of the receipt.
pub proof fn law_whole_receipt_is_handed_out(row: SessionReceiptRow)
    ensures
        ({
            let checked = session_decision::receipt_check(Some(row));
            let receipt = session_decision::receipt_of(row);
            let typed = {
                &&& id::is_identity_text(row.identity_id@)
                &&& id::is_uuid_v7(row.device_id@)
                &&& id::is_uuid_v7(row.session_id@)
                &&& 0 <= row.issued_head_sequence <= 9_007_199_254_740_991
                &&& row.issued_head_hash@.len() == 32
                &&& -9_007_199_254_740_991 <= row.issued_at_ms
                &&& row.issued_at_ms <= row.expires_at_ms
                &&& row.expires_at_ms <= 9_007_199_254_740_991
                &&& row.receipt_digest@.len() == 32
            };
            let whole = row.receipt_bytes@ == receipt.exact_bytes && row.receipt_digest@
                == session::session_receipt_digest(receipt);
            &&& checked is Ok <==> typed && whole
            &&& typed && !whole ==> checked == Err::<(), IdentityPersistenceError>(
                IdentityPersistenceError::ReceiptIntegrity,
            )
        }),
{
}

} // verus!
