//! What holds of device enrollment, told by rows, commands and events.

use vstd::prelude::*;
use vstd::utf8::*;
use crate::log::event::Event;
use crate::log::event_codec;
use crate::log::payload::Payload;
use crate::outside;
use crate::persistence::enrollment;
use crate::persistence::enrollment::AppendPlan;
use crate::persistence::enrollment_challenge;
use crate::persistence::enrollment_challenge::{
    DurableChallengeState, EnrollmentChallengeRow, StoredEnrollmentChallenge,
};
use crate::persistence::enrollment_command;
use crate::persistence::enrollment_command::{
    Approval, CreateChallenge, DeviceEnrollmentChallengeState, RecoveryRequest,
};
use crate::persistence::error::IdentityPersistenceError;
use crate::persistence::head;
use crate::persistence::head::Head;
use crate::persistence::laws;
use crate::wire::cbor;
use crate::wire::digest;
use crate::wire::id;
use crate::wire::key;
use crate::wire::number;
use crate::wire::number::MAX_SAFE_INTEGER;
use crate::wire::record;
use crate::wire::text;
use crate::wire::value::Value;

verus! {

/// A challenge is reported approved exactly if it is stored approved, cancelled
/// exactly if it is stored cancelled, and an open one expired exactly from its
/// expiry on; everything else is reported as it is stored.
pub proof fn law_status_tells_the_stored_state(stored: StoredEnrollmentChallenge, now: i64)
    ensures
        ({
            let status = enrollment_challenge::visible_status(stored, now);
            &&& status.state == DeviceEnrollmentChallengeState::Approved <==> stored.state
                == DurableChallengeState::Approved
            &&& status.state == DeviceEnrollmentChallengeState::Cancelled <==> stored.state
                == DurableChallengeState::Cancelled
            &&& status.state == DeviceEnrollmentChallengeState::Expired <==> stored.state
                == DurableChallengeState::Open && stored.expires_at@ <= now
            &&& status.state == DeviceEnrollmentChallengeState::Open <==> stored.state
                == DurableChallengeState::Open && now < stored.expires_at@
            &&& status.challenge_id == stored.challenge_id@
            &&& status.identity_id == stored.identity_id@
            &&& status.target_device_id == stored.target_device_id@
            &&& status.created_at == stored.created_at@
            &&& status.expires_at == stored.expires_at@
            &&& status.approved_head is Some <==> stored.approved_head is Some
            &&& stored.approved_head is Some ==> status.approved_head == Some(
                stored.approved_head->0@,
            )
        }),
{
}

/// Time only ends what is open: a status that is not open never changes, and an
/// expired challenge stays expired.
pub proof fn law_status_changes_once(stored: StoredEnrollmentChallenge, now: i64, later: i64)
    requires
        now <= later,
    ensures
        ({
            let before = enrollment_challenge::visible_status(stored, now);
            let after = enrollment_challenge::visible_status(stored, later);
            &&& before.state != DeviceEnrollmentChallengeState::Open ==> after == before
            &&& after.state != before.state ==> {
                &&& before.state == DeviceEnrollmentChallengeState::Open
                &&& after.state == DeviceEnrollmentChallengeState::Expired
                &&& now < stored.expires_at@ <= later
            }
        }),
{
}

/// A challenge that is cancelled keeps its identity, its device and its times, and
/// names no head.
pub proof fn law_cancelling_changes_the_state_alone(stored: StoredEnrollmentChallenge, now: i64)
    ensures
        ({
            let before = enrollment_challenge::visible_status(stored, now);
            let after = enrollment::cancelled_status(stored);
            &&& after.state == DeviceEnrollmentChallengeState::Cancelled
            &&& after.challenge_id == before.challenge_id
            &&& after.identity_id == before.identity_id
            &&& after.target_device_id == before.target_device_id
            &&& after.created_at == before.created_at
            &&& after.expires_at == before.expires_at
            &&& after.approved_head is None
        }),
{
}

/// Only who holds the capability whose digest is stored gets at a challenge, and
/// only under the identity that it was found by.
pub proof fn law_capability_opens_its_challenge(
    identity_hint: Seq<u8>,
    stored: StoredEnrollmentChallenge,
    capability: Seq<u8>,
)
    ensures
        ({
            let held = stored.capability_hash@ == digest::hash_in_domain(
                "dirextalk.device-enrollment-capability.v1\0"@,
                capability,
            );
            let same = stored.identity_id@ == identity_hint;
            let access = enrollment::access_check(identity_hint, stored, capability);
            &&& enrollment::capability_check(stored, capability) is Ok <==> held
            &&& access is Ok <==> held && same
            &&& same && !held ==> access == Err::<(), IdentityPersistenceError>(
                IdentityPersistenceError::DeviceEnrollmentCapabilityRejected,
            )
        }),
{
}

/// An open challenge is approved exactly before it expires; a cancelled one never.
pub proof fn law_open_challenge_is_approved_until_it_expires(
    command: Approval,
    stored: StoredEnrollmentChallenge,
    now: i64,
)
    requires
        event_codec::decode_event(command.exact_device_add_bytes) is Ok,
        stored.capability_hash@ == enrollment_command::capability_digest(command.capability),
    ensures
        ({
            let checked = enrollment::approval_check(command, stored.identity_id@, stored, now);
            &&& stored.state == DurableChallengeState::Open ==> {
                &&& checked is Ok <==> now < stored.expires_at@
                &&& now >= stored.expires_at@ ==> checked == Err::<(), IdentityPersistenceError>(
                    IdentityPersistenceError::DeviceEnrollmentChallengeExpired,
                )
            }
            &&& stored.state == DurableChallengeState::Cancelled ==> checked == Err::<
                (),
                IdentityPersistenceError,
            >(IdentityPersistenceError::DeviceEnrollmentChallengeCancelled)
        }),
{
}

/// An approved challenge is approved again exactly by the approval that is stored,
/// whose event adds the device of the challenge behind the head that it expects.
pub proof fn law_approved_challenge_takes_its_own_approval(
    command: Approval,
    stored: StoredEnrollmentChallenge,
    now: i64,
)
    requires
        event_codec::decode_event(command.exact_device_add_bytes) is Ok,
        stored.capability_hash@ == enrollment_command::capability_digest(command.capability),
        stored.state == DurableChallengeState::Approved,
    ensures
        ({
            let checked = enrollment::approval_check(command, stored.identity_id@, stored, now);
            let event = event_codec::decode_event(command.exact_device_add_bytes)->Ok_0.unsigned;
            let same = stored.approval_request_digest is Some
                && stored.approval_request_digest->0@ == enrollment_command::approval_digest_of(
                command,
            );
            &&& checked is Ok <==> {
                &&& same
                &&& event.wire == ((1u16, 1u16), (1u16, 1u16))
                &&& event.identity_id == stored.identity_id@
                &&& event.sequence > 0
                &&& event.previous_event_hash == Some(command.expected_head_hash)
                &&& adds_the_device(event.payload, stored)
            }
            &&& !same ==> checked == Err::<(), IdentityPersistenceError>(
                IdentityPersistenceError::IdempotencyConflict,
            )
        }),
{
}

/// The payload adds the device of a challenge, with its keys, to its identity.
pub open spec fn adds_the_device(payload: Payload, stored: StoredEnrollmentChallenge) -> bool {
    match payload {
        Payload::DeviceAdd { certificate } => {
            &&& certificate.unsigned.identity_id == stored.identity_id@
            &&& certificate.unsigned.device_id == stored.target_device_id@
            &&& certificate.unsigned.device_signing_key == stored.target_device_signing_key@
            &&& certificate.unsigned.device_encryption_key == stored.target_device_encryption_key@
        },
        _ => false,
    }
}

/// Nobody approves without the capability, or under another identity.
pub proof fn law_approval_needs_the_capability(
    command: Approval,
    identity_hint: Seq<u8>,
    stored: StoredEnrollmentChallenge,
    now: i64,
)
    requires
        stored.identity_id@ != identity_hint || stored.capability_hash@
            != enrollment_command::capability_digest(command.capability),
    ensures
        enrollment::approval_check(command, identity_hint, stored, now) is Err,
{
}

/// An event approves a challenge exactly if it follows the head and adds the
/// device of the challenge, with its keys, in the name of the current root.
pub proof fn law_approval_adds_the_device_of_the_challenge(
    event: Event,
    stored: StoredEnrollmentChallenge,
    expected: Head,
    root: Seq<u8>,
)
    ensures
        enrollment::device_add_check(event, stored, expected, Some(root)) is Ok <==> {
            &&& event.unsigned.wire == ((1u16, 1u16), (1u16, 1u16))
            &&& event.unsigned.identity_id == stored.identity_id@
            &&& event.unsigned.previous_event_hash == Some(expected.hash)
            &&& event.unsigned.sequence == expected.sequence + 1
            &&& adds_the_device(event.unsigned.payload, stored)
            &&& event.unsigned.signer == root
            &&& event.unsigned.payload->DeviceAdd_certificate.unsigned.issuer_root_key == root
        },
{
}

/// A replayed approval expects the head that its event follows.
pub proof fn law_replayed_approval_follows_its_head(
    event: Event,
    stored: StoredEnrollmentChallenge,
    hash: Seq<u8>,
)
    requires
        enrollment::replay_head_check(event, stored) is Ok,
    ensures
        ({
            let expected = enrollment::replay_head(event, stored, hash);
            &&& expected.identity_id == event.unsigned.identity_id
            &&& expected.wire == event.unsigned.wire
            &&& expected.sequence + 1 == event.unsigned.sequence
            &&& expected.hash == hash
        }),
{
}

/// An approval appends exactly the event that it holds, behind the head that it
/// expects, under a key of its challenge and its idempotency key.
pub proof fn law_approval_appends_its_event(plan: AppendPlan, command: Approval, expected: Head)
    requires
        enrollment::is_append_of(plan, command, expected),
    ensures
        plan.exact_event@ == command.exact_device_add_bytes,
        plan.expected_head@ == expected,
        plan.idempotency_key_hash@ == digest::hash_in_domain(
            "dirextalk.device-enrollment-approval-idempotency.v1\0"@,
            command.challenge_id + command.idempotency_key_hash,
        ),
{
}

/// A challenge is created once: the same request finds it, and no other one does.
pub proof fn law_creation_finds_its_challenge(
    stored: StoredEnrollmentChallenge,
    command: CreateChallenge,
    request_digest: Seq<u8>,
)
    ensures
        enrollment_challenge::is_creation(stored, command, request_digest) <==> {
            &&& stored.protocol_version == 1
            &&& stored.creation_idempotency_key_hash@ == command.idempotency_key_hash
            &&& stored.identity_id@ == command.identity_id
            &&& stored.target_device_id@ == command.target_device_id
            &&& stored.target_device_signing_key@ == command.target_device_signing_key
            &&& stored.target_device_encryption_key@ == command.target_device_encryption_key
            &&& stored.request_digest@ == request_digest
            &&& stored.capability_hash@ == digest::hash_in_domain(
                "dirextalk.device-enrollment-capability.v1\0"@,
                command.capability,
            )
        },
{
}

/// A recovery request is created once: the same request finds it, and no other
/// one does.
pub proof fn law_recovery_creation_finds_its_challenge(
    stored: StoredEnrollmentChallenge,
    command: RecoveryRequest,
    request_digest: Seq<u8>,
)
    ensures
        enrollment_challenge::is_recovery_creation(stored, command, request_digest) <==> {
            &&& stored.protocol_version == 2
            &&& stored.challenge_id@ == command.request_id
            &&& stored.creation_idempotency_key_hash@ == command.idempotency_key_hash
            &&& stored.identity_id@ == command.identity_id
            &&& stored.target_device_id@ == command.target_device_id
            &&& stored.target_device_signing_key@ == command.target_device_signing_key
            &&& stored.target_device_encryption_key@ == command.recipient_encryption_key
            &&& stored.recovery_request_bytes is Some
            &&& stored.recovery_request_bytes->0@ == command.exact_request_bytes
            &&& stored.recovery_request_digest is Some
            &&& stored.recovery_request_digest->0@ == request_digest
            &&& stored.observed_head is Some
            &&& stored.observed_head->0@ == command.observed_head
            &&& stored.request_issued_at is Some
            &&& stored.request_issued_at->0@ == command.issued_at
            &&& stored.recipient_encryption_key is Some
            &&& stored.recipient_encryption_key->0@ == command.recipient_encryption_key
            &&& stored.candidate_request_signature is Some
            &&& stored.candidate_request_signature->0@ == command.candidate_signature
            &&& stored.capability_hash@ == digest::hash_in_domain(
                "dirextalk.device-enrollment-capability.v1\0"@,
                command.capability,
            )
        },
{
}

/// A stored challenge says of its approval and of its cancellation exactly what its
/// state says, and is kept until its expiry, or fifteen minutes past its approval.
pub proof fn law_stored_challenge_fits_its_state(stored: StoredEnrollmentChallenge)
    requires
        enrollment_challenge::challenge_check(stored) is Ok,
    ensures
        stored.protocol_version == 1 || stored.protocol_version == 2,
        stored.recovery_request_bytes is Some <==> stored.protocol_version == 2,
        stored.recovery_request_digest is Some <==> stored.protocol_version == 2,
        stored.observed_head is Some <==> stored.protocol_version == 2,
        stored.request_issued_at is Some <==> stored.protocol_version == 2,
        stored.recipient_encryption_key is Some <==> stored.protocol_version == 2,
        stored.candidate_request_signature is Some <==> stored.protocol_version == 2,
        stored.recipient_encryption_key is Some ==> stored.recipient_encryption_key->0@
            == stored.target_device_encryption_key@,
        stored.approved_at is Some <==> stored.state == DurableChallengeState::Approved,
        stored.approval_request_digest is Some <==> stored.state
            == DurableChallengeState::Approved,
        stored.approver_device_id is Some <==> stored.state == DurableChallengeState::Approved,
        stored.approver_session_id is Some <==> stored.state == DurableChallengeState::Approved,
        stored.approved_head is Some <==> stored.state == DurableChallengeState::Approved,
        stored.cancelled_at is Some <==> stored.state == DurableChallengeState::Cancelled,
        stored.retention_until@ == if stored.state == DurableChallengeState::Approved {
            stored.approved_at->0@ + 900_000
        } else {
            stored.expires_at@ as int
        },
{
}

/// A challenge that fits its state is accepted.
pub proof fn law_fitting_challenge_is_accepted(stored: StoredEnrollmentChallenge)
    requires
        stored.protocol_version == 1 || stored.protocol_version == 2,
        stored.recovery_request_bytes is Some <==> stored.protocol_version == 2,
        stored.recovery_request_digest is Some <==> stored.protocol_version == 2,
        stored.observed_head is Some <==> stored.protocol_version == 2,
        stored.request_issued_at is Some <==> stored.protocol_version == 2,
        stored.recipient_encryption_key is Some <==> stored.protocol_version == 2,
        stored.candidate_request_signature is Some <==> stored.protocol_version == 2,
        stored.recipient_encryption_key is Some ==> stored.recipient_encryption_key->0@
            == stored.target_device_encryption_key@,
        stored.approved_at is Some <==> stored.state == DurableChallengeState::Approved,
        stored.approval_request_digest is Some <==> stored.state
            == DurableChallengeState::Approved,
        stored.approver_device_id is Some <==> stored.state == DurableChallengeState::Approved,
        stored.approver_session_id is Some <==> stored.state == DurableChallengeState::Approved,
        stored.approved_head is Some <==> stored.state == DurableChallengeState::Approved,
        stored.cancelled_at is Some <==> stored.state == DurableChallengeState::Cancelled,
        stored.retention_until@ <= MAX_SAFE_INTEGER,
        stored.retention_until@ == if stored.state == DurableChallengeState::Approved {
            stored.approved_at->0@ + 900_000
        } else {
            stored.expires_at@ as int
        },
    ensures
        enrollment_challenge::challenge_check(stored) is Ok,
{
}

/// A challenge that was read says what its columns say.
pub proof fn law_stored_challenge_is_that_of_the_row(
    raw: EnrollmentChallengeRow,
    stored: StoredEnrollmentChallenge,
)
    requires
        enrollment_challenge::reads_as(raw, stored),
    ensures
        raw.identity_id@ == text::hex(stored.identity_id@),
        stored.challenge_id@ == raw.challenge_id@,
        stored.target_device_id@ == raw.target_device_id@,
        stored.target_device_signing_key@ == raw.target_device_signing_key@,
        stored.target_device_encryption_key@ == raw.target_device_encryption_key@,
        stored.capability_hash@ == raw.capability_hash@,
        stored.request_digest@ == raw.request_digest@,
        stored.creation_idempotency_key_hash@ == raw.creation_idempotency_key_hash@,
        stored.protocol_version == raw.protocol_version,
        stored.created_at@ == raw.created_at,
        stored.expires_at@ == raw.expires_at,
        stored.retention_until@ == raw.retention_until,
        stored.state == DurableChallengeState::Open <==> raw.state@ == "open"@,
        stored.state == DurableChallengeState::Approved <==> raw.state@ == "approved"@,
        stored.state == DurableChallengeState::Cancelled <==> raw.state@ == "cancelled"@,
        stored.approved_at is Some <==> raw.approved_at is Some,
        stored.approved_at is Some ==> stored.approved_at->0@ == raw.approved_at->0,
        stored.cancelled_at is Some <==> raw.cancelled_at is Some,
        stored.cancelled_at is Some ==> stored.cancelled_at->0@ == raw.cancelled_at->0,
        stored.approval_request_digest is Some <==> raw.approval_request_digest is Some,
        stored.approval_request_digest is Some ==> stored.approval_request_digest->0@
            == raw.approval_request_digest->0@,
        stored.approver_device_id is Some <==> raw.approver_device_id is Some,
        stored.approver_device_id is Some ==> stored.approver_device_id->0@
            == raw.approver_device_id->0@,
        stored.approver_session_id is Some <==> raw.approver_session_id is Some,
        stored.approver_session_id is Some ==> stored.approver_session_id->0@
            == raw.approver_session_id->0@,
        stored.recovery_request_bytes is Some <==> raw.recovery_request_bytes is Some,
        stored.recovery_request_bytes is Some ==> stored.recovery_request_bytes->0@
            == raw.recovery_request_bytes->0@,
        stored.recovery_request_digest is Some <==> raw.recovery_request_digest is Some,
        stored.recovery_request_digest is Some ==> stored.recovery_request_digest->0@
            == raw.recovery_request_digest->0@,
        stored.request_issued_at is Some <==> raw.request_issued_at is Some,
        stored.request_issued_at is Some ==> stored.request_issued_at->0@
            == raw.request_issued_at->0,
        stored.recipient_encryption_key is Some <==> raw.recipient_encryption_key is Some,
        stored.recipient_encryption_key is Some ==> stored.recipient_encryption_key->0@
            == raw.recipient_encryption_key->0@,
        stored.candidate_request_signature is Some <==> raw.candidate_request_signature is Some,
        stored.candidate_request_signature is Some ==> stored.candidate_request_signature->0@
            == raw.candidate_request_signature->0@,
        is_head_of_columns(
            stored.identity_id@,
            head::head_view(stored.approved_head),
            raw.approved_head_sequence,
            raw.approved_head_hash,
        ),
        is_head_of_columns(
            stored.identity_id@,
            head::head_view(stored.observed_head),
            raw.observed_head_sequence,
            raw.observed_head_hash,
        ),
{
    reveal_strlit("open");
    reveal_strlit("approved");
    reveal_strlit("cancelled");
    assert("open"@.len() == 4 && "approved"@.len() == 8 && "cancelled"@.len() == 9);
}

/// The head that two columns hold.
pub open spec fn is_head_of_columns(
    identity: Seq<u8>,
    head: Option<Head>,
    sequence: Option<i64>,
    hash: Option<Vec<u8>>,
) -> bool {
    &&& head is Some <==> sequence is Some && hash is Some
    &&& head is Some ==> {
        &&& head->0.identity_id == identity
        &&& head->0.wire == ((1u16, 1u16), (1u16, 1u16))
        &&& head->0.sequence == sequence->0 as u64
        &&& head->0.hash == hash->0@
    }
}

/// Whether two columns can hold a head, or its absence.
pub open spec fn are_head_columns(sequence: Option<i64>, hash: Option<Vec<u8>>) -> bool {
    &&& sequence is Some <==> hash is Some
    &&& sequence is Some ==> 0 <= sequence->0 <= 9_007_199_254_740_991 && hash->0@.len() == 32
}

/// A time of the row can be told.
pub open spec fn is_time(millis: int) -> bool {
    -9_007_199_254_740_991 <= millis <= 9_007_199_254_740_991
}

/// The columns of a row are accepted exactly if each can hold what it is for.
pub proof fn law_challenge_columns_are_typed(raw: EnrollmentChallengeRow)
    ensures
        enrollment_challenge::columns_error(raw) is None <==> {
            &&& id::is_identity_text(raw.identity_id@)
            &&& are_head_columns(raw.approved_head_sequence, raw.approved_head_hash)
            &&& are_head_columns(raw.observed_head_sequence, raw.observed_head_hash)
            &&& id::is_uuid_v7(raw.challenge_id@)
            &&& raw.creation_idempotency_key_hash@.len() == 32
            &&& id::is_uuid_v7(raw.target_device_id@)
            &&& key::is_public_key(raw.target_device_signing_key@)
            &&& key::is_public_key(raw.target_device_encryption_key@)
            &&& raw.capability_hash@.len() == 32
            &&& raw.request_digest@.len() == 32
            &&& raw.recovery_request_digest is Some ==> raw.recovery_request_digest->0@.len() == 32
            &&& raw.request_issued_at is Some ==> is_time(raw.request_issued_at->0 as int)
            &&& raw.recipient_encryption_key is Some ==> key::is_public_key(
                raw.recipient_encryption_key->0@,
            )
            &&& raw.candidate_request_signature is Some
                ==> raw.candidate_request_signature->0@.len() == 64
            &&& raw.state@ == "open"@ || raw.state@ == "approved"@ || raw.state@ == "cancelled"@
            &&& is_time(raw.created_at as int)
            &&& is_time(raw.expires_at as int)
            &&& raw.approved_at is Some ==> is_time(raw.approved_at->0 as int)
            &&& raw.cancelled_at is Some ==> is_time(raw.cancelled_at->0 as int)
            &&& raw.approval_request_digest is Some ==> raw.approval_request_digest->0@.len() == 32
            &&& raw.approver_device_id is Some ==> id::is_uuid_v7(raw.approver_device_id->0@)
            &&& raw.approver_session_id is Some ==> id::is_uuid_v7(raw.approver_session_id->0@)
            &&& is_time(raw.retention_until as int)
        },
{
}

/// The digest of a creation request is that of bytes which read back as the
/// identity, the device, its keys and the digest of the capability.
pub proof fn law_creation_digest_covers_the_request(command: CreateChallenge)
    requires
        command.identity_id.len() == 32,
        command.target_device_id.len() == 16,
        command.target_device_signing_key.len() == 32,
        command.target_device_encryption_key.len() == 32,
        enrollment_command::capability_digest(command.capability).len() == 32,
    ensures
        ({
            let bytes = cbor::encoding(
                record::record(enrollment_command::create_request_fields(command)),
            );
            let read = cbor::decoded(bytes);
            &&& enrollment_command::create_request_digest(command) == digest::hash_in_domain(
                "dirextalk.device-enrollment-create-request.v1\0"@,
                bytes,
            )
            &&& record::is_record(read, 6)
            &&& record::field_of(read, 1) == Value::Unsigned(1)
            &&& record::field_of(read, 2) == Value::Text(text::hex(command.identity_id))
            &&& record::field_of(read, 3) == Value::Text(
                text::hyphenated(command.target_device_id),
            )
            &&& record::field_of(read, 4) == Value::Bytes(command.target_device_signing_key)
            &&& record::field_of(read, 5) == Value::Bytes(command.target_device_encryption_key)
            &&& record::field_of(read, 6) == Value::Bytes(
                digest::hash_in_domain(
                    "dirextalk.device-enrollment-capability.v1\0"@,
                    command.capability,
                ),
            )
        }),
{
    let fields = enrollment_command::create_request_fields(command);
    record::lemma_hex_canonical(command.identity_id);
    record::lemma_uuid_canonical(command.target_device_id);
    record::lemma_record_canonical(fields, 31);
    laws::lemma_record_read(fields);
}

/// The digest of an approval is that of bytes which read back as the challenge, the
/// capability, the expected head, the event and the idempotency key.
pub proof fn law_approval_digest_covers_the_approval(command: Approval)
    requires
        command.challenge_id.len() == 16,
        command.expected_head_hash.len() == 32,
        command.idempotency_key_hash.len() == 32,
        enrollment_command::capability_digest(command.capability).len() == 32,
        digest::hash_in_domain(
            "dirextalk.device-enrollment-event.v1\0"@,
            command.exact_device_add_bytes,
        ).len() == 32,
    ensures
        ({
            let bytes = cbor::encoding(
                record::record(enrollment_command::approval_fields(command)),
            );
            let read = cbor::decoded(bytes);
            &&& enrollment_command::approval_digest_of(command) == digest::hash_in_domain(
                "dirextalk.device-enrollment-approval-request.v1\0"@,
                bytes,
            )
            &&& record::is_record(read, 6)
            &&& record::field_of(read, 1) == Value::Unsigned(1)
            &&& record::field_of(read, 2) == Value::Text(text::hyphenated(command.challenge_id))
            &&& record::field_of(read, 3) == Value::Bytes(
                digest::hash_in_domain(
                    "dirextalk.device-enrollment-capability.v1\0"@,
                    command.capability,
                ),
            )
            &&& record::field_of(read, 4) == Value::Bytes(command.expected_head_hash)
            &&& record::field_of(read, 5) == Value::Bytes(
                digest::hash_in_domain(
                    "dirextalk.device-enrollment-event.v1\0"@,
                    command.exact_device_add_bytes,
                ),
            )
            &&& record::field_of(read, 6) == Value::Bytes(command.idempotency_key_hash)
        }),
{
    let fields = enrollment_command::approval_fields(command);
    record::lemma_uuid_canonical(command.challenge_id);
    record::lemma_record_canonical(fields, 31);
    laws::lemma_record_read(fields);
}

/// A recovery request is accepted exactly if it is about the observed head of its
/// own identity, its keys differ, it lives at most five minutes, and its bytes are
/// its fields signed by the candidate's key.
pub proof fn law_recovery_request_is_signed_by_the_candidate(request: RecoveryRequest)
    ensures
        ({
            let fields = enrollment_command::request_fields_of(request);
            let key = request.target_device_signing_key;
            enrollment_command::recovery_request_check(request) is Ok <==> {
                &&& request.observed_head.identity_id == request.identity_id
                &&& request.target_device_signing_key != request.recipient_encryption_key
                &&& request.issued_at < request.expires_at <= request.issued_at + 300_000
                &&& 0 < request.exact_request_bytes.len() <= 16_384
                &&& outside::ed25519_key_accepted(key)
                &&& outside::ed25519_strict_accepted(
                    key,
                    encode_utf8("dirextalk.history-recovery-request-signature.v1\0"@)
                        + cbor::encoding(record::record(fields)),
                    request.candidate_signature,
                )
                &&& request.exact_request_bytes == cbor::encoding(
                    record::record(fields.push(Value::Bytes(request.candidate_signature))),
                )
            }
        }),
        enrollment_command::recovery_request_digest(request) == digest::hash_in_domain(
            "dirextalk.history-recovery-request-digest.v1\0"@,
            request.exact_request_bytes,
        ),
{
}

/// The bytes of a recovery request read back field by field, with the signature
/// last.
pub proof fn law_recovery_request_reads_back(request: RecoveryRequest)
    requires
        laws::is_sized_request(request),
    ensures
        ({
            let fields = enrollment_command::request_fields_of(request);
            let read = cbor::decoded(
                cbor::encoding(
                    record::record(fields.push(Value::Bytes(request.candidate_signature))),
                ),
            );
            &&& record::is_record(read, 12)
            &&& record::field_of(read, 1) == Value::Unsigned(2)
            &&& record::field_of(read, 2) == Value::Text(text::hyphenated(request.request_id))
            &&& record::field_of(read, 3) == Value::Text(text::hex(request.identity_id))
            &&& record::field_of(read, 4) == Value::Text(
                text::hyphenated(request.target_device_id),
            )
            &&& record::field_of(read, 5) == Value::Bytes(request.target_device_signing_key)
            &&& record::field_of(read, 6) == Value::Bytes(request.recipient_encryption_key)
            &&& record::field_of(read, 7) == Value::Unsigned(request.observed_head.sequence)
            &&& record::field_of(read, 8) == Value::Bytes(request.observed_head.hash)
            &&& record::field_of(read, 9) == Value::Unsigned(1)
            &&& record::field_of(read, 10) == number::millis_model(request.issued_at)
            &&& record::field_of(read, 11) == number::millis_model(request.expires_at)
            &&& record::field_of(read, 12) == Value::Bytes(request.candidate_signature)
        }),
{
    let fields = enrollment_command::request_fields_of(request);
    let signed = fields.push(Value::Bytes(request.candidate_signature));
    laws::lemma_request_canonical(request);
    laws::lemma_record_read(signed);
}

} // verus!
