//! Laws that span the decisions of the identity service.

use vstd::prelude::*;
use vstd::utf8::*;
use crate::log::authority;
use crate::log::event_codec;
use crate::log::proof_input::{
    DEVICE_CERTIFICATE_SIGNATURE_DOMAIN, GENESIS_RECOVERY_ACCEPTANCE_SIGNATURE_DOMAIN,
    IDENTITY_LOG_SIGNATURE_DOMAIN, KEY_ROTATION_ACCEPTANCE_SIGNATURE_DOMAIN,
    RECOVERY_ROTATION_AUTHORIZATION_SIGNATURE_DOMAIN,
};
use crate::log::wire_line::IDENTITY_LOG_WIRE_VERSION;
use crate::outside;
use crate::persistence::completion::{Completion, COMPLETION_SIGNATURE_DOMAIN};
use crate::persistence::completion_key::{Descriptor, COMPLETION_DESCRIPTOR_SIGNATURE_DOMAIN};
use crate::persistence::completion_receipt;
use crate::persistence::completion_receipt::{
    CompletionRows, StoredCompletion, StoredDescriptor, StoredDescriptorHead,
    COMPLETION_RECEIPT_SIGNATURE_DOMAIN,
};
use crate::persistence::enrollment;
use crate::persistence::enrollment_challenge::{DurableChallengeState, StoredEnrollmentChallenge};
use crate::persistence::enrollment_command;
use crate::persistence::enrollment_command::{
    Approval, RecoveryRequest, HISTORY_RECOVERY_REQUEST_SIGNATURE_DOMAIN,
    HISTORY_RECOVERY_REQUEST_V4_SIGNATURE_DOMAIN,
};
use crate::persistence::error::IdentityPersistenceError;
use crate::persistence::head::{Head, IdentityLogSnapshot};
use crate::persistence::key_package;
use crate::persistence::key_package::{
    ClaimCommand, ClaimProof, PublishCommand, FEDERATED_KEY_PACKAGE_CLAIM_SIGNATURE_DOMAIN,
    KEY_PACKAGE_PUBLISH_SIGNATURE_DOMAIN,
};
use crate::persistence::session;
use crate::persistence::session::{
    Credential, SessionCompletion, SessionReceipt, DEVICE_SESSION_CHALLENGE_MIN_INTERVAL_MILLIS,
    DEVICE_SESSION_SIGNATURE_DOMAIN,
};
use crate::persistence::session_decision;
use crate::persistence::session_decision::{
    SessionChallengeRow, SessionClaimRow, SessionReceiptRow, SessionRow,
};
use crate::wire::cbor;
use crate::wire::cbor_lemmas;
use crate::wire::id;
use crate::wire::number;
use crate::wire::number::MAX_SAFE_INTEGER;
use crate::wire::record;
use crate::wire::text;
use crate::wire::value::Value;

verus! {

/// The domain separators that signed bytes start with.
pub open spec fn signature_domain(i: int) -> Seq<char> {
    if i == 0 {
        IDENTITY_LOG_SIGNATURE_DOMAIN@
    } else if i == 1 {
        DEVICE_CERTIFICATE_SIGNATURE_DOMAIN@
    } else if i == 2 {
        GENESIS_RECOVERY_ACCEPTANCE_SIGNATURE_DOMAIN@
    } else if i == 3 {
        KEY_ROTATION_ACCEPTANCE_SIGNATURE_DOMAIN@
    } else if i == 4 {
        RECOVERY_ROTATION_AUTHORIZATION_SIGNATURE_DOMAIN@
    } else if i == 5 {
        DEVICE_SESSION_SIGNATURE_DOMAIN@
    } else if i == 6 {
        KEY_PACKAGE_PUBLISH_SIGNATURE_DOMAIN@
    } else if i == 7 {
        FEDERATED_KEY_PACKAGE_CLAIM_SIGNATURE_DOMAIN@
    } else if i == 8 {
        HISTORY_RECOVERY_REQUEST_SIGNATURE_DOMAIN@
    } else if i == 9 {
        HISTORY_RECOVERY_REQUEST_V4_SIGNATURE_DOMAIN@
    } else if i == 10 {
        COMPLETION_DESCRIPTOR_SIGNATURE_DOMAIN@
    } else if i == 11 {
        COMPLETION_SIGNATURE_DOMAIN@
    } else if i == 12 {
        COMPLETION_RECEIPT_SIGNATURE_DOMAIN@
    } else {
        Seq::empty()
    }
}

/// Two byte strings differ where their ASCII prefixes differ.
proof fn lemma_prefixes_differ(a: Seq<char>, b: Seq<char>, k: int, x: Seq<u8>, y: Seq<u8>)
    requires
        is_ascii_chars(a),
        is_ascii_chars(b),
        0 <= k < a.len(),
        k < b.len(),
        a[k] != b[k],
    ensures
        encode_utf8(a) + x != encode_utf8(b) + y,
{
    is_ascii_chars_encode_utf8(a);
    is_ascii_chars_encode_utf8(b);
    assert((encode_utf8(a) + x)[k] == a[k] as u8);
    assert((encode_utf8(b) + y)[k] == b[k] as u8);
}

/// The first letter of a domain after the name that all of them share.
spec fn family(i: int) -> char {
    if i == 1 || i == 5 {
        'd'
    } else if i == 6 || i == 7 {
        'k'
    } else if i >= 8 {
        'h'
    } else {
        'i'
    }
}

/// The letters by which a domain differs from the others of its family.
proof fn lemma_marks(i: int)
    requires
        0 <= i < 13,
    ensures
        is_ascii_chars(signature_domain(i)),
        signature_domain(i).len() > 27,
        signature_domain(i)[10] == family(i),
        i == 1 ==> signature_domain(i)[17] == 'c',
        i == 5 ==> signature_domain(i)[17] == 's',
        i == 6 ==> signature_domain(i)[22] == 'p',
        i == 7 ==> signature_domain(i)[22] == 'f',
        i == 0 ==> signature_domain(i)[23] == 's',
        i == 2 ==> signature_domain(i)[23] == 'g',
        i == 3 ==> signature_domain(i)[23] == 'k',
        i == 4 ==> signature_domain(i)[23] == 'r',
        i == 8 ==> signature_domain(i)[26] == '-',
        i >= 9 ==> signature_domain(i)[26] == '.',
        i == 9 ==> signature_domain(i)[27] == 'r',
        i >= 10 ==> signature_domain(i)[27] == 'c',
        i >= 10 ==> signature_domain(i).len() > 38,
        i == 10 ==> signature_domain(i)[38] == 'k',
        i == 11 ==> signature_domain(i)[38] == 'c',
        i == 12 ==> signature_domain(i)[38] == 'r',
{
    reveal_strlit("dirextalk.identity-log-signature.v1\0");
    reveal_strlit("dirextalk.device-certificate-signature.v1\0");
    reveal_strlit("dirextalk.identity-log-genesis-recovery-acceptance-signature.v1\0");
    reveal_strlit("dirextalk.identity-log-key-acceptance-signature.v1\0");
    reveal_strlit("dirextalk.identity-log-recovery-rotation-authorization-signature.v1\0");
    reveal_strlit("dirextalk.device-session-signature.v1\0");
    reveal_strlit("dirextalk.key-package-publish-signature.v1\0");
    reveal_strlit("dirextalk.key-package-federated-claim-signature.v2\0");
    reveal_strlit("dirextalk.history-recovery-request-signature.v1\0");
    reveal_strlit("dirextalk.history-recovery.request-signature.v4\0");
    reveal_strlit("dirextalk.history-recovery.completion-key-descriptor-signature.v2\0");
    reveal_strlit("dirextalk.history-recovery.completion-command-signature.v2\0");
    reveal_strlit("dirextalk.history-recovery.completion-receipt-signature.v2\0");
}

/// No signature can be replayed for another purpose: bytes that are signed under
/// one domain are never bytes that are signed under another.
pub proof fn law_signature_domains_are_distinct(i: int, j: int, x: Seq<u8>, y: Seq<u8>)
    requires
        0 <= i < 13,
        0 <= j < 13,
        i != j,
    ensures
        encode_utf8(signature_domain(i)) + x != encode_utf8(signature_domain(j)) + y,
{
    lemma_marks(i);
    lemma_marks(j);
    let k = if family(i) != family(j) {
        10
    } else if family(i) == 'd' {
        17
    } else if family(i) == 'k' {
        22
    } else if family(i) == 'i' {
        23
    } else if i == 8 || j == 8 {
        26
    } else if i == 9 || j == 9 {
        27
    } else {
        38int
    };
    lemma_prefixes_differ(signature_domain(i), signature_domain(j), k, x, y);
}

/// The parts of a publish request have the lengths of their types.
pub open spec fn is_sized_publish(command: PublishCommand) -> bool {
    &&& command.identity_id.len() == 32
    &&& command.device_id.len() == 16
    &&& command.package_id.len() == 16
    &&& command.published_head_hash.len() == 32
    &&& command.detached_signature.len() == 64
    &&& command.history_recovery_scope is Some ==> {
        &&& command.history_recovery_scope->0.request_digest.len() == 32
        &&& command.history_recovery_scope->0.scope_digest.len() == 32
    }
}

/// Equal byte forms of canonical values are those of equal values.
pub proof fn lemma_same_record(a: Seq<Value>, b: Seq<Value>)
    requires
        cbor::canonical(record::record(a)),
        cbor::canonical(record::record(b)),
        cbor::encoding(record::record(a)) == cbor::encoding(record::record(b)),
    ensures
        a == b,
{
    let depth = cbor::MAX_CANONICAL_DEPTH as nat;
    let bytes = cbor::encoding(record::record(a));
    assert(bytes.is_prefix_of(bytes));
    cbor_lemmas::lemma_encoding_unique(
        record::record(a),
        depth,
        record::record(b),
        depth,
        bytes,
    );
    record::lemma_record_fields(a);
    record::lemma_record_fields(b);
    assert(a.len() == record::record(a)->Entries_0.len());
    assert(b.len() == record::record(b)->Entries_0.len());
    assert forall|i: int| 0 <= i < a.len() implies a[i] == b[i] by {
        assert(record::field_of(record::record(a), i + 1) == a[i]);
        assert(record::field_of(record::record(b), i + 1) == b[i]);
    }
    assert(a =~= b);
}

/// The byte form of a canonical record reads back field by field.
pub proof fn lemma_record_read(fields: Seq<Value>)
    requires
        cbor::canonical(record::record(fields)),
    ensures
        cbor::is_encoded(cbor::encoding(record::record(fields))),
        cbor::decoded(cbor::encoding(record::record(fields))) == record::record(fields),
        record::is_record(record::record(fields), fields.len()),
        forall|key: int|
            1 <= key <= fields.len() ==> #[trigger] record::field_of(
                cbor::decoded(cbor::encoding(record::record(fields))),
                key,
            ) == fields[key - 1],
{
    cbor_lemmas::lemma_decoded(record::record(fields));
    record::lemma_record_fields(fields);
}

/// The exact bytes of a publish request determine everything that it says: two
/// requests with the same bytes name the same identity, device, package, head,
/// expiry, payload, signature and scope.
pub proof fn law_publish_bytes_bind_fields(a: PublishCommand, b: PublishCommand)
    requires
        is_sized_publish(a),
        is_sized_publish(b),
        key_package::is_publish_command(a),
        key_package::is_publish_command(b),
        a.exact_publish_bytes == b.exact_publish_bytes,
    ensures
        a == (PublishCommand { idempotency_key_hash: a.idempotency_key_hash, ..b }),
{
    key_package::lemma_publish_canonical(a);
    key_package::lemma_publish_canonical(b);
    let fa = key_package::publish_fields(a);
    let fb = key_package::publish_fields(b);
    lemma_same_record(fa, fb);
    assert(fa[0] == fb[0]);
    assert(fa[1] == fb[1]);
    assert(fa[2] == fb[2]);
    assert(fa[3] == fb[3]);
    assert(fa[4] == fb[4]);
    assert(fa[5] == fb[5]);
    assert(fa[6] == fb[6]);
    assert(fa[7] == fb[7]);
    assert(fa[8] == fb[8]);
    text::lemma_hex_injective(a.identity_id, b.identity_id);
    text::lemma_hyphenated_injective(a.device_id, b.device_id);
    text::lemma_hyphenated_injective(a.package_id, b.package_id);
    if a.history_recovery_scope is Some {
        assert(fa[9] == fb[9]);
        assert(fa[10] == fb[10]);
    }
}

/// The exact bytes of a claim request determine everything that it says: two
/// requests with the same bytes name the same target and scope.
pub proof fn law_claim_bytes_bind_fields(a: ClaimCommand, b: ClaimCommand)
    requires
        a.target_identity_id.len() == 32,
        a.target_device_id.len() == 16,
        b.target_identity_id.len() == 32,
        b.target_device_id.len() == 16,
        a.history_recovery_scope is Some ==> {
            &&& a.history_recovery_scope->0.request_digest.len() == 32
            &&& a.history_recovery_scope->0.scope_digest.len() == 32
        },
        b.history_recovery_scope is Some ==> {
            &&& b.history_recovery_scope->0.request_digest.len() == 32
            &&& b.history_recovery_scope->0.scope_digest.len() == 32
        },
        key_package::is_claim_command(a),
        key_package::is_claim_command(b),
        a.exact_claim_bytes == b.exact_claim_bytes,
    ensures
        a == (ClaimCommand { idempotency_key_hash: a.idempotency_key_hash, ..b }),
{
    key_package::lemma_claim_canonical(a);
    key_package::lemma_claim_canonical(b);
    let fa = key_package::claim_fields(a);
    let fb = key_package::claim_fields(b);
    lemma_same_record(fa, fb);
    assert(fa[0] == fb[0]);
    assert(fa[1] == fb[1]);
    assert(fa[2] == fb[2]);
    text::lemma_hex_injective(a.target_identity_id, b.target_identity_id);
    text::lemma_hyphenated_injective(a.target_device_id, b.target_device_id);
    if a.history_recovery_scope is Some {
        assert(fa[3] == fb[3]);
        assert(fa[4] == fb[4]);
    }
}

/// The parts of a federated proof have the lengths of their types.
pub open spec fn is_sized_proof(claim: ClaimProof) -> bool {
    &&& encode_utf8(claim.requester_identity_origin).len() <= u64::MAX
    &&& claim.requester_identity_id.len() == 32
    &&& claim.requester_device_id.len() == 16
    &&& claim.target_identity_id.len() == 32
    &&& claim.target_device_id.len() == 16
    &&& encode_utf8(claim.method).len() <= u64::MAX
    &&& encode_utf8(claim.path).len() <= u64::MAX
    &&& claim.body_digest.len() == 32
    &&& claim.nonce.len() == 32
    &&& claim.idempotency_key_hash.len() == 32
}

/// The fields of a federated proof are canonical.
pub proof fn lemma_proof_canonical(claim: ClaimProof)
    requires
        is_sized_proof(claim),
    ensures
        cbor::canonical(record::record(key_package::federated_binding_fields(claim))),
{
    record::lemma_hex_canonical(claim.requester_identity_id);
    record::lemma_uuid_canonical(claim.requester_device_id);
    record::lemma_hex_canonical(claim.target_identity_id);
    record::lemma_uuid_canonical(claim.target_device_id);
    record::lemma_record_canonical(key_package::federated_binding_fields(claim), 31);
}

/// The binding of a federated proof determines everything that the remote device
/// signs for: equal bindings name the same requester, target, request, times,
/// nonce and idempotency key.
pub proof fn law_federated_binding_binds_fields(a: ClaimProof, b: ClaimProof)
    requires
        is_sized_proof(a),
        is_sized_proof(b),
        cbor::encoding(record::record(key_package::federated_binding_fields(a)))
            == cbor::encoding(record::record(key_package::federated_binding_fields(b))),
    ensures
        a == (ClaimProof { signature: a.signature, ..b }),
{
    lemma_proof_canonical(a);
    lemma_proof_canonical(b);
    let fa = key_package::federated_binding_fields(a);
    let fb = key_package::federated_binding_fields(b);
    lemma_same_record(fa, fb);
    assert(fa[1] == fb[1]);
    assert(fa[2] == fb[2]);
    assert(fa[3] == fb[3]);
    assert(fa[4] == fb[4]);
    assert(fa[5] == fb[5]);
    assert(fa[6] == fb[6]);
    assert(fa[7] == fb[7]);
    assert(fa[8] == fb[8]);
    assert(fa[9] == fb[9]);
    assert(fa[10] == fb[10]);
    assert(fa[11] == fb[11]);
    assert(fa[12] == fb[12]);
    text::lemma_hex_injective(a.requester_identity_id, b.requester_identity_id);
    text::lemma_hyphenated_injective(a.requester_device_id, b.requester_device_id);
    text::lemma_hex_injective(a.target_identity_id, b.target_identity_id);
    text::lemma_hyphenated_injective(a.target_device_id, b.target_device_id);
}

/// The parts of a recovery request have the lengths of their types.
pub open spec fn is_sized_request(request: RecoveryRequest) -> bool {
    &&& request.request_id.len() == 16
    &&& request.identity_id.len() == 32
    &&& request.target_device_id.len() == 16
    &&& request.target_device_signing_key.len() == 32
    &&& request.recipient_encryption_key.len() == 32
    &&& request.observed_head.hash.len() == 32
    &&& request.candidate_signature.len() == 64
}

/// The fields of a recovery request are canonical.
pub proof fn lemma_request_canonical(request: RecoveryRequest)
    requires
        is_sized_request(request),
    ensures
        cbor::canonical(
            record::record(
                enrollment_command::request_fields_of(request).push(
                    Value::Bytes(request.candidate_signature),
                ),
            ),
        ),
{
    record::lemma_uuid_canonical(request.request_id);
    record::lemma_hex_canonical(request.identity_id);
    record::lemma_uuid_canonical(request.target_device_id);
    record::lemma_record_canonical(
        enrollment_command::request_fields_of(request).push(
            Value::Bytes(request.candidate_signature),
        ),
        31,
    );
}

/// The exact bytes of an accepted recovery request determine everything that it
/// says: two requests with the same bytes name the same request, identity,
/// candidate, keys, head and times, and carry the same signature.
pub proof fn law_recovery_request_binds_fields(a: RecoveryRequest, b: RecoveryRequest)
    requires
        is_sized_request(a),
        is_sized_request(b),
        enrollment_command::recovery_request_check(a) is Ok,
        enrollment_command::recovery_request_check(b) is Ok,
        a.exact_request_bytes == b.exact_request_bytes,
    ensures
        a.request_id == b.request_id,
        a.identity_id == b.identity_id,
        a.target_device_id == b.target_device_id,
        a.target_device_signing_key == b.target_device_signing_key,
        a.recipient_encryption_key == b.recipient_encryption_key,
        a.observed_head.identity_id == b.observed_head.identity_id,
        a.observed_head.sequence == b.observed_head.sequence,
        a.observed_head.hash == b.observed_head.hash,
        a.issued_at == b.issued_at,
        a.expires_at == b.expires_at,
        a.candidate_signature == b.candidate_signature,
{
    lemma_request_canonical(a);
    lemma_request_canonical(b);
    let fa = enrollment_command::request_fields_of(a).push(Value::Bytes(a.candidate_signature));
    let fb = enrollment_command::request_fields_of(b).push(Value::Bytes(b.candidate_signature));
    lemma_same_record(fa, fb);
    assert(fa[1] == fb[1]);
    assert(fa[2] == fb[2]);
    assert(fa[3] == fb[3]);
    assert(fa[4] == fb[4]);
    assert(fa[5] == fb[5]);
    assert(fa[6] == fb[6]);
    assert(fa[7] == fb[7]);
    assert(fa[9] == fb[9]);
    assert(fa[10] == fb[10]);
    assert(fa[11] == fb[11]);
    text::lemma_hyphenated_injective(a.request_id, b.request_id);
    text::lemma_hex_injective(a.identity_id, b.identity_id);
    text::lemma_hyphenated_injective(a.target_device_id, b.target_device_id);
}

/// A session transcript determines everything that the device signs for: equal
/// transcripts name the same identity, device, challenge, nonce, audience,
/// session, secret digest and expiry.
pub proof fn law_session_transcript_binds_fields(
    identity_a: Seq<u8>,
    device_a: Seq<u8>,
    challenge_a: Seq<u8>,
    nonce_a: Seq<u8>,
    audience_a: Seq<char>,
    session_a: Seq<u8>,
    secret_a: Seq<u8>,
    expires_a: i64,
    identity_b: Seq<u8>,
    device_b: Seq<u8>,
    challenge_b: Seq<u8>,
    nonce_b: Seq<u8>,
    audience_b: Seq<char>,
    session_b: Seq<u8>,
    secret_b: Seq<u8>,
    expires_b: i64,
)
    requires
        identity_a.len() == 32,
        device_a.len() == 16,
        challenge_a.len() == 16,
        nonce_a.len() == 32,
        session::is_audience(audience_a),
        session_a.len() == 16,
        secret_a.len() == 32,
        identity_b.len() == 32,
        device_b.len() == 16,
        challenge_b.len() == 16,
        nonce_b.len() == 32,
        session::is_audience(audience_b),
        session_b.len() == 16,
        secret_b.len() == 32,
        cbor::encoding(
            record::record(
                session::proof_fields(
                    identity_a,
                    device_a,
                    challenge_a,
                    nonce_a,
                    audience_a,
                    session_a,
                    secret_a,
                    expires_a,
                ),
            ),
        ) == cbor::encoding(
            record::record(
                session::proof_fields(
                    identity_b,
                    device_b,
                    challenge_b,
                    nonce_b,
                    audience_b,
                    session_b,
                    secret_b,
                    expires_b,
                ),
            ),
        ),
    ensures
        identity_a == identity_b,
        device_a == device_b,
        challenge_a == challenge_b,
        nonce_a == nonce_b,
        audience_a == audience_b,
        session_a == session_b,
        secret_a == secret_b,
        expires_a == expires_b,
{
    let fa = session::proof_fields(
        identity_a,
        device_a,
        challenge_a,
        nonce_a,
        audience_a,
        session_a,
        secret_a,
        expires_a,
    );
    let fb = session::proof_fields(
        identity_b,
        device_b,
        challenge_b,
        nonce_b,
        audience_b,
        session_b,
        secret_b,
        expires_b,
    );
    record::lemma_hex_canonical(identity_a);
    record::lemma_uuid_canonical(device_a);
    record::lemma_uuid_canonical(challenge_a);
    record::lemma_uuid_canonical(session_a);
    record::lemma_record_canonical(fa, 31);
    record::lemma_hex_canonical(identity_b);
    record::lemma_uuid_canonical(device_b);
    record::lemma_uuid_canonical(challenge_b);
    record::lemma_uuid_canonical(session_b);
    record::lemma_record_canonical(fb, 31);
    lemma_same_record(fa, fb);
    assert(fa[1] == fb[1]);
    assert(fa[2] == fb[2]);
    assert(fa[3] == fb[3]);
    assert(fa[4] == fb[4]);
    assert(fa[5] == fb[5]);
    assert(fa[6] == fb[6]);
    assert(fa[7] == fb[7]);
    assert(fa[8] == fb[8]);
    text::lemma_hex_injective(identity_a, identity_b);
    text::lemma_hyphenated_injective(device_a, device_b);
    text::lemma_hyphenated_injective(challenge_a, challenge_b);
    text::lemma_hyphenated_injective(session_a, session_b);
}

/// A session challenge is completed only while it is open and before it expires,
/// and only by a strict signature of the device's key over the whole transcript;
/// a consumed one never is.
pub proof fn law_session_challenge_completes_once(
    command: SessionCompletion,
    row: SessionChallengeRow,
    signing_key: Seq<u8>,
    now: i64,
)
    ensures
        session_decision::challenge_check(command, Some(row), signing_key, now) is Ok ==> {
            &&& row.state@ == "open"@
            &&& now < row.expires_at_ms
            &&& outside::ed25519_strict_accepted(
                signing_key,
                session_decision::completion_signed_bytes(
                    command,
                    row.audience@,
                    row.session_expires_at_ms,
                ),
                command.proof,
            )
        },
        row.state@ == "consumed"@ ==> session_decision::challenge_check(
            command,
            Some(row),
            signing_key,
            now,
        ) is Err,
{
    reveal_strlit("open");
    reveal_strlit("consumed");
    assert("open"@.len() != "consumed"@.len());
}

/// The claim is what is kept of a completion request.
pub open spec fn is_kept_claim(claim: SessionClaimRow, command: SessionCompletion) -> bool {
    &&& claim.identity_id@ == text::hex(command.identity_id)
    &&& claim.device_id@ == command.device_id
    &&& claim.challenge_id@ == command.challenge_id
    &&& claim.session_id@ == command.session_id
    &&& claim.request_digest@ == session::completion_request_digest(command)
    &&& claim.request_digest@.len() == 32
}

/// A kept completion request is recognized when it comes again, and every other
/// request that is taken for it names the same identity, device, challenge and
/// session and has the same digest.
pub proof fn law_session_completion_is_replayed(
    command: SessionCompletion,
    claim: SessionClaimRow,
    other: SessionCompletion,
)
    requires
        command.identity_id.len() == 32,
        other.identity_id.len() == 32,
        id::is_uuid_v7(command.device_id),
        id::is_uuid_v7(command.challenge_id),
        id::is_uuid_v7(command.session_id),
        is_kept_claim(claim, command),
    ensures
        session_decision::claim_check(claim, command) is Ok,
        session_decision::claim_check(claim, other) is Ok ==> {
            &&& other.identity_id == command.identity_id
            &&& other.device_id == command.device_id
            &&& other.challenge_id == command.challenge_id
            &&& other.session_id == command.session_id
            &&& session::completion_request_digest(other) == session::completion_request_digest(
                command,
            )
        },
{
    if session_decision::claim_check(claim, other) is Ok {
        text::lemma_hex_injective(other.identity_id, command.identity_id);
    }
}

/// The row is what is kept of a session receipt.
pub open spec fn is_kept_receipt(row: SessionReceiptRow, receipt: SessionReceipt) -> bool {
    &&& row.identity_id@ == text::hex(receipt.identity_id)
    &&& row.device_id@ == receipt.device_id
    &&& row.session_id@ == receipt.session_id
    &&& row.issued_head_sequence == receipt.issued_head.sequence
    &&& row.issued_head_hash@ == receipt.issued_head.hash
    &&& row.issued_at_ms == receipt.issued_at
    &&& row.expires_at_ms == receipt.expires_at
    &&& row.receipt_bytes@ == receipt.exact_bytes
    &&& row.receipt_digest@ == session::session_receipt_digest(receipt)
    &&& row.receipt_digest@.len() == 32
}

/// A kept receipt is intact and reads back as the receipt that was issued.
pub proof fn law_session_receipt_reads_back(
    identity: Seq<u8>,
    device: Seq<u8>,
    session: Seq<u8>,
    issued_head: Head,
    issued_at: i64,
    expires_at: i64,
    row: SessionReceiptRow,
)
    requires
        identity.len() == 32,
        id::is_uuid_v7(device),
        id::is_uuid_v7(session),
        issued_head.identity_id == identity,
        issued_head.wire == IDENTITY_LOG_WIRE_VERSION,
        issued_head.sequence <= MAX_SAFE_INTEGER,
        issued_head.hash.len() == 32,
        number::is_utc_millis(issued_at as int),
        number::is_utc_millis(expires_at as int),
        issued_at <= expires_at,
        is_kept_receipt(
            row,
            session::session_receipt(
                identity,
                device,
                session,
                issued_head,
                issued_at,
                expires_at,
            ),
        ),
    ensures
        session_decision::receipt_check(Some(row)) is Ok,
        session_decision::receipt_of(row) == session::session_receipt(
            identity,
            device,
            session,
            issued_head,
            issued_at,
            expires_at,
        ),
{
    id::lemma_identity_text(identity);
}

/// A session opens only with the secret whose digest is stored, and never at or
/// past its expiry.
pub proof fn law_session_opens_with_its_secret(credential: Credential, row: SessionRow, now: i64)
    requires
        session_decision::session_check(credential, Some(row), now) is Ok,
    ensures
        row.session_secret_hash@ == session::secret_digest(credential.session_secret),
        now < row.expires_at_ms,
{
}

/// Challenges for one device are issued no faster than the interval allows, and
/// only for an active device.
pub proof fn law_session_challenges_are_spaced(
    device: Seq<u8>,
    nonce: Seq<u8>,
    audience: Seq<char>,
    snapshot: Result<IdentityLogSnapshot, IdentityPersistenceError>,
    last_created_at: i64,
    now: i64,
)
    requires
        session_decision::issue_check(
            device,
            nonce,
            audience,
            snapshot,
            Some(last_created_at),
            now,
        ) is Ok,
    ensures
        now >= last_created_at + DEVICE_SESSION_CHALLENGE_MIN_INTERVAL_MILLIS,
        snapshot is Ok,
        session_decision::active_key_check(snapshot->Ok_0@, device) is Ok,
{
}

/// An enrollment ends once: a cancelled challenge is never approved, an approved
/// one is approved again only by the request with the recorded digest, and an
/// open one never at or past its expiry.
pub proof fn law_enrollment_ends_once(
    command: Approval,
    identity: Seq<u8>,
    challenge: StoredEnrollmentChallenge,
    now: i64,
)
    requires
        enrollment::approval_check(command, identity, challenge, now) is Ok,
    ensures
        challenge.state != DurableChallengeState::Cancelled,
        challenge.state == DurableChallengeState::Approved ==> authority::digest_view(
            challenge.approval_request_digest,
        ) == Some(enrollment_command::approval_digest_of(command)),
        challenge.state == DurableChallengeState::Open ==> now < challenge.expires_at@,
        challenge.capability_hash@ == enrollment_command::capability_digest(command.capability),
{
}

/// The challenge is an open one after a request has approved it.
pub open spec fn is_approved_by(
    pending: StoredEnrollmentChallenge,
    approved: StoredEnrollmentChallenge,
    command: Approval,
) -> bool {
    &&& approved.identity_id@ == pending.identity_id@
    &&& approved.target_device_id@ == pending.target_device_id@
    &&& approved.target_device_signing_key@ == pending.target_device_signing_key@
    &&& approved.target_device_encryption_key@ == pending.target_device_encryption_key@
    &&& approved.capability_hash@ == pending.capability_hash@
    &&& approved.state == DurableChallengeState::Approved
    &&& authority::digest_view(approved.approval_request_digest) == Some(
        enrollment_command::approval_digest_of(command),
    )
}

/// An approval that was appended after a head is allowed again at any time, by
/// the same request, and appends the same event after the same head.
pub proof fn law_approval_is_replayed(
    command: Approval,
    identity: Seq<u8>,
    pending: StoredEnrollmentChallenge,
    approved: StoredEnrollmentChallenge,
    current: Head,
    root: Seq<u8>,
    now: i64,
    later: i64,
)
    requires
        pending.state == DurableChallengeState::Open,
        enrollment::approval_check(command, identity, pending, now) is Ok,
        current.identity_id == pending.identity_id@,
        current.wire == IDENTITY_LOG_WIRE_VERSION,
        current.sequence < MAX_SAFE_INTEGER,
        current.hash == command.expected_head_hash,
        enrollment::device_add_check(
            event_codec::decode_event(command.exact_device_add_bytes)->Ok_0,
            pending,
            current,
            Some(root),
        ) is Ok,
        is_approved_by(pending, approved, command),
    ensures
        enrollment::approval_check(command, identity, approved, later) is Ok,
        enrollment::replay_head(
            event_codec::decode_event(command.exact_device_add_bytes)->Ok_0,
            approved,
            command.expected_head_hash,
        ) == current,
{
}

/// A recorded completion answers its own command with its receipt, whichever way
/// it is found, and any other command with a conflict; only a command to which
/// no completion is recorded can earn a receipt.
pub proof fn law_completion_is_replayed(
    command: Completion,
    stored: StoredCompletion,
    other: CompletionRows,
    descriptor: Descriptor,
    now: i64,
)
    ensures
        stored.completion_digest@ == completion_receipt::command_digest(command)
            ==> completion_receipt::replay_check(command, Some(stored)) == Ok::<
            Option<Seq<u8>>,
            IdentityPersistenceError,
        >(Some(stored.receipt_bytes@)),
        stored.completion_digest@ != completion_receipt::command_digest(command)
            ==> completion_receipt::replay_check(command, Some(stored)) == Err::<
            Option<Seq<u8>>,
            IdentityPersistenceError,
        >(IdentityPersistenceError::IdempotencyConflict),
        completion_receipt::answer_check(command, other, descriptor, now) == Ok::<
            Option<Seq<u8>>,
            IdentityPersistenceError,
        >(None) ==> other.by_completion is None && other.by_idempotency is None && other.by_request
            is None && other.completed is None,
{
}

/// Completion keys continue one another: a descriptor that is accepted after
/// another one keeps its epoch or has the next, names it as its predecessor in
/// that case, and never lowers the rollback floor.
pub proof fn law_completion_keys_continue(
    descriptor: Descriptor,
    existing: Option<StoredDescriptor>,
    head: StoredDescriptorHead,
)
    requires
        completion_receipt::descriptor_check(descriptor, existing, Some(head)) is Ok,
    ensures
        descriptor.digest == head.descriptor_digest@ ==> descriptor.epoch == head.epoch as u64,
        descriptor.digest != head.descriptor_digest@ ==> {
            &&& descriptor.epoch == completion_receipt::next_epoch(head.epoch as u64)
            &&& descriptor.previous_descriptor_digest == Some(head.descriptor_digest@)
        },
        descriptor.rollback_floor_epoch >= head.rollback_floor_epoch as u64,
{
}

} // verus!
