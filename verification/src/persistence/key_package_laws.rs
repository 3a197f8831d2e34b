//! What holds of one-time key packages, told by commands, rows and the state of
//! the log.

use vstd::prelude::*;
use vstd::utf8::*;
use crate::log::state::DeviceStatusV1;
use crate::outside;
use crate::persistence::error::IdentityPersistenceError;
use crate::persistence::head::IdentityLogSnapshot;
use crate::persistence::key_package;
use crate::persistence::key_package::{
    ClaimCommand, ClaimProof, PublishCommand, FEDERATED_KEY_PACKAGE_CLAIM_BINDING_HASH_DOMAIN,
    FEDERATED_KEY_PACKAGE_CLAIM_BODY_HASH_DOMAIN, FEDERATED_KEY_PACKAGE_CLAIM_SIGNATURE_DOMAIN,
    KEY_PACKAGE_BYTES_HASH_DOMAIN, KEY_PACKAGE_PUBLISH_BINDING_HASH_DOMAIN,
    KEY_PACKAGE_PUBLISH_SIGNATURE_DOMAIN,
};
use crate::persistence::key_package_decision;
use crate::persistence::key_package_decision::{
    ClaimInputs, ClaimReceiptRow, ClaimRow, ClaimStep, PublishClaimRow, PublishInputs,
};
use crate::persistence::laws;
use crate::wire::cbor;
use crate::wire::digest;
use crate::wire::id;
use crate::wire::number;
use crate::wire::number::MAX_SAFE_INTEGER;
use crate::wire::record;
use crate::wire::text;
use crate::wire::value::Value;

verus! {

/// The snapshot has the device, and the device is not revoked.
pub open spec fn has_active(snapshot: IdentityLogSnapshot, device: Seq<u8>) -> bool {
    snapshot@.devices.dom().contains(device) && snapshot@.devices[device].status
        == DeviceStatusV1::Active
}

/// A publisher is the authenticated device that the request names, and no other.
pub proof fn law_publisher_is_the_named_device(command: PublishCommand, inputs: PublishInputs)
    requires
        inputs.removed >= 0,
        inputs.authenticated is Ok,
    ensures
        ({
            let session = inputs.authenticated->Ok_0@;
            let own = session.identity_id == command.identity_id && session.device_id
                == command.device_id;
            let checked = key_package_decision::publisher_check(command, inputs);
            &&& checked is Ok <==> own
            &&& !own ==> checked == Err::<(), IdentityPersistenceError>(
                IdentityPersistenceError::DeviceAuthenticationRejected,
            )
        }),
{
}

/// Who is not authenticated publishes nothing.
pub proof fn law_unauthenticated_publisher_is_refused(
    command: PublishCommand,
    inputs: PublishInputs,
)
    requires
        inputs.authenticated is Err,
    ensures
        key_package_decision::publisher_check(command, inputs) == Err::<
            (),
            IdentityPersistenceError,
        >(inputs.authenticated->Err_0),
{
}

/// A package is published exactly if its request names the current head, expires
/// within thirty days from now, is approved where it is for a recovery, and is
/// signed by the key of the publishing device, which is active.
pub proof fn law_package_is_published_by_an_active_device(
    command: PublishCommand,
    inputs: PublishInputs,
    now: i64,
)
    requires
        inputs.snapshot is Ok,
    ensures
        ({
            let snapshot = inputs.snapshot->Ok_0;
            let key =
                snapshot@.devices[command.device_id].certificate.unsigned.device_signing_key;
            let published = key_package_decision::publish_check(command, inputs, now);
            let at_head = snapshot@.head_sequence == command.published_head_sequence
                && snapshot@.head_hash == command.published_head_hash;
            let timely = now < command.expires_at <= now + 2_592_000_000;
            let allowed = command.history_recovery_scope is Some ==> inputs.recovery_approved;
            let active = has_active(snapshot, command.device_id);
            &&& published is Ok <==> {
                &&& at_head
                &&& timely
                &&& allowed
                &&& active
                &&& outside::ed25519_key_accepted(key)
                &&& outside::ed25519_strict_accepted(
                    key,
                    key_package::publish_signed_bytes(command),
                    command.detached_signature,
                )
            }
            &&& !at_head ==> published == Err::<(), IdentityPersistenceError>(
                IdentityPersistenceError::KeyPackageConflict,
            )
            &&& at_head && !timely ==> published is Err
            &&& at_head && timely && !allowed ==> published == Err::<(), IdentityPersistenceError>(
                IdentityPersistenceError::KeyPackageUnavailable,
            )
            &&& at_head && timely && allowed && !active ==> published == Err::<
                (),
                IdentityPersistenceError,
            >(IdentityPersistenceError::DeviceAuthenticationRejected)
        }),
{
}

/// What a device signs of a package starts with its own domain and digests bytes
/// that read back as the identity, the device, the package, the head, the expiry
/// and the digest of the package; a recovery scope follows in the clear.
pub proof fn law_publish_signature_covers_the_package(command: PublishCommand)
    requires
        laws::is_sized_publish(command),
        digest::hash_in_domain(
            KEY_PACKAGE_BYTES_HASH_DOMAIN@,
            command.opaque_key_package,
        ).len() == 32,
    ensures
        ({
            let package_digest = digest::hash_in_domain(
                KEY_PACKAGE_BYTES_HASH_DOMAIN@,
                command.opaque_key_package,
            );
            let binding = key_package::publish_binding(
                command.identity_id,
                command.device_id,
                command.package_id,
                command.published_head_sequence,
                command.published_head_hash,
                command.expires_at,
                package_digest,
            );
            let read = cbor::decoded(binding);
            let general = encode_utf8(KEY_PACKAGE_PUBLISH_SIGNATURE_DOMAIN@)
                + digest::hash_in_domain(KEY_PACKAGE_PUBLISH_BINDING_HASH_DOMAIN@, binding);
            &&& key_package::publish_signed_bytes(command)
                == match command.history_recovery_scope {
                Some(scope) => general + (scope.request_digest + scope.scope_digest + encode_utf8(
                    "history_recovery"@,
                )),
                None => general,
            }
            &&& record::is_record(read, 8)
            &&& record::field_of(read, 1) == Value::Unsigned(1)
            &&& record::field_of(read, 2) == Value::Text(text::hex(command.identity_id))
            &&& record::field_of(read, 3) == Value::Text(text::hyphenated(command.device_id))
            &&& record::field_of(read, 4) == Value::Text(text::hyphenated(command.package_id))
            &&& record::field_of(read, 5) == Value::Unsigned(command.published_head_sequence)
            &&& record::field_of(read, 6) == Value::Bytes(command.published_head_hash)
            &&& record::field_of(read, 7) == number::millis_model(command.expires_at)
            &&& record::field_of(read, 8) == Value::Bytes(package_digest)
        }),
{
    let package_digest = digest::hash_in_domain(
        KEY_PACKAGE_BYTES_HASH_DOMAIN@,
        command.opaque_key_package,
    );
    let fields = key_package::publish_binding_fields(
        command.identity_id,
        command.device_id,
        command.package_id,
        command.published_head_sequence,
        command.published_head_hash,
        command.expires_at,
        package_digest,
    );
    record::lemma_hex_canonical(command.identity_id);
    record::lemma_uuid_canonical(command.device_id);
    record::lemma_uuid_canonical(command.package_id);
    record::lemma_record_canonical(fields, 31);
    laws::lemma_record_read(fields);
}

/// The exact bytes of an accepted publish request read back field by field, and
/// a request is accepted exactly where they do and it is neither empty nor too
/// large.
pub proof fn law_publish_bytes_read_back(command: PublishCommand)
    requires
        laws::is_sized_publish(command),
        command.opaque_key_package.len() <= u64::MAX,
    ensures
        ({
            let bytes = key_package::publish_encoding(command);
            let read = cbor::decoded(bytes);
            let scope = command.history_recovery_scope;
            &&& record::is_record(read, if scope is Some { 12 } else { 9 })
            &&& record::field_of(read, 1) == Value::Unsigned(if scope is Some { 2 } else { 1 })
            &&& record::field_of(read, 2) == Value::Text(text::hex(command.identity_id))
            &&& record::field_of(read, 3) == Value::Text(text::hyphenated(command.device_id))
            &&& record::field_of(read, 4) == Value::Text(text::hyphenated(command.package_id))
            &&& record::field_of(read, 5) == Value::Unsigned(command.published_head_sequence)
            &&& record::field_of(read, 6) == Value::Bytes(command.published_head_hash)
            &&& record::field_of(read, 7) == number::millis_model(command.expires_at)
            &&& record::field_of(read, 8) == Value::Bytes(command.opaque_key_package)
            &&& record::field_of(read, 9) == Value::Bytes(command.detached_signature)
            &&& scope is Some ==> {
                &&& record::field_of(read, 10) == Value::Bytes(scope->0.request_digest)
                &&& record::field_of(read, 11) == Value::Bytes(scope->0.scope_digest)
                &&& record::field_of(read, 12) == Value::Unsigned(1)
            }
            &&& key_package::is_publish_command(command) <==> {
                &&& command.published_head_sequence > 0
                &&& 0 < command.opaque_key_package.len() <= 65_536
                &&& 0 < command.exact_publish_bytes.len() <= 131_072
                &&& command.exact_publish_bytes == bytes
            }
            &&& key_package::publish_fault(command) is None <==> key_package::is_publish_command(
                command,
            )
            &&& key_package::scoped_publish_fault(command) is None
                <==> key_package::is_publish_command(command)
        }),
{
    let fields = key_package::publish_fields(command);
    key_package::lemma_publish_canonical(command);
    laws::lemma_record_read(fields);
}

/// The exact bytes of an accepted claim request read back field by field, and a
/// request is accepted exactly where they do and it is neither empty nor too
/// large.
pub proof fn law_claim_bytes_read_back(command: ClaimCommand)
    requires
        command.target_identity_id.len() == 32,
        command.target_device_id.len() == 16,
        command.history_recovery_scope is Some ==> {
            &&& command.history_recovery_scope->0.request_digest.len() == 32
            &&& command.history_recovery_scope->0.scope_digest.len() == 32
        },
    ensures
        ({
            let bytes = key_package::claim_encoding(command);
            let read = cbor::decoded(bytes);
            let scope = command.history_recovery_scope;
            &&& record::is_record(read, if scope is Some { 6 } else { 3 })
            &&& record::field_of(read, 1) == Value::Unsigned(if scope is Some { 2 } else { 1 })
            &&& record::field_of(read, 2) == Value::Text(text::hex(command.target_identity_id))
            &&& record::field_of(read, 3) == Value::Text(
                text::hyphenated(command.target_device_id),
            )
            &&& scope is Some ==> {
                &&& record::field_of(read, 4) == Value::Bytes(scope->0.request_digest)
                &&& record::field_of(read, 5) == Value::Bytes(scope->0.scope_digest)
                &&& record::field_of(read, 6) == Value::Unsigned(1)
            }
            &&& key_package::is_claim_command(command) <==> {
                &&& 0 < command.exact_claim_bytes.len() <= 16_384
                &&& command.exact_claim_bytes == bytes
            }
            &&& key_package::claim_fault(command) is None <==> key_package::is_claim_command(
                command,
            )
        }),
{
    key_package::lemma_claim_canonical(command);
    laws::lemma_record_read(key_package::claim_fields(command));
}

/// A publish receipt names the package, its digest and its expiry, and its bytes
/// read back as the same.
pub proof fn law_publish_receipt_says_what_was_published(command: PublishCommand)
    requires
        command.package_id.len() == 16,
        digest::hash_in_domain(
            KEY_PACKAGE_BYTES_HASH_DOMAIN@,
            command.opaque_key_package,
        ).len() == 32,
    ensures
        ({
            let receipt = key_package::receipt_of(command);
            let read = cbor::decoded(receipt.exact_bytes);
            let package_digest = digest::hash_in_domain(
                KEY_PACKAGE_BYTES_HASH_DOMAIN@,
                command.opaque_key_package,
            );
            &&& receipt.package_id == command.package_id
            &&& receipt.package_digest == package_digest
            &&& receipt.expires_at == command.expires_at
            &&& record::is_record(read, 4)
            &&& record::field_of(read, 1) == Value::Unsigned(1)
            &&& record::field_of(read, 2) == Value::Text(text::hyphenated(command.package_id))
            &&& record::field_of(read, 3) == Value::Bytes(package_digest)
            &&& record::field_of(read, 4) == number::millis_model(command.expires_at)
        }),
{
    let fields = key_package::publish_receipt_fields(
        command.package_id,
        digest::hash_in_domain(KEY_PACKAGE_BYTES_HASH_DOMAIN@, command.opaque_key_package),
        command.expires_at,
    );
    record::lemma_uuid_canonical(command.package_id);
    record::lemma_record_canonical(fields, 31);
    laws::lemma_record_read(fields);
}

/// An earlier publish claim lets exactly the same request through, and its
/// receipt must be whole.
pub proof fn law_publish_claim_admits_the_same_request(
    command: PublishCommand,
    claim: PublishClaimRow,
)
    requires
        claim.request_digest@.len() == 32,
        id::is_uuid_v7(claim.package_id@),
        claim.receipt_digest@.len() == 32,
    ensures
        ({
            let admitted = key_package_decision::publish_replay_check(command, claim);
            let receipt = key_package::receipt_of(command);
            let same = claim.request_digest@ == key_package::publish_request_digest(command)
                && claim.package_id@ == command.package_id;
            let whole = claim.receipt_bytes@ == receipt.exact_bytes && claim.receipt_digest@
                == key_package::publish_receipt_digest(receipt);
            &&& admitted is Ok <==> same && whole
            &&& !same ==> admitted == Err::<(), IdentityPersistenceError>(
                IdentityPersistenceError::IdempotencyConflict,
            )
            &&& same && !whole ==> admitted == Err::<(), IdentityPersistenceError>(
                IdentityPersistenceError::ReceiptIntegrity,
            )
        }),
{
}

/// An available package of an active target is always claimed, however long it
/// still lives: the claim takes that package, and can be replayed until the later
/// of the package's expiry and fifteen minutes from now.
pub proof fn law_available_package_is_taken(
    command: ClaimCommand,
    origin: Seq<char>,
    identity: Seq<u8>,
    inputs: ClaimInputs,
    now: i64,
    step: ClaimStep,
)
    requires
        command.history_recovery_scope is Some ==> origin == ""@ && identity
            == command.target_identity_id,
        inputs.removed >= 0,
        inputs.claim is None,
        inputs.target is Ok,
        has_active(inputs.target->Ok_0, command.target_device_id),
        inputs.package is Some,
        id::is_uuid_v7((inputs.package->0).package_id@),
        -MAX_SAFE_INTEGER <= (inputs.package->0).expires_at_ms <= MAX_SAFE_INTEGER,
        -MAX_SAFE_INTEGER <= now + 900_000 <= MAX_SAFE_INTEGER,
    ensures
        key_package_decision::claim_check(command, origin, identity, inputs, now) is Ok,
        key_package_decision::is_claim_step(step, inputs, now) ==> {
            let package = inputs.package->0;
            &&& step is Take
            &&& step->Take_package_id@ == package.package_id@
            &&& step->Take_exact_publish_bytes@ == package.exact_publish_bytes@
            &&& step->Take_retention_until@ >= package.expires_at_ms
            &&& step->Take_retention_until@ >= now + 900_000
            &&& step->Take_retention_until@ == package.expires_at_ms
                || step->Take_retention_until@ == now + 900_000
        },
{
}

/// Nothing is claimed without a package, or from a device that is not active: both
/// are unavailable, whatever else holds.
pub proof fn law_inactive_target_yields_no_package(
    command: ClaimCommand,
    origin: Seq<char>,
    identity: Seq<u8>,
    inputs: ClaimInputs,
    now: i64,
)
    requires
        command.history_recovery_scope is Some ==> origin == ""@ && identity
            == command.target_identity_id,
        inputs.removed >= 0,
        inputs.claim is None,
        inputs.target is Ok,
        !has_active(inputs.target->Ok_0, command.target_device_id) || inputs.package is None,
    ensures
        key_package_decision::claim_check(command, origin, identity, inputs, now) == Err::<
            (),
            IdentityPersistenceError,
        >(IdentityPersistenceError::KeyPackageUnavailable),
{
}

/// A scoped claim from another node or identity finds nothing, whatever is there.
pub proof fn law_foreign_scoped_claim_finds_nothing(
    command: ClaimCommand,
    origin: Seq<char>,
    identity: Seq<u8>,
    inputs: ClaimInputs,
    now: i64,
)
    requires
        command.history_recovery_scope is Some,
        origin != ""@ || identity != command.target_identity_id,
    ensures
        key_package_decision::claim_check(command, origin, identity, inputs, now) == Err::<
            (),
            IdentityPersistenceError,
        >(IdentityPersistenceError::KeyPackageUnavailable),
{
}

/// An earlier claim is replayed exactly to the same request, to the receipt that
/// was stored, and takes no other package.
pub proof fn law_earlier_claim_is_replayed_to_its_receipt(
    command: ClaimCommand,
    origin: Seq<char>,
    identity: Seq<u8>,
    inputs: ClaimInputs,
    now: i64,
    step: ClaimStep,
)
    requires
        command.history_recovery_scope is Some ==> origin == ""@ && identity
            == command.target_identity_id,
        inputs.removed >= 0,
        inputs.claim is Some,
        id::is_uuid_v7((inputs.claim->0).target_device_id@),
        (inputs.claim->0).request_digest@.len() == 32,
        (inputs.claim->0).recovery_request_digest is Some ==> (
        inputs.claim->0).recovery_request_digest->0@.len() == 32,
        (inputs.claim->0).recovery_scope_digest is Some ==> (
        inputs.claim->0).recovery_scope_digest->0@.len() == 32,
        inputs.receipt is Some,
        0 < (inputs.receipt->0).receipt_bytes@.len() <= 131_072,
        (inputs.receipt->0).receipt_digest@ == key_package::claim_receipt_digest(
            (inputs.receipt->0).receipt_bytes@,
        ),
        (inputs.receipt->0).receipt_digest@.len() == 32,
    ensures
        ({
            let claim = inputs.claim->0;
            let scope = command.history_recovery_scope;
            let checked = key_package_decision::claim_check(
                command,
                origin,
                identity,
                inputs,
                now,
            );
            let same = {
                &&& claim.target_identity_id@ == text::hex(command.target_identity_id)
                &&& claim.target_device_id@ == command.target_device_id
                &&& claim.request_digest@ == key_package::claim_request_digest(command)
                &&& claim.purpose@ == if scope is Some {
                    "history_recovery"@
                } else {
                    "general"@
                }
                &&& claim.recovery_request_digest is Some <==> scope is Some
                &&& scope is Some ==> claim.recovery_request_digest->0@ == scope->0.request_digest
                &&& claim.recovery_scope_digest is Some <==> scope is Some
                &&& scope is Some ==> claim.recovery_scope_digest->0@ == scope->0.scope_digest
            };
            &&& checked is Ok <==> same
            &&& !same ==> checked == Err::<(), IdentityPersistenceError>(
                IdentityPersistenceError::IdempotencyConflict,
            )
            &&& key_package_decision::is_claim_step(step, inputs, now) ==> step is Replay
                && step->Replay_0@ == (inputs.receipt->0).receipt_bytes@
        }),
{
}

/// A stored claim receipt is handed out only where it is whole.
pub proof fn law_claim_receipt_must_be_whole(receipt: ClaimReceiptRow)
    requires
        receipt.receipt_digest@.len() == 32,
    ensures
        ({
            let checked = key_package_decision::claim_receipt_check(Some(receipt));
            let sized = 0 < receipt.receipt_bytes@.len() <= 131_072;
            let whole = receipt.receipt_digest@ == digest::hash_in_domain(
                "dirextalk.key-package-claim-receipt.v1\0"@,
                receipt.receipt_bytes@,
            );
            &&& checked is Ok <==> sized && whole
            &&& sized && !whole ==> checked == Err::<(), IdentityPersistenceError>(
                IdentityPersistenceError::ReceiptIntegrity,
            )
        }),
{
}

/// A federated proof stands for exactly one request: it names the target, the
/// method, the path, the body and the idempotency key of the request, holds now
/// and for at most its lifetime, and is signed by the requester's device.
pub proof fn law_federated_proof_is_for_one_request(
    claim: ClaimProof,
    command: ClaimCommand,
    now: i64,
    signing_key: Seq<u8>,
)
    ensures
        key_package::is_proof_of(claim, command, now, signing_key) <==> {
            &&& claim.target_identity_id == command.target_identity_id
            &&& claim.target_device_id == command.target_device_id
            &&& claim.method == "POST"@
            &&& claim.path == "/v2/key-packages/claim"@
            &&& claim.body_digest == digest::hash_in_domain(
                FEDERATED_KEY_PACKAGE_CLAIM_BODY_HASH_DOMAIN@,
                command.exact_claim_bytes,
            )
            &&& claim.idempotency_key_hash == command.idempotency_key_hash
            &&& claim.issued_at <= now
            &&& now < claim.expires_at
            &&& claim.expires_at <= claim.issued_at + 300_000
            &&& outside::ed25519_strict_accepted(
                signing_key,
                encode_utf8(FEDERATED_KEY_PACKAGE_CLAIM_SIGNATURE_DOMAIN@)
                    + digest::hash_in_domain(
                    FEDERATED_KEY_PACKAGE_CLAIM_BINDING_HASH_DOMAIN@,
                    cbor::encoding(record::record(key_package::federated_binding_fields(claim))),
                ),
                claim.signature,
            )
        },
{
}

/// A request is known by the digest of its exact bytes, each kind in its own domain,
/// and so is a receipt.
pub proof fn law_package_digests_cover_exact_bytes(publish: PublishCommand, claim: ClaimCommand)
    ensures
        key_package::publish_request_digest(publish) == digest::hash_in_domain(
            "dirextalk.key-package-publish-request.v1\0"@,
            publish.exact_publish_bytes,
        ),
        key_package::claim_request_digest(claim) == digest::hash_in_domain(
            "dirextalk.key-package-claim-request.v1\0"@,
            claim.exact_claim_bytes,
        ),
        key_package::publish_receipt_digest(key_package::receipt_of(publish))
            == digest::hash_in_domain(
            "dirextalk.key-package-publish-receipt.v1\0"@,
            key_package::receipt_of(publish).exact_bytes,
        ),
{
}

/// What was recorded of a publish or a claim is what its request says.
pub proof fn law_recorded_rows_are_those_of_the_request(
    publish: PublishCommand,
    published: PublishClaimRow,
    claim: ClaimCommand,
    claimed: ClaimRow,
)
    ensures
        key_package_decision::is_recorded_publish(publish, published) ==> {
            &&& published.request_digest@ == key_package::publish_request_digest(publish)
            &&& published.package_id@ == publish.package_id
            &&& published.receipt_bytes@ == key_package::receipt_of(publish).exact_bytes
            &&& published.receipt_digest@ == key_package::publish_receipt_digest(
                key_package::receipt_of(publish),
            )
        },
        key_package_decision::is_recorded_claim(claim, claimed) ==> {
            let scope = claim.history_recovery_scope;
            &&& claimed.target_identity_id@ == text::hex(claim.target_identity_id)
            &&& claimed.target_device_id@ == claim.target_device_id
            &&& claimed.request_digest@ == key_package::claim_request_digest(claim)
            &&& claimed.purpose@ == if scope is Some {
                "history_recovery"@
            } else {
                "general"@
            }
            &&& claimed.recovery_request_digest is Some <==> scope is Some
            &&& scope is Some ==> claimed.recovery_request_digest->0@ == scope->0.request_digest
            &&& claimed.recovery_scope_digest is Some <==> scope is Some
            &&& scope is Some ==> claimed.recovery_scope_digest->0@ == scope->0.scope_digest
        },
{
}

/// The origin of a requester is plain printable text of limited length.
pub proof fn law_requester_origin_is_plain(origin: Seq<char>)
    ensures
        key_package::is_plain_origin(origin) <==> {
            &&& 8 <= encode_utf8(origin).len() <= 512
            &&& forall|i: int|
                0 <= i < encode_utf8(origin).len() ==> 0x21 <= #[trigger] encode_utf8(origin)[i]
                    <= 0x7e
        },
{
}

/// What a remote device signs reads back field by field.
pub proof fn law_federated_binding_reads_back(claim: ClaimProof)
    requires
        laws::is_sized_proof(claim),
    ensures
        ({
            let read = cbor::decoded(
                cbor::encoding(record::record(key_package::federated_binding_fields(claim))),
            );
            &&& record::is_record(read, 13)
            &&& record::field_of(read, 1) == Value::Unsigned(2)
            &&& record::field_of(read, 2) == Value::Text(claim.requester_identity_origin)
            &&& record::field_of(read, 3) == Value::Text(text::hex(claim.requester_identity_id))
            &&& record::field_of(read, 4) == Value::Text(
                text::hyphenated(claim.requester_device_id),
            )
            &&& record::field_of(read, 5) == Value::Text(text::hex(claim.target_identity_id))
            &&& record::field_of(read, 6) == Value::Text(text::hyphenated(claim.target_device_id))
            &&& record::field_of(read, 7) == Value::Text(claim.method)
            &&& record::field_of(read, 8) == Value::Text(claim.path)
            &&& record::field_of(read, 9) == Value::Bytes(claim.body_digest)
            &&& record::field_of(read, 10) == number::millis_model(claim.issued_at)
            &&& record::field_of(read, 11) == number::millis_model(claim.expires_at)
            &&& record::field_of(read, 12) == Value::Bytes(claim.nonce)
            &&& record::field_of(read, 13) == Value::Bytes(claim.idempotency_key_hash)
        }),
{
    laws::lemma_proof_canonical(claim);
    laws::lemma_record_read(key_package::federated_binding_fields(claim));
}

} // verus!
