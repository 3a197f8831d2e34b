//! What holds of completed history recoveries, told by commands, receipts and rows.

use vstd::prelude::*;
use vstd::utf8::*;
use crate::outside;
use crate::persistence::completion::Completion;
use crate::persistence::completion_key::Descriptor;
use crate::persistence::completion_receipt;
use crate::persistence::completion_receipt::{
    CompletionInsert, CompletionRows, StoredCompletion, StoredDescriptor, StoredDescriptorHead,
};
use crate::persistence::error::IdentityPersistenceError;
use crate::persistence::fields;
use crate::persistence::laws;
use crate::wire::cbor;
use crate::wire::digest;
use crate::wire::number;
use crate::wire::record;
use crate::wire::text;
use crate::wire::value::Value;

verus! {

/// The parts of a receipt have the lengths that their types give them.
pub open spec fn is_sized_receipt(command: Completion, descriptor: Descriptor, now: i64) -> bool {
    &&& completion_receipt::has_lengths(command)
    &&& descriptor.key_id.len() == 16
    &&& descriptor.digest.len() == 32
    &&& completion_receipt::is_receipt_descriptor(descriptor)
    &&& digest::hash_in_domain(
        "dirextalk.history-recovery.offer-ack.v2\0"@,
        cbor::encoding(completion_receipt::ack_model(command, now)),
    ).len() == 32
    &&& digest::hash_in_domain(
        "dirextalk.history-recovery.complete.v2\0"@,
        cbor::encoding(completion_receipt::complete_model(command, now)),
    ).len() == 32
}

/// The receipt inside the bytes that are inserted.
pub open spec fn receipt_in(insert: CompletionInsert) -> Value {
    record::field_of(cbor::decoded(insert.receipt_bytes@), 1)
}

/// The fact of delivery that a command names.
pub open spec fn fact_of(command: Completion) -> Seq<u8> {
    let delivery = record::field_of(cbor::decoded(command.exact_bytes), 26)->Bytes_0;
    fields::uuid_of(record::field_of(cbor::decoded(delivery), 2))
}

/// The digest of the context that a command names.
pub open spec fn context_of(command: Completion) -> Value {
    Value::Bytes(record::field_of(cbor::decoded(command.exact_bytes), 35)->Bytes_0)
}

/// The bytes that are inserted hold a receipt, its digest, the key that signed it,
/// the digest of that key, and a signature of the four that the key verifies.
pub proof fn law_receipt_is_signed_and_digested(
    insert: CompletionInsert,
    command: Completion,
    descriptor: Descriptor,
    now: i64,
    secret: Seq<u8>,
)
    requires
        is_sized_receipt(command, descriptor, now),
        completion_receipt::is_insert(insert, command, descriptor, now, secret),
        insert.receipt_digest@.len() == 32,
        completion_receipt::receipt_signature(command, descriptor, now, secret).len() == 64,
    ensures
        ({
            let read = cbor::decoded(insert.receipt_bytes@);
            let signature = record::field_of(read, 5);
            &&& cbor::is_encoded(insert.receipt_bytes@)
            &&& record::is_record(read, 5)
            &&& record::is_record(receipt_in(insert), 31)
            &&& record::field_of(read, 2) == Value::Bytes(insert.receipt_digest@)
            &&& insert.receipt_digest@ == digest::hash_in_domain(
                "dirextalk.history-recovery.completion-receipt.v2\0"@,
                cbor::encoding(receipt_in(insert)),
            )
            &&& record::field_of(read, 3) == cbor::decoded(descriptor.exact_bytes)
            &&& record::field_of(read, 4) == Value::Bytes(descriptor.digest)
            &&& signature is Bytes
            &&& outside::ed25519_accepted(
                outside::ed25519_public_key_of(secret),
                encode_utf8("dirextalk.history-recovery.completion-receipt-signature.v2\0"@)
                    + cbor::encoding(record::without_last(read)),
                signature->Bytes_0,
            )
            &&& insert.completion_digest@ == digest::hash_in_domain(
                "dirextalk.history-recovery.completion-command.v2\0"@,
                command.exact_bytes,
            )
            &&& insert.accepted_at@ == now
        }),
{
    lemma_insert_read(insert, command, descriptor, now, secret);
    let parts = completion_receipt::wrapper_fields(command, descriptor, now);
    let signature = completion_receipt::receipt_signature(command, descriptor, now, secret);
    let complete = parts.push(Value::Bytes(signature));
    record::lemma_without_last_record(complete);
    assert(complete.drop_last() =~= parts);
}

/// The bytes that are inserted read back as the parts of the receipt.
proof fn lemma_insert_read(
    insert: CompletionInsert,
    command: Completion,
    descriptor: Descriptor,
    now: i64,
    secret: Seq<u8>,
)
    requires
        is_sized_receipt(command, descriptor, now),
        completion_receipt::is_insert(insert, command, descriptor, now, secret),
        insert.receipt_digest@.len() == 32,
        completion_receipt::receipt_signature(command, descriptor, now, secret).len() == 64,
    ensures
        ({
            let parts = completion_receipt::wrapper_fields(command, descriptor, now);
            let signature = completion_receipt::receipt_signature(command, descriptor, now, secret);
            let complete = parts.push(Value::Bytes(signature));
            let read = cbor::decoded(insert.receipt_bytes@);
            &&& cbor::is_encoded(insert.receipt_bytes@)
            &&& cbor::canonical(record::record(complete))
            &&& insert.receipt_bytes@ == cbor::encoding(record::record(complete))
            &&& read == record::record(complete)
            &&& record::is_record(read, 5)
            &&& forall|key: int|
                1 <= key <= 5 ==> #[trigger] record::field_of(read, key) == complete[key - 1]
            &&& receipt_in(insert) == completion_receipt::receipt_model(command, descriptor, now)
            &&& record::is_record(receipt_in(insert), 31)
            &&& forall|key: int|
                1 <= key <= 31 ==> #[trigger] record::field_of(receipt_in(insert), key)
                    == completion_receipt::receipt_fields(command, descriptor, now)[key - 1]
        }),
{
    let parts = completion_receipt::wrapper_fields(command, descriptor, now);
    let signature = completion_receipt::receipt_signature(command, descriptor, now, secret);
    let complete = parts.push(Value::Bytes(signature));
    let receipt = completion_receipt::receipt_model(command, descriptor, now);
    completion_receipt::lemma_receipt_canonical(command, descriptor, now);
    record::lemma_canonical_deeper(receipt, 30, 31);
    record::lemma_record_canonical(complete, 31);
    laws::lemma_record_read(complete);
    record::lemma_record_fields(completion_receipt::receipt_fields(command, descriptor, now));
}

/// A receipt tells field by field what was completed: the completion, the identity
/// and the device, the high-water marks and the head they lead to, the catalog, the
/// request, every digest, the entries, the context, the key and the time.
pub proof fn law_receipt_tells_what_was_completed(
    insert: CompletionInsert,
    command: Completion,
    descriptor: Descriptor,
    now: i64,
    secret: Seq<u8>,
)
    requires
        is_sized_receipt(command, descriptor, now),
        completion_receipt::is_insert(insert, command, descriptor, now, secret),
        insert.receipt_digest@.len() == 32,
        completion_receipt::receipt_signature(command, descriptor, now, secret).len() == 64,
    ensures
        ({
            let receipt = receipt_in(insert);
            &&& record::is_record(receipt, 31)
            &&& record::field_of(receipt, 1) == Value::Unsigned(2)
            &&& record::field_of(receipt, 2) == Value::Text(
                text::hyphenated(command.completion_id),
            )
            &&& record::field_of(receipt, 3) == Value::Text(command.identity_id)
            &&& record::field_of(receipt, 4) == Value::Text(text::hyphenated(command.device_id))
            &&& record::field_of(receipt, 5) == Value::Unsigned(command.highwater)
            &&& record::field_of(receipt, 6) == Value::Unsigned(command.highwater_next)
            &&& record::field_of(receipt, 7) == Value::Bytes(command.final_head_hash)
            &&& record::field_of(receipt, 8) == Value::Text(text::hyphenated(command.catalog_id))
            &&& record::field_of(receipt, 9) == Value::Unsigned(command.catalog_generation)
            &&& record::field_of(receipt, 10) == Value::Bytes(command.catalog_head_digest)
            &&& record::field_of(receipt, 11) == Value::Unsigned(command.catalog_leaf_count)
            &&& record::field_of(receipt, 12) == Value::Bytes(command.leaf_set_digest)
            &&& record::field_of(receipt, 13) == Value::Text(text::hyphenated(command.request_id))
            &&& record::field_of(receipt, 14) == Value::Bytes(command.request_digest)
            &&& record::field_of(receipt, 15) == Value::Bytes(command.manifest_digest)
            &&& record::field_of(receipt, 16) == Value::Bytes(command.grant_digest)
            &&& record::field_of(receipt, 17) == Value::Bytes(command.offer_digest)
            &&& record::field_of(receipt, 18) == Value::Text(text::hyphenated(fact_of(command)))
            &&& record::field_of(receipt, 19) == Value::Bytes(command.delivery_digest)
            &&& record::field_of(receipt, 20) == Value::Bytes(command.entry_root)
            &&& record::field_of(receipt, 21) == Value::Unsigned(command.catalog_leaf_count)
            &&& record::field_of(receipt, 23) == Value::Bytes(
                digest::hash_in_domain(
                    "dirextalk.history-recovery.offer-ack.v2\0"@,
                    cbor::encoding(record::field_of(receipt, 22)),
                ),
            )
            &&& record::field_of(receipt, 25) == Value::Bytes(
                digest::hash_in_domain(
                    "dirextalk.history-recovery.complete.v2\0"@,
                    cbor::encoding(record::field_of(receipt, 24)),
                ),
            )
            &&& record::field_of(receipt, 26) == context_of(command)
            &&& record::field_of(receipt, 27) == Value::Text(text::hyphenated(descriptor.key_id))
            &&& record::field_of(receipt, 28) == Value::Bytes(descriptor.digest)
            &&& record::field_of(receipt, 29) == Value::Unsigned(descriptor.epoch)
            &&& record::field_of(receipt, 30) == number::millis_model(now)
            &&& record::field_of(receipt, 31) == Value::Unsigned(1)
        }),
{
    lemma_insert_read(insert, command, descriptor, now, secret);
}

/// The acknowledgement and the statement inside a receipt are about the same
/// completion as the receipt.
pub proof fn law_receipt_holds_its_acknowledgement(
    insert: CompletionInsert,
    command: Completion,
    descriptor: Descriptor,
    now: i64,
    secret: Seq<u8>,
)
    requires
        is_sized_receipt(command, descriptor, now),
        completion_receipt::is_insert(insert, command, descriptor, now, secret),
        insert.receipt_digest@.len() == 32,
        completion_receipt::receipt_signature(command, descriptor, now, secret).len() == 64,
    ensures
        ({
            let receipt = receipt_in(insert);
            let ack = record::field_of(receipt, 22);
            let complete = record::field_of(receipt, 24);
            &&& record::is_record(ack, 8)
            &&& record::field_of(ack, 1) == Value::Unsigned(2)
            &&& record::field_of(ack, 2) == Value::Text(text::hyphenated(command.completion_id))
            &&& record::field_of(ack, 3) == Value::Text(text::hyphenated(command.request_id))
            &&& record::field_of(ack, 4) == Value::Text(text::hyphenated(fact_of(command)))
            &&& record::field_of(ack, 5) == Value::Bytes(command.delivery_digest)
            &&& record::field_of(ack, 6) == Value::Bytes(command.offer_digest)
            &&& record::field_of(ack, 7) == context_of(command)
            &&& record::field_of(ack, 8) == number::millis_model(now)
            &&& record::is_record(complete, 11)
            &&& record::field_of(complete, 1) == Value::Unsigned(2)
            &&& record::field_of(complete, 2) == Value::Text(command.identity_id)
            &&& record::field_of(complete, 3) == Value::Text(
                text::hyphenated(command.completion_id),
            )
            &&& record::field_of(complete, 4) == Value::Text(text::hyphenated(command.request_id))
            &&& record::field_of(complete, 5) == Value::Text(text::hyphenated(command.device_id))
            &&& record::field_of(complete, 6) == Value::Bytes(command.request_digest)
            &&& record::field_of(complete, 7) == context_of(command)
            &&& record::field_of(complete, 8) == Value::Unsigned(command.catalog_leaf_count)
            &&& record::field_of(complete, 9) == Value::Bytes(command.entry_root)
            &&& record::field_of(complete, 10) == number::millis_model(now)
            &&& record::field_of(complete, 11) == Value::Unsigned(1)
        }),
{
    lemma_insert_read(insert, command, descriptor, now, secret);
    record::lemma_record_fields(completion_receipt::ack_fields(command, now));
    record::lemma_record_fields(completion_receipt::complete_fields(command, now));
}

/// A receipt determines what was completed: equal bytes come of the same
/// completion, identity, device, high-water marks, final head, catalog, request,
/// digests and entries.
pub proof fn law_receipt_determines_the_completion(
    a: CompletionInsert,
    b: CompletionInsert,
    command_a: Completion,
    command_b: Completion,
    descriptor_a: Descriptor,
    descriptor_b: Descriptor,
    now_a: i64,
    now_b: i64,
    secret_a: Seq<u8>,
    secret_b: Seq<u8>,
)
    requires
        is_sized_receipt(command_a, descriptor_a, now_a),
        is_sized_receipt(command_b, descriptor_b, now_b),
        completion_receipt::is_insert(a, command_a, descriptor_a, now_a, secret_a),
        completion_receipt::is_insert(b, command_b, descriptor_b, now_b, secret_b),
        a.receipt_digest@.len() == 32,
        b.receipt_digest@.len() == 32,
        completion_receipt::receipt_signature(command_a, descriptor_a, now_a, secret_a).len()
            == 64,
        completion_receipt::receipt_signature(command_b, descriptor_b, now_b, secret_b).len()
            == 64,
        a.receipt_bytes@ == b.receipt_bytes@,
    ensures
        command_a.completion_id == command_b.completion_id,
        command_a.identity_id == command_b.identity_id,
        command_a.device_id == command_b.device_id,
        command_a.highwater == command_b.highwater,
        command_a.highwater_next == command_b.highwater_next,
        command_a.final_head_hash == command_b.final_head_hash,
        command_a.catalog_id == command_b.catalog_id,
        command_a.catalog_generation == command_b.catalog_generation,
        command_a.catalog_head_digest == command_b.catalog_head_digest,
        command_a.catalog_leaf_count == command_b.catalog_leaf_count,
        command_a.leaf_set_digest == command_b.leaf_set_digest,
        command_a.request_id == command_b.request_id,
        command_a.request_digest == command_b.request_digest,
        command_a.manifest_digest == command_b.manifest_digest,
        command_a.grant_digest == command_b.grant_digest,
        command_a.offer_digest == command_b.offer_digest,
        command_a.delivery_digest == command_b.delivery_digest,
        command_a.entry_root == command_b.entry_root,
        fact_of(command_a) == fact_of(command_b),
        context_of(command_a) == context_of(command_b),
        descriptor_a.key_id == descriptor_b.key_id,
        descriptor_a.digest == descriptor_b.digest,
        descriptor_a.epoch == descriptor_b.epoch,
        now_a == now_b,
{
    law_receipt_tells_what_was_completed(a, command_a, descriptor_a, now_a, secret_a);
    law_receipt_tells_what_was_completed(b, command_b, descriptor_b, now_b, secret_b);
    text::lemma_hyphenated_injective(command_a.completion_id, command_b.completion_id);
    text::lemma_hyphenated_injective(command_a.device_id, command_b.device_id);
    text::lemma_hyphenated_injective(command_a.catalog_id, command_b.catalog_id);
    text::lemma_hyphenated_injective(command_a.request_id, command_b.request_id);
    text::lemma_hyphenated_injective(fact_of(command_a), fact_of(command_b));
    text::lemma_hyphenated_injective(descriptor_a.key_id, descriptor_b.key_id);
    assert(number::millis_model(now_a) == number::millis_model(now_b));
}

/// A stored completion answers exactly the command that it was stored for, with
/// the receipt that was stored; another command under the same name is a conflict.
pub proof fn law_stored_completion_answers_its_command(
    command: Completion,
    stored: StoredCompletion,
)
    ensures
        ({
            let same = stored.completion_digest@ == digest::hash_in_domain(
                "dirextalk.history-recovery.completion-command.v2\0"@,
                command.exact_bytes,
            );
            let answer = completion_receipt::replay_check(command, Some(stored));
            &&& same ==> answer == Ok::<_, IdentityPersistenceError>(
                Some(stored.receipt_bytes@),
            )
            &&& !same ==> answer == Err::<Option<Seq<u8>>, _>(
                IdentityPersistenceError::IdempotencyConflict,
            )
        }),
{
}

/// A completion that is stored, under any of its names, is answered from the first
/// row that is there, whatever the time is.
pub proof fn law_stored_completion_comes_first(
    command: Completion,
    rows: CompletionRows,
    descriptor: Descriptor,
    now: i64,
)
    ensures
        ({
            let answer = completion_receipt::answer_check(command, rows, descriptor, now);
            &&& rows.by_completion is Some ==> answer == completion_receipt::replay_check(
                command,
                rows.by_completion,
            )
            &&& rows.by_completion is None && rows.by_idempotency is Some ==> answer
                == completion_receipt::replay_check(command, rows.by_idempotency)
            &&& rows.by_completion is None && rows.by_idempotency is None && rows.by_request
                is Some ==> answer == completion_receipt::replay_check(command, rows.by_request)
        }),
{
}

/// A completion that is not stored is taken exactly while the command and the key
/// hold, for the request that it completes; for no other one.
pub proof fn law_new_completion_is_for_its_request(
    command: Completion,
    rows: CompletionRows,
    descriptor: Descriptor,
    now: i64,
)
    requires
        rows.by_completion is None,
        rows.by_idempotency is None,
        rows.by_request is None,
        rows.completed is None,
    ensures
        ({
            let answer = completion_receipt::answer_check(command, rows, descriptor, now);
            let row = rows.request->0;
            let current = {
                &&& command.issued_at <= now
                &&& now < command.expires_at
                &&& descriptor.issued_at <= now
                &&& now < descriptor.expires_at
                &&& descriptor.issued_at <= command.issued_at
                &&& command.expires_at <= descriptor.expires_at
            };
            let own = {
                &&& rows.request is Some
                &&& row.identity_id@ == command.identity_id
                &&& row.candidate_device_id@ == command.device_id
                &&& row.candidate_signing_key@ == command.candidate_signing_key
                &&& row.request_digest@ == command.request_digest
                &&& row.manifest_digest@ == command.manifest_digest
                &&& row.preparation_digest@ == command.preparation_digest
                &&& row.post_head_hash@ == command.final_head_hash
                &&& row.post_head_sequence as u64 == command.highwater_next
                &&& now < row.expires_at_ms
            };
            &&& answer is Ok <==> current && own
            &&& answer is Ok ==> answer->Ok_0 is None
            &&& !current ==> answer == Err::<Option<Seq<u8>>, _>(
                IdentityPersistenceError::RecoveryCompletionExpired,
            )
            &&& current && !own ==> answer == Err::<Option<Seq<u8>>, _>(
                IdentityPersistenceError::RecoveryCompletionInvalid,
            )
        }),
{
}

/// A session completes a recovery exactly for its own identity and device, with the
/// key of the candidate.
pub proof fn law_candidate_completes_its_own_recovery(
    command: Completion,
    identity: Seq<u8>,
    device: Seq<u8>,
    key: Seq<u8>,
)
    ensures
        completion_receipt::is_candidate_session(command, identity, device, key) <==> {
            &&& command.identity_id == text::hex(identity)
            &&& command.device_id == device
            &&& command.candidate_signing_key == key
        },
{
}

/// A field is a digest.
pub open spec fn is_digest(value: Value) -> bool {
    value is Bytes && value->Bytes_0.len() == 32
}

/// A field is the text of an identifier.
pub open spec fn is_id(value: Value, id: Seq<u8>) -> bool {
    value is Text && outside::uuid_parsed(value->Text_0) == Some(id)
}

/// A grant is accepted exactly if it is about the request, the catalog, the device
/// and the head of the completion.
pub proof fn law_grant_is_for_the_completion(grant: Value, command: Completion, fact: Seq<u8>)
    requires
        command.request_digest.len() == 32,
        command.manifest_digest.len() == 32,
        command.catalog_head_digest.len() == 32,
        command.catalog_root_digest.len() == 32,
        command.leaf_set_digest.len() == 32,
        command.final_head_hash.len() == 32,
        command.preparation_digest.len() == 32,
        command.offer_digest.len() == 32,
    ensures
        completion_receipt::grant_check(grant, command, fact) is Ok <==> {
            &&& record::field_of(grant, 1) == Value::Unsigned(5)
            &&& record::field_of(grant, 2) == Value::Text(command.identity_id)
            &&& is_id(record::field_of(grant, 3), command.request_id)
            &&& record::field_of(grant, 4) == Value::Bytes(command.request_digest)
            &&& record::field_of(grant, 5) == Value::Bytes(command.manifest_digest)
            &&& is_id(record::field_of(grant, 6), command.catalog_id)
            &&& record::field_of(grant, 7) == Value::Unsigned(command.catalog_generation)
            &&& record::field_of(grant, 9) == Value::Bytes(command.catalog_head_digest)
            &&& record::field_of(grant, 10) == Value::Bytes(command.catalog_root_digest)
            &&& record::field_of(grant, 11) == Value::Unsigned(command.catalog_leaf_count)
            &&& record::field_of(grant, 12) == Value::Bytes(command.leaf_set_digest)
            &&& is_id(record::field_of(grant, 13), command.device_id)
            &&& record::field_of(grant, 16) == Value::Unsigned(command.highwater)
            &&& record::field_of(grant, 18) == Value::Unsigned(command.highwater_next)
            &&& record::field_of(grant, 19) == Value::Bytes(command.final_head_hash)
            &&& record::field_of(grant, 21) == Value::Bytes(command.preparation_digest)
            &&& record::field_of(grant, 25) == Value::Bytes(command.offer_digest)
            &&& is_id(record::field_of(grant, 30), fact)
        },
{
}

/// A delivery is accepted exactly if it delivered the grant, while the grant held,
/// to the device of the completion.
pub proof fn law_delivery_is_of_the_grant(delivery: Value, grant: Value, command: Completion)
    requires
        command.grant_digest.len() == 32,
        command.offer_digest.len() == 32,
    ensures
        ({
            let route = record::field_of(delivery, 3);
            let copy = record::field_of(delivery, 4);
            let time = record::field_of(delivery, 10);
            let issued = record::field_of(grant, 31);
            let expires = record::field_of(grant, 32);
            completion_receipt::delivery_check(delivery, grant, command) is Ok <==> {
                &&& record::field_of(delivery, 1) == Value::Unsigned(2)
                &&& route is Text && outside::uuid_parsed(route->Text_0) is Some
                &&& is_id(record::field_of(grant, 26), outside::uuid_parsed(route->Text_0)->0)
                &&& copy is Text && outside::uuid_parsed(copy->Text_0) is Some
                &&& is_id(record::field_of(grant, 27), outside::uuid_parsed(copy->Text_0)->0)
                &&& record::field_of(delivery, 5) is Unsigned
                &&& record::field_of(delivery, 5) == record::field_of(grant, 29)
                &&& record::field_of(delivery, 6) == Value::Bytes(command.grant_digest)
                &&& record::field_of(delivery, 7) == Value::Bytes(command.offer_digest)
                &&& is_id(record::field_of(delivery, 8), command.request_id)
                &&& is_id(record::field_of(delivery, 9), command.device_id)
                &&& time is Unsigned && issued is Unsigned && expires is Unsigned
                &&& issued->Unsigned_0 <= time->Unsigned_0 <= expires->Unsigned_0
            }
        }),
{
}

/// An offer is accepted exactly if it is about the request and the catalog of the
/// completion.
pub proof fn law_offer_is_for_the_completion(offer: Value, command: Completion)
    requires
        command.request_digest.len() == 32,
        command.manifest_digest.len() == 32,
        command.catalog_head_digest.len() == 32,
        command.leaf_set_digest.len() == 32,
    ensures
        completion_receipt::offer_check(offer, command) is Ok <==> {
            &&& record::field_of(offer, 1) == Value::Unsigned(3)
            &&& is_id(record::field_of(offer, 2), command.request_id)
            &&& record::field_of(offer, 3) == Value::Bytes(command.request_digest)
            &&& record::field_of(offer, 4) == Value::Bytes(command.manifest_digest)
            &&& is_id(record::field_of(offer, 5), command.catalog_id)
            &&& record::field_of(offer, 6) == Value::Unsigned(command.catalog_generation)
            &&& record::field_of(offer, 7) == Value::Bytes(command.catalog_head_digest)
            &&& record::field_of(offer, 8) == Value::Bytes(command.leaf_set_digest)
        },
{
}

/// The bytes of a field open as a record.
pub open spec fn opens_as(value: Value, count: nat) -> bool {
    &&& value is Bytes
    &&& 0 < value->Bytes_0.len() <= 1_100_000
    &&& cbor::is_encoded(value->Bytes_0)
    &&& record::is_record(cbor::decoded(value->Bytes_0), count)
}

/// The evidence of a command is accepted exactly if its delivery, its grant and its
/// offer open, fit the command and one another, and a context is named.
pub proof fn law_evidence_is_for_the_completion(command: Completion)
    requires
        cbor::is_encoded(command.exact_bytes),
        record::is_record(cbor::decoded(command.exact_bytes), 36),
    ensures
        ({
            let value = cbor::decoded(command.exact_bytes);
            let grant = cbor::decoded(record::field_of(value, 22)->Bytes_0);
            let offer = cbor::decoded(record::field_of(value, 24)->Bytes_0);
            let delivery = cbor::decoded(record::field_of(value, 26)->Bytes_0);
            let fact = record::field_of(delivery, 2);
            completion_receipt::evidence_check(command) is Ok <==> {
                &&& opens_as(record::field_of(value, 26), 12)
                &&& opens_as(record::field_of(value, 22), 36)
                &&& opens_as(record::field_of(value, 24), 16)
                &&& fact is Text && outside::uuid_parsed(fact->Text_0) is Some
                &&& completion_receipt::grant_check(
                    grant,
                    command,
                    outside::uuid_parsed(fact->Text_0)->0,
                ) is Ok
                &&& completion_receipt::delivery_check(delivery, grant, command) is Ok
                &&& completion_receipt::offer_check(offer, command) is Ok
                &&& is_digest(record::field_of(value, 35))
            }
        }),
{
}

/// A receipt is issued exactly for evidence that fits, by a key whose descriptor
/// reads.
pub proof fn law_receipt_needs_evidence_and_a_key(command: Completion, descriptor: Descriptor)
    ensures
        completion_receipt::receipt_check(command, descriptor) is Ok <==> {
            &&& completion_receipt::evidence_check(command) is Ok
            &&& cbor::is_encoded(descriptor.exact_bytes)
            &&& cbor::canonical_within(cbor::decoded(descriptor.exact_bytes), 31)
        },
{
}

/// A key is published first at epoch one without a predecessor.
pub proof fn law_first_key_starts_the_line(descriptor: Descriptor)
    ensures
        ({
            let first = descriptor.epoch == 1 && descriptor.previous_descriptor_digest is None;
            let published = completion_receipt::descriptor_check(descriptor, None, None);
            &&& first ==> published == Ok::<bool, IdentityPersistenceError>(true)
            &&& !first ==> published == Err::<bool, _>(
                IdentityPersistenceError::RecoveryCompletionSignerMismatch,
            )
        }),
{
}

/// A key is published behind the current one exactly if it is the current one, at
/// its epoch, or names it at the next epoch; and its floor never falls.
pub proof fn law_next_key_names_the_current_one(
    descriptor: Descriptor,
    head: StoredDescriptorHead,
)
    requires
        head.descriptor_digest@.len() == 32,
        0 <= head.epoch < i64::MAX,
        0 <= head.rollback_floor_epoch,
    ensures
        ({
            let published = completion_receipt::descriptor_check(descriptor, None, Some(head));
            let same = descriptor.digest == head.descriptor_digest@ && descriptor.epoch
                == head.epoch;
            let next = {
                &&& descriptor.digest != head.descriptor_digest@
                &&& descriptor.epoch == head.epoch + 1
                &&& descriptor.previous_descriptor_digest == Some(head.descriptor_digest@)
            };
            let fits = (same || next) && head.rollback_floor_epoch
                <= descriptor.rollback_floor_epoch;
            &&& fits ==> published == Ok::<bool, IdentityPersistenceError>(true)
            &&& !fits ==> published == Err::<bool, _>(
                IdentityPersistenceError::RecoveryCompletionSignerMismatch,
            )
        }),
{
}

/// A key that is stored is published again only as it is stored, and nothing is
/// written.
pub proof fn law_stored_key_is_not_replaced(
    descriptor: Descriptor,
    existing: StoredDescriptor,
    head: StoredDescriptorHead,
)
    requires
        completion_receipt::descriptor_check(descriptor, Some(existing), Some(head)) is Ok,
    ensures
        completion_receipt::descriptor_check(descriptor, Some(existing), Some(head)) == Ok::<
            bool,
            IdentityPersistenceError,
        >(false),
        existing.descriptor_bytes@ == descriptor.exact_bytes,
        existing.epoch == descriptor.epoch as i64,
        existing.rollback_floor_epoch == descriptor.rollback_floor_epoch as i64,
        completion_receipt::descriptor_check(descriptor, None, Some(head)) is Ok,
{
}

} // verus!
