//! What holds of completion commands and completion keys, told by their bytes.

use vstd::prelude::*;
use vstd::utf8::*;
use crate::outside;
use crate::persistence::completion;
use crate::persistence::completion::{CatalogHeadFacts, CompletionEntryInput, NestedVerdicts};
use crate::persistence::completion_key;
use crate::persistence::completion_key::{CompletionSignerMetadata, Descriptor};
use crate::persistence::merkle;
use crate::persistence::origin;
use crate::wire::bytes;
use crate::wire::cbor;
use crate::wire::digest;
use crate::wire::key;
use crate::wire::number;
use crate::wire::record;
use crate::wire::text;
use crate::wire::value::Value;

verus! {

/// A field is a digest.
pub open spec fn is_digest(value: Value) -> bool {
    value is Bytes && value->Bytes_0.len() == 32
}

/// A field is the text of some identifier.
pub open spec fn is_any_id(value: Value) -> bool {
    value is Text && outside::uuid_parsed(value->Text_0) is Some
}

/// The identifier that a field holds.
pub open spec fn id_in(value: Value) -> Seq<u8> {
    outside::uuid_parsed(value->Text_0)->0
}

/// Two fields hold one identifier.
pub open spec fn are_same_id(a: Value, b: Value) -> bool {
    is_any_id(a) && is_any_id(b) && id_in(a) == id_in(b)
}

/// A field holds some bytes, at most so many.
pub open spec fn holds_up_to(value: Value, max: int) -> bool {
    value is Bytes && 0 < value->Bytes_0.len() <= max
}

/// The subject of a command is in form exactly if it names a completion, an identity
/// and a device, and the high-water marks follow one another over known heads.
pub proof fn law_completion_subject_is_in_form(value: Value)
    ensures
        ({
            let mark = record::field_of(value, 5);
            let next = record::field_of(value, 7);
            completion::subject_check(value) is Ok <==> {
                &&& is_any_id(record::field_of(value, 2))
                &&& record::field_of(value, 3) is Text
                &&& is_any_id(record::field_of(value, 4))
                &&& mark is Unsigned && next is Unsigned
                &&& 0 < mark->Unsigned_0 < 9_007_199_254_740_991
                &&& next->Unsigned_0 == mark->Unsigned_0 + 1
                &&& is_digest(record::field_of(value, 6))
                &&& !bytes::all_zero(record::field_of(value, 6)->Bytes_0)
                &&& is_digest(record::field_of(value, 8))
            }
        }),
{
}

/// The catalog of a command is in form exactly if it is that of the signed head.
pub proof fn law_completion_catalog_is_signed(value: Value, head: CatalogHeadFacts)
    ensures
        ({
            let generation = record::field_of(value, 10);
            let signed = record::field_of(value, 11);
            let count = record::field_of(value, 14);
            completion::catalog_check(value, Some(head)) is Ok <==> {
                &&& is_any_id(record::field_of(value, 9))
                &&& id_in(record::field_of(value, 9)) == head.catalog_id@
                &&& generation is Unsigned && generation->Unsigned_0 > 0
                &&& generation->Unsigned_0 == head.generation
                &&& holds_up_to(signed, 466)
                &&& is_digest(record::field_of(value, 12))
                &&& record::field_of(value, 12)->Bytes_0 == digest::hash_in_domain(
                    "dirextalk.recovery-scope-catalog-head.v2\0"@,
                    signed->Bytes_0,
                )
                &&& is_digest(record::field_of(value, 13))
                &&& record::field_of(value, 13)->Bytes_0 == head.merkle_root@
                &&& count is Unsigned && 1 <= count->Unsigned_0 <= 1023
                &&& count->Unsigned_0 == head.leaf_count
            }
        }),
        completion::catalog_check(value, None) is Err,
{
}

/// A field holds some bytes of limited length, and the next one their digest.
pub open spec fn is_digested(value: Value, key: int, max: int, domain: Seq<char>) -> bool {
    &&& holds_up_to(record::field_of(value, key), max)
    &&& is_digest(record::field_of(value, key + 1))
    &&& record::field_of(value, key + 1)->Bytes_0 == digest::hash_in_domain(
        domain,
        record::field_of(value, key)->Bytes_0,
    )
}

/// The documents of a command are in form exactly if each comes with its digest.
pub proof fn law_completion_documents_are_digested(value: Value, max_grant_bytes: usize)
    ensures
        completion::artifacts_check(value, max_grant_bytes) is Ok <==> {
            &&& is_digest(record::field_of(value, 15))
            &&& is_digested(
                value,
                16,
                532,
                "dirextalk.recovery-scope-catalog-handoff-preparation-digest.v2\0"@,
            )
            &&& is_digested(value, 18, 37_114, "dirextalk.history-recovery.request.v4\0"@)
            &&& is_digested(value, 20, 35_477, "dirextalk.history-recovery.manifest.v2\0"@)
            &&& is_digested(
                value,
                22,
                max_grant_bytes as int,
                "dirextalk.history-recovery.grant.v5\0"@,
            )
            &&& is_digested(
                value,
                24,
                1_049_093,
                "dirextalk.history-recovery.recipient-offer.v3\0"@,
            )
            &&& is_digested(value, 26, 366, "dirextalk.history-recovery.delivery-fact.v2\0"@)
        },
{
    lemma_digested(
        value,
        16,
        532,
        "dirextalk.recovery-scope-catalog-handoff-preparation-digest.v2\0"@,
    );
    lemma_digested(value, 18, 37_114, "dirextalk.history-recovery.request.v4\0"@);
    lemma_digested(value, 20, 35_477, "dirextalk.history-recovery.manifest.v2\0"@);
    lemma_digested(value, 22, max_grant_bytes, "dirextalk.history-recovery.grant.v5\0"@);
    lemma_digested(value, 24, 1_049_093, "dirextalk.history-recovery.recipient-offer.v3\0"@);
    lemma_digested(value, 26, 366, "dirextalk.history-recovery.delivery-fact.v2\0"@);
}

/// A document is accepted exactly if it comes with its digest.
proof fn lemma_digested(value: Value, key: int, max: usize, domain: Seq<char>)
    ensures
        completion::artifact_check(value, key, max, domain) is Ok <==> is_digested(
            value,
            key,
            max as int,
            domain,
        ),
{
}

/// The entries of a command are accepted exactly if there is one per leaf, their
/// root is the stated one, the command has a life, and its key is its own.
pub proof fn law_completion_entries_make_the_root(value: Value, idempotency: Seq<u8>)
    requires
        idempotency.len() == 32,
    ensures
        ({
            let count = record::field_of(value, 28);
            let entries = record::field_of(value, 30);
            let issued = record::field_of(value, 31);
            let expires = record::field_of(value, 32);
            completion::entries_check(value, idempotency) is Ok <==> {
                &&& count == record::field_of(value, 14)
                &&& is_digest(record::field_of(value, 29))
                &&& entries is Array
                &&& entries->Array_0.len() == count->Unsigned_0
                &&& forall|i: int|
                    0 <= i < entries->Array_0.len() ==> cbor::canonical(
                        #[trigger] entries->Array_0[i],
                    )
                &&& record::field_of(value, 29)->Bytes_0 == merkle::merkle_root(
                    merkle::leaf_digests(entries->Array_0),
                )
                &&& issued is Unsigned && number::is_utc_millis(
                    issued->Unsigned_0 as i64 as int,
                )
                &&& expires is Unsigned && number::is_utc_millis(
                    expires->Unsigned_0 as i64 as int,
                )
                &&& (issued->Unsigned_0 as i64) < (expires->Unsigned_0 as i64)
                &&& record::field_of(value, 33) == Value::Bytes(idempotency)
            }
        }),
{
}

/// The root of one entry is its digest; of more, that of their parents, each of
/// which digests two neighbours, or the last one twice.
pub proof fn law_entry_root_digests_neighbours(entries: Seq<Value>, level: Seq<Seq<u8>>, i: int)
    ensures
        merkle::leaf_digests(entries).len() == entries.len(),
        0 <= i < entries.len() ==> merkle::leaf_digests(entries)[i] == digest::hash_in_domain(
            "dirextalk.history-recovery.completion-entry.v2\0"@,
            cbor::encoding(entries[i]),
        ),
        level.len() == 1 ==> merkle::merkle_root(level) == level[0],
        level.len() > 1 ==> merkle::merkle_root(level) == merkle::merkle_root(
            merkle::parents(level),
        ),
        2 * merkle::parents(level).len() == level.len() || 2 * merkle::parents(level).len()
            == level.len() + 1,
        0 <= i < merkle::parents(level).len() ==> merkle::parents(level)[i]
            == digest::hash_in_domain(
            "dirextalk.history-recovery.completion-entry-node.v2\0"@,
            level[2 * i] + level[if 2 * i + 1 < level.len() {
                2 * i + 1
            } else {
                2 * i
            }],
        ),
{
}

/// The bytes of a field open as a record.
pub open spec fn opens_as(value: Value, count: nat) -> bool {
    &&& cbor::is_encoded(value->Bytes_0)
    &&& record::is_record(cbor::decoded(value->Bytes_0), count)
}

/// The context of a command is accepted exactly if it is digested, and is about the
/// same completion, request, identity, device, catalog and leaves.
pub proof fn law_completion_context_is_its_own(value: Value)
    ensures
        ({
            let context = cbor::decoded(record::field_of(value, 34)->Bytes_0);
            let request = cbor::decoded(record::field_of(value, 18)->Bytes_0);
            completion::context_check(value) is Ok <==> {
                &&& holds_up_to(record::field_of(value, 34), 373)
                &&& opens_as(record::field_of(value, 34), 12)
                &&& opens_as(record::field_of(value, 18), 21)
                &&& record::field_of(context, 1) == Value::Unsigned(2)
                &&& are_same_id(record::field_of(context, 3), record::field_of(value, 2))
                &&& are_same_id(record::field_of(context, 4), record::field_of(request, 2))
                &&& is_digest(record::field_of(context, 5))
                &&& record::field_of(context, 5) == record::field_of(value, 19)
                &&& record::field_of(context, 6) == record::field_of(value, 3)
                &&& are_same_id(record::field_of(context, 7), record::field_of(value, 4))
                &&& are_same_id(record::field_of(context, 8), record::field_of(value, 9))
                &&& record::field_of(context, 9) == record::field_of(value, 10)
                &&& is_digest(record::field_of(context, 10))
                &&& record::field_of(context, 10) == record::field_of(value, 12)
                &&& record::field_of(context, 11) == record::field_of(value, 14)
                &&& is_digest(record::field_of(context, 12))
                &&& record::field_of(context, 12) == record::field_of(value, 15)
                &&& is_digest(record::field_of(value, 35))
                &&& record::field_of(value, 35)->Bytes_0 == digest::hash_in_domain(
                    "dirextalk.history-recovery-completion-context.v2\0"@,
                    record::field_of(value, 34)->Bytes_0,
                )
            }
        }),
{
}

/// The request of a command is accepted exactly if its candidate signed it, and it
/// is about the same identity, device, heads, preparation and manifest.
pub proof fn law_completion_request_is_signed(value: Value)
    ensures
        ({
            let request = cbor::decoded(record::field_of(value, 18)->Bytes_0);
            let signer = record::field_of(request, 5);
            let signature = record::field_of(request, 21);
            completion::request_check(value) is Ok <==> {
                &&& opens_as(record::field_of(value, 18), 21)
                &&& signer is Bytes && signer->Bytes_0.len() == 32
                &&& signature is Bytes && signature->Bytes_0.len() == 64
                &&& outside::ed25519_accepted(
                    signer->Bytes_0,
                    encode_utf8("dirextalk.history-recovery.request-signature.v4\0"@)
                        + cbor::encoding(record::without_last(request)),
                    signature->Bytes_0,
                )
                &&& record::field_of(request, 1) == Value::Unsigned(4)
                &&& is_any_id(record::field_of(request, 2))
                &&& record::field_of(request, 3) == record::field_of(value, 3)
                &&& are_same_id(record::field_of(request, 4), record::field_of(value, 4))
                &&& record::field_of(request, 7) == record::field_of(value, 5)
                &&& is_digest(record::field_of(request, 8))
                &&& record::field_of(request, 8) == record::field_of(value, 6)
                &&& record::field_of(request, 9) == record::field_of(value, 7)
                &&& is_digest(record::field_of(request, 10))
                &&& record::field_of(request, 10) == record::field_of(value, 8)
                &&& is_digest(record::field_of(request, 14))
                &&& record::field_of(request, 14) == record::field_of(value, 17)
                &&& is_digest(record::field_of(request, 16))
                &&& record::field_of(request, 16) == record::field_of(value, 21)
            }
        }),
{
}

/// The manifest of a command fits exactly if it has the root and as many leaves as
/// the command has entries.
pub proof fn law_completion_manifest_fits(value: Value, verdicts: NestedVerdicts)
    ensures
        ({
            let manifest = cbor::decoded(record::field_of(value, 20)->Bytes_0);
            let request = cbor::decoded(record::field_of(value, 18)->Bytes_0);
            let grant = cbor::decoded(record::field_of(value, 22)->Bytes_0);
            completion::manifest_fits(value, verdicts) <==> {
                &&& verdicts.manifest is Some
                &&& Value::Bytes(verdicts.manifest->0.catalog_root_digest@)
                    == record::field_of(value, 13)
                &&& verdicts.manifest->0.leaves@.len() == record::field_of(
                    value,
                    30,
                )->Array_0.len()
                &&& opens_as(record::field_of(value, 20), 10)
                &&& holds_up_to(
                    record::field_of(manifest, 5),
                    verdicts.max_catalog_head_bytes as int,
                )
                &&& verdicts.manifest_head is Some
                &&& opens_as(record::field_of(value, 22), 36)
                &&& record::field_of(request, 17) is Unsigned
                &&& record::field_of(request, 18) is Unsigned
                &&& record::field_of(grant, 31) is Unsigned
                &&& record::field_of(grant, 32) is Unsigned
            }
        }),
{
}

/// A command is accepted exactly if its documents were, it is in form throughout,
/// every entry was accepted, and its candidate signed it.
pub proof fn law_completion_is_accepted_as_a_whole(
    bytes: Seq<u8>,
    idempotency: Seq<u8>,
    verdicts: NestedVerdicts,
)
    ensures
        ({
            let value = cbor::decoded(bytes);
            let request = cbor::decoded(record::field_of(value, 18)->Bytes_0);
            let count = record::field_of(value, 30)->Array_0.len();
            let signature = record::field_of(value, 36);
            completion::completion_check(bytes, idempotency, verdicts) is Ok <==> {
                &&& 0 < bytes.len() <= 3_593_836
                &&& cbor::is_encoded(bytes)
                &&& record::is_record(value, 36)
                &&& record::field_of(value, 1) == Value::Unsigned(2)
                &&& holds_up_to(record::field_of(value, 11), 3_593_836)
                &&& holds_up_to(record::field_of(value, 18), 3_593_836)
                &&& holds_up_to(record::field_of(value, 20), 3_593_836)
                &&& holds_up_to(record::field_of(value, 22), 3_593_836)
                &&& holds_up_to(record::field_of(value, 24), 3_593_836)
                &&& holds_up_to(record::field_of(value, 26), 3_593_836)
                &&& verdicts.catalog_head_accepted
                &&& verdicts.manifest is Some
                &&& verdicts.request_accepted
                &&& verdicts.grant_accepted
                &&& verdicts.offer_accepted
                &&& verdicts.delivery_accepted
                &&& completion::subject_check(value) is Ok
                &&& completion::catalog_check(value, verdicts.signed_head) is Ok
                &&& completion::artifacts_check(value, verdicts.max_grant_bytes) is Ok
                &&& completion::entries_check(value, idempotency) is Ok
                &&& completion::context_check(value) is Ok
                &&& completion::request_check(value) is Ok
                &&& completion::manifest_fits(value, verdicts)
                &&& verdicts.entries_accepted@.len() >= count
                &&& forall|i: int| 0 <= i < count ==> #[trigger] verdicts.entries_accepted@[i]
                &&& signature is Bytes && signature->Bytes_0.len() == 64
                &&& outside::ed25519_accepted(
                    record::field_of(request, 5)->Bytes_0,
                    encode_utf8("dirextalk.history-recovery.completion-command-signature.v2\0"@)
                        + cbor::encoding(record::without_last(value)),
                    signature->Bytes_0,
                )
            }
        }),
        completion::scope_check(bytes, idempotency, verdicts) is Err
            ==> completion::completion_check(bytes, idempotency, verdicts)
            == completion::scope_check(bytes, idempotency, verdicts),
{
}

/// A command says what its bytes say, field by field.
pub proof fn law_completion_says_what_its_bytes_say(bytes: Seq<u8>)
    ensures
        ({
            let value = cbor::decoded(bytes);
            let request = cbor::decoded(record::field_of(value, 18)->Bytes_0);
            let command = completion::completion_of(bytes);
            &&& command.completion_id == id_in(record::field_of(value, 2))
            &&& command.identity_id == record::field_of(value, 3)->Text_0
            &&& command.device_id == id_in(record::field_of(value, 4))
            &&& command.highwater == record::field_of(value, 5)->Unsigned_0
            &&& command.head_at_highwater == record::field_of(value, 6)->Bytes_0
            &&& command.highwater_next == record::field_of(value, 7)->Unsigned_0
            &&& command.final_head_hash == record::field_of(value, 8)->Bytes_0
            &&& command.catalog_id == id_in(record::field_of(value, 9))
            &&& command.catalog_generation == record::field_of(value, 10)->Unsigned_0
            &&& command.catalog_head_digest == record::field_of(value, 12)->Bytes_0
            &&& command.catalog_root_digest == record::field_of(value, 13)->Bytes_0
            &&& command.catalog_leaf_count == record::field_of(value, 14)->Unsigned_0
            &&& command.leaf_set_digest == record::field_of(value, 15)->Bytes_0
            &&& command.preparation_digest == record::field_of(value, 17)->Bytes_0
            &&& command.request_id == id_in(record::field_of(request, 2))
            &&& command.candidate_signing_key == record::field_of(request, 5)->Bytes_0
            &&& command.request_digest == record::field_of(value, 19)->Bytes_0
            &&& command.manifest_digest == record::field_of(value, 21)->Bytes_0
            &&& command.grant_digest == record::field_of(value, 23)->Bytes_0
            &&& command.offer_digest == record::field_of(value, 25)->Bytes_0
            &&& command.delivery_digest == record::field_of(value, 27)->Bytes_0
            &&& command.entry_root == record::field_of(value, 29)->Bytes_0
            &&& command.issued_at == record::field_of(value, 31)->Unsigned_0 as i64
            &&& command.expires_at == record::field_of(value, 32)->Unsigned_0 as i64
            &&& command.idempotency_digest == record::field_of(value, 33)->Bytes_0
            &&& command.exact_bytes == bytes
        }),
{
}

/// Each entry is handed out with what it has to fit: its place, its leaf, and the
/// lives of the request, the head and the grant.
pub proof fn law_entry_is_handed_out_with_its_place(
    input: CompletionEntryInput,
    value: Value,
    verdicts: NestedVerdicts,
    i: int,
)
    requires
        completion::is_entry_input(input, value, verdicts, i),
    ensures
        ({
            let request = cbor::decoded(record::field_of(value, 18)->Bytes_0);
            let grant = cbor::decoded(record::field_of(value, 22)->Bytes_0);
            &&& input.entry@ == cbor::encoding(record::field_of(value, 30)->Array_0[i])
            &&& input.expected.catalog_id@ == id_in(record::field_of(value, 9))
            &&& input.expected.generation == record::field_of(value, 10)->Unsigned_0
            &&& input.expected.index == i + 1
            &&& input.expected.completion_id@ == id_in(record::field_of(value, 2))
            &&& input.expected.count == record::field_of(value, 14)->Unsigned_0
            &&& input.expected.leaf_digest@ == verdicts.manifest->0.leaves@[i]@
            &&& input.expected.context_digest@ == record::field_of(value, 35)->Bytes_0
            &&& input.expected.head_digest@ == record::field_of(value, 12)->Bytes_0
            &&& input.expected.request_issued_at == record::field_of(request, 17)->Unsigned_0
            &&& input.expected.request_expires_at == record::field_of(request, 18)->Unsigned_0
            &&& input.expected.head_issued_at == verdicts.manifest_head->0.issued_at
            &&& input.expected.head_expires_at == verdicts.manifest_head->0.expires_at
            &&& input.expected.grant_issued_at == record::field_of(grant, 31)->Unsigned_0
            &&& input.expected.grant_expires_at == record::field_of(grant, 32)->Unsigned_0
        }),
{
}

/// A key is signed exactly for a canonical origin, an identifier in the seventh
/// version, epochs from one on with the floor at most at the epoch, and some life.
pub proof fn law_completion_key_is_signable(
    metadata: CompletionSignerMetadata,
    stated: Seq<char>,
)
    ensures
        completion_key::is_signable(metadata, stated) <==> {
            &&& origin::is_canonical_origin(stated)
            &&& 0x70 <= metadata.key_id@[6] <= 0x7f
            &&& 1 <= metadata.rollback_floor_epoch <= metadata.epoch
            &&& metadata.issued_at@ < metadata.expires_at@
        },
{
}

/// The fields of a key are its version, its origin, its identifier, the key, its
/// epochs, its life and the digest of its predecessor, or nothing.
pub proof fn law_completion_key_has_its_fields(descriptor: Descriptor, stated: Seq<char>)
    ensures
        ({
            let value = completion_key::descriptor_model(descriptor, stated);
            &&& record::is_record(value, 10)
            &&& record::field_of(value, 1) == Value::Unsigned(2)
            &&& record::field_of(value, 2) == Value::Text(stated)
            &&& record::field_of(value, 3) == Value::Text(text::hyphenated(descriptor.key_id))
            &&& record::field_of(value, 4) == Value::Bytes(descriptor.public_key)
            &&& record::field_of(value, 5) == Value::Unsigned(descriptor.epoch)
            &&& record::field_of(value, 6) == Value::Unsigned(descriptor.rollback_floor_epoch)
            &&& record::field_of(value, 7) == number::millis_model(descriptor.issued_at)
            &&& record::field_of(value, 8) == number::millis_model(descriptor.expires_at)
            &&& record::field_of(value, 9) == match descriptor.previous_descriptor_digest {
                Some(digest) => Value::Bytes(digest),
                None => Value::Null,
            }
            &&& record::field_of(value, 10) == Value::Bytes(descriptor.signature)
        }),
{
    record::lemma_record_fields(
        completion_key::descriptor_fields(descriptor, stated).push(
            Value::Bytes(descriptor.signature),
        ),
    );
}

/// A signed key is that of its metadata, verifies with its own public key, and is
/// digested.
pub proof fn law_signed_key_is_that_of_its_metadata(
    metadata: CompletionSignerMetadata,
    stated: Seq<char>,
    secret: Seq<u8>,
)
    ensures
        ({
            let signed = completion_key::signed_descriptor(metadata, stated, secret);
            let unsigned = completion_key::descriptor_fields(signed, stated);
            &&& signed.key_id == metadata.key_id@
            &&& signed.public_key == outside::ed25519_public_key_of(secret)
            &&& signed.epoch == metadata.epoch
            &&& signed.rollback_floor_epoch == metadata.rollback_floor_epoch
            &&& signed.issued_at == metadata.issued_at@
            &&& signed.expires_at == metadata.expires_at@
            &&& signed.previous_descriptor_digest is Some
                <==> metadata.previous_descriptor_digest is Some
            &&& signed.previous_descriptor_digest is Some
                ==> signed.previous_descriptor_digest->0
                == metadata.previous_descriptor_digest->0@
            &&& signed.signature == outside::ed25519_signature_of(
                secret,
                encode_utf8(
                    "dirextalk.history-recovery.completion-key-descriptor-signature.v2\0"@,
                ) + cbor::encoding(record::record(unsigned)),
            )
            &&& signed.exact_bytes == cbor::encoding(
                record::record(unsigned.push(Value::Bytes(signed.signature))),
            )
            &&& signed.digest == digest::hash_in_domain(
                "dirextalk.history-recovery.completion-key-descriptor.v2\0"@,
                signed.exact_bytes,
            )
        }),
{
    let signed = completion_key::signed_descriptor(metadata, stated, secret);
    let unsigned = completion_key::unsigned_descriptor(
        metadata,
        outside::ed25519_public_key_of(secret),
    );
    assert(completion_key::descriptor_fields(signed, stated)
        =~= completion_key::descriptor_fields(unsigned, stated));
}

/// A key reads exactly if its bytes are digested, open as a record of its fields,
/// and are signed by the key inside.
pub proof fn law_stored_key_is_read_signed(bytes: Seq<u8>, stored: Seq<u8>)
    ensures
        ({
            let value = cbor::decoded(bytes);
            let public_key = record::field_of(value, 4);
            let issued = record::field_of(value, 7);
            let expires = record::field_of(value, 8);
            let previous = record::field_of(value, 9);
            let signature = record::field_of(value, 10);
            completion_key::read_descriptor(bytes, stored) is Ok <==> {
                &&& stored.len() == 32
                &&& stored == digest::hash_in_domain(
                    "dirextalk.history-recovery.completion-key-descriptor.v2\0"@,
                    bytes,
                )
                &&& cbor::is_encoded(bytes)
                &&& record::is_record(value, 10)
                &&& is_any_id(record::field_of(value, 3))
                &&& public_key is Bytes && key::is_public_key(public_key->Bytes_0)
                &&& record::field_of(value, 5) is Unsigned
                &&& record::field_of(value, 6) is Unsigned
                &&& issued is Unsigned && number::is_utc_millis(
                    issued->Unsigned_0 as i64 as int,
                )
                &&& expires is Unsigned && number::is_utc_millis(
                    expires->Unsigned_0 as i64 as int,
                )
                &&& previous is Null || is_digest(previous)
                &&& signature is Bytes && signature->Bytes_0.len() == 64
                &&& outside::ed25519_accepted(
                    public_key->Bytes_0,
                    encode_utf8(
                        "dirextalk.history-recovery.completion-key-descriptor-signature.v2\0"@,
                    ) + cbor::encoding(record::without_last(value)),
                    signature->Bytes_0,
                )
            }
        }),
{
}

/// A key that was read says what its bytes say.
pub proof fn law_read_key_says_what_its_bytes_say(bytes: Seq<u8>, stored: Seq<u8>)
    requires
        completion_key::read_descriptor(bytes, stored) is Ok,
    ensures
        ({
            let value = cbor::decoded(bytes);
            let read = completion_key::read_descriptor(bytes, stored)->Ok_0;
            &&& read.key_id == id_in(record::field_of(value, 3))
            &&& read.public_key == record::field_of(value, 4)->Bytes_0
            &&& read.epoch == record::field_of(value, 5)->Unsigned_0
            &&& read.rollback_floor_epoch == record::field_of(value, 6)->Unsigned_0
            &&& read.issued_at == record::field_of(value, 7)->Unsigned_0 as i64
            &&& read.expires_at == record::field_of(value, 8)->Unsigned_0 as i64
            &&& record::field_of(value, 9) is Null ==> read.previous_descriptor_digest is None
            &&& record::field_of(value, 9) is Bytes ==> read.previous_descriptor_digest == Some(
                record::field_of(value, 9)->Bytes_0,
            )
            &&& read.signature == record::field_of(value, 10)->Bytes_0
            &&& read.exact_bytes == bytes
            &&& read.digest == stored
        }),
{
}

/// A key is signed exactly if its parts are in form, its own public key verifies its
/// fields, and its bytes and their digest are those of the signed fields.
pub proof fn law_signed_key_is_in_form(descriptor: Descriptor, stated: Seq<char>)
    ensures
        ({
            let fields = completion_key::descriptor_fields(descriptor, stated);
            completion_key::is_signed(descriptor, stated) <==> {
                &&& encode_utf8(stated).len() <= u64::MAX
                &&& descriptor.key_id.len() == 16
                &&& key::is_public_key(descriptor.public_key)
                &&& -9_007_199_254_740_991 <= descriptor.issued_at <= 9_007_199_254_740_991
                &&& -9_007_199_254_740_991 <= descriptor.expires_at <= 9_007_199_254_740_991
                &&& descriptor.previous_descriptor_digest is Some
                    ==> descriptor.previous_descriptor_digest->0.len() == 32
                &&& descriptor.signature.len() == 64
                &&& outside::ed25519_accepted(
                    descriptor.public_key,
                    encode_utf8(
                        "dirextalk.history-recovery.completion-key-descriptor-signature.v2\0"@,
                    ) + cbor::encoding(record::record(fields)),
                    descriptor.signature,
                )
                &&& descriptor.exact_bytes == cbor::encoding(
                    record::record(fields.push(Value::Bytes(descriptor.signature))),
                )
                &&& descriptor.digest == digest::hash_in_domain(
                    "dirextalk.history-recovery.completion-key-descriptor.v2\0"@,
                    descriptor.exact_bytes,
                )
                &&& descriptor.digest.len() == 32
            }
        }),
{
}

} // verus!
