//! What holds of admitted history-recovery requests, told by commands, rows and the
//! state of the log.

use vstd::prelude::*;
use crate::log::event_codec;
use crate::log::state::{DeviceStatusV1, LogState};
use crate::outside;
use crate::persistence::enrollment;
use crate::persistence::enrollment_challenge::{DurableChallengeState, StoredEnrollmentChallenge};
use crate::persistence::enrollment_command::CreateHistoryRecoveryRequestV4Command;
use crate::persistence::error::IdentityPersistenceError;
use crate::persistence::head;
use crate::persistence::head::Head;
use crate::persistence::laws;
use crate::persistence::recovery_request;
use crate::persistence::recovery_request::{
    AdmissionInputs, AdmittedRequest, CatalogRow, PreparationRow, ProviderResponse,
    SignedCatalogHead,
};
use crate::wire::cbor;
use crate::wire::digest;
use crate::wire::digest::Sha256Digest;
use crate::wire::id;
use crate::wire::key;
use crate::wire::number;
use crate::wire::record;
use crate::wire::text;
use crate::wire::value::Value;

verus! {

/// The head of an identity at a sequence and hash.
pub open spec fn is_head_at(head: Head, identity: Seq<u8>, sequence: u64, hash: Seq<u8>) -> bool {
    &&& head.identity_id == identity
    &&& head.wire == ((1u16, 1u16), (1u16, 1u16))
    &&& head.sequence == sequence
    &&& head.hash == hash
}

/// The state has the device, active, with the key.
pub open spec fn is_active_with(state: LogState, device: Seq<u8>, key: Seq<u8>) -> bool {
    &&& state.devices.dom().contains(device)
    &&& state.devices[device].status == DeviceStatusV1::Active
    &&& state.devices[device].certificate.unsigned.device_signing_key == key
}

/// A stored request answers the same request again: the same bytes, digest and key;
/// and no other one.
pub proof fn law_admitted_request_is_recognized(
    command: CreateHistoryRecoveryRequestV4Command,
    existing: AdmittedRequest,
)
    ensures
        recovery_request::is_admitted(command, existing) <==> {
            &&& existing.request_digest@ == command.request_digest@
            &&& existing.request_bytes@ == command.exact_request_bytes@
            &&& existing.idempotency_digest@ == command.idempotency_digest@
        },
{
}

/// A request is taken exactly for an approved enrollment of the same candidate, at
/// the head that the approval reached, within the life of the enrollment.
pub proof fn law_request_follows_an_approved_enrollment(
    command: CreateHistoryRecoveryRequestV4Command,
    challenge: StoredEnrollmentChallenge,
    now: i64,
)
    ensures
        ({
            let checked = recovery_request::challenge_stage(command, challenge, now);
            let linked = challenge.identity_id@ == command.identity_id@
                && challenge.protocol_version == 1;
            let cancelled = challenge.cancelled_at is Some || challenge.state
                == DurableChallengeState::Cancelled;
            &&& checked is Ok <==> {
                &&& linked
                &&& !cancelled
                &&& challenge.state == DurableChallengeState::Approved
                &&& now < command.expires_at@
                &&& command.post_head_sequence@ > 0
                &&& challenge.approved_head is Some
                &&& is_head_at(
                    challenge.approved_head->0@,
                    command.identity_id@,
                    command.post_head_sequence@,
                    command.post_head_hash@,
                )
                &&& challenge.target_device_id@ == command.target_device_id@
                &&& challenge.target_device_signing_key@ == command.target_device_signing_key@
                &&& challenge.target_device_encryption_key@ == command.recipient_encryption_key@
                &&& challenge.capability_hash@ == command.enrollment_capability_digest@
                &&& challenge.created_at@ <= command.issued_at@
                &&& command.expires_at@ <= challenge.expires_at@
            }
            &&& !linked ==> checked == Err::<(), IdentityPersistenceError>(
                IdentityPersistenceError::RecoveryPreparationInvalidated,
            )
            &&& linked && cancelled ==> checked == Err::<(), IdentityPersistenceError>(
                IdentityPersistenceError::RecoveryPreparationRevoked,
            )
            &&& linked && !cancelled && challenge.state == DurableChallengeState::Open && now
                >= challenge.expires_at@ ==> checked == Err::<(), IdentityPersistenceError>(
                IdentityPersistenceError::RecoveryPreparationExpired,
            )
            &&& linked && !cancelled && challenge.state == DurableChallengeState::Approved && now
                >= command.expires_at@ ==> checked == Err::<(), IdentityPersistenceError>(
                IdentityPersistenceError::RecoveryPreparationExpired,
            )
        }),
{
    if challenge.approved_head is Some {
        let reached = challenge.approved_head->0@;
        let named = recovery_request::head_at(
            command.identity_id@,
            command.post_head_sequence@,
            command.post_head_hash@,
        );
        assert(reached == named <==> {
            &&& reached.identity_id == named.identity_id
            &&& reached.wire == named.wire
            &&& reached.sequence == named.sequence
            &&& reached.hash == named.hash
        });
    }
}

/// A key that is taken answers no second request, and a refused enrollment none.
pub proof fn law_taken_key_is_a_conflict(
    command: CreateHistoryRecoveryRequestV4Command,
    challenge: Result<StoredEnrollmentChallenge, IdentityPersistenceError>,
    now: i64,
)
    ensures
        recovery_request::candidate_stage(command, true, challenge, now) == Err::<
            (),
            IdentityPersistenceError,
        >(IdentityPersistenceError::IdempotencyConflict),
        challenge is Err ==> recovery_request::candidate_stage(command, false, challenge, now)
            == Err::<(), IdentityPersistenceError>(challenge->Err_0),
        challenge is Ok ==> recovery_request::candidate_stage(command, false, challenge, now)
            == recovery_request::challenge_stage(command, challenge->Ok_0, now),
{
}

/// A request is taken exactly for the answered preparation of the same candidate at
/// the same head, while the preparation and its answer hold.
pub proof fn law_request_follows_its_preparation(
    command: CreateHistoryRecoveryRequestV4Command,
    preparation: PreparationRow,
    now: i64,
)
    ensures
        ({
            let checked = recovery_request::preparation_stage(command, Some(preparation), now);
            let answered = preparation.provider_response_bytes is Some
                && preparation.provider_response_digest is Some
                && preparation.provider_expires_at_ms is Some;
            let fresh = now < preparation.expires_at_ms && now
                < preparation.provider_expires_at_ms->0;
            &&& checked is Ok <==> {
                &&& answered
                &&& fresh
                &&& preparation.identity_id@ == text::hex(command.identity_id@)
                &&& preparation.candidate_device_id@ == command.target_device_id@
                &&& preparation.candidate_signing_key@ == command.target_device_signing_key@
                &&& preparation.candidate_recipient_key@ == command.recipient_encryption_key@
                &&& preparation.observed_head_sequence == command.pre_head_sequence@
                &&& preparation.observed_head_hash@ == command.pre_head_hash@
                &&& preparation.preparation_bytes@ == command.preparation_bytes@
                &&& preparation.preparation_digest@ == command.preparation_digest@
                &&& preparation.enrollment_capability_hash@
                    == command.enrollment_capability_digest@
                &&& preparation.issued_at_ms <= command.issued_at@
                &&& command.issued_at@ <= now
                &&& command.expires_at@ <= preparation.expires_at_ms
            }
            &&& answered && !fresh ==> checked == Err::<(), IdentityPersistenceError>(
                IdentityPersistenceError::RecoveryPreparationExpired,
            )
            &&& preparation.provider_response_bytes is None ==> checked == Err::<
                (),
                IdentityPersistenceError,
            >(IdentityPersistenceError::RecoveryPreparationRevoked)
        }),
        recovery_request::preparation_stage(command, None, now) == Err::<
            (),
            IdentityPersistenceError,
        >(IdentityPersistenceError::RecoveryPreparationRevoked),
{
}

/// A request is taken exactly while the catalog that was prepared is the current
/// one, holds, and has the same authority.
pub proof fn law_request_names_the_current_catalog(
    command: CreateHistoryRecoveryRequestV4Command,
    catalog: CatalogRow,
    preparation: PreparationRow,
    now: i64,
)
    ensures
        ({
            let checked = recovery_request::catalog_stage(
                command,
                Some(catalog),
                preparation,
                now,
            );
            let holds = now < catalog.expires_at_ms;
            let same = {
                &&& catalog.catalog_id@ == preparation.catalog_id@
                &&& catalog.generation == preparation.catalog_generation
                &&& catalog.head_digest@ == preparation.catalog_head_digest@
                &&& catalog.observed_head_sequence == command.pre_head_sequence@
                &&& catalog.observed_head_hash@ == command.pre_head_hash@
            };
            let authority = catalog.authority_device_id@ == preparation.authority_device_id@
                && catalog.authority_signing_key@ == preparation.authority_signing_key@;
            &&& checked is Ok <==> holds && same && authority
            &&& !holds ==> checked == Err::<(), IdentityPersistenceError>(
                IdentityPersistenceError::RecoveryCatalogExpired,
            )
            &&& holds && !same ==> checked == Err::<(), IdentityPersistenceError>(
                IdentityPersistenceError::RecoveryCatalogHeadChanged,
            )
            &&& holds && same && !authority ==> checked == Err::<(), IdentityPersistenceError>(
                IdentityPersistenceError::RecoveryAuthorityChanged,
            )
        }),
        recovery_request::catalog_stage(command, None, preparation, now) == Err::<
            (),
            IdentityPersistenceError,
        >(IdentityPersistenceError::RecoveryCatalogHeadChanged),
{
}

/// A field is a digest.
pub open spec fn is_digest(value: Value) -> bool {
    value is Bytes && value->Bytes_0.len() == 32
}

/// A manifest is in form exactly if it is a record about the identity, with a head,
/// digests and a set of distinct leaves of the stated number.
pub proof fn law_manifest_is_in_form(
    bytes: Seq<u8>,
    identity: Seq<u8>,
    signed_head: Result<SignedCatalogHead, IdentityPersistenceError>,
)
    ensures
        ({
            let value = cbor::decoded(bytes);
            let catalog = record::field_of(value, 3);
            let generation = record::field_of(value, 4);
            let head = record::field_of(value, 5);
            let count = record::field_of(value, 8);
            let leaves = record::field_of(value, 10);
            recovery_request::manifest_form(bytes, identity, signed_head) is Ok <==> {
                &&& 0 < bytes.len() <= 35_477
                &&& cbor::is_encoded(bytes)
                &&& record::is_record(value, 10)
                &&& record::field_of(value, 1) == Value::Unsigned(2)
                &&& record::field_of(value, 2) == Value::Text(text::hex(identity))
                &&& catalog is Text && outside::uuid_parsed(catalog->Text_0) is Some
                &&& generation is Unsigned
                &&& 0 < generation->Unsigned_0 <= 9_007_199_254_740_991
                &&& head is Bytes && 0 < head->Bytes_0.len() <= 466
                &&& signed_head is Ok
                &&& is_digest(record::field_of(value, 6))
                &&& is_digest(record::field_of(value, 7))
                &&& count is Unsigned && 1 <= count->Unsigned_0 <= 1023
                &&& is_digest(record::field_of(value, 9))
                &&& leaves is Array
                &&& leaves->Array_0.len() == count->Unsigned_0
                &&& forall|i: int|
                    0 <= i < leaves->Array_0.len() ==> is_digest(#[trigger] leaves->Array_0[i])
                &&& leaves->Array_0.no_duplicates()
            }
        }),
{
    let value = cbor::decoded(bytes);
    let leaves = record::field_of(value, 10)->Array_0;
    if recovery_request::are_leaves(leaves) {
        assert forall|i: int| 0 <= i < leaves.len() implies is_digest(#[trigger] leaves[i]) by {}
        assert forall|i: int, j: int|
            0 <= i < leaves.len() && 0 <= j < leaves.len() && i != j implies leaves[i]
            != leaves[j] by {
            if i < j {
                assert(leaves[i] != leaves[j]);
            } else {
                assert(leaves[j] != leaves[i]);
            }
        }
    }
}

/// A manifest fits exactly if it states its own leaf set, and the same catalog,
/// generation, head and root as the signed head, the preparation and the catalog.
pub proof fn law_manifest_is_of_the_catalog(
    value: Value,
    identity: Seq<u8>,
    signed_head: SignedCatalogHead,
    leaf_root: Option<Sha256Digest>,
    catalog: CatalogRow,
    preparation: PreparationRow,
)
    requires
        value is Entries,
    ensures
        ({
            let catalog_id = outside::uuid_parsed(record::field_of(value, 3)->Text_0)->0;
            let generation = record::field_of(value, 4)->Unsigned_0;
            let head_digest = record::field_of(value, 6)->Bytes_0;
            let root = record::field_of(value, 7)->Bytes_0;
            recovery_request::manifest_match(
                value,
                identity,
                signed_head,
                leaf_root,
                catalog,
                preparation,
            ) is Ok <==> {
                &&& record::field_of(value, 9)->Bytes_0 == digest::hash_in_domain(
                    "dirextalk.history-recovery.leaf-set.v2\0"@,
                    cbor::encoding(record::field_of(value, 10)),
                )
                &&& signed_head.identity_id@ == identity
                &&& signed_head.catalog_id@ == catalog_id
                &&& signed_head.generation@ == generation
                &&& signed_head.digest@ == head_digest
                &&& signed_head.merkle_root@ == root
                &&& leaf_root is Some && leaf_root->0@ == root
                &&& preparation.catalog_id@ == catalog_id
                &&& preparation.catalog_generation == generation
                &&& 0 <= generation <= 9_007_199_254_740_991
                &&& preparation.catalog_head_digest@ == head_digest
                &&& head_digest.len() == 32
                &&& catalog.catalog_id@ == catalog_id
                &&& catalog.generation == generation
                &&& catalog.head_digest@ == head_digest
                &&& catalog.head_bytes@ == record::field_of(value, 5)->Bytes_0
                &&& catalog.merkle_root@ == root
                &&& root.len() == 32
                &&& catalog.leaf_count == record::field_of(value, 8)->Unsigned_0
            }
        }),
{
}

/// An answer fits exactly if it holds, was stored for the preparation, and is about
/// the catalog, the candidate, the event and the head of the request.
pub proof fn law_answer_is_for_the_request(
    command: CreateHistoryRecoveryRequestV4Command,
    provider: ProviderResponse,
    recipient_key_domain: Seq<char>,
    catalog: CatalogRow,
    preparation: PreparationRow,
    now: i64,
)
    requires
        preparation.provider_idempotency_key_hash@.len() == 32,
        preparation.provider_response_digest is Some,
        preparation.provider_response_digest->0@.len() == 32,
        0 <= preparation.catalog_generation <= 9_007_199_254_740_991,
        preparation.catalog_head_digest@.len() == 32,
        id::is_uuid_v7(catalog.authority_device_id@),
        command.post_head_sequence@ > 0,
    ensures
        ({
            let checked = recovery_request::provider_stage(
                command,
                Ok(provider),
                recipient_key_domain,
                catalog,
                preparation,
                now,
            );
            let fresh = now < provider.expires_at@;
            let fits = {
                &&& provider.digest@ == preparation.provider_response_digest->0@
                &&& provider.identity_id@ == command.identity_id@
                &&& provider.catalog_id@ == preparation.catalog_id@
                &&& provider.catalog_generation@ == preparation.catalog_generation
                &&& provider.catalog_head_digest@ == preparation.catalog_head_digest@
                &&& provider.candidate_device_id@ == command.target_device_id@
                &&& provider.device_add_digest@ == command.device_add_digest@
                &&& provider.device_add_bytes@ == command.device_add_bytes@
                &&& is_head_at(
                    provider.successor_head@,
                    command.identity_id@,
                    command.post_head_sequence@,
                    command.post_head_hash@,
                )
                &&& provider.recipient_key_digest@ == digest::hash_in_domain(
                    recipient_key_domain,
                    command.recipient_encryption_key@,
                )
                &&& provider.expires_at@ <= command.expires_at@
                &&& provider.authority_kind == 1 ==> {
                    &&& provider.authority_device_id is Some
                    &&& provider.authority_device_id->0@ == catalog.authority_device_id@
                    &&& provider.authority_signing_key@ == catalog.authority_signing_key@
                }
            };
            &&& checked is Ok <==> fresh && fits
            &&& !fresh ==> checked == Err::<(), IdentityPersistenceError>(
                IdentityPersistenceError::RecoveryPreparationExpired,
            )
            &&& fresh && !fits ==> checked == Err::<(), IdentityPersistenceError>(
                IdentityPersistenceError::RecoveryPreparationInvalidated,
            )
        }),
{
    let reached = provider.successor_head@;
    let named = recovery_request::head_at(
        command.identity_id@,
        command.post_head_sequence@,
        command.post_head_hash@,
    );
    assert(reached == named <==> {
        &&& reached.identity_id == named.identity_id
        &&& reached.wire == named.wire
        &&& reached.sequence == named.sequence
        &&& reached.hash == named.hash
    });
}

/// A request is taken exactly while the authority of its catalog and its provider
/// are active, the last event of the log added its candidate, and the answer was
/// given in the name of a device, of the root or of the recovery key that holds.
pub proof fn law_request_needs_the_current_authority(
    command: CreateHistoryRecoveryRequestV4Command,
    challenge: StoredEnrollmentChallenge,
    catalog: CatalogRow,
    provider: ProviderResponse,
    state: LogState,
    events: Seq<Seq<u8>>,
)
    requires
        id::is_uuid_v7(catalog.authority_device_id@),
        key::is_public_key(catalog.authority_signing_key@),
        event_codec::decode_event(command.device_add_bytes@) is Ok,
    ensures
        ({
            let event = event_codec::decode_event(command.device_add_bytes@)->Ok_0;
            let checked = recovery_request::authority_stage(
                command,
                challenge,
                catalog,
                provider,
                state,
                events,
            );
            let named = Head {
                identity_id: command.identity_id@,
                wire: ((1u16, 1u16), (1u16, 1u16)),
                sequence: command.pre_head_sequence@,
                hash: command.pre_head_hash@,
            };
            let authority = is_active_with(
                state,
                catalog.authority_device_id@,
                catalog.authority_signing_key@,
            );
            &&& checked is Ok <==> {
                &&& authority
                &&& enrollment::device_add_check(
                    event,
                    challenge,
                    named,
                    Some(state.current_root_key),
                ) is Ok
                &&& events.len() > 0
                &&& events.last() == command.device_add_bytes@
                &&& is_active_with(
                    state,
                    provider.provider_device_id@,
                    provider.provider_signing_key@,
                )
                &&& provider.authority_kind == 1 ==> {
                    &&& provider.authority_device_id is Some
                    &&& is_active_with(
                        state,
                        provider.authority_device_id->0@,
                        provider.authority_signing_key@,
                    )
                }
                &&& provider.authority_kind == 2 ==> provider.authority_signing_key@
                    == state.current_root_key
                &&& provider.authority_kind == 3 ==> provider.authority_signing_key@
                    == state.current_recovery_key
            }
            &&& !authority ==> checked == Err::<(), IdentityPersistenceError>(
                IdentityPersistenceError::RecoveryAuthorityChanged,
            )
        }),
{
}

/// A request is admitted only past every stage: the candidate, the preparation, the
/// catalog, the manifest and the answer.
pub proof fn law_admission_passes_every_stage(
    command: CreateHistoryRecoveryRequestV4Command,
    inputs: AdmissionInputs,
    now: i64,
)
    ensures
        recovery_request::admission_check(command, inputs, now) is Ok <==> {
            &&& !inputs.idempotency_taken
            &&& inputs.challenge is Ok
            &&& recovery_request::challenge_stage(command, inputs.challenge->Ok_0, now) is Ok
            &&& !inputs.candidate_reserved
            &&& recovery_request::preparation_stage(command, inputs.preparation, now) is Ok
            &&& recovery_request::catalog_stage(
                command,
                inputs.catalog,
                inputs.preparation->0,
                now,
            ) is Ok
            &&& recovery_request::manifest_form(
                command.manifest_bytes@,
                command.identity_id@,
                inputs.signed_head,
            ) is Ok
            &&& recovery_request::manifest_match(
                cbor::decoded(command.manifest_bytes@),
                command.identity_id@,
                inputs.signed_head->Ok_0,
                inputs.leaf_root,
                inputs.catalog->0,
                inputs.preparation->0,
            ) is Ok
            &&& recovery_request::provider_stage(
                command,
                inputs.provider,
                inputs.recipient_key_domain@,
                inputs.catalog->0,
                inputs.preparation->0,
                now,
            ) is Ok
            &&& inputs.snapshot is Ok
            &&& command.pre_head_sequence@ > 0
        },
{
}

/// A candidate whose key is reserved is refused once its enrollment was accepted.
pub proof fn law_reserved_candidate_is_refused(
    command: CreateHistoryRecoveryRequestV4Command,
    inputs: AdmissionInputs,
    now: i64,
)
    requires
        !inputs.idempotency_taken,
        inputs.challenge is Ok,
        recovery_request::challenge_stage(command, inputs.challenge->Ok_0, now) is Ok,
        inputs.candidate_reserved,
    ensures
        recovery_request::admission_check(command, inputs, now) == Err::<
            (),
            IdentityPersistenceError,
        >(IdentityPersistenceError::RecoveryCandidateKeyChanged),
{
}

/// A request is admitted at the head that its enrollment reached and that the log
/// still has.
pub proof fn law_request_is_admitted_at_its_head(
    command: CreateHistoryRecoveryRequestV4Command,
    challenge: StoredEnrollmentChallenge,
    state: LogState,
)
    requires
        recovery_request::is_at_post_head(command, challenge, state),
    ensures
        state.head_sequence == command.post_head_sequence@,
        state.head_hash == command.post_head_hash@,
        state.identity_id == command.identity_id@,
        challenge.approved_head is Some,
        challenge.approved_head->0@ == head::head_of(state),
{
}

/// The receipt of an admission reads back as the request, its digest, the digest of
/// its capability and the time.
pub proof fn law_admission_receipt_reads_back(
    command: CreateHistoryRecoveryRequestV4Command,
    accepted_at: i64,
)
    requires
        command.request_id@.len() == 16,
        command.request_digest@.len() == 32,
        command.response_capability_digest@.len() == 32,
    ensures
        ({
            let read = cbor::decoded(recovery_request::admission_receipt(command, accepted_at));
            &&& record::is_record(read, 5)
            &&& record::field_of(read, 1) == Value::Unsigned(4)
            &&& record::field_of(read, 2) == Value::Text(text::hyphenated(command.request_id@))
            &&& record::field_of(read, 3) == Value::Bytes(command.request_digest@)
            &&& record::field_of(read, 4) == Value::Bytes(command.response_capability_digest@)
            &&& record::field_of(read, 5) == number::millis_model(accepted_at)
        }),
{
    let fields = recovery_request::admission_receipt_fields(
        command.request_id@,
        command.request_digest@,
        command.response_capability_digest@,
        accepted_at,
    );
    record::lemma_uuid_canonical(command.request_id@);
    record::lemma_record_canonical(fields, 31);
    laws::lemma_record_read(fields);
}

/// A stored number or digest that is whole and differs from that of the manifest says
/// that the head of the catalog changed.
pub proof fn law_manifest_mismatch_is_a_changed_head(
    stored: i64,
    expected: u64,
    kept: Seq<u8>,
    named: Seq<u8>,
    label: &'static str,
)
    ensures
        ({
            let number = recovery_request::number_mismatch(stored, expected, label);
            let whole = 0 <= stored <= 9_007_199_254_740_991;
            &&& number is None <==> whole && stored == expected
            &&& whole && stored != expected ==> number == Some(
                IdentityPersistenceError::RecoveryCatalogHeadChanged,
            )
            &&& !whole ==> number == Some(IdentityPersistenceError::CorruptData(label))
        }),
        ({
            let digest = recovery_request::digest_mismatch(kept, named, label);
            &&& digest is None <==> kept.len() == 32 && kept == named
            &&& kept.len() == 32 && kept != named ==> digest == Some(
                IdentityPersistenceError::RecoveryCatalogHeadChanged,
            )
            &&& kept.len() != 32 ==> digest == Some(IdentityPersistenceError::CorruptData(label))
        }),
{
}

} // verus!
