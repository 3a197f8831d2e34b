//! What holds of recovery-scope catalogs, told by commands, rows and the state of
//! the log.

use vstd::prelude::*;
use crate::log::event_codec;
use crate::log::payload::Payload;
use crate::log::state::{DeviceStatusV1, LogState};
use crate::persistence::error::IdentityPersistenceError;
use crate::persistence::head;
use crate::persistence::head::Head;
use crate::persistence::recovery_catalog;
use crate::persistence::recovery_catalog::{
    CatalogPreparationCommand, CatalogProviderResponseCommand, CatalogStatus,
    CatalogStatusInvalidation, CatalogUploadCommand, CurrentCatalogRow, LinkedChallengeRow,
    RecoveryScopeCatalogStatusOutcome, StoredCatalog, StoredLinkedChallenge, StoredPreparation,
    StoredPreparationRow,
};
use crate::persistence::recovery_catalog_decision;
use crate::persistence::recovery_catalog_decision::{
    LatestRow, PreparedRow, PublishInputs, PublishedRow, ResponseInputs, Validity,
};
use crate::wire::digest;
use crate::wire::id;
use crate::wire::key;
use crate::wire::text;

verus! {

/// The state has the device, active, with the key.
pub open spec fn has_active_key(state: LogState, device: Seq<u8>, key: Seq<u8>) -> bool {
    &&& state.devices.dom().contains(device)
    &&& state.devices[device].status == DeviceStatusV1::Active
    &&& state.devices[device].certificate.unsigned.device_signing_key == key
}

/// The head that a row names by sequence and hash.
pub open spec fn is_named_head(
    head: Head,
    identity: Seq<u8>,
    sequence: i64,
    hash: Seq<u8>,
) -> bool {
    &&& head.identity_id == identity
    &&& head.wire == ((1u16, 1u16), (1u16, 1u16))
    &&& head.sequence == sequence as u64
    &&& head.hash == hash
}

/// A catalog is uploaded exactly while it holds, by an authenticated device of its
/// identity, whose signature was accepted.
pub proof fn law_catalog_is_uploaded_by_its_identity(
    command: CatalogUploadCommand,
    inputs: PublishInputs,
    now: i64,
)
    ensures
        ({
            let checked = recovery_catalog_decision::upload_check(command, inputs, now);
            let issued = command.issued_at@ <= now;
            let fresh = now < command.expires_at@;
            let own = inputs.authenticated->Ok_0@.session.identity_id == command.identity_id@;
            &&& checked is Ok <==> {
                &&& issued
                &&& fresh
                &&& inputs.authenticated is Ok
                &&& own
                &&& inputs.signature is Ok
                &&& inputs.snapshot is Ok
            }
            &&& issued && !fresh ==> checked == Err::<(), IdentityPersistenceError>(
                IdentityPersistenceError::RecoveryCatalogExpired,
            )
            &&& issued && fresh && inputs.authenticated is Ok && !own ==> checked == Err::<
                (),
                IdentityPersistenceError,
            >(IdentityPersistenceError::DeviceAuthenticationRejected)
        }),
{
}

/// The first catalog has generation one and names no predecessor; each later one
/// has the next generation and names the one before.
pub proof fn law_catalogs_succeed_one_another(
    command: CatalogUploadCommand,
    latest: LatestRow,
)
    requires
        latest.head_digest@.len() == 32,
        latest.generation >= 0,
        command.previous_head_digest is Some,
    ensures
        ({
            let first = recovery_catalog_decision::succession_check(command, None);
            let next = recovery_catalog_decision::succession_check(command, Some(latest));
            let follows = command.generation@ == latest.generation + 1
                && command.previous_head_digest->0@ == latest.head_digest@;
            &&& first == Err::<(), IdentityPersistenceError>(
                IdentityPersistenceError::RecoveryCatalogConflict,
            )
            &&& next is Ok <==> follows
            &&& !follows ==> next == Err::<(), IdentityPersistenceError>(
                IdentityPersistenceError::RecoveryCatalogConflict,
            )
        }),
{
}

/// A catalog that names no predecessor is the first one.
pub proof fn law_first_catalog_has_generation_one(command: CatalogUploadCommand)
    requires
        command.previous_head_digest is None,
    ensures
        ({
            let first = recovery_catalog_decision::succession_check(command, None);
            &&& first is Ok <==> command.generation@ == 1
            &&& first is Err ==> first == Err::<(), IdentityPersistenceError>(
                IdentityPersistenceError::RecoveryCatalogConflict,
            )
        }),
{
}

/// An upload under a used key is the same upload exactly if its generation and its
/// digest are the same.
pub proof fn law_upload_is_recognized(command: CatalogUploadCommand, published: PublishedRow)
    ensures
        recovery_catalog_decision::is_published(command, published) <==> {
            &&& published.generation == command.generation@
            &&& published.upload_digest@ == command.upload_digest@
        },
{
}

/// A preparation belongs to the challenge of the same candidate.
pub open spec fn is_linked(
    challenge: StoredLinkedChallenge,
    preparation: StoredPreparation,
) -> bool {
    &&& challenge.identity_id@ == preparation.identity_id@
    &&& challenge.protocol_version == 1
    &&& challenge.candidate_device_id@ == preparation.candidate_device_id@
    &&& challenge.candidate_signing_key@ == preparation.candidate_signing_key@
    &&& challenge.candidate_recipient_key@ == preparation.candidate_recipient_key@
    &&& challenge.capability_hash@ == preparation.enrollment_capability_hash@
}

/// The current catalog is the one that a preparation froze, and its authority is
/// still active.
pub open spec fn is_frozen(
    preparation: StoredPreparation,
    current: CurrentCatalogRow,
    state: LogState,
    now: i64,
) -> bool {
    &&& current.catalog_id@ == preparation.catalog_id@
    &&& current.generation == preparation.catalog_generation@
    &&& current.head_digest@ == preparation.catalog_head_digest@
    &&& is_named_head(
        preparation.observed_head@,
        preparation.identity_id@,
        current.observed_head_sequence,
        current.observed_head_hash@,
    )
    &&& current.authority_device_id@ == preparation.authority_device_id@
    &&& current.authority_signing_key@ == preparation.authority_key@
    &&& now < current.expires_at_ms
    &&& has_active_key(state, preparation.authority_device_id@, preparation.authority_key@)
}

/// A preparation whose candidate or whose catalog changed is invalidated.
pub proof fn law_changed_preparation_is_invalidated(
    preparation: StoredPreparation,
    challenge: StoredLinkedChallenge,
    current: Option<CurrentCatalogRow>,
    state: LogState,
    events: Seq<Seq<u8>>,
    now: i64,
)
    requires
        now < preparation.expires_at@,
        current is Some ==> recovery_catalog::catalog_fault(current->0) is None,
    ensures
        ({
            let valid = recovery_catalog_decision::validity(
                preparation,
                challenge,
                current,
                state,
                events,
                now,
            );
            let linked = is_linked(challenge, preparation);
            let frozen = current is Some && is_frozen(preparation, current->0, state, now);
            &&& !linked ==> valid is Ok && valid->Ok_0.invalidation == Some(
                CatalogStatusInvalidation::Key,
            )
            &&& linked && !frozen ==> valid is Ok && valid->Ok_0.invalidation == Some(
                CatalogStatusInvalidation::Catalog,
            )
        }),
{
    if current is Some {
        let named = recovery_catalog::stored_head(
            preparation.identity_id@,
            (current->0).observed_head_sequence,
            (current->0).observed_head_hash@,
        );
        let observed = preparation.observed_head@;
        assert(named == observed <==> {
            &&& named.identity_id == observed.identity_id
            &&& named.wire == observed.wire
            &&& named.sequence == observed.sequence
            &&& named.hash == observed.hash
        });
    }
}

/// While its enrollment is open, a preparation is valid exactly until the enrollment
/// expires and as long as the log has not moved; then nobody but the authority may
/// answer it.
pub proof fn law_open_preparation_is_valid_at_its_head(
    preparation: StoredPreparation,
    challenge: StoredLinkedChallenge,
    current: CurrentCatalogRow,
    state: LogState,
    events: Seq<Seq<u8>>,
    now: i64,
)
    requires
        now < preparation.expires_at@,
        recovery_catalog::catalog_fault(current) is None,
        is_linked(challenge, preparation),
        is_frozen(preparation, current, state, now),
        challenge.state@ == "open"@,
    ensures
        ({
            let valid = recovery_catalog_decision::validity(
                preparation,
                challenge,
                Some(current),
                state,
                events,
                now,
            );
            &&& valid is Ok
            &&& valid->Ok_0.invalidation is None <==> now < challenge.expires_at@
                && head::head_of(state) == preparation.observed_head@
            &&& valid->Ok_0.invalidation is Some ==> valid->Ok_0.invalidation == Some(
                CatalogStatusInvalidation::Identity,
            )
            &&& valid->Ok_0.history_provider is None
            &&& !valid->Ok_0.candidate_added
        }),
{
}

/// Once its enrollment is approved, a preparation is valid exactly if the one event
/// behind its head added its candidate; the approving device may answer it then,
/// and so may the candidate.
pub proof fn law_approved_preparation_is_valid_for_its_candidate(
    preparation: StoredPreparation,
    challenge: StoredLinkedChallenge,
    current: CurrentCatalogRow,
    state: LogState,
    events: Seq<Seq<u8>>,
    now: i64,
)
    requires
        now < preparation.expires_at@,
        recovery_catalog::catalog_fault(current) is None,
        is_linked(challenge, preparation),
        is_frozen(preparation, current, state, now),
        challenge.state@ != "open"@,
        challenge.approver_device_id is Some,
        events.len() > 0,
        event_codec::decode_event(events.last()) is Ok,
    ensures
        ({
            let valid = recovery_catalog_decision::validity(
                preparation,
                challenge,
                Some(current),
                state,
                events,
                now,
            );
            let event = event_codec::decode_event(events.last())->Ok_0.unsigned;
            let added = match event.payload {
                Payload::DeviceAdd { certificate } => {
                    &&& certificate.unsigned.device_id == preparation.candidate_device_id@
                    &&& certificate.unsigned.device_signing_key
                        == preparation.candidate_signing_key@
                    &&& certificate.unsigned.device_encryption_key
                        == preparation.candidate_recipient_key@
                },
                _ => false,
            };
            &&& valid is Ok
            &&& valid->Ok_0.invalidation is None <==> {
                &&& challenge.state@ == "approved"@
                &&& challenge.approved_head is Some
                &&& challenge.approved_head->0@ == head::head_of(state)
                &&& state.head_sequence == preparation.observed_head@.sequence + 1
                &&& event.previous_event_hash == Some(preparation.observed_head@.hash)
                &&& added
            }
            &&& valid->Ok_0.invalidation is None ==> {
                &&& valid->Ok_0.history_provider == Some(challenge.approver_device_id->0@)
                &&& valid->Ok_0.candidate_added
            }
            &&& valid->Ok_0.invalidation is Some ==> {
                &&& valid->Ok_0.history_provider is None
                &&& !valid->Ok_0.candidate_added
            }
        }),
{
}

/// A preparation is told cancelled if its enrollment is; expired from its expiry on;
/// invalidated if it is; answered exactly if it has a response; and pending else.
pub proof fn law_preparation_status_is_exact(
    preparation: StoredPreparation,
    challenge: StoredLinkedChallenge,
    invalidation: Option<CatalogStatusInvalidation>,
    now: i64,
)
    ensures
        ({
            let status = recovery_catalog_decision::status_with(
                preparation,
                challenge,
                invalidation,
                now,
            );
            let cancelled = challenge.state@ == "cancelled"@;
            let expired = !cancelled && preparation.expires_at@ <= now;
            let live = !cancelled && !expired && invalidation is None;
            &&& status == CatalogStatus::Cancelled <==> cancelled
            &&& status == CatalogStatus::Expired <==> expired
            &&& status is Invalidated <==> !cancelled && !expired && invalidation is Some
            &&& status is Invalidated ==> status->Invalidated_0 == invalidation->0
            &&& status == CatalogStatus::ResponseAvailable <==> live
                && preparation.provider_response is Some
            &&& status == CatalogStatus::Pending <==> live && preparation.provider_response is None
        }),
{
}

/// A response is shown exactly while it is available; the time told is the present,
/// or the expiry of what expired.
pub proof fn law_response_is_shown_while_available(
    outcome: RecoveryScopeCatalogStatusOutcome,
    preparation: StoredPreparation,
    status: CatalogStatus,
    now: i64,
)
    requires
        recovery_catalog_decision::is_status_of(outcome, preparation, status, now),
    ensures
        outcome.request_id@ == preparation.request_id@,
        outcome.status == status,
        outcome.provider_response is Some <==> status == CatalogStatus::ResponseAvailable
            && preparation.provider_response is Some,
        outcome.provider_response is Some ==> outcome.provider_response->0@
            == preparation.provider_response->0@,
        status == CatalogStatus::Expired ==> outcome.observed_at@ == preparation.expires_at@,
        status != CatalogStatus::Expired ==> outcome.observed_at@ == now,
{
}

/// A preparation is taken from the candidate of the enrollment, who holds its
/// capability.
pub proof fn law_candidate_holds_the_capability(
    command: CatalogPreparationCommand,
    identity: Seq<u8>,
    challenge: StoredLinkedChallenge,
)
    ensures
        ({
            let checked = recovery_catalog_decision::candidate_check(command, identity, challenge);
            let same = challenge.identity_id@ == identity;
            let held = challenge.capability_hash@ == digest::hash_in_domain(
                "dirextalk.device-enrollment-capability.v1\0"@,
                command.enrollment_capability@,
            );
            let candidate = {
                &&& challenge.identity_id@ == command.identity_id@
                &&& challenge.candidate_device_id@ == command.candidate_device_id@
                &&& challenge.candidate_signing_key@ == command.candidate_signing_key@
                &&& challenge.candidate_recipient_key@ == command.candidate_recipient_key@
            };
            &&& checked is Ok <==> same && held && candidate
            &&& same && !held ==> checked == Err::<(), IdentityPersistenceError>(
                IdentityPersistenceError::DeviceEnrollmentCapabilityRejected,
            )
            &&& same && held && !candidate ==> checked == Err::<(), IdentityPersistenceError>(
                IdentityPersistenceError::RecoveryCandidateKeyChanged,
            )
        }),
{
}

/// What was prepared is prepared again only by the same bytes.
pub proof fn law_preparation_is_recognized(
    command: CatalogPreparationCommand,
    prepared: PreparedRow,
)
    requires
        prepared.preparation_digest@.len() == 32,
    ensures
        ({
            let checked = recovery_catalog_decision::prepared_check(command, prepared);
            let same = prepared.preparation_digest@ == command.digest@
                && prepared.preparation_bytes@ == command.exact_bytes@;
            &&& checked is Ok <==> same
            &&& !same ==> checked == Err::<(), IdentityPersistenceError>(
                IdentityPersistenceError::IdempotencyConflict,
            )
        }),
{
}

/// A preparation is taken exactly while it holds, within the life of an open
/// enrollment.
pub proof fn law_preparation_lives_within_its_enrollment(
    command: CatalogPreparationCommand,
    challenge: StoredLinkedChallenge,
    now: i64,
)
    ensures
        ({
            let checked = recovery_catalog_decision::timing_check(command, challenge, now);
            let open = challenge.protocol_version == 1 && challenge.state@ == "open"@;
            &&& checked is Ok <==> {
                &&& open
                &&& command.issued_at@ <= now
                &&& now < command.expires_at@
                &&& command.expires_at@ <= challenge.expires_at@
            }
            &&& !open ==> checked == Err::<(), IdentityPersistenceError>(
                IdentityPersistenceError::RecoveryPreparationRevoked,
            )
            &&& open && command.issued_at@ <= now && (command.expires_at@ <= now
                || challenge.expires_at@ <= now) ==> checked == Err::<
                (),
                IdentityPersistenceError,
            >(IdentityPersistenceError::RecoveryPreparationExpired)
        }),
{
}

/// A preparation is taken only for the catalog that is current at the head that it
/// observed, while the catalog holds and its authority is active.
pub proof fn law_preparation_names_the_current_catalog(
    command: CatalogPreparationCommand,
    current: CurrentCatalogRow,
    state: LogState,
    now: i64,
)
    requires
        recovery_catalog::catalog_fault(current) is None,
    ensures
        ({
            let checked = recovery_catalog_decision::named_catalog_check(
                command,
                Some(current),
                state,
                now,
            );
            let holds = now < current.expires_at_ms;
            let active = has_active_key(
                state,
                current.authority_device_id@,
                current.authority_signing_key@,
            );
            let named = command.catalog_id@ == current.catalog_id@ && is_named_head(
                command.observed_head@,
                command.identity_id@,
                current.observed_head_sequence,
                current.observed_head_hash@,
            );
            &&& checked is Ok <==> holds && active && named && command.expires_at@
                <= current.expires_at_ms
            &&& !holds ==> checked == Err::<(), IdentityPersistenceError>(
                IdentityPersistenceError::RecoveryCatalogExpired,
            )
            &&& holds && !active ==> checked == Err::<(), IdentityPersistenceError>(
                IdentityPersistenceError::RecoveryAuthorityChanged,
            )
            &&& holds && active && !named ==> checked == Err::<(), IdentityPersistenceError>(
                IdentityPersistenceError::RecoveryCatalogHeadChanged,
            )
        }),
        recovery_catalog_decision::named_catalog_check(command, None, state, now) == Err::<
            (),
            IdentityPersistenceError,
        >(IdentityPersistenceError::RecoveryCatalogHeadChanged),
{
    let named = recovery_catalog::stored_head(
        command.identity_id@,
        current.observed_head_sequence,
        current.observed_head_hash@,
    );
    let observed = command.observed_head@;
    assert(named == observed <==> {
        &&& named.identity_id == observed.identity_id
        &&& named.wire == observed.wire
        &&& named.sequence == observed.sequence
        &&& named.hash == observed.hash
    });
}

/// A preparation is answered only by the authority of its catalog, by the device
/// that approved the enrollment, or by the candidate once it was added.
pub proof fn law_provider_is_authority_approver_or_candidate(
    command: CatalogProviderResponseCommand,
    preparation: StoredPreparation,
    valid: Validity,
)
    ensures
        recovery_catalog_decision::is_allowed_provider(command, preparation, valid) <==> {
            ||| command.provider_device_id@ == preparation.authority_device_id@
                && command.provider_signing_key@ == preparation.authority_key@
            ||| valid.history_provider == Some(command.provider_device_id@)
            ||| valid.candidate_added && command.provider_device_id@
                == preparation.candidate_device_id@ && command.provider_signing_key@
                == preparation.candidate_signing_key@
        },
{
}

/// A response is taken exactly while the preparation and the response hold, for the
/// catalog, the authority and the recipient of the preparation, from an allowed
/// provider; and once.
pub proof fn law_response_answers_its_preparation(
    command: CatalogProviderResponseCommand,
    preparation: StoredPreparation,
    challenge: StoredLinkedChallenge,
    inputs: ResponseInputs,
    now: i64,
)
    ensures
        ({
            let snapshot = inputs.snapshot->Ok_0;
            let valid = recovery_catalog_decision::validity(
                preparation,
                challenge,
                inputs.current,
                snapshot@,
                snapshot.events(),
                now,
            );
            let checked = recovery_catalog_decision::response_check(
                command,
                preparation,
                challenge,
                inputs,
                now,
            );
            let linked = challenge.protocol_version == 1 && (challenge.state@ == "open"@
                || challenge.state@ == "approved"@);
            let fresh = now < preparation.expires_at@ && now < command.expires_at@;
            let fits = {
                &&& valid->Ok_0.invalidation is None
                &&& command.catalog_head_digest@ == preparation.catalog_head_digest@
                &&& command.current_authority_digest@ == digest::hash_in_domain(
                    inputs.authority_key_domain@,
                    preparation.authority_key@,
                )
                &&& command.recipient_key_digest@ == digest::hash_in_domain(
                    inputs.recipient_key_domain@,
                    preparation.candidate_recipient_key@,
                )
                &&& command.expires_at@ <= preparation.expires_at@
                &&& recovery_catalog_decision::is_allowed_provider(
                    command,
                    preparation,
                    valid->Ok_0,
                )
            };
            let first = preparation.provider_response is None || {
                &&& preparation.provider_response->0@ == command.exact_bytes@
                &&& preparation.provider_idempotency_key_hash is Some
                &&& preparation.provider_idempotency_key_hash->0@ == command.idempotency_key_hash@
            };
            &&& checked is Ok <==> linked && fresh && valid is Ok && fits && first
            &&& !linked ==> checked == Err::<(), IdentityPersistenceError>(
                IdentityPersistenceError::RecoveryPreparationRevoked,
            )
            &&& linked && !fresh ==> checked == Err::<(), IdentityPersistenceError>(
                IdentityPersistenceError::RecoveryPreparationExpired,
            )
            &&& linked && fresh && valid is Ok && !fits ==> checked == Err::<
                (),
                IdentityPersistenceError,
            >(IdentityPersistenceError::RecoveryPreparationInvalidated)
            &&& linked && fresh && valid is Ok && fits && !first ==> checked == Err::<
                (),
                IdentityPersistenceError,
            >(IdentityPersistenceError::RecoveryPreparationConflict)
        }),
{
}

/// A response comes from the authenticated device that it names, with the key it
/// names, in the identity of the enrollment and of the preparation.
pub proof fn law_response_comes_from_its_provider(
    command: CatalogProviderResponseCommand,
    inputs: ResponseInputs,
)
    requires
        inputs.challenge is Some ==> recovery_catalog::linked_challenge_fault(inputs.challenge->0)
            is None,
        inputs.preparation is Some ==> recovery_catalog::preparation_fault(
            inputs.preparation->0,
        ) is None,
    ensures
        ({
            let session = inputs.authenticated->Ok_0@;
            let identity = text::hex(session.session.identity_id);
            let checked = recovery_catalog_decision::response_origin_check(command, inputs);
            let named = session.session.device_id == command.provider_device_id@
                && session.signing_key == command.provider_signing_key@;
            &&& checked is Ok <==> {
                &&& inputs.authenticated is Ok
                &&& named
                &&& inputs.snapshot is Ok
                &&& inputs.challenge is Some
                &&& (inputs.challenge->0).identity_id@ == identity
                &&& inputs.preparation is Some
                &&& (inputs.preparation->0).identity_id@ == identity
            }
            &&& inputs.authenticated is Ok && !named ==> checked == Err::<
                (),
                IdentityPersistenceError,
            >(IdentityPersistenceError::DeviceAuthenticationRejected)
        }),
{
}

/// A time of a row can be told.
pub open spec fn is_time(millis: i64) -> bool {
    -9_007_199_254_740_991 <= millis <= 9_007_199_254_740_991
}

/// A count of a row can be told.
pub open spec fn is_count(stored: i64) -> bool {
    0 <= stored <= 9_007_199_254_740_991
}

/// The row of a catalog is accepted exactly if each column can hold what it is for.
pub proof fn law_catalog_columns_are_typed(row: CurrentCatalogRow)
    ensures
        recovery_catalog::catalog_fault(row) is None <==> {
            &&& is_count(row.generation)
            &&& row.head_digest@.len() == 32
            &&& is_count(row.observed_head_sequence) && row.observed_head_sequence != 0
            &&& row.observed_head_hash@.len() == 32
            &&& id::is_uuid_v7(row.authority_device_id@)
            &&& row.authority_signing_key@.len() == 32
            &&& key::is_public_key(row.authority_signing_key@)
            &&& is_time(row.expires_at_ms)
        },
{
}

/// A catalog that was read says what its row says.
pub proof fn law_catalog_is_that_of_the_row(
    stored: StoredCatalog,
    row: CurrentCatalogRow,
    identity: Seq<u8>,
)
    requires
        recovery_catalog::is_catalog_of(stored, row, identity),
    ensures
        stored.catalog_id@ == row.catalog_id@,
        stored.generation@ == row.generation,
        stored.head_digest@ == row.head_digest@,
        is_named_head(
            stored.observed_head@,
            identity,
            row.observed_head_sequence,
            row.observed_head_hash@,
        ),
        stored.authority_device_id@ == row.authority_device_id@,
        stored.authority_key@ == row.authority_signing_key@,
        stored.expires_at@ == row.expires_at_ms,
{
}

/// The row of an enrollment is accepted exactly if each column can hold what it is
/// for.
pub proof fn law_linked_challenge_columns_are_typed(row: LinkedChallengeRow)
    ensures
        recovery_catalog::linked_challenge_fault(row) is None <==> {
            &&& id::is_identity_text(row.identity_id@)
            &&& row.approved_head_sequence is Some <==> row.approved_head_hash is Some
            &&& row.approved_head_sequence is Some ==> {
                &&& is_count(row.approved_head_sequence->0) && row.approved_head_sequence->0 != 0
                &&& row.approved_head_hash->0@.len() == 32
            }
            &&& id::is_uuid_v7(row.candidate_device_id@)
            &&& row.candidate_signing_key@.len() == 32
            &&& key::is_public_key(row.candidate_signing_key@)
            &&& row.candidate_recipient_key@.len() == 32
            &&& key::is_public_key(row.candidate_recipient_key@)
            &&& row.capability_hash@.len() == 32
            &&& is_time(row.expires_at_ms)
            &&& row.approver_device_id is Some ==> id::is_uuid_v7(row.approver_device_id->0@)
        },
{
}

/// An enrollment that was read says what its row says.
pub proof fn law_linked_challenge_is_that_of_the_row(
    stored: StoredLinkedChallenge,
    row: LinkedChallengeRow,
)
    requires
        recovery_catalog::is_linked_challenge_of(stored, row),
    ensures
        row.identity_id@ == text::hex(stored.identity_id@),
        stored.approved_head is Some <==> row.approved_head_sequence is Some
            && row.approved_head_hash is Some,
        stored.approved_head is Some ==> is_named_head(
            stored.approved_head->0@,
            stored.identity_id@,
            row.approved_head_sequence->0,
            row.approved_head_hash->0@,
        ),
        stored.candidate_device_id@ == row.candidate_device_id@,
        stored.candidate_signing_key@ == row.candidate_signing_key@,
        stored.candidate_recipient_key@ == row.candidate_recipient_key@,
        stored.capability_hash@ == row.capability_hash@,
        stored.state@ == row.state@,
        stored.expires_at@ == row.expires_at_ms,
        stored.protocol_version == row.protocol_version,
        stored.approver_device_id is Some <==> row.approver_device_id is Some,
        stored.approver_device_id is Some ==> stored.approver_device_id->0@
            == row.approver_device_id->0@,
{
}

/// The row of a preparation is accepted exactly if each column can hold what it is
/// for.
pub proof fn law_preparation_columns_are_typed(row: StoredPreparationRow)
    ensures
        recovery_catalog::preparation_fault(row) is None <==> {
            &&& id::is_identity_text(row.identity_id@)
            &&& id::is_uuid_v7(row.candidate_device_id@)
            &&& row.candidate_signing_key@.len() == 32
            &&& key::is_public_key(row.candidate_signing_key@)
            &&& row.candidate_recipient_key@.len() == 32
            &&& key::is_public_key(row.candidate_recipient_key@)
            &&& is_count(row.observed_head_sequence) && row.observed_head_sequence != 0
            &&& row.observed_head_hash@.len() == 32
            &&& is_time(row.expires_at_ms)
            &&& row.response_capability_hash@.len() == 32
            &&& row.enrollment_capability_hash@.len() == 32
            &&& is_count(row.catalog_generation)
            &&& row.catalog_head_digest@.len() == 32
            &&& id::is_uuid_v7(row.authority_device_id@)
            &&& row.authority_signing_key@.len() == 32
            &&& key::is_public_key(row.authority_signing_key@)
            &&& row.provider_idempotency_key_hash is Some
                ==> row.provider_idempotency_key_hash->0@.len() == 32
        },
{
}

/// A preparation that was read says what its row says.
pub proof fn law_preparation_is_that_of_the_row(
    stored: StoredPreparation,
    row: StoredPreparationRow,
)
    requires
        recovery_catalog::is_preparation_of(stored, row),
    ensures
        row.identity_id@ == text::hex(stored.identity_id@),
        stored.catalog_id@ == row.catalog_id@,
        stored.candidate_device_id@ == row.candidate_device_id@,
        stored.candidate_signing_key@ == row.candidate_signing_key@,
        stored.candidate_recipient_key@ == row.candidate_recipient_key@,
        is_named_head(
            stored.observed_head@,
            stored.identity_id@,
            row.observed_head_sequence,
            row.observed_head_hash@,
        ),
        stored.expires_at@ == row.expires_at_ms,
        stored.response_capability_hash@ == row.response_capability_hash@,
        stored.enrollment_capability_hash@ == row.enrollment_capability_hash@,
        stored.catalog_generation@ == row.catalog_generation,
        stored.catalog_head_digest@ == row.catalog_head_digest@,
        stored.authority_device_id@ == row.authority_device_id@,
        stored.authority_key@ == row.authority_signing_key@,
        stored.provider_response is Some <==> row.provider_response is Some,
        stored.provider_response is Some ==> stored.provider_response->0@
            == row.provider_response->0@,
        stored.provider_idempotency_key_hash is Some <==> row.provider_idempotency_key_hash
            is Some,
        stored.provider_idempotency_key_hash is Some ==> stored.provider_idempotency_key_hash->0@
            == row.provider_idempotency_key_hash->0@,
{
}

/// An enrollment is found exactly under the identity of the session; one of another
/// identity is rejected, and one that is not there is told like a wrong capability.
pub proof fn law_enrollment_is_found_by_its_identity(row: LinkedChallengeRow, identity: Seq<u8>)
    requires
        recovery_catalog::linked_challenge_fault(row) is None,
    ensures
        ({
            let checked = recovery_catalog_decision::linked_identity_check(Some(row), identity);
            let own = row.identity_id@ == text::hex(identity);
            &&& checked is Ok <==> own
            &&& !own ==> checked == Err::<(), IdentityPersistenceError>(
                IdentityPersistenceError::DeviceAuthenticationRejected,
            )
        }),
        recovery_catalog_decision::linked_identity_check(None, identity) == Err::<
            (),
            IdentityPersistenceError,
        >(IdentityPersistenceError::RecoveryResponseCapabilityRejected),
{
}

} // verus!
