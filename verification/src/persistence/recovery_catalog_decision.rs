//! Decisions on recovery-scope catalogs.

use vstd::prelude::*;
use crate::log::event::IdentityLogEventV1;
use crate::log::event_codec;
use crate::log::payload::IdentityLogEventPayloadV1;
use crate::log::state::LogState;
use crate::persistence::enrollment;
use crate::persistence::enrollment_command;
use crate::persistence::error::IdentityPersistenceError;
use crate::persistence::head;
use crate::persistence::head::{heads_equal, IdentityLogSnapshot};
use crate::persistence::recovery_catalog;
use crate::persistence::recovery_catalog::{
    copy_optional, read_catalog, read_linked_challenge, read_preparation, CatalogPreparationCommand,
    CatalogProviderResponseCommand, CatalogStatus, CatalogStatusInvalidation, CatalogUploadCommand,
    CurrentCatalogRow, LinkedChallengeRow, RecoveryScopeCatalogOutcome,
    RecoveryScopeCatalogStatusOutcome, StoredCatalog, StoredLinkedChallenge, StoredPreparation,
    StoredPreparationRow,
};
use crate::persistence::recovery_request;
use crate::persistence::recovery_request::has_active_device;
use crate::persistence::row::{digest, parse_identity_id, to_i64};
use crate::persistence::session::AuthenticatedDeviceSigningSession;
use crate::wire::bytes::{bytes_equal, to_vec};
use crate::wire::digest as sha;
use crate::wire::digest::Sha256Digest;
use crate::wire::id;
use crate::wire::id::{DeviceEnrollmentChallengeId, DeviceId, IdentityId};
use crate::wire::number::UtcMillis;
use crate::wire::text;
use crate::wire::text::text_equal;

verus! {

/// A generation that was published under an idempotency key, as its row holds
/// it.
#[derive(Debug)]
pub struct PublishedRow {
    /// The generation.
    pub generation: i64,
    /// The digest of the upload.
    pub upload_digest: Vec<u8>,
    /// The exact signed head.
    pub head_bytes: Vec<u8>,
}

/// The latest generation of an identity as its row holds it.
#[derive(Debug)]
pub struct LatestRow {
    /// The generation.
    pub generation: i64,
    /// The digest of its head.
    pub head_digest: Vec<u8>,
}

/// A preparation that was made under an idempotency key, as its row holds it.
#[derive(Debug)]
pub struct PreparedRow {
    /// The digest of the preparation.
    pub preparation_digest: Vec<u8>,
    /// The exact preparation.
    pub preparation_bytes: Vec<u8>,
}

/// What is known when a catalog is published, in the order in which it is found
/// out.
#[derive(Debug)]
pub struct PublishInputs {
    /// The session of the author.
    pub authenticated: Result<AuthenticatedDeviceSigningSession, IdentityPersistenceError>,
    /// Whether the author's key signs the upload.
    pub signature: Result<(), IdentityPersistenceError>,
    /// The active log of the identity.
    pub snapshot: Result<IdentityLogSnapshot, IdentityPersistenceError>,
    /// What was published under the idempotency key.
    pub published: Option<PublishedRow>,
    /// The latest generation.
    pub latest: Option<LatestRow>,
}

/// Everything that an upload must satisfy before earlier uploads are looked at.
pub open spec fn upload_check(
    command: CatalogUploadCommand,
    inputs: PublishInputs,
    now: i64,
) -> Result<(), IdentityPersistenceError> {
    if now < command.issued_at@ {
        Err(IdentityPersistenceError::InvalidCommand("catalog expiry"))
    } else if now >= command.expires_at@ {
        Err(IdentityPersistenceError::RecoveryCatalogExpired)
    } else if let Err(error) = inputs.authenticated {
        Err(error)
    } else if inputs.authenticated->Ok_0@.session.identity_id != command.identity_id@ {
        Err(IdentityPersistenceError::DeviceAuthenticationRejected)
    } else if let Err(error) = inputs.signature {
        Err(error)
    } else if let Err(error) = inputs.snapshot {
        Err(error)
    } else {
        Ok(())
    }
}

/// The upload was published before, exactly as it is now.
pub open spec fn is_published(command: CatalogUploadCommand, published: PublishedRow) -> bool {
    &&& published.generation == command.generation@
    &&& published.upload_digest@ == command.upload_digest@
}

/// The digest that an upload names as that of the head before it.
pub open spec fn named_predecessor(command: CatalogUploadCommand) -> Seq<u8> {
    match command.previous_head_digest {
        Some(digest) => digest@,
        None => Seq::new(32, |i: int| 0u8),
    }
}

/// Whether an upload follows the latest generation.
pub open spec fn succession_check(
    command: CatalogUploadCommand,
    latest: Option<LatestRow>,
) -> Result<
    (),
    IdentityPersistenceError,
> {
    let conflict = Err::<(), IdentityPersistenceError>(
        IdentityPersistenceError::RecoveryCatalogConflict,
    );
    match latest {
        None => if command.generation@ == 1 && command.previous_head_digest is None {
            Ok(())
        } else {
            conflict
        },
        Some(latest) => if latest.generation < 0 || latest.generation + 1 != command.generation@ {
            conflict
        } else if let Some(error) = recovery_catalog::digest_fault(latest.head_digest@) {
            Err(error)
        } else if latest.head_digest@ != named_predecessor(command) {
            conflict
        } else {
            Ok(())
        },
    }
}

/// Checks that an upload follows the latest generation.
fn check_succession(command: &CatalogUploadCommand, latest: &Option<LatestRow>) -> (checked: Result<
    (),
    IdentityPersistenceError,
>)
    ensures
        checked == succession_check(*command, *latest),
{
    let conflict = IdentityPersistenceError::RecoveryCatalogConflict;
    match latest {
        None => {
            if command.generation.get() == 1 && command.previous_head_digest.is_none() {
                Ok(())
            } else {
                Err(conflict)
            }
        },
        Some(latest) => {
            if latest.generation < 0 || latest.generation as u64 + 1 != command.generation.get() {
                return Err(conflict);
            }
            let stored = match digest(latest.head_digest.as_slice(), "fixed bytes") {
                Ok(stored) => stored,
                Err(error) => {
                    return Err(error);
                },
            };
            let named = match command.previous_head_digest {
                Some(named) => named,
                None => {
                    let zero: [u8; 32] = [0u8; 32];
                    assert(zero@ =~= Seq::new(32, |i: int| 0u8));
                    Sha256Digest::from_bytes(zero)
                },
            };
            if stored != named {
                return Err(conflict);
            }
            Ok(())
        },
    }
}

/// What a preparation stands on.
#[derive(Clone, Copy, Debug)]
pub struct PreparationValidity {
    /// Why it no longer holds, if it does not.
    pub invalidation: Option<CatalogStatusInvalidation>,
    /// The device that may provide the history besides the authority.
    pub history_provider_device_id: Option<DeviceId>,
    /// Whether the candidate is part of the identity by now.
    pub candidate_added: bool,
}

/// What a preparation stands on.
pub struct Validity {
    pub invalidation: Option<CatalogStatusInvalidation>,
    pub history_provider: Option<Seq<u8>>,
    pub candidate_added: bool,
}

/// The optional device.
pub open spec fn device_view(device: Option<DeviceId>) -> Option<Seq<u8>> {
    match device {
        Some(device) => Some(device@),
        None => None,
    }
}

impl PreparationValidity {
    /// What the preparation stands on.
    pub open spec fn view(&self) -> Validity {
        Validity {
            invalidation: self.invalidation,
            history_provider: device_view(self.history_provider_device_id),
            candidate_added: self.candidate_added,
        }
    }
}

/// The preparation no longer holds.
pub open spec fn invalidated(reason: CatalogStatusInvalidation) -> Validity {
    Validity { invalidation: Some(reason), history_provider: None, candidate_added: false }
}

/// The preparation holds, and its candidate is not part of the identity yet.
pub open spec fn valid_before_enrollment() -> Validity {
    Validity { invalidation: None, history_provider: None, candidate_added: false }
}

/// The challenge is the one that the preparation was made for.
pub open spec fn is_challenge_of(
    challenge: StoredLinkedChallenge,
    preparation: StoredPreparation,
) -> bool {
    &&& challenge.identity_id@ == preparation.identity_id@
    &&& challenge.protocol_version == 1
    &&& challenge.candidate_device_id@ == preparation.candidate_device_id@
    &&& challenge.candidate_signing_key@ == preparation.candidate_signing_key@
    &&& challenge.candidate_recipient_key@ == preparation.candidate_recipient_key@
    &&& challenge.capability_hash@ == preparation.enrollment_capability_hash@
}

/// The latest catalog is still the one that the preparation was made for.
pub open spec fn is_current(
    preparation: StoredPreparation,
    current: CurrentCatalogRow,
    state: LogState,
    now: i64,
) -> bool {
    &&& current.catalog_id@ == preparation.catalog_id@
    &&& current.generation == preparation.catalog_generation@
    &&& current.head_digest@ == preparation.catalog_head_digest@
    &&& recovery_catalog::stored_head(
        preparation.identity_id@,
        current.observed_head_sequence,
        current.observed_head_hash@,
    ) == preparation.observed_head@
    &&& current.authority_signing_key@ == preparation.authority_key@
    &&& now < current.expires_at_ms
    &&& current.authority_device_id@ == preparation.authority_device_id@
    &&& recovery_request::is_active_device(
        state,
        preparation.authority_device_id@,
        preparation.authority_key@,
    )
}

/// What a preparation stands on once its enrollment was approved: the log's
/// last event adds exactly the candidate, directly after the observed head.
pub open spec fn approved_validity(
    preparation: StoredPreparation,
    challenge: StoredLinkedChallenge,
    state: LogState,
    events: Seq<Seq<u8>>,
) -> Result<Validity, IdentityPersistenceError> {
    let decoded = event_codec::decode_event(events.last());
    let unsigned = decoded->Ok_0.unsigned;
    let certificate = unsigned.payload->DeviceAdd_certificate.unsigned;
    if challenge.state@ != "approved"@ || head::head_view(challenge.approved_head) != Some(
        head::head_of(state),
    ) || state.head_sequence != preparation.observed_head@.sequence + 1 {
        Ok(invalidated(CatalogStatusInvalidation::Identity))
    } else if events.len() == 0 {
        Err(recovery_catalog::corrupt("identity successor"))
    } else if let Err(error) = decoded {
        Err(IdentityPersistenceError::IdentityLog(error))
    } else if !(unsigned.payload is DeviceAdd) {
        Ok(invalidated(CatalogStatusInvalidation::Identity))
    } else if unsigned.previous_event_hash != Some(preparation.observed_head@.hash)
        || certificate.device_id != preparation.candidate_device_id@
        || certificate.device_signing_key != preparation.candidate_signing_key@
        || certificate.device_encryption_key != preparation.candidate_recipient_key@ {
        Ok(invalidated(CatalogStatusInvalidation::Key))
    } else {
        match challenge.approver_device_id {
            None => Err(recovery_catalog::corrupt("approved enrollment history provider")),
            Some(approver) => Ok(
                Validity {
                    invalidation: None,
                    history_provider: Some(approver@),
                    candidate_added: true,
                },
            ),
        }
    }
}

/// What a preparation stands on at `now`. An expired one is not looked into.
pub open spec fn validity(
    preparation: StoredPreparation,
    challenge: StoredLinkedChallenge,
    current: Option<CurrentCatalogRow>,
    state: LogState,
    events: Seq<Seq<u8>>,
    now: i64,
) -> Result<Validity, IdentityPersistenceError> {
    if now >= preparation.expires_at@ {
        Ok(valid_before_enrollment())
    } else if !is_challenge_of(challenge, preparation) {
        Ok(invalidated(CatalogStatusInvalidation::Key))
    } else if current is None {
        Ok(invalidated(CatalogStatusInvalidation::Catalog))
    } else if let Some(error) = recovery_catalog::catalog_fault(current->0) {
        Err(error)
    } else if !is_current(preparation, current->0, state, now) {
        Ok(invalidated(CatalogStatusInvalidation::Catalog))
    } else if challenge.state@ == "open"@ {
        if now >= challenge.expires_at@ || head::head_of(state) != preparation.observed_head@ {
            Ok(invalidated(CatalogStatusInvalidation::Identity))
        } else {
            Ok(valid_before_enrollment())
        }
    } else {
        approved_validity(preparation, challenge, state, events)
    }
}

/// The preparation no longer holds.
fn invalid_for(reason: CatalogStatusInvalidation) -> (validity: PreparationValidity)
    ensures
        validity@ == invalidated(reason),
{
    PreparationValidity {
        invalidation: Some(reason),
        history_provider_device_id: None,
        candidate_added: false,
    }
}

/// The preparation holds, and its candidate is not part of the identity yet.
fn holds_before_enrollment() -> (validity: PreparationValidity)
    ensures
        validity@ == valid_before_enrollment(),
{
    PreparationValidity {
        invalidation: None,
        history_provider_device_id: None,
        candidate_added: false,
    }
}

/// Tells what an approved preparation stands on.
fn approved_preparation_validity(
    preparation: &StoredPreparation,
    challenge: &StoredLinkedChallenge,
    snapshot: &IdentityLogSnapshot,
) -> (told: Result<PreparationValidity, IdentityPersistenceError>)
    ensures
        match told {
            Ok(told) => approved_validity(*preparation, *challenge, snapshot@, snapshot.events())
                == Ok::<Validity, IdentityPersistenceError>(told@),
            Err(error) => approved_validity(
                *preparation,
                *challenge,
                snapshot@,
                snapshot.events(),
            ) == Err::<Validity, IdentityPersistenceError>(error),
        },
{
    let current_head = snapshot.head();
    if !text_equal(challenge.state.as_str(), "approved") || !heads_equal(
        challenge.approved_head,
        Some(current_head),
    ) || current_head.sequence().get() != preparation.observed_head.sequence().get() + 1 {
        return Ok(invalid_for(CatalogStatusInvalidation::Identity));
    }
    let events = snapshot.exact_events();
    if events.len() == 0 {
        return Err(IdentityPersistenceError::CorruptData("identity successor"));
    }
    let last: usize = events.len() - 1;
    assert(snapshot.events().last() == events@[last as int]@);
    let event = match IdentityLogEventV1::decode_and_verify(events[last].as_slice()) {
        Ok(event) => event,
        Err(error) => {
            return Err(IdentityPersistenceError::IdentityLog(error));
        },
    };
    let follows = match event.previous_event_hash() {
        Some(previous) => previous == preparation.observed_head.hash(),
        None => false,
    };
    match event.payload() {
        IdentityLogEventPayloadV1::DeviceAdd { certificate } => {
            if !follows || certificate.device_id() != preparation.candidate_device_id
                || certificate.device_signing_key() != preparation.candidate_signing_key
                || certificate.device_encryption_key() != preparation.candidate_recipient_key {
                return Ok(invalid_for(CatalogStatusInvalidation::Key));
            }
        },
        _ => {
            return Ok(invalid_for(CatalogStatusInvalidation::Identity));
        },
    }
    match challenge.approver_device_id {
        Some(approver) => Ok(
            PreparationValidity {
                invalidation: None,
                history_provider_device_id: Some(approver),
                candidate_added: true,
            },
        ),
        None => Err(
            IdentityPersistenceError::CorruptData("approved enrollment history provider"),
        ),
    }
}

/// Tells what a preparation stands on.
pub fn preparation_validity(
    preparation: &StoredPreparation,
    challenge: &StoredLinkedChallenge,
    current: &Option<CurrentCatalogRow>,
    snapshot: &IdentityLogSnapshot,
    now: UtcMillis,
) -> (told: Result<PreparationValidity, IdentityPersistenceError>)
    ensures
        ({
            let expected = validity(
                *preparation,
                *challenge,
                *current,
                snapshot@,
                snapshot.events(),
                now@,
            );
            match told {
                Ok(told) => expected == Ok::<Validity, IdentityPersistenceError>(told@),
                Err(error) => expected == Err::<Validity, IdentityPersistenceError>(error),
            }
        }),
{
    if now.get() >= preparation.expires_at.get() {
        return Ok(holds_before_enrollment());
    }
    if challenge.identity_id != preparation.identity_id || challenge.protocol_version != 1
        || challenge.candidate_device_id != preparation.candidate_device_id
        || challenge.candidate_signing_key != preparation.candidate_signing_key
        || challenge.candidate_recipient_key != preparation.candidate_recipient_key
        || challenge.capability_hash != preparation.enrollment_capability_hash {
        return Ok(invalid_for(CatalogStatusInvalidation::Key));
    }
    let row = match current {
        Some(row) => row,
        None => {
            return Ok(invalid_for(CatalogStatusInvalidation::Catalog));
        },
    };
    let catalog = match read_catalog(preparation.identity_id, row) {
        Ok(catalog) => catalog,
        Err(error) => {
            return Err(error);
        },
    };
    if !bytes_equal(&catalog.catalog_id, &preparation.catalog_id) || catalog.generation.get()
        != preparation.catalog_generation.get() || catalog.head_digest
        != preparation.catalog_head_digest || catalog.observed_head != preparation.observed_head
        || catalog.authority_key != preparation.authority_key || now.get()
        >= catalog.expires_at.get() || catalog.authority_device_id
        != preparation.authority_device_id || !has_active_device(
        snapshot.projection(),
        preparation.authority_device_id,
        preparation.authority_key,
    ) {
        return Ok(invalid_for(CatalogStatusInvalidation::Catalog));
    }
    if text_equal(challenge.state.as_str(), "open") {
        if now.get() >= challenge.expires_at.get() || snapshot.head()
            != preparation.observed_head {
            return Ok(invalid_for(CatalogStatusInvalidation::Identity));
        }
        return Ok(holds_before_enrollment());
    }
    approved_preparation_validity(preparation, challenge, snapshot)
}

/// How a preparation stands, given why it no longer holds.
pub open spec fn status_with(
    preparation: StoredPreparation,
    challenge: StoredLinkedChallenge,
    invalidation: Option<CatalogStatusInvalidation>,
    now: i64,
) -> CatalogStatus {
    if challenge.state@ == "cancelled"@ {
        CatalogStatus::Cancelled
    } else if now >= preparation.expires_at@ {
        CatalogStatus::Expired
    } else if let Some(reason) = invalidation {
        CatalogStatus::Invalidated(reason)
    } else if preparation.provider_response is Some {
        CatalogStatus::ResponseAvailable
    } else {
        CatalogStatus::Pending
    }
}

/// The outcome says how the preparation stands, with its response exactly where
/// one is available.
pub open spec fn is_status_of(
    outcome: RecoveryScopeCatalogStatusOutcome,
    preparation: StoredPreparation,
    status: CatalogStatus,
    now: i64,
) -> bool {
    &&& outcome.request_id@ == preparation.request_id@
    &&& outcome.status == status
    &&& recovery_catalog::bytes_view(outcome.provider_response) == if status
        == CatalogStatus::ResponseAvailable {
        recovery_catalog::bytes_view(preparation.provider_response)
    } else {
        None
    }
    &&& outcome.observed_at@ == if status == CatalogStatus::Expired {
        preparation.expires_at@
    } else {
        now
    }
}

/// Tells how a preparation stands.
pub fn current_preparation_status(
    preparation: &StoredPreparation,
    challenge: &StoredLinkedChallenge,
    current: &Option<CurrentCatalogRow>,
    snapshot: &IdentityLogSnapshot,
    now: UtcMillis,
) -> (told: Result<RecoveryScopeCatalogStatusOutcome, IdentityPersistenceError>)
    ensures
        ({
            let valid = validity(
                *preparation,
                *challenge,
                *current,
                snapshot@,
                snapshot.events(),
                now@,
            );
            match told {
                Ok(outcome) => {
                    &&& valid is Ok
                    &&& is_status_of(
                        outcome,
                        *preparation,
                        status_with(*preparation, *challenge, valid->Ok_0.invalidation, now@),
                        now@,
                    )
                },
                Err(error) => valid == Err::<Validity, IdentityPersistenceError>(error),
            }
        }),
{
    let invalidation = match preparation_validity(preparation, challenge, current, snapshot, now) {
        Ok(validity) => validity.invalidation,
        Err(error) => {
            return Err(error);
        },
    };
    let status = if text_equal(challenge.state.as_str(), "cancelled") {
        CatalogStatus::Cancelled
    } else if now.get() >= preparation.expires_at.get() {
        CatalogStatus::Expired
    } else if let Some(reason) = invalidation {
        CatalogStatus::Invalidated(reason)
    } else if preparation.provider_response.is_some() {
        CatalogStatus::ResponseAvailable
    } else {
        CatalogStatus::Pending
    };
    Ok(
        RecoveryScopeCatalogStatusOutcome {
            request_id: preparation.request_id,
            status,
            provider_response: if status == CatalogStatus::ResponseAvailable {
                copy_optional(&preparation.provider_response)
            } else {
                None
            },
            observed_at: if status == CatalogStatus::Expired {
                preparation.expires_at
            } else {
                now
            },
        },
    )
}

/// The challenge has the candidate that the preparation names.
pub open spec fn is_candidate_of(
    challenge: StoredLinkedChallenge,
    command: CatalogPreparationCommand,
) -> bool {
    &&& challenge.identity_id@ == command.identity_id@
    &&& challenge.candidate_device_id@ == command.candidate_device_id@
    &&& challenge.candidate_signing_key@ == command.candidate_signing_key@
    &&& challenge.candidate_recipient_key@ == command.candidate_recipient_key@
}

impl StoredLinkedChallenge {
    /// Whether the digest is that of the challenge's capability.
    pub fn matches_capability(&self, capability_hash: Sha256Digest) -> (matches: bool)
        ensures
            matches == (self.capability_hash@ == capability_hash@),
    {
        self.capability_hash.equal_in_constant_time(&capability_hash)
    }

    /// Whether the challenge has the candidate that the preparation names.
    pub fn matches_candidate(&self, command: &CatalogPreparationCommand) -> (matches: bool)
        ensures
            matches == is_candidate_of(*self, *command),
    {
        self.identity_id == command.identity_id && self.candidate_device_id
            == command.candidate_device_id && self.candidate_signing_key
            == command.candidate_signing_key && self.candidate_recipient_key
            == command.candidate_recipient_key
    }
}

/// Whether a preparation comes from the challenge's own candidate.
pub open spec fn candidate_check(
    command: CatalogPreparationCommand,
    identity: Seq<u8>,
    challenge: StoredLinkedChallenge,
) -> Result<(), IdentityPersistenceError> {
    if challenge.identity_id@ != identity {
        Err(recovery_catalog::corrupt("linked enrollment identity changed"))
    } else if challenge.capability_hash@ != enrollment_command::capability_digest(
        command.enrollment_capability@,
    ) {
        Err(IdentityPersistenceError::DeviceEnrollmentCapabilityRejected)
    } else if !is_candidate_of(challenge, command) {
        Err(IdentityPersistenceError::RecoveryCandidateKeyChanged)
    } else {
        Ok(())
    }
}

/// Whether a row is that of exactly this preparation.
pub open spec fn prepared_check(
    command: CatalogPreparationCommand,
    prepared: PreparedRow,
) -> Result<
    (),
    IdentityPersistenceError,
> {
    if let Some(error) = recovery_catalog::digest_fault(prepared.preparation_digest@) {
        Err(error)
    } else if prepared.preparation_digest@ != command.digest@ || prepared.preparation_bytes@
        != command.exact_bytes@ {
        Err(IdentityPersistenceError::IdempotencyConflict)
    } else {
        Ok(())
    }
}

/// Whether a new preparation is in time for its challenge.
pub open spec fn timing_check(
    command: CatalogPreparationCommand,
    challenge: StoredLinkedChallenge,
    now: i64,
) -> Result<(), IdentityPersistenceError> {
    if challenge.protocol_version != 1 || challenge.state@ != "open"@ {
        Err(IdentityPersistenceError::RecoveryPreparationRevoked)
    } else if now < command.issued_at@ {
        Err(IdentityPersistenceError::InvalidCommand("preparation issuance"))
    } else if now >= command.expires_at@ || challenge.expires_at@ <= now {
        Err(IdentityPersistenceError::RecoveryPreparationExpired)
    } else if command.expires_at@ > challenge.expires_at@ {
        Err(IdentityPersistenceError::InvalidCommand("preparation exceeds enrollment expiry"))
    } else {
        Ok(())
    }
}

/// Whether the latest catalog is the one that a new preparation names.
pub open spec fn named_catalog_check(
    command: CatalogPreparationCommand,
    current: Option<CurrentCatalogRow>,
    state: LogState,
    now: i64,
) -> Result<(), IdentityPersistenceError> {
    if current is None {
        Err(IdentityPersistenceError::RecoveryCatalogHeadChanged)
    } else if let Some(error) = recovery_catalog::catalog_fault(current->0) {
        Err(error)
    } else if now >= (current->0).expires_at_ms {
        Err(IdentityPersistenceError::RecoveryCatalogExpired)
    } else if !recovery_request::is_active_device(
        state,
        (current->0).authority_device_id@,
        (current->0).authority_signing_key@,
    ) {
        Err(IdentityPersistenceError::RecoveryAuthorityChanged)
    } else if recovery_catalog::stored_head(
        command.identity_id@,
        (current->0).observed_head_sequence,
        (current->0).observed_head_hash@,
    ) != command.observed_head@ || command.catalog_id@ != (current->0).catalog_id@ {
        Err(IdentityPersistenceError::RecoveryCatalogHeadChanged)
    } else if command.expires_at@ > (current->0).expires_at_ms {
        Err(IdentityPersistenceError::InvalidCommand("preparation exceeds catalog expiry"))
    } else {
        Ok(())
    }
}

/// Checks that a new preparation is in time for its challenge.
fn check_timing(
    command: &CatalogPreparationCommand,
    challenge: &StoredLinkedChallenge,
    now: UtcMillis,
) -> (checked: Result<(), IdentityPersistenceError>)
    ensures
        checked == timing_check(*command, *challenge, now@),
{
    if challenge.protocol_version != 1 || !text_equal(challenge.state.as_str(), "open") {
        return Err(IdentityPersistenceError::RecoveryPreparationRevoked);
    }
    if now.get() < command.issued_at.get() {
        return Err(IdentityPersistenceError::InvalidCommand("preparation issuance"));
    }
    if now.get() >= command.expires_at.get() {
        return Err(IdentityPersistenceError::RecoveryPreparationExpired);
    }
    if challenge.expires_at.get() <= now.get() {
        return Err(IdentityPersistenceError::RecoveryPreparationExpired);
    }
    if command.expires_at.get() > challenge.expires_at.get() {
        return Err(
            IdentityPersistenceError::InvalidCommand("preparation exceeds enrollment expiry"),
        );
    }
    Ok(())
}

/// Checks that the latest catalog is the one that a new preparation names.
fn check_named_catalog(
    command: &CatalogPreparationCommand,
    current: &Option<CurrentCatalogRow>,
    snapshot: &IdentityLogSnapshot,
    now: UtcMillis,
) -> (checked: Result<StoredCatalog, IdentityPersistenceError>)
    ensures
        match checked {
            Ok(catalog) => {
                &&& named_catalog_check(*command, *current, snapshot@, now@) is Ok
                &&& recovery_catalog::is_catalog_of(catalog, current->0, command.identity_id@)
            },
            Err(error) => named_catalog_check(*command, *current, snapshot@, now@) == Err::<
                (),
                IdentityPersistenceError,
            >(error),
        },
{
    let row = match current {
        Some(row) => row,
        None => {
            return Err(IdentityPersistenceError::RecoveryCatalogHeadChanged);
        },
    };
    let catalog = match read_catalog(command.identity_id, row) {
        Ok(catalog) => catalog,
        Err(error) => {
            return Err(error);
        },
    };
    if now.get() >= catalog.expires_at.get() {
        return Err(IdentityPersistenceError::RecoveryCatalogExpired);
    }
    if !has_active_device(
        snapshot.projection(),
        catalog.authority_device_id,
        catalog.authority_key,
    ) {
        return Err(IdentityPersistenceError::RecoveryAuthorityChanged);
    }
    if catalog.observed_head != command.observed_head {
        return Err(IdentityPersistenceError::RecoveryCatalogHeadChanged);
    }
    if !bytes_equal(&command.catalog_id, &catalog.catalog_id) {
        return Err(IdentityPersistenceError::RecoveryCatalogHeadChanged);
    }
    if command.expires_at.get() > catalog.expires_at.get() {
        return Err(IdentityPersistenceError::InvalidCommand("preparation exceeds catalog expiry"));
    }
    Ok(catalog)
}

/// What became of a preparation.
#[derive(Debug)]
pub struct Preparation {
    /// The catalog that a new preparation freezes; none where an earlier one was
    /// replayed.
    pub frozen: Option<StoredCatalog>,
    /// How the preparation stands.
    pub outcome: RecoveryScopeCatalogStatusOutcome,
}

/// What is known when a provider responds, in the order in which it is found
/// out.
#[derive(Debug)]
pub struct ResponseInputs {
    /// The session of the provider.
    pub authenticated: Result<AuthenticatedDeviceSigningSession, IdentityPersistenceError>,
    /// The active log of the identity.
    pub snapshot: Result<IdentityLogSnapshot, IdentityPersistenceError>,
    /// The challenge of the request.
    pub challenge: Option<LinkedChallengeRow>,
    /// The preparation of the request.
    pub preparation: Option<StoredPreparationRow>,
    /// The latest catalog of the identity.
    pub current: Option<CurrentCatalogRow>,
    /// Domain separator for the digest of an authority's key.
    pub authority_key_domain: String,
    /// Domain separator for the digest of a recipient key.
    pub recipient_key_domain: String,
}

/// The provider is the authority, the approver, or the candidate itself once it
/// is part of the identity.
pub open spec fn is_allowed_provider(
    command: CatalogProviderResponseCommand,
    preparation: StoredPreparation,
    valid: Validity,
) -> bool {
    ||| command.provider_device_id@ == preparation.authority_device_id@
        && command.provider_signing_key@ == preparation.authority_key@
    ||| valid.history_provider == Some(command.provider_device_id@)
    ||| valid.candidate_added && command.provider_device_id@ == preparation.candidate_device_id@
        && command.provider_signing_key@ == preparation.candidate_signing_key@
}

/// Whether the provider may respond at all.
fn provider_is_allowed(
    command: &CatalogProviderResponseCommand,
    preparation: &StoredPreparation,
    valid: PreparationValidity,
) -> (allowed: bool)
    ensures
        allowed == is_allowed_provider(*command, *preparation, valid@),
{
    let is_history_provider = match valid.history_provider_device_id {
        Some(device_id) => device_id == command.provider_device_id,
        None => false,
    };
    (command.provider_device_id == preparation.authority_device_id && command.provider_signing_key
        == preparation.authority_key) || is_history_provider || (valid.candidate_added
        && command.provider_device_id == preparation.candidate_device_id
        && command.provider_signing_key == preparation.candidate_signing_key)
}

/// Whether a stored challenge is intact and belongs to an identity.
pub open spec fn linked_identity_check(
    row: Option<LinkedChallengeRow>,
    identity: Seq<u8>,
) -> Result<(), IdentityPersistenceError> {
    if row is None {
        Err(IdentityPersistenceError::RecoveryResponseCapabilityRejected)
    } else if let Some(error) = recovery_catalog::linked_challenge_fault(row->0) {
        Err(error)
    } else if (row->0).identity_id@ != text::hex(identity) {
        Err(IdentityPersistenceError::DeviceAuthenticationRejected)
    } else {
        Ok(())
    }
}

/// Whether the response comes from its provider and belongs to its identity.
pub open spec fn response_origin_check(
    command: CatalogProviderResponseCommand,
    inputs: ResponseInputs,
) -> Result<(), IdentityPersistenceError> {
    let session = inputs.authenticated->Ok_0@;
    let preparation = inputs.preparation->0;
    let rejected = Err::<(), IdentityPersistenceError>(
        IdentityPersistenceError::DeviceAuthenticationRejected,
    );
    if let Err(error) = inputs.authenticated {
        Err(error)
    } else if session.session.device_id != command.provider_device_id@ || session.signing_key
        != command.provider_signing_key@ {
        rejected
    } else if let Err(error) = inputs.snapshot {
        Err(error)
    } else if let Err(error) = linked_identity_check(
        inputs.challenge,
        session.session.identity_id,
    ) {
        Err(error)
    } else if inputs.preparation is None {
        Err(IdentityPersistenceError::RecoveryResponseCapabilityRejected)
    } else if let Some(error) = recovery_catalog::preparation_fault(preparation) {
        Err(error)
    } else if preparation.identity_id@ != text::hex(session.session.identity_id) {
        rejected
    } else {
        Ok(())
    }
}

/// Whether a response from the right provider answers the preparation.
pub open spec fn response_check(
    command: CatalogProviderResponseCommand,
    preparation: StoredPreparation,
    challenge: StoredLinkedChallenge,
    inputs: ResponseInputs,
    now: i64,
) -> Result<(), IdentityPersistenceError> {
    let snapshot = inputs.snapshot->Ok_0;
    let valid = validity(
        preparation,
        challenge,
        inputs.current,
        snapshot@,
        snapshot.events(),
        now,
    );
    if challenge.protocol_version != 1 || (challenge.state@ != "open"@ && challenge.state@
        != "approved"@) {
        Err(IdentityPersistenceError::RecoveryPreparationRevoked)
    } else if now >= preparation.expires_at@ || command.expires_at@ <= now {
        Err(IdentityPersistenceError::RecoveryPreparationExpired)
    } else if let Err(error) = valid {
        Err(error)
    } else if valid->Ok_0.invalidation is Some || command.catalog_head_digest@
        != preparation.catalog_head_digest@ || command.current_authority_digest@
        != sha::hash_in_domain(inputs.authority_key_domain@, preparation.authority_key@)
        || command.recipient_key_digest@ != sha::hash_in_domain(
        inputs.recipient_key_domain@,
        preparation.candidate_recipient_key@,
    ) || command.expires_at@ > preparation.expires_at@ || !is_allowed_provider(
        command,
        preparation,
        valid->Ok_0,
    ) {
        Err(IdentityPersistenceError::RecoveryPreparationInvalidated)
    } else if preparation.provider_response is Some && (recovery_catalog::digest_view(
        preparation.provider_idempotency_key_hash,
    ) != Some(command.idempotency_key_hash@) || preparation.provider_response->0@
        != command.exact_bytes@) {
        Err(IdentityPersistenceError::RecoveryPreparationConflict)
    } else {
        Ok(())
    }
}

/// Checks that a response from the right provider answers the preparation.
fn check_response(
    command: &CatalogProviderResponseCommand,
    preparation: &StoredPreparation,
    challenge: &StoredLinkedChallenge,
    inputs: &ResponseInputs,
    snapshot: &IdentityLogSnapshot,
    now: UtcMillis,
) -> (checked: Result<(), IdentityPersistenceError>)
    requires
        inputs.snapshot == Ok::<IdentityLogSnapshot, IdentityPersistenceError>(*snapshot),
    ensures
        checked == response_check(*command, *preparation, *challenge, *inputs, now@),
{
    if challenge.protocol_version != 1 || (!text_equal(challenge.state.as_str(), "open")
        && !text_equal(challenge.state.as_str(), "approved")) {
        return Err(IdentityPersistenceError::RecoveryPreparationRevoked);
    }
    if now.get() >= preparation.expires_at.get() || command.expires_at.get() <= now.get() {
        return Err(IdentityPersistenceError::RecoveryPreparationExpired);
    }
    let valid = match preparation_validity(
        preparation,
        challenge,
        &inputs.current,
        snapshot,
        now,
    ) {
        Ok(valid) => valid,
        Err(error) => {
            return Err(error);
        },
    };
    if valid.invalidation.is_some() {
        return Err(IdentityPersistenceError::RecoveryPreparationInvalidated);
    }
    if command.catalog_head_digest != preparation.catalog_head_digest
        || command.current_authority_digest != Sha256Digest::hash_domain(
        inputs.authority_key_domain.as_str(),
        preparation.authority_key.as_bytes(),
    ) || command.recipient_key_digest != Sha256Digest::hash_domain(
        inputs.recipient_key_domain.as_str(),
        preparation.candidate_recipient_key.as_bytes(),
    ) || command.expires_at.get() > preparation.expires_at.get() || !provider_is_allowed(
        command,
        preparation,
        valid,
    ) {
        return Err(IdentityPersistenceError::RecoveryPreparationInvalidated);
    }
    if let Some(existing) = &preparation.provider_response {
        let same_key = match preparation.provider_idempotency_key_hash {
            Some(key) => key == command.idempotency_key_hash,
            None => false,
        };
        if !same_key || !bytes_equal(existing.as_slice(), command.exact_bytes.as_slice()) {
            return Err(IdentityPersistenceError::RecoveryPreparationConflict);
        }
    }
    Ok(())
}

/// What became of a response.
#[derive(Debug)]
pub struct ProviderResponseDecision {
    /// Whether the response is to be recorded; it is not where it was before.
    pub records: bool,
    /// How the preparation stands.
    pub outcome: RecoveryScopeCatalogStatusOutcome,
}

/// The preparation and the challenge are the ones that the rows hold.
pub open spec fn are_read_from(
    preparation: StoredPreparation,
    challenge: StoredLinkedChallenge,
    inputs: ResponseInputs,
    request: Seq<u8>,
) -> bool {
    &&& preparation.request_id@ == request
    &&& recovery_catalog::is_preparation_of(preparation, inputs.preparation->0)
    &&& recovery_catalog::is_linked_challenge_of(challenge, inputs.challenge->0)
}

/// Durable recovery-scope catalogs.
#[derive(Clone, Copy, Debug, Default)]
pub struct RecoveryScopeCatalogRepository;

impl RecoveryScopeCatalogRepository {
    /// Takes an upload only from its issuance until it expires.
    pub fn admit_upload(&self, command: &CatalogUploadCommand, now: UtcMillis) -> (admitted: Result<
        (),
        IdentityPersistenceError,
    >)
        ensures
            admitted == if now@ < command.issued_at@ {
                Err::<(), IdentityPersistenceError>(
                    IdentityPersistenceError::InvalidCommand("catalog expiry"),
                )
            } else if now@ >= command.expires_at@ {
                Err(IdentityPersistenceError::RecoveryCatalogExpired)
            } else {
                Ok(())
            },
    {
        if now.get() < command.issued_at.get() {
            return Err(IdentityPersistenceError::InvalidCommand("catalog expiry"));
        }
        if now.get() >= command.expires_at.get() {
            return Err(IdentityPersistenceError::RecoveryCatalogExpired);
        }
        Ok(())
    }

    /// Takes an upload only from a session of its identity.
    pub fn admit_author(
        &self,
        command: &CatalogUploadCommand,
        authenticated: &AuthenticatedDeviceSigningSession,
    ) -> (admitted: Result<(), IdentityPersistenceError>)
        ensures
            admitted == if authenticated@.session.identity_id == command.identity_id@ {
                Ok::<(), IdentityPersistenceError>(())
            } else {
                Err(IdentityPersistenceError::DeviceAuthenticationRejected)
            },
    {
        if authenticated.session().identity_id() != command.identity_id {
            return Err(IdentityPersistenceError::DeviceAuthenticationRejected);
        }
        Ok(())
    }

    /// Decides on one immutable catalog generation: its exact head is replayed
    /// where it was published before.
    pub fn publish(
        &self,
        command: &CatalogUploadCommand,
        inputs: &PublishInputs,
        now: UtcMillis,
    ) -> (outcome:
        Result<RecoveryScopeCatalogOutcome, IdentityPersistenceError>)
        ensures
            ({
                let state = inputs.snapshot->Ok_0@;
                match outcome {
                    Ok(outcome) => {
                        &&& upload_check(*command, *inputs, now@) is Ok
                        &&& match inputs.published {
                            Some(published) => {
                                &&& is_published(*command, published)
                                &&& !outcome.created
                                &&& outcome.exact_head_bytes@ == published.head_bytes@
                            },
                            None => {
                                &&& head::head_of(state) == command.observed_head@
                                &&& succession_check(*command, inputs.latest) is Ok
                                &&& outcome.created
                                &&& outcome.exact_head_bytes@ == command.head_bytes@
                            },
                        }
                    },
                    Err(error) => if let Err(refused) = upload_check(*command, *inputs, now@) {
                        error == refused
                    } else if let Some(published) = inputs.published {
                        &&& !is_published(*command, published)
                        &&& error == IdentityPersistenceError::IdempotencyConflict
                    } else if head::head_of(state) != command.observed_head@ {
                        enrollment::is_head_conflict(error, head::head_of(state))
                    } else {
                        succession_check(*command, inputs.latest) == Err::<
                            (),
                            IdentityPersistenceError,
                        >(error)
                    },
                }
            }),
    {
        if let Err(error) = self.admit_upload(command, now) {
            return Err(error);
        }
        match &inputs.authenticated {
            Ok(authenticated) => {
                if let Err(error) = self.admit_author(command, authenticated) {
                    return Err(error);
                }
            },
            Err(error) => {
                return Err(*error);
            },
        }
        if let Err(error) = &inputs.signature {
            return Err(*error);
        }
        let snapshot = match &inputs.snapshot {
            Ok(snapshot) => snapshot,
            Err(error) => {
                return Err(*error);
            },
        };
        if let Some(published) = &inputs.published {
            if published.generation == to_i64(command.generation) && bytes_equal(
                published.upload_digest.as_slice(),
                command.upload_digest.as_bytes(),
            ) {
                return Ok(
                    RecoveryScopeCatalogOutcome {
                        created: false,
                        exact_head_bytes: to_vec(published.head_bytes.as_slice()),
                    },
                );
            }
            return Err(IdentityPersistenceError::IdempotencyConflict);
        }
        let head = snapshot.head();
        if head != command.observed_head {
            return Err(IdentityPersistenceError::HeadConflict { current: Some(head) });
        }
        if let Err(error) = check_succession(command, &inputs.latest) {
            return Err(error);
        }
        Ok(
            RecoveryScopeCatalogOutcome {
                created: true,
                exact_head_bytes: to_vec(command.head_bytes.as_slice()),
            },
        )
    }

    /// Tells the identity of an enrollment challenge before its log is locked.
    pub fn linked_challenge_identity_hint(&self, identity_id: &Option<String>) -> (identity: Result<
        IdentityId,
        IdentityPersistenceError,
    >)
        ensures
            match identity {
                Ok(identity) => {
                    &&& identity_id is Some
                    &&& (identity_id->0)@ == text::hex(identity@)
                },
                Err(error) => if identity_id is None {
                    error == IdentityPersistenceError::RecoveryResponseCapabilityRejected
                } else {
                    recovery_catalog::identity_fault(
                        (identity_id->0)@,
                        "linked enrollment identity",
                    ) == Some(error)
                },
            },
    {
        match identity_id {
            Some(identity_id) => parse_identity_id(
                identity_id.as_str(),
                "linked enrollment identity",
            ),
            None => Err(IdentityPersistenceError::RecoveryResponseCapabilityRejected),
        }
    }

    /// Takes a preparation only from the candidate of its enrollment challenge.
    pub fn admit_candidate(
        &self,
        command: &CatalogPreparationCommand,
        identity_id: IdentityId,
        challenge: &StoredLinkedChallenge,
    ) -> (admitted: Result<(), IdentityPersistenceError>)
        ensures
            admitted == candidate_check(*command, identity_id@, *challenge),
    {
        if challenge.identity_id != identity_id {
            return Err(IdentityPersistenceError::CorruptData("linked enrollment identity changed"));
        }
        if !challenge.matches_capability(command.enrollment_capability.hash()) {
            return Err(IdentityPersistenceError::DeviceEnrollmentCapabilityRejected);
        }
        if !challenge.matches_candidate(command) {
            return Err(IdentityPersistenceError::RecoveryCandidateKeyChanged);
        }
        Ok(())
    }

    /// Decides on the preparation of a catalog for an ordinary enrollment
    /// challenge: it freezes the catalog and the identity head.
    pub fn prepare(
        &self,
        command: &CatalogPreparationCommand,
        identity_id: IdentityId,
        snapshot: &IdentityLogSnapshot,
        challenge: &StoredLinkedChallenge,
        prepared: &Option<PreparedRow>,
        stored: &Option<StoredPreparationRow>,
        current: &Option<CurrentCatalogRow>,
        now: UtcMillis,
    ) -> (preparation: Result<Preparation, IdentityPersistenceError>)
        ensures
            match preparation {
                Ok(preparation) => {
                    &&& candidate_check(*command, identity_id@, *challenge) is Ok
                    &&& match prepared {
                        Some(prepared) => {
                            &&& prepared_check(*command, *prepared) is Ok
                            &&& stored is Some
                            &&& recovery_catalog::preparation_fault(stored->0) is None
                            &&& preparation.frozen is None
                            &&& exists|read: StoredPreparation|
                                {
                                    let valid = validity(
                                        read,
                                        *challenge,
                                        *current,
                                        snapshot@,
                                        snapshot.events(),
                                        now@,
                                    );
                                    &&& read.request_id@ == command.request_id@
                                    &&& #[trigger] recovery_catalog::is_preparation_of(
                                        read,
                                        stored->0,
                                    )
                                    &&& valid is Ok
                                    &&& is_status_of(
                                        preparation.outcome,
                                        read,
                                        status_with(
                                            read,
                                            *challenge,
                                            valid->Ok_0.invalidation,
                                            now@,
                                        ),
                                        now@,
                                    )
                                }
                        },
                        None => {
                            &&& timing_check(*command, *challenge, now@) is Ok
                            &&& head::head_of(snapshot@) == command.observed_head@
                            &&& named_catalog_check(*command, *current, snapshot@, now@) is Ok
                            &&& preparation.frozen is Some
                            &&& recovery_catalog::is_catalog_of(
                                preparation.frozen->0,
                                current->0,
                                command.identity_id@,
                            )
                            &&& preparation.outcome.request_id@ == command.request_id@
                            &&& preparation.outcome.status == CatalogStatus::Pending
                            &&& preparation.outcome.provider_response is None
                            &&& preparation.outcome.observed_at@ == now@
                        },
                    }
                },
                Err(error) => if let Err(refused) = candidate_check(
                    *command,
                    identity_id@,
                    *challenge,
                ) {
                    error == refused
                } else if let Some(prepared) = prepared {
                    if let Err(refused) = prepared_check(*command, *prepared) {
                        error == refused
                    } else if stored is None {
                        error == IdentityPersistenceError::RecoveryResponseCapabilityRejected
                    } else if let Some(fault) = recovery_catalog::preparation_fault(stored->0) {
                        error == fault
                    } else {
                        exists|read: StoredPreparation|
                            {
                                &&& #[trigger] recovery_catalog::is_preparation_of(read, stored->0)
                                &&& validity(
                                    read,
                                    *challenge,
                                    *current,
                                    snapshot@,
                                    snapshot.events(),
                                    now@,
                                ) == Err::<Validity, IdentityPersistenceError>(error)
                            }
                    }
                } else if let Err(refused) = timing_check(*command, *challenge, now@) {
                    error == refused
                } else if head::head_of(snapshot@) != command.observed_head@ {
                    enrollment::is_head_conflict(error, head::head_of(snapshot@))
                } else {
                    named_catalog_check(*command, *current, snapshot@, now@) == Err::<
                        (),
                        IdentityPersistenceError,
                    >(error)
                },
            },
    {
        if let Err(error) = self.admit_candidate(command, identity_id, challenge) {
            return Err(error);
        }
        if let Some(prepared) = prepared {
            let stored_digest = match digest(
                prepared.preparation_digest.as_slice(),
                "fixed bytes",
            ) {
                Ok(stored_digest) => stored_digest,
                Err(error) => {
                    return Err(error);
                },
            };
            if stored_digest != command.digest || !bytes_equal(
                prepared.preparation_bytes.as_slice(),
                command.exact_bytes.as_slice(),
            ) {
                return Err(IdentityPersistenceError::IdempotencyConflict);
            }
            let row = match stored {
                Some(row) => row,
                None => {
                    return Err(IdentityPersistenceError::RecoveryResponseCapabilityRejected);
                },
            };
            let read = match read_preparation(command.request_id, row) {
                Ok(read) => read,
                Err(error) => {
                    return Err(error);
                },
            };
            return match current_preparation_status(&read, challenge, current, snapshot, now) {
                Ok(outcome) => Ok(Preparation { frozen: None, outcome }),
                Err(error) => Err(error),
            };
        }
        if let Err(error) = check_timing(command, challenge, now) {
            return Err(error);
        }
        let head = snapshot.head();
        if head != command.observed_head {
            return Err(IdentityPersistenceError::HeadConflict { current: Some(head) });
        }
        let catalog = match check_named_catalog(command, current, snapshot, now) {
            Ok(catalog) => catalog,
            Err(error) => {
                return Err(error);
            },
        };
        Ok(
            Preparation {
                frozen: Some(catalog),
                outcome: RecoveryScopeCatalogStatusOutcome {
                    request_id: command.request_id,
                    status: CatalogStatus::Pending,
                    provider_response: None,
                    observed_at: now,
                },
            },
        )
    }

    /// Takes a response only from the session and the key that it names.
    pub fn admit_provider(
        &self,
        command: &CatalogProviderResponseCommand,
        authenticated: &AuthenticatedDeviceSigningSession,
    ) -> (admitted: Result<(), IdentityPersistenceError>)
        ensures
            admitted == if authenticated@.session.device_id == command.provider_device_id@
                && authenticated@.signing_key == command.provider_signing_key@ {
                Ok::<(), IdentityPersistenceError>(())
            } else {
                Err(IdentityPersistenceError::DeviceAuthenticationRejected)
            },
    {
        if authenticated.session().device_id() != command.provider_device_id
            || authenticated.signing_key() != command.provider_signing_key {
            return Err(IdentityPersistenceError::DeviceAuthenticationRejected);
        }
        Ok(())
    }

    /// Reads the challenge of a response, which is for the identity of the
    /// provider's session only.
    pub fn admit_challenge(&self, row: &Option<LinkedChallengeRow>, identity_id: IdentityId) -> (
        admitted: Result<StoredLinkedChallenge, IdentityPersistenceError>)
        ensures
            match admitted {
                Ok(challenge) => {
                    &&& linked_identity_check(*row, identity_id@) is Ok
                    &&& recovery_catalog::is_linked_challenge_of(challenge, row->0)
                },
                Err(error) => linked_identity_check(*row, identity_id@) == Err::<
                    (),
                    IdentityPersistenceError,
                >(error),
            },
    {
        let challenge = match row {
            Some(row) => match read_linked_challenge(row) {
                Ok(challenge) => challenge,
                Err(error) => {
                    return Err(error);
                },
            },
            None => {
                return Err(IdentityPersistenceError::RecoveryResponseCapabilityRejected);
            },
        };
        proof {
            identity_id.lemma_len();
            challenge.identity_id.lemma_len();
            id::lemma_identity_text(identity_id@);
            id::lemma_identity_text(challenge.identity_id@);
        }
        if challenge.identity_id != identity_id {
            return Err(IdentityPersistenceError::DeviceAuthenticationRejected);
        }
        Ok(challenge)
    }

    /// Decides on the single immutable response of a currently active provider.
    pub fn put_provider_response(
        &self,
        command: &CatalogProviderResponseCommand,
        inputs: &ResponseInputs,
        now: UtcMillis,
    ) -> (decision: Result<ProviderResponseDecision, IdentityPersistenceError>)
        ensures
            match decision {
                Ok(decision) => {
                    &&& response_origin_check(*command, *inputs) is Ok
                    &&& decision.outcome.request_id@ == command.request_id@
                    &&& decision.outcome.status == CatalogStatus::ResponseAvailable
                    &&& decision.outcome.provider_response is Some
                    &&& decision.outcome.provider_response->0@ == command.exact_bytes@
                    &&& decision.outcome.observed_at@ == now@
                    &&& decision.records == ((inputs.preparation->0).provider_response is None)
                    &&& exists|preparation: StoredPreparation, challenge: StoredLinkedChallenge|
                        {
                            &&& #[trigger] are_read_from(
                                preparation,
                                challenge,
                                *inputs,
                                command.request_id@,
                            )
                            &&& response_check(
                                *command,
                                preparation,
                                challenge,
                                *inputs,
                                now@,
                            ) is Ok
                        }
                },
                Err(error) => if let Err(refused) = response_origin_check(*command, *inputs) {
                    error == refused
                } else {
                    exists|preparation: StoredPreparation, challenge: StoredLinkedChallenge|
                        {
                            &&& #[trigger] are_read_from(
                                preparation,
                                challenge,
                                *inputs,
                                command.request_id@,
                            )
                            &&& response_check(*command, preparation, challenge, *inputs, now@)
                                == Err::<(), IdentityPersistenceError>(error)
                        }
                },
            },
    {
        let authenticated = match &inputs.authenticated {
            Ok(authenticated) => authenticated,
            Err(error) => {
                return Err(*error);
            },
        };
        let session = authenticated.session();
        if let Err(error) = self.admit_provider(command, authenticated) {
            return Err(error);
        }
        let snapshot = match &inputs.snapshot {
            Ok(snapshot) => snapshot,
            Err(error) => {
                return Err(*error);
            },
        };
        let identity = session.identity_id();
        let challenge = match self.admit_challenge(&inputs.challenge, identity) {
            Ok(challenge) => challenge,
            Err(error) => {
                return Err(error);
            },
        };
        proof {
            identity.lemma_len();
            id::lemma_identity_text(identity@);
        }
        let preparation = match &inputs.preparation {
            Some(row) => match read_preparation(command.request_id, row) {
                Ok(preparation) => preparation,
                Err(error) => {
                    return Err(error);
                },
            },
            None => {
                return Err(IdentityPersistenceError::RecoveryResponseCapabilityRejected);
            },
        };
        proof {
            preparation.identity_id.lemma_len();
            id::lemma_identity_text(preparation.identity_id@);
        }
        if preparation.identity_id != identity {
            return Err(IdentityPersistenceError::DeviceAuthenticationRejected);
        }
        assert(are_read_from(preparation, challenge, *inputs, command.request_id@));
        if let Err(error) = check_response(
            command,
            &preparation,
            &challenge,
            inputs,
            snapshot,
            now,
        ) {
            return Err(error);
        }
        Ok(
            ProviderResponseDecision {
                records: preparation.provider_response.is_none(),
                outcome: RecoveryScopeCatalogStatusOutcome {
                    request_id: preparation.request_id,
                    status: CatalogStatus::ResponseAvailable,
                    provider_response: Some(to_vec(command.exact_bytes.as_slice())),
                    observed_at: now,
                },
            },
        )
    }

    /// Tells how a preparation stands to the holder of its response capability.
    pub fn status(
        &self,
        request_id: DeviceEnrollmentChallengeId,
        capability_digest: Sha256Digest,
        identity_id: IdentityId,
        snapshot: &IdentityLogSnapshot,
        challenge: &StoredLinkedChallenge,
        stored: &Option<StoredPreparationRow>,
        current: &Option<CurrentCatalogRow>,
        now: UtcMillis,
    ) -> (told: Result<RecoveryScopeCatalogStatusOutcome, IdentityPersistenceError>)
        ensures
            match told {
                Ok(outcome) => {
                    &&& challenge.identity_id@ == identity_id@
                    &&& stored is Some
                    &&& recovery_catalog::preparation_fault(stored->0) is None
                    &&& (stored->0).response_capability_hash@ == capability_digest@
                    &&& exists|read: StoredPreparation|
                        {
                            let valid = validity(
                                read,
                                *challenge,
                                *current,
                                snapshot@,
                                snapshot.events(),
                                now@,
                            );
                            &&& read.request_id@ == request_id@
                            &&& #[trigger] recovery_catalog::is_preparation_of(read, stored->0)
                            &&& valid is Ok
                            &&& is_status_of(
                                outcome,
                                read,
                                status_with(read, *challenge, valid->Ok_0.invalidation, now@),
                                now@,
                            )
                        }
                },
                Err(error) => if challenge.identity_id@ != identity_id@ {
                    error == recovery_catalog::corrupt("linked enrollment identity changed")
                } else if stored is None {
                    error == IdentityPersistenceError::RecoveryResponseCapabilityRejected
                } else if let Some(fault) = recovery_catalog::preparation_fault(stored->0) {
                    error == fault
                } else if (stored->0).response_capability_hash@ != capability_digest@ {
                    error == IdentityPersistenceError::RecoveryResponseCapabilityRejected
                } else {
                    exists|read: StoredPreparation|
                        {
                            &&& #[trigger] recovery_catalog::is_preparation_of(read, stored->0)
                            &&& validity(
                                read,
                                *challenge,
                                *current,
                                snapshot@,
                                snapshot.events(),
                                now@,
                            ) == Err::<Validity, IdentityPersistenceError>(error)
                        }
                },
            },
    {
        if challenge.identity_id != identity_id {
            return Err(IdentityPersistenceError::CorruptData("linked enrollment identity changed"));
        }
        let row = match stored {
            Some(row) => row,
            None => {
                return Err(IdentityPersistenceError::RecoveryResponseCapabilityRejected);
            },
        };
        let read = match read_preparation(request_id, row) {
            Ok(read) => read,
            Err(error) => {
                return Err(error);
            },
        };
        if !read.response_capability_hash.equal_in_constant_time(&capability_digest) {
            return Err(IdentityPersistenceError::RecoveryResponseCapabilityRejected);
        }
        current_preparation_status(&read, challenge, current, snapshot, now)
    }
}

/// A preparation is answered once: with a response on record, another response,
/// or the same one under another idempotency key, is never accepted.
pub proof fn law_response_is_immutable(
    command: CatalogProviderResponseCommand,
    preparation: StoredPreparation,
    challenge: StoredLinkedChallenge,
    inputs: ResponseInputs,
    now: i64,
)
    requires
        preparation.provider_response is Some,
        response_check(command, preparation, challenge, inputs, now) is Ok,
    ensures
        command.exact_bytes@ == preparation.provider_response->0@,
        recovery_catalog::digest_view(preparation.provider_idempotency_key_hash) == Some(
            command.idempotency_key_hash@,
        ),
{
}

/// Only a device that was the authority, that approved the enrollment, or that
/// the enrollment added, ever answers a preparation, and never past its expiry.
pub proof fn law_only_allowed_providers_answer(
    command: CatalogProviderResponseCommand,
    preparation: StoredPreparation,
    challenge: StoredLinkedChallenge,
    inputs: ResponseInputs,
    now: i64,
)
    requires
        response_check(command, preparation, challenge, inputs, now) is Ok,
    ensures
        now < preparation.expires_at@,
        command.provider_device_id@ == preparation.authority_device_id@
            || command.provider_device_id@ == preparation.candidate_device_id@ || device_view(
            challenge.approver_device_id,
        ) == Some(command.provider_device_id@),
{
}

/// Generations are consecutive, and each names the head of the one before it;
/// the first names none.
pub proof fn law_generations_are_consecutive(
    command: CatalogUploadCommand,
    latest: Option<LatestRow>,
)
    requires
        succession_check(command, latest) is Ok,
    ensures
        latest is None ==> command.generation@ == 1 && command.previous_head_digest is None,
        latest is Some ==> command.generation@ == (latest->0).generation + 1 && named_predecessor(
            command,
        ) == (latest->0).head_digest@,
{
}

/// A cancelled enrollment reads as cancelled and an expired preparation as
/// expired, whatever else holds; neither ever hands out a response.
pub proof fn law_closed_preparation_hides_response(
    outcome: RecoveryScopeCatalogStatusOutcome,
    preparation: StoredPreparation,
    challenge: StoredLinkedChallenge,
    invalidation: Option<CatalogStatusInvalidation>,
    now: i64,
)
    requires
        is_status_of(
            outcome,
            preparation,
            status_with(preparation, challenge, invalidation, now),
            now,
        ),
        challenge.state@ == "cancelled"@ || now >= preparation.expires_at@ || invalidation is Some,
    ensures
        challenge.state@ == "cancelled"@ ==> outcome.status == CatalogStatus::Cancelled,
        challenge.state@ != "cancelled"@ && now >= preparation.expires_at@ ==> outcome.status
            == CatalogStatus::Expired,
        outcome.provider_response is None,
{
}

} // verus!
