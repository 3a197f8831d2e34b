//! Decisions on key packages.

use vstd::prelude::*;
use crate::log::state::DeviceStatusV1;
use crate::outside;
use crate::persistence::error::IdentityPersistenceError;
use crate::persistence::head::IdentityLogSnapshot;
use crate::persistence::key_package;
use crate::persistence::key_package::{
    ClaimCommand, HistoryRecoveryKeyPackageScope, KeyPackageClaimCommand, KeyPackageClaimOutcome,
    KeyPackageClaimReceipt, KeyPackagePublishCommand, KeyPackagePublishOutcome,
    KeyPackagePublishReceipt, PublishCommand, Scope, VerifiedFederatedKeyPackageClaimant,
    GENERAL_PURPOSE, HISTORY_RECOVERY_PURPOSE, KEY_PACKAGE_CLAIM_REPLAY_RETENTION_MILLIS,
    KEY_PACKAGE_MAX_TTL_MILLIS,
};
use crate::persistence::recovery_catalog;
use crate::persistence::row::{digest, parse_device_id, utc_millis};
use crate::persistence::session::AuthenticatedDeviceSession;
use crate::persistence::session_decision;
use crate::persistence::session_decision::active_device_signing_key;
use crate::wire::bytes::to_vec;
use crate::wire::digest::Sha256Digest;
use crate::wire::id;
use crate::wire::id::{DeviceId, IdentityId, KeyPackageId};
use crate::wire::key::{Ed25519Signature, SigningPublicKey};
use crate::wire::number;
use crate::wire::number::UtcMillis;
use crate::wire::text;
use crate::wire::text::text_equal;

verus! {

/// The state of a package that can be claimed.
pub const AVAILABLE_STATE: &'static str = "available";

/// The state of a package that was claimed.
pub const CLAIMED_STATE: &'static str = "claimed";

/// The origin of a claimant whose session this node holds.
pub const LOCAL_CLAIMANT_ORIGIN: &'static str = "";

/// How much key-package state one retention batch removes at most.
pub const KEY_PACKAGE_PRUNE_BATCH_SIZE: i32 = 256;

/// The claim of a publish request's idempotency key as its row holds it.
#[derive(Debug)]
pub struct PublishClaimRow {
    /// The digest of the request.
    pub request_digest: Vec<u8>,
    /// The UUID of the package.
    pub package_id: [u8; 16],
    /// The exact receipt.
    pub receipt_bytes: Vec<u8>,
    /// Its digest.
    pub receipt_digest: Vec<u8>,
}

/// The claim of a claim request's idempotency key as its row holds it.
#[derive(Debug)]
pub struct ClaimRow {
    /// The text of the target identity.
    pub target_identity_id: String,
    /// The UUID of the target device.
    pub target_device_id: [u8; 16],
    /// The digest of the request.
    pub request_digest: Vec<u8>,
    /// The purpose of the package.
    pub purpose: String,
    /// The digest of the recovery request.
    pub recovery_request_digest: Option<Vec<u8>>,
    /// The digest of the recovery scope.
    pub recovery_scope_digest: Option<Vec<u8>>,
}

/// A claim receipt as its row holds it.
#[derive(Debug)]
pub struct ClaimReceiptRow {
    /// The exact envelope.
    pub receipt_bytes: Vec<u8>,
    /// Its digest.
    pub receipt_digest: Vec<u8>,
}

/// The first package that fits a claim, as its row holds it.
#[derive(Debug)]
pub struct AvailablePackageRow {
    /// The UUID of the package.
    pub package_id: [u8; 16],
    /// The exact envelope.
    pub exact_publish_bytes: Vec<u8>,
    /// When the package expires.
    pub expires_at_ms: i64,
}

/// What is known when a package is published, in the order in which it is found
/// out.
#[derive(Debug)]
pub struct PublishInputs {
    /// The session of the publisher.
    pub authenticated: Result<AuthenticatedDeviceSession, IdentityPersistenceError>,
    /// How many rows were removed because their time was over.
    pub removed: i64,
    /// The claim that has the idempotency key already; none where the request's
    /// own was inserted.
    pub claim: Option<PublishClaimRow>,
    /// The active log of the publisher.
    pub snapshot: Result<IdentityLogSnapshot, IdentityPersistenceError>,
    /// Whether the device has an approved recovery request with the digest that
    /// the scope names.
    pub recovery_approved: bool,
}

/// What is known when a package is claimed, in the order in which it is found
/// out.
#[derive(Debug)]
pub struct ClaimInputs {
    /// How many rows were removed because their time was over.
    pub removed: i64,
    /// The claim that has the idempotency key already; none where the request's
    /// own was inserted.
    pub claim: Option<ClaimRow>,
    /// The receipt of that claim.
    pub receipt: Option<ClaimReceiptRow>,
    /// The active log of the target.
    pub target: Result<IdentityLogSnapshot, IdentityPersistenceError>,
    /// The first available package that fits.
    pub package: Option<AvailablePackageRow>,
}

/// What to do with a claim.
pub enum ClaimStep {
    /// The receipt of an earlier claim is handed out again.
    Replay(KeyPackageClaimReceipt),
    /// A package is to be marked as claimed.
    Take {
        /// The package.
        package_id: KeyPackageId,
        /// Until when the claim can be replayed.
        retention_until: UtcMillis,
        /// The exact envelope.
        exact_publish_bytes: Vec<u8>,
    },
}

/// The report of malformed stored data.
pub open spec fn corrupt(label: &'static str) -> IdentityPersistenceError {
    IdentityPersistenceError::CorruptData(label)
}

/// The purpose of a package.
pub open spec fn purpose_of(scope: Option<Scope>) -> Seq<char> {
    if scope is Some {
        HISTORY_RECOVERY_PURPOSE@
    } else {
        GENERAL_PURPOSE@
    }
}

/// The purpose of a package.
pub fn purpose(scope: Option<HistoryRecoveryKeyPackageScope>) -> (purpose: &'static str)
    ensures
        purpose@ == purpose_of(key_package::scope_view(scope)),
{
    if scope.is_some() {
        HISTORY_RECOVERY_PURPOSE
    } else {
        GENERAL_PURPOSE
    }
}

/// Whether a publish request may go on to be checked.
pub open spec fn publisher_check(command: PublishCommand, inputs: PublishInputs) -> Result<
    (),
    IdentityPersistenceError,
> {
    if let Err(error) = inputs.authenticated {
        Err(error)
    } else if inputs.authenticated->Ok_0@.identity_id != command.identity_id
        || inputs.authenticated->Ok_0@.device_id != command.device_id {
        Err(IdentityPersistenceError::DeviceAuthenticationRejected)
    } else if inputs.removed < 0 {
        Err(corrupt("key package retention count"))
    } else {
        Ok(())
    }
}

/// Whether a stored claim is that of exactly this publish request, with its
/// receipt intact.
pub open spec fn publish_replay_check(command: PublishCommand, claim: PublishClaimRow) -> Result<
    (),
    IdentityPersistenceError,
> {
    let receipt = key_package::receipt_of(command);
    if claim.request_digest@.len() != 32 {
        Err(corrupt("key package publish request digest"))
    } else if claim.request_digest@ != key_package::publish_request_digest(command) {
        Err(IdentityPersistenceError::IdempotencyConflict)
    } else if !id::is_uuid_v7(claim.package_id@) {
        Err(corrupt("key package ID"))
    } else if claim.package_id@ != command.package_id {
        Err(IdentityPersistenceError::IdempotencyConflict)
    } else if claim.receipt_digest@.len() != 32 {
        Err(corrupt("key package publish receipt digest"))
    } else if claim.receipt_bytes@ != receipt.exact_bytes || claim.receipt_digest@
        != key_package::publish_receipt_digest(receipt) {
        Err(IdentityPersistenceError::ReceiptIntegrity)
    } else {
        Ok(())
    }
}

/// Whether a new package may be published.
pub open spec fn publish_check(command: PublishCommand, inputs: PublishInputs, now: i64) -> Result<
    (),
    IdentityPersistenceError,
> {
    let state = inputs.snapshot->Ok_0@;
    let key = session_decision::device_key(state, command.device_id);
    if let Err(error) = inputs.snapshot {
        Err(error)
    } else if state.head_sequence != command.published_head_sequence || state.head_hash
        != command.published_head_hash {
        Err(IdentityPersistenceError::KeyPackageConflict)
    } else if !(now < command.expires_at <= now + KEY_PACKAGE_MAX_TTL_MILLIS) {
        Err(IdentityPersistenceError::InvalidCommand("key package expiry"))
    } else if command.history_recovery_scope is Some && !inputs.recovery_approved {
        Err(IdentityPersistenceError::KeyPackageUnavailable)
    } else if let Err(error) = session_decision::active_key_check(state, command.device_id) {
        Err(error)
    } else if let Some(error) = device_signature_fault(
        key,
        key_package::publish_signed_bytes(command),
        command.detached_signature,
    ) {
        Err(error)
    } else {
        Ok(())
    }
}

/// Why an active device's key does not sign a message.
pub open spec fn device_signature_fault(
    key: Seq<u8>,
    message: Seq<u8>,
    signature: Seq<u8>,
) -> Option<IdentityPersistenceError> {
    if !outside::ed25519_key_accepted(key) {
        Some(corrupt("active device signing key"))
    } else if !outside::ed25519_strict_accepted(key, message, signature) {
        Some(IdentityPersistenceError::InvalidCommand("key package device signature"))
    } else {
        None
    }
}

/// Checks that an active device's key strictly signs a message.
pub fn verify_device_signature(
    signing_key: SigningPublicKey,
    message: &[u8],
    signature: Ed25519Signature,
) -> (verified: Result<(), IdentityPersistenceError>)
    ensures
        verified == match device_signature_fault(signing_key@, message@, signature@) {
            Some(error) => Err::<(), IdentityPersistenceError>(error),
            None => Ok(()),
        },
{
    if !signing_key.is_usable() {
        return Err(IdentityPersistenceError::CorruptData("active device signing key"));
    }
    if !signing_key.authenticates(message, &signature) {
        return Err(IdentityPersistenceError::InvalidCommand("key package device signature"));
    }
    Ok(())
}

/// Checks that a package expires in the future, but not too far in it.
pub fn validate_publish_expiry(expires_at: UtcMillis, now: UtcMillis) -> (checked: Result<
    (),
    IdentityPersistenceError,
>)
    ensures
        checked == if now@ < expires_at@ <= now@ + KEY_PACKAGE_MAX_TTL_MILLIS {
            Ok::<(), IdentityPersistenceError>(())
        } else {
            Err(IdentityPersistenceError::InvalidCommand("key package expiry"))
        },
{
    let maximum: i64 = now.get() + KEY_PACKAGE_MAX_TTL_MILLIS;
    if expires_at.get() <= now.get() || expires_at.get() > maximum {
        return Err(IdentityPersistenceError::InvalidCommand("key package expiry"));
    }
    Ok(())
}

/// Until when a claim can be replayed: until the package expires, and for the
/// response-loss window at least.
pub open spec fn retention(expires_at: i64, now: i64) -> int {
    if expires_at >= now + KEY_PACKAGE_CLAIM_REPLAY_RETENTION_MILLIS {
        expires_at as int
    } else {
        now + KEY_PACKAGE_CLAIM_REPLAY_RETENTION_MILLIS
    }
}

/// Until when a claim can be replayed.
pub fn claim_retention_until(expires_at: UtcMillis, now: UtcMillis) -> (until: Result<
    UtcMillis,
    IdentityPersistenceError,
>)
    ensures
        match until {
            Ok(until) => {
                &&& number::is_utc_millis(retention(expires_at@, now@))
                &&& until@ == retention(expires_at@, now@)
            },
            Err(error) => {
                &&& !number::is_utc_millis(retention(expires_at@, now@))
                &&& error == corrupt("key package claim retention")
            },
        },
{
    let replay_until: i64 = now.get() + KEY_PACKAGE_CLAIM_REPLAY_RETENTION_MILLIS;
    let latest: i64 = if expires_at.get() >= replay_until {
        expires_at.get()
    } else {
        replay_until
    };
    match UtcMillis::new(latest) {
        Ok(until) => Ok(until),
        Err(_) => Err(IdentityPersistenceError::CorruptData("key package claim retention")),
    }
}

/// Reads the UUID of a package.
fn parse_key_package_id(stored: [u8; 16]) -> (read: Result<KeyPackageId, IdentityPersistenceError>)
    ensures
        match read {
            Ok(read) => read@ == stored@ && id::is_uuid_v7(stored@),
            Err(error) => !id::is_uuid_v7(stored@) && error == corrupt("key package ID"),
        },
{
    match KeyPackageId::from_uuid_bytes(stored) {
        Ok(read) => Ok(read),
        Err(_) => Err(IdentityPersistenceError::CorruptData("key package ID")),
    }
}

/// Whether a scoped claim stays within its own identity.
pub open spec fn scope_check(command: ClaimCommand, origin: Seq<char>, identity: Seq<u8>) -> Result<
    (),
    IdentityPersistenceError,
> {
    if command.history_recovery_scope is Some && (origin != LOCAL_CLAIMANT_ORIGIN@ || identity
        != command.target_identity_id) {
        Err(IdentityPersistenceError::KeyPackageUnavailable)
    } else {
        Ok(())
    }
}

/// Whether an optional stored digest is the expected one.
pub open spec fn optional_digest_check(
    stored: Option<Seq<u8>>,
    expected: Option<Seq<u8>>,
    label: &'static str,
) -> Result<(), IdentityPersistenceError> {
    if stored is Some && stored->0.len() != 32 {
        Err(corrupt(label))
    } else if stored != expected {
        Err(IdentityPersistenceError::IdempotencyConflict)
    } else {
        Ok(())
    }
}

/// Checks that an optional stored digest is the expected one.
fn check_optional_digest(
    stored: &Option<Vec<u8>>,
    expected: Option<Sha256Digest>,
    label: &'static str,
) -> (checked: Result<(), IdentityPersistenceError>)
    ensures
        checked == optional_digest_check(
            recovery_catalog::bytes_view(*stored),
            recovery_catalog::digest_view(expected),
            label,
        ),
{
    match (stored, expected) {
        (Some(stored), expected) => {
            let read = match digest(stored.as_slice(), label) {
                Ok(read) => read,
                Err(error) => {
                    return Err(error);
                },
            };
            match expected {
                Some(expected) => {
                    if read == expected {
                        Ok(())
                    } else {
                        Err(IdentityPersistenceError::IdempotencyConflict)
                    }
                },
                None => Err(IdentityPersistenceError::IdempotencyConflict),
            }
        },
        (None, Some(_)) => Err(IdentityPersistenceError::IdempotencyConflict),
        (None, None) => Ok(()),
    }
}

/// Whether a stored claim is that of exactly this claim request.
pub open spec fn claim_replay_check(command: ClaimCommand, claim: ClaimRow) -> Result<
    (),
    IdentityPersistenceError,
> {
    let conflict = Err::<(), IdentityPersistenceError>(
        IdentityPersistenceError::IdempotencyConflict,
    );
    let request_digest = match command.history_recovery_scope {
        Some(scope) => Some(scope.request_digest),
        None => None,
    };
    let scope_digest = match command.history_recovery_scope {
        Some(scope) => Some(scope.scope_digest),
        None => None,
    };
    if claim.target_identity_id@ != text::hex(command.target_identity_id) {
        conflict
    } else if !id::is_uuid_v7(claim.target_device_id@) {
        Err(corrupt("key package device ID"))
    } else if claim.target_device_id@ != command.target_device_id {
        conflict
    } else if claim.request_digest@.len() != 32 {
        Err(corrupt("key package claim request digest"))
    } else if claim.request_digest@ != key_package::claim_request_digest(command) {
        conflict
    } else if claim.purpose@ != purpose_of(command.history_recovery_scope) {
        conflict
    } else if let Err(error) = optional_digest_check(
        recovery_catalog::bytes_view(claim.recovery_request_digest),
        request_digest,
        "key package claim recovery request digest",
    ) {
        Err(error)
    } else if let Err(error) = optional_digest_check(
        recovery_catalog::bytes_view(claim.recovery_scope_digest),
        scope_digest,
        "key package claim recovery scope digest",
    ) {
        Err(error)
    } else {
        Ok(())
    }
}

/// Checks that a stored claim is that of exactly this claim request.
fn check_claim_replay(command: &KeyPackageClaimCommand, claim: &ClaimRow) -> (checked: Result<
    (),
    IdentityPersistenceError,
>)
    ensures
        checked == claim_replay_check(command@, *claim),
{
    let conflict = IdentityPersistenceError::IdempotencyConflict;
    let scope = command.history_recovery_scope();
    let (request_digest, scope_digest) = match scope {
        Some(scope) => (Some(scope.request_digest()), Some(scope.scope_digest())),
        None => (None, None),
    };
    if !text_equal(
        claim.target_identity_id.as_str(),
        command.target_identity_id().to_text().as_str(),
    ) {
        return Err(conflict);
    }
    let device_id = match parse_device_id(claim.target_device_id, "key package device ID") {
        Ok(device_id) => device_id,
        Err(error) => {
            return Err(error);
        },
    };
    if device_id != command.target_device_id() {
        return Err(conflict);
    }
    let stored = match digest(claim.request_digest.as_slice(), "key package claim request digest") {
        Ok(stored) => stored,
        Err(error) => {
            return Err(error);
        },
    };
    if stored != command.request_digest() {
        return Err(conflict);
    }
    if !text_equal(claim.purpose.as_str(), purpose(scope)) {
        return Err(conflict);
    }
    if let Err(error) = check_optional_digest(
        &claim.recovery_request_digest,
        request_digest,
        "key package claim recovery request digest",
    ) {
        return Err(error);
    }
    check_optional_digest(
        &claim.recovery_scope_digest,
        scope_digest,
        "key package claim recovery scope digest",
    )
}

/// Whether the stored receipt of a claim is intact.
pub open spec fn claim_receipt_check(receipt: Option<ClaimReceiptRow>) -> Result<
    (),
    IdentityPersistenceError,
> {
    match receipt {
        None => Err(IdentityPersistenceError::IncompleteCommand),
        Some(receipt) => if !key_package::is_envelope(receipt.receipt_bytes@) {
            Err(corrupt("key package claim receipt byte length"))
        } else if receipt.receipt_digest@.len() != 32 {
            Err(corrupt("key package claim receipt digest"))
        } else if receipt.receipt_digest@ != key_package::claim_receipt_digest(
            receipt.receipt_bytes@,
        ) {
            Err(IdentityPersistenceError::ReceiptIntegrity)
        } else {
            Ok(())
        },
    }
}

/// Reads the stored receipt of a claim.
pub fn load_claim_receipt(row: &Option<ClaimReceiptRow>) -> (receipt: Result<
    KeyPackageClaimReceipt,
    IdentityPersistenceError,
>)
    ensures
        match receipt {
            Ok(receipt) => {
                &&& claim_receipt_check(*row) is Ok
                &&& receipt@ == (row->0).receipt_bytes@
            },
            Err(error) => claim_receipt_check(*row) == Err::<(), IdentityPersistenceError>(error),
        },
{
    let row = match row {
        Some(row) => row,
        None => {
            return Err(IdentityPersistenceError::IncompleteCommand);
        },
    };
    let receipt = match KeyPackageClaimReceipt::new(to_vec(row.receipt_bytes.as_slice())) {
        Ok(receipt) => receipt,
        Err(error) => {
            return Err(error);
        },
    };
    let stored = match digest(row.receipt_digest.as_slice(), "key package claim receipt digest") {
        Ok(stored) => stored,
        Err(error) => {
            return Err(error);
        },
    };
    if let Err(error) = receipt.verify_exact_bytes(row.receipt_bytes.as_slice(), stored) {
        return Err(error);
    }
    Ok(receipt)
}

/// Whether the target of a claim is an active device; an inactive identity is
/// told apart from nothing else.
pub open spec fn target_check(
    target: Result<IdentityLogSnapshot, IdentityPersistenceError>,
    device: Seq<u8>,
) -> Result<(), IdentityPersistenceError> {
    match target {
        Err(IdentityPersistenceError::IdentityInactive) => Err(
            IdentityPersistenceError::KeyPackageUnavailable,
        ),
        Err(error) => Err(error),
        Ok(snapshot) => if session_decision::active_key_check(snapshot@, device) is Ok {
            Ok(())
        } else {
            Err(IdentityPersistenceError::KeyPackageUnavailable)
        },
    }
}

/// Checks that the target of a claim is an active device.
pub fn ensure_target_active(
    target: &Result<IdentityLogSnapshot, IdentityPersistenceError>,
    device_id: DeviceId,
) -> (checked: Result<(), IdentityPersistenceError>)
    ensures
        checked == target_check(*target, device_id@),
{
    let snapshot = match target {
        Ok(snapshot) => snapshot,
        Err(IdentityPersistenceError::IdentityInactive) => {
            return Err(IdentityPersistenceError::KeyPackageUnavailable);
        },
        Err(error) => {
            return Err(*error);
        },
    };
    match snapshot.projection().device_status(device_id) {
        Some(DeviceStatusV1::Active) => {},
        _ => {
            return Err(IdentityPersistenceError::KeyPackageUnavailable);
        },
    }
    match snapshot.projection().device_certificate(device_id) {
        Some(_) => Ok(()),
        None => Err(
            IdentityPersistenceError::CorruptData("active target device certificate missing"),
        ),
    }
}

/// Whether a package can be taken.
pub open spec fn package_check(package: Option<AvailablePackageRow>, now: i64) -> Result<
    (),
    IdentityPersistenceError,
> {
    match package {
        None => Err(IdentityPersistenceError::KeyPackageUnavailable),
        Some(package) => if !id::is_uuid_v7(package.package_id@) {
            Err(corrupt("key package ID"))
        } else if !number::is_utc_millis(package.expires_at_ms as int) {
            Err(corrupt("key package expiry"))
        } else if !number::is_utc_millis(retention(package.expires_at_ms, now)) {
            Err(corrupt("key package claim retention"))
        } else {
            Ok(())
        },
    }
}

/// Everything that a claim by a verified claimant must satisfy: what is found
/// before an earlier claim, then either that claim and its receipt, or the
/// target and a package.
pub open spec fn claim_check(
    command: ClaimCommand,
    origin: Seq<char>,
    identity: Seq<u8>,
    inputs: ClaimInputs,
    now: i64,
) -> Result<(), IdentityPersistenceError> {
    if let Err(error) = scope_check(command, origin, identity) {
        Err(error)
    } else if inputs.removed < 0 {
        Err(corrupt("key package retention count"))
    } else if let Some(claim) = inputs.claim {
        if let Err(error) = claim_replay_check(command, claim) {
            Err(error)
        } else {
            claim_receipt_check(inputs.receipt)
        }
    } else if let Err(error) = target_check(inputs.target, command.target_device_id) {
        Err(error)
    } else {
        package_check(inputs.package, now)
    }
}

/// The step replays the receipt of the earlier claim, or takes the package.
pub open spec fn is_claim_step(step: ClaimStep, inputs: ClaimInputs, now: i64) -> bool {
    match step {
        ClaimStep::Replay(receipt) => {
            &&& inputs.claim is Some
            &&& receipt@ == (inputs.receipt->0).receipt_bytes@
        },
        ClaimStep::Take { package_id, retention_until, exact_publish_bytes } => {
            &&& inputs.claim is None
            &&& package_id@ == (inputs.package->0).package_id@
            &&& retention_until@ == retention((inputs.package->0).expires_at_ms, now)
            &&& exact_publish_bytes@ == (inputs.package->0).exact_publish_bytes@
        },
    }
}

/// Checks that a scoped claim stays within its own identity.
pub fn ensure_scope(command: &KeyPackageClaimCommand, origin: &str, identity_id: IdentityId) -> (
checked: Result<(), IdentityPersistenceError>)
    ensures
        checked == scope_check(command@, origin@, identity_id@),
{
    if command.history_recovery_scope().is_some() && (!text_equal(origin, LOCAL_CLAIMANT_ORIGIN)
        || identity_id != command.target_identity_id()) {
        return Err(IdentityPersistenceError::KeyPackageUnavailable);
    }
    Ok(())
}

/// Hands out the receipt of an earlier claim again, if it was exactly this one.
pub fn replay_claim(
    command: &KeyPackageClaimCommand,
    claim: &ClaimRow,
    receipt: &Option<ClaimReceiptRow>,
) -> (step: Result<ClaimStep, IdentityPersistenceError>)
    ensures
        match step {
            Ok(step) => {
                &&& claim_replay_check(command@, *claim) is Ok
                &&& claim_receipt_check(*receipt) is Ok
                &&& step is Replay
                &&& step->Replay_0@ == (receipt->0).receipt_bytes@
            },
            Err(error) => if let Err(refusal) = claim_replay_check(command@, *claim) {
                error == refusal
            } else {
                claim_receipt_check(*receipt) == Err::<(), IdentityPersistenceError>(error)
            },
        },
{
    if let Err(error) = check_claim_replay(command, claim) {
        return Err(error);
    }
    match load_claim_receipt(receipt) {
        Ok(receipt) => Ok(ClaimStep::Replay(receipt)),
        Err(error) => Err(error),
    }
}

/// Decides on a claim by a verified claimant.
fn claim_for_verified_claimant(
    origin: &str,
    identity_id: IdentityId,
    command: &KeyPackageClaimCommand,
    inputs: &ClaimInputs,
    now: UtcMillis,
) -> (step: Result<ClaimStep, IdentityPersistenceError>)
    ensures
        match step {
            Ok(step) => {
                &&& claim_check(command@, origin@, identity_id@, *inputs, now@) is Ok
                &&& is_claim_step(step, *inputs, now@)
            },
            Err(error) => claim_check(command@, origin@, identity_id@, *inputs, now@) == Err::<
                (),
                IdentityPersistenceError,
            >(error),
        },
{
    if let Err(error) = ensure_scope(command, origin, identity_id) {
        return Err(error);
    }
    if inputs.removed < 0 {
        return Err(IdentityPersistenceError::CorruptData("key package retention count"));
    }
    if let Some(claim) = &inputs.claim {
        return replay_claim(command, claim, &inputs.receipt);
    }
    if let Err(error) = ensure_target_active(&inputs.target, command.target_device_id()) {
        return Err(error);
    }
    let package = match &inputs.package {
        Some(package) => package,
        None => {
            return Err(IdentityPersistenceError::KeyPackageUnavailable);
        },
    };
    let package_id = match parse_key_package_id(package.package_id) {
        Ok(package_id) => package_id,
        Err(error) => {
            return Err(error);
        },
    };
    let expires_at = match utc_millis(package.expires_at_ms, "key package expiry") {
        Ok(expires_at) => expires_at,
        Err(error) => {
            return Err(error);
        },
    };
    let retention_until = match claim_retention_until(expires_at, now) {
        Ok(retention_until) => retention_until,
        Err(error) => {
            return Err(error);
        },
    };
    Ok(
        ClaimStep::Take {
            package_id,
            retention_until,
            exact_publish_bytes: to_vec(package.exact_publish_bytes.as_slice()),
        },
    )
}

/// Identity-bound durable `KeyPackage` directory repository.
#[derive(Clone, Copy, Debug, Default)]
pub struct KeyPackageRepository;

impl KeyPackageRepository {
    /// Creates the repository handle.
    pub fn new() -> (repository: Self)
        ensures
            repository == KeyPackageRepository,
    {
        KeyPackageRepository
    }

    /// Lets a session publish only for its own device.
    pub fn admit_publisher(
        &self,
        command: &KeyPackagePublishCommand,
        authenticated: &AuthenticatedDeviceSession,
    ) -> (admitted: Result<(), IdentityPersistenceError>)
        ensures
            admitted == if authenticated@.identity_id == command@.identity_id
                && authenticated@.device_id == command@.device_id {
                Ok::<(), IdentityPersistenceError>(())
            } else {
                Err(IdentityPersistenceError::DeviceAuthenticationRejected)
            },
    {
        if authenticated.identity_id() != command.identity_id() || authenticated.device_id()
            != command.device_id() {
            return Err(IdentityPersistenceError::DeviceAuthenticationRejected);
        }
        Ok(())
    }

    /// Hands out the receipt of an earlier publish request again, if it was
    /// exactly this one.
    pub fn replay_publish(
        &self,
        command: &KeyPackagePublishCommand,
        claim: &PublishClaimRow,
    ) -> (outcome: Result<KeyPackagePublishOutcome, IdentityPersistenceError>)
        ensures
            match outcome {
                Ok(outcome) => {
                    &&& publish_replay_check(command@, *claim) is Ok
                    &&& outcome is Replayed
                    &&& outcome@ == key_package::receipt_of(command@)
                },
                Err(error) => publish_replay_check(command@, *claim) == Err::<
                    (),
                    IdentityPersistenceError,
                >(error),
            },
    {
        let receipt = KeyPackagePublishReceipt::new(
            command.package_id(),
            command.package_digest(),
            command.expires_at(),
        );
        let stored = match digest(
            claim.request_digest.as_slice(),
            "key package publish request digest",
        ) {
            Ok(stored) => stored,
            Err(error) => {
                return Err(error);
            },
        };
        if stored != command.request_digest() {
            return Err(IdentityPersistenceError::IdempotencyConflict);
        }
        let package_id = match parse_key_package_id(claim.package_id) {
            Ok(package_id) => package_id,
            Err(error) => {
                return Err(error);
            },
        };
        if package_id != command.package_id() {
            return Err(IdentityPersistenceError::IdempotencyConflict);
        }
        let receipt_digest = match digest(
            claim.receipt_digest.as_slice(),
            "key package publish receipt digest",
        ) {
            Ok(receipt_digest) => receipt_digest,
            Err(error) => {
                return Err(error);
            },
        };
        match receipt.verify_exact_bytes(claim.receipt_bytes.as_slice(), receipt_digest) {
            Ok(_) => Ok(KeyPackagePublishOutcome::Replayed(receipt)),
            Err(error) => Err(error),
        }
    }

    /// Decides on a publish request: the publisher, its current identity head and
    /// its device signature; the receipt of an earlier request is replayed.
    pub fn publish(
        &self,
        command: &KeyPackagePublishCommand,
        inputs: &PublishInputs,
        now: UtcMillis,
    ) -> (outcome: Result<KeyPackagePublishOutcome, IdentityPersistenceError>)
        ensures
            ({
                let refusal = if let Err(error) = publisher_check(command@, *inputs) {
                    Some(error)
                } else if let Some(claim) = inputs.claim {
                    match publish_replay_check(command@, claim) {
                        Err(error) => Some(error),
                        Ok(_) => None,
                    }
                } else {
                    match publish_check(command@, *inputs, now@) {
                        Err(error) => Some(error),
                        Ok(_) => None,
                    }
                };
                match outcome {
                    Ok(outcome) => {
                        &&& refusal is None
                        &&& outcome@ == key_package::receipt_of(command@)
                        &&& outcome is Replayed <==> inputs.claim is Some
                    },
                    Err(error) => refusal == Some(error),
                }
            }),
    {
        let receipt = KeyPackagePublishReceipt::new(
            command.package_id(),
            command.package_digest(),
            command.expires_at(),
        );
        match &inputs.authenticated {
            Ok(authenticated) => {
                if let Err(error) = self.admit_publisher(command, authenticated) {
                    return Err(error);
                }
            },
            Err(error) => {
                return Err(*error);
            },
        }
        if inputs.removed < 0 {
            return Err(IdentityPersistenceError::CorruptData("key package retention count"));
        }
        if let Some(claim) = &inputs.claim {
            return self.replay_publish(command, claim);
        }
        let snapshot = match &inputs.snapshot {
            Ok(snapshot) => snapshot,
            Err(error) => {
                return Err(*error);
            },
        };
        let head = snapshot.head();
        if head.sequence().get() != command.published_head_sequence().get() || head.hash()
            != command.published_head_hash() {
            return Err(IdentityPersistenceError::KeyPackageConflict);
        }
        if let Err(error) = validate_publish_expiry(command.expires_at(), now) {
            return Err(error);
        }
        if command.history_recovery_scope().is_some() && !inputs.recovery_approved {
            return Err(IdentityPersistenceError::KeyPackageUnavailable);
        }
        let signing_key = match active_device_signing_key(
            snapshot.projection(),
            command.device_id(),
        ) {
            Ok(signing_key) => signing_key,
            Err(error) => {
                return Err(error);
            },
        };
        if let Err(error) = verify_device_signature(
            signing_key,
            command.signature_input().as_slice(),
            command.detached_signature(),
        ) {
            return Err(error);
        }
        Ok(KeyPackagePublishOutcome::Published(receipt))
    }

    /// Confirms that a new package was inserted.
    pub fn confirm_published(&self, inserted: u64) -> (confirmed: Result<
        (),
        IdentityPersistenceError,
    >)
        ensures
            confirmed == if inserted == 1 {
                Ok::<(), IdentityPersistenceError>(())
            } else {
                Err(IdentityPersistenceError::KeyPackageConflict)
            },
    {
        if inserted == 1 {
            Ok(())
        } else {
            Err(IdentityPersistenceError::KeyPackageConflict)
        }
    }

    /// Decides on a claim by a device of this node. Its session is looked at
    /// before any replay, so that a revoked device cannot keep a bearer session
    /// usable. Any absent, expired, consumed, inactive or revoked target state is
    /// the same unavailable error.
    pub fn claim(
        &self,
        command: &KeyPackageClaimCommand,
        authenticated: &Result<AuthenticatedDeviceSession, IdentityPersistenceError>,
        inputs: &ClaimInputs,
        now: UtcMillis,
    ) -> (step: Result<ClaimStep, IdentityPersistenceError>)
        ensures
            match authenticated {
                Err(refused) => step == Err::<ClaimStep, IdentityPersistenceError>(*refused),
                Ok(session) => {
                    let checked = claim_check(
                        command@,
                        LOCAL_CLAIMANT_ORIGIN@,
                        session@.identity_id,
                        *inputs,
                        now@,
                    );
                    match step {
                        Ok(step) => checked is Ok && is_claim_step(step, *inputs, now@),
                        Err(error) => checked == Err::<(), IdentityPersistenceError>(error),
                    }
                },
            },
    {
        match authenticated {
            Ok(session) => claim_for_verified_claimant(
                LOCAL_CLAIMANT_ORIGIN,
                session.identity_id(),
                command,
                inputs,
                now,
            ),
            Err(error) => Err(*error),
        }
    }

    /// Decides on a claim by a requester whose signed proof was verified against
    /// a freshly resolved remote identity-log active device.
    pub fn claim_federated(
        &self,
        command: &KeyPackageClaimCommand,
        claimant: &VerifiedFederatedKeyPackageClaimant,
        inputs: &ClaimInputs,
        now: UtcMillis,
    ) -> (step: Result<ClaimStep, IdentityPersistenceError>)
        ensures
            ({
                let checked = claim_check(
                    command@,
                    claimant@.identity_origin,
                    claimant@.identity_id,
                    *inputs,
                    now@,
                );
                match step {
                    Ok(step) => checked is Ok && is_claim_step(step, *inputs, now@),
                    Err(error) => checked == Err::<(), IdentityPersistenceError>(error),
                }
            }),
    {
        claim_for_verified_claimant(
            claimant.identity_origin(),
            claimant.identity_id(),
            command,
            inputs,
            now,
        )
    }

    /// Completes a claim once its package was marked as claimed.
    pub fn complete_claim(&self, step: ClaimStep, updated: u64) -> (outcome: Result<
        KeyPackageClaimOutcome,
        IdentityPersistenceError,
    >)
        ensures
            match step {
                ClaimStep::Replay(receipt) => outcome == Ok::<
                    KeyPackageClaimOutcome,
                    IdentityPersistenceError,
                >(KeyPackageClaimOutcome::Replayed(receipt)),
                ClaimStep::Take { exact_publish_bytes, .. } => match outcome {
                    Ok(outcome) => {
                        &&& updated == 1
                        &&& key_package::is_envelope(exact_publish_bytes@)
                        &&& outcome is Claimed
                        &&& outcome@ == exact_publish_bytes@
                    },
                    Err(error) => if updated != 1 {
                        error == IdentityPersistenceError::KeyPackageUnavailable
                    } else {
                        &&& !key_package::is_envelope(exact_publish_bytes@)
                        &&& error == corrupt("key package claim receipt byte length")
                    },
                },
            },
    {
        match step {
            ClaimStep::Replay(receipt) => Ok(KeyPackageClaimOutcome::Replayed(receipt)),
            ClaimStep::Take { exact_publish_bytes, .. } => {
                if updated != 1 {
                    return Err(IdentityPersistenceError::KeyPackageUnavailable);
                }
                match KeyPackageClaimReceipt::new(exact_publish_bytes) {
                    Ok(receipt) => Ok(KeyPackageClaimOutcome::Claimed(receipt)),
                    Err(error) => Err(error),
                }
            },
        }
    }
}

/// The row of a publish request that was claimed under its idempotency key.
pub open spec fn is_recorded_publish(command: PublishCommand, claim: PublishClaimRow) -> bool {
    let receipt = key_package::receipt_of(command);
    &&& claim.request_digest@.len() == 32
    &&& claim.request_digest@ == key_package::publish_request_digest(command)
    &&& claim.package_id@ == command.package_id
    &&& claim.receipt_digest@.len() == 32
    &&& claim.receipt_bytes@ == receipt.exact_bytes
    &&& claim.receipt_digest@ == key_package::publish_receipt_digest(receipt)
}

/// A recorded publish request is replayed to the same receipt, and another
/// request under its idempotency key is a conflict unless its bytes have the
/// same digest and name the same package.
pub proof fn law_publish_is_replayed(
    command: PublishCommand,
    other: PublishCommand,
    claim: PublishClaimRow,
)
    requires
        id::is_uuid_v7(command.package_id),
        is_recorded_publish(command, claim),
    ensures
        publish_replay_check(command, claim) is Ok,
        publish_replay_check(other, claim) is Ok ==> key_package::publish_request_digest(other)
            == key_package::publish_request_digest(command) && other.package_id
            == command.package_id,
{
}

/// A claim is recorded of a claim request.
pub open spec fn is_recorded_claim(command: ClaimCommand, claim: ClaimRow) -> bool {
    &&& claim.target_identity_id@ == text::hex(command.target_identity_id)
    &&& claim.target_device_id@ == command.target_device_id
    &&& claim.request_digest@ == key_package::claim_request_digest(command)
    &&& claim.request_digest@.len() == 32
    &&& claim.purpose@ == purpose_of(command.history_recovery_scope)
    &&& recovery_catalog::bytes_view(claim.recovery_request_digest) == (
    match command.history_recovery_scope {
        Some(scope) => Some(scope.request_digest),
        None => None,
    })
    &&& recovery_catalog::bytes_view(claim.recovery_scope_digest) == (
    match command.history_recovery_scope {
        Some(scope) => Some(scope.scope_digest),
        None => None,
    })
}

/// A recorded claim request is recognized when it comes again, and every other
/// request that is taken for it names the same target, has the same digest and
/// is under the same scope.
pub proof fn law_claim_is_replayed(command: ClaimCommand, other: ClaimCommand, claim: ClaimRow)
    requires
        command.target_identity_id.len() == 32,
        other.target_identity_id.len() == 32,
        id::is_uuid_v7(command.target_device_id),
        command.history_recovery_scope is Some ==> {
            &&& command.history_recovery_scope->0.request_digest.len() == 32
            &&& command.history_recovery_scope->0.scope_digest.len() == 32
        },
        is_recorded_claim(command, claim),
    ensures
        claim_replay_check(command, claim) is Ok,
        claim_replay_check(other, claim) is Ok ==> {
            &&& other.target_identity_id == command.target_identity_id
            &&& other.target_device_id == command.target_device_id
            &&& other.history_recovery_scope == command.history_recovery_scope
            &&& key_package::claim_request_digest(other) == key_package::claim_request_digest(
                command,
            )
        },
{
    if claim_replay_check(other, claim) is Ok {
        text::lemma_hex_injective(other.target_identity_id, command.target_identity_id);
    }
}

/// A package is claimed under a recovery scope only by its own identity on its
/// own node.
pub proof fn law_scoped_claim_stays_local(
    command: ClaimCommand,
    origin: Seq<char>,
    identity: Seq<u8>,
    inputs: ClaimInputs,
    now: i64,
)
    requires
        command.history_recovery_scope is Some,
        claim_check(command, origin, identity, inputs, now) is Ok,
    ensures
        origin == LOCAL_CLAIMANT_ORIGIN@,
        identity == command.target_identity_id,
{
}

/// A claim can be replayed for the whole response-loss window, and until the
/// package expires.
pub proof fn law_claim_outlives_response_loss(expires_at: i64, now: i64)
    ensures
        retention(expires_at, now) >= expires_at,
        retention(expires_at, now) >= now + KEY_PACKAGE_CLAIM_REPLAY_RETENTION_MILLIS,
{
}

/// Every kind of unavailable target is the same error: an inactive identity, a
/// device that is unknown or revoked, and a directory with no package left.
pub proof fn law_unavailable_targets_look_alike(
    command: ClaimCommand,
    origin: Seq<char>,
    identity: Seq<u8>,
    inputs: ClaimInputs,
    now: i64,
)
    requires
        scope_check(command, origin, identity) is Ok,
        inputs.removed >= 0,
        inputs.claim is None,
        inputs.target is Err ==> inputs.target->Err_0 == IdentityPersistenceError::IdentityInactive,
        inputs.target is Err || session_decision::active_key_check(
            inputs.target->Ok_0@,
            command.target_device_id,
        ) is Err || inputs.package is None,
    ensures
        claim_check(command, origin, identity, inputs, now) == Err::<(), IdentityPersistenceError>(
            IdentityPersistenceError::KeyPackageUnavailable,
        ),
{
}

} // verus!
