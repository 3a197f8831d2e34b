//! Errors of the durable identity service.

use vstd::prelude::*;
use crate::log::error::IdentityLogError;
use crate::persistence::head::IdentityLogHead;

verus! {

/// Fail-closed errors at the durable self-certifying identity-log boundary.
///
/// What storage itself reports stays with the caller that talks to it.
#[derive(Clone, Copy, Debug, PartialEq, Eq)]
pub enum IdentityPersistenceError {
    /// The configured runtime principal is privileged enough to bypass ownership safeguards.
    UnsafeRuntimeRole,
    /// The configured principal is not a member of the identity writer group.
    RuntimeRoleUnauthorized,
    /// The configured principal has privileges outside the identity-writer boundary.
    RuntimeRoleOverprivileged,
    /// A pooled connection retained a tenant-scoped transaction setting.
    TenantContextLeak,
    /// The submitted command cannot be represented by the bounded durable contract.
    InvalidCommand(&'static str),
    /// The exact signed identity event failed canonical or reducer validation.
    IdentityLog(IdentityLogError),
    /// One idempotency key was reused for a different canonical request.
    IdempotencyConflict,
    /// A durable receipt was unexpectedly incomplete.
    IncompleteCommand,
    /// A stored receipt did not match its immutable exact bytes or digest.
    ReceiptIntegrity,
    /// The caller's expected head was stale, absent, or belongs to another log.
    HeadConflict {
        /// The current committed public head, if it can be read safely.
        current: Option<IdentityLogHead>,
    },
    /// A valid but different genesis attempted to reuse an existing identity ID.
    GenesisConflict,
    /// The durable head is tombstoned, forked, or otherwise not appendable.
    IdentityInactive,
    /// A device-session request was not authorized by an active certified device.
    DeviceAuthenticationRejected,
    /// A verified, fresh device session is bound to a device revoked by the
    /// authoritative active identity projection.
    DeviceSessionRevoked,
    /// A session attempted to revoke the same device that owns the session.
    CurrentSessionDeviceRevokeForbidden,
    /// A one-time device-session challenge was no longer within its validity window.
    DeviceSessionChallengeExpired,
    /// A one-time device-session challenge already issued a session.
    DeviceSessionChallengeConsumed,
    /// An active device requested fresh challenges faster than the durable limit.
    DeviceSessionChallengeRateLimited,
    /// A QR enrollment capability did not authenticate the requested challenge.
    DeviceEnrollmentCapabilityRejected,
    /// A QR enrollment challenge passed its deadline before approval.
    DeviceEnrollmentChallengeExpired,
    /// The candidate cancelled a QR enrollment challenge before approval.
    DeviceEnrollmentChallengeCancelled,
    /// A QR enrollment challenge already committed its exact device add.
    DeviceEnrollmentChallengeApproved,
    /// No active target device has an unconsumed unexpired opaque key package.
    KeyPackageUnavailable,
    /// A key package ID or opaque package digest conflicts with immutable state.
    KeyPackageConflict,
    /// Recovery bytes were not one exact deterministic canonical-CBOR value.
    RecoveryExactCborInvalid,
    /// A catalog generation, predecessor, or immutable body conflicts.
    RecoveryCatalogConflict,
    /// The signed catalog was outside its accepted validity window.
    RecoveryCatalogExpired,
    /// A preparation or provider response conflicts with immutable state.
    RecoveryPreparationConflict,
    /// The response capability did not authenticate candidate status access.
    RecoveryResponseCapabilityRejected,
    /// The bounded preparation or response has expired.
    RecoveryPreparationExpired,
    /// The linked enrollment was cancelled, closed, or otherwise revoked.
    RecoveryPreparationRevoked,
    /// The selected catalog generation, head, or observed identity head changed.
    RecoveryCatalogHeadChanged,
    /// The selected catalog authority changed or is no longer active.
    RecoveryAuthorityChanged,
    /// The linked candidate identity, device, or public keys changed.
    RecoveryCandidateKeyChanged,
    /// A catalog/preparation fence changed after preparation.
    RecoveryPreparationInvalidated,
    /// An authenticated provider session did not match the request provider.
    RecoveryProviderMismatch,
    /// A recovery completion or its grant was not exact, authentic, and in scope.
    RecoveryCompletionInvalid,
    /// A recovery completion or its grant was outside its validity window.
    RecoveryCompletionExpired,
    /// A recovery completion was not signed by its device.
    RecoveryCompletionSignerMismatch,
    /// Stored rows did not rehydrate to one exact valid identity-log projection.
    CorruptData(&'static str),
}

impl IdentityPersistenceError {
    /// The error in words, without what a label or an inner error adds.
    pub open spec fn text(&self) -> Seq<char> {
        match self {
            IdentityPersistenceError::UnsafeRuntimeRole => {
                "identity runtime database role violates the ownership boundary"@
            },
            IdentityPersistenceError::RuntimeRoleUnauthorized => {
                "identity runtime database role is not authorized"@
            },
            IdentityPersistenceError::RuntimeRoleOverprivileged => {
                "identity runtime database role exceeds the identity-only boundary"@
            },
            IdentityPersistenceError::TenantContextLeak => {
                "identity transaction retained tenant context"@
            },
            IdentityPersistenceError::InvalidCommand(_) => "identity append command is invalid"@,
            IdentityPersistenceError::IdentityLog(_) => "identity log event was rejected"@,
            IdentityPersistenceError::IdempotencyConflict => {
                "identity idempotency key was reused with a different request"@
            },
            IdentityPersistenceError::IncompleteCommand => {
                "identity command receipt is incomplete"@
            },
            IdentityPersistenceError::ReceiptIntegrity => {
                "identity command receipt integrity check failed"@
            },
            IdentityPersistenceError::HeadConflict { .. } => {
                "identity log head conflicts with the expected predecessor"@
            },
            IdentityPersistenceError::GenesisConflict => {
                "identity genesis conflicts with an existing identity log"@
            },
            IdentityPersistenceError::IdentityInactive => "identity log is not active"@,
            IdentityPersistenceError::DeviceAuthenticationRejected => {
                "device session authentication was rejected"@
            },
            IdentityPersistenceError::DeviceSessionRevoked => "device session is revoked"@,
            IdentityPersistenceError::CurrentSessionDeviceRevokeForbidden => {
                "the current device session cannot revoke its own device"@
            },
            IdentityPersistenceError::DeviceSessionChallengeExpired => {
                "device session challenge expired"@
            },
            IdentityPersistenceError::DeviceSessionChallengeConsumed => {
                "device session challenge was consumed"@
            },
            IdentityPersistenceError::DeviceSessionChallengeRateLimited => {
                "device session challenge rate limited"@
            },
            IdentityPersistenceError::DeviceEnrollmentCapabilityRejected => {
                "device enrollment capability was rejected"@
            },
            IdentityPersistenceError::DeviceEnrollmentChallengeExpired => {
                "device enrollment challenge expired"@
            },
            IdentityPersistenceError::DeviceEnrollmentChallengeCancelled => {
                "device enrollment challenge was cancelled"@
            },
            IdentityPersistenceError::DeviceEnrollmentChallengeApproved => {
                "device enrollment challenge was approved"@
            },
            IdentityPersistenceError::KeyPackageUnavailable => "key package is unavailable"@,
            IdentityPersistenceError::KeyPackageConflict => {
                "key package conflicts with immutable state"@
            },
            IdentityPersistenceError::RecoveryExactCborInvalid => {
                "recovery catalog bytes are not exact canonical CBOR"@
            },
            IdentityPersistenceError::RecoveryCatalogConflict => {
                "recovery catalog conflicts with immutable state"@
            },
            IdentityPersistenceError::RecoveryCatalogExpired => "recovery catalog expired"@,
            IdentityPersistenceError::RecoveryPreparationConflict => {
                "recovery catalog preparation conflicts with immutable state"@
            },
            IdentityPersistenceError::RecoveryResponseCapabilityRejected => {
                "recovery response capability was rejected"@
            },
            IdentityPersistenceError::RecoveryPreparationExpired => {
                "recovery catalog preparation expired"@
            },
            IdentityPersistenceError::RecoveryPreparationRevoked => {
                "recovery catalog preparation was revoked"@
            },
            IdentityPersistenceError::RecoveryCatalogHeadChanged => {
                "recovery catalog head changed"@
            },
            IdentityPersistenceError::RecoveryAuthorityChanged => {
                "recovery catalog authority changed"@
            },
            IdentityPersistenceError::RecoveryCandidateKeyChanged => {
                "recovery candidate key changed"@
            },
            IdentityPersistenceError::RecoveryPreparationInvalidated => {
                "recovery catalog preparation invalidated"@
            },
            IdentityPersistenceError::RecoveryProviderMismatch => {
                "recovery catalog provider mismatch"@
            },
            IdentityPersistenceError::RecoveryCompletionInvalid => {
                "recovery completion is invalid"@
            },
            IdentityPersistenceError::RecoveryCompletionExpired => "recovery completion expired"@,
            IdentityPersistenceError::RecoveryCompletionSignerMismatch => {
                "recovery completion signer mismatch"@
            },
            IdentityPersistenceError::CorruptData(_) => {
                "identity persistence contained invalid durable data"@
            },
        }
    }

    /// Says in words what went wrong.
    pub fn message(&self) -> (text: String)
        ensures
            text@ == self.text(),
    {
        match self {
            IdentityPersistenceError::UnsafeRuntimeRole => {
                "identity runtime database role violates the ownership boundary".to_owned()
            },
            IdentityPersistenceError::RuntimeRoleUnauthorized => {
                "identity runtime database role is not authorized".to_owned()
            },
            IdentityPersistenceError::RuntimeRoleOverprivileged => {
                "identity runtime database role exceeds the identity-only boundary".to_owned()
            },
            IdentityPersistenceError::TenantContextLeak => {
                "identity transaction retained tenant context".to_owned()
            },
            IdentityPersistenceError::InvalidCommand(_) => {
                "identity append command is invalid".to_owned()
            },
            IdentityPersistenceError::IdentityLog(_) => {
                "identity log event was rejected".to_owned()
            },
            IdentityPersistenceError::IdempotencyConflict => {
                "identity idempotency key was reused with a different request".to_owned()
            },
            IdentityPersistenceError::IncompleteCommand => {
                "identity command receipt is incomplete".to_owned()
            },
            IdentityPersistenceError::ReceiptIntegrity => {
                "identity command receipt integrity check failed".to_owned()
            },
            IdentityPersistenceError::HeadConflict { .. } => {
                "identity log head conflicts with the expected predecessor".to_owned()
            },
            IdentityPersistenceError::GenesisConflict => {
                "identity genesis conflicts with an existing identity log".to_owned()
            },
            IdentityPersistenceError::IdentityInactive => "identity log is not active".to_owned(),
            IdentityPersistenceError::DeviceAuthenticationRejected => {
                "device session authentication was rejected".to_owned()
            },
            IdentityPersistenceError::DeviceSessionRevoked => {
                "device session is revoked".to_owned()
            },
            IdentityPersistenceError::CurrentSessionDeviceRevokeForbidden => {
                "the current device session cannot revoke its own device".to_owned()
            },
            IdentityPersistenceError::DeviceSessionChallengeExpired => {
                "device session challenge expired".to_owned()
            },
            IdentityPersistenceError::DeviceSessionChallengeConsumed => {
                "device session challenge was consumed".to_owned()
            },
            IdentityPersistenceError::DeviceSessionChallengeRateLimited => {
                "device session challenge rate limited".to_owned()
            },
            IdentityPersistenceError::DeviceEnrollmentCapabilityRejected => {
                "device enrollment capability was rejected".to_owned()
            },
            IdentityPersistenceError::DeviceEnrollmentChallengeExpired => {
                "device enrollment challenge expired".to_owned()
            },
            IdentityPersistenceError::DeviceEnrollmentChallengeCancelled => {
                "device enrollment challenge was cancelled".to_owned()
            },
            IdentityPersistenceError::DeviceEnrollmentChallengeApproved => {
                "device enrollment challenge was approved".to_owned()
            },
            IdentityPersistenceError::KeyPackageUnavailable => {
                "key package is unavailable".to_owned()
            },
            IdentityPersistenceError::KeyPackageConflict => {
                "key package conflicts with immutable state".to_owned()
            },
            IdentityPersistenceError::RecoveryExactCborInvalid => {
                "recovery catalog bytes are not exact canonical CBOR".to_owned()
            },
            IdentityPersistenceError::RecoveryCatalogConflict => {
                "recovery catalog conflicts with immutable state".to_owned()
            },
            IdentityPersistenceError::RecoveryCatalogExpired => {
                "recovery catalog expired".to_owned()
            },
            IdentityPersistenceError::RecoveryPreparationConflict => {
                "recovery catalog preparation conflicts with immutable state".to_owned()
            },
            IdentityPersistenceError::RecoveryResponseCapabilityRejected => {
                "recovery response capability was rejected".to_owned()
            },
            IdentityPersistenceError::RecoveryPreparationExpired => {
                "recovery catalog preparation expired".to_owned()
            },
            IdentityPersistenceError::RecoveryPreparationRevoked => {
                "recovery catalog preparation was revoked".to_owned()
            },
            IdentityPersistenceError::RecoveryCatalogHeadChanged => {
                "recovery catalog head changed".to_owned()
            },
            IdentityPersistenceError::RecoveryAuthorityChanged => {
                "recovery catalog authority changed".to_owned()
            },
            IdentityPersistenceError::RecoveryCandidateKeyChanged => {
                "recovery candidate key changed".to_owned()
            },
            IdentityPersistenceError::RecoveryPreparationInvalidated => {
                "recovery catalog preparation invalidated".to_owned()
            },
            IdentityPersistenceError::RecoveryProviderMismatch => {
                "recovery catalog provider mismatch".to_owned()
            },
            IdentityPersistenceError::RecoveryCompletionInvalid => {
                "recovery completion is invalid".to_owned()
            },
            IdentityPersistenceError::RecoveryCompletionExpired => {
                "recovery completion expired".to_owned()
            },
            IdentityPersistenceError::RecoveryCompletionSignerMismatch => {
                "recovery completion signer mismatch".to_owned()
            },
            IdentityPersistenceError::CorruptData(_) => {
                "identity persistence contained invalid durable data".to_owned()
            },
        }
    }

    /// The identity-log error behind this one.
    pub fn source(&self) -> (source: Option<IdentityLogError>)
        ensures
            source == match self {
                IdentityPersistenceError::IdentityLog(source) => Some(*source),
                _ => None,
            },
    {
        match self {
            IdentityPersistenceError::IdentityLog(source) => Some(*source),
            _ => None,
        }
    }
}

impl From<IdentityLogError> for IdentityPersistenceError {
    fn from(source: IdentityLogError) -> (error: Self) {
        IdentityPersistenceError::IdentityLog(source)
    }
}

impl vstd::std_specs::convert::FromSpecImpl<IdentityLogError> for IdentityPersistenceError {
    open spec fn obeys_from_spec() -> bool {
        true
    }

    open spec fn from_spec(source: IdentityLogError) -> Self {
        IdentityPersistenceError::IdentityLog(source)
    }
}

} // verus!
