//! Decisions on QR device enrollment.

use vstd::prelude::*;
use crate::log::authority;
use crate::log::event::{Event, IdentityLogEventV1};
use crate::log::event_codec;
use crate::log::payload::{IdentityLogEventPayloadV1, Payload};
use crate::log::wire_line::IDENTITY_LOG_WIRE_VERSION;
use crate::persistence::enrollment_challenge;
use crate::persistence::enrollment_challenge::{DurableChallengeState, StoredEnrollmentChallenge};
use crate::persistence::enrollment_command;
use crate::persistence::enrollment_command::{
    Approval, ChallengeStatus, CreateDeviceEnrollmentChallengeCommand,
    CreateHistoryRecoveryRequestCommand, DeviceEnrollmentApprovalCommand,
    DeviceEnrollmentCapability, DeviceEnrollmentChallengeOutcome, DeviceEnrollmentChallengeState,
    DeviceEnrollmentChallengeStatus, EnrollmentCard, DEVICE_ENROLLMENT_APPROVAL_RETENTION_MILLIS,
    DEVICE_ENROLLMENT_CHALLENGE_TTL_MILLIS,
};
use crate::persistence::error::IdentityPersistenceError;
use crate::persistence::head;
use crate::persistence::head::{Head, IdentityLogHead, IdentityLogSnapshot};
use crate::persistence::row;
use crate::persistence::row::add_duration;
use crate::wire::bytes::{bytes_equal, to_vec};
use crate::wire::digest::Sha256Digest;
use crate::wire::id::{DeviceEnrollmentChallengeId, IdentityId};
use crate::wire::key::SigningPublicKey;
use crate::wire::number::{SafeUint, UtcMillis, MAX_SAFE_INTEGER};
use crate::wire::text;
use crate::wire::text::text_equal;
use crate::wire::version::wire_equal;

verus! {

/// The error is a conflict with this head.
pub open spec fn is_head_conflict(error: IdentityPersistenceError, head: Head) -> bool {
    match error {
        IdentityPersistenceError::HeadConflict { current } => head::head_view(current)
            == Some(head),
        _ => false,
    }
}

/// Whether a capability is that of a stored challenge.
pub open spec fn capability_check(
    challenge: StoredEnrollmentChallenge,
    capability: Seq<u8>,
) -> Result<
    (),
    IdentityPersistenceError,
> {
    if challenge.capability_hash@ == enrollment_command::capability_digest(capability) {
        Ok(())
    } else {
        Err(IdentityPersistenceError::DeviceEnrollmentCapabilityRejected)
    }
}

/// Accepts exactly the capability of a stored challenge.
pub fn ensure_capability(
    challenge: &StoredEnrollmentChallenge,
    capability: &DeviceEnrollmentCapability,
) -> (checked: Result<(), IdentityPersistenceError>)
    ensures
        checked == capability_check(*challenge, capability@),
{
    if challenge.capability_hash.equal_in_constant_time(&capability.hash()) {
        Ok(())
    } else {
        Err(IdentityPersistenceError::DeviceEnrollmentCapabilityRejected)
    }
}

/// Accepts only a session of the identity of a stored challenge.
pub fn ensure_session_identity(
    challenge: &StoredEnrollmentChallenge,
    session_identity: IdentityId,
) -> (
checked: Result<(), IdentityPersistenceError>)
    ensures
        checked == if session_identity@ == challenge.identity_id@ {
            Ok::<(), IdentityPersistenceError>(())
        } else {
            Err(IdentityPersistenceError::DeviceAuthenticationRejected)
        },
{
    if session_identity != challenge.identity_id {
        return Err(IdentityPersistenceError::DeviceAuthenticationRejected);
    }
    Ok(())
}

/// Accepts an observed head, if there is one, only while it is still current.
pub fn ensure_history_recovery_observed_head(
    observed_head: Option<IdentityLogHead>,
    current_head: IdentityLogHead,
) -> (checked: Result<(), IdentityPersistenceError>)
    ensures
        checked == if observed_head is None || observed_head->0@ == current_head@ {
            Ok::<(), IdentityPersistenceError>(())
        } else {
            Err(IdentityPersistenceError::HeadConflict { current: Some(current_head) })
        },
{
    match observed_head {
        None => Ok(()),
        Some(observed_head) => {
            if observed_head == current_head {
                Ok(())
            } else {
                Err(IdentityPersistenceError::HeadConflict { current: Some(current_head) })
            }
        },
    }
}

/// Accepts a replay only of the exact approval that was stored.
pub fn ensure_exact_approved_replay(
    stored_approval_digest: Option<Sha256Digest>,
    approval_digest: Sha256Digest,
) -> (checked: Result<(), IdentityPersistenceError>)
    ensures
        checked == if authority::digest_view(stored_approval_digest) == Some(approval_digest@) {
            Ok::<(), IdentityPersistenceError>(())
        } else {
            Err(IdentityPersistenceError::IdempotencyConflict)
        },
{
    let exact = match stored_approval_digest {
        Some(stored) => stored == approval_digest,
        None => false,
    };
    if exact {
        Ok(())
    } else {
        Err(IdentityPersistenceError::IdempotencyConflict)
    }
}

/// Why an event cannot be the device add of an approval being replayed.
pub open spec fn replay_head_check(event: Event, challenge: StoredEnrollmentChallenge) -> Result<
    (),
    IdentityPersistenceError,
> {
    if event.unsigned.wire != IDENTITY_LOG_WIRE_VERSION || event.unsigned.identity_id
        != challenge.identity_id@ {
        Err(
            IdentityPersistenceError::InvalidCommand(
                "device enrollment replay event identity or wire",
            ),
        )
    } else if event.unsigned.sequence == 0 {
        Err(IdentityPersistenceError::InvalidCommand("device enrollment device add sequence"))
    } else {
        Ok(())
    }
}

/// The head that a replayed device add must have followed.
pub open spec fn replay_head(
    event: Event,
    challenge: StoredEnrollmentChallenge,
    expected_hash: Seq<u8>,
) -> Head {
    Head {
        identity_id: challenge.identity_id@,
        wire: IDENTITY_LOG_WIRE_VERSION,
        sequence: (event.unsigned.sequence - 1) as u64,
        hash: expected_hash,
    }
}

/// The head that a replayed device add must have followed.
pub fn replay_expected_head(
    event: &IdentityLogEventV1,
    challenge: &StoredEnrollmentChallenge,
    command: &DeviceEnrollmentApprovalCommand,
) -> (head: Result<IdentityLogHead, IdentityPersistenceError>)
    ensures
        match head {
            Ok(head) => {
                &&& replay_head_check(event@, *challenge) is Ok
                &&& head@ == replay_head(event@, *challenge, command@.expected_head_hash)
            },
            Err(error) => replay_head_check(event@, *challenge) == Err::<
                (),
                IdentityPersistenceError,
            >(error),
        },
{
    if !wire_equal(event.wire(), IDENTITY_LOG_WIRE_VERSION) || event.identity_id()
        != challenge.identity_id {
        return Err(
            IdentityPersistenceError::InvalidCommand(
                "device enrollment replay event identity or wire",
            ),
        );
    }
    let sequence: u64 = event.sequence().get();
    if sequence == 0 {
        return Err(
            IdentityPersistenceError::InvalidCommand("device enrollment device add sequence"),
        );
    }
    match SafeUint::new(sequence - 1) {
        Ok(expected) => Ok(
            IdentityLogHead::new(
                challenge.identity_id,
                IDENTITY_LOG_WIRE_VERSION,
                expected,
                command.expected_head_hash(),
            ),
        ),
        Err(_) => Err(
            IdentityPersistenceError::InvalidCommand("device enrollment device add sequence"),
        ),
    }
}

/// Whether an event adds exactly the candidate of a challenge after a head,
/// signed by the root where one is given.
pub open spec fn device_add_check(
    event: Event,
    challenge: StoredEnrollmentChallenge,
    expected_head: Head,
    expected_root: Option<Seq<u8>>,
) -> Result<(), IdentityPersistenceError> {
    if event.unsigned.wire != IDENTITY_LOG_WIRE_VERSION || event.unsigned.identity_id
        != challenge.identity_id@ || event.unsigned.previous_event_hash != Some(expected_head.hash)
        || event.unsigned.sequence != expected_head.sequence + 1 {
        Err(IdentityPersistenceError::InvalidCommand("device enrollment device add predecessor"))
    } else {
        match event.unsigned.payload {
            Payload::DeviceAdd { certificate } => if certificate.unsigned.identity_id
                != challenge.identity_id@ || certificate.unsigned.device_id
                != challenge.target_device_id@ || certificate.unsigned.device_signing_key
                != challenge.target_device_signing_key@
                || certificate.unsigned.device_encryption_key
                != challenge.target_device_encryption_key@ {
                Err(
                    IdentityPersistenceError::InvalidCommand(
                        "device enrollment target certificate mismatch",
                    ),
                )
            } else if expected_root is Some && (event.unsigned.signer != expected_root->0
                || certificate.unsigned.issuer_root_key != expected_root->0) {
                Err(
                    IdentityPersistenceError::InvalidCommand(
                        "device enrollment root signer mismatch",
                    ),
                )
            } else {
                Ok(())
            },
            _ => Err(
                IdentityPersistenceError::InvalidCommand(
                    "device enrollment approval must be a device add",
                ),
            ),
        }
    }
}

/// The model of an optional key.
pub open spec fn key_view(key: Option<SigningPublicKey>) -> Option<Seq<u8>> {
    match key {
        Some(key) => Some(key@),
        None => None,
    }
}

/// Checks that an event adds exactly the candidate of a challenge after a head.
pub fn validate_device_add_matches(
    event: &IdentityLogEventV1,
    challenge: &StoredEnrollmentChallenge,
    expected_head: IdentityLogHead,
    expected_root: Option<SigningPublicKey>,
) -> (checked: Result<(), IdentityPersistenceError>)
    ensures
        checked == device_add_check(
            event@,
            *challenge,
            expected_head@,
            key_view(expected_root),
        ),
{
    let follows = match event.previous_event_hash() {
        Some(previous) => previous == expected_head.hash(),
        None => false,
    };
    if !wire_equal(event.wire(), IDENTITY_LOG_WIRE_VERSION) || event.identity_id()
        != challenge.identity_id || !follows || event.sequence().get()
        != expected_head.sequence().get() + 1 {
        return Err(
            IdentityPersistenceError::InvalidCommand("device enrollment device add predecessor"),
        );
    }
    let certificate = match event.payload() {
        IdentityLogEventPayloadV1::DeviceAdd { certificate } => certificate,
        _ => {
            return Err(
                IdentityPersistenceError::InvalidCommand(
                    "device enrollment approval must be a device add",
                ),
            );
        },
    };
    if certificate.identity_id() != challenge.identity_id || certificate.device_id()
        != challenge.target_device_id || certificate.device_signing_key()
        != challenge.target_device_signing_key || certificate.device_encryption_key()
        != challenge.target_device_encryption_key {
        return Err(
            IdentityPersistenceError::InvalidCommand(
                "device enrollment target certificate mismatch",
            ),
        );
    }
    match expected_root {
        Some(root) => {
            if event.signer() != root || certificate.issuer_root_key() != root {
                return Err(
                    IdentityPersistenceError::InvalidCommand(
                        "device enrollment root signer mismatch",
                    ),
                );
            }
        },
        None => {},
    }
    Ok(())
}

/// A challenge as it was persisted, and whether by an earlier request.
#[derive(Clone, Copy, Debug)]
pub struct PersistedChallenge {
    /// The challenge.
    pub challenge_id: DeviceEnrollmentChallengeId,
    /// When it was created.
    pub created_at: UtcMillis,
    /// When it expires.
    pub expires_at: UtcMillis,
    /// Whether an earlier request created it.
    pub replayed: bool,
}

/// What to do with a request for a card.
#[derive(Clone, Copy, Debug)]
pub enum CreationDecision {
    /// The card exists already.
    Replay(PersistedChallenge),
    /// Insert a challenge with this request digest and deadline, once the
    /// identity is known to be active.
    Insert(Sha256Digest, UtcMillis),
}

/// The persisted challenge is that of a stored row.
pub open spec fn is_replayed(
    persisted: PersistedChallenge,
    stored: StoredEnrollmentChallenge,
) -> bool {
    &&& persisted.challenge_id@ == stored.challenge_id@
    &&& persisted.created_at@ == stored.created_at@
    &&& persisted.expires_at@ == stored.expires_at@
    &&& persisted.replayed
}

/// Hands out a stored challenge again.
fn replayed(stored: &StoredEnrollmentChallenge) -> (persisted: PersistedChallenge)
    ensures
        is_replayed(persisted, *stored),
{
    PersistedChallenge {
        challenge_id: stored.challenge_id,
        created_at: stored.created_at,
        expires_at: stored.expires_at,
        replayed: true,
    }
}

/// An event to append to the identity log.
#[derive(Debug)]
pub struct AppendPlan {
    /// The idempotency key of the append.
    pub idempotency_key_hash: Sha256Digest,
    /// The head that the event must follow.
    pub expected_head: IdentityLogHead,
    /// The exact signed event.
    pub exact_event: Vec<u8>,
}

/// The plan appends the device add of an approval after a head.
pub open spec fn is_append_of(plan: AppendPlan, command: Approval, head: Head) -> bool {
    &&& plan.idempotency_key_hash@ == enrollment_command::append_key_of(command)
    &&& plan.expected_head@ == head
    &&& plan.exact_event@ == command.exact_device_add_bytes
}

/// The next step of an approval.
#[derive(Debug)]
pub enum ApprovalStep {
    /// The challenge is approved already: append again, which must replay.
    Replay(AppendPlan),
    /// The challenge is open: authenticate the approver and load the log.
    Authenticate,
}

/// How an append ended.
#[derive(Clone, Copy, Debug, PartialEq, Eq, Structural)]
pub enum AppendDisposition {
    /// The event was appended.
    Committed,
    /// The same command had been appended before.
    Replayed,
    /// The event forks the log; the evidence was recorded.
    Forked,
}

/// Builds the plan that appends the device add of an approval.
fn append_plan(command: &DeviceEnrollmentApprovalCommand, expected_head: IdentityLogHead) -> (plan:
    AppendPlan)
    ensures
        is_append_of(plan, command@, expected_head@),
{
    AppendPlan {
        idempotency_key_hash: command.identity_append_idempotency_key(),
        expected_head,
        exact_event: to_vec(command.exact_device_add_bytes()),
    }
}

/// Why an approval cannot proceed against a stored challenge.
pub open spec fn approval_check(
    command: Approval,
    identity_hint: Seq<u8>,
    challenge: StoredEnrollmentChallenge,
    now: i64,
) -> Result<(), IdentityPersistenceError> {
    match event_codec::decode_event(command.exact_device_add_bytes) {
        Err(error) => Err(IdentityPersistenceError::IdentityLog(error)),
        Ok(event) => if challenge.identity_id@ != identity_hint {
            Err(
                IdentityPersistenceError::CorruptData(
                    "device enrollment challenge identity changed",
                ),
            )
        } else if let Err(error) = capability_check(challenge, command.capability) {
            Err(error)
        } else {
            match challenge.state {
                DurableChallengeState::Cancelled => Err(
                    IdentityPersistenceError::DeviceEnrollmentChallengeCancelled,
                ),
                DurableChallengeState::Approved => if authority::digest_view(
                    challenge.approval_request_digest,
                ) != Some(enrollment_command::approval_digest_of(command)) {
                    Err(IdentityPersistenceError::IdempotencyConflict)
                } else if let Err(error) = replay_head_check(event, challenge) {
                    Err(error)
                } else {
                    device_add_check(
                        event,
                        challenge,
                        replay_head(event, challenge, command.expected_head_hash),
                        None,
                    )
                },
                DurableChallengeState::Open => if now >= challenge.expires_at@ {
                    Err(IdentityPersistenceError::DeviceEnrollmentChallengeExpired)
                } else {
                    Ok(())
                },
            }
        },
    }
}

/// The status of a challenge that was just cancelled.
pub open spec fn cancelled_status(challenge: StoredEnrollmentChallenge) -> ChallengeStatus {
    ChallengeStatus {
        challenge_id: challenge.challenge_id@,
        identity_id: challenge.identity_id@,
        target_device_id: challenge.target_device_id@,
        state: DeviceEnrollmentChallengeState::Cancelled,
        created_at: challenge.created_at@,
        expires_at: challenge.expires_at@,
        approved_head: None,
    }
}

/// Whether the bearer of a capability may see a stored challenge.
pub open spec fn access_check(
    identity_hint: Seq<u8>,
    challenge: StoredEnrollmentChallenge,
    capability: Seq<u8>,
) -> Result<(), IdentityPersistenceError> {
    if challenge.identity_id@ != identity_hint {
        Err(IdentityPersistenceError::CorruptData("device enrollment challenge identity changed"))
    } else {
        capability_check(challenge, capability)
    }
}

/// Durable repository for QR second-device enrollment.
#[derive(Clone, Copy, Debug, Default)]
pub struct DeviceEnrollmentRepository;

impl DeviceEnrollmentRepository {
    /// Authenticates the candidate's capability for a catalog-exhaustive
    /// request, before anything nested in it is decoded.
    ///
    /// A missing challenge, another identity and another capability share one
    /// opaque rejection.
    pub fn authenticate_history_recovery_request_v4_capability(
        &self,
        stored: Option<(String, Vec<u8>)>,
        identity_id: IdentityId,
        capability_hash: Sha256Digest,
    ) -> (checked: Result<(), IdentityPersistenceError>)
        ensures
            checked == if stored is Some && (stored->0).0@ == text::hex(identity_id@)
                && (stored->0).1@
                == capability_hash@ {
                Ok::<(), IdentityPersistenceError>(())
            } else {
                Err(IdentityPersistenceError::DeviceEnrollmentCapabilityRejected)
            },
    {
        match stored {
            Some(row) => {
                if text_equal(row.0.as_str(), identity_id.to_text().as_str()) && bytes_equal(
                    row.1.as_slice(),
                    capability_hash.as_bytes(),
                ) {
                    Ok(())
                } else {
                    Err(IdentityPersistenceError::DeviceEnrollmentCapabilityRejected)
                }
            },
            None => Err(IdentityPersistenceError::DeviceEnrollmentCapabilityRejected),
        }
    }

    /// Checks that a history-recovery request holds at `now`.
    pub fn validate_history_recovery_request(
        &self,
        command: &CreateHistoryRecoveryRequestCommand,
        now: UtcMillis,
    ) -> (valid: Result<(), IdentityPersistenceError>)
        ensures
            valid == if command@.issued_at <= now@ < command@.expires_at {
                Ok::<(), IdentityPersistenceError>(())
            } else {
                Err(IdentityPersistenceError::DeviceEnrollmentChallengeExpired)
            },
    {
        if now.get() < command.issued_at().get() || now.get() >= command.expires_at().get() {
            Err(IdentityPersistenceError::DeviceEnrollmentChallengeExpired)
        } else {
            Ok(())
        }
    }

    /// Replays what is stored under the idempotency key of a history-recovery
    /// request, to the very same request only.
    pub fn replay_history_recovery_request(
        &self,
        command: &CreateHistoryRecoveryRequestCommand,
        stored: &StoredEnrollmentChallenge,
    ) -> (replay: Result<PersistedChallenge, IdentityPersistenceError>)
        ensures
            ({
                let same = enrollment_challenge::is_recovery_creation(
                    *stored,
                    command@,
                    enrollment_command::recovery_request_digest(command@),
                );
                match replay {
                    Ok(persisted) => same && is_replayed(persisted, *stored),
                    Err(error) => {
                        &&& !same
                        &&& error == IdentityPersistenceError::IdempotencyConflict
                    },
                }
            }),
    {
        if stored.matches_history_recovery_creation(command, command.request_digest()) {
            Ok(replayed(stored))
        } else {
            Err(IdentityPersistenceError::IdempotencyConflict)
        }
    }

    /// Decides on one exact candidate-signed history-recovery request.
    ///
    /// The request is accepted only while it holds and while the head that the
    /// candidate observed is current; the snapshot is needed only where nothing
    /// is stored under the idempotency key.
    pub fn create_history_recovery_request(
        &self,
        command: &CreateHistoryRecoveryRequestCommand,
        existing: &Option<StoredEnrollmentChallenge>,
        snapshot: &Result<IdentityLogSnapshot, IdentityPersistenceError>,
        now: UtcMillis,
    ) -> (decision: Result<CreationDecision, IdentityPersistenceError>)
        ensures
            ({
                let digest = enrollment_command::recovery_request_digest(command@);
                let holds = command@.issued_at <= now@ < command@.expires_at;
                match decision {
                    Ok(CreationDecision::Replay(persisted)) => {
                        &&& holds
                        &&& existing is Some
                        &&& enrollment_challenge::is_recovery_creation(
                            existing->0,
                            command@,
                            digest,
                        )
                        &&& is_replayed(persisted, existing->0)
                    },
                    Ok(CreationDecision::Insert(request_digest, expires_at)) => {
                        &&& holds
                        &&& existing is None
                        &&& snapshot is Ok
                        &&& head::head_of(snapshot->Ok_0@) == command@.observed_head
                        &&& request_digest@ == digest
                        &&& expires_at@ == command@.expires_at
                    },
                    Err(error) => if !holds {
                        error == IdentityPersistenceError::DeviceEnrollmentChallengeExpired
                    } else if existing is Some {
                        &&& !enrollment_challenge::is_recovery_creation(
                            existing->0,
                            command@,
                            digest,
                        )
                        &&& error == IdentityPersistenceError::IdempotencyConflict
                    } else if let Err(refused) = snapshot {
                        error == refused
                    } else {
                        &&& head::head_of(snapshot->Ok_0@) != command@.observed_head
                        &&& is_head_conflict(error, head::head_of(snapshot->Ok_0@))
                    },
                }
            }),
    {
        if let Err(error) = self.validate_history_recovery_request(command, now) {
            return Err(error);
        }
        let request_digest = command.request_digest();
        match existing {
            Some(stored) => match self.replay_history_recovery_request(command, stored) {
                Ok(persisted) => Ok(CreationDecision::Replay(persisted)),
                Err(error) => Err(error),
            },
            None => {
                let current = match snapshot {
                    Ok(snapshot) => snapshot.head(),
                    Err(error) => {
                        return Err(*error);
                    },
                };
                if current != command.observed_head() {
                    return Err(
                        IdentityPersistenceError::HeadConflict { current: Some(current) },
                    );
                }
                Ok(CreationDecision::Insert(request_digest, command.expires_at()))
            },
        }
    }

    /// Settles the insertion of a recovery request: the request was inserted,
    /// or the row in its way is an exact replay.
    pub fn settle_history_recovery_request(
        &self,
        command: &CreateHistoryRecoveryRequestCommand,
        inserted: bool,
        existing: &Option<StoredEnrollmentChallenge>,
        now: UtcMillis,
    ) -> (persisted: Result<PersistedChallenge, IdentityPersistenceError>)
        ensures
            ({
                let digest = enrollment_command::recovery_request_digest(command@);
                match persisted {
                    Ok(persisted) => if inserted {
                        &&& persisted.challenge_id@ == command@.request_id
                        &&& persisted.created_at@ == now@
                        &&& persisted.expires_at@ == command@.expires_at
                        &&& !persisted.replayed
                    } else {
                        &&& existing is Some
                        &&& enrollment_challenge::is_recovery_creation(
                            existing->0,
                            command@,
                            digest,
                        )
                        &&& is_replayed(persisted, existing->0)
                    },
                    Err(error) => {
                        &&& !inserted
                        &&& if existing is None {
                            error == IdentityPersistenceError::CorruptData(
                                "history recovery request conflict without durable row",
                            )
                        } else {
                            &&& !enrollment_challenge::is_recovery_creation(
                                existing->0,
                                command@,
                                digest,
                            )
                            &&& error == IdentityPersistenceError::IdempotencyConflict
                        }
                    },
                }
            }),
    {
        if inserted {
            return Ok(
                PersistedChallenge {
                    challenge_id: command.request_id(),
                    created_at: now,
                    expires_at: command.expires_at(),
                    replayed: false,
                },
            );
        }
        match existing {
            Some(stored) => {
                if stored.matches_history_recovery_creation(command, command.request_digest()) {
                    Ok(replayed(stored))
                } else {
                    Err(IdentityPersistenceError::IdempotencyConflict)
                }
            },
            None => Err(
                IdentityPersistenceError::CorruptData(
                    "history recovery request conflict without durable row",
                ),
            ),
        }
    }

    /// Checks a request for a card before anything is stored; gives its digest and
    /// when the card would expire.
    pub fn validate_challenge(
        &self,
        command: &CreateDeviceEnrollmentChallengeCommand,
        now: UtcMillis,
    ) -> (valid: Result<(Sha256Digest, UtcMillis), IdentityPersistenceError>)
        ensures
            ({
                let deadline = now@ + DEVICE_ENROLLMENT_CHALLENGE_TTL_MILLIS;
                match valid {
                    Ok(valid) => {
                        &&& deadline <= MAX_SAFE_INTEGER
                        &&& valid.0@ == enrollment_command::create_request_digest(command@)
                        &&& valid.1@ == deadline
                    },
                    Err(error) => {
                        &&& deadline > MAX_SAFE_INTEGER
                        &&& error == IdentityPersistenceError::InvalidCommand(
                            "device enrollment expiry",
                        )
                    },
                }
            }),
    {
        let request_digest = match command.request_digest() {
            Ok(digest) => digest,
            Err(error) => {
                return Err(error);
            },
        };
        let expires_at = match add_duration(
            now,
            DEVICE_ENROLLMENT_CHALLENGE_TTL_MILLIS,
            "device enrollment expiry overflow",
            "device enrollment expiry",
        ) {
            Ok(expires_at) => expires_at,
            Err(error) => {
                return Err(error);
            },
        };
        expires_at.checked();
        Ok((request_digest, expires_at))
    }

    /// Decides on a request for a short-lived candidate enrollment card.
    pub fn create_challenge(
        &self,
        command: &CreateDeviceEnrollmentChallengeCommand,
        existing: &Option<StoredEnrollmentChallenge>,
        now: UtcMillis,
    ) -> (decision: Result<CreationDecision, IdentityPersistenceError>)
        ensures
            ({
                let digest = enrollment_command::create_request_digest(command@);
                let deadline = now@ + DEVICE_ENROLLMENT_CHALLENGE_TTL_MILLIS;
                match decision {
                    Ok(CreationDecision::Replay(persisted)) => {
                        &&& deadline <= MAX_SAFE_INTEGER
                        &&& existing is Some
                        &&& enrollment_challenge::is_creation(existing->0, command@, digest)
                        &&& is_replayed(persisted, existing->0)
                    },
                    Ok(CreationDecision::Insert(request_digest, expires_at)) => {
                        &&& deadline <= MAX_SAFE_INTEGER
                        &&& existing is None
                        &&& request_digest@ == digest
                        &&& expires_at@ == deadline
                    },
                    Err(error) => if deadline > MAX_SAFE_INTEGER {
                        error == IdentityPersistenceError::InvalidCommand(
                            "device enrollment expiry",
                        )
                    } else {
                        &&& existing is Some
                        &&& !enrollment_challenge::is_creation(existing->0, command@, digest)
                        &&& error == IdentityPersistenceError::IdempotencyConflict
                    },
                }
            }),
    {
        let (request_digest, expires_at) = match self.validate_challenge(command, now) {
            Ok(valid) => valid,
            Err(error) => {
                return Err(error);
            },
        };
        match existing {
            Some(stored) => {
                if stored.matches_creation(command, request_digest) {
                    Ok(CreationDecision::Replay(replayed(stored)))
                } else {
                    Err(IdentityPersistenceError::IdempotencyConflict)
                }
            },
            None => Ok(CreationDecision::Insert(request_digest, expires_at)),
        }
    }

    /// Settles the insertion of a card: the card was inserted, or the row in its
    /// way is an exact replay.
    pub fn settle_challenge(
        &self,
        command: &CreateDeviceEnrollmentChallengeCommand,
        request_digest: Sha256Digest,
        inserted: Option<(DeviceEnrollmentChallengeId, UtcMillis, UtcMillis)>,
        existing: &Option<StoredEnrollmentChallenge>,
    ) -> (persisted: Result<PersistedChallenge, IdentityPersistenceError>)
        ensures
            match persisted {
                Ok(persisted) => match inserted {
                    Some(row) => {
                        &&& persisted.challenge_id@ == row.0@
                        &&& persisted.created_at@ == row.1@
                        &&& persisted.expires_at@ == row.2@
                        &&& !persisted.replayed
                    },
                    None => {
                        &&& existing is Some
                        &&& enrollment_challenge::is_creation(
                            existing->0,
                            command@,
                            request_digest@,
                        )
                        &&& is_replayed(persisted, existing->0)
                    },
                },
                Err(error) => {
                    &&& inserted is None
                    &&& if existing is None {
                        error == IdentityPersistenceError::CorruptData(
                            "device enrollment challenge conflict without durable row",
                        )
                    } else {
                        &&& !enrollment_challenge::is_creation(
                            existing->0,
                            command@,
                            request_digest@,
                        )
                        &&& error == IdentityPersistenceError::IdempotencyConflict
                    }
                },
            },
    {
        match inserted {
            Some(row) => Ok(
                PersistedChallenge {
                    challenge_id: row.0,
                    created_at: row.1,
                    expires_at: row.2,
                    replayed: false,
                },
            ),
            None => match existing {
                Some(stored) => {
                    if stored.matches_creation(command, request_digest) {
                        Ok(replayed(stored))
                    } else {
                        Err(IdentityPersistenceError::IdempotencyConflict)
                    }
                },
                None => Err(
                    IdentityPersistenceError::CorruptData(
                        "device enrollment challenge conflict without durable row",
                    ),
                ),
            },
        }
    }

    /// The card that answers a creation request.
    pub fn issue_card(
        &self,
        command: CreateDeviceEnrollmentChallengeCommand,
        persisted: PersistedChallenge,
    ) -> (outcome: DeviceEnrollmentChallengeOutcome)
        ensures
            outcome.card() == (EnrollmentCard {
                challenge_id: persisted.challenge_id@,
                identity_id: command@.identity_id,
                target_device_id: command@.target_device_id,
                target_device_signing_key: command@.target_device_signing_key,
                target_device_encryption_key: command@.target_device_encryption_key,
                capability: command@.capability,
                created_at: persisted.created_at@,
                expires_at: persisted.expires_at@,
            }),
            outcome is Replayed <==> persisted.replayed,
    {
        let card = command.into_card(
            persisted.challenge_id,
            persisted.created_at,
            persisted.expires_at,
        );
        if persisted.replayed {
            DeviceEnrollmentChallengeOutcome::Replayed(card)
        } else {
            DeviceEnrollmentChallengeOutcome::Created(card)
        }
    }

    /// The card that answers a recovery request.
    pub fn issue_recovery_card(
        &self,
        command: CreateHistoryRecoveryRequestCommand,
        persisted: PersistedChallenge,
    ) -> (outcome: DeviceEnrollmentChallengeOutcome)
        ensures
            outcome.card() == (EnrollmentCard {
                challenge_id: persisted.challenge_id@,
                identity_id: command@.identity_id,
                target_device_id: command@.target_device_id,
                target_device_signing_key: command@.target_device_signing_key,
                target_device_encryption_key: command@.recipient_encryption_key,
                capability: command@.capability,
                created_at: persisted.created_at@,
                expires_at: persisted.expires_at@,
            }),
            outcome is Replayed <==> persisted.replayed,
    {
        let card = command.into_card(
            persisted.challenge_id,
            persisted.created_at,
            persisted.expires_at,
        );
        if persisted.replayed {
            DeviceEnrollmentChallengeOutcome::Replayed(card)
        } else {
            DeviceEnrollmentChallengeOutcome::Created(card)
        }
    }

    /// Decides how an approval proceeds against the locked challenge.
    ///
    /// A challenge that was approved by the byte-identical request is replayed
    /// without authenticating again; any other request is refused.
    pub fn approve(
        &self,
        command: &DeviceEnrollmentApprovalCommand,
        identity_hint: IdentityId,
        challenge: &StoredEnrollmentChallenge,
        now: UtcMillis,
    ) -> (step: Result<ApprovalStep, IdentityPersistenceError>)
        ensures
            ({
                let checked = approval_check(command@, identity_hint@, *challenge, now@);
                let event = event_codec::decode_event(command@.exact_device_add_bytes)->Ok_0;
                match step {
                    Ok(ApprovalStep::Replay(plan)) => {
                        &&& checked is Ok
                        &&& challenge.state == DurableChallengeState::Approved
                        &&& is_append_of(
                            plan,
                            command@,
                            replay_head(event, *challenge, command@.expected_head_hash),
                        )
                    },
                    Ok(ApprovalStep::Authenticate) => {
                        &&& checked is Ok
                        &&& challenge.state == DurableChallengeState::Open
                    },
                    Err(error) => checked == Err::<(), IdentityPersistenceError>(error),
                }
            }),
    {
        let approval_digest = match command.request_digest() {
            Ok(digest) => digest,
            Err(error) => {
                return Err(error);
            },
        };
        let event = match IdentityLogEventV1::decode_and_verify(command.exact_device_add_bytes()) {
            Ok(event) => event,
            Err(error) => {
                return Err(IdentityPersistenceError::IdentityLog(error));
            },
        };
        if challenge.identity_id != identity_hint {
            return Err(
                IdentityPersistenceError::CorruptData(
                    "device enrollment challenge identity changed",
                ),
            );
        }
        if let Err(error) = ensure_capability(challenge, command.capability()) {
            return Err(error);
        }
        match challenge.state {
            DurableChallengeState::Cancelled => Err(
                IdentityPersistenceError::DeviceEnrollmentChallengeCancelled,
            ),
            DurableChallengeState::Approved => {
                if let Err(error) = ensure_exact_approved_replay(
                    challenge.approval_request_digest,
                    approval_digest,
                ) {
                    return Err(error);
                }
                let expected_head = match replay_expected_head(&event, challenge, command) {
                    Ok(head) => head,
                    Err(error) => {
                        return Err(error);
                    },
                };
                if let Err(error) = validate_device_add_matches(
                    &event,
                    challenge,
                    expected_head,
                    None,
                ) {
                    return Err(error);
                }
                Ok(ApprovalStep::Replay(append_plan(command, expected_head)))
            },
            DurableChallengeState::Open => {
                if now.get() >= challenge.expires_at.get() {
                    Err(IdentityPersistenceError::DeviceEnrollmentChallengeExpired)
                } else {
                    Ok(ApprovalStep::Authenticate)
                }
            },
        }
    }

    /// Decides what an authenticated approver of an open challenge appends.
    ///
    /// The approver's session belongs to the challenge's identity, the observed
    /// and the expected head are the current one, and the event adds exactly
    /// the candidate, signed by the current root.
    pub fn approve_open(
        &self,
        command: &DeviceEnrollmentApprovalCommand,
        challenge: &StoredEnrollmentChallenge,
        session_identity: IdentityId,
        authenticated_identity: IdentityId,
        snapshot: &IdentityLogSnapshot,
    ) -> (plan: Result<AppendPlan, IdentityPersistenceError>)
        ensures
            ({
                let current = head::head_of(snapshot@);
                let decoded = event_codec::decode_event(command@.exact_device_add_bytes);
                let same_identity = session_identity@ == challenge.identity_id@
                    && authenticated_identity@ == challenge.identity_id@;
                let observed = challenge.observed_head is None || challenge.observed_head->0@
                    == current;
                let expected = command@.expected_head_hash == current.hash;
                match plan {
                    Ok(plan) => {
                        &&& same_identity && observed && expected
                        &&& decoded is Ok
                        &&& device_add_check(
                            decoded->Ok_0,
                            *challenge,
                            current,
                            Some(snapshot@.current_root_key),
                        ) is Ok
                        &&& is_append_of(plan, command@, current)
                    },
                    Err(error) => if !same_identity {
                        error == IdentityPersistenceError::DeviceAuthenticationRejected
                    } else if !observed || !expected {
                        is_head_conflict(error, current)
                    } else if let Err(refusal) = decoded {
                        error == IdentityPersistenceError::IdentityLog(refusal)
                    } else {
                        device_add_check(
                            decoded->Ok_0,
                            *challenge,
                            current,
                            Some(snapshot@.current_root_key),
                        ) == Err::<(), IdentityPersistenceError>(error)
                    },
                }
            }),
    {
        if let Err(error) = ensure_session_identity(challenge, session_identity) {
            return Err(error);
        }
        if let Err(error) = ensure_session_identity(challenge, authenticated_identity) {
            return Err(error);
        }
        let current = snapshot.head();
        if let Err(error) = ensure_history_recovery_observed_head(
            challenge.observed_head,
            current,
        ) {
            return Err(error);
        }
        if command.expected_head_hash() != current.hash() {
            return Err(IdentityPersistenceError::HeadConflict { current: Some(current) });
        }
        let event = match IdentityLogEventV1::decode_and_verify(command.exact_device_add_bytes()) {
            Ok(event) => event,
            Err(error) => {
                return Err(IdentityPersistenceError::IdentityLog(error));
            },
        };
        let root = snapshot.projection().current_root_key();
        if let Err(error) = validate_device_add_matches(&event, challenge, current, Some(root)) {
            return Err(error);
        }
        Ok(append_plan(command, current))
    }

    /// Settles the append of an approval: an open challenge is marked approved
    /// until the returned time if the event was committed; an approved one must
    /// have been replayed.
    pub fn settle_approval(
        &self,
        state: DurableChallengeState,
        appended: AppendDisposition,
        now: UtcMillis,
    ) -> (retention: Result<Option<UtcMillis>, IdentityPersistenceError>)
        ensures
            ({
                let until = now@ + DEVICE_ENROLLMENT_APPROVAL_RETENTION_MILLIS;
                match retention {
                    Ok(Some(time)) => {
                        &&& state != DurableChallengeState::Approved
                        &&& appended == AppendDisposition::Committed
                        &&& time@ == until
                    },
                    Ok(None) => if state == DurableChallengeState::Approved {
                        appended == AppendDisposition::Replayed
                    } else {
                        appended == AppendDisposition::Forked
                    },
                    Err(error) => if state == DurableChallengeState::Approved {
                        &&& appended != AppendDisposition::Replayed
                        &&& error == IdentityPersistenceError::CorruptData(
                            "approved device enrollment append receipt",
                        )
                    } else if appended == AppendDisposition::Replayed {
                        error == IdentityPersistenceError::CorruptData(
                            "open device enrollment append receipt",
                        )
                    } else {
                        &&& appended == AppendDisposition::Committed
                        &&& until > MAX_SAFE_INTEGER
                        &&& error == IdentityPersistenceError::InvalidCommand(
                            "device enrollment expiry",
                        )
                    },
                }
            }),
    {
        match (state, appended) {
            (DurableChallengeState::Approved, AppendDisposition::Replayed) => Ok(None),
            (DurableChallengeState::Approved, _) => Err(
                IdentityPersistenceError::CorruptData("approved device enrollment append receipt"),
            ),
            (_, AppendDisposition::Replayed) => Err(
                IdentityPersistenceError::CorruptData("open device enrollment append receipt"),
            ),
            (_, AppendDisposition::Forked) => Ok(None),
            (_, AppendDisposition::Committed) => match add_duration(
                now,
                DEVICE_ENROLLMENT_APPROVAL_RETENTION_MILLIS,
                "device enrollment expiry overflow",
                "device enrollment expiry",
            ) {
                Ok(time) => Ok(Some(time)),
                Err(error) => Err(error),
            },
        }
    }

    /// Confirms that exactly one open challenge was marked approved.
    pub fn confirm_approved(
        &self,
        updated: u64,
    ) -> (confirmed: Result<(), IdentityPersistenceError>)
        ensures
            confirmed == if updated == 1 {
                Ok::<(), IdentityPersistenceError>(())
            } else {
                Err(IdentityPersistenceError::DeviceEnrollmentChallengeApproved)
            },
    {
        if updated == 1 {
            Ok(())
        } else {
            Err(IdentityPersistenceError::DeviceEnrollmentChallengeApproved)
        }
    }

    /// The status of a challenge, for the bearer of its capability.
    pub fn status(
        &self,
        identity_hint: IdentityId,
        challenge: &StoredEnrollmentChallenge,
        capability: &DeviceEnrollmentCapability,
        now: UtcMillis,
    ) -> (status: Result<DeviceEnrollmentChallengeStatus, IdentityPersistenceError>)
        ensures
            match status {
                Ok(status) => {
                    &&& access_check(identity_hint@, *challenge, capability@) is Ok
                    &&& status@ == enrollment_challenge::visible_status(*challenge, now@)
                },
                Err(error) => access_check(identity_hint@, *challenge, capability@) == Err::<
                    (),
                    IdentityPersistenceError,
                >(error),
            },
    {
        if challenge.identity_id != identity_hint {
            return Err(
                IdentityPersistenceError::CorruptData(
                    "device enrollment challenge identity changed",
                ),
            );
        }
        if let Err(error) = ensure_capability(challenge, capability) {
            return Err(error);
        }
        Ok(challenge.status_at(now))
    }

    /// Decides on a cancellation; the flag says whether the challenge must be
    /// marked cancelled.
    ///
    /// Cancellation is idempotent for the same capability, but an approved card
    /// is immutable, so that its exact approval remains replayable.
    pub fn cancel(
        &self,
        identity_hint: IdentityId,
        challenge: &StoredEnrollmentChallenge,
        capability: &DeviceEnrollmentCapability,
        now: UtcMillis,
    ) -> (decision: Result<(DeviceEnrollmentChallengeStatus, bool), IdentityPersistenceError>)
        ensures
            match decision {
                Ok(decision) => {
                    &&& access_check(identity_hint@, *challenge, capability@) is Ok
                    &&& if decision.1 {
                        &&& challenge.state == DurableChallengeState::Open
                        &&& now@ < challenge.expires_at@
                        &&& decision.0@ == cancelled_status(*challenge)
                    } else {
                        &&& challenge.state == DurableChallengeState::Cancelled
                        &&& decision.0@ == enrollment_challenge::visible_status(*challenge, now@)
                    }
                },
                Err(error) => if let Err(refusal) = access_check(
                    identity_hint@,
                    *challenge,
                    capability@,
                ) {
                    error == refusal
                } else if challenge.state == DurableChallengeState::Approved {
                    error == IdentityPersistenceError::DeviceEnrollmentChallengeApproved
                } else {
                    &&& challenge.state == DurableChallengeState::Open
                    &&& now@ >= challenge.expires_at@
                    &&& error == IdentityPersistenceError::DeviceEnrollmentChallengeExpired
                },
            },
    {
        if challenge.identity_id != identity_hint {
            return Err(
                IdentityPersistenceError::CorruptData(
                    "device enrollment challenge identity changed",
                ),
            );
        }
        if let Err(error) = ensure_capability(challenge, capability) {
            return Err(error);
        }
        match challenge.state {
            DurableChallengeState::Approved => Err(
                IdentityPersistenceError::DeviceEnrollmentChallengeApproved,
            ),
            DurableChallengeState::Cancelled => Ok((challenge.status_at(now), false)),
            DurableChallengeState::Open => {
                if now.get() >= challenge.expires_at.get() {
                    return Err(IdentityPersistenceError::DeviceEnrollmentChallengeExpired);
                }
                let status = DeviceEnrollmentChallengeStatus::new(
                    challenge.challenge_id,
                    challenge.identity_id,
                    challenge.target_device_id,
                    DeviceEnrollmentChallengeState::Cancelled,
                    challenge.created_at,
                    challenge.expires_at,
                    None,
                );
                Ok((status, true))
            },
        }
    }

    /// Confirms that exactly one open challenge was marked cancelled.
    pub fn confirm_cancelled(&self, updated: u64) -> (confirmed: Result<
        (),
        IdentityPersistenceError,
    >)
        ensures
            confirmed == if updated == 1 {
                Ok::<(), IdentityPersistenceError>(())
            } else {
                Err(IdentityPersistenceError::DeviceEnrollmentChallengeCancelled)
            },
    {
        if updated == 1 {
            Ok(())
        } else {
            Err(IdentityPersistenceError::DeviceEnrollmentChallengeCancelled)
        }
    }

    /// How many challenges one retention batch removed.
    pub fn prune_expired(&self, removed: i64) -> (count: Result<u64, IdentityPersistenceError>)
        ensures
            match count {
                Ok(count) => count == removed,
                Err(error) => {
                    &&& removed < 0
                    &&& error == IdentityPersistenceError::CorruptData(
                        "device enrollment retention count",
                    )
                },
            },
    {
        row::removed_count(removed, "device enrollment retention count")
    }
}

} // verus!
