//! What an identity log says, and how events change it.

use vstd::prelude::*;
use crate::log::authority;
use crate::log::authority::KeyAcceptancePurposeV1;
use crate::log::certificate;
use crate::log::certificate::Certificate;
use crate::log::error::IdentityLogError;
use crate::log::event;
use crate::log::event::Event;
use crate::log::payload::Payload;
use crate::log::relay::Relay;
use crate::log::wire_line::IDENTITY_LOG_V1_0_WIRE_VERSION;
use crate::outside;
use crate::wire::number::MAX_SAFE_INTEGER;
use crate::wire::version::WireVersion;

verus! {

/// Current enrollment status for a device certificate.
#[derive(Clone, Copy, Debug, PartialEq, Eq, Structural)]
pub enum DeviceStatusV1 {
    /// Device can co-authorize a root-certified enrollment event.
    Active,
    /// Device can no longer authorize any event.
    Revoked,
}

/// An enrolled device.
pub struct DeviceRecord {
    pub certificate: Certificate,
    pub status: DeviceStatusV1,
}

/// The state of an identity log, with its devices by device ID.
pub struct LogState {
    pub wire: WireVersion,
    pub identity_id: Seq<u8>,
    pub current_root_key: Seq<u8>,
    pub current_recovery_key: Seq<u8>,
    pub initial_device_id: Option<Seq<u8>>,
    pub devices: Map<Seq<u8>, DeviceRecord>,
    pub relay_descriptor: Option<Relay>,
    pub head_sequence: u64,
    pub head_hash: Seq<u8>,
    pub seen_entry_hashes: Set<Seq<u8>>,
}

/// The state after a genesis event.
pub open spec fn bootstrap_state(genesis: Event) -> Result<LogState, IdentityLogError> {
    match event::event_check(genesis) {
        Err(error) => Err(error),
        Ok(_) => match genesis.unsigned.payload {
            Payload::Genesis { root_signing_key, recovery_signing_key, .. } => Ok(
                LogState {
                    wire: genesis.unsigned.wire,
                    identity_id: genesis.unsigned.identity_id,
                    current_root_key: root_signing_key,
                    current_recovery_key: recovery_signing_key,
                    initial_device_id: None,
                    devices: Map::empty(),
                    relay_descriptor: None,
                    head_sequence: genesis.unsigned.sequence,
                    head_hash: event::entry_hash_of(genesis),
                    seen_entry_hashes: Set::empty().insert(event::entry_hash_of(genesis)),
                },
            ),
            _ => Err(IdentityLogError::InvalidGenesis),
        },
    }
}

/// `key` is the signing key of an active device.
pub open spec fn is_active_device_key(state: LogState, key: Seq<u8>) -> bool {
    exists|id: Seq<u8>| #[trigger]
        state.devices.dom().contains(id) && state.devices[id].status == DeviceStatusV1::Active
            && state.devices[id].certificate.unsigned.device_signing_key == key
}

/// `key` is the signing key of a device that was ever enrolled.
pub open spec fn is_device_signing_key(state: LogState, key: Seq<u8>) -> bool {
    exists|id: Seq<u8>| #[trigger]
        state.devices.dom().contains(id)
            && state.devices[id].certificate.unsigned.device_signing_key == key
}

/// `key` is the encryption key of a device that was ever enrolled.
pub open spec fn is_device_encryption_key(state: LogState, key: Seq<u8>) -> bool {
    exists|id: Seq<u8>| #[trigger]
        state.devices.dom().contains(id)
            && state.devices[id].certificate.unsigned.device_encryption_key == key
}

/// `signature` proves that the holder of `successor` accepts it for `purpose`
/// at the place of `event` in the log.
pub open spec fn is_accepted(
    state: LogState,
    event: Event,
    purpose: KeyAcceptancePurposeV1,
    successor: Seq<u8>,
    signature: Seq<u8>,
) -> bool {
    outside::ed25519_strict_accepted(
        successor,
        authority::rotation_acceptance_bytes(
            state.identity_id,
            event.unsigned.sequence,
            event.unsigned.previous_event_hash,
            purpose,
            successor,
        ),
        signature,
    )
}

/// `signature` proves that the current recovery key authorizes the rotation to
/// `successor`.
pub open spec fn is_authorized(
    state: LogState,
    event: Event,
    successor: Seq<u8>,
    acceptance_signature: Seq<u8>,
    signature: Seq<u8>,
) -> bool {
    outside::ed25519_strict_accepted(
        state.current_recovery_key,
        authority::rotation_authorization_bytes(
            event.unsigned.wire,
            state.identity_id,
            event.unsigned.sequence,
            event.unsigned.previous_event_hash,
            event.unsigned.occurred_at,
            event.unsigned.signer,
            successor,
            acceptance_signature,
        ),
        signature,
    )
}

/// `key` may become an authority key: it is neither a current authority key
/// nor a device key.
pub open spec fn is_fresh_authority(state: LogState, key: Seq<u8>) -> bool {
    &&& key != state.current_root_key
    &&& key != state.current_recovery_key
    &&& !is_device_signing_key(state, key)
}

/// The state after enrolling a device.
pub open spec fn device_add_state(
    state: LogState,
    event: Event,
    certificate: Certificate,
) -> Result<
    LogState,
    IdentityLogError,
> {
    let signer = event.unsigned.signer;
    let content = certificate.unsigned;
    if signer != state.current_root_key && !is_active_device_key(state, signer) {
        Err(IdentityLogError::UnauthorizedSigner)
    } else if !certificate::is_authentic_certificate(certificate) || content.identity_id
        != state.identity_id || content.issuer_root_key != state.current_root_key
        || content.issued_at > event.unsigned.occurred_at || content.device_signing_key
        == state.current_root_key || content.device_signing_key == state.current_recovery_key {
        Err(IdentityLogError::InvalidDeviceCertificate)
    } else if state.devices.dom().contains(content.device_id) || is_device_signing_key(
        state,
        content.device_signing_key,
    ) || is_device_encryption_key(state, content.device_encryption_key) {
        Err(IdentityLogError::DeviceAlreadyExists)
    } else {
        Ok(
            LogState {
                initial_device_id: if state.head_sequence == 1 {
                    Some(content.device_id)
                } else {
                    state.initial_device_id
                },
                devices: state.devices.insert(
                    content.device_id,
                    DeviceRecord { certificate, status: DeviceStatusV1::Active },
                ),
                ..state
            },
        )
    }
}

/// The state after revoking a device.
pub open spec fn device_revoke_state(state: LogState, event: Event, device_id: Seq<u8>) -> Result<
    LogState,
    IdentityLogError,
> {
    if event.unsigned.signer != state.current_root_key {
        Err(IdentityLogError::UnauthorizedSigner)
    } else if !state.devices.dom().contains(device_id) {
        Err(IdentityLogError::DeviceNotFound)
    } else if state.devices[device_id].status == DeviceStatusV1::Revoked {
        Err(IdentityLogError::DeviceAlreadyRevoked)
    } else {
        Ok(
            LogState {
                devices: state.devices.insert(
                    device_id,
                    DeviceRecord { status: DeviceStatusV1::Revoked, ..state.devices[device_id] },
                ),
                ..state
            },
        )
    }
}

/// The state after rotating the root key.
pub open spec fn root_rotate_state(
    state: LogState,
    event: Event,
    successor: Seq<u8>,
    acceptance: Seq<u8>,
) -> Result<LogState, IdentityLogError> {
    if event.unsigned.signer != state.current_root_key {
        Err(IdentityLogError::UnauthorizedSigner)
    } else if !is_fresh_authority(state, successor) || !is_accepted(
        state,
        event,
        KeyAcceptancePurposeV1::RootRotate,
        successor,
        acceptance,
    ) {
        Err(IdentityLogError::InvalidRotation)
    } else {
        Ok(LogState { current_root_key: successor, ..state })
    }
}

/// The state after rotating the recovery key.
pub open spec fn recovery_rotate_state(
    state: LogState,
    event: Event,
    successor: Seq<u8>,
    acceptance: Seq<u8>,
    authorization: Option<Seq<u8>>,
) -> Result<LogState, IdentityLogError> {
    if event.unsigned.signer != state.current_root_key {
        Err(IdentityLogError::UnauthorizedSigner)
    } else if !is_fresh_authority(state, successor) || !is_accepted(
        state,
        event,
        KeyAcceptancePurposeV1::RecoveryRotate,
        successor,
        acceptance,
    ) {
        Err(IdentityLogError::InvalidRotation)
    } else if authorization is Some && !is_authorized(
        state,
        event,
        successor,
        acceptance,
        authorization->0,
    ) {
        Err(IdentityLogError::InvalidRotation)
    } else {
        Ok(LogState { current_recovery_key: successor, ..state })
    }
}

/// All devices of `devices`, revoked.
pub open spec fn all_revoked(devices: Map<Seq<u8>, DeviceRecord>) -> Map<Seq<u8>, DeviceRecord> {
    devices.map_values(
        |record: DeviceRecord| DeviceRecord { status: DeviceStatusV1::Revoked, ..record },
    )
}

/// The state after a recovery restore.
pub open spec fn recovery_restore_state(
    state: LogState,
    event: Event,
    new_root: Seq<u8>,
    new_recovery: Seq<u8>,
    root_acceptance: Seq<u8>,
    recovery_acceptance: Seq<u8>,
) -> Result<LogState, IdentityLogError> {
    if event.unsigned.signer != state.current_recovery_key {
        Err(IdentityLogError::UnauthorizedSigner)
    } else if new_root == new_recovery || !is_fresh_authority(state, new_root)
        || !is_fresh_authority(state, new_recovery) || !is_accepted(
        state,
        event,
        KeyAcceptancePurposeV1::RecoveryRestoreRoot,
        new_root,
        root_acceptance,
    ) || !is_accepted(
        state,
        event,
        KeyAcceptancePurposeV1::RecoveryRestoreRecovery,
        new_recovery,
        recovery_acceptance,
    ) {
        Err(IdentityLogError::InvalidRotation)
    } else {
        Ok(
            LogState {
                current_root_key: new_root,
                current_recovery_key: new_recovery,
                devices: all_revoked(state.devices),
                ..state
            },
        )
    }
}

/// The state after the transition of an event in its place, with the head
/// unchanged.
pub open spec fn transition_state(state: LogState, event: Event) -> Result<
    LogState,
    IdentityLogError,
> {
    match event.unsigned.payload {
        Payload::Genesis { .. } => Err(IdentityLogError::InvalidGenesis),
        Payload::DeviceAdd { certificate } => device_add_state(state, event, certificate),
        Payload::DeviceRevoke { device_id } => device_revoke_state(state, event, device_id),
        Payload::RootRotate { new_root_signing_key, acceptance_signature } => root_rotate_state(
            state,
            event,
            new_root_signing_key,
            acceptance_signature,
        ),
        Payload::RecoveryRotate {
            new_recovery_signing_key,
            acceptance_signature,
            recovery_authorization_signature,
        } => recovery_rotate_state(
            state,
            event,
            new_recovery_signing_key,
            acceptance_signature,
            recovery_authorization_signature,
        ),
        Payload::RecoveryRestore {
            new_root_signing_key,
            new_recovery_signing_key,
            root_acceptance_signature,
            recovery_acceptance_signature,
        } => recovery_restore_state(
            state,
            event,
            new_root_signing_key,
            new_recovery_signing_key,
            root_acceptance_signature,
            recovery_acceptance_signature,
        ),
        Payload::RelayDescriptor { descriptor } => {
            if event.unsigned.signer != state.current_root_key {
                Err(IdentityLogError::UnauthorizedSigner)
            } else if descriptor.expires_at <= event.unsigned.occurred_at {
                Err(IdentityLogError::InvalidRelayDescriptor)
            } else {
                Ok(LogState { relay_descriptor: Some(descriptor), ..state })
            }
        },
    }
}

/// Whether an event is the exact next one of a log, before its transition.
pub open spec fn placement_check(state: LogState, event: Event) -> Result<(), IdentityLogError> {
    match event::event_check(event) {
        Err(error) => Err(error),
        Ok(_) => {
            if event.unsigned.identity_id != state.identity_id {
                Err(IdentityLogError::IdentityMismatch)
            } else if event.unsigned.wire != state.wire {
                Err(IdentityLogError::InvalidWireVersion)
            } else if state.seen_entry_hashes.contains(event::entry_hash_of(event)) {
                Err(IdentityLogError::Replay)
            } else if state.head_sequence >= MAX_SAFE_INTEGER || event.unsigned.sequence
                != state.head_sequence + 1 {
                Err(IdentityLogError::SequenceMismatch)
            } else if event.unsigned.previous_event_hash != Some(state.head_hash) {
                Err(IdentityLogError::PreviousHashMismatch)
            } else {
                Ok(())
            }
        },
    }
}

/// The state after appending an event.
pub open spec fn append_state(state: LogState, event: Event) -> Result<
    LogState,
    IdentityLogError,
> {
    match placement_check(state, event) {
        Err(error) => Err(error),
        Ok(_) => match transition_state(state, event) {
            Err(error) => Err(error),
            Ok(next) => Ok(
                LogState {
                    head_sequence: event.unsigned.sequence,
                    head_hash: event::entry_hash_of(event),
                    seen_entry_hashes: next.seen_entry_hashes.insert(event::entry_hash_of(event)),
                    ..next
                },
            ),
        },
    }
}

/// The state after appending the frozen events from `i` on.
pub open spec fn import_from(state: LogState, events: Seq<Event>, i: int) -> Result<
    LogState,
    IdentityLogError,
>
    decreases events.len() - i,
{
    if i >= events.len() {
        Ok(state)
    } else if events[i].unsigned.wire != IDENTITY_LOG_V1_0_WIRE_VERSION {
        Err(IdentityLogError::InvalidWireVersion)
    } else {
        match append_state(state, events[i]) {
            Err(error) => Err(error),
            Ok(next) => import_from(next, events, i + 1),
        }
    }
}

/// The state of a complete frozen history.
pub open spec fn import_state(events: Seq<Event>) -> Result<LogState, IdentityLogError> {
    if events.len() == 0 {
        Err(IdentityLogError::InvalidGenesis)
    } else if events[0].unsigned.wire != IDENTITY_LOG_V1_0_WIRE_VERSION {
        Err(IdentityLogError::InvalidWireVersion)
    } else {
        match bootstrap_state(events[0]) {
            Err(error) => Err(error),
            Ok(state) => import_from(state, events, 1),
        }
    }
}

} // verus!
