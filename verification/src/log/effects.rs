//! What each event of an identity log needs, and what it does.

use vstd::prelude::*;
use crate::log::authority;
use crate::log::authority::KeyAcceptancePurposeV1;
use crate::log::certificate;
use crate::log::error::IdentityLogError;
use crate::log::event;
use crate::log::event::Event;
use crate::log::state;
use crate::log::state::{DeviceStatusV1, LogState};
use crate::outside;
use crate::wire::number::MAX_SAFE_INTEGER;

verus! {

/// The event is authentic and stands directly after the head of the log.
pub open spec fn is_next(state: LogState, event: Event) -> bool {
    &&& event::event_check(event) is Ok
    &&& event.unsigned.identity_id == state.identity_id
    &&& event.unsigned.wire == state.wire
    &&& !state.seen_entry_hashes.contains(event::entry_hash_of(event))
    &&& state.head_sequence < MAX_SAFE_INTEGER
    &&& event.unsigned.sequence == state.head_sequence + 1
    &&& event.unsigned.previous_event_hash == Some(state.head_hash)
}

/// An event is appended only directly after the head, and each way to miss that
/// place has its own refusal.
pub proof fn law_only_the_next_event_is_appended(state: LogState, event: Event)
    ensures
        ({
            let content = event.unsigned;
            let appended = state::append_state(state, event);
            let seen = state.seen_entry_hashes.contains(event::entry_hash_of(event));
            let authentic = event::event_check(event) is Ok;
            let own = content.identity_id == state.identity_id;
            let current = content.wire == state.wire;
            let in_sequence = state.head_sequence < MAX_SAFE_INTEGER && content.sequence
                == state.head_sequence + 1;
            &&& appended is Ok ==> is_next(state, event)
            &&& !authentic ==> appended is Err
            &&& authentic && !own ==> appended == Err::<LogState, IdentityLogError>(
                IdentityLogError::IdentityMismatch,
            )
            &&& authentic && own && !current ==> appended == Err::<LogState, IdentityLogError>(
                IdentityLogError::InvalidWireVersion,
            )
            &&& authentic && own && current && seen ==> appended == Err::<
                LogState,
                IdentityLogError,
            >(IdentityLogError::Replay)
            &&& authentic && own && current && !seen && !in_sequence ==> appended == Err::<
                LogState,
                IdentityLogError,
            >(IdentityLogError::SequenceMismatch)
            &&& authentic && own && current && !seen && in_sequence && content.previous_event_hash
                != Some(state.head_hash) ==> appended == Err::<LogState, IdentityLogError>(
                IdentityLogError::PreviousHashMismatch,
            )
            &&& content.payload is Genesis ==> appended is Err
        }),
{
}

/// What a log says beside its devices, its keys and its descriptor does not
/// depend on what kind of event was appended.
pub open spec fn has_moved(state: LogState, event: Event, next: LogState) -> bool {
    &&& next.wire == state.wire
    &&& next.identity_id == state.identity_id
    &&& next.head_sequence == state.head_sequence + 1
    &&& next.head_hash == event::entry_hash_of(event)
    &&& forall|hash: Seq<u8>| #[trigger]
        next.seen_entry_hashes.contains(hash) <==> state.seen_entry_hashes.contains(hash) || hash
            == event::entry_hash_of(event)
}

/// No record but that of `id` differs between the two states.
pub open spec fn others_kept(state: LogState, next: LogState, id: Seq<u8>) -> bool {
    forall|other: Seq<u8>|
        other != id ==> {
            &&& #[trigger] next.devices.dom().contains(other) <==> state.devices.dom().contains(
                other,
            )
            &&& next.devices.dom().contains(other) ==> next.devices[other] == state.devices[other]
        }
}

/// The key belongs to no device that was ever enrolled.
pub open spec fn is_no_device_key(state: LogState, key: Seq<u8>) -> bool {
    forall|id: Seq<u8>| #[trigger]
        state.devices.dom().contains(id)
            ==> state.devices[id].certificate.unsigned.device_signing_key != key
}

/// The key signs for a device that is enrolled and not revoked.
pub open spec fn signs_for_active_device(state: LogState, key: Seq<u8>) -> bool {
    exists|id: Seq<u8>| #[trigger]
        state.devices.dom().contains(id) && state.devices[id].status == DeviceStatusV1::Active
            && state.devices[id].certificate.unsigned.device_signing_key == key
}

/// An enrollment files the certificate of a new device, which is active from then
/// on, and touches nothing else. It is owed to a certificate of the current root
/// for this identity whose device and keys are new, if the root or an active
/// device signs the event.
pub proof fn law_enrollment_adds_one_active_device(state: LogState, event: Event)
    requires
        event.unsigned.payload is DeviceAdd,
    ensures
        ({
            let certificate = event.unsigned.payload->DeviceAdd_certificate;
            let content = certificate.unsigned;
            let signer = event.unsigned.signer;
            let appended = state::append_state(state, event);
            let next = appended->Ok_0;
            &&& appended is Ok <==> {
                &&& is_next(state, event)
                &&& signer == state.current_root_key || signs_for_active_device(state, signer)
                &&& outside::ed25519_strict_accepted(
                    content.issuer_root_key,
                    certificate::certificate_signed_bytes(content),
                    certificate.signature,
                )
                &&& content.identity_id == state.identity_id
                &&& content.issuer_root_key == state.current_root_key
                &&& content.issued_at <= event.unsigned.occurred_at
                &&& content.device_signing_key != state.current_root_key
                &&& content.device_signing_key != state.current_recovery_key
                &&& !state.devices.dom().contains(content.device_id)
                &&& is_no_device_key(state, content.device_signing_key)
                &&& forall|id: Seq<u8>| #[trigger]
                    state.devices.dom().contains(id)
                        ==> state.devices[id].certificate.unsigned.device_encryption_key
                        != content.device_encryption_key
            }
            &&& appended is Ok ==> {
                &&& has_moved(state, event, next)
                &&& next.devices.dom().contains(content.device_id)
                &&& next.devices[content.device_id].certificate == certificate
                &&& next.devices[content.device_id].status == DeviceStatusV1::Active
                &&& others_kept(state, next, content.device_id)
                &&& signs_for_active_device(next, content.device_signing_key)
                &&& next.initial_device_id == if state.head_sequence == 1 {
                    Some(content.device_id)
                } else {
                    state.initial_device_id
                }
                &&& next.current_root_key == state.current_root_key
                &&& next.current_recovery_key == state.current_recovery_key
                &&& next.relay_descriptor == state.relay_descriptor
            }
            &&& is_next(state, event) && signer != state.current_root_key
                && !signs_for_active_device(state, signer) ==> appended == Err::<
                LogState,
                IdentityLogError,
            >(IdentityLogError::UnauthorizedSigner)
        }),
{
    let certificate = event.unsigned.payload->DeviceAdd_certificate;
    let content = certificate.unsigned;
    assert(signs_for_active_device(state, event.unsigned.signer) == state::is_active_device_key(
        state,
        event.unsigned.signer,
    ));
    assert(is_no_device_key(state, content.device_signing_key) == !state::is_device_signing_key(
        state,
        content.device_signing_key,
    ));
    assert((forall|id: Seq<u8>| #[trigger]
        state.devices.dom().contains(id)
            ==> state.devices[id].certificate.unsigned.device_encryption_key
            != content.device_encryption_key) == !state::is_device_encryption_key(
        state,
        content.device_encryption_key,
    ));
    if state::append_state(state, event) is Ok {
        let next = state::append_state(state, event)->Ok_0;
        assert(next.devices.dom().contains(content.device_id));
    }
}

/// A revocation revokes the named device, whichever it is, under the certificate
/// that it has, and touches nothing else: its key then signs for no active
/// device. It is owed to the root for every device that is active.
pub proof fn law_revocation_revokes_the_named_device(state: LogState, event: Event)
    requires
        event.unsigned.payload is DeviceRevoke,
    ensures
        ({
            let id = event.unsigned.payload->DeviceRevoke_device_id;
            let by_root = event.unsigned.signer == state.current_root_key;
            let known = state.devices.dom().contains(id);
            let appended = state::append_state(state, event);
            let next = appended->Ok_0;
            &&& appended is Ok <==> is_next(state, event) && by_root && known
                && state.devices[id].status == DeviceStatusV1::Active
            &&& appended is Ok ==> {
                &&& has_moved(state, event, next)
                &&& next.devices.dom().contains(id)
                &&& next.devices[id].status == DeviceStatusV1::Revoked
                &&& next.devices[id].certificate == state.devices[id].certificate
                &&& others_kept(state, next, id)
                &&& next.initial_device_id == state.initial_device_id
                &&& next.current_root_key == state.current_root_key
                &&& next.current_recovery_key == state.current_recovery_key
                &&& next.relay_descriptor == state.relay_descriptor
            }
            &&& is_next(state, event) && !by_root ==> appended == Err::<LogState, IdentityLogError>(
                IdentityLogError::UnauthorizedSigner,
            )
            &&& is_next(state, event) && by_root && !known ==> appended == Err::<
                LogState,
                IdentityLogError,
            >(IdentityLogError::DeviceNotFound)
            &&& is_next(state, event) && by_root && known && state.devices[id].status
                == DeviceStatusV1::Revoked ==> appended == Err::<LogState, IdentityLogError>(
                IdentityLogError::DeviceAlreadyRevoked,
            )
        }),
{
}

/// Where no two devices share a signing key, the key of a revoked device signs
/// for no active device after the revocation.
pub proof fn law_revoked_key_signs_for_no_device(state: LogState, event: Event)
    requires
        event.unsigned.payload is DeviceRevoke,
        state::append_state(state, event) is Ok,
        forall|a: Seq<u8>, b: Seq<u8>| #[trigger]
            state.devices.dom().contains(a) && #[trigger] state.devices.dom().contains(b) && a != b
                ==> state.devices[a].certificate.unsigned.device_signing_key
                != state.devices[b].certificate.unsigned.device_signing_key,
    ensures
        ({
            let id = event.unsigned.payload->DeviceRevoke_device_id;
            let key = state.devices[id].certificate.unsigned.device_signing_key;
            let next = state::append_state(state, event)->Ok_0;
            &&& !signs_for_active_device(next, key)
            &&& !state::is_active_device_key(next, key)
        }),
{
    let id = event.unsigned.payload->DeviceRevoke_device_id;
    let key = state.devices[id].certificate.unsigned.device_signing_key;
    let next = state::append_state(state, event)->Ok_0;
    law_revocation_revokes_the_named_device(state, event);
    assert forall|other: Seq<u8>| #[trigger]
        next.devices.dom().contains(other) && next.devices[other].status
            == DeviceStatusV1::Active implies next.devices[other]
        .certificate.unsigned.device_signing_key != key by {
        assert(state.devices.dom().contains(other) && state.devices.dom().contains(id));
    }
}

/// The holder of a new key accepts it for a purpose, at the place of an event.
pub open spec fn accepts(
    state: LogState,
    event: Event,
    purpose: KeyAcceptancePurposeV1,
    key: Seq<u8>,
    signature: Seq<u8>,
) -> bool {
    outside::ed25519_strict_accepted(
        key,
        authority::rotation_acceptance_bytes(
            state.identity_id,
            event.unsigned.sequence,
            event.unsigned.previous_event_hash,
            purpose,
            key,
        ),
        signature,
    )
}

/// The key was never an authority key or a device key as far as the state knows.
pub open spec fn is_new_key(state: LogState, key: Seq<u8>) -> bool {
    &&& key != state.current_root_key
    &&& key != state.current_recovery_key
    &&& is_no_device_key(state, key)
}

/// A root rotation puts the new key in place of the root key and touches nothing
/// else. It is owed to the current root for a new key whose holder accepts it.
pub proof fn law_root_rotation_replaces_the_root(state: LogState, event: Event)
    requires
        event.unsigned.payload is RootRotate,
    ensures
        ({
            let key = event.unsigned.payload->RootRotate_new_root_signing_key;
            let acceptance = event.unsigned.payload->RootRotate_acceptance_signature;
            let by_root = event.unsigned.signer == state.current_root_key;
            let appended = state::append_state(state, event);
            let next = appended->Ok_0;
            &&& appended is Ok <==> {
                &&& is_next(state, event)
                &&& by_root
                &&& is_new_key(state, key)
                &&& accepts(state, event, KeyAcceptancePurposeV1::RootRotate, key, acceptance)
            }
            &&& appended is Ok ==> {
                &&& has_moved(state, event, next)
                &&& next.current_root_key == key
                &&& next.current_recovery_key == state.current_recovery_key
                &&& next.devices == state.devices
                &&& next.initial_device_id == state.initial_device_id
                &&& next.relay_descriptor == state.relay_descriptor
            }
            &&& is_next(state, event) && !by_root ==> appended == Err::<LogState, IdentityLogError>(
                IdentityLogError::UnauthorizedSigner,
            )
            &&& is_next(state, event) && by_root && !is_new_key(state, key) ==> appended == Err::<
                LogState,
                IdentityLogError,
            >(IdentityLogError::InvalidRotation)
        }),
{
    let key = event.unsigned.payload->RootRotate_new_root_signing_key;
    assert(is_no_device_key(state, key) == !state::is_device_signing_key(state, key));
}

/// A recovery rotation puts the new key in place of the recovery key and touches
/// nothing else. It is owed to the current root for a new key whose holder
/// accepts it and whose rotation the current recovery key authorizes, where the
/// event carries such an authorization.
pub proof fn law_recovery_rotation_replaces_the_recovery_key(state: LogState, event: Event)
    requires
        event.unsigned.payload is RecoveryRotate,
    ensures
        ({
            let content = event.unsigned;
            let key = content.payload->RecoveryRotate_new_recovery_signing_key;
            let acceptance = content.payload->RecoveryRotate_acceptance_signature;
            let authorization = content.payload->RecoveryRotate_recovery_authorization_signature;
            let by_root = content.signer == state.current_root_key;
            let appended = state::append_state(state, event);
            let next = appended->Ok_0;
            &&& appended is Ok <==> {
                &&& is_next(state, event)
                &&& by_root
                &&& is_new_key(state, key)
                &&& accepts(state, event, KeyAcceptancePurposeV1::RecoveryRotate, key, acceptance)
                &&& authorization is Some ==> outside::ed25519_strict_accepted(
                    state.current_recovery_key,
                    authority::rotation_authorization_bytes(
                        content.wire,
                        state.identity_id,
                        content.sequence,
                        content.previous_event_hash,
                        content.occurred_at,
                        content.signer,
                        key,
                        acceptance,
                    ),
                    authorization->0,
                )
            }
            &&& appended is Ok ==> {
                &&& has_moved(state, event, next)
                &&& next.current_root_key == state.current_root_key
                &&& next.current_recovery_key == key
                &&& next.devices == state.devices
                &&& next.initial_device_id == state.initial_device_id
                &&& next.relay_descriptor == state.relay_descriptor
            }
            &&& is_next(state, event) && !by_root ==> appended == Err::<LogState, IdentityLogError>(
                IdentityLogError::UnauthorizedSigner,
            )
        }),
{
    let key = event.unsigned.payload->RecoveryRotate_new_recovery_signing_key;
    assert(is_no_device_key(state, key) == !state::is_device_signing_key(state, key));
}

/// A restore puts both new keys in place and revokes every device, under the
/// certificate that it has; it keeps the descriptor and the initial device. It
/// is owed to the current recovery key for two different new keys whose holders
/// accept them.
pub proof fn law_restore_replaces_both_keys(state: LogState, event: Event)
    requires
        event.unsigned.payload is RecoveryRestore,
    ensures
        ({
            let payload = event.unsigned.payload;
            let root = payload->RecoveryRestore_new_root_signing_key;
            let recovery = payload->RecoveryRestore_new_recovery_signing_key;
            let by_recovery = event.unsigned.signer == state.current_recovery_key;
            let appended = state::append_state(state, event);
            let next = appended->Ok_0;
            &&& appended is Ok <==> {
                &&& is_next(state, event)
                &&& by_recovery
                &&& root != recovery
                &&& is_new_key(state, root)
                &&& is_new_key(state, recovery)
                &&& accepts(
                    state,
                    event,
                    KeyAcceptancePurposeV1::RecoveryRestoreRoot,
                    root,
                    payload->RecoveryRestore_root_acceptance_signature,
                )
                &&& accepts(
                    state,
                    event,
                    KeyAcceptancePurposeV1::RecoveryRestoreRecovery,
                    recovery,
                    payload->RecoveryRestore_recovery_acceptance_signature,
                )
            }
            &&& appended is Ok ==> {
                &&& has_moved(state, event, next)
                &&& next.current_root_key == root
                &&& next.current_recovery_key == recovery
                &&& next.initial_device_id == state.initial_device_id
                &&& next.relay_descriptor == state.relay_descriptor
                &&& forall|id: Seq<u8>| #[trigger]
                    next.devices.dom().contains(id) <==> state.devices.dom().contains(id)
                &&& forall|id: Seq<u8>| #[trigger]
                    next.devices.dom().contains(id) ==> next.devices[id].status
                        == DeviceStatusV1::Revoked && next.devices[id].certificate
                        == state.devices[id].certificate
            }
            &&& is_next(state, event) && !by_recovery ==> appended == Err::<
                LogState,
                IdentityLogError,
            >(IdentityLogError::UnauthorizedSigner)
        }),
{
    let root = event.unsigned.payload->RecoveryRestore_new_root_signing_key;
    let recovery = event.unsigned.payload->RecoveryRestore_new_recovery_signing_key;
    assert(is_no_device_key(state, root) == !state::is_device_signing_key(state, root));
    assert(is_no_device_key(state, recovery) == !state::is_device_signing_key(state, recovery));
}

/// A descriptor event sets the descriptor and touches nothing else. It is owed
/// to the current root while the descriptor has not expired when it is signed.
pub proof fn law_descriptor_event_sets_the_descriptor(state: LogState, event: Event)
    requires
        event.unsigned.payload is RelayDescriptor,
    ensures
        ({
            let descriptor = event.unsigned.payload->RelayDescriptor_descriptor;
            let by_root = event.unsigned.signer == state.current_root_key;
            let appended = state::append_state(state, event);
            let next = appended->Ok_0;
            &&& appended is Ok <==> is_next(state, event) && by_root && event.unsigned.occurred_at
                < descriptor.expires_at
            &&& appended is Ok ==> {
                &&& has_moved(state, event, next)
                &&& next.relay_descriptor == Some(descriptor)
                &&& next.current_root_key == state.current_root_key
                &&& next.current_recovery_key == state.current_recovery_key
                &&& next.devices == state.devices
                &&& next.initial_device_id == state.initial_device_id
            }
            &&& is_next(state, event) && !by_root ==> appended == Err::<LogState, IdentityLogError>(
                IdentityLogError::UnauthorizedSigner,
            )
        }),
{
}

/// A log starts with its authentic genesis: the keys and the identity that the
/// genesis names, no device, no descriptor, and the genesis as its head. Every
/// authentic genesis starts one, and nothing else does.
pub proof fn law_genesis_starts_a_log(genesis: Event)
    ensures
        ({
            let started = state::bootstrap_state(genesis);
            let start = started->Ok_0;
            let payload = genesis.unsigned.payload;
            &&& started is Ok <==> event::event_check(genesis) is Ok && payload is Genesis
            &&& started is Ok ==> {
                &&& start.identity_id == genesis.unsigned.identity_id
                &&& start.wire == genesis.unsigned.wire
                &&& start.current_root_key == payload->Genesis_root_signing_key
                &&& start.current_recovery_key == payload->Genesis_recovery_signing_key
                &&& start.current_root_key == genesis.unsigned.signer
                &&& start.current_root_key != start.current_recovery_key
                &&& start.initial_device_id is None
                &&& forall|id: Seq<u8>| !#[trigger] start.devices.dom().contains(id)
                &&& start.relay_descriptor is None
                &&& start.head_sequence == 1
                &&& start.head_hash == event::entry_hash_of(genesis)
                &&& forall|hash: Seq<u8>| #[trigger]
                    start.seen_entry_hashes.contains(hash) <==> hash == event::entry_hash_of(
                        genesis,
                    )
            }
        }),
{
}

/// A history is imported event by event, each as an event of the frozen version is
/// appended to what was imported before it.
pub proof fn law_import_appends_each_event(events: Seq<Event>, event: Event)
    requires
        events.len() > 0,
    ensures
        ({
            let before = state::import_state(events);
            let after = state::import_state(events.push(event));
            let frozen = event.unsigned.wire == ((1u16, 0u16), (1u16, 0u16));
            &&& before is Err ==> after == before
            &&& before is Ok && frozen ==> after == state::append_state(before->Ok_0, event)
            &&& before is Ok && !frozen ==> after == Err::<LogState, IdentityLogError>(
                IdentityLogError::InvalidWireVersion,
            )
        }),
{
    let more = events.push(event);
    assert(more[0] == events[0]);
    if state::bootstrap_state(events[0]) is Ok {
        lemma_import_push(state::bootstrap_state(events[0])->Ok_0, events, event, 1);
    }
}

/// A history starts with a genesis of the frozen version.
pub proof fn law_import_starts_with_a_genesis(event: Event)
    ensures
        state::import_state(Seq::empty()) == Err::<LogState, IdentityLogError>(
            IdentityLogError::InvalidGenesis,
        ),
        event.unsigned.wire == ((1u16, 0u16), (1u16, 0u16)) ==> state::import_state(seq![event])
            == state::bootstrap_state(event),
        event.unsigned.wire != ((1u16, 0u16), (1u16, 0u16)) ==> state::import_state(seq![event])
            == Err::<LogState, IdentityLogError>(IdentityLogError::InvalidWireVersion),
{
    reveal_with_fuel(state::import_from, 2);
}

/// An import of one event more is that of the events before it, and one step.
proof fn lemma_import_push(start: LogState, events: Seq<Event>, event: Event, i: int)
    requires
        0 <= i <= events.len(),
    ensures
        ({
            let before = state::import_from(start, events, i);
            let after = state::import_from(start, events.push(event), i);
            let frozen = event.unsigned.wire == ((1u16, 0u16), (1u16, 0u16));
            &&& before is Err ==> after == before
            &&& before is Ok && frozen ==> after == state::append_state(before->Ok_0, event)
            &&& before is Ok && !frozen ==> after == Err::<LogState, IdentityLogError>(
                IdentityLogError::InvalidWireVersion,
            )
        }),
    decreases events.len() - i,
{
    let more = events.push(event);
    reveal_with_fuel(state::import_from, 2);
    if i < events.len() {
        assert(more[i] == events[i]);
        match state::append_state(start, events[i]) {
            Err(_) => {},
            Ok(next) => {
                lemma_import_push(next, events, event, i + 1);
            },
        }
    } else {
        assert(more[i] == event);
    }
}

} // verus!
