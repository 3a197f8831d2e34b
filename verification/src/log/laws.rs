//! What holds of identity logs as a whole.

use vstd::prelude::*;
use crate::log::authority::KeyAcceptancePurposeV1;
use crate::log::certificate::Certificate;
use crate::log::error::{IdentityLogError, IdentityLogPageError};
use crate::log::event;
use crate::log::event::Event;
use crate::log::event_codec;
use crate::log::inverse;
use crate::log::page;
use crate::log::page::Page;
use crate::log::page_codec;
use crate::log::payload;
use crate::log::payload::Payload;
use crate::log::state;
use crate::log::state::{DeviceStatusV1, LogState};
use crate::log::wire_line;
use crate::log::wire_line::{
    IdentityLogWireLine, IDENTITY_LOG_V1_0_WIRE_VERSION, IDENTITY_LOG_WIRE_VERSION,
};
use crate::wire::cbor;
use crate::wire::cbor_lemmas;
use crate::wire::number::MAX_SAFE_INTEGER;

verus! {

/// A checked event decodes from its own encoding.
pub proof fn law_event_round_trip(event: Event)
    requires
        event::is_event(event),
        event::event_check(event) is Ok,
    ensures
        event_codec::decode_event(cbor::encoding(event::event_model(event))) == Ok::<
            Event,
            IdentityLogError,
        >(event),
{
    event::lemma_event_canonical(event);
    cbor_lemmas::lemma_decoded(event::event_model(event));
    inverse::lemma_event_read(event);
}

/// Bytes that decode to an event are its encoding, so one event has one byte
/// form.
pub proof fn law_event_bytes_unique(a: Seq<u8>, b: Seq<u8>)
    requires
        event_codec::decode_event(a) is Ok,
        event_codec::decode_event(a) == event_codec::decode_event(b),
    ensures
        a == b,
        a == cbor::encoding(event::event_model(event_codec::decode_event(a)->Ok_0)),
{
    inverse::lemma_event_value(cbor::decoded(a));
    inverse::lemma_event_value(cbor::decoded(b));
}

/// A checked page decodes from its own encoding.
pub proof fn law_page_round_trip(page: Page)
    requires
        page::is_page(page),
        page::page_check(page) is Ok,
    ensures
        page_codec::decode_page(cbor::encoding(page::page_model(page))) == Ok::<
            Page,
            IdentityLogPageError,
        >(page),
{
    page_codec::lemma_checked_event_sizes(page, 0, None);
    page::lemma_page_canonical(page);
    cbor_lemmas::lemma_decoded(page::page_model(page));
    page_codec::lemma_page_read(page);
}

/// The event at `i` of a page.
pub open spec fn page_event(page: Page, i: int) -> Event {
    event_codec::decode_event(page.exact_events[i])->Ok_0
}

/// The event at `i` of a page is the exact event of its place.
pub open spec fn is_placed(page: Page, i: int) -> bool {
    let event = page_event(page, i);
    &&& event_codec::decode_event(page.exact_events[i]) is Ok
    &&& event.unsigned.identity_id == page.identity_id
    &&& event.unsigned.wire == IDENTITY_LOG_WIRE_VERSION
    &&& event.unsigned.sequence == page.requested_after_sequence + i + 1
    &&& i > 0 ==> event.unsigned.previous_event_hash == Some(
        event::entry_hash_of(page_event(page, i - 1)),
    )
}

/// An event of a page that passes is the exact event of its place.
proof fn lemma_event_placed(page: Page, i: int, previous: Option<Seq<u8>>)
    requires
        0 <= i < page.exact_events.len(),
        page::check_event(page, i, previous) is Ok,
        i > 0 ==> previous == Some(event::entry_hash_of(page_event(page, i - 1))),
    ensures
        is_placed(page, i),
        page::check_event(page, i, previous)->Ok_0 == event::entry_hash_of(page_event(page, i)),
{
}

/// The events from `i` on of a page that passes are exact events of their
/// places.
proof fn lemma_events_placed(page: Page, i: int, previous: Option<Seq<u8>>)
    requires
        0 <= i <= page.exact_events.len(),
        page::check_events(page, i, previous) is Ok,
        i > 0 ==> previous == Some(event::entry_hash_of(page_event(page, i - 1))),
    ensures
        forall|j: int| i <= j < page.exact_events.len() ==> #[trigger] is_placed(page, j),
    decreases page.exact_events.len() - i,
{
    if i < page.exact_events.len() {
        lemma_event_placed(page, i, previous);
        let hash = page::check_event(page, i, previous)->Ok_0;
        lemma_events_placed(page, i + 1, Some(hash));
        assert forall|j: int| i <= j < page.exact_events.len() implies #[trigger] is_placed(
            page,
            j,
        ) by {
            if j > i {
                assert(i + 1 <= j);
            }
        }
    }
}

/// The last entry hash of a page that passes is that of its last event.
proof fn lemma_last_hash(page: Page, i: int, previous: Option<Seq<u8>>)
    requires
        0 <= i <= page.exact_events.len(),
        page.exact_events.len() > 0,
        page::check_events(page, i, previous) is Ok,
        i > 0 ==> previous == Some(event::entry_hash_of(page_event(page, i - 1))),
    ensures
        page::check_events(page, i, previous)->Ok_0 == Some(
            event::entry_hash_of(page_event(page, page.exact_events.len() - 1)),
        ),
    decreases page.exact_events.len() - i,
{
    if i < page.exact_events.len() {
        lemma_event_placed(page, i, previous);
        let hash = page::check_event(page, i, previous)->Ok_0;
        lemma_last_hash(page, i + 1, Some(hash));
    }
}

/// An accepted page is one contiguous chain of exact events of its identity,
/// and where it reaches the advertised head, its last event is that head.
pub proof fn law_page_is_contiguous(page: Page)
    requires
        page::page_check(page) is Ok,
    ensures
        forall|i: int| 0 <= i < page.exact_events.len() ==> #[trigger] is_placed(page, i),
        page.next_after_sequence == page.requested_after_sequence + page.exact_events.len(),
        page.has_more <==> page.next_after_sequence < page.advertised_head_sequence,
        !page.has_more && page.exact_events.len() > 0 ==> event::entry_hash_of(
            page_event(page, page.exact_events.len() - 1),
        ) == page.advertised_head_hash,
{
    lemma_events_placed(page, 0, None);
    if page.exact_events.len() > 0 {
        lemma_last_hash(page, 0, None);
    }
}

/// The state after appending a sequence of events, in order.
pub open spec fn append_all(state: LogState, events: Seq<Event>) -> Result<
    LogState,
    IdentityLogError,
>
    decreases events.len(),
{
    if events.len() == 0 {
        Ok(state)
    } else {
        match append_all(state, events.drop_last()) {
            Err(error) => Err(error),
            Ok(next) => state::append_state(next, events.last()),
        }
    }
}

/// Appending advances the head by one to the appended event, remembers its
/// entry hash, and keeps the identity and the wire version.
pub proof fn law_append_advances_head(state: LogState, event: Event)
    requires
        state::append_state(state, event) is Ok,
    ensures
        ({
            let next = state::append_state(state, event)->Ok_0;
            &&& next.head_sequence == state.head_sequence + 1
            &&& next.head_hash == event::entry_hash_of(event)
            &&& next.seen_entry_hashes == state.seen_entry_hashes.insert(
                event::entry_hash_of(event),
            )
            &&& next.identity_id == state.identity_id
            &&& next.wire == state.wire
        }),
{
}

/// A hash is the entry hash of one of the events.
pub open spec fn is_entry_hash_of_any(events: Seq<Event>, hash: Seq<u8>) -> bool {
    exists|i: int| 0 <= i < events.len() && #[trigger] event::entry_hash_of(events[i]) == hash
}

/// Appending events, in order, advances the head by their number to the last of
/// them, remembers their entry hashes beside those seen before, and keeps the
/// identity and the wire version.
pub proof fn law_log_grows_by_its_events(state: LogState, events: Seq<Event>)
    requires
        append_all(state, events) is Ok,
    ensures
        ({
            let end = append_all(state, events)->Ok_0;
            &&& end.identity_id == state.identity_id
            &&& end.wire == state.wire
            &&& end.head_sequence == state.head_sequence + events.len()
            &&& end.head_hash == if events.len() == 0 {
                state.head_hash
            } else {
                event::entry_hash_of(events.last())
            }
            &&& forall|hash: Seq<u8>| #[trigger]
                end.seen_entry_hashes.contains(hash) <==> state.seen_entry_hashes.contains(hash)
                    || is_entry_hash_of_any(events, hash)
        }),
    decreases events.len(),
{
    let end = append_all(state, events)->Ok_0;
    if events.len() > 0 {
        let before = events.drop_last();
        law_log_grows_by_its_events(state, before);
        law_append_advances_head(append_all(state, before)->Ok_0, events.last());
        assert forall|hash: Seq<u8>| #[trigger]
            end.seen_entry_hashes.contains(hash) <==> state.seen_entry_hashes.contains(hash)
                || is_entry_hash_of_any(events, hash) by {
            if is_entry_hash_of_any(before, hash) {
                let i = choose|i: int|
                    0 <= i < before.len() && #[trigger] event::entry_hash_of(before[i]) == hash;
                assert(event::entry_hash_of(events[i]) == hash);
            }
            if is_entry_hash_of_any(events, hash) {
                let i = choose|i: int|
                    0 <= i < events.len() && #[trigger] event::entry_hash_of(events[i]) == hash;
                if i < before.len() {
                    assert(event::entry_hash_of(before[i]) == hash);
                }
            }
            if event::entry_hash_of(events.last()) == hash {
                assert(event::entry_hash_of(events[events.len() - 1]) == hash);
            }
        }
    }
}

/// An event that was appended is refused as a replay in every later state.
pub proof fn law_replay_is_refused(state: LogState, events: Seq<Event>, i: int)
    requires
        append_all(state, events) is Ok,
        0 <= i < events.len(),
    ensures
        state::append_state(append_all(state, events)->Ok_0, events[i]) == Err::<
            LogState,
            IdentityLogError,
        >(IdentityLogError::Replay),
    decreases events.len(),
{
    let before = events.drop_last();
    if i < before.len() {
        law_replay_is_refused(state, before, i);
    }
    law_append_advances_head(append_all(state, before)->Ok_0, events.last());
}

/// The genesis of a log is refused as a replay in every state of that log.
pub proof fn law_genesis_replay_is_refused(genesis: Event, events: Seq<Event>)
    requires
        state::bootstrap_state(genesis) is Ok,
        append_all(state::bootstrap_state(genesis)->Ok_0, events) is Ok,
    ensures
        state::append_state(
            append_all(state::bootstrap_state(genesis)->Ok_0, events)->Ok_0,
            genesis,
        ) == Err::<LogState, IdentityLogError>(IdentityLogError::Replay),
{
    law_log_grows_by_its_events(state::bootstrap_state(genesis)->Ok_0, events);
}

/// No event with the sequence of an appended one, or an earlier one, is appended
/// in any later state.
pub proof fn law_fork_is_refused(state: LogState, events: Seq<Event>, i: int, other: Event)
    requires
        append_all(state, events) is Ok,
        0 <= i < events.len(),
        other.unsigned.sequence <= events[i].unsigned.sequence,
    ensures
        state::append_state(append_all(state, events)->Ok_0, other) is Err,
    decreases events.len(),
{
    let before = events.drop_last();
    if i < before.len() {
        law_fork_is_refused(state, before, i, other);
        lemma_sequence_of(state, before, i);
    }
    law_append_advances_head(append_all(state, before)->Ok_0, events.last());
}

/// An appended event has the sequence of its place, which no later head is
/// behind.
proof fn lemma_sequence_of(state: LogState, events: Seq<Event>, i: int)
    requires
        append_all(state, events) is Ok,
        0 <= i < events.len(),
    ensures
        events[i].unsigned.sequence <= append_all(state, events)->Ok_0.head_sequence,
    decreases events.len(),
{
    let before = events.drop_last();
    if i < before.len() {
        lemma_sequence_of(state, before, i);
    }
    law_append_advances_head(append_all(state, before)->Ok_0, events.last());
}

/// A recovery restore leaves the same devices, all of them revoked, under the
/// two new authority keys.
pub proof fn law_restore_revokes_every_device(state: LogState, event: Event)
    requires
        state::append_state(state, event) is Ok,
        event.unsigned.payload is RecoveryRestore,
    ensures
        ({
            let next = state::append_state(state, event)->Ok_0;
            &&& next.devices.dom() =~= state.devices.dom()
            &&& forall|id: Seq<u8>| #[trigger]
                next.devices.dom().contains(id) ==> next.devices[id].status
                    == DeviceStatusV1::Revoked && next.devices[id].certificate
                    == state.devices[id].certificate
            &&& next.current_root_key
                == event.unsigned.payload->RecoveryRestore_new_root_signing_key
            &&& next.current_recovery_key
                == event.unsigned.payload->RecoveryRestore_new_recovery_signing_key
            &&& event.unsigned.signer == state.current_recovery_key
        }),
{
}

/// Enrolled devices stay enrolled under the same certificate, and revoked
/// devices stay revoked, in every later state.
pub proof fn law_revocation_is_permanent(state: LogState, events: Seq<Event>, id: Seq<u8>)
    requires
        append_all(state, events) is Ok,
        state.devices.dom().contains(id),
    ensures
        ({
            let end = append_all(state, events)->Ok_0;
            &&& end.devices.dom().contains(id)
            &&& end.devices[id].certificate == state.devices[id].certificate
            &&& state.devices[id].status == DeviceStatusV1::Revoked ==> end.devices[id].status
                == DeviceStatusV1::Revoked
        }),
    decreases events.len(),
{
    if events.len() > 0 {
        law_revocation_is_permanent(state, events.drop_last(), id);
    }
}

/// The initial device of a log is the one that its second event enrolls, and
/// there is none if that event enrolls no device.
pub proof fn law_initial_device_follows_genesis(genesis: Event, events: Seq<Event>)
    requires
        state::bootstrap_state(genesis) is Ok,
        append_all(state::bootstrap_state(genesis)->Ok_0, events) is Ok,
    ensures
        append_all(state::bootstrap_state(genesis)->Ok_0, events)->Ok_0.initial_device_id
            == if events.len() > 0 && events[0].unsigned.payload is DeviceAdd {
            Some(events[0].unsigned.payload->DeviceAdd_certificate.unsigned.device_id)
        } else {
            None
        },
    decreases events.len(),
{
    let start = state::bootstrap_state(genesis)->Ok_0;
    law_bootstrap_is_consistent(genesis);
    if events.len() > 0 {
        let before = events.drop_last();
        law_initial_device_follows_genesis(genesis, before);
        law_log_grows_by_its_events(start, before);
        if before.len() == 0 {
            assert(events.last() == events[0]);
        }
    }
}

/// The event at `i` carries a relay descriptor, and no later event does.
pub open spec fn is_last_descriptor_event(events: Seq<Event>, i: int) -> bool {
    &&& 0 <= i < events.len()
    &&& events[i].unsigned.payload is RelayDescriptor
    &&& forall|j: int|
        i < j < events.len() ==> !((#[trigger] events[j]).unsigned.payload is RelayDescriptor)
}

/// The relay descriptor of a log is that of the last event that carries one, and
/// the one from before if no event does.
pub proof fn law_last_relay_descriptor_holds(state: LogState, events: Seq<Event>)
    requires
        append_all(state, events) is Ok,
    ensures
        ({
            let end = append_all(state, events)->Ok_0;
            &&& forall|i: int| #[trigger]
                is_last_descriptor_event(events, i) ==> end.relay_descriptor == Some(
                    events[i].unsigned.payload->RelayDescriptor_descriptor,
                )
            &&& (forall|i: int| !#[trigger] is_last_descriptor_event(events, i))
                ==> end.relay_descriptor == state.relay_descriptor
        }),
    decreases events.len(),
{
    let end = append_all(state, events)->Ok_0;
    if events.len() > 0 {
        let before = events.drop_last();
        let last = events.len() - 1;
        law_last_relay_descriptor_holds(state, before);
        if events.last().unsigned.payload is RelayDescriptor {
            assert(is_last_descriptor_event(events, last));
            assert forall|i: int| #[trigger] is_last_descriptor_event(events, i) implies i
                == last by {
                if i < last {
                    assert(events[last].unsigned.payload is RelayDescriptor);
                }
            }
        } else {
            assert forall|i: int| #[trigger]
                is_last_descriptor_event(events, i) implies is_last_descriptor_event(before, i) by {
                assert(forall|j: int| 0 <= j < before.len() ==> before[j] == events[j]);
            }
            assert forall|i: int| #[trigger]
                is_last_descriptor_event(before, i) implies is_last_descriptor_event(events, i) by {
                assert(forall|j: int| 0 <= j < before.len() ==> #[trigger] events[j] == before[j]);
            }
            let earlier = append_all(state, before)->Ok_0;
            assert(end.relay_descriptor == earlier.relay_descriptor);
        }
    }
}

/// A log has no relay descriptor until an event carries one, and from then on
/// that of the last event that did.
pub proof fn law_relay_descriptor_is_the_latest(genesis: Event, events: Seq<Event>)
    requires
        state::bootstrap_state(genesis) is Ok,
        append_all(state::bootstrap_state(genesis)->Ok_0, events) is Ok,
    ensures
        ({
            let end = append_all(state::bootstrap_state(genesis)->Ok_0, events)->Ok_0;
            &&& forall|i: int| #[trigger]
                is_last_descriptor_event(events, i) ==> end.relay_descriptor == Some(
                    events[i].unsigned.payload->RelayDescriptor_descriptor,
                )
            &&& (forall|i: int|
                0 <= i < events.len() ==> !((
                #[trigger] events[i]).unsigned.payload is RelayDescriptor))
                ==> end.relay_descriptor is None
        }),
{
    let start = state::bootstrap_state(genesis)->Ok_0;
    law_last_relay_descriptor_holds(start, events);
    if forall|i: int|
        0 <= i < events.len() ==> !((#[trigger] events[i]).unsigned.payload is RelayDescriptor) {
        assert forall|i: int| !#[trigger] is_last_descriptor_event(events, i) by {}
    }
}

/// Every transition but an enrollment needs a current authority key: recovery
/// for a restore, root for all others.
pub proof fn law_only_current_authority_signs(state: LogState, event: Event)
    requires
        state::append_state(state, event) is Ok,
    ensures
        event.unsigned.payload is RecoveryRestore ==> event.unsigned.signer
            == state.current_recovery_key,
        !(event.unsigned.payload is RecoveryRestore) && !(event.unsigned.payload is DeviceAdd)
            ==> event.unsigned.signer == state.current_root_key,
        event.unsigned.payload is DeviceAdd ==> event.unsigned.signer == state.current_root_key
            || state::is_active_device_key(state, event.unsigned.signer),
{
}

/// A key signs for nobody: it is no current authority key and no key of an
/// active device.
pub open spec fn is_fenced(state: LogState, key: Seq<u8>) -> bool {
    &&& key != state.current_root_key
    &&& key != state.current_recovery_key
    &&& !state::is_active_device_key(state, key)
}

/// An event takes a key up, as an authority key or as the signing key of a new
/// device.
pub open spec fn adopts(event: Event, key: Seq<u8>) -> bool {
    match event.unsigned.payload {
        Payload::DeviceAdd { certificate } => certificate.unsigned.device_signing_key == key,
        Payload::RootRotate { new_root_signing_key, .. } => new_root_signing_key == key,
        Payload::RecoveryRotate { new_recovery_signing_key, .. } => new_recovery_signing_key == key,
        Payload::RecoveryRestore { new_root_signing_key, new_recovery_signing_key, .. } => {
            new_root_signing_key == key || new_recovery_signing_key == key
        },
        _ => false,
    }
}

/// No event of a sequence takes a key up.
pub open spec fn none_adopts(events: Seq<Event>, key: Seq<u8>) -> bool {
    forall|i: int| 0 <= i < events.len() ==> !adopts(#[trigger] events[i], key)
}

/// A fenced key stays fenced, and signs nothing that can be appended, until an
/// event takes it up again.
pub proof fn law_fenced_key_stays_out(
    state: LogState,
    between: Seq<Event>,
    later: Event,
    key: Seq<u8>,
)
    requires
        is_fenced(state, key),
        append_all(state, between) is Ok,
        none_adopts(between, key),
        later.unsigned.signer == key,
    ensures
        is_fenced(append_all(state, between)->Ok_0, key),
        state::append_state(append_all(state, between)->Ok_0, later) is Err,
    decreases between.len(),
{
    let last = append_all(state, between)->Ok_0;
    if between.len() > 0 {
        let event = between.last();
        assert(!adopts(event, key));
        assert(none_adopts(between.drop_last(), key));
        law_fenced_key_stays_out(state, between.drop_last(), later, key);
        let before = append_all(state, between.drop_last())->Ok_0;
        if state::is_active_device_key(last, key) {
            let id = choose|id: Seq<u8>| #[trigger]
                last.devices.dom().contains(id) && last.devices[id].status
                    == DeviceStatusV1::Active
                    && last.devices[id].certificate.unsigned.device_signing_key == key;
            assert(before.devices.dom().contains(id));
            assert(state::is_active_device_key(before, key));
        }
    }
    if state::append_state(last, later) is Ok {
        law_only_current_authority_signs(last, later);
    }
}

/// After a root rotation the old root key signs nothing, directly after it or
/// later, until an event takes that key up again.
pub proof fn law_root_rotation_fences_old_root(
    state: LogState,
    rotation: Event,
    between: Seq<Event>,
    later: Event,
)
    requires
        consistent(state),
        state::append_state(state, rotation) is Ok,
        rotation.unsigned.payload is RootRotate,
        append_all(state::append_state(state, rotation)->Ok_0, between) is Ok,
        none_adopts(between, state.current_root_key),
        later.unsigned.signer == state.current_root_key,
    ensures
        state::append_state(
            append_all(state::append_state(state, rotation)->Ok_0, between)->Ok_0,
            later,
        ) is Err,
{
    let next = state::append_state(state, rotation)->Ok_0;
    assert(next.devices == state.devices);
    if state::is_active_device_key(next, state.current_root_key) {
        let id = choose|id: Seq<u8>| #[trigger]
            next.devices.dom().contains(id) && next.devices[id].status == DeviceStatusV1::Active
                && next.devices[id].certificate.unsigned.device_signing_key
                == state.current_root_key;
        assert(state.devices.dom().contains(id));
        assert(state::is_device_signing_key(state, state.current_root_key));
    }
    law_fenced_key_stays_out(next, between, later, state.current_root_key);
}

/// After a recovery restore neither old authority key nor the key of any device
/// enrolled before signs anything, directly after it or later, until an event
/// takes that key up again.
pub proof fn law_restore_fences_old_authorities(
    state: LogState,
    restore: Event,
    between: Seq<Event>,
    later: Event,
)
    requires
        consistent(state),
        state::append_state(state, restore) is Ok,
        restore.unsigned.payload is RecoveryRestore,
        append_all(state::append_state(state, restore)->Ok_0, between) is Ok,
        none_adopts(between, later.unsigned.signer),
        later.unsigned.signer == state.current_root_key || later.unsigned.signer
            == state.current_recovery_key || state::is_device_signing_key(
            state,
            later.unsigned.signer,
        ),
    ensures
        state::append_state(
            append_all(state::append_state(state, restore)->Ok_0, between)->Ok_0,
            later,
        ) is Err,
{
    let next = state::append_state(state, restore)->Ok_0;
    law_restore_revokes_every_device(state, restore);
    assert(!state::is_active_device_key(next, later.unsigned.signer));
    law_fenced_key_stays_out(next, between, later, later.unsigned.signer);
}

/// On the current wire version, a recovery rotation is authorized by the
/// recovery key that it replaces.
pub proof fn law_recovery_rotation_is_authorized(state: LogState, event: Event)
    requires
        state::append_state(state, event) is Ok,
        event.unsigned.payload is RecoveryRotate,
        event.unsigned.wire == IDENTITY_LOG_WIRE_VERSION,
    ensures
        ({
            let successor = event.unsigned.payload->RecoveryRotate_new_recovery_signing_key;
            let acceptance = event.unsigned.payload->RecoveryRotate_acceptance_signature;
            let authorization =
                event.unsigned.payload->RecoveryRotate_recovery_authorization_signature;
            &&& authorization is Some
            &&& state::is_authorized(state, event, successor, acceptance, authorization->0)
            &&& state::is_accepted(
                state,
                event,
                KeyAcceptancePurposeV1::RecoveryRotate,
                successor,
                acceptance,
            )
        }),
{
    let content = event.unsigned;
    assert(payload::fits_line(content.payload, content.wire));
    assert(wire_line::line_of(content.wire) == Some(IdentityLogWireLine::CurrentV1_1));
}

/// A state is consistent: devices are filed under their own ID and identity,
/// no two devices share a key, the authority keys are apart from each other
/// and from every device key, the initial device is enrolled, and the head was
/// seen.
pub open spec fn consistent(state: LogState) -> bool {
    &&& forall|id: Seq<u8>| #[trigger]
        state.devices.dom().contains(id) ==> {
            let content = state.devices[id].certificate.unsigned;
            &&& content.device_id == id
            &&& content.identity_id == state.identity_id
        }
    &&& forall|a: Seq<u8>, b: Seq<u8>| #[trigger]
        state.devices.dom().contains(a) && #[trigger] state.devices.dom().contains(b) && a != b
            ==> {
            let first = state.devices[a].certificate.unsigned;
            let second = state.devices[b].certificate.unsigned;
            &&& first.device_signing_key != second.device_signing_key
            &&& first.device_encryption_key != second.device_encryption_key
        }
    &&& state.current_root_key != state.current_recovery_key
    &&& !state::is_device_signing_key(state, state.current_root_key)
    &&& !state::is_device_signing_key(state, state.current_recovery_key)
    &&& state.initial_device_id is Some ==> state.devices.dom().contains(
        state.initial_device_id->0,
    )
    &&& state.seen_entry_hashes.contains(state.head_hash)
    &&& 1 <= state.head_sequence <= MAX_SAFE_INTEGER
}

/// A log starts in a consistent state.
pub proof fn law_bootstrap_is_consistent(genesis: Event)
    requires
        state::bootstrap_state(genesis) is Ok,
    ensures
        consistent(state::bootstrap_state(genesis)->Ok_0),
        state::bootstrap_state(genesis)->Ok_0.head_sequence == 1,
{
}

/// Every appended event keeps the state consistent.
pub proof fn law_append_keeps_consistent(state: LogState, event: Event)
    requires
        consistent(state),
        state::append_state(state, event) is Ok,
    ensures
        consistent(state::append_state(state, event)->Ok_0),
{
    let next = state::append_state(state, event)->Ok_0;
    match event.unsigned.payload {
        Payload::DeviceAdd { certificate } => {
            lemma_device_add_consistent(state, event, certificate);
        },
        Payload::DeviceRevoke { device_id } => {
            assert(next.devices.dom() =~= state.devices.dom());
            lemma_same_certificates(state, next);
        },
        Payload::RecoveryRestore { .. } => {
            law_restore_revokes_every_device(state, event);
            lemma_same_certificates(state, next);
        },
        _ => {
            lemma_same_certificates(state, next);
        },
    }
}

/// Every state of a log is consistent.
pub proof fn law_log_stays_consistent(state: LogState, events: Seq<Event>)
    requires
        consistent(state),
        append_all(state, events) is Ok,
    ensures
        consistent(append_all(state, events)->Ok_0),
    decreases events.len(),
{
    if events.len() > 0 {
        let before = events.drop_last();
        law_log_stays_consistent(state, before);
        law_append_keeps_consistent(append_all(state, before)->Ok_0, events.last());
    }
}

/// States with the same certificates agree on which keys are device keys.
proof fn lemma_same_certificates(state: LogState, next: LogState)
    requires
        next.devices.dom() == state.devices.dom(),
        forall|id: Seq<u8>| #[trigger]
            next.devices.dom().contains(id) ==> next.devices[id].certificate
                == state.devices[id].certificate,
    ensures
        forall|key: Seq<u8>| #[trigger]
            state::is_device_signing_key(next, key) == state::is_device_signing_key(state, key),
{
    assert forall|key: Seq<u8>| #[trigger]
        state::is_device_signing_key(next, key) == state::is_device_signing_key(state, key) by {
        if state::is_device_signing_key(next, key) {
            let id = choose|id: Seq<u8>| #[trigger]
                next.devices.dom().contains(id)
                    && next.devices[id].certificate.unsigned.device_signing_key == key;
            assert(state.devices.dom().contains(id));
        }
        if state::is_device_signing_key(state, key) {
            let id = choose|id: Seq<u8>| #[trigger]
                state.devices.dom().contains(id)
                    && state.devices[id].certificate.unsigned.device_signing_key == key;
            assert(next.devices.dom().contains(id));
        }
    }
}

/// An enrollment keeps the state consistent.
proof fn lemma_device_add_consistent(state: LogState, event: Event, certificate: Certificate)
    requires
        consistent(state),
        event.unsigned.payload == (Payload::DeviceAdd { certificate }),
        state::append_state(state, event) is Ok,
    ensures
        consistent(state::append_state(state, event)->Ok_0),
{
    let next = state::append_state(state, event)->Ok_0;
    let content = certificate.unsigned;
    assert forall|a: Seq<u8>, b: Seq<u8>| #[trigger]
        next.devices.dom().contains(a) && #[trigger] next.devices.dom().contains(b) && a
            != b implies {
        let first = next.devices[a].certificate.unsigned;
        let second = next.devices[b].certificate.unsigned;
        &&& first.device_signing_key != second.device_signing_key
        &&& first.device_encryption_key != second.device_encryption_key
    } by {
        if a != content.device_id {
            assert(state.devices.dom().contains(a));
        }
        if b != content.device_id {
            assert(state.devices.dom().contains(b));
        }
    }
    assert forall|key: Seq<u8>|
        key == state.current_root_key || key
            == state.current_recovery_key implies !#[trigger] state::is_device_signing_key(
        next,
        key,
    ) by {
        if state::is_device_signing_key(next, key) {
            let id = choose|id: Seq<u8>| #[trigger]
                next.devices.dom().contains(id)
                    && next.devices[id].certificate.unsigned.device_signing_key == key;
            if id != content.device_id {
                assert(state.devices.dom().contains(id));
                assert(state::is_device_signing_key(state, key));
            }
        }
    }
}

/// The frozen events from `i` on advance the head by their number.
proof fn lemma_import_from(state: LogState, events: Seq<Event>, i: int)
    requires
        0 <= i <= events.len(),
        consistent(state),
        state::import_from(state, events, i) is Ok,
    ensures
        ({
            let end = state::import_from(state, events, i)->Ok_0;
            &&& consistent(end)
            &&& end.head_sequence == state.head_sequence + (events.len() - i)
            &&& end.wire == state.wire
            &&& end.identity_id == state.identity_id
            &&& i < events.len() ==> end.head_hash == event::entry_hash_of(events.last())
            &&& i == events.len() ==> end.head_hash == state.head_hash
        }),
    decreases events.len() - i,
{
    if i < events.len() {
        let next = state::append_state(state, events[i])->Ok_0;
        law_append_keeps_consistent(state, events[i]);
        lemma_import_from(next, events, i + 1);
    }
}

/// Appending one event and then others is appending them all.
proof fn lemma_append_first(state: LogState, events: Seq<Event>)
    requires
        events.len() > 0,
        state::append_state(state, events[0]) is Ok,
    ensures
        append_all(state, events) == append_all(
            state::append_state(state, events[0])->Ok_0,
            events.skip(1),
        ),
    decreases events.len(),
{
    let next = state::append_state(state, events[0])->Ok_0;
    let before = events.drop_last();
    if events.len() == 1 {
        assert(events.skip(1) =~= Seq::<Event>::empty());
        assert(append_all(state, before) == Ok::<LogState, IdentityLogError>(state));
        assert(append_all(next, events.skip(1)) == Ok::<LogState, IdentityLogError>(next));
    } else {
        lemma_append_first(state, before);
        assert(events.skip(1).drop_last() =~= before.skip(1));
        assert(events.skip(1).last() == events.last());
    }
}

/// Importing the frozen events from `i` on appends them all.
proof fn lemma_import_appends(state: LogState, events: Seq<Event>, i: int)
    requires
        0 <= i <= events.len(),
        state::import_from(state, events, i) is Ok,
    ensures
        append_all(state, events.skip(i)) == state::import_from(state, events, i),
    decreases events.len() - i,
{
    if i < events.len() {
        let next = state::append_state(state, events[i])->Ok_0;
        let rest = events.skip(i);
        assert(rest[0] == events[i]);
        lemma_append_first(state, rest);
        assert(rest.skip(1) =~= events.skip(i + 1));
        lemma_import_appends(next, events, i + 1);
    } else {
        assert(events.skip(i) =~= Seq::<Event>::empty());
    }
}

/// An imported history is its first event with all others appended, so that what
/// holds of appended events holds of imported ones.
pub proof fn law_import_appends_all(events: Seq<Event>)
    requires
        state::import_state(events) is Ok,
    ensures
        state::bootstrap_state(events[0]) is Ok,
        append_all(state::bootstrap_state(events[0])->Ok_0, events.skip(1))
            == state::import_state(events),
{
    lemma_import_appends(state::bootstrap_state(events[0])->Ok_0, events, 1);
}

/// An imported history is a consistent frozen log whose head is its last event.
pub proof fn law_import_reaches_last_event(events: Seq<Event>)
    requires
        state::import_state(events) is Ok,
    ensures
        ({
            let end = state::import_state(events)->Ok_0;
            &&& consistent(end)
            &&& end.wire == IDENTITY_LOG_V1_0_WIRE_VERSION
            &&& end.head_sequence == events.len()
            &&& end.head_hash == event::entry_hash_of(events.last())
            &&& end.identity_id == events[0].unsigned.identity_id
        }),
{
    let start = state::bootstrap_state(events[0])->Ok_0;
    law_bootstrap_is_consistent(events[0]);
    lemma_import_from(start, events, 1);
}

} // verus!
