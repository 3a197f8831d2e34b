//! What holds of a log that is replayed from its stored events.

use vstd::prelude::*;
use crate::log::error::IdentityLogError;
use crate::log::event_codec;
use crate::log::state;
use crate::log::state::LogState;
use crate::persistence::head;

verus! {

/// Nothing is replayed from no events, and a first event is replayed exactly as a
/// genesis of the current version starts a log.
pub proof fn law_replay_starts_with_a_genesis(bytes: Seq<u8>)
    ensures
        ({
            let replayed = head::replay_state(seq![bytes]);
            let decoded = event_codec::decode_event(bytes);
            let current = decoded->Ok_0.unsigned.wire == ((1u16, 1u16), (1u16, 1u16));
            &&& replayed is Ok ==> decoded is Ok && current && replayed == state::bootstrap_state(
                decoded->Ok_0,
            )
            &&& decoded is Ok && current ==> replayed == state::bootstrap_state(decoded->Ok_0)
            &&& decoded is Ok && !current ==> replayed == Err::<LogState, IdentityLogError>(
                IdentityLogError::InvalidWireVersion,
            )
        }),
        head::replay_state(Seq::empty()) == Err::<LogState, IdentityLogError>(
            IdentityLogError::InvalidGenesis,
        ),
{
    reveal_with_fuel(head::replay_from, 2);
}

/// Each further event is replayed exactly as an event of the current version is
/// appended to what was replayed before it; and a log that does not replay stays so.
pub proof fn law_replay_appends_each_event(events: Seq<Seq<u8>>, bytes: Seq<u8>)
    requires
        events.len() > 0,
    ensures
        ({
            let before = head::replay_state(events);
            let after = head::replay_state(events.push(bytes));
            let decoded = event_codec::decode_event(bytes);
            let current = decoded->Ok_0.unsigned.wire == ((1u16, 1u16), (1u16, 1u16));
            &&& before is Err ==> after == before
            &&& before is Ok && decoded is Err ==> after == Err::<LogState, IdentityLogError>(
                decoded->Err_0,
            )
            &&& before is Ok && decoded is Ok && !current ==> after == Err::<
                LogState,
                IdentityLogError,
            >(IdentityLogError::InvalidWireVersion)
            &&& before is Ok && decoded is Ok && current ==> after == state::append_state(
                before->Ok_0,
                decoded->Ok_0,
            )
        }),
{
    lemma_replay_state_push(events, bytes);
    if head::replay_state(events) is Ok {
        lemma_step(head::replay_state(events)->Ok_0, bytes);
    }
}

/// One event is replayed exactly as an event of the current version is appended.
proof fn lemma_step(state: LogState, bytes: Seq<u8>)
    ensures
        ({
            let after = head::replay_step(state, bytes);
            let decoded = event_codec::decode_event(bytes);
            let current = decoded->Ok_0.unsigned.wire == ((1u16, 1u16), (1u16, 1u16));
            &&& decoded is Err ==> after == Err::<LogState, IdentityLogError>(decoded->Err_0)
            &&& decoded is Ok && !current ==> after == Err::<LogState, IdentityLogError>(
                IdentityLogError::InvalidWireVersion,
            )
            &&& decoded is Ok && current ==> after == state::append_state(state, decoded->Ok_0)
        }),
{
    reveal(head::replay_step);
}

/// A log with one event more is replayed as the log before it, and one step.
proof fn lemma_replay_state_push(events: Seq<Seq<u8>>, bytes: Seq<u8>)
    requires
        events.len() > 0,
    ensures
        head::replay_state(events.push(bytes)) == match head::replay_state(events) {
            Err(error) => Err(error),
            Ok(next) => head::replay_step(next, bytes),
        },
{
    let more = events.push(bytes);
    let decoded = event_codec::decode_event(events[0]);
    assert(more[0] == events[0]);
    if decoded is Ok {
        let started = state::bootstrap_state(decoded->Ok_0);
        if started is Ok {
            lemma_replay_push(started->Ok_0, events, bytes, 1);
        }
    }
}

/// A replay of one event more is that of the events before it, and one step.
proof fn lemma_replay_push(state: LogState, events: Seq<Seq<u8>>, bytes: Seq<u8>, i: int)
    requires
        0 <= i <= events.len(),
    ensures
        head::replay_from(state, events.push(bytes), i) == match head::replay_from(
            state,
            events,
            i,
        ) {
            Err(error) => Err(error),
            Ok(next) => head::replay_step(next, bytes),
        },
    decreases events.len() - i,
{
    let more = events.push(bytes);
    reveal_with_fuel(head::replay_from, 3);
    if i < events.len() {
        assert(more[i] == events[i]);
        match head::replay_step(state, events[i]) {
            Err(_) => {},
            Ok(next) => {
                lemma_replay_push(next, events, bytes, i + 1);
            },
        }
    } else {
        assert(more[i] == bytes);
    }
}

/// The head of a state is where its last event stands.
pub proof fn law_head_is_that_of_the_state(state: LogState)
    ensures
        head::head_of(state).identity_id == state.identity_id,
        head::head_of(state).wire == state.wire,
        head::head_of(state).sequence == state.head_sequence,
        head::head_of(state).hash == state.head_hash,
{
}

} // verus!
