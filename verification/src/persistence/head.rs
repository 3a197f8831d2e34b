//! Identity-log heads and replayed snapshots.

use vstd::prelude::*;
use crate::log::error::IdentityLogError;
use crate::log::event_codec;
use crate::log::event::IdentityLogEventV1;
use crate::log::page;
use crate::log::projection::IdentityLogV1;
use crate::log::state;
use crate::log::state::LogState;
use crate::log::wire_line::IDENTITY_LOG_WIRE_VERSION;
use crate::persistence::error::IdentityPersistenceError;
use crate::wire::digest::Sha256Digest;
use crate::wire::id::IdentityId;
use crate::wire::number::SafeUint;
use crate::wire::version::{wire_equal, WireVersion};

verus! {

/// The model of a head.
pub struct Head {
    pub identity_id: Seq<u8>,
    pub wire: WireVersion,
    pub sequence: u64,
    pub hash: Seq<u8>,
}

/// The head of one identity log: which event is its last.
#[derive(Clone, Copy, Debug, Eq)]
pub struct IdentityLogHead {
    identity_id: IdentityId,
    wire: WireVersion,
    sequence: SafeUint,
    hash: Sha256Digest,
}

impl PartialEq for IdentityLogHead {
    fn eq(&self, other: &Self) -> (equal: bool) {
        self.identity_id == other.identity_id && wire_equal(self.wire, other.wire)
            && self.sequence.get() == other.sequence.get() && self.hash == other.hash
    }
}

impl vstd::std_specs::cmp::PartialEqSpecImpl for IdentityLogHead {
    open spec fn obeys_eq_spec() -> bool {
        true
    }

    open spec fn eq_spec(&self, other: &Self) -> bool {
        self@ == other@
    }
}

/// The model of an optional head.
pub open spec fn head_view(head: Option<IdentityLogHead>) -> Option<Head> {
    match head {
        Some(head) => Some(head@),
        None => None,
    }
}

/// Whether two optional heads are the same.
pub fn heads_equal(a: Option<IdentityLogHead>, b: Option<IdentityLogHead>) -> (equal: bool)
    ensures
        equal == (head_view(a) == head_view(b)),
{
    match (a, b) {
        (Some(a), Some(b)) => a == b,
        (None, None) => true,
        _ => false,
    }
}

impl IdentityLogHead {
    /// The model of the head.
    pub closed spec fn view(&self) -> Head {
        Head {
            identity_id: self.identity_id@,
            wire: self.wire,
            sequence: self.sequence@,
            hash: self.hash@,
        }
    }

    /// The head with the given parts.
    pub fn new(
        identity_id: IdentityId,
        wire: WireVersion,
        sequence: SafeUint,
        hash: Sha256Digest,
    ) -> (head: Self)
        ensures
            head@ == (Head {
                identity_id: identity_id@,
                wire,
                sequence: sequence@,
                hash: hash@,
            }),
    {
        IdentityLogHead { identity_id, wire, sequence, hash }
    }

    /// A head that a client observed, on the current wire version. No log has
    /// a head at sequence zero.
    pub fn observed(identity_id: IdentityId, sequence: SafeUint, hash: Sha256Digest) -> (head:
        Result<Self, IdentityPersistenceError>)
        ensures
            match head {
                Ok(head) => {
                    &&& sequence@ != 0
                    &&& head@ == (Head {
                        identity_id: identity_id@,
                        wire: IDENTITY_LOG_WIRE_VERSION,
                        sequence: sequence@,
                        hash: hash@,
                    })
                },
                Err(error) => {
                    &&& sequence@ == 0
                    &&& error == IdentityPersistenceError::InvalidCommand(
                        "observed identity log head sequence",
                    )
                },
            },
    {
        if sequence.get() == 0 {
            return Err(
                IdentityPersistenceError::InvalidCommand("observed identity log head sequence"),
            );
        }
        Ok(IdentityLogHead { identity_id, wire: IDENTITY_LOG_WIRE_VERSION, sequence, hash })
    }

    /// The identity of the log.
    pub fn identity_id(&self) -> (id: IdentityId)
        ensures
            id@ == self@.identity_id,
    {
        self.identity_id
    }

    /// The wire version of the log.
    pub fn wire(&self) -> (wire: WireVersion)
        ensures
            wire == self@.wire,
    {
        self.wire
    }

    /// The sequence of the last event.
    pub fn sequence(&self) -> (sequence: SafeUint)
        ensures
            sequence@ == self@.sequence,
    {
        self.sequence
    }

    /// The entry hash of the last event.
    pub fn hash(&self) -> (hash: Sha256Digest)
        ensures
            hash@ == self@.hash,
    {
        self.hash
    }
}

/// The state after one more exact event on the current wire version.
#[verifier::opaque]
pub open spec fn replay_step(state: LogState, bytes: Seq<u8>) -> Result<
    LogState,
    IdentityLogError,
> {
    match event_codec::decode_event(bytes) {
        Err(error) => Err(error),
        Ok(event) => {
            if event.unsigned.wire != IDENTITY_LOG_WIRE_VERSION {
                Err(IdentityLogError::InvalidWireVersion)
            } else {
                state::append_state(state, event)
            }
        },
    }
}

/// Replays one more exact event.
fn replay_event(projection: &mut IdentityLogV1, bytes: &[u8]) -> (replayed: Result<
    (),
    IdentityLogError,
>)
    requires
        old(projection)@.wire == IDENTITY_LOG_WIRE_VERSION,
    ensures
        final(projection)@.wire == IDENTITY_LOG_WIRE_VERSION,
        match replayed {
            Ok(_) => replay_step(old(projection)@, bytes@) == Ok::<LogState, IdentityLogError>(
                final(projection)@,
            ),
            Err(error) => replay_step(old(projection)@, bytes@) == Err::<
                LogState,
                IdentityLogError,
            >(error),
        },
{
    proof {
        reveal(replay_step);
    }
    let event = match IdentityLogEventV1::decode_and_verify(bytes) {
        Ok(event) => event,
        Err(error) => {
            return Err(error);
        },
    };
    projection.append(&event)
}

/// The state after the exact events from `i` on.
pub open spec fn replay_from(state: LogState, events: Seq<Seq<u8>>, i: int) -> Result<
    LogState,
    IdentityLogError,
>
    decreases events.len() - i,
{
    if i >= events.len() {
        Ok(state)
    } else {
        match replay_step(state, events[i]) {
            Err(error) => Err(error),
            Ok(next) => replay_from(next, events, i + 1),
        }
    }
}

/// The state that a list of exact events on the current wire version replays
/// to.
pub open spec fn replay_state(events: Seq<Seq<u8>>) -> Result<LogState, IdentityLogError> {
    if events.len() == 0 {
        Err(IdentityLogError::InvalidGenesis)
    } else {
        match event_codec::decode_event(events[0]) {
            Err(error) => Err(error),
            Ok(genesis) => {
                if genesis.unsigned.wire != IDENTITY_LOG_WIRE_VERSION {
                    Err(IdentityLogError::InvalidWireVersion)
                } else {
                    match state::bootstrap_state(genesis) {
                        Err(error) => Err(error),
                        Ok(state) => replay_from(state, events, 1),
                    }
                }
            },
        }
    }
}

/// An identity log as storage holds it: its exact events, and the projection
/// that they replay to.
#[derive(Debug)]
pub struct IdentityLogSnapshot {
    projection: IdentityLogV1,
    exact_events: Vec<Vec<u8>>,
}

/// The head of a state.
pub open spec fn head_of(state: LogState) -> Head {
    Head {
        identity_id: state.identity_id,
        wire: state.wire,
        sequence: state.head_sequence,
        hash: state.head_hash,
    }
}

impl IdentityLogSnapshot {
    /// The projection is what the events replay to.
    #[verifier::type_invariant]
    spec fn replayed(self) -> bool {
        replay_state(page::blobs_view(self.exact_events@)) == Ok::<LogState, IdentityLogError>(
            self.projection@,
        )
    }

    /// The state of the log.
    pub closed spec fn view(&self) -> LogState {
        self.projection@
    }

    /// The exact events of the log.
    pub closed spec fn events(&self) -> Seq<Seq<u8>> {
        page::blobs_view(self.exact_events@)
    }

    /// Replays exact events on the current wire version.
    pub fn replay(exact_events: Vec<Vec<u8>>) -> (snapshot: Result<Self, IdentityLogError>)
        ensures
            match snapshot {
                Ok(snapshot) => {
                    &&& replay_state(page::blobs_view(exact_events@)) == Ok::<
                        LogState,
                        IdentityLogError,
                    >(snapshot@)
                    &&& snapshot.events() == page::blobs_view(exact_events@)
                },
                Err(error) => replay_state(page::blobs_view(exact_events@)) == Err::<
                    LogState,
                    IdentityLogError,
                >(error),
            },
    {
        let ghost models = page::blobs_view(exact_events@);
        if exact_events.len() == 0 {
            return Err(IdentityLogError::InvalidGenesis);
        }
        assert(models[0] == exact_events@[0]@);
        let genesis = match IdentityLogEventV1::decode_and_verify(exact_events[0].as_slice()) {
            Ok(event) => event,
            Err(error) => {
                return Err(error);
            },
        };
        let mut projection = match IdentityLogV1::bootstrap(&genesis) {
            Ok(projection) => projection,
            Err(error) => {
                return Err(error);
            },
        };
        for i in 1..exact_events.len()
            invariant
                models == page::blobs_view(exact_events@),
                projection@.wire == IDENTITY_LOG_WIRE_VERSION,
                replay_state(models) == replay_from(projection@, models, i as int),
        {
            assert(models[i as int] == exact_events@[i as int]@);
            if let Err(error) = replay_event(&mut projection, exact_events[i].as_slice()) {
                return Err(error);
            }
        }
        Ok(IdentityLogSnapshot { projection, exact_events })
    }

    /// The projection of the log.
    pub fn projection(&self) -> (projection: &IdentityLogV1)
        ensures
            projection@ == self@,
    {
        proof {
            use_type_invariant(self);
        }
        &self.projection
    }

    /// The exact events of the log.
    pub fn exact_events(&self) -> (events: &[Vec<u8>])
        ensures
            page::blobs_view(events@) == self.events(),
    {
        self.exact_events.as_slice()
    }

    /// The head of the log.
    pub fn head(&self) -> (head: IdentityLogHead)
        ensures
            head@ == head_of(self@),
    {
        IdentityLogHead {
            identity_id: self.projection.identity_id(),
            wire: self.projection.wire(),
            sequence: self.projection.head_sequence(),
            hash: self.projection.head_hash(),
        }
    }
}

} // verus!
