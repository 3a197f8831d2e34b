//! Wire versions.

use vstd::prelude::*;
use crate::wire::cbor;
use crate::wire::record;
use crate::wire::record::build_record;
use crate::wire::value;
use crate::wire::value::{CanonicalValue, Value};

verus! {

/// A major and a minor protocol version.
pub type ProtocolVersion = (u16, u16);

/// The writer's version and the least version that can read it.
pub type WireVersion = (ProtocolVersion, ProtocolVersion);

/// The canonical value of a protocol version.
pub open spec fn protocol_model(version: ProtocolVersion) -> Value {
    record::record(seq![Value::Unsigned(version.0 as u64), Value::Unsigned(version.1 as u64)])
}

/// The canonical value of a wire version.
pub open spec fn wire_model(wire: WireVersion) -> Value {
    record::record(seq![protocol_model(wire.0), protocol_model(wire.1)])
}

/// A wire version's canonical value nests two levels.
pub proof fn lemma_wire_canonical(wire: WireVersion)
    ensures
        cbor::canonical_within(wire_model(wire), 2),
{
    let first = seq![Value::Unsigned(wire.0.0 as u64), Value::Unsigned(wire.0.1 as u64)];
    let second = seq![Value::Unsigned(wire.1.0 as u64), Value::Unsigned(wire.1.1 as u64)];
    record::lemma_record_canonical(first, 0);
    record::lemma_record_canonical(second, 0);
    record::lemma_record_canonical(seq![protocol_model(wire.0), protocol_model(wire.1)], 1);
}

/// Whether two wire versions are the same.
pub fn wire_equal(a: WireVersion, b: WireVersion) -> (equal: bool)
    ensures
        equal == (a == b),
{
    a.0.0 == b.0.0 && a.0.1 == b.0.1 && a.1.0 == b.1.0 && a.1.1 == b.1.1
}

/// Builds the canonical value of a protocol version.
fn protocol_value(version: ProtocolVersion) -> (built: CanonicalValue)
    ensures
        built@ == protocol_model(version),
{
    let fields = vec![
        CanonicalValue::Unsigned(version.0 as u64),
        CanonicalValue::Unsigned(version.1 as u64),
    ];
    assert(value::items_view(fields@) =~= seq![
        Value::Unsigned(version.0 as u64),
        Value::Unsigned(version.1 as u64),
    ]);
    build_record(fields)
}

/// Builds the canonical value of a wire version.
pub fn wire_value(wire: WireVersion) -> (built: CanonicalValue)
    ensures
        built@ == wire_model(wire),
{
    let fields = vec![protocol_value(wire.0), protocol_value(wire.1)];
    assert(value::items_view(fields@) =~= seq![protocol_model(wire.0), protocol_model(wire.1)]);
    build_record(fields)
}

} // verus!
