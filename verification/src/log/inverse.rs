//! Reading a canonical value is the inverse of building it.

use vstd::prelude::*;
use crate::log::authority;
use crate::log::certificate;
use crate::log::certificate::Certificate;
use crate::log::decoding;
use crate::log::error::IdentityLogError;
use crate::log::event;
use crate::log::event::Event;
use crate::log::event_codec;
use crate::log::payload;
use crate::log::payload::{IdentityLogEventKindV1, Payload};
use crate::log::relay;
use crate::log::relay::Relay;
use crate::log::wire_line;
use crate::wire::cbor;
use crate::wire::id;
use crate::wire::number;
use crate::wire::record;
use crate::wire::text;
use crate::wire::value::Value;
use crate::wire::version;
use crate::wire::version::WireVersion;

verus! {

/// A field of a canonical record is canonical, one level less deep.
pub proof fn lemma_field_canonical(value: Value, count: nat, depth: nat, key: int)
    requires
        record::is_record(value, count),
        cbor::canonical_within(value, depth),
        1 <= key <= count,
    ensures
        depth > 0,
        cbor::canonical_within(record::field_of(value, key), (depth - 1) as nat),
{
    assert(value->Entries_0[key - 1].1 == record::field_of(value, key));
}

/// The text of an identity is that of the identity it reads as.
pub proof fn lemma_identity_value(value: Value)
    requires
        decoding::is_identity(value),
    ensures
        value == Value::Text(text::hex(decoding::identity_of(value))),
        decoding::identity_of(value).len() == 32,
{
}

/// The text of a device ID is that of the device ID it reads as.
pub proof fn lemma_device_value(value: Value)
    requires
        decoding::is_device(value),
    ensures
        value == Value::Text(text::hyphenated(decoding::device_of(value))),
        id::is_uuid_v7(decoding::device_of(value)),
{
}

/// A canonical time is the value of the time it reads as.
pub proof fn lemma_millis_value(value: Value, depth: nat)
    requires
        decoding::is_millis(value),
        cbor::canonical_within(value, depth),
    ensures
        value == number::millis_model(decoding::millis_of(value)),
        number::is_utc_millis(decoding::millis_of(value) as int),
{
}

/// A time reads back from its value.
pub proof fn lemma_millis_read(millis: i64)
    requires
        number::is_utc_millis(millis as int),
    ensures
        decoding::is_millis(number::millis_model(millis)),
        decoding::millis_of(number::millis_model(millis)) == millis,
{
}

/// A wire version's value is that of the wire version it reads as.
pub proof fn lemma_wire_value(value: Value)
    requires
        decoding::read_wire(value) is Ok,
    ensures
        value == version::wire_model(decoding::read_wire(value)->Ok_0),
        wire_line::is_supported(decoding::read_wire(value)->Ok_0),
{
    let wire = decoding::read_wire(value)->Ok_0;
    let first = record::field_of(value, 1);
    let second = record::field_of(value, 2);
    record::lemma_record_of_fields(value, 2);
    record::lemma_record_of_fields(first, 2);
    record::lemma_record_of_fields(second, 2);
    assert(record::fields_of(first) =~= seq![
        Value::Unsigned(wire.0.0 as u64),
        Value::Unsigned(wire.0.1 as u64),
    ]);
    assert(record::fields_of(second) =~= seq![
        Value::Unsigned(wire.1.0 as u64),
        Value::Unsigned(wire.1.1 as u64),
    ]);
    assert(record::fields_of(value) =~= seq![
        version::protocol_model(wire.0),
        version::protocol_model(wire.1),
    ]);
}

/// A supported wire version reads back from its value.
pub proof fn lemma_wire_read(wire: WireVersion)
    requires
        wire_line::is_supported(wire),
    ensures
        decoding::read_wire(version::wire_model(wire)) == Ok::<WireVersion, IdentityLogError>(wire),
{
    let first = seq![Value::Unsigned(wire.0.0 as u64), Value::Unsigned(wire.0.1 as u64)];
    let second = seq![Value::Unsigned(wire.1.0 as u64), Value::Unsigned(wire.1.1 as u64)];
    let both = seq![version::protocol_model(wire.0), version::protocol_model(wire.1)];
    record::lemma_record_fields(first);
    record::lemma_record_fields(second);
    record::lemma_record_fields(both);
    let value = version::wire_model(wire);
    assert(record::field_of(value, 1) == record::record(first));
    assert(record::field_of(value, 2) == record::record(second));
    assert(record::field_of(record::record(first), 1) == first[0]);
    assert(record::field_of(record::record(first), 2) == first[1]);
    assert(record::field_of(record::record(second), 1) == second[0]);
    assert(record::field_of(record::record(second), 2) == second[1]);
}

/// A certificate's canonical value is that of the certificate it reads as.
pub proof fn lemma_certificate_value(value: Value, depth: nat)
    requires
        cbor::canonical_within(value, depth),
        decoding::read_certificate(value) is Ok,
    ensures
        value == certificate::certificate_model(decoding::read_certificate(value)->Ok_0),
        certificate::is_unsigned_certificate(decoding::read_certificate(value)->Ok_0.unsigned),
        decoding::read_certificate(value)->Ok_0.signature.len() == 64,
{
    let read = decoding::read_certificate(value)->Ok_0;
    lemma_field_canonical(value, 8, depth, 7);
    lemma_wire_value(record::field_of(value, 1));
    lemma_identity_value(record::field_of(value, 2));
    lemma_device_value(record::field_of(value, 3));
    lemma_millis_value(record::field_of(value, 7), (depth - 1) as nat);
    record::lemma_record_of_fields(value, 8);
    let fields = record::fields_of(value);
    assert(fields[0] == record::field_of(value, 1));
    assert(fields[1] == record::field_of(value, 2));
    assert(fields[2] == record::field_of(value, 3));
    assert(fields[3] == record::field_of(value, 4));
    assert(fields[4] == record::field_of(value, 5));
    assert(fields[5] == record::field_of(value, 6));
    assert(fields[6] == record::field_of(value, 7));
    assert(fields[7] == record::field_of(value, 8));
    assert(fields =~= certificate::unsigned_certificate_fields(read.unsigned).push(
        Value::Bytes(read.signature),
    ));
}

/// An authentic certificate reads back from its value.
pub proof fn lemma_certificate_read(certificate: Certificate)
    requires
        certificate::is_unsigned_certificate(certificate.unsigned),
        certificate.signature.len() == 64,
        certificate::is_authentic_certificate(certificate),
    ensures
        decoding::read_certificate(certificate::certificate_model(certificate)) == Ok::<
            Certificate,
            IdentityLogError,
        >(certificate),
{
    let content = certificate.unsigned;
    let fields = certificate::unsigned_certificate_fields(content).push(
        Value::Bytes(certificate.signature),
    );
    let value = record::record(fields);
    record::lemma_record_fields(fields);
    assert(record::field_of(value, 1) == fields[0]);
    assert(record::field_of(value, 2) == fields[1]);
    assert(record::field_of(value, 3) == fields[2]);
    assert(record::field_of(value, 4) == fields[3]);
    assert(record::field_of(value, 5) == fields[4]);
    assert(record::field_of(value, 6) == fields[5]);
    assert(record::field_of(value, 7) == fields[6]);
    assert(record::field_of(value, 8) == fields[7]);
    lemma_wire_read(content.wire);
    id::lemma_identity_text(content.identity_id);
    id::lemma_uuid_text(content.device_id);
    lemma_millis_read(content.issued_at);
}

/// A relay descriptor's canonical value is that of the descriptor it reads as.
pub proof fn lemma_relay_value(value: Value, depth: nat)
    requires
        cbor::canonical_within(value, depth),
        decoding::read_relay(value) is Ok,
    ensures
        value == relay::relay_model(decoding::read_relay(value)->Ok_0),
        relay::is_relay(decoding::read_relay(value)->Ok_0),
{
    let read = decoding::read_relay(value)->Ok_0;
    lemma_field_canonical(value, 3, depth, 3);
    lemma_wire_value(record::field_of(value, 1));
    lemma_millis_value(record::field_of(value, 3), (depth - 1) as nat);
    let items = record::field_of(value, 2)->Array_0;
    assert(relay::texts_model(decoding::texts_of(items))->Array_0 =~= items);
    record::lemma_record_of_fields(value, 3);
    let fields = record::fields_of(value);
    assert(fields[0] == record::field_of(value, 1));
    assert(fields[1] == record::field_of(value, 2));
    assert(fields[2] == record::field_of(value, 3));
    assert(fields =~= seq![
        version::wire_model(read.wire),
        relay::texts_model(read.relay_urls),
        number::millis_model(read.expires_at),
    ]);
}

/// A relay descriptor reads back from its value.
pub proof fn lemma_relay_read(descriptor: Relay)
    requires
        relay::is_relay(descriptor),
    ensures
        decoding::read_relay(relay::relay_model(descriptor)) == Ok::<Relay, IdentityLogError>(
            descriptor,
        ),
{
    let fields = seq![
        version::wire_model(descriptor.wire),
        relay::texts_model(descriptor.relay_urls),
        number::millis_model(descriptor.expires_at),
    ];
    let value = record::record(fields);
    record::lemma_record_fields(fields);
    assert(record::field_of(value, 1) == fields[0]);
    assert(record::field_of(value, 2) == fields[1]);
    assert(record::field_of(value, 3) == fields[2]);
    lemma_wire_read(descriptor.wire);
    lemma_millis_read(descriptor.expires_at);
    let items = relay::texts_model(descriptor.relay_urls)->Array_0;
    assert(decoding::are_texts(items));
    assert(decoding::texts_of(items) =~= descriptor.relay_urls);
}

/// A transition's canonical value is that of the transition it reads as.
pub proof fn lemma_payload_value(
    kind: IdentityLogEventKindV1,
    value: Value,
    wire: WireVersion,
    depth: nat,
)
    requires
        cbor::canonical_within(value, depth),
        wire_line::is_supported(wire),
        decoding::read_payload(kind, value, wire) is Ok,
    ensures
        ({
            let read = decoding::read_payload(kind, value, wire)->Ok_0;
            &&& value == payload::payload_model(read, wire)
            &&& payload::kind_of(read) == kind
            &&& payload::is_payload(read)
            &&& payload::fits_line(read, wire)
        }),
{
    let read = decoding::read_payload(kind, value, wire)->Ok_0;
    let width = decoding::payload_width(kind, wire);
    record::lemma_record_of_fields(value, width);
    let fields = record::fields_of(value);
    lemma_field_canonical(value, width, depth, 1);
    let inner = (depth - 1) as nat;
    assert(fields[0] == record::field_of(value, 1));
    assert(width >= 2 ==> fields[1] == record::field_of(value, 2));
    assert(width >= 3 ==> fields[2] == record::field_of(value, 3));
    assert(width >= 4 ==> fields[3] == record::field_of(value, 4));
    match kind {
        IdentityLogEventKindV1::DeviceAdd => {
            lemma_certificate_value(record::field_of(value, 1), inner);
        },
        IdentityLogEventKindV1::DeviceRevoke => {
            lemma_device_value(record::field_of(value, 1));
        },
        IdentityLogEventKindV1::RelayDescriptor => {
            lemma_relay_value(record::field_of(value, 1), inner);
        },
        _ => {},
    }
    assert(fields =~= payload::payload_fields(read, wire));
}

/// A transition reads back from its value, provided a certificate in it is
/// authentic.
pub proof fn lemma_payload_read(payload: Payload, wire: WireVersion)
    requires
        wire_line::is_supported(wire),
        payload::is_payload(payload),
        payload::fits_line(payload, wire),
        payload is DeviceAdd ==> certificate::is_authentic_certificate(
            payload->DeviceAdd_certificate,
        ),
    ensures
        decoding::read_payload(
            payload::kind_of(payload),
            payload::payload_model(payload, wire),
            wire,
        ) == Ok::<Payload, IdentityLogError>(payload),
{
    let fields = payload::payload_fields(payload, wire);
    let value = record::record(fields);
    record::lemma_record_fields(fields);
    assert(record::field_of(value, 1) == fields[0]);
    assert(fields.len() >= 2 ==> record::field_of(value, 2) == fields[1]);
    assert(fields.len() >= 3 ==> record::field_of(value, 3) == fields[2]);
    assert(fields.len() >= 4 ==> record::field_of(value, 4) == fields[3]);
    match payload {
        Payload::DeviceAdd { certificate } => {
            lemma_certificate_read(certificate);
        },
        Payload::DeviceRevoke { device_id } => {
            id::lemma_uuid_text(device_id);
        },
        Payload::RelayDescriptor { descriptor } => {
            lemma_relay_read(descriptor);
        },
        _ => {},
    }
}

/// An event's canonical value is that of the event it reads as.
pub proof fn lemma_event_value(value: Value)
    requires
        cbor::canonical(value),
        event_codec::read_event(value) is Ok,
    ensures
        value == event::event_model(event_codec::read_event(value)->Ok_0),
        event::is_event(event_codec::read_event(value)->Ok_0),
        event::event_check(event_codec::read_event(value)->Ok_0) is Ok,
{
    let read = event_codec::read_event(value)->Ok_0;
    let depth = cbor::MAX_CANONICAL_DEPTH as nat;
    let inner = (depth - 1) as nat;
    let kind = event_codec::kind_of_number(record::field_of(value, 6)->Unsigned_0)->0;
    lemma_field_canonical(value, 9, depth, 5);
    lemma_field_canonical(value, 9, depth, 7);
    lemma_wire_value(record::field_of(value, 1));
    lemma_identity_value(record::field_of(value, 2));
    lemma_millis_value(record::field_of(value, 5), inner);
    lemma_payload_value(kind, record::field_of(value, 7), read.unsigned.wire, inner);
    record::lemma_record_of_fields(value, 9);
    let fields = record::fields_of(value);
    assert(fields[0] == record::field_of(value, 1));
    assert(fields[1] == record::field_of(value, 2));
    assert(fields[2] == record::field_of(value, 3));
    assert(fields[3] == record::field_of(value, 4));
    assert(fields[4] == record::field_of(value, 5));
    assert(fields[5] == record::field_of(value, 6));
    assert(fields[6] == record::field_of(value, 7));
    assert(fields[7] == record::field_of(value, 8));
    assert(fields[8] == record::field_of(value, 9));
    assert(fields =~= event::unsigned_event_fields(read.unsigned).push(
        Value::Bytes(read.signature),
    ));
}

/// A checked event reads back from its value.
pub proof fn lemma_event_read(event: Event)
    requires
        event::is_event(event),
        event::event_check(event) is Ok,
    ensures
        event_codec::read_event(event::event_model(event)) == Ok::<Event, IdentityLogError>(event),
{
    let content = event.unsigned;
    let fields = event::unsigned_event_fields(content).push(Value::Bytes(event.signature));
    let value = record::record(fields);
    record::lemma_record_fields(fields);
    assert(record::field_of(value, 1) == fields[0]);
    assert(record::field_of(value, 2) == fields[1]);
    assert(record::field_of(value, 3) == fields[2]);
    assert(record::field_of(value, 4) == fields[3]);
    assert(record::field_of(value, 5) == fields[4]);
    assert(record::field_of(value, 6) == fields[5]);
    assert(record::field_of(value, 7) == fields[6]);
    assert(record::field_of(value, 8) == fields[7]);
    assert(record::field_of(value, 9) == fields[8]);
    lemma_wire_read(content.wire);
    id::lemma_identity_text(content.identity_id);
    lemma_millis_read(content.occurred_at);
    lemma_payload_read(content.payload, content.wire);
    assert(event_codec::kind_of_number(payload::kind_of(content.payload).number()) == Some(
        payload::kind_of(content.payload),
    ));
    assert(decoding::optional_digest_of(
        authority::optional_digest_model(content.previous_event_hash),
    ) == content.previous_event_hash);
}

} // verus!
