//! What the bytes of the log say, field by field, and what each signature covers.

use vstd::prelude::*;
use vstd::utf8::*;
use crate::log::authority;
use crate::log::authority::KeyAcceptancePurposeV1;
use crate::log::certificate;
use crate::log::certificate::{Certificate, UnsignedCertificate};
use crate::log::error::{IdentityLogError, IdentityLogPageError};
use crate::log::event;
use crate::log::event::{Event, UnsignedEvent};
use crate::log::event_codec;
use crate::log::laws;
use crate::log::page;
use crate::log::page::Page;
use crate::log::payload;
use crate::log::payload::Payload;
use crate::log::relay;
use crate::log::relay::Relay;
use crate::log::wire_line;
use crate::outside;
use crate::wire::bytes;
use crate::wire::cbor;
use crate::wire::digest;
use crate::wire::id;
use crate::wire::key;
use crate::wire::record;
use crate::wire::text;
use crate::wire::value::Value;
use crate::wire::version;
use crate::wire::version::WireVersion;

verus! {

/// A value is a wire version: the version it was written in and the oldest one that
/// can read it, each by its major and its minor number.
pub open spec fn is_wire(value: Value, wire: WireVersion) -> bool {
    let writer = record::field_of(value, 1);
    let reader = record::field_of(value, 2);
    &&& record::is_record(value, 2)
    &&& record::is_record(writer, 2)
    &&& record::field_of(writer, 1) == Value::Unsigned(wire.0.0 as u64)
    &&& record::field_of(writer, 2) == Value::Unsigned(wire.0.1 as u64)
    &&& record::is_record(reader, 2)
    &&& record::field_of(reader, 1) == Value::Unsigned(wire.1.0 as u64)
    &&& record::field_of(reader, 2) == Value::Unsigned(wire.1.1 as u64)
}

/// A value is a time: a count of milliseconds, before or since the epoch.
pub open spec fn is_moment(value: Value, millis: i64) -> bool {
    &&& millis >= 0 ==> value is Unsigned && value->Unsigned_0 == millis
    &&& millis < 0 ==> value is Negative && value->Negative_0 == millis
}

/// A value is a digest, or nothing where there is none.
pub open spec fn is_optional(value: Value, digest: Option<Seq<u8>>) -> bool {
    &&& digest is Some ==> value == Value::Bytes(digest->0)
    &&& digest is None ==> value is Null
}

/// The two wire versions that are read, and no other one.
pub proof fn law_two_wire_versions_are_read(wire: WireVersion)
    ensures
        wire_line::is_supported(wire) <==> wire == ((1u16, 0u16), (1u16, 0u16)) || wire == (
            (1u16, 1u16),
            (1u16, 1u16),
        ),
{
}

/// The number of an event's kind.
pub open spec fn kind_number(payload: Payload) -> u64 {
    match payload {
        Payload::Genesis { .. } => 1,
        Payload::DeviceAdd { .. } => 2,
        Payload::DeviceRevoke { .. } => 3,
        Payload::RootRotate { .. } => 4,
        Payload::RecoveryRotate { .. } => 5,
        Payload::RecoveryRestore { .. } => 6,
        Payload::RelayDescriptor { .. } => 7,
    }
}

/// An event is written as its wire version, its identity, its place, the hash of the
/// event before it, its time, its kind, its payload, its signer and its signature.
pub proof fn law_event_is_written_by_field(event: Event)
    ensures
        ({
            let value = event::event_model(event);
            let content = event.unsigned;
            &&& record::is_record(value, 9)
            &&& is_wire(record::field_of(value, 1), content.wire)
            &&& record::field_of(value, 2) == Value::Text(text::hex(content.identity_id))
            &&& record::field_of(value, 3) == Value::Unsigned(content.sequence)
            &&& is_optional(record::field_of(value, 4), content.previous_event_hash)
            &&& is_moment(record::field_of(value, 5), content.occurred_at)
            &&& record::field_of(value, 6) == Value::Unsigned(kind_number(content.payload))
            &&& record::field_of(value, 7) == payload::payload_model(
                content.payload,
                content.wire,
            )
            &&& record::field_of(value, 8) == Value::Bytes(content.signer)
            &&& record::field_of(value, 9) == Value::Bytes(event.signature)
        }),
{
    let fields = event::unsigned_event_fields(event.unsigned);
    record::lemma_record_fields(fields.push(Value::Bytes(event.signature)));
    lemma_wire(event.unsigned.wire);
}

/// A wire version is written as two protocol versions.
proof fn lemma_wire(wire: WireVersion)
    ensures
        is_wire(version::wire_model(wire), wire),
{
    record::lemma_record_fields(
        seq![version::protocol_model(wire.0), version::protocol_model(wire.1)],
    );
    record::lemma_record_fields(
        seq![Value::Unsigned(wire.0.0 as u64), Value::Unsigned(wire.0.1 as u64)],
    );
    record::lemma_record_fields(
        seq![Value::Unsigned(wire.1.0 as u64), Value::Unsigned(wire.1.1 as u64)],
    );
}

/// A payload is written as what its kind names, in order.
pub proof fn law_payload_is_written_by_field(payload: Payload, wire: WireVersion)
    ensures
        ({
            let value = payload::payload_model(payload, wire);
            match payload {
                Payload::Genesis {
                    root_signing_key,
                    recovery_signing_key,
                    recovery_acceptance_signature,
                } => {
                    &&& record::is_record(value, 3)
                    &&& record::field_of(value, 1) == Value::Bytes(root_signing_key)
                    &&& record::field_of(value, 2) == Value::Bytes(recovery_signing_key)
                    &&& record::field_of(value, 3) == Value::Bytes(recovery_acceptance_signature)
                },
                Payload::DeviceAdd { certificate } => {
                    &&& record::is_record(value, 1)
                    &&& record::field_of(value, 1) == certificate::certificate_model(certificate)
                },
                Payload::DeviceRevoke { device_id } => {
                    &&& record::is_record(value, 1)
                    &&& record::field_of(value, 1) == Value::Text(text::hyphenated(device_id))
                },
                Payload::RootRotate { new_root_signing_key, acceptance_signature } => {
                    &&& record::is_record(value, 2)
                    &&& record::field_of(value, 1) == Value::Bytes(new_root_signing_key)
                    &&& record::field_of(value, 2) == Value::Bytes(acceptance_signature)
                },
                Payload::RecoveryRotate {
                    new_recovery_signing_key,
                    acceptance_signature,
                    recovery_authorization_signature,
                } => {
                    let current = wire == ((1u16, 1u16), (1u16, 1u16));
                    &&& record::is_record(value, if current { 3 } else { 2 })
                    &&& record::field_of(value, 1) == Value::Bytes(new_recovery_signing_key)
                    &&& record::field_of(value, 2) == Value::Bytes(acceptance_signature)
                    &&& current ==> record::field_of(value, 3) == Value::Bytes(
                        recovery_authorization_signature->0,
                    )
                },
                Payload::RecoveryRestore {
                    new_root_signing_key,
                    new_recovery_signing_key,
                    root_acceptance_signature,
                    recovery_acceptance_signature,
                } => {
                    &&& record::is_record(value, 4)
                    &&& record::field_of(value, 1) == Value::Bytes(new_root_signing_key)
                    &&& record::field_of(value, 2) == Value::Bytes(new_recovery_signing_key)
                    &&& record::field_of(value, 3) == Value::Bytes(root_acceptance_signature)
                    &&& record::field_of(value, 4) == Value::Bytes(recovery_acceptance_signature)
                },
                Payload::RelayDescriptor { descriptor } => {
                    &&& record::is_record(value, 1)
                    &&& record::field_of(value, 1) == relay::relay_model(descriptor)
                },
            }
        }),
{
    record::lemma_record_fields(payload::payload_fields(payload, wire));
}

/// A certificate is written as its wire version, its identity, its device, the keys
/// of the device, the root that issued it, its time and its signature.
pub proof fn law_certificate_is_written_by_field(certificate: Certificate)
    ensures
        ({
            let value = certificate::certificate_model(certificate);
            let content = certificate.unsigned;
            &&& record::is_record(value, 8)
            &&& is_wire(record::field_of(value, 1), content.wire)
            &&& record::field_of(value, 2) == Value::Text(text::hex(content.identity_id))
            &&& record::field_of(value, 3) == Value::Text(text::hyphenated(content.device_id))
            &&& record::field_of(value, 4) == Value::Bytes(content.device_signing_key)
            &&& record::field_of(value, 5) == Value::Bytes(content.device_encryption_key)
            &&& record::field_of(value, 6) == Value::Bytes(content.issuer_root_key)
            &&& is_moment(record::field_of(value, 7), content.issued_at)
            &&& record::field_of(value, 8) == Value::Bytes(certificate.signature)
        }),
{
    let fields = certificate::unsigned_certificate_fields(certificate.unsigned);
    record::lemma_record_fields(fields.push(Value::Bytes(certificate.signature)));
    lemma_wire(certificate.unsigned.wire);
}

/// A descriptor is written as its wire version, its addresses in order, and its
/// expiry.
pub proof fn law_descriptor_is_written_by_field(relay: Relay)
    ensures
        ({
            let value = relay::relay_model(relay);
            let urls = record::field_of(value, 2);
            &&& record::is_record(value, 3)
            &&& is_wire(record::field_of(value, 1), relay.wire)
            &&& urls is Array
            &&& urls->Array_0.len() == relay.relay_urls.len()
            &&& forall|i: int|
                0 <= i < relay.relay_urls.len() ==> #[trigger] urls->Array_0[i] == Value::Text(
                    relay.relay_urls[i],
                )
            &&& is_moment(record::field_of(value, 3), relay.expires_at)
        }),
{
    let value = relay::relay_model(relay);
    record::lemma_record_fields(
        seq![
            version::wire_model(relay.wire),
            relay::texts_model(relay.relay_urls),
            record::field_of(value, 3),
        ],
    );
    lemma_wire(relay.wire);
}

/// A page is written as its own version, its identity, the head it tells of, the
/// place it was asked from, its events in order, the place to go on from, and
/// whether there is more.
pub proof fn law_page_is_written_by_field(page: Page)
    ensures
        ({
            let value = page::page_model(page);
            let wire = record::field_of(value, 1);
            let events = record::field_of(value, 6);
            &&& record::is_record(value, 8)
            &&& record::is_record(wire, 2)
            &&& record::field_of(wire, 1) == Value::Unsigned(1)
            &&& record::field_of(wire, 2) == Value::Unsigned(1)
            &&& record::field_of(value, 2) == Value::Text(text::hex(page.identity_id))
            &&& record::field_of(value, 3) == Value::Unsigned(page.advertised_head_sequence)
            &&& record::field_of(value, 4) == Value::Bytes(page.advertised_head_hash)
            &&& record::field_of(value, 5) == Value::Unsigned(page.requested_after_sequence)
            &&& events is Array
            &&& events->Array_0.len() == page.exact_events.len()
            &&& forall|i: int|
                0 <= i < page.exact_events.len() ==> #[trigger] events->Array_0[i]
                    == Value::Bytes(page.exact_events[i])
            &&& record::field_of(value, 7) == Value::Unsigned(page.next_after_sequence)
            &&& record::field_of(value, 8) == Value::Bool(page.has_more)
        }),
{
    record::lemma_record_fields(page::page_fields(page));
    record::lemma_record_fields(seq![Value::Unsigned(1), Value::Unsigned(1)]);
}

/// What is signed of a value: a domain, and the digest of the value in another one.
pub open spec fn signed_over(
    signature_domain: Seq<char>,
    hash_domain: Seq<char>,
    value: Value,
) -> Seq<u8> {
    encode_utf8(signature_domain) + digest::hash_in_domain(hash_domain, cbor::encoding(value))
}

/// The signer of an event signs all of it but the signature, and the hash of an event
/// covers all of it.
pub proof fn law_event_signature_covers_the_event(event: Event)
    ensures
        ({
            let value = event::event_model(event);
            &&& event::event_signed_bytes(event.unsigned) == signed_over(
                "dirextalk.identity-log-signature.v1\0"@,
                "dirextalk.identity-log-event.v1\0"@,
                record::without_last(value),
            )
            &&& event::is_signed(event) <==> outside::ed25519_strict_accepted(
                event.unsigned.signer,
                event::event_signed_bytes(event.unsigned),
                event.signature,
            )
            &&& event::entry_hash_of(event) == digest::hash_in_domain(
                "dirextalk.identity-log-entry.v1\0"@,
                cbor::encoding(value),
            )
        }),
{
    let fields = event::unsigned_event_fields(event.unsigned);
    let signed = fields.push(Value::Bytes(event.signature));
    record::lemma_without_last_record(signed);
    assert(signed.drop_last() =~= fields);
}

/// The root that issued a certificate signs all of it but the signature.
pub proof fn law_certificate_signature_covers_the_certificate(certificate: Certificate)
    ensures
        ({
            let value = certificate::certificate_model(certificate);
            certificate::is_authentic_certificate(certificate)
                <==> outside::ed25519_strict_accepted(
                certificate.unsigned.issuer_root_key,
                signed_over(
                    "dirextalk.device-certificate-signature.v1\0"@,
                    "dirextalk.device-certificate.v1\0"@,
                    record::without_last(value),
                ),
                certificate.signature,
            )
        }),
{
    let fields = certificate::unsigned_certificate_fields(certificate.unsigned);
    let signed = fields.push(Value::Bytes(certificate.signature));
    record::lemma_without_last_record(signed);
    assert(signed.drop_last() =~= fields);
}

/// The recovery key accepts a genesis by signing its identity and both of its keys.
pub proof fn law_genesis_acceptance_covers_both_keys(
    identity: Seq<u8>,
    root: Seq<u8>,
    recovery: Seq<u8>,
) -> (value: Value)
    ensures
        authority::genesis_acceptance_bytes(identity, root, recovery) == signed_over(
            "dirextalk.identity-log-genesis-recovery-acceptance-signature.v1\0"@,
            "dirextalk.identity-log-genesis-recovery-acceptance.v1\0"@,
            value,
        ),
        record::is_record(value, 3),
        record::field_of(value, 1) == Value::Text(text::hex(identity)),
        record::field_of(value, 2) == Value::Bytes(root),
        record::field_of(value, 3) == Value::Bytes(recovery),
{
    let fields = seq![
        Value::Text(text::hex(identity)),
        Value::Bytes(root),
        Value::Bytes(recovery),
    ];
    record::lemma_record_fields(fields);
    record::record(fields)
}

/// A new key accepts its role by signing its identity, its place, the hash before it,
/// its purpose and itself; each purpose has its own number.
pub proof fn law_rotation_acceptance_covers_the_place(
    identity: Seq<u8>,
    sequence: u64,
    previous: Option<Seq<u8>>,
    purpose: KeyAcceptancePurposeV1,
    successor: Seq<u8>,
) -> (value: Value)
    ensures
        authority::rotation_acceptance_bytes(identity, sequence, previous, purpose, successor)
            == signed_over(
            "dirextalk.identity-log-key-acceptance-signature.v1\0"@,
            "dirextalk.identity-log-key-acceptance.v1\0"@,
            value,
        ),
        record::is_record(value, 5),
        record::field_of(value, 1) == Value::Text(text::hex(identity)),
        record::field_of(value, 2) == Value::Unsigned(sequence),
        is_optional(record::field_of(value, 3), previous),
        record::field_of(value, 4) == Value::Unsigned(
            match purpose {
                KeyAcceptancePurposeV1::RootRotate => 1,
                KeyAcceptancePurposeV1::RecoveryRotate => 2,
                KeyAcceptancePurposeV1::RecoveryRestoreRoot => 3,
                KeyAcceptancePurposeV1::RecoveryRestoreRecovery => 4,
            },
        ),
        record::field_of(value, 5) == Value::Bytes(successor),
{
    let fields = seq![
        Value::Text(text::hex(identity)),
        Value::Unsigned(sequence),
        authority::optional_digest_model(previous),
        Value::Unsigned(purpose.number()),
        Value::Bytes(successor),
    ];
    record::lemma_record_fields(fields);
    record::record(fields)
}

/// The recovery key that leaves authorizes its successor by signing the whole event
/// that replaces it, with the acceptance of the successor.
pub proof fn law_rotation_authorization_covers_the_event(
    wire: WireVersion,
    identity: Seq<u8>,
    sequence: u64,
    previous: Option<Seq<u8>>,
    occurred_at: i64,
    root: Seq<u8>,
    successor: Seq<u8>,
    acceptance: Seq<u8>,
) -> (value: Value)
    ensures
        authority::rotation_authorization_bytes(
            wire,
            identity,
            sequence,
            previous,
            occurred_at,
            root,
            successor,
            acceptance,
        ) == signed_over(
            "dirextalk.identity-log-recovery-rotation-authorization-signature.v1\0"@,
            "dirextalk.identity-log-recovery-rotation-authorization.v1\0"@,
            value,
        ),
        record::is_record(value, 8),
        is_wire(record::field_of(value, 1), wire),
        record::field_of(value, 2) == Value::Text(text::hex(identity)),
        record::field_of(value, 3) == Value::Unsigned(sequence),
        is_optional(record::field_of(value, 4), previous),
        is_moment(record::field_of(value, 5), occurred_at),
        record::field_of(value, 6) == Value::Bytes(root),
        record::field_of(value, 7) == Value::Bytes(successor),
        record::field_of(value, 8) == Value::Bytes(acceptance),
{
    let fields = seq![
        version::wire_model(wire),
        Value::Text(text::hex(identity)),
        Value::Unsigned(sequence),
        authority::optional_digest_model(previous),
        crate::wire::number::millis_model(occurred_at),
        Value::Bytes(root),
        Value::Bytes(successor),
        Value::Bytes(acceptance),
    ];
    record::lemma_record_fields(fields);
    lemma_wire(wire);
    record::record(fields)
}

/// A genesis is accepted exactly if it comes first, is signed by the root that its
/// identity is the digest of, and its other key accepted it.
pub proof fn law_genesis_certifies_itself(event: Event)
    requires
        event.unsigned.payload is Genesis,
        wire_line::is_supported(event.unsigned.wire),
        event.unsigned.sequence > 0,
    ensures
        ({
            let content = event.unsigned;
            let root = content.payload->Genesis_root_signing_key;
            let recovery = content.payload->Genesis_recovery_signing_key;
            let checked = event::static_check(content);
            let certified = {
                &&& content.sequence == 1
                &&& content.previous_event_hash is None
                &&& content.signer == root
                &&& root != recovery
                &&& content.identity_id == digest::hash_in_domain(
                    "dirextalk.identity-id.v1\0"@,
                    root,
                )
                &&& outside::ed25519_strict_accepted(
                    recovery,
                    authority::genesis_acceptance_bytes(content.identity_id, root, recovery),
                    content.payload->Genesis_recovery_acceptance_signature,
                )
            };
            &&& checked is Ok <==> certified
            &&& !certified ==> checked == Err::<(), IdentityLogError>(
                IdentityLogError::InvalidGenesis,
            )
        }),
{
}

/// Every other event is accepted exactly if it comes later and names the event before
/// it, in one wire version throughout; a certificate in it has to be authentic, a
/// descriptor has to outlive it, and a rotation of the recovery key has to be
/// authorized exactly in the current version.
pub proof fn law_later_events_name_the_one_before(event: Event)
    requires
        !(event.unsigned.payload is Genesis),
        wire_line::is_supported(event.unsigned.wire),
        event.unsigned.sequence > 0,
    ensures
        ({
            let content = event.unsigned;
            let later = content.sequence > 1 && content.previous_event_hash is Some;
            let checked = event::static_check(content);
            &&& checked is Ok <==> later && match content.payload {
                Payload::DeviceAdd { certificate } => {
                    &&& certificate.unsigned.wire == content.wire
                    &&& certificate::is_authentic_certificate(certificate)
                },
                Payload::RelayDescriptor { descriptor } => {
                    &&& descriptor.wire == content.wire
                    &&& content.occurred_at < descriptor.expires_at
                },
                Payload::RecoveryRotate { recovery_authorization_signature, .. } => {
                    recovery_authorization_signature is Some <==> content.wire == (
                        (1u16, 1u16),
                        (1u16, 1u16),
                    )
                },
                _ => true,
            }
            &&& !later ==> checked == Err::<(), IdentityLogError>(
                IdentityLogError::InvalidEventShape,
            )
        }),
{
}

/// An event is accepted exactly if it is in form and its signer signed it.
pub proof fn law_event_is_accepted_signed(event: Event)
    ensures
        ({
            let content = event.unsigned;
            let checked = event::event_check(event);
            &&& checked is Ok <==> event::static_check(content) is Ok
                && outside::ed25519_strict_accepted(
                content.signer,
                event::event_signed_bytes(content),
                event.signature,
            )
            &&& event::static_check(content) is Ok && checked is Err ==> checked == Err::<
                (),
                IdentityLogError,
            >(IdentityLogError::InvalidSignature)
            &&& !wire_line::is_supported(content.wire) ==> checked == Err::<(), IdentityLogError>(
                IdentityLogError::InvalidWireVersion,
            )
            &&& wire_line::is_supported(content.wire) && content.sequence == 0 ==> checked
                == Err::<(), IdentityLogError>(IdentityLogError::InvalidEventShape)
        }),
{
}

/// The parts of a certificate are in form exactly if its identifiers and keys are,
/// and its signing key is neither its encryption key nor the root.
pub proof fn law_certificate_keys_differ(content: UnsignedCertificate)
    ensures
        certificate::is_unsigned_certificate(content) <==> {
            &&& wire_line::is_supported(content.wire)
            &&& content.identity_id.len() == 32
            &&& id::is_uuid_v7(content.device_id)
            &&& key::is_public_key(content.device_signing_key)
            &&& key::is_public_key(content.device_encryption_key)
            &&& key::is_public_key(content.issuer_root_key)
            &&& -9_007_199_254_740_991 <= content.issued_at <= 9_007_199_254_740_991
            &&& content.device_signing_key != content.device_encryption_key
            &&& content.device_signing_key != content.issuer_root_key
        },
{
}

/// The parts of an event are in form exactly if its identifiers, numbers and keys
/// are, its payload is, and its payload fits its wire version.
pub proof fn law_event_parts_are_in_form(content: UnsignedEvent)
    ensures
        event::is_unsigned_event(content) <==> {
            &&& wire_line::is_supported(content.wire)
            &&& content.identity_id.len() == 32
            &&& content.sequence <= 9_007_199_254_740_991
            &&& content.previous_event_hash is Some ==> content.previous_event_hash->0.len()
                == 32
            &&& -9_007_199_254_740_991 <= content.occurred_at <= 9_007_199_254_740_991
            &&& payload::is_payload(content.payload)
            &&& content.payload is RecoveryRotate ==> (
            content.payload->RecoveryRotate_recovery_authorization_signature is Some
                <==> content.wire == ((1u16, 1u16), (1u16, 1u16)))
            &&& key::is_public_key(content.signer)
        },
{
}

/// The addresses of a descriptor are one to eight, in ascending order without
/// repetition.
pub proof fn law_descriptor_addresses_ascend(relay: Relay)
    ensures
        relay::is_relay(relay) <==> {
            &&& wire_line::is_supported(relay.wire)
            &&& 1 <= relay.relay_urls.len() <= 8
            &&& forall|i: int|
                #![trigger relay.relay_urls[i]]
                0 < i < relay.relay_urls.len() ==> bytes::lex_lt(
                    encode_utf8(relay.relay_urls[i - 1]),
                    encode_utf8(relay.relay_urls[i]),
                )
            &&& forall|i: int|
                0 <= i < relay.relay_urls.len() ==> relay::is_relay_url(
                    encode_utf8(#[trigger] relay.relay_urls[i]),
                )
            &&& -9_007_199_254_740_991 <= relay.expires_at <= 9_007_199_254_740_991
        },
{
    let urls = relay.relay_urls;
    if relay::are_relay_urls(urls) {
        assert forall|i: int| #![trigger urls[i]] 0 < i < urls.len() implies bytes::lex_lt(
            encode_utf8(urls[i - 1]),
            encode_utf8(urls[i]),
        ) by {
            assert(relay::url_ascends(urls, i - 1));
        }
    }
    if forall|i: int|
        #![trigger urls[i]]
        0 < i < urls.len() ==> bytes::lex_lt(encode_utf8(urls[i - 1]), encode_utf8(urls[i])) {
        assert forall|i: int| 0 <= i < urls.len() - 1 implies #[trigger] relay::url_ascends(
            urls,
            i,
        ) by {
            assert(bytes::lex_lt(encode_utf8(urls[i + 1 - 1]), encode_utf8(urls[i + 1])));
        }
    }
}

/// The event at a place of a page is accepted exactly if it is of limited size, an
/// event of the page's identity in the current version, at its place, behind the
/// event before it; at the first place of all there is no event before it.
pub proof fn law_page_takes_events_in_place(page: Page, i: int, previous: Option<Seq<u8>>)
    ensures
        ({
            let bytes = page.exact_events[i];
            let decoded = event_codec::decode_event(bytes);
            let content = decoded->Ok_0.unsigned;
            let place = page.requested_after_sequence + i + 1;
            let sized = 0 < bytes.len() <= 1_048_576;
            let own = content.identity_id == page.identity_id && content.wire == (
                (1u16, 1u16),
                (1u16, 1u16),
            );
            let behind = {
                &&& previous is Some ==> content.previous_event_hash == previous
                &&& previous is None && place == 1 ==> content.previous_event_hash is None
            };
            let checked = page::check_event(page, i, previous);
            &&& checked is Ok <==> sized && decoded is Ok && own && content.sequence == place
                && behind
            &&& checked is Ok ==> checked->Ok_0 == event::entry_hash_of(decoded->Ok_0)
            &&& !sized ==> checked == Err::<Seq<u8>, _>(IdentityLogPageError::PageTooLarge)
            &&& sized && decoded is Ok && !own ==> checked == Err::<Seq<u8>, _>(
                IdentityLogPageError::IdentityMismatch,
            )
            &&& sized && decoded is Ok && own && content.sequence != place ==> checked == Err::<
                Seq<u8>,
                _,
            >(IdentityLogPageError::SequenceMismatch)
            &&& sized && decoded is Ok && own && content.sequence == place && !behind ==> checked
                == Err::<Seq<u8>, _>(IdentityLogPageError::PreviousHashMismatch)
        }),
{
}

/// A page is accepted exactly if its cursors are in order, its events are in place and
/// lead to where it says, it says whether there is more, its last event has the hash
/// of the head if nothing follows, and it is of limited size.
pub proof fn law_page_is_accepted_as_a_whole(page: Page)
    ensures
        ({
            let count = page.exact_events.len();
            let last = page.next_after_sequence == page.advertised_head_sequence;
            let events = page::check_events(page, 0, None);
            page::page_check(page) is Ok <==> {
                &&& page.advertised_head_sequence > 0
                &&& page.requested_after_sequence <= page.advertised_head_sequence
                &&& page.next_after_sequence <= page.advertised_head_sequence
                &&& page.requested_after_sequence <= 9_007_199_254_740_991
                &&& page.next_after_sequence <= 9_007_199_254_740_991
                &&& count <= 64
                &&& events is Ok
                &&& page.next_after_sequence == page.requested_after_sequence + count
                &&& page.has_more <==> !last
                &&& page.has_more ==> count > 0
                &&& last && count > 0 ==> events->Ok_0 == Some(page.advertised_head_hash)
                &&& cbor::encoding(page::page_model(page)).len() <= 2_097_152
            }
        }),
{
}

/// A character that a host may hold, written as its byte.
pub open spec fn is_host_byte(byte: u8) -> bool {
    ||| 'a' as u8 <= byte <= 'z' as u8
    ||| '0' as u8 <= byte <= '9' as u8
    ||| byte == '.' as u8
    ||| byte == '-' as u8
    ||| byte == ':' as u8
    ||| byte == '[' as u8
    ||| byte == ']' as u8
}

/// A character that an address may hold: printable, and none of those that set off a
/// user, a query or a fragment, or that stand for a separator elsewhere.
pub open spec fn is_address_byte(byte: u8) -> bool {
    &&& 0x21 <= byte <= 0x7e
    &&& byte != '@' as u8
    &&& byte != '?' as u8
    &&& byte != '#' as u8
    &&& byte != '\\' as u8
}

/// An address holds its host between the scheme and the first slash behind it, or its
/// end.
pub open spec fn ends_host(url: Seq<u8>, end: int) -> bool {
    &&& 8 <= end <= url.len()
    &&& end < url.len() ==> url[end] == '/' as u8
    &&& forall|i: int| 8 <= i < end ==> #[trigger] url[i] != '/' as u8
}

/// A relay address is short, begins with the secure scheme, holds plain characters,
/// and has a lower-case host with a letter or digit that does not end in a dot.
pub proof fn law_relay_address_is_plain_and_secure(url: Seq<u8>)
    requires
        relay::is_relay_url(url),
    ensures
        url.len() <= 512,
        url.len() > 8,
        url[0] == 'h' as u8 && url[1] == 't' as u8 && url[2] == 't' as u8 && url[3] == 'p' as u8,
        url[4] == 's' as u8 && url[5] == ':' as u8 && url[6] == '/' as u8 && url[7] == '/' as u8,
        forall|i: int| 0 <= i < url.len() ==> is_address_byte(#[trigger] url[i]),
        exists|end: int| #[trigger]
            ends_host(url, end) && end > 8 && url[end - 1] != '.' as u8 && (forall|i: int|
                8 <= i < end ==> is_host_byte(#[trigger] url[i])) && (exists|i: int|
                8 <= i < end && relay::is_alphanumeric_byte(#[trigger] url[i])),
{
    let end = relay::authority_end(url, 8);
    let host = url.subrange(8, end);
    let head = relay::https_prefix();
    assert(head.len() == 8);
    assert forall|i: int| 0 <= i < 8 implies url[i] == head[i] by {}
    lemma_host_end(url, 8);
    assert(host.last() == url[end - 1]);
    assert forall|i: int| 8 <= i < end implies is_host_byte(#[trigger] url[i]) by {
        assert(url[i] == host[i - 8]);
    }
    let k = choose|i: int| 0 <= i < host.len() && relay::is_alphanumeric_byte(#[trigger] host[i]);
    assert(host[k] == url[k + 8]);
    assert(ends_host(url, end));
}

/// An address of that form is a relay address.
pub proof fn law_plain_secure_address_is_a_relay_address(url: Seq<u8>, end: int, letter: int)
    requires
        8 < end <= url.len() <= 512,
        url[0] == 'h' as u8 && url[1] == 't' as u8 && url[2] == 't' as u8 && url[3] == 'p' as u8,
        url[4] == 's' as u8 && url[5] == ':' as u8 && url[6] == '/' as u8 && url[7] == '/' as u8,
        forall|i: int| 0 <= i < url.len() ==> is_address_byte(#[trigger] url[i]),
        ends_host(url, end),
        url[end - 1] != '.' as u8,
        forall|i: int| 8 <= i < end ==> is_host_byte(#[trigger] url[i]),
        8 <= letter < end,
        'a' as u8 <= url[letter] <= 'z' as u8 || '0' as u8 <= url[letter] <= '9' as u8,
    ensures
        relay::is_relay_url(url),
{
    lemma_host_end(url, 8);
    let found = relay::authority_end(url, 8);
    if found < end {
        assert(url[found] == '/' as u8);
    }
    if end < found {
        assert(url[end] != '/' as u8);
    }
    let host = url.subrange(8, end);
    assert(host.last() == url[end - 1]);
    assert forall|i: int| 0 <= i < host.len() implies relay::is_authority_byte(
        #[trigger] host[i],
    ) by {
        assert(is_host_byte(url[i + 8]));
    }
    assert(relay::is_alphanumeric_byte(host[letter - 8]));
    assert forall|i: int| 0 <= i < url.len() implies 0x21 <= #[trigger] url[i] <= 0x7e && url[i]
        != 64 && url[i] != 63 && url[i] != 35 && url[i] != 92 by {
        assert(is_address_byte(url[i]));
    }
    assert(relay::https_prefix() =~= url.subrange(0, 8));
}

/// A host ends at the first slash, or at the end.
proof fn lemma_host_end(url: Seq<u8>, from: int)
    requires
        0 <= from,
    ensures
        from <= url.len() ==> from <= relay::authority_end(url, from) <= url.len(),
        from > url.len() ==> relay::authority_end(url, from) == url.len(),
        relay::authority_end(url, from) < url.len() ==> url[relay::authority_end(url, from)]
            == '/' as u8,
        forall|i: int|
            from <= i < relay::authority_end(url, from) ==> #[trigger] url[i] != '/' as u8,
    decreases url.len() - from,
{
    if from < url.len() && url[from] != 47 {
        lemma_host_end(url, from + 1);
    }
}

/// The event at a place is of limited size, and the exact event of its place.
pub open spec fn is_in_place(page: Page, i: int) -> bool {
    laws::is_placed(page, i) && 0 < page.exact_events[i].len() <= 1_048_576
}

/// Events that are each of limited size, and each at their place behind one another,
/// are all accepted; the first event of all has none before it.
pub proof fn law_page_takes_all_events_in_place(page: Page)
    requires
        forall|i: int| 0 <= i < page.exact_events.len() ==> #[trigger] is_in_place(page, i),
        page.exact_events.len() > 0 && page.requested_after_sequence == 0
            ==> laws::page_event(page, 0).unsigned.previous_event_hash is None,
    ensures
        ({
            let checked = page::check_events(page, 0, None);
            &&& checked is Ok
            &&& page.exact_events.len() == 0 ==> checked->Ok_0 is None
            &&& page.exact_events.len() > 0 ==> checked->Ok_0 == Some(
                event::entry_hash_of(laws::page_event(page, page.exact_events.len() - 1)),
            )
        }),
{
    if page.exact_events.len() > 0 {
        assert(is_in_place(page, 0));
        lemma_event_taken(page, 0, None);
        lemma_events_taken(page, 1);
    }
}

/// An event in place is accepted behind the event before it.
proof fn lemma_event_taken(page: Page, i: int, previous: Option<Seq<u8>>)
    requires
        is_in_place(page, i),
        previous is Some ==> laws::page_event(page, i).unsigned.previous_event_hash == previous,
        previous is None && page.requested_after_sequence + i == 0 ==> laws::page_event(
            page,
            i,
        ).unsigned.previous_event_hash is None,
    ensures
        page::check_event(page, i, previous) == Ok::<Seq<u8>, IdentityLogPageError>(
            event::entry_hash_of(laws::page_event(page, i)),
        ),
{
    law_page_takes_events_in_place(page, i, previous);
}

/// The events from a place on are accepted behind the event before it.
proof fn lemma_events_taken(page: Page, i: int)
    requires
        1 <= i <= page.exact_events.len(),
        forall|j: int| 0 <= j < page.exact_events.len() ==> #[trigger] is_in_place(page, j),
    ensures
        page::check_events(
            page,
            i,
            Some(event::entry_hash_of(laws::page_event(page, i - 1))),
        ) == Ok::<Option<Seq<u8>>, IdentityLogPageError>(
            Some(event::entry_hash_of(laws::page_event(page, page.exact_events.len() - 1))),
        ),
    decreases page.exact_events.len() - i,
{
    if i < page.exact_events.len() {
        let previous = Some(event::entry_hash_of(laws::page_event(page, i - 1)));
        assert(is_in_place(page, i));
        lemma_event_taken(page, i, previous);
        lemma_events_taken(page, i + 1);
    }
}

} // verus!
