//! Reading identity-log contracts from canonical values.

use vstd::prelude::*;
use crate::log::authority;
use crate::log::certificate;
use crate::log::certificate::{
    Certificate, DeviceCertificateV1, UnsignedCertificate, UnsignedDeviceCertificateV1,
};
use crate::log::error::IdentityLogError;
use crate::log::payload::{IdentityLogEventKindV1, IdentityLogEventPayloadV1, Payload};
use crate::log::relay;
use crate::log::relay::{Relay, RelayDescriptorV1};
use crate::log::wire_line;
use crate::log::wire_line::{
    identity_log_wire_line, validate_wire_version, IdentityLogWireLine,
};
use crate::wire::bytes::to_array;
use crate::wire::digest::Sha256Digest;
use crate::wire::id;
use crate::wire::id::{DeviceId, IdentityId};
use crate::wire::key;
use crate::wire::key::{DeviceEncryptionPublicKey, Ed25519Signature, SigningPublicKey};
use crate::wire::number;
use crate::wire::number::{SafeUint, UtcMillis, MAX_SAFE_INTEGER};
use crate::wire::record;
use crate::wire::record::exact_fields;
use crate::wire::value;
use crate::wire::value::{CanonicalValue, Value};
use crate::wire::version::{ProtocolVersion, WireVersion};

verus! {

/// `value` is a byte string of `width` bytes.
pub open spec fn is_bytes(value: Value, width: nat) -> bool {
    value is Bytes && value->Bytes_0.len() == width
}

/// `value` is a public key.
pub open spec fn is_key(value: Value) -> bool {
    value is Bytes && key::is_public_key(value->Bytes_0)
}

/// `value` is the text of an identity.
pub open spec fn is_identity(value: Value) -> bool {
    value is Text && id::is_identity_text(value->Text_0)
}

/// The identity whose text is `value`.
pub open spec fn identity_of(value: Value) -> Seq<u8> {
    id::identity_of_text(value->Text_0)
}

/// `value` is the text of a device ID.
pub open spec fn is_device(value: Value) -> bool {
    value is Text && id::is_uuid_text(value->Text_0)
}

/// The device ID whose text is `value`.
pub open spec fn device_of(value: Value) -> Seq<u8> {
    id::uuid_of_text(value->Text_0)
}

/// `value` is a safe unsigned number.
pub open spec fn is_safe_uint(value: Value) -> bool {
    value is Unsigned && value->Unsigned_0 <= MAX_SAFE_INTEGER
}

/// `value` is a digest or absent.
pub open spec fn is_optional_digest(value: Value) -> bool {
    value is Null || is_bytes(value, 32)
}

/// The digest that `value` holds, if it is not absent.
pub open spec fn optional_digest_of(value: Value) -> Option<Seq<u8>> {
    if value is Null {
        None
    } else {
        Some(value->Bytes_0)
    }
}

/// `value` is a representable time.
pub open spec fn is_millis(value: Value) -> bool {
    match value {
        Value::Unsigned(number) => number <= MAX_SAFE_INTEGER,
        Value::Negative(number) => number::is_utc_millis(number as int),
        _ => false,
    }
}

/// The time that `value` holds.
pub open spec fn millis_of(value: Value) -> i64 {
    match value {
        Value::Unsigned(number) => number as i64,
        _ => value->Negative_0,
    }
}

/// `value` is a protocol version.
pub open spec fn is_protocol(value: Value) -> bool {
    &&& record::is_record(value, 2)
    &&& record::field_of(value, 1) is Unsigned
    &&& record::field_of(value, 1)->Unsigned_0 <= u16::MAX
    &&& record::field_of(value, 2) is Unsigned
    &&& record::field_of(value, 2)->Unsigned_0 <= u16::MAX
}

/// The protocol version that `value` holds.
pub open spec fn protocol_of(value: Value) -> ProtocolVersion {
    (
        record::field_of(value, 1)->Unsigned_0 as u16,
        record::field_of(value, 2)->Unsigned_0 as u16,
    )
}

/// The supported wire version that `value` holds.
pub open spec fn read_wire(value: Value) -> Result<WireVersion, IdentityLogError> {
    if !(record::is_record(value, 2) && is_protocol(record::field_of(value, 1)) && is_protocol(
        record::field_of(value, 2),
    )) {
        Err(IdentityLogError::InvalidCanonical)
    } else {
        let wire = (
            protocol_of(record::field_of(value, 1)),
            protocol_of(record::field_of(value, 2)),
        );
        if wire_line::is_supported(wire) {
            Ok(wire)
        } else {
            Err(IdentityLogError::InvalidWireVersion)
        }
    }
}

/// The certificate that `value` holds, verified.
pub open spec fn read_certificate(value: Value) -> Result<Certificate, IdentityLogError> {
    if !record::is_record(value, 8) {
        Err(IdentityLogError::InvalidCanonical)
    } else {
        match read_wire(record::field_of(value, 1)) {
            Err(error) => Err(error),
            Ok(wire) => {
                if !(is_identity(record::field_of(value, 2)) && is_device(
                    record::field_of(value, 3),
                ) && is_key(record::field_of(value, 4)) && is_key(record::field_of(value, 5))
                    && is_key(record::field_of(value, 6)) && is_millis(record::field_of(value, 7))
                    && is_bytes(record::field_of(value, 8), 64)) {
                    Err(IdentityLogError::InvalidCanonical)
                } else {
                    let content = UnsignedCertificate {
                        wire,
                        identity_id: identity_of(record::field_of(value, 2)),
                        device_id: device_of(record::field_of(value, 3)),
                        device_signing_key: record::field_of(value, 4)->Bytes_0,
                        device_encryption_key: record::field_of(value, 5)->Bytes_0,
                        issuer_root_key: record::field_of(value, 6)->Bytes_0,
                        issued_at: millis_of(record::field_of(value, 7)),
                    };
                    let signed = Certificate {
                        unsigned: content,
                        signature: record::field_of(value, 8)->Bytes_0,
                    };
                    if certificate::is_unsigned_certificate(content)
                        && certificate::is_authentic_certificate(signed) {
                        Ok(signed)
                    } else {
                        Err(IdentityLogError::InvalidDeviceCertificate)
                    }
                }
            },
        }
    }
}

/// Every item of an array is a text.
pub open spec fn are_texts(items: Seq<Value>) -> bool {
    forall|i: int| 0 <= i < items.len() ==> (#[trigger] items[i]) is Text
}

/// The texts of an array.
pub open spec fn texts_of(items: Seq<Value>) -> Seq<Seq<char>> {
    Seq::new(items.len(), |i: int| items[i]->Text_0)
}

/// The relay descriptor that `value` holds.
pub open spec fn read_relay(value: Value) -> Result<Relay, IdentityLogError> {
    if !record::is_record(value, 3) {
        Err(IdentityLogError::InvalidCanonical)
    } else {
        match read_wire(record::field_of(value, 1)) {
            Err(error) => Err(error),
            Ok(wire) => {
                let urls = record::field_of(value, 2);
                if !(urls is Array && are_texts(urls->Array_0)) {
                    Err(IdentityLogError::InvalidRelayDescriptor)
                } else if !is_millis(record::field_of(value, 3)) {
                    Err(IdentityLogError::InvalidCanonical)
                } else if !relay::are_relay_urls(texts_of(urls->Array_0)) {
                    Err(IdentityLogError::InvalidRelayDescriptor)
                } else {
                    Ok(
                        Relay {
                            wire,
                            relay_urls: texts_of(urls->Array_0),
                            expires_at: millis_of(record::field_of(value, 3)),
                        },
                    )
                }
            },
        }
    }
}

/// How many fields a transition of a kind has on a wire version.
pub open spec fn payload_width(kind: IdentityLogEventKindV1, wire: WireVersion) -> nat {
    match kind {
        IdentityLogEventKindV1::Genesis => 3,
        IdentityLogEventKindV1::DeviceAdd => 1,
        IdentityLogEventKindV1::DeviceRevoke => 1,
        IdentityLogEventKindV1::RootRotate => 2,
        IdentityLogEventKindV1::RecoveryRotate => if wire_line::line_of(wire) == Some(
            IdentityLogWireLine::CurrentV1_1,
        ) {
            3
        } else {
            2
        },
        IdentityLogEventKindV1::RecoveryRestore => 4,
        IdentityLogEventKindV1::RelayDescriptor => 1,
    }
}

/// The transition of a kind that `value` holds on a wire version.
pub open spec fn read_payload(
    kind: IdentityLogEventKindV1,
    value: Value,
    wire: WireVersion,
) -> Result<Payload, IdentityLogError> {
    let first = record::field_of(value, 1);
    let second = record::field_of(value, 2);
    let third = record::field_of(value, 3);
    let fourth = record::field_of(value, 4);
    if kind == IdentityLogEventKindV1::RecoveryRotate && !wire_line::is_supported(wire) {
        Err(IdentityLogError::InvalidWireVersion)
    } else if !record::is_record(value, payload_width(kind, wire)) {
        Err(IdentityLogError::InvalidCanonical)
    } else {
        match kind {
            IdentityLogEventKindV1::Genesis => {
                if is_key(first) && is_key(second) && is_bytes(third, 64) {
                    Ok(
                        Payload::Genesis {
                            root_signing_key: first->Bytes_0,
                            recovery_signing_key: second->Bytes_0,
                            recovery_acceptance_signature: third->Bytes_0,
                        },
                    )
                } else {
                    Err(IdentityLogError::InvalidCanonical)
                }
            },
            IdentityLogEventKindV1::DeviceAdd => {
                match read_certificate(first) {
                    Ok(certificate) => Ok(Payload::DeviceAdd { certificate }),
                    Err(error) => Err(error),
                }
            },
            IdentityLogEventKindV1::DeviceRevoke => {
                if is_device(first) {
                    Ok(Payload::DeviceRevoke { device_id: device_of(first) })
                } else {
                    Err(IdentityLogError::InvalidCanonical)
                }
            },
            IdentityLogEventKindV1::RootRotate => {
                if is_key(first) && is_bytes(second, 64) {
                    Ok(
                        Payload::RootRotate {
                            new_root_signing_key: first->Bytes_0,
                            acceptance_signature: second->Bytes_0,
                        },
                    )
                } else {
                    Err(IdentityLogError::InvalidCanonical)
                }
            },
            IdentityLogEventKindV1::RecoveryRotate => {
                let authorized = payload_width(kind, wire) == 3;
                if is_key(first) && is_bytes(second, 64) && (authorized ==> is_bytes(third, 64)) {
                    Ok(
                        Payload::RecoveryRotate {
                            new_recovery_signing_key: first->Bytes_0,
                            acceptance_signature: second->Bytes_0,
                            recovery_authorization_signature: if authorized {
                                Some(third->Bytes_0)
                            } else {
                                None
                            },
                        },
                    )
                } else {
                    Err(IdentityLogError::InvalidCanonical)
                }
            },
            IdentityLogEventKindV1::RecoveryRestore => {
                if is_key(first) && is_key(second) && is_bytes(third, 64) && is_bytes(fourth, 64) {
                    Ok(
                        Payload::RecoveryRestore {
                            new_root_signing_key: first->Bytes_0,
                            new_recovery_signing_key: second->Bytes_0,
                            root_acceptance_signature: third->Bytes_0,
                            recovery_acceptance_signature: fourth->Bytes_0,
                        },
                    )
                } else {
                    Err(IdentityLogError::InvalidCanonical)
                }
            },
            IdentityLogEventKindV1::RelayDescriptor => {
                match read_relay(first) {
                    Ok(descriptor) => Ok(Payload::RelayDescriptor { descriptor }),
                    Err(error) => Err(error),
                }
            },
        }
    }
}

/// Reads a byte string of exactly `N` bytes.
pub fn decode_exact_bytes<const N: usize>(value: &CanonicalValue) -> (bytes: Option<[u8; N]>)
    ensures
        match bytes {
            Some(bytes) => value@ == Value::Bytes(bytes@),
            None => !is_bytes(value@, N as nat),
        },
{
    match value {
        CanonicalValue::Bytes(content) => to_array::<N>(content.as_slice()),
        _ => None,
    }
}

/// Reads an unsigned number.
pub fn decode_unsigned(value: &CanonicalValue) -> (number: Option<u64>)
    ensures
        match number {
            Some(number) => value@ == Value::Unsigned(number),
            None => !(value@ is Unsigned),
        },
{
    match value {
        CanonicalValue::Unsigned(number) => Some(*number),
        _ => None,
    }
}

/// Reads a safe unsigned number.
pub fn decode_safe_uint(value: &CanonicalValue) -> (number: Option<SafeUint>)
    ensures
        match number {
            Some(number) => is_safe_uint(value@) && value@->Unsigned_0 == number@,
            None => !is_safe_uint(value@),
        },
{
    match value {
        CanonicalValue::Unsigned(number) => SafeUint::new(*number).ok(),
        _ => None,
    }
}

/// Reads a digest.
pub fn decode_digest(value: &CanonicalValue) -> (digest: Option<Sha256Digest>)
    ensures
        match digest {
            Some(digest) => value@ == Value::Bytes(digest@) && digest@.len() == 32,
            None => !is_bytes(value@, 32),
        },
{
    match decode_exact_bytes::<32>(value) {
        Some(bytes) => Some(Sha256Digest::from_bytes(bytes)),
        None => None,
    }
}

/// Reads a digest or its absence.
pub fn decode_optional_digest(value: &CanonicalValue) -> (digest: Option<Option<Sha256Digest>>)
    ensures
        match digest {
            Some(digest) => {
                &&& is_optional_digest(value@)
                &&& authority::digest_view(digest) == optional_digest_of(value@)
            },
            None => !is_optional_digest(value@),
        },
{
    match value {
        CanonicalValue::Null => Some(None),
        _ => match decode_digest(value) {
            Some(digest) => Some(Some(digest)),
            None => None,
        },
    }
}

/// Reads a time.
pub fn decode_utc_millis(value: &CanonicalValue) -> (time: Option<UtcMillis>)
    ensures
        match time {
            Some(time) => is_millis(value@) && millis_of(value@) == time@,
            None => !is_millis(value@),
        },
{
    match value {
        CanonicalValue::Unsigned(number) => {
            if *number <= MAX_SAFE_INTEGER {
                UtcMillis::new(*number as i64).ok()
            } else {
                None
            }
        },
        CanonicalValue::Negative(number) => UtcMillis::new(*number).ok(),
        _ => None,
    }
}

/// Reads the text of an identity.
pub fn decode_identity_id(value: &CanonicalValue) -> (identity: Option<IdentityId>)
    ensures
        match identity {
            Some(identity) => {
                &&& is_identity(value@)
                &&& identity_of(value@) == identity@
                &&& identity@.len() == 32
            },
            None => !is_identity(value@),
        },
{
    match value {
        CanonicalValue::Text(text) => match IdentityId::from_text(text.as_str()) {
            Ok(identity) => {
                proof {
                    identity.lemma_len();
                    id::lemma_identity_text(identity@);
                }
                Some(identity)
            },
            Err(_) => None,
        },
        _ => None,
    }
}

/// Reads the text of a device ID.
pub fn decode_device_id(value: &CanonicalValue) -> (device: Option<DeviceId>)
    ensures
        match device {
            Some(device) => is_device(value@) && device_of(value@) == device@,
            None => !is_device(value@),
        },
{
    match value {
        CanonicalValue::Text(text) => match DeviceId::from_text(text.as_str()) {
            Ok(device) => {
                proof {
                    id::lemma_uuid_text(device@);
                }
                Some(device)
            },
            Err(_) => None,
        },
        _ => None,
    }
}

/// Reads a signing key.
pub fn decode_signing_key(value: &CanonicalValue) -> (key: Option<SigningPublicKey>)
    ensures
        match key {
            Some(key) => is_key(value@) && value@ == Value::Bytes(key@),
            None => !is_key(value@),
        },
{
    match decode_exact_bytes::<32>(value) {
        Some(bytes) => match SigningPublicKey::try_from(bytes) {
            Ok(key) => Some(key),
            Err(_) => None,
        },
        None => None,
    }
}

/// Reads an encryption key.
pub fn decode_encryption_key(value: &CanonicalValue) -> (key: Option<DeviceEncryptionPublicKey>)
    ensures
        match key {
            Some(key) => is_key(value@) && value@ == Value::Bytes(key@),
            None => !is_key(value@),
        },
{
    match decode_exact_bytes::<32>(value) {
        Some(bytes) => match DeviceEncryptionPublicKey::try_from(bytes) {
            Ok(key) => Some(key),
            Err(_) => None,
        },
        None => None,
    }
}

/// Reads a signature.
pub fn decode_signature(value: &CanonicalValue) -> (signature: Option<Ed25519Signature>)
    ensures
        match signature {
            Some(signature) => value@ == Value::Bytes(signature@) && signature@.len() == 64,
            None => !is_bytes(value@, 64),
        },
{
    match decode_exact_bytes::<64>(value) {
        Some(bytes) => Some(Ed25519Signature::from_bytes(bytes)),
        None => None,
    }
}

/// Reads a protocol version.
fn decode_protocol_version(value: &CanonicalValue) -> (version: Option<ProtocolVersion>)
    ensures
        match version {
            Some(version) => is_protocol(value@) && protocol_of(value@) == version,
            None => !is_protocol(value@),
        },
{
    let fields = match exact_fields(value, 2) {
        Some(fields) => fields,
        None => {
            return None;
        },
    };
    assert(fields@[0].1@ == record::field_of(value@, 1));
    assert(fields@[1].1@ == record::field_of(value@, 2));
    let major: u64 = match decode_unsigned(&fields[0].1) {
        Some(number) => number,
        None => {
            return None;
        },
    };
    if major > 0xffff {
        return None;
    }
    let minor: u64 = match decode_unsigned(&fields[1].1) {
        Some(number) => number,
        None => {
            return None;
        },
    };
    if minor > 0xffff {
        return None;
    }
    Some((major as u16, minor as u16))
}

/// Reads a supported wire version.
pub fn decode_wire_version(value: &CanonicalValue) -> (wire: Result<WireVersion, IdentityLogError>)
    ensures
        wire == read_wire(value@),
{
    let fields = match exact_fields(value, 2) {
        Some(fields) => fields,
        None => {
            return Err(IdentityLogError::InvalidCanonical);
        },
    };
    assert(fields@[0].1@ == record::field_of(value@, 1));
    assert(fields@[1].1@ == record::field_of(value@, 2));
    let writer: ProtocolVersion = match decode_protocol_version(&fields[0].1) {
        Some(version) => version,
        None => {
            return Err(IdentityLogError::InvalidCanonical);
        },
    };
    let reader: ProtocolVersion = match decode_protocol_version(&fields[1].1) {
        Some(version) => version,
        None => {
            return Err(IdentityLogError::InvalidCanonical);
        },
    };
    let wire: WireVersion = (writer, reader);
    match validate_wire_version(wire) {
        Ok(_) => Ok(wire),
        Err(error) => Err(error),
    }
}

/// Reads and verifies a device certificate.
pub fn decode_device_certificate(value: &CanonicalValue) -> (certificate: Result<
    DeviceCertificateV1,
    IdentityLogError,
>)
    ensures
        match certificate {
            Ok(certificate) => read_certificate(value@) == Ok::<Certificate, IdentityLogError>(
                certificate@,
            ),
            Err(error) => read_certificate(value@) == Err::<Certificate, IdentityLogError>(error),
        },
{
    let fields = match exact_fields(value, 8) {
        Some(fields) => fields,
        None => {
            return Err(IdentityLogError::InvalidCanonical);
        },
    };
    assert(fields@[0].1@ == record::field_of(value@, 1));
    assert(fields@[1].1@ == record::field_of(value@, 2));
    assert(fields@[2].1@ == record::field_of(value@, 3));
    assert(fields@[3].1@ == record::field_of(value@, 4));
    assert(fields@[4].1@ == record::field_of(value@, 5));
    assert(fields@[5].1@ == record::field_of(value@, 6));
    assert(fields@[6].1@ == record::field_of(value@, 7));
    assert(fields@[7].1@ == record::field_of(value@, 8));
    let wire: WireVersion = match decode_wire_version(&fields[0].1) {
        Ok(wire) => wire,
        Err(error) => {
            return Err(error);
        },
    };
    let identity_id: IdentityId = match decode_identity_id(&fields[1].1) {
        Some(identity_id) => identity_id,
        None => {
            return Err(IdentityLogError::InvalidCanonical);
        },
    };
    let device_id: DeviceId = match decode_device_id(&fields[2].1) {
        Some(device_id) => device_id,
        None => {
            return Err(IdentityLogError::InvalidCanonical);
        },
    };
    let device_signing_key: SigningPublicKey = match decode_signing_key(&fields[3].1) {
        Some(device_signing_key) => device_signing_key,
        None => {
            return Err(IdentityLogError::InvalidCanonical);
        },
    };
    let device_encryption_key = match decode_encryption_key(&fields[4].1) {
        Some(device_encryption_key) => device_encryption_key,
        None => {
            return Err(IdentityLogError::InvalidCanonical);
        },
    };
    let issuer_root_key: SigningPublicKey = match decode_signing_key(&fields[5].1) {
        Some(issuer_root_key) => issuer_root_key,
        None => {
            return Err(IdentityLogError::InvalidCanonical);
        },
    };
    let issued_at: UtcMillis = match decode_utc_millis(&fields[6].1) {
        Some(issued_at) => issued_at,
        None => {
            return Err(IdentityLogError::InvalidCanonical);
        },
    };
    let signature: Ed25519Signature = match decode_signature(&fields[7].1) {
        Some(signature) => signature,
        None => {
            return Err(IdentityLogError::InvalidCanonical);
        },
    };
    match UnsignedDeviceCertificateV1::new(
        wire,
        identity_id,
        device_id,
        device_signing_key,
        device_encryption_key,
        issuer_root_key,
        issued_at,
    ) {
        Ok(unsigned) => DeviceCertificateV1::signed(unsigned, signature),
        Err(error) => Err(error),
    }
}

/// Reads the texts of an array.
fn decode_texts(value: &CanonicalValue) -> (texts: Option<Vec<String>>)
    ensures
        match texts {
            Some(texts) => {
                &&& value@ is Array
                &&& are_texts(value@->Array_0)
                &&& relay::texts_view(texts@) == texts_of(value@->Array_0)
            },
            None => !(value@ is Array && are_texts(value@->Array_0)),
        },
{
    let items: &Vec<CanonicalValue> = match value {
        CanonicalValue::Array(items) => items,
        _ => {
            return None;
        },
    };
    proof {
        value::lemma_array_view(*items);
    }
    let ghost models = value::items_view(items@);
    let mut texts: Vec<String> = Vec::new();
    for i in 0..items.len()
        invariant
            models == value::items_view(items@),
            value@ == Value::Array(models),
            texts@.len() == i,
            forall|j: int|
                0 <= j < i ==> (#[trigger] models[j]) is Text && models[j]->Text_0 == texts@[j]@,
    {
        assert(models[i as int] == items@[i as int]@);
        match &items[i] {
            CanonicalValue::Text(text) => {
                texts.push(text.clone());
            },
            _ => {
                return None;
            },
        }
    }
    assert(relay::texts_view(texts@) =~= texts_of(models));
    Some(texts)
}

/// Reads a relay descriptor.
pub fn decode_relay_descriptor(value: &CanonicalValue) -> (descriptor: Result<
    RelayDescriptorV1,
    IdentityLogError,
>)
    ensures
        match descriptor {
            Ok(descriptor) => read_relay(value@) == Ok::<Relay, IdentityLogError>(descriptor@),
            Err(error) => read_relay(value@) == Err::<Relay, IdentityLogError>(error),
        },
{
    let fields = match exact_fields(value, 3) {
        Some(fields) => fields,
        None => {
            return Err(IdentityLogError::InvalidCanonical);
        },
    };
    assert(fields@[0].1@ == record::field_of(value@, 1));
    assert(fields@[1].1@ == record::field_of(value@, 2));
    assert(fields@[2].1@ == record::field_of(value@, 3));
    let wire: WireVersion = match decode_wire_version(&fields[0].1) {
        Ok(wire) => wire,
        Err(error) => {
            return Err(error);
        },
    };
    let relay_urls: Vec<String> = match decode_texts(&fields[1].1) {
        Some(texts) => texts,
        None => {
            return Err(IdentityLogError::InvalidRelayDescriptor);
        },
    };
    let expires_at: UtcMillis = match decode_utc_millis(&fields[2].1) {
        Some(expires_at) => expires_at,
        None => {
            return Err(IdentityLogError::InvalidCanonical);
        },
    };
    RelayDescriptorV1::new(wire, relay_urls, expires_at)
}

/// Reads a transition of a kind on a wire version.
pub fn decode_payload(
    kind: IdentityLogEventKindV1,
    value: &CanonicalValue,
    wire: WireVersion,
) -> (payload: Result<IdentityLogEventPayloadV1, IdentityLogError>)
    ensures
        match payload {
            Ok(payload) => read_payload(kind, value@, wire) == Ok::<Payload, IdentityLogError>(
                payload@,
            ),
            Err(error) => read_payload(kind, value@, wire) == Err::<Payload, IdentityLogError>(
                error,
            ),
        },
{
    let current = match identity_log_wire_line(wire) {
        Ok(IdentityLogWireLine::CurrentV1_1) => true,
        Ok(IdentityLogWireLine::FrozenV1_0) => false,
        Err(error) => {
            if kind == IdentityLogEventKindV1::RecoveryRotate {
                return Err(error);
            }
            false
        },
    };
    let width: usize = match kind {
        IdentityLogEventKindV1::Genesis => 3,
        IdentityLogEventKindV1::DeviceAdd => 1,
        IdentityLogEventKindV1::DeviceRevoke => 1,
        IdentityLogEventKindV1::RootRotate => 2,
        IdentityLogEventKindV1::RecoveryRotate => if current {
            3
        } else {
            2
        },
        IdentityLogEventKindV1::RecoveryRestore => 4,
        IdentityLogEventKindV1::RelayDescriptor => 1,
    };
    let fields = match exact_fields(value, width) {
        Some(fields) => fields,
        None => {
            return Err(IdentityLogError::InvalidCanonical);
        },
    };
    assert(fields@[0].1@ == record::field_of(value@, 1));
    assert(width >= 2 ==> fields@[1].1@ == record::field_of(value@, 2));
    assert(width >= 3 ==> fields@[2].1@ == record::field_of(value@, 3));
    assert(width >= 4 ==> fields@[3].1@ == record::field_of(value@, 4));
    match kind {
        IdentityLogEventKindV1::Genesis => {
            match (
                decode_signing_key(&fields[0].1),
                decode_signing_key(&fields[1].1),
                decode_signature(&fields[2].1),
            ) {
                (
                    Some(root_signing_key),
                    Some(recovery_signing_key),
                    Some(recovery_acceptance_signature),
                ) => Ok(
                    IdentityLogEventPayloadV1::Genesis {
                        root_signing_key,
                        recovery_signing_key,
                        recovery_acceptance_signature,
                    },
                ),
                _ => Err(IdentityLogError::InvalidCanonical),
            }
        },
        IdentityLogEventKindV1::DeviceAdd => {
            match decode_device_certificate(&fields[0].1) {
                Ok(certificate) => Ok(IdentityLogEventPayloadV1::DeviceAdd { certificate }),
                Err(error) => Err(error),
            }
        },
        IdentityLogEventKindV1::DeviceRevoke => {
            match decode_device_id(&fields[0].1) {
                Some(device_id) => Ok(IdentityLogEventPayloadV1::DeviceRevoke { device_id }),
                None => Err(IdentityLogError::InvalidCanonical),
            }
        },
        IdentityLogEventKindV1::RootRotate => {
            match (decode_signing_key(&fields[0].1), decode_signature(&fields[1].1)) {
                (Some(new_root_signing_key), Some(acceptance_signature)) => Ok(
                    IdentityLogEventPayloadV1::RootRotate {
                        new_root_signing_key,
                        acceptance_signature,
                    },
                ),
                _ => Err(IdentityLogError::InvalidCanonical),
            }
        },
        IdentityLogEventKindV1::RecoveryRotate => {
            match (decode_signing_key(&fields[0].1), decode_signature(&fields[1].1)) {
                (Some(new_recovery_signing_key), Some(acceptance_signature)) => {
                    if !current {
                        return Ok(
                            IdentityLogEventPayloadV1::RecoveryRotate {
                                new_recovery_signing_key,
                                acceptance_signature,
                                recovery_authorization_signature: None,
                            },
                        );
                    }
                    match decode_signature(&fields[2].1) {
                        Some(signature) => Ok(
                            IdentityLogEventPayloadV1::RecoveryRotate {
                                new_recovery_signing_key,
                                acceptance_signature,
                                recovery_authorization_signature: Some(signature),
                            },
                        ),
                        None => Err(IdentityLogError::InvalidCanonical),
                    }
                },
                _ => Err(IdentityLogError::InvalidCanonical),
            }
        },
        IdentityLogEventKindV1::RecoveryRestore => {
            match (
                decode_signing_key(&fields[0].1),
                decode_signing_key(&fields[1].1),
                decode_signature(&fields[2].1),
                decode_signature(&fields[3].1),
            ) {
                (
                    Some(new_root_signing_key),
                    Some(new_recovery_signing_key),
                    Some(root_acceptance_signature),
                    Some(recovery_acceptance_signature),
                ) => Ok(
                    IdentityLogEventPayloadV1::RecoveryRestore {
                        new_root_signing_key,
                        new_recovery_signing_key,
                        root_acceptance_signature,
                        recovery_acceptance_signature,
                    },
                ),
                _ => Err(IdentityLogError::InvalidCanonical),
            }
        },
        IdentityLogEventKindV1::RelayDescriptor => {
            match decode_relay_descriptor(&fields[0].1) {
                Ok(descriptor) => Ok(IdentityLogEventPayloadV1::RelayDescriptor { descriptor }),
                Err(error) => Err(error),
            }
        },
    }
}

} // verus!
