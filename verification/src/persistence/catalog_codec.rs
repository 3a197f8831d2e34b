//! Readers of the fields of recovery-scope catalog commands.

use vstd::prelude::*;
use vstd::utf8::*;
use crate::outside;
use crate::outside::uuid_to_text;
use crate::persistence::error::IdentityPersistenceError;
use crate::persistence::fields;
use crate::persistence::fields::read_uuid;
use crate::wire::bytes::{append_bytes, to_array, to_vec};
use crate::wire::cbor;
use crate::wire::codec::encode_value;
use crate::wire::digest::Sha256Digest;
use crate::wire::id;
use crate::wire::id::{DeviceEnrollmentChallengeId, DeviceId, IdentityId};
use crate::wire::key::{Ed25519Signature, SigningPublicKey};
use crate::wire::number;
use crate::wire::number::{SafeUint, UtcMillis, MAX_SAFE_INTEGER};
use crate::wire::record;
use crate::wire::record::exact_fields;
use crate::wire::text;
use crate::wire::text::text_equal;
use crate::wire::value;
use crate::wire::value::{CanonicalValue, Value};

verus! {

/// The refusal of a malformed command.
pub open spec fn refused(label: &'static str) -> IdentityPersistenceError {
    IdentityPersistenceError::InvalidCommand(label)
}

/// Why a value is not a map with the keys one to `count` in order.
pub open spec fn numbering_fault(value: Value, count: nat) -> Option<IdentityPersistenceError> {
    if !(value is Entries) {
        Some(refused("numbered CBOR map"))
    } else if value->Entries_0.len() != count {
        Some(refused("numbered CBOR field count"))
    } else if !record::is_record(value, count) {
        Some(refused("numbered CBOR keys"))
    } else {
        None
    }
}

/// The values of a map with the keys one to `count` in order.
pub fn numbered_fields(value: &CanonicalValue, count: usize) -> (read: Result<
    Vec<&CanonicalValue>,
    IdentityPersistenceError,
>)
    ensures
        match read {
            Ok(read) => {
                &&& numbering_fault(value@, count as nat) is None
                &&& read@.len() == count
                &&& forall|i: int|
                    0 <= i < count ==> (#[trigger] read@[i])@ == record::field_of(value@, i + 1)
            },
            Err(error) => numbering_fault(value@, count as nat) == Some(error),
        },
{
    let pairs = match value {
        CanonicalValue::Entries(pairs) => pairs,
        _ => {
            return Err(IdentityPersistenceError::InvalidCommand("numbered CBOR map"));
        },
    };
    proof {
        value::lemma_entries_view(*pairs);
    }
    if pairs.len() != count {
        return Err(IdentityPersistenceError::InvalidCommand("numbered CBOR field count"));
    }
    let pairs = match exact_fields(value, count) {
        Some(pairs) => pairs,
        None => {
            return Err(IdentityPersistenceError::InvalidCommand("numbered CBOR keys"));
        },
    };
    let mut read: Vec<&CanonicalValue> = Vec::new();
    for i in 0..count
        invariant
            pairs@.len() == count,
            read@.len() == i,
            forall|j: int|
                0 <= j < count ==> (#[trigger] pairs@[j]).1@ == record::field_of(value@, j + 1),
            forall|j: int|
                0 <= j < i ==> (#[trigger] read@[j])@ == record::field_of(value@, j + 1),
    {
        assert(pairs@[i as int].1@ == record::field_of(value@, i + 1));
        read.push(&pairs[i].1);
    }
    Ok(read)
}

/// Reads an identity.
pub fn parse_identity(value: &CanonicalValue) -> (read: Result<
    IdentityId,
    IdentityPersistenceError,
>)
    ensures
        match read {
            Ok(read) => value@ == Value::Text(text::hex(read@)),
            Err(error) => {
                &&& !(value@ is Text && id::is_identity_text(value@->Text_0))
                &&& error == refused("identity ID")
            },
        },
{
    match value {
        CanonicalValue::Text(text) => match IdentityId::from_text(text.as_str()) {
            Ok(read) => Ok(read),
            Err(_) => Err(IdentityPersistenceError::InvalidCommand("identity ID")),
        },
        _ => Err(IdentityPersistenceError::InvalidCommand("identity ID")),
    }
}

/// Reads a device.
pub fn parse_device(value: &CanonicalValue) -> (read: Result<DeviceId, IdentityPersistenceError>)
    ensures
        match read {
            Ok(read) => id::is_uuid_v7(read@) && value@ == Value::Text(text::hyphenated(read@)),
            Err(error) => {
                &&& !(value@ is Text && id::is_uuid_text(value@->Text_0))
                &&& error == refused("device ID")
            },
        },
{
    match value {
        CanonicalValue::Text(text) => match DeviceId::from_text(text.as_str()) {
            Ok(read) => Ok(read),
            Err(_) => Err(IdentityPersistenceError::InvalidCommand("device ID")),
        },
        _ => Err(IdentityPersistenceError::InvalidCommand("device ID")),
    }
}

/// Reads the ID of an enrollment request.
pub fn parse_challenge(value: &CanonicalValue) -> (read: Result<
    DeviceEnrollmentChallengeId,
    IdentityPersistenceError,
>)
    ensures
        match read {
            Ok(read) => id::is_uuid_v7(read@) && value@ == Value::Text(text::hyphenated(read@)),
            Err(error) => {
                &&& !(value@ is Text && id::is_uuid_text(value@->Text_0))
                &&& error == refused("request ID")
            },
        },
{
    match value {
        CanonicalValue::Text(text) => match DeviceEnrollmentChallengeId::from_text(text.as_str()) {
            Ok(read) => Ok(read),
            Err(_) => Err(IdentityPersistenceError::InvalidCommand("request ID")),
        },
        _ => Err(IdentityPersistenceError::InvalidCommand("request ID")),
    }
}

/// Reads a UUID in any of its text forms.
pub fn parse_uuid(value: &CanonicalValue) -> (read: Result<[u8; 16], IdentityPersistenceError>)
    ensures
        match read {
            Ok(read) => value@ is Text && outside::uuid_parsed(value@->Text_0) == Some(read@),
            Err(error) => !fields::is_uuid(value@) && error == refused("UUID"),
        },
{
    match read_uuid(value) {
        Some(read) => Ok(read),
        None => Err(IdentityPersistenceError::InvalidCommand("UUID")),
    }
}

/// Why a value is not the canonical text of a time-ordered UUID: what is no
/// UUID at all is told apart from what is another one.
pub open spec fn uuid_v7_fault(value: Value, label: &'static str) -> Option<
    IdentityPersistenceError,
> {
    if !(value is Text) {
        Some(refused(label))
    } else if !fields::is_uuid(value) {
        Some(refused("UUID"))
    } else if !id::is_uuid_text(value->Text_0) {
        Some(refused(label))
    } else {
        None
    }
}

/// Reads the canonical text of a time-ordered UUID.
pub fn parse_uuid_v7(value: &CanonicalValue, label: &'static str) -> (read: Result<
    [u8; 16],
    IdentityPersistenceError,
>)
    ensures
        match read {
            Ok(read) => {
                &&& id::is_uuid_v7(read@)
                &&& value@ == Value::Text(text::hyphenated(read@))
            },
            Err(error) => uuid_v7_fault(value@, label) == Some(error),
        },
{
    let text = match value {
        CanonicalValue::Text(text) => text,
        _ => {
            return Err(IdentityPersistenceError::InvalidCommand(label));
        },
    };
    let raw = match read_uuid(value) {
        Some(raw) => raw,
        None => {
            return Err(IdentityPersistenceError::InvalidCommand("UUID"));
        },
    };
    if raw[6] / 16 != 7 || raw[8] / 64 != 2 || !text_equal(
        uuid_to_text(&raw).as_str(),
        text.as_str(),
    ) {
        proof {
            if id::is_uuid_text(value@->Text_0) {
                let found = id::uuid_of_text(value@->Text_0);
                assert(id::is_uuid_v7(found) && text::hyphenated(found) == value@->Text_0);
                assert(value@ == Value::Text(text::hyphenated(found)));
            }
        }
        return Err(IdentityPersistenceError::InvalidCommand(label));
    }
    Ok(raw)
}

/// Reads a number in the safe range.
pub fn parse_safe_uint(value: &CanonicalValue) -> (read: Result<SafeUint, IdentityPersistenceError>)
    ensures
        match read {
            Ok(read) => value@ == Value::Unsigned(read@) && read@ <= MAX_SAFE_INTEGER,
            Err(error) => {
                &&& !(value@ is Unsigned && value@->Unsigned_0 <= MAX_SAFE_INTEGER)
                &&& error == refused("safe uint")
            },
        },
{
    match value {
        CanonicalValue::Unsigned(number) => match SafeUint::new(*number) {
            Ok(read) => Ok(read),
            Err(_) => Err(IdentityPersistenceError::InvalidCommand("safe uint")),
        },
        _ => Err(IdentityPersistenceError::InvalidCommand("safe uint")),
    }
}

/// Reads a positive number in the safe range.
pub fn parse_positive_safe_uint(value: &CanonicalValue) -> (read: Result<
    SafeUint,
    IdentityPersistenceError,
>)
    ensures
        match read {
            Ok(read) => value@ == Value::Unsigned(read@) && 0 < read@ <= MAX_SAFE_INTEGER,
            Err(error) => if value@ == Value::Unsigned(0) {
                error == refused("positive uint")
            } else {
                &&& !(value@ is Unsigned && value@->Unsigned_0 <= MAX_SAFE_INTEGER)
                &&& error == refused("safe uint")
            },
        },
{
    match parse_safe_uint(value) {
        Ok(read) => {
            if read.get() == 0 {
                Err(IdentityPersistenceError::InvalidCommand("positive uint"))
            } else {
                Ok(read)
            }
        },
        Err(error) => Err(error),
    }
}

/// Reads a time; none is before the epoch.
pub fn parse_utc(value: &CanonicalValue) -> (read: Result<UtcMillis, IdentityPersistenceError>)
    ensures
        match read {
            Ok(read) => {
                &&& value@ is Unsigned
                &&& number::is_utc_millis(value@->Unsigned_0 as int)
                &&& read@ == value@->Unsigned_0
            },
            Err(error) => {
                &&& !(value@ is Unsigned && number::is_utc_millis(value@->Unsigned_0 as int))
                &&& error == refused("UTC millis")
            },
        },
{
    match value {
        CanonicalValue::Unsigned(number) => {
            if *number > 0x7fff_ffff_ffff_ffff {
                return Err(IdentityPersistenceError::InvalidCommand("UTC millis"));
            }
            match UtcMillis::new(*number as i64) {
                Ok(read) => Ok(read),
                Err(_) => Err(IdentityPersistenceError::InvalidCommand("UTC millis")),
            }
        },
        _ => Err(IdentityPersistenceError::InvalidCommand("UTC millis")),
    }
}

/// Reads exactly `N` bytes.
pub fn parse_fixed<const N: usize>(value: &CanonicalValue) -> (read: Result<
    [u8; N],
    IdentityPersistenceError,
>)
    ensures
        match read {
            Ok(read) => value@ == Value::Bytes(read@),
            Err(error) => !fields::is_fixed(value@, N as nat) && error == refused("fixed bytes"),
        },
{
    match value {
        CanonicalValue::Bytes(bytes) => match to_array::<N>(bytes.as_slice()) {
            Some(read) => Ok(read),
            None => Err(IdentityPersistenceError::InvalidCommand("fixed bytes")),
        },
        _ => Err(IdentityPersistenceError::InvalidCommand("fixed bytes")),
    }
}

/// Reads a digest.
pub fn parse_digest(value: &CanonicalValue) -> (read: Result<
    Sha256Digest,
    IdentityPersistenceError,
>)
    ensures
        match read {
            Ok(read) => value@ == Value::Bytes(read@),
            Err(error) => !fields::is_fixed(value@, 32) && error == refused("fixed bytes"),
        },
{
    match parse_fixed::<32>(value) {
        Ok(bytes) => Ok(Sha256Digest::from_bytes(bytes)),
        Err(error) => Err(error),
    }
}

/// Reads a digest or null.
pub fn parse_optional_digest(value: &CanonicalValue) -> (read: Result<
    Option<Sha256Digest>,
    IdentityPersistenceError,
>)
    ensures
        match read {
            Ok(Some(read)) => value@ == Value::Bytes(read@),
            Ok(None) => value@ is Null,
            Err(error) => {
                &&& !(value@ is Null) && !fields::is_fixed(value@, 32)
                &&& error == refused("fixed bytes")
            },
        },
{
    match value {
        CanonicalValue::Null => Ok(None),
        _ => match parse_digest(value) {
            Ok(digest) => Ok(Some(digest)),
            Err(error) => Err(error),
        },
    }
}

/// Reads a signature.
pub fn parse_signature(value: &CanonicalValue) -> (read: Result<
    Ed25519Signature,
    IdentityPersistenceError,
>)
    ensures
        match read {
            Ok(read) => value@ == Value::Bytes(read@),
            Err(error) => !fields::is_fixed(value@, 64) && error == refused("fixed bytes"),
        },
{
    match parse_fixed::<64>(value) {
        Ok(bytes) => Ok(Ed25519Signature::from_bytes(bytes)),
        Err(error) => Err(error),
    }
}

/// Reads at least one and at most `max` bytes.
pub fn parse_bounded_bytes(value: &CanonicalValue, max: usize) -> (read: Result<
    Vec<u8>,
    IdentityPersistenceError,
>)
    ensures
        match read {
            Ok(read) => value@ == Value::Bytes(read@) && 0 < read@.len() <= max,
            Err(error) => {
                &&& !fields::is_bytes_within(value@, max)
                &&& error == refused("bounded bytes")
            },
        },
{
    match value {
        CanonicalValue::Bytes(bytes) => {
            if bytes.len() == 0 || bytes.len() > max {
                Err(IdentityPersistenceError::InvalidCommand("bounded bytes"))
            } else {
                Ok(to_vec(bytes.as_slice()))
            }
        },
        _ => Err(IdentityPersistenceError::InvalidCommand("bounded bytes")),
    }
}

/// Why a key does not sign an unsigned command, given the most bytes that the
/// command may have.
pub open spec fn signature_fault(
    key: Seq<u8>,
    domain: Seq<char>,
    unsigned: Value,
    signature: Seq<u8>,
    limit: usize,
) -> Option<IdentityPersistenceError> {
    if !cbor::canonical(unsigned) || cbor::encoding(unsigned).len() > limit {
        Some(refused("signature input"))
    } else if !outside::ed25519_key_accepted(key) {
        Some(refused("signing key"))
    } else if !outside::ed25519_accepted(
        key,
        encode_utf8(domain) + cbor::encoding(unsigned),
        signature,
    ) {
        Some(refused("signature"))
    } else {
        None
    }
}

/// Checks that a key signs an unsigned command of at most `limit` bytes.
pub fn verify_signature(
    key: SigningPublicKey,
    domain: &str,
    unsigned: &CanonicalValue,
    signature: Ed25519Signature,
    limit: usize,
) -> (verified: Result<(), IdentityPersistenceError>)
    ensures
        verified == match signature_fault(key@, domain@, unsigned@, signature@, limit) {
            Some(error) => Err::<(), IdentityPersistenceError>(error),
            None => Ok(()),
        },
{
    let bytes = match encode_value(unsigned) {
        Ok(bytes) => bytes,
        Err(_) => {
            return Err(IdentityPersistenceError::InvalidCommand("signature input"));
        },
    };
    if bytes.len() > limit {
        return Err(IdentityPersistenceError::InvalidCommand("signature input"));
    }
    let mut input: Vec<u8> = to_vec(domain.as_bytes());
    append_bytes(&mut input, bytes.as_slice());
    if !outside::accepts_verifying_key(key.as_bytes()) {
        return Err(IdentityPersistenceError::InvalidCommand("signing key"));
    }
    if outside::verify(key.as_bytes(), input.as_slice(), signature.as_bytes()) {
        Ok(())
    } else {
        Err(IdentityPersistenceError::InvalidCommand("signature"))
    }
}

} // verus!
