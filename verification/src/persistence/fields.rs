//! Reading the fields of recovery records.

use vstd::prelude::*;
use crate::outside;
use crate::outside::uuid_from_text;
use crate::persistence::error::IdentityPersistenceError;
use crate::wire::bytes::{bytes_equal, to_array, to_vec};
use crate::wire::digest;
use crate::wire::digest::Sha256Digest;
use crate::wire::number;
use crate::wire::number::UtcMillis;
use crate::wire::record;
use crate::wire::text;
use crate::wire::text::text_equal;
use crate::wire::value;
use crate::wire::value::{CanonicalValue, Value};

verus! {

/// The value is a text that holds a UUID.
pub open spec fn is_uuid(value: Value) -> bool {
    value is Text && outside::uuid_parsed(value->Text_0) is Some
}

/// The UUID that a text holds.
pub open spec fn uuid_of(value: Value) -> Seq<u8> {
    outside::uuid_parsed(value->Text_0)->0
}

/// Both values hold the same UUID.
pub open spec fn same_uuid(a: Value, b: Value) -> bool {
    is_uuid(a) && is_uuid(b) && uuid_of(a) == uuid_of(b)
}

/// The value is a byte string of at least one and at most `max` bytes.
pub open spec fn is_bytes_within(value: Value, max: usize) -> bool {
    value is Bytes && 0 < value->Bytes_0.len() <= max
}

/// The value is a byte string of exactly `len` bytes.
pub open spec fn is_fixed(value: Value, len: nat) -> bool {
    value is Bytes && value->Bytes_0.len() == len
}

/// The value is a number that, read as a signed one, is a time.
pub open spec fn is_time(value: Value) -> bool {
    value is Unsigned && number::is_utc_millis(value->Unsigned_0 as i64 as int)
}

/// The value is a number, a byte string or a text.
pub open spec fn is_scalar(value: Value) -> bool {
    value is Unsigned || value is Bytes || value is Text
}

/// Why a value is no digest.
pub open spec fn digest_error(value: Value) -> Option<IdentityPersistenceError> {
    if !is_bytes_within(value, 32) {
        Some(IdentityPersistenceError::RecoveryCompletionInvalid)
    } else if value->Bytes_0.len() != 32 {
        Some(IdentityPersistenceError::CorruptData("completion digest"))
    } else {
        None
    }
}

/// The byte string has the digest under the domain.
pub open spec fn is_digest_of(digest: Value, domain: Seq<char>, content: Value) -> bool {
    digest == Value::Bytes(digest::hash_in_domain(domain, content->Bytes_0))
}

/// Reads a time, as a signed number, from an unsigned field.
pub fn read_time(value: &CanonicalValue) -> (time: Option<UtcMillis>)
    ensures
        match time {
            Some(time) => {
                &&& value@ is Unsigned
                &&& number::is_utc_millis(value@->Unsigned_0 as i64 as int)
                &&& time@ == value@->Unsigned_0 as i64
            },
            None => !(value@ is Unsigned) || !number::is_utc_millis(
                value@->Unsigned_0 as i64 as int,
            ),
        },
{
    match value {
        CanonicalValue::Unsigned(number) => match UtcMillis::new(*number as i64) {
            Ok(time) => Some(time),
            Err(_) => None,
        },
        _ => None,
    }
}

/// Reads a UUID from a text field.
///
/// The hyphenated text of any sixteen bytes is read back as those bytes.
pub fn read_uuid(value: &CanonicalValue) -> (id: Option<[u8; 16]>)
    ensures
        match id {
            Some(id) => value@ is Text && outside::uuid_parsed(value@->Text_0) == Some(id@),
            None => !(value@ is Text) || outside::uuid_parsed(value@->Text_0) is None,
        },
        forall|raw: Seq<u8>|
            raw.len() == 16 && value@ == Value::Text(#[trigger] text::hyphenated(raw)) ==> id
                is Some && id->0@ == raw,
{
    match value {
        CanonicalValue::Text(text) => uuid_from_text(text.as_str()),
        _ => None,
    }
}

/// The field of a record under `key`.
pub fn field(value: &CanonicalValue, key: usize) -> (field: &CanonicalValue)
    requires
        value@ is Entries,
        1 <= key <= value@->Entries_0.len(),
    ensures
        field@ == record::field_of(value@, key as int),
{
    match value {
        CanonicalValue::Entries(pairs) => {
            proof {
                value::lemma_entries_view(*pairs);
            }
            &pairs[key - 1].1
        },
        _ => value,
    }
}

/// Whether the value holds a UUID.
pub fn holds_uuid(value: &CanonicalValue) -> (holds: bool)
    ensures
        holds == is_uuid(value@),
{
    match read_uuid(value) {
        Some(_) => true,
        None => false,
    }
}

/// Whether both values hold the same UUID.
pub fn hold_same_uuid(a: &CanonicalValue, b: &CanonicalValue) -> (same: bool)
    ensures
        same == same_uuid(a@, b@),
{
    match (read_uuid(a), read_uuid(b)) {
        (Some(a), Some(b)) => bytes_equal(&a, &b),
        _ => false,
    }
}

/// Whether the value is a text.
pub fn holds_text(value: &CanonicalValue) -> (holds: bool)
    ensures
        holds == (value@ is Text),
{
    match value {
        CanonicalValue::Text(_) => true,
        _ => false,
    }
}

/// The number that a value holds.
pub fn read_number(value: &CanonicalValue) -> (number: Option<u64>)
    ensures
        match number {
            Some(number) => value@ == Value::Unsigned(number),
            None => !(value@ is Unsigned),
        },
{
    match value {
        CanonicalValue::Unsigned(number) => Some(*number),
        _ => None,
    }
}

/// Whether the value is a number.
pub fn holds_number(value: &CanonicalValue) -> (holds: bool)
    ensures
        holds == (value@ is Unsigned),
{
    match value {
        CanonicalValue::Unsigned(_) => true,
        _ => false,
    }
}

/// Whether the value is exactly `number`.
pub fn is_number(value: &CanonicalValue, number: u64) -> (is: bool)
    ensures
        is == (value@ == Value::Unsigned(number)),
{
    match value {
        CanonicalValue::Unsigned(found) => *found == number,
        _ => false,
    }
}

/// Whether a value is the text.
pub fn is_text(value: &CanonicalValue, text: &str) -> (is: bool)
    ensures
        is == (value@ == Value::Text(text@)),
{
    match value {
        CanonicalValue::Text(found) => text_equal(found.as_str(), text),
        _ => false,
    }
}

/// Whether the value is a byte string of at least one and at most `max` bytes.
pub fn holds_bytes(value: &CanonicalValue, max: usize) -> (holds: bool)
    ensures
        holds == is_bytes_within(value@, max),
{
    match value {
        CanonicalValue::Bytes(bytes) => bytes.len() > 0 && bytes.len() <= max,
        _ => false,
    }
}

/// Whether the value is a byte string of exactly `len` bytes.
pub fn holds_fixed(value: &CanonicalValue, len: usize) -> (holds: bool)
    ensures
        holds == is_fixed(value@, len as nat),
{
    match value {
        CanonicalValue::Bytes(bytes) => bytes.len() == len,
        _ => false,
    }
}

/// Whether the value is a time.
pub fn holds_time(value: &CanonicalValue) -> (holds: bool)
    ensures
        holds == is_time(value@),
{
    match read_time(value) {
        Some(_) => true,
        None => false,
    }
}

/// Why a value is no digest, if it is none.
pub fn digest_fault(value: &CanonicalValue) -> (fault: Option<IdentityPersistenceError>)
    ensures
        fault == digest_error(value@),
{
    if !holds_bytes(value, 32) {
        Some(IdentityPersistenceError::RecoveryCompletionInvalid)
    } else if !holds_fixed(value, 32) {
        Some(IdentityPersistenceError::CorruptData("completion digest"))
    } else {
        None
    }
}

/// Whether both values are the same number, byte string or text.
pub fn same_scalar(a: &CanonicalValue, b: &CanonicalValue) -> (same: bool)
    ensures
        same == (is_scalar(b@) && a@ == b@),
{
    match (a, b) {
        (CanonicalValue::Unsigned(a), CanonicalValue::Unsigned(b)) => *a == *b,
        (CanonicalValue::Bytes(a), CanonicalValue::Bytes(b)) => bytes_equal(
            a.as_slice(),
            b.as_slice(),
        ),
        (CanonicalValue::Text(a), CanonicalValue::Text(b)) => text_equal(a.as_str(), b.as_str()),
        _ => false,
    }
}

/// The bytes of a byte string.
pub fn bytes_of(value: &CanonicalValue) -> (bytes: Vec<u8>)
    requires
        value@ is Bytes,
    ensures
        bytes@ == value@->Bytes_0,
{
    match value {
        CanonicalValue::Bytes(bytes) => to_vec(bytes.as_slice()),
        _ => Vec::new(),
    }
}

/// The text of a text value.
pub fn text_of(value: &CanonicalValue) -> (text: String)
    requires
        value@ is Text,
    ensures
        text@ == value@->Text_0,
{
    match value {
        CanonicalValue::Text(text) => text.clone(),
        _ => String::new(),
    }
}

/// The number of a number value.
pub fn number_of(value: &CanonicalValue) -> (number: u64)
    requires
        value@ is Unsigned,
    ensures
        number == value@->Unsigned_0,
{
    match value {
        CanonicalValue::Unsigned(number) => *number,
        _ => 0,
    }
}

/// The bytes of a byte string of `N` bytes.
pub fn fixed_of<const N: usize>(value: &CanonicalValue) -> (bytes: [u8; N])
    requires
        is_fixed(value@, N as nat),
    ensures
        bytes@ == value@->Bytes_0,
{
    match value {
        CanonicalValue::Bytes(bytes) => match to_array::<N>(bytes.as_slice()) {
            Some(bytes) => bytes,
            None => [0u8; N],
        },
        _ => [0u8; N],
    }
}

/// The digest that a byte string of 32 bytes holds.
pub fn digest_of(value: &CanonicalValue) -> (digest: Sha256Digest)
    requires
        digest_error(value@) is None,
    ensures
        digest@ == value@->Bytes_0,
{
    Sha256Digest::from_bytes(fixed_of::<32>(value))
}

/// Whether the value is exactly this digest.
pub fn is_digest(value: &CanonicalValue, digest: &Sha256Digest) -> (is: bool)
    ensures
        is == (value@ == Value::Bytes(digest@)),
{
    match value {
        CanonicalValue::Bytes(bytes) => bytes_equal(bytes.as_slice(), digest.as_bytes()),
        _ => false,
    }
}

/// Whether a digest is that of a byte string under a domain.
pub fn has_digest(digest: &CanonicalValue, domain: &str, content: &CanonicalValue) -> (has: bool)
    requires
        content@ is Bytes,
    ensures
        has == is_digest_of(digest@, domain@, content@),
{
    match content {
        CanonicalValue::Bytes(bytes) => is_digest(
            digest,
            &Sha256Digest::hash_domain(domain, bytes.as_slice()),
        ),
        _ => false,
    }
}

} // verus!
