//! Deterministic CBOR: the one byte form of a canonical value.

use vstd::prelude::*;
use vstd::utf8::*;
use crate::wire::bytes;
use crate::wire::value::Value;

verus! {

/// The deepest nesting of arrays and maps that has a byte form.
pub const MAX_CANONICAL_DEPTH: usize = 32;

/// The big-endian bytes of `n` in two bytes.
pub open spec fn be2(n: u64) -> Seq<u8> {
    seq![(n >> 8) as u8, n as u8]
}

/// The big-endian bytes of `n` in four bytes.
pub open spec fn be4(n: u64) -> Seq<u8> {
    seq![(n >> 24) as u8, (n >> 16) as u8, (n >> 8) as u8, n as u8]
}

/// The big-endian bytes of `n` in eight bytes.
pub open spec fn be8(n: u64) -> Seq<u8> {
    seq![
        (n >> 56) as u8,
        (n >> 48) as u8,
        (n >> 40) as u8,
        (n >> 32) as u8,
        (n >> 24) as u8,
        (n >> 16) as u8,
        (n >> 8) as u8,
        n as u8,
    ]
}

/// The shortest head of an item of type `major` with argument `n`.
pub open spec fn head(major: u8, n: u64) -> Seq<u8> {
    if n < 24 {
        seq![(major * 32 + n) as u8]
    } else if n < 0x100 {
        seq![(major * 32 + 24) as u8, n as u8]
    } else if n < 0x1_0000 {
        seq![(major * 32 + 25) as u8] + be2(n)
    } else if n < 0x1_0000_0000 {
        seq![(major * 32 + 26) as u8] + be4(n)
    } else {
        seq![(major * 32 + 27) as u8] + be8(n)
    }
}

/// The major type of a value.
pub open spec fn major_of(value: Value) -> u8 {
    match value {
        Value::Unsigned(_) => 0,
        Value::Negative(_) => 1,
        Value::Bytes(_) => 2,
        Value::Text(_) => 3,
        Value::Array(_) => 4,
        Value::Entries(_) => 5,
        Value::Bool(_) => 7,
        Value::Null => 7,
    }
}

/// The argument in the head of a value.
pub open spec fn argument_of(value: Value) -> int {
    match value {
        Value::Unsigned(number) => number as int,
        Value::Negative(number) => -1 - number,
        Value::Bytes(bytes) => bytes.len() as int,
        Value::Text(text) => encode_utf8(text).len() as int,
        Value::Array(items) => items.len() as int,
        Value::Entries(pairs) => pairs.len() as int,
        Value::Bool(flag) => if flag { 21 } else { 20 },
        Value::Null => 22,
    }
}

/// The byte form of a value.
pub open spec fn encoding(value: Value) -> Seq<u8>
    decreases value,
{
    head(major_of(value), argument_of(value) as u64) + match value {
        Value::Bytes(bytes) => bytes,
        Value::Text(text) => encode_utf8(text),
        Value::Array(items) => items_encoding(items),
        Value::Entries(pairs) => pairs_encoding(pairs),
        _ => Seq::empty(),
    }
}

/// The byte forms of a list of values, one after the other.
pub open spec fn items_encoding(items: Seq<Value>) -> Seq<u8>
    decreases items,
{
    if items.len() == 0 {
        Seq::empty()
    } else {
        encoding(items[0]) + items_encoding(items.drop_first())
    }
}

/// The byte forms of a list of pairs, each key before its value.
pub open spec fn pairs_encoding(pairs: Seq<(Value, Value)>) -> Seq<u8>
    decreases pairs,
{
    if pairs.len() == 0 {
        Seq::empty()
    } else {
        encoding(pairs[0].0) + encoding(pairs[0].1) + pairs_encoding(pairs.drop_first())
    }
}

/// The key at `i` comes strictly before the next key, bytewise in byte form.
pub open spec fn key_ascends(pairs: Seq<(Value, Value)>, i: int) -> bool {
    bytes::lex_lt(encoding(pairs[i].0), encoding(pairs[i + 1].0))
}

/// A value has a deterministic byte form: numbers and lengths fit their heads,
/// map keys ascend strictly, and at most `depth` levels of arrays and maps are
/// nested.
pub open spec fn canonical_within(value: Value, depth: nat) -> bool
    decreases depth,
{
    match value {
        Value::Negative(number) => number < 0,
        Value::Bytes(bytes) => bytes.len() <= u64::MAX,
        Value::Text(text) => encode_utf8(text).len() <= u64::MAX,
        Value::Array(items) => {
            &&& depth > 0
            &&& items.len() <= u64::MAX
            &&& forall|i: int|
                0 <= i < items.len() ==> canonical_within(#[trigger] items[i], (depth - 1) as nat)
        },
        Value::Entries(pairs) => {
            &&& depth > 0
            &&& pairs.len() <= u64::MAX
            &&& forall|i: int|
                0 <= i < pairs.len() ==> {
                    &&& canonical_within((#[trigger] pairs[i]).0, (depth - 1) as nat)
                    &&& canonical_within(pairs[i].1, (depth - 1) as nat)
                }
            &&& forall|i: int| 0 <= i < pairs.len() - 1 ==> #[trigger] key_ascends(pairs, i)
        },
        _ => true,
    }
}

/// A value has a deterministic byte form.
pub open spec fn canonical(value: Value) -> bool {
    canonical_within(value, MAX_CANONICAL_DEPTH as nat)
}

/// The bytes are the byte form of a canonical value.
pub open spec fn is_encoded(bytes: Seq<u8>) -> bool {
    exists|value: Value| #[trigger] canonical(value) && encoding(value) == bytes
}

/// The canonical value with the given byte form.
pub open spec fn decoded(bytes: Seq<u8>) -> Value {
    choose|value: Value| #[trigger] canonical(value) && encoding(value) == bytes
}

} // verus!
