//! Records: maps whose keys are the numbers one to their length.

use vstd::prelude::*;
use crate::wire::bytes;
use crate::wire::cbor;
use crate::wire::codec::{encode_value, CanonicalError};
use crate::wire::text;
use crate::wire::value;
use crate::wire::value::{CanonicalValue, Value};

verus! {

/// The record with the given fields, the first under key one.
pub open spec fn record(fields: Seq<Value>) -> Value {
    Value::Entries(
        Seq::new(fields.len(), |i: int| (Value::Unsigned((i + 1) as u64), fields[i])),
    )
}

/// `value` is a record of `count` fields.
pub open spec fn is_record(value: Value, count: nat) -> bool {
    &&& value is Entries
    &&& value->Entries_0.len() == count
    &&& forall|i: int|
        0 <= i < count ==> (#[trigger] value->Entries_0[i]).0 == Value::Unsigned((i + 1) as u64)
}

/// The field of a record under `key`.
pub open spec fn field_of(value: Value, key: int) -> Value {
    value->Entries_0[key - 1].1
}

/// All fields of a record.
pub open spec fn fields_of(value: Value) -> Seq<Value> {
    Seq::new(value->Entries_0.len(), |i: int| value->Entries_0[i].1)
}

/// A record is determined by its fields.
pub proof fn lemma_record_of_fields(value: Value, count: nat)
    requires
        is_record(value, count),
    ensures
        value == record(fields_of(value)),
        forall|i: int| 0 <= i < count ==> #[trigger] fields_of(value)[i] == field_of(value, i + 1),
{
    assert(record(fields_of(value))->Entries_0 =~= value->Entries_0);
}

/// What a record's fields are.
pub proof fn lemma_record_fields(fields: Seq<Value>)
    ensures
        is_record(record(fields), fields.len()),
        forall|key: int|
            1 <= key <= fields.len() ==> #[trigger] field_of(record(fields), key) == fields[key
                - 1],
{
}

/// The byte forms of successive small keys ascend.
proof fn lemma_keys_ascend(key: u64)
    requires
        1 <= key < 0xff,
    ensures
        bytes::lex_lt(
            cbor::encoding(Value::Unsigned(key)),
            cbor::encoding(Value::Unsigned((key + 1) as u64)),
        ),
{
    reveal_with_fuel(bytes::lex_lt_from, 3);
    let a = cbor::encoding(Value::Unsigned(key));
    let b = cbor::encoding(Value::Unsigned((key + 1) as u64));
    if key < 23 {
        assert(a =~= seq![key as u8]);
        assert(b =~= seq![(key + 1) as u8]);
    } else if key == 23 {
        assert(a =~= seq![23u8]);
        assert(b =~= seq![24u8, 24u8]);
    } else {
        assert(a =~= seq![24u8, key as u8]);
        assert(b =~= seq![24u8, (key + 1) as u8]);
    }
}

/// A record of canonical fields is canonical, one level deeper.
pub proof fn lemma_record_canonical(fields: Seq<Value>, depth: nat)
    requires
        fields.len() <= 0xff,
        forall|i: int| 0 <= i < fields.len() ==> cbor::canonical_within(
            #[trigger] fields[i],
            depth,
        ),
    ensures
        cbor::canonical_within(record(fields), depth + 1),
{
    let pairs = record(fields)->Entries_0;
    assert forall|i: int| 0 <= i < pairs.len() implies cbor::canonical_within(
        (#[trigger] pairs[i]).0,
        depth,
    ) && cbor::canonical_within(pairs[i].1, depth) by {
        assert(pairs[i].1 == fields[i]);
    }
    assert forall|i: int| 0 <= i < pairs.len() - 1 implies #[trigger] cbor::key_ascends(
        pairs,
        i,
    ) by {
        lemma_keys_ascend((i + 1) as u64);
    }
}

/// A value that is canonical with few nested levels is canonical with more.
pub proof fn lemma_canonical_deeper(value: Value, depth: nat, deeper: nat)
    requires
        cbor::canonical_within(value, depth),
        depth <= deeper,
    ensures
        cbor::canonical_within(value, deeper),
    decreases depth,
{
    match value {
        Value::Array(items) => {
            assert forall|i: int| 0 <= i < items.len() implies cbor::canonical_within(
                #[trigger] items[i],
                (deeper - 1) as nat,
            ) by {
                lemma_canonical_deeper(items[i], (depth - 1) as nat, (deeper - 1) as nat);
            }
        },
        Value::Entries(pairs) => {
            assert forall|i: int| 0 <= i < pairs.len() implies cbor::canonical_within(
                (#[trigger] pairs[i]).0,
                (deeper - 1) as nat,
            ) && cbor::canonical_within(pairs[i].1, (deeper - 1) as nat) by {
                lemma_canonical_deeper(pairs[i].0, (depth - 1) as nat, (deeper - 1) as nat);
                lemma_canonical_deeper(pairs[i].1, (depth - 1) as nat, (deeper - 1) as nat);
            }
        },
        _ => {},
    }
}

/// A type with a canonical value.
pub trait CanonicalEncode {
    /// The canonical value of `self`.
    spec fn model(&self) -> Value;

    /// Builds the canonical value of `self`.
    fn to_canonical_value(&self) -> (value: CanonicalValue)
        ensures
            value@ == self.model(),
    ;
}

/// Encodes the canonical value of `value` in its deterministic byte form.
pub fn encode_deterministic_cbor<T: CanonicalEncode>(value: &T) -> (encoded: Result<
    Vec<u8>,
    CanonicalError,
>)
    ensures
        match encoded {
            Ok(bytes) => cbor::canonical(value.model()) && bytes@ == cbor::encoding(value.model()),
            Err(error) => !cbor::canonical(value.model()) && error == CanonicalError::NotCanonical,
        },
{
    encode_value(&value.to_canonical_value())
}

/// Builds the record with the given fields.
pub fn build_record(fields: Vec<CanonicalValue>) -> (value: CanonicalValue)
    ensures
        value@ == record(value::items_view(fields@)),
{
    let mut pairs: Vec<(CanonicalValue, CanonicalValue)> = Vec::new();
    let ghost models = value::items_view(fields@);
    let ghost source = fields@;
    let count: usize = fields.len();
    for item in it: fields
        invariant
            it.seq() == source,
            count == source.len(),
            models == value::items_view(source),
            pairs@.len() == it.index(),
            forall|j: int|
                0 <= j < it.index() ==> (#[trigger] pairs@[j]).0@ == Value::Unsigned((j + 1) as u64)
                    && pairs@[j].1@ == models[j],
    {
        let key: u64 = pairs.len() as u64 + 1;
        pairs.push((CanonicalValue::Unsigned(key), item));
    }
    proof {
        value::lemma_entries_view(pairs);
        assert(value::pairs_view(pairs@) =~= record(models)->Entries_0);
    }
    CanonicalValue::Entries(pairs)
}

/// The fields of `value`, if it is a record of exactly `count`.
pub fn exact_fields(value: &CanonicalValue, count: usize) -> (fields: Option<
    &Vec<(CanonicalValue, CanonicalValue)>,
>)
    ensures
        match fields {
            Some(fields) => {
                &&& is_record(value@, count as nat)
                &&& fields@.len() == count
                &&& forall|i: int|
                    0 <= i < count ==> (#[trigger] fields@[i]).1@ == field_of(value@, i + 1)
            },
            None => !is_record(value@, count as nat),
        },
{
    let fields: &Vec<(CanonicalValue, CanonicalValue)> = match value {
        CanonicalValue::Entries(fields) => fields,
        _ => {
            return None;
        },
    };
    proof {
        value::lemma_entries_view(*fields);
    }
    if fields.len() != count {
        return None;
    }
    for i in 0..count
        invariant
            fields@.len() == count,
            value@ == Value::Entries(value::pairs_view(fields@)),
            forall|j: int|
                0 <= j < i ==> (#[trigger] value@->Entries_0[j]).0 == Value::Unsigned(
                    (j + 1) as u64,
                ),
    {
        assert(value@->Entries_0[i as int].0 == fields@[i as int].0@);
        match &fields[i].0 {
            CanonicalValue::Unsigned(key) => {
                if *key != i as u64 + 1 {
                    return None;
                }
            },
            _ => {
                return None;
            },
        }
    }
    Some(fields)
}

/// A record without its last field.
pub open spec fn without_last(value: Value) -> Value {
    Value::Entries(value->Entries_0.drop_last())
}

/// Leaving the last field out keeps a value canonical.
pub proof fn lemma_without_last(value: Value, depth: nat)
    requires
        value is Entries,
        value->Entries_0.len() > 0,
        cbor::canonical_within(value, depth),
    ensures
        cbor::canonical_within(without_last(value), depth),
{
    let pairs = value->Entries_0;
    let shorter = pairs.drop_last();
    assert forall|i: int| 0 <= i < shorter.len() implies cbor::canonical_within(
        (#[trigger] shorter[i]).0,
        (depth - 1) as nat,
    ) && cbor::canonical_within(shorter[i].1, (depth - 1) as nat) by {
        assert(shorter[i] == pairs[i]);
    }
    assert forall|i: int| 0 <= i < shorter.len() - 1 implies #[trigger] cbor::key_ascends(
        shorter,
        i,
    ) by {
        assert(cbor::key_ascends(pairs, i));
    }
}

/// The record of some fields, without the last, is the record of the others.
pub proof fn lemma_without_last_record(fields: Seq<Value>)
    requires
        fields.len() > 0,
    ensures
        without_last(record(fields)) == record(fields.drop_last()),
{
    assert(without_last(record(fields))->Entries_0 =~= record(fields.drop_last())->Entries_0);
}

/// The byte form of a canonical record without its last field.
pub fn encode_without_last(value: CanonicalValue) -> (bytes: Vec<u8>)
    requires
        value@ is Entries,
        value@->Entries_0.len() > 0,
        cbor::canonical(value@),
    ensures
        bytes@ == cbor::encoding(without_last(value@)),
{
    let ghost whole = value@;
    let mut pairs: Vec<(CanonicalValue, CanonicalValue)> = match value {
        CanonicalValue::Entries(pairs) => pairs,
        _ => Vec::new(),
    };
    proof {
        value::lemma_entries_view(pairs);
        lemma_without_last(whole, cbor::MAX_CANONICAL_DEPTH as nat);
    }
    let ghost before = pairs@;
    pairs.pop();
    proof {
        value::lemma_entries_view(pairs);
        assert(value::pairs_view(pairs@) =~= value::pairs_view(before).drop_last());
    }
    match encode_value(&CanonicalValue::Entries(pairs)) {
        Ok(bytes) => bytes,
        Err(_) => Vec::new(),
    }
}

/// The text of sixteen bytes as a UUID is canonical.
pub proof fn lemma_uuid_canonical(id: Seq<u8>)
    requires
        id.len() == 16,
    ensures
        forall|depth: nat| #[trigger]
            cbor::canonical_within(Value::Text(text::hyphenated(id)), depth),
{
    text::lemma_hyphenated_ascii(id);
    text::lemma_ascii_len(text::hyphenated(id));
}

/// The text of thirty-two bytes in hexadecimal is canonical.
pub proof fn lemma_hex_canonical(id: Seq<u8>)
    requires
        id.len() == 32,
    ensures
        forall|depth: nat| #[trigger] cbor::canonical_within(Value::Text(text::hex(id)), depth),
{
    text::lemma_hex_ascii(id);
    text::lemma_ascii_len(text::hex(id));
}

} // verus!
