//! The value model behind every canonical record.

use vstd::prelude::*;
use crate::wire::bytes::to_vec;

verus! {

/// One canonical value, as it is built and read by this library.
#[derive(Debug)]
pub enum CanonicalValue {
    /// A non-negative integer.
    Unsigned(u64),
    /// A negative integer.
    Negative(i64),
    /// A byte string.
    Bytes(Vec<u8>),
    /// A text string.
    Text(String),
    /// An ordered list.
    Array(Vec<CanonicalValue>),
    /// A list of key and value pairs.
    Entries(Vec<(CanonicalValue, CanonicalValue)>),
    /// A truth value.
    Bool(bool),
    /// The absent value.
    Null,
}

/// The mathematical model of a [`CanonicalValue`].
pub enum Value {
    Unsigned(u64),
    Negative(i64),
    Bytes(Seq<u8>),
    Text(Seq<char>),
    Array(Seq<Value>),
    Entries(Seq<(Value, Value)>),
    Bool(bool),
    Null,
}

impl CanonicalValue {
    /// The model of this value.
    pub open spec fn view(&self) -> Value
        decreases self,
    {
        match self {
            CanonicalValue::Unsigned(number) => Value::Unsigned(*number),
            CanonicalValue::Negative(number) => Value::Negative(*number),
            CanonicalValue::Bytes(bytes) => Value::Bytes(bytes@),
            CanonicalValue::Text(text) => Value::Text(text@),
            CanonicalValue::Array(items) => Value::Array(
                Seq::new(
                    items@.len(),
                    |i: int|
                        if 0 <= i < items@.len() {
                            items@[i].view()
                        } else {
                            Value::Null
                        },
                ),
            ),
            CanonicalValue::Entries(pairs) => Value::Entries(
                Seq::new(
                    pairs@.len(),
                    |i: int|
                        if 0 <= i < pairs@.len() {
                            (pairs@[i].0.view(), pairs@[i].1.view())
                        } else {
                            (Value::Null, Value::Null)
                        },
                ),
            ),
            CanonicalValue::Bool(flag) => Value::Bool(*flag),
            CanonicalValue::Null => Value::Null,
        }
    }
}

/// The models of a list of values.
pub open spec fn items_view(items: Seq<CanonicalValue>) -> Seq<Value> {
    Seq::new(items.len(), |i: int| items[i]@)
}

/// The models of a list of pairs.
pub open spec fn pairs_view(pairs: Seq<(CanonicalValue, CanonicalValue)>) -> Seq<(Value, Value)> {
    Seq::new(pairs.len(), |i: int| (pairs[i].0@, pairs[i].1@))
}

/// An array value is the array of its items' models.
pub proof fn lemma_array_view(items: Vec<CanonicalValue>)
    ensures
        CanonicalValue::Array(items)@ == Value::Array(items_view(items@)),
{
    assert(CanonicalValue::Array(items)@->Array_0 =~= items_view(items@));
}

/// An entries value is the list of its pairs' models.
pub proof fn lemma_entries_view(pairs: Vec<(CanonicalValue, CanonicalValue)>)
    ensures
        CanonicalValue::Entries(pairs)@ == Value::Entries(pairs_view(pairs@)),
{
    assert(CanonicalValue::Entries(pairs)@->Entries_0 =~= pairs_view(pairs@));
}

/// A copy of a value.
pub fn copy_value(value: &CanonicalValue) -> (copy: CanonicalValue)
    ensures
        copy@ == value@,
    decreases value,
{
    match value {
        CanonicalValue::Unsigned(number) => CanonicalValue::Unsigned(*number),
        CanonicalValue::Negative(number) => CanonicalValue::Negative(*number),
        CanonicalValue::Bytes(bytes) => CanonicalValue::Bytes(to_vec(bytes.as_slice())),
        CanonicalValue::Text(text) => CanonicalValue::Text(text.clone()),
        CanonicalValue::Array(items) => {
            let mut copies: Vec<CanonicalValue> = Vec::new();
            for i in 0..items.len()
                invariant
                    value == CanonicalValue::Array(*items),
                    copies@.len() == i,
                    forall|j: int| 0 <= j < i ==> (#[trigger] copies@[j])@ == items@[j]@,
            {
                assert(decreases_to!(value => value->Array_0));
                assert(decreases_to!(*items => items@));
                assert(decreases_to!(items@ => items@[i as int]));
                copies.push(copy_value(&items[i]));
            }
            proof {
                lemma_array_view(*items);
                lemma_array_view(copies);
                assert(items_view(copies@) =~= items_view(items@));
            }
            CanonicalValue::Array(copies)
        },
        CanonicalValue::Entries(pairs) => {
            let mut copies: Vec<(CanonicalValue, CanonicalValue)> = Vec::new();
            for i in 0..pairs.len()
                invariant
                    value == CanonicalValue::Entries(*pairs),
                    copies@.len() == i,
                    forall|j: int|
                        0 <= j < i ==> (#[trigger] copies@[j]).0@ == pairs@[j].0@ && copies@[j].1@
                            == pairs@[j].1@,
            {
                assert(decreases_to!(value => value->Entries_0));
                assert(decreases_to!(*pairs => pairs@));
                assert(decreases_to!(pairs@ => pairs@[i as int]));
                assert(decreases_to!(pairs@[i as int] => pairs@[i as int].0));
                assert(decreases_to!(pairs@[i as int] => pairs@[i as int].1));
                copies.push((copy_value(&pairs[i].0), copy_value(&pairs[i].1)));
            }
            proof {
                lemma_entries_view(*pairs);
                lemma_entries_view(copies);
                assert(pairs_view(copies@) =~= pairs_view(pairs@));
            }
            CanonicalValue::Entries(copies)
        },
        CanonicalValue::Bool(flag) => CanonicalValue::Bool(*flag),
        CanonicalValue::Null => CanonicalValue::Null,
    }
}

} // verus!
