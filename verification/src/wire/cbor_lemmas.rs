//! A byte string starts with the byte form of at most one canonical value.

use vstd::prelude::*;
use vstd::utf8::*;
use crate::wire::cbor;
use crate::wire::value::Value;

verus! {

/// The big-endian bytes of a number determine it.
proof fn lemma_be_injective(a: u64, b: u64)
    ensures
        a < 0x1_0000 && b < 0x1_0000 && cbor::be2(a) == cbor::be2(b) ==> a == b,
        a < 0x1_0000_0000 && b < 0x1_0000_0000 && cbor::be4(a) == cbor::be4(b) ==> a == b,
        cbor::be8(a) == cbor::be8(b) ==> a == b,
{
    if a < 0x1_0000 && b < 0x1_0000 && cbor::be2(a) == cbor::be2(b) {
        assert(cbor::be2(a)[0] == cbor::be2(b)[0] && cbor::be2(a)[1] == cbor::be2(b)[1]);
        assert(a == b) by (bit_vector)
            requires
                a < 0x1_0000,
                b < 0x1_0000,
                (a >> 8) as u8 == (b >> 8) as u8,
                a as u8 == b as u8,
        ;
    }
    if a < 0x1_0000_0000 && b < 0x1_0000_0000 && cbor::be4(a) == cbor::be4(b) {
        assert(cbor::be4(a)[0] == cbor::be4(b)[0] && cbor::be4(a)[1] == cbor::be4(b)[1]
            && cbor::be4(a)[2] == cbor::be4(b)[2]
            && cbor::be4(a)[3] == cbor::be4(b)[3]);
        assert(a == b) by (bit_vector)
            requires
                a < 0x1_0000_0000,
                b < 0x1_0000_0000,
                (a >> 24) as u8 == (b >> 24) as u8,
                (a >> 16) as u8 == (b >> 16) as u8,
                (a >> 8) as u8 == (b >> 8) as u8,
                a as u8 == b as u8,
        ;
    }
    if cbor::be8(a) == cbor::be8(b) {
        assert(cbor::be8(a)[0] == cbor::be8(b)[0] && cbor::be8(a)[1] == cbor::be8(b)[1]
            && cbor::be8(a)[2] == cbor::be8(b)[2]
            && cbor::be8(a)[3] == cbor::be8(b)[3] && cbor::be8(a)[4] == cbor::be8(b)[4]
                && cbor::be8(a)[5] == cbor::be8(b)[5]
            && cbor::be8(a)[6] == cbor::be8(b)[6] && cbor::be8(a)[7] == cbor::be8(b)[7]);
        assert(a == b) by (bit_vector)
            requires
                (a >> 56) as u8 == (b >> 56) as u8,
                (a >> 48) as u8 == (b >> 48) as u8,
                (a >> 40) as u8 == (b >> 40) as u8,
                (a >> 32) as u8 == (b >> 32) as u8,
                (a >> 24) as u8 == (b >> 24) as u8,
                (a >> 16) as u8 == (b >> 16) as u8,
                (a >> 8) as u8 == (b >> 8) as u8,
                a as u8 == b as u8,
        ;
    }
}

/// No other number below the two-byte bound has the two bytes of `n`.
pub proof fn lemma_be2_all(n: u64)
    requires
        n < 0x1_0000,
    ensures
        forall|m: u64| m < 0x1_0000 && #[trigger] cbor::be2(m) == cbor::be2(n) ==> m == n,
{
    assert forall|m: u64| m < 0x1_0000 && #[trigger] cbor::be2(m) == cbor::be2(n) implies m
        == n by {
        lemma_be_injective(m, n);
    }
}

/// No other number below the four-byte bound has the four bytes of `n`.
pub proof fn lemma_be4_all(n: u64)
    requires
        n < 0x1_0000_0000,
    ensures
        forall|m: u64| m < 0x1_0000_0000 && #[trigger] cbor::be4(m) == cbor::be4(n) ==> m == n,
{
    assert forall|m: u64| m < 0x1_0000_0000 && #[trigger] cbor::be4(m) == cbor::be4(n) implies m
        == n by {
        lemma_be_injective(m, n);
    }
}

/// No other number has the eight bytes of `n`.
pub proof fn lemma_be8_all(n: u64)
    ensures
        forall|m: u64| #[trigger] cbor::be8(m) == cbor::be8(n) ==> m == n,
{
    assert forall|m: u64| #[trigger] cbor::be8(m) == cbor::be8(n) implies m == n by {
        lemma_be_injective(m, n);
    }
}

/// The width of a head follows from its first byte.
pub open spec fn head_width(info: int) -> int {
    if info < 24 {
        1
    } else if info == 24 {
        2
    } else if info == 25 {
        3
    } else if info == 26 {
        5
    } else {
        9
    }
}

/// The first byte of a head holds the major type and the class of the argument.
pub proof fn lemma_head_first(major: u8, n: u64)
    requires
        major < 8,
    ensures
        cbor::head(major, n).len() >= 1,
        cbor::head(major, n)[0] / 32 == major,
        n < 24 ==> cbor::head(major, n)[0] % 32 == n,
        24 <= n < 0x100 ==> cbor::head(major, n)[0] % 32 == 24,
        0x100 <= n < 0x1_0000 ==> cbor::head(major, n)[0] % 32 == 25,
        0x1_0000 <= n < 0x1_0000_0000 ==> cbor::head(major, n)[0] % 32 == 26,
        0x1_0000_0000 <= n ==> cbor::head(major, n)[0] % 32 == 27,
        cbor::head(major, n).len() == head_width((cbor::head(major, n)[0] % 32) as int),
{
}

/// A byte string starts with at most one head.
pub proof fn lemma_head_unique(m1: u8, n1: u64, m2: u8, n2: u64, bytes: Seq<u8>)
    requires
        m1 < 8,
        m2 < 8,
        cbor::head(m1, n1).is_prefix_of(bytes),
        cbor::head(m2, n2).is_prefix_of(bytes),
    ensures
        m1 == m2,
        n1 == n2,
{
    lemma_head_first(m1, n1);
    lemma_head_first(m2, n2);
    let h1 = cbor::head(m1, n1);
    let h2 = cbor::head(m2, n2);
    assert(h1[0] == bytes[0] && h2[0] == bytes[0]);
    assert(h1.len() == h2.len());
    assert(h1 =~= h2);
    let info = bytes[0] % 32;
    if info == 24 {
        assert(h1[1] == n1 as u8 && h2[1] == n2 as u8);
    } else if info == 25 {
        assert(h1.skip(1) =~= cbor::be2(n1) && h2.skip(1) =~= cbor::be2(n2));
        lemma_be_injective(n1, n2);
    } else if info == 26 {
        assert(h1.skip(1) =~= cbor::be4(n1) && h2.skip(1) =~= cbor::be4(n2));
        lemma_be_injective(n1, n2);
    } else if info == 27 {
        assert(h1.skip(1) =~= cbor::be8(n1) && h2.skip(1) =~= cbor::be8(n2));
        lemma_be_injective(n1, n2);
    }
}

/// What follows the first part of a prefix is a prefix of what follows it.
pub proof fn lemma_prefix_tail(a: Seq<u8>, b: Seq<u8>, bytes: Seq<u8>)
    requires
        (a + b).is_prefix_of(bytes),
    ensures
        a.is_prefix_of(bytes),
        b.is_prefix_of(bytes.skip(a.len() as int)),
{
    let ab = a + b;
    assert(ab.len() == a.len() + b.len());
    assert forall|i: int| 0 <= i < a.len() implies a[i] == bytes[i] by {
        assert(a[i] == ab[i]);
        assert(ab[i] == bytes.subrange(0, ab.len() as int)[i]);
    }
    assert(a =~= bytes.subrange(0, a.len() as int));
    assert forall|i: int| 0 <= i < b.len() implies b[i] == bytes.skip(a.len() as int)[i] by {
        assert(b[i] == ab[i + a.len()]);
        assert(ab[i + a.len()] == bytes.subrange(0, ab.len() as int)[i + a.len()]);
    }
    assert(b =~= bytes.skip(a.len() as int).subrange(0, b.len() as int));
}

/// The part of the byte form after the head.
pub open spec fn body(value: Value) -> Seq<u8> {
    match value {
        Value::Bytes(bytes) => bytes,
        Value::Text(text) => encode_utf8(text),
        Value::Array(items) => cbor::items_encoding(items),
        Value::Entries(pairs) => cbor::pairs_encoding(pairs),
        _ => Seq::empty(),
    }
}

/// A canonical value's argument fits its head.
pub proof fn lemma_argument_fits(value: Value, depth: nat)
    requires
        cbor::canonical_within(value, depth),
    ensures
        0 <= cbor::argument_of(value) <= u64::MAX,
        cbor::encoding(value) == cbor::head(
            cbor::major_of(value),
            cbor::argument_of(value) as u64,
        ) + body(value),
        cbor::major_of(value) < 8,
{
}

/// A byte string starts with the byte form of at most one canonical value.
pub proof fn lemma_encoding_unique(v1: Value, d1: nat, v2: Value, d2: nat, bytes: Seq<u8>)
    requires
        cbor::canonical_within(v1, d1),
        cbor::canonical_within(v2, d2),
        cbor::encoding(v1).is_prefix_of(bytes),
        cbor::encoding(v2).is_prefix_of(bytes),
    ensures
        v1 == v2,
    decreases d1, 0nat,
{
    lemma_argument_fits(v1, d1);
    lemma_argument_fits(v2, d2);
    let h1 = cbor::head(cbor::major_of(v1), cbor::argument_of(v1) as u64);
    let h2 = cbor::head(cbor::major_of(v2), cbor::argument_of(v2) as u64);
    lemma_prefix_tail(h1, body(v1), bytes);
    lemma_prefix_tail(h2, body(v2), bytes);
    lemma_head_unique(
        cbor::major_of(v1),
        cbor::argument_of(v1) as u64,
        cbor::major_of(v2),
        cbor::argument_of(v2) as u64,
        bytes,
    );
    assert(cbor::argument_of(v1) == cbor::argument_of(v2));
    let rest = bytes.skip(h1.len() as int);
    match (v1, v2) {
        (Value::Bytes(a), Value::Bytes(b)) => {
            assert(a =~= b);
        },
        (Value::Text(a), Value::Text(b)) => {
            assert(encode_utf8(a) =~= encode_utf8(b));
            encode_utf8_decode_utf8(a);
            encode_utf8_decode_utf8(b);
        },
        (Value::Array(a), Value::Array(b)) => {
            lemma_items_unique(a, (d1 - 1) as nat, b, (d2 - 1) as nat, rest);
        },
        (Value::Entries(a), Value::Entries(b)) => {
            lemma_pairs_unique(a, (d1 - 1) as nat, b, (d2 - 1) as nat, rest);
        },
        _ => {},
    }
}

/// A byte string starts with the byte forms of at most one list of a length.
pub proof fn lemma_items_unique(a: Seq<Value>, da: nat, b: Seq<Value>, db: nat, bytes: Seq<u8>)
    requires
        a.len() == b.len(),
        forall|i: int| 0 <= i < a.len() ==> cbor::canonical_within(#[trigger] a[i], da),
        forall|i: int| 0 <= i < b.len() ==> cbor::canonical_within(#[trigger] b[i], db),
        cbor::items_encoding(a).is_prefix_of(bytes),
        cbor::items_encoding(b).is_prefix_of(bytes),
    ensures
        a == b,
    decreases da, 1 + a.len(),
{
    if a.len() == 0 {
        assert(a =~= b);
    } else {
        lemma_prefix_tail(cbor::encoding(a[0]), cbor::items_encoding(a.drop_first()), bytes);
        lemma_prefix_tail(cbor::encoding(b[0]), cbor::items_encoding(b.drop_first()), bytes);
        lemma_encoding_unique(a[0], da, b[0], db, bytes);
        let rest = bytes.skip(cbor::encoding(a[0]).len() as int);
        lemma_items_unique(a.drop_first(), da, b.drop_first(), db, rest);
        assert(a =~= seq![a[0]] + a.drop_first());
        assert(b =~= seq![b[0]] + b.drop_first());
    }
}

/// A byte string starts with the byte forms of at most one list of pairs of a
/// length.
pub proof fn lemma_pairs_unique(
    a: Seq<(Value, Value)>,
    da: nat,
    b: Seq<(Value, Value)>,
    db: nat,
    bytes: Seq<u8>,
)
    requires
        a.len() == b.len(),
        forall|i: int|
            0 <= i < a.len() ==> cbor::canonical_within(
                (#[trigger] a[i]).0,
                da,
            ) && cbor::canonical_within(
                a[i].1,
                da,
            ),
        forall|i: int|
            0 <= i < b.len() ==> cbor::canonical_within(
                (#[trigger] b[i]).0,
                db,
            ) && cbor::canonical_within(
                b[i].1,
                db,
            ),
        cbor::pairs_encoding(a).is_prefix_of(bytes),
        cbor::pairs_encoding(b).is_prefix_of(bytes),
    ensures
        a == b,
    decreases da, 1 + a.len(),
{
    if a.len() == 0 {
        assert(a =~= b);
    } else {
        let a_tail = cbor::pairs_encoding(a.drop_first());
        let b_tail = cbor::pairs_encoding(b.drop_first());
        lemma_prefix_tail(cbor::encoding(a[0].0) + cbor::encoding(a[0].1), a_tail, bytes);
        lemma_prefix_tail(cbor::encoding(b[0].0) + cbor::encoding(b[0].1), b_tail, bytes);
        lemma_prefix_tail(cbor::encoding(a[0].0), cbor::encoding(a[0].1), bytes);
        lemma_prefix_tail(cbor::encoding(b[0].0), cbor::encoding(b[0].1), bytes);
        lemma_encoding_unique(a[0].0, da, b[0].0, db, bytes);
        let after_key = bytes.skip(cbor::encoding(a[0].0).len() as int);
        lemma_encoding_unique(a[0].1, da, b[0].1, db, after_key);
        let rest = bytes.skip((cbor::encoding(a[0].0) + cbor::encoding(a[0].1)).len() as int);
        lemma_pairs_unique(a.drop_first(), da, b.drop_first(), db, rest);
        assert(a =~= seq![a[0]] + a.drop_first());
        assert(b =~= seq![b[0]] + b.drop_first());
    }
}

/// Appending a value to a list appends its byte form.
pub proof fn lemma_items_push(items: Seq<Value>, item: Value)
    ensures
        cbor::items_encoding(items.push(item))
            == cbor::items_encoding(items) + cbor::encoding(item),
    decreases items.len(),
{
    if items.len() == 0 {
        let one = items.push(item);
        assert(one[0] == item);
        assert(one.drop_first() =~= items);
        assert(cbor::items_encoding(items) =~= Seq::<u8>::empty());
        assert(cbor::items_encoding(one) == cbor::encoding(one[0]) + cbor::items_encoding(
            one.drop_first(),
        ));
        assert(cbor::items_encoding(one) =~= cbor::encoding(item));
        assert(cbor::items_encoding(items) + cbor::encoding(item) =~= cbor::encoding(item));
    } else {
        lemma_items_push(items.drop_first(), item);
        assert(items.push(item)[0] == items[0]);
        assert(items.push(item).drop_first() =~= items.drop_first().push(item));
        assert(cbor::items_encoding(items.push(item))
            =~= cbor::items_encoding(items) + cbor::encoding(item));
    }
}

/// Appending a pair to a list appends the byte forms of its key and value.
pub proof fn lemma_pairs_push(pairs: Seq<(Value, Value)>, pair: (Value, Value))
    ensures
        cbor::pairs_encoding(pairs.push(pair))
            == cbor::pairs_encoding(pairs) + cbor::encoding(pair.0) + cbor::encoding(
            pair.1,
        ),
    decreases pairs.len(),
{
    if pairs.len() == 0 {
        let one = pairs.push(pair);
        assert(one[0] == pair);
        assert(one.drop_first() =~= pairs);
        assert(cbor::pairs_encoding(pairs) =~= Seq::<u8>::empty());
        assert(cbor::pairs_encoding(one) == cbor::encoding(one[0].0) + cbor::encoding(one[0].1)
            + cbor::pairs_encoding(one.drop_first()));
        assert(cbor::pairs_encoding(one) =~= cbor::encoding(pair.0) + cbor::encoding(pair.1));
        assert(cbor::pairs_encoding(pairs) + cbor::encoding(pair.0) + cbor::encoding(pair.1)
            =~= cbor::encoding(pair.0)
            + cbor::encoding(pair.1));
    } else {
        lemma_pairs_push(pairs.drop_first(), pair);
        assert(pairs.push(pair)[0] == pairs[0]);
        assert(pairs.push(pair).drop_first() =~= pairs.drop_first().push(pair));
        assert(cbor::pairs_encoding(pairs.push(pair))
            =~= cbor::pairs_encoding(pairs) + cbor::encoding(pair.0)
            + cbor::encoding(pair.1));
    }
}

/// The byte form of the first `i` items starts the byte form of all of them.
pub proof fn lemma_items_split(items: Seq<Value>, i: int)
    requires
        0 <= i <= items.len(),
    ensures
        cbor::items_encoding(items)
            == cbor::items_encoding(items.take(i)) + cbor::items_encoding(items.skip(i)),
    decreases i,
{
    if i == 0 {
        assert(items.take(0) =~= Seq::<Value>::empty());
        assert(items.skip(0) =~= items);
        assert(cbor::items_encoding(items.take(0)) =~= Seq::<u8>::empty());
        assert(cbor::items_encoding(items)
            =~= cbor::items_encoding(items.take(0)) + cbor::items_encoding(
            items.skip(0),
        ));
    } else {
        let tail = items.drop_first();
        lemma_items_split(tail, i - 1);
        assert(items.take(i).drop_first() =~= tail.take(i - 1));
        assert(items.take(i)[0] == items[0]);
        assert(tail.skip(i - 1) =~= items.skip(i));
        assert(cbor::items_encoding(items)
            =~= cbor::items_encoding(items.take(i)) + cbor::items_encoding(
            items.skip(i),
        ));
    }
}

/// The byte form of the first `i` pairs starts the byte form of all of them.
pub proof fn lemma_pairs_split(pairs: Seq<(Value, Value)>, i: int)
    requires
        0 <= i <= pairs.len(),
    ensures
        cbor::pairs_encoding(pairs)
            == cbor::pairs_encoding(pairs.take(i)) + cbor::pairs_encoding(pairs.skip(i)),
    decreases i,
{
    if i == 0 {
        assert(pairs.take(0) =~= Seq::<(Value, Value)>::empty());
        assert(pairs.skip(0) =~= pairs);
        assert(cbor::pairs_encoding(pairs.take(0)) =~= Seq::<u8>::empty());
        assert(cbor::pairs_encoding(pairs)
            =~= cbor::pairs_encoding(pairs.take(0)) + cbor::pairs_encoding(
            pairs.skip(0),
        ));
    } else {
        let tail = pairs.drop_first();
        lemma_pairs_split(tail, i - 1);
        assert(pairs.take(i).drop_first() =~= tail.take(i - 1));
        assert(pairs.take(i)[0] == pairs[0]);
        assert(tail.skip(i - 1) =~= pairs.skip(i));
        assert(cbor::pairs_encoding(pairs)
            =~= cbor::pairs_encoding(pairs.take(i)) + cbor::pairs_encoding(
            pairs.skip(i),
        ));
    }
}

/// The byte form of a canonical value gives the value back.
pub proof fn lemma_decoded(value: Value)
    requires
        cbor::canonical(value),
    ensures
        cbor::is_encoded(cbor::encoding(value)),
        cbor::decoded(cbor::encoding(value)) == value,
{
    let bytes = cbor::encoding(value);
    let found = cbor::decoded(bytes);
    assert(cbor::canonical(found) && cbor::encoding(found) == bytes);
    assert(bytes.subrange(0, bytes.len() as int) =~= bytes);
    let depth = cbor::MAX_CANONICAL_DEPTH as nat;
    lemma_encoding_unique(value, depth, found, depth, bytes);
}

} // verus!
