//! Encoding and decoding of canonical values in deterministic CBOR.

use vstd::prelude::*;
use vstd::utf8::*;
use crate::outside::text_from_utf8;
use crate::wire::bytes;
use crate::wire::bytes::{append_bytes, bytes_less, to_vec};
use crate::wire::cbor;
use crate::wire::cbor::MAX_CANONICAL_DEPTH;
use crate::wire::cbor_lemmas;
use crate::wire::value;
use crate::wire::value::{CanonicalValue, Value};

verus! {

/// Deterministic bytes could not be written or read.
#[derive(Clone, Copy, Debug, PartialEq, Eq, Structural)]
pub enum CanonicalError {
    /// The value has no deterministic byte form, or the bytes are not one.
    NotCanonical,
    /// The bytes exceed the caller's limit.
    LimitExceeded,
}

/// Writes the shortest head of an item.
fn write_head(out: &mut Vec<u8>, major: u8, n: u64)
    requires
        major < 8,
    ensures
        final(out)@ == old(out)@ + cbor::head(major, n),
{
    let ghost start = out@;
    if n < 24 {
        out.push(major * 32 + n as u8);
        assert(out@ =~= start + cbor::head(major, n));
    } else if n < 0x100 {
        out.push(major * 32 + 24);
        out.push(n as u8);
        assert(out@ =~= start + cbor::head(major, n));
    } else if n < 0x1_0000 {
        out.push(major * 32 + 25);
        out.push((n >> 8) as u8);
        out.push(n as u8);
        assert(out@ =~= start + cbor::head(major, n));
    } else if n < 0x1_0000_0000 {
        out.push(major * 32 + 26);
        out.push((n >> 24) as u8);
        out.push((n >> 16) as u8);
        out.push((n >> 8) as u8);
        out.push(n as u8);
        assert(out@ =~= start + cbor::head(major, n));
    } else {
        out.push(major * 32 + 27);
        out.push((n >> 56) as u8);
        out.push((n >> 48) as u8);
        out.push((n >> 40) as u8);
        out.push((n >> 32) as u8);
        out.push((n >> 24) as u8);
        out.push((n >> 16) as u8);
        out.push((n >> 8) as u8);
        out.push(n as u8);
        assert(out@ =~= start + cbor::head(major, n));
    }
}

/// Writes the byte form of a value with at most `depth` nested levels, and
/// says whether it has one.
fn write_value(out: &mut Vec<u8>, value: &CanonicalValue, depth: usize) -> (written: bool)
    ensures
        written == cbor::canonical_within(value@, depth as nat),
        written ==> final(out)@ == old(out)@ + cbor::encoding(value@),
    decreases depth,
{
    let ghost start = out@;
    match value {
        CanonicalValue::Unsigned(number) => {
            write_head(out, 0, *number);
            assert(out@ =~= start + cbor::encoding(value@));
            true
        },
        CanonicalValue::Negative(number) => {
            if *number >= 0 {
                return false;
            }
            write_head(out, 1, (-1 - *number) as u64);
            assert(out@ =~= start + cbor::encoding(value@));
            true
        },
        CanonicalValue::Bytes(content) => {
            write_head(out, 2, content.len() as u64);
            append_bytes(out, content.as_slice());
            assert(out@ =~= start + cbor::encoding(value@));
            true
        },
        CanonicalValue::Text(text) => {
            let content: &[u8] = text.as_str().as_bytes();
            write_head(out, 3, content.len() as u64);
            append_bytes(out, content);
            assert(out@ =~= start + cbor::encoding(value@));
            true
        },
        CanonicalValue::Array(items) => {
            proof {
                value::lemma_array_view(*items);
            }
            if depth == 0 {
                return false;
            }
            write_head(out, 4, items.len() as u64);
            let ghost models = value::items_view(items@);
            let ghost after_head = out@;
            for i in 0..items.len()
                invariant
                    depth > 0,
                    models == value::items_view(items@),
                    value@ == Value::Array(models),
                    out@ == after_head + cbor::items_encoding(models.take(i as int)),
                    forall|j: int|
                        0 <= j < i ==> cbor::canonical_within(
                            #[trigger] models[j],
                            (depth - 1) as nat,
                        ),
            {
                assert(models[i as int] == items@[i as int]@);
                if !write_value(out, &items[i], depth - 1) {
                    return false;
                }
                proof {
                    cbor_lemmas::lemma_items_push(models.take(i as int), models[i as int]);
                    assert(models.take(i as int).push(models[i as int]) =~= models.take(i + 1));
                    assert(out@ =~= after_head + cbor::items_encoding(models.take(i + 1)));
                }
            }
            assert(models.take(items@.len() as int) =~= models);
            assert(out@ =~= start + cbor::encoding(value@));
            true
        },
        CanonicalValue::Entries(pairs) => {
            proof {
                value::lemma_entries_view(*pairs);
            }
            if depth == 0 {
                return false;
            }
            write_head(out, 5, pairs.len() as u64);
            let ghost models = value::pairs_view(pairs@);
            let ghost after_head = out@;
            let mut previous_key: Vec<u8> = Vec::new();
            for i in 0..pairs.len()
                invariant
                    depth > 0,
                    models == value::pairs_view(pairs@),
                    value@ == Value::Entries(models),
                    out@ == after_head + cbor::pairs_encoding(models.take(i as int)),
                    i > 0 ==> previous_key@ == cbor::encoding(models[i - 1].0),
                    forall|j: int|
                        0 <= j < i ==> {
                            &&& cbor::canonical_within((#[trigger] models[j]).0, (depth - 1) as nat)
                            &&& cbor::canonical_within(models[j].1, (depth - 1) as nat)
                        },
                    forall|j: int| 0 <= j < i - 1 ==> #[trigger] cbor::key_ascends(models, j),
            {
                let ghost before = out@;
                assert(models[i as int] == (pairs@[i as int].0@, pairs@[i as int].1@));
                let mut key: Vec<u8> = Vec::new();
                if !write_value(&mut key, &pairs[i].0, depth - 1) {
                    return false;
                }
                assert(key@ =~= cbor::encoding(models[i as int].0));
                if i > 0 && !bytes_less(previous_key.as_slice(), key.as_slice()) {
                    assert(!cbor::key_ascends(models, i - 1));
                    return false;
                }
                append_bytes(out, key.as_slice());
                if !write_value(out, &pairs[i].1, depth - 1) {
                    return false;
                }
                previous_key = key;
                proof {
                    assert(i > 0 ==> cbor::key_ascends(models, i - 1));
                    cbor_lemmas::lemma_pairs_push(models.take(i as int), models[i as int]);
                    assert(models.take(i as int).push(models[i as int]) =~= models.take(i + 1));
                    assert(out@ =~= after_head + cbor::pairs_encoding(models.take(i + 1)));
                }
            }
            assert(models.take(pairs@.len() as int) =~= models);
            assert(out@ =~= start + cbor::encoding(value@));
            true
        },
        CanonicalValue::Bool(flag) => {
            write_head(out, 7, if *flag { 21 } else { 20 });
            assert(out@ =~= start + cbor::encoding(value@));
            true
        },
        CanonicalValue::Null => {
            write_head(out, 7, 22);
            assert(out@ =~= start + cbor::encoding(value@));
            true
        },
    }
}

/// No canonical value with at most `depth` nested levels starts `bytes`.
pub open spec fn no_value(bytes: Seq<u8>, depth: nat) -> bool {
    forall|value: Value| #[trigger]
        cbor::canonical_within(value, depth) ==> !cbor::encoding(value).is_prefix_of(bytes)
}

/// Where the head of an item is read, only a value with that head can follow.
proof fn lemma_no_value(bytes: Seq<u8>, major: u8, n: u64, depth: nat)
    requires
        major < 8,
        cbor::head(major, n).is_prefix_of(bytes),
        forall|value: Value| #[trigger]
            cbor::canonical_within(value, depth) && cbor::major_of(value) == major
                && cbor::argument_of(value) == n ==> !cbor_lemmas::body(value).is_prefix_of(
                bytes.skip(cbor::head(major, n).len() as int),
            ),
    ensures
        no_value(bytes, depth),
{
    assert forall|value: Value| #[trigger]
        cbor::canonical_within(value, depth) implies !cbor::encoding(value).is_prefix_of(bytes) by {
        if cbor::encoding(value).is_prefix_of(bytes) {
            cbor_lemmas::lemma_argument_fits(value, depth);
            let argument = cbor::argument_of(value) as u64;
            cbor_lemmas::lemma_prefix_tail(
                cbor::head(cbor::major_of(value), argument),
                cbor_lemmas::body(value),
                bytes,
            );
            cbor_lemmas::lemma_head_unique(cbor::major_of(value), argument, major, n, bytes);
        }
    }
}

/// Where no value can follow the items read so far, no list of more items fits.
proof fn lemma_items_stuck(done: Seq<Value>, n: nat, bytes: Seq<u8>, depth: nat)
    requires
        done.len() < n,
        forall|i: int| 0 <= i < done.len() ==> cbor::canonical_within(#[trigger] done[i], depth),
        cbor::items_encoding(done).is_prefix_of(bytes),
        no_value(bytes.skip(cbor::items_encoding(done).len() as int), depth),
    ensures
        forall|items: Seq<Value>|
            items.len() == n && (forall|i: int|
                0 <= i < items.len() ==> cbor::canonical_within(#[trigger] items[i], depth))
                ==> !(#[trigger] cbor::items_encoding(items)).is_prefix_of(bytes),
{
    assert forall|items: Seq<Value>|
        items.len() == n && (forall|i: int|
            0 <= i < items.len() ==> cbor::canonical_within(
                #[trigger] items[i],
                depth,
            )) implies !(#[trigger] cbor::items_encoding(items)).is_prefix_of(bytes) by {
        if cbor::items_encoding(items).is_prefix_of(bytes) {
            let at = done.len() as int;
            let first = items.take(at);
            let last = items.skip(at);
            cbor_lemmas::lemma_items_split(items, at);
            cbor_lemmas::lemma_prefix_tail(
                cbor::items_encoding(first),
                cbor::items_encoding(last),
                bytes,
            );
            assert forall|i: int| 0 <= i < first.len() implies cbor::canonical_within(
                #[trigger] first[i],
                depth,
            ) by {
                assert(first[i] == items[i]);
            }
            cbor_lemmas::lemma_items_unique(done, depth, first, depth, bytes);
            let after = bytes.skip(cbor::items_encoding(done).len() as int);
            assert(last[0] == items[at]);
            cbor_lemmas::lemma_prefix_tail(
                cbor::encoding(last[0]),
                cbor::items_encoding(last.drop_first()),
                after,
            );
            assert(cbor::canonical_within(items[at], depth));
        }
    }
}

/// A pair cannot follow `done`: wherever a key and a value can be read from
/// `bytes`, the key does not come after the last one.
spec fn no_pair(done: Seq<(Value, Value)>, bytes: Seq<u8>, depth: nat) -> bool {
    forall|key: Value, value: Value| #[trigger]
        cbor::canonical_within(key, depth) && #[trigger] cbor::canonical_within(value, depth)
            && (cbor::encoding(key) + cbor::encoding(value)).is_prefix_of(bytes) ==> done.len() > 0
            && !bytes::lex_lt(cbor::encoding(done.last().0), cbor::encoding(key))
}

/// Where no pair can follow the pairs read so far, no list of more pairs fits.
proof fn lemma_pairs_stuck(done: Seq<(Value, Value)>, n: nat, bytes: Seq<u8>, depth: nat)
    requires
        done.len() < n,
        forall|i: int|
            0 <= i < done.len() ==> cbor::canonical_within((#[trigger] done[i]).0, depth)
                && cbor::canonical_within(done[i].1, depth),
        cbor::pairs_encoding(done).is_prefix_of(bytes),
        no_pair(done, bytes.skip(cbor::pairs_encoding(done).len() as int), depth),
    ensures
        forall|pairs: Seq<(Value, Value)>|
            pairs.len() == n && (forall|i: int|
                0 <= i < pairs.len() ==> cbor::canonical_within((#[trigger] pairs[i]).0, depth)
                    && cbor::canonical_within(pairs[i].1, depth)) && (forall|i: int|
                0 <= i < pairs.len() - 1 ==> #[trigger] cbor::key_ascends(pairs, i))
                ==> !(#[trigger] cbor::pairs_encoding(pairs)).is_prefix_of(bytes),
{
    assert forall|pairs: Seq<(Value, Value)>|
        pairs.len() == n && (forall|i: int|
            0 <= i < pairs.len() ==> cbor::canonical_within((#[trigger] pairs[i]).0, depth)
                && cbor::canonical_within(pairs[i].1, depth)) && (forall|i: int|
            0 <= i < pairs.len() - 1 ==> #[trigger] cbor::key_ascends(
                pairs,
                i,
            )) implies !(#[trigger] cbor::pairs_encoding(pairs)).is_prefix_of(bytes) by {
        if cbor::pairs_encoding(pairs).is_prefix_of(bytes) {
            let at = done.len() as int;
            let first = pairs.take(at);
            let last = pairs.skip(at);
            cbor_lemmas::lemma_pairs_split(pairs, at);
            cbor_lemmas::lemma_prefix_tail(
                cbor::pairs_encoding(first),
                cbor::pairs_encoding(last),
                bytes,
            );
            assert forall|i: int| 0 <= i < first.len() implies cbor::canonical_within(
                (#[trigger] first[i]).0,
                depth,
            ) && cbor::canonical_within(first[i].1, depth) by {
                assert(first[i] == pairs[i]);
            }
            cbor_lemmas::lemma_pairs_unique(done, depth, first, depth, bytes);
            let after = bytes.skip(cbor::pairs_encoding(done).len() as int);
            assert(last[0] == pairs[at]);
            cbor_lemmas::lemma_prefix_tail(
                cbor::encoding(last[0].0) + cbor::encoding(last[0].1),
                cbor::pairs_encoding(last.drop_first()),
                after,
            );
            assert(cbor::canonical_within(pairs[at].0, depth));
            assert(cbor::canonical_within(pairs[at].1, depth));
            assert(done.last() == pairs[at - 1]);
            assert(cbor::key_ascends(pairs, at - 1));
        }
    }
}

/// Reads the shortest head of an item.
fn read_head(bytes: &[u8], at: usize) -> (read: Option<(u8, u64, usize)>)
    requires
        at <= bytes@.len(),
    ensures
        match read {
            Some((major, n, next)) => {
                &&& major < 8
                &&& at < next <= bytes@.len()
                &&& bytes@.subrange(at as int, next as int) == cbor::head(major, n)
            },
            None => forall|major: u8, n: u64|
                major < 8 ==> !(#[trigger] cbor::head(major, n)).is_prefix_of(
                    bytes@.skip(at as int),
                ),
        },
{
    let ghost rest = bytes@.skip(at as int);
    proof {
        assert forall|major: u8, n: u64|
            major < 8 && (#[trigger] cbor::head(major, n)).is_prefix_of(rest) implies {
            let info = (rest[0] % 32) as int;
            &&& rest.len() >= cbor_lemmas::head_width(info)
            &&& info <= 27
            &&& major == rest[0] / 32
            &&& info == 24 ==> rest[1] == n && n >= 24
            &&& info == 25 ==> rest.subrange(1, 3) == cbor::be2(n) && n >= 0x100 && n < 0x1_0000
            &&& info == 26 ==> rest.subrange(1, 5) == cbor::be4(n) && n >= 0x1_0000 && n
                < 0x1_0000_0000
            &&& info == 27 ==> rest.subrange(1, 9) == cbor::be8(n) && n >= 0x1_0000_0000
        } by {
            cbor_lemmas::lemma_head_first(major, n);
            let h = cbor::head(major, n);
            assert(h[0] == rest[0]);
            assert(h == rest.subrange(0, h.len() as int));
            let info = (rest[0] % 32) as int;
            if info == 24 {
                assert(h[1] == rest[1]);
            } else if info == 25 {
                assert(rest.subrange(1, 3) =~= h.skip(1));
                assert(h.skip(1) =~= cbor::be2(n));
            } else if info == 26 {
                assert(rest.subrange(1, 5) =~= h.skip(1));
                assert(h.skip(1) =~= cbor::be4(n));
            } else if info == 27 {
                assert(rest.subrange(1, 9) =~= h.skip(1));
                assert(h.skip(1) =~= cbor::be8(n));
            }
        }
    }
    let left: usize = bytes.len() - at;
    if left == 0 {
        return None;
    }
    let first: u8 = bytes[at];
    assert(first == rest[0]);
    let major: u8 = first / 32;
    let info: u8 = first % 32;
    if info < 24 {
        assert(bytes@.subrange(at as int, at + 1) =~= cbor::head(major, info as u64));
        return Some((major, info as u64, at + 1));
    }
    if info == 24 {
        if left < 2 {
            return None;
        }
        let n: u64 = bytes[at + 1] as u64;
        assert(rest[1] == n);
        if n < 24 {
            return None;
        }
        assert(bytes@.subrange(at as int, at + 2) =~= cbor::head(major, n));
        return Some((major, n, at + 2));
    }
    if info == 25 {
        if left < 3 {
            return None;
        }
        let b0: u64 = bytes[at + 1] as u64;
        let b1: u64 = bytes[at + 2] as u64;
        let n: u64 = (b0 << 8) | b1;
        assert((n >> 8) as u8 == b0 && n as u8 == b1 && n < 0x1_0000) by (bit_vector)
            requires
                b0 < 0x100,
                b1 < 0x100,
                n == (b0 << 8) | b1,
        ;
        assert(rest.subrange(1, 3) =~= cbor::be2(n));
        if n < 0x100 {
            proof {
                cbor_lemmas::lemma_be2_all(n);
            }
            return None;
        }
        assert(bytes@.subrange(at as int, at + 3) =~= cbor::head(major, n));
        return Some((major, n, at + 3));
    }
    if info == 26 {
        if left < 5 {
            return None;
        }
        let b0: u64 = bytes[at + 1] as u64;
        let b1: u64 = bytes[at + 2] as u64;
        let b2: u64 = bytes[at + 3] as u64;
        let b3: u64 = bytes[at + 4] as u64;
        let n: u64 = (b0 << 24) | (b1 << 16) | (b2 << 8) | b3;
        assert((n >> 24) as u8 == b0 && (n >> 16) as u8 == b1 && (n >> 8) as u8 == b2 && n as u8
            == b3 && n < 0x1_0000_0000) by (bit_vector)
            requires
                b0 < 0x100,
                b1 < 0x100,
                b2 < 0x100,
                b3 < 0x100,
                n == (b0 << 24) | (b1 << 16) | (b2 << 8) | b3,
        ;
        assert(rest.subrange(1, 5) =~= cbor::be4(n));
        if n < 0x1_0000 {
            proof {
                cbor_lemmas::lemma_be4_all(n);
            }
            return None;
        }
        assert(bytes@.subrange(at as int, at + 5) =~= cbor::head(major, n));
        return Some((major, n, at + 5));
    }
    if info == 27 {
        if left < 9 {
            return None;
        }
        let b0: u64 = bytes[at + 1] as u64;
        let b1: u64 = bytes[at + 2] as u64;
        let b2: u64 = bytes[at + 3] as u64;
        let b3: u64 = bytes[at + 4] as u64;
        let b4: u64 = bytes[at + 5] as u64;
        let b5: u64 = bytes[at + 6] as u64;
        let b6: u64 = bytes[at + 7] as u64;
        let b7: u64 = bytes[at + 8] as u64;
        let n: u64 = (b0 << 56) | (b1 << 48) | (b2 << 40) | (b3 << 32) | (b4 << 24) | (b5 << 16) | (
        b6 << 8) | b7;
        assert((n >> 56) as u8 == b0 && (n >> 48) as u8 == b1 && (n >> 40) as u8 == b2 && (n
            >> 32) as u8 == b3 && (n >> 24) as u8 == b4 && (n >> 16) as u8 == b5 && (n >> 8) as u8
            == b6 && n as u8 == b7) by (bit_vector)
            requires
                b0 < 0x100,
                b1 < 0x100,
                b2 < 0x100,
                b3 < 0x100,
                b4 < 0x100,
                b5 < 0x100,
                b6 < 0x100,
                b7 < 0x100,
                n == (b0 << 56) | (b1 << 48) | (b2 << 40) | (b3 << 32) | (b4 << 24) | (b5 << 16) | (
                b6 << 8) | b7,
        ;
        assert(rest.subrange(1, 9) =~= cbor::be8(n));
        if n < 0x1_0000_0000 {
            proof {
                cbor_lemmas::lemma_be8_all(n);
            }
            return None;
        }
        assert(bytes@.subrange(at as int, at + 9) =~= cbor::head(major, n));
        return Some((major, n, at + 9));
    }
    None
}

/// A copy of `bytes[at..at + n]`, if there are that many bytes.
fn read_bytes(bytes: &[u8], at: usize, n: u64) -> (read: Option<Vec<u8>>)
    requires
        at <= bytes@.len(),
    ensures
        match read {
            Some(content) => {
                &&& content@.len() == n
                &&& at + n <= bytes@.len()
                &&& content@ == bytes@.subrange(at as int, at + n)
            },
            None => n > bytes@.len() - at,
        },
{
    let left: usize = bytes.len() - at;
    if n > left as u64 {
        return None;
    }
    let n: usize = n as usize;
    Some(to_vec(&bytes[at..at + n]))
}

/// Reads the one canonical value with at most `depth` nested levels that
/// starts at `at`, and where it ends.
fn read_value(bytes: &[u8], at: usize, depth: usize) -> (read: Option<(CanonicalValue, usize)>)
    requires
        at <= bytes@.len(),
    ensures
        match read {
            Some((value, next)) => {
                &&& at < next <= bytes@.len()
                &&& cbor::canonical_within(value@, depth as nat)
                &&& bytes@.subrange(at as int, next as int) == cbor::encoding(value@)
            },
            None => no_value(bytes@.skip(at as int), depth as nat),
        },
    decreases depth, 1nat,
{
    let ghost rest = bytes@.skip(at as int);
    let (major, n, next): (u8, u64, usize) = match read_head(bytes, at) {
        Some(read) => read,
        None => {
            proof {
                assert forall|value: Value| #[trigger]
                    cbor::canonical_within(
                        value,
                        depth as nat,
                    ) implies !cbor::encoding(value).is_prefix_of(rest) by {
                    cbor_lemmas::lemma_argument_fits(value, depth as nat);
                    let h = cbor::head(cbor::major_of(value), cbor::argument_of(value) as u64);
                    if cbor::encoding(value).is_prefix_of(rest) {
                        cbor_lemmas::lemma_prefix_tail(h, cbor_lemmas::body(value), rest);
                    }
                }
            }
            return None;
        },
    };
    let ghost h = cbor::head(major, n);
    let ghost after = bytes@.skip(next as int);
    proof {
        assert(rest.subrange(0, h.len() as int) =~= bytes@.subrange(at as int, next as int));
        assert(h.is_prefix_of(rest));
        assert(rest.skip(h.len() as int) =~= after);
    }
    if major == 0 {
        let value = CanonicalValue::Unsigned(n);
        assert(cbor::encoding(value@) =~= h);
        return Some((value, next));
    }
    if major == 1 {
        if n > 0x7fff_ffff_ffff_ffff {
            proof {
                lemma_no_value(rest, major, n, depth as nat);
            }
            return None;
        }
        let value = CanonicalValue::Negative(-1 - (n as i64));
        assert(cbor::encoding(value@) =~= h);
        return Some((value, next));
    }
    if major == 2 {
        match read_bytes(bytes, next, n) {
            Some(content) => {
                let ghost total = bytes.len();
                let end: usize = next + content.len();
                let value = CanonicalValue::Bytes(content);
                assert(cbor::encoding(value@) =~= bytes@.subrange(at as int, end as int));
                return Some((value, end));
            },
            None => {
                proof {
                    lemma_no_value(rest, major, n, depth as nat);
                }
                return None;
            },
        }
    }
    if major == 3 {
        let content: Vec<u8> = match read_bytes(bytes, next, n) {
            Some(content) => content,
            None => {
                proof {
                    lemma_no_value(rest, major, n, depth as nat);
                }
                return None;
            },
        };
        let ghost total = bytes.len();
        let end: usize = next + content.len();
        let ghost raw = content@;
        match text_from_utf8(content) {
            Some(text) => {
                let value = CanonicalValue::Text(text);
                assert(cbor::encoding(value@) =~= bytes@.subrange(at as int, end as int));
                return Some((value, end));
            },
            None => {
                proof {
                    assert forall|value: Value| #[trigger]
                        cbor::canonical_within(value, depth as nat) && cbor::major_of(value)
                            == major && cbor::argument_of(value)
                            == n implies !cbor_lemmas::body(value).is_prefix_of(after) by {
                        let text = value->Text_0;
                        encode_utf8_valid_utf8(text);
                        if encode_utf8(text).is_prefix_of(after) {
                            assert(encode_utf8(text) =~= raw);
                        }
                    }
                    lemma_no_value(rest, major, n, depth as nat);
                }
                return None;
            },
        }
    }
    if major == 4 {
        return read_items(bytes, at, next, n, depth);
    }
    if major == 5 {
        return read_pairs(bytes, at, next, n, depth);
    }
    if major == 7 {
        if n == 20 || n == 21 {
            let value = CanonicalValue::Bool(n == 21);
            assert(cbor::encoding(value@) =~= h);
            return Some((value, next));
        }
        if n == 22 {
            let value = CanonicalValue::Null;
            assert(cbor::encoding(value@) =~= h);
            return Some((value, next));
        }
    }
    proof {
        lemma_no_value(rest, major, n, depth as nat);
    }
    None
}

/// Reads the `n` items of an array whose head ends at `next`.
fn read_items(bytes: &[u8], at: usize, next: usize, n: u64, depth: usize) -> (read: Option<
    (CanonicalValue, usize),
>)
    requires
        at < next <= bytes@.len(),
        bytes@.subrange(at as int, next as int) == cbor::head(4, n),
    ensures
        match read {
            Some((value, end)) => {
                &&& at < end <= bytes@.len()
                &&& cbor::canonical_within(value@, depth as nat)
                &&& bytes@.subrange(at as int, end as int) == cbor::encoding(value@)
            },
            None => no_value(bytes@.skip(at as int), depth as nat),
        },
    decreases depth, 0nat,
{
    let ghost rest = bytes@.skip(at as int);
    let ghost h = cbor::head(4, n);
    let ghost after = bytes@.skip(next as int);
    proof {
        assert(rest.subrange(0, h.len() as int) =~= bytes@.subrange(at as int, next as int));
        assert(h.is_prefix_of(rest));
        assert(rest.skip(h.len() as int) =~= after);
    }
    if depth == 0 {
        proof {
            lemma_no_value(rest, 4, n, depth as nat);
        }
        return None;
    }
    let mut items: Vec<CanonicalValue> = Vec::new();
    let mut end: usize = next;
    let mut count: u64 = 0;
    assert(value::items_view(items@) =~= Seq::<Value>::empty());
    assert(bytes@.subrange(next as int, end as int) =~= cbor::items_encoding(
        value::items_view(items@),
    ));
    while count < n
        invariant
            depth > 0,
            at < next <= end <= bytes@.len(),
            count <= n,
            items@.len() == count,
            rest == bytes@.skip(at as int),
            after == bytes@.skip(next as int),
            h == cbor::head(4, n),
            h.is_prefix_of(rest),
            rest.skip(h.len() as int) == after,
            bytes@.subrange(next as int, end as int) == cbor::items_encoding(
                value::items_view(items@),
            ),
            forall|j: int|
                0 <= j < count ==> cbor::canonical_within(
                    #[trigger] value::items_view(items@)[j],
                    (depth - 1) as nat,
                ),
        decreases n - count,
    {
        let ghost done = value::items_view(items@);
        match read_value(bytes, end, depth - 1) {
            Some((item, item_end)) => {
                proof {
                    cbor_lemmas::lemma_items_push(done, item@);
                }
                let ghost item_model = item@;
                items.push(item);
                proof {
                    assert(value::items_view(items@) =~= done.push(item_model));
                    assert(bytes@.subrange(next as int, item_end as int) =~= bytes@.subrange(
                        next as int,
                        end as int,
                    ) + bytes@.subrange(end as int, item_end as int));
                }
                end = item_end;
                count += 1;
            },
            None => {
                proof {
                    let read = cbor::items_encoding(done);
                    assert(after.subrange(0, read.len() as int) =~= read);
                    assert(after.skip(read.len() as int) =~= bytes@.skip(end as int));
                    lemma_items_stuck(done, n as nat, after, (depth - 1) as nat);
                    assert forall|value: Value| #[trigger]
                        cbor::canonical_within(value, depth as nat) && cbor::major_of(value) == 4
                            && cbor::argument_of(value)
                            == n implies !cbor_lemmas::body(value).is_prefix_of(after) by {
                        let list = value->Array_0;
                        assert(value == Value::Array(list));
                        assert(!cbor::items_encoding(list).is_prefix_of(after));
                    }
                    lemma_no_value(rest, 4, n, depth as nat);
                }
                return None;
            },
        }
    }
    let ghost models = value::items_view(items@);
    proof {
        value::lemma_array_view(items);
        assert(bytes@.subrange(at as int, end as int) =~= bytes@.subrange(at as int, next as int)
            + bytes@.subrange(next as int, end as int));
    }
    let value = CanonicalValue::Array(items);
    assert(cbor::encoding(value@) =~= h + cbor::items_encoding(models));
    Some((value, end))
}

/// Reads the `n` pairs of a map whose head ends at `next`.
fn read_pairs(bytes: &[u8], at: usize, next: usize, n: u64, depth: usize) -> (read: Option<
    (CanonicalValue, usize),
>)
    requires
        at < next <= bytes@.len(),
        bytes@.subrange(at as int, next as int) == cbor::head(5, n),
    ensures
        match read {
            Some((value, end)) => {
                &&& at < end <= bytes@.len()
                &&& cbor::canonical_within(value@, depth as nat)
                &&& bytes@.subrange(at as int, end as int) == cbor::encoding(value@)
            },
            None => no_value(bytes@.skip(at as int), depth as nat),
        },
    decreases depth, 0nat,
{
    let ghost rest = bytes@.skip(at as int);
    let ghost h = cbor::head(5, n);
    let ghost after = bytes@.skip(next as int);
    proof {
        assert(rest.subrange(0, h.len() as int) =~= bytes@.subrange(at as int, next as int));
        assert(h.is_prefix_of(rest));
        assert(rest.skip(h.len() as int) =~= after);
    }
    if depth == 0 {
        proof {
            lemma_no_value(rest, 5, n, depth as nat);
        }
        return None;
    }
    let mut pairs: Vec<(CanonicalValue, CanonicalValue)> = Vec::new();
    let mut end: usize = next;
    let mut count: u64 = 0;
    let mut last_key_at: usize = next;
    let mut last_key_end: usize = next;
    assert(value::pairs_view(pairs@) =~= Seq::<(Value, Value)>::empty());
    assert(bytes@.subrange(next as int, end as int) =~= cbor::pairs_encoding(
        value::pairs_view(pairs@),
    ));
    while count < n
        invariant
            depth > 0,
            at < next <= end <= bytes@.len(),
            next <= last_key_at <= last_key_end <= bytes@.len(),
            count <= n,
            pairs@.len() == count,
            rest == bytes@.skip(at as int),
            after == bytes@.skip(next as int),
            h == cbor::head(5, n),
            h.is_prefix_of(rest),
            rest.skip(h.len() as int) == after,
            bytes@.subrange(next as int, end as int) == cbor::pairs_encoding(
                value::pairs_view(pairs@),
            ),
            count > 0 ==> bytes@.subrange(last_key_at as int, last_key_end as int)
                == cbor::encoding(value::pairs_view(pairs@).last().0),
            forall|j: int|
                0 <= j < count ==> {
                    &&& cbor::canonical_within(
                        (#[trigger] value::pairs_view(pairs@)[j]).0,
                        (depth - 1) as nat,
                    )
                    &&& cbor::canonical_within(value::pairs_view(pairs@)[j].1, (depth - 1) as nat)
                },
            forall|j: int|
                0 <= j < count - 1 ==> #[trigger] cbor::key_ascends(value::pairs_view(pairs@), j),
        decreases n - count,
    {
        let ghost done = value::pairs_view(pairs@);
        let ghost inner = (depth - 1) as nat;
        let ghost tail = bytes@.skip(end as int);
        proof {
            let read = cbor::pairs_encoding(done);
            assert(after.subrange(0, read.len() as int) =~= read);
            assert(after.skip(read.len() as int) =~= tail);
        }
        match read_pair(bytes, end, depth - 1) {
            Some((key, value, key_end, pair_end)) => {
                if count > 0 && !bytes_less(
                    &bytes[last_key_at..last_key_end],
                    &bytes[end..key_end],
                ) {
                    proof {
                        assert forall|other: Value, item: Value| #[trigger]
                            cbor::canonical_within(other, inner) && #[trigger]
                            cbor::canonical_within(item, inner) && (cbor::encoding(other)
                                + cbor::encoding(item)).is_prefix_of(tail) implies done.len() > 0
                            && !bytes::lex_lt(
                            cbor::encoding(done.last().0),
                            cbor::encoding(other),
                        ) by {
                            cbor_lemmas::lemma_prefix_tail(
                                cbor::encoding(other),
                                cbor::encoding(item),
                                tail,
                            );
                            assert(tail.subrange(0, key_end - end) =~= bytes@.subrange(
                                end as int,
                                key_end as int,
                            ));
                            cbor_lemmas::lemma_encoding_unique(key@, inner, other, inner, tail);
                        }
                        lemma_pairs_refused(done, n, rest, after, depth as nat);
                    }
                    return None;
                }
                proof {
                    cbor_lemmas::lemma_pairs_push(done, (key@, value@));
                }
                let ghost pair_model = (key@, value@);
                pairs.push((key, value));
                proof {
                    let models = value::pairs_view(pairs@);
                    assert(models =~= done.push(pair_model));
                    assert(bytes@.subrange(next as int, pair_end as int) =~= bytes@.subrange(
                        next as int,
                        end as int,
                    ) + bytes@.subrange(end as int, key_end as int) + bytes@.subrange(
                        key_end as int,
                        pair_end as int,
                    ));
                    assert forall|j: int| 0 <= j < count implies #[trigger] cbor::key_ascends(
                        models,
                        j,
                    ) by {
                        if j < count - 1 {
                            assert(cbor::key_ascends(done, j));
                            assert(models[j] == done[j] && models[j + 1] == done[j + 1]);
                        }
                    }
                }
                last_key_at = end;
                last_key_end = key_end;
                end = pair_end;
                count += 1;
            },
            None => {
                proof {
                    lemma_pairs_refused(done, n, rest, after, depth as nat);
                }
                return None;
            },
        }
    }
    let ghost models = value::pairs_view(pairs@);
    proof {
        value::lemma_entries_view(pairs);
        assert(bytes@.subrange(at as int, end as int) =~= bytes@.subrange(at as int, next as int)
            + bytes@.subrange(next as int, end as int));
    }
    let value = CanonicalValue::Entries(pairs);
    assert(cbor::encoding(value@) =~= h + cbor::pairs_encoding(models));
    Some((value, end))
}

/// Where no pair can follow the pairs read so far, no map value fits.
proof fn lemma_pairs_refused(
    done: Seq<(Value, Value)>,
    n: u64,
    rest: Seq<u8>,
    after: Seq<u8>,
    depth: nat,
)
    requires
        depth > 0,
        done.len() < n,
        cbor::head(5, n).is_prefix_of(rest),
        rest.skip(cbor::head(5, n).len() as int) == after,
        forall|i: int|
            0 <= i < done.len() ==> cbor::canonical_within(
                (#[trigger] done[i]).0,
                (depth - 1) as nat,
            ) && cbor::canonical_within(done[i].1, (depth - 1) as nat),
        cbor::pairs_encoding(done).is_prefix_of(after),
        no_pair(done, after.skip(cbor::pairs_encoding(done).len() as int), (depth - 1) as nat),
    ensures
        no_value(rest, depth),
{
    lemma_pairs_stuck(done, n as nat, after, (depth - 1) as nat);
    assert forall|value: Value| #[trigger]
        cbor::canonical_within(value, depth) && cbor::major_of(value) == 5 && cbor::argument_of(
            value,
        ) == n implies !cbor_lemmas::body(value).is_prefix_of(after) by {
        let list = value->Entries_0;
        assert(value == Value::Entries(list));
        assert(!cbor::pairs_encoding(list).is_prefix_of(after));
    }
    lemma_no_value(rest, 5, n, depth);
}

/// Reads a key and the value after it, and where each ends.
fn read_pair(bytes: &[u8], at: usize, depth: usize) -> (read: Option<
    (CanonicalValue, CanonicalValue, usize, usize),
>)
    requires
        at <= bytes@.len(),
    ensures
        match read {
            Some((key, value, key_end, end)) => {
                &&& at < key_end < end <= bytes@.len()
                &&& cbor::canonical_within(key@, depth as nat)
                &&& cbor::canonical_within(value@, depth as nat)
                &&& bytes@.subrange(at as int, key_end as int) == cbor::encoding(key@)
                &&& bytes@.subrange(key_end as int, end as int) == cbor::encoding(value@)
            },
            None => forall|key: Value, value: Value| #[trigger]
                cbor::canonical_within(key, depth as nat) && #[trigger] cbor::canonical_within(
                    value,
                    depth as nat,
                ) ==> !(cbor::encoding(key) + cbor::encoding(value)).is_prefix_of(
                    bytes@.skip(at as int),
                ),
        },
    decreases depth, 2nat,
{
    let ghost rest = bytes@.skip(at as int);
    let (key, key_end): (CanonicalValue, usize) = match read_value(bytes, at, depth) {
        Some(read) => read,
        None => {
            proof {
                assert forall|key: Value, value: Value| #[trigger]
                    cbor::canonical_within(key, depth as nat) && #[trigger] cbor::canonical_within(
                        value,
                        depth as nat,
                    ) implies !(cbor::encoding(key) + cbor::encoding(value)).is_prefix_of(rest) by {
                    if (cbor::encoding(key) + cbor::encoding(value)).is_prefix_of(rest) {
                        cbor_lemmas::lemma_prefix_tail(
                            cbor::encoding(key),
                            cbor::encoding(value),
                            rest,
                        );
                    }
                }
            }
            return None;
        },
    };
    match read_value(bytes, key_end, depth) {
        Some((value, end)) => Some((key, value, key_end, end)),
        None => {
            proof {
                assert forall|other: Value, value: Value| #[trigger]
                    cbor::canonical_within(other, depth as nat)
                        && #[trigger] cbor::canonical_within(
                        value,
                        depth as nat,
                    ) implies !(cbor::encoding(other) + cbor::encoding(value)).is_prefix_of(
                    rest,
                ) by {
                    if (cbor::encoding(other) + cbor::encoding(value)).is_prefix_of(rest) {
                        cbor_lemmas::lemma_prefix_tail(
                            cbor::encoding(other),
                            cbor::encoding(value),
                            rest,
                        );
                        assert(rest.subrange(0, key_end - at) =~= bytes@.subrange(
                            at as int,
                            key_end as int,
                        ));
                        cbor_lemmas::lemma_encoding_unique(
                            key@,
                            depth as nat,
                            other,
                            depth as nat,
                            rest,
                        );
                        assert(rest.skip(key_end - at) =~= bytes@.skip(key_end as int));
                    }
                }
            }
            None
        },
    }
}

/// Encodes a value in its deterministic byte form.
pub fn encode_value(value: &CanonicalValue) -> (encoded: Result<Vec<u8>, CanonicalError>)
    ensures
        match encoded {
            Ok(bytes) => cbor::canonical(value@) && bytes@ == cbor::encoding(value@),
            Err(error) => !cbor::canonical(value@) && error == CanonicalError::NotCanonical,
        },
{
    let mut out: Vec<u8> = Vec::new();
    if write_value(&mut out, value, MAX_CANONICAL_DEPTH) {
        assert(out@ =~= cbor::encoding(value@));
        Ok(out)
    } else {
        Err(CanonicalError::NotCanonical)
    }
}

/// Decodes the one value whose deterministic byte form is `bytes`.
pub fn decode_deterministic_cbor(bytes: &[u8]) -> (decoded: Result<CanonicalValue, CanonicalError>)
    ensures
        match decoded {
            Ok(value) => cbor::canonical(value@) && cbor::encoding(value@) == bytes@,
            Err(error) => {
                &&& error == CanonicalError::NotCanonical
                &&& forall|value: Value| #[trigger]
                    cbor::canonical(value) ==> cbor::encoding(value) != bytes@
            },
        },
{
    let ghost depth = MAX_CANONICAL_DEPTH as nat;
    proof {
        assert(bytes@.skip(0) =~= bytes@);
        assert forall|value: Value| #[trigger] cbor::canonical(value) && cbor::encoding(value)
            == bytes@ implies cbor::encoding(value).is_prefix_of(bytes@) by {
            assert(bytes@.subrange(0, bytes@.len() as int) =~= bytes@);
        }
    }
    match read_value(bytes, 0, MAX_CANONICAL_DEPTH) {
        Some((value, end)) => {
            if end == bytes.len() {
                assert(bytes@.subrange(0, end as int) =~= bytes@);
                Ok(value)
            } else {
                proof {
                    assert forall|other: Value| #[trigger]
                        cbor::canonical(other) implies cbor::encoding(other) != bytes@ by {
                        if cbor::encoding(other) == bytes@ {
                            cbor_lemmas::lemma_encoding_unique(value@, depth, other, depth, bytes@);
                        }
                    }
                }
                Err(CanonicalError::NotCanonical)
            }
        },
        None => {
            proof {
                assert forall|other: Value| #[trigger]
                    cbor::canonical(other) implies cbor::encoding(other) != bytes@ by {
                    assert(cbor::canonical_within(other, depth));
                }
            }
            Err(CanonicalError::NotCanonical)
        },
    }
}

/// Decodes as [`decode_deterministic_cbor`] does, but refuses more than
/// `limit` bytes.
pub fn decode_deterministic_cbor_with_limit(bytes: &[u8], limit: usize) -> (decoded: Result<
    CanonicalValue,
    CanonicalError,
>)
    ensures
        match decoded {
            Ok(value) => {
                &&& bytes@.len() <= limit
                &&& cbor::canonical(value@)
                &&& cbor::encoding(value@) == bytes@
            },
            Err(CanonicalError::LimitExceeded) => bytes@.len() > limit,
            Err(CanonicalError::NotCanonical) => {
                &&& bytes@.len() <= limit
                &&& forall|value: Value| #[trigger]
                    cbor::canonical(value) ==> cbor::encoding(value) != bytes@
            },
        },
{
    if bytes.len() > limit {
        Err(CanonicalError::LimitExceeded)
    } else {
        decode_deterministic_cbor(bytes)
    }
}

/// Decodes bytes that are exactly the byte form of one value.
pub fn decode_exact(bytes: &[u8]) -> (decoded: Option<CanonicalValue>)
    ensures
        match decoded {
            Some(value) => {
                &&& cbor::is_encoded(bytes@)
                &&& value@ == cbor::decoded(bytes@)
                &&& cbor::canonical(value@)
                &&& cbor::encoding(value@) == bytes@
            },
            None => !cbor::is_encoded(bytes@),
        },
{
    match decode_deterministic_cbor(bytes) {
        Ok(value) => {
            proof {
                cbor_lemmas::lemma_decoded(value@);
            }
            Some(value)
        },
        Err(_) => None,
    }
}

/// The byte form of a canonical value.
pub fn canonical_bytes(value: &CanonicalValue) -> (bytes: Vec<u8>)
    requires
        cbor::canonical(value@),
    ensures
        bytes@ == cbor::encoding(value@),
{
    match encode_value(value) {
        Ok(bytes) => bytes,
        Err(_) => Vec::new(),
    }
}

} // verus!
