//! What holds of the texts, numbers and bytes of the wire, told by their characters
//! and bytes.

use vstd::prelude::*;
use vstd::utf8::*;
use crate::outside;
use crate::wire::base64;
use crate::wire::bytes;
use crate::wire::cbor;
use crate::wire::digest;
use crate::wire::id;
use crate::wire::key;
use crate::wire::number;
use crate::wire::text;
use crate::wire::value::Value;

verus! {

/// An identifier of the seventh version: sixteen bytes with the marks of version and
/// variant.
pub proof fn law_uuid_bears_its_marks(bytes: Seq<u8>)
    ensures
        id::is_uuid_v7(bytes) <==> {
            &&& bytes.len() == 16
            &&& 0x70 <= bytes[6] <= 0x7f
            &&& 0x80 <= bytes[8] <= 0xbf
        },
{
}

/// A key is any thirty-two bytes that are not all zero.
pub proof fn law_key_is_not_zero(bytes: Seq<u8>)
    ensures
        key::is_public_key(bytes) <==> bytes.len() == 32 && exists|i: int|
            0 <= i < 32 && #[trigger] bytes[i] != 0,
{
    if bytes.len() == 32 && !bytes::all_zero(bytes) {
        let i = choose|i: int| 0 <= i < bytes.len() && bytes[i] != 0;
        assert(bytes[i] != 0);
    }
}

/// A time is told within the numbers that every reader holds exactly, and written as
/// its own number.
pub proof fn law_time_is_told_exactly(millis: i64)
    ensures
        number::is_utc_millis(millis as int) <==> -9_007_199_254_740_991 <= millis
            <= 9_007_199_254_740_991,
        millis >= 0 ==> number::millis_model(millis) == Value::Unsigned(millis as u64),
        millis < 0 ==> number::millis_model(millis) == Value::Negative(millis),
{
}

/// A digest in a domain is that of the domain followed by the bytes.
pub proof fn law_digest_covers_its_domain(domain: Seq<char>, bytes: Seq<u8>)
    ensures
        digest::hash_in_domain(domain, bytes) == outside::sha256_of(encode_utf8(domain) + bytes),
{
}

/// The number that a lower-case hexadecimal digit stands for.
pub open spec fn hex_value(digit: char) -> int {
    if '0' <= digit <= '9' {
        digit as int - '0' as int
    } else {
        digit as int - 'a' as int + 10
    }
}

/// A character is a lower-case hexadecimal digit.
pub open spec fn is_hex_digit(digit: char) -> bool {
    '0' <= digit <= '9' || 'a' <= digit <= 'f'
}

/// Two digits stand for each byte, the high half first.
pub proof fn law_hex_stands_for_its_bytes(raw: Seq<u8>, i: int)
    requires
        0 <= i < raw.len(),
    ensures
        text::hex(raw).len() == 2 * raw.len(),
        is_hex_digit(text::hex(raw)[2 * i]),
        is_hex_digit(text::hex(raw)[2 * i + 1]),
        16 * hex_value(text::hex(raw)[2 * i]) + hex_value(text::hex(raw)[2 * i + 1]) == raw[i],
{
    assert((2 * i) / 2 == i && (2 * i) % 2 == 0);
    assert((2 * i + 1) / 2 == i && (2 * i + 1) % 2 == 1);
    assert(text::hex(raw)[2 * i] == text::hex_char((raw[i] / 16) as int));
    assert(text::hex(raw)[2 * i + 1] == text::hex_char((raw[i] % 16) as int));
}

/// The text of an identifier is that of its bytes, with hyphens behind the fourth,
/// the sixth, the eighth and the tenth.
pub proof fn law_hyphenated_text_is_hex_in_groups(raw: Seq<u8>)
    requires
        raw.len() == 16,
    ensures
        ({
            let told = text::hyphenated(raw);
            let digits = text::hex(raw);
            &&& told.len() == 36
            &&& told[8] == '-' && told[13] == '-' && told[18] == '-' && told[23] == '-'
            &&& told.subrange(0, 8) == digits.subrange(0, 8)
            &&& told.subrange(9, 13) == digits.subrange(8, 12)
            &&& told.subrange(14, 18) == digits.subrange(12, 16)
            &&& told.subrange(19, 23) == digits.subrange(16, 20)
            &&& told.subrange(24, 36) == digits.subrange(20, 32)
        }),
{
    let told = text::hyphenated(raw);
    let digits = text::hex(raw);
    assert(text::hex(raw.subrange(0, 4)) =~= digits.subrange(0, 8));
    assert(text::hex(raw.subrange(4, 6)) =~= digits.subrange(8, 12));
    assert(text::hex(raw.subrange(6, 8)) =~= digits.subrange(12, 16));
    assert(text::hex(raw.subrange(8, 10)) =~= digits.subrange(16, 20));
    assert(text::hex(raw.subrange(10, 16)) =~= digits.subrange(20, 32));
    assert(told.subrange(0, 8) =~= digits.subrange(0, 8));
    assert(told.subrange(9, 13) =~= digits.subrange(8, 12));
    assert(told.subrange(14, 18) =~= digits.subrange(12, 16));
    assert(told.subrange(19, 23) =~= digits.subrange(16, 20));
    assert(told.subrange(24, 36) =~= digits.subrange(20, 32));
}

/// The number that a digit of the address-safe alphabet stands for.
pub open spec fn base64_value(digit: char) -> int {
    if 'A' <= digit <= 'Z' {
        digit as int - 'A' as int
    } else if 'a' <= digit <= 'z' {
        digit as int - 'a' as int + 26
    } else if '0' <= digit <= '9' {
        digit as int - '0' as int + 52
    } else if digit == '-' {
        62
    } else {
        63
    }
}

/// Four digits stand for three bytes, the high bits first.
pub proof fn law_base64_stands_for_its_bytes(raw: Seq<u8>, i: int)
    requires
        0 <= i,
        3 * i + 2 < raw.len(),
    ensures
        ({
            let told = base64::base64url(raw);
            &&& told.len() == (raw.len() * 4 + 2) / 3
            &&& 0x40000 * base64_value(told[4 * i]) + 0x1000 * base64_value(told[4 * i + 1]) + 0x40
                * base64_value(told[4 * i + 2]) + base64_value(told[4 * i + 3]) == 0x10000
                * raw[3 * i] + 0x100 * raw[3 * i + 1] + raw[3 * i + 2]
        }),
{
    let told = base64::base64url(raw);
    assert(4 * i + 3 < told.len());
    assert((4 * i) / 4 == i && (4 * i) % 4 == 0);
    assert((4 * i + 1) / 4 == i && (4 * i + 1) % 4 == 1);
    assert((4 * i + 2) / 4 == i && (4 * i + 2) % 4 == 2);
    assert((4 * i + 3) / 4 == i && (4 * i + 3) % 4 == 3);
    lemma_base64_digit(base64::sextet(raw, 4 * i));
    lemma_base64_digit(base64::sextet(raw, 4 * i + 1));
    lemma_base64_digit(base64::sextet(raw, 4 * i + 2));
    lemma_base64_digit(base64::sextet(raw, 4 * i + 3));
}

/// A digit of the address-safe alphabet stands for its own number.
proof fn lemma_base64_digit(sextet: int)
    ensures
        0 <= sextet < 64 ==> base64_value(base64::base64url_char(sextet)) == sextet,
{
}

/// The number that decimal digits stand for.
pub open spec fn decimal_value(digits: Seq<char>) -> int
    decreases digits.len(),
{
    if digits.len() == 0 {
        0
    } else {
        10 * decimal_value(digits.drop_last()) + (digits.last() as int - '0' as int)
    }
}

/// Decimal digits stand for their number, without a leading zero.
pub proof fn law_decimal_stands_for_its_number(number: nat)
    ensures
        decimal_value(text::decimal(number)) == number,
        text::decimal(number).len() > 0,
        number > 0 ==> text::decimal(number)[0] != '0',
        forall|i: int|
            0 <= i < text::decimal(number).len() ==> '0' <= #[trigger] text::decimal(number)[i]
                <= '9',
    decreases number,
{
    let digits = text::decimal(number);
    if number < 10 {
        assert(digits.drop_last() =~= Seq::<char>::empty());
        assert(decimal_value(digits.drop_last()) == 0);
    } else {
        law_decimal_stands_for_its_number(number / 10);
        assert(digits.drop_last() =~= text::decimal(number / 10));
    }
}

/// A negative number is told with a minus before its digits.
pub proof fn law_sign_comes_first(number: int)
    ensures
        number >= 0 ==> text::decimal_int(number) == text::decimal(number as nat),
        number < 0 ==> {
            let told = text::decimal_int(number);
            &&& told.len() > 0
            &&& told[0] == '-'
            &&& told.subrange(1, told.len() as int) == text::decimal((-number) as nat)
        },
{
    if number < 0 {
        let told = text::decimal_int(number);
        assert(told.subrange(1, told.len() as int) =~= text::decimal((-number) as nat));
    }
}

/// One byte string comes before another exactly if it is a proper beginning of it, or
/// smaller at the first byte where they differ.
pub proof fn law_bytes_are_ordered_by_the_first_difference(a: Seq<u8>, b: Seq<u8>)
    ensures
        bytes::lex_lt(a, b) <==> a.len() < b.len() && a == b.subrange(0, a.len() as int) || exists|
            i: int,
        |
            #![trigger a[i], b[i]]
            0 <= i < a.len() && i < b.len() && a[i] < b[i] && a.subrange(0, i) == b.subrange(0, i),
{
    assert(a.subrange(0, 0) =~= b.subrange(0, 0));
    lemma_first_difference(a, b, 0);
}

/// The order of byte strings that agree up to a place.
proof fn lemma_first_difference(a: Seq<u8>, b: Seq<u8>, at: nat)
    requires
        at <= a.len(),
        at <= b.len(),
        a.subrange(0, at as int) == b.subrange(0, at as int),
    ensures
        bytes::lex_lt_from(a, b, at) <==> a.len() < b.len() && a == b.subrange(
            0,
            a.len() as int,
        ) || exists|i: int|
            #![trigger a[i], b[i]]
            0 <= i < a.len() && i < b.len() && a[i] < b[i] && a.subrange(0, i) == b.subrange(0, i),
    decreases a.len() - at,
{
    let k = at as int;
    assert forall|i: int| #![trigger a[i], b[i]] 0 <= i < k implies a[i] == b[i] by {
        assert(a.subrange(0, k)[i] == b.subrange(0, k)[i]);
    }
    if at >= b.len() {
        assert forall|i: int| #![trigger a[i], b[i]] 0 <= i < a.len() && i < b.len() implies !(a[i]
            < b[i]) by {
            assert(a[i] == b[i]);
        }
    } else if at >= a.len() {
        assert(a =~= a.subrange(0, k));
    } else if a[k] != b[k] {
        if a[k] < b[k] {
            assert(a[k] < b[k]);
        } else {
            assert forall|i: int|
                #![trigger a[i], b[i]]
                0 <= i < a.len() && i < b.len() && a[i] < b[i] implies a.subrange(0, i)
                != b.subrange(0, i) by {
                assert(i > k);
                assert(a.subrange(0, i)[k] == a[k]);
                assert(b.subrange(0, i)[k] == b[k]);
            }
            if a.len() < b.len() && a == b.subrange(0, a.len() as int) {
                assert(a[k] == b.subrange(0, a.len() as int)[k]);
            }
        }
    } else {
        assert(a.subrange(0, k + 1) =~= a.subrange(0, k).push(a[k]));
        assert(b.subrange(0, k + 1) =~= b.subrange(0, k).push(b[k]));
        lemma_first_difference(a, b, at + 1);
    }
}

/// The number that bytes stand for, the high byte first.
pub open spec fn big_endian(raw: Seq<u8>) -> int
    decreases raw.len(),
{
    if raw.len() == 0 {
        0
    } else {
        0x100 * big_endian(raw.drop_last()) + raw.last()
    }
}

/// A head holds its kind in three bits and its number in the fewest bytes that it
/// takes, the high byte first.
pub proof fn law_head_holds_its_number(major: u8, n: u64)
    requires
        major < 8,
    ensures
        ({
            let head = cbor::head(major, n);
            &&& head[0] / 32 == major
            &&& n < 24 ==> head.len() == 1 && head[0] % 32 == n
            &&& 24 <= n < 0x100 ==> head.len() == 2 && head[0] % 32 == 24
            &&& 0x100 <= n < 0x1_0000 ==> head.len() == 3 && head[0] % 32 == 25
            &&& 0x1_0000 <= n < 0x1_0000_0000 ==> head.len() == 5 && head[0] % 32 == 26
            &&& 0x1_0000_0000 <= n ==> head.len() == 9 && head[0] % 32 == 27
            &&& n >= 24 ==> big_endian(head.drop_first()) == n
        }),
{
    let head = cbor::head(major, n);
    let rest = head.drop_first();
    reveal_with_fuel(big_endian, 9);
    if n < 24 {
    } else if n < 0x100 {
        assert(rest =~= seq![n as u8]);
        assert(n as u8 == n) by (bit_vector)
            requires
                n < 0x100,
        ;
        assert(rest.drop_last() =~= Seq::<u8>::empty());
    } else if n < 0x1_0000 {
        assert(rest =~= cbor::be2(n));
        assert(0x100 * ((n >> 8) as u8) + (n as u8) == n) by (bit_vector)
            requires
                n < 0x1_0000,
        ;
        assert(rest.drop_last() =~= seq![(n >> 8) as u8]);
        assert(rest.drop_last().drop_last() =~= Seq::<u8>::empty());
    } else if n < 0x1_0000_0000 {
        assert(rest =~= cbor::be4(n));
        assert(0x100_0000 * ((n >> 24) as u8) + 0x1_0000 * ((n >> 16) as u8) + 0x100 * ((n >> 8)
            as u8) + (n as u8) == n) by (bit_vector)
            requires
                n < 0x1_0000_0000,
        ;
    } else {
        assert(rest =~= cbor::be8(n));
        assert(0x100_0000_0000_0000 * ((n >> 56) as u8) + 0x1_0000_0000_0000 * ((n >> 48) as u8)
            + 0x100_0000_0000 * ((n >> 40) as u8) + 0x1_0000_0000 * ((n >> 32) as u8)
            + 0x100_0000 * ((n >> 24) as u8) + 0x1_0000 * ((n >> 16) as u8) + 0x100 * ((n >> 8)
            as u8) + (n as u8) == n) by (bit_vector);
    }
}

/// A value is written as a head of its kind and number, and what it holds behind it.
pub proof fn law_value_is_written_behind_its_head(value: Value)
    ensures
        cbor::encoding(value) == match value {
            Value::Unsigned(n) => cbor::head(0, n),
            Value::Negative(n) => cbor::head(1, (-1 - n) as u64),
            Value::Bytes(raw) => cbor::head(2, raw.len() as u64) + raw,
            Value::Text(told) => cbor::head(3, encode_utf8(told).len() as u64) + encode_utf8(told),
            Value::Array(items) => cbor::head(4, items.len() as u64) + cbor::items_encoding(items),
            Value::Entries(pairs) => cbor::head(5, pairs.len() as u64) + cbor::pairs_encoding(
                pairs,
            ),
            Value::Bool(flag) => seq![if flag {
                0xf5u8
            } else {
                0xf4u8
            }],
            Value::Null => seq![0xf6u8],
        },
{
    assert(cbor::encoding(value) == cbor::head(
        cbor::major_of(value),
        cbor::argument_of(value) as u64,
    ) + match value {
        Value::Bytes(raw) => raw,
        Value::Text(told) => encode_utf8(told),
        Value::Array(items) => cbor::items_encoding(items),
        Value::Entries(pairs) => cbor::pairs_encoding(pairs),
        _ => Seq::empty(),
    });
    if value is Bool {
        assert(cbor::encoding(value) =~= seq![if value->Bool_0 { 0xf5u8 } else { 0xf4u8 }]);
    }
}

/// The items of a list are written one behind the other, and so are the keys and
/// values of a map.
pub proof fn law_items_are_written_in_order(
    items: Seq<Value>,
    pairs: Seq<(Value, Value)>,
    item: Value,
    pair: (Value, Value),
)
    ensures
        cbor::items_encoding(Seq::empty()) == Seq::<u8>::empty(),
        cbor::pairs_encoding(Seq::empty()) == Seq::<u8>::empty(),
        cbor::items_encoding(seq![item] + items) == cbor::encoding(item) + cbor::items_encoding(
            items,
        ),
        cbor::pairs_encoding(seq![pair] + pairs) == cbor::encoding(pair.0) + cbor::encoding(
            pair.1,
        ) + cbor::pairs_encoding(pairs),
{
    assert((seq![item] + items).drop_first() =~= items);
    assert((seq![pair] + pairs).drop_first() =~= pairs);
}

} // verus!
