//! Text forms of byte strings: lower-case hexadecimal and hyphenated UUIDs.

use vstd::prelude::*;
use vstd::utf8::*;
use crate::outside::text_from_utf8;
use crate::wire::bytes::bytes_equal;

verus! {

/// The lower-case hexadecimal digit of a number below sixteen.
pub open spec fn hex_char(nibble: int) -> char {
    if nibble < 10 {
        (48 + nibble) as char
    } else {
        (87 + nibble) as char
    }
}

/// The lower-case hexadecimal text of a byte string, two digits a byte.
pub open spec fn hex(bytes: Seq<u8>) -> Seq<char> {
    Seq::new(
        2 * bytes.len(),
        |i: int|
            if i % 2 == 0 {
                hex_char((bytes[i / 2] / 16) as int)
            } else {
                hex_char((bytes[i / 2] % 16) as int)
            },
    )
}

/// The hyphenated lower-case text of the sixteen bytes of a UUID.
pub open spec fn hyphenated(bytes: Seq<u8>) -> Seq<char> {
    hex(bytes.subrange(0, 4)) + seq!['-'] + hex(bytes.subrange(4, 6)) + seq!['-'] + hex(
        bytes.subrange(6, 8),
    ) + seq!['-'] + hex(bytes.subrange(8, 10)) + seq!['-'] + hex(bytes.subrange(10, 16))
}

/// The bytes of an ASCII text.
pub open spec fn ascii_bytes(text: Seq<char>) -> Seq<u8> {
    Seq::new(text.len(), |i: int| text[i] as u8)
}

/// A text whose UTF-8 form is the bytes of an ASCII text is that text.
pub proof fn lemma_ascii_text(text: Seq<char>, expected: Seq<char>)
    requires
        is_ascii_chars(expected),
        encode_utf8(text) == ascii_bytes(expected),
    ensures
        text == expected,
{
    is_ascii_chars_encode_utf8(expected);
    assert(encode_utf8(expected) =~= ascii_bytes(expected));
    encode_utf8_decode_utf8(text);
    encode_utf8_decode_utf8(expected);
}

/// The hexadecimal digit of a number below sixteen is ASCII and determines it.
pub proof fn lemma_hex_char(a: int, b: int)
    requires
        0 <= a < 16,
        0 <= b < 16,
    ensures
        48 <= hex_char(a) as int <= 102,
        hex_char(a) == hex_char(b) ==> a == b,
{
}

/// Hexadecimal text is ASCII.
pub proof fn lemma_hex_ascii(bytes: Seq<u8>)
    ensures
        is_ascii_chars(hex(bytes)),
        hex(bytes).len() == 2 * bytes.len(),
{
    assert forall|i: int| 0 <= i < hex(bytes).len() implies 0 <= #[trigger] hex(
        bytes,
    )[i] as nat <= 127 by {
        lemma_hex_char((bytes[i / 2] / 16) as int, 0);
        lemma_hex_char((bytes[i / 2] % 16) as int, 0);
    }
}

/// Hexadecimal text determines its bytes.
pub proof fn lemma_hex_injective(a: Seq<u8>, b: Seq<u8>)
    requires
        hex(a) == hex(b),
    ensures
        a == b,
{
    assert(hex(a).len() == 2 * a.len() && hex(b).len() == 2 * b.len());
    assert(a.len() == b.len());
    assert forall|i: int| 0 <= i < a.len() implies a[i] == b[i] by {
        assert((2 * i) / 2 == i && (2 * i) % 2 == 0 && (2 * i + 1) / 2 == i && (2 * i + 1) % 2
            == 1);
        assert(hex(a)[2 * i] == hex_char((a[i] / 16) as int));
        assert(hex(b)[2 * i] == hex_char((b[i] / 16) as int));
        assert(hex(a)[2 * i + 1] == hex_char((a[i] % 16) as int));
        assert(hex(b)[2 * i + 1] == hex_char((b[i] % 16) as int));
        lemma_hex_char((a[i] / 16) as int, (b[i] / 16) as int);
        lemma_hex_char((a[i] % 16) as int, (b[i] % 16) as int);
    }
    assert(a =~= b);
}

/// Hyphenated text determines its bytes.
pub proof fn lemma_hyphenated_injective(a: Seq<u8>, b: Seq<u8>)
    requires
        a.len() == 16,
        b.len() == 16,
        hyphenated(a) == hyphenated(b),
    ensures
        a == b,
{
    let ta = hyphenated(a);
    let tb = hyphenated(b);
    assert(hex(a.subrange(0, 4)) =~= ta.subrange(0, 8));
    assert(hex(b.subrange(0, 4)) =~= tb.subrange(0, 8));
    assert(hex(a.subrange(4, 6)) =~= ta.subrange(9, 13));
    assert(hex(b.subrange(4, 6)) =~= tb.subrange(9, 13));
    assert(hex(a.subrange(6, 8)) =~= ta.subrange(14, 18));
    assert(hex(b.subrange(6, 8)) =~= tb.subrange(14, 18));
    assert(hex(a.subrange(8, 10)) =~= ta.subrange(19, 23));
    assert(hex(b.subrange(8, 10)) =~= tb.subrange(19, 23));
    assert(hex(a.subrange(10, 16)) =~= ta.subrange(24, 36));
    assert(hex(b.subrange(10, 16)) =~= tb.subrange(24, 36));
    lemma_hex_injective(a.subrange(0, 4), b.subrange(0, 4));
    lemma_hex_injective(a.subrange(4, 6), b.subrange(4, 6));
    lemma_hex_injective(a.subrange(6, 8), b.subrange(6, 8));
    lemma_hex_injective(a.subrange(8, 10), b.subrange(8, 10));
    lemma_hex_injective(a.subrange(10, 16), b.subrange(10, 16));
    assert(a =~= a.subrange(0, 4) + a.subrange(4, 6) + a.subrange(6, 8) + a.subrange(8, 10)
        + a.subrange(10, 16));
    assert(b =~= b.subrange(0, 4) + b.subrange(4, 6) + b.subrange(6, 8) + b.subrange(8, 10)
        + b.subrange(10, 16));
}

/// Hyphenated text is ASCII and has thirty-six characters.
pub proof fn lemma_hyphenated_ascii(bytes: Seq<u8>)
    requires
        bytes.len() == 16,
    ensures
        is_ascii_chars(hyphenated(bytes)),
        hyphenated(bytes).len() == 36,
{
    lemma_hex_ascii(bytes.subrange(0, 4));
    lemma_hex_ascii(bytes.subrange(4, 6));
    lemma_hex_ascii(bytes.subrange(6, 8));
    lemma_hex_ascii(bytes.subrange(8, 10));
    lemma_hex_ascii(bytes.subrange(10, 16));
}

/// An ASCII text has as many UTF-8 bytes as characters.
pub proof fn lemma_ascii_len(text: Seq<char>)
    requires
        is_ascii_chars(text),
    ensures
        encode_utf8(text).len() == text.len(),
{
    is_ascii_chars_encode_utf8(text);
}

/// The text with the given ASCII bytes.
pub(crate) fn ascii_text(content: Vec<u8>, Ghost(expected): Ghost<Seq<char>>) -> (text: String)
    requires
        is_ascii_chars(expected),
        content@ == ascii_bytes(expected),
    ensures
        text@ == expected,
{
    proof {
        is_ascii_chars_encode_utf8(expected);
        assert(encode_utf8(expected) =~= content@);
        encode_utf8_valid_utf8(expected);
    }
    match text_from_utf8(content) {
        Some(text) => {
            proof {
                lemma_ascii_text(text@, expected);
            }
            text
        },
        None => {
            assert(false);
            String::new()
        },
    }
}

/// The lower-case hexadecimal digit of a number below sixteen, in ASCII.
fn hex_digit(nibble: u8) -> (digit: u8)
    requires
        nibble < 16,
    ensures
        digit == hex_char(nibble as int) as u8,
{
    if nibble < 10 {
        48 + nibble
    } else {
        87 + nibble
    }
}

/// The number of a lower-case hexadecimal digit.
fn hex_nibble(digit: u8) -> (nibble: Option<u8>)
    ensures
        match nibble {
            Some(nibble) => nibble < 16 && digit == hex_char(nibble as int) as u8,
            None => forall|n: int| 0 <= n < 16 ==> digit != #[trigger] hex_char(n) as u8,
        },
{
    if 48 <= digit && digit <= 57 {
        Some(digit - 48)
    } else if 97 <= digit && digit <= 102 {
        Some(digit - 87)
    } else {
        None
    }
}

/// The lower-case hexadecimal text of a byte string.
pub fn to_hex(bytes: &[u8]) -> (text: String)
    ensures
        text@ == hex(bytes@),
{
    let mut out: Vec<u8> = Vec::new();
    for i in 0..bytes.len()
        invariant
            out@ == ascii_bytes(hex(bytes@.take(i as int))),
    {
        let ghost before = out@;
        out.push(hex_digit(bytes[i] / 16));
        out.push(hex_digit(bytes[i] % 16));
        proof {
            let next = bytes@.take(i + 1);
            assert(ascii_bytes(hex(next)).len() == 2 * (i + 1));
            assert forall|j: int| 0 <= j < 2 * (i + 1) implies out@[j] == ascii_bytes(
                hex(next),
            )[j] by {
                if j < 2 * i {
                    assert(before[j] == ascii_bytes(hex(bytes@.take(i as int)))[j]);
                    assert(bytes@.take(i as int)[j / 2] == next[j / 2]);
                } else {
                    assert(j / 2 == i);
                }
            }
            assert(out@ =~= ascii_bytes(hex(next)));
        }
    }
    proof {
        assert(bytes@.take(bytes@.len() as int) =~= bytes@);
        lemma_hex_ascii(bytes@);
    }
    ascii_text(out, Ghost(hex(bytes@)))
}

/// The bytes whose lower-case hexadecimal text is `text`.
pub fn from_hex<const N: usize>(text: &str) -> (bytes: Option<[u8; N]>)
    requires
        2 * N <= usize::MAX,
    ensures
        match bytes {
            Some(bytes) => text@ == hex(bytes@),
            None => forall|bytes: Seq<u8>| bytes.len() == N ==> #[trigger] hex(bytes) != text@,
        },
{
    let raw: &[u8] = text.as_bytes();
    proof {
        assert forall|bytes: Seq<u8>|
            bytes.len() == N && #[trigger] hex(bytes) == text@ implies raw@ == ascii_bytes(
            hex(bytes),
        ) by {
            lemma_hex_ascii(bytes);
            is_ascii_chars_encode_utf8(hex(bytes));
            assert(raw@ =~= ascii_bytes(hex(bytes)));
        }
    }
    if raw.len() != 2 * N {
        return None;
    }
    let mut bytes: [u8; N] = [0u8; N];
    for i in 0..N
        invariant
            2 * N <= usize::MAX,
            raw@ == encode_utf8(text@),
            raw@.len() == 2 * N,
            forall|bytes: Seq<u8>|
                bytes.len() == N && #[trigger] hex(bytes) == text@ ==> raw@ == ascii_bytes(
                    hex(bytes),
                ),
            forall|j: int|
                0 <= j < i ==> raw@[2 * j] == hex_char((bytes@[j] / 16) as int) as u8 && raw@[2 * j
                    + 1] == hex_char((#[trigger] bytes@[j] % 16) as int) as u8,
    {
        let high: u8 = match hex_nibble(raw[2 * i]) {
            Some(nibble) => nibble,
            None => {
                proof {
                    assert forall|bytes: Seq<u8>| bytes.len() == N implies #[trigger] hex(bytes)
                        != text@ by {
                        if hex(bytes) == text@ {
                            assert(raw@[2 * i] == ascii_bytes(hex(bytes))[2 * i]);
                            assert((2 * i) / 2 == i as int);
                            let n = (bytes[i as int] / 16) as int;
                            assert(raw@[2 * i] == hex_char(n) as u8);
                        }
                    }
                }
                return None;
            },
        };
        let low: u8 = match hex_nibble(raw[2 * i + 1]) {
            Some(nibble) => nibble,
            None => {
                proof {
                    assert forall|bytes: Seq<u8>| bytes.len() == N implies #[trigger] hex(bytes)
                        != text@ by {
                        if hex(bytes) == text@ {
                            assert(raw@[2 * i + 1] == ascii_bytes(hex(bytes))[2 * i + 1]);
                            assert((2 * i + 1) / 2 == i as int);
                            let n = (bytes[i as int] % 16) as int;
                            assert(raw@[2 * i + 1] == hex_char(n) as u8);
                        }
                    }
                }
                return None;
            },
        };
        bytes[i] = high * 16 + low;
        assert(bytes@[i as int] / 16 == high && bytes@[i as int] % 16 == low);
    }
    proof {
        lemma_hex_ascii(bytes@);
        assert forall|j: int| 0 <= j < 2 * N implies raw@[j] == ascii_bytes(hex(bytes@))[j] by {
            let k = j / 2;
            assert(bytes@[k] % 16 == bytes@[k] % 16);
            if j % 2 == 0 {
                assert(j == 2 * k);
            } else {
                assert(j == 2 * k + 1);
            }
        }
        assert(raw@ =~= ascii_bytes(hex(bytes@)));
        lemma_ascii_text(text@, hex(bytes@));
    }
    Some(bytes)
}

/// Whether two texts are the same.
pub fn text_equal(a: &str, b: &str) -> (equal: bool)
    ensures
        equal == (a@ == b@),
{
    proof {
        encode_utf8_decode_utf8(a@);
        encode_utf8_decode_utf8(b@);
    }
    bytes_equal(a.as_bytes(), b.as_bytes())
}

/// How many bytes a text has in UTF-8.
pub fn encoded_len(text: &str) -> (len: usize)
    ensures
        len == encode_utf8(text@).len(),
{
    text.as_bytes().len()
}

/// The digit of a number below ten.
pub open spec fn decimal_digit(digit: nat) -> char {
    (('0' as nat) + digit) as char
}

/// The decimal text of a number.
pub open spec fn decimal(number: nat) -> Seq<char>
    decreases number,
{
    if number < 10 {
        seq![decimal_digit(number)]
    } else {
        decimal(number / 10).push(decimal_digit(number % 10))
    }
}

/// The decimal text of an integer, with a sign if it is negative.
pub open spec fn decimal_int(number: int) -> Seq<char> {
    if number < 0 {
        seq!['-'] + decimal((-number) as nat)
    } else {
        decimal(number as nat)
    }
}

} // verus!
