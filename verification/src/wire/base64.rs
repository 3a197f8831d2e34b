//! The base64url text of byte strings, without padding.

use vstd::prelude::*;

verus! {

/// The character of a number below sixty-four in the URL-safe alphabet.
pub open spec fn base64url_char(sextet: int) -> char {
    if sextet < 26 {
        (('A' as int) + sextet) as char
    } else if sextet < 52 {
        (('a' as int) + sextet - 26) as char
    } else if sextet < 62 {
        (('0' as int) + sextet - 52) as char
    } else if sextet == 62 {
        '-'
    } else {
        '_'
    }
}

/// The byte at `i`, or zero past the end.
pub open spec fn byte_or_zero(bytes: Seq<u8>, i: int) -> int {
    if i < bytes.len() {
        bytes[i] as int
    } else {
        0
    }
}

/// The `i`-th group of six bits.
pub open spec fn sextet(bytes: Seq<u8>, i: int) -> int {
    let at = 3 * (i / 4);
    if i % 4 == 0 {
        byte_or_zero(bytes, at) / 4
    } else if i % 4 == 1 {
        byte_or_zero(bytes, at) % 4 * 16 + byte_or_zero(bytes, at + 1) / 16
    } else if i % 4 == 2 {
        byte_or_zero(bytes, at + 1) % 16 * 4 + byte_or_zero(bytes, at + 2) / 64
    } else {
        byte_or_zero(bytes, at + 2) % 64
    }
}

/// The base64url text of a byte string: one character for each group of six
/// bits, the last group filled up with zeros.
pub open spec fn base64url(bytes: Seq<u8>) -> Seq<char> {
    Seq::new((bytes.len() * 4 + 2) / 3, |i: int| base64url_char(sextet(bytes, i)))
}

/// Different numbers have different characters.
proof fn lemma_char_injective(a: int, b: int)
    requires
        0 <= a < 64,
        0 <= b < 64,
        base64url_char(a) == base64url_char(b),
    ensures
        a == b,
{
}

/// Groups of six bits are numbers below sixty-four.
proof fn lemma_sextet_range(bytes: Seq<u8>, i: int)
    requires
        0 <= i,
    ensures
        0 <= sextet(bytes, i) < 64,
{
}

/// Two byte strings of the same length with the same text are the same.
pub proof fn lemma_base64url_injective(a: Seq<u8>, b: Seq<u8>)
    requires
        a.len() == b.len(),
        base64url(a) == base64url(b),
    ensures
        a == b,
{
    let count = (a.len() * 4 + 2) / 3;
    assert forall|i: int| 0 <= i < count implies sextet(a, i) == sextet(b, i) by {
        lemma_sextet_range(a, i);
        lemma_sextet_range(b, i);
        assert(base64url(a)[i] == base64url_char(sextet(a, i)));
        assert(base64url(b)[i] == base64url_char(sextet(b, i)));
        lemma_char_injective(sextet(a, i), sextet(b, i));
    }
    assert forall|k: int| 0 <= k < a.len() implies a[k] == b[k] by {
        let at = 4 * (k / 3);
        if k % 3 == 0 {
            assert(sextet(a, at) == sextet(b, at));
            assert(sextet(a, at + 1) == sextet(b, at + 1));
        } else if k % 3 == 1 {
            assert(sextet(a, at + 1) == sextet(b, at + 1));
            assert(sextet(a, at + 2) == sextet(b, at + 2));
        } else {
            assert(sextet(a, at + 2) == sextet(b, at + 2));
            assert(sextet(a, at + 3) == sextet(b, at + 3));
        }
    }
    assert(a =~= b);
}

} // verus!
