//! Relay descriptors.

use vstd::prelude::*;
use vstd::utf8::*;
use crate::log::error::IdentityLogError;
use crate::log::wire_line;
use crate::log::wire_line::validate_wire_version;
use crate::wire::bytes;
use crate::wire::bytes::bytes_less;
use crate::wire::cbor;
use crate::wire::number;
use crate::wire::number::UtcMillis;
use crate::wire::record;
use crate::wire::record::{build_record, CanonicalEncode};
use crate::wire::value;
use crate::wire::value::{CanonicalValue, Value};
use crate::wire::version;
use crate::wire::version::{wire_value, WireVersion};

verus! {

/// The most relay URLs in one descriptor.
pub const MAX_RELAY_URLS: usize = 8;

/// The most bytes in one relay URL.
pub const MAX_RELAY_URL_BYTES: usize = 512;

/// The model of a relay descriptor.
pub struct Relay {
    pub wire: WireVersion,
    pub relay_urls: Seq<Seq<char>>,
    pub expires_at: i64,
}

/// The texts of a list of strings.
pub open spec fn texts_view(texts: Seq<String>) -> Seq<Seq<char>> {
    Seq::new(texts.len(), |i: int| texts[i]@)
}

/// The bytes `https://`.
pub open spec fn https_prefix() -> Seq<u8> {
    seq![104, 116, 116, 112, 115, 58, 47, 47]
}

/// A byte that may occur in the authority part of a relay URL: a lower-case
/// letter, a digit, or one of `.`, `-`, `:`, `[` and `]`.
pub open spec fn is_authority_byte(byte: u8) -> bool {
    ||| 97 <= byte <= 122
    ||| 48 <= byte <= 57
    ||| byte == 46 || byte == 45 || byte == 58 || byte == 91 || byte == 93
}

/// An ASCII letter or digit.
pub open spec fn is_alphanumeric_byte(byte: u8) -> bool {
    97 <= byte <= 122 || 65 <= byte <= 90 || 48 <= byte <= 57
}

/// Where the authority part of a relay URL ends: at the first slash from
/// `from` on, or at the end.
pub open spec fn authority_end(url: Seq<u8>, from: int) -> int
    decreases url.len() - from,
{
    if from >= url.len() {
        url.len() as int
    } else if url[from] == 47 {
        from
    } else {
        authority_end(url, from + 1)
    }
}

/// A literal relay URL: at most the byte bound, visible ASCII, `https://`
/// first, none of `@`, `?`, `#` and `\`, and an authority of lower-case host
/// characters that holds a letter or digit and does not end in a dot.
pub open spec fn is_relay_url(url: Seq<u8>) -> bool {
    let authority = url.subrange(8, authority_end(url, 8));
    &&& url.len() <= MAX_RELAY_URL_BYTES
    &&& https_prefix().is_prefix_of(url)
    &&& forall|i: int|
        0 <= i < url.len() ==> 0x21 <= #[trigger] url[i] <= 0x7e && url[i] != 64 && url[i] != 63
            && url[i] != 35 && url[i] != 92
    &&& authority.len() > 0
    &&& authority.last() != 46
    &&& forall|i: int| 0 <= i < authority.len() ==> is_authority_byte(#[trigger] authority[i])
    &&& exists|i: int|
        0 <= i < authority.len() && is_alphanumeric_byte(#[trigger] authority[i])
}

/// The URL at `i` comes strictly before the next one, bytewise.
pub open spec fn url_ascends(urls: Seq<Seq<char>>, i: int) -> bool {
    bytes::lex_lt(encode_utf8(urls[i]), encode_utf8(urls[i + 1]))
}

/// A bounded, strictly increasing list of relay URLs.
pub open spec fn are_relay_urls(urls: Seq<Seq<char>>) -> bool {
    &&& 1 <= urls.len() <= MAX_RELAY_URLS
    &&& forall|i: int| 0 <= i < urls.len() - 1 ==> #[trigger] url_ascends(urls, i)
    &&& forall|i: int| 0 <= i < urls.len() ==> is_relay_url(encode_utf8(#[trigger] urls[i]))
}

/// A descriptor that can be built: a supported wire version, relay URLs and a
/// representable time.
pub open spec fn is_relay(relay: Relay) -> bool {
    &&& wire_line::is_supported(relay.wire)
    &&& are_relay_urls(relay.relay_urls)
    &&& number::is_utc_millis(relay.expires_at as int)
}

/// The canonical value of a list of texts.
pub open spec fn texts_model(texts: Seq<Seq<char>>) -> Value {
    Value::Array(Seq::new(texts.len(), |i: int| Value::Text(texts[i])))
}

/// The canonical value of a relay descriptor.
pub open spec fn relay_model(relay: Relay) -> Value {
    record::record(
        seq![
            version::wire_model(relay.wire),
            texts_model(relay.relay_urls),
            number::millis_model(relay.expires_at),
        ],
    )
}

/// A relay descriptor's canonical value nests three levels.
pub proof fn lemma_relay_canonical(relay: Relay)
    requires
        are_relay_urls(relay.relay_urls),
    ensures
        cbor::canonical_within(relay_model(relay), 3),
{
    version::lemma_wire_canonical(relay.wire);
    let texts = texts_model(relay.relay_urls);
    assert forall|i: int| 0 <= i < texts->Array_0.len() implies cbor::canonical_within(
        #[trigger] texts->Array_0[i],
        1,
    ) by {
        assert(is_relay_url(encode_utf8(relay.relay_urls[i])));
    }
    assert(cbor::canonical_within(texts, 2));
    record::lemma_record_canonical(
        seq![
            version::wire_model(relay.wire),
            texts,
            number::millis_model(relay.expires_at),
        ],
        2,
    );
}

/// Whether the authority part `url[8..end]` is acceptable.
fn check_authority(url: &[u8], end: usize) -> (valid: bool)
    requires
        8 <= end <= url@.len(),
    ensures
        valid == ({
            let authority = url@.subrange(8, end as int);
            &&& authority.len() > 0
            &&& authority.last() != 46
            &&& forall|i: int|
                0 <= i < authority.len() ==> is_authority_byte(#[trigger] authority[i])
            &&& exists|i: int|
                0 <= i < authority.len() && is_alphanumeric_byte(#[trigger] authority[i])
        }),
{
    let ghost authority = url@.subrange(8, end as int);
    if end == 8 {
        return false;
    }
    assert(authority.last() == url@[end - 1]);
    if url[end - 1] == 46 {
        return false;
    }
    let mut found: bool = false;
    for i in 8..end
        invariant
            8 <= end <= url@.len(),
            authority == url@.subrange(8, end as int),
            forall|j: int| 0 <= j < i - 8 ==> is_authority_byte(#[trigger] authority[j]),
            found == exists|j: int| 0 <= j < i - 8 && is_alphanumeric_byte(#[trigger] authority[j]),
    {
        let byte: u8 = url[i];
        let ghost at = i - 8;
        assert(authority[at] == byte);
        let lower = 97 <= byte && byte <= 122;
        let digit = 48 <= byte && byte <= 57;
        if !(lower || digit || byte == 46 || byte == 45 || byte == 58 || byte == 91 || byte == 93) {
            assert(!is_authority_byte(authority[at]));
            return false;
        }
        if lower || digit {
            found = true;
            assert(is_alphanumeric_byte(authority[at]));
        }
    }
    found
}

/// Whether `value` is a literal relay URL.
pub fn valid_relay_url(value: &str) -> (valid: bool)
    ensures
        valid == is_relay_url(encode_utf8(value@)),
{
    let url: &[u8] = value.as_bytes();
    if url.len() > MAX_RELAY_URL_BYTES {
        return false;
    }
    if url.len() < 8 {
        return false;
    }
    if !(url[0] == 104 && url[1] == 116 && url[2] == 116 && url[3] == 112 && url[4] == 115
        && url[5] == 58 && url[6] == 47 && url[7] == 47) {
        proof {
            let prefix = url@.subrange(0, 8);
            assert(prefix.len() == 8);
            if https_prefix().is_prefix_of(url@) {
                assert(https_prefix() == prefix);
                assert(https_prefix()[0] == prefix[0] && https_prefix()[1] == prefix[1]
                    && https_prefix()[2] == prefix[2] && https_prefix()[3] == prefix[3]
                    && https_prefix()[4] == prefix[4] && https_prefix()[5] == prefix[5]
                    && https_prefix()[6] == prefix[6] && https_prefix()[7] == prefix[7]);
            }
        }
        return false;
    }
    assert(https_prefix() =~= url@.subrange(0, 8));
    for i in 0..url.len()
        invariant
            url@ == encode_utf8(value@),
            forall|j: int|
                0 <= j < i ==> 0x21 <= #[trigger] url@[j] <= 0x7e && url@[j] != 64 && url@[j] != 63
                    && url@[j] != 35 && url@[j] != 92,
    {
        let byte: u8 = url[i];
        if byte < 0x21 || byte > 0x7e || byte == 64 || byte == 63 || byte == 35 || byte == 92 {
            return false;
        }
    }
    let mut end: usize = 8;
    while end < url.len() && url[end] != 47
        invariant
            8 <= end <= url@.len(),
            authority_end(url@, 8) == authority_end(url@, end as int),
        decreases url@.len() - end,
    {
        end += 1;
    }
    check_authority(url, end)
}

/// Accepts exactly the bounded, strictly increasing lists of relay URLs.
fn validate_relay_urls(relay_urls: &Vec<String>) -> (valid: Result<(), IdentityLogError>)
    ensures
        valid == if are_relay_urls(texts_view(relay_urls@)) {
            Ok::<(), IdentityLogError>(())
        } else {
            Err(IdentityLogError::InvalidRelayDescriptor)
        },
{
    let ghost urls = texts_view(relay_urls@);
    if relay_urls.len() == 0 || relay_urls.len() > MAX_RELAY_URLS {
        return Err(IdentityLogError::InvalidRelayDescriptor);
    }
    for i in 1..relay_urls.len()
        invariant
            urls == texts_view(relay_urls@),
            forall|j: int| 0 <= j < i - 1 ==> #[trigger] url_ascends(urls, j),
    {
        assert(urls[i - 1] == relay_urls@[i - 1]@ && urls[i as int] == relay_urls@[i as int]@);
        if !bytes_less(relay_urls[i - 1].as_str().as_bytes(), relay_urls[i].as_str().as_bytes()) {
            assert(!url_ascends(urls, i - 1));
            return Err(IdentityLogError::InvalidRelayDescriptor);
        }
        assert(url_ascends(urls, i - 1));
    }
    for i in 0..relay_urls.len()
        invariant
            urls == texts_view(relay_urls@),
            forall|j: int| 0 <= j < i ==> is_relay_url(encode_utf8(#[trigger] urls[j])),
    {
        assert(urls[i as int] == relay_urls@[i as int]@);
        if !valid_relay_url(relay_urls[i].as_str()) {
            return Err(IdentityLogError::InvalidRelayDescriptor);
        }
    }
    Ok(())
}

/// A bounded ordered relay descriptor that is signed by its containing log event.
#[derive(Debug, PartialEq, Eq)]
pub struct RelayDescriptorV1 {
    wire: WireVersion,
    relay_urls: Vec<String>,
    expires_at: UtcMillis,
}

impl RelayDescriptorV1 {
    #[verifier::type_invariant]
    spec fn valid(self) -> bool {
        &&& wire_line::is_supported(self.wire)
        &&& are_relay_urls(texts_view(self.relay_urls@))
    }

    /// The model of the descriptor.
    pub closed spec fn view(&self) -> Relay {
        Relay {
            wire: self.wire,
            relay_urls: texts_view(self.relay_urls@),
            expires_at: self.expires_at@,
        }
    }

    /// Builds a canonical literal relay descriptor.
    ///
    /// URLs are literal ASCII HTTPS endpoints. They must be strictly
    /// increasing bytewise, unique, bounded, credential-free, and contain no
    /// query or fragment component.
    pub fn new(wire: WireVersion, relay_urls: Vec<String>, expires_at: UtcMillis) -> (descriptor:
        Result<Self, IdentityLogError>)
        ensures
            match descriptor {
                Ok(descriptor) => {
                    &&& is_relay(descriptor@)
                    &&& descriptor@ == (Relay {
                        wire,
                        relay_urls: texts_view(relay_urls@),
                        expires_at: expires_at@,
                    })
                },
                Err(error) => {
                    if !wire_line::is_supported(wire) {
                        error == IdentityLogError::InvalidWireVersion
                    } else {
                        &&& !are_relay_urls(texts_view(relay_urls@))
                        &&& error == IdentityLogError::InvalidRelayDescriptor
                    }
                },
            },
    {
        match validate_wire_version(wire) {
            Ok(_) => {},
            Err(error) => {
                return Err(error);
            },
        }
        match validate_relay_urls(&relay_urls) {
            Ok(_) => {},
            Err(error) => {
                return Err(error);
            },
        }
        expires_at.checked();
        Ok(RelayDescriptorV1 { wire, relay_urls, expires_at })
    }

    /// States what the type guarantees of every descriptor.
    pub(crate) fn checked(&self)
        ensures
            is_relay(self@),
    {
        proof {
            use_type_invariant(self);
        }
        self.expires_at.checked();
    }

    /// The ordered literal relay URLs.
    pub fn relay_urls(&self) -> (urls: &[String])
        ensures
            texts_view(urls@) == self@.relay_urls,
    {
        self.relay_urls.as_slice()
    }

    /// The exact wire version carried by this descriptor.
    pub fn wire(&self) -> (wire: WireVersion)
        ensures
            wire == self@.wire,
    {
        self.wire
    }

    /// The descriptor expiration timestamp.
    pub fn expires_at(&self) -> (time: UtcMillis)
        ensures
            time@ == self@.expires_at,
    {
        self.expires_at
    }

    /// Accepts exactly the descriptors that expire after `occurred_at`.
    pub fn validate_for_event(&self, occurred_at: UtcMillis) -> (valid: Result<
        (),
        IdentityLogError,
    >)
        ensures
            valid == if self@.expires_at > occurred_at@ {
                Ok::<(), IdentityLogError>(())
            } else {
                Err(IdentityLogError::InvalidRelayDescriptor)
            },
    {
        if self.expires_at.get() <= occurred_at.get() {
            Err(IdentityLogError::InvalidRelayDescriptor)
        } else {
            Ok(())
        }
    }
}

impl Clone for RelayDescriptorV1 {
    fn clone(&self) -> (copy: Self)
        ensures
            copy@ == self@,
    {
        proof {
            use_type_invariant(self);
        }
        let mut relay_urls: Vec<String> = Vec::new();
        for i in 0..self.relay_urls.len()
            invariant
                relay_urls@.len() == i,
                forall|j: int| 0 <= j < i ==> #[trigger] relay_urls@[j]@ == self.relay_urls@[j]@,
        {
            relay_urls.push(self.relay_urls[i].clone());
        }
        assert(texts_view(relay_urls@) =~= texts_view(self.relay_urls@));
        RelayDescriptorV1 { wire: self.wire, relay_urls, expires_at: self.expires_at }
    }
}

/// Builds the canonical value of a list of texts.
fn texts_value(texts: &Vec<String>) -> (built: CanonicalValue)
    ensures
        built@ == texts_model(texts_view(texts@)),
{
    let mut items: Vec<CanonicalValue> = Vec::new();
    for i in 0..texts.len()
        invariant
            items@.len() == i,
            forall|j: int| 0 <= j < i ==> #[trigger] items@[j]@ == Value::Text(texts@[j]@),
    {
        items.push(CanonicalValue::Text(texts[i].clone()));
    }
    proof {
        value::lemma_array_view(items);
        assert(value::items_view(items@) =~= texts_model(texts_view(texts@))->Array_0);
    }
    CanonicalValue::Array(items)
}

impl CanonicalEncode for RelayDescriptorV1 {
    open spec fn model(&self) -> Value {
        relay_model(self@)
    }

    fn to_canonical_value(&self) -> (value: CanonicalValue) {
        let fields = vec![
            wire_value(self.wire),
            texts_value(&self.relay_urls),
            self.expires_at.to_canonical_value(),
        ];
        assert(value::items_view(fields@) =~= seq![
            version::wire_model(self@.wire),
            texts_model(self@.relay_urls),
            number::millis_model(self@.expires_at),
        ]);
        build_record(fields)
    }
}

} // verus!
