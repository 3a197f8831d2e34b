//! SHA-256 digests under a domain.

use vstd::prelude::*;
use vstd::utf8::*;
use crate::outside;
use crate::outside::{constant_time_equal, sha256};
use crate::wire::bytes::{append_bytes, bytes_equal, to_vec};
use crate::wire::record::CanonicalEncode;
use crate::wire::text;
use crate::wire::text::to_hex;
use crate::wire::value::{CanonicalValue, Value};

verus! {

/// The digest of `bytes` under the domain separator `domain`.
pub open spec fn hash_in_domain(domain: Seq<char>, bytes: Seq<u8>) -> Seq<u8> {
    outside::sha256_of(encode_utf8(domain) + bytes)
}

/// A SHA-256 digest.
#[derive(Clone, Copy, Debug, Eq, PartialOrd, Ord, Hash)]
pub struct Sha256Digest {
    bytes: [u8; 32],
}

impl PartialEq for Sha256Digest {
    fn eq(&self, other: &Self) -> (equal: bool) {
        bytes_equal(&self.bytes, &other.bytes)
    }
}

impl vstd::std_specs::cmp::PartialEqSpecImpl for Sha256Digest {
    open spec fn obeys_eq_spec() -> bool {
        true
    }

    open spec fn eq_spec(&self, other: &Self) -> bool {
        self@ == other@
    }
}

impl Sha256Digest {
    /// The bytes.
    pub closed spec fn view(&self) -> Seq<u8> {
        self.bytes@
    }

    /// How many bytes there are.
    pub proof fn lemma_len(&self)
        ensures
            self@.len() == 32,
    {
    }

    /// The value with the given bytes.
    pub fn from_bytes(bytes: [u8; 32]) -> (value: Self)
        ensures
            value@ == bytes@,
    {
        Sha256Digest { bytes }
    }

    /// The bytes.
    pub fn as_bytes(&self) -> (bytes: &[u8; 32])
        ensures
            bytes@ == self@,
    {
        &self.bytes
    }

    /// The digest of `bytes` under the domain separator `domain`.
    pub fn hash_domain(domain: &str, bytes: &[u8]) -> (digest: Self)
        ensures
            digest@ == hash_in_domain(domain@, bytes@),
    {
        let mut input: Vec<u8> = to_vec(domain.as_bytes());
        append_bytes(&mut input, bytes);
        Sha256Digest { bytes: sha256(input.as_slice()) }
    }

    /// Whether two digests are equal, compared in constant time.
    pub fn equal_in_constant_time(&self, other: &Self) -> (equal: bool)
        ensures
            equal == (self@ == other@),
    {
        constant_time_equal(&self.bytes, &other.bytes)
    }

    /// The lower-case hexadecimal text of the digest.
    pub fn to_text(&self) -> (text: String)
        ensures
            text@ == text::hex(self@),
    {
        to_hex(&self.bytes)
    }
}

impl CanonicalEncode for Sha256Digest {
    open spec fn model(&self) -> Value {
        Value::Bytes(self@)
    }

    fn to_canonical_value(&self) -> (value: CanonicalValue) {
        CanonicalValue::Bytes(to_vec(&self.bytes))
    }
}

} // verus!
