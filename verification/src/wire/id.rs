//! Identifiers: self-certifying identities and time-ordered UUIDs.

use vstd::prelude::*;
use crate::outside::{uuid_from_text, uuid_to_text};
use crate::wire::bytes::bytes_equal;
use crate::wire::digest;
use crate::wire::digest::Sha256Digest;
use crate::wire::record::CanonicalEncode;
use crate::wire::text;
use crate::wire::text::{from_hex, to_hex};
use crate::wire::value::{CanonicalValue, Value};

verus! {

/// The domain separator under which an identity derives from its root key.
pub const IDENTITY_ID_DOMAIN: &'static str = "dirextalk.identity-id.v1\0";

/// A text or a byte string is not an identifier, or not the expected one.
#[derive(Clone, Copy, Debug, PartialEq, Eq, Structural)]
pub struct IdentifierError;

/// A self-certifying identity: the digest of its first root key.
#[derive(Clone, Copy, Debug, Eq, PartialOrd, Ord, Hash)]
pub struct IdentityId {
    bytes: [u8; 32],
}

impl PartialEq for IdentityId {
    fn eq(&self, other: &Self) -> (equal: bool) {
        bytes_equal(&self.bytes, &other.bytes)
    }
}

impl vstd::std_specs::cmp::PartialEqSpecImpl for IdentityId {
    open spec fn obeys_eq_spec() -> bool {
        true
    }

    open spec fn eq_spec(&self, other: &Self) -> bool {
        self@ == other@
    }
}

impl IdentityId {
    /// The bytes.
    pub closed spec fn view(&self) -> Seq<u8> {
        self.bytes@
    }

    /// How many bytes there are.
    pub proof fn lemma_len(&self)
        ensures
            self@.len() == 32,
    {
    }

    /// The value with the given bytes.
    pub fn from_bytes(bytes: [u8; 32]) -> (value: Self)
        ensures
            value@ == bytes@,
    {
        IdentityId { bytes }
    }

    /// The bytes.
    pub fn as_bytes(&self) -> (bytes: &[u8; 32])
        ensures
            bytes@ == self@,
    {
        &self.bytes
    }

    /// The identity of a root key.
    pub fn derive(key: &[u8; 32]) -> (identity: Self)
        ensures
            identity@ == digest::hash_in_domain(IDENTITY_ID_DOMAIN@, key@),
    {
        IdentityId { bytes: *Sha256Digest::hash_domain(IDENTITY_ID_DOMAIN, key).as_bytes() }
    }

    /// Whether the identity derives from `key`.
    pub fn verify_subject_key(&self, key: &[u8; 32]) -> (verified: Result<(), IdentifierError>)
        ensures
            verified is Ok <==> self@ == digest::hash_in_domain(IDENTITY_ID_DOMAIN@, key@),
    {
        let derived = IdentityId::derive(key);
        if *self == derived {
            Ok(())
        } else {
            Err(IdentifierError)
        }
    }

    /// The identity whose text form is `text`.
    pub fn from_text(text: &str) -> (identity: Result<Self, IdentifierError>)
        ensures
            match identity {
                Ok(identity) => text@ == text::hex(identity@),
                Err(_) => !is_identity_text(text@),
            },
    {
        match from_hex::<32>(text) {
            Some(bytes) => Ok(IdentityId { bytes }),
            None => Err(IdentifierError),
        }
    }

    /// The lower-case hexadecimal text of the identity.
    pub fn to_text(&self) -> (text: String)
        ensures
            text@ == text::hex(self@),
    {
        to_hex(&self.bytes)
    }
}

impl CanonicalEncode for IdentityId {
    open spec fn model(&self) -> Value {
        Value::Text(text::hex(self@))
    }

    fn to_canonical_value(&self) -> (value: CanonicalValue) {
        CanonicalValue::Text(self.to_text())
    }
}

/// `text` is the text form of an identity.
pub open spec fn is_identity_text(text: Seq<char>) -> bool {
    exists|bytes: Seq<u8>| bytes.len() == 32 && #[trigger] text::hex(bytes) == text
}

/// The identity whose text form is `text`.
pub open spec fn identity_of_text(text: Seq<char>) -> Seq<u8> {
    choose|bytes: Seq<u8>| bytes.len() == 32 && #[trigger] text::hex(bytes) == text
}

/// The text form of an identity gives the identity back.
pub proof fn lemma_identity_text(bytes: Seq<u8>)
    requires
        bytes.len() == 32,
    ensures
        is_identity_text(text::hex(bytes)),
        identity_of_text(text::hex(bytes)) == bytes,
{
    let text = text::hex(bytes);
    let found = identity_of_text(text);
    assert(text::hex(found) == text && found.len() == 32);
    text::lemma_hex_injective(found, bytes);
}

/// `bytes` are a time-ordered UUID: version seven of the standard variant.
pub open spec fn is_uuid_v7(bytes: Seq<u8>) -> bool {
    &&& bytes.len() == 16
    &&& bytes[6] / 16 == 7
    &&& bytes[8] / 64 == 2
}

/// `text` is the hyphenated text of a time-ordered UUID.
pub open spec fn is_uuid_text(text: Seq<char>) -> bool {
    exists|bytes: Seq<u8>| is_uuid_v7(bytes) && #[trigger] text::hyphenated(bytes) == text
}

/// The time-ordered UUID whose hyphenated text is `text`.
pub open spec fn uuid_of_text(text: Seq<char>) -> Seq<u8> {
    choose|bytes: Seq<u8>| is_uuid_v7(bytes) && #[trigger] text::hyphenated(bytes) == text
}

/// The hyphenated text of a time-ordered UUID gives its bytes back.
pub proof fn lemma_uuid_text(bytes: Seq<u8>)
    requires
        is_uuid_v7(bytes),
    ensures
        is_uuid_text(text::hyphenated(bytes)),
        uuid_of_text(text::hyphenated(bytes)) == bytes,
{
    let text = text::hyphenated(bytes);
    let found = uuid_of_text(text);
    assert(text::hyphenated(found) == text && is_uuid_v7(found));
    text::lemma_hyphenated_injective(found, bytes);
}

/// Whether sixteen bytes are a time-ordered UUID.
fn check_uuid_v7(bytes: &[u8; 16]) -> (valid: bool)
    ensures
        valid == is_uuid_v7(bytes@),
{
    bytes[6] / 16 == 7 && bytes[8] / 64 == 2
}

/// The time-ordered UUID whose hyphenated text is `text`.
fn uuid_v7_from_text(text: &str) -> (bytes: Option<[u8; 16]>)
    ensures
        match bytes {
            Some(bytes) => is_uuid_v7(bytes@) && text@ == text::hyphenated(bytes@),
            None => !is_uuid_text(text@),
        },
{
    let bytes: [u8; 16] = match uuid_from_text(text) {
        Some(bytes) => bytes,
        None => {
            return None;
        },
    };
    let canonical = uuid_to_text(&bytes);
    if check_uuid_v7(&bytes) && bytes_equal(canonical.as_str().as_bytes(), text.as_bytes()) {
        proof {
            vstd::utf8::encode_utf8_decode_utf8(text@);
            vstd::utf8::encode_utf8_decode_utf8(canonical@);
        }
        Some(bytes)
    } else {
        None
    }
}

/// The identifier of a device.
#[derive(Clone, Copy, Debug, Eq, PartialOrd, Ord, Hash)]
pub struct DeviceId {
    bytes: [u8; 16],
}

impl PartialEq for DeviceId {
    fn eq(&self, other: &Self) -> (equal: bool) {
        bytes_equal(&self.bytes, &other.bytes)
    }
}

impl vstd::std_specs::cmp::PartialEqSpecImpl for DeviceId {
    open spec fn obeys_eq_spec() -> bool {
        true
    }

    open spec fn eq_spec(&self, other: &Self) -> bool {
        self@ == other@
    }
}

impl DeviceId {
    #[verifier::type_invariant]
    spec fn version_seven(self) -> bool {
        is_uuid_v7(self.bytes@)
    }

    /// The bytes.
    pub closed spec fn view(&self) -> Seq<u8> {
        self.bytes@
    }

    /// States what the type guarantees of every identifier.
    pub(crate) fn checked(&self)
        ensures
            is_uuid_v7(self@),
    {
        proof {
            use_type_invariant(self);
        }
    }

    /// Accepts the bytes of a time-ordered UUID.
    pub fn from_uuid_bytes(bytes: [u8; 16]) -> (id: Result<Self, IdentifierError>)
        ensures
            match id {
                Ok(id) => id@ == bytes@ && is_uuid_v7(bytes@),
                Err(_) => !is_uuid_v7(bytes@),
            },
    {
        if check_uuid_v7(&bytes) {
            Ok(DeviceId { bytes })
        } else {
            Err(IdentifierError)
        }
    }

    /// The identifier whose hyphenated text is `text`.
    pub fn from_text(text: &str) -> (id: Result<Self, IdentifierError>)
        ensures
            match id {
                Ok(id) => is_uuid_v7(id@) && text@ == text::hyphenated(id@),
                Err(_) => !is_uuid_text(text@),
            },
    {
        match uuid_v7_from_text(text) {
            Some(bytes) => Ok(DeviceId { bytes }),
            None => Err(IdentifierError),
        }
    }

    /// The bytes.
    pub fn as_uuid_bytes(&self) -> (bytes: &[u8; 16])
        ensures
            bytes@ == self@,
            is_uuid_v7(self@),
    {
        proof {
            use_type_invariant(self);
        }
        &self.bytes
    }

    /// The hyphenated text of the identifier.
    pub fn to_text(&self) -> (text: String)
        ensures
            text@ == text::hyphenated(self@),
    {
        uuid_to_text(&self.bytes)
    }
}

impl CanonicalEncode for DeviceId {
    open spec fn model(&self) -> Value {
        Value::Text(text::hyphenated(self@))
    }

    fn to_canonical_value(&self) -> (value: CanonicalValue) {
        CanonicalValue::Text(self.to_text())
    }
}

/// The identifier of a device enrollment challenge.
#[derive(Clone, Copy, Debug, Eq, PartialOrd, Ord, Hash)]
pub struct DeviceEnrollmentChallengeId {
    bytes: [u8; 16],
}

impl PartialEq for DeviceEnrollmentChallengeId {
    fn eq(&self, other: &Self) -> (equal: bool) {
        bytes_equal(&self.bytes, &other.bytes)
    }
}

impl vstd::std_specs::cmp::PartialEqSpecImpl for DeviceEnrollmentChallengeId {
    open spec fn obeys_eq_spec() -> bool {
        true
    }

    open spec fn eq_spec(&self, other: &Self) -> bool {
        self@ == other@
    }
}

impl DeviceEnrollmentChallengeId {
    #[verifier::type_invariant]
    spec fn version_seven(self) -> bool {
        is_uuid_v7(self.bytes@)
    }

    /// The bytes.
    pub closed spec fn view(&self) -> Seq<u8> {
        self.bytes@
    }

    /// States what the type guarantees of every identifier.
    pub(crate) fn checked(&self)
        ensures
            is_uuid_v7(self@),
    {
        proof {
            use_type_invariant(self);
        }
    }

    /// Accepts the bytes of a time-ordered UUID.
    pub fn from_uuid_bytes(bytes: [u8; 16]) -> (id: Result<Self, IdentifierError>)
        ensures
            match id {
                Ok(id) => id@ == bytes@ && is_uuid_v7(bytes@),
                Err(_) => !is_uuid_v7(bytes@),
            },
    {
        if check_uuid_v7(&bytes) {
            Ok(DeviceEnrollmentChallengeId { bytes })
        } else {
            Err(IdentifierError)
        }
    }

    /// The identifier whose hyphenated text is `text`.
    pub fn from_text(text: &str) -> (id: Result<Self, IdentifierError>)
        ensures
            match id {
                Ok(id) => is_uuid_v7(id@) && text@ == text::hyphenated(id@),
                Err(_) => !is_uuid_text(text@),
            },
    {
        match uuid_v7_from_text(text) {
            Some(bytes) => Ok(DeviceEnrollmentChallengeId { bytes }),
            None => Err(IdentifierError),
        }
    }

    /// The bytes.
    pub fn as_uuid_bytes(&self) -> (bytes: &[u8; 16])
        ensures
            bytes@ == self@,
            is_uuid_v7(self@),
    {
        proof {
            use_type_invariant(self);
        }
        &self.bytes
    }

    /// The hyphenated text of the identifier.
    pub fn to_text(&self) -> (text: String)
        ensures
            text@ == text::hyphenated(self@),
    {
        uuid_to_text(&self.bytes)
    }
}

impl CanonicalEncode for DeviceEnrollmentChallengeId {
    open spec fn model(&self) -> Value {
        Value::Text(text::hyphenated(self@))
    }

    fn to_canonical_value(&self) -> (value: CanonicalValue) {
        CanonicalValue::Text(self.to_text())
    }
}

/// The identifier of a device session.
#[derive(Clone, Copy, Debug, Eq, PartialOrd, Ord, Hash)]
pub struct DeviceSessionId {
    bytes: [u8; 16],
}

impl PartialEq for DeviceSessionId {
    fn eq(&self, other: &Self) -> (equal: bool) {
        bytes_equal(&self.bytes, &other.bytes)
    }
}

impl vstd::std_specs::cmp::PartialEqSpecImpl for DeviceSessionId {
    open spec fn obeys_eq_spec() -> bool {
        true
    }

    open spec fn eq_spec(&self, other: &Self) -> bool {
        self@ == other@
    }
}

impl DeviceSessionId {
    #[verifier::type_invariant]
    spec fn version_seven(self) -> bool {
        is_uuid_v7(self.bytes@)
    }

    /// The bytes.
    pub closed spec fn view(&self) -> Seq<u8> {
        self.bytes@
    }

    /// States what the type guarantees of every identifier.
    pub(crate) fn checked(&self)
        ensures
            is_uuid_v7(self@),
    {
        proof {
            use_type_invariant(self);
        }
    }

    /// Accepts the bytes of a time-ordered UUID.
    pub fn from_uuid_bytes(bytes: [u8; 16]) -> (id: Result<Self, IdentifierError>)
        ensures
            match id {
                Ok(id) => id@ == bytes@ && is_uuid_v7(bytes@),
                Err(_) => !is_uuid_v7(bytes@),
            },
    {
        if check_uuid_v7(&bytes) {
            Ok(DeviceSessionId { bytes })
        } else {
            Err(IdentifierError)
        }
    }

    /// The identifier whose hyphenated text is `text`.
    pub fn from_text(text: &str) -> (id: Result<Self, IdentifierError>)
        ensures
            match id {
                Ok(id) => is_uuid_v7(id@) && text@ == text::hyphenated(id@),
                Err(_) => !is_uuid_text(text@),
            },
    {
        match uuid_v7_from_text(text) {
            Some(bytes) => Ok(DeviceSessionId { bytes }),
            None => Err(IdentifierError),
        }
    }

    /// The bytes.
    pub fn as_uuid_bytes(&self) -> (bytes: &[u8; 16])
        ensures
            bytes@ == self@,
            is_uuid_v7(self@),
    {
        proof {
            use_type_invariant(self);
        }
        &self.bytes
    }

    /// The hyphenated text of the identifier.
    pub fn to_text(&self) -> (text: String)
        ensures
            text@ == text::hyphenated(self@),
    {
        uuid_to_text(&self.bytes)
    }
}

impl CanonicalEncode for DeviceSessionId {
    open spec fn model(&self) -> Value {
        Value::Text(text::hyphenated(self@))
    }

    fn to_canonical_value(&self) -> (value: CanonicalValue) {
        CanonicalValue::Text(self.to_text())
    }
}

/// The identifier of a device session challenge.
#[derive(Clone, Copy, Debug, Eq, PartialOrd, Ord, Hash)]
pub struct DeviceSessionChallengeId {
    bytes: [u8; 16],
}

impl PartialEq for DeviceSessionChallengeId {
    fn eq(&self, other: &Self) -> (equal: bool) {
        bytes_equal(&self.bytes, &other.bytes)
    }
}

impl vstd::std_specs::cmp::PartialEqSpecImpl for DeviceSessionChallengeId {
    open spec fn obeys_eq_spec() -> bool {
        true
    }

    open spec fn eq_spec(&self, other: &Self) -> bool {
        self@ == other@
    }
}

impl DeviceSessionChallengeId {
    #[verifier::type_invariant]
    spec fn version_seven(self) -> bool {
        is_uuid_v7(self.bytes@)
    }

    /// The bytes.
    pub closed spec fn view(&self) -> Seq<u8> {
        self.bytes@
    }

    /// States what the type guarantees of every identifier.
    pub(crate) fn checked(&self)
        ensures
            is_uuid_v7(self@),
    {
        proof {
            use_type_invariant(self);
        }
    }

    /// Accepts the bytes of a time-ordered UUID.
    pub fn from_uuid_bytes(bytes: [u8; 16]) -> (id: Result<Self, IdentifierError>)
        ensures
            match id {
                Ok(id) => id@ == bytes@ && is_uuid_v7(bytes@),
                Err(_) => !is_uuid_v7(bytes@),
            },
    {
        if check_uuid_v7(&bytes) {
            Ok(DeviceSessionChallengeId { bytes })
        } else {
            Err(IdentifierError)
        }
    }

    /// The identifier whose hyphenated text is `text`.
    pub fn from_text(text: &str) -> (id: Result<Self, IdentifierError>)
        ensures
            match id {
                Ok(id) => is_uuid_v7(id@) && text@ == text::hyphenated(id@),
                Err(_) => !is_uuid_text(text@),
            },
    {
        match uuid_v7_from_text(text) {
            Some(bytes) => Ok(DeviceSessionChallengeId { bytes }),
            None => Err(IdentifierError),
        }
    }

    /// The bytes.
    pub fn as_uuid_bytes(&self) -> (bytes: &[u8; 16])
        ensures
            bytes@ == self@,
            is_uuid_v7(self@),
    {
        proof {
            use_type_invariant(self);
        }
        &self.bytes
    }

    /// The hyphenated text of the identifier.
    pub fn to_text(&self) -> (text: String)
        ensures
            text@ == text::hyphenated(self@),
    {
        uuid_to_text(&self.bytes)
    }
}

impl CanonicalEncode for DeviceSessionChallengeId {
    open spec fn model(&self) -> Value {
        Value::Text(text::hyphenated(self@))
    }

    fn to_canonical_value(&self) -> (value: CanonicalValue) {
        CanonicalValue::Text(self.to_text())
    }
}

/// The identifier of a key package.
#[derive(Clone, Copy, Debug, Eq, PartialOrd, Ord, Hash)]
pub struct KeyPackageId {
    bytes: [u8; 16],
}

impl PartialEq for KeyPackageId {
    fn eq(&self, other: &Self) -> (equal: bool) {
        bytes_equal(&self.bytes, &other.bytes)
    }
}

impl vstd::std_specs::cmp::PartialEqSpecImpl for KeyPackageId {
    open spec fn obeys_eq_spec() -> bool {
        true
    }

    open spec fn eq_spec(&self, other: &Self) -> bool {
        self@ == other@
    }
}

impl KeyPackageId {
    #[verifier::type_invariant]
    spec fn version_seven(self) -> bool {
        is_uuid_v7(self.bytes@)
    }

    /// The bytes.
    pub closed spec fn view(&self) -> Seq<u8> {
        self.bytes@
    }

    /// States what the type guarantees of every identifier.
    pub(crate) fn checked(&self)
        ensures
            is_uuid_v7(self@),
    {
        proof {
            use_type_invariant(self);
        }
    }

    /// Accepts the bytes of a time-ordered UUID.
    pub fn from_uuid_bytes(bytes: [u8; 16]) -> (id: Result<Self, IdentifierError>)
        ensures
            match id {
                Ok(id) => id@ == bytes@ && is_uuid_v7(bytes@),
                Err(_) => !is_uuid_v7(bytes@),
            },
    {
        if check_uuid_v7(&bytes) {
            Ok(KeyPackageId { bytes })
        } else {
            Err(IdentifierError)
        }
    }

    /// The identifier whose hyphenated text is `text`.
    pub fn from_text(text: &str) -> (id: Result<Self, IdentifierError>)
        ensures
            match id {
                Ok(id) => is_uuid_v7(id@) && text@ == text::hyphenated(id@),
                Err(_) => !is_uuid_text(text@),
            },
    {
        match uuid_v7_from_text(text) {
            Some(bytes) => Ok(KeyPackageId { bytes }),
            None => Err(IdentifierError),
        }
    }

    /// The bytes.
    pub fn as_uuid_bytes(&self) -> (bytes: &[u8; 16])
        ensures
            bytes@ == self@,
            is_uuid_v7(self@),
    {
        proof {
            use_type_invariant(self);
        }
        &self.bytes
    }

    /// The hyphenated text of the identifier.
    pub fn to_text(&self) -> (text: String)
        ensures
            text@ == text::hyphenated(self@),
    {
        uuid_to_text(&self.bytes)
    }
}

impl CanonicalEncode for KeyPackageId {
    open spec fn model(&self) -> Value {
        Value::Text(text::hyphenated(self@))
    }

    fn to_canonical_value(&self) -> (value: CanonicalValue) {
        CanonicalValue::Text(self.to_text())
    }
}

} // verus!
