//! Public keys and signatures.

use vstd::prelude::*;
use crate::outside;
use crate::outside::{accepts_verifying_key, verify_strict};
use crate::wire::bytes;
use crate::wire::bytes::{bytes_equal, is_all_zero, to_vec};
use crate::wire::record::CanonicalEncode;
use crate::wire::value::{CanonicalValue, Value};

verus! {

/// `bytes` encode a public key: thirty-two bytes that are not all zero.
pub open spec fn is_public_key(bytes: Seq<u8>) -> bool {
    bytes.len() == 32 && !bytes::all_zero(bytes)
}

/// A signing key used the forbidden all-zero encoding.
#[derive(Clone, Copy, Debug, PartialEq, Eq, Structural)]
pub struct SigningPublicKeyError;

impl SigningPublicKeyError {
    /// What went wrong, in words.
    pub fn message(&self) -> (text: String)
        ensures
            text@ == "signing public key must not be all zero"@,
    {
        "signing public key must not be all zero".to_owned()
    }
}

/// An Ed25519 public key encoding.
#[derive(Clone, Copy, Debug, Eq, PartialOrd, Ord, Hash)]
pub struct SigningPublicKey {
    bytes: [u8; 32],
}

impl PartialEq for SigningPublicKey {
    fn eq(&self, other: &Self) -> (equal: bool) {
        bytes_equal(&self.bytes, &other.bytes)
    }
}

impl vstd::std_specs::cmp::PartialEqSpecImpl for SigningPublicKey {
    open spec fn obeys_eq_spec() -> bool {
        true
    }

    open spec fn eq_spec(&self, other: &Self) -> bool {
        self@ == other@
    }
}

impl SigningPublicKey {
    #[verifier::type_invariant]
    spec fn nonzero(self) -> bool {
        !bytes::all_zero(self.bytes@)
    }

    /// The bytes.
    pub closed spec fn view(&self) -> Seq<u8> {
        self.bytes@
    }

    /// How many bytes there are.
    pub proof fn lemma_len(&self)
        ensures
            self@.len() == 32,
    {
    }

    /// States what the type guarantees of every key.
    pub(crate) fn checked(&self)
        ensures
            is_public_key(self@),
    {
        proof {
            use_type_invariant(self);
        }
    }

    /// The bytes.
    pub fn as_bytes(&self) -> (bytes: &[u8; 32])
        ensures
            bytes@ == self@,
    {
        &self.bytes
    }
}

impl TryFrom<[u8; 32]> for SigningPublicKey {
    type Error = SigningPublicKeyError;

    fn try_from(bytes: [u8; 32]) -> (key: Result<Self, SigningPublicKeyError>)
        ensures
            match key {
                Ok(key) => key@ == bytes@ && is_public_key(bytes@),
                Err(_) => !is_public_key(bytes@),
            },
    {
        if is_all_zero(&bytes) {
            Err(SigningPublicKeyError)
        } else {
            Ok(SigningPublicKey { bytes })
        }
    }
}

impl vstd::std_specs::convert::TryFromSpecImpl<[u8; 32]> for SigningPublicKey {
    open spec fn obeys_try_from_spec() -> bool {
        true
    }

    closed spec fn try_from_spec(bytes: [u8; 32]) -> Result<Self, SigningPublicKeyError> {
        if bytes::all_zero(bytes@) {
            Err(SigningPublicKeyError)
        } else {
            Ok(SigningPublicKey { bytes })
        }
    }
}

impl CanonicalEncode for SigningPublicKey {
    open spec fn model(&self) -> Value {
        Value::Bytes(self@)
    }

    fn to_canonical_value(&self) -> (value: CanonicalValue) {
        CanonicalValue::Bytes(to_vec(&self.bytes))
    }
}

impl SigningPublicKey {
    /// The bytes from which an identity derives.
    pub fn as_domain_key(&self) -> (bytes: &[u8; 32])
        ensures
            bytes@ == self@,
    {
        &self.bytes
    }

    /// Whether the encoding is that of a usable Ed25519 point.
    pub fn is_usable(&self) -> (usable: bool)
        ensures
            usable == outside::ed25519_key_accepted(self@),
    {
        accepts_verifying_key(&self.bytes)
    }

    /// Whether `signature` authenticates `message` under this key, strictly.
    pub fn authenticates(&self, message: &[u8], signature: &Ed25519Signature) -> (valid: bool)
        ensures
            valid == outside::ed25519_strict_accepted(self@, message@, signature@),
            valid ==> outside::ed25519_key_accepted(self@),
    {
        verify_strict(&self.bytes, message, &signature.bytes)
    }
}

/// A device encryption key used the forbidden all-zero encoding.
#[derive(Clone, Copy, Debug, PartialEq, Eq, Structural)]
pub struct DeviceEncryptionPublicKeyError;

impl DeviceEncryptionPublicKeyError {
    /// What went wrong, in words.
    pub fn message(&self) -> (text: String)
        ensures
            text@ == "device encryption public key must not be all zero"@,
    {
        "device encryption public key must not be all zero".to_owned()
    }
}

/// An X25519-compatible device encryption public key: an opaque encoding that
/// is not all zero.
#[derive(Clone, Copy, Debug, Eq, PartialOrd, Ord, Hash)]
pub struct DeviceEncryptionPublicKey {
    bytes: [u8; 32],
}

impl PartialEq for DeviceEncryptionPublicKey {
    fn eq(&self, other: &Self) -> (equal: bool) {
        bytes_equal(&self.bytes, &other.bytes)
    }
}

impl vstd::std_specs::cmp::PartialEqSpecImpl for DeviceEncryptionPublicKey {
    open spec fn obeys_eq_spec() -> bool {
        true
    }

    open spec fn eq_spec(&self, other: &Self) -> bool {
        self@ == other@
    }
}

impl DeviceEncryptionPublicKey {
    #[verifier::type_invariant]
    spec fn nonzero(self) -> bool {
        !bytes::all_zero(self.bytes@)
    }

    /// The bytes.
    pub closed spec fn view(&self) -> Seq<u8> {
        self.bytes@
    }

    /// How many bytes there are.
    pub proof fn lemma_len(&self)
        ensures
            self@.len() == 32,
    {
    }

    /// States what the type guarantees of every key.
    pub(crate) fn checked(&self)
        ensures
            is_public_key(self@),
    {
        proof {
            use_type_invariant(self);
        }
    }

    /// The bytes.
    pub fn as_bytes(&self) -> (bytes: &[u8; 32])
        ensures
            bytes@ == self@,
    {
        &self.bytes
    }
}

impl TryFrom<[u8; 32]> for DeviceEncryptionPublicKey {
    type Error = DeviceEncryptionPublicKeyError;

    fn try_from(bytes: [u8; 32]) -> (key: Result<Self, DeviceEncryptionPublicKeyError>)
        ensures
            match key {
                Ok(key) => key@ == bytes@ && is_public_key(bytes@),
                Err(_) => !is_public_key(bytes@),
            },
    {
        if is_all_zero(&bytes) {
            Err(DeviceEncryptionPublicKeyError)
        } else {
            Ok(DeviceEncryptionPublicKey { bytes })
        }
    }
}

impl vstd::std_specs::convert::TryFromSpecImpl<[u8; 32]> for DeviceEncryptionPublicKey {
    open spec fn obeys_try_from_spec() -> bool {
        true
    }

    closed spec fn try_from_spec(bytes: [u8; 32]) -> Result<Self, DeviceEncryptionPublicKeyError> {
        if bytes::all_zero(bytes@) {
            Err(DeviceEncryptionPublicKeyError)
        } else {
            Ok(DeviceEncryptionPublicKey { bytes })
        }
    }
}

impl CanonicalEncode for DeviceEncryptionPublicKey {
    open spec fn model(&self) -> Value {
        Value::Bytes(self@)
    }

    fn to_canonical_value(&self) -> (value: CanonicalValue) {
        CanonicalValue::Bytes(to_vec(&self.bytes))
    }
}

/// An Ed25519 signature.
#[derive(Clone, Copy, Debug, Eq, PartialOrd, Ord, Hash)]
pub struct Ed25519Signature {
    bytes: [u8; 64],
}

impl PartialEq for Ed25519Signature {
    fn eq(&self, other: &Self) -> (equal: bool) {
        bytes_equal(&self.bytes, &other.bytes)
    }
}

impl vstd::std_specs::cmp::PartialEqSpecImpl for Ed25519Signature {
    open spec fn obeys_eq_spec() -> bool {
        true
    }

    open spec fn eq_spec(&self, other: &Self) -> bool {
        self@ == other@
    }
}

impl Ed25519Signature {
    /// The bytes.
    pub closed spec fn view(&self) -> Seq<u8> {
        self.bytes@
    }

    /// How many bytes there are.
    pub proof fn lemma_len(&self)
        ensures
            self@.len() == 64,
    {
    }

    /// The value with the given bytes.
    pub fn from_bytes(bytes: [u8; 64]) -> (value: Self)
        ensures
            value@ == bytes@,
    {
        Ed25519Signature { bytes }
    }

    /// The bytes.
    pub fn as_bytes(&self) -> (bytes: &[u8; 64])
        ensures
            bytes@ == self@,
    {
        &self.bytes
    }
}

impl CanonicalEncode for Ed25519Signature {
    open spec fn model(&self) -> Value {
        Value::Bytes(self@)
    }

    fn to_canonical_value(&self) -> (value: CanonicalValue) {
        CanonicalValue::Bytes(to_vec(&self.bytes))
    }
}

} // verus!
