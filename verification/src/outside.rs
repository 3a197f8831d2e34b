//! The calls into code that this library does not verify.
//!
//! Each function here makes one outside call; its contract is what the rest of
//! the library believes of that call.

use vstd::prelude::*;
use vstd::utf8::*;
use base64ct::{Base64UrlUnpadded, Encoding};
use ed25519_dalek::{Signature, Signer, SigningKey, Verifier, VerifyingKey};
use sha2::{Digest, Sha256};
use subtle::ConstantTimeEq;
use url::Url;
use uuid::Uuid;
use x509_parser::pem::parse_x509_pem;
use zeroize::Zeroize;
use crate::persistence::origin::UrlParts;
use crate::wire::base64;
use crate::wire::bytes;
use crate::wire::text;

verus! {

/// Calls `std::string::String::from_utf8`.
///
/// Believed of it: it accepts exactly the well-formed UTF-8 byte strings, and
/// the text it returns has those bytes as its UTF-8 form.
#[verifier::external_body]
pub(crate) fn text_from_utf8(content: Vec<u8>) -> (text: Option<String>)
    ensures
        match text {
            Some(text) => encode_utf8(text@) == content@,
            None => !valid_utf8(content@),
        },
{
    String::from_utf8(content).ok()
}

/// The SHA-256 digest of a byte string, as `sha2::Sha256::digest` returns it.
pub uninterp spec fn sha256_of(bytes: Seq<u8>) -> Seq<u8>;

/// Calls `sha2::Sha256::digest`.
///
/// Believed of it: the digest depends on the bytes alone.
#[verifier::external_body]
pub(crate) fn sha256(bytes: &[u8]) -> (digest: [u8; 32])
    ensures
        digest@ == sha256_of(bytes@),
{
    Sha256::digest(bytes).into()
}

/// Whether `ed25519_dalek::VerifyingKey::from_bytes` accepts a key encoding.
pub uninterp spec fn ed25519_key_accepted(key: Seq<u8>) -> bool;

/// Calls `ed25519_dalek::VerifyingKey::from_bytes`.
///
/// Believed of it: whether it accepts an encoding depends on the bytes alone.
#[verifier::external_body]
pub(crate) fn accepts_verifying_key(key: &[u8; 32]) -> (accepted: bool)
    ensures
        accepted == ed25519_key_accepted(key@),
{
    VerifyingKey::from_bytes(key).is_ok()
}

/// Whether `ed25519_dalek::VerifyingKey::verify_strict` accepts a signature
/// over a message under the key with the given encoding.
pub uninterp spec fn ed25519_strict_accepted(
    key: Seq<u8>,
    message: Seq<u8>,
    signature: Seq<u8>,
) -> bool;

/// Calls `ed25519_dalek::VerifyingKey::verify_strict`.
///
/// Believed of it: whether it accepts depends on the key, the message and the
/// signature alone, and it never accepts under a key encoding that
/// `VerifyingKey::from_bytes` refuses.
#[verifier::external_body]
pub(crate) fn verify_strict(key: &[u8; 32], message: &[u8], signature: &[u8; 64]) -> (accepted:
    bool)
    ensures
        accepted == ed25519_strict_accepted(key@, message@, signature@),
        accepted ==> ed25519_key_accepted(key@),
{
    match VerifyingKey::from_bytes(key) {
        Ok(key) => key.verify_strict(message, &Signature::from_bytes(signature)).is_ok(),
        Err(_) => false,
    }
}

/// Calls `subtle::ConstantTimeEq::ct_eq` on two digests.
///
/// Believed of it: it says whether the two hold the same bytes.
#[verifier::external_body]
pub(crate) fn constant_time_equal(a: &[u8; 32], b: &[u8; 32]) -> (equal: bool)
    ensures
        equal == (a@ == b@),
{
    bool::from(a.ct_eq(b))
}

/// The sixteen bytes that `uuid::Uuid::parse_str` reads from a text, if it
/// accepts the text.
pub uninterp spec fn uuid_parsed(text: Seq<char>) -> Option<Seq<u8>>;

/// Calls `uuid::Uuid::parse_str`.
///
/// Believed of it: the result depends on the text alone, and the hyphenated
/// lower-case text of sixteen bytes is read back as those bytes.
#[verifier::external_body]
pub(crate) fn uuid_from_text(text: &str) -> (bytes: Option<[u8; 16]>)
    ensures
        match bytes {
            Some(bytes) => uuid_parsed(text@) == Some(bytes@),
            None => uuid_parsed(text@) is None,
        },
        forall|raw: Seq<u8>|
            raw.len() == 16 && #[trigger] text::hyphenated(raw) == text@ ==> bytes is Some
                && bytes->0@ == raw,
{
    Uuid::parse_str(text).ok().map(Uuid::into_bytes)
}

/// Calls `to_string` on the `uuid::Uuid` with the given bytes.
///
/// Believed of it: the text is the hyphenated lower-case form.
#[verifier::external_body]
pub(crate) fn uuid_to_text(bytes: &[u8; 16]) -> (text: String)
    ensures
        text@ == text::hyphenated(bytes@),
{
    Uuid::from_bytes(*bytes).to_string()
}

/// Whether `ed25519_dalek::VerifyingKey::verify` accepts a signature over a
/// message under the key with the given encoding.
pub uninterp spec fn ed25519_accepted(
    key: Seq<u8>,
    message: Seq<u8>,
    signature: Seq<u8>,
) -> bool;

/// Calls `ed25519_dalek::VerifyingKey::verify`.
///
/// Believed of it: whether it accepts depends on the key, the message and the
/// signature alone, and it never accepts under a key encoding that
/// `VerifyingKey::from_bytes` refuses.
#[verifier::external_body]
pub(crate) fn verify(key: &[u8; 32], message: &[u8], signature: &[u8; 64]) -> (accepted: bool)
    ensures
        accepted == ed25519_accepted(key@, message@, signature@),
        accepted ==> ed25519_key_accepted(key@),
{
    match VerifyingKey::from_bytes(key) {
        Ok(key) => key.verify(message, &Signature::from_bytes(signature)).is_ok(),
        Err(_) => false,
    }
}

/// The public key that `ed25519_dalek::SigningKey` derives from a secret.
pub uninterp spec fn ed25519_public_key_of(secret: Seq<u8>) -> Seq<u8>;

/// Calls `ed25519_dalek::SigningKey::verifying_key`.
///
/// Believed of it: the public key depends on the secret alone.
#[verifier::external_body]
pub(crate) fn public_key(secret: &[u8; 32]) -> (key: [u8; 32])
    ensures
        key@ == ed25519_public_key_of(secret@),
{
    SigningKey::from_bytes(secret).verifying_key().to_bytes()
}

/// The signature that `ed25519_dalek::SigningKey::sign` makes over a message.
pub uninterp spec fn ed25519_signature_of(secret: Seq<u8>, message: Seq<u8>) -> Seq<u8>;

/// Calls `ed25519_dalek::SigningKey::sign`.
///
/// Believed of it: the signature depends on the secret and the message alone,
/// and the public key of the secret verifies it over that message.
#[verifier::external_body]
pub(crate) fn sign(secret: &[u8; 32], message: &[u8]) -> (signature: [u8; 64])
    ensures
        signature@ == ed25519_signature_of(secret@, message@),
        ed25519_accepted(ed25519_public_key_of(secret@), message@, signature@),
{
    SigningKey::from_bytes(secret).sign(message).to_bytes()
}

/// What `url::Url` reports of a text that it parses: the scheme, whether there
/// is a host, the user name, whether there is a password, the path, whether
/// there is a query, and whether there is a fragment.
pub uninterp spec fn url_parsed(text: Seq<char>) -> Option<
    (Seq<char>, bool, Seq<char>, bool, Seq<char>, bool, bool),
>;

/// Calls `url::Url::parse` and reads the parts of the URL.
///
/// Believed of it: whether it parses, and the parts, depend on the text alone.
#[verifier::external_body]
pub(crate) fn parse_url(text: &str) -> (parts: Option<UrlParts>)
    ensures
        match parts {
            Some(parts) => url_parsed(text@) == Some(parts@),
            None => url_parsed(text@) is None,
        },
{
    let url = Url::parse(text).ok()?;
    Some(UrlParts {
        scheme: url.scheme().to_owned(),
        has_host: url.host_str().is_some(),
        username: url.username().to_owned(),
        has_password: url.password().is_some(),
        path: url.path().to_owned(),
        has_query: url.query().is_some(),
        has_fragment: url.fragment().is_some(),
    })
}

/// The ASCII serialization of the origin of the HTTPS URL that a text holds, as
/// `url::Url::origin` and `url::Origin::ascii_serialization` give it.
pub uninterp spec fn url_origin_of(text: Seq<char>) -> Seq<char>;

/// Calls `url::Url::origin`, and `ascii_serialization` on the origin, for a text
/// that parses as an HTTPS URL with a host.
///
/// Believed of it: the serialization depends on the text alone. Other schemes
/// are left out: the origin of a `blob` URL is that of the URL in its path, and
/// `Url::origin` descends into it once for every `blob` that is nested there.
#[verifier::external_body]
pub(crate) fn https_url_origin(text: &str) -> (origin: String)
    requires
        url_parsed(text@) is Some,
        (url_parsed(text@)->0).0 == "https"@,
        (url_parsed(text@)->0).1,
    ensures
        origin@ == url_origin_of(text@),
{
    match Url::parse(text) {
        Ok(url) => url.origin().ascii_serialization(),
        Err(_) => String::new(),
    }
}

/// Calls `zeroize::Zeroize::zeroize` on a secret.
///
/// Believed of it: every byte is zero afterwards.
#[verifier::external_body]
pub(crate) fn zeroize(secret: &mut [u8; 32])
    ensures
        bytes::all_zero(final(secret)@),
{
    secret.zeroize();
}

/// Calls `zeroize::Zeroize::zeroize` on a byte string.
///
/// Believed of it: the byte string is empty afterwards. That the memory which
/// held its bytes is overwritten is what the call is for, and is not stated.
#[verifier::external_body]
pub(crate) fn zeroize_bytes(bytes: &mut Vec<u8>)
    ensures
        final(bytes)@ == Seq::<u8>::empty(),
{
    bytes.zeroize();
}

/// Calls `zeroize::Zeroize::zeroize` on a text.
///
/// Believed of it: the text is empty afterwards. That the memory which held its
/// characters is overwritten is what the call is for, and is not stated.
#[verifier::external_body]
pub(crate) fn zeroize_text(text: &mut String)
    ensures
        final(text)@ == Seq::<char>::empty(),
{
    text.zeroize();
}

/// Calls `base64ct::Base64UrlUnpadded::decode` into a buffer of 32 bytes.
///
/// Believed of it, of texts of 43 bytes: it accepts exactly the base64url texts
/// of 32 bytes, and leaves those bytes in the buffer.
#[verifier::external_body]
pub(crate) fn base64url_decode(text: &str, bytes: &mut [u8; 32]) -> (accepted: bool)
    requires
        encode_utf8(text@).len() == 43,
    ensures
        accepted ==> text@ == base64::base64url(final(bytes)@),
        !accepted ==> forall|raw: Seq<u8>|
            raw.len() == 32 ==> text@ != #[trigger] base64::base64url(raw),
{
    Base64UrlUnpadded::decode(text, bytes).is_ok()
}

/// Calls `base64ct::Base64UrlUnpadded::encode_string`.
///
/// Believed of it: the text is the base64url text of the bytes.
#[verifier::external_body]
pub(crate) fn base64url_encode(bytes: &[u8; 32]) -> (text: String)
    ensures
        text@ == base64::base64url(bytes@),
{
    Base64UrlUnpadded::encode_string(bytes)
}

/// The JSON text of a string, as `serde_json::to_string` writes it.
pub uninterp spec fn json_string_of(text: Seq<char>) -> Seq<char>;

/// Calls `serde_json::to_string` on a string.
///
/// Believed of it: the text depends on the string alone.
#[verifier::external_body]
pub(crate) fn json_string(text: &str) -> (json: String)
    ensures
        json@ == json_string_of(text@),
{
    serde_json::to_string(text).unwrap_or_default()
}

/// Calls `serde_json::to_string` on a number.
///
/// Believed of it: the text is the decimal text of the number.
#[verifier::external_body]
pub(crate) fn json_number(number: i64) -> (json: String)
    ensures
        json@ == text::decimal_int(number as int),
{
    serde_json::to_string(&number).unwrap_or_default()
}

/// What `x509_parser` reports of a text that holds a PEM block: how many bytes
/// follow the block, and, if the block parses as a certificate, whether that is
/// one of a certification authority.
pub uninterp spec fn pem_parsed(text: Seq<char>) -> Option<(usize, Option<bool>)>;

/// Calls `x509_parser::pem::parse_x509_pem`, and `parse_x509` and `is_ca` on
/// what it read.
///
/// Believed of it: the result depends on the text alone.
#[verifier::external_body]
pub(crate) fn parse_pem(text: &str) -> (parsed: Option<(usize, Option<bool>)>)
    ensures
        parsed == pem_parsed(text@),
{
    let (remainder, pem) = parse_x509_pem(text.as_bytes()).ok()?;
    let is_ca = pem.parse_x509().ok().map(|certificate| certificate.is_ca());
    Some((remainder.len(), is_ca))
}

} // verus!
