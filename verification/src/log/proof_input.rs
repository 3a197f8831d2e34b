//! What identity-log signatures are made over.

use vstd::prelude::*;
use vstd::utf8::*;
use crate::log::error::IdentityLogError;
use crate::outside;
use crate::wire::bytes::{append_bytes, to_vec};
use crate::wire::cbor;
use crate::wire::codec::encode_value;
use crate::wire::digest;
use crate::wire::digest::Sha256Digest;
use crate::wire::key::{Ed25519Signature, SigningPublicKey};
use crate::wire::record::CanonicalEncode;
use crate::wire::value::{CanonicalValue, Value};

verus! {

/// Domain separator for an unsigned identity-log event digest.
pub const IDENTITY_LOG_EVENT_HASH_DOMAIN: &'static str = "dirextalk.identity-log-event.v1\0";

/// Domain separator for the Ed25519 input authenticating an identity-log event.
pub const IDENTITY_LOG_SIGNATURE_DOMAIN: &'static str = "dirextalk.identity-log-signature.v1\0";

/// Domain separator for the durable chain hash of a complete signed event.
pub const IDENTITY_LOG_ENTRY_HASH_DOMAIN: &'static str = "dirextalk.identity-log-entry.v1\0";

/// Domain separator for a root-signed device certificate digest.
pub const DEVICE_CERTIFICATE_HASH_DOMAIN: &'static str = "dirextalk.device-certificate.v1\0";

/// Domain separator for the Ed25519 input authenticating a device certificate.
pub const DEVICE_CERTIFICATE_SIGNATURE_DOMAIN: &'static str =
    "dirextalk.device-certificate-signature.v1\0";

/// Domain separator proving the genesis recovery key is controlled by its holder.
pub const GENESIS_RECOVERY_ACCEPTANCE_HASH_DOMAIN: &'static str =
    "dirextalk.identity-log-genesis-recovery-acceptance.v1\0";

/// Domain separator for the genesis recovery-key acceptance signature.
pub const GENESIS_RECOVERY_ACCEPTANCE_SIGNATURE_DOMAIN: &'static str =
    "dirextalk.identity-log-genesis-recovery-acceptance-signature.v1\0";

/// Domain separator proving a successor root or recovery key is controlled.
pub const KEY_ROTATION_ACCEPTANCE_HASH_DOMAIN: &'static str =
    "dirextalk.identity-log-key-acceptance.v1\0";

/// Domain separator for successor root or recovery key acceptance signatures.
pub const KEY_ROTATION_ACCEPTANCE_SIGNATURE_DOMAIN: &'static str =
    "dirextalk.identity-log-key-acceptance-signature.v1\0";

/// Domain separator for current-recovery authorization of a recovery rotation.
pub const RECOVERY_ROTATION_AUTHORIZATION_HASH_DOMAIN: &'static str =
    "dirextalk.identity-log-recovery-rotation-authorization.v1\0";

/// Domain separator for the current-recovery authorization signature.
pub const RECOVERY_ROTATION_AUTHORIZATION_SIGNATURE_DOMAIN: &'static str =
    "dirextalk.identity-log-recovery-rotation-authorization-signature.v1\0";

/// The bytes that are signed for a digest under a signature domain.
pub open spec fn signed_bytes(domain: Seq<char>, digest: Seq<u8>) -> Seq<u8> {
    encode_utf8(domain) + digest
}

/// The digest of a value's byte form under a hash domain.
pub open spec fn value_digest(domain: Seq<char>, value: Value) -> Seq<u8> {
    digest::hash_in_domain(domain, cbor::encoding(value))
}

/// The bytes that are signed for a value: its digest under `hash_domain`, in
/// `signature_domain`.
pub open spec fn value_signed_bytes(
    hash_domain: Seq<char>,
    signature_domain: Seq<char>,
    value: Value,
) -> Seq<u8> {
    signed_bytes(signature_domain, value_digest(hash_domain, value))
}

/// The bytes that are signed for `digest` under a signature domain.
pub fn signature_input(domain: &str, digest: Sha256Digest) -> (input: Vec<u8>)
    ensures
        input@ == signed_bytes(domain@, digest@),
{
    let mut input: Vec<u8> = to_vec(domain.as_bytes());
    append_bytes(&mut input, digest.as_bytes());
    input
}

/// The digest of a canonical value under a hash domain.
pub fn value_hash(domain: &str, value: &CanonicalValue) -> (hash: Result<
    Sha256Digest,
    IdentityLogError,
>)
    ensures
        match hash {
            Ok(hash) => cbor::canonical(value@) && hash@ == value_digest(domain@, value@),
            Err(error) => !cbor::canonical(value@) && error == IdentityLogError::InvalidCanonical,
        },
{
    match encode_value(value) {
        Ok(bytes) => Ok(Sha256Digest::hash_domain(domain, bytes.as_slice())),
        Err(_) => Err(IdentityLogError::InvalidCanonical),
    }
}

/// The digest of the canonical value of `value` under a hash domain.
pub fn canonical_hash<T: CanonicalEncode>(domain: &str, value: &T) -> (hash: Result<
    Sha256Digest,
    IdentityLogError,
>)
    ensures
        match hash {
            Ok(hash) => {
                &&& cbor::canonical(value.model())
                &&& hash@ == value_digest(domain@, value.model())
            },
            Err(error) => {
                &&& !cbor::canonical(value.model())
                &&& error == IdentityLogError::InvalidCanonical
            },
        },
{
    value_hash(domain, &value.to_canonical_value())
}

/// Accepts exactly the signatures that strictly authenticate `input`.
pub fn verify_signature(
    signer: SigningPublicKey,
    input: &[u8],
    signature: Ed25519Signature,
) -> (verified: Result<(), IdentityLogError>)
    ensures
        verified == if outside::ed25519_strict_accepted(signer@, input@, signature@) {
            Ok::<(), IdentityLogError>(())
        } else {
            Err(IdentityLogError::InvalidSignature)
        },
{
    if signer.authenticates(input, &signature) {
        Ok(())
    } else {
        Err(IdentityLogError::InvalidSignature)
    }
}

} // verus!
