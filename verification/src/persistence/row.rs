//! Reading stored columns, with a label for what was malformed.

use vstd::prelude::*;
use crate::persistence::error::IdentityPersistenceError;
use crate::wire::bytes::to_array;
use crate::wire::digest::Sha256Digest;
use crate::wire::id;
use crate::wire::id::{
    DeviceEnrollmentChallengeId, DeviceId, DeviceSessionChallengeId, DeviceSessionId, IdentityId,
};
use crate::wire::key;
use crate::wire::key::{DeviceEncryptionPublicKey, Ed25519Signature, SigningPublicKey};
use crate::wire::number;
use crate::wire::number::{SafeUint, UtcMillis, MAX_SAFE_INTEGER};
use crate::wire::text;

verus! {

/// Reads a digest column.
pub fn digest(bytes: &[u8], label: &'static str) -> (digest: Result<
    Sha256Digest,
    IdentityPersistenceError,
>)
    ensures
        match digest {
            Ok(digest) => digest@ == bytes@ && bytes@.len() == 32,
            Err(error) => {
                &&& bytes@.len() != 32
                &&& error == IdentityPersistenceError::CorruptData(label)
            },
        },
{
    match to_array::<32>(bytes) {
        Some(bytes) => Ok(Sha256Digest::from_bytes(bytes)),
        None => Err(IdentityPersistenceError::CorruptData(label)),
    }
}

/// Reads a signature column.
pub fn parse_signature(bytes: &[u8], label: &'static str) -> (signature: Result<
    Ed25519Signature,
    IdentityPersistenceError,
>)
    ensures
        match signature {
            Ok(signature) => signature@ == bytes@ && bytes@.len() == 64,
            Err(error) => {
                &&& bytes@.len() != 64
                &&& error == IdentityPersistenceError::CorruptData(label)
            },
        },
{
    match to_array::<64>(bytes) {
        Some(bytes) => Ok(Ed25519Signature::from_bytes(bytes)),
        None => Err(IdentityPersistenceError::CorruptData(label)),
    }
}

/// Reads a signing key column.
pub fn parse_signing_key(bytes: &[u8], label: &'static str) -> (read: Result<
    SigningPublicKey,
    IdentityPersistenceError,
>)
    ensures
        match read {
            Ok(read) => read@ == bytes@ && key::is_public_key(bytes@),
            Err(error) => {
                &&& !key::is_public_key(bytes@)
                &&& error == IdentityPersistenceError::CorruptData(label)
            },
        },
{
    match to_array::<32>(bytes) {
        Some(bytes) => match SigningPublicKey::try_from(bytes) {
            Ok(read) => Ok(read),
            Err(_) => Err(IdentityPersistenceError::CorruptData(label)),
        },
        None => Err(IdentityPersistenceError::CorruptData(label)),
    }
}

/// Reads an encryption key column.
pub fn parse_encryption_key(bytes: &[u8], label: &'static str) -> (read: Result<
    DeviceEncryptionPublicKey,
    IdentityPersistenceError,
>)
    ensures
        match read {
            Ok(read) => read@ == bytes@ && key::is_public_key(bytes@),
            Err(error) => {
                &&& !key::is_public_key(bytes@)
                &&& error == IdentityPersistenceError::CorruptData(label)
            },
        },
{
    match to_array::<32>(bytes) {
        Some(bytes) => match DeviceEncryptionPublicKey::try_from(bytes) {
            Ok(read) => Ok(read),
            Err(_) => Err(IdentityPersistenceError::CorruptData(label)),
        },
        None => Err(IdentityPersistenceError::CorruptData(label)),
    }
}

/// Reads a safe unsigned number column.
pub fn safe_uint(stored: i64, label: &'static str) -> (read: Result<
    SafeUint,
    IdentityPersistenceError,
>)
    ensures
        match read {
            Ok(read) => read@ == stored && 0 <= stored <= MAX_SAFE_INTEGER,
            Err(error) => {
                &&& !(0 <= stored <= MAX_SAFE_INTEGER)
                &&& error == IdentityPersistenceError::CorruptData(label)
            },
        },
{
    if stored < 0 {
        return Err(IdentityPersistenceError::CorruptData(label));
    }
    match SafeUint::new(stored as u64) {
        Ok(read) => Ok(read),
        Err(_) => Err(IdentityPersistenceError::CorruptData(label)),
    }
}

/// Reads a time column.
pub fn utc_millis(stored: i64, label: &'static str) -> (read: Result<
    UtcMillis,
    IdentityPersistenceError,
>)
    ensures
        match read {
            Ok(read) => read@ == stored && number::is_utc_millis(stored as int),
            Err(error) => {
                &&& !number::is_utc_millis(stored as int)
                &&& error == IdentityPersistenceError::CorruptData(label)
            },
        },
{
    match UtcMillis::new(stored) {
        Ok(read) => Ok(read),
        Err(_) => Err(IdentityPersistenceError::CorruptData(label)),
    }
}

/// The column value of a safe unsigned number.
pub fn to_i64(number: SafeUint) -> (stored: i64)
    ensures
        stored == number@,
{
    number.get() as i64
}

/// Reads an identity column.
pub fn parse_identity_id(stored: &str, label: &'static str) -> (read: Result<
    IdentityId,
    IdentityPersistenceError,
>)
    ensures
        match read {
            Ok(read) => stored@ == text::hex(read@),
            Err(error) => {
                &&& !id::is_identity_text(stored@)
                &&& error == IdentityPersistenceError::CorruptData(label)
            },
        },
{
    match IdentityId::from_text(stored) {
        Ok(read) => Ok(read),
        Err(_) => Err(IdentityPersistenceError::CorruptData(label)),
    }
}

/// Reads a device ID column.
pub fn parse_device_id(stored: [u8; 16], label: &'static str) -> (read: Result<
    DeviceId,
    IdentityPersistenceError,
>)
    ensures
        match read {
            Ok(read) => read@ == stored@ && id::is_uuid_v7(stored@),
            Err(error) => {
                &&& !id::is_uuid_v7(stored@)
                &&& error == IdentityPersistenceError::CorruptData(label)
            },
        },
{
    match DeviceId::from_uuid_bytes(stored) {
        Ok(read) => Ok(read),
        Err(_) => Err(IdentityPersistenceError::CorruptData(label)),
    }
}

/// Reads a session ID column.
pub fn parse_session_id(stored: [u8; 16], label: &'static str) -> (read: Result<
    DeviceSessionId,
    IdentityPersistenceError,
>)
    ensures
        match read {
            Ok(read) => read@ == stored@ && id::is_uuid_v7(stored@),
            Err(error) => {
                &&& !id::is_uuid_v7(stored@)
                &&& error == IdentityPersistenceError::CorruptData(label)
            },
        },
{
    match DeviceSessionId::from_uuid_bytes(stored) {
        Ok(read) => Ok(read),
        Err(_) => Err(IdentityPersistenceError::CorruptData(label)),
    }
}

/// Reads a session challenge ID column.
pub fn parse_session_challenge_id(stored: [u8; 16], label: &'static str) -> (read: Result<
    DeviceSessionChallengeId,
    IdentityPersistenceError,
>)
    ensures
        match read {
            Ok(read) => read@ == stored@ && id::is_uuid_v7(stored@),
            Err(error) => {
                &&& !id::is_uuid_v7(stored@)
                &&& error == IdentityPersistenceError::CorruptData(label)
            },
        },
{
    match DeviceSessionChallengeId::from_uuid_bytes(stored) {
        Ok(read) => Ok(read),
        Err(_) => Err(IdentityPersistenceError::CorruptData(label)),
    }
}

/// Reads an enrollment challenge ID column.
pub fn parse_enrollment_challenge_id(stored: [u8; 16], label: &'static str) -> (read: Result<
    DeviceEnrollmentChallengeId,
    IdentityPersistenceError,
>)
    ensures
        match read {
            Ok(read) => read@ == stored@ && id::is_uuid_v7(stored@),
            Err(error) => {
                &&& !id::is_uuid_v7(stored@)
                &&& error == IdentityPersistenceError::CorruptData(label)
            },
        },
{
    match DeviceEnrollmentChallengeId::from_uuid_bytes(stored) {
        Ok(read) => Ok(read),
        Err(_) => Err(IdentityPersistenceError::CorruptData(label)),
    }
}

/// The time `duration` milliseconds after `now`, if it is representable.
///
/// A sum that no number holds is reported under `overflow`, and one that is no
/// time under `label`.
pub fn add_duration(
    now: UtcMillis,
    duration: i64,
    overflow: &'static str,
    label: &'static str,
) -> (time: Result<UtcMillis, IdentityPersistenceError>)
    ensures
        number::is_utc_millis(now@ as int),
        match time {
            Ok(time) => time@ == now@ + duration,
            Err(error) => if i64::MIN <= now@ + duration <= i64::MAX {
                &&& !number::is_utc_millis(now@ + duration)
                &&& error == IdentityPersistenceError::InvalidCommand(label)
            } else {
                error == IdentityPersistenceError::InvalidCommand(overflow)
            },
        },
{
    now.checked();
    let sum = match now.get().checked_add(duration) {
        Some(sum) => sum,
        None => {
            return Err(IdentityPersistenceError::InvalidCommand(overflow));
        },
    };
    match UtcMillis::new(sum) {
        Ok(time) => Ok(time),
        Err(_) => Err(IdentityPersistenceError::InvalidCommand(label)),
    }
}

/// The number of rows that a bounded removal took, as storage counts it.
pub fn removed_count(stored: i64, label: &'static str) -> (count: Result<
    u64,
    IdentityPersistenceError,
>)
    ensures
        match count {
            Ok(count) => count == stored,
            Err(error) => stored < 0 && error == IdentityPersistenceError::CorruptData(label),
        },
{
    if stored < 0 {
        Err(IdentityPersistenceError::CorruptData(label))
    } else {
        Ok(stored as u64)
    }
}

} // verus!
