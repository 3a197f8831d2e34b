//! Errors of the identity log and its pages.

use vstd::prelude::*;

verus! {

/// Identity-log admission failed without revealing private key or storage state.
#[derive(Clone, Copy, Debug, PartialEq, Eq, Structural)]
pub enum IdentityLogError {
    /// A writer or embedded contract used a different wire version.
    InvalidWireVersion,
    /// Deterministic bytes did not have the exact declared type shape.
    InvalidCanonical,
    /// An Ed25519 proof did not authenticate its declared public key.
    InvalidSignature,
    /// The immutable genesis event did not bind the identity and its keys.
    InvalidGenesis,
    /// An event cannot occupy its declared sequence or parent position.
    InvalidEventShape,
    /// The event belongs to a different self-certifying identity.
    IdentityMismatch,
    /// The event sequence is not the next contiguous log sequence.
    SequenceMismatch,
    /// The event predecessor hash is not the current log head.
    PreviousHashMismatch,
    /// A previously accepted complete event was submitted again.
    Replay,
    /// The verified signer is not authorized for this transition.
    UnauthorizedSigner,
    /// A device certificate is malformed, stale, or not issued by the current root.
    InvalidDeviceCertificate,
    /// A device ID or device key was already used in this identity log.
    DeviceAlreadyExists,
    /// The named device does not exist in this identity log.
    DeviceNotFound,
    /// The named device was already revoked.
    DeviceAlreadyRevoked,
    /// A root or recovery key succession proof is invalid.
    InvalidRotation,
    /// A relay descriptor is malformed, expired, or not canonical.
    InvalidRelayDescriptor,
}

impl IdentityLogError {
    /// The error in words.
    pub open spec fn text(&self) -> Seq<char> {
        match self {
            IdentityLogError::InvalidWireVersion => {
                "identity log uses an unsupported wire version"@
            },
            IdentityLogError::InvalidCanonical => {
                "identity log bytes do not match the canonical contract"@
            },
            IdentityLogError::InvalidSignature => "identity log signature is invalid"@,
            IdentityLogError::InvalidGenesis => "identity log genesis is invalid"@,
            IdentityLogError::InvalidEventShape => {
                "identity log event has an invalid position or shape"@
            },
            IdentityLogError::IdentityMismatch => "identity log event belongs to another identity"@,
            IdentityLogError::SequenceMismatch => "identity log event sequence is not contiguous"@,
            IdentityLogError::PreviousHashMismatch => {
                "identity log event predecessor does not match"@
            },
            IdentityLogError::Replay => "identity log event was already accepted"@,
            IdentityLogError::UnauthorizedSigner => "identity log signer is not authorized"@,
            IdentityLogError::InvalidDeviceCertificate => "device certificate is invalid"@,
            IdentityLogError::DeviceAlreadyExists => "device ID or key was already used"@,
            IdentityLogError::DeviceNotFound => "device does not exist"@,
            IdentityLogError::DeviceAlreadyRevoked => "device is already revoked"@,
            IdentityLogError::InvalidRotation => "key rotation proof is invalid"@,
            IdentityLogError::InvalidRelayDescriptor => "relay descriptor is invalid"@,
        }
    }

    /// Says in words what went wrong.
    pub fn message(&self) -> (text: String)
        ensures
            text@ == self.text(),
    {
        match self {
            IdentityLogError::InvalidWireVersion => {
                "identity log uses an unsupported wire version".to_owned()
            },
            IdentityLogError::InvalidCanonical => {
                "identity log bytes do not match the canonical contract".to_owned()
            },
            IdentityLogError::InvalidSignature => "identity log signature is invalid".to_owned(),
            IdentityLogError::InvalidGenesis => "identity log genesis is invalid".to_owned(),
            IdentityLogError::InvalidEventShape => {
                "identity log event has an invalid position or shape".to_owned()
            },
            IdentityLogError::IdentityMismatch => {
                "identity log event belongs to another identity".to_owned()
            },
            IdentityLogError::SequenceMismatch => {
                "identity log event sequence is not contiguous".to_owned()
            },
            IdentityLogError::PreviousHashMismatch => {
                "identity log event predecessor does not match".to_owned()
            },
            IdentityLogError::Replay => "identity log event was already accepted".to_owned(),
            IdentityLogError::UnauthorizedSigner => {
                "identity log signer is not authorized".to_owned()
            },
            IdentityLogError::InvalidDeviceCertificate => {
                "device certificate is invalid".to_owned()
            },
            IdentityLogError::DeviceAlreadyExists => "device ID or key was already used".to_owned(),
            IdentityLogError::DeviceNotFound => "device does not exist".to_owned(),
            IdentityLogError::DeviceAlreadyRevoked => "device is already revoked".to_owned(),
            IdentityLogError::InvalidRotation => "key rotation proof is invalid".to_owned(),
            IdentityLogError::InvalidRelayDescriptor => "relay descriptor is invalid".to_owned(),
        }
    }
}

/// Fail-closed validation errors for a read-only identity-log page.
#[derive(Clone, Copy, Debug, PartialEq, Eq, Structural)]
pub enum IdentityLogPageError {
    /// The page bytes or field types do not have the exact canonical shape.
    InvalidCanonical,
    /// A page exceeds its fixed event-count bound.
    EventLimitExceeded,
    /// A page exceeds its fixed deterministic-CBOR byte bound.
    PageTooLarge,
    /// A page cursor is outside the advertised contiguous log range.
    InvalidCursor,
    /// A page does not advance exactly through the events it contains.
    NextCursorMismatch,
    /// A page's `has_more` marker is inconsistent with its advertised head.
    PaginationMismatch,
    /// One embedded signed event is not a valid exact identity-log event.
    InvalidEvent(IdentityLogError),
    /// An embedded event belongs to another self-certifying identity.
    IdentityMismatch,
    /// Embedded events do not occupy one contiguous sequence range.
    SequenceMismatch,
    /// Adjacent embedded events do not link through exact entry hashes.
    PreviousHashMismatch,
    /// The terminal exact event does not bind the advertised head hash.
    AdvertisedHeadMismatch,
}

impl IdentityLogPageError {
    /// The error in words.
    pub open spec fn text(&self) -> Seq<char> {
        match self {
            IdentityLogPageError::InvalidCanonical => {
                "identity log page bytes do not match the canonical contract"@
            },
            IdentityLogPageError::EventLimitExceeded => "identity log page has too many events"@,
            IdentityLogPageError::PageTooLarge => "identity log page exceeds the byte bound"@,
            IdentityLogPageError::InvalidCursor => {
                "identity log page cursor is outside the advertised range"@
            },
            IdentityLogPageError::NextCursorMismatch => {
                "identity log page next cursor does not match its events"@
            },
            IdentityLogPageError::PaginationMismatch => {
                "identity log page pagination marker is inconsistent"@
            },
            IdentityLogPageError::InvalidEvent(_) => {
                "identity log page contains an invalid signed event"@
            },
            IdentityLogPageError::IdentityMismatch => {
                "identity log page contains another identity"@
            },
            IdentityLogPageError::SequenceMismatch => {
                "identity log page events are not contiguous"@
            },
            IdentityLogPageError::PreviousHashMismatch => {
                "identity log page event predecessor does not match"@
            },
            IdentityLogPageError::AdvertisedHeadMismatch => {
                "identity log page terminal event does not match the advertised head"@
            },
        }
    }

    /// Says in words what went wrong.
    pub fn message(&self) -> (text: String)
        ensures
            text@ == self.text(),
    {
        match self {
            IdentityLogPageError::InvalidCanonical => {
                "identity log page bytes do not match the canonical contract".to_owned()
            },
            IdentityLogPageError::EventLimitExceeded => {
                "identity log page has too many events".to_owned()
            },
            IdentityLogPageError::PageTooLarge => {
                "identity log page exceeds the byte bound".to_owned()
            },
            IdentityLogPageError::InvalidCursor => {
                "identity log page cursor is outside the advertised range".to_owned()
            },
            IdentityLogPageError::NextCursorMismatch => {
                "identity log page next cursor does not match its events".to_owned()
            },
            IdentityLogPageError::PaginationMismatch => {
                "identity log page pagination marker is inconsistent".to_owned()
            },
            IdentityLogPageError::InvalidEvent(_) => {
                "identity log page contains an invalid signed event".to_owned()
            },
            IdentityLogPageError::IdentityMismatch => {
                "identity log page contains another identity".to_owned()
            },
            IdentityLogPageError::SequenceMismatch => {
                "identity log page events are not contiguous".to_owned()
            },
            IdentityLogPageError::PreviousHashMismatch => {
                "identity log page event predecessor does not match".to_owned()
            },
            IdentityLogPageError::AdvertisedHeadMismatch => {
                "identity log page terminal event does not match the advertised head".to_owned()
            },
        }
    }

    /// The identity-log error behind this one.
    pub fn source(&self) -> (source: Option<IdentityLogError>)
        ensures
            source == match self {
                IdentityLogPageError::InvalidEvent(source) => Some(*source),
                _ => None,
            },
    {
        match self {
            IdentityLogPageError::InvalidEvent(source) => Some(*source),
            _ => None,
        }
    }
}

} // verus!
