//! The two wire versions of the identity log, and their constants.

use vstd::prelude::*;
use crate::log::error::IdentityLogError;
use crate::wire::version::{wire_equal, ProtocolVersion, WireVersion};

verus! {

/// Frozen original identity-log writer version retained for replay-only reads.
pub const IDENTITY_LOG_V1_0_PROTOCOL_VERSION: ProtocolVersion = (1, 0);

/// Exact frozen original identity-log wire version.
pub const IDENTITY_LOG_V1_0_WIRE_VERSION: WireVersion = (
    IDENTITY_LOG_V1_0_PROTOCOL_VERSION,
    IDENTITY_LOG_V1_0_PROTOCOL_VERSION,
);

/// The current writable identity-log wire version.
pub const IDENTITY_LOG_PROTOCOL_VERSION: ProtocolVersion = (1, 1);

/// Exact current identity-log writer and minimum-reader version.
pub const IDENTITY_LOG_WIRE_VERSION: WireVersion = (
    IDENTITY_LOG_PROTOCOL_VERSION,
    IDENTITY_LOG_PROTOCOL_VERSION,
);

/// The supported lines of identity-log wire versions.
#[derive(Clone, Copy, Debug, PartialEq, Eq, Structural)]
pub enum IdentityLogWireLine {
    /// The frozen line, which is only read.
    FrozenV1_0,
    /// The current line.
    CurrentV1_1,
}

/// The line of a wire version, if it is supported.
pub open spec fn line_of(wire: WireVersion) -> Option<IdentityLogWireLine> {
    if wire == IDENTITY_LOG_V1_0_WIRE_VERSION {
        Some(IdentityLogWireLine::FrozenV1_0)
    } else if wire == IDENTITY_LOG_WIRE_VERSION {
        Some(IdentityLogWireLine::CurrentV1_1)
    } else {
        None
    }
}

/// `wire` is one of the supported identity-log wire versions.
pub open spec fn is_supported(wire: WireVersion) -> bool {
    line_of(wire) is Some
}

/// The line of a wire version.
pub fn identity_log_wire_line(wire: WireVersion) -> (line: Result<
    IdentityLogWireLine,
    IdentityLogError,
>)
    ensures
        match line {
            Ok(line) => line_of(wire) == Some(line),
            Err(error) => !is_supported(wire) && error == IdentityLogError::InvalidWireVersion,
        },
{
    if wire_equal(wire, IDENTITY_LOG_V1_0_WIRE_VERSION) {
        Ok(IdentityLogWireLine::FrozenV1_0)
    } else if wire_equal(wire, IDENTITY_LOG_WIRE_VERSION) {
        Ok(IdentityLogWireLine::CurrentV1_1)
    } else {
        Err(IdentityLogError::InvalidWireVersion)
    }
}

/// Accepts exactly the supported wire versions.
pub fn validate_wire_version(wire: WireVersion) -> (valid: Result<(), IdentityLogError>)
    ensures
        valid == if is_supported(wire) {
            Ok::<(), IdentityLogError>(())
        } else {
            Err(IdentityLogError::InvalidWireVersion)
        },
{
    match identity_log_wire_line(wire) {
        Ok(_) => Ok(()),
        Err(error) => Err(error),
    }
}

} // verus!
