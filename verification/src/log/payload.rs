//! The transitions that identity-log events carry.

use vstd::prelude::*;
use crate::log::certificate;
use crate::log::certificate::{Certificate, DeviceCertificateV1};
use crate::log::error::IdentityLogError;
use crate::log::relay;
use crate::log::relay::{Relay, RelayDescriptorV1};
use crate::log::wire_line;
use crate::log::wire_line::{identity_log_wire_line, IdentityLogWireLine};
use crate::wire::cbor;
use crate::wire::id;
use crate::wire::id::DeviceId;
use crate::wire::key;
use crate::wire::key::{Ed25519Signature, SigningPublicKey};
use crate::wire::record;
use crate::wire::record::{build_record, CanonicalEncode};
use crate::wire::text;
use crate::wire::value;
use crate::wire::value::{CanonicalValue, Value};
use crate::wire::version::WireVersion;

verus! {

/// The model of a transition.
pub enum Payload {
    Genesis {
        root_signing_key: Seq<u8>,
        recovery_signing_key: Seq<u8>,
        recovery_acceptance_signature: Seq<u8>,
    },
    DeviceAdd { certificate: Certificate },
    DeviceRevoke { device_id: Seq<u8> },
    RootRotate { new_root_signing_key: Seq<u8>, acceptance_signature: Seq<u8> },
    RecoveryRotate {
        new_recovery_signing_key: Seq<u8>,
        acceptance_signature: Seq<u8>,
        recovery_authorization_signature: Option<Seq<u8>>,
    },
    RecoveryRestore {
        new_root_signing_key: Seq<u8>,
        new_recovery_signing_key: Seq<u8>,
        root_acceptance_signature: Seq<u8>,
        recovery_acceptance_signature: Seq<u8>,
    },
    RelayDescriptor { descriptor: Relay },
}

/// The fields of a transition have the right form.
pub open spec fn is_payload(payload: Payload) -> bool {
    match payload {
        Payload::Genesis {
            root_signing_key,
            recovery_signing_key,
            recovery_acceptance_signature,
        } => {
            &&& key::is_public_key(root_signing_key)
            &&& key::is_public_key(recovery_signing_key)
            &&& recovery_acceptance_signature.len() == 64
        },
        Payload::DeviceAdd { certificate } => {
            &&& certificate::is_unsigned_certificate(certificate.unsigned)
            &&& certificate.signature.len() == 64
        },
        Payload::DeviceRevoke { device_id } => id::is_uuid_v7(device_id),
        Payload::RootRotate { new_root_signing_key, acceptance_signature } => {
            &&& key::is_public_key(new_root_signing_key)
            &&& acceptance_signature.len() == 64
        },
        Payload::RecoveryRotate {
            new_recovery_signing_key,
            acceptance_signature,
            recovery_authorization_signature,
        } => {
            &&& key::is_public_key(new_recovery_signing_key)
            &&& acceptance_signature.len() == 64
            &&& recovery_authorization_signature is Some
                ==> recovery_authorization_signature->0.len() == 64
        },
        Payload::RecoveryRestore {
            new_root_signing_key,
            new_recovery_signing_key,
            root_acceptance_signature,
            recovery_acceptance_signature,
        } => {
            &&& key::is_public_key(new_root_signing_key)
            &&& key::is_public_key(new_recovery_signing_key)
            &&& root_acceptance_signature.len() == 64
            &&& recovery_acceptance_signature.len() == 64
        },
        Payload::RelayDescriptor { descriptor } => relay::is_relay(descriptor),
    }
}

/// A recovery rotation carries the current recovery key's authorization
/// exactly on the current wire line.
pub open spec fn fits_line(payload: Payload, wire: WireVersion) -> bool {
    match payload {
        Payload::RecoveryRotate { recovery_authorization_signature, .. } => {
            recovery_authorization_signature is Some <==> wire_line::line_of(wire) == Some(
                IdentityLogWireLine::CurrentV1_1,
            )
        },
        _ => true,
    }
}

/// A recovery rotation on the current wire line carries the authorization that
/// its canonical value holds there.
pub open spec fn is_encodable(payload: Payload, wire: WireVersion) -> bool {
    match payload {
        Payload::RecoveryRotate { recovery_authorization_signature, .. } => {
            wire_line::line_of(wire) == Some(IdentityLogWireLine::CurrentV1_1)
                ==> recovery_authorization_signature is Some
        },
        _ => true,
    }
}

/// The kind of a transition.
pub open spec fn kind_of(payload: Payload) -> IdentityLogEventKindV1 {
    match payload {
        Payload::Genesis { .. } => IdentityLogEventKindV1::Genesis,
        Payload::DeviceAdd { .. } => IdentityLogEventKindV1::DeviceAdd,
        Payload::DeviceRevoke { .. } => IdentityLogEventKindV1::DeviceRevoke,
        Payload::RootRotate { .. } => IdentityLogEventKindV1::RootRotate,
        Payload::RecoveryRotate { .. } => IdentityLogEventKindV1::RecoveryRotate,
        Payload::RecoveryRestore { .. } => IdentityLogEventKindV1::RecoveryRestore,
        Payload::RelayDescriptor { .. } => IdentityLogEventKindV1::RelayDescriptor,
    }
}

/// The canonical fields of a transition on a wire version.
pub open spec fn payload_fields(payload: Payload, wire: WireVersion) -> Seq<Value> {
    match payload {
        Payload::Genesis {
            root_signing_key,
            recovery_signing_key,
            recovery_acceptance_signature,
        } => seq![
            Value::Bytes(root_signing_key),
            Value::Bytes(recovery_signing_key),
            Value::Bytes(recovery_acceptance_signature),
        ],
        Payload::DeviceAdd { certificate } => seq![certificate::certificate_model(certificate)],
        Payload::DeviceRevoke { device_id } => seq![Value::Text(text::hyphenated(device_id))],
        Payload::RootRotate { new_root_signing_key, acceptance_signature } => seq![
            Value::Bytes(new_root_signing_key),
            Value::Bytes(acceptance_signature),
        ],
        Payload::RecoveryRotate {
            new_recovery_signing_key,
            acceptance_signature,
            recovery_authorization_signature,
        } => {
            let proven = seq![
                Value::Bytes(new_recovery_signing_key),
                Value::Bytes(acceptance_signature),
            ];
            if wire_line::line_of(wire) == Some(IdentityLogWireLine::CurrentV1_1) {
                proven.push(Value::Bytes(recovery_authorization_signature->0))
            } else {
                proven
            }
        },
        Payload::RecoveryRestore {
            new_root_signing_key,
            new_recovery_signing_key,
            root_acceptance_signature,
            recovery_acceptance_signature,
        } => seq![
            Value::Bytes(new_root_signing_key),
            Value::Bytes(new_recovery_signing_key),
            Value::Bytes(root_acceptance_signature),
            Value::Bytes(recovery_acceptance_signature),
        ],
        Payload::RelayDescriptor { descriptor } => seq![relay::relay_model(descriptor)],
    }
}

/// The canonical value of a transition on a wire version.
pub open spec fn payload_model(payload: Payload, wire: WireVersion) -> Value {
    record::record(payload_fields(payload, wire))
}

/// A transition's canonical value nests four levels.
pub proof fn lemma_payload_canonical(payload: Payload, wire: WireVersion)
    requires
        is_payload(payload),
        fits_line(payload, wire),
    ensures
        cbor::canonical_within(payload_model(payload, wire), 4),
{
    match payload {
        Payload::DeviceAdd { certificate } => {
            certificate::lemma_certificate_canonical(certificate);
        },
        Payload::DeviceRevoke { device_id } => {
            text::lemma_hyphenated_ascii(device_id);
            text::lemma_ascii_len(text::hyphenated(device_id));
        },
        Payload::RelayDescriptor { descriptor } => {
            relay::lemma_relay_canonical(descriptor);
        },
        _ => {},
    }
    record::lemma_record_canonical(payload_fields(payload, wire), 3);
}

/// The stable type discriminator for [`IdentityLogEventPayloadV1`].
#[derive(Clone, Copy, Debug, PartialEq, Eq, Structural)]
pub enum IdentityLogEventKindV1 {
    Genesis,
    DeviceAdd,
    DeviceRevoke,
    RootRotate,
    RecoveryRotate,
    RecoveryRestore,
    RelayDescriptor,
}

impl IdentityLogEventKindV1 {
    /// The number that stands for the kind.
    pub open spec fn number(&self) -> u64 {
        match self {
            IdentityLogEventKindV1::Genesis => 1,
            IdentityLogEventKindV1::DeviceAdd => 2,
            IdentityLogEventKindV1::DeviceRevoke => 3,
            IdentityLogEventKindV1::RootRotate => 4,
            IdentityLogEventKindV1::RecoveryRotate => 5,
            IdentityLogEventKindV1::RecoveryRestore => 6,
            IdentityLogEventKindV1::RelayDescriptor => 7,
        }
    }

    /// The number that stands for the kind.
    pub fn code(self) -> (code: u64)
        ensures
            code == self.number(),
    {
        match self {
            IdentityLogEventKindV1::Genesis => 1,
            IdentityLogEventKindV1::DeviceAdd => 2,
            IdentityLogEventKindV1::DeviceRevoke => 3,
            IdentityLogEventKindV1::RootRotate => 4,
            IdentityLogEventKindV1::RecoveryRotate => 5,
            IdentityLogEventKindV1::RecoveryRestore => 6,
            IdentityLogEventKindV1::RelayDescriptor => 7,
        }
    }

    /// The kind that a number stands for.
    pub fn from_code(code: u64) -> (kind: Result<Self, IdentityLogError>)
        ensures
            match kind {
                Ok(kind) => kind.number() == code,
                Err(error) => {
                    &&& code == 0 || code > 7
                    &&& error == IdentityLogError::InvalidCanonical
                },
            },
    {
        match code {
            1 => Ok(IdentityLogEventKindV1::Genesis),
            2 => Ok(IdentityLogEventKindV1::DeviceAdd),
            3 => Ok(IdentityLogEventKindV1::DeviceRevoke),
            4 => Ok(IdentityLogEventKindV1::RootRotate),
            5 => Ok(IdentityLogEventKindV1::RecoveryRotate),
            6 => Ok(IdentityLogEventKindV1::RecoveryRestore),
            7 => Ok(IdentityLogEventKindV1::RelayDescriptor),
            _ => Err(IdentityLogError::InvalidCanonical),
        }
    }
}

/// The immutable transition encoded by an identity-log event.
#[derive(Debug, PartialEq, Eq)]
pub enum IdentityLogEventPayloadV1 {
    /// Establishes the genesis root and independent recovery key.
    Genesis {
        /// Root signing key from which the identity derives.
        root_signing_key: SigningPublicKey,
        /// Independent recovery signing key.
        recovery_signing_key: SigningPublicKey,
        /// Proof of possession by `recovery_signing_key`.
        recovery_acceptance_signature: Ed25519Signature,
    },
    /// Adds one root-certified device. An active device may co-authorize it.
    DeviceAdd {
        /// The root-signed device certificate.
        certificate: DeviceCertificateV1,
    },
    /// Permanently revokes one enrolled device ID.
    DeviceRevoke {
        /// Device to revoke.
        device_id: DeviceId,
    },
    /// Rotates the online root signing key.
    RootRotate {
        /// Proposed successor root key.
        new_root_signing_key: SigningPublicKey,
        /// Proof of possession by the successor key.
        acceptance_signature: Ed25519Signature,
    },
    /// Rotates the offline recovery signing key.
    RecoveryRotate {
        /// Proposed successor recovery key.
        new_recovery_signing_key: SigningPublicKey,
        /// Proof of possession by the successor key.
        acceptance_signature: Ed25519Signature,
        /// Authorization by the current recovery key, required by wire `1.1`.
        recovery_authorization_signature: Option<Ed25519Signature>,
    },
    /// Uses recovery to rotate both authority keys and revoke all devices.
    RecoveryRestore {
        /// Successor root key.
        new_root_signing_key: SigningPublicKey,
        /// Successor recovery key.
        new_recovery_signing_key: SigningPublicKey,
        /// Proof of possession by the successor root key.
        root_acceptance_signature: Ed25519Signature,
        /// Proof of possession by the successor recovery key.
        recovery_acceptance_signature: Ed25519Signature,
    },
    /// Publishes a current relay descriptor through the signed append-only log.
    RelayDescriptor {
        /// Bounded relay descriptor.
        descriptor: RelayDescriptorV1,
    },
}

impl IdentityLogEventPayloadV1 {
    /// The model of the transition.
    pub open spec fn view(&self) -> Payload {
        match self {
            IdentityLogEventPayloadV1::Genesis {
                root_signing_key,
                recovery_signing_key,
                recovery_acceptance_signature,
            } => Payload::Genesis {
                root_signing_key: root_signing_key@,
                recovery_signing_key: recovery_signing_key@,
                recovery_acceptance_signature: recovery_acceptance_signature@,
            },
            IdentityLogEventPayloadV1::DeviceAdd { certificate } => Payload::DeviceAdd {
                certificate: certificate@,
            },
            IdentityLogEventPayloadV1::DeviceRevoke { device_id } => Payload::DeviceRevoke {
                device_id: device_id@,
            },
            IdentityLogEventPayloadV1::RootRotate { new_root_signing_key, acceptance_signature } =>
            Payload::RootRotate {
                new_root_signing_key: new_root_signing_key@,
                acceptance_signature: acceptance_signature@,
            },
            IdentityLogEventPayloadV1::RecoveryRotate {
                new_recovery_signing_key,
                acceptance_signature,
                recovery_authorization_signature,
            } => Payload::RecoveryRotate {
                new_recovery_signing_key: new_recovery_signing_key@,
                acceptance_signature: acceptance_signature@,
                recovery_authorization_signature: match recovery_authorization_signature {
                    Some(signature) => Some(signature@),
                    None => None,
                },
            },
            IdentityLogEventPayloadV1::RecoveryRestore {
                new_root_signing_key,
                new_recovery_signing_key,
                root_acceptance_signature,
                recovery_acceptance_signature,
            } => Payload::RecoveryRestore {
                new_root_signing_key: new_root_signing_key@,
                new_recovery_signing_key: new_recovery_signing_key@,
                root_acceptance_signature: root_acceptance_signature@,
                recovery_acceptance_signature: recovery_acceptance_signature@,
            },
            IdentityLogEventPayloadV1::RelayDescriptor { descriptor } => Payload::RelayDescriptor {
                descriptor: descriptor@,
            },
        }
    }

    /// States what the types guarantee of every transition.
    pub(crate) fn checked(&self)
        ensures
            is_payload(self@),
    {
        match self {
            IdentityLogEventPayloadV1::Genesis {
                root_signing_key,
                recovery_signing_key,
                recovery_acceptance_signature,
            } => {
                root_signing_key.checked();
                recovery_signing_key.checked();
                proof {
                    recovery_acceptance_signature.lemma_len();
                }
            },
            IdentityLogEventPayloadV1::DeviceAdd { certificate } => {
                certificate.checked();
            },
            IdentityLogEventPayloadV1::DeviceRevoke { device_id } => {
                device_id.checked();
            },
            IdentityLogEventPayloadV1::RootRotate { new_root_signing_key, acceptance_signature } =>
            {
                new_root_signing_key.checked();
                proof {
                    acceptance_signature.lemma_len();
                }
            },
            IdentityLogEventPayloadV1::RecoveryRotate {
                new_recovery_signing_key,
                acceptance_signature,
                recovery_authorization_signature,
            } => {
                new_recovery_signing_key.checked();
                proof {
                    acceptance_signature.lemma_len();
                    if let Some(signature) = recovery_authorization_signature {
                        signature.lemma_len();
                    }
                }
            },
            IdentityLogEventPayloadV1::RecoveryRestore {
                new_root_signing_key,
                new_recovery_signing_key,
                root_acceptance_signature,
                recovery_acceptance_signature,
            } => {
                new_root_signing_key.checked();
                new_recovery_signing_key.checked();
                proof {
                    root_acceptance_signature.lemma_len();
                    recovery_acceptance_signature.lemma_len();
                }
            },
            IdentityLogEventPayloadV1::RelayDescriptor { descriptor } => {
                descriptor.checked();
            },
        }
    }

    /// The kind of the transition.
    pub fn kind(&self) -> (kind: IdentityLogEventKindV1)
        ensures
            kind == kind_of(self@),
    {
        match self {
            IdentityLogEventPayloadV1::Genesis { .. } => IdentityLogEventKindV1::Genesis,
            IdentityLogEventPayloadV1::DeviceAdd { .. } => IdentityLogEventKindV1::DeviceAdd,
            IdentityLogEventPayloadV1::DeviceRevoke { .. } => IdentityLogEventKindV1::DeviceRevoke,
            IdentityLogEventPayloadV1::RootRotate { .. } => IdentityLogEventKindV1::RootRotate,
            IdentityLogEventPayloadV1::RecoveryRotate { .. } =>
            IdentityLogEventKindV1::RecoveryRotate,
            IdentityLogEventPayloadV1::RecoveryRestore { .. } =>
            IdentityLogEventKindV1::RecoveryRestore,
            IdentityLogEventPayloadV1::RelayDescriptor { .. } =>
            IdentityLogEventKindV1::RelayDescriptor,
        }
    }

    /// Builds the canonical value of the transition on a wire version.
    ///
    /// Callers hold a supported wire version, and a recovery authorization
    /// where the line requires one; the frozen line has no place for it.
    pub fn to_canonical_value_for_wire(&self, wire: WireVersion) -> (value: CanonicalValue)
        requires
            wire_line::is_supported(wire),
            is_encodable(self@, wire),
        ensures
            value@ == payload_model(self@, wire),
    {
        let current = match identity_log_wire_line(wire) {
            Ok(IdentityLogWireLine::CurrentV1_1) => true,
            _ => false,
        };
        let fields: Vec<CanonicalValue> = match self {
            IdentityLogEventPayloadV1::Genesis {
                root_signing_key,
                recovery_signing_key,
                recovery_acceptance_signature,
            } => vec![
                root_signing_key.to_canonical_value(),
                recovery_signing_key.to_canonical_value(),
                recovery_acceptance_signature.to_canonical_value(),
            ],
            IdentityLogEventPayloadV1::DeviceAdd { certificate } => vec![
                certificate.to_canonical_value(),
            ],
            IdentityLogEventPayloadV1::DeviceRevoke { device_id } => vec![
                device_id.to_canonical_value(),
            ],
            IdentityLogEventPayloadV1::RootRotate { new_root_signing_key, acceptance_signature } =>
            vec![
                new_root_signing_key.to_canonical_value(),
                acceptance_signature.to_canonical_value(),
            ],
            IdentityLogEventPayloadV1::RecoveryRotate {
                new_recovery_signing_key,
                acceptance_signature,
                recovery_authorization_signature,
            } => {
                let mut proven = vec![
                    new_recovery_signing_key.to_canonical_value(),
                    acceptance_signature.to_canonical_value(),
                ];
                if current {
                    if let Some(signature) = recovery_authorization_signature {
                        proven.push(signature.to_canonical_value());
                    }
                }
                proven
            },
            IdentityLogEventPayloadV1::RecoveryRestore {
                new_root_signing_key,
                new_recovery_signing_key,
                root_acceptance_signature,
                recovery_acceptance_signature,
            } => vec![
                new_root_signing_key.to_canonical_value(),
                new_recovery_signing_key.to_canonical_value(),
                root_acceptance_signature.to_canonical_value(),
                recovery_acceptance_signature.to_canonical_value(),
            ],
            IdentityLogEventPayloadV1::RelayDescriptor { descriptor } => vec![
                descriptor.to_canonical_value(),
            ],
        };
        assert(value::items_view(fields@) =~= payload_fields(self@, wire));
        build_record(fields)
    }
}

impl Clone for IdentityLogEventPayloadV1 {
    fn clone(&self) -> (copy: Self)
        ensures
            copy@ == self@,
    {
        match self {
            IdentityLogEventPayloadV1::Genesis {
                root_signing_key,
                recovery_signing_key,
                recovery_acceptance_signature,
            } => IdentityLogEventPayloadV1::Genesis {
                root_signing_key: *root_signing_key,
                recovery_signing_key: *recovery_signing_key,
                recovery_acceptance_signature: *recovery_acceptance_signature,
            },
            IdentityLogEventPayloadV1::DeviceAdd { certificate } =>
            IdentityLogEventPayloadV1::DeviceAdd { certificate: *certificate },
            IdentityLogEventPayloadV1::DeviceRevoke { device_id } =>
            IdentityLogEventPayloadV1::DeviceRevoke { device_id: *device_id },
            IdentityLogEventPayloadV1::RootRotate { new_root_signing_key, acceptance_signature } =>
            IdentityLogEventPayloadV1::RootRotate {
                new_root_signing_key: *new_root_signing_key,
                acceptance_signature: *acceptance_signature,
            },
            IdentityLogEventPayloadV1::RecoveryRotate {
                new_recovery_signing_key,
                acceptance_signature,
                recovery_authorization_signature,
            } => IdentityLogEventPayloadV1::RecoveryRotate {
                new_recovery_signing_key: *new_recovery_signing_key,
                acceptance_signature: *acceptance_signature,
                recovery_authorization_signature: *recovery_authorization_signature,
            },
            IdentityLogEventPayloadV1::RecoveryRestore {
                new_root_signing_key,
                new_recovery_signing_key,
                root_acceptance_signature,
                recovery_acceptance_signature,
            } => IdentityLogEventPayloadV1::RecoveryRestore {
                new_root_signing_key: *new_root_signing_key,
                new_recovery_signing_key: *new_recovery_signing_key,
                root_acceptance_signature: *root_acceptance_signature,
                recovery_acceptance_signature: *recovery_acceptance_signature,
            },
            IdentityLogEventPayloadV1::RelayDescriptor { descriptor } =>
            IdentityLogEventPayloadV1::RelayDescriptor { descriptor: descriptor.clone() },
        }
    }
}

} // verus!
