//! Decoding of signed events, and its agreement with their encoding.

use vstd::prelude::*;
use crate::log::decoding;
use crate::log::decoding::{
    decode_identity_id, decode_optional_digest, decode_payload, decode_safe_uint, decode_signature,
    decode_signing_key, decode_unsigned, decode_utc_millis, decode_wire_version,
};
use crate::log::error::IdentityLogError;
use crate::log::event;
use crate::log::event::{Event, IdentityLogEventV1, UnsignedEvent, UnsignedIdentityLogEventV1};
use crate::log::inverse;
use crate::log::payload::{IdentityLogEventKindV1, IdentityLogEventPayloadV1};
use crate::wire::cbor;
use crate::wire::cbor_lemmas;
use crate::wire::codec::decode_deterministic_cbor;
use crate::wire::digest::Sha256Digest;
use crate::wire::id::IdentityId;
use crate::wire::key::{Ed25519Signature, SigningPublicKey};
use crate::wire::number::{SafeUint, UtcMillis};
use crate::wire::record;
use crate::wire::record::exact_fields;
use crate::wire::value::{CanonicalValue, Value};
use crate::wire::version::WireVersion;

verus! {

/// The kind that a number stands for.
pub open spec fn kind_of_number(number: u64) -> Option<IdentityLogEventKindV1> {
    match number {
        1 => Some(IdentityLogEventKindV1::Genesis),
        2 => Some(IdentityLogEventKindV1::DeviceAdd),
        3 => Some(IdentityLogEventKindV1::DeviceRevoke),
        4 => Some(IdentityLogEventKindV1::RootRotate),
        5 => Some(IdentityLogEventKindV1::RecoveryRotate),
        6 => Some(IdentityLogEventKindV1::RecoveryRestore),
        7 => Some(IdentityLogEventKindV1::RelayDescriptor),
        _ => None,
    }
}

/// The fields before the transition, beside the wire version, have the right
/// form.
pub open spec fn has_event_header(value: Value) -> bool {
    &&& decoding::is_identity(record::field_of(value, 2))
    &&& decoding::is_safe_uint(record::field_of(value, 3))
    &&& decoding::is_optional_digest(record::field_of(value, 4))
    &&& decoding::is_millis(record::field_of(value, 5))
    &&& record::field_of(value, 6) is Unsigned
    &&& kind_of_number(record::field_of(value, 6)->Unsigned_0) is Some
}

/// The verified event that `value` holds.
pub open spec fn read_event(value: Value) -> Result<Event, IdentityLogError> {
    if !record::is_record(value, 9) {
        Err(IdentityLogError::InvalidCanonical)
    } else {
        match decoding::read_wire(record::field_of(value, 1)) {
            Err(error) => Err(error),
            Ok(wire) => {
                if !has_event_header(value) {
                    Err(IdentityLogError::InvalidCanonical)
                } else {
                    let kind = kind_of_number(record::field_of(value, 6)->Unsigned_0)->0;
                    match decoding::read_payload(kind, record::field_of(value, 7), wire) {
                        Err(error) => Err(error),
                        Ok(payload) => {
                            if !(decoding::is_key(record::field_of(value, 8))
                                && decoding::is_bytes(record::field_of(value, 9), 64)) {
                                Err(IdentityLogError::InvalidCanonical)
                            } else {
                                let event = Event {
                                    unsigned: UnsignedEvent {
                                        wire,
                                        identity_id: decoding::identity_of(
                                            record::field_of(value, 2),
                                        ),
                                        sequence: record::field_of(value, 3)->Unsigned_0,
                                        previous_event_hash: decoding::optional_digest_of(
                                            record::field_of(value, 4),
                                        ),
                                        occurred_at: decoding::millis_of(
                                            record::field_of(value, 5),
                                        ),
                                        payload,
                                        signer: record::field_of(value, 8)->Bytes_0,
                                    },
                                    signature: record::field_of(value, 9)->Bytes_0,
                                };
                                match event::event_check(event) {
                                    Err(error) => Err(error),
                                    Ok(_) => Ok(event),
                                }
                            }
                        },
                    }
                }
            },
        }
    }
}

/// The verified event with the given byte form.
pub open spec fn decode_event(bytes: Seq<u8>) -> Result<Event, IdentityLogError> {
    if cbor::is_encoded(bytes) {
        read_event(cbor::decoded(bytes))
    } else {
        Err(IdentityLogError::InvalidCanonical)
    }
}

impl IdentityLogEventV1 {
    /// Decodes deterministic CBOR, rejects unknown fields, and verifies the
    /// signature.
    ///
    /// The bytes of an accepted event are exactly its encoding, so decoding
    /// and encoding again changes nothing.
    pub fn decode_and_verify(bytes: &[u8]) -> (decoded: Result<Self, IdentityLogError>)
        ensures
            match decoded {
                Ok(event) => {
                    &&& decode_event(bytes@) == Ok::<Event, IdentityLogError>(event@)
                    &&& event::is_event(event@)
                    &&& event::event_check(event@) is Ok
                    &&& bytes@ == cbor::encoding(event::event_model(event@))
                },
                Err(error) => decode_event(bytes@) == Err::<Event, IdentityLogError>(error),
            },
    {
        let value = match decode_deterministic_cbor(bytes) {
            Ok(value) => value,
            Err(_) => {
                return Err(IdentityLogError::InvalidCanonical);
            },
        };
        proof {
            cbor_lemmas::lemma_decoded(value@);
        }
        match decode_event_value(&value) {
            Ok(event) => {
                proof {
                    inverse::lemma_event_value(value@);
                }
                Ok(event)
            },
            Err(error) => Err(error),
        }
    }
}

/// Reads and verifies a signed event.
fn decode_event_value(value: &CanonicalValue) -> (event: Result<
    IdentityLogEventV1,
    IdentityLogError,
>)
    ensures
        match event {
            Ok(event) => {
                &&& read_event(value@) == Ok::<Event, IdentityLogError>(event@)
                &&& event::is_event(event@)
            },
            Err(error) => read_event(value@) == Err::<Event, IdentityLogError>(error),
        },
{
    let fields = match exact_fields(value, 9) {
        Some(fields) => fields,
        None => {
            return Err(IdentityLogError::InvalidCanonical);
        },
    };
    assert(fields@[0].1@ == record::field_of(value@, 1));
    assert(fields@[1].1@ == record::field_of(value@, 2));
    assert(fields@[2].1@ == record::field_of(value@, 3));
    assert(fields@[3].1@ == record::field_of(value@, 4));
    assert(fields@[4].1@ == record::field_of(value@, 5));
    assert(fields@[5].1@ == record::field_of(value@, 6));
    assert(fields@[6].1@ == record::field_of(value@, 7));
    assert(fields@[7].1@ == record::field_of(value@, 8));
    assert(fields@[8].1@ == record::field_of(value@, 9));
    let wire: WireVersion = match decode_wire_version(&fields[0].1) {
        Ok(wire) => wire,
        Err(error) => {
            return Err(error);
        },
    };
    let identity_id: IdentityId = match decode_identity_id(&fields[1].1) {
        Some(identity_id) => identity_id,
        None => {
            return Err(IdentityLogError::InvalidCanonical);
        },
    };
    let sequence: SafeUint = match decode_safe_uint(&fields[2].1) {
        Some(sequence) => sequence,
        None => {
            return Err(IdentityLogError::InvalidCanonical);
        },
    };
    let previous_event_hash: Option<Sha256Digest> = match decode_optional_digest(&fields[3].1) {
        Some(previous_event_hash) => previous_event_hash,
        None => {
            return Err(IdentityLogError::InvalidCanonical);
        },
    };
    let occurred_at: UtcMillis = match decode_utc_millis(&fields[4].1) {
        Some(occurred_at) => occurred_at,
        None => {
            return Err(IdentityLogError::InvalidCanonical);
        },
    };
    let code: u64 = match decode_unsigned(&fields[5].1) {
        Some(code) => code,
        None => {
            return Err(IdentityLogError::InvalidCanonical);
        },
    };
    let kind: IdentityLogEventKindV1 = match IdentityLogEventKindV1::from_code(code) {
        Ok(kind) => kind,
        Err(error) => {
            return Err(error);
        },
    };
    assert(kind_of_number(code) == Some(kind));
    let payload: IdentityLogEventPayloadV1 = match decode_payload(kind, &fields[6].1, wire) {
        Ok(payload) => payload,
        Err(error) => {
            return Err(error);
        },
    };
    let signer: SigningPublicKey = match decode_signing_key(&fields[7].1) {
        Some(signer) => signer,
        None => {
            return Err(IdentityLogError::InvalidCanonical);
        },
    };
    let signature: Ed25519Signature = match decode_signature(&fields[8].1) {
        Some(signature) => signature,
        None => {
            return Err(IdentityLogError::InvalidCanonical);
        },
    };
    match UnsignedIdentityLogEventV1::new(
        wire,
        identity_id,
        sequence,
        previous_event_hash,
        occurred_at,
        payload,
        signer,
    ) {
        Ok(unsigned) => IdentityLogEventV1::signed(unsigned, signature),
        Err(error) => Err(error),
    }
}

} // verus!
