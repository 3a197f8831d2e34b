//! Signed identity-log events.

use vstd::prelude::*;
use crate::log::authority;
use crate::log::authority::{genesis_recovery_acceptance_input, optional_digest_value};
use crate::log::certificate;
use crate::log::error::IdentityLogError;
use crate::log::payload;
use crate::log::payload::{IdentityLogEventPayloadV1, Payload};
use crate::log::proof_input;
use crate::log::proof_input::{
    canonical_hash, signature_input, verify_signature, IDENTITY_LOG_ENTRY_HASH_DOMAIN,
    IDENTITY_LOG_EVENT_HASH_DOMAIN, IDENTITY_LOG_SIGNATURE_DOMAIN,
};
use crate::log::wire_line;
use crate::log::wire_line::{identity_log_wire_line, IdentityLogWireLine};
use crate::outside;
use crate::wire::cbor;
use crate::wire::digest;
use crate::wire::digest::Sha256Digest;
use crate::wire::id::{IdentityId, IDENTITY_ID_DOMAIN};
use crate::wire::key;
use crate::wire::key::{Ed25519Signature, SigningPublicKey};
use crate::wire::number;
use crate::wire::number::{SafeUint, UtcMillis, MAX_SAFE_INTEGER};
use crate::wire::record;
use crate::wire::record::{build_record, encode_deterministic_cbor, CanonicalEncode};
use crate::wire::text;
use crate::wire::value;
use crate::wire::value::{CanonicalValue, Value};
use crate::wire::version;
use crate::wire::version::{wire_equal, wire_value, WireVersion};

verus! {

/// The model of unsigned event content.
pub struct UnsignedEvent {
    pub wire: WireVersion,
    pub identity_id: Seq<u8>,
    pub sequence: u64,
    pub previous_event_hash: Option<Seq<u8>>,
    pub occurred_at: i64,
    pub payload: Payload,
    pub signer: Seq<u8>,
}

/// The model of a signed event.
pub struct Event {
    pub unsigned: UnsignedEvent,
    pub signature: Seq<u8>,
}

/// Event content whose fields have the right form on a supported wire version.
pub open spec fn is_unsigned_event(content: UnsignedEvent) -> bool {
    &&& wire_line::is_supported(content.wire)
    &&& content.identity_id.len() == 32
    &&& content.sequence <= MAX_SAFE_INTEGER
    &&& content.previous_event_hash is Some ==> content.previous_event_hash->0.len() == 32
    &&& number::is_utc_millis(content.occurred_at as int)
    &&& payload::is_payload(content.payload)
    &&& payload::fits_line(content.payload, content.wire)
    &&& key::is_public_key(content.signer)
}

/// An event whose fields have the right form.
pub open spec fn is_event(event: Event) -> bool {
    is_unsigned_event(event.unsigned) && event.signature.len() == 64
}

/// The canonical fields of unsigned event content.
pub open spec fn unsigned_event_fields(content: UnsignedEvent) -> Seq<Value> {
    seq![
        version::wire_model(content.wire),
        Value::Text(text::hex(content.identity_id)),
        Value::Unsigned(content.sequence),
        authority::optional_digest_model(content.previous_event_hash),
        number::millis_model(content.occurred_at),
        Value::Unsigned(payload::kind_of(content.payload).number()),
        payload::payload_model(content.payload, content.wire),
        Value::Bytes(content.signer),
    ]
}

/// The canonical value of a signed event.
pub open spec fn event_model(event: Event) -> Value {
    record::record(unsigned_event_fields(event.unsigned).push(Value::Bytes(event.signature)))
}

/// The bytes that the event signer signs.
pub open spec fn event_signed_bytes(content: UnsignedEvent) -> Seq<u8> {
    proof_input::value_signed_bytes(
        IDENTITY_LOG_EVENT_HASH_DOMAIN@,
        IDENTITY_LOG_SIGNATURE_DOMAIN@,
        record::record(unsigned_event_fields(content)),
    )
}

/// The chain hash of a complete signed event.
pub open spec fn entry_hash_of(event: Event) -> Seq<u8> {
    proof_input::value_digest(IDENTITY_LOG_ENTRY_HASH_DOMAIN@, event_model(event))
}

/// An event after genesis has a sequence above one and a predecessor.
pub open spec fn follows_genesis(content: UnsignedEvent) -> bool {
    content.sequence != 1 && content.previous_event_hash is Some
}

/// Whether event content may stand in a log at all, whatever the log holds.
pub open spec fn static_check(content: UnsignedEvent) -> Result<(), IdentityLogError> {
    if !wire_line::is_supported(content.wire) {
        Err(IdentityLogError::InvalidWireVersion)
    } else if content.sequence == 0 {
        Err(IdentityLogError::InvalidEventShape)
    } else {
        match content.payload {
            Payload::Genesis {
                root_signing_key,
                recovery_signing_key,
                recovery_acceptance_signature,
            } => {
                if content.sequence == 1 && content.previous_event_hash is None && content.signer
                    == root_signing_key && root_signing_key != recovery_signing_key
                    && content.identity_id == digest::hash_in_domain(
                    IDENTITY_ID_DOMAIN@,
                    root_signing_key,
                ) && outside::ed25519_strict_accepted(
                    recovery_signing_key,
                    authority::genesis_acceptance_bytes(
                        content.identity_id,
                        root_signing_key,
                        recovery_signing_key,
                    ),
                    recovery_acceptance_signature,
                ) {
                    Ok(())
                } else {
                    Err(IdentityLogError::InvalidGenesis)
                }
            },
            Payload::RelayDescriptor { descriptor } => {
                if !follows_genesis(content) {
                    Err(IdentityLogError::InvalidEventShape)
                } else if descriptor.wire != content.wire {
                    Err(IdentityLogError::InvalidWireVersion)
                } else if descriptor.expires_at <= content.occurred_at {
                    Err(IdentityLogError::InvalidRelayDescriptor)
                } else {
                    Ok(())
                }
            },
            Payload::DeviceAdd { certificate } => {
                if !follows_genesis(content) {
                    Err(IdentityLogError::InvalidEventShape)
                } else if certificate.unsigned.wire != content.wire {
                    Err(IdentityLogError::InvalidWireVersion)
                } else if !certificate::is_authentic_certificate(certificate) {
                    Err(IdentityLogError::InvalidDeviceCertificate)
                } else {
                    Ok(())
                }
            },
            Payload::RecoveryRotate { recovery_authorization_signature, .. } => {
                if !follows_genesis(content) {
                    Err(IdentityLogError::InvalidEventShape)
                } else if payload::fits_line(content.payload, content.wire) {
                    Ok(())
                } else if recovery_authorization_signature is Some {
                    Err(IdentityLogError::InvalidCanonical)
                } else {
                    Err(IdentityLogError::InvalidRotation)
                }
            },
            _ => {
                if !follows_genesis(content) {
                    Err(IdentityLogError::InvalidEventShape)
                } else {
                    Ok(())
                }
            },
        }
    }
}

/// The signer's signature authenticates the exact content.
pub open spec fn is_signed(event: Event) -> bool {
    outside::ed25519_strict_accepted(
        event.unsigned.signer,
        event_signed_bytes(event.unsigned),
        event.signature,
    )
}

/// Whether a signed event may stand in a log at all, whatever the log holds.
pub open spec fn event_check(event: Event) -> Result<(), IdentityLogError> {
    match static_check(event.unsigned) {
        Err(error) => Err(error),
        Ok(_) => if is_signed(event) {
            Ok(())
        } else {
            Err(IdentityLogError::InvalidSignature)
        },
    }
}

/// Event values nest five levels.
pub proof fn lemma_event_canonical(event: Event)
    requires
        is_unsigned_event(event.unsigned),
        event.signature.len() == 64,
    ensures
        cbor::canonical(record::record(unsigned_event_fields(event.unsigned))),
        cbor::canonical(event_model(event)),
{
    let content = event.unsigned;
    version::lemma_wire_canonical(content.wire);
    record::lemma_canonical_deeper(version::wire_model(content.wire), 2, 4);
    text::lemma_hex_ascii(content.identity_id);
    text::lemma_ascii_len(text::hex(content.identity_id));
    payload::lemma_payload_canonical(content.payload, content.wire);
    let fields = unsigned_event_fields(content);
    record::lemma_record_canonical(fields, 4);
    record::lemma_record_canonical(fields.push(Value::Bytes(event.signature)), 4);
    let depth = cbor::MAX_CANONICAL_DEPTH as nat;
    record::lemma_canonical_deeper(record::record(fields), 5, depth);
    record::lemma_canonical_deeper(event_model(event), 5, depth);
}

/// Accepts exactly the genesis content that binds the identity and its keys.
fn validate_genesis(
    identity_id: IdentityId,
    sequence: SafeUint,
    previous_event_hash: Option<Sha256Digest>,
    signer: SigningPublicKey,
    root_signing_key: SigningPublicKey,
    recovery_signing_key: SigningPublicKey,
    recovery_acceptance_signature: Ed25519Signature,
) -> (valid: Result<(), IdentityLogError>)
    ensures
        valid == if {
            &&& sequence@ == 1
            &&& previous_event_hash is None
            &&& signer@ == root_signing_key@
            &&& root_signing_key@ != recovery_signing_key@
            &&& identity_id@ == digest::hash_in_domain(IDENTITY_ID_DOMAIN@, root_signing_key@)
            &&& outside::ed25519_strict_accepted(
                recovery_signing_key@,
                authority::genesis_acceptance_bytes(
                    identity_id@,
                    root_signing_key@,
                    recovery_signing_key@,
                ),
                recovery_acceptance_signature@,
            )
        } {
            Ok::<(), IdentityLogError>(())
        } else {
            Err(IdentityLogError::InvalidGenesis)
        },
{
    if sequence.get() != 1 || previous_event_hash.is_some() || signer != root_signing_key
        || root_signing_key == recovery_signing_key || identity_id.verify_subject_key(
        root_signing_key.as_domain_key(),
    ).is_err() {
        return Err(IdentityLogError::InvalidGenesis);
    }
    let input = match genesis_recovery_acceptance_input(
        identity_id,
        root_signing_key,
        recovery_signing_key,
    ) {
        Ok(input) => input,
        Err(error) => {
            return Err(error);
        },
    };
    match verify_signature(recovery_signing_key, input.as_slice(), recovery_acceptance_signature) {
        Ok(_) => Ok(()),
        Err(_) => Err(IdentityLogError::InvalidGenesis),
    }
}

/// Checks event content whatever the log holds.
fn validate_content(
    wire: WireVersion,
    identity_id: IdentityId,
    sequence: SafeUint,
    previous_event_hash: Option<Sha256Digest>,
    occurred_at: UtcMillis,
    payload: &IdentityLogEventPayloadV1,
    signer: SigningPublicKey,
) -> (valid: Result<(), IdentityLogError>)
    ensures
        valid == static_check(
            UnsignedEvent {
                wire,
                identity_id: identity_id@,
                sequence: sequence@,
                previous_event_hash: authority::digest_view(previous_event_hash),
                occurred_at: occurred_at@,
                payload: payload@,
                signer: signer@,
            },
        ),
{
    let line = match identity_log_wire_line(wire) {
        Ok(line) => line,
        Err(error) => {
            return Err(error);
        },
    };
    if sequence.get() == 0 {
        return Err(IdentityLogError::InvalidEventShape);
    }
    let misplaced = sequence.get() == 1 || previous_event_hash.is_none();
    match payload {
        IdentityLogEventPayloadV1::Genesis {
            root_signing_key,
            recovery_signing_key,
            recovery_acceptance_signature,
        } => validate_genesis(
            identity_id,
            sequence,
            previous_event_hash,
            signer,
            *root_signing_key,
            *recovery_signing_key,
            *recovery_acceptance_signature,
        ),
        IdentityLogEventPayloadV1::RelayDescriptor { descriptor } => {
            if misplaced {
                return Err(IdentityLogError::InvalidEventShape);
            }
            if !wire_equal(descriptor.wire(), wire) {
                return Err(IdentityLogError::InvalidWireVersion);
            }
            descriptor.validate_for_event(occurred_at)
        },
        IdentityLogEventPayloadV1::DeviceAdd { certificate } => {
            if misplaced {
                return Err(IdentityLogError::InvalidEventShape);
            }
            if !wire_equal(certificate.wire(), wire) {
                return Err(IdentityLogError::InvalidWireVersion);
            }
            certificate.verify()
        },
        IdentityLogEventPayloadV1::RecoveryRotate { recovery_authorization_signature, .. } => {
            if misplaced {
                return Err(IdentityLogError::InvalidEventShape);
            }
            match (line, recovery_authorization_signature.is_some()) {
                (IdentityLogWireLine::FrozenV1_0, false) => Ok(()),
                (IdentityLogWireLine::CurrentV1_1, true) => Ok(()),
                (IdentityLogWireLine::FrozenV1_0, true) => Err(IdentityLogError::InvalidCanonical),
                (IdentityLogWireLine::CurrentV1_1, false) => Err(IdentityLogError::InvalidRotation),
            }
        },
        _ => {
            if misplaced {
                return Err(IdentityLogError::InvalidEventShape);
            }
            Ok(())
        },
    }
}

/// The unsigned, deterministic fields that an identity-log signer authenticates.
#[derive(Debug, PartialEq, Eq)]
pub struct UnsignedIdentityLogEventV1 {
    wire: WireVersion,
    identity_id: IdentityId,
    sequence: SafeUint,
    previous_event_hash: Option<Sha256Digest>,
    occurred_at: UtcMillis,
    payload: IdentityLogEventPayloadV1,
    signer: SigningPublicKey,
}

impl UnsignedIdentityLogEventV1 {
    #[verifier::type_invariant]
    spec fn valid(self) -> bool {
        is_unsigned_event(self@)
    }

    /// The model of the content.
    pub closed spec fn view(&self) -> UnsignedEvent {
        UnsignedEvent {
            wire: self.wire,
            identity_id: self.identity_id@,
            sequence: self.sequence@,
            previous_event_hash: authority::digest_view(self.previous_event_hash),
            occurred_at: self.occurred_at@,
            payload: self.payload@,
            signer: self.signer@,
        }
    }

    /// Creates unsigned event content after enforcing its static invariants.
    pub fn new(
        wire: WireVersion,
        identity_id: IdentityId,
        sequence: SafeUint,
        previous_event_hash: Option<Sha256Digest>,
        occurred_at: UtcMillis,
        payload: IdentityLogEventPayloadV1,
        signer: SigningPublicKey,
    ) -> (content: Result<Self, IdentityLogError>)
        ensures
            ({
                let model = UnsignedEvent {
                    wire,
                    identity_id: identity_id@,
                    sequence: sequence@,
                    previous_event_hash: authority::digest_view(previous_event_hash),
                    occurred_at: occurred_at@,
                    payload: payload@,
                    signer: signer@,
                };
                match content {
                    Ok(content) => {
                        &&& static_check(model) is Ok
                        &&& is_unsigned_event(model)
                        &&& content@ == model
                    },
                    Err(error) => static_check(model) == Err::<(), IdentityLogError>(error),
                }
            }),
    {
        match validate_content(
            wire,
            identity_id,
            sequence,
            previous_event_hash,
            occurred_at,
            &payload,
            signer,
        ) {
            Ok(_) => {},
            Err(error) => {
                return Err(error);
            },
        }
        proof {
            identity_id.lemma_len();
            authority::lemma_optional_digest(previous_event_hash);
        }
        sequence.checked();
        occurred_at.checked();
        payload.checked();
        signer.checked();
        Ok(
            UnsignedIdentityLogEventV1 {
                wire,
                identity_id,
                sequence,
                previous_event_hash,
                occurred_at,
                payload,
                signer,
            },
        )
    }

    /// The domain-separated digest the event signer must authenticate.
    pub fn signing_digest(&self) -> (digest: Result<Sha256Digest, IdentityLogError>)
        ensures
            digest is Ok,
            digest->Ok_0@ == proof_input::value_digest(
                IDENTITY_LOG_EVENT_HASH_DOMAIN@,
                record::record(unsigned_event_fields(self@)),
            ),
    {
        proof {
            use_type_invariant(self);
            lemma_event_canonical(
                Event { unsigned: self@, signature: Seq::new(64, |i: int| 0u8) },
            );
        }
        canonical_hash(IDENTITY_LOG_EVENT_HASH_DOMAIN, self)
    }

    /// Re-checks the content whatever the log holds.
    fn validate_static(&self) -> (valid: Result<(), IdentityLogError>)
        ensures
            valid == static_check(self@),
    {
        validate_content(
            self.wire,
            self.identity_id,
            self.sequence,
            self.previous_event_hash,
            self.occurred_at,
            &self.payload,
            self.signer,
        )
    }

    /// The canonical fields of the content.
    fn canonical_fields(&self) -> (fields: Vec<CanonicalValue>)
        ensures
            value::items_view(fields@) == unsigned_event_fields(self@),
            fields@.len() == 8,
    {
        proof {
            use_type_invariant(self);
        }
        let fields = vec![
            wire_value(self.wire),
            self.identity_id.to_canonical_value(),
            self.sequence.to_canonical_value(),
            optional_digest_value(self.previous_event_hash),
            self.occurred_at.to_canonical_value(),
            CanonicalValue::Unsigned(self.payload.kind().code()),
            self.payload.to_canonical_value_for_wire(self.wire),
            self.signer.to_canonical_value(),
        ];
        assert(value::items_view(fields@) =~= unsigned_event_fields(self@));
        fields
    }
}

impl Clone for UnsignedIdentityLogEventV1 {
    fn clone(&self) -> (copy: Self)
        ensures
            copy@ == self@,
    {
        proof {
            use_type_invariant(self);
        }
        UnsignedIdentityLogEventV1 {
            wire: self.wire,
            identity_id: self.identity_id,
            sequence: self.sequence,
            previous_event_hash: self.previous_event_hash,
            occurred_at: self.occurred_at,
            payload: self.payload.clone(),
            signer: self.signer,
        }
    }
}

impl CanonicalEncode for UnsignedIdentityLogEventV1 {
    open spec fn model(&self) -> Value {
        record::record(unsigned_event_fields(self@))
    }

    fn to_canonical_value(&self) -> (value: CanonicalValue) {
        build_record(self.canonical_fields())
    }
}

/// A complete signed append-only identity-log event.
#[derive(Debug, PartialEq, Eq)]
pub struct IdentityLogEventV1 {
    unsigned: UnsignedIdentityLogEventV1,
    signature: Ed25519Signature,
}

impl IdentityLogEventV1 {
    /// The model of the event.
    pub closed spec fn view(&self) -> Event {
        Event { unsigned: self.unsigned@, signature: self.signature@ }
    }

    /// Attaches and verifies the event signature over exact unsigned content.
    pub fn signed(unsigned: UnsignedIdentityLogEventV1, signature: Ed25519Signature) -> (signed:
        Result<Self, IdentityLogError>)
        ensures
            ({
                let model = Event { unsigned: unsigned@, signature: signature@ };
                match signed {
                    Ok(event) => {
                        &&& event@ == model
                        &&& is_event(model)
                        &&& event_check(model) is Ok
                    },
                    Err(error) => event_check(model) == Err::<(), IdentityLogError>(error),
                }
            }),
    {
        let event = IdentityLogEventV1 { unsigned, signature };
        event.checked();
        match event.verify() {
            Ok(_) => Ok(event),
            Err(error) => Err(error),
        }
    }

    /// States what the types guarantee of every event.
    pub(crate) fn checked(&self)
        ensures
            is_event(self@),
    {
        let unsigned: &UnsignedIdentityLogEventV1 = &self.unsigned;
        proof {
            use_type_invariant(unsigned);
            self.signature.lemma_len();
        }
    }

    /// Re-verifies static invariants and the signer proof.
    pub fn verify(&self) -> (verified: Result<(), IdentityLogError>)
        ensures
            verified == event_check(self@),
    {
        match self.unsigned.validate_static() {
            Ok(_) => {},
            Err(error) => {
                return Err(error);
            },
        }
        let digest = match self.unsigned.signing_digest() {
            Ok(digest) => digest,
            Err(error) => {
                return Err(error);
            },
        };
        let input = identity_log_signature_input(digest);
        verify_signature(self.unsigned.signer, input.as_slice(), self.signature)
    }

    /// Encodes the complete event using deterministic CBOR.
    pub fn to_deterministic_cbor(&self) -> (encoded: Result<Vec<u8>, IdentityLogError>)
        ensures
            encoded is Ok,
            encoded->Ok_0@ == cbor::encoding(event_model(self@)),
    {
        self.checked();
        proof {
            lemma_event_canonical(self@);
        }
        match encode_deterministic_cbor(self) {
            Ok(bytes) => Ok(bytes),
            Err(_) => Err(IdentityLogError::InvalidCanonical),
        }
    }

    /// Computes the durable predecessor hash of this complete signed event.
    pub fn entry_hash(&self) -> (hash: Result<Sha256Digest, IdentityLogError>)
        ensures
            hash is Ok,
            hash->Ok_0@ == entry_hash_of(self@),
    {
        self.checked();
        proof {
            lemma_event_canonical(self@);
        }
        canonical_hash(IDENTITY_LOG_ENTRY_HASH_DOMAIN, self)
    }

    /// The self-certifying identity ID.
    pub fn identity_id(&self) -> (id: IdentityId)
        ensures
            id@ == self@.unsigned.identity_id,
    {
        self.unsigned.identity_id
    }

    /// The exact wire version of this event.
    pub fn wire(&self) -> (wire: WireVersion)
        ensures
            wire == self@.unsigned.wire,
    {
        self.unsigned.wire
    }

    /// The immutable log sequence.
    pub fn sequence(&self) -> (sequence: SafeUint)
        ensures
            sequence@ == self@.unsigned.sequence,
    {
        self.unsigned.sequence
    }

    /// The predecessor hash, or `None` for genesis.
    pub fn previous_event_hash(&self) -> (hash: Option<Sha256Digest>)
        ensures
            authority::digest_view(hash) == self@.unsigned.previous_event_hash,
    {
        self.unsigned.previous_event_hash
    }

    /// The event timestamp.
    pub fn occurred_at(&self) -> (time: UtcMillis)
        ensures
            time@ == self@.unsigned.occurred_at,
    {
        self.unsigned.occurred_at
    }

    /// The verified signer public key.
    pub fn signer(&self) -> (key: SigningPublicKey)
        ensures
            key@ == self@.unsigned.signer,
    {
        self.unsigned.signer
    }

    /// The immutable typed transition.
    pub fn payload(&self) -> (payload: &IdentityLogEventPayloadV1)
        ensures
            payload@ == self@.unsigned.payload,
    {
        &self.unsigned.payload
    }
}

impl Clone for IdentityLogEventV1 {
    fn clone(&self) -> (copy: Self)
        ensures
            copy@ == self@,
    {
        IdentityLogEventV1 { unsigned: self.unsigned.clone(), signature: self.signature }
    }
}

impl CanonicalEncode for IdentityLogEventV1 {
    open spec fn model(&self) -> Value {
        event_model(self@)
    }

    fn to_canonical_value(&self) -> (value: CanonicalValue) {
        let mut fields = self.unsigned.canonical_fields();
        let ghost before = fields@;
        fields.push(self.signature.to_canonical_value());
        assert(value::items_view(fields@) =~= value::items_view(before).push(
            Value::Bytes(self@.signature),
        ));
        build_record(fields)
    }
}

/// The exact bytes an identity-log signer must sign for `digest`.
pub fn identity_log_signature_input(digest: Sha256Digest) -> (input: Vec<u8>)
    ensures
        input@ == proof_input::signed_bytes(IDENTITY_LOG_SIGNATURE_DOMAIN@, digest@),
{
    signature_input(IDENTITY_LOG_SIGNATURE_DOMAIN, digest)
}

} // verus!
