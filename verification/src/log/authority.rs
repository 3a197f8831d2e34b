//! Proofs of possession and authorization for authority keys.

use vstd::prelude::*;
use crate::log::error::IdentityLogError;
use crate::log::proof_input;
use crate::log::proof_input::{
    signature_input, value_hash, GENESIS_RECOVERY_ACCEPTANCE_HASH_DOMAIN,
    GENESIS_RECOVERY_ACCEPTANCE_SIGNATURE_DOMAIN, KEY_ROTATION_ACCEPTANCE_HASH_DOMAIN,
    KEY_ROTATION_ACCEPTANCE_SIGNATURE_DOMAIN, RECOVERY_ROTATION_AUTHORIZATION_HASH_DOMAIN,
    RECOVERY_ROTATION_AUTHORIZATION_SIGNATURE_DOMAIN,
};
use crate::log::wire_line;
use crate::log::wire_line::{identity_log_wire_line, IdentityLogWireLine};
use crate::wire::cbor;
use crate::wire::digest::Sha256Digest;
use crate::wire::id::IdentityId;
use crate::wire::key::{Ed25519Signature, SigningPublicKey};
use crate::wire::number;
use crate::wire::number::{SafeUint, UtcMillis};
use crate::wire::record;
use crate::wire::record::{build_record, CanonicalEncode};
use crate::wire::text;
use crate::wire::value;
use crate::wire::value::{CanonicalValue, Value};
use crate::wire::version;
use crate::wire::version::{wire_value, WireVersion};

verus! {

/// The exact transition for which a successor key must prove possession.
#[derive(Clone, Copy, Debug, PartialEq, Eq, Structural)]
pub enum KeyAcceptancePurposeV1 {
    /// Proof for a root-key rotation authored by the current root.
    RootRotate,
    /// Proof for a recovery-key rotation authored by the current root.
    RecoveryRotate,
    /// Root-key proof inside a recovery restore authored by current recovery.
    RecoveryRestoreRoot,
    /// Recovery-key proof inside a recovery restore authored by current recovery.
    RecoveryRestoreRecovery,
}

impl KeyAcceptancePurposeV1 {
    /// The number that stands for the purpose.
    pub open spec fn number(&self) -> u64 {
        match self {
            KeyAcceptancePurposeV1::RootRotate => 1,
            KeyAcceptancePurposeV1::RecoveryRotate => 2,
            KeyAcceptancePurposeV1::RecoveryRestoreRoot => 3,
            KeyAcceptancePurposeV1::RecoveryRestoreRecovery => 4,
        }
    }

    /// The number that stands for the purpose.
    pub fn code(self) -> (code: u64)
        ensures
            code == self.number(),
    {
        match self {
            KeyAcceptancePurposeV1::RootRotate => 1,
            KeyAcceptancePurposeV1::RecoveryRotate => 2,
            KeyAcceptancePurposeV1::RecoveryRestoreRoot => 3,
            KeyAcceptancePurposeV1::RecoveryRestoreRecovery => 4,
        }
    }
}

/// The bytes of an optional digest.
pub open spec fn digest_view(digest: Option<Sha256Digest>) -> Option<Seq<u8>> {
    match digest {
        Some(digest) => Some(digest@),
        None => None,
    }
}

/// The canonical value of an optional digest.
pub open spec fn optional_digest_model(digest: Option<Seq<u8>>) -> Value {
    match digest {
        Some(digest) => Value::Bytes(digest),
        None => Value::Null,
    }
}

/// An optional digest has a canonical value at any depth.
pub proof fn lemma_optional_digest(digest: Option<Sha256Digest>)
    ensures
        digest is Some ==> digest_view(digest)->0.len() == 32,
        forall|depth: nat| #[trigger]
            cbor::canonical_within(optional_digest_model(digest_view(digest)), depth),
{
    if let Some(digest) = digest {
        digest.lemma_len();
    }
}

/// Builds the canonical value of an optional digest.
pub fn optional_digest_value(digest: Option<Sha256Digest>) -> (built: CanonicalValue)
    ensures
        built@ == optional_digest_model(digest_view(digest)),
{
    match digest {
        Some(digest) => digest.to_canonical_value(),
        None => CanonicalValue::Null,
    }
}

/// The bytes that a genesis recovery key signs to prove possession.
pub open spec fn genesis_acceptance_bytes(
    identity_id: Seq<u8>,
    root: Seq<u8>,
    recovery: Seq<u8>,
) -> Seq<u8> {
    proof_input::value_signed_bytes(
        GENESIS_RECOVERY_ACCEPTANCE_HASH_DOMAIN@,
        GENESIS_RECOVERY_ACCEPTANCE_SIGNATURE_DOMAIN@,
        record::record(
            seq![Value::Text(text::hex(identity_id)), Value::Bytes(root), Value::Bytes(recovery)],
        ),
    )
}

/// The exact proof-of-possession bytes for a genesis recovery key.
pub fn genesis_recovery_acceptance_input(
    identity_id: IdentityId,
    root_signing_key: SigningPublicKey,
    recovery_signing_key: SigningPublicKey,
) -> (input: Result<Vec<u8>, IdentityLogError>)
    ensures
        input is Ok,
        input->Ok_0@ == genesis_acceptance_bytes(
            identity_id@,
            root_signing_key@,
            recovery_signing_key@,
        ),
{
    let fields = vec![
        identity_id.to_canonical_value(),
        root_signing_key.to_canonical_value(),
        recovery_signing_key.to_canonical_value(),
    ];
    let ghost models = seq![
        Value::Text(text::hex(identity_id@)),
        Value::Bytes(root_signing_key@),
        Value::Bytes(recovery_signing_key@),
    ];
    proof {
        assert(value::items_view(fields@) =~= models);
        identity_id.lemma_len();
        root_signing_key.lemma_len();
        recovery_signing_key.lemma_len();
        text::lemma_hex_ascii(identity_id@);
        text::lemma_ascii_len(text::hex(identity_id@));
        record::lemma_record_canonical(models, 31);
    }
    let record = build_record(fields);
    match value_hash(GENESIS_RECOVERY_ACCEPTANCE_HASH_DOMAIN, &record) {
        Ok(digest) => Ok(signature_input(GENESIS_RECOVERY_ACCEPTANCE_SIGNATURE_DOMAIN, digest)),
        Err(error) => Err(error),
    }
}

/// The bytes that a successor authority key signs to prove possession.
pub open spec fn rotation_acceptance_bytes(
    identity_id: Seq<u8>,
    sequence: u64,
    previous_event_hash: Option<Seq<u8>>,
    purpose: KeyAcceptancePurposeV1,
    successor: Seq<u8>,
) -> Seq<u8> {
    proof_input::value_signed_bytes(
        KEY_ROTATION_ACCEPTANCE_HASH_DOMAIN@,
        KEY_ROTATION_ACCEPTANCE_SIGNATURE_DOMAIN@,
        record::record(
            seq![
                Value::Text(text::hex(identity_id)),
                Value::Unsigned(sequence),
                optional_digest_model(previous_event_hash),
                Value::Unsigned(purpose.number()),
                Value::Bytes(successor),
            ],
        ),
    )
}

/// The exact proof-of-possession bytes for a successor authority key, which
/// exist for every sequence but zero.
pub fn key_rotation_acceptance_input(
    identity_id: IdentityId,
    sequence: SafeUint,
    previous_event_hash: Option<Sha256Digest>,
    purpose: KeyAcceptancePurposeV1,
    successor_key: SigningPublicKey,
) -> (input: Result<Vec<u8>, IdentityLogError>)
    ensures
        match input {
            Ok(input) => {
                &&& sequence@ != 0
                &&& input@ == rotation_acceptance_bytes(
                    identity_id@,
                    sequence@,
                    digest_view(previous_event_hash),
                    purpose,
                    successor_key@,
                )
            },
            Err(error) => sequence@ == 0 && error == IdentityLogError::InvalidRotation,
        },
{
    if sequence.get() == 0 {
        return Err(IdentityLogError::InvalidRotation);
    }
    let fields = vec![
        identity_id.to_canonical_value(),
        sequence.to_canonical_value(),
        optional_digest_value(previous_event_hash),
        CanonicalValue::Unsigned(purpose.code()),
        successor_key.to_canonical_value(),
    ];
    let ghost models = seq![
        Value::Text(text::hex(identity_id@)),
        Value::Unsigned(sequence@),
        optional_digest_model(digest_view(previous_event_hash)),
        Value::Unsigned(purpose.number()),
        Value::Bytes(successor_key@),
    ];
    proof {
        assert(value::items_view(fields@) =~= models);
        identity_id.lemma_len();
        successor_key.lemma_len();
        lemma_optional_digest(previous_event_hash);
        text::lemma_hex_ascii(identity_id@);
        text::lemma_ascii_len(text::hex(identity_id@));
        record::lemma_record_canonical(models, 31);
    }
    let record = build_record(fields);
    match value_hash(KEY_ROTATION_ACCEPTANCE_HASH_DOMAIN, &record) {
        Ok(digest) => Ok(signature_input(KEY_ROTATION_ACCEPTANCE_SIGNATURE_DOMAIN, digest)),
        Err(error) => Err(error),
    }
}

/// The bytes that the current recovery key signs to authorize a recovery
/// rotation.
pub open spec fn rotation_authorization_bytes(
    wire: WireVersion,
    identity_id: Seq<u8>,
    sequence: u64,
    previous_event_hash: Option<Seq<u8>>,
    occurred_at: i64,
    root_signer: Seq<u8>,
    successor: Seq<u8>,
    acceptance_signature: Seq<u8>,
) -> Seq<u8> {
    proof_input::value_signed_bytes(
        RECOVERY_ROTATION_AUTHORIZATION_HASH_DOMAIN@,
        RECOVERY_ROTATION_AUTHORIZATION_SIGNATURE_DOMAIN@,
        record::record(
            seq![
                version::wire_model(wire),
                Value::Text(text::hex(identity_id)),
                Value::Unsigned(sequence),
                optional_digest_model(previous_event_hash),
                number::millis_model(occurred_at),
                Value::Bytes(root_signer),
                Value::Bytes(successor),
                Value::Bytes(acceptance_signature),
            ],
        ),
    )
}

/// The exact bytes the current recovery key signs for a recovery rotation,
/// which exist on the current wire version for every sequence but zero.
pub fn recovery_rotation_authorization_input(
    wire: WireVersion,
    identity_id: IdentityId,
    sequence: SafeUint,
    previous_event_hash: Option<Sha256Digest>,
    occurred_at: UtcMillis,
    root_signer: SigningPublicKey,
    successor_key: SigningPublicKey,
    successor_acceptance_signature: Ed25519Signature,
) -> (input: Result<Vec<u8>, IdentityLogError>)
    ensures
        match input {
            Ok(input) => {
                &&& wire_line::line_of(wire) == Some(IdentityLogWireLine::CurrentV1_1)
                &&& sequence@ != 0
                &&& input@ == rotation_authorization_bytes(
                    wire,
                    identity_id@,
                    sequence@,
                    digest_view(previous_event_hash),
                    occurred_at@,
                    root_signer@,
                    successor_key@,
                    successor_acceptance_signature@,
                )
            },
            Err(error) => {
                if wire_line::line_of(wire) != Some(IdentityLogWireLine::CurrentV1_1) {
                    error == IdentityLogError::InvalidWireVersion
                } else {
                    sequence@ == 0 && error == IdentityLogError::InvalidRotation
                }
            },
        },
{
    match identity_log_wire_line(wire) {
        Ok(IdentityLogWireLine::CurrentV1_1) => {},
        Ok(IdentityLogWireLine::FrozenV1_0) => {
            return Err(IdentityLogError::InvalidWireVersion);
        },
        Err(error) => {
            return Err(error);
        },
    }
    if sequence.get() == 0 {
        return Err(IdentityLogError::InvalidRotation);
    }
    let fields = vec![
        wire_value(wire),
        identity_id.to_canonical_value(),
        sequence.to_canonical_value(),
        optional_digest_value(previous_event_hash),
        occurred_at.to_canonical_value(),
        root_signer.to_canonical_value(),
        successor_key.to_canonical_value(),
        successor_acceptance_signature.to_canonical_value(),
    ];
    let ghost models = seq![
        version::wire_model(wire),
        Value::Text(text::hex(identity_id@)),
        Value::Unsigned(sequence@),
        optional_digest_model(digest_view(previous_event_hash)),
        number::millis_model(occurred_at@),
        Value::Bytes(root_signer@),
        Value::Bytes(successor_key@),
        Value::Bytes(successor_acceptance_signature@),
    ];
    proof {
        assert(value::items_view(fields@) =~= models);
        identity_id.lemma_len();
        root_signer.lemma_len();
        successor_key.lemma_len();
        successor_acceptance_signature.lemma_len();
        lemma_optional_digest(previous_event_hash);
        version::lemma_wire_canonical(wire);
        record::lemma_canonical_deeper(version::wire_model(wire), 2, 31);
        text::lemma_hex_ascii(identity_id@);
        text::lemma_ascii_len(text::hex(identity_id@));
        record::lemma_record_canonical(models, 31);
    }
    let record = build_record(fields);
    match value_hash(RECOVERY_ROTATION_AUTHORIZATION_HASH_DOMAIN, &record) {
        Ok(digest) => Ok(signature_input(RECOVERY_ROTATION_AUTHORIZATION_SIGNATURE_DOMAIN, digest)),
        Err(error) => Err(error),
    }
}

} // verus!
