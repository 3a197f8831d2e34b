//! Commands of QR device enrollment.

use vstd::prelude::*;
use vstd::utf8::*;
use crate::outside;
use crate::outside::zeroize;
use crate::persistence::error::IdentityPersistenceError;
use crate::persistence::head;
use crate::persistence::head::{Head, IdentityLogHead};
use crate::wire::bytes;
use crate::wire::bytes::{append_bytes, bytes_equal, is_all_zero, to_vec};
use crate::wire::cbor;
use crate::wire::codec::canonical_bytes;
use crate::wire::digest;
use crate::wire::digest::Sha256Digest;
use crate::wire::id::{DeviceEnrollmentChallengeId, DeviceId, IdentityId};
use crate::wire::key::{DeviceEncryptionPublicKey, Ed25519Signature, SigningPublicKey};
use crate::wire::number;
use crate::wire::number::{SafeUint, UtcMillis};
use crate::wire::record;
use crate::wire::record::{build_record, CanonicalEncode};
use crate::wire::text;
use crate::wire::value;
use crate::wire::value::{CanonicalValue, Value};

verus! {

/// A candidate enrollment card is actionable for at most five minutes.
pub const DEVICE_ENROLLMENT_CHALLENGE_TTL_MILLIS: i64 = 300_000;

/// An approved enrollment remains replayable through the initial session window.
pub const DEVICE_ENROLLMENT_APPROVAL_RETENTION_MILLIS: i64 = 900_000;

/// Domain separator for the only retained representation of an enrollment capability.
pub const DEVICE_ENROLLMENT_CAPABILITY_HASH_DOMAIN: &'static str =
    "dirextalk.device-enrollment-capability.v1\0";

/// Domain separator for a candidate creation request digest.
pub const DEVICE_ENROLLMENT_CREATE_REQUEST_HASH_DOMAIN: &'static str =
    "dirextalk.device-enrollment-create-request.v1\0";

/// Domain separator for an approval request digest.
pub const DEVICE_ENROLLMENT_APPROVAL_REQUEST_HASH_DOMAIN: &'static str =
    "dirextalk.device-enrollment-approval-request.v1\0";

/// Domain separator for the deterministic identity append key owned by one
/// challenge and one caller-provided approval idempotency key.
pub const DEVICE_ENROLLMENT_APPROVAL_IDEMPOTENCY_HASH_DOMAIN: &'static str =
    "dirextalk.device-enrollment-approval-idempotency.v1\0";

/// Domain separator for the exact root-signed device-add bytes in an approval digest.
pub const DEVICE_ENROLLMENT_EVENT_HASH_DOMAIN: &'static str =
    "dirextalk.device-enrollment-event.v1\0";

/// Domain separator for the candidate-signed history-recovery request.
pub const HISTORY_RECOVERY_REQUEST_SIGNATURE_DOMAIN: &'static str =
    "dirextalk.history-recovery-request-signature.v1\0";

/// Domain separator for the exact candidate-signed history-recovery request.
pub const HISTORY_RECOVERY_REQUEST_HASH_DOMAIN: &'static str =
    "dirextalk.history-recovery-request-digest.v1\0";

/// Domain separator for the signature of a catalog-exhaustive request.
pub const HISTORY_RECOVERY_REQUEST_V4_SIGNATURE_DOMAIN: &'static str =
    "dirextalk.history-recovery.request-signature.v4\0";

/// Domain separator for the digest of a catalog-exhaustive request.
pub const HISTORY_RECOVERY_REQUEST_V4_DIGEST_DOMAIN: &'static str =
    "dirextalk.history-recovery.request.v4\0";

/// The most bytes of a device-add event in an approval.
pub const MAX_DEVICE_ENROLLMENT_EVENT_BYTES: usize = 1_048_576;

/// The most bytes of a history-recovery request.
pub const MAX_HISTORY_RECOVERY_REQUEST_BYTES: usize = 16_384;

/// How many challenges one retention batch removes at most.
pub const DEVICE_ENROLLMENT_PRUNE_BATCH_SIZE: i32 = 256;

/// A 32-byte candidate-held bearer capability for one QR enrollment card.
///
/// Only its digest is ever stored. Whoever owns the raw value wipes it with
/// [`DeviceEnrollmentCapability::zeroize`] once it is no longer needed.
pub struct DeviceEnrollmentCapability {
    secret: [u8; 32],
}

/// The digest under which a capability is stored.
pub open spec fn capability_digest(secret: Seq<u8>) -> Seq<u8> {
    digest::hash_in_domain(DEVICE_ENROLLMENT_CAPABILITY_HASH_DOMAIN@, secret)
}

impl DeviceEnrollmentCapability {
    /// The raw value.
    pub closed spec fn view(&self) -> Seq<u8> {
        self.secret@
    }

    /// Builds a nontrivial candidate-held capability from decoded QR bytes.
    ///
    /// Rejects the all-zero value, which would make a public QR endpoint
    /// unnecessarily guessable.
    pub fn new(value: [u8; 32]) -> (capability: Result<Self, IdentityPersistenceError>)
        ensures
            match capability {
                Ok(capability) => capability@ == value@ && !bytes::all_zero(value@),
                Err(error) => {
                    &&& bytes::all_zero(value@)
                    &&& error == IdentityPersistenceError::InvalidCommand(
                        "device enrollment capability cannot be all zero",
                    )
                },
            },
    {
        if is_all_zero(&value) {
            return Err(
                IdentityPersistenceError::InvalidCommand(
                    "device enrollment capability cannot be all zero",
                ),
            );
        }
        Ok(DeviceEnrollmentCapability { secret: value })
    }

    /// The raw value, for the immediate QR/status encoder only.
    pub fn as_bytes(&self) -> (bytes: &[u8; 32])
        ensures
            bytes@ == self@,
    {
        &self.secret
    }

    /// The digest under which the capability is stored.
    pub fn hash(&self) -> (hash: Sha256Digest)
        ensures
            hash@ == capability_digest(self@),
    {
        Sha256Digest::hash_domain(DEVICE_ENROLLMENT_CAPABILITY_HASH_DOMAIN, &self.secret)
    }

    /// The capability in words, without its value.
    pub fn redacted(&self) -> (text: String)
        ensures
            text@ == "DeviceEnrollmentCapability([REDACTED])"@,
    {
        "DeviceEnrollmentCapability([REDACTED])".to_owned()
    }

    /// Wipes the raw value.
    pub fn zeroize(&mut self)
        ensures
            bytes::all_zero(final(self)@),
    {
        zeroize(&mut self.secret);
    }
}

/// The model of a request for an enrollment card.
pub struct CreateChallenge {
    pub idempotency_key_hash: Seq<u8>,
    pub identity_id: Seq<u8>,
    pub target_device_id: Seq<u8>,
    pub target_device_signing_key: Seq<u8>,
    pub target_device_encryption_key: Seq<u8>,
    pub capability: Seq<u8>,
}

/// One candidate-created request for an existing identity to enroll a new device.
pub struct CreateDeviceEnrollmentChallengeCommand {
    idempotency_key_hash: Sha256Digest,
    identity_id: IdentityId,
    target_device_id: DeviceId,
    target_device_signing_key: SigningPublicKey,
    target_device_encryption_key: DeviceEncryptionPublicKey,
    capability: DeviceEnrollmentCapability,
}

impl CreateDeviceEnrollmentChallengeCommand {
    /// The model of the value.
    pub closed spec fn view(&self) -> CreateChallenge {
        CreateChallenge {
            idempotency_key_hash: self.idempotency_key_hash@,
            identity_id: self.identity_id@,
            target_device_id: self.target_device_id@,
            target_device_signing_key: self.target_device_signing_key@,
            target_device_encryption_key: self.target_device_encryption_key@,
            capability: self.capability@,
        }
    }
}

/// The fields that the digest of a creation request covers.
pub open spec fn create_request_fields(command: CreateChallenge) -> Seq<Value> {
    seq![
        Value::Unsigned(1),
        Value::Text(text::hex(command.identity_id)),
        Value::Text(text::hyphenated(command.target_device_id)),
        Value::Bytes(command.target_device_signing_key),
        Value::Bytes(command.target_device_encryption_key),
        Value::Bytes(capability_digest(command.capability)),
    ]
}

/// The digest of a creation request.
pub open spec fn create_request_digest(command: CreateChallenge) -> Seq<u8> {
    digest::hash_in_domain(
        DEVICE_ENROLLMENT_CREATE_REQUEST_HASH_DOMAIN@,
        cbor::encoding(record::record(create_request_fields(command))),
    )
}

impl CreateDeviceEnrollmentChallengeCommand {
    /// Creates a bounded QR enrollment challenge request.
    ///
    /// The signing and the encryption key of the candidate must differ.
    pub fn new(
        idempotency_key_hash: Sha256Digest,
        identity_id: IdentityId,
        target_device_id: DeviceId,
        target_device_signing_key: SigningPublicKey,
        target_device_encryption_key: DeviceEncryptionPublicKey,
        capability: DeviceEnrollmentCapability,
    ) -> (command: Result<Self, IdentityPersistenceError>)
        ensures
            match command {
                Ok(command) => {
                    &&& target_device_signing_key@ != target_device_encryption_key@
                    &&& command@ == (CreateChallenge {
                        idempotency_key_hash: idempotency_key_hash@,
                        identity_id: identity_id@,
                        target_device_id: target_device_id@,
                        target_device_signing_key: target_device_signing_key@,
                        target_device_encryption_key: target_device_encryption_key@,
                        capability: capability@,
                    })
                },
                Err(error) => {
                    &&& target_device_signing_key@ == target_device_encryption_key@
                    &&& error == IdentityPersistenceError::InvalidCommand(
                        "device enrollment target keys overlap",
                    )
                },
            },
    {
        if bytes_equal(
            target_device_signing_key.as_bytes(),
            target_device_encryption_key.as_bytes(),
        ) {
            return Err(
                IdentityPersistenceError::InvalidCommand("device enrollment target keys overlap"),
            );
        }
        Ok(
            CreateDeviceEnrollmentChallengeCommand {
                idempotency_key_hash,
                identity_id,
                target_device_id,
                target_device_signing_key,
                target_device_encryption_key,
                capability,
            },
        )
    }

    /// The digest of the request, over everything but its idempotency key.
    pub fn request_digest(&self) -> (digest: Result<Sha256Digest, IdentityPersistenceError>)
        ensures
            digest is Ok,
            digest->Ok_0@ == create_request_digest(self@),
    {
        let capability_hash = self.capability.hash();
        let fields: Vec<CanonicalValue> = vec![
            CanonicalValue::Unsigned(1),
            CanonicalValue::Text(self.identity_id.to_text()),
            CanonicalValue::Text(self.target_device_id.to_text()),
            self.target_device_signing_key.to_canonical_value(),
            self.target_device_encryption_key.to_canonical_value(),
            capability_hash.to_canonical_value(),
        ];
        self.target_device_id.checked();
        proof {
            self.identity_id.lemma_len();
            self.target_device_signing_key.lemma_len();
            self.target_device_encryption_key.lemma_len();
            capability_hash.lemma_len();
            record::lemma_hex_canonical(self.identity_id@);
            record::lemma_uuid_canonical(self.target_device_id@);
            record::lemma_record_canonical(create_request_fields(self@), 31);
            assert(value::items_view(fields@) =~= create_request_fields(self@));
        }
        let canonical = canonical_bytes(&build_record(fields));
        Ok(
            Sha256Digest::hash_domain(
                DEVICE_ENROLLMENT_CREATE_REQUEST_HASH_DOMAIN,
                canonical.as_slice(),
            ),
        )
    }
}

impl CreateDeviceEnrollmentChallengeCommand {
    /// The durable creation idempotency digest, which is no secret.
    pub fn idempotency_key_hash(&self) -> (part: Sha256Digest)
        ensures
            part@ == self@.idempotency_key_hash,
    {
        self.idempotency_key_hash
    }

    /// The identity whose root must eventually sign the device add.
    pub fn identity_id(&self) -> (part: IdentityId)
        ensures
            part@ == self@.identity_id,
    {
        self.identity_id
    }

    /// The candidate device that the eventual root certificate must name.
    pub fn target_device_id(&self) -> (part: DeviceId)
        ensures
            part@ == self@.target_device_id,
    {
        self.target_device_id
    }

    /// The candidate device signing key.
    pub fn target_device_signing_key(&self) -> (part: SigningPublicKey)
        ensures
            part@ == self@.target_device_signing_key,
    {
        self.target_device_signing_key
    }

    /// The candidate device encryption key.
    pub fn target_device_encryption_key(&self) -> (part: DeviceEncryptionPublicKey)
        ensures
            part@ == self@.target_device_encryption_key,
    {
        self.target_device_encryption_key
    }

    /// The capability of the candidate.
    pub fn capability(&self) -> (part: &DeviceEnrollmentCapability)
        ensures
            part@ == self@.capability,
    {
        &self.capability
    }
}

/// A request for catalog-exhaustive history recovery.
///
/// Raw capabilities and idempotency keys are never carried here; callers provide
/// only their domain-separated digests.
pub struct CreateHistoryRecoveryRequestV4Command {
    /// The digest of the enrollment capability.
    pub enrollment_capability_digest: Sha256Digest,
    /// The digest of the idempotency key.
    pub idempotency_digest: Sha256Digest,
    /// The digest of the response capability.
    pub response_capability_digest: Sha256Digest,
    /// The request.
    pub request_id: DeviceEnrollmentChallengeId,
    /// The identity to recover.
    pub identity_id: IdentityId,
    /// The candidate device.
    pub target_device_id: DeviceId,
    /// The candidate device signing key.
    pub target_device_signing_key: SigningPublicKey,
    /// The key that grants are encrypted to.
    pub recipient_encryption_key: DeviceEncryptionPublicKey,
    /// The head before the device was added.
    pub pre_head_sequence: SafeUint,
    /// The hash of that head.
    pub pre_head_hash: Sha256Digest,
    /// The head after the device was added.
    pub post_head_sequence: SafeUint,
    /// The hash of that head.
    pub post_head_hash: Sha256Digest,
    /// The exact event that added the device.
    pub device_add_bytes: Vec<u8>,
    /// Its digest.
    pub device_add_digest: Sha256Digest,
    /// The exact preparation.
    pub preparation_bytes: Vec<u8>,
    /// Its digest.
    pub preparation_digest: Sha256Digest,
    /// The exact manifest.
    pub manifest_bytes: Vec<u8>,
    /// Its digest.
    pub manifest_digest: Sha256Digest,
    /// When the request starts to hold.
    pub issued_at: UtcMillis,
    /// When the request ceases to hold.
    pub expires_at: UtcMillis,
    /// The signature of the candidate.
    pub candidate_signature: Ed25519Signature,
    /// The exact request.
    pub exact_request_bytes: Vec<u8>,
    /// Its digest.
    pub request_digest: Sha256Digest,
}

/// The model of a candidate-signed recovery request.
pub struct RecoveryRequest {
    pub idempotency_key_hash: Seq<u8>,
    pub request_id: Seq<u8>,
    pub identity_id: Seq<u8>,
    pub target_device_id: Seq<u8>,
    pub target_device_signing_key: Seq<u8>,
    pub recipient_encryption_key: Seq<u8>,
    pub observed_head: Head,
    pub issued_at: i64,
    pub expires_at: i64,
    pub capability: Seq<u8>,
    pub candidate_signature: Seq<u8>,
    pub exact_request_bytes: Seq<u8>,
}

/// Candidate-generated signed request authorizing one new device to recover
/// all of the identity's current memberships after normal `DeviceAdd` approval.
pub struct CreateHistoryRecoveryRequestCommand {
    idempotency_key_hash: Sha256Digest,
    request_id: DeviceEnrollmentChallengeId,
    identity_id: IdentityId,
    target_device_id: DeviceId,
    target_device_signing_key: SigningPublicKey,
    recipient_encryption_key: DeviceEncryptionPublicKey,
    observed_head: IdentityLogHead,
    issued_at: UtcMillis,
    expires_at: UtcMillis,
    capability: DeviceEnrollmentCapability,
    candidate_signature: Ed25519Signature,
    exact_request_bytes: Vec<u8>,
}

impl CreateHistoryRecoveryRequestCommand {
    /// The model of the value.
    pub closed spec fn view(&self) -> RecoveryRequest {
        RecoveryRequest {
            idempotency_key_hash: self.idempotency_key_hash@,
            request_id: self.request_id@,
            identity_id: self.identity_id@,
            target_device_id: self.target_device_id@,
            target_device_signing_key: self.target_device_signing_key@,
            recipient_encryption_key: self.recipient_encryption_key@,
            observed_head: self.observed_head@,
            issued_at: self.issued_at@,
            expires_at: self.expires_at@,
            capability: self.capability@,
            candidate_signature: self.candidate_signature@,
            exact_request_bytes: self.exact_request_bytes@,
        }
    }
}

/// The fields of a recovery request that the candidate signs.
pub open spec fn recovery_request_fields(
    request_id: Seq<u8>,
    identity_id: Seq<u8>,
    target_device_id: Seq<u8>,
    target_device_signing_key: Seq<u8>,
    recipient_encryption_key: Seq<u8>,
    observed_head: Head,
    issued_at: i64,
    expires_at: i64,
) -> Seq<Value> {
    seq![
        Value::Unsigned(2),
        Value::Text(text::hyphenated(request_id)),
        Value::Text(text::hex(identity_id)),
        Value::Text(text::hyphenated(target_device_id)),
        Value::Bytes(target_device_signing_key),
        Value::Bytes(recipient_encryption_key),
        Value::Unsigned(observed_head.sequence),
        Value::Bytes(observed_head.hash),
        Value::Unsigned(1),
        number::millis_model(issued_at),
        number::millis_model(expires_at),
    ]
}

/// The signed fields of a recovery request.
pub open spec fn request_fields_of(request: RecoveryRequest) -> Seq<Value> {
    recovery_request_fields(
        request.request_id,
        request.identity_id,
        request.target_device_id,
        request.target_device_signing_key,
        request.recipient_encryption_key,
        request.observed_head,
        request.issued_at,
        request.expires_at,
    )
}

/// The bytes that a candidate signs for an unsigned request.
pub open spec fn recovery_request_signed_bytes(unsigned: Seq<u8>) -> Seq<u8> {
    encode_utf8(HISTORY_RECOVERY_REQUEST_SIGNATURE_DOMAIN@) + unsigned
}

/// The shape of a recovery request is within bounds.
pub open spec fn is_request_shape(request: RecoveryRequest) -> bool {
    &&& request.observed_head.identity_id == request.identity_id
    &&& request.target_device_signing_key != request.recipient_encryption_key
    &&& request.issued_at < request.expires_at
    &&& request.expires_at - request.issued_at <= DEVICE_ENROLLMENT_CHALLENGE_TTL_MILLIS
    &&& 0 < request.exact_request_bytes.len() <= MAX_HISTORY_RECOVERY_REQUEST_BYTES
}

/// Why a recovery request is refused.
pub open spec fn recovery_request_check(request: RecoveryRequest) -> Result<
    (),
    IdentityPersistenceError,
> {
    let fields = request_fields_of(request);
    if !is_request_shape(request) {
        Err(IdentityPersistenceError::InvalidCommand("history recovery request shape"))
    } else if !outside::ed25519_key_accepted(request.target_device_signing_key) {
        Err(IdentityPersistenceError::InvalidCommand("history recovery candidate signing key"))
    } else if !outside::ed25519_strict_accepted(
        request.target_device_signing_key,
        recovery_request_signed_bytes(cbor::encoding(record::record(fields))),
        request.candidate_signature,
    ) {
        Err(IdentityPersistenceError::InvalidCommand("history recovery candidate signature"))
    } else if request.exact_request_bytes != cbor::encoding(
        record::record(fields.push(Value::Bytes(request.candidate_signature))),
    ) {
        Err(
            IdentityPersistenceError::InvalidCommand(
                "history recovery request exact canonical bytes",
            ),
        )
    } else {
        Ok(())
    }
}

/// Builds the signed fields of a recovery request.
fn recovery_request_values(
    request_id: &DeviceEnrollmentChallengeId,
    identity_id: &IdentityId,
    target_device_id: &DeviceId,
    target_device_signing_key: &SigningPublicKey,
    recipient_encryption_key: &DeviceEncryptionPublicKey,
    observed_head: &IdentityLogHead,
    issued_at: &UtcMillis,
    expires_at: &UtcMillis,
) -> (values: Vec<CanonicalValue>)
    ensures
        ({
            let fields = recovery_request_fields(
                request_id@,
                identity_id@,
                target_device_id@,
                target_device_signing_key@,
                recipient_encryption_key@,
                observed_head@,
                issued_at@,
                expires_at@,
            );
            &&& value::items_view(values@) == fields
            &&& cbor::canonical(record::record(fields))
            &&& forall|signature: Seq<u8>|
                signature.len() == 64 ==> cbor::canonical(
                    #[trigger] record::record(fields.push(Value::Bytes(signature))),
                )
        }),
{
    let sequence = observed_head.sequence();
    let hash = observed_head.hash();
    let values: Vec<CanonicalValue> = vec![
        CanonicalValue::Unsigned(2),
        CanonicalValue::Text(request_id.to_text()),
        CanonicalValue::Text(identity_id.to_text()),
        CanonicalValue::Text(target_device_id.to_text()),
        target_device_signing_key.to_canonical_value(),
        recipient_encryption_key.to_canonical_value(),
        sequence.to_canonical_value(),
        hash.to_canonical_value(),
        CanonicalValue::Unsigned(1),
        issued_at.to_canonical_value(),
        expires_at.to_canonical_value(),
    ];
    request_id.checked();
    target_device_id.checked();
    proof {
        let fields = recovery_request_fields(
            request_id@,
            identity_id@,
            target_device_id@,
            target_device_signing_key@,
            recipient_encryption_key@,
            observed_head@,
            issued_at@,
            expires_at@,
        );
        identity_id.lemma_len();
        target_device_signing_key.lemma_len();
        recipient_encryption_key.lemma_len();
        hash.lemma_len();
        record::lemma_uuid_canonical(request_id@);
        record::lemma_hex_canonical(identity_id@);
        record::lemma_uuid_canonical(target_device_id@);
        assert(value::items_view(values@) =~= fields);
        record::lemma_record_canonical(fields, 31);
        assert forall|signature: Seq<u8>| signature.len() == 64 implies cbor::canonical(
            #[trigger] record::record(fields.push(Value::Bytes(signature))),
        ) by {
            record::lemma_record_canonical(fields.push(Value::Bytes(signature)), 31);
        }
    }
    values
}

impl CreateHistoryRecoveryRequestCommand {
    /// Builds and validates an exact, candidate-signed enrollment request.
    pub fn new(
        idempotency_key_hash: Sha256Digest,
        request_id: DeviceEnrollmentChallengeId,
        identity_id: IdentityId,
        target_device_id: DeviceId,
        target_device_signing_key: SigningPublicKey,
        recipient_encryption_key: DeviceEncryptionPublicKey,
        observed_head: IdentityLogHead,
        issued_at: UtcMillis,
        expires_at: UtcMillis,
        capability: DeviceEnrollmentCapability,
        candidate_signature: Ed25519Signature,
        exact_request_bytes: Vec<u8>,
    ) -> (command: Result<Self, IdentityPersistenceError>)
        ensures
            ({
                let model = RecoveryRequest {
                    idempotency_key_hash: idempotency_key_hash@,
                    request_id: request_id@,
                    identity_id: identity_id@,
                    target_device_id: target_device_id@,
                    target_device_signing_key: target_device_signing_key@,
                    recipient_encryption_key: recipient_encryption_key@,
                    observed_head: observed_head@,
                    issued_at: issued_at@,
                    expires_at: expires_at@,
                    capability: capability@,
                    candidate_signature: candidate_signature@,
                    exact_request_bytes: exact_request_bytes@,
                };
                match command {
                    Ok(command) => {
                        &&& recovery_request_check(model) is Ok
                        &&& command@ == model
                    },
                    Err(error) => recovery_request_check(model) == Err::<
                        (),
                        IdentityPersistenceError,
                    >(error),
                }
            }),
    {
        let issued: i64 = issued_at.get();
        let expires: i64 = expires_at.get();
        if observed_head.identity_id() != identity_id || bytes_equal(
            target_device_signing_key.as_bytes(),
            recipient_encryption_key.as_bytes(),
        ) || issued >= expires || expires - issued > DEVICE_ENROLLMENT_CHALLENGE_TTL_MILLIS
            || exact_request_bytes.len() == 0 || exact_request_bytes.len()
            > MAX_HISTORY_RECOVERY_REQUEST_BYTES {
            return Err(IdentityPersistenceError::InvalidCommand("history recovery request shape"));
        }
        let mut values = recovery_request_values(
            &request_id,
            &identity_id,
            &target_device_id,
            &target_device_signing_key,
            &recipient_encryption_key,
            &observed_head,
            &issued_at,
            &expires_at,
        );
        let ghost fields = value::items_view(values@);
        let unsigned = match history_recovery_request_unsigned_canonical_bytes(
            request_id,
            identity_id,
            target_device_id,
            target_device_signing_key,
            recipient_encryption_key,
            observed_head,
            issued_at,
            expires_at,
        ) {
            Ok(unsigned) => unsigned,
            Err(error) => {
                return Err(error);
            },
        };
        if let Err(error) = verify_candidate_signature(
            target_device_signing_key,
            history_recovery_request_signature_input(unsigned.as_slice()).as_slice(),
            candidate_signature,
        ) {
            return Err(error);
        }
        values.push(candidate_signature.to_canonical_value());
        proof {
            candidate_signature.lemma_len();
            assert(value::items_view(values@) =~= fields.push(Value::Bytes(candidate_signature@)));
        }
        let expected = canonical_bytes(&build_record(values));
        if !bytes_equal(expected.as_slice(), exact_request_bytes.as_slice()) {
            return Err(
                IdentityPersistenceError::InvalidCommand(
                    "history recovery request exact canonical bytes",
                ),
            );
        }
        Ok(
            CreateHistoryRecoveryRequestCommand {
                idempotency_key_hash,
                request_id,
                identity_id,
                target_device_id,
                target_device_signing_key,
                recipient_encryption_key,
                observed_head,
                issued_at,
                expires_at,
                capability,
                candidate_signature,
                exact_request_bytes,
            },
        )
    }

    /// The digest bound into grants and scoped key packages.
    pub fn request_digest(&self) -> (digest: Sha256Digest)
        ensures
            digest@ == recovery_request_digest(self@),
    {
        Sha256Digest::hash_domain(
            HISTORY_RECOVERY_REQUEST_HASH_DOMAIN,
            self.exact_request_bytes.as_slice(),
        )
    }
}

/// The digest of a recovery request.
pub open spec fn recovery_request_digest(request: RecoveryRequest) -> Seq<u8> {
    digest::hash_in_domain(HISTORY_RECOVERY_REQUEST_HASH_DOMAIN@, request.exact_request_bytes)
}

impl CreateHistoryRecoveryRequestCommand {
    /// The durable creation idempotency digest.
    pub fn idempotency_key_hash(&self) -> (part: Sha256Digest)
        ensures
            part@ == self@.idempotency_key_hash,
    {
        self.idempotency_key_hash
    }

    /// The request identifier that the candidate generated.
    pub fn request_id(&self) -> (part: DeviceEnrollmentChallengeId)
        ensures
            part@ == self@.request_id,
    {
        self.request_id
    }

    /// The identity to recover.
    pub fn identity_id(&self) -> (part: IdentityId)
        ensures
            part@ == self@.identity_id,
    {
        self.identity_id
    }

    /// The candidate device.
    pub fn target_device_id(&self) -> (part: DeviceId)
        ensures
            part@ == self@.target_device_id,
    {
        self.target_device_id
    }

    /// The candidate device signing key.
    pub fn target_device_signing_key(&self) -> (part: SigningPublicKey)
        ensures
            part@ == self@.target_device_signing_key,
    {
        self.target_device_signing_key
    }

    /// The key that grants are encrypted to.
    pub fn recipient_encryption_key(&self) -> (part: DeviceEncryptionPublicKey)
        ensures
            part@ == self@.recipient_encryption_key,
    {
        self.recipient_encryption_key
    }

    /// The identity-log head that the candidate observed.
    pub fn observed_head(&self) -> (part: IdentityLogHead)
        ensures
            part@ == self@.observed_head,
    {
        self.observed_head
    }

    /// When the request starts to hold.
    pub fn issued_at(&self) -> (part: UtcMillis)
        ensures
            part@ == self@.issued_at,
    {
        self.issued_at
    }

    /// When the request ceases to hold.
    pub fn expires_at(&self) -> (part: UtcMillis)
        ensures
            part@ == self@.expires_at,
    {
        self.expires_at
    }

    /// The capability of the candidate.
    pub fn capability(&self) -> (part: &DeviceEnrollmentCapability)
        ensures
            part@ == self@.capability,
    {
        &self.capability
    }

    /// The signature of the candidate.
    pub fn candidate_signature(&self) -> (part: Ed25519Signature)
        ensures
            part@ == self@.candidate_signature,
    {
        self.candidate_signature
    }

    /// The exact canonical request carried by the QR payload.
    pub fn exact_request_bytes(&self) -> (bytes: &[u8])
        ensures
            bytes@ == self@.exact_request_bytes,
    {
        self.exact_request_bytes.as_slice()
    }
}

/// The exact unsigned canonical request that a candidate must sign.
pub fn history_recovery_request_unsigned_canonical_bytes(
    request_id: DeviceEnrollmentChallengeId,
    identity_id: IdentityId,
    target_device_id: DeviceId,
    target_device_signing_key: SigningPublicKey,
    recipient_encryption_key: DeviceEncryptionPublicKey,
    observed_head: IdentityLogHead,
    issued_at: UtcMillis,
    expires_at: UtcMillis,
) -> (unsigned: Result<Vec<u8>, IdentityPersistenceError>)
    ensures
        unsigned is Ok,
        unsigned->Ok_0@ == cbor::encoding(
            record::record(
                recovery_request_fields(
                    request_id@,
                    identity_id@,
                    target_device_id@,
                    target_device_signing_key@,
                    recipient_encryption_key@,
                    observed_head@,
                    issued_at@,
                    expires_at@,
                ),
            ),
        ),
{
    let values = recovery_request_values(
        &request_id,
        &identity_id,
        &target_device_id,
        &target_device_signing_key,
        &recipient_encryption_key,
        &observed_head,
        &issued_at,
        &expires_at,
    );
    Ok(canonical_bytes(&build_record(values)))
}

/// The domain-separated bytes that the candidate authenticates.
pub fn history_recovery_request_signature_input(unsigned: &[u8]) -> (input: Vec<u8>)
    ensures
        input@ == recovery_request_signed_bytes(unsigned@),
{
    let mut input: Vec<u8> = to_vec(HISTORY_RECOVERY_REQUEST_SIGNATURE_DOMAIN.as_bytes());
    append_bytes(&mut input, unsigned);
    input
}

/// Checks the candidate's signature, strictly.
pub fn verify_candidate_signature(
    signing_key: SigningPublicKey,
    input: &[u8],
    signature: Ed25519Signature,
) -> (verified: Result<(), IdentityPersistenceError>)
    ensures
        verified == if !outside::ed25519_key_accepted(signing_key@) {
            Err::<(), IdentityPersistenceError>(
                IdentityPersistenceError::InvalidCommand("history recovery candidate signing key"),
            )
        } else if !outside::ed25519_strict_accepted(signing_key@, input@, signature@) {
            Err(IdentityPersistenceError::InvalidCommand("history recovery candidate signature"))
        } else {
            Ok(())
        },
{
    if !signing_key.is_usable() {
        return Err(
            IdentityPersistenceError::InvalidCommand("history recovery candidate signing key"),
        );
    }
    if !signing_key.authenticates(input, &signature) {
        return Err(
            IdentityPersistenceError::InvalidCommand("history recovery candidate signature"),
        );
    }
    Ok(())
}

/// The model of an enrollment card.
pub struct EnrollmentCard {
    pub challenge_id: Seq<u8>,
    pub identity_id: Seq<u8>,
    pub target_device_id: Seq<u8>,
    pub target_device_signing_key: Seq<u8>,
    pub target_device_encryption_key: Seq<u8>,
    pub capability: Seq<u8>,
    pub created_at: i64,
    pub expires_at: i64,
}

/// A capability-bearing enrollment card returned to its candidate.
pub struct DeviceEnrollmentChallenge {
    challenge_id: DeviceEnrollmentChallengeId,
    identity_id: IdentityId,
    target_device_id: DeviceId,
    target_device_signing_key: SigningPublicKey,
    target_device_encryption_key: DeviceEncryptionPublicKey,
    capability: DeviceEnrollmentCapability,
    created_at: UtcMillis,
    expires_at: UtcMillis,
}

impl DeviceEnrollmentChallenge {
    /// The model of the value.
    pub closed spec fn view(&self) -> EnrollmentCard {
        EnrollmentCard {
            challenge_id: self.challenge_id@,
            identity_id: self.identity_id@,
            target_device_id: self.target_device_id@,
            target_device_signing_key: self.target_device_signing_key@,
            target_device_encryption_key: self.target_device_encryption_key@,
            capability: self.capability@,
            created_at: self.created_at@,
            expires_at: self.expires_at@,
        }
    }
}

impl DeviceEnrollmentChallenge {
    /// The opaque `UUIDv7` enrollment challenge ID.
    pub fn challenge_id(&self) -> (part: DeviceEnrollmentChallengeId)
        ensures
            part@ == self@.challenge_id,
    {
        self.challenge_id
    }

    /// The target self-certifying identity.
    pub fn identity_id(&self) -> (part: IdentityId)
        ensures
            part@ == self@.identity_id,
    {
        self.identity_id
    }

    /// The candidate device ID that the approval must enroll.
    pub fn target_device_id(&self) -> (part: DeviceId)
        ensures
            part@ == self@.target_device_id,
    {
        self.target_device_id
    }

    /// The candidate device signing key.
    pub fn target_device_signing_key(&self) -> (part: SigningPublicKey)
        ensures
            part@ == self@.target_device_signing_key,
    {
        self.target_device_signing_key
    }

    /// The candidate device encryption key.
    pub fn target_device_encryption_key(&self) -> (part: DeviceEncryptionPublicKey)
        ensures
            part@ == self@.target_device_encryption_key,
    {
        self.target_device_encryption_key
    }

    /// The candidate-held bearer capability for the QR/status card.
    pub fn capability(&self) -> (part: &DeviceEnrollmentCapability)
        ensures
            part@ == self@.capability,
    {
        &self.capability
    }

    /// The trusted durable creation time.
    pub fn created_at(&self) -> (part: UtcMillis)
        ensures
            part@ == self@.created_at,
    {
        self.created_at
    }

    /// The deadline for approval or cancellation.
    pub fn expires_at(&self) -> (part: UtcMillis)
        ensures
            part@ == self@.expires_at,
    {
        self.expires_at
    }
}

impl CreateDeviceEnrollmentChallengeCommand {
    /// The card that answers the request.
    pub fn into_card(
        self,
        challenge_id: DeviceEnrollmentChallengeId,
        created_at: UtcMillis,
        expires_at: UtcMillis,
    ) -> (card: DeviceEnrollmentChallenge)
        ensures
            card@ == (EnrollmentCard {
                challenge_id: challenge_id@,
                identity_id: self@.identity_id,
                target_device_id: self@.target_device_id,
                target_device_signing_key: self@.target_device_signing_key,
                target_device_encryption_key: self@.target_device_encryption_key,
                capability: self@.capability,
                created_at: created_at@,
                expires_at: expires_at@,
            }),
    {
        DeviceEnrollmentChallenge {
            challenge_id,
            identity_id: self.identity_id,
            target_device_id: self.target_device_id,
            target_device_signing_key: self.target_device_signing_key,
            target_device_encryption_key: self.target_device_encryption_key,
            capability: self.capability,
            created_at,
            expires_at,
        }
    }
}

impl CreateHistoryRecoveryRequestCommand {
    /// The card that answers the request.
    pub fn into_card(
        self,
        challenge_id: DeviceEnrollmentChallengeId,
        created_at: UtcMillis,
        expires_at: UtcMillis,
    ) -> (card: DeviceEnrollmentChallenge)
        ensures
            card@ == (EnrollmentCard {
                challenge_id: challenge_id@,
                identity_id: self@.identity_id,
                target_device_id: self@.target_device_id,
                target_device_signing_key: self@.target_device_signing_key,
                target_device_encryption_key: self@.recipient_encryption_key,
                capability: self@.capability,
                created_at: created_at@,
                expires_at: expires_at@,
            }),
    {
        DeviceEnrollmentChallenge {
            challenge_id,
            identity_id: self.identity_id,
            target_device_id: self.target_device_id,
            target_device_signing_key: self.target_device_signing_key,
            target_device_encryption_key: self.recipient_encryption_key,
            capability: self.capability,
            created_at,
            expires_at,
        }
    }
}

/// Durable result of creating or exactly replaying an enrollment card request.
pub enum DeviceEnrollmentChallengeOutcome {
    /// A new challenge was committed once.
    Created(DeviceEnrollmentChallenge),
    /// The exact caller-held capability rebuilt the previous response after a loss.
    Replayed(DeviceEnrollmentChallenge),
}

impl DeviceEnrollmentChallengeOutcome {
    /// The card in either outcome.
    pub open spec fn card(&self) -> EnrollmentCard {
        match self {
            DeviceEnrollmentChallengeOutcome::Created(challenge) => challenge@,
            DeviceEnrollmentChallengeOutcome::Replayed(challenge) => challenge@,
        }
    }

    /// The card in either successful outcome.
    pub fn challenge(&self) -> (challenge: &DeviceEnrollmentChallenge)
        ensures
            challenge@ == self.card(),
    {
        match self {
            DeviceEnrollmentChallengeOutcome::Created(challenge) => challenge,
            DeviceEnrollmentChallengeOutcome::Replayed(challenge) => challenge,
        }
    }
}

/// The model of an approval.
pub struct Approval {
    pub idempotency_key_hash: Seq<u8>,
    pub challenge_id: Seq<u8>,
    pub capability: Seq<u8>,
    pub expected_head_hash: Seq<u8>,
    pub exact_device_add_bytes: Seq<u8>,
}

/// Exact candidate approval request supplied by an authenticated active device.
pub struct DeviceEnrollmentApprovalCommand {
    idempotency_key_hash: Sha256Digest,
    challenge_id: DeviceEnrollmentChallengeId,
    capability: DeviceEnrollmentCapability,
    expected_head_hash: Sha256Digest,
    exact_device_add_bytes: Vec<u8>,
}

impl DeviceEnrollmentApprovalCommand {
    /// The model of the value.
    pub closed spec fn view(&self) -> Approval {
        Approval {
            idempotency_key_hash: self.idempotency_key_hash@,
            challenge_id: self.challenge_id@,
            capability: self.capability@,
            expected_head_hash: self.expected_head_hash@,
            exact_device_add_bytes: self.exact_device_add_bytes@,
        }
    }
}

/// The fields that the digest of an approval covers.
pub open spec fn approval_fields(command: Approval) -> Seq<Value> {
    seq![
        Value::Unsigned(1),
        Value::Text(text::hyphenated(command.challenge_id)),
        Value::Bytes(capability_digest(command.capability)),
        Value::Bytes(command.expected_head_hash),
        Value::Bytes(
            digest::hash_in_domain(
                DEVICE_ENROLLMENT_EVENT_HASH_DOMAIN@,
                command.exact_device_add_bytes,
            ),
        ),
        Value::Bytes(command.idempotency_key_hash),
    ]
}

/// The digest of an approval.
pub open spec fn approval_digest_of(command: Approval) -> Seq<u8> {
    digest::hash_in_domain(
        DEVICE_ENROLLMENT_APPROVAL_REQUEST_HASH_DOMAIN@,
        cbor::encoding(record::record(approval_fields(command))),
    )
}

/// The idempotency key under which an approval appends to the identity log.
pub open spec fn append_key_of(command: Approval) -> Seq<u8> {
    digest::hash_in_domain(
        DEVICE_ENROLLMENT_APPROVAL_IDEMPOTENCY_HASH_DOMAIN@,
        command.challenge_id + command.idempotency_key_hash,
    )
}

impl DeviceEnrollmentApprovalCommand {
    /// Builds an approval command over the exact signed `DeviceAdd` bytes.
    ///
    /// The If-Match value is intentionally only a hash: the complete trusted
    /// head is known once the current projection has been reloaded.
    pub fn new(
        idempotency_key_hash: Sha256Digest,
        challenge_id: DeviceEnrollmentChallengeId,
        capability: DeviceEnrollmentCapability,
        expected_head_hash: Sha256Digest,
        exact_device_add_bytes: Vec<u8>,
    ) -> (command: Result<Self, IdentityPersistenceError>)
        ensures
            match command {
                Ok(command) => {
                    &&& 0 < exact_device_add_bytes@.len() <= MAX_DEVICE_ENROLLMENT_EVENT_BYTES
                    &&& command@ == (Approval {
                        idempotency_key_hash: idempotency_key_hash@,
                        challenge_id: challenge_id@,
                        capability: capability@,
                        expected_head_hash: expected_head_hash@,
                        exact_device_add_bytes: exact_device_add_bytes@,
                    })
                },
                Err(error) => {
                    &&& !(0 < exact_device_add_bytes@.len() <= MAX_DEVICE_ENROLLMENT_EVENT_BYTES)
                    &&& error == IdentityPersistenceError::InvalidCommand(
                        "device enrollment device add byte length",
                    )
                },
            },
    {
        if exact_device_add_bytes.len() == 0 || exact_device_add_bytes.len()
            > MAX_DEVICE_ENROLLMENT_EVENT_BYTES {
            return Err(
                IdentityPersistenceError::InvalidCommand(
                    "device enrollment device add byte length",
                ),
            );
        }
        Ok(
            DeviceEnrollmentApprovalCommand {
                idempotency_key_hash,
                challenge_id,
                capability,
                expected_head_hash,
                exact_device_add_bytes,
            },
        )
    }

    /// The digest of the approval, over everything it says.
    pub fn request_digest(&self) -> (digest: Result<Sha256Digest, IdentityPersistenceError>)
        ensures
            digest is Ok,
            digest->Ok_0@ == approval_digest_of(self@),
    {
        let event_hash = Sha256Digest::hash_domain(
            DEVICE_ENROLLMENT_EVENT_HASH_DOMAIN,
            self.exact_device_add_bytes.as_slice(),
        );
        let capability_hash = self.capability.hash();
        let fields: Vec<CanonicalValue> = vec![
            CanonicalValue::Unsigned(1),
            CanonicalValue::Text(self.challenge_id.to_text()),
            capability_hash.to_canonical_value(),
            self.expected_head_hash.to_canonical_value(),
            event_hash.to_canonical_value(),
            self.idempotency_key_hash.to_canonical_value(),
        ];
        self.challenge_id.checked();
        proof {
            event_hash.lemma_len();
            capability_hash.lemma_len();
            self.expected_head_hash.lemma_len();
            self.idempotency_key_hash.lemma_len();
            record::lemma_uuid_canonical(self.challenge_id@);
            record::lemma_record_canonical(approval_fields(self@), 31);
            assert(value::items_view(fields@) =~= approval_fields(self@));
        }
        let canonical = canonical_bytes(&build_record(fields));
        Ok(
            Sha256Digest::hash_domain(
                DEVICE_ENROLLMENT_APPROVAL_REQUEST_HASH_DOMAIN,
                canonical.as_slice(),
            ),
        )
    }

    /// The idempotency key under which the device add is appended.
    pub fn identity_append_idempotency_key(&self) -> (key: Sha256Digest)
        ensures
            key@ == append_key_of(self@),
    {
        let mut message: Vec<u8> = to_vec(self.challenge_id.as_uuid_bytes());
        append_bytes(&mut message, self.idempotency_key_hash.as_bytes());
        Sha256Digest::hash_domain(
            DEVICE_ENROLLMENT_APPROVAL_IDEMPOTENCY_HASH_DOMAIN,
            message.as_slice(),
        )
    }
}

impl DeviceEnrollmentApprovalCommand {
    /// The transport idempotency digest.
    pub fn idempotency_key_hash(&self) -> (part: Sha256Digest)
        ensures
            part@ == self@.idempotency_key_hash,
    {
        self.idempotency_key_hash
    }

    /// The challenge being approved.
    pub fn challenge_id(&self) -> (part: DeviceEnrollmentChallengeId)
        ensures
            part@ == self@.challenge_id,
    {
        self.challenge_id
    }

    /// The capability of the candidate.
    pub fn capability(&self) -> (part: &DeviceEnrollmentCapability)
        ensures
            part@ == self@.capability,
    {
        &self.capability
    }

    /// The `If-Match` identity-log head hash, which is no secret.
    pub fn expected_head_hash(&self) -> (part: Sha256Digest)
        ensures
            part@ == self@.expected_head_hash,
    {
        self.expected_head_hash
    }

    /// The original exact signed `DeviceAdd` bytes.
    pub fn exact_device_add_bytes(&self) -> (bytes: &[u8])
        ensures
            bytes@ == self@.exact_device_add_bytes,
    {
        self.exact_device_add_bytes.as_slice()
    }
}

/// Candidate-visible enrollment lifecycle state. No state reveals a raw capability.
#[derive(Clone, Copy, Debug, PartialEq, Eq, Structural)]
pub enum DeviceEnrollmentChallengeState {
    /// The capability can still be approved or cancelled.
    Open,
    /// The exact device add and durable identity receipt committed atomically.
    Approved,
    /// The candidate cancelled the challenge before approval.
    Cancelled,
    /// An open challenge passed its five-minute deadline.
    Expired,
}

/// The model of a challenge status.
pub struct ChallengeStatus {
    pub challenge_id: Seq<u8>,
    pub identity_id: Seq<u8>,
    pub target_device_id: Seq<u8>,
    pub state: DeviceEnrollmentChallengeState,
    pub created_at: i64,
    pub expires_at: i64,
    pub approved_head: Option<Head>,
}

/// The status, which holds no secret, returned only to a caller that presents the
/// right capability.
#[derive(Clone, Copy, Debug, PartialEq, Eq)]
pub struct DeviceEnrollmentChallengeStatus {
    challenge_id: DeviceEnrollmentChallengeId,
    identity_id: IdentityId,
    target_device_id: DeviceId,
    state: DeviceEnrollmentChallengeState,
    created_at: UtcMillis,
    expires_at: UtcMillis,
    approved_head: Option<IdentityLogHead>,
}

impl DeviceEnrollmentChallengeStatus {
    /// The model of the value.
    pub closed spec fn view(&self) -> ChallengeStatus {
        ChallengeStatus {
            challenge_id: self.challenge_id@,
            identity_id: self.identity_id@,
            target_device_id: self.target_device_id@,
            state: self.state,
            created_at: self.created_at@,
            expires_at: self.expires_at@,
            approved_head: head::head_view(self.approved_head),
        }
    }
}

impl DeviceEnrollmentChallengeStatus {
    /// The status with the given parts.
    pub(crate) fn new(
        challenge_id: DeviceEnrollmentChallengeId,
        identity_id: IdentityId,
        target_device_id: DeviceId,
        state: DeviceEnrollmentChallengeState,
        created_at: UtcMillis,
        expires_at: UtcMillis,
        approved_head: Option<IdentityLogHead>,
    ) -> (status: Self)
        ensures
            status@ == (ChallengeStatus {
                challenge_id: challenge_id@,
                identity_id: identity_id@,
                target_device_id: target_device_id@,
                state,
                created_at: created_at@,
                expires_at: expires_at@,
                approved_head: head::head_view(approved_head),
            }),
    {
        DeviceEnrollmentChallengeStatus {
            challenge_id,
            identity_id,
            target_device_id,
            state,
            created_at,
            expires_at,
            approved_head,
        }
    }
}

impl DeviceEnrollmentChallengeStatus {
    /// The opaque challenge ID.
    pub fn challenge_id(&self) -> (part: DeviceEnrollmentChallengeId)
        ensures
            part@ == self@.challenge_id,
    {
        self.challenge_id
    }

    /// The target identity.
    pub fn identity_id(&self) -> (part: IdentityId)
        ensures
            part@ == self@.identity_id,
    {
        self.identity_id
    }

    /// The device ID reserved by this card.
    pub fn target_device_id(&self) -> (part: DeviceId)
        ensures
            part@ == self@.target_device_id,
    {
        self.target_device_id
    }

    /// The current capability-authorized status.
    pub fn state(&self) -> (part: DeviceEnrollmentChallengeState)
        ensures
            part == self@.state,
    {
        self.state
    }

    /// The trusted creation time.
    pub fn created_at(&self) -> (part: UtcMillis)
        ensures
            part@ == self@.created_at,
    {
        self.created_at
    }

    /// The fixed approval deadline.
    pub fn expires_at(&self) -> (part: UtcMillis)
        ensures
            part@ == self@.expires_at,
    {
        self.expires_at
    }

    /// The committed identity head, only after approval.
    pub fn approved_head(&self) -> (part: Option<IdentityLogHead>)
        ensures
            head::head_view(part) == self@.approved_head,
    {
        self.approved_head
    }
}

} // verus!
