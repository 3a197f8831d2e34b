//! Device sessions: their commands, proofs and receipts.

use vstd::prelude::*;
use vstd::utf8::*;
use crate::outside::zeroize;
use crate::persistence::error::IdentityPersistenceError;
use crate::persistence::head::{Head, IdentityLogHead};
use crate::wire::bytes;
use crate::wire::bytes::{append_bytes, bytes_equal, is_all_zero, to_vec};
use crate::wire::cbor;
use crate::wire::codec::canonical_bytes;
use crate::wire::digest;
use crate::wire::digest::Sha256Digest;
use crate::wire::id::{DeviceId, DeviceSessionChallengeId, DeviceSessionId, IdentityId};
use crate::wire::key::{Ed25519Signature, SigningPublicKey};
use crate::wire::number;
use crate::wire::number::UtcMillis;
use crate::wire::record;
use crate::wire::record::{build_record, CanonicalEncode};
use crate::wire::text;
use crate::wire::value;
use crate::wire::value::{CanonicalValue, Value};

verus! {

/// The short lifetime of an unconsumed device-signature challenge.
pub const DEVICE_SESSION_CHALLENGE_TTL_MILLIS: i64 = 300_000;

/// The maximum lifetime of a device session issued from a fresh challenge.
pub const DEVICE_SESSION_TTL_MILLIS: i64 = 900_000;

/// The shortest durable interval between challenges for one active device.
pub const DEVICE_SESSION_CHALLENGE_MIN_INTERVAL_MILLIS: i64 = 5_000;

/// How much session state one retention batch removes at most.
pub const DEVICE_SESSION_PRUNE_BATCH_SIZE: i32 = 256;

/// Domain separator for the secret digest retained by the server.
pub const DEVICE_SESSION_SECRET_HASH_DOMAIN: &'static str =
    "dirextalk.device-session-secret.v1\0";

/// Domain separator for the one-time challenge nonce digest retained by the server.
pub const DEVICE_SESSION_NONCE_HASH_DOMAIN: &'static str = "dirextalk.device-session-nonce.v1\0";

/// Domain separator for the canonical request digest used by durable replay.
pub const DEVICE_SESSION_REQUEST_HASH_DOMAIN: &'static str =
    "dirextalk.device-session-request.v1\0";

/// Domain separator for the canonical device-proof transcript digest.
pub const DEVICE_SESSION_PROOF_HASH_DOMAIN: &'static str = "dirextalk.device-session-proof.v1\0";

/// Domain separator for the exact signature input over a session completion.
pub const DEVICE_SESSION_SIGNATURE_DOMAIN: &'static str =
    "dirextalk.device-session-signature.v1\0";

/// Domain separator for the immutable canonical session receipt digest.
pub const DEVICE_SESSION_RECEIPT_HASH_DOMAIN: &'static str =
    "dirextalk.device-session-receipt.v1\0";

/// The digest under which a session secret is stored.
pub open spec fn secret_digest(secret: Seq<u8>) -> Seq<u8> {
    digest::hash_in_domain(DEVICE_SESSION_SECRET_HASH_DOMAIN@, secret)
}

/// The digest under which a challenge nonce is stored.
pub open spec fn nonce_digest(nonce: Seq<u8>) -> Seq<u8> {
    digest::hash_in_domain(DEVICE_SESSION_NONCE_HASH_DOMAIN@, nonce)
}

/// Opaque fixed-width digest used only when binding a device-session credential
/// to a database authentication call. It intentionally has no serialization or
/// formatting.
#[derive(Clone, Copy, Eq)]
pub struct DeviceSessionSecretHash {
    hash: [u8; 32],
}

impl PartialEq for DeviceSessionSecretHash {
    fn eq(&self, other: &Self) -> (equal: bool) {
        bytes_equal(&self.hash, &other.hash)
    }
}

impl vstd::std_specs::cmp::PartialEqSpecImpl for DeviceSessionSecretHash {
    open spec fn obeys_eq_spec() -> bool {
        true
    }

    open spec fn eq_spec(&self, other: &Self) -> bool {
        self@ == other@
    }
}

impl DeviceSessionSecretHash {
    /// The bytes.
    pub closed spec fn view(&self) -> Seq<u8> {
        self.hash@
    }

    /// The exact fixed-width bytes expected by the database binding.
    pub fn for_database_binding(self) -> (bytes: [u8; 32])
        ensures
            bytes@ == self@,
    {
        self.hash
    }

    /// The digest in words, without its value.
    pub fn redacted(&self) -> (text: String)
        ensures
            text@ == "DeviceSessionSecretHash([REDACTED])"@,
    {
        "DeviceSessionSecretHash([REDACTED])".to_owned()
    }
}

/// The model of a session challenge.
pub struct SessionChallenge {
    pub challenge_id: Seq<u8>,
    pub identity_id: Seq<u8>,
    pub device_id: Seq<u8>,
    pub nonce: Seq<u8>,
    pub audience: Seq<char>,
    pub expires_at: i64,
    pub session_expires_at: i64,
}

/// A public one-time challenge returned to a device that wants to authenticate.
///
/// Its nonce is intentionally not persisted in plaintext. The caller receives it
/// once, must include it in the independently signed completion proof, and wipes
/// it with [`DeviceSessionChallenge::zeroize`] afterwards.
pub struct DeviceSessionChallenge {
    challenge_id: DeviceSessionChallengeId,
    identity_id: IdentityId,
    device_id: DeviceId,
    nonce: [u8; 32],
    audience: String,
    expires_at: UtcMillis,
    session_expires_at: UtcMillis,
}

impl DeviceSessionChallenge {
    /// The model of the value.
    pub closed spec fn view(&self) -> SessionChallenge {
        SessionChallenge {
            challenge_id: self.challenge_id@,
            identity_id: self.identity_id@,
            device_id: self.device_id@,
            nonce: self.nonce@,
            audience: self.audience@,
            expires_at: self.expires_at@,
            session_expires_at: self.session_expires_at@,
        }
    }
}

impl DeviceSessionChallenge {
    /// The challenge with the given parts.
    pub(crate) fn new(
        challenge_id: DeviceSessionChallengeId,
        identity_id: IdentityId,
        device_id: DeviceId,
        nonce: [u8; 32],
        audience: String,
        expires_at: UtcMillis,
        session_expires_at: UtcMillis,
    ) -> (challenge: Self)
        ensures
            challenge@ == (SessionChallenge {
                challenge_id: challenge_id@,
                identity_id: identity_id@,
                device_id: device_id@,
                nonce: nonce@,
                audience: audience@,
                expires_at: expires_at@,
                session_expires_at: session_expires_at@,
            }),
    {
        DeviceSessionChallenge {
            challenge_id,
            identity_id,
            device_id,
            nonce,
            audience,
            expires_at,
            session_expires_at,
        }
    }

    /// The raw one-time nonce for the immediate client proof.
    pub fn nonce(&self) -> (nonce: &[u8; 32])
        ensures
            nonce@ == self@.nonce,
    {
        &self.nonce
    }

    /// Wipes the nonce and leaves the rest as it is.
    pub fn zeroize(&mut self)
        ensures
            bytes::all_zero(final(self)@.nonce),
            final(self)@ == (SessionChallenge { nonce: final(self)@.nonce, ..old(self)@ }),
    {
        zeroize(&mut self.nonce);
    }
}

impl DeviceSessionChallenge {
    /// The opaque `UUIDv7` challenge identifier.
    pub fn challenge_id(&self) -> (part: DeviceSessionChallengeId)
        ensures
            part@ == self@.challenge_id,
    {
        self.challenge_id
    }

    /// The self-certifying identity for which this challenge was issued.
    pub fn identity_id(&self) -> (part: IdentityId)
        ensures
            part@ == self@.identity_id,
    {
        self.identity_id
    }

    /// The device that must prove possession of its signing key.
    pub fn device_id(&self) -> (part: DeviceId)
        ensures
            part@ == self@.device_id,
    {
        self.device_id
    }

    /// The server-configured audience bound into the proof transcript.
    pub fn audience(&self) -> (text: &str)
        ensures
            text@ == self@.audience,
    {
        self.audience.as_str()
    }

    /// The deadline for consuming this one-time challenge.
    pub fn expires_at(&self) -> (part: UtcMillis)
        ensures
            part@ == self@.expires_at,
    {
        self.expires_at
    }

    /// The fixed session expiry that the proof binds before completion.
    pub fn session_expires_at(&self) -> (part: UtcMillis)
        ensures
            part@ == self@.session_expires_at,
    {
        self.session_expires_at
    }
}

/// The model of a session completion.
pub struct SessionCompletion {
    pub idempotency_key_hash: Seq<u8>,
    pub identity_id: Seq<u8>,
    pub device_id: Seq<u8>,
    pub challenge_id: Seq<u8>,
    pub session_id: Seq<u8>,
    pub challenge_nonce: Seq<u8>,
    pub session_secret: Seq<u8>,
    pub proof: Seq<u8>,
}

/// One signed completion request.
///
/// The client generates and keeps the session secret, so a lost response can
/// replay the exact request without asking the server to retain or reissue a raw
/// bearer secret.
pub struct DeviceSessionCompletionCommand {
    idempotency_key_hash: Sha256Digest,
    identity_id: IdentityId,
    device_id: DeviceId,
    challenge_id: DeviceSessionChallengeId,
    session_id: DeviceSessionId,
    challenge_nonce: [u8; 32],
    session_secret: [u8; 32],
    proof: Ed25519Signature,
}

impl DeviceSessionCompletionCommand {
    /// The model of the value.
    pub closed spec fn view(&self) -> SessionCompletion {
        SessionCompletion {
            idempotency_key_hash: self.idempotency_key_hash@,
            identity_id: self.identity_id@,
            device_id: self.device_id@,
            challenge_id: self.challenge_id@,
            session_id: self.session_id@,
            challenge_nonce: self.challenge_nonce@,
            session_secret: self.session_secret@,
            proof: self.proof@,
        }
    }
}

/// The fields that the digest of a completion request covers.
pub open spec fn completion_request_fields(command: SessionCompletion) -> Seq<Value> {
    seq![
        Value::Unsigned(1),
        Value::Text(text::hex(command.identity_id)),
        Value::Text(text::hyphenated(command.device_id)),
        Value::Text(text::hyphenated(command.challenge_id)),
        Value::Text(text::hyphenated(command.session_id)),
        Value::Bytes(command.challenge_nonce),
        Value::Bytes(secret_digest(command.session_secret)),
        Value::Bytes(command.proof),
    ]
}

/// The digest of a completion request.
pub open spec fn completion_request_digest(command: SessionCompletion) -> Seq<u8> {
    digest::hash_in_domain(
        DEVICE_SESSION_REQUEST_HASH_DOMAIN@,
        cbor::encoding(record::record(completion_request_fields(command))),
    )
}

impl DeviceSessionCompletionCommand {
    /// Builds one bounded completion request from already decoded wire values.
    ///
    /// Rejects an all-zero client-chosen secret.
    pub fn new(
        idempotency_key_hash: Sha256Digest,
        identity_id: IdentityId,
        device_id: DeviceId,
        challenge_id: DeviceSessionChallengeId,
        session_id: DeviceSessionId,
        challenge_nonce: [u8; 32],
        session_secret: [u8; 32],
        proof: Ed25519Signature,
    ) -> (command: Result<Self, IdentityPersistenceError>)
        ensures
            match command {
                Ok(command) => {
                    &&& !bytes::all_zero(session_secret@)
                    &&& command@ == (SessionCompletion {
                        idempotency_key_hash: idempotency_key_hash@,
                        identity_id: identity_id@,
                        device_id: device_id@,
                        challenge_id: challenge_id@,
                        session_id: session_id@,
                        challenge_nonce: challenge_nonce@,
                        session_secret: session_secret@,
                        proof: proof@,
                    })
                },
                Err(error) => {
                    &&& bytes::all_zero(session_secret@)
                    &&& error == IdentityPersistenceError::InvalidCommand(
                        "device session secret cannot be all zero",
                    )
                },
            },
    {
        if is_all_zero(&session_secret) {
            return Err(
                IdentityPersistenceError::InvalidCommand(
                    "device session secret cannot be all zero",
                ),
            );
        }
        Ok(
            DeviceSessionCompletionCommand {
                idempotency_key_hash,
                identity_id,
                device_id,
                challenge_id,
                session_id,
                challenge_nonce,
                session_secret,
                proof,
            },
        )
    }

    /// The device signature over the complete canonical transcript.
    pub fn device_proof(&self) -> (signature: Ed25519Signature)
        ensures
            signature@ == self@.proof,
    {
        self.proof
    }

    /// The nonce of the challenge.
    pub(crate) fn challenge_nonce(&self) -> (nonce: &[u8; 32])
        ensures
            nonce@ == self@.challenge_nonce,
    {
        &self.challenge_nonce
    }

    /// The digest under which the challenge's nonce is stored.
    pub fn challenge_nonce_hash(&self) -> (hash: Sha256Digest)
        ensures
            hash@ == nonce_digest(self@.challenge_nonce),
    {
        Sha256Digest::hash_domain(DEVICE_SESSION_NONCE_HASH_DOMAIN, &self.challenge_nonce)
    }

    /// The digest under which the session's secret is stored.
    pub fn session_secret_hash(&self) -> (hash: Sha256Digest)
        ensures
            hash@ == secret_digest(self@.session_secret),
    {
        Sha256Digest::hash_domain(DEVICE_SESSION_SECRET_HASH_DOMAIN, &self.session_secret)
    }

    /// The digest of the request, over everything but its idempotency key.
    pub fn request_digest(&self) -> (digest: Result<Sha256Digest, IdentityPersistenceError>)
        ensures
            digest is Ok,
            digest->Ok_0@ == completion_request_digest(self@),
    {
        let secret_hash = self.session_secret_hash();
        let fields: Vec<CanonicalValue> = vec![
            CanonicalValue::Unsigned(1),
            CanonicalValue::Text(self.identity_id.to_text()),
            CanonicalValue::Text(self.device_id.to_text()),
            CanonicalValue::Text(self.challenge_id.to_text()),
            CanonicalValue::Text(self.session_id.to_text()),
            CanonicalValue::Bytes(to_vec(&self.challenge_nonce)),
            secret_hash.to_canonical_value(),
            self.proof.to_canonical_value(),
        ];
        self.device_id.checked();
        self.challenge_id.checked();
        self.session_id.checked();
        proof {
            self.identity_id.lemma_len();
            secret_hash.lemma_len();
            self.proof.lemma_len();
            record::lemma_hex_canonical(self.identity_id@);
            record::lemma_uuid_canonical(self.device_id@);
            record::lemma_uuid_canonical(self.challenge_id@);
            record::lemma_uuid_canonical(self.session_id@);
            record::lemma_record_canonical(completion_request_fields(self@), 31);
            assert(value::items_view(fields@) =~= completion_request_fields(self@));
        }
        let canonical = canonical_bytes(&build_record(fields));
        Ok(
            Sha256Digest::hash_domain(DEVICE_SESSION_REQUEST_HASH_DOMAIN, canonical.as_slice()),
        )
    }

    /// Wipes the nonce and the secret, and leaves the rest as it is.
    pub fn zeroize(&mut self)
        ensures
            bytes::all_zero(final(self)@.challenge_nonce),
            bytes::all_zero(final(self)@.session_secret),
            final(self)@ == (SessionCompletion {
                challenge_nonce: final(self)@.challenge_nonce,
                session_secret: final(self)@.session_secret,
                ..old(self)@
            }),
    {
        zeroize(&mut self.challenge_nonce);
        zeroize(&mut self.session_secret);
    }
}

impl DeviceSessionCompletionCommand {
    /// The global HTTP idempotency key digest.
    pub fn idempotency_key_hash(&self) -> (part: Sha256Digest)
        ensures
            part@ == self@.idempotency_key_hash,
    {
        self.idempotency_key_hash
    }

    /// The identity explicitly bound into this completion request.
    pub fn identity_id(&self) -> (part: IdentityId)
        ensures
            part@ == self@.identity_id,
    {
        self.identity_id
    }

    /// The device explicitly bound into this completion request.
    pub fn device_id(&self) -> (part: DeviceId)
        ensures
            part@ == self@.device_id,
    {
        self.device_id
    }

    /// The one-time challenge this command consumes.
    pub fn challenge_id(&self) -> (part: DeviceSessionChallengeId)
        ensures
            part@ == self@.challenge_id,
    {
        self.challenge_id
    }

    /// The client-generated public session identifier.
    pub fn session_id(&self) -> (part: DeviceSessionId)
        ensures
            part@ == self@.session_id,
    {
        self.session_id
    }
}

/// The model of a session credential.
pub struct Credential {
    pub session_id: Seq<u8>,
    pub session_secret: Seq<u8>,
}

/// The locally held capability used in a `DTX-Device-Session` authorization
/// header.
///
/// The raw secret is never persisted or included in a receipt. Whoever owns the
/// credential wipes it with [`DeviceSessionCredential::zeroize`] afterwards.
pub struct DeviceSessionCredential {
    session_id: DeviceSessionId,
    session_secret: [u8; 32],
}

impl DeviceSessionCredential {
    /// The model of the value.
    pub closed spec fn view(&self) -> Credential {
        Credential {
            session_id: self.session_id@,
            session_secret: self.session_secret@,
        }
    }
}

impl DeviceSessionCredential {
    /// Builds a local credential from a client-kept session secret.
    ///
    /// Rejects an all-zero secret rather than creating an obviously guessable
    /// bearer capability.
    pub fn new(session_id: DeviceSessionId, session_secret: [u8; 32]) -> (credential: Result<
        Self,
        IdentityPersistenceError,
    >)
        ensures
            match credential {
                Ok(credential) => {
                    &&& !bytes::all_zero(session_secret@)
                    &&& credential@ == (Credential {
                        session_id: session_id@,
                        session_secret: session_secret@,
                    })
                },
                Err(error) => {
                    &&& bytes::all_zero(session_secret@)
                    &&& error == IdentityPersistenceError::InvalidCommand(
                        "device session secret cannot be all zero",
                    )
                },
            },
    {
        if is_all_zero(&session_secret) {
            return Err(
                IdentityPersistenceError::InvalidCommand(
                    "device session secret cannot be all zero",
                ),
            );
        }
        Ok(DeviceSessionCredential { session_id, session_secret })
    }

    /// The domain-separated digest for a database authentication binding,
    /// without the raw session secret.
    pub fn database_secret_hash(&self) -> (hash: DeviceSessionSecretHash)
        ensures
            hash@ == secret_digest(self@.session_secret),
    {
        DeviceSessionSecretHash { hash: *self.secret_hash().as_bytes() }
    }

    /// The digest under which the session's secret is stored.
    pub fn secret_hash(&self) -> (hash: Sha256Digest)
        ensures
            hash@ == secret_digest(self@.session_secret),
    {
        Sha256Digest::hash_domain(DEVICE_SESSION_SECRET_HASH_DOMAIN, &self.session_secret)
    }

    /// Wipes the secret and leaves the session identifier as it is.
    pub fn zeroize(&mut self)
        ensures
            bytes::all_zero(final(self)@.session_secret),
            final(self)@.session_id == old(self)@.session_id,
    {
        zeroize(&mut self.session_secret);
    }
}

impl DeviceSessionCredential {
    /// The session identifier, which is no secret.
    pub fn session_id(&self) -> (part: DeviceSessionId)
        ensures
            part@ == self@.session_id,
    {
        self.session_id
    }
}

/// The model of a session receipt.
pub struct SessionReceipt {
    pub identity_id: Seq<u8>,
    pub device_id: Seq<u8>,
    pub session_id: Seq<u8>,
    pub issued_head: Head,
    pub issued_at: i64,
    pub expires_at: i64,
    pub exact_bytes: Seq<u8>,
}

/// Immutable public receipt for a successfully issued device session.
#[derive(Clone, Debug, PartialEq, Eq)]
pub struct DeviceSessionReceipt {
    identity_id: IdentityId,
    device_id: DeviceId,
    session_id: DeviceSessionId,
    issued_head: IdentityLogHead,
    issued_at: UtcMillis,
    expires_at: UtcMillis,
    exact_bytes: Vec<u8>,
}

impl DeviceSessionReceipt {
    /// The model of the value.
    pub closed spec fn view(&self) -> SessionReceipt {
        SessionReceipt {
            identity_id: self.identity_id@,
            device_id: self.device_id@,
            session_id: self.session_id@,
            issued_head: self.issued_head@,
            issued_at: self.issued_at@,
            expires_at: self.expires_at@,
            exact_bytes: self.exact_bytes@,
        }
    }
}

/// The fields of a session receipt.
pub open spec fn session_receipt_fields(
    identity_id: Seq<u8>,
    device_id: Seq<u8>,
    session_id: Seq<u8>,
    issued_head: Head,
    issued_at: i64,
    expires_at: i64,
) -> Seq<Value> {
    seq![
        Value::Unsigned(1),
        Value::Text(text::hex(identity_id)),
        Value::Text(text::hyphenated(device_id)),
        Value::Text(text::hyphenated(session_id)),
        Value::Unsigned(issued_head.sequence),
        Value::Bytes(issued_head.hash),
        number::millis_model(issued_at),
        number::millis_model(expires_at),
    ]
}

/// The receipt of a session.
pub open spec fn session_receipt(
    identity_id: Seq<u8>,
    device_id: Seq<u8>,
    session_id: Seq<u8>,
    issued_head: Head,
    issued_at: i64,
    expires_at: i64,
) -> SessionReceipt {
    SessionReceipt {
        identity_id,
        device_id,
        session_id,
        issued_head,
        issued_at,
        expires_at,
        exact_bytes: cbor::encoding(
            record::record(
                session_receipt_fields(
                    identity_id,
                    device_id,
                    session_id,
                    issued_head,
                    issued_at,
                    expires_at,
                ),
            ),
        ),
    }
}

/// The digest of a session receipt.
pub open spec fn session_receipt_digest(receipt: SessionReceipt) -> Seq<u8> {
    digest::hash_in_domain(DEVICE_SESSION_RECEIPT_HASH_DOMAIN@, receipt.exact_bytes)
}

impl DeviceSessionReceipt {
    /// The receipt of a session that was issued at a head of its identity and
    /// does not expire before it was issued.
    pub fn new(
        identity_id: IdentityId,
        device_id: DeviceId,
        session_id: DeviceSessionId,
        issued_head: IdentityLogHead,
        issued_at: UtcMillis,
        expires_at: UtcMillis,
    ) -> (receipt: Result<Self, IdentityPersistenceError>)
        ensures
            match receipt {
                Ok(receipt) => {
                    &&& issued_head@.identity_id == identity_id@
                    &&& issued_at@ <= expires_at@
                    &&& receipt@ == session_receipt(
                        identity_id@,
                        device_id@,
                        session_id@,
                        issued_head@,
                        issued_at@,
                        expires_at@,
                    )
                },
                Err(error) => {
                    &&& issued_head@.identity_id != identity_id@ || expires_at@ < issued_at@
                    &&& error == IdentityPersistenceError::CorruptData(
                        "device session receipt fields",
                    )
                },
            },
    {
        if issued_head.identity_id() != identity_id || expires_at.get() < issued_at.get() {
            return Err(IdentityPersistenceError::CorruptData("device session receipt fields"));
        }
        let sequence = issued_head.sequence();
        let hash = issued_head.hash();
        let fields: Vec<CanonicalValue> = vec![
            CanonicalValue::Unsigned(1),
            CanonicalValue::Text(identity_id.to_text()),
            CanonicalValue::Text(device_id.to_text()),
            CanonicalValue::Text(session_id.to_text()),
            sequence.to_canonical_value(),
            hash.to_canonical_value(),
            issued_at.to_canonical_value(),
            expires_at.to_canonical_value(),
        ];
        device_id.checked();
        session_id.checked();
        proof {
            let models = session_receipt_fields(
                identity_id@,
                device_id@,
                session_id@,
                issued_head@,
                issued_at@,
                expires_at@,
            );
            identity_id.lemma_len();
            hash.lemma_len();
            record::lemma_hex_canonical(identity_id@);
            record::lemma_uuid_canonical(device_id@);
            record::lemma_uuid_canonical(session_id@);
            record::lemma_record_canonical(models, 31);
            assert(value::items_view(fields@) =~= models);
        }
        let exact_bytes = canonical_bytes(&build_record(fields));
        Ok(
            DeviceSessionReceipt {
                identity_id,
                device_id,
                session_id,
                issued_head,
                issued_at,
                expires_at,
                exact_bytes,
            },
        )
    }

    /// The digest of the receipt.
    pub fn receipt_digest(&self) -> (digest: Sha256Digest)
        ensures
            digest@ == session_receipt_digest(self@),
    {
        Sha256Digest::hash_domain(DEVICE_SESSION_RECEIPT_HASH_DOMAIN, self.exact_bytes.as_slice())
    }

    /// Checks the receipt against its stored bytes and digest.
    pub fn verify_exact_bytes(&self, stored_bytes: &[u8], stored_digest: Sha256Digest) -> (verified:
        Result<(), IdentityPersistenceError>)
        ensures
            verified == if stored_bytes@ == self@.exact_bytes && stored_digest@
                == session_receipt_digest(self@) {
                Ok::<(), IdentityPersistenceError>(())
            } else {
                Err(IdentityPersistenceError::ReceiptIntegrity)
            },
    {
        if !bytes_equal(self.exact_bytes.as_slice(), stored_bytes) || self.receipt_digest()
            != stored_digest {
            return Err(IdentityPersistenceError::ReceiptIntegrity);
        }
        Ok(())
    }
}

impl DeviceSessionReceipt {
    /// The identity authorized by the session.
    pub fn identity_id(&self) -> (part: IdentityId)
        ensures
            part@ == self@.identity_id,
    {
        self.identity_id
    }

    /// The active device that authenticated the session.
    pub fn device_id(&self) -> (part: DeviceId)
        ensures
            part@ == self@.device_id,
    {
        self.device_id
    }

    /// The public session identifier.
    pub fn session_id(&self) -> (part: DeviceSessionId)
        ensures
            part@ == self@.session_id,
    {
        self.session_id
    }

    /// The identity-log head observed at issuance.
    pub fn issued_head(&self) -> (part: IdentityLogHead)
        ensures
            part@ == self@.issued_head,
    {
        self.issued_head
    }

    /// The trusted issuance time.
    pub fn issued_at(&self) -> (part: UtcMillis)
        ensures
            part@ == self@.issued_at,
    {
        self.issued_at
    }

    /// The fixed expiry authenticated by the device proof.
    pub fn expires_at(&self) -> (part: UtcMillis)
        ensures
            part@ == self@.expires_at,
    {
        self.expires_at
    }

    /// The exact immutable CBOR bytes replayed after a response loss.
    pub fn exact_bytes(&self) -> (bytes: &[u8])
        ensures
            bytes@ == self@.exact_bytes,
    {
        self.exact_bytes.as_slice()
    }
}

/// Durable outcome of issuing or exactly replaying a device session.
#[derive(Clone, Debug, PartialEq, Eq)]
pub enum DeviceSessionOutcome {
    /// A fresh one-time challenge was consumed and a session was issued.
    Issued(DeviceSessionReceipt),
    /// The exact stored receipt was returned after a response-loss retry.
    Replayed(DeviceSessionReceipt),
}

impl DeviceSessionOutcome {
    /// The receipt in either outcome.
    pub open spec fn view(&self) -> SessionReceipt {
        match self {
            DeviceSessionOutcome::Issued(receipt) => receipt@,
            DeviceSessionOutcome::Replayed(receipt) => receipt@,
        }
    }

    /// The immutable receipt in either outcome.
    pub fn receipt(&self) -> (receipt: &DeviceSessionReceipt)
        ensures
            receipt@ == self@,
    {
        match self {
            DeviceSessionOutcome::Issued(receipt) => receipt,
            DeviceSessionOutcome::Replayed(receipt) => receipt,
        }
    }
}

/// The model of a session.
pub struct Session {
    pub identity_id: Seq<u8>,
    pub device_id: Seq<u8>,
    pub session_id: Seq<u8>,
    pub expires_at: i64,
}

/// A currently valid device session, verified against the latest identity-log
/// projection rather than a copied device credential table.
#[derive(Clone, Copy, Debug, PartialEq, Eq)]
pub struct AuthenticatedDeviceSession {
    identity_id: IdentityId,
    device_id: DeviceId,
    session_id: DeviceSessionId,
    expires_at: UtcMillis,
}

impl AuthenticatedDeviceSession {
    /// The model of the value.
    pub closed spec fn view(&self) -> Session {
        Session {
            identity_id: self.identity_id@,
            device_id: self.device_id@,
            session_id: self.session_id@,
            expires_at: self.expires_at@,
        }
    }
}

impl AuthenticatedDeviceSession {
    /// The value with the given parts.
    pub(crate) fn new(
        identity_id: IdentityId,
        device_id: DeviceId,
        session_id: DeviceSessionId,
        expires_at: UtcMillis,
    ) -> (built: Self)
        ensures
            built@ == (Session {
                identity_id: identity_id@,
                device_id: device_id@,
                session_id: session_id@,
                expires_at: expires_at@,
            }),
    {
        AuthenticatedDeviceSession {
            identity_id,
            device_id,
            session_id,
            expires_at,
        }
    }
}

impl AuthenticatedDeviceSession {
    /// The authenticated self-certifying identity.
    pub fn identity_id(&self) -> (part: IdentityId)
        ensures
            part@ == self@.identity_id,
    {
        self.identity_id
    }

    /// The active device that owns this session.
    pub fn device_id(&self) -> (part: DeviceId)
        ensures
            part@ == self@.device_id,
    {
        self.device_id
    }

    /// The public session identifier.
    pub fn session_id(&self) -> (part: DeviceSessionId)
        ensures
            part@ == self@.session_id,
    {
        self.session_id
    }

    /// The trusted expiry.
    pub fn expires_at(&self) -> (part: UtcMillis)
        ensures
            part@ == self@.expires_at,
    {
        self.expires_at
    }
}

/// The model of a session with its signing key.
pub struct SigningSession {
    pub session: Session,
    pub signing_key: Seq<u8>,
}

/// A currently valid device session together with the active device signing key
/// resolved from the same locked identity-log projection.
///
/// The public key is not secret. It lets another durable authorization boundary
/// verify a command proof inside the same transaction that rechecks session
/// expiry and device revocation.
#[derive(Clone, Copy, Debug, PartialEq, Eq)]
pub struct AuthenticatedDeviceSigningSession {
    session: AuthenticatedDeviceSession,
    signing_key: SigningPublicKey,
}

impl AuthenticatedDeviceSigningSession {
    /// The model of the value.
    pub closed spec fn view(&self) -> SigningSession {
        SigningSession {
            session: self.session@,
            signing_key: self.signing_key@,
        }
    }
}

impl AuthenticatedDeviceSigningSession {
    /// The value with the given parts.
    pub(crate) fn new(
        session: AuthenticatedDeviceSession,
        signing_key: SigningPublicKey,
    ) -> (built: Self)
        ensures
            built@ == (SigningSession {
                session: session@,
                signing_key: signing_key@,
            }),
    {
        AuthenticatedDeviceSigningSession {
            session,
            signing_key,
        }
    }
}

impl AuthenticatedDeviceSigningSession {
    /// The authenticated session facts.
    pub fn session(&self) -> (part: AuthenticatedDeviceSession)
        ensures
            part@ == self@.session,
    {
        self.session
    }

    /// The active device's verified public signing key.
    pub fn signing_key(&self) -> (part: SigningPublicKey)
        ensures
            part@ == self@.signing_key,
    {
        self.signing_key
    }
}

/// The model of a push observation.
pub struct PushObservation {
    pub identity_id: Seq<u8>,
    pub device_id: Seq<u8>,
    pub signing_key: Seq<u8>,
    pub head: Head,
}

/// A coherent, read-only authorization observation for opaque push registration.
///
/// Its identity fence is the exact fully reduced log head that authenticated the
/// active device and signing key.
#[derive(Clone, Copy, Debug, PartialEq, Eq)]
pub struct PushIdentityAuthObservation {
    identity_id: IdentityId,
    device_id: DeviceId,
    signing_key: SigningPublicKey,
    head: IdentityLogHead,
}

impl PushIdentityAuthObservation {
    /// The model of the value.
    pub closed spec fn view(&self) -> PushObservation {
        PushObservation {
            identity_id: self.identity_id@,
            device_id: self.device_id@,
            signing_key: self.signing_key@,
            head: self.head@,
        }
    }
}

impl PushIdentityAuthObservation {
    /// The value with the given parts.
    pub(crate) fn new(
        identity_id: IdentityId,
        device_id: DeviceId,
        signing_key: SigningPublicKey,
        head: IdentityLogHead,
    ) -> (built: Self)
        ensures
            built@ == (PushObservation {
                identity_id: identity_id@,
                device_id: device_id@,
                signing_key: signing_key@,
                head: head@,
            }),
    {
        PushIdentityAuthObservation {
            identity_id,
            device_id,
            signing_key,
            head,
        }
    }
}

impl PushIdentityAuthObservation {
    /// The authenticated self-certifying identity.
    pub fn identity_id(&self) -> (part: IdentityId)
        ensures
            part@ == self@.identity_id,
    {
        self.identity_id
    }

    /// The authenticated active device.
    pub fn device_id(&self) -> (part: DeviceId)
        ensures
            part@ == self@.device_id,
    {
        self.device_id
    }

    /// The active device signing key from the verified projection.
    pub fn signing_key(&self) -> (part: SigningPublicKey)
        ensures
            part@ == self@.signing_key,
    {
        self.signing_key
    }

    /// The full current identity-log fence.
    pub fn head(&self) -> (part: IdentityLogHead)
        ensures
            part@ == self@.head,
    {
        self.head
    }
}

/// The audience is one to 256 graphic ASCII characters.
pub open spec fn is_audience(audience: Seq<char>) -> bool {
    &&& 1 <= encode_utf8(audience).len() <= 256
    &&& forall|i: int|
        0 <= i < encode_utf8(audience).len() ==> 0x21 <= #[trigger] encode_utf8(audience)[i] <= 0x7e
}

/// Checks an audience.
pub fn validate_audience(audience: &str) -> (checked: Result<(), IdentityPersistenceError>)
    ensures
        checked == if is_audience(audience@) {
            Ok::<(), IdentityPersistenceError>(())
        } else {
            Err(IdentityPersistenceError::InvalidCommand("device session audience"))
        },
{
    let raw = audience.as_bytes();
    if raw.len() < 1 || raw.len() > 256 {
        return Err(IdentityPersistenceError::InvalidCommand("device session audience"));
    }
    for i in 0..raw.len()
        invariant
            raw@ == encode_utf8(audience@),
            forall|j: int| 0 <= j < i ==> 0x21 <= #[trigger] raw@[j] <= 0x7e,
    {
        if raw[i] < 0x21 || raw[i] > 0x7e {
            return Err(IdentityPersistenceError::InvalidCommand("device session audience"));
        }
    }
    Ok(())
}

/// The fields of the transcript that a device signs.
pub open spec fn proof_fields(
    identity_id: Seq<u8>,
    device_id: Seq<u8>,
    challenge_id: Seq<u8>,
    challenge_nonce: Seq<u8>,
    audience: Seq<char>,
    session_id: Seq<u8>,
    session_secret_hash: Seq<u8>,
    session_expires_at: i64,
) -> Seq<Value> {
    seq![
        Value::Unsigned(1),
        Value::Text(text::hex(identity_id)),
        Value::Text(text::hyphenated(device_id)),
        Value::Text(text::hyphenated(challenge_id)),
        Value::Bytes(challenge_nonce),
        Value::Text(audience),
        Value::Text(text::hyphenated(session_id)),
        Value::Bytes(session_secret_hash),
        number::millis_model(session_expires_at),
    ]
}

/// The bytes that a device signs for a transcript.
pub open spec fn proof_signed_bytes(transcript: Seq<u8>) -> Seq<u8> {
    encode_utf8(DEVICE_SESSION_SIGNATURE_DOMAIN@) + digest::hash_in_domain(
        DEVICE_SESSION_PROOF_HASH_DOMAIN@,
        transcript,
    )
}

/// Encodes the canonical device-proof transcript before hashing and signing.
///
/// The transcript binds every replay-sensitive input, including the server
/// nonce, fixed audience, client session ID and secret digest, and precommitted
/// session expiry.
pub fn device_session_proof_canonical_bytes(
    identity_id: IdentityId,
    device_id: DeviceId,
    challenge_id: DeviceSessionChallengeId,
    challenge_nonce: &[u8; 32],
    audience: &str,
    session_id: DeviceSessionId,
    session_secret_hash: Sha256Digest,
    session_expires_at: UtcMillis,
) -> (transcript: Result<Vec<u8>, IdentityPersistenceError>)
    ensures
        match transcript {
            Ok(transcript) => {
                &&& is_audience(audience@)
                &&& transcript@ == cbor::encoding(
                    record::record(
                        proof_fields(
                            identity_id@,
                            device_id@,
                            challenge_id@,
                            challenge_nonce@,
                            audience@,
                            session_id@,
                            session_secret_hash@,
                            session_expires_at@,
                        ),
                    ),
                )
            },
            Err(error) => {
                &&& !is_audience(audience@)
                &&& error == IdentityPersistenceError::InvalidCommand("device session audience")
            },
        },
{
    if let Err(error) = validate_audience(audience) {
        return Err(error);
    }
    let fields: Vec<CanonicalValue> = vec![
        CanonicalValue::Unsigned(1),
        CanonicalValue::Text(identity_id.to_text()),
        CanonicalValue::Text(device_id.to_text()),
        CanonicalValue::Text(challenge_id.to_text()),
        CanonicalValue::Bytes(to_vec(challenge_nonce)),
        CanonicalValue::Text(audience.to_owned()),
        CanonicalValue::Text(session_id.to_text()),
        session_secret_hash.to_canonical_value(),
        session_expires_at.to_canonical_value(),
    ];
    device_id.checked();
    challenge_id.checked();
    session_id.checked();
    proof {
        let models = proof_fields(
            identity_id@,
            device_id@,
            challenge_id@,
            challenge_nonce@,
            audience@,
            session_id@,
            session_secret_hash@,
            session_expires_at@,
        );
        identity_id.lemma_len();
        session_secret_hash.lemma_len();
        record::lemma_hex_canonical(identity_id@);
        record::lemma_uuid_canonical(device_id@);
        record::lemma_uuid_canonical(challenge_id@);
        record::lemma_uuid_canonical(session_id@);
        record::lemma_record_canonical(models, 31);
        assert(value::items_view(fields@) =~= models);
    }
    Ok(canonical_bytes(&build_record(fields)))
}

/// The exact bytes that an active device signing key must authenticate.
///
/// The canonical transcript is hashed under the proof domain, then prefixed
/// with the distinct signature domain before strict Ed25519 verification.
pub fn device_session_proof_input(
    identity_id: IdentityId,
    device_id: DeviceId,
    challenge_id: DeviceSessionChallengeId,
    challenge_nonce: &[u8; 32],
    audience: &str,
    session_id: DeviceSessionId,
    session_secret_hash: Sha256Digest,
    session_expires_at: UtcMillis,
) -> (input: Result<Vec<u8>, IdentityPersistenceError>)
    ensures
        match input {
            Ok(input) => {
                &&& is_audience(audience@)
                &&& input@ == proof_signed_bytes(
                    cbor::encoding(
                        record::record(
                            proof_fields(
                                identity_id@,
                                device_id@,
                                challenge_id@,
                                challenge_nonce@,
                                audience@,
                                session_id@,
                                session_secret_hash@,
                                session_expires_at@,
                            ),
                        ),
                    ),
                )
            },
            Err(error) => {
                &&& !is_audience(audience@)
                &&& error == IdentityPersistenceError::InvalidCommand("device session audience")
            },
        },
{
    let canonical = match device_session_proof_canonical_bytes(
        identity_id,
        device_id,
        challenge_id,
        challenge_nonce,
        audience,
        session_id,
        session_secret_hash,
        session_expires_at,
    ) {
        Ok(canonical) => canonical,
        Err(error) => {
            return Err(error);
        },
    };
    let digest = Sha256Digest::hash_domain(DEVICE_SESSION_PROOF_HASH_DOMAIN, canonical.as_slice());
    let mut input: Vec<u8> = to_vec(DEVICE_SESSION_SIGNATURE_DOMAIN.as_bytes());
    append_bytes(&mut input, digest.as_bytes());
    Ok(input)
}

} // verus!
