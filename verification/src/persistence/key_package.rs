//! Key packages: their commands, proofs and receipts.

use vstd::prelude::*;
use vstd::utf8::*;
use crate::outside;
use crate::persistence::error::IdentityPersistenceError;
use crate::wire::bytes;
use crate::wire::bytes::{append_bytes, bytes_equal, is_all_zero, to_vec};
use crate::wire::cbor;
use crate::wire::codec::canonical_bytes;
use crate::wire::digest;
use crate::wire::digest::Sha256Digest;
use crate::wire::id::{DeviceId, IdentityId, KeyPackageId};
use crate::wire::key::{Ed25519Signature, SigningPublicKey};
use crate::wire::number;
use crate::wire::number::{SafeUint, UtcMillis};
use crate::wire::record;
use crate::wire::record::{build_record, CanonicalEncode};
use crate::wire::text;
use crate::wire::text::{encoded_len, text_equal};
use crate::wire::value;
use crate::wire::value::{CanonicalValue, Value};

verus! {

/// Maximum opaque MLS `KeyPackage` payload accepted by the directory.
pub const MAX_KEY_PACKAGE_BYTES: usize = 65_536;

/// Maximum signed `KeyPackage` publish envelope retained by the directory.
pub const MAX_KEY_PACKAGE_PUBLISH_BYTES: usize = 131_072;

/// Maximum claim body.
pub const MAX_KEY_PACKAGE_CLAIM_BYTES: usize = 16_384;

/// A publisher cannot create a package further in the future than this bound.
pub const KEY_PACKAGE_MAX_TTL_MILLIS: i64 = 2_592_000_000;

/// A claimed package remains replayable for this minimum response-loss window.
pub const KEY_PACKAGE_CLAIM_REPLAY_RETENTION_MILLIS: i64 = 900_000;

/// Domain separator for the opaque MLS bytes digest.
pub const KEY_PACKAGE_BYTES_HASH_DOMAIN: &'static str = "dirextalk.key-package-bytes.v1\0";

/// Domain separator for the publish binding canonical transcript digest.
pub const KEY_PACKAGE_PUBLISH_BINDING_HASH_DOMAIN: &'static str =
    "dirextalk.key-package-publish-binding.v1\0";

/// Domain separator prefixed to the detached device-signature input.
pub const KEY_PACKAGE_PUBLISH_SIGNATURE_DOMAIN: &'static str =
    "dirextalk.key-package-publish-signature.v1\0";

/// Domain separator for exact publish request replay identity.
pub const KEY_PACKAGE_PUBLISH_REQUEST_HASH_DOMAIN: &'static str =
    "dirextalk.key-package-publish-request.v1\0";

/// Domain separator for the immutable publish receipt.
pub const KEY_PACKAGE_PUBLISH_RECEIPT_HASH_DOMAIN: &'static str =
    "dirextalk.key-package-publish-receipt.v1\0";

/// Domain separator for exact claim request replay identity.
pub const KEY_PACKAGE_CLAIM_REQUEST_HASH_DOMAIN: &'static str =
    "dirextalk.key-package-claim-request.v1\0";

/// Domain separator for the exact retained claim response envelope.
pub const KEY_PACKAGE_CLAIM_RECEIPT_HASH_DOMAIN: &'static str =
    "dirextalk.key-package-claim-receipt.v1\0";

/// Request path authenticated by a remote device proof instead of a bearer.
pub const FEDERATED_KEY_PACKAGE_CLAIM_PATH: &'static str = "/v2/key-packages/claim";

/// Exact HTTP method bound into every federated claim proof.
pub const FEDERATED_KEY_PACKAGE_CLAIM_METHOD: &'static str = "POST";

/// Maximum lifetime accepted for one remote claim proof.
pub const FEDERATED_KEY_PACKAGE_CLAIM_PROOF_MAX_LIFETIME_MILLIS: i64 = 300_000;

/// Domain for the exact claim-body digest carried by a federated proof.
pub const FEDERATED_KEY_PACKAGE_CLAIM_BODY_HASH_DOMAIN: &'static str =
    "dirextalk.key-package-federated-claim-body.v2\0";

/// Domain for the canonical federated proof binding digest.
pub const FEDERATED_KEY_PACKAGE_CLAIM_BINDING_HASH_DOMAIN: &'static str =
    "dirextalk.key-package-federated-claim-binding.v2\0";

/// Domain prefixed to the remote device signature input.
pub const FEDERATED_KEY_PACKAGE_CLAIM_SIGNATURE_DOMAIN: &'static str =
    "dirextalk.key-package-federated-claim-signature.v2\0";

/// What the signature of a scoped package adds behind its scope.
pub const HISTORY_RECOVERY_PURPOSE: &'static str = "history_recovery";

/// The purpose of a package without a scope.
pub const GENERAL_PURPOSE: &'static str = "general";

/// The refusal of a malformed command.
pub open spec fn refused(label: &'static str) -> IdentityPersistenceError {
    IdentityPersistenceError::InvalidCommand(label)
}

/// The model of a recovery scope.
pub struct Scope {
    pub request_digest: Seq<u8>,
    pub scope_digest: Seq<u8>,
}

/// Immutable recovery scope preventing a `KeyPackage` from being claimed or
/// consumed outside one approved history-recovery request and group scope.
#[derive(Clone, Copy, Debug, PartialEq, Eq)]
pub struct HistoryRecoveryKeyPackageScope {
    request_digest: Sha256Digest,
    scope_digest: Sha256Digest,
}

impl HistoryRecoveryKeyPackageScope {
    /// The model of the value.
    pub closed spec fn view(&self) -> Scope {
        Scope {
            request_digest: self.request_digest@,
            scope_digest: self.scope_digest@,
        }
    }
}

/// The optional scope.
pub open spec fn scope_view(scope: Option<HistoryRecoveryKeyPackageScope>) -> Option<Scope> {
    match scope {
        Some(scope) => Some(scope@),
        None => None,
    }
}

impl HistoryRecoveryKeyPackageScope {
    /// Builds one non-zero recovery scope.
    pub fn new(request_digest: Sha256Digest, scope_digest: Sha256Digest) -> (scope: Result<
        Self,
        IdentityPersistenceError,
    >)
        ensures
            ({
                let zero = bytes::all_zero(request_digest@) || bytes::all_zero(scope_digest@);
                match scope {
                    Ok(scope) => {
                        &&& !zero
                        &&& scope@ == (Scope {
                            request_digest: request_digest@,
                            scope_digest: scope_digest@,
                        })
                    },
                    Err(error) => zero && error == refused("history recovery key package scope"),
                }
            }),
    {
        if is_all_zero(request_digest.as_bytes()) || is_all_zero(scope_digest.as_bytes()) {
            return Err(
                IdentityPersistenceError::InvalidCommand("history recovery key package scope"),
            );
        }
        Ok(HistoryRecoveryKeyPackageScope { request_digest, scope_digest })
    }
}

impl HistoryRecoveryKeyPackageScope {
    /// The exact candidate request digest.
    pub fn request_digest(&self) -> (part: Sha256Digest)
        ensures
            part@ == self@.request_digest,
    {
        self.request_digest
    }

    /// The exact group/conversation recovery scope digest.
    pub fn scope_digest(&self) -> (part: Sha256Digest)
        ensures
            part@ == self@.scope_digest,
    {
        self.scope_digest
    }
}

/// The model of a publish request.
pub struct PublishCommand {
    pub idempotency_key_hash: Seq<u8>,
    pub identity_id: Seq<u8>,
    pub device_id: Seq<u8>,
    pub package_id: Seq<u8>,
    pub published_head_sequence: u64,
    pub published_head_hash: Seq<u8>,
    pub expires_at: i64,
    pub opaque_key_package: Seq<u8>,
    pub detached_signature: Seq<u8>,
    pub exact_publish_bytes: Seq<u8>,
    pub history_recovery_scope: Option<Scope>,
}

/// One exact, device-signed publish request. MLS bytes stay opaque: the service
/// authenticates only this outer device binding and never deserializes the
/// `KeyPackage` itself. It has no Debug, which would show those bytes.
#[derive(PartialEq, Eq)]
pub struct KeyPackagePublishCommand {
    idempotency_key_hash: Sha256Digest,
    identity_id: IdentityId,
    device_id: DeviceId,
    package_id: KeyPackageId,
    published_head_sequence: SafeUint,
    published_head_hash: Sha256Digest,
    expires_at: UtcMillis,
    opaque_key_package: Vec<u8>,
    detached_signature: Ed25519Signature,
    exact_publish_bytes: Vec<u8>,
    history_recovery_scope: Option<HistoryRecoveryKeyPackageScope>,
}

impl KeyPackagePublishCommand {
    /// The model of the value.
    pub closed spec fn view(&self) -> PublishCommand {
        PublishCommand {
            idempotency_key_hash: self.idempotency_key_hash@,
            identity_id: self.identity_id@,
            device_id: self.device_id@,
            package_id: self.package_id@,
            published_head_sequence: self.published_head_sequence@,
            published_head_hash: self.published_head_hash@,
            expires_at: self.expires_at@,
            opaque_key_package: self.opaque_key_package@,
            detached_signature: self.detached_signature@,
            exact_publish_bytes: self.exact_publish_bytes@,
            history_recovery_scope: scope_view(self.history_recovery_scope),
        }
    }
}

/// The version of a record with an optional recovery scope.
pub open spec fn scoped_version(scope: Option<Scope>) -> u64 {
    if scope is Some {
        2
    } else {
        1
    }
}

/// The last fields of a record with an optional recovery scope.
pub open spec fn scope_fields(scope: Option<Scope>) -> Seq<Value> {
    match scope {
        Some(scope) => seq![
            Value::Bytes(scope.request_digest),
            Value::Bytes(scope.scope_digest),
            Value::Unsigned(1),
        ],
        None => Seq::empty(),
    }
}

/// The fields of a publish request.
pub open spec fn publish_fields(command: PublishCommand) -> Seq<Value> {
    seq![
        Value::Unsigned(scoped_version(command.history_recovery_scope)),
        Value::Text(text::hex(command.identity_id)),
        Value::Text(text::hyphenated(command.device_id)),
        Value::Text(text::hyphenated(command.package_id)),
        Value::Unsigned(command.published_head_sequence),
        Value::Bytes(command.published_head_hash),
        number::millis_model(command.expires_at),
        Value::Bytes(command.opaque_key_package),
        Value::Bytes(command.detached_signature),
    ] + scope_fields(command.history_recovery_scope)
}

/// The byte form of a publish request.
pub open spec fn publish_encoding(command: PublishCommand) -> Seq<u8> {
    cbor::encoding(record::record(publish_fields(command)))
}

/// The request is within its bounds and holds its own byte form.
pub open spec fn is_publish_command(command: PublishCommand) -> bool {
    &&& command.published_head_sequence != 0
    &&& 0 < command.opaque_key_package.len() <= MAX_KEY_PACKAGE_BYTES
    &&& 0 < command.exact_publish_bytes.len() <= MAX_KEY_PACKAGE_PUBLISH_BYTES
    &&& command.exact_publish_bytes == publish_encoding(command)
}

/// Why fields make no publish request.
pub open spec fn publish_fault(command: PublishCommand) -> Option<IdentityPersistenceError> {
    if command.published_head_sequence == 0 {
        Some(refused("key package published head sequence"))
    } else if !(0 < command.opaque_key_package.len() <= MAX_KEY_PACKAGE_BYTES) {
        Some(refused("key package byte length"))
    } else if !(0 < command.exact_publish_bytes.len() <= MAX_KEY_PACKAGE_PUBLISH_BYTES) {
        Some(refused("key package publish byte length"))
    } else if command.exact_publish_bytes != publish_encoding(command) {
        Some(refused("key package publish canonical bytes"))
    } else {
        None
    }
}

/// Why fields make no scoped publish request.
pub open spec fn scoped_publish_fault(command: PublishCommand) -> Option<
    IdentityPersistenceError,
> {
    if command.published_head_sequence == 0 || !(0 < command.opaque_key_package.len()
        <= MAX_KEY_PACKAGE_BYTES) || !(0 < command.exact_publish_bytes.len()
        <= MAX_KEY_PACKAGE_PUBLISH_BYTES) {
        Some(refused("history recovery key package publish shape"))
    } else if command.exact_publish_bytes != publish_encoding(command) {
        Some(refused("key package publish canonical bytes"))
    } else {
        None
    }
}

/// The digest of opaque MLS bytes.
pub open spec fn package_digest_of(opaque_key_package: Seq<u8>) -> Seq<u8> {
    digest::hash_in_domain(KEY_PACKAGE_BYTES_HASH_DOMAIN@, opaque_key_package)
}

/// The digest that identifies a publish request.
pub open spec fn publish_request_digest(command: PublishCommand) -> Seq<u8> {
    digest::hash_in_domain(KEY_PACKAGE_PUBLISH_REQUEST_HASH_DOMAIN@, command.exact_publish_bytes)
}

/// The fields of the binding that an active device signs.
pub open spec fn publish_binding_fields(
    identity_id: Seq<u8>,
    device_id: Seq<u8>,
    package_id: Seq<u8>,
    published_head_sequence: u64,
    published_head_hash: Seq<u8>,
    expires_at: i64,
    package_digest: Seq<u8>,
) -> Seq<Value> {
    seq![
        Value::Unsigned(1),
        Value::Text(text::hex(identity_id)),
        Value::Text(text::hyphenated(device_id)),
        Value::Text(text::hyphenated(package_id)),
        Value::Unsigned(published_head_sequence),
        Value::Bytes(published_head_hash),
        number::millis_model(expires_at),
        Value::Bytes(package_digest),
    ]
}

/// The byte form of the binding that an active device signs.
pub open spec fn publish_binding(
    identity_id: Seq<u8>,
    device_id: Seq<u8>,
    package_id: Seq<u8>,
    published_head_sequence: u64,
    published_head_hash: Seq<u8>,
    expires_at: i64,
    package_digest: Seq<u8>,
) -> Seq<u8> {
    cbor::encoding(
        record::record(
            publish_binding_fields(
                identity_id,
                device_id,
                package_id,
                published_head_sequence,
                published_head_hash,
                expires_at,
                package_digest,
            ),
        ),
    )
}

/// The bytes that an active device signs for a binding.
pub open spec fn binding_signed_bytes(binding: Seq<u8>) -> Seq<u8> {
    encode_utf8(KEY_PACKAGE_PUBLISH_SIGNATURE_DOMAIN@) + digest::hash_in_domain(
        KEY_PACKAGE_PUBLISH_BINDING_HASH_DOMAIN@,
        binding,
    )
}

/// What a scope adds to the bytes that an active device signs.
pub open spec fn scope_signed_bytes(scope: Option<Scope>) -> Seq<u8> {
    match scope {
        Some(scope) => scope.request_digest + scope.scope_digest + encode_utf8(
            HISTORY_RECOVERY_PURPOSE@,
        ),
        None => Seq::empty(),
    }
}

/// The bytes that an active device signs for a publish request.
pub open spec fn publish_signed_bytes(command: PublishCommand) -> Seq<u8> {
    binding_signed_bytes(
        publish_binding(
            command.identity_id,
            command.device_id,
            command.package_id,
            command.published_head_sequence,
            command.published_head_hash,
            command.expires_at,
            package_digest_of(command.opaque_key_package),
        ),
    ) + scope_signed_bytes(command.history_recovery_scope)
}

/// The fields of a publish request are canonical.
pub proof fn lemma_publish_canonical(command: PublishCommand)
    requires
        command.identity_id.len() == 32,
        command.device_id.len() == 16,
        command.package_id.len() == 16,
        command.published_head_hash.len() == 32,
        command.opaque_key_package.len() <= u64::MAX,
        command.detached_signature.len() == 64,
        command.history_recovery_scope is Some ==> {
            &&& command.history_recovery_scope->0.request_digest.len() == 32
            &&& command.history_recovery_scope->0.scope_digest.len() == 32
        },
    ensures
        cbor::canonical(record::record(publish_fields(command))),
{
    record::lemma_hex_canonical(command.identity_id);
    record::lemma_uuid_canonical(command.device_id);
    record::lemma_uuid_canonical(command.package_id);
    record::lemma_record_canonical(publish_fields(command), 31);
}

impl CanonicalEncode for KeyPackagePublishCommand {
    open spec fn model(&self) -> Value {
        record::record(publish_fields(self@))
    }

    fn to_canonical_value(&self) -> (value: CanonicalValue) {
        let mut fields: Vec<CanonicalValue> = vec![
            CanonicalValue::Unsigned(
                if self.history_recovery_scope.is_some() {
                    2
                } else {
                    1
                },
            ),
            CanonicalValue::Text(self.identity_id.to_text()),
            CanonicalValue::Text(self.device_id.to_text()),
            CanonicalValue::Text(self.package_id.to_text()),
            self.published_head_sequence.to_canonical_value(),
            self.published_head_hash.to_canonical_value(),
            self.expires_at.to_canonical_value(),
            CanonicalValue::Bytes(to_vec(self.opaque_key_package.as_slice())),
            self.detached_signature.to_canonical_value(),
        ];
        if let Some(scope) = self.history_recovery_scope {
            fields.push(scope.request_digest.to_canonical_value());
            fields.push(scope.scope_digest.to_canonical_value());
            fields.push(CanonicalValue::Unsigned(1));
        }
        assert(value::items_view(fields@) =~= publish_fields(self@));
        build_record(fields)
    }
}

impl KeyPackagePublishCommand {
    /// The request is within its bounds and holds its own byte form.
    #[verifier::type_invariant]
    spec fn exact(self) -> bool {
        is_publish_command(self@)
    }

    /// States the bounds of a request.
    pub fn checked(&self)
        ensures
            is_publish_command(self@),
    {
        proof {
            use_type_invariant(self);
        }
    }

    /// Checks that fields within their bounds hold their own byte form.
    fn from_parts(
        idempotency_key_hash: Sha256Digest,
        identity_id: IdentityId,
        device_id: DeviceId,
        package_id: KeyPackageId,
        published_head_sequence: SafeUint,
        published_head_hash: Sha256Digest,
        expires_at: UtcMillis,
        opaque_key_package: Vec<u8>,
        detached_signature: Ed25519Signature,
        exact_publish_bytes: Vec<u8>,
        history_recovery_scope: Option<HistoryRecoveryKeyPackageScope>,
    ) -> (command: Result<Self, IdentityPersistenceError>)
        requires
            published_head_sequence@ != 0,
            0 < opaque_key_package@.len() <= MAX_KEY_PACKAGE_BYTES,
            0 < exact_publish_bytes@.len() <= MAX_KEY_PACKAGE_PUBLISH_BYTES,
        ensures
            ({
                let parts = PublishCommand {
                    idempotency_key_hash: idempotency_key_hash@,
                    identity_id: identity_id@,
                    device_id: device_id@,
                    package_id: package_id@,
                    published_head_sequence: published_head_sequence@,
                    published_head_hash: published_head_hash@,
                    expires_at: expires_at@,
                    opaque_key_package: opaque_key_package@,
                    detached_signature: detached_signature@,
                    exact_publish_bytes: exact_publish_bytes@,
                    history_recovery_scope: scope_view(history_recovery_scope),
                };
                match command {
                    Ok(command) => {
                        &&& command@ == parts
                        &&& parts.exact_publish_bytes == publish_encoding(parts)
                    },
                    Err(error) => {
                        &&& parts.exact_publish_bytes != publish_encoding(parts)
                        &&& error == refused("key package publish canonical bytes")
                    },
                }
            }),
    {
        let mut fields: Vec<CanonicalValue> = vec![
            CanonicalValue::Unsigned(
                if history_recovery_scope.is_some() {
                    2
                } else {
                    1
                },
            ),
            CanonicalValue::Text(identity_id.to_text()),
            CanonicalValue::Text(device_id.to_text()),
            CanonicalValue::Text(package_id.to_text()),
            published_head_sequence.to_canonical_value(),
            published_head_hash.to_canonical_value(),
            expires_at.to_canonical_value(),
            CanonicalValue::Bytes(to_vec(opaque_key_package.as_slice())),
            detached_signature.to_canonical_value(),
        ];
        if let Some(scope) = history_recovery_scope {
            fields.push(scope.request_digest.to_canonical_value());
            fields.push(scope.scope_digest.to_canonical_value());
            fields.push(CanonicalValue::Unsigned(1));
        }
        device_id.checked();
        package_id.checked();
        let ghost parts = PublishCommand {
            idempotency_key_hash: idempotency_key_hash@,
            identity_id: identity_id@,
            device_id: device_id@,
            package_id: package_id@,
            published_head_sequence: published_head_sequence@,
            published_head_hash: published_head_hash@,
            expires_at: expires_at@,
            opaque_key_package: opaque_key_package@,
            detached_signature: detached_signature@,
            exact_publish_bytes: exact_publish_bytes@,
            history_recovery_scope: scope_view(history_recovery_scope),
        };
        proof {
            identity_id.lemma_len();
            published_head_hash.lemma_len();
            detached_signature.lemma_len();
            if let Some(scope) = history_recovery_scope {
                scope.request_digest.lemma_len();
                scope.scope_digest.lemma_len();
            }
            lemma_publish_canonical(parts);
            assert(value::items_view(fields@) =~= publish_fields(parts));
        }
        let expected = canonical_bytes(&build_record(fields));
        if !bytes_equal(expected.as_slice(), exact_publish_bytes.as_slice()) {
            return Err(
                IdentityPersistenceError::InvalidCommand("key package publish canonical bytes"),
            );
        }
        Ok(
            KeyPackagePublishCommand {
                idempotency_key_hash,
                identity_id,
                device_id,
                package_id,
                published_head_sequence,
                published_head_hash,
                expires_at,
                opaque_key_package,
                detached_signature,
                exact_publish_bytes,
                history_recovery_scope,
            },
        )
    }

    /// Builds a publish command from already decoded, exact deterministic-CBOR
    /// request bytes. A body that does not exactly re-encode to the supplied
    /// public fields is rejected.
    pub fn new(
        idempotency_key_hash: Sha256Digest,
        identity_id: IdentityId,
        device_id: DeviceId,
        package_id: KeyPackageId,
        published_head_sequence: SafeUint,
        published_head_hash: Sha256Digest,
        expires_at: UtcMillis,
        opaque_key_package: Vec<u8>,
        detached_signature: Ed25519Signature,
        exact_publish_bytes: Vec<u8>,
    ) -> (command: Result<Self, IdentityPersistenceError>)
        ensures
            ({
                let parts = PublishCommand {
                    idempotency_key_hash: idempotency_key_hash@,
                    identity_id: identity_id@,
                    device_id: device_id@,
                    package_id: package_id@,
                    published_head_sequence: published_head_sequence@,
                    published_head_hash: published_head_hash@,
                    expires_at: expires_at@,
                    opaque_key_package: opaque_key_package@,
                    detached_signature: detached_signature@,
                    exact_publish_bytes: exact_publish_bytes@,
                    history_recovery_scope: None,
                };
                match command {
                    Ok(command) => {
                        &&& publish_fault(parts) is None
                        &&& command@ == parts
                    },
                    Err(error) => publish_fault(parts) == Some(error),
                }
            }),
    {
        if published_head_sequence.get() == 0 {
            return Err(
                IdentityPersistenceError::InvalidCommand("key package published head sequence"),
            );
        }
        if opaque_key_package.len() == 0 || opaque_key_package.len() > MAX_KEY_PACKAGE_BYTES {
            return Err(IdentityPersistenceError::InvalidCommand("key package byte length"));
        }
        if exact_publish_bytes.len() == 0 || exact_publish_bytes.len()
            > MAX_KEY_PACKAGE_PUBLISH_BYTES {
            return Err(
                IdentityPersistenceError::InvalidCommand("key package publish byte length"),
            );
        }
        KeyPackagePublishCommand::from_parts(
            idempotency_key_hash,
            identity_id,
            device_id,
            package_id,
            published_head_sequence,
            published_head_hash,
            expires_at,
            opaque_key_package,
            detached_signature,
            exact_publish_bytes,
            None,
        )
    }

    /// Builds an exact package restricted to one history-recovery scope.
    pub fn new_history_recovery_v2(
        idempotency_key_hash: Sha256Digest,
        identity_id: IdentityId,
        device_id: DeviceId,
        package_id: KeyPackageId,
        published_head_sequence: SafeUint,
        published_head_hash: Sha256Digest,
        expires_at: UtcMillis,
        opaque_key_package: Vec<u8>,
        scope: HistoryRecoveryKeyPackageScope,
        detached_signature: Ed25519Signature,
        exact_publish_bytes: Vec<u8>,
    ) -> (command: Result<Self, IdentityPersistenceError>)
        ensures
            ({
                let parts = PublishCommand {
                    idempotency_key_hash: idempotency_key_hash@,
                    identity_id: identity_id@,
                    device_id: device_id@,
                    package_id: package_id@,
                    published_head_sequence: published_head_sequence@,
                    published_head_hash: published_head_hash@,
                    expires_at: expires_at@,
                    opaque_key_package: opaque_key_package@,
                    detached_signature: detached_signature@,
                    exact_publish_bytes: exact_publish_bytes@,
                    history_recovery_scope: Some(scope@),
                };
                match command {
                    Ok(command) => {
                        &&& scoped_publish_fault(parts) is None
                        &&& command@ == parts
                    },
                    Err(error) => scoped_publish_fault(parts) == Some(error),
                }
            }),
    {
        if published_head_sequence.get() == 0 || opaque_key_package.len() == 0
            || opaque_key_package.len() > MAX_KEY_PACKAGE_BYTES || exact_publish_bytes.len() == 0
            || exact_publish_bytes.len() > MAX_KEY_PACKAGE_PUBLISH_BYTES {
            return Err(
                IdentityPersistenceError::InvalidCommand(
                    "history recovery key package publish shape",
                ),
            );
        }
        KeyPackagePublishCommand::from_parts(
            idempotency_key_hash,
            identity_id,
            device_id,
            package_id,
            published_head_sequence,
            published_head_hash,
            expires_at,
            opaque_key_package,
            detached_signature,
            exact_publish_bytes,
            Some(scope),
        )
    }

    /// The digest of the opaque MLS bytes.
    pub fn package_digest(&self) -> (digest: Sha256Digest)
        ensures
            digest@ == package_digest_of(self@.opaque_key_package),
    {
        Sha256Digest::hash_domain(KEY_PACKAGE_BYTES_HASH_DOMAIN, self.opaque_key_package.as_slice())
    }

    /// The digest that identifies the request.
    pub fn request_digest(&self) -> (digest: Sha256Digest)
        ensures
            digest@ == publish_request_digest(self@),
    {
        Sha256Digest::hash_domain(
            KEY_PACKAGE_PUBLISH_REQUEST_HASH_DOMAIN,
            self.exact_publish_bytes.as_slice(),
        )
    }

    /// The exact bytes that the active device signs.
    pub fn signature_input(&self) -> (input: Vec<u8>)
        ensures
            input@ == publish_signed_bytes(self@),
    {
        let mut input = binding_input(
            self.identity_id,
            self.device_id,
            self.package_id,
            self.published_head_sequence,
            self.published_head_hash,
            self.expires_at,
            self.package_digest(),
        );
        if let Some(scope) = self.history_recovery_scope {
            append_bytes(&mut input, scope.request_digest.as_bytes());
            append_bytes(&mut input, scope.scope_digest.as_bytes());
            append_bytes(&mut input, HISTORY_RECOVERY_PURPOSE.as_bytes());
        }
        assert(input@ =~= publish_signed_bytes(self@));
        input
    }
}

impl KeyPackagePublishCommand {
    /// The stable HTTP idempotency-key digest.
    pub fn idempotency_key_hash(&self) -> (part: Sha256Digest)
        ensures
            part@ == self@.idempotency_key_hash,
    {
        self.idempotency_key_hash
    }

    /// The authenticated publisher identity declared by the envelope.
    pub fn identity_id(&self) -> (part: IdentityId)
        ensures
            part@ == self@.identity_id,
    {
        self.identity_id
    }

    /// The publisher device declared by the envelope.
    pub fn device_id(&self) -> (part: DeviceId)
        ensures
            part@ == self@.device_id,
    {
        self.device_id
    }

    /// The caller-chosen public package identifier.
    pub fn package_id(&self) -> (part: KeyPackageId)
        ensures
            part@ == self@.package_id,
    {
        self.package_id
    }

    /// The identity-log sequence which the signature binds.
    pub fn published_head_sequence(&self) -> (part: SafeUint)
        ensures
            part@ == self@.published_head_sequence,
    {
        self.published_head_sequence
    }

    /// The identity-log head hash which the signature binds.
    pub fn published_head_hash(&self) -> (part: Sha256Digest)
        ensures
            part@ == self@.published_head_hash,
    {
        self.published_head_hash
    }

    /// The package expiry supplied by the signed envelope.
    pub fn expires_at(&self) -> (part: UtcMillis)
        ensures
            part@ == self@.expires_at,
    {
        self.expires_at
    }

    /// The opaque MLS `KeyPackage` bytes, which are never parsed.
    pub fn opaque_key_package(&self) -> (bytes: &[u8])
        ensures
            bytes@ == self@.opaque_key_package,
    {
        self.opaque_key_package.as_slice()
    }

    /// The detached active-device signature.
    pub fn detached_signature(&self) -> (part: Ed25519Signature)
        ensures
            part@ == self@.detached_signature,
    {
        self.detached_signature
    }

    /// The exact deterministic-CBOR envelope retained for a later one-time claim
    /// response.
    pub fn exact_publish_bytes(&self) -> (bytes: &[u8])
        ensures
            bytes@ == self@.exact_publish_bytes,
    {
        self.exact_publish_bytes.as_slice()
    }

    /// The optional recovery scope.
    pub fn history_recovery_scope(&self) -> (part: Option<HistoryRecoveryKeyPackageScope>)
        ensures
            scope_view(part) == self@.history_recovery_scope,
    {
        self.history_recovery_scope
    }
}

/// Builds the canonical unsigned binding that an active device signs.
fn binding_bytes(
    identity_id: IdentityId,
    device_id: DeviceId,
    package_id: KeyPackageId,
    published_head_sequence: SafeUint,
    published_head_hash: Sha256Digest,
    expires_at: UtcMillis,
    package_digest: Sha256Digest,
) -> (binding: Vec<u8>)
    ensures
        binding@ == publish_binding(
            identity_id@,
            device_id@,
            package_id@,
            published_head_sequence@,
            published_head_hash@,
            expires_at@,
            package_digest@,
        ),
{
    let fields: Vec<CanonicalValue> = vec![
        CanonicalValue::Unsigned(1),
        CanonicalValue::Text(identity_id.to_text()),
        CanonicalValue::Text(device_id.to_text()),
        CanonicalValue::Text(package_id.to_text()),
        published_head_sequence.to_canonical_value(),
        published_head_hash.to_canonical_value(),
        expires_at.to_canonical_value(),
        package_digest.to_canonical_value(),
    ];
    device_id.checked();
    package_id.checked();
    proof {
        let models = publish_binding_fields(
            identity_id@,
            device_id@,
            package_id@,
            published_head_sequence@,
            published_head_hash@,
            expires_at@,
            package_digest@,
        );
        identity_id.lemma_len();
        published_head_hash.lemma_len();
        package_digest.lemma_len();
        record::lemma_hex_canonical(identity_id@);
        record::lemma_uuid_canonical(device_id@);
        record::lemma_uuid_canonical(package_id@);
        record::lemma_record_canonical(models, 31);
        assert(value::items_view(fields@) =~= models);
    }
    canonical_bytes(&build_record(fields))
}

/// Hashes the binding that an active device signs and prefixes the domain.
fn binding_input(
    identity_id: IdentityId,
    device_id: DeviceId,
    package_id: KeyPackageId,
    published_head_sequence: SafeUint,
    published_head_hash: Sha256Digest,
    expires_at: UtcMillis,
    package_digest: Sha256Digest,
) -> (input: Vec<u8>)
    ensures
        input@ == binding_signed_bytes(
            publish_binding(
                identity_id@,
                device_id@,
                package_id@,
                published_head_sequence@,
                published_head_hash@,
                expires_at@,
                package_digest@,
            ),
        ),
{
    let binding = binding_bytes(
        identity_id,
        device_id,
        package_id,
        published_head_sequence,
        published_head_hash,
        expires_at,
        package_digest,
    );
    let digest = Sha256Digest::hash_domain(
        KEY_PACKAGE_PUBLISH_BINDING_HASH_DOMAIN,
        binding.as_slice(),
    );
    let mut input: Vec<u8> = to_vec(KEY_PACKAGE_PUBLISH_SIGNATURE_DOMAIN.as_bytes());
    append_bytes(&mut input, digest.as_bytes());
    input
}

/// Builds the canonical unsigned binding that an active device signs before a
/// `KeyPackage` is uploaded. The MLS signer key remains inside the opaque MLS
/// package; the outer signature binds the currently active device.
pub fn key_package_publish_binding_canonical_bytes(
    identity_id: IdentityId,
    device_id: DeviceId,
    package_id: KeyPackageId,
    published_head_sequence: SafeUint,
    published_head_hash: Sha256Digest,
    expires_at: UtcMillis,
    package_digest: Sha256Digest,
) -> (binding: Result<Vec<u8>, IdentityPersistenceError>)
    ensures
        binding is Ok,
        binding->Ok_0@ == publish_binding(
            identity_id@,
            device_id@,
            package_id@,
            published_head_sequence@,
            published_head_hash@,
            expires_at@,
            package_digest@,
        ),
{
    Ok(
        binding_bytes(
            identity_id,
            device_id,
            package_id,
            published_head_sequence,
            published_head_hash,
            expires_at,
            package_digest,
        ),
    )
}

/// The exact detached-signature input for a `KeyPackage` publish envelope. It
/// hashes the canonical binding and prefixes a distinct domain, so that this
/// signature cannot be replayed as an MLS or identity-log signature.
pub fn key_package_publish_signature_input(
    identity_id: IdentityId,
    device_id: DeviceId,
    package_id: KeyPackageId,
    published_head_sequence: SafeUint,
    published_head_hash: Sha256Digest,
    expires_at: UtcMillis,
    opaque_key_package: &[u8],
) -> (input: Result<Vec<u8>, IdentityPersistenceError>)
    ensures
        ({
            let within = 0 < opaque_key_package@.len() <= MAX_KEY_PACKAGE_BYTES;
            match input {
                Ok(input) => {
                    &&& within
                    &&& input@ == binding_signed_bytes(
                        publish_binding(
                            identity_id@,
                            device_id@,
                            package_id@,
                            published_head_sequence@,
                            published_head_hash@,
                            expires_at@,
                            package_digest_of(opaque_key_package@),
                        ),
                    )
                },
                Err(error) => !within && error == refused("key package byte length"),
            }
        }),
{
    if opaque_key_package.len() == 0 || opaque_key_package.len() > MAX_KEY_PACKAGE_BYTES {
        return Err(IdentityPersistenceError::InvalidCommand("key package byte length"));
    }
    let package_digest = Sha256Digest::hash_domain(
        KEY_PACKAGE_BYTES_HASH_DOMAIN,
        opaque_key_package,
    );
    Ok(
        binding_input(
            identity_id,
            device_id,
            package_id,
            published_head_sequence,
            published_head_hash,
            expires_at,
            package_digest,
        ),
    )
}

/// The model of a claim request.
pub struct ClaimCommand {
    pub idempotency_key_hash: Seq<u8>,
    pub target_identity_id: Seq<u8>,
    pub target_device_id: Seq<u8>,
    pub exact_claim_bytes: Seq<u8>,
    pub history_recovery_scope: Option<Scope>,
}

/// One exact request to atomically receive one package from a target active
/// device. It intentionally does not name a package ID, preventing a caller from
/// probing directory contents.
#[derive(Debug, PartialEq, Eq)]
pub struct KeyPackageClaimCommand {
    idempotency_key_hash: Sha256Digest,
    target_identity_id: IdentityId,
    target_device_id: DeviceId,
    exact_claim_bytes: Vec<u8>,
    history_recovery_scope: Option<HistoryRecoveryKeyPackageScope>,
}

impl KeyPackageClaimCommand {
    /// The model of the value.
    pub closed spec fn view(&self) -> ClaimCommand {
        ClaimCommand {
            idempotency_key_hash: self.idempotency_key_hash@,
            target_identity_id: self.target_identity_id@,
            target_device_id: self.target_device_id@,
            exact_claim_bytes: self.exact_claim_bytes@,
            history_recovery_scope: scope_view(self.history_recovery_scope),
        }
    }
}

/// The fields of a claim request.
pub open spec fn claim_fields(command: ClaimCommand) -> Seq<Value> {
    seq![
        Value::Unsigned(scoped_version(command.history_recovery_scope)),
        Value::Text(text::hex(command.target_identity_id)),
        Value::Text(text::hyphenated(command.target_device_id)),
    ] + scope_fields(command.history_recovery_scope)
}

/// The byte form of a claim request.
pub open spec fn claim_encoding(command: ClaimCommand) -> Seq<u8> {
    cbor::encoding(record::record(claim_fields(command)))
}

/// The request is within its bound and holds its own byte form.
pub open spec fn is_claim_command(command: ClaimCommand) -> bool {
    &&& 0 < command.exact_claim_bytes.len() <= MAX_KEY_PACKAGE_CLAIM_BYTES
    &&& command.exact_claim_bytes == claim_encoding(command)
}

/// Why fields make no claim request.
pub open spec fn claim_fault(command: ClaimCommand) -> Option<IdentityPersistenceError> {
    if !(0 < command.exact_claim_bytes.len() <= MAX_KEY_PACKAGE_CLAIM_BYTES) {
        Some(refused("key package claim byte length"))
    } else if command.exact_claim_bytes != claim_encoding(command) {
        Some(refused("key package claim canonical bytes"))
    } else {
        None
    }
}

/// The digest that identifies a claim request.
pub open spec fn claim_request_digest(command: ClaimCommand) -> Seq<u8> {
    digest::hash_in_domain(KEY_PACKAGE_CLAIM_REQUEST_HASH_DOMAIN@, command.exact_claim_bytes)
}

/// The fields of a claim request are canonical.
pub proof fn lemma_claim_canonical(command: ClaimCommand)
    requires
        command.target_identity_id.len() == 32,
        command.target_device_id.len() == 16,
        command.history_recovery_scope is Some ==> {
            &&& command.history_recovery_scope->0.request_digest.len() == 32
            &&& command.history_recovery_scope->0.scope_digest.len() == 32
        },
    ensures
        cbor::canonical(record::record(claim_fields(command))),
{
    record::lemma_hex_canonical(command.target_identity_id);
    record::lemma_uuid_canonical(command.target_device_id);
    record::lemma_record_canonical(claim_fields(command), 31);
}

/// Builds the canonical value of a claim request.
fn claim_value(
    target_identity_id: IdentityId,
    target_device_id: DeviceId,
    history_recovery_scope: Option<HistoryRecoveryKeyPackageScope>,
    Ghost(command): Ghost<ClaimCommand>,
) -> (value: CanonicalValue)
    requires
        command.target_identity_id == target_identity_id@,
        command.target_device_id == target_device_id@,
        command.history_recovery_scope == scope_view(history_recovery_scope),
    ensures
        value@ == record::record(claim_fields(command)),
        cbor::canonical(value@),
{
    let mut fields: Vec<CanonicalValue> = vec![
        CanonicalValue::Unsigned(
            if history_recovery_scope.is_some() {
                2
            } else {
                1
            },
        ),
        CanonicalValue::Text(target_identity_id.to_text()),
        CanonicalValue::Text(target_device_id.to_text()),
    ];
    if let Some(scope) = history_recovery_scope {
        fields.push(scope.request_digest.to_canonical_value());
        fields.push(scope.scope_digest.to_canonical_value());
        fields.push(CanonicalValue::Unsigned(1));
    }
    target_device_id.checked();
    proof {
        target_identity_id.lemma_len();
        if let Some(scope) = history_recovery_scope {
            scope.request_digest.lemma_len();
            scope.scope_digest.lemma_len();
        }
        lemma_claim_canonical(command);
        assert(value::items_view(fields@) =~= claim_fields(command));
    }
    build_record(fields)
}

impl CanonicalEncode for KeyPackageClaimCommand {
    open spec fn model(&self) -> Value {
        record::record(claim_fields(self@))
    }

    fn to_canonical_value(&self) -> (value: CanonicalValue) {
        claim_value(
            self.target_identity_id,
            self.target_device_id,
            self.history_recovery_scope,
            Ghost(self@),
        )
    }
}

impl KeyPackageClaimCommand {
    /// The request is within its bound and holds its own byte form.
    #[verifier::type_invariant]
    spec fn exact(self) -> bool {
        is_claim_command(self@)
    }

    /// States the bound of a request.
    pub fn checked(&self)
        ensures
            is_claim_command(self@),
    {
        proof {
            use_type_invariant(self);
        }
    }

    /// Checks that fields hold their own byte form.
    fn from_parts(
        idempotency_key_hash: Sha256Digest,
        target_identity_id: IdentityId,
        target_device_id: DeviceId,
        exact_claim_bytes: Vec<u8>,
        history_recovery_scope: Option<HistoryRecoveryKeyPackageScope>,
    ) -> (command: Result<Self, IdentityPersistenceError>)
        ensures
            ({
                let parts = ClaimCommand {
                    idempotency_key_hash: idempotency_key_hash@,
                    target_identity_id: target_identity_id@,
                    target_device_id: target_device_id@,
                    exact_claim_bytes: exact_claim_bytes@,
                    history_recovery_scope: scope_view(history_recovery_scope),
                };
                match command {
                    Ok(command) => claim_fault(parts) is None && command@ == parts,
                    Err(error) => claim_fault(parts) == Some(error),
                }
            }),
    {
        if exact_claim_bytes.len() == 0 || exact_claim_bytes.len() > MAX_KEY_PACKAGE_CLAIM_BYTES {
            return Err(IdentityPersistenceError::InvalidCommand("key package claim byte length"));
        }
        let ghost parts = ClaimCommand {
            idempotency_key_hash: idempotency_key_hash@,
            target_identity_id: target_identity_id@,
            target_device_id: target_device_id@,
            exact_claim_bytes: exact_claim_bytes@,
            history_recovery_scope: scope_view(history_recovery_scope),
        };
        let expected = canonical_bytes(
            &claim_value(
                target_identity_id,
                target_device_id,
                history_recovery_scope,
                Ghost(parts),
            ),
        );
        if !bytes_equal(expected.as_slice(), exact_claim_bytes.as_slice()) {
            return Err(
                IdentityPersistenceError::InvalidCommand("key package claim canonical bytes"),
            );
        }
        Ok(
            KeyPackageClaimCommand {
                idempotency_key_hash,
                target_identity_id,
                target_device_id,
                exact_claim_bytes,
                history_recovery_scope,
            },
        )
    }

    /// Builds a claim command from its exact deterministic-CBOR body.
    pub fn new(
        idempotency_key_hash: Sha256Digest,
        target_identity_id: IdentityId,
        target_device_id: DeviceId,
        exact_claim_bytes: Vec<u8>,
    ) -> (command: Result<Self, IdentityPersistenceError>)
        ensures
            ({
                let parts = ClaimCommand {
                    idempotency_key_hash: idempotency_key_hash@,
                    target_identity_id: target_identity_id@,
                    target_device_id: target_device_id@,
                    exact_claim_bytes: exact_claim_bytes@,
                    history_recovery_scope: None,
                };
                match command {
                    Ok(command) => claim_fault(parts) is None && command@ == parts,
                    Err(error) => claim_fault(parts) == Some(error),
                }
            }),
    {
        KeyPackageClaimCommand::from_parts(
            idempotency_key_hash,
            target_identity_id,
            target_device_id,
            exact_claim_bytes,
            None,
        )
    }

    /// Builds a same-identity claim restricted to one exact recovery scope.
    pub fn new_history_recovery_v2(
        idempotency_key_hash: Sha256Digest,
        target_identity_id: IdentityId,
        target_device_id: DeviceId,
        scope: HistoryRecoveryKeyPackageScope,
        exact_claim_bytes: Vec<u8>,
    ) -> (command: Result<Self, IdentityPersistenceError>)
        ensures
            ({
                let parts = ClaimCommand {
                    idempotency_key_hash: idempotency_key_hash@,
                    target_identity_id: target_identity_id@,
                    target_device_id: target_device_id@,
                    exact_claim_bytes: exact_claim_bytes@,
                    history_recovery_scope: Some(scope@),
                };
                match command {
                    Ok(command) => claim_fault(parts) is None && command@ == parts,
                    Err(error) => claim_fault(parts) == Some(error),
                }
            }),
    {
        KeyPackageClaimCommand::from_parts(
            idempotency_key_hash,
            target_identity_id,
            target_device_id,
            exact_claim_bytes,
            Some(scope),
        )
    }

    /// The digest that identifies the request.
    pub fn request_digest(&self) -> (digest: Sha256Digest)
        ensures
            digest@ == claim_request_digest(self@),
    {
        Sha256Digest::hash_domain(
            KEY_PACKAGE_CLAIM_REQUEST_HASH_DOMAIN,
            self.exact_claim_bytes.as_slice(),
        )
    }
}

impl KeyPackageClaimCommand {
    /// The scoped HTTP idempotency-key digest.
    pub fn idempotency_key_hash(&self) -> (part: Sha256Digest)
        ensures
            part@ == self@.idempotency_key_hash,
    {
        self.idempotency_key_hash
    }

    /// The target self-certifying identity.
    pub fn target_identity_id(&self) -> (part: IdentityId)
        ensures
            part@ == self@.target_identity_id,
    {
        self.target_identity_id
    }

    /// The target active device.
    pub fn target_device_id(&self) -> (part: DeviceId)
        ensures
            part@ == self@.target_device_id,
    {
        self.target_device_id
    }

    /// The optional exact history-recovery scope.
    pub fn history_recovery_scope(&self) -> (part: Option<HistoryRecoveryKeyPackageScope>)
        ensures
            scope_view(part) == self@.history_recovery_scope,
    {
        self.history_recovery_scope
    }
}

impl Clone for KeyPackagePublishCommand {
    fn clone(&self) -> (copy: Self)
        ensures
            copy@ == self@,
    {
        proof {
            use_type_invariant(self);
        }
        KeyPackagePublishCommand {
            idempotency_key_hash: self.idempotency_key_hash,
            identity_id: self.identity_id,
            device_id: self.device_id,
            package_id: self.package_id,
            published_head_sequence: self.published_head_sequence,
            published_head_hash: self.published_head_hash,
            expires_at: self.expires_at,
            opaque_key_package: to_vec(self.opaque_key_package.as_slice()),
            detached_signature: self.detached_signature,
            exact_publish_bytes: to_vec(self.exact_publish_bytes.as_slice()),
            history_recovery_scope: self.history_recovery_scope,
        }
    }
}

impl Clone for KeyPackageClaimCommand {
    fn clone(&self) -> (copy: Self)
        ensures
            copy@ == self@,
    {
        proof {
            use_type_invariant(self);
        }
        KeyPackageClaimCommand {
            idempotency_key_hash: self.idempotency_key_hash,
            target_identity_id: self.target_identity_id,
            target_device_id: self.target_device_id,
            exact_claim_bytes: to_vec(self.exact_claim_bytes.as_slice()),
            history_recovery_scope: self.history_recovery_scope,
        }
    }
}

/// The model of a federated claim proof.
pub struct ClaimProof {
    pub requester_identity_origin: Seq<char>,
    pub requester_identity_id: Seq<u8>,
    pub requester_device_id: Seq<u8>,
    pub target_identity_id: Seq<u8>,
    pub target_device_id: Seq<u8>,
    pub method: Seq<char>,
    pub path: Seq<char>,
    pub body_digest: Seq<u8>,
    pub issued_at: i64,
    pub expires_at: i64,
    pub nonce: Seq<u8>,
    pub idempotency_key_hash: Seq<u8>,
    pub signature: Seq<u8>,
}

/// Parsed proof fields which become authoritative only after the target node
/// resolves the requester's current identity log and verifies this proof.
#[derive(Clone, Debug, PartialEq, Eq)]
pub struct FederatedKeyPackageClaimProof {
    requester_identity_origin: String,
    requester_identity_id: IdentityId,
    requester_device_id: DeviceId,
    target_identity_id: IdentityId,
    target_device_id: DeviceId,
    method: String,
    path: String,
    body_digest: Sha256Digest,
    issued_at: UtcMillis,
    expires_at: UtcMillis,
    nonce: [u8; 32],
    idempotency_key_hash: Sha256Digest,
    signature: Ed25519Signature,
}

impl FederatedKeyPackageClaimProof {
    /// The model of the value.
    pub closed spec fn view(&self) -> ClaimProof {
        ClaimProof {
            requester_identity_origin: self.requester_identity_origin@,
            requester_identity_id: self.requester_identity_id@,
            requester_device_id: self.requester_device_id@,
            target_identity_id: self.target_identity_id@,
            target_device_id: self.target_device_id@,
            method: self.method@,
            path: self.path@,
            body_digest: self.body_digest@,
            issued_at: self.issued_at@,
            expires_at: self.expires_at@,
            nonce: self.nonce@,
            idempotency_key_hash: self.idempotency_key_hash@,
            signature: self.signature@,
        }
    }
}

/// The model of a verified claimant.
pub struct Claimant {
    pub identity_origin: Seq<char>,
    pub identity_id: Seq<u8>,
    pub device_id: Seq<u8>,
}

/// Remote claimant identity that can only be produced by a complete proof
/// verification against a freshly resolved active-device key.
#[derive(Clone, Debug, PartialEq, Eq)]
pub struct VerifiedFederatedKeyPackageClaimant {
    identity_origin: String,
    identity_id: IdentityId,
    device_id: DeviceId,
}

impl VerifiedFederatedKeyPackageClaimant {
    /// The model of the value.
    pub closed spec fn view(&self) -> Claimant {
        Claimant {
            identity_origin: self.identity_origin@,
            identity_id: self.identity_id@,
            device_id: self.device_id@,
        }
    }
}

/// The text is a plain origin: 8 to 512 visible ASCII characters.
pub open spec fn is_plain_origin(origin: Seq<char>) -> bool {
    let raw = encode_utf8(origin);
    &&& 8 <= raw.len() <= 512
    &&& forall|i: int| 0 <= i < raw.len() ==> 0x21 <= #[trigger] raw[i] <= 0x7e
}

/// Whether the text is a plain origin.
fn has_plain_origin(origin: &str) -> (plain: bool)
    ensures
        plain == is_plain_origin(origin@),
{
    let raw = origin.as_bytes();
    if raw.len() < 8 || raw.len() > 512 {
        return false;
    }
    for i in 0..raw.len()
        invariant
            raw@ == encode_utf8(origin@),
            forall|j: int| 0 <= j < i ==> 0x21 <= #[trigger] raw@[j] <= 0x7e,
    {
        if raw[i] < 0x21 || raw[i] > 0x7e {
            return false;
        }
    }
    true
}

/// The digest of the claim body that a federated proof carries.
pub open spec fn claim_body_digest(command: ClaimCommand) -> Seq<u8> {
    digest::hash_in_domain(
        FEDERATED_KEY_PACKAGE_CLAIM_BODY_HASH_DOMAIN@,
        command.exact_claim_bytes,
    )
}

/// The fields of the binding that a remote device signs.
pub open spec fn federated_binding_fields(claim: ClaimProof) -> Seq<Value> {
    seq![
        Value::Unsigned(2),
        Value::Text(claim.requester_identity_origin),
        Value::Text(text::hex(claim.requester_identity_id)),
        Value::Text(text::hyphenated(claim.requester_device_id)),
        Value::Text(text::hex(claim.target_identity_id)),
        Value::Text(text::hyphenated(claim.target_device_id)),
        Value::Text(claim.method),
        Value::Text(claim.path),
        Value::Bytes(claim.body_digest),
        number::millis_model(claim.issued_at),
        number::millis_model(claim.expires_at),
        Value::Bytes(claim.nonce),
        Value::Bytes(claim.idempotency_key_hash),
    ]
}

/// The bytes that a remote device signs.
pub open spec fn federated_signed_bytes(claim: ClaimProof) -> Seq<u8> {
    encode_utf8(FEDERATED_KEY_PACKAGE_CLAIM_SIGNATURE_DOMAIN@) + digest::hash_in_domain(
        FEDERATED_KEY_PACKAGE_CLAIM_BINDING_HASH_DOMAIN@,
        cbor::encoding(record::record(federated_binding_fields(claim))),
    )
}

/// The proof speaks of exactly this claim, at this time, and the key signs it.
pub open spec fn is_proof_of(
    claim: ClaimProof,
    command: ClaimCommand,
    now: i64,
    signing_key: Seq<u8>,
) -> bool {
    &&& claim.target_identity_id == command.target_identity_id
    &&& claim.target_device_id == command.target_device_id
    &&& claim.method == FEDERATED_KEY_PACKAGE_CLAIM_METHOD@
    &&& claim.path == FEDERATED_KEY_PACKAGE_CLAIM_PATH@
    &&& claim.body_digest == claim_body_digest(command)
    &&& claim.idempotency_key_hash == command.idempotency_key_hash
    &&& claim.issued_at <= now < claim.expires_at
    &&& 1 <= claim.expires_at - claim.issued_at
        <= FEDERATED_KEY_PACKAGE_CLAIM_PROOF_MAX_LIFETIME_MILLIS
    &&& outside::ed25519_strict_accepted(
        signing_key,
        federated_signed_bytes(claim),
        claim.signature,
    )
}

/// Computes the exact signed body digest for a federated claim.
pub fn federated_key_package_claim_body_digest(command: &KeyPackageClaimCommand) -> (digest:
    Sha256Digest)
    ensures
        digest@ == claim_body_digest(command@),
{
    Sha256Digest::hash_domain(
        FEDERATED_KEY_PACKAGE_CLAIM_BODY_HASH_DOMAIN,
        command.exact_claim_bytes.as_slice(),
    )
}

/// Builds the canonical remote-device signature input.
pub fn federated_key_package_claim_signature_input(
    requester_identity_origin: &str,
    requester_identity_id: IdentityId,
    requester_device_id: DeviceId,
    target_identity_id: IdentityId,
    target_device_id: DeviceId,
    method: &str,
    path: &str,
    body_digest: Sha256Digest,
    issued_at: UtcMillis,
    expires_at: UtcMillis,
    nonce: [u8; 32],
    idempotency_key_hash: Sha256Digest,
) -> (input: Result<Vec<u8>, IdentityPersistenceError>)
    ensures
        input is Ok,
        forall|claim: ClaimProof|
            {
                &&& claim.requester_identity_origin == requester_identity_origin@
                &&& claim.requester_identity_id == requester_identity_id@
                &&& claim.requester_device_id == requester_device_id@
                &&& claim.target_identity_id == target_identity_id@
                &&& claim.target_device_id == target_device_id@
                &&& claim.method == method@
                &&& claim.path == path@
                &&& claim.body_digest == body_digest@
                &&& claim.issued_at == issued_at@
                &&& claim.expires_at == expires_at@
                &&& claim.nonce == nonce@
                &&& claim.idempotency_key_hash == idempotency_key_hash@
            } ==> input->Ok_0@ == #[trigger] federated_signed_bytes(claim),
{
    let fields: Vec<CanonicalValue> = vec![
        CanonicalValue::Unsigned(2),
        CanonicalValue::Text(requester_identity_origin.to_owned()),
        CanonicalValue::Text(requester_identity_id.to_text()),
        CanonicalValue::Text(requester_device_id.to_text()),
        CanonicalValue::Text(target_identity_id.to_text()),
        CanonicalValue::Text(target_device_id.to_text()),
        CanonicalValue::Text(method.to_owned()),
        CanonicalValue::Text(path.to_owned()),
        body_digest.to_canonical_value(),
        issued_at.to_canonical_value(),
        expires_at.to_canonical_value(),
        CanonicalValue::Bytes(to_vec(&nonce)),
        idempotency_key_hash.to_canonical_value(),
    ];
    let origin_len: usize = encoded_len(requester_identity_origin);
    let method_len: usize = encoded_len(method);
    let path_len: usize = encoded_len(path);
    requester_device_id.checked();
    target_device_id.checked();
    let ghost models = value::items_view(fields@);
    proof {
        assert(origin_len <= u64::MAX && method_len <= u64::MAX && path_len <= u64::MAX);
        requester_identity_id.lemma_len();
        target_identity_id.lemma_len();
        body_digest.lemma_len();
        idempotency_key_hash.lemma_len();
        record::lemma_hex_canonical(requester_identity_id@);
        record::lemma_uuid_canonical(requester_device_id@);
        record::lemma_hex_canonical(target_identity_id@);
        record::lemma_uuid_canonical(target_device_id@);
        record::lemma_record_canonical(models, 31);
    }
    let binding = canonical_bytes(&build_record(fields));
    let digest = Sha256Digest::hash_domain(
        FEDERATED_KEY_PACKAGE_CLAIM_BINDING_HASH_DOMAIN,
        binding.as_slice(),
    );
    let mut input: Vec<u8> = to_vec(FEDERATED_KEY_PACKAGE_CLAIM_SIGNATURE_DOMAIN.as_bytes());
    append_bytes(&mut input, digest.as_bytes());
    proof {
        assert forall|claim: ClaimProof|
            {
                &&& claim.requester_identity_origin == requester_identity_origin@
                &&& claim.requester_identity_id == requester_identity_id@
                &&& claim.requester_device_id == requester_device_id@
                &&& claim.target_identity_id == target_identity_id@
                &&& claim.target_device_id == target_device_id@
                &&& claim.method == method@
                &&& claim.path == path@
                &&& claim.body_digest == body_digest@
                &&& claim.issued_at == issued_at@
                &&& claim.expires_at == expires_at@
                &&& claim.nonce == nonce@
                &&& claim.idempotency_key_hash == idempotency_key_hash@
            } implies input@ == #[trigger] federated_signed_bytes(claim) by {
            assert(models =~= federated_binding_fields(claim));
        }
    }
    Ok(input)
}

impl FederatedKeyPackageClaimProof {
    /// Builds a parsed proof while retaining every signed coordinate.
    /// Cryptographic and current-device verification happens in
    /// [`FederatedKeyPackageClaimProof::verify`].
    pub fn new(
        requester_identity_origin: String,
        requester_identity_id: IdentityId,
        requester_device_id: DeviceId,
        target_identity_id: IdentityId,
        target_device_id: DeviceId,
        method: String,
        path: String,
        body_digest: Sha256Digest,
        issued_at: UtcMillis,
        expires_at: UtcMillis,
        nonce: [u8; 32],
        idempotency_key_hash: Sha256Digest,
        signature: Ed25519Signature,
    ) -> (claim: Result<Self, IdentityPersistenceError>)
        ensures
            ({
                let sound = is_plain_origin(requester_identity_origin@) && !bytes::all_zero(nonce@);
                match claim {
                    Ok(claim) => {
                        &&& sound
                        &&& claim@ == (ClaimProof {
                            requester_identity_origin: requester_identity_origin@,
                            requester_identity_id: requester_identity_id@,
                            requester_device_id: requester_device_id@,
                            target_identity_id: target_identity_id@,
                            target_device_id: target_device_id@,
                            method: method@,
                            path: path@,
                            body_digest: body_digest@,
                            issued_at: issued_at@,
                            expires_at: expires_at@,
                            nonce: nonce@,
                            idempotency_key_hash: idempotency_key_hash@,
                            signature: signature@,
                        })
                    },
                    Err(error) => !sound && error == refused("federated key package claim proof"),
                }
            }),
    {
        if !has_plain_origin(requester_identity_origin.as_str()) || is_all_zero(&nonce) {
            return Err(
                IdentityPersistenceError::InvalidCommand("federated key package claim proof"),
            );
        }
        Ok(
            FederatedKeyPackageClaimProof {
                requester_identity_origin,
                requester_identity_id,
                requester_device_id,
                target_identity_id,
                target_device_id,
                method,
                path,
                body_digest,
                issued_at,
                expires_at,
                nonce,
                idempotency_key_hash,
                signature,
            },
        )
    }

    /// Verifies all HTTP, target, body, time, nonce and idempotency bindings using
    /// the current active-device key fetched from the requester origin. Whatever
    /// is wrong is one uniform rejection.
    pub fn verify(
        &self,
        command: &KeyPackageClaimCommand,
        now: UtcMillis,
        signing_key: SigningPublicKey,
    ) -> (claimant: Result<VerifiedFederatedKeyPackageClaimant, IdentityPersistenceError>)
        ensures
            match claimant {
                Ok(claimant) => {
                    &&& is_proof_of(self@, command@, now@, signing_key@)
                    &&& claimant@ == (Claimant {
                        identity_origin: self@.requester_identity_origin,
                        identity_id: self@.requester_identity_id,
                        device_id: self@.requester_device_id,
                    })
                },
                Err(error) => {
                    &&& !is_proof_of(self@, command@, now@, signing_key@)
                    &&& error == IdentityPersistenceError::DeviceAuthenticationRejected
                },
            },
    {
        let rejected = IdentityPersistenceError::DeviceAuthenticationRejected;
        let issued_at: i64 = self.issued_at.get();
        let expires_at: i64 = self.expires_at.get();
        let lifetime: i64 = match expires_at.checked_sub(issued_at) {
            Some(lifetime) => lifetime,
            None => {
                return Err(rejected);
            },
        };
        if self.target_identity_id != command.target_identity_id || self.target_device_id
            != command.target_device_id || !text_equal(
            self.method.as_str(),
            FEDERATED_KEY_PACKAGE_CLAIM_METHOD,
        ) || !text_equal(self.path.as_str(), FEDERATED_KEY_PACKAGE_CLAIM_PATH) || self.body_digest
            != federated_key_package_claim_body_digest(command) || self.idempotency_key_hash
            != command.idempotency_key_hash || issued_at > now.get() || now.get() >= expires_at
            || lifetime < 1 || lifetime
            > FEDERATED_KEY_PACKAGE_CLAIM_PROOF_MAX_LIFETIME_MILLIS {
            return Err(rejected);
        }
        let input = match federated_key_package_claim_signature_input(
            self.requester_identity_origin.as_str(),
            self.requester_identity_id,
            self.requester_device_id,
            self.target_identity_id,
            self.target_device_id,
            self.method.as_str(),
            self.path.as_str(),
            self.body_digest,
            self.issued_at,
            self.expires_at,
            self.nonce,
            self.idempotency_key_hash,
        ) {
            Ok(input) => input,
            Err(error) => {
                return Err(error);
            },
        };
        assert(input@ == federated_signed_bytes(self@));
        if !signing_key.authenticates(input.as_slice(), &self.signature) {
            return Err(rejected);
        }
        Ok(
            VerifiedFederatedKeyPackageClaimant {
                identity_origin: self.requester_identity_origin.clone(),
                identity_id: self.requester_identity_id,
                device_id: self.requester_device_id,
            },
        )
    }
}

impl FederatedKeyPackageClaimProof {
    /// The signed requester origin used for remote log resolution.
    pub fn requester_identity_origin(&self) -> (text: &str)
        ensures
            text@ == self@.requester_identity_origin,
    {
        self.requester_identity_origin.as_str()
    }

    /// The signed requester identity.
    pub fn requester_identity_id(&self) -> (part: IdentityId)
        ensures
            part@ == self@.requester_identity_id,
    {
        self.requester_identity_id
    }

    /// The signed requester device.
    pub fn requester_device_id(&self) -> (part: DeviceId)
        ensures
            part@ == self@.requester_device_id,
    {
        self.requester_device_id
    }
}

impl VerifiedFederatedKeyPackageClaimant {
    /// The origin that the claimant was resolved from.
    pub fn identity_origin(&self) -> (text: &str)
        ensures
            text@ == self@.identity_origin,
    {
        self.identity_origin.as_str()
    }

    /// The identity of the claimant.
    pub fn identity_id(&self) -> (part: IdentityId)
        ensures
            part@ == self@.identity_id,
    {
        self.identity_id
    }

    /// The active device of the claimant.
    pub fn device_id(&self) -> (part: DeviceId)
        ensures
            part@ == self@.device_id,
    {
        self.device_id
    }
}

/// The model of a publish receipt.
pub struct PublishReceipt {
    pub package_id: Seq<u8>,
    pub package_digest: Seq<u8>,
    pub expires_at: i64,
    pub exact_bytes: Seq<u8>,
}

/// Exact immutable publish receipt returned after successful persistence.
#[derive(Clone, Debug, PartialEq, Eq)]
pub struct KeyPackagePublishReceipt {
    package_id: KeyPackageId,
    package_digest: Sha256Digest,
    expires_at: UtcMillis,
    exact_bytes: Vec<u8>,
}

impl KeyPackagePublishReceipt {
    /// The model of the value.
    pub closed spec fn view(&self) -> PublishReceipt {
        PublishReceipt {
            package_id: self.package_id@,
            package_digest: self.package_digest@,
            expires_at: self.expires_at@,
            exact_bytes: self.exact_bytes@,
        }
    }
}

/// The fields of a publish receipt.
pub open spec fn publish_receipt_fields(
    package_id: Seq<u8>,
    package_digest: Seq<u8>,
    expires_at: i64,
) -> Seq<Value> {
    seq![
        Value::Unsigned(1),
        Value::Text(text::hyphenated(package_id)),
        Value::Bytes(package_digest),
        number::millis_model(expires_at),
    ]
}

/// The receipt of a package.
pub open spec fn publish_receipt(
    package_id: Seq<u8>,
    package_digest: Seq<u8>,
    expires_at: i64,
) -> PublishReceipt {
    PublishReceipt {
        package_id,
        package_digest,
        expires_at,
        exact_bytes: cbor::encoding(
            record::record(publish_receipt_fields(package_id, package_digest, expires_at)),
        ),
    }
}

/// The receipt of a publish request.
pub open spec fn receipt_of(command: PublishCommand) -> PublishReceipt {
    publish_receipt(
        command.package_id,
        package_digest_of(command.opaque_key_package),
        command.expires_at,
    )
}

/// The digest of a publish receipt.
pub open spec fn publish_receipt_digest(receipt: PublishReceipt) -> Seq<u8> {
    digest::hash_in_domain(KEY_PACKAGE_PUBLISH_RECEIPT_HASH_DOMAIN@, receipt.exact_bytes)
}

impl CanonicalEncode for KeyPackagePublishReceipt {
    open spec fn model(&self) -> Value {
        record::record(
            publish_receipt_fields(self@.package_id, self@.package_digest, self@.expires_at),
        )
    }

    fn to_canonical_value(&self) -> (value: CanonicalValue) {
        receipt_value(self.package_id, self.package_digest, self.expires_at)
    }
}

/// Builds the canonical value of a publish receipt.
fn receipt_value(
    package_id: KeyPackageId,
    package_digest: Sha256Digest,
    expires_at: UtcMillis,
) -> (value:
    CanonicalValue)
    ensures
        value@ == record::record(
            publish_receipt_fields(package_id@, package_digest@, expires_at@),
        ),
        cbor::canonical(value@),
{
    let fields: Vec<CanonicalValue> = vec![
        CanonicalValue::Unsigned(1),
        CanonicalValue::Text(package_id.to_text()),
        package_digest.to_canonical_value(),
        expires_at.to_canonical_value(),
    ];
    package_id.checked();
    proof {
        let models = publish_receipt_fields(package_id@, package_digest@, expires_at@);
        package_digest.lemma_len();
        record::lemma_uuid_canonical(package_id@);
        record::lemma_record_canonical(models, 31);
        assert(value::items_view(fields@) =~= models);
    }
    build_record(fields)
}

impl KeyPackagePublishReceipt {
    /// The receipt of a package.
    pub fn new(
        package_id: KeyPackageId,
        package_digest: Sha256Digest,
        expires_at: UtcMillis,
    ) -> (receipt:
        Self)
        ensures
            receipt@ == publish_receipt(package_id@, package_digest@, expires_at@),
    {
        let exact_bytes = canonical_bytes(&receipt_value(package_id, package_digest, expires_at));
        KeyPackagePublishReceipt { package_id, package_digest, expires_at, exact_bytes }
    }

    /// The digest of the receipt.
    pub fn receipt_digest(&self) -> (digest: Sha256Digest)
        ensures
            digest@ == publish_receipt_digest(self@),
    {
        Sha256Digest::hash_domain(
            KEY_PACKAGE_PUBLISH_RECEIPT_HASH_DOMAIN,
            self.exact_bytes.as_slice(),
        )
    }

    /// Checks the receipt against its stored bytes and digest.
    pub fn verify_exact_bytes(&self, stored_bytes: &[u8], stored_digest: Sha256Digest) -> (verified:
        Result<(), IdentityPersistenceError>)
        ensures
            verified == if stored_bytes@ == self@.exact_bytes && stored_digest@
                == publish_receipt_digest(self@) {
                Ok::<(), IdentityPersistenceError>(())
            } else {
                Err(IdentityPersistenceError::ReceiptIntegrity)
            },
    {
        if !bytes_equal(self.exact_bytes.as_slice(), stored_bytes) || self.receipt_digest()
            != stored_digest {
            return Err(IdentityPersistenceError::ReceiptIntegrity);
        }
        Ok(())
    }
}

impl KeyPackagePublishReceipt {
    /// The durable public package ID.
    pub fn package_id(&self) -> (part: KeyPackageId)
        ensures
            part@ == self@.package_id,
    {
        self.package_id
    }

    /// The opaque package digest bound to the device signature.
    pub fn package_digest(&self) -> (part: Sha256Digest)
        ensures
            part@ == self@.package_digest,
    {
        self.package_digest
    }

    /// The package expiry.
    pub fn expires_at(&self) -> (part: UtcMillis)
        ensures
            part@ == self@.expires_at,
    {
        self.expires_at
    }

    /// The exact receipt bytes replayed after response loss.
    pub fn exact_bytes(&self) -> (bytes: &[u8])
        ensures
            bytes@ == self@.exact_bytes,
    {
        self.exact_bytes.as_slice()
    }
}

/// The exact original publish envelope returned by an atomic claim. It has no
/// Debug, which would show the opaque MLS bytes.
#[derive(Clone, PartialEq, Eq)]
pub struct KeyPackageClaimReceipt {
    exact_publish_bytes: Vec<u8>,
}

/// The digest of a claim receipt.
pub open spec fn claim_receipt_digest(exact_publish_bytes: Seq<u8>) -> Seq<u8> {
    digest::hash_in_domain(KEY_PACKAGE_CLAIM_RECEIPT_HASH_DOMAIN@, exact_publish_bytes)
}

/// The bytes may be a publish envelope.
pub open spec fn is_envelope(exact_publish_bytes: Seq<u8>) -> bool {
    0 < exact_publish_bytes.len() <= MAX_KEY_PACKAGE_PUBLISH_BYTES
}

impl KeyPackageClaimReceipt {
    /// The exact envelope.
    pub closed spec fn view(&self) -> Seq<u8> {
        self.exact_publish_bytes@
    }

    /// The receipt for a stored envelope.
    pub fn new(exact_publish_bytes: Vec<u8>) -> (receipt: Result<Self, IdentityPersistenceError>)
        ensures
            match receipt {
                Ok(receipt) => {
                    &&& is_envelope(exact_publish_bytes@)
                    &&& receipt@ == exact_publish_bytes@
                },
                Err(error) => {
                    &&& !is_envelope(exact_publish_bytes@)
                    &&& error == IdentityPersistenceError::CorruptData(
                        "key package claim receipt byte length",
                    )
                },
            },
    {
        if exact_publish_bytes.len() == 0 || exact_publish_bytes.len()
            > MAX_KEY_PACKAGE_PUBLISH_BYTES {
            return Err(
                IdentityPersistenceError::CorruptData("key package claim receipt byte length"),
            );
        }
        Ok(KeyPackageClaimReceipt { exact_publish_bytes })
    }

    /// The original exact publish envelope, including the publisher's
    /// active-device signature and opaque MLS bytes.
    pub fn exact_publish_bytes(&self) -> (bytes: &[u8])
        ensures
            bytes@ == self@,
    {
        self.exact_publish_bytes.as_slice()
    }

    /// The digest of the receipt.
    pub fn receipt_digest(&self) -> (digest: Sha256Digest)
        ensures
            digest@ == claim_receipt_digest(self@),
    {
        Sha256Digest::hash_domain(
            KEY_PACKAGE_CLAIM_RECEIPT_HASH_DOMAIN,
            self.exact_publish_bytes.as_slice(),
        )
    }

    /// Checks the receipt against its stored bytes and digest.
    pub fn verify_exact_bytes(&self, stored_bytes: &[u8], stored_digest: Sha256Digest) -> (verified:
        Result<(), IdentityPersistenceError>)
        ensures
            verified == if stored_bytes@ == self@ && stored_digest@ == claim_receipt_digest(self@) {
                Ok::<(), IdentityPersistenceError>(())
            } else {
                Err(IdentityPersistenceError::ReceiptIntegrity)
            },
    {
        if !bytes_equal(self.exact_publish_bytes.as_slice(), stored_bytes) || self.receipt_digest()
            != stored_digest {
            return Err(IdentityPersistenceError::ReceiptIntegrity);
        }
        Ok(())
    }
}

/// Durable result of a publish request.
#[derive(Clone, Debug, PartialEq, Eq)]
pub enum KeyPackagePublishOutcome {
    /// A fresh opaque `KeyPackage` was persisted and made claimable.
    Published(KeyPackagePublishReceipt),
    /// The exact publish receipt was returned after response loss.
    Replayed(KeyPackagePublishReceipt),
}

impl KeyPackagePublishOutcome {
    /// The receipt in either outcome.
    pub open spec fn view(&self) -> PublishReceipt {
        match self {
            KeyPackagePublishOutcome::Published(receipt) => receipt@,
            KeyPackagePublishOutcome::Replayed(receipt) => receipt@,
        }
    }

    /// Returns the immutable receipt in either outcome.
    pub fn receipt(&self) -> (receipt: &KeyPackagePublishReceipt)
        ensures
            receipt@ == self@,
    {
        match self {
            KeyPackagePublishOutcome::Published(receipt) => receipt,
            KeyPackagePublishOutcome::Replayed(receipt) => receipt,
        }
    }
}

/// Durable result of a one-time claim request.
#[derive(Clone, PartialEq, Eq)]
pub enum KeyPackageClaimOutcome {
    /// One available package was atomically consumed.
    Claimed(KeyPackageClaimReceipt),
    /// The exact original envelope was returned after response loss.
    Replayed(KeyPackageClaimReceipt),
}

impl KeyPackageClaimOutcome {
    /// The envelope in either outcome.
    pub open spec fn view(&self) -> Seq<u8> {
        match self {
            KeyPackageClaimOutcome::Claimed(receipt) => receipt@,
            KeyPackageClaimOutcome::Replayed(receipt) => receipt@,
        }
    }

    /// Returns the exact opaque publish envelope in either outcome.
    pub fn receipt(&self) -> (receipt: &KeyPackageClaimReceipt)
        ensures
            receipt@ == self@,
    {
        match self {
            KeyPackageClaimOutcome::Claimed(receipt) => receipt,
            KeyPackageClaimOutcome::Replayed(receipt) => receipt,
        }
    }
}

} // verus!
