//! Signed descriptors of the key that signs completion receipts.

use vstd::prelude::*;
use vstd::utf8::*;
use crate::log::authority;
use crate::log::authority::optional_digest_value;
use crate::outside;
use crate::outside::{public_key, sign, uuid_to_text, verify};
use crate::persistence::error::IdentityPersistenceError;
use crate::persistence::fields::{read_time, read_uuid};
use crate::persistence::origin;
use crate::persistence::origin::is_canonical_https_origin;
use crate::wire::bytes::{append_bytes, bytes_equal, to_array, to_vec};
use crate::wire::cbor;
use crate::wire::cbor_lemmas;
use crate::wire::codec::{decode_exact, encode_value};
use crate::wire::digest;
use crate::wire::digest::Sha256Digest;
use crate::wire::key;
use crate::wire::key::{Ed25519Signature, SigningPublicKey};
use crate::wire::number;
use crate::wire::number::UtcMillis;
use crate::wire::record;
use crate::wire::record::{build_record, encode_without_last, exact_fields, CanonicalEncode};
use crate::wire::text;
use crate::wire::text::encoded_len;
use crate::wire::value;
use crate::wire::value::{CanonicalValue, Value};

verus! {

/// Domain separator for the digest of a completion key descriptor.
pub const COMPLETION_DESCRIPTOR_DOMAIN: &'static str =
    "dirextalk.history-recovery.completion-key-descriptor.v2\0";

/// Domain separator for the signature of a completion key descriptor.
pub const COMPLETION_DESCRIPTOR_SIGNATURE_DOMAIN: &'static str =
    "dirextalk.history-recovery.completion-key-descriptor-signature.v2\0";

/// The model of a descriptor.
pub struct Descriptor {
    pub key_id: Seq<u8>,
    pub public_key: Seq<u8>,
    pub epoch: u64,
    pub rollback_floor_epoch: u64,
    pub issued_at: i64,
    pub expires_at: i64,
    pub previous_descriptor_digest: Option<Seq<u8>>,
    pub signature: Seq<u8>,
    pub exact_bytes: Seq<u8>,
    pub digest: Seq<u8>,
}

/// A descriptor of the key that signs completion receipts, signed by that key.
#[derive(Clone, Debug, PartialEq, Eq)]
pub struct CompletionKeyDescriptor {
    /// The UUID of the key.
    pub key_id: [u8; 16],
    /// The public key.
    pub public_key: SigningPublicKey,
    /// The epoch of the key, from one.
    pub epoch: u64,
    /// The lowest epoch that may still be rolled back to.
    pub rollback_floor_epoch: u64,
    /// When the descriptor starts to hold.
    pub issued_at: UtcMillis,
    /// When the descriptor ceases to hold.
    pub expires_at: UtcMillis,
    /// The digest of the descriptor before this one.
    pub previous_descriptor_digest: Option<Sha256Digest>,
    /// The signature over all of the above.
    pub signature: Ed25519Signature,
    /// The exact signed bytes.
    pub exact_bytes: Vec<u8>,
    /// The digest of the exact bytes.
    pub digest: Sha256Digest,
}

impl CompletionKeyDescriptor {
    /// The model of the descriptor.
    pub open spec fn view(&self) -> Descriptor {
        Descriptor {
            key_id: self.key_id@,
            public_key: self.public_key@,
            epoch: self.epoch,
            rollback_floor_epoch: self.rollback_floor_epoch,
            issued_at: self.issued_at@,
            expires_at: self.expires_at@,
            previous_descriptor_digest: authority::digest_view(self.previous_descriptor_digest),
            signature: self.signature@,
            exact_bytes: self.exact_bytes@,
            digest: self.digest@,
        }
    }
}

/// What a signer says of its key.
#[derive(Clone, Copy, Debug, PartialEq, Eq)]
pub struct CompletionSignerMetadata {
    /// The UUID of the key.
    pub key_id: [u8; 16],
    /// The epoch of the key, from one.
    pub epoch: u64,
    /// The lowest epoch that may still be rolled back to.
    pub rollback_floor_epoch: u64,
    /// When the descriptor starts to hold.
    pub issued_at: UtcMillis,
    /// When the descriptor ceases to hold.
    pub expires_at: UtcMillis,
    /// The digest of the descriptor before this one.
    pub previous_descriptor_digest: Option<Sha256Digest>,
}

/// The metadata and the origin may be signed.
pub open spec fn is_signable(metadata: CompletionSignerMetadata, origin: Seq<char>) -> bool {
    &&& origin::is_canonical_origin(origin)
    &&& metadata.key_id@[6] / 16 == 7
    &&& metadata.epoch != 0
    &&& metadata.rollback_floor_epoch != 0
    &&& metadata.rollback_floor_epoch <= metadata.epoch
    &&& metadata.expires_at@ > metadata.issued_at@
}

/// The signed fields of a descriptor.
pub open spec fn descriptor_fields(descriptor: Descriptor, origin: Seq<char>) -> Seq<Value> {
    seq![
        Value::Unsigned(2),
        Value::Text(origin),
        Value::Text(text::hyphenated(descriptor.key_id)),
        Value::Bytes(descriptor.public_key),
        Value::Unsigned(descriptor.epoch),
        Value::Unsigned(descriptor.rollback_floor_epoch),
        number::millis_model(descriptor.issued_at),
        number::millis_model(descriptor.expires_at),
        authority::optional_digest_model(descriptor.previous_descriptor_digest),
    ]
}

/// The complete value of a descriptor: its fields and their signature.
pub open spec fn descriptor_model(descriptor: Descriptor, origin: Seq<char>) -> Value {
    record::record(
        descriptor_fields(descriptor, origin).push(Value::Bytes(descriptor.signature)),
    )
}

/// The bytes that the signature of a descriptor is made over.
pub open spec fn descriptor_signed_bytes(unsigned: Value) -> Seq<u8> {
    encode_utf8(COMPLETION_DESCRIPTOR_SIGNATURE_DOMAIN@) + cbor::encoding(unsigned)
}

/// The descriptor is well formed and properly signed for `origin`.
pub open spec fn is_signed(descriptor: Descriptor, origin: Seq<char>) -> bool {
    &&& encode_utf8(origin).len() <= u64::MAX
    &&& descriptor.key_id.len() == 16
    &&& key::is_public_key(descriptor.public_key)
    &&& number::is_utc_millis(descriptor.issued_at as int)
    &&& number::is_utc_millis(descriptor.expires_at as int)
    &&& descriptor.previous_descriptor_digest is Some
        ==> descriptor.previous_descriptor_digest->0.len() == 32
    &&& descriptor.signature.len() == 64
    &&& outside::ed25519_accepted(
        descriptor.public_key,
        descriptor_signed_bytes(record::record(descriptor_fields(descriptor, origin))),
        descriptor.signature,
    )
    &&& descriptor.exact_bytes == cbor::encoding(descriptor_model(descriptor, origin))
    &&& descriptor.digest == digest::hash_in_domain(
        COMPLETION_DESCRIPTOR_DOMAIN@,
        descriptor.exact_bytes,
    )
    &&& descriptor.digest.len() == 32
}

/// What a signer says of its key, before it is signed.
pub open spec fn unsigned_descriptor(
    metadata: CompletionSignerMetadata,
    public_key: Seq<u8>,
) -> Descriptor {
    Descriptor {
        key_id: metadata.key_id@,
        public_key,
        epoch: metadata.epoch,
        rollback_floor_epoch: metadata.rollback_floor_epoch,
        issued_at: metadata.issued_at@,
        expires_at: metadata.expires_at@,
        previous_descriptor_digest: authority::digest_view(metadata.previous_descriptor_digest),
        signature: Seq::empty(),
        exact_bytes: Seq::empty(),
        digest: Seq::empty(),
    }
}

/// The descriptor that a secret key signs for its own public key.
pub open spec fn signed_descriptor(
    metadata: CompletionSignerMetadata,
    origin: Seq<char>,
    secret: Seq<u8>,
) -> Descriptor {
    let unsigned = unsigned_descriptor(metadata, outside::ed25519_public_key_of(secret));
    let signature = outside::ed25519_signature_of(
        secret,
        descriptor_signed_bytes(record::record(descriptor_fields(unsigned, origin))),
    );
    let exact_bytes = cbor::encoding(
        record::record(descriptor_fields(unsigned, origin).push(Value::Bytes(signature))),
    );
    Descriptor {
        signature,
        exact_bytes,
        digest: digest::hash_in_domain(COMPLETION_DESCRIPTOR_DOMAIN@, exact_bytes),
        ..unsigned
    }
}

/// The value of a descriptor is canonical.
proof fn lemma_descriptor_canonical(descriptor: Descriptor, origin: Seq<char>)
    requires
        encode_utf8(origin).len() <= u64::MAX,
        descriptor.key_id.len() == 16,
        descriptor.public_key.len() == 32,
        descriptor.previous_descriptor_digest is Some
            ==> descriptor.previous_descriptor_digest->0.len() == 32,
        descriptor.signature.len() == 64,
    ensures
        cbor::canonical(record::record(descriptor_fields(descriptor, origin))),
        cbor::canonical(descriptor_model(descriptor, origin)),
{
    let fields = descriptor_fields(descriptor, origin);
    text::lemma_hyphenated_ascii(descriptor.key_id);
    text::lemma_ascii_len(text::hyphenated(descriptor.key_id));
    record::lemma_record_canonical(fields, 31);
    record::lemma_record_canonical(fields.push(Value::Bytes(descriptor.signature)), 31);
}

impl CompletionKeyDescriptor {
    /// Signs the descriptor of a key with that key.
    pub fn from_signer(
        metadata: CompletionSignerMetadata,
        origin: &str,
        secret_key: &[u8; 32],
    ) -> (descriptor: Result<Self, IdentityPersistenceError>)
        ensures
            match descriptor {
                Ok(descriptor) => {
                    &&& is_signable(metadata, origin@)
                    &&& is_signed(descriptor@, origin@)
                    &&& descriptor@ == signed_descriptor(metadata, origin@, secret_key@)
                    &&& descriptor.previous_descriptor_digest == metadata.previous_descriptor_digest
                },
                Err(error) => {
                    ||| !is_signable(metadata, origin@) && error
                        == IdentityPersistenceError::InvalidCommand("invalid completion descriptor")
                    ||| is_signable(metadata, origin@) && !key::is_public_key(
                        outside::ed25519_public_key_of(secret_key@),
                    ) && error == IdentityPersistenceError::InvalidCommand("completion public key")
                },
            },
    {
        if !is_canonical_https_origin(origin) || metadata.key_id[6] / 16 != 7 || metadata.epoch == 0
            || metadata.rollback_floor_epoch == 0 || metadata.rollback_floor_epoch > metadata.epoch
            || metadata.expires_at.get() <= metadata.issued_at.get() {
            return Err(
                IdentityPersistenceError::InvalidCommand("invalid completion descriptor"),
            );
        }
        let public_key = match SigningPublicKey::try_from(public_key(secret_key)) {
            Ok(public_key) => public_key,
            Err(_) => {
                return Err(IdentityPersistenceError::InvalidCommand("completion public key"));
            },
        };
        let ghost unsigned_model = unsigned_descriptor(metadata, public_key@);
        let ghost draft = Descriptor { signature: Seq::new(64, |i: int| 0u8), ..unsigned_model };
        public_key.checked();
        metadata.issued_at.checked();
        metadata.expires_at.checked();
        let origin_len: usize = encoded_len(origin);
        let ghost fields = descriptor_fields(draft, origin@);
        proof {
            authority::lemma_optional_digest(metadata.previous_descriptor_digest);
            lemma_descriptor_canonical(draft, origin@);
        }
        let unsigned = build_record(
            descriptor_values(&metadata, origin, &public_key, Ghost(draft)),
        );
        let unsigned_bytes = match encode_value(&unsigned) {
            Ok(bytes) => bytes,
            Err(_) => Vec::new(),
        };
        let mut input: Vec<u8> = to_vec(COMPLETION_DESCRIPTOR_SIGNATURE_DOMAIN.as_bytes());
        append_bytes(&mut input, unsigned_bytes.as_slice());
        let signature = Ed25519Signature::from_bytes(sign(secret_key, input.as_slice()));
        proof {
            signature.lemma_len();
        }
        let ghost signed = Descriptor { signature: signature@, ..draft };
        let mut values = descriptor_values(&metadata, origin, &public_key, Ghost(signed));
        values.push(signature.to_canonical_value());
        proof {
            assert(descriptor_fields(unsigned_model, origin@) == fields);
            assert(descriptor_fields(signed, origin@) == fields);
            assert(value::items_view(values@) =~= fields.push(Value::Bytes(signature@)));
            lemma_descriptor_canonical(signed, origin@);
        }
        let complete = build_record(values);
        let exact_bytes = match encode_value(&complete) {
            Ok(bytes) => bytes,
            Err(_) => Vec::new(),
        };
        let digest = Sha256Digest::hash_domain(
            COMPLETION_DESCRIPTOR_DOMAIN,
            exact_bytes.as_slice(),
        );
        proof {
            digest.lemma_len();
        }
        let descriptor = CompletionKeyDescriptor {
            key_id: metadata.key_id,
            public_key,
            epoch: metadata.epoch,
            rollback_floor_epoch: metadata.rollback_floor_epoch,
            issued_at: metadata.issued_at,
            expires_at: metadata.expires_at,
            previous_descriptor_digest: metadata.previous_descriptor_digest,
            signature,
            exact_bytes,
            digest,
        };
        assert(descriptor_fields(descriptor@, origin@) == fields);
        Ok(descriptor)
    }
}

/// Builds the signed fields of a descriptor.
fn descriptor_values(
    metadata: &CompletionSignerMetadata,
    origin: &str,
    public_key: &SigningPublicKey,
    Ghost(descriptor): Ghost<Descriptor>,
) -> (values: Vec<CanonicalValue>)
    requires
        descriptor.key_id == metadata.key_id@,
        descriptor.public_key == public_key@,
        descriptor.epoch == metadata.epoch,
        descriptor.rollback_floor_epoch == metadata.rollback_floor_epoch,
        descriptor.issued_at == metadata.issued_at@,
        descriptor.expires_at == metadata.expires_at@,
        descriptor.previous_descriptor_digest == authority::digest_view(
            metadata.previous_descriptor_digest,
        ),
    ensures
        value::items_view(values@) == descriptor_fields(descriptor, origin@),
{
    let values: Vec<CanonicalValue> = vec![
        CanonicalValue::Unsigned(2),
        CanonicalValue::Text(origin.to_owned()),
        CanonicalValue::Text(uuid_to_text(&metadata.key_id)),
        public_key.to_canonical_value(),
        CanonicalValue::Unsigned(metadata.epoch),
        CanonicalValue::Unsigned(metadata.rollback_floor_epoch),
        metadata.issued_at.to_canonical_value(),
        metadata.expires_at.to_canonical_value(),
        optional_digest_value(metadata.previous_descriptor_digest),
    ];
    assert(value::items_view(values@) =~= descriptor_fields(descriptor, origin@));
    values
}

/// The fields of a descriptor but for its version and origin have the right
/// form, up to the expiry.
pub open spec fn has_descriptor_head(value: Value) -> bool {
    &&& record::field_of(value, 3) is Text
    &&& outside::uuid_parsed(record::field_of(value, 3)->Text_0) is Some
    &&& record::field_of(value, 4) is Bytes
    &&& key::is_public_key(record::field_of(value, 4)->Bytes_0)
    &&& record::field_of(value, 5) is Unsigned
    &&& record::field_of(value, 6) is Unsigned
    &&& record::field_of(value, 7) is Unsigned
    &&& number::is_utc_millis(record::field_of(value, 7)->Unsigned_0 as i64 as int)
    &&& record::field_of(value, 8) is Unsigned
    &&& number::is_utc_millis(record::field_of(value, 8)->Unsigned_0 as i64 as int)
}

/// The descriptor that a value of the right form holds.
pub open spec fn descriptor_of(value: Value, bytes: Seq<u8>, digest: Seq<u8>) -> Descriptor {
    Descriptor {
        key_id: outside::uuid_parsed(record::field_of(value, 3)->Text_0)->0,
        public_key: record::field_of(value, 4)->Bytes_0,
        epoch: record::field_of(value, 5)->Unsigned_0,
        rollback_floor_epoch: record::field_of(value, 6)->Unsigned_0,
        issued_at: record::field_of(value, 7)->Unsigned_0 as i64,
        expires_at: record::field_of(value, 8)->Unsigned_0 as i64,
        previous_descriptor_digest: match record::field_of(value, 9) {
            Value::Bytes(digest) => Some(digest),
            _ => None,
        },
        signature: record::field_of(value, 10)->Bytes_0,
        exact_bytes: bytes,
        digest,
    }
}

/// What a stored value says: the descriptor, if it has the right form and is
/// signed by its own key.
pub open spec fn read_descriptor_value(value: Value, bytes: Seq<u8>, digest: Seq<u8>) -> Result<
    Descriptor,
    IdentityPersistenceError,
> {
    let malformed = Err::<Descriptor, IdentityPersistenceError>(
        IdentityPersistenceError::CorruptData("completion descriptor"),
    );
    if !has_descriptor_head(value) {
        malformed
    } else if record::field_of(value, 9) is Bytes && record::field_of(value, 9)->Bytes_0.len()
        != 32 {
        Err(IdentityPersistenceError::CorruptData("completion digest"))
    } else if !(record::field_of(value, 9) is Bytes || record::field_of(value, 9) is Null) {
        malformed
    } else if !(record::field_of(value, 10) is Bytes) || record::field_of(value, 10)->Bytes_0.len()
        != 64 {
        malformed
    } else if !outside::ed25519_accepted(
        record::field_of(value, 4)->Bytes_0,
        descriptor_signed_bytes(record::without_last(value)),
        record::field_of(value, 10)->Bytes_0,
    ) {
        malformed
    } else {
        Ok(descriptor_of(value, bytes, digest))
    }
}

/// The bytes have the stored digest and are a record of ten fields.
pub open spec fn open_descriptor_check(bytes: Seq<u8>, digest: Seq<u8>) -> Result<
    (),
    IdentityPersistenceError,
> {
    if digest.len() != 32 {
        Err(IdentityPersistenceError::CorruptData("completion digest"))
    } else if digest::hash_in_domain(COMPLETION_DESCRIPTOR_DOMAIN@, bytes) != digest {
        Err(IdentityPersistenceError::CorruptData("completion descriptor digest"))
    } else if !cbor::is_encoded(bytes) || !record::is_record(cbor::decoded(bytes), 10) {
        Err(IdentityPersistenceError::CorruptData("completion descriptor"))
    } else {
        Ok(())
    }
}

/// The descriptor that stored bytes and their digest hold.
pub open spec fn read_descriptor(bytes: Seq<u8>, digest: Seq<u8>) -> Result<
    Descriptor,
    IdentityPersistenceError,
> {
    match open_descriptor_check(bytes, digest) {
        Err(error) => Err(error),
        Ok(_) => read_descriptor_value(cbor::decoded(bytes), bytes, digest),
    }
}

/// The bytes of a signed descriptor open, and its signature covers them.
proof fn lemma_signed_opens(descriptor: Descriptor, origin: Seq<char>)
    requires
        is_signed(descriptor, origin),
    ensures
        open_descriptor_check(descriptor.exact_bytes, descriptor.digest) is Ok,
        cbor::decoded(descriptor.exact_bytes) == descriptor_model(descriptor, origin),
        record::without_last(descriptor_model(descriptor, origin)) == record::record(
            descriptor_fields(descriptor, origin),
        ),
{
    let fields = descriptor_fields(descriptor, origin);
    let complete = fields.push(Value::Bytes(descriptor.signature));
    lemma_descriptor_canonical(descriptor, origin);
    cbor_lemmas::lemma_decoded(descriptor_model(descriptor, origin));
    record::lemma_record_fields(complete);
    record::lemma_without_last_record(complete);
    assert(complete.drop_last() =~= fields);
}

/// A signed descriptor is read back from its bytes, once its key ID reads back.
proof fn lemma_signed_reads(descriptor: Descriptor, origin: Seq<char>)
    requires
        is_signed(descriptor, origin),
        descriptor.issued_at >= 0,
        descriptor.expires_at >= 0,
        outside::uuid_parsed(text::hyphenated(descriptor.key_id)) == Some(descriptor.key_id),
    ensures
        read_descriptor(descriptor.exact_bytes, descriptor.digest) == Ok::<
            Descriptor,
            IdentityPersistenceError,
        >(descriptor),
{
    lemma_signed_opens(descriptor, origin);
    let complete = descriptor_fields(descriptor, origin).push(Value::Bytes(descriptor.signature));
    let model = descriptor_model(descriptor, origin);
    record::lemma_record_fields(complete);
    assert(record::field_of(model, 3) == complete[2]);
    assert(record::field_of(model, 4) == complete[3]);
    assert(record::field_of(model, 5) == complete[4]);
    assert(record::field_of(model, 6) == complete[5]);
    assert(record::field_of(model, 7) == complete[6]);
    assert(record::field_of(model, 8) == complete[7]);
    assert(record::field_of(model, 9) == complete[8]);
    assert(record::field_of(model, 10) == complete[9]);
    let read = descriptor_of(model, descriptor.exact_bytes, descriptor.digest);
    assert(read.previous_descriptor_digest == descriptor.previous_descriptor_digest);
}

/// Opens stored bytes as a record of ten fields.
fn open_descriptor(bytes: &[u8], digest_bytes: &[u8]) -> (value: Result<
    CanonicalValue,
    IdentityPersistenceError,
>)
    ensures
        match value {
            Ok(value) => {
                &&& open_descriptor_check(bytes@, digest_bytes@) is Ok
                &&& value@ == cbor::decoded(bytes@)
                &&& cbor::canonical(value@)
            },
            Err(error) => open_descriptor_check(bytes@, digest_bytes@) == Err::<
                (),
                IdentityPersistenceError,
            >(error),
        },
{
    if digest_bytes.len() != 32 {
        return Err(IdentityPersistenceError::CorruptData("completion digest"));
    }
    let computed = Sha256Digest::hash_domain(COMPLETION_DESCRIPTOR_DOMAIN, bytes);
    if !bytes_equal(computed.as_bytes(), digest_bytes) {
        return Err(IdentityPersistenceError::CorruptData("completion descriptor digest"));
    }
    let value = match decode_exact(bytes) {
        Some(value) => value,
        None => {
            return Err(IdentityPersistenceError::CorruptData("completion descriptor"));
        },
    };
    match exact_fields(&value, 10) {
        Some(_) => {},
        None => {
            return Err(IdentityPersistenceError::CorruptData("completion descriptor"));
        },
    }
    Ok(value)
}

/// Reads a descriptor from its stored bytes and digest.
///
/// A descriptor that [`CompletionKeyDescriptor::from_signer`] made, at a time
/// not before the epoch, is read back as it was.
pub fn decode_descriptor(bytes: Vec<u8>, digest_bytes: Vec<u8>) -> (descriptor: Result<
    CompletionKeyDescriptor,
    IdentityPersistenceError,
>)
    ensures
        match descriptor {
            Ok(descriptor) => read_descriptor(bytes@, digest_bytes@) == Ok::<
                Descriptor,
                IdentityPersistenceError,
            >(descriptor@),
            Err(error) => read_descriptor(bytes@, digest_bytes@) == Err::<
                Descriptor,
                IdentityPersistenceError,
            >(error),
        },
        forall|made: Descriptor, origin: Seq<char>| #[trigger]
            is_signed(made, origin) && made.exact_bytes == bytes@ && made.digest == digest_bytes@
                && made.issued_at >= 0 && made.expires_at >= 0 ==> descriptor is Ok
                && descriptor->Ok_0@ == made,
{
    let value = match open_descriptor(bytes.as_slice(), digest_bytes.as_slice()) {
        Ok(value) => value,
        Err(error) => {
            proof {
                assert forall|made: Descriptor, origin: Seq<char>| #[trigger]
                    is_signed(made, origin) && made.exact_bytes == bytes@ && made.digest
                        == digest_bytes@ implies false by {
                    lemma_signed_opens(made, origin);
                }
            }
            return Err(error);
        },
    };
    let ghost model = value@;
    let key_id = match exact_fields(&value, 10) {
        Some(fields) => read_uuid(&fields[2].1),
        None => None,
    };
    proof {
        assert forall|made: Descriptor, origin: Seq<char>| #[trigger]
            is_signed(made, origin) && made.exact_bytes == bytes@ && made.digest == digest_bytes@
                && made.issued_at >= 0 && made.expires_at >= 0 implies read_descriptor(
            bytes@,
            digest_bytes@,
        ) == Ok::<Descriptor, IdentityPersistenceError>(made) by {
            lemma_signed_opens(made, origin);
            let complete = descriptor_fields(made, origin).push(Value::Bytes(made.signature));
            record::lemma_record_fields(complete);
            assert(record::field_of(model, 3) == complete[2]);
            lemma_signed_reads(made, origin);
        }
    }
    let key_id = match key_id {
        Some(key_id) => key_id,
        None => {
            return Err(IdentityPersistenceError::CorruptData("completion descriptor"));
        },
    };
    read_signed_descriptor(value, key_id, bytes, digest_bytes.as_slice())
}

/// Reads the rest of a descriptor whose key ID is known.
fn read_signed_descriptor(
    value: CanonicalValue,
    key_id: [u8; 16],
    bytes: Vec<u8>,
    digest_bytes: &[u8],
) -> (descriptor: Result<CompletionKeyDescriptor, IdentityPersistenceError>)
    requires
        record::is_record(value@, 10),
        cbor::canonical(value@),
        record::field_of(value@, 3) is Text,
        outside::uuid_parsed(record::field_of(value@, 3)->Text_0) == Some(key_id@),
        digest_bytes@.len() == 32,
    ensures
        match descriptor {
            Ok(descriptor) => read_descriptor_value(value@, bytes@, digest_bytes@) == Ok::<
                Descriptor,
                IdentityPersistenceError,
            >(descriptor@),
            Err(error) => read_descriptor_value(value@, bytes@, digest_bytes@) == Err::<
                Descriptor,
                IdentityPersistenceError,
            >(error),
        },
{
    let malformed = IdentityPersistenceError::CorruptData("completion descriptor");
    let fields = match exact_fields(&value, 10) {
        Some(fields) => fields,
        None => {
            return Err(malformed);
        },
    };
    let public_key = match &fields[3].1 {
        CanonicalValue::Bytes(raw) => match to_array::<32>(raw.as_slice()) {
            Some(raw) => match SigningPublicKey::try_from(raw) {
                Ok(public_key) => public_key,
                Err(_) => {
                    return Err(malformed);
                },
            },
            None => {
                return Err(malformed);
            },
        },
        _ => {
            return Err(malformed);
        },
    };
    let epoch: u64 = match &fields[4].1 {
        CanonicalValue::Unsigned(epoch) => *epoch,
        _ => {
            return Err(malformed);
        },
    };
    let rollback_floor_epoch: u64 = match &fields[5].1 {
        CanonicalValue::Unsigned(epoch) => *epoch,
        _ => {
            return Err(malformed);
        },
    };
    let issued_at = match read_time(&fields[6].1) {
        Some(time) => time,
        None => {
            return Err(malformed);
        },
    };
    let expires_at = match read_time(&fields[7].1) {
        Some(time) => time,
        None => {
            return Err(malformed);
        },
    };
    let previous_descriptor_digest = match &fields[8].1 {
        CanonicalValue::Null => None,
        CanonicalValue::Bytes(raw) => match to_array::<32>(raw.as_slice()) {
            Some(raw) => Some(Sha256Digest::from_bytes(raw)),
            None => {
                return Err(IdentityPersistenceError::CorruptData("completion digest"));
            },
        },
        _ => {
            return Err(malformed);
        },
    };
    let signature = match &fields[9].1 {
        CanonicalValue::Bytes(raw) => match to_array::<64>(raw.as_slice()) {
            Some(raw) => Ed25519Signature::from_bytes(raw),
            None => {
                return Err(malformed);
            },
        },
        _ => {
            return Err(malformed);
        },
    };
    let digest = match to_array::<32>(digest_bytes) {
        Some(raw) => Sha256Digest::from_bytes(raw),
        None => {
            return Err(malformed);
        },
    };
    let unsigned_bytes = encode_without_last(value);
    let mut input: Vec<u8> = to_vec(COMPLETION_DESCRIPTOR_SIGNATURE_DOMAIN.as_bytes());
    append_bytes(&mut input, unsigned_bytes.as_slice());
    if !verify(public_key.as_bytes(), input.as_slice(), signature.as_bytes()) {
        return Err(malformed);
    }
    Ok(
        CompletionKeyDescriptor {
            key_id,
            public_key,
            epoch,
            rollback_floor_epoch,
            issued_at,
            expires_at,
            previous_descriptor_digest,
            signature,
            exact_bytes: bytes,
            digest,
        },
    )
}

} // verus!
