//! Root-signed device certificates.

use vstd::prelude::*;
use crate::log::error::IdentityLogError;
use crate::log::proof_input;
use crate::log::proof_input::{
    canonical_hash, signature_input, verify_signature, DEVICE_CERTIFICATE_HASH_DOMAIN,
    DEVICE_CERTIFICATE_SIGNATURE_DOMAIN,
};
use crate::log::wire_line;
use crate::log::wire_line::validate_wire_version;
use crate::outside;
use crate::wire::bytes::bytes_equal;
use crate::wire::cbor;
use crate::wire::digest::Sha256Digest;
use crate::wire::id;
use crate::wire::id::{DeviceId, IdentityId};
use crate::wire::key;
use crate::wire::key::{DeviceEncryptionPublicKey, Ed25519Signature, SigningPublicKey};
use crate::wire::number;
use crate::wire::number::UtcMillis;
use crate::wire::record;
use crate::wire::record::{build_record, encode_deterministic_cbor, CanonicalEncode};
use crate::wire::text;
use crate::wire::value;
use crate::wire::value::{CanonicalValue, Value};
use crate::wire::version;
use crate::wire::version::{wire_value, WireVersion};

verus! {

/// The model of unsigned certificate content.
pub struct UnsignedCertificate {
    pub wire: WireVersion,
    pub identity_id: Seq<u8>,
    pub device_id: Seq<u8>,
    pub device_signing_key: Seq<u8>,
    pub device_encryption_key: Seq<u8>,
    pub issuer_root_key: Seq<u8>,
    pub issued_at: i64,
}

/// The model of a signed certificate.
pub struct Certificate {
    pub unsigned: UnsignedCertificate,
    pub signature: Seq<u8>,
}

/// Certificate content that can be built: a supported wire version, fields of
/// the right form, and a device key apart from the other two.
pub open spec fn is_unsigned_certificate(content: UnsignedCertificate) -> bool {
    &&& wire_line::is_supported(content.wire)
    &&& content.identity_id.len() == 32
    &&& id::is_uuid_v7(content.device_id)
    &&& key::is_public_key(content.device_signing_key)
    &&& key::is_public_key(content.device_encryption_key)
    &&& key::is_public_key(content.issuer_root_key)
    &&& number::is_utc_millis(content.issued_at as int)
    &&& content.device_signing_key != content.device_encryption_key
    &&& content.device_signing_key != content.issuer_root_key
}

/// The canonical fields of unsigned certificate content.
pub open spec fn unsigned_certificate_fields(content: UnsignedCertificate) -> Seq<Value> {
    seq![
        version::wire_model(content.wire),
        Value::Text(text::hex(content.identity_id)),
        Value::Text(text::hyphenated(content.device_id)),
        Value::Bytes(content.device_signing_key),
        Value::Bytes(content.device_encryption_key),
        Value::Bytes(content.issuer_root_key),
        number::millis_model(content.issued_at),
    ]
}

/// The canonical value of a signed certificate.
pub open spec fn certificate_model(certificate: Certificate) -> Value {
    record::record(
        unsigned_certificate_fields(certificate.unsigned).push(Value::Bytes(certificate.signature)),
    )
}

/// The bytes that the issuer signs.
pub open spec fn certificate_signed_bytes(content: UnsignedCertificate) -> Seq<u8> {
    proof_input::value_signed_bytes(
        DEVICE_CERTIFICATE_HASH_DOMAIN@,
        DEVICE_CERTIFICATE_SIGNATURE_DOMAIN@,
        record::record(unsigned_certificate_fields(content)),
    )
}

/// The issuer's signature authenticates the exact content.
pub open spec fn is_authentic_certificate(certificate: Certificate) -> bool {
    outside::ed25519_strict_accepted(
        certificate.unsigned.issuer_root_key,
        certificate_signed_bytes(certificate.unsigned),
        certificate.signature,
    )
}

/// Certificate values nest three levels.
pub proof fn lemma_certificate_canonical(certificate: Certificate)
    requires
        certificate.unsigned.identity_id.len() == 32,
        certificate.unsigned.device_id.len() == 16,
        certificate.unsigned.device_signing_key.len() == 32,
        certificate.unsigned.device_encryption_key.len() == 32,
        certificate.unsigned.issuer_root_key.len() == 32,
        certificate.signature.len() == 64,
    ensures
        cbor::canonical_within(
            record::record(unsigned_certificate_fields(certificate.unsigned)),
            3,
        ),
        cbor::canonical_within(certificate_model(certificate), 3),
{
    let content = certificate.unsigned;
    version::lemma_wire_canonical(content.wire);
    text::lemma_hex_ascii(content.identity_id);
    text::lemma_ascii_len(text::hex(content.identity_id));
    text::lemma_hyphenated_ascii(content.device_id);
    text::lemma_ascii_len(text::hyphenated(content.device_id));
    let fields = unsigned_certificate_fields(content);
    record::lemma_record_canonical(fields, 2);
    record::lemma_record_canonical(fields.push(Value::Bytes(certificate.signature)), 2);
}

/// The unsigned root-issued content of a device certificate.
#[derive(Clone, Copy, Debug, PartialEq, Eq)]
pub struct UnsignedDeviceCertificateV1 {
    wire: WireVersion,
    identity_id: IdentityId,
    device_id: DeviceId,
    device_signing_key: SigningPublicKey,
    device_encryption_key: DeviceEncryptionPublicKey,
    issuer_root_key: SigningPublicKey,
    issued_at: UtcMillis,
}

impl UnsignedDeviceCertificateV1 {
    #[verifier::type_invariant]
    spec fn valid(self) -> bool {
        is_unsigned_certificate(self@)
    }

    /// The model of the content.
    pub closed spec fn view(&self) -> UnsignedCertificate {
        UnsignedCertificate {
            wire: self.wire,
            identity_id: self.identity_id@,
            device_id: self.device_id@,
            device_signing_key: self.device_signing_key@,
            device_encryption_key: self.device_encryption_key@,
            issuer_root_key: self.issuer_root_key@,
            issued_at: self.issued_at@,
        }
    }

    /// Creates exact unsigned certificate content for an identity device.
    ///
    /// The caller obtains the root signature externally, then passes it to
    /// [`DeviceCertificateV1::signed`].
    pub fn new(
        wire: WireVersion,
        identity_id: IdentityId,
        device_id: DeviceId,
        device_signing_key: SigningPublicKey,
        device_encryption_key: DeviceEncryptionPublicKey,
        issuer_root_key: SigningPublicKey,
        issued_at: UtcMillis,
    ) -> (content: Result<Self, IdentityLogError>)
        ensures
            match content {
                Ok(content) => {
                    &&& is_unsigned_certificate(content@)
                    &&& content@ == (UnsignedCertificate {
                        wire,
                        identity_id: identity_id@,
                        device_id: device_id@,
                        device_signing_key: device_signing_key@,
                        device_encryption_key: device_encryption_key@,
                        issuer_root_key: issuer_root_key@,
                        issued_at: issued_at@,
                    })
                },
                Err(error) => {
                    if !wire_line::is_supported(wire) {
                        error == IdentityLogError::InvalidWireVersion
                    } else {
                        &&& device_signing_key@ == device_encryption_key@ || device_signing_key@
                            == issuer_root_key@
                        &&& error == IdentityLogError::InvalidDeviceCertificate
                    }
                },
            },
    {
        match validate_wire_version(wire) {
            Ok(_) => {},
            Err(error) => {
                return Err(error);
            },
        }
        if bytes_equal(device_signing_key.as_bytes(), device_encryption_key.as_bytes())
            || device_signing_key == issuer_root_key {
            return Err(IdentityLogError::InvalidDeviceCertificate);
        }
        proof {
            identity_id.lemma_len();
        }
        device_id.checked();
        device_signing_key.checked();
        device_encryption_key.checked();
        issuer_root_key.checked();
        issued_at.checked();
        Ok(
            UnsignedDeviceCertificateV1 {
                wire,
                identity_id,
                device_id,
                device_signing_key,
                device_encryption_key,
                issuer_root_key,
                issued_at,
            },
        )
    }

    /// The canonical fields of the content.
    fn canonical_fields(&self) -> (fields: Vec<CanonicalValue>)
        ensures
            value::items_view(fields@) == unsigned_certificate_fields(self@),
            fields@.len() == 7,
    {
        let fields = vec![
            wire_value(self.wire),
            self.identity_id.to_canonical_value(),
            self.device_id.to_canonical_value(),
            self.device_signing_key.to_canonical_value(),
            self.device_encryption_key.to_canonical_value(),
            self.issuer_root_key.to_canonical_value(),
            self.issued_at.to_canonical_value(),
        ];
        assert(value::items_view(fields@) =~= unsigned_certificate_fields(self@));
        fields
    }

    /// The domain-separated digest the issuer must authenticate.
    pub fn signing_digest(&self) -> (digest: Result<Sha256Digest, IdentityLogError>)
        ensures
            digest is Ok,
            digest->Ok_0@ == proof_input::value_digest(
                DEVICE_CERTIFICATE_HASH_DOMAIN@,
                record::record(unsigned_certificate_fields(self@)),
            ),
    {
        proof {
            use_type_invariant(self);
            let signed = Certificate { unsigned: self@, signature: Seq::new(64, |i: int| 0u8) };
            lemma_certificate_canonical(signed);
            record::lemma_canonical_deeper(self.model(), 3, cbor::MAX_CANONICAL_DEPTH as nat);
        }
        canonical_hash(DEVICE_CERTIFICATE_HASH_DOMAIN, self)
    }
}

impl CanonicalEncode for UnsignedDeviceCertificateV1 {
    open spec fn model(&self) -> Value {
        record::record(unsigned_certificate_fields(self@))
    }

    fn to_canonical_value(&self) -> (value: CanonicalValue) {
        build_record(self.canonical_fields())
    }
}

/// A root-signed certificate binding one device's signing and encryption keys.
#[derive(Clone, Copy, Debug, PartialEq, Eq)]
pub struct DeviceCertificateV1 {
    unsigned: UnsignedDeviceCertificateV1,
    signature: Ed25519Signature,
}

impl DeviceCertificateV1 {
    /// The model of the certificate.
    pub closed spec fn view(&self) -> Certificate {
        Certificate { unsigned: self.unsigned@, signature: self.signature@ }
    }

    /// Attaches and verifies the root signature over an unsigned certificate.
    pub fn signed(unsigned: UnsignedDeviceCertificateV1, signature: Ed25519Signature) -> (signed:
        Result<Self, IdentityLogError>)
        ensures
            ({
                let model = Certificate { unsigned: unsigned@, signature: signature@ };
                match signed {
                    Ok(certificate) => {
                        &&& certificate@ == model
                        &&& is_authentic_certificate(model)
                    },
                    Err(error) => {
                        &&& !is_authentic_certificate(model)
                        &&& error == IdentityLogError::InvalidDeviceCertificate
                    },
                }
            }),
    {
        let certificate = DeviceCertificateV1 { unsigned, signature };
        match certificate.verify() {
            Ok(_) => Ok(certificate),
            Err(error) => Err(error),
        }
    }

    /// Re-verifies the issuer proof before a certificate enters the log.
    pub fn verify(&self) -> (verified: Result<(), IdentityLogError>)
        ensures
            verified == if is_authentic_certificate(self@) {
                Ok::<(), IdentityLogError>(())
            } else {
                Err(IdentityLogError::InvalidDeviceCertificate)
            },
    {
        let digest = match self.unsigned.signing_digest() {
            Ok(digest) => digest,
            Err(error) => {
                return Err(error);
            },
        };
        let input = device_certificate_signature_input(digest);
        match verify_signature(self.unsigned.issuer_root_key, input.as_slice(), self.signature) {
            Ok(_) => Ok(()),
            Err(_) => Err(IdentityLogError::InvalidDeviceCertificate),
        }
    }

    /// States what the types guarantee of every certificate.
    pub(crate) fn checked(&self)
        ensures
            is_unsigned_certificate(self@.unsigned),
            self@.signature.len() == 64,
    {
        let unsigned: &UnsignedDeviceCertificateV1 = &self.unsigned;
        proof {
            use_type_invariant(unsigned);
            self.signature.lemma_len();
        }
    }

    /// Encodes the full certificate using deterministic CBOR.
    pub fn to_deterministic_cbor(&self) -> (encoded: Result<Vec<u8>, IdentityLogError>)
        ensures
            encoded is Ok,
            encoded->Ok_0@ == cbor::encoding(certificate_model(self@)),
    {
        self.checked();
        proof {
            lemma_certificate_canonical(self@);
            record::lemma_canonical_deeper(self.model(), 3, cbor::MAX_CANONICAL_DEPTH as nat);
        }
        match encode_deterministic_cbor(self) {
            Ok(bytes) => Ok(bytes),
            Err(_) => Err(IdentityLogError::InvalidCanonical),
        }
    }

    /// The exact wire version authenticated by this certificate.
    pub fn wire(&self) -> (wire: WireVersion)
        ensures
            wire == self@.unsigned.wire,
    {
        self.unsigned.wire
    }

    /// The identity named by this certificate.
    pub fn identity_id(&self) -> (id: IdentityId)
        ensures
            id@ == self@.unsigned.identity_id,
    {
        self.unsigned.identity_id
    }

    /// The immutable device ID.
    pub fn device_id(&self) -> (id: DeviceId)
        ensures
            id@ == self@.unsigned.device_id,
    {
        self.unsigned.device_id
    }

    /// The device signing key.
    pub fn device_signing_key(&self) -> (key: SigningPublicKey)
        ensures
            key@ == self@.unsigned.device_signing_key,
    {
        self.unsigned.device_signing_key
    }

    /// The device encryption key.
    pub fn device_encryption_key(&self) -> (key: DeviceEncryptionPublicKey)
        ensures
            key@ == self@.unsigned.device_encryption_key,
    {
        self.unsigned.device_encryption_key
    }

    /// The root key that issued this certificate.
    pub fn issuer_root_key(&self) -> (key: SigningPublicKey)
        ensures
            key@ == self@.unsigned.issuer_root_key,
    {
        self.unsigned.issuer_root_key
    }

    /// The certificate issuance time.
    pub fn issued_at(&self) -> (time: UtcMillis)
        ensures
            time@ == self@.unsigned.issued_at,
    {
        self.unsigned.issued_at
    }
}

impl CanonicalEncode for DeviceCertificateV1 {
    open spec fn model(&self) -> Value {
        certificate_model(self@)
    }

    fn to_canonical_value(&self) -> (value: CanonicalValue) {
        let mut fields = self.unsigned.canonical_fields();
        let ghost before = fields@;
        fields.push(self.signature.to_canonical_value());
        assert(value::items_view(fields@) =~= value::items_view(before).push(
            Value::Bytes(self@.signature),
        ));
        build_record(fields)
    }
}

/// The exact bytes a device root key must sign for `digest`.
pub fn device_certificate_signature_input(digest: Sha256Digest) -> (input: Vec<u8>)
    ensures
        input@ == proof_input::signed_bytes(DEVICE_CERTIFICATE_SIGNATURE_DOMAIN@, digest@),
{
    signature_input(DEVICE_CERTIFICATE_SIGNATURE_DOMAIN, digest)
}

} // verus!
