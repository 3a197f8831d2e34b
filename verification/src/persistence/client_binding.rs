//! Client bindings: who may bootstrap an identity on a fresh deployment.

use vstd::prelude::*;
use vstd::utf8::*;
use crate::log::error::IdentityLogError;
use crate::log::event::{Event, IdentityLogEventV1};
use crate::log::event_codec;
use crate::log::payload::IdentityLogEventPayloadV1;
use crate::log::wire_line::IDENTITY_LOG_WIRE_VERSION;
use crate::outside;
use crate::outside::{
    base64url_decode, base64url_encode, json_number, json_string, parse_pem, sha256, uuid_from_text,
    uuid_to_text, zeroize, zeroize_bytes, zeroize_text,
};
use crate::persistence::error::IdentityPersistenceError;
use crate::persistence::head;
use crate::persistence::head::{Head, IdentityLogHead};
use crate::persistence::origin;
use crate::persistence::origin::is_canonical_https_origin;
use crate::wire::base64;
use crate::wire::bytes;
use crate::wire::bytes::{append_bytes, bytes_equal, to_array, to_vec};
use crate::wire::digest;
use crate::wire::digest::Sha256Digest;
use crate::wire::id::{DeviceId, IdentityId};
use crate::wire::number::{SafeUint, UtcMillis};
use crate::wire::text;
use crate::wire::text::{encoded_len, from_hex, text_equal};

verus! {

/// Domain separator for the digest of a binding authorization.
pub const CLIENT_BINDING_AUTHORIZATION_HASH_DOMAIN: &'static str =
    "dirextalk.client-binding-authorization.v1\0";

/// Domain separator reserved for the durable issuance request digest contract.
pub const CLIENT_BINDING_ISSUE_HASH_DOMAIN: &'static str =
    "dirextalk.client-binding-issue-request.v1\0";

/// Domain separator for the digest of a bootstrap request.
pub const CLIENT_BINDING_BOOTSTRAP_HASH_DOMAIN: &'static str =
    "dirextalk.client-binding-bootstrap-request.v1\0";

/// Domain separator for the digest of an initial-device request.
pub const CLIENT_BINDING_INITIAL_DEVICE_HASH_DOMAIN: &'static str =
    "dirextalk.client-binding-initial-device-request.v1\0";

/// The most bytes of an import artifact.
pub const MAX_IMPORT_BYTES: usize = 24_576;

/// The most bytes of the root certificate in an import artifact.
pub const MAX_CA_BYTES: usize = 12_288;

/// The longest lifetime of a binding.
pub const MAX_BINDING_LIFETIME_MILLIS: i64 = 900_000;

/// An import artifact is not exact and valid.
#[derive(Clone, Copy, Debug, PartialEq, Eq, Structural)]
pub struct ClientBindingImportError;

impl ClientBindingImportError {
    /// What went wrong, in words.
    pub fn message(&self) -> (text: String)
        ensures
            text@ == "invalid client binding"@,
    {
        "invalid client binding".to_owned()
    }
}

/// A client-binding bearer capability. It deliberately has no Debug or Clone;
/// whoever owns it wipes it with [`ClientBindingAuthorization::zeroize`].
pub struct ClientBindingAuthorization {
    secret: [u8; 32],
}

/// The digest under which an authorization is stored.
pub open spec fn authorization_digest_of(secret: Seq<u8>) -> Seq<u8> {
    digest::hash_in_domain(CLIENT_BINDING_AUTHORIZATION_HASH_DOMAIN@, secret)
}

/// The text is the base64url text of some thirty-two bytes.
pub open spec fn is_authorization_text(text: Seq<char>) -> bool {
    exists|raw: Seq<u8>| raw.len() == 32 && text == #[trigger] base64::base64url(raw)
}

impl ClientBindingAuthorization {
    /// The raw value.
    pub closed spec fn view(&self) -> Seq<u8> {
        self.secret@
    }

    /// Parses the canonical unpadded base64url bearer value, and wipes the buffer
    /// that it was decoded into.
    pub fn parse(value: &str) -> (authorization: Result<Self, ClientBindingImportError>)
        ensures
            match authorization {
                Ok(authorization) => {
                    &&& authorization@.len() == 32
                    &&& value@ == base64::base64url(authorization@)
                },
                Err(_) => !is_authorization_text(value@),
            },
    {
        if encoded_len(value) != 43 {
            proof {
                assert forall|raw: Seq<u8>| raw.len() == 32 implies value@
                    != #[trigger] base64::base64url(raw) by {
                    if value@ == base64::base64url(raw) {
                        lemma_base64url_ascii(raw);
                    }
                }
            }
            return Err(ClientBindingImportError);
        }
        let mut raw: [u8; 32] = [0u8; 32];
        let authorization = if base64url_decode(value, &mut raw) {
            Ok(ClientBindingAuthorization { secret: raw })
        } else {
            Err(ClientBindingImportError)
        };
        zeroize(&mut raw);
        authorization
    }

    /// The digest under which the authorization is stored.
    pub fn digest(&self) -> (digest: Sha256Digest)
        ensures
            digest@ == authorization_digest_of(self@),
    {
        Sha256Digest::hash_domain(CLIENT_BINDING_AUTHORIZATION_HASH_DOMAIN, &self.secret)
    }

    /// The canonical unpadded base64url bearer value.
    pub fn encoded(&self) -> (text: String)
        ensures
            text@ == base64::base64url(self@),
    {
        base64url_encode(&self.secret)
    }

    /// Wipes the raw value.
    pub fn zeroize(&mut self)
        ensures
            bytes::all_zero(final(self)@),
    {
        zeroize(&mut self.secret);
    }
}

/// A base64url text is ASCII, so that it has a byte for each character.
proof fn lemma_base64url_ascii(raw: Seq<u8>)
    requires
        raw.len() == 32,
    ensures
        encode_utf8(base64::base64url(raw)).len() == 43,
{
    let text = base64::base64url(raw);
    assert(text.len() == 43);
    assert forall|i: int| 0 <= i < text.len() implies (#[trigger] text[i]) as u32 <= 127 by {
        assert(text[i] == base64::base64url_char(base64::sextet(raw, i)));
    }
    text::lemma_ascii_len(text);
}

/// Parsing the text of an authorization gives that authorization back.
pub proof fn law_authorization_text_round_trip(a: Seq<u8>, b: Seq<u8>)
    requires
        a.len() == 32,
        b.len() == 32,
        base64::base64url(a) == base64::base64url(b),
    ensures
        a == b,
        is_authorization_text(base64::base64url(a)),
{
    base64::lemma_base64url_injective(a, b);
}

/// The fields of an import artifact, as its JSON object holds them.
pub struct ImportFields {
    /// The schema.
    pub schema: String,
    /// The version of the schema.
    pub schema_version: u8,
    /// The text of the binding's UUID.
    pub binding_id: String,
    /// The text of the deployment operation's UUID.
    pub deployment_operation_id: String,
    /// The text of the tenant's UUID.
    pub tenant_id: String,
    /// The origin of the server.
    pub server_origin: String,
    /// The root certificate of the identity service.
    pub identity_tls_root_ca_pem: String,
    /// The hexadecimal digest of the root certificate.
    pub identity_tls_root_ca_sha256: String,
    /// When the binding expires.
    pub expires_at_unix_ms: i64,
    /// The text of the authorization.
    pub authorization: String,
}

/// The only byte form of an import artifact: one JSON object with its fields in
/// order and nothing between them.
pub open spec fn canonical_import(fields: ImportFields) -> Seq<u8> {
    encode_utf8("{\"schema\":"@) + encode_utf8(outside::json_string_of(fields.schema@))
        + encode_utf8(",\"schema_version\":"@) + encode_utf8(
        text::decimal_int(fields.schema_version as int),
    ) + encode_utf8(",\"binding_id\":"@) + encode_utf8(
        outside::json_string_of(fields.binding_id@),
    ) + encode_utf8(",\"deployment_operation_id\":"@) + encode_utf8(
        outside::json_string_of(fields.deployment_operation_id@),
    ) + encode_utf8(",\"tenant_id\":"@) + encode_utf8(outside::json_string_of(fields.tenant_id@))
        + encode_utf8(",\"server_origin\":"@) + encode_utf8(
        outside::json_string_of(fields.server_origin@),
    ) + encode_utf8(",\"identity_tls_root_ca_pem\":"@) + encode_utf8(
        outside::json_string_of(fields.identity_tls_root_ca_pem@),
    ) + encode_utf8(",\"identity_tls_root_ca_sha256\":"@) + encode_utf8(
        outside::json_string_of(fields.identity_tls_root_ca_sha256@),
    ) + encode_utf8(",\"expires_at_unix_ms\":"@) + encode_utf8(
        text::decimal_int(fields.expires_at_unix_ms as int),
    ) + encode_utf8(",\"authorization\":"@) + encode_utf8(
        outside::json_string_of(fields.authorization@),
    ) + encode_utf8("}"@)
}

/// Appends the JSON text of a secret, and wipes the copy that was appended.
fn append_secret(out: &mut Vec<u8>, secret: &str)
    ensures
        final(out)@ == old(out)@ + encode_utf8(outside::json_string_of(secret@)),
{
    let mut json = json_string(secret);
    append_bytes(out, json.as_str().as_bytes());
    zeroize_text(&mut json);
}

/// Writes the only byte form of an import artifact.
fn write_import(fields: &ImportFields) -> (written: Vec<u8>)
    ensures
        written@ == canonical_import(*fields),
{
    let mut out: Vec<u8> = to_vec("{\"schema\":".as_bytes());
    append_bytes(&mut out, json_string(fields.schema.as_str()).as_str().as_bytes());
    append_bytes(&mut out, ",\"schema_version\":".as_bytes());
    append_bytes(&mut out, json_number(fields.schema_version as i64).as_str().as_bytes());
    append_bytes(&mut out, ",\"binding_id\":".as_bytes());
    append_bytes(&mut out, json_string(fields.binding_id.as_str()).as_str().as_bytes());
    append_bytes(&mut out, ",\"deployment_operation_id\":".as_bytes());
    append_bytes(
        &mut out,
        json_string(fields.deployment_operation_id.as_str()).as_str().as_bytes(),
    );
    append_bytes(&mut out, ",\"tenant_id\":".as_bytes());
    append_bytes(&mut out, json_string(fields.tenant_id.as_str()).as_str().as_bytes());
    append_bytes(&mut out, ",\"server_origin\":".as_bytes());
    append_bytes(&mut out, json_string(fields.server_origin.as_str()).as_str().as_bytes());
    append_bytes(&mut out, ",\"identity_tls_root_ca_pem\":".as_bytes());
    append_secret(&mut out, fields.identity_tls_root_ca_pem.as_str());
    append_bytes(&mut out, ",\"identity_tls_root_ca_sha256\":".as_bytes());
    append_bytes(
        &mut out,
        json_string(fields.identity_tls_root_ca_sha256.as_str()).as_str().as_bytes(),
    );
    append_bytes(&mut out, ",\"expires_at_unix_ms\":".as_bytes());
    append_bytes(&mut out, json_number(fields.expires_at_unix_ms).as_str().as_bytes());
    append_bytes(&mut out, ",\"authorization\":".as_bytes());
    append_secret(&mut out, fields.authorization.as_str());
    append_bytes(&mut out, "}".as_bytes());
    out
}

/// The text is the canonical one of a UUID of version seven.
pub open spec fn is_canonical_v7(text: Seq<char>) -> bool {
    exists|raw: Seq<u8>|
        raw.len() == 16 && raw[6] / 16 == 7 && text == #[trigger] text::hyphenated(raw)
}

/// Reads the canonical text of a UUID of version seven.
fn canonical_v7(value: &str) -> (id: Option<[u8; 16]>)
    ensures
        match id {
            Some(id) => id@[6] / 16 == 7 && value@ == text::hyphenated(id@),
            None => !is_canonical_v7(value@),
        },
{
    match uuid_from_text(value) {
        Some(id) => {
            if text_equal(uuid_to_text(&id).as_str(), value) && id[6] / 16 == 7 {
                Some(id)
            } else {
                None
            }
        },
        None => None,
    }
}

/// The certificate of an import artifact: one PEM block of a certification
/// authority and nothing else, with the stated digest.
pub open spec fn is_root_certificate(
    pem: Seq<char>,
    parsed: Option<(usize, Option<bool>)>,
    stated: Seq<char>,
) -> bool {
    &&& encode_utf8(pem).len() <= MAX_CA_BYTES
    &&& parsed == Some((0usize, Some(true)))
    &&& stated == text::hex(outside::sha256_of(encode_utf8(pem)))
}

/// Whether a certificate, parsed as `parsed`, is that of an import artifact.
pub fn has_root_certificate(pem: &str, parsed: Option<(usize, Option<bool>)>, stated: &str) -> (has:
    bool)
    ensures
        has == is_root_certificate(pem@, parsed, stated@),
{
    if encoded_len(pem) > MAX_CA_BYTES {
        return false;
    }
    let trusted = match parsed {
        Some((following, Some(is_ca))) => following == 0 && is_ca,
        _ => false,
    };
    let actual = sha256(pem.as_bytes());
    let digest: Option<[u8; 32]> = from_hex::<32>(stated);
    let same = match digest {
        Some(digest) => {
            proof {
                if stated@ == text::hex(actual@) {
                    text::lemma_hex_injective(digest@, actual@);
                }
            }
            bytes_equal(&actual, &digest)
        },
        None => false,
    };
    trusted && same
}

/// The fields of an import artifact are valid.
pub open spec fn is_import(fields: ImportFields) -> bool {
    &&& fields.schema@ == "dirextalk.client-binding"@
    &&& fields.schema_version == 1
    &&& origin::is_canonical_origin(fields.server_origin@)
    &&& is_canonical_v7(fields.binding_id@)
    &&& is_canonical_v7(fields.deployment_operation_id@)
    &&& is_canonical_v7(fields.tenant_id@)
    &&& is_root_certificate(
        fields.identity_tls_root_ca_pem@,
        outside::pem_parsed(fields.identity_tls_root_ca_pem@),
        fields.identity_tls_root_ca_sha256@,
    )
    &&& is_authorization_text(fields.authorization@)
}

/// What an import holds.
pub struct Import {
    /// The UUID of the binding.
    pub binding_id: Seq<u8>,
    /// The UUID of the deployment operation.
    pub deployment_operation_id: Seq<u8>,
    /// The UUID of the tenant.
    pub tenant_id: Seq<u8>,
    /// The origin of the server.
    pub server_origin: Seq<char>,
    /// The root certificate of the identity service.
    pub identity_tls_root_ca_pem: Seq<char>,
    /// When the binding expires.
    pub expires_at_unix_ms: i64,
    /// The raw authorization.
    pub authorization: Seq<u8>,
}

/// Strict, locally parsed import. The authorization is retained only in this
/// value, which has no Debug.
pub struct ClientBindingImport {
    binding_id: [u8; 16],
    deployment_operation_id: [u8; 16],
    tenant_id: [u8; 16],
    server_origin: String,
    identity_tls_root_ca_pem: String,
    expires_at_unix_ms: i64,
    authorization: ClientBindingAuthorization,
}

/// The import holds what the fields hold.
pub open spec fn is_import_of(import: Import, fields: ImportFields) -> bool {
    &&& import.binding_id.len() == 16
    &&& text::hyphenated(import.binding_id) == fields.binding_id@
    &&& import.deployment_operation_id.len() == 16
    &&& text::hyphenated(import.deployment_operation_id) == fields.deployment_operation_id@
    &&& import.tenant_id.len() == 16
    &&& text::hyphenated(import.tenant_id) == fields.tenant_id@
    &&& import.server_origin == fields.server_origin@
    &&& import.identity_tls_root_ca_pem == fields.identity_tls_root_ca_pem@
    &&& import.expires_at_unix_ms == fields.expires_at_unix_ms
    &&& import.authorization.len() == 32
    &&& base64::base64url(import.authorization) == fields.authorization@
}

/// Whether the bytes are the only byte form of the fields; the byte form that
/// they are compared with is wiped.
fn is_written(fields: &ImportFields, bytes: &[u8]) -> (written: bool)
    ensures
        written == (bytes@ == canonical_import(*fields)),
{
    let mut canonical = write_import(fields);
    let same = bytes_equal(canonical.as_slice(), bytes);
    zeroize_bytes(&mut canonical);
    same
}

/// Checks the fields of an import artifact; gives the three UUIDs and the
/// authorization.
fn check_import(fields: &ImportFields) -> (checked: Result<
    ([u8; 16], [u8; 16], [u8; 16], ClientBindingAuthorization),
    ClientBindingImportError,
>)
    ensures
        match checked {
            Ok(checked) => {
                &&& is_import(*fields)
                &&& text::hyphenated(checked.0@) == fields.binding_id@
                &&& text::hyphenated(checked.1@) == fields.deployment_operation_id@
                &&& text::hyphenated(checked.2@) == fields.tenant_id@
                &&& checked.3@.len() == 32
                &&& base64::base64url(checked.3@) == fields.authorization@
            },
            Err(_) => !is_import(*fields),
        },
{
    if !text_equal(fields.schema.as_str(), "dirextalk.client-binding") || fields.schema_version != 1
        || !is_canonical_https_origin(fields.server_origin.as_str()) {
        return Err(ClientBindingImportError);
    }
    let (binding_id, deployment_operation_id, tenant_id) = match (
        canonical_v7(fields.binding_id.as_str()),
        canonical_v7(fields.deployment_operation_id.as_str()),
        canonical_v7(fields.tenant_id.as_str()),
    ) {
        (Some(binding_id), Some(deployment_operation_id), Some(tenant_id)) => (
            binding_id,
            deployment_operation_id,
            tenant_id,
        ),
        _ => {
            return Err(ClientBindingImportError);
        },
    };
    if !has_root_certificate(
        fields.identity_tls_root_ca_pem.as_str(),
        parse_pem(fields.identity_tls_root_ca_pem.as_str()),
        fields.identity_tls_root_ca_sha256.as_str(),
    ) {
        return Err(ClientBindingImportError);
    }
    match ClientBindingAuthorization::parse(fields.authorization.as_str()) {
        Ok(authorization) => Ok((binding_id, deployment_operation_id, tenant_id, authorization)),
        Err(error) => Err(error),
    }
}

impl ClientBindingImport {
    /// What the import holds.
    pub closed spec fn view(&self) -> Import {
        Import {
            binding_id: self.binding_id@,
            deployment_operation_id: self.deployment_operation_id@,
            tenant_id: self.tenant_id@,
            server_origin: self.server_origin@,
            identity_tls_root_ca_pem: self.identity_tls_root_ca_pem@,
            expires_at_unix_ms: self.expires_at_unix_ms,
            authorization: self.authorization@,
        }
    }

    /// Whether bytes are few enough, and not too few, for an import artifact.
    pub fn has_size(bytes: &[u8]) -> (fits: bool)
        ensures
            fits == (0 < bytes@.len() <= MAX_IMPORT_BYTES),
    {
        bytes.len() > 0 && bytes.len() <= MAX_IMPORT_BYTES
    }

    /// Accepts the exact canonical client-binding import artifact, given the
    /// fields that its JSON object holds, if it holds one. The byte form that is
    /// compared and the secret texts among the fields are wiped.
    pub fn parse_exact(bytes: &[u8], fields: Option<ImportFields>) -> (import: Result<
        Self,
        ClientBindingImportError,
    >)
        ensures
            ({
                let exact = 0 < bytes@.len() <= MAX_IMPORT_BYTES && fields is Some && bytes@
                    == canonical_import(fields->0) && is_import(fields->0);
                match import {
                    Ok(import) => exact && is_import_of(import@, fields->0),
                    Err(_) => !exact,
                }
            }),
    {
        let fields = match fields {
            Some(fields) => fields,
            None => {
                return Err(ClientBindingImportError);
            },
        };
        let exact = Self::has_size(bytes) && is_written(&fields, bytes);
        let checked = if exact {
            check_import(&fields)
        } else {
            Err(ClientBindingImportError)
        };
        let mut authorization_text = fields.authorization;
        zeroize_text(&mut authorization_text);
        match checked {
            Ok((binding_id, deployment_operation_id, tenant_id, authorization)) => Ok(
                ClientBindingImport {
                    binding_id,
                    deployment_operation_id,
                    tenant_id,
                    server_origin: fields.server_origin,
                    identity_tls_root_ca_pem: fields.identity_tls_root_ca_pem,
                    expires_at_unix_ms: fields.expires_at_unix_ms,
                    authorization,
                },
            ),
            Err(error) => {
                let mut pem = fields.identity_tls_root_ca_pem;
                zeroize_text(&mut pem);
                Err(error)
            },
        }
    }

    /// The UUID of the binding.
    pub fn binding_id(&self) -> (id: [u8; 16])
        ensures
            id@ == self@.binding_id,
    {
        self.binding_id
    }

    /// The UUID of the deployment operation.
    pub fn deployment_operation_id(&self) -> (id: [u8; 16])
        ensures
            id@ == self@.deployment_operation_id,
    {
        self.deployment_operation_id
    }

    /// The UUID of the tenant.
    pub fn tenant_id(&self) -> (id: [u8; 16])
        ensures
            id@ == self@.tenant_id,
    {
        self.tenant_id
    }

    /// The origin of the server.
    pub fn server_origin(&self) -> (text: &str)
        ensures
            text@ == self@.server_origin,
    {
        self.server_origin.as_str()
    }

    /// The root certificate of the identity service.
    pub fn identity_tls_root_ca_pem(&self) -> (text: &str)
        ensures
            text@ == self@.identity_tls_root_ca_pem,
    {
        self.identity_tls_root_ca_pem.as_str()
    }

    /// When the binding expires.
    pub fn expires_at_unix_ms(&self) -> (time: i64)
        ensures
            time == self@.expires_at_unix_ms,
    {
        self.expires_at_unix_ms
    }

    /// The digest under which the authorization is stored.
    pub fn authorization_digest(&self) -> (digest: Sha256Digest)
        ensures
            digest@ == authorization_digest_of(self@.authorization),
    {
        self.authorization.digest()
    }

    /// Wipes the authorization.
    pub fn zeroize(&mut self)
        ensures
            bytes::all_zero(final(self)@.authorization),
            final(self)@ == (Import { authorization: final(self)@.authorization, ..old(self)@ }),
    {
        self.authorization.zeroize();
    }
}

/// The lifecycle of a binding.
#[derive(Clone, Copy, Debug, PartialEq, Eq, Structural)]
pub enum ClientBindingState {
    /// The binding was issued.
    Issued,
    /// An identity was bootstrapped with it.
    IdentityBound,
    /// The identity's first device was added with it.
    Consumed,
    /// The binding expired.
    Expired,
    /// The binding was revoked.
    Revoked,
}

impl ClientBindingState {
    /// The text under which the state is stored.
    pub open spec fn text(&self) -> Seq<char> {
        match self {
            ClientBindingState::Issued => "issued"@,
            ClientBindingState::IdentityBound => "identity_bound"@,
            ClientBindingState::Consumed => "consumed"@,
            ClientBindingState::Expired => "expired"@,
            ClientBindingState::Revoked => "revoked"@,
        }
    }

    /// Reads a stored state.
    pub fn parse(value: &str) -> (state: Result<Self, ClientBindingWorkflowError>)
        ensures
            match state {
                Ok(state) => read_state(value@) == Some(state) && state.text() == value@,
                Err(error) => {
                    &&& read_state(value@) is None
                    &&& error == ClientBindingWorkflowError::Corrupt
                },
            },
    {
        if text_equal(value, "issued") {
            Ok(ClientBindingState::Issued)
        } else if text_equal(value, "identity_bound") {
            Ok(ClientBindingState::IdentityBound)
        } else if text_equal(value, "consumed") {
            Ok(ClientBindingState::Consumed)
        } else if text_equal(value, "expired") {
            Ok(ClientBindingState::Expired)
        } else if text_equal(value, "revoked") {
            Ok(ClientBindingState::Revoked)
        } else {
            Err(ClientBindingWorkflowError::Corrupt)
        }
    }
}

/// The state with the given text.
pub open spec fn read_state(text: Seq<char>) -> Option<ClientBindingState> {
    if text == "issued"@ {
        Some(ClientBindingState::Issued)
    } else if text == "identity_bound"@ {
        Some(ClientBindingState::IdentityBound)
    } else if text == "consumed"@ {
        Some(ClientBindingState::Consumed)
    } else if text == "expired"@ {
        Some(ClientBindingState::Expired)
    } else if text == "revoked"@ {
        Some(ClientBindingState::Revoked)
    } else {
        None
    }
}

/// The state is that of a binding which is still in use.
pub open spec fn is_live(state: Option<ClientBindingState>) -> bool {
    state == Some(ClientBindingState::Issued) || state == Some(ClientBindingState::IdentityBound)
}

/// Whether the stored state is that of a binding which is still in use.
fn has_live_state(state: &str) -> (live: bool)
    ensures
        live == is_live(read_state(state@)),
{
    match ClientBindingState::parse(state) {
        Ok(ClientBindingState::Issued) => true,
        Ok(ClientBindingState::IdentityBound) => true,
        _ => false,
    }
}

/// Why a binding workflow failed.
#[derive(Clone, Copy, Debug, PartialEq, Eq)]
pub enum ClientBindingWorkflowError {
    /// Storage or the identity log refused.
    Persistence(IdentityPersistenceError),
    /// The request is malformed.
    Invalid,
    /// The authorization is not that of the binding.
    Unauthorized,
    /// The request conflicts with what is stored.
    Conflict,
    /// The binding expired.
    Expired,
    /// The binding was revoked.
    Revoked,
    /// What is stored is malformed.
    Corrupt,
}

impl ClientBindingWorkflowError {
    /// The error in words.
    pub open spec fn text(&self) -> Seq<char> {
        match self {
            ClientBindingWorkflowError::Persistence(_) => "client binding persistence failure"@,
            ClientBindingWorkflowError::Invalid => "invalid client binding request"@,
            ClientBindingWorkflowError::Unauthorized => "client binding authorization rejected"@,
            ClientBindingWorkflowError::Conflict => "client binding conflict"@,
            ClientBindingWorkflowError::Expired => "client binding expired"@,
            ClientBindingWorkflowError::Revoked => "client binding revoked"@,
            ClientBindingWorkflowError::Corrupt => "client binding state corrupt"@,
        }
    }

    /// Says in words what went wrong.
    pub fn message(&self) -> (text: String)
        ensures
            text@ == self.text(),
    {
        match self {
            ClientBindingWorkflowError::Persistence(_) => {
                "client binding persistence failure".to_owned()
            },
            ClientBindingWorkflowError::Invalid => "invalid client binding request".to_owned(),
            ClientBindingWorkflowError::Unauthorized => {
                "client binding authorization rejected".to_owned()
            },
            ClientBindingWorkflowError::Conflict => "client binding conflict".to_owned(),
            ClientBindingWorkflowError::Expired => "client binding expired".to_owned(),
            ClientBindingWorkflowError::Revoked => "client binding revoked".to_owned(),
            ClientBindingWorkflowError::Corrupt => "client binding state corrupt".to_owned(),
        }
    }
}

impl From<IdentityPersistenceError> for ClientBindingWorkflowError {
    fn from(error: IdentityPersistenceError) -> (converted: Self) {
        ClientBindingWorkflowError::Persistence(error)
    }
}

impl vstd::std_specs::convert::FromSpecImpl<IdentityPersistenceError>
    for ClientBindingWorkflowError {
    open spec fn obeys_from_spec() -> bool {
        true
    }

    open spec fn from_spec(error: IdentityPersistenceError) -> Self {
        ClientBindingWorkflowError::Persistence(error)
    }
}

/// A request to issue a binding.
#[derive(Clone, Debug)]
pub struct ClientBindingIssueCommand {
    /// The UUID of the binding.
    pub binding_id: [u8; 16],
    /// The UUID of the deployment operation.
    pub deployment_operation_id: [u8; 16],
    /// The UUID of the tenant.
    pub tenant_id: [u8; 16],
    /// The origin of the server.
    pub server_origin: String,
    /// The digest of the root certificate.
    pub tls_root_ca_sha256: Sha256Digest,
    /// The digest of the authorization.
    pub authorization_digest: Sha256Digest,
    /// The digest of the import artifact.
    pub artifact_digest: Sha256Digest,
    /// When the binding is issued.
    pub issued_at_ms: i64,
    /// When the binding expires.
    pub expires_at_ms: i64,
}

/// A binding as it was issued.
#[derive(Clone, Debug, PartialEq, Eq)]
pub struct ClientBindingIssueOutcome {
    /// The UUID of the binding.
    pub binding_id: [u8; 16],
    /// The UUID of the deployment operation.
    pub deployment_operation_id: [u8; 16],
    /// The UUID of the tenant.
    pub tenant_id: [u8; 16],
    /// The origin of the server.
    pub server_origin: String,
    /// The digest of the root certificate.
    pub tls_root_ca_sha256: Sha256Digest,
    /// The digest of the authorization.
    pub authorization_digest: Sha256Digest,
    /// The digest of the import artifact.
    pub artifact_digest: Sha256Digest,
    /// When the binding was issued.
    pub issued_at_ms: i64,
    /// When the binding expires.
    pub expires_at_ms: i64,
    /// Its state.
    pub state: ClientBindingState,
    /// Whether an earlier request issued it.
    pub replayed: bool,
}

/// A live binding as its row holds it.
#[derive(Debug)]
pub struct BindingRow {
    /// The UUID of the binding.
    pub binding_id: [u8; 16],
    /// The UUID of the deployment operation.
    pub deployment_operation_id: [u8; 16],
    /// The UUID of the tenant.
    pub tenant_id: [u8; 16],
    /// The origin of the server.
    pub server_origin: String,
    /// The digest of the root certificate.
    pub tls_root_ca_sha256: Vec<u8>,
    /// The digest of the authorization.
    pub authorization_digest: Vec<u8>,
    /// The digest of the import artifact.
    pub artifact_digest: Vec<u8>,
    /// When the binding was issued.
    pub issued_at_ms: i64,
    /// When the binding expires.
    pub expires_at_ms: i64,
    /// Its state.
    pub state: String,
}

/// The time after `issued_at` at which a binding must have expired.
pub open spec fn latest_expiry(issued_at: i64) -> i64 {
    if issued_at > i64::MAX - MAX_BINDING_LIFETIME_MILLIS {
        i64::MAX
    } else {
        (issued_at + MAX_BINDING_LIFETIME_MILLIS) as i64
    }
}

/// The latest expiry of a binding.
pub fn latest_expiry_of(issued_at: i64) -> (latest: i64)
    ensures
        latest == latest_expiry(issued_at),
{
    if issued_at > i64::MAX - MAX_BINDING_LIFETIME_MILLIS {
        i64::MAX
    } else {
        issued_at + MAX_BINDING_LIFETIME_MILLIS
    }
}

/// The request may be issued.
pub open spec fn is_issuable(command: ClientBindingIssueCommand) -> bool {
    &&& command.issued_at_ms < command.expires_at_ms <= latest_expiry(command.issued_at_ms)
    &&& origin::is_canonical_origin(command.server_origin@)
}

/// The columns of a binding can be read.
pub open spec fn is_binding_row(row: BindingRow) -> bool {
    &&& row.tls_root_ca_sha256@.len() == 32
    &&& row.authorization_digest@.len() == 32
    &&& row.artifact_digest@.len() == 32
    &&& read_state(row.state@) is Some
}

/// The binding holds what the row holds.
pub open spec fn is_outcome_of(outcome: ClientBindingIssueOutcome, row: BindingRow) -> bool {
    &&& outcome.binding_id@ == row.binding_id@
    &&& outcome.deployment_operation_id@ == row.deployment_operation_id@
    &&& outcome.tenant_id@ == row.tenant_id@
    &&& outcome.server_origin@ == row.server_origin@
    &&& outcome.tls_root_ca_sha256@ == row.tls_root_ca_sha256@
    &&& outcome.authorization_digest@ == row.authorization_digest@
    &&& outcome.artifact_digest@ == row.artifact_digest@
    &&& outcome.issued_at_ms == row.issued_at_ms
    &&& outcome.expires_at_ms == row.expires_at_ms
    &&& Some(outcome.state) == read_state(row.state@)
}

/// The live binding is that of exactly this request.
pub open spec fn is_same_issue(row: BindingRow, command: ClientBindingIssueCommand) -> bool {
    &&& row.server_origin@ == command.server_origin@
    &&& row.tls_root_ca_sha256@ == command.tls_root_ca_sha256@
    &&& row.authorization_digest@ == command.authorization_digest@
    &&& row.artifact_digest@ == command.artifact_digest@
    &&& row.issued_at_ms == command.issued_at_ms
    &&& row.expires_at_ms == command.expires_at_ms
}

/// The binding is a new one of this request.
pub open spec fn is_new_issue(
    outcome: ClientBindingIssueOutcome,
    command: ClientBindingIssueCommand,
) -> bool {
    &&& outcome.binding_id@ == command.binding_id@
    &&& outcome.deployment_operation_id@ == command.deployment_operation_id@
    &&& outcome.tenant_id@ == command.tenant_id@
    &&& outcome.server_origin@ == command.server_origin@
    &&& outcome.tls_root_ca_sha256@ == command.tls_root_ca_sha256@
    &&& outcome.authorization_digest@ == command.authorization_digest@
    &&& outcome.artifact_digest@ == command.artifact_digest@
    &&& outcome.issued_at_ms == command.issued_at_ms
    &&& outcome.expires_at_ms == command.expires_at_ms
    &&& outcome.state == ClientBindingState::Issued
    &&& !outcome.replayed
}

/// Reads a live binding.
fn issue_outcome_from_row(row: &BindingRow, replayed: bool) -> (outcome: Option<
    ClientBindingIssueOutcome,
>)
    ensures
        match outcome {
            Some(outcome) => {
                &&& is_binding_row(*row)
                &&& is_outcome_of(outcome, *row)
                &&& outcome.replayed == replayed
            },
            None => !is_binding_row(*row),
        },
{
    let (tls_root_ca_sha256, authorization_digest, artifact_digest) = match (
        to_array::<32>(row.tls_root_ca_sha256.as_slice()),
        to_array::<32>(row.authorization_digest.as_slice()),
        to_array::<32>(row.artifact_digest.as_slice()),
    ) {
        (Some(root), Some(authorization), Some(artifact)) => (
            Sha256Digest::from_bytes(root),
            Sha256Digest::from_bytes(authorization),
            Sha256Digest::from_bytes(artifact),
        ),
        _ => {
            return None;
        },
    };
    let state = match ClientBindingState::parse(row.state.as_str()) {
        Ok(state) => state,
        Err(_) => {
            return None;
        },
    };
    Some(
        ClientBindingIssueOutcome {
            binding_id: row.binding_id,
            deployment_operation_id: row.deployment_operation_id,
            tenant_id: row.tenant_id,
            server_origin: row.server_origin.clone(),
            tls_root_ca_sha256,
            authorization_digest,
            artifact_digest,
            issued_at_ms: row.issued_at_ms,
            expires_at_ms: row.expires_at_ms,
            state,
            replayed,
        },
    )
}

/// The authorization columns of a binding, as its row holds them.
#[derive(Debug)]
pub struct AuthorizationRow {
    /// The digest of the authorization.
    pub authorization_digest: Vec<u8>,
    /// When the binding expires.
    pub expires_at_ms: i64,
    /// Its state.
    pub state: String,
    /// The text of the identity that was bootstrapped.
    pub identity_id: Option<String>,
    /// The digest of the bootstrap request.
    pub identity_request_digest: Option<Vec<u8>>,
    /// The idempotency digest of the bootstrap request.
    pub identity_idempotency_key_hash: Option<Vec<u8>>,
    /// The digest of the initial-device request.
    pub consume_request_digest: Option<Vec<u8>>,
    /// The idempotency digest of the initial-device request.
    pub consume_idempotency_key_hash: Option<Vec<u8>>,
}

/// Whether an authorization opens a binding at `now`.
pub open spec fn authorization_check(
    row: AuthorizationRow,
    authorization_digest: Seq<u8>,
    now: i64,
) -> Result<(), ClientBindingWorkflowError> {
    if row.authorization_digest@ != authorization_digest {
        Err(ClientBindingWorkflowError::Unauthorized)
    } else if now >= row.expires_at_ms {
        Err(ClientBindingWorkflowError::Expired)
    } else {
        match read_state(row.state@) {
            None => Err(ClientBindingWorkflowError::Corrupt),
            Some(ClientBindingState::Revoked) => Err(ClientBindingWorkflowError::Revoked),
            Some(ClientBindingState::Expired) => Err(ClientBindingWorkflowError::Expired),
            Some(_) => Ok(()),
        }
    }
}

/// Checks that an authorization opens a binding; gives the binding's state.
fn validate_authorization_row(
    row: &AuthorizationRow,
    authorization_digest: Sha256Digest,
    now_ms: i64,
) -> (state: Result<ClientBindingState, ClientBindingWorkflowError>)
    ensures
        match state {
            Ok(state) => {
                &&& authorization_check(*row, authorization_digest@, now_ms) is Ok
                &&& read_state(row.state@) == Some(state)
            },
            Err(error) => authorization_check(*row, authorization_digest@, now_ms) == Err::<
                (),
                ClientBindingWorkflowError,
            >(error),
        },
{
    if !bytes_equal(row.authorization_digest.as_slice(), authorization_digest.as_bytes()) {
        return Err(ClientBindingWorkflowError::Unauthorized);
    }
    if now_ms >= row.expires_at_ms {
        return Err(ClientBindingWorkflowError::Expired);
    }
    match ClientBindingState::parse(row.state.as_str()) {
        Ok(ClientBindingState::Revoked) => Err(ClientBindingWorkflowError::Revoked),
        Ok(ClientBindingState::Expired) => Err(ClientBindingWorkflowError::Expired),
        Ok(state) => Ok(state),
        Err(error) => Err(error),
    }
}

/// The digest of a request over its idempotency key and its body.
pub open spec fn request_digest_of(domain: Seq<char>, body: Seq<u8>, idempotency: Seq<u8>) -> Seq<
    u8,
> {
    digest::hash_in_domain(domain, idempotency + body)
}

/// The digest of a request over its idempotency key and its body.
pub fn request_digest(
    domain: &str,
    body: &[u8],
    idempotency: Sha256Digest,
) -> (digest: Sha256Digest)
    ensures
        digest@ == request_digest_of(domain@, body@, idempotency@),
{
    let mut bytes: Vec<u8> = to_vec(idempotency.as_bytes());
    append_bytes(&mut bytes, body);
    Sha256Digest::hash_domain(domain, bytes.as_slice())
}

/// The stored column is exactly this digest.
pub open spec fn is_stored_digest(stored: Option<Vec<u8>>, digest: Seq<u8>) -> bool {
    stored is Some && stored->0@ == digest
}

/// Whether the stored column is exactly this digest.
fn has_stored_digest(stored: &Option<Vec<u8>>, digest: &Sha256Digest) -> (has: bool)
    ensures
        has == is_stored_digest(*stored, digest@),
{
    match stored {
        Some(stored) => bytes_equal(stored.as_slice(), digest.as_bytes()),
        None => false,
    }
}

/// An event that a binding appends to the identity log.
#[derive(Debug)]
pub struct BindingAppend {
    /// The identity of the event.
    pub identity_id: IdentityId,
    /// The idempotency key of the append.
    pub idempotency_key_hash: Sha256Digest,
    /// The head that the event must follow, if any.
    pub expected_head: Option<IdentityLogHead>,
    /// The exact signed event.
    pub exact_event: Vec<u8>,
    /// The digest of the request.
    pub request_digest: Sha256Digest,
    /// The device that the event adds, if any.
    pub device_id: Option<DeviceId>,
    /// Whether the binding has to advance to its next state.
    pub advances: bool,
}

/// The bytes are a genesis event.
pub open spec fn is_genesis(bytes: Seq<u8>) -> bool {
    match event_codec::decode_event(bytes) {
        Ok(event) => event.unsigned.payload is Genesis && event.unsigned.sequence == 1,
        Err(_) => false,
    }
}

/// The bytes are the first device add after a genesis.
pub open spec fn is_initial_device(bytes: Seq<u8>, genesis_hash: Seq<u8>) -> bool {
    match event_codec::decode_event(bytes) {
        Ok(event) => {
            &&& event.unsigned.payload is DeviceAdd
            &&& event.unsigned.sequence == 2
            &&& event.unsigned.previous_event_hash == Some(genesis_hash)
        },
        Err(_) => false,
    }
}

/// Reads and verifies a genesis event.
pub fn read_genesis(bytes: &[u8]) -> (read: Result<IdentityLogEventV1, ClientBindingWorkflowError>)
    ensures
        match read {
            Ok(event) => {
                &&& is_genesis(bytes@)
                &&& event_codec::decode_event(bytes@) == Ok::<Event, IdentityLogError>(event@)
            },
            Err(error) => {
                &&& !is_genesis(bytes@)
                &&& error == ClientBindingWorkflowError::Invalid
            },
        },
{
    let event = match IdentityLogEventV1::decode_and_verify(bytes) {
        Ok(event) => event,
        Err(_) => {
            return Err(ClientBindingWorkflowError::Invalid);
        },
    };
    let genesis = match event.payload() {
        IdentityLogEventPayloadV1::Genesis { .. } => true,
        _ => false,
    };
    if !genesis || event.sequence().get() != 1 {
        return Err(ClientBindingWorkflowError::Invalid);
    }
    Ok(event)
}

/// Reads and verifies the first device add after a genesis; gives the device too.
pub fn read_initial_device(bytes: &[u8], genesis_hash: Sha256Digest) -> (read: Result<
    (IdentityLogEventV1, DeviceId),
    ClientBindingWorkflowError,
>)
    ensures
        match read {
            Ok(read) => {
                &&& is_initial_device(bytes@, genesis_hash@)
                &&& event_codec::decode_event(bytes@) == Ok::<Event, IdentityLogError>(read.0@)
                &&& read.1@ == read.0@.unsigned.payload->DeviceAdd_certificate.unsigned.device_id
            },
            Err(error) => {
                &&& !is_initial_device(bytes@, genesis_hash@)
                &&& error == ClientBindingWorkflowError::Invalid
            },
        },
{
    let event = match IdentityLogEventV1::decode_and_verify(bytes) {
        Ok(event) => event,
        Err(_) => {
            return Err(ClientBindingWorkflowError::Invalid);
        },
    };
    let device_id = match event.payload() {
        IdentityLogEventPayloadV1::DeviceAdd { certificate } => certificate.device_id(),
        _ => {
            return Err(ClientBindingWorkflowError::Invalid);
        },
    };
    let follows = match event.previous_event_hash() {
        Some(previous) => previous == genesis_hash,
        None => false,
    };
    if event.sequence().get() != 2 || !follows {
        return Err(ClientBindingWorkflowError::Invalid);
    }
    Ok((event, device_id))
}

/// Whether a binding allows a bootstrap.
pub open spec fn bootstrap_check(
    bytes: Seq<u8>,
    row: Option<AuthorizationRow>,
    authorization_digest: Seq<u8>,
    idempotency: Seq<u8>,
    now: i64,
) -> Result<(), ClientBindingWorkflowError> {
    let digest = request_digest_of(CLIENT_BINDING_BOOTSTRAP_HASH_DOMAIN@, bytes, idempotency);
    if !is_genesis(bytes) {
        Err(ClientBindingWorkflowError::Invalid)
    } else if row is None {
        Err(ClientBindingWorkflowError::Unauthorized)
    } else if let Err(error) = authorization_check(row->0, authorization_digest, now) {
        Err(error)
    } else if read_state((row->0).state@) != Some(ClientBindingState::Issued) && !(
    is_stored_digest((row->0).identity_request_digest, digest) && is_stored_digest(
        (row->0).identity_idempotency_key_hash,
        idempotency,
    )) {
        Err(ClientBindingWorkflowError::Conflict)
    } else {
        Ok(())
    }
}

/// Whether a binding allows the first device of its identity.
pub open spec fn initial_device_check(
    bytes: Seq<u8>,
    genesis_hash: Seq<u8>,
    row: Option<AuthorizationRow>,
    authorization_digest: Seq<u8>,
    idempotency: Seq<u8>,
    now: i64,
) -> Result<(), ClientBindingWorkflowError> {
    let digest = request_digest_of(CLIENT_BINDING_INITIAL_DEVICE_HASH_DOMAIN@, bytes, idempotency);
    let event = event_codec::decode_event(bytes)->Ok_0;
    if !is_initial_device(bytes, genesis_hash) {
        Err(ClientBindingWorkflowError::Invalid)
    } else if row is None {
        Err(ClientBindingWorkflowError::Unauthorized)
    } else if let Err(error) = authorization_check(row->0, authorization_digest, now) {
        Err(error)
    } else if (row->0).identity_id is None || (row->0).identity_id->0@ != text::hex(
        event.unsigned.identity_id,
    ) {
        Err(ClientBindingWorkflowError::Unauthorized)
    } else if read_state((row->0).state@) == Some(ClientBindingState::Issued) {
        Err(ClientBindingWorkflowError::Conflict)
    } else if read_state((row->0).state@) == Some(ClientBindingState::Consumed) && !(
    is_stored_digest((row->0).consume_request_digest, digest) && is_stored_digest(
        (row->0).consume_idempotency_key_hash,
        idempotency,
    )) {
        Err(ClientBindingWorkflowError::Conflict)
    } else {
        Ok(())
    }
}

/// Durable client bindings.
#[derive(Clone, Copy, Debug, Default)]
pub struct ClientBindingRepository;

impl ClientBindingRepository {
    /// Checks a request before anything is stored: it lives for a while, but not
    /// too long, and names a canonical origin.
    pub fn validate_issue(&self, command: &ClientBindingIssueCommand) -> (valid: Result<
        (),
        ClientBindingWorkflowError,
    >)
        ensures
            valid == if is_issuable(*command) {
                Ok::<(), ClientBindingWorkflowError>(())
            } else {
                Err(ClientBindingWorkflowError::Invalid)
            },
    {
        if command.expires_at_ms <= command.issued_at_ms || command.expires_at_ms
            > latest_expiry_of(command.issued_at_ms) || !is_canonical_https_origin(
            command.server_origin.as_str(),
        ) {
            return Err(ClientBindingWorkflowError::Invalid);
        }
        Ok(())
    }

    /// Decides on the issue of one durable binding: a live one of the same
    /// operation is replayed exactly, and where there is none a new one is to
    /// be inserted.
    pub fn issue(
        &self,
        command: &ClientBindingIssueCommand,
        live: &Option<BindingRow>,
    ) -> (outcome: Result<ClientBindingIssueOutcome, ClientBindingWorkflowError>)
        ensures
            match outcome {
                Ok(outcome) => {
                    &&& is_issuable(*command)
                    &&& match live {
                        Some(row) => {
                            &&& is_binding_row(*row)
                            &&& is_same_issue(*row, *command)
                            &&& is_outcome_of(outcome, *row)
                            &&& outcome.replayed
                        },
                        None => is_new_issue(outcome, *command),
                    }
                },
                Err(error) => if !is_issuable(*command) {
                    error == ClientBindingWorkflowError::Invalid
                } else {
                    &&& live is Some
                    &&& if !is_binding_row(live->0) {
                        error == ClientBindingWorkflowError::Corrupt
                    } else {
                        &&& !is_same_issue(live->0, *command)
                        &&& error == ClientBindingWorkflowError::Conflict
                    }
                },
            },
    {
        if let Err(error) = self.validate_issue(command) {
            return Err(error);
        }
        match live {
            Some(row) => {
                let existing = match issue_outcome_from_row(row, true) {
                    Some(existing) => existing,
                    None => {
                        return Err(ClientBindingWorkflowError::Corrupt);
                    },
                };
                if !text_equal(existing.server_origin.as_str(), command.server_origin.as_str())
                    || existing.tls_root_ca_sha256 != command.tls_root_ca_sha256
                    || existing.authorization_digest != command.authorization_digest
                    || existing.artifact_digest != command.artifact_digest || existing.issued_at_ms
                    != command.issued_at_ms || existing.expires_at_ms != command.expires_at_ms {
                    return Err(ClientBindingWorkflowError::Conflict);
                }
                Ok(existing)
            },
            None => Ok(
                ClientBindingIssueOutcome {
                    binding_id: command.binding_id,
                    deployment_operation_id: command.deployment_operation_id,
                    tenant_id: command.tenant_id,
                    server_origin: command.server_origin.clone(),
                    tls_root_ca_sha256: command.tls_root_ca_sha256,
                    authorization_digest: command.authorization_digest,
                    artifact_digest: command.artifact_digest,
                    issued_at_ms: command.issued_at_ms,
                    expires_at_ms: command.expires_at_ms,
                    state: ClientBindingState::Issued,
                    replayed: false,
                },
            ),
        }
    }

    /// Decides on the revocation of a binding: an issued or identity-bound one
    /// is revoked before it expires.
    pub fn revoke(&self, row: &Option<AuthorizationRow>, now_ms: i64) -> (state: Result<
        ClientBindingState,
        ClientBindingWorkflowError,
    >)
        ensures
            state == if row is Some && is_live(read_state((row->0).state@)) && now_ms
                < (row->0).expires_at_ms {
                Ok::<ClientBindingState, ClientBindingWorkflowError>(ClientBindingState::Revoked)
            } else {
                Err(ClientBindingWorkflowError::Conflict)
            },
    {
        match row {
            Some(row) => {
                if has_live_state(row.state.as_str()) && now_ms < row.expires_at_ms {
                    Ok(ClientBindingState::Revoked)
                } else {
                    Err(ClientBindingWorkflowError::Conflict)
                }
            },
            None => Err(ClientBindingWorkflowError::Conflict),
        }
    }

    /// Decides whether a binding is to be marked as expired: a live one at or
    /// past its expiry is.
    pub fn expire(&self, row: &AuthorizationRow, now_ms: i64) -> (expires: bool)
        ensures
            expires == (is_live(read_state(row.state@)) && row.expires_at_ms <= now_ms),
    {
        has_live_state(row.state.as_str()) && row.expires_at_ms <= now_ms
    }

    /// Confirms that exactly one binding advanced.
    pub fn confirm_single(&self, changed: u64) -> (confirmed: Result<
        (),
        ClientBindingWorkflowError,
    >)
        ensures
            confirmed == if changed == 1 {
                Ok::<(), ClientBindingWorkflowError>(())
            } else {
                Err(ClientBindingWorkflowError::Conflict)
            },
    {
        if changed == 1 {
            Ok(())
        } else {
            Err(ClientBindingWorkflowError::Conflict)
        }
    }

    /// Decides on the genesis event of a binding; the binding is bound to the
    /// event's identity if it was merely issued.
    pub fn deployment_bootstrap(
        &self,
        row: &Option<AuthorizationRow>,
        authorization_digest: Sha256Digest,
        idempotency_key_hash: Sha256Digest,
        exact_event_bytes: Vec<u8>,
        committed_at: UtcMillis,
    ) -> (append: Result<BindingAppend, ClientBindingWorkflowError>)
        ensures
            ({
                let checked = bootstrap_check(
                    exact_event_bytes@,
                    *row,
                    authorization_digest@,
                    idempotency_key_hash@,
                    committed_at@,
                );
                let event = event_codec::decode_event(exact_event_bytes@)->Ok_0;
                match append {
                    Ok(append) => {
                        &&& checked is Ok
                        &&& append.identity_id@ == event.unsigned.identity_id
                        &&& append.idempotency_key_hash@ == idempotency_key_hash@
                        &&& append.expected_head is None
                        &&& append.exact_event@ == exact_event_bytes@
                        &&& append.request_digest@ == request_digest_of(
                            CLIENT_BINDING_BOOTSTRAP_HASH_DOMAIN@,
                            exact_event_bytes@,
                            idempotency_key_hash@,
                        )
                        &&& append.device_id is None
                        &&& append.advances == (read_state((row->0).state@) == Some(
                            ClientBindingState::Issued,
                        ))
                    },
                    Err(error) => checked == Err::<(), ClientBindingWorkflowError>(error),
                }
            }),
    {
        let event = match read_genesis(exact_event_bytes.as_slice()) {
            Ok(event) => event,
            Err(error) => {
                return Err(error);
            },
        };
        let row = match row {
            Some(row) => row,
            None => {
                return Err(ClientBindingWorkflowError::Unauthorized);
            },
        };
        let state = match validate_authorization_row(
            row,
            authorization_digest,
            committed_at.get(),
        ) {
            Ok(state) => state,
            Err(error) => {
                return Err(error);
            },
        };
        let digest = request_digest(
            CLIENT_BINDING_BOOTSTRAP_HASH_DOMAIN,
            exact_event_bytes.as_slice(),
            idempotency_key_hash,
        );
        if state != ClientBindingState::Issued && !(has_stored_digest(
            &row.identity_request_digest,
            &digest,
        ) && has_stored_digest(&row.identity_idempotency_key_hash, &idempotency_key_hash)) {
            return Err(ClientBindingWorkflowError::Conflict);
        }
        Ok(
            BindingAppend {
                identity_id: event.identity_id(),
                idempotency_key_hash,
                expected_head: None,
                exact_event: exact_event_bytes,
                request_digest: digest,
                device_id: None,
                advances: state == ClientBindingState::Issued,
            },
        )
    }

    /// Decides on the first device of a bound identity; the binding is consumed
    /// if it was merely bound.
    pub fn initial_device(
        &self,
        row: &Option<AuthorizationRow>,
        authorization_digest: Sha256Digest,
        idempotency_key_hash: Sha256Digest,
        expected_genesis_hash: Sha256Digest,
        exact_event_bytes: Vec<u8>,
        committed_at: UtcMillis,
    ) -> (append: Result<BindingAppend, ClientBindingWorkflowError>)
        ensures
            ({
                let checked = initial_device_check(
                    exact_event_bytes@,
                    expected_genesis_hash@,
                    *row,
                    authorization_digest@,
                    idempotency_key_hash@,
                    committed_at@,
                );
                let event = event_codec::decode_event(exact_event_bytes@)->Ok_0;
                match append {
                    Ok(append) => {
                        &&& checked is Ok
                        &&& append.identity_id@ == event.unsigned.identity_id
                        &&& append.idempotency_key_hash@ == idempotency_key_hash@
                        &&& head::head_view(append.expected_head) == Some(
                            Head {
                                identity_id: event.unsigned.identity_id,
                                wire: IDENTITY_LOG_WIRE_VERSION,
                                sequence: 1,
                                hash: expected_genesis_hash@,
                            },
                        )
                        &&& append.exact_event@ == exact_event_bytes@
                        &&& append.request_digest@ == request_digest_of(
                            CLIENT_BINDING_INITIAL_DEVICE_HASH_DOMAIN@,
                            exact_event_bytes@,
                            idempotency_key_hash@,
                        )
                        &&& append.device_id is Some
                        &&& append.device_id->0@
                            == event.unsigned.payload->DeviceAdd_certificate.unsigned.device_id
                        &&& append.advances == (read_state((row->0).state@) == Some(
                            ClientBindingState::IdentityBound,
                        ))
                    },
                    Err(error) => checked == Err::<(), ClientBindingWorkflowError>(error),
                }
            }),
    {
        let (event, device_id) = match read_initial_device(
            exact_event_bytes.as_slice(),
            expected_genesis_hash,
        ) {
            Ok(read) => read,
            Err(error) => {
                return Err(error);
            },
        };
        let row = match row {
            Some(row) => row,
            None => {
                return Err(ClientBindingWorkflowError::Unauthorized);
            },
        };
        let state = match validate_authorization_row(
            row,
            authorization_digest,
            committed_at.get(),
        ) {
            Ok(state) => state,
            Err(error) => {
                return Err(error);
            },
        };
        let same_identity = match &row.identity_id {
            Some(identity) => text_equal(
                identity.as_str(),
                event.identity_id().to_text().as_str(),
            ),
            None => false,
        };
        if !same_identity {
            return Err(ClientBindingWorkflowError::Unauthorized);
        }
        if state == ClientBindingState::Issued {
            return Err(ClientBindingWorkflowError::Conflict);
        }
        let digest = request_digest(
            CLIENT_BINDING_INITIAL_DEVICE_HASH_DOMAIN,
            exact_event_bytes.as_slice(),
            idempotency_key_hash,
        );
        if state == ClientBindingState::Consumed && !(has_stored_digest(
            &row.consume_request_digest,
            &digest,
        ) && has_stored_digest(&row.consume_idempotency_key_hash, &idempotency_key_hash)) {
            return Err(ClientBindingWorkflowError::Conflict);
        }
        let first = match SafeUint::new(1) {
            Ok(first) => first,
            Err(_) => {
                return Err(ClientBindingWorkflowError::Invalid);
            },
        };
        let head = IdentityLogHead::new(
            event.identity_id(),
            IDENTITY_LOG_WIRE_VERSION,
            first,
            expected_genesis_hash,
        );
        Ok(
            BindingAppend {
                identity_id: event.identity_id(),
                idempotency_key_hash,
                expected_head: Some(head),
                exact_event: exact_event_bytes,
                request_digest: digest,
                device_id: Some(device_id),
                advances: state == ClientBindingState::IdentityBound,
            },
        )
    }
}

/// The binding after a bootstrap with the given event and idempotency key.
pub open spec fn is_bound(
    row: AuthorizationRow,
    bound: AuthorizationRow,
    bytes: Seq<u8>,
    idempotency: Seq<u8>,
) -> bool {
    &&& bound.authorization_digest@ == row.authorization_digest@
    &&& bound.expires_at_ms == row.expires_at_ms
    &&& read_state(bound.state@) == Some(ClientBindingState::IdentityBound)
    &&& is_stored_digest(
        bound.identity_request_digest,
        request_digest_of(CLIENT_BINDING_BOOTSTRAP_HASH_DOMAIN@, bytes, idempotency),
    )
    &&& is_stored_digest(bound.identity_idempotency_key_hash, idempotency)
}

/// The binding after the first device with the given event and idempotency key.
pub open spec fn is_consumed(
    row: AuthorizationRow,
    consumed: AuthorizationRow,
    bytes: Seq<u8>,
    idempotency: Seq<u8>,
) -> bool {
    &&& consumed.authorization_digest@ == row.authorization_digest@
    &&& consumed.expires_at_ms == row.expires_at_ms
    &&& consumed.identity_id == row.identity_id
    &&& read_state(consumed.state@) == Some(ClientBindingState::Consumed)
    &&& is_stored_digest(
        consumed.consume_request_digest,
        request_digest_of(CLIENT_BINDING_INITIAL_DEVICE_HASH_DOMAIN@, bytes, idempotency),
    )
    &&& is_stored_digest(consumed.consume_idempotency_key_hash, idempotency)
}

/// A binding is issued once: the row that is kept of a new one replays the same
/// request to the same binding, and every other request that it replays agrees
/// with the first in all that a request fixes but the names of its parties.
pub proof fn law_issue_is_replayed(
    outcome: ClientBindingIssueOutcome,
    command: ClientBindingIssueCommand,
    row: BindingRow,
    other: ClientBindingIssueCommand,
)
    requires
        is_new_issue(outcome, command),
        is_outcome_of(outcome, row),
    ensures
        is_binding_row(row),
        is_same_issue(row, command),
        row.binding_id@ == command.binding_id@,
        is_same_issue(row, other) ==> {
            &&& other.server_origin@ == command.server_origin@
            &&& other.tls_root_ca_sha256@ == command.tls_root_ca_sha256@
            &&& other.authorization_digest@ == command.authorization_digest@
            &&& other.artifact_digest@ == command.artifact_digest@
            &&& other.issued_at_ms == command.issued_at_ms
            &&& other.expires_at_ms == command.expires_at_ms
        },
{
    command.tls_root_ca_sha256.lemma_len();
    command.authorization_digest.lemma_len();
    command.artifact_digest.lemma_len();
}

/// A bootstrap binds its binding: the same request is allowed again until the
/// binding expires, and a request with another idempotency key, or whose digest
/// differs, never is.
pub proof fn law_bootstrap_binds(
    row: AuthorizationRow,
    bound: AuthorizationRow,
    authorization_digest: Seq<u8>,
    bytes: Seq<u8>,
    idempotency: Seq<u8>,
    now: i64,
    other_bytes: Seq<u8>,
    other_idempotency: Seq<u8>,
    later: i64,
)
    requires
        bootstrap_check(bytes, Some(row), authorization_digest, idempotency, now) is Ok,
        is_bound(row, bound, bytes, idempotency),
        later < row.expires_at_ms,
    ensures
        bootstrap_check(bytes, Some(bound), authorization_digest, idempotency, later) is Ok,
        bootstrap_check(
            other_bytes,
            Some(bound),
            authorization_digest,
            other_idempotency,
            later,
        ) is Ok ==> {
            &&& other_idempotency == idempotency
            &&& request_digest_of(
                CLIENT_BINDING_BOOTSTRAP_HASH_DOMAIN@,
                other_bytes,
                other_idempotency,
            ) == request_digest_of(CLIENT_BINDING_BOOTSTRAP_HASH_DOMAIN@, bytes, idempotency)
        },
{
}

/// The first device consumes its binding: the same request is allowed again
/// until the binding expires, and a request with another idempotency key, or
/// whose digest differs, never is.
pub proof fn law_initial_device_consumes(
    row: AuthorizationRow,
    consumed: AuthorizationRow,
    authorization_digest: Seq<u8>,
    genesis_hash: Seq<u8>,
    bytes: Seq<u8>,
    idempotency: Seq<u8>,
    now: i64,
    other_bytes: Seq<u8>,
    other_genesis_hash: Seq<u8>,
    other_idempotency: Seq<u8>,
    later: i64,
)
    requires
        initial_device_check(
            bytes,
            genesis_hash,
            Some(row),
            authorization_digest,
            idempotency,
            now,
        ) is Ok,
        is_consumed(row, consumed, bytes, idempotency),
        later < row.expires_at_ms,
    ensures
        initial_device_check(
            bytes,
            genesis_hash,
            Some(consumed),
            authorization_digest,
            idempotency,
            later,
        ) is Ok,
        initial_device_check(
            other_bytes,
            other_genesis_hash,
            Some(consumed),
            authorization_digest,
            other_idempotency,
            later,
        ) is Ok ==> {
            &&& other_idempotency == idempotency
            &&& request_digest_of(
                CLIENT_BINDING_INITIAL_DEVICE_HASH_DOMAIN@,
                other_bytes,
                other_idempotency,
            ) == request_digest_of(CLIENT_BINDING_INITIAL_DEVICE_HASH_DOMAIN@, bytes, idempotency)
        },
{
}

/// A binding that was revoked, that is marked as expired or whose time is over,
/// or whose authorization is another one, allows neither a bootstrap nor a first
/// device.
pub proof fn law_closed_binding_refuses(
    row: AuthorizationRow,
    authorization_digest: Seq<u8>,
    bytes: Seq<u8>,
    genesis_hash: Seq<u8>,
    idempotency: Seq<u8>,
    now: i64,
)
    requires
        read_state(row.state@) == Some(ClientBindingState::Revoked) || read_state(row.state@)
            == Some(ClientBindingState::Expired) || row.expires_at_ms <= now
            || row.authorization_digest@ != authorization_digest,
    ensures
        bootstrap_check(bytes, Some(row), authorization_digest, idempotency, now) is Err,
        initial_device_check(
            bytes,
            genesis_hash,
            Some(row),
            authorization_digest,
            idempotency,
            now,
        ) is Err,
{
}

} // verus!
