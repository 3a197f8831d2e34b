//! Client bindings and deployment tickets.

use ed25519_dalek::{Signer, SigningKey};
use identity_log::log::authority::genesis_recovery_acceptance_input;
use identity_log::log::certificate::{
    device_certificate_signature_input, DeviceCertificateV1, UnsignedDeviceCertificateV1,
};
use identity_log::log::event::{
    identity_log_signature_input, IdentityLogEventV1, UnsignedIdentityLogEventV1,
};
use identity_log::log::payload::IdentityLogEventPayloadV1;
use identity_log::log::wire_line::IDENTITY_LOG_WIRE_VERSION;
use identity_log::persistence::client_binding::{
    has_root_certificate, read_genesis, read_initial_device, request_digest, AuthorizationRow,
    BindingRow, ClientBindingAuthorization, ClientBindingImport, ClientBindingIssueCommand,
    ClientBindingRepository, ClientBindingState, ClientBindingWorkflowError, ImportFields,
    CLIENT_BINDING_AUTHORIZATION_HASH_DOMAIN, CLIENT_BINDING_BOOTSTRAP_HASH_DOMAIN,
    CLIENT_BINDING_INITIAL_DEVICE_HASH_DOMAIN,
};
use identity_log::persistence::deployment_binding::{
    DeploymentBindingTicketError, DeploymentBindingTicketIssueCommand,
    DeploymentBindingTicketRepository, DeploymentBindingTicketState, TicketRow,
};
use identity_log::wire::digest::Sha256Digest;
use identity_log::wire::id::{DeviceId, IdentityId};
use identity_log::wire::key::{DeviceEncryptionPublicKey, Ed25519Signature, SigningPublicKey};
use identity_log::wire::number::{SafeUint, UtcMillis};

const DEVICE_A: &str = "0190f2a5-7b1c-7abc-8def-0123456789ab";

fn signing_key(seed: u8) -> SigningKey {
    SigningKey::from_bytes(&[seed; 32])
}

fn public_key(key: &SigningKey) -> SigningPublicKey {
    SigningPublicKey::try_from(key.verifying_key().to_bytes()).unwrap()
}

fn signature(key: &SigningKey, input: &[u8]) -> Ed25519Signature {
    Ed25519Signature::from_bytes(key.sign(input).to_bytes())
}

fn safe(value: u64) -> SafeUint {
    SafeUint::new(value).unwrap()
}

fn timestamp(value: i64) -> UtcMillis {
    UtcMillis::new(value).unwrap()
}

fn device_id(value: &str) -> DeviceId {
    DeviceId::from_text(value).unwrap()
}

fn signed_event(
    signer: &SigningKey,
    identity_id: IdentityId,
    sequence: u64,
    previous_event_hash: Option<Sha256Digest>,
    occurred_at: i64,
    payload: IdentityLogEventPayloadV1,
) -> IdentityLogEventV1 {
    let unsigned = UnsignedIdentityLogEventV1::new(
        IDENTITY_LOG_WIRE_VERSION,
        identity_id,
        safe(sequence),
        previous_event_hash,
        timestamp(occurred_at),
        payload,
        public_key(signer),
    )
    .unwrap();
    let input = identity_log_signature_input(unsigned.signing_digest().unwrap());
    IdentityLogEventV1::signed(unsigned, signature(signer, &input)).unwrap()
}

fn genesis() -> IdentityLogEventV1 {
    let root = signing_key(1);
    let recovery = signing_key(2);
    let identity_id = IdentityId::derive(public_key(&root).as_domain_key());
    let acceptance = signature(
        &recovery,
        &genesis_recovery_acceptance_input(identity_id, public_key(&root), public_key(&recovery))
            .unwrap(),
    );
    signed_event(
        &root,
        identity_id,
        1,
        None,
        1_000,
        IdentityLogEventPayloadV1::Genesis {
            root_signing_key: public_key(&root),
            recovery_signing_key: public_key(&recovery),
            recovery_acceptance_signature: acceptance,
        },
    )
}

fn device_add(previous: &IdentityLogEventV1, device: &SigningKey, id: &str) -> IdentityLogEventV1 {
    let root = signing_key(1);
    let identity_id = previous.identity_id();
    let unsigned = UnsignedDeviceCertificateV1::new(
        IDENTITY_LOG_WIRE_VERSION,
        identity_id,
        device_id(id),
        public_key(device),
        encryption_key(31),
        public_key(&root),
        timestamp(1_050),
    )
    .unwrap();
    let input = device_certificate_signature_input(unsigned.signing_digest().unwrap());
    let certificate = DeviceCertificateV1::signed(unsigned, signature(&root, &input)).unwrap();
    signed_event(
        &root,
        identity_id,
        previous.sequence().get() + 1,
        Some(previous.entry_hash().unwrap()),
        1_100,
        IdentityLogEventPayloadV1::DeviceAdd { certificate },
    )
}

fn encryption_key(seed: u8) -> DeviceEncryptionPublicKey {
    DeviceEncryptionPublicKey::try_from([seed; 32]).unwrap()
}

fn digest(seed: u8) -> Sha256Digest {
    Sha256Digest::from_bytes([seed; 32])
}

fn uuid(last: u8) -> [u8; 16] {
    let mut bytes = *device_id(DEVICE_A).as_uuid_bytes();
    bytes[15] = last;
    bytes
}

const ORIGIN: &str = "https://identity.example";
const ROOT_DIGEST: &str = "715fe5388bccd6978991e760bb9c8d2b137e31523e00ac1fece0627f71e75ac1";
const LEAF_DIGEST: &str = "bd19b6d79eb88c08510d897e0229baaaade9726dcca810b3861d5d4ca9ae3dc1";
const ROOT_PEM: &str = "\
-----BEGIN CERTIFICATE-----\n\
MIIBUTCCAQOgAwIBAgIUZXuDo+CzPmC0CY2PeH5Hzqvr8XUwBQYDK2VwMB0xGzAZ\n\
BgNVBAMMEmlkZW50aXR5IHRlc3Qgcm9vdDAgFw0yNjExMTUyMDU1NDZaGA8yMTI2\n\
MTAyMjIwNTU0NlowHTEbMBkGA1UEAwwSaWRlbnRpdHkgdGVzdCByb290MCowBQYD\n\
K2VwAyEAMPX9B1hxULzC+rH3IsXYmIBbA1mFnCZTp6bYnY5QUjujUzBRMB0GA1Ud\n\
DgQWBBS0HXaKZmecibZHXVtpQxxSkQu1PDAfBgNVHSMEGDAWgBS0HXaKZmecibZH\n\
XVtpQxxSkQu1PDAPBgNVHRMBAf8EBTADAQH/MAUGAytlcANBACF0i5cIFmjz/m7S\n\
8jvkyVlt/Dwq5PTy7v5ixDG0R7ia2YgqkLJNV5Lf/PJbI614pOzPl3phvTCLBhts\n\
f2jp5w0=\n\
-----END CERTIFICATE-----\n\
";
const LEAF_PEM: &str = "\
-----BEGIN CERTIFICATE-----\n\
MIIBTjCCAQCgAwIBAgIUSnfoTnlCAWAdKykIpn1rBuMH+U8wBQYDK2VwMB0xGzAZ\n\
BgNVBAMMEmlkZW50aXR5IHRlc3QgbGVhZjAgFw0yNjExMTUyMDU1NDZaGA8yMTI2\n\
MTAyMjIwNTU0NlowHTEbMBkGA1UEAwwSaWRlbnRpdHkgdGVzdCBsZWFmMCowBQYD\n\
K2VwAyEAMPX9B1hxULzC+rH3IsXYmIBbA1mFnCZTp6bYnY5QUjujUDBOMB0GA1Ud\n\
DgQWBBS0HXaKZmecibZHXVtpQxxSkQu1PDAfBgNVHSMEGDAWgBS0HXaKZmecibZH\n\
XVtpQxxSkQu1PDAMBgNVHRMBAf8EAjAAMAUGAytlcANBAMQmBZOq/Xqlxc+NsoE6\n\
fbIfDc66w1u1wzbPilYHsr0aBIqZOursWb3taj3khbJyXPC7ALCgBaIf1tDNIIHN\n\
xQc=\n\
-----END CERTIFICATE-----\n\
";

fn import_fields() -> ImportFields {
    ImportFields {
        schema: "dirextalk.client-binding".to_owned(),
        schema_version: 1,
        binding_id: DEVICE_A.to_owned(),
        deployment_operation_id: DEVICE_A.to_owned(),
        tenant_id: DEVICE_A.to_owned(),
        server_origin: ORIGIN.to_owned(),
        identity_tls_root_ca_pem: ROOT_PEM.to_owned(),
        identity_tls_root_ca_sha256: ROOT_DIGEST.to_owned(),
        expires_at_unix_ms: 2_000,
        authorization: "BwcHBwcHBwcHBwcHBwcHBwcHBwcHBwcHBwcHBwcHBwc".to_owned(),
    }
}

fn import_bytes(fields: &ImportFields) -> Vec<u8> {
    format!(
        "{{\"schema\":\"{}\",\"schema_version\":{},\"binding_id\":\"{}\",\
         \"deployment_operation_id\":\"{}\",\"tenant_id\":\"{}\",\"server_origin\":\"{}\",\
         \"identity_tls_root_ca_pem\":\"{}\",\"identity_tls_root_ca_sha256\":\"{}\",\
         \"expires_at_unix_ms\":{},\"authorization\":\"{}\"}}",
        fields.schema,
        fields.schema_version,
        fields.binding_id,
        fields.deployment_operation_id,
        fields.tenant_id,
        fields.server_origin,
        fields.identity_tls_root_ca_pem.replace('\n', "\\n"),
        fields.identity_tls_root_ca_sha256,
        fields.expires_at_unix_ms,
        fields.authorization
    )
    .into_bytes()
}

#[test]
fn authorization_text_is_canonical_base64url() {
    let text = "BwcHBwcHBwcHBwcHBwcHBwcHBwcHBwcHBwcHBwcHBwc";
    let authorization = ClientBindingAuthorization::parse(text).ok().unwrap();
    assert_eq!(authorization.encoded(), text);
    assert_eq!(
        authorization.digest(),
        Sha256Digest::hash_domain(CLIENT_BINDING_AUTHORIZATION_HASH_DOMAIN, &[7; 32])
    );
    for wrong in [
        "",
        "BwcHBwcHBwcHBwcHBwcHBwcHBwcHBwcHBwcHBwcHBw",
        "BwcHBwcHBwcHBwcHBwcHBwcHBwcHBwcHBwcHBwcHBw=",
        "BwcHBwcHBwcHBwcHBwcHBwcHBwcHBwcHBwcHBwcHBwd",
        "BwcHBwcHBwcHBwcHBwcHBwcHBwcHBwcHBwcHBwcHB+c",
    ] {
        assert!(ClientBindingAuthorization::parse(wrong).is_err(), "accepted {wrong}");
    }
    let mut wiped = authorization;
    wiped.zeroize();
    assert_eq!(wiped.encoded(), "AAAAAAAAAAAAAAAAAAAAAAAAAAAAAAAAAAAAAAAAAAA");
}

#[test]
fn import_is_accepted_only_in_its_exact_form() {
    let bytes = import_bytes(&import_fields());
    let import = ClientBindingImport::parse_exact(&bytes, Some(import_fields()))
        .ok()
        .expect("exact import");
    assert_eq!(import.binding_id(), uuid(0xab));
    assert_eq!(import.server_origin(), ORIGIN);
    assert_eq!(import.identity_tls_root_ca_pem(), ROOT_PEM);
    assert_eq!(import.expires_at_unix_ms(), 2_000);
    assert_eq!(
        import.authorization_digest(),
        Sha256Digest::hash_domain(CLIENT_BINDING_AUTHORIZATION_HASH_DOMAIN, &[7; 32])
    );

    let mut spaced = bytes.clone();
    spaced.push(b' ');
    assert!(ClientBindingImport::parse_exact(&spaced, Some(import_fields())).is_err());
    assert!(ClientBindingImport::parse_exact(&bytes, None).is_err());
    assert!(ClientBindingImport::parse_exact(&[], Some(import_fields())).is_err());
    assert!(!ClientBindingImport::has_size(&[]));
    assert!(ClientBindingImport::has_size(&[0; 24_576]));
    assert!(!ClientBindingImport::has_size(&[0; 24_577]));
    let refused = |change: fn(&mut ImportFields)| {
        let mut fields = import_fields();
        change(&mut fields);
        let bytes = import_bytes(&fields);
        ClientBindingImport::parse_exact(&bytes, Some(fields)).is_err()
    };
    assert!(!refused(|fields| fields.expires_at_unix_ms = -5));
    assert!(refused(|fields| fields.schema_version = 2));
    assert!(refused(|fields| fields.schema.push('x')));
    assert!(refused(|fields| fields.server_origin.push('/')));
    assert!(refused(|fields| fields.tenant_id.make_ascii_uppercase()));
    assert!(refused(|fields| fields.tenant_id = "0190f2a5-7b1c-4abc-8def-0123456789ab".to_owned()));
    assert!(refused(|fields| fields.identity_tls_root_ca_pem.push('\n')));
    assert!(refused(|fields| fields.identity_tls_root_ca_sha256.make_ascii_uppercase()));
    assert!(refused(|fields| {
        fields.authorization.pop();
    }));
    assert!(refused(|fields| {
        fields.identity_tls_root_ca_pem = LEAF_PEM.to_owned();
        fields.identity_tls_root_ca_sha256 = LEAF_DIGEST.to_owned();
    }));
}

#[test]
fn certificate_must_be_one_authority_with_its_digest() {
    let root = Some((0, Some(true)));
    assert!(has_root_certificate(ROOT_PEM, root, ROOT_DIGEST));
    assert!(!has_root_certificate(ROOT_PEM, root, LEAF_DIGEST));
    assert!(!has_root_certificate(ROOT_PEM, Some((1, Some(true))), ROOT_DIGEST));
    assert!(!has_root_certificate(ROOT_PEM, Some((0, Some(false))), ROOT_DIGEST));
    assert!(!has_root_certificate(ROOT_PEM, Some((0, None)), ROOT_DIGEST));
    assert!(!has_root_certificate(ROOT_PEM, None, ROOT_DIGEST));
}

fn issue_command() -> ClientBindingIssueCommand {
    ClientBindingIssueCommand {
        binding_id: uuid(1),
        deployment_operation_id: uuid(2),
        tenant_id: uuid(3),
        server_origin: ORIGIN.to_owned(),
        tls_root_ca_sha256: digest(4),
        authorization_digest: digest(5),
        artifact_digest: digest(6),
        issued_at_ms: 1_000,
        expires_at_ms: 901_000,
    }
}

fn binding_row(state: &str) -> BindingRow {
    BindingRow {
        binding_id: uuid(1),
        deployment_operation_id: uuid(2),
        tenant_id: uuid(3),
        server_origin: ORIGIN.to_owned(),
        tls_root_ca_sha256: vec![4; 32],
        authorization_digest: vec![5; 32],
        artifact_digest: vec![6; 32],
        issued_at_ms: 1_000,
        expires_at_ms: 901_000,
        state: state.to_owned(),
    }
}

#[test]
fn binding_is_issued_once_and_replayed_exactly() {
    let repository = ClientBindingRepository;
    let issued = repository.issue(&issue_command(), &None).unwrap();
    assert!(!issued.replayed);
    assert_eq!(issued.state, ClientBindingState::Issued);
    let again = repository
        .issue(&issue_command(), &Some(binding_row("identity_bound")))
        .unwrap();
    assert!(again.replayed);
    assert_eq!(again.state, ClientBindingState::IdentityBound);

    let mut other = issue_command();
    other.artifact_digest = digest(7);
    assert_eq!(
        repository.issue(&other, &Some(binding_row("issued"))),
        Err(ClientBindingWorkflowError::Conflict)
    );
    assert_eq!(
        repository.issue(&issue_command(), &Some(binding_row("lost"))),
        Err(ClientBindingWorkflowError::Corrupt)
    );
    let mut long = issue_command();
    long.expires_at_ms = 901_001;
    assert_eq!(repository.issue(&long, &None), Err(ClientBindingWorkflowError::Invalid));
    assert_eq!(repository.validate_issue(&long), Err(ClientBindingWorkflowError::Invalid));
    assert_eq!(repository.validate_issue(&issue_command()), Ok(()));
    let mut empty = issue_command();
    empty.expires_at_ms = 1_000;
    assert_eq!(repository.issue(&empty, &None), Err(ClientBindingWorkflowError::Invalid));
    let mut saturated = issue_command();
    saturated.issued_at_ms = i64::MAX - 1;
    saturated.expires_at_ms = i64::MAX;
    assert!(repository.issue(&saturated, &None).is_ok());
}

fn authorization_row(state: &str) -> AuthorizationRow {
    AuthorizationRow {
        authorization_digest: vec![5; 32],
        expires_at_ms: 901_000,
        state: state.to_owned(),
        identity_id: None,
        identity_request_digest: None,
        identity_idempotency_key_hash: None,
        consume_request_digest: None,
        consume_idempotency_key_hash: None,
    }
}

#[test]
fn live_bindings_are_revoked_before_and_expired_after_their_time() {
    let repository = ClientBindingRepository;
    let live = Some(authorization_row("issued"));
    assert_eq!(repository.revoke(&live, 900_999), Ok(ClientBindingState::Revoked));
    assert_eq!(repository.revoke(&live, 901_000), Err(ClientBindingWorkflowError::Conflict));
    assert_eq!(
        repository.revoke(&Some(authorization_row("consumed")), 1_000),
        Err(ClientBindingWorkflowError::Conflict)
    );
    assert_eq!(repository.revoke(&None, 1_000), Err(ClientBindingWorkflowError::Conflict));
    assert!(repository.expire(&authorization_row("identity_bound"), 901_000));
    assert!(!repository.expire(&authorization_row("identity_bound"), 900_999));
    assert!(!repository.expire(&authorization_row("revoked"), 901_000));
}

#[test]
fn binding_bootstraps_one_identity_and_its_first_device() {
    let repository = ClientBindingRepository;
    let first = genesis();
    let bytes = first.to_deterministic_cbor().unwrap();
    let now = timestamp(2_000);
    let bootstrap = |row: Option<AuthorizationRow>, idempotency: u8| {
        repository.deployment_bootstrap(&row, digest(5), digest(idempotency), bytes.clone(), now)
    };
    assert_eq!(read_genesis(&bytes).unwrap(), first);
    assert_eq!(read_genesis(&[]).err(), Some(ClientBindingWorkflowError::Invalid));
    let device = device_add(&first, &signing_key(3), DEVICE_A);
    let device_bytes = device.to_deterministic_cbor().unwrap();
    let genesis_hash = first.entry_hash().unwrap();
    assert_eq!(
        read_genesis(&device_bytes).err(),
        Some(ClientBindingWorkflowError::Invalid)
    );
    assert_eq!(
        read_initial_device(&device_bytes, genesis_hash).unwrap(),
        (device, device_id(DEVICE_A))
    );
    assert_eq!(
        read_initial_device(&device_bytes, digest(1)).err(),
        Some(ClientBindingWorkflowError::Invalid)
    );
    let append = bootstrap(Some(authorization_row("issued")), 8).unwrap();
    assert!(append.advances);
    assert_eq!(append.identity_id, first.identity_id());
    assert!(append.expected_head.is_none());
    assert_eq!(
        append.request_digest,
        request_digest(CLIENT_BINDING_BOOTSTRAP_HASH_DOMAIN, &bytes, digest(8))
    );

    let bound = || {
        let mut row = authorization_row("identity_bound");
        row.identity_id = Some(first.identity_id().to_text());
        row.identity_request_digest = Some(append.request_digest.as_bytes().to_vec());
        row.identity_idempotency_key_hash = Some(vec![8; 32]);
        row
    };
    assert!(!bootstrap(Some(bound()), 8).unwrap().advances);
    assert_eq!(
        bootstrap(Some(bound()), 9).err(),
        Some(ClientBindingWorkflowError::Conflict)
    );
    assert_eq!(bootstrap(None, 8).err(), Some(ClientBindingWorkflowError::Unauthorized));
    assert_eq!(
        bootstrap(Some(authorization_row("revoked")), 8).err(),
        Some(ClientBindingWorkflowError::Revoked)
    );
    assert_eq!(
        bootstrap(Some(authorization_row("expired")), 8).err(),
        Some(ClientBindingWorkflowError::Expired)
    );
    assert_eq!(
        repository
            .deployment_bootstrap(
                &Some(authorization_row("issued")),
                digest(6),
                digest(8),
                bytes.clone(),
                now
            )
            .err(),
        Some(ClientBindingWorkflowError::Unauthorized)
    );
    assert_eq!(
        repository
            .deployment_bootstrap(
                &Some(authorization_row("issued")),
                digest(5),
                digest(8),
                bytes.clone(),
                timestamp(901_000)
            )
            .err(),
        Some(ClientBindingWorkflowError::Expired)
    );

    let add = device_add(&first, &signing_key(3), DEVICE_A);
    let add_bytes = add.to_deterministic_cbor().unwrap();
    let genesis_hash = first.entry_hash().unwrap();
    let initial = |row: AuthorizationRow, idempotency: u8, bytes: Vec<u8>| {
        repository.initial_device(
            &Some(row),
            digest(5),
            digest(idempotency),
            genesis_hash,
            bytes,
            now,
        )
    };
    let append = initial(bound(), 9, add_bytes.clone()).unwrap();
    assert!(append.advances);
    assert_eq!(append.device_id, Some(device_id(DEVICE_A)));
    let head = append.expected_head.unwrap();
    assert_eq!((head.sequence(), head.hash()), (safe(1), genesis_hash));
    assert_eq!(
        append.request_digest,
        request_digest(CLIENT_BINDING_INITIAL_DEVICE_HASH_DOMAIN, &add_bytes, digest(9))
    );
    let mut consumed = bound();
    consumed.state = "consumed".to_owned();
    consumed.consume_request_digest = Some(append.request_digest.as_bytes().to_vec());
    consumed.consume_idempotency_key_hash = Some(vec![9; 32]);
    assert!(!initial(consumed, 9, add_bytes.clone()).unwrap().advances);
    assert_eq!(
        initial(bound(), 9, bytes.clone()).err(),
        Some(ClientBindingWorkflowError::Invalid)
    );
    let mut stranger = bound();
    stranger.identity_id = Some(IdentityId::derive(&[9; 32]).to_text());
    assert_eq!(
        initial(stranger, 9, add_bytes.clone()).err(),
        Some(ClientBindingWorkflowError::Unauthorized)
    );
    let mut issued = bound();
    issued.state = "issued".to_owned();
    assert_eq!(
        initial(issued, 9, add_bytes).err(),
        Some(ClientBindingWorkflowError::Conflict)
    );
}

fn ticket_command() -> DeploymentBindingTicketIssueCommand {
    DeploymentBindingTicketIssueCommand {
        ticket_id: uuid(9),
        binding_id: uuid(1),
        deployment_operation_id: uuid(2),
        tenant_id: uuid(3),
        server_origin: ORIGIN.to_owned(),
        tls_root_ca_pem: ROOT_PEM.to_owned(),
        tls_root_ca_sha256: digest(4),
        capability_digest: digest(7),
        status_token_digest: digest(8),
        issued_at_ms: 1_000,
        expires_at_ms: 901_000,
    }
}

fn ticket_row(state: &str) -> TicketRow {
    TicketRow {
        ticket_id: uuid(9),
        binding_id: uuid(1),
        deployment_operation_id: uuid(2),
        tenant_id: uuid(3),
        server_origin: ORIGIN.to_owned(),
        tls_root_ca_pem: ROOT_PEM.to_owned(),
        tls_root_ca_sha256: vec![4; 32],
        capability_digest: vec![7; 32],
        status_token_digest: vec![8; 32],
        issued_at_ms: 1_000,
        expires_at_ms: 901_000,
        state: state.to_owned(),
    }
}

#[test]
fn ticket_is_issued_redeemed_and_watched() {
    let repository = DeploymentBindingTicketRepository;
    let ticket = repository.issue(&ticket_command(), &ticket_row("issued")).unwrap();
    assert_eq!(ticket.state, DeploymentBindingTicketState::Issued);
    let mut other = ticket_row("issued");
    other.status_token_digest = vec![1; 32];
    assert_eq!(
        repository.issue(&ticket_command(), &other).err(),
        Some(DeploymentBindingTicketError::Conflict)
    );
    let invalid = |change: fn(&mut DeploymentBindingTicketIssueCommand)| {
        let mut command = ticket_command();
        change(&mut command);
        repository.validate_issue(&command)
            == Err(DeploymentBindingTicketError::Invalid)
    };
    assert!(invalid(|command| command.tls_root_ca_pem = String::new()));
    assert!(invalid(|command| command.tls_root_ca_pem = "\u{e9}".to_owned()));
    assert!(invalid(|command| command.tls_root_ca_pem = "a".repeat(12_289)));
    assert!(!invalid(|command| command.tls_root_ca_pem = "a".repeat(12_288)));
    assert!(invalid(|command| command.ticket_id[6] = 0x40));
    assert!(invalid(|command| command.expires_at_ms += 1));
    assert!(invalid(|command| command.server_origin.push('/')));

    let redeem = |row: Option<TicketRow>, capability: u8, now: i64| {
        repository.redeem(&row, digest(capability), &issue_command(), &None, now)
    };
    let admitted = |capability: u8, change: fn(&mut ClientBindingIssueCommand)| {
        let mut binding = issue_command();
        change(&mut binding);
        let row = Some(ticket_row("issued"));
        repository
            .admit_redemption(&row, digest(capability), &binding, 2_000)
            .map(|ticket| ticket.state)
    };
    assert_eq!(admitted(7, |_| {}), Ok(DeploymentBindingTicketState::Issued));
    assert_eq!(admitted(6, |_| {}), Err(DeploymentBindingTicketError::Unauthorized));
    assert_eq!(
        admitted(7, |binding| binding.tenant_id = uuid(9)),
        Err(DeploymentBindingTicketError::Conflict)
    );
    let redemption = redeem(Some(ticket_row("issued")), 7, 2_000).unwrap();
    assert_eq!(redemption.ticket.state, DeploymentBindingTicketState::Redeemed);
    assert!(!redemption.binding.replayed);
    let issued = repository
        .admit_redemption(&Some(ticket_row("issued")), digest(7), &issue_command(), 2_000)
        .unwrap();
    let redeemed = repository.complete_redemption(issued);
    assert_eq!(redeemed.state, DeploymentBindingTicketState::Redeemed);
    assert_eq!(redeemed.ticket_id, redemption.ticket.ticket_id);
    assert_eq!(redeemed.expires_at_ms, redemption.ticket.expires_at_ms);
    assert!(redeem(Some(ticket_row("redeemed")), 7, 2_000).is_ok());
    assert_eq!(
        redeem(Some(ticket_row("issued")), 6, 2_000).err(),
        Some(DeploymentBindingTicketError::Unauthorized)
    );
    assert_eq!(redeem(None, 7, 2_000).err(), Some(DeploymentBindingTicketError::Unauthorized));
    assert_eq!(
        redeem(Some(ticket_row("issued")), 7, 901_000).err(),
        Some(DeploymentBindingTicketError::Expired)
    );
    assert_eq!(
        redeem(Some(ticket_row("revoked")), 7, 2_000).err(),
        Some(DeploymentBindingTicketError::Conflict)
    );
    assert_eq!(
        redeem(Some(ticket_row("lost")), 7, 2_000).err(),
        Some(DeploymentBindingTicketError::Corrupt)
    );
    let mut moved = ticket_row("issued");
    moved.tenant_id = uuid(4);
    assert_eq!(
        redeem(Some(moved), 7, 2_000).err(),
        Some(DeploymentBindingTicketError::Conflict)
    );

    let status = |binding: Option<&str>, token: u8, now: i64| {
        repository.status(
            &Some(ticket_row("issued")),
            &binding.map(|state| state.to_owned()),
            digest(token),
            now,
        )
    };
    assert_eq!(status(None, 8, 2_000), Ok(DeploymentBindingTicketState::Issued));
    assert_eq!(status(None, 8, 901_000), Ok(DeploymentBindingTicketState::Expired));
    assert_eq!(
        status(Some("consumed"), 8, 901_000),
        Ok(DeploymentBindingTicketState::Consumed)
    );
    assert_eq!(
        status(Some("identity_bound"), 8, 2_000),
        Ok(DeploymentBindingTicketState::IdentityBound)
    );
    assert_eq!(status(Some("lost"), 8, 2_000), Err(DeploymentBindingTicketError::Corrupt));
    assert_eq!(status(None, 7, 2_000), Err(DeploymentBindingTicketError::Unauthorized));
}
