//! What holds of client bindings and their deployment tickets, told by commands and
//! rows.

use vstd::prelude::*;
use vstd::utf8::*;
use crate::log::event_codec;
use crate::outside;
use crate::persistence::client_binding;
use crate::persistence::client_binding::{
    AuthorizationRow, BindingRow, ClientBindingIssueCommand, ClientBindingIssueOutcome,
    ClientBindingState, ClientBindingWorkflowError, Import, ImportFields,
};
use crate::persistence::deployment_binding;
use crate::persistence::deployment_binding::{
    DeploymentBindingTicket, DeploymentBindingTicketError, DeploymentBindingTicketIssueCommand,
    DeploymentBindingTicketState, TicketRow,
};
use crate::persistence::origin;
use crate::wire::base64;
use crate::wire::digest;
use crate::wire::text;

verus! {

/// The states of a binding are read from their own names, and from no other text.
pub proof fn law_binding_states_are_read_by_name(stored: Seq<char>, state: ClientBindingState)
    ensures
        client_binding::read_state(stored) == Some(state) <==> stored == state.text(),
        state.text() == match state {
            ClientBindingState::Issued => "issued"@,
            ClientBindingState::IdentityBound => "identity_bound"@,
            ClientBindingState::Consumed => "consumed"@,
            ClientBindingState::Expired => "expired"@,
            ClientBindingState::Revoked => "revoked"@,
        },
{
    reveal_strlit("issued");
    reveal_strlit("identity_bound");
    reveal_strlit("consumed");
    reveal_strlit("expired");
    reveal_strlit("revoked");
    assert("issued"@[0] == 'i' && "issued"@.len() == 6);
    assert("identity_bound"@.len() == 14);
    assert("consumed"@.len() == 8);
    assert("expired"@[0] == 'e' && "expired"@.len() == 7);
    assert("revoked"@[0] == 'r' && "revoked"@.len() == 7);
}

/// A binding is live exactly while it is issued or bound.
pub proof fn law_binding_is_live_until_it_ends(state: ClientBindingState)
    ensures
        client_binding::is_live(Some(state)) <==> state == ClientBindingState::Issued || state
            == ClientBindingState::IdentityBound,
        !client_binding::is_live(None),
{
}

/// A binding is issued exactly for a canonical origin, for up to fifteen minutes.
pub proof fn law_binding_is_issued_for_minutes(command: ClientBindingIssueCommand)
    ensures
        client_binding::is_issuable(command) <==> {
            &&& command.issued_at_ms < command.expires_at_ms
            &&& command.expires_at_ms <= command.issued_at_ms + 900_000
            &&& origin::is_canonical_origin(command.server_origin@)
        },
{
}

/// An origin is canonical exactly if it is the text of its own origin: the secure
/// scheme and a host, without user, path, query or fragment.
pub proof fn law_canonical_origin_is_bare(stored: Seq<char>)
    ensures
        ({
            let parts = outside::url_parsed(stored)->0;
            origin::is_canonical_origin(stored) <==> {
                &&& outside::url_parsed(stored) is Some
                &&& parts.0 == "https"@
                &&& parts.1
                &&& parts.2 == ""@
                &&& !parts.3
                &&& parts.4 == "/"@
                &&& !parts.5
                &&& !parts.6
                &&& outside::url_origin_of(stored) == stored
            }
        }),
{
}

/// A live row answers the same issue again: with the same origin, certificate,
/// authorization, artifact and times; and no other one.
pub proof fn law_issue_is_recognized(row: BindingRow, command: ClientBindingIssueCommand)
    ensures
        client_binding::is_same_issue(row, command) <==> {
            &&& row.server_origin@ == command.server_origin@
            &&& row.tls_root_ca_sha256@ == command.tls_root_ca_sha256@
            &&& row.authorization_digest@ == command.authorization_digest@
            &&& row.artifact_digest@ == command.artifact_digest@
            &&& row.issued_at_ms == command.issued_at_ms
            &&& row.expires_at_ms == command.expires_at_ms
        },
        client_binding::is_binding_row(row) <==> {
            &&& row.tls_root_ca_sha256@.len() == 32
            &&& row.authorization_digest@.len() == 32
            &&& row.artifact_digest@.len() == 32
            &&& exists|state: ClientBindingState| row.state@ == #[trigger] state.text()
        },
{
    if client_binding::read_state(row.state@) is Some {
        let state = client_binding::read_state(row.state@)->0;
        law_binding_states_are_read_by_name(row.state@, state);
        assert(row.state@ == state.text());
    }
    if exists|state: ClientBindingState| row.state@ == #[trigger] state.text() {
        let state = choose|state: ClientBindingState| row.state@ == #[trigger] state.text();
        law_binding_states_are_read_by_name(row.state@, state);
    }
}

/// The outcome of an issue says what its row says.
pub proof fn law_issue_outcome_is_that_of_the_row(
    outcome: ClientBindingIssueOutcome,
    row: BindingRow,
)
    requires
        client_binding::is_outcome_of(outcome, row),
    ensures
        outcome.binding_id@ == row.binding_id@,
        outcome.deployment_operation_id@ == row.deployment_operation_id@,
        outcome.tenant_id@ == row.tenant_id@,
        outcome.server_origin@ == row.server_origin@,
        outcome.tls_root_ca_sha256@ == row.tls_root_ca_sha256@,
        outcome.authorization_digest@ == row.authorization_digest@,
        outcome.artifact_digest@ == row.artifact_digest@,
        outcome.issued_at_ms == row.issued_at_ms,
        outcome.expires_at_ms == row.expires_at_ms,
        row.state@ == outcome.state.text(),
{
    law_binding_states_are_read_by_name(row.state@, outcome.state);
}

/// A new binding is issued, with what its command says.
pub proof fn law_new_binding_is_that_of_the_command(
    outcome: ClientBindingIssueOutcome,
    command: ClientBindingIssueCommand,
)
    requires
        client_binding::is_new_issue(outcome, command),
    ensures
        outcome.binding_id@ == command.binding_id@,
        outcome.deployment_operation_id@ == command.deployment_operation_id@,
        outcome.tenant_id@ == command.tenant_id@,
        outcome.server_origin@ == command.server_origin@,
        outcome.tls_root_ca_sha256@ == command.tls_root_ca_sha256@,
        outcome.authorization_digest@ == command.authorization_digest@,
        outcome.artifact_digest@ == command.artifact_digest@,
        outcome.issued_at_ms == command.issued_at_ms,
        outcome.expires_at_ms == command.expires_at_ms,
        outcome.state == ClientBindingState::Issued,
        !outcome.replayed,
{
}

/// An authorization opens its binding exactly until the binding expires or is
/// revoked.
pub proof fn law_authorization_opens_its_binding(
    row: AuthorizationRow,
    authorization_digest: Seq<u8>,
    now: i64,
)
    ensures
        ({
            let checked = client_binding::authorization_check(row, authorization_digest, now);
            let held = row.authorization_digest@ == authorization_digest;
            let fresh = now < row.expires_at_ms;
            &&& checked is Ok <==> {
                &&& held
                &&& fresh
                &&& row.state@ == "issued"@ || row.state@ == "identity_bound"@ || row.state@
                    == "consumed"@
            }
            &&& !held ==> checked == Err::<(), ClientBindingWorkflowError>(
                ClientBindingWorkflowError::Unauthorized,
            )
            &&& held && !fresh ==> checked == Err::<(), ClientBindingWorkflowError>(
                ClientBindingWorkflowError::Expired,
            )
            &&& held && fresh && row.state@ == "revoked"@ ==> checked == Err::<
                (),
                ClientBindingWorkflowError,
            >(ClientBindingWorkflowError::Revoked)
            &&& held && fresh && row.state@ == "expired"@ ==> checked == Err::<
                (),
                ClientBindingWorkflowError,
            >(ClientBindingWorkflowError::Expired)
        }),
{
    law_binding_states_are_read_by_name(row.state@, ClientBindingState::Issued);
    law_binding_states_are_read_by_name(row.state@, ClientBindingState::IdentityBound);
    law_binding_states_are_read_by_name(row.state@, ClientBindingState::Consumed);
    law_binding_states_are_read_by_name(row.state@, ClientBindingState::Revoked);
    law_binding_states_are_read_by_name(row.state@, ClientBindingState::Expired);
}

/// A request of a binding is known by a digest of its key and its body, and by its
/// key.
pub open spec fn is_kept(
    stored: Option<Vec<u8>>,
    key: Option<Vec<u8>>,
    domain: Seq<char>,
    body: Seq<u8>,
    idempotency: Seq<u8>,
) -> bool {
    &&& stored is Some && key is Some
    &&& stored->0@ == digest::hash_in_domain(domain, idempotency + body)
    &&& key->0@ == idempotency
}

/// An identity is bound exactly by a genesis event, once per binding; the same
/// request may come again.
pub proof fn law_binding_takes_one_genesis(
    bytes: Seq<u8>,
    row: AuthorizationRow,
    authorization_digest: Seq<u8>,
    idempotency: Seq<u8>,
    now: i64,
)
    ensures
        ({
            let checked = client_binding::bootstrap_check(
                bytes,
                Some(row),
                authorization_digest,
                idempotency,
                now,
            );
            let event = event_codec::decode_event(bytes);
            let genesis = event is Ok && event->Ok_0.unsigned.payload is Genesis
                && event->Ok_0.unsigned.sequence == 1;
            let open = client_binding::authorization_check(row, authorization_digest, now);
            let first = row.state@ == "issued"@ || is_kept(
                row.identity_request_digest,
                row.identity_idempotency_key_hash,
                "dirextalk.client-binding-bootstrap-request.v1\0"@,
                bytes,
                idempotency,
            );
            &&& checked is Ok <==> genesis && open is Ok && first
            &&& !genesis ==> checked == Err::<(), ClientBindingWorkflowError>(
                ClientBindingWorkflowError::Invalid,
            )
            &&& genesis && open is Err ==> checked == open
            &&& genesis && open is Ok && !first ==> checked == Err::<
                (),
                ClientBindingWorkflowError,
            >(ClientBindingWorkflowError::Conflict)
        }),
{
    law_binding_states_are_read_by_name(row.state@, ClientBindingState::Issued);
}

/// The first device is taken exactly behind the genesis of the bound identity, once
/// per binding; the same request may come again.
pub proof fn law_binding_takes_one_first_device(
    bytes: Seq<u8>,
    genesis_hash: Seq<u8>,
    row: AuthorizationRow,
    authorization_digest: Seq<u8>,
    idempotency: Seq<u8>,
    now: i64,
)
    ensures
        ({
            let checked = client_binding::initial_device_check(
                bytes,
                genesis_hash,
                Some(row),
                authorization_digest,
                idempotency,
                now,
            );
            let event = event_codec::decode_event(bytes);
            let adds = {
                &&& event is Ok
                &&& event->Ok_0.unsigned.payload is DeviceAdd
                &&& event->Ok_0.unsigned.sequence == 2
                &&& event->Ok_0.unsigned.previous_event_hash == Some(genesis_hash)
            };
            let open = client_binding::authorization_check(row, authorization_digest, now);
            let own = row.identity_id is Some && row.identity_id->0@ == text::hex(
                event->Ok_0.unsigned.identity_id,
            );
            let next = row.state@ == "identity_bound"@ || row.state@ == "consumed"@ && is_kept(
                row.consume_request_digest,
                row.consume_idempotency_key_hash,
                "dirextalk.client-binding-initial-device-request.v1\0"@,
                bytes,
                idempotency,
            );
            &&& checked is Ok <==> adds && open is Ok && own && next
            &&& !adds ==> checked == Err::<(), ClientBindingWorkflowError>(
                ClientBindingWorkflowError::Invalid,
            )
            &&& adds && open is Err ==> checked == open
            &&& adds && open is Ok && !own ==> checked == Err::<(), ClientBindingWorkflowError>(
                ClientBindingWorkflowError::Unauthorized,
            )
            &&& adds && open is Ok && own && !next ==> checked == Err::<
                (),
                ClientBindingWorkflowError,
            >(ClientBindingWorkflowError::Conflict)
        }),
{
    law_authorization_opens_its_binding(row, authorization_digest, now);
    law_binding_states_are_read_by_name(row.state@, ClientBindingState::Issued);
    law_binding_states_are_read_by_name(row.state@, ClientBindingState::IdentityBound);
    law_binding_states_are_read_by_name(row.state@, ClientBindingState::Consumed);
}

/// Who holds no row is not authorized.
pub proof fn law_unknown_binding_is_unauthorized(
    bytes: Seq<u8>,
    genesis_hash: Seq<u8>,
    authorization_digest: Seq<u8>,
    idempotency: Seq<u8>,
    now: i64,
)
    ensures
        client_binding::bootstrap_check(bytes, None, authorization_digest, idempotency, now) is Err,
        client_binding::initial_device_check(
            bytes,
            genesis_hash,
            None,
            authorization_digest,
            idempotency,
            now,
        ) is Err,
{
}

/// A text of sixteen bytes in the seventh version.
pub open spec fn is_v7_text(stored: Seq<char>) -> bool {
    exists|raw: Seq<u8>|
        #![trigger text::hyphenated(raw)]
        raw.len() == 16 && 0x70 <= raw[6] <= 0x7f && text::hyphenated(raw) == stored
}

/// An import is accepted exactly if its schema, its origin, its identifiers, its
/// certificate and its authorization are in form.
pub proof fn law_import_is_in_form(fields: ImportFields)
    ensures
        ({
            let pem = fields.identity_tls_root_ca_pem@;
            client_binding::is_import(fields) <==> {
                &&& fields.schema@ == "dirextalk.client-binding"@
                &&& fields.schema_version == 1
                &&& origin::is_canonical_origin(fields.server_origin@)
                &&& is_v7_text(fields.binding_id@)
                &&& is_v7_text(fields.deployment_operation_id@)
                &&& is_v7_text(fields.tenant_id@)
                &&& encode_utf8(pem).len() <= 12_288
                &&& outside::pem_parsed(pem) == Some((0usize, Some(true)))
                &&& fields.identity_tls_root_ca_sha256@ == text::hex(
                    outside::sha256_of(encode_utf8(pem)),
                )
                &&& exists|raw: Seq<u8>|
                    raw.len() == 32 && fields.authorization@ == #[trigger] base64::base64url(raw)
            }
        }),
{
    lemma_v7_text(fields.binding_id@);
    lemma_v7_text(fields.deployment_operation_id@);
    lemma_v7_text(fields.tenant_id@);
}

/// The version is the high half of the seventh byte.
proof fn lemma_v7_text(stored: Seq<char>)
    ensures
        client_binding::is_canonical_v7(stored) <==> is_v7_text(stored),
{
    if client_binding::is_canonical_v7(stored) {
        let raw = choose|raw: Seq<u8>|
            raw.len() == 16 && raw[6] / 16 == 7 && stored == #[trigger] text::hyphenated(raw);
        assert(text::hyphenated(raw) == stored);
    }
    if is_v7_text(stored) {
        let raw = choose|raw: Seq<u8>|
            #![trigger text::hyphenated(raw)]
            raw.len() == 16 && 0x70 <= raw[6] <= 0x7f && text::hyphenated(raw) == stored;
        assert(stored == text::hyphenated(raw));
    }
}

/// An import says what its fields say.
pub proof fn law_import_says_what_its_fields_say(import: Import, fields: ImportFields)
    requires
        client_binding::is_import_of(import, fields),
    ensures
        text::hyphenated(import.binding_id) == fields.binding_id@,
        text::hyphenated(import.deployment_operation_id) == fields.deployment_operation_id@,
        text::hyphenated(import.tenant_id) == fields.tenant_id@,
        import.server_origin == fields.server_origin@,
        import.identity_tls_root_ca_pem == fields.identity_tls_root_ca_pem@,
        import.expires_at_unix_ms == fields.expires_at_unix_ms,
        base64::base64url(import.authorization) == fields.authorization@,
        client_binding::authorization_digest_of(import.authorization) == digest::hash_in_domain(
            "dirextalk.client-binding-authorization.v1\0"@,
            import.authorization,
        ),
{
}

/// The states of a ticket are read from their own names.
pub proof fn law_ticket_states_are_read_by_name(stored: Seq<char>)
    ensures
        ({
            let read = deployment_binding::read_ticket_state(stored);
            &&& read == Some(DeploymentBindingTicketState::Issued) <==> stored == "issued"@
            &&& read == Some(DeploymentBindingTicketState::Redeemed) <==> stored == "redeemed"@
            &&& read == Some(DeploymentBindingTicketState::Expired) <==> stored == "expired"@
            &&& read == Some(DeploymentBindingTicketState::Revoked) <==> stored == "revoked"@
            &&& read != Some(DeploymentBindingTicketState::IdentityBound)
            &&& read != Some(DeploymentBindingTicketState::Consumed)
        }),
{
    reveal_strlit("issued");
    reveal_strlit("redeemed");
    reveal_strlit("expired");
    reveal_strlit("revoked");
    assert("issued"@.len() == 6);
    assert("redeemed"@.len() == 8);
    assert("expired"@[0] == 'e' && "expired"@.len() == 7);
    assert("revoked"@[0] == 'r' && "revoked"@.len() == 7);
}

/// What became of its binding says what became of a ticket; until the binding
/// moved, its own state does.
pub proof fn law_binding_tells_the_ticket(stored: Seq<char>, binding: Seq<char>)
    ensures
        ({
            let joined = deployment_binding::joined_state(stored, Some(binding));
            &&& binding == "identity_bound"@ ==> joined == Some(
                DeploymentBindingTicketState::IdentityBound,
            )
            &&& binding == "consumed"@ ==> joined == Some(DeploymentBindingTicketState::Consumed)
            &&& binding == "expired"@ ==> joined == Some(DeploymentBindingTicketState::Expired)
            &&& binding == "revoked"@ ==> joined == Some(DeploymentBindingTicketState::Revoked)
            &&& binding == "issued"@ ==> joined == deployment_binding::read_ticket_state(stored)
            &&& joined is Some ==> {
                ||| binding == "identity_bound"@
                ||| binding == "consumed"@
                ||| binding == "expired"@
                ||| binding == "revoked"@
                ||| binding == "issued"@
            }
        }),
        deployment_binding::joined_state(stored, None) == deployment_binding::read_ticket_state(
            stored,
        ),
{
    reveal_strlit("issued");
    reveal_strlit("identity_bound");
    reveal_strlit("consumed");
    reveal_strlit("expired");
    reveal_strlit("revoked");
    assert("issued"@.len() == 6);
    assert("identity_bound"@.len() == 14);
    assert("consumed"@.len() == 8);
    assert("expired"@[0] == 'e' && "expired"@.len() == 7);
    assert("revoked"@[0] == 'r' && "revoked"@.len() == 7);
}

/// Sixteen bytes in the seventh version.
pub open spec fn is_v7(raw: Seq<u8>) -> bool {
    0x70 <= raw[6] <= 0x7f
}

/// A ticket is issued exactly for identifiers in the seventh version, a certificate
/// in plain text, a canonical origin, and up to fifteen minutes.
pub proof fn law_ticket_is_issued_for_minutes(command: DeploymentBindingTicketIssueCommand)
    ensures
        deployment_binding::is_ticket_issuable(command) <==> {
            &&& is_v7(command.ticket_id@)
            &&& is_v7(command.binding_id@)
            &&& is_v7(command.deployment_operation_id@)
            &&& is_v7(command.tenant_id@)
            &&& 0 < encode_utf8(command.tls_root_ca_pem@).len() <= 12_288
            &&& is_ascii_chars(command.tls_root_ca_pem@)
            &&& origin::is_canonical_origin(command.server_origin@)
            &&& command.issued_at_ms < command.expires_at_ms
            &&& command.expires_at_ms <= command.issued_at_ms + 900_000
        },
{
}

/// A ticket is issued again only with everything that it was issued with.
pub proof fn law_ticket_is_recognized(row: TicketRow, command: DeploymentBindingTicketIssueCommand)
    ensures
        deployment_binding::is_same_ticket(row, command) <==> {
            &&& row.ticket_id@ == command.ticket_id@
            &&& row.binding_id@ == command.binding_id@
            &&& row.tenant_id@ == command.tenant_id@
            &&& row.server_origin@ == command.server_origin@
            &&& row.tls_root_ca_pem@ == command.tls_root_ca_pem@
            &&& row.tls_root_ca_sha256@ == command.tls_root_ca_sha256@
            &&& row.capability_digest@ == command.capability_digest@
            &&& row.status_token_digest@ == command.status_token_digest@
            &&& row.issued_at_ms == command.issued_at_ms
            &&& row.expires_at_ms == command.expires_at_ms
        },
{
}

/// A ticket says what its row says.
pub proof fn law_ticket_is_that_of_the_row(
    ticket: DeploymentBindingTicket,
    row: TicketRow,
    state: DeploymentBindingTicketState,
)
    requires
        deployment_binding::is_ticket_of(ticket, row, Some(state)),
    ensures
        ticket.ticket_id@ == row.ticket_id@,
        ticket.binding_id@ == row.binding_id@,
        ticket.deployment_operation_id@ == row.deployment_operation_id@,
        ticket.tenant_id@ == row.tenant_id@,
        ticket.server_origin@ == row.server_origin@,
        ticket.tls_root_ca_pem@ == row.tls_root_ca_pem@,
        ticket.tls_root_ca_sha256@ == row.tls_root_ca_sha256@,
        ticket.issued_at_ms == row.issued_at_ms,
        ticket.expires_at_ms == row.expires_at_ms,
        ticket.state == state,
{
}

/// A ticket is redeemed exactly by its capability, before it expires, unless it
/// ended; what was redeemed may be redeemed again.
pub proof fn law_ticket_is_redeemed_by_its_capability(
    row: TicketRow,
    capability_digest: Seq<u8>,
    now: i64,
)
    requires
        row.tls_root_ca_sha256@.len() == 32,
        deployment_binding::read_ticket_state(row.state@) is Some,
    ensures
        ({
            let checked = deployment_binding::redeem_check(Some(row), capability_digest, now);
            let held = row.capability_digest@ == capability_digest;
            let fresh = now < row.expires_at_ms;
            let open = row.state@ == "issued"@ || row.state@ == "redeemed"@;
            &&& checked is Ok <==> held && fresh && open
            &&& !held ==> checked == Err::<(), DeploymentBindingTicketError>(
                DeploymentBindingTicketError::Unauthorized,
            )
            &&& held && !fresh ==> checked == Err::<(), DeploymentBindingTicketError>(
                DeploymentBindingTicketError::Expired,
            )
            &&& held && fresh && !open ==> checked == Err::<(), DeploymentBindingTicketError>(
                DeploymentBindingTicketError::Conflict,
            )
        }),
        deployment_binding::redeem_check(None, capability_digest, now) == Err::<
            (),
            DeploymentBindingTicketError,
        >(DeploymentBindingTicketError::Unauthorized),
{
    law_ticket_states_are_read_by_name(row.state@);
}

/// A broken ticket is never redeemed.
pub proof fn law_broken_ticket_is_refused(row: TicketRow, capability_digest: Seq<u8>, now: i64)
    requires
        row.tls_root_ca_sha256@.len() != 32 || deployment_binding::read_ticket_state(row.state@)
            is None,
    ensures
        deployment_binding::redeem_check(Some(row), capability_digest, now) is Err,
        !deployment_binding::is_ticket_row(row, None),
{
}

/// A ticket is redeemed for its own binding: the same identifiers, origin,
/// certificate and times.
pub proof fn law_ticket_is_for_its_binding(row: TicketRow, binding: ClientBindingIssueCommand)
    ensures
        deployment_binding::is_binding_of(row, binding) <==> {
            &&& row.binding_id@ == binding.binding_id@
            &&& row.deployment_operation_id@ == binding.deployment_operation_id@
            &&& row.tenant_id@ == binding.tenant_id@
            &&& row.server_origin@ == binding.server_origin@
            &&& row.tls_root_ca_sha256@ == binding.tls_root_ca_sha256@
            &&& row.issued_at_ms == binding.issued_at_ms
            &&& row.expires_at_ms == binding.expires_at_ms
        },
{
}

/// A binding is issued with a ticket exactly if it may be issued and no other
/// binding is live in its place.
pub proof fn law_redemption_issues_one_binding(
    binding: ClientBindingIssueCommand,
    live: Option<BindingRow>,
)
    ensures
        ({
            let refusal = deployment_binding::issue_refusal(binding, live);
            let issuable = client_binding::is_issuable(binding);
            let same = live is None || client_binding::is_binding_row(live->0)
                && client_binding::is_same_issue(live->0, binding);
            &&& refusal is None <==> issuable && same
            &&& !issuable ==> refusal == Some(DeploymentBindingTicketError::Invalid)
            &&& issuable && live is Some && client_binding::is_binding_row(live->0) && !same
                ==> refusal == Some(DeploymentBindingTicketError::Conflict)
        }),
{
}

/// What a binding refuses a ticket refuses alike; a revoked binding is told as an
/// expired ticket.
pub proof fn law_binding_refusals_carry_over(error: ClientBindingWorkflowError)
    ensures
        ({
            let mapped = deployment_binding::mapped_error(error);
            &&& mapped is Persistence <==> error is Persistence
            &&& mapped is Persistence ==> mapped->Persistence_0 == error->Persistence_0
            &&& mapped is Invalid <==> error is Invalid
            &&& mapped is Unauthorized <==> error is Unauthorized
            &&& mapped is Conflict <==> error is Conflict
            &&& mapped is Expired <==> error is Expired || error is Revoked
            &&& mapped is Corrupt <==> error is Corrupt
        }),
{
}

} // verus!
