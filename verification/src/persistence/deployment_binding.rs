//! Deployment binding tickets: how a fresh deployment hands out its client binding.

use vstd::prelude::*;
use vstd::utf8::*;
use crate::persistence::client_binding;
use crate::persistence::client_binding::{
    latest_expiry_of, BindingRow, ClientBindingIssueCommand, ClientBindingIssueOutcome,
    ClientBindingRepository, ClientBindingWorkflowError,
};
use crate::persistence::error::IdentityPersistenceError;
use crate::persistence::origin;
use crate::persistence::origin::is_canonical_https_origin;
use crate::wire::bytes::{bytes_equal, to_array};
use crate::wire::digest::Sha256Digest;
use crate::wire::text::{encoded_len, text_equal};

verus! {

/// Domain separator for the digest of the capability that redeems a ticket.
pub const DEPLOYMENT_BINDING_CAPABILITY_HASH_DOMAIN: &'static str =
    "dirextalk.deployment-binding-capability.v1\0";

/// Domain separator for the digest of the token that reads a ticket's status.
pub const DEPLOYMENT_BINDING_STATUS_TOKEN_HASH_DOMAIN: &'static str =
    "dirextalk.deployment-binding-status-token.v1\0";

/// Domain separator for the client authorization of a redeemed ticket.
pub const DEPLOYMENT_BINDING_CLIENT_AUTHORIZATION_DOMAIN: &'static str =
    "dirextalk.deployment-binding-client-authorization.v1\0";

/// The most bytes of the root certificate of a ticket.
pub const MAX_TICKET_CA_BYTES: usize = 12_288;

/// A request to issue a ticket.
#[derive(Clone, Debug)]
pub struct DeploymentBindingTicketIssueCommand {
    /// The UUID of the ticket.
    pub ticket_id: [u8; 16],
    /// The UUID of the binding.
    pub binding_id: [u8; 16],
    /// The UUID of the deployment operation.
    pub deployment_operation_id: [u8; 16],
    /// The UUID of the tenant.
    pub tenant_id: [u8; 16],
    /// The origin of the server.
    pub server_origin: String,
    /// The root certificate.
    pub tls_root_ca_pem: String,
    /// The digest of the root certificate.
    pub tls_root_ca_sha256: Sha256Digest,
    /// The digest of the capability that redeems the ticket.
    pub capability_digest: Sha256Digest,
    /// The digest of the token that reads its status.
    pub status_token_digest: Sha256Digest,
    /// When the ticket is issued.
    pub issued_at_ms: i64,
    /// When the ticket expires.
    pub expires_at_ms: i64,
}

/// A ticket as it was issued.
#[derive(Clone, Debug)]
pub struct DeploymentBindingTicket {
    /// The UUID of the ticket.
    pub ticket_id: [u8; 16],
    /// The UUID of the binding.
    pub binding_id: [u8; 16],
    /// The UUID of the deployment operation.
    pub deployment_operation_id: [u8; 16],
    /// The UUID of the tenant.
    pub tenant_id: [u8; 16],
    /// The origin of the server.
    pub server_origin: String,
    /// The root certificate.
    pub tls_root_ca_pem: String,
    /// The digest of the root certificate.
    pub tls_root_ca_sha256: Sha256Digest,
    /// When the ticket is issued.
    pub issued_at_ms: i64,
    /// When the ticket expires.
    pub expires_at_ms: i64,
    /// Its state.
    pub state: DeploymentBindingTicketState,
}

/// The lifecycle of a ticket.
#[derive(Clone, Copy, Debug, PartialEq, Eq, Structural)]
pub enum DeploymentBindingTicketState {
    /// The ticket was issued.
    Issued,
    /// The ticket was redeemed for its client binding.
    Redeemed,
    /// An identity was bootstrapped with its client binding.
    IdentityBound,
    /// The identity's first device was added.
    Consumed,
    /// The ticket or its client binding expired.
    Expired,
    /// The ticket or its client binding was revoked.
    Revoked,
}

/// Why a ticket operation failed.
#[derive(Clone, Copy, Debug, PartialEq, Eq)]
pub enum DeploymentBindingTicketError {
    /// Storage refused.
    Persistence(IdentityPersistenceError),
    /// The request is malformed.
    Invalid,
    /// The ticket is unknown, or the capability or token is not its own.
    Unauthorized,
    /// The request conflicts with what is stored.
    Conflict,
    /// The ticket expired.
    Expired,
    /// What is stored is malformed.
    Corrupt,
}

impl DeploymentBindingTicketError {
    /// What went wrong, in words that tell no error from another.
    pub fn message(&self) -> (text: String)
        ensures
            text@ == "deployment binding ticket operation failed"@,
    {
        "deployment binding ticket operation failed".to_owned()
    }
}

impl From<IdentityPersistenceError> for DeploymentBindingTicketError {
    fn from(error: IdentityPersistenceError) -> (converted: Self) {
        DeploymentBindingTicketError::Persistence(error)
    }
}

impl vstd::std_specs::convert::FromSpecImpl<IdentityPersistenceError>
    for DeploymentBindingTicketError {
    open spec fn obeys_from_spec() -> bool {
        true
    }

    open spec fn from_spec(error: IdentityPersistenceError) -> Self {
        DeploymentBindingTicketError::Persistence(error)
    }
}

/// A ticket as its row holds it.
#[derive(Debug)]
pub struct TicketRow {
    /// The UUID of the ticket.
    pub ticket_id: [u8; 16],
    /// The UUID of the binding.
    pub binding_id: [u8; 16],
    /// The UUID of the deployment operation.
    pub deployment_operation_id: [u8; 16],
    /// The UUID of the tenant.
    pub tenant_id: [u8; 16],
    /// The origin of the server.
    pub server_origin: String,
    /// The root certificate.
    pub tls_root_ca_pem: String,
    /// The digest of the root certificate.
    pub tls_root_ca_sha256: Vec<u8>,
    /// The digest of the capability that redeems the ticket.
    pub capability_digest: Vec<u8>,
    /// The digest of the token that reads its status.
    pub status_token_digest: Vec<u8>,
    /// When the ticket is issued.
    pub issued_at_ms: i64,
    /// When the ticket expires.
    pub expires_at_ms: i64,
    /// Its state.
    pub state: String,
}

/// The stored state of a ticket on its own.
pub open spec fn read_ticket_state(text: Seq<char>) -> Option<DeploymentBindingTicketState> {
    if text == "issued"@ {
        Some(DeploymentBindingTicketState::Issued)
    } else if text == "redeemed"@ {
        Some(DeploymentBindingTicketState::Redeemed)
    } else if text == "expired"@ {
        Some(DeploymentBindingTicketState::Expired)
    } else if text == "revoked"@ {
        Some(DeploymentBindingTicketState::Revoked)
    } else {
        None
    }
}

/// The state of a ticket: that of its client binding once the binding has left
/// its first state, and before that the stored one.
pub open spec fn joined_state(
    stored: Seq<char>,
    binding_state: Option<Seq<char>>,
) -> Option<DeploymentBindingTicketState> {
    match binding_state {
        None => read_ticket_state(stored),
        Some(binding_state) => if binding_state == "identity_bound"@ {
            Some(DeploymentBindingTicketState::IdentityBound)
        } else if binding_state == "consumed"@ {
            Some(DeploymentBindingTicketState::Consumed)
        } else if binding_state == "expired"@ {
            Some(DeploymentBindingTicketState::Expired)
        } else if binding_state == "revoked"@ {
            Some(DeploymentBindingTicketState::Revoked)
        } else if binding_state == "issued"@ {
            read_ticket_state(stored)
        } else {
            None
        },
    }
}

/// The optional text as characters.
pub open spec fn text_view(text: Option<String>) -> Option<Seq<char>> {
    match text {
        Some(text) => Some(text@),
        None => None,
    }
}

/// Reads the stored state of a ticket on its own.
fn parse_ticket_state(value: &str) -> (state: Option<DeploymentBindingTicketState>)
    ensures
        state == read_ticket_state(value@),
{
    if text_equal(value, "issued") {
        Some(DeploymentBindingTicketState::Issued)
    } else if text_equal(value, "redeemed") {
        Some(DeploymentBindingTicketState::Redeemed)
    } else if text_equal(value, "expired") {
        Some(DeploymentBindingTicketState::Expired)
    } else if text_equal(value, "revoked") {
        Some(DeploymentBindingTicketState::Revoked)
    } else {
        None
    }
}

/// Reads the state of a ticket, given that of its client binding.
fn parse_joined_state(stored: &str, binding_state: &Option<String>) -> (state: Option<
    DeploymentBindingTicketState,
>)
    ensures
        state == joined_state(stored@, text_view(*binding_state)),
{
    match binding_state {
        None => parse_ticket_state(stored),
        Some(binding_state) => {
            let binding_state = binding_state.as_str();
            if text_equal(binding_state, "identity_bound") {
                Some(DeploymentBindingTicketState::IdentityBound)
            } else if text_equal(binding_state, "consumed") {
                Some(DeploymentBindingTicketState::Consumed)
            } else if text_equal(binding_state, "expired") {
                Some(DeploymentBindingTicketState::Expired)
            } else if text_equal(binding_state, "revoked") {
                Some(DeploymentBindingTicketState::Revoked)
            } else if text_equal(binding_state, "issued") {
                parse_ticket_state(stored)
            } else {
                None
            }
        },
    }
}

/// The columns of a ticket can be read.
pub open spec fn is_ticket_row(row: TicketRow, binding_state: Option<Seq<char>>) -> bool {
    &&& joined_state(row.state@, binding_state) is Some
    &&& row.tls_root_ca_sha256@.len() == 32
}

/// The ticket holds what the row holds.
pub open spec fn is_ticket_of(
    ticket: DeploymentBindingTicket,
    row: TicketRow,
    state: Option<DeploymentBindingTicketState>,
) -> bool {
    &&& ticket.ticket_id@ == row.ticket_id@
    &&& ticket.binding_id@ == row.binding_id@
    &&& ticket.deployment_operation_id@ == row.deployment_operation_id@
    &&& ticket.tenant_id@ == row.tenant_id@
    &&& ticket.server_origin@ == row.server_origin@
    &&& ticket.tls_root_ca_pem@ == row.tls_root_ca_pem@
    &&& ticket.tls_root_ca_sha256@ == row.tls_root_ca_sha256@
    &&& ticket.issued_at_ms == row.issued_at_ms
    &&& ticket.expires_at_ms == row.expires_at_ms
    &&& Some(ticket.state) == state
}

/// Reads a ticket, given the state of its client binding.
fn ticket_from_row(row: &TicketRow, binding_state: &Option<String>) -> (ticket: Option<
    DeploymentBindingTicket,
>)
    ensures
        match ticket {
            Some(ticket) => {
                &&& is_ticket_row(*row, text_view(*binding_state))
                &&& is_ticket_of(
                    ticket,
                    *row,
                    joined_state(row.state@, text_view(*binding_state)),
                )
            },
            None => !is_ticket_row(*row, text_view(*binding_state)),
        },
{
    let state = match parse_joined_state(row.state.as_str(), binding_state) {
        Some(state) => state,
        None => {
            return None;
        },
    };
    let tls_root_ca_sha256 = match to_array::<32>(row.tls_root_ca_sha256.as_slice()) {
        Some(digest) => Sha256Digest::from_bytes(digest),
        None => {
            return None;
        },
    };
    Some(
        DeploymentBindingTicket {
            ticket_id: row.ticket_id,
            binding_id: row.binding_id,
            deployment_operation_id: row.deployment_operation_id,
            tenant_id: row.tenant_id,
            server_origin: row.server_origin.clone(),
            tls_root_ca_pem: row.tls_root_ca_pem.clone(),
            tls_root_ca_sha256,
            issued_at_ms: row.issued_at_ms,
            expires_at_ms: row.expires_at_ms,
            state,
        },
    )
}

/// The request may be issued.
pub open spec fn is_ticket_issuable(command: DeploymentBindingTicketIssueCommand) -> bool {
    &&& command.ticket_id@[6] / 16 == 7
    &&& command.binding_id@[6] / 16 == 7
    &&& command.deployment_operation_id@[6] / 16 == 7
    &&& command.tenant_id@[6] / 16 == 7
    &&& 0 < encode_utf8(command.tls_root_ca_pem@).len() <= MAX_TICKET_CA_BYTES
    &&& is_ascii_chars(command.tls_root_ca_pem@)
    &&& origin::is_canonical_origin(command.server_origin@)
    &&& command.issued_at_ms < command.expires_at_ms <= client_binding::latest_expiry(
        command.issued_at_ms,
    )
}

/// The stored ticket is that of exactly this request.
pub open spec fn is_same_ticket(
    row: TicketRow,
    command: DeploymentBindingTicketIssueCommand,
) -> bool {
    &&& row.ticket_id@ == command.ticket_id@
    &&& row.binding_id@ == command.binding_id@
    &&& row.tenant_id@ == command.tenant_id@
    &&& row.server_origin@ == command.server_origin@
    &&& row.tls_root_ca_pem@ == command.tls_root_ca_pem@
    &&& row.tls_root_ca_sha256@ == command.tls_root_ca_sha256@
    &&& row.capability_digest@ == command.capability_digest@
    &&& row.status_token_digest@ == command.status_token_digest@
    &&& row.issued_at_ms == command.issued_at_ms
    &&& row.expires_at_ms == command.expires_at_ms
}

/// Whether a capability opens a ticket at `now`.
pub open spec fn redeem_check(
    row: Option<TicketRow>,
    capability_digest: Seq<u8>,
    now: i64,
) -> Result<
    (),
    DeploymentBindingTicketError,
> {
    if row is None || (row->0).capability_digest@ != capability_digest {
        Err(DeploymentBindingTicketError::Unauthorized)
    } else if !is_ticket_row(row->0, None) {
        Err(DeploymentBindingTicketError::Corrupt)
    } else if now >= (row->0).expires_at_ms {
        Err(DeploymentBindingTicketError::Expired)
    } else if read_ticket_state((row->0).state@) != Some(DeploymentBindingTicketState::Issued)
        && read_ticket_state((row->0).state@) != Some(DeploymentBindingTicketState::Redeemed) {
        Err(DeploymentBindingTicketError::Conflict)
    } else {
        Ok(())
    }
}

/// The client binding is the one that the ticket stands for.
pub open spec fn is_binding_of(row: TicketRow, binding: ClientBindingIssueCommand) -> bool {
    &&& row.binding_id@ == binding.binding_id@
    &&& row.deployment_operation_id@ == binding.deployment_operation_id@
    &&& row.tenant_id@ == binding.tenant_id@
    &&& row.server_origin@ == binding.server_origin@
    &&& row.tls_root_ca_sha256@ == binding.tls_root_ca_sha256@
    &&& row.issued_at_ms == binding.issued_at_ms
    &&& row.expires_at_ms == binding.expires_at_ms
}

/// Why a client binding cannot be issued for a ticket, if it cannot.
pub open spec fn issue_refusal(
    binding: ClientBindingIssueCommand,
    live: Option<BindingRow>,
) -> Option<DeploymentBindingTicketError> {
    if !client_binding::is_issuable(binding) {
        Some(DeploymentBindingTicketError::Invalid)
    } else if live is Some && !client_binding::is_binding_row(live->0) {
        Some(DeploymentBindingTicketError::Corrupt)
    } else if live is Some && !client_binding::is_same_issue(live->0, binding) {
        Some(DeploymentBindingTicketError::Conflict)
    } else {
        None
    }
}

/// The ticket error that stands for a binding error.
pub open spec fn mapped_error(error: ClientBindingWorkflowError) -> DeploymentBindingTicketError {
    match error {
        ClientBindingWorkflowError::Persistence(error) => DeploymentBindingTicketError::Persistence(
            error,
        ),
        ClientBindingWorkflowError::Invalid => DeploymentBindingTicketError::Invalid,
        ClientBindingWorkflowError::Unauthorized => DeploymentBindingTicketError::Unauthorized,
        ClientBindingWorkflowError::Conflict => DeploymentBindingTicketError::Conflict,
        ClientBindingWorkflowError::Expired => DeploymentBindingTicketError::Expired,
        ClientBindingWorkflowError::Revoked => DeploymentBindingTicketError::Expired,
        ClientBindingWorkflowError::Corrupt => DeploymentBindingTicketError::Corrupt,
    }
}

/// The ticket error that stands for a binding error.
pub fn map_binding_error(
    error: ClientBindingWorkflowError,
) -> (mapped: DeploymentBindingTicketError)
    ensures
        mapped == mapped_error(error),
{
    match error {
        ClientBindingWorkflowError::Persistence(error) => {
            DeploymentBindingTicketError::Persistence(error)
        },
        ClientBindingWorkflowError::Invalid => DeploymentBindingTicketError::Invalid,
        ClientBindingWorkflowError::Unauthorized => DeploymentBindingTicketError::Unauthorized,
        ClientBindingWorkflowError::Conflict => DeploymentBindingTicketError::Conflict,
        ClientBindingWorkflowError::Expired => DeploymentBindingTicketError::Expired,
        ClientBindingWorkflowError::Revoked => DeploymentBindingTicketError::Expired,
        ClientBindingWorkflowError::Corrupt => DeploymentBindingTicketError::Corrupt,
    }
}

/// A redeemed ticket, and the client binding that it was redeemed for.
#[derive(Debug)]
pub struct Redemption {
    /// The ticket.
    pub ticket: DeploymentBindingTicket,
    /// The client binding; it is to be inserted unless it was replayed.
    pub binding: ClientBindingIssueOutcome,
}

/// Durable deployment binding tickets.
#[derive(Clone, Copy, Debug, Default)]
pub struct DeploymentBindingTicketRepository;

impl DeploymentBindingTicketRepository {
    /// Checks that a request may be issued at all.
    pub fn validate_issue(&self, command: &DeploymentBindingTicketIssueCommand) -> (checked: Result<
        (),
        DeploymentBindingTicketError,
    >)
        ensures
            checked == if is_ticket_issuable(*command) {
                Ok::<(), DeploymentBindingTicketError>(())
            } else {
                Err(DeploymentBindingTicketError::Invalid)
            },
    {
        if command.ticket_id[6] / 16 != 7 || command.binding_id[6] / 16 != 7
            || command.deployment_operation_id[6] / 16 != 7 || command.tenant_id[6] / 16 != 7
            || encoded_len(command.tls_root_ca_pem.as_str()) == 0 || encoded_len(
            command.tls_root_ca_pem.as_str(),
        ) > MAX_TICKET_CA_BYTES || !command.tls_root_ca_pem.as_str().is_ascii()
            || !is_canonical_https_origin(command.server_origin.as_str()) || command.expires_at_ms
            <= command.issued_at_ms || command.expires_at_ms > latest_expiry_of(
            command.issued_at_ms,
        ) {
            return Err(DeploymentBindingTicketError::Invalid);
        }
        Ok(())
    }

    /// Decides on a request, given the row that its operation has once the
    /// request was inserted where there was none.
    pub fn issue(&self, command: &DeploymentBindingTicketIssueCommand, row: &TicketRow) -> (ticket:
        Result<DeploymentBindingTicket, DeploymentBindingTicketError>)
        ensures
            match ticket {
                Ok(ticket) => {
                    &&& is_ticket_issuable(*command)
                    &&& is_ticket_row(*row, None)
                    &&& is_same_ticket(*row, *command)
                    &&& is_ticket_of(ticket, *row, read_ticket_state(row.state@))
                },
                Err(error) => if !is_ticket_issuable(*command) {
                    error == DeploymentBindingTicketError::Invalid
                } else if !is_ticket_row(*row, None) {
                    error == DeploymentBindingTicketError::Corrupt
                } else {
                    &&& !is_same_ticket(*row, *command)
                    &&& error == DeploymentBindingTicketError::Conflict
                },
            },
    {
        if let Err(error) = self.validate_issue(command) {
            return Err(error);
        }
        let ticket = match ticket_from_row(row, &None) {
            Some(ticket) => ticket,
            None => {
                return Err(DeploymentBindingTicketError::Corrupt);
            },
        };
        if !bytes_equal(&ticket.ticket_id, &command.ticket_id) || !bytes_equal(
            &ticket.binding_id,
            &command.binding_id,
        ) || !bytes_equal(&ticket.tenant_id, &command.tenant_id) || !text_equal(
            ticket.server_origin.as_str(),
            command.server_origin.as_str(),
        ) || !text_equal(ticket.tls_root_ca_pem.as_str(), command.tls_root_ca_pem.as_str())
            || ticket.tls_root_ca_sha256 != command.tls_root_ca_sha256 || !bytes_equal(
            row.capability_digest.as_slice(),
            command.capability_digest.as_bytes(),
        ) || !bytes_equal(
            row.status_token_digest.as_slice(),
            command.status_token_digest.as_bytes(),
        ) || ticket.issued_at_ms != command.issued_at_ms || ticket.expires_at_ms
            != command.expires_at_ms {
            return Err(DeploymentBindingTicketError::Conflict);
        }
        Ok(ticket)
    }

    /// Decides whether a capability opens a ticket.
    pub fn authorize_redeem(
        &self,
        row: &Option<TicketRow>,
        capability_digest: Sha256Digest,
        now_ms: i64,
    ) -> (ticket: Result<DeploymentBindingTicket, DeploymentBindingTicketError>)
        ensures
            match ticket {
                Ok(ticket) => {
                    &&& redeem_check(*row, capability_digest@, now_ms) is Ok
                    &&& is_ticket_of(ticket, row->0, read_ticket_state((row->0).state@))
                },
                Err(error) => redeem_check(*row, capability_digest@, now_ms) == Err::<
                    (),
                    DeploymentBindingTicketError,
                >(error),
            },
    {
        let row = match row {
            Some(row) => row,
            None => {
                return Err(DeploymentBindingTicketError::Unauthorized);
            },
        };
        if !bytes_equal(row.capability_digest.as_slice(), capability_digest.as_bytes()) {
            return Err(DeploymentBindingTicketError::Unauthorized);
        }
        let ticket = match ticket_from_row(row, &None) {
            Some(ticket) => ticket,
            None => {
                return Err(DeploymentBindingTicketError::Corrupt);
            },
        };
        if now_ms >= ticket.expires_at_ms {
            return Err(DeploymentBindingTicketError::Expired);
        }
        if ticket.state != DeploymentBindingTicketState::Issued && ticket.state
            != DeploymentBindingTicketState::Redeemed {
            return Err(DeploymentBindingTicketError::Conflict);
        }
        Ok(ticket)
    }

    /// Checks a redemption before the live binding is looked at: the capability
    /// opens the ticket, and the ticket stands for this binding, which can be
    /// issued.
    pub fn admit_redemption(
        &self,
        row: &Option<TicketRow>,
        capability_digest: Sha256Digest,
        binding: &ClientBindingIssueCommand,
        now_ms: i64,
    ) -> (ticket: Result<DeploymentBindingTicket, DeploymentBindingTicketError>)
        ensures
            match ticket {
                Ok(ticket) => {
                    &&& redeem_check(*row, capability_digest@, now_ms) is Ok
                    &&& is_binding_of(row->0, *binding)
                    &&& client_binding::is_issuable(*binding)
                    &&& is_ticket_of(ticket, row->0, read_ticket_state((row->0).state@))
                },
                Err(error) => if let Err(refused) = redeem_check(
                    *row,
                    capability_digest@,
                    now_ms,
                ) {
                    error == refused
                } else if !is_binding_of(row->0, *binding) {
                    error == DeploymentBindingTicketError::Conflict
                } else {
                    &&& !client_binding::is_issuable(*binding)
                    &&& error == DeploymentBindingTicketError::Invalid
                },
            },
    {
        let ticket = match self.authorize_redeem(row, capability_digest, now_ms) {
            Ok(ticket) => ticket,
            Err(error) => {
                return Err(error);
            },
        };
        if !bytes_equal(&ticket.binding_id, &binding.binding_id) || !bytes_equal(
            &ticket.deployment_operation_id,
            &binding.deployment_operation_id,
        ) || !bytes_equal(&ticket.tenant_id, &binding.tenant_id) || !text_equal(
            ticket.server_origin.as_str(),
            binding.server_origin.as_str(),
        ) || ticket.tls_root_ca_sha256 != binding.tls_root_ca_sha256 || ticket.issued_at_ms
            != binding.issued_at_ms || ticket.expires_at_ms != binding.expires_at_ms {
            return Err(DeploymentBindingTicketError::Conflict);
        }
        match ClientBindingRepository.validate_issue(binding) {
            Ok(_) => Ok(ticket),
            Err(error) => Err(map_binding_error(error)),
        }
    }

    /// Decides on the redemption of a ticket for its client binding, given the
    /// live binding of the operation, if there is one.
    pub fn redeem(
        &self,
        row: &Option<TicketRow>,
        capability_digest: Sha256Digest,
        binding: &ClientBindingIssueCommand,
        live: &Option<BindingRow>,
        now_ms: i64,
    ) -> (redemption: Result<Redemption, DeploymentBindingTicketError>)
        ensures
            match redemption {
                Ok(redemption) => {
                    &&& redeem_check(*row, capability_digest@, now_ms) is Ok
                    &&& is_binding_of(row->0, *binding)
                    &&& issue_refusal(*binding, *live) is None
                    &&& is_ticket_of(
                        redemption.ticket,
                        row->0,
                        Some(DeploymentBindingTicketState::Redeemed),
                    )
                    &&& match live {
                        Some(live) => {
                            &&& client_binding::is_outcome_of(redemption.binding, *live)
                            &&& redemption.binding.replayed
                        },
                        None => client_binding::is_new_issue(redemption.binding, *binding),
                    }
                },
                Err(error) => if let Err(refused) = redeem_check(
                    *row,
                    capability_digest@,
                    now_ms,
                ) {
                    error == refused
                } else if !is_binding_of(row->0, *binding) {
                    error == DeploymentBindingTicketError::Conflict
                } else {
                    issue_refusal(*binding, *live) == Some(error)
                },
            },
    {
        let ticket = match self.admit_redemption(row, capability_digest, binding, now_ms) {
            Ok(ticket) => ticket,
            Err(error) => {
                return Err(error);
            },
        };
        let outcome = match ClientBindingRepository.issue(binding, live) {
            Ok(outcome) => outcome,
            Err(error) => {
                return Err(map_binding_error(error));
            },
        };
        Ok(Redemption { ticket: self.complete_redemption(ticket), binding: outcome })
    }

    /// The ticket once its client binding is issued: redeemed, and otherwise the
    /// same.
    pub fn complete_redemption(&self, ticket: DeploymentBindingTicket) -> (redeemed:
        DeploymentBindingTicket)
        ensures
            redeemed == (DeploymentBindingTicket {
                state: DeploymentBindingTicketState::Redeemed,
                ..ticket
            }),
    {
        let mut redeemed = ticket;
        redeemed.state = DeploymentBindingTicketState::Redeemed;
        redeemed
    }

    /// Tells a ticket's state, given the state of its client binding.
    pub fn status(
        &self,
        row: &Option<TicketRow>,
        binding_state: &Option<String>,
        status_token_digest: Sha256Digest,
        now_ms: i64,
    ) -> (state: Result<DeploymentBindingTicketState, DeploymentBindingTicketError>)
        ensures
            ({
                let joined = joined_state((row->0).state@, text_view(*binding_state));
                state == if row is None {
                    Err::<DeploymentBindingTicketState, DeploymentBindingTicketError>(
                        DeploymentBindingTicketError::Unauthorized,
                    )
                } else if !is_ticket_row(row->0, text_view(*binding_state)) {
                    Err(DeploymentBindingTicketError::Corrupt)
                } else if (row->0).status_token_digest@ != status_token_digest@ {
                    Err(DeploymentBindingTicketError::Unauthorized)
                } else if now_ms >= (row->0).expires_at_ms && joined == Some(
                    DeploymentBindingTicketState::Issued,
                ) {
                    Ok(DeploymentBindingTicketState::Expired)
                } else {
                    Ok(joined->0)
                }
            }),
    {
        let row = match row {
            Some(row) => row,
            None => {
                return Err(DeploymentBindingTicketError::Unauthorized);
            },
        };
        let ticket = match ticket_from_row(row, binding_state) {
            Some(ticket) => ticket,
            None => {
                return Err(DeploymentBindingTicketError::Corrupt);
            },
        };
        if !bytes_equal(row.status_token_digest.as_slice(), status_token_digest.as_bytes()) {
            return Err(DeploymentBindingTicketError::Unauthorized);
        }
        if now_ms >= ticket.expires_at_ms && ticket.state == DeploymentBindingTicketState::Issued {
            Ok(DeploymentBindingTicketState::Expired)
        } else {
            Ok(ticket.state)
        }
    }
}

/// A redeemed ticket may be redeemed again, by the same capability and for the
/// same binding, until it expires; a ticket never is redeemed at or past its
/// expiry, nor by another capability.
pub proof fn law_redemption_repeats(
    row: TicketRow,
    redeemed: TicketRow,
    capability_digest: Seq<u8>,
    now: i64,
    later: i64,
)
    requires
        redeem_check(Some(row), capability_digest, now) is Ok,
        redeemed.capability_digest@ == row.capability_digest@,
        redeemed.tls_root_ca_sha256@ == row.tls_root_ca_sha256@,
        redeemed.expires_at_ms == row.expires_at_ms,
        redeemed.state@ == "redeemed"@,
    ensures
        redeem_check(Some(redeemed), capability_digest, later) is Ok <==> later
            < row.expires_at_ms,
        forall|other: Seq<u8>|
            other != capability_digest ==> (#[trigger] redeem_check(Some(redeemed), other, later))
                is Err,
{
    reveal_strlit("issued");
    reveal_strlit("redeemed");
    reveal_strlit("expired");
    reveal_strlit("revoked");
    assert("issued"@.len() != "redeemed"@.len());
}

} // verus!
