//! The errors of the identity service.

use identity_log::log::error::{IdentityLogError, IdentityLogPageError};
use identity_log::persistence::client_binding::ClientBindingWorkflowError;
use identity_log::persistence::deployment_binding::{
    map_binding_error, DeploymentBindingTicketError,
};
use identity_log::persistence::error::IdentityPersistenceError;

#[test]
fn revoked_session_error_has_only_a_redacted_public_representation() {
    let error = IdentityPersistenceError::DeviceSessionRevoked;
    assert_eq!(format!("{error:?}"), "DeviceSessionRevoked");
    assert_eq!(error.message(), "device session is revoked");
}

#[test]
fn log_errors_are_carried_along() {
    let error = IdentityPersistenceError::from(IdentityLogError::Replay);
    assert_eq!(error, IdentityPersistenceError::IdentityLog(IdentityLogError::Replay));
    assert_eq!(error.source(), Some(IdentityLogError::Replay));
    assert_eq!(IdentityPersistenceError::KeyPackageUnavailable.source(), None);
    assert_eq!(
        IdentityPersistenceError::KeyPackageUnavailable.message(),
        "key package is unavailable"
    );
    assert!(!IdentityLogError::Replay.message().is_empty());
    assert!(!IdentityLogPageError::AdvertisedHeadMismatch.message().is_empty());
}

#[test]
fn binding_errors_become_ticket_errors() {
    let inner = IdentityPersistenceError::IdentityInactive;
    assert_eq!(
        map_binding_error(ClientBindingWorkflowError::from(inner)),
        DeploymentBindingTicketError::from(inner)
    );
    assert_eq!(
        map_binding_error(ClientBindingWorkflowError::Revoked),
        DeploymentBindingTicketError::Expired
    );
    assert_eq!(
        map_binding_error(ClientBindingWorkflowError::Expired),
        DeploymentBindingTicketError::Expired
    );
    assert_eq!(
        map_binding_error(ClientBindingWorkflowError::Invalid),
        DeploymentBindingTicketError::Invalid
    );
    assert_eq!(
        map_binding_error(ClientBindingWorkflowError::Conflict),
        DeploymentBindingTicketError::Conflict
    );
    assert_eq!(ClientBindingWorkflowError::Conflict.message(), "client binding conflict");
    assert_eq!(
        DeploymentBindingTicketError::Corrupt.message(),
        "deployment binding ticket operation failed"
    );
}
