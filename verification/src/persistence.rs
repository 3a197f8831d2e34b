//! The decisions of the durable identity service.
//!
//! Storage hands these modules the rows it read, as plain values, and carries
//! out what they decide.

pub mod binding_laws;
pub mod catalog_codec;
pub mod catalog_laws;
pub mod client_binding;
pub mod completion;
pub mod completion_command_laws;
pub mod completion_key;
pub mod completion_laws;
pub mod completion_receipt;
pub mod deployment_binding;
pub mod enrollment;
pub mod enrollment_challenge;
pub mod enrollment_command;
pub mod enrollment_laws;
pub mod error;
pub mod fields;
pub mod head;
pub mod key_package;
pub mod key_package_decision;
pub mod key_package_laws;
pub mod laws;
pub mod merkle;
pub mod origin;
pub mod recovery_catalog;
pub mod recovery_catalog_decision;
pub mod recovery_request;
pub mod replay_laws;
pub mod request_laws;
pub mod row;
pub mod session;
pub mod session_decision;
pub mod session_laws;
