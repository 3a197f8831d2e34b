//! The signed append-only log of a self-certifying identity.

pub mod authority;
pub mod certificate;
pub mod decoding;
pub mod effects;
pub mod error;
pub mod event;
pub mod event_codec;
pub mod inverse;
pub mod laws;
pub mod layout;
pub mod page;
pub mod page_codec;
pub mod payload;
pub mod projection;
pub mod proof_input;
pub mod relay;
pub mod state;
pub mod wire_line;
