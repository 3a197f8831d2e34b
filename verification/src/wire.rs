//! Canonical values, their deterministic byte form, and the scalar wire types.

pub mod base64;
pub mod bytes;
pub mod cbor;
pub mod cbor_lemmas;
pub mod codec;
pub mod digest;
pub mod id;
pub mod key;
pub mod laws;
pub mod number;
pub mod record;
pub mod text;
pub mod value;
pub mod version;
