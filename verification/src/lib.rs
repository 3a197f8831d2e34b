//! Self-certifying identity logs and the rules of their durable service.
//!
//! [`wire`] holds canonical values and their deterministic bytes, [`log`] the
//! signed append-only identity log, and [`persistence`] the decisions of the
//! durable service around it.

pub mod log;
mod outside;
pub mod persistence;
pub mod wire;
