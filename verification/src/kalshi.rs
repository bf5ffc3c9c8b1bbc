//! Exchange-facing data and rules.

pub mod auth;
pub mod client;
pub mod types;
pub mod wire;
