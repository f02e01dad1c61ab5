//! Keeps a DNS provider's "A" record in step with the host's public address.
//!
//! The library holds the whole decision logic of one synchronisation run: reading
//! the settings document, cleaning up the address reply, building the provider's
//! requests, reading its replies, and the run's state machine. Performing the
//! requests and reading the settings file are left to the caller.
pub mod text;
pub mod config;
pub mod provider;
pub mod pipeline;
