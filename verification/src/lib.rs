//! End-to-end encrypted group messaging sessions on top of an MLS protocol
//! engine: a client identity, per-group sessions that reload and persist their
//! state on every call, and one closed error vocabulary for the host.

pub mod engine;
pub mod error;
pub mod mls_client;
pub mod storage;
pub mod types;
