//! Lifecycle supervisor for a local sidecar server.
//!
//! The host application spawns a sidecar process, polls a fixed local HTTP
//! endpoint until the server is reachable or a timeout elapses, redirects the
//! display surface to the server once it is ready, and sends the server a
//! single best-effort shutdown request when the user closes the application.
//! This crate holds the decision logic of that lifecycle as a verified state
//! machine; the host performs the actual process, network and window work and
//! feeds the observed events back in.

use vstd::prelude::*;

pub mod endpoint;
pub mod poller;
pub mod supervisor;

verus! {

/// TCP port the sidecar server listens on.
pub const SIDECAR_PORT: u16 = 8080;

/// Total time the readiness poller waits for the server, in milliseconds.
pub const READY_TIMEOUT_MS: u64 = 30_000;

/// Pause between two readiness probes, in milliseconds.
pub const RETRY_INTERVAL_MS: u64 = 200;

} // verus!
