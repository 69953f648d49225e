//! Decision logic of a daemon that periodically asks an identity-verification
//! service to purge stale user data and to sweep collected funds.
//!
//! The library resolves the endpoint configuration, plans each outbound
//! request, classifies what came back, renders the log line for it, and
//! drives the per-tick order of the two calls. Network access, timers and
//! the process environment live with the caller.
pub mod config;
pub mod request;
pub mod outcome;
pub mod payload;
pub mod scheduler;
