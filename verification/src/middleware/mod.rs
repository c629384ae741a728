//! Request gates that run before any handler: the bearer token and role
//! checks, the optional IP allowlist, and the scanner-probe filter.
pub mod auth_guard;
pub mod ip_allowlist;
pub mod probe_guard;
