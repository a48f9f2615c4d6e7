//! Probe/session/RTT coordination core for a debug-probe front end.
//!
//! The crate owns the lifetime of three coupled resources — a probe handle,
//! the debug session opened on it, and the RTT control block attached through
//! one of the session's cores — and keeps them in a disciplined order:
//! an RTT control block exists only while a session does, and cached counts
//! (cores, up channels) are zero exactly when their resource is absent.

pub mod configuration;
pub mod errors;
pub mod firmware;
pub mod elf_symbols;
pub mod probe_opts;
pub mod probe_rs_invoke;
pub mod probe_link;
pub mod scan_region;
