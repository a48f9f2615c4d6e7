//! Error taxonomy of the coordination core.
//!
//! Heterogeneous failures of the underlying probe library are collapsed into
//! these kinds at the handler boundary; each carries a human-readable
//! diagnostic so the caller never sees the library's own error types.

use vstd::prelude::*;

verus! {

/// A failure surfaced by a handler operation.
#[derive(Debug, Clone)]
pub enum DebugError {
    /// The selected probe could not be opened (permissions, disconnect).
    OpenFailed(String),
    /// The probe opened but the chip attach failed (wrong chip, target silent).
    AttachFailed(String),
    /// The flashing transfer failed (format mismatch, write error).
    DownloadFailed(String),
    /// A specific core could not be reset.
    ResetFailed(String),
    /// The RTT control block was not found in the scanned region.
    RttControlBlockNotFound,
    /// Any other RTT attach failure; callers treat it as "no RTT available".
    RttOtherFailure(String),
    /// A channel read failed on the probe transport.
    ReadFailed(String),
    /// A file could not be opened or read (raised by the surrounding I/O layer).
    IoFailed(String),
}

impl DebugError {
    /// A human-readable diagnostic for display; the only operator-facing
    /// form. Every variant hands out the diagnostic it carries; the one
    /// variant without a payload names itself.
    pub fn describe(&self) -> (r: String)
        ensures
            r@ == (match *self {
                DebugError::OpenFailed(m) => m@,
                DebugError::AttachFailed(m) => m@,
                DebugError::DownloadFailed(m) => m@,
                DebugError::ResetFailed(m) => m@,
                DebugError::RttControlBlockNotFound => "RTT control block not found"@,
                DebugError::RttOtherFailure(m) => m@,
                DebugError::ReadFailed(m) => m@,
                DebugError::IoFailed(m) => m@,
            }),
    {
        match self {
            DebugError::OpenFailed(m) => m.clone(),
            DebugError::AttachFailed(m) => m.clone(),
            DebugError::DownloadFailed(m) => m.clone(),
            DebugError::ResetFailed(m) => m.clone(),
            DebugError::RttControlBlockNotFound => "RTT control block not found".to_owned(),
            DebugError::RttOtherFailure(m) => m.clone(),
            DebugError::ReadFailed(m) => m.clone(),
            DebugError::IoFailed(m) => m.clone(),
        }
    }
}

/// Outcome of one raw RTT attach call, before the handler decides whether the
/// failure is transient. `ControlBlockNotFound` is kept apart because the
/// bounded-retry loop keys off it; every other failure is carried verbatim.
#[derive(Debug, Clone)]
pub enum RttAttachError {
    ControlBlockNotFound,
    Other(String),
}

} // verus!
