//! Page selector for the two operator-facing views.

use vstd::prelude::*;

verus! {

/// The two top-level operations a front end can drive: flashing a firmware
/// image, or monitoring RTT input/output.
#[derive(Clone, Copy, Debug, PartialEq)]
pub enum ProbeOperations {
    FlashProgram,
    RTTIO,
}

impl Default for ProbeOperations {
    /// The flashing view is shown first.
    fn default() -> (r: Self)
        ensures
            r is FlashProgram,
    {
        Self::FlashProgram
    }
}

} // verus!
