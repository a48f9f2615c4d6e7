//! Wire constants shared by the whole crate.

use vstd::prelude::*;

verus! {

/// Name of the linker symbol that anchors the RTT control block in target RAM.
/// This literal is a wire constant of the RTT protocol and must not be altered.
pub const RTT_SYMBOL: &'static str = "_SEGGER_RTT";

} // verus!
