//! Firmware image format selection.

use vstd::prelude::*;

verus! {

/// The object formats the flashing routine understands. The selection is
/// passed opaquely to the underlying flasher; the core does not parse these
/// formats itself.
#[derive(Clone, Copy, Debug, PartialEq, Eq, Structural)]
pub enum ImageFormat {
    /// ELF executable.
    Elf,
    /// Intel HEX.
    Hex,
    /// UF2 block image.
    Uf2,
}

} // verus!
