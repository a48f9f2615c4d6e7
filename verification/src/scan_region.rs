//! Scan-region derivation for the RTT control-block search.
//!
//! The region is derived from user inputs with a fixed precedence: an
//! explicit override address wins, else an address read from an ELF image's
//! RTT symbol, else the default sweep over known target RAM. The derivation
//! is a pure function of the ELF bytes and the override address.

use vstd::prelude::*;

use crate::configuration::RTT_SYMBOL;
use crate::elf_symbols::get_rtt_symbol;
use crate::elf_symbols::spec_symbol_lookup;

verus! {

/// The address range(s) the host will search for the RTT control block.
#[derive(Debug, Clone)]
pub enum ScanRegion {
    /// Default sweep over all RAM ranges known for the target.
    Ram,
    /// Search only the given `(start, end)` address ranges.
    Ranges(Vec<(u64, u64)>),
    /// The control block sits exactly at this address.
    Exact(u64),
}

impl ScanRegion {
    /// The pinned address, when the region is `Exact`.
    pub fn exact_addr(&self) -> (r: Option<u64>)
        ensures
            r == (match *self {
                ScanRegion::Exact(a) => Some(a),
                _ => None,
            }),
    {
        match self {
            ScanRegion::Exact(a) => Some(*a),
            _ => None,
        }
    }

    /// Whether the region is the default RAM sweep.
    pub fn is_ram(&self) -> (r: bool)
        ensures
            r == (*self is Ram),
    {
        match self {
            ScanRegion::Ram => true,
            _ => false,
        }
    }
}

/// The byte view of an optionally supplied ELF image.
pub open spec fn opt_bytes_view(o: Option<&Vec<u8>>) -> Option<Seq<u8>> {
    match o {
        Some(v) => Some(v@),
        None => None,
    }
}

/// What `derive_scan_region` returns, by precedence: the override address if
/// present; else the ELF's RTT symbol address if the image parses and holds
/// one; else the default RAM sweep.
pub open spec fn spec_derive_region(elf: Option<Seq<u8>>, override_addr: Option<u64>) -> ScanRegion {
    match override_addr {
        Some(a) => ScanRegion::Exact(a),
        None => match elf {
            Some(b) => match spec_symbol_lookup(b, RTT_SYMBOL@) {
                Some(v) => ScanRegion::Exact(v),
                None => ScanRegion::Ram,
            },
            None => ScanRegion::Ram,
        },
    }
}

/// Derives the scan region from an optional ELF image and an optional
/// explicit control-block address. Pure in its inputs; a missing RTT symbol
/// (or an image that does not parse) falls through to the RAM sweep.
pub fn derive_scan_region(elf_data: Option<&Vec<u8>>, override_addr: Option<u64>) -> (r:
    ScanRegion)
    ensures
        r == spec_derive_region(opt_bytes_view(elf_data), override_addr),
{
    if let Some(a) = override_addr {
        ScanRegion::Exact(a)
    } else if let Some(bytes) = elf_data {
        match get_rtt_symbol(bytes.as_slice()) {
            Some(addr) => ScanRegion::Exact(addr),
            None => ScanRegion::Ram,
        }
    } else {
        ScanRegion::Ram
    }
}

/// Law: the derivation is deterministic — identical ELF contents and override
/// address always yield the identical region.
pub proof fn lemma_derive_region_deterministic(
    elf1: Option<Seq<u8>>,
    addr1: Option<u64>,
    elf2: Option<Seq<u8>>,
    addr2: Option<u64>,
)
    requires
        elf1 == elf2,
        addr1 == addr2,
    ensures
        spec_derive_region(elf1, addr1) == spec_derive_region(elf2, addr2),
{
}

/// Law: an explicit override address dominates — whatever ELF is supplied at
/// the same time, the derived region is exactly that address.
pub proof fn lemma_override_dominates(elf: Option<Seq<u8>>, addr: u64)
    ensures
        spec_derive_region(elf, Some(addr)) == ScanRegion::Exact(addr),
{
}

} // verus!
