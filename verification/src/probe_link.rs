//! The trusted boundary to the probe library.
//!
//! Everything in this module either declares an outside type opaquely or
//! wraps exactly one probe-library operation behind a contract; nothing else
//! in the crate calls the probe library directly. Results that depend on the
//! hardware present at call time carry no promise; the one thing named is the
//! fixed channel list an attached RTT control block holds.

use vstd::prelude::*;

use crate::errors::RttAttachError;
use crate::firmware::ImageFormat;
use crate::scan_region::ScanRegion;

verus! {

/// An enumerated-probe record of the probe library, kept opaque.
#[verifier::external_type_specification]
#[verifier::external_body]
pub struct ExDebugProbeInfo(probe_rs::probe::DebugProbeInfo);

/// An opened but not yet attached probe, kept opaque.
#[verifier::external_type_specification]
#[verifier::external_body]
pub struct ExProbe(probe_rs::probe::Probe);

/// An attached debug session, kept opaque.
#[verifier::external_type_specification]
#[verifier::external_body]
pub struct ExSession(probe_rs::Session);

/// An attached RTT control block, kept opaque.
#[verifier::external_type_specification]
#[verifier::external_body]
pub struct ExRtt(probe_rs::rtt::Rtt);

/// The channel numbers of the up channels a control block holds, in list
/// order. A control block's channel list is fixed when it is attached, so
/// this is a function of the value alone.
pub uninterp spec fn rtt_up_channels(r: probe_rs::rtt::Rtt) -> Seq<usize>;

/// The core indices a session reports, in their reported order. A session's
/// core list comes from its target configuration, fixed when the session is
/// created, so this is a function of the value alone.
pub uninterp spec fn session_cores(s: probe_rs::Session) -> Seq<usize>;

/// The plain-value fields of an enumerated-probe record — its identifier,
/// vendor id and product id — a function of the record alone.
pub uninterp spec fn probe_descriptor_of(info: probe_rs::probe::DebugProbeInfo) -> (
    Seq<char>,
    u16,
    u16,
);

/// A plain-value descriptor of an enumerated probe.
#[derive(Debug, Clone, PartialEq, Eq)]
pub struct ProbeDescriptor {
    /// Human-readable probe name.
    pub identifier: String,
    /// USB vendor id.
    pub vendor_id: u16,
    /// USB product id.
    pub product_id: u16,
}

/// Relies on `probe_rs::probe::list::Lister::list_all`: queries the host for
/// connected debug probes. What comes back depends on the hardware plugged in
/// at call time, so nothing is promised of it; enumeration failures surface
/// as an empty list.
#[verifier::external_body]
pub(crate) fn list_probes() -> Vec<probe_rs::probe::DebugProbeInfo> {
    probe_rs::probe::list::Lister::new().list_all()
}

/// Relies on the public `identifier`, `vendor_id` and `product_id` fields of
/// `probe_rs::probe::DebugProbeInfo`: copies them out as plain values, which
/// are exactly the record's named descriptor fields.
#[verifier::external_body]
pub(crate) fn describe_probe(info: &probe_rs::probe::DebugProbeInfo) -> (r: ProbeDescriptor)
    ensures
        r.identifier@ == probe_descriptor_of(*info).0,
        r.vendor_id == probe_descriptor_of(*info).1,
        r.product_id == probe_descriptor_of(*info).2,
{
    ProbeDescriptor {
        identifier: info.identifier.clone(),
        vendor_id: info.vendor_id,
        product_id: info.product_id,
    }
}

/// Relies on `probe_rs::probe::DebugProbeInfo::open`: opens the described
/// probe; success depends on host permissions and the device still being
/// present.
#[verifier::external_body]
pub(crate) fn open_probe(info: &probe_rs::probe::DebugProbeInfo) -> Result<
    probe_rs::probe::Probe,
    String,
> {
    info.open().map_err(|e| format!("{e}"))
}

/// Relies on `probe_rs::probe::Probe::attach`: attaches to the named chip
/// with default permissions (no reset asserted); success depends on the
/// target.
#[verifier::external_body]
pub(crate) fn probe_attach(p: probe_rs::probe::Probe, chip: &str) -> Result<
    probe_rs::Session,
    String,
> {
    p.attach(chip, probe_rs::Permissions::default()).map_err(|e| format!("{e}"))
}

/// Relies on `probe_rs::probe::Probe::attach_under_reset`: as `attach`, but
/// asserts the reset pin across the attach sequence.
#[verifier::external_body]
pub(crate) fn probe_attach_under_reset(p: probe_rs::probe::Probe, chip: &str) -> Result<
    probe_rs::Session,
    String,
> {
    p.attach_under_reset(chip, probe_rs::Permissions::default()).map_err(|e| format!("{e}"))
}

/// Relies on `probe_rs::Session::list_cores`: the session's cores as
/// (index, type) pairs; only the indices are kept, in their reported order,
/// which is exactly the session's named core list.
#[verifier::external_body]
pub(crate) fn session_core_ids(s: &probe_rs::Session) -> (r: Vec<usize>)
    ensures
        r@ == session_cores(*s),
{
    s.list_cores().iter().map(|c| c.0).collect()
}

/// Relies on `probe_rs::Session::core` and `probe_rs::Core::reset`: selects
/// the indexed core and issues a hardware reset to it.
#[verifier::external_body]
pub(crate) fn reset_core(s: &mut probe_rs::Session, core_idx: usize) -> Result<(), String> {
    let mut core = s.core(core_idx).map_err(|e| format!("{e}"))?;
    core.reset().map_err(|e| format!("{e}"))
}

/// Relies on `probe_rs::config::Registry::from_builtin_families` and the
/// `variants` list of `ChipFamily`: one snapshot of the built-in chip
/// database — for each family, its variant names, both in database order.
/// The database unconditionally ends with the generic target families, the
/// last of which holds a variant, so the snapshot's last entry is non-empty.
#[verifier::external_body]
pub(crate) fn all_family_variant_names() -> (r: Vec<Vec<String>>)
    ensures
        r@.len() > 0,
        r@[r@.len() - 1]@.len() > 0,
{
    let registry = probe_rs::config::Registry::from_builtin_families();
    registry
        .families()
        .iter()
        .map(|f| f.variants.iter().map(|v| v.name.clone()).collect())
        .collect()
}

/// Relies on `probe_rs::Session::core` and `probe_rs::rtt::Rtt::attach`:
/// scans the target's default RAM ranges for an RTT control block through the
/// selected core. A `ControlBlockNotFound` failure is kept apart because the
/// retry loop keys off it; every other failure is carried as a diagnostic.
#[verifier::external_body]
pub(crate) fn rtt_attach_default(s: &mut probe_rs::Session, core_idx: usize) -> Result<
    probe_rs::rtt::Rtt,
    RttAttachError,
> {
    let mut core = s.core(core_idx).map_err(|e| RttAttachError::Other(format!("{e}")))?;
    probe_rs::rtt::Rtt::attach(&mut core).map_err(
        |e| match e {
            probe_rs::rtt::Error::ControlBlockNotFound => RttAttachError::ControlBlockNotFound,
            other => RttAttachError::Other(format!("{other}")),
        },
    )
}

/// Relies on `probe_rs::Session::core` and `probe_rs::rtt::Rtt::attach_region`:
/// scans the given region for the control block; the region is converted
/// variant for variant into the library's own encoding.
#[verifier::external_body]
pub(crate) fn rtt_attach_in_region(
    s: &mut probe_rs::Session,
    core_idx: usize,
    region: &ScanRegion,
) -> Result<probe_rs::rtt::Rtt, RttAttachError> {
    let lib_region = match region {
        ScanRegion::Ram => probe_rs::rtt::ScanRegion::Ram,
        ScanRegion::Ranges(v) => probe_rs::rtt::ScanRegion::Ranges(
            v.iter().map(|p| p.0..p.1).collect(),
        ),
        ScanRegion::Exact(a) => probe_rs::rtt::ScanRegion::Exact(*a),
    };
    let mut core = s.core(core_idx).map_err(|e| RttAttachError::Other(format!("{e}")))?;
    probe_rs::rtt::Rtt::attach_region(&mut core, &lib_region).map_err(
        |e| match e {
            probe_rs::rtt::Error::ControlBlockNotFound => RttAttachError::ControlBlockNotFound,
            other => RttAttachError::Other(format!("{other}")),
        },
    )
}

/// Relies on `probe_rs::rtt::Rtt::up_channels`: the number of detected up
/// channels. Reading the length neither adds nor removes channels, so the
/// value equals the length of the fixed channel list and the control block is
/// unchanged.
#[verifier::external_body]
pub(crate) fn rtt_up_channel_len(r: &mut probe_rs::rtt::Rtt) -> (n: usize)
    ensures
        n == rtt_up_channels(*old(r)).len(),
        *final(r) == *old(r),
{
    r.up_channels().len()
}

/// Relies on `probe_rs::Session::core`, `probe_rs::rtt::Rtt::up_channel` and
/// `probe_rs::rtt::UpChannel::read`: drains at most `buf.len()` bytes from
/// the indexed up channel's ring buffer without blocking on the target.
/// `up_channel` indexes the channel list, so the precondition keeps it in
/// range; reading advances ring pointers but neither adds nor removes
/// channels, writes only the first `n` returned bytes of the buffer, and
/// leaves the rest of it as it was.
#[verifier::external_body]
pub(crate) fn rtt_read_channel(
    s: &mut probe_rs::Session,
    r: &mut probe_rs::rtt::Rtt,
    core_idx: usize,
    ch: usize,
    buf: &mut Vec<u8>,
) -> (res: Result<usize, String>)
    requires
        ch < rtt_up_channels(*old(r)).len(),
    ensures
        rtt_up_channels(*final(r)) == rtt_up_channels(*old(r)),
        final(buf)@.len() == old(buf)@.len(),
        res matches Ok(n) ==> n <= old(buf)@.len(),
        res matches Ok(n) ==> final(buf)@.skip(n as int) == old(buf)@.skip(n as int),
{
    let mut core = s.core(core_idx).map_err(|e| format!("{e}"))?;
    let channel = r.up_channel(ch).expect("channel index in range");
    channel.read(&mut core, buf.as_mut_slice()).map_err(|e| format!("{e}"))
}

/// Relies on `probe_rs::flashing::download_file`: streams the image at the
/// given path to the chip's flash in the selected object format, erasing and
/// programming as needed.
#[verifier::external_body]
pub(crate) fn download_image(
    s: &mut probe_rs::Session,
    path: &str,
    format: ImageFormat,
) -> Result<(), String> {
    let outcome = match format {
        ImageFormat::Elf => probe_rs::flashing::download_file(
            s,
            path,
            probe_rs::flashing::ElfLoader(Default::default()),
        ),
        ImageFormat::Hex => probe_rs::flashing::download_file(s, path, probe_rs::flashing::HexLoader),
        ImageFormat::Uf2 => probe_rs::flashing::download_file(s, path, probe_rs::flashing::Uf2Loader),
    };
    outcome.map_err(|e| format!("{e}"))
}

} // verus!
