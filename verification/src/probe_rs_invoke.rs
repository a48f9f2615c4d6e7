//! The stateful handler coordinating probe, session and RTT lifetimes.
//!
//! The handler owns at most one debug session at a time, and an RTT control
//! block only while that session lives. Cached counts mirror the resources:
//! the core count is zero without a session, and the up-channel count always
//! equals the attached control block's channel-list length (zero without
//! one). Every operation preserves this discipline, so a positive core count
//! witnesses an attached session over any sequence of calls.

use vstd::prelude::*;

use crate::errors::DebugError;
use crate::errors::RttAttachError;
use crate::firmware::ImageFormat;
use crate::probe_link::all_family_variant_names;
use crate::probe_link::describe_probe;
use crate::probe_link::download_image;
use crate::probe_link::list_probes;
use crate::probe_link::open_probe;
use crate::probe_link::probe_descriptor_of;
use crate::probe_link::probe_attach;
use crate::probe_link::probe_attach_under_reset;
use crate::probe_link::reset_core;
use crate::probe_link::rtt_attach_default;
use crate::probe_link::rtt_attach_in_region;
use crate::probe_link::rtt_read_channel;
use crate::probe_link::rtt_up_channel_len;
use crate::probe_link::rtt_up_channels;
use crate::probe_link::session_core_ids;
use crate::probe_link::session_cores;
use crate::probe_link::ProbeDescriptor;
use crate::scan_region::derive_scan_region;
use crate::scan_region::opt_bytes_view;
use crate::scan_region::spec_derive_region;
use crate::scan_region::ScanRegion;

verus! {

/// What one bounded-retry step decided. The driver loop owns the clock and
/// the fixed 50 ms retry interval: on `SleepRetry` it sleeps once and calls
/// again with the new elapsed time; every other step ends the loop.
#[derive(Clone, Copy, Debug, PartialEq, Eq)]
pub enum RetryStep {
    /// A control block was attached and stored.
    Attached,
    /// Transient miss within the budget: sleep the interval, then try again.
    SleepRetry,
    /// Gave up softly: no RTT available, and no error is recorded.
    NoRtt,
    /// Nothing was attempted: no session, or the core index is out of range.
    Skipped,
}

/// What the retry state machine does with the outcome of one region-scoped
/// attach attempt.
#[derive(Clone, Copy, Debug, PartialEq, Eq)]
pub enum RetryDecision {
    /// The attempt succeeded: store the control block.
    Store,
    /// The control block was not found and the budget is not spent: sleep
    /// the retry interval and try again.
    Sleep,
    /// The control block was not found and the budget is spent: make one
    /// final attach with the default RAM sweep and store its outcome.
    Fallback,
    /// Some other failure: give up softly, clearing any stored RTT state.
    GiveUp,
}

/// The retry state machine's decision on one attempt's outcome: a success is
/// stored; a missing control block is retried while the elapsed time is
/// within the budget and falls back to one default-sweep attach past it; any
/// other failure gives up.
pub open spec fn spec_retry_decision(
    outcome: Result<probe_rs::rtt::Rtt, RttAttachError>,
    elapsed_ms: u64,
    timeout_ms: u64,
) -> RetryDecision {
    match outcome {
        Ok(_) => RetryDecision::Store,
        Err(RttAttachError::ControlBlockNotFound) => if elapsed_ms <= timeout_ms {
            RetryDecision::Sleep
        } else {
            RetryDecision::Fallback
        },
        Err(RttAttachError::Other(_)) => RetryDecision::GiveUp,
    }
}

/// Decides one retry step from an attempt's outcome, the elapsed time and
/// the budget — exactly `spec_retry_decision`.
pub fn retry_decision(
    outcome: &Result<probe_rs::rtt::Rtt, RttAttachError>,
    elapsed_ms: u64,
    timeout_ms: u64,
) -> (r: RetryDecision)
    ensures
        r == spec_retry_decision(*outcome, elapsed_ms, timeout_ms),
{
    match outcome {
        Ok(_) => RetryDecision::Store,
        Err(RttAttachError::ControlBlockNotFound) => {
            if elapsed_ms <= timeout_ms {
                RetryDecision::Sleep
            } else {
                RetryDecision::Fallback
            }
        },
        Err(RttAttachError::Other(_)) => RetryDecision::GiveUp,
    }
}

/// The coordination core. Fields mirror the three coupled resources and
/// their cached counts; `wf` states the discipline they keep.
pub struct ProbeRsHandler {
    /// Probes found by the last enumeration.
    pub probes_list: Vec<probe_rs::probe::DebugProbeInfo>,
    /// Chip-variant names, loaded lazily from the built-in database.
    pub chips_list: Vec<String>,
    /// Up-channel count of the attached control block; 0 without one.
    pub up_chs_size: usize,
    /// The at-most-one debug session.
    pub session: Option<probe_rs::Session>,
    /// The RTT control block, live only while the session is.
    pub rtt: Option<probe_rs::rtt::Rtt>,
    /// Core count cached from the session; 0 without one.
    pub target_cores_num: usize,
    /// The scan region derived for region-scoped RTT attaches.
    pub scan_region: Option<ScanRegion>,
}

impl ProbeRsHandler {
    /// The resource discipline: an RTT control block only alongside a
    /// session, a zero core count without a session, and an up-channel count
    /// that always matches the control block actually held.
    pub open spec fn wf(self) -> bool {
        &&& (self.rtt is Some ==> self.session is Some)
        &&& (self.session is None ==> self.target_cores_num == 0)
        &&& (match self.rtt {
            Some(r) => self.up_chs_size == rtt_up_channels(r).len(),
            None => self.up_chs_size == 0,
        })
    }

    /// Whether a debug session is currently attached.
    pub open spec fn attached(self) -> bool {
        self.session is Some
    }

    /// The probe registry and chip list are untouched.
    pub open spec fn same_registry(self, o: Self) -> bool {
        &&& self.probes_list@ == o.probes_list@
        &&& self.chips_list@ == o.chips_list@
    }
}

impl Default for ProbeRsHandler {
    /// A fresh handler: nothing enumerated, no session, no RTT state.
    fn default() -> (r: Self)
        ensures
            r.session is None,
            r.rtt is None,
            r.scan_region is None,
            r.probes_list@.len() == 0,
            r.chips_list@.len() == 0,
            r.up_chs_size == 0,
            r.target_cores_num == 0,
            r.wf(),
    {
        ProbeRsHandler {
            probes_list: Vec::new(),
            chips_list: Vec::new(),
            up_chs_size: 0,
            session: None,
            rtt: None,
            target_cores_num: 0,
            scan_region: None,
        }
    }
}

impl ProbeRsHandler {
    /// Re-queries the host for connected debug probes, replacing any prior
    /// list, and returns how many were found. An enumeration failure surfaces
    /// as an empty list, never as an error.
    pub fn get_probes_list(&mut self) -> (n: usize)
        requires
            old(self).wf(),
        ensures
            final(self).wf(),
            n == final(self).probes_list@.len(),
            final(self).chips_list@ == old(self).chips_list@,
            final(self).session == old(self).session,
            final(self).rtt == old(self).rtt,
            final(self).up_chs_size == old(self).up_chs_size,
            final(self).target_cores_num == old(self).target_cores_num,
            final(self).scan_region == old(self).scan_region,
    {
        self.probes_list = list_probes();
        self.probes_list.len()
    }

    /// A plain-value descriptor of the probe at `idx` in the current list —
    /// exactly that record's identifier, vendor id and product id; `None`
    /// exactly when the index is out of range.
    pub fn probe_descriptor(&self, idx: usize) -> (r: Option<ProbeDescriptor>)
        ensures
            r is Some <==> idx < self.probes_list@.len(),
            r matches Some(d) ==> {
                &&& d.identifier@ == probe_descriptor_of(self.probes_list@[idx as int]).0
                &&& d.vendor_id == probe_descriptor_of(self.probes_list@[idx as int]).1
                &&& d.product_id == probe_descriptor_of(self.probes_list@[idx as int]).2
            },
    {
        if idx < self.probes_list.len() {
            Some(describe_probe(&self.probes_list[idx]))
        } else {
            None
        }
    }

    /// Opens the probe at `probe_idx` and attaches to the named chip with
    /// default permissions (no reset asserted). While a session already
    /// exists, or when the index is out of range, the call is a no-op — the
    /// caller must `release` first. On failure the handler keeps no session;
    /// the error tells whether opening or attaching failed.
    pub fn attach_target(&mut self, probe_idx: usize, target_chip: &str) -> (r: Result<
        (),
        DebugError,
    >)
        requires
            old(self).wf(),
        ensures
            final(self).wf(),
            final(self).same_registry(*old(self)),
            final(self).rtt == old(self).rtt,
            final(self).up_chs_size == old(self).up_chs_size,
            final(self).target_cores_num == old(self).target_cores_num,
            final(self).scan_region == old(self).scan_region,
            (old(self).session is Some || probe_idx >= old(self).probes_list@.len()) ==> (r is Ok
                && *final(self) == *old(self)),
            (old(self).session is None && probe_idx < old(self).probes_list@.len()) ==> (match r {
                Ok(_) => final(self).session is Some,
                Err(e) => *final(self) == *old(self) && (e is OpenFailed || e is AttachFailed),
            }),
    {
        if self.session.is_none() && probe_idx < self.probes_list.len() {
            match open_probe(&self.probes_list[probe_idx]) {
                Err(m) => Err(DebugError::OpenFailed(m)),
                Ok(p) => match probe_attach(p, target_chip) {
                    Err(m) => Err(DebugError::AttachFailed(m)),
                    Ok(s) => {
                        self.session = Some(s);
                        Ok(())
                    },
                },
            }
        } else {
            Ok(())
        }
    }

    /// As `attach_target`, but asserts reset on the target across the attach
    /// sequence — for chips that must be halted out of their boot ROM.
    pub fn attach_target_under_reset(&mut self, probe_idx: usize, target_chip: &str) -> (r: Result<
        (),
        DebugError,
    >)
        requires
            old(self).wf(),
        ensures
            final(self).wf(),
            final(self).same_registry(*old(self)),
            final(self).rtt == old(self).rtt,
            final(self).up_chs_size == old(self).up_chs_size,
            final(self).target_cores_num == old(self).target_cores_num,
            final(self).scan_region == old(self).scan_region,
            (old(self).session is Some || probe_idx >= old(self).probes_list@.len()) ==> (r is Ok
                && *final(self) == *old(self)),
            (old(self).session is None && probe_idx < old(self).probes_list@.len()) ==> (match r {
                Ok(_) => final(self).session is Some,
                Err(e) => *final(self) == *old(self) && (e is OpenFailed || e is AttachFailed),
            }),
    {
        if self.session.is_none() && probe_idx < self.probes_list.len() {
            match open_probe(&self.probes_list[probe_idx]) {
                Err(m) => Err(DebugError::OpenFailed(m)),
                Ok(p) => match probe_attach_under_reset(p, target_chip) {
                    Err(m) => Err(DebugError::AttachFailed(m)),
                    Ok(s) => {
                        self.session = Some(s);
                        Ok(())
                    },
                },
            }
        } else {
            Ok(())
        }
    }

    /// Streams the firmware image at `path` to the chip's flash in the given
    /// format. With no session the call attempts no implicit attach and is a
    /// no-op; the caller is expected to drive an attach first.
    pub fn try_to_download(&mut self, path: &str, file_format: ImageFormat) -> (r: Result<
        (),
        DebugError,
    >)
        requires
            old(self).wf(),
        ensures
            final(self).wf(),
            final(self).attached() == old(self).attached(),
            final(self).same_registry(*old(self)),
            final(self).rtt == old(self).rtt,
            final(self).up_chs_size == old(self).up_chs_size,
            final(self).target_cores_num == old(self).target_cores_num,
            final(self).scan_region == old(self).scan_region,
            old(self).session is None ==> (r is Ok && *final(self) == *old(self)),
            r matches Err(e) ==> (e is DownloadFailed && old(self).session is Some),
    {
        match &mut self.session {
            None => Ok(()),
            Some(s) => match download_image(s, path, file_format) {
                Ok(u) => Ok(u),
                Err(m) => Err(DebugError::DownloadFailed(m)),
            },
        }
    }

    /// Issues a hardware reset to every core the session reports, in their
    /// natural order, short-circuiting on the first failure; cores already
    /// reset remain reset, and a failure does not release the session. With
    /// no session the call is a no-op.
    pub fn reset_all_cores(&mut self) -> (r: Result<(), DebugError>)
        requires
            old(self).wf(),
        ensures
            final(self).wf(),
            final(self).attached() == old(self).attached(),
            final(self).same_registry(*old(self)),
            final(self).rtt == old(self).rtt,
            final(self).up_chs_size == old(self).up_chs_size,
            final(self).target_cores_num == old(self).target_cores_num,
            final(self).scan_region == old(self).scan_region,
            old(self).session is None ==> (r is Ok && *final(self) == *old(self)),
            r matches Err(e) ==> (e is ResetFailed && old(self).session is Some),
    {
        match self.session.take() {
            None => Ok(()),
            Some(mut s) => {
                let ids = session_core_ids(&s);
                let n = ids.len();
                let mut i: usize = 0;
                let mut failure: Option<String> = None;
                while i < n
                    invariant
                        i <= n,
                        n == ids@.len(),
                    decreases n - i,
                {
                    match reset_core(&mut s, ids[i]) {
                        Err(m) => {
                            failure = Some(m);
                            break ;
                        },
                        Ok(u) => {},
                    }
                    i = i + 1;
                }
                self.session = Some(s);
                match failure {
                    Some(m) => Err(DebugError::ResetFailed(m)),
                    None => Ok(()),
                }
            },
        }
    }

    /// Lazily builds the chip-variant list: on the first call the built-in
    /// chip database is snapshotted and flattened family by family, keeping
    /// the database's own order. The database always ends with the generic
    /// target families, so a freshly built list is never empty. Once the
    /// list is non-empty it is never rebuilt, so later calls return the
    /// cached sequence unchanged. Returns the number of variants.
    pub fn get_availabe_chips(&mut self) -> (n: usize)
        requires
            old(self).wf(),
        ensures
            final(self).wf(),
            n == final(self).chips_list@.len(),
            old(self).chips_list@.len() > 0 ==> (final(self).chips_list@ == old(self).chips_list@),
            old(self).chips_list@.len() == 0 ==> final(self).chips_list@.len() >= 1,
            final(self).probes_list@ == old(self).probes_list@,
            final(self).session == old(self).session,
            final(self).rtt == old(self).rtt,
            final(self).up_chs_size == old(self).up_chs_size,
            final(self).target_cores_num == old(self).target_cores_num,
            final(self).scan_region == old(self).scan_region,
    {
        if self.chips_list.len() == 0 {
            let mut families = all_family_variant_names();
            let ghost snapshot = families@;
            proof {
                assert(self.chips_list@ + flatten_names(families@) =~= flatten_names(snapshot));
            }
            while families.len() > 0
                invariant
                    self.chips_list@ + flatten_names(families@) == flatten_names(snapshot),
                    snapshot.len() > 0,
                    snapshot[snapshot.len() - 1]@.len() > 0,
                    self.probes_list@ == old(self).probes_list@,
                    self.session == old(self).session,
                    self.rtt == old(self).rtt,
                    self.up_chs_size == old(self).up_chs_size,
                    self.target_cores_num == old(self).target_cores_num,
                    self.scan_region == old(self).scan_region,
                    self.wf(),
                decreases families@.len(),
            {
                let ghost fams0 = families@;
                let ghost chips0 = self.chips_list@;
                let mut names = families.remove(0);
                self.chips_list.append(&mut names);
                proof {
                    assert(fams0.remove(0) =~= fams0.drop_first());
                    assert(flatten_names(fams0) == fams0[0]@ + flatten_names(fams0.drop_first()));
                    assert((chips0 + fams0[0]@) + flatten_names(fams0.drop_first()) =~= chips0 + (
                    fams0[0]@ + flatten_names(fams0.drop_first())));
                }
            }
            proof {
                assert(flatten_names(families@) =~= Seq::<String>::empty());
                assert(self.chips_list@ + flatten_names(families@) =~= self.chips_list@);
                lemma_flatten_names_last_nonempty(snapshot);
            }
        }
        self.chips_list.len()
    }

    /// The chip-variant name at `idx` in the cached list; `None` exactly when
    /// the index is out of range.
    pub fn chip_variant(&self, idx: usize) -> (r: Option<String>)
        ensures
            match r {
                Some(name) => idx < self.chips_list@.len() && name@ == self.chips_list@[
                    idx as int
                ]@,
                None => idx >= self.chips_list@.len(),
            },
    {
        if idx < self.chips_list.len() {
            Some(self.chips_list[idx].clone())
        } else {
            None
        }
    }

    /// Refreshes the cached core count from the session and returns it: a
    /// snapshot of the session's own core list while attached, 0 with no
    /// session. A positive count therefore witnesses an attached session.
    pub fn get_core_num(&mut self) -> (n: usize)
        requires
            old(self).wf(),
        ensures
            final(self).wf(),
            n == final(self).target_cores_num,
            final(self).session == old(self).session,
            final(self).same_registry(*old(self)),
            final(self).rtt == old(self).rtt,
            final(self).up_chs_size == old(self).up_chs_size,
            final(self).scan_region == old(self).scan_region,
            old(self).session is None ==> (n == 0 && *final(self) == *old(self)),
            old(self).session matches Some(s) ==> n == session_cores(s).len(),
            n > 0 ==> final(self).attached(),
    {
        let refreshed = match &self.session {
            None => None,
            Some(s) => Some(session_core_ids(s).len()),
        };
        match refreshed {
            None => {},
            Some(c) => {
                self.target_cores_num = c;
            },
        }
        self.target_cores_num
    }

    /// Drops the session and returns to the no-session state; the control
    /// block and both cached counts are invalidated atomically with it. The
    /// probe registry, chip list and stored scan region survive.
    pub fn release(&mut self)
        requires
            old(self).wf(),
        ensures
            final(self).wf(),
            final(self).session is None,
            final(self).rtt is None,
            final(self).up_chs_size == 0,
            final(self).target_cores_num == 0,
            final(self).same_registry(*old(self)),
            final(self).scan_region == old(self).scan_region,
    {
        self.rtt = None;
        self.up_chs_size = 0;
        self.target_cores_num = 0;
        self.session = None;
    }

    /// Derives the scan region from an optional ELF image and an optional
    /// explicit control-block address and stores it for subsequent
    /// region-scoped attaches, replacing any prior region. Pure in its
    /// inputs; precedence is the override address, then the image's RTT
    /// symbol, then the default RAM sweep.
    pub fn get_scan_region(
        &mut self,
        elf_data: Option<&Vec<u8>>,
        control_block_address: Option<u64>,
    )
        requires
            old(self).wf(),
        ensures
            final(self).wf(),
            final(self).scan_region == Some(
                spec_derive_region(opt_bytes_view(elf_data), control_block_address),
            ),
            final(self).same_registry(*old(self)),
            final(self).session == old(self).session,
            final(self).rtt == old(self).rtt,
            final(self).up_chs_size == old(self).up_chs_size,
            final(self).target_cores_num == old(self).target_cores_num,
    {
        let region = derive_scan_region(elf_data, control_block_address);
        self.scan_region = Some(region);
    }

    /// The stored scan region's pinned address, when a region is stored and
    /// it is `Exact`.
    pub fn stored_region_exact_addr(&self) -> (r: Option<u64>)
        ensures
            r == (match self.scan_region {
                Some(ScanRegion::Exact(a)) => Some(a),
                _ => None,
            }),
    {
        match &self.scan_region {
            Some(region) => region.exact_addr(),
            None => None,
        }
    }

    /// Whether a scan region has been derived and stored.
    pub fn has_scan_region(&self) -> (r: bool)
        ensures
            r == (self.scan_region is Some),
    {
        self.scan_region.is_some()
    }

    /// Attaches the RTT control block through the selected core with the
    /// library's default RAM sweep, storing the block and caching its
    /// up-channel count on success. A no-op while no session is attached or
    /// the core index is out of range; on failure the stored RTT state is
    /// unchanged.
    pub fn attach_rtt(&mut self, core_idx: usize) -> (r: Result<(), DebugError>)
        requires
            old(self).wf(),
        ensures
            final(self).wf(),
            final(self).attached() == old(self).attached(),
            final(self).same_registry(*old(self)),
            final(self).scan_region == old(self).scan_region,
            final(self).target_cores_num == old(self).target_cores_num,
            (old(self).session is None || core_idx >= old(self).target_cores_num) ==> (r is Ok
                && *final(self) == *old(self)),
            r is Ok && old(self).session is Some && core_idx < old(self).target_cores_num ==> final(self).rtt is Some,
            r matches Err(e) ==> ((e is RttControlBlockNotFound || e is RttOtherFailure)
                && final(self).rtt == old(self).rtt && final(self).up_chs_size == old(self).up_chs_size),
    {
        if self.session.is_none() || core_idx >= self.target_cores_num {
            return Ok(());
        }
        let attempt = match &mut self.session {
            Some(s) => rtt_attach_default(s, core_idx),
            None => unreached(),
        };
        match attempt {
            Ok(mut block) => {
                let n = rtt_up_channel_len(&mut block);
                self.up_chs_size = n;
                self.rtt = Some(block);
                Ok(())
            },
            Err(RttAttachError::ControlBlockNotFound) => Err(DebugError::RttControlBlockNotFound),
            Err(RttAttachError::Other(m)) => Err(DebugError::RttOtherFailure(m)),
        }
    }

    /// Attaches the control block using the currently stored scan region,
    /// storing the block and caching its up-channel count on success. Fails
    /// when no scan region has been derived yet; a no-op while no session is
    /// attached or the core index is out of range.
    pub fn attach_rtt_region(&mut self, core_idx: usize) -> (r: Result<(), DebugError>)
        requires
            old(self).wf(),
        ensures
            final(self).wf(),
            final(self).attached() == old(self).attached(),
            final(self).same_registry(*old(self)),
            final(self).scan_region == old(self).scan_region,
            final(self).target_cores_num == old(self).target_cores_num,
            (old(self).session is None || core_idx >= old(self).target_cores_num) ==> (r is Ok
                && *final(self) == *old(self)),
            (old(self).session is Some && core_idx < old(self).target_cores_num && old(self).scan_region is None) ==> (r matches Err(e) && e is RttOtherFailure && *final(self)
                == *old(self)),
            r is Ok && old(self).session is Some && core_idx < old(self).target_cores_num ==> final(self).rtt is Some,
            r matches Err(e) ==> ((e is RttControlBlockNotFound || e is RttOtherFailure)
                && final(self).rtt == old(self).rtt && final(self).up_chs_size == old(self).up_chs_size),
    {
        if self.session.is_none() || core_idx >= self.target_cores_num {
            return Ok(());
        }
        let attempt = match (&mut self.session, &self.scan_region) {
            (Some(s), Some(region)) => rtt_attach_in_region(s, core_idx, region),
            (Some(_), None) => {
                return Err(
                    DebugError::RttOtherFailure("no scan region has been derived".to_owned()),
                );
            },
            _ => unreached(),
        };
        match attempt {
            Ok(mut block) => {
                let n = rtt_up_channel_len(&mut block);
                self.up_chs_size = n;
                self.rtt = Some(block);
                Ok(())
            },
            Err(RttAttachError::ControlBlockNotFound) => Err(DebugError::RttControlBlockNotFound),
            Err(RttAttachError::Other(m)) => Err(DebugError::RttOtherFailure(m)),
        }
    }

    /// After the retry budget is exhausted: one final attach with the default
    /// RAM sweep; its outcome is stored, and a failure is soft — the RTT
    /// state is cleared and no error is recorded.
    fn fallback_default_attach(&mut self, core_idx: usize) -> (r: RetryStep)
        requires
            old(self).wf(),
            old(self).session is Some,
            core_idx < old(self).target_cores_num,
        ensures
            final(self).wf(),
            final(self).attached(),
            final(self).same_registry(*old(self)),
            final(self).scan_region == old(self).scan_region,
            final(self).target_cores_num == old(self).target_cores_num,
            r is Attached || r is NoRtt,
            r is Attached ==> final(self).rtt is Some,
            r is NoRtt ==> (final(self).rtt is None && final(self).up_chs_size == 0),
    {
        let attempt = match &mut self.session {
            Some(s) => rtt_attach_default(s, core_idx),
            None => unreached(),
        };
        match attempt {
            Ok(mut block) => {
                let n = rtt_up_channel_len(&mut block);
                self.up_chs_size = n;
                self.rtt = Some(block);
                RetryStep::Attached
            },
            Err(_) => {
                self.rtt = None;
                self.up_chs_size = 0;
                RetryStep::NoRtt
            },
        }
    }

    /// One step of the bounded-retry attach with the stored scan region.
    /// The caller's loop owns the monotonic clock and the fixed 50 ms retry
    /// interval: it passes the time elapsed since the loop began, and on
    /// `SleepRetry` sleeps once and calls again. A transient miss (control
    /// block not found) is retried while `elapsed_ms` is within the budget;
    /// past the budget one final default-sweep attach is made and its outcome
    /// stored. Any other failure gives up softly: the RTT state is cleared
    /// and no error is recorded. A sleep is requested only while the elapsed
    /// time is within the budget, so a driver honouring the steps spends at
    /// most the budget plus one attempt before it stops.
    pub fn attach_retry_attempt(
        &mut self,
        core_idx: usize,
        elapsed_ms: u64,
        timeout_ms: u64,
    ) -> (r: RetryStep)
        requires
            old(self).wf(),
        ensures
            final(self).wf(),
            final(self).attached() == old(self).attached(),
            final(self).same_registry(*old(self)),
            final(self).scan_region == old(self).scan_region,
            final(self).target_cores_num == old(self).target_cores_num,
            (old(self).session is None || core_idx >= old(self).target_cores_num) <==> r is Skipped,
            r is Skipped ==> *final(self) == *old(self),
            r is SleepRetry ==> (elapsed_ms <= timeout_ms && final(self).rtt == old(self).rtt
                && final(self).up_chs_size == old(self).up_chs_size),
            r is Attached ==> final(self).rtt is Some,
            r is NoRtt ==> (final(self).rtt is None && final(self).up_chs_size == 0),
            (old(self).session is Some && core_idx < old(self).target_cores_num
                && old(self).scan_region is None && elapsed_ms <= timeout_ms) ==> (r is SleepRetry
                && *final(self) == *old(self)),
            (old(self).session is Some && core_idx < old(self).target_cores_num
                && old(self).scan_region is None && elapsed_ms > timeout_ms) ==> (r is Attached
                || r is NoRtt),
            elapsed_ms > timeout_ms ==> !(r is SleepRetry),
    {
        if self.session.is_none() || core_idx >= self.target_cores_num {
            return RetryStep::Skipped;
        }
        let attempt = match (&mut self.session, &self.scan_region) {
            (Some(s), Some(region)) => Some(rtt_attach_in_region(s, core_idx, region)),
            (Some(_), None) => None,
            _ => unreached(),
        };
        match attempt {
            None => {
                // No region was ever derived: nothing to scan; wait out the
                // budget, then fall back to the default sweep.
                if elapsed_ms <= timeout_ms {
                    RetryStep::SleepRetry
                } else {
                    self.fallback_default_attach(core_idx)
                }
            },
            Some(outcome) => match retry_decision(&outcome, elapsed_ms, timeout_ms) {
                RetryDecision::Store => {
                    let mut block = match outcome {
                        Ok(b) => b,
                        Err(_) => unreached(),
                    };
                    let n = rtt_up_channel_len(&mut block);
                    self.up_chs_size = n;
                    self.rtt = Some(block);
                    RetryStep::Attached
                },
                RetryDecision::Sleep => RetryStep::SleepRetry,
                RetryDecision::Fallback => self.fallback_default_attach(core_idx),
                RetryDecision::GiveUp => {
                    self.rtt = None;
                    self.up_chs_size = 0;
                    RetryStep::NoRtt
                },
            },
        }
    }

    /// The cached up-channel count, refreshed from the control block when one
    /// is present; zero without one. By the handler's discipline the refresh
    /// never changes the cached value, so the whole state is left as it was.
    pub fn get_up_channels_size(&mut self) -> (n: usize)
        requires
            old(self).wf(),
        ensures
            final(self).wf(),
            *final(self) == *old(self),
            n == old(self).up_chs_size,
    {
        match &mut self.rtt {
            None => {},
            Some(block) => {
                let n = rtt_up_channel_len(block);
                self.up_chs_size = n;
            },
        }
        self.up_chs_size
    }

    /// Drains at most `buf.len()` bytes from the selected up channel into the
    /// front of `buf` and returns how many were written; 0 means the ring was
    /// empty, and is also returned — with the state untouched — when there is
    /// no session, no control block, or an out-of-range core or channel
    /// index. The buffer's length never changes, and a successful count never
    /// exceeds it.
    pub fn rtt_read_from_channel(
        &mut self,
        buf: &mut Vec<u8>,
        core_idx: usize,
        ch_number: usize,
    ) -> (r: Result<usize, DebugError>)
        requires
            old(self).wf(),
        ensures
            final(self).wf(),
            final(self).attached() == old(self).attached(),
            final(self).same_registry(*old(self)),
            final(self).scan_region == old(self).scan_region,
            final(self).target_cores_num == old(self).target_cores_num,
            final(self).up_chs_size == old(self).up_chs_size,
            (final(self).rtt is Some) == (old(self).rtt is Some),
            final(buf)@.len() == old(buf)@.len(),
            r matches Ok(n) ==> n <= old(buf)@.len(),
            r matches Ok(n) ==> final(buf)@.skip(n as int) == old(buf)@.skip(n as int),
            (old(self).session is None || core_idx >= old(self).target_cores_num || ch_number
                >= old(self).up_chs_size) ==> (r matches Ok(n) && n == 0 && *final(self) == *old(self) && final(buf)@ == old(buf)@),
            r matches Err(e) ==> e is ReadFailed,
    {
        if self.session.is_none() || core_idx >= self.target_cores_num || ch_number
            >= self.up_chs_size {
            return Ok(0);
        }
        let outcome = match (&mut self.session, &mut self.rtt) {
            (Some(s), Some(block)) => rtt_read_channel(s, block, core_idx, ch_number, buf),
            _ => unreached(),
        };
        match outcome {
            Ok(n) => Ok(n),
            Err(m) => Err(DebugError::ReadFailed(m)),
        }
    }
}

/// The names of a family-by-family table, flattened in the table's order.
spec fn flatten_names(s: Seq<Vec<String>>) -> Seq<String>
    decreases s.len(),
{
    if s.len() == 0 {
        Seq::empty()
    } else {
        s[0]@ + flatten_names(s.drop_first())
    }
}

/// A flattened table whose last entry is non-empty is itself non-empty.
proof fn lemma_flatten_names_last_nonempty(s: Seq<Vec<String>>)
    requires
        s.len() > 0,
        s[s.len() - 1]@.len() > 0,
    ensures
        flatten_names(s).len() >= 1,
    decreases s.len(),
{
    assert(flatten_names(s) == s[0]@ + flatten_names(s.drop_first()));
    if s.len() > 1 {
        assert(s.drop_first()[s.drop_first().len() - 1] == s[s.len() - 1]);
        lemma_flatten_names_last_nonempty(s.drop_first());
    }
}

/// Law: a positive cached core count witnesses an attached session. Every
/// handler operation preserves `wf`, so this holds over any sequence of
/// operations on a handler that started fresh.
pub proof fn lemma_core_count_implies_attached(h: ProbeRsHandler)
    requires
        h.wf(),
        h.target_cores_num > 0,
    ensures
        h.attached(),
{
}

/// Law (the handler's side of the attach/release/attach round trip):
/// releasing preserves the probe registry and leaves no session, so an attach
/// with the same arguments is permitted again by exactly the guard that
/// permitted the first one. Whether the re-attached session reports the same
/// core count is up to the hardware alone.
pub proof fn lemma_release_enables_reattach(
    before: ProbeRsHandler,
    after: ProbeRsHandler,
    probe_idx: usize,
)
    requires
        after.session is None,
        after.same_registry(before),
    ensures
        (after.session is None && probe_idx < after.probes_list@.len()) == (probe_idx
            < before.probes_list@.len()),
{
}

} // verus!
