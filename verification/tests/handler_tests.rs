use e_probe_rs::errors::DebugError;
use e_probe_rs::errors::RttAttachError;
use e_probe_rs::firmware::ImageFormat;
use e_probe_rs::probe_opts::ProbeOperations;
use e_probe_rs::probe_rs_invoke::ProbeRsHandler;
use e_probe_rs::probe_rs_invoke::retry_decision;
use e_probe_rs::probe_rs_invoke::RetryDecision;
use e_probe_rs::probe_rs_invoke::RetryStep;

#[test]
fn enumerate_only_no_probe() {
    // Enumerate-only scenario on a host without a probe: empty list, zero
    // cores, but the chip database still yields at least one variant.
    let mut h = ProbeRsHandler::default();
    let n_probes = h.get_probes_list();
    assert_eq!(n_probes, 0);
    assert_eq!(h.get_core_num(), 0);
    let n_chips = h.get_availabe_chips();
    assert!(n_chips >= 1);
}

#[test]
fn refresh_probes_idempotent_without_plug_events() {
    // Two back-to-back enumerations with no hardware change agree.
    let mut h = ProbeRsHandler::default();
    let first = h.get_probes_list();
    let second = h.get_probes_list();
    assert_eq!(first, second);
    assert!(h.probe_descriptor(first).is_none());
}

#[test]
fn chip_variants_stable_after_first_call() {
    // The chip list is built once; later calls return the same sequence.
    let mut h = ProbeRsHandler::default();
    let n1 = h.get_availabe_chips();
    assert!(n1 >= 1);
    let first_name = h.chip_variant(0);
    let last_name = h.chip_variant(n1 - 1);
    let n2 = h.get_availabe_chips();
    assert_eq!(n1, n2);
    assert_eq!(h.chip_variant(0), first_name);
    assert_eq!(h.chip_variant(n1 - 1), last_name);
    assert!(h.chip_variant(n1).is_none());
}

#[test]
fn attach_with_empty_probe_list_is_noop() {
    let mut h = ProbeRsHandler::default();
    h.get_probes_list();
    let r = h.attach_target(0, "STM32F103C8");
    assert!(r.is_ok());
    assert_eq!(h.get_core_num(), 0);
    let r = h.attach_target_under_reset(3, "STM32F103C8");
    assert!(r.is_ok());
    assert_eq!(h.get_core_num(), 0);
}

#[test]
fn download_without_session_is_noop() {
    // No implicit attach is attempted; the handler stays without a session.
    let mut h = ProbeRsHandler::default();
    let r = h.try_to_download("/tmp/blink.elf", ImageFormat::Elf);
    assert!(r.is_ok());
    assert_eq!(h.get_core_num(), 0);
    let r = h.try_to_download("/tmp/blink.hex", ImageFormat::Hex);
    assert!(r.is_ok());
    let r = h.try_to_download("/tmp/blink.uf2", ImageFormat::Uf2);
    assert!(r.is_ok());
}

#[test]
fn reset_without_session_is_noop() {
    let mut h = ProbeRsHandler::default();
    assert!(h.reset_all_cores().is_ok());
}

#[test]
fn rtt_attach_without_session_is_noop() {
    let mut h = ProbeRsHandler::default();
    assert!(h.attach_rtt(0).is_ok());
    assert_eq!(h.get_up_channels_size(), 0);
    assert!(h.attach_rtt_region(0).is_ok());
    assert_eq!(h.get_up_channels_size(), 0);
}

#[test]
fn read_without_session_returns_zero() {
    let mut h = ProbeRsHandler::default();
    let mut buf = vec![0u8; 64];
    let r = h.rtt_read_from_channel(&mut buf, 0, 0);
    assert_eq!(r.unwrap(), 0);
    assert_eq!(buf.len(), 64);
}

#[test]
fn retry_attempt_without_session_is_skipped_softly() {
    // Retry-timeout scenario as far as it goes without hardware: no error is
    // recorded and the up-channel count stays zero.
    let mut h = ProbeRsHandler::default();
    let step = h.attach_retry_attempt(0, 0, 500);
    assert_eq!(step, RetryStep::Skipped);
    assert_eq!(h.get_up_channels_size(), 0);
}

#[test]
fn release_clears_session_state_and_keeps_registry() {
    let mut h = ProbeRsHandler::default();
    h.get_probes_list();
    let n_chips = h.get_availabe_chips();
    h.get_scan_region(None, Some(0x2000_0000));
    h.release();
    assert_eq!(h.get_core_num(), 0);
    assert_eq!(h.get_up_channels_size(), 0);
    assert_eq!(h.get_availabe_chips(), n_chips);
    assert_eq!(h.stored_region_exact_addr(), Some(0x2000_0000));
}

#[test]
fn scan_region_from_override_address() {
    // Explicit-address scenario: the stored region pins that address.
    let mut h = ProbeRsHandler::default();
    h.get_scan_region(None, Some(0x2000_0000));
    assert!(h.has_scan_region());
    assert_eq!(h.stored_region_exact_addr(), Some(0x2000_0000));
}

#[test]
fn scan_region_defaults_to_ram() {
    let mut h = ProbeRsHandler::default();
    assert!(!h.has_scan_region());
    h.get_scan_region(None, None);
    assert!(h.has_scan_region());
    assert_eq!(h.stored_region_exact_addr(), None);
}

#[test]
fn attach_rtt_region_without_region_fails_softly() {
    // A region-scoped attach needs a derived region; without a session the
    // call is still a no-op, so drive the check through the stored state.
    let mut h = ProbeRsHandler::default();
    assert!(!h.has_scan_region());
    assert!(h.attach_rtt_region(0).is_ok());
    assert_eq!(h.get_up_channels_size(), 0);
}

#[test]
fn error_descriptions_carry_their_diagnostic() {
    assert_eq!(DebugError::OpenFailed("no device".to_owned()).describe(), "no device");
    assert_eq!(DebugError::AttachFailed("wrong chip".to_owned()).describe(), "wrong chip");
    assert_eq!(DebugError::DownloadFailed("bad image".to_owned()).describe(), "bad image");
    assert_eq!(DebugError::ResetFailed("core 1".to_owned()).describe(), "core 1");
    assert_eq!(DebugError::RttOtherFailure("x".to_owned()).describe(), "x");
    assert_eq!(DebugError::ReadFailed("probe gone".to_owned()).describe(), "probe gone");
    assert_eq!(DebugError::IoFailed("missing file".to_owned()).describe(), "missing file");
    assert_eq!(
        DebugError::RttControlBlockNotFound.describe(),
        "RTT control block not found"
    );
}

#[test]
fn default_page_is_flash() {
    assert_eq!(ProbeOperations::default(), ProbeOperations::FlashProgram);
    assert_ne!(ProbeOperations::default(), ProbeOperations::RTTIO);
}

#[test]
fn retry_decision_follows_the_state_machine() {
    let miss: Result<probe_rs::rtt::Rtt, RttAttachError> =
        Err(RttAttachError::ControlBlockNotFound);
    assert_eq!(retry_decision(&miss, 0, 500), RetryDecision::Sleep);
    assert_eq!(retry_decision(&miss, 500, 500), RetryDecision::Sleep);
    assert_eq!(retry_decision(&miss, 501, 500), RetryDecision::Fallback);
    assert_eq!(retry_decision(&miss, 1, 0), RetryDecision::Fallback);
    let other: Result<probe_rs::rtt::Rtt, RttAttachError> =
        Err(RttAttachError::Other("transport failed".to_owned()));
    assert_eq!(retry_decision(&other, 0, 500), RetryDecision::GiveUp);
    assert_eq!(retry_decision(&other, 900, 500), RetryDecision::GiveUp);
}
