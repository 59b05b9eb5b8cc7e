use fdt_edit::{Node, Property};
use k3_drivers::script::{Op, Script};
use k3_drivers::sdhci::card::{
    allow_mmc, base_clock_usable, bus_mode, card_init_error, card_init_preference,
    is_absent_card_init_error, reference_clock_hz, CardError, CardInit, CardInitPreference,
    ErrorContext, InitAction, InitPoll, Phase, ProbeError,
};
use k3_drivers::sdhci::host::{
    ClockGate, Hs400Strobe, K3SdhciHost, SdMode, Timing, TuningError,
};
use k3_drivers::sdhci::regs::{phy_drive_sel, rx_dline_code};
use k3_drivers::sdhci::tuning::{
    longest, scan_tuning_windows, select_tuning_window, TuningWindowScan, RX_DELAY_CODE_MAX,
};
use k3_drivers::sdhci::vendor_ext::SdhciVendorExt;

fn node(props: &[(&str, &[u8])]) -> Node {
    let mut node = Node::new("mmc");
    for (name, data) in props {
        node.set_property(Property::new(name, data.to_vec()));
    }
    node
}

#[test]
fn scan_finds_widest_run_in_middle() {
    let scan = scan_tuning_windows(&mut |delay| (5..=14).contains(&delay));
    assert_eq!(scan.max_windows, 10);
    assert_eq!(scan.max_delay, 14);
}

#[test]
fn scan_no_pass_returns_zero() {
    let scan = scan_tuning_windows(&mut |_| false);
    assert_eq!(scan.max_windows, 0);
    assert_eq!(scan.max_delay, 0);
}

#[test]
fn scan_single_delay_at_zero() {
    let scan = scan_tuning_windows(&mut |delay| delay == 0);
    assert_eq!(scan.max_windows, 1);
    assert_eq!(scan.max_delay, 0);
}

#[test]
fn scan_window_at_upper_boundary() {
    let scan = scan_tuning_windows(&mut |delay| delay >= 250);
    assert_eq!(scan.max_windows, 6);
    assert_eq!(scan.max_delay, RX_DELAY_CODE_MAX);
}

#[test]
fn scan_keeps_first_run_on_tie() {
    let scan = scan_tuning_windows(&mut |delay| {
        (10..=19).contains(&delay) || (40..=49).contains(&delay)
    });
    assert_eq!(scan.max_windows, 10);
    assert_eq!(scan.max_delay, 19);
}

#[test]
fn scan_of_an_open_receiver_covers_every_code() {
    let scan = scan_tuning_windows(&mut |_| true);
    assert_eq!(scan.max_windows, 256);
    assert_eq!(scan.max_delay, 255);
    let mut results = vec![false; 256];
    results[3] = true;
    results[4] = true;
    assert_eq!(longest(&results).max_windows, 2);
    assert_eq!(longest(&results).max_delay, 4);
}

#[test]
fn select_rejects_window_below_limit() {
    let scan = TuningWindowScan { max_windows: 4, max_delay: 10 };
    assert_eq!(select_tuning_window(scan, 50), None);
}

#[test]
fn select_computes_min_and_max_delay() {
    let scan = TuningWindowScan { max_windows: 10, max_delay: 50 };
    let window = select_tuning_window(scan, 5).expect("window wide enough");
    assert_eq!(window.min_delay, 41);
    assert_eq!(window.max_delay, 50);
}

#[test]
fn select_window_at_lower_boundary() {
    let scan = TuningWindowScan { max_windows: 8, max_delay: 7 };
    let window = select_tuning_window(scan, 5).expect("window wide enough");
    assert_eq!(window.min_delay, 0);
    assert_eq!(window.max_delay, 7);
}

#[test]
fn select_single_delay_window() {
    let scan = TuningWindowScan { max_windows: 1, max_delay: 200 };
    let window = select_tuning_window(scan, 1).expect("window wide enough");
    assert_eq!(window.min_delay, 200);
    assert_eq!(window.max_delay, 200);
}

#[test]
fn execute_tuning_skips_unsupported_timings() {
    let mut host = K3SdhciHost::new();
    let result = host.execute_tuning(Timing::Legacy, |_| true);
    assert!(result.is_ok());
    assert_eq!(host.rxtuning.select_delay, 0);
}

#[test]
fn execute_tuning_rejects_narrow_window() {
    let mut host = K3SdhciHost::new();
    let result = host.execute_tuning(Timing::UhsSdr104, |delay| delay < 10);
    assert_eq!(result.err(), Some(TuningError::WindowTooNarrow { max_windows: 10 }));
}

#[test]
fn execute_tuning_sets_selected_delay() {
    let mut host = K3SdhciHost::new();
    let result = host.execute_tuning(Timing::MmcHs200, |delay| (50..=109).contains(&delay));
    assert!(result.is_ok());

    let window = host.rxtuning.windows;
    assert_eq!(window.min_delay, 50);
    assert_eq!(window.max_delay, 109);
    assert_eq!(host.rxtuning.select_delay, 80);
}

#[test]
fn command_timeout_during_card_init_is_absent_card() {
    let err = CardError::Timeout(ErrorContext::for_cmd(Phase::ResponseWait, 41));

    assert!(is_absent_card_init_error(err));
}

#[test]
fn data_timeout_after_card_init_is_not_absent_card() {
    let err = CardError::Timeout(ErrorContext::for_cmd(Phase::DataRead, 17));

    assert!(!is_absent_card_init_error(err));
}

#[test]
fn absent_cards_do_not_match() {
    assert_eq!(card_init_error(CardError::NoCard), ProbeError::NotMatch);
    let err = CardError::Crc(ErrorContext::new(Phase::Init));
    assert_eq!(card_init_error(err), ProbeError::Init(err));
    assert!(base_clock_usable(0).is_err());
    assert!(base_clock_usable(200_000_000).is_ok());
}

#[test]
fn cards_that_the_node_allows() {
    assert_eq!(card_init_preference(&node(&[])), CardInitPreference::SdFirst);
    assert_eq!(card_init_preference(&node(&[("no-mmc", &[])])), CardInitPreference::SdOnly);
    assert_eq!(card_init_preference(&node(&[("no-sd", &[])])), CardInitPreference::MmcOnly);
    assert!(allow_mmc(&node(&[])));
    assert!(!allow_mmc(&node(&[("no-mmc", &[])])));
    assert_eq!(card_init_preference(&node(&[("non-removable", &[])])), CardInitPreference::MmcOnly);
    assert_eq!(bus_mode(&node(&[("non-removable", &[])])), SdMode::Emmc);
    assert_eq!(bus_mode(&node(&[])), SdMode::Sd);
}

#[test]
fn reference_clock_is_read_from_the_node() {
    assert_eq!(reference_clock_hz(&node(&[])), None);
    let node = node(&[("clock-frequency", &[0x0b, 0xeb, 0xc2, 0x00])]);
    assert_eq!(reference_clock_hz(&node), Some(200_000_000));
}

#[test]
fn card_init_waits_where_the_card_asks_for_it() {
    let mut init = CardInit::new();
    assert!(matches!(init.step(InitPoll::Pending { needs_pace: false }), InitAction::Spin));
    assert!(matches!(
        init.step(InitPoll::Pending { needs_pace: true }),
        InitAction::Wait { .. }
    ));
    assert!(matches!(init.step(InitPoll::Complete), InitAction::Done));
    assert!(matches!(
        init.step(InitPoll::Failed(CardError::NoCard)),
        InitAction::Fail(CardError::NoCard)
    ));
}

#[test]
fn fields_are_placed() {
    assert_eq!(rx_dline_code(0x50), 0x0050_0000);
    assert_eq!(phy_drive_sel(4), 4);
    assert_eq!(phy_drive_sel(0xff), 7);
}

fn writes(script: &Script) -> usize {
    script.ops.iter().filter(|op| matches!(op, Op::Write { .. } | Op::Update { .. })).count()
}

#[test]
fn mode_changes_touch_registers() {
    let host = K3SdhciHost::new();
    assert!(writes(&host.reset(SdMode::Emmc)) > 0);
    assert_ne!(host.reset(SdMode::Emmc).ops, host.reset(SdMode::Sd).ops);
    assert!(writes(&host.prepare_hs400()) > 0);
    assert!(writes(&host.post_hs400_config()) > 0);
    assert!(writes(&host.hs400_to_hs200()) > 0);
    assert_ne!(
        host.set_clock_gate(ClockGate::Manual).ops,
        host.set_clock_gate(ClockGate::Auto).ops
    );
    assert_ne!(
        host.enable_hs400_strobe(Hs400Strobe::Enable).ops,
        host.enable_hs400_strobe(Hs400Strobe::Disable).ops
    );
    assert_eq!(K3SdhciHost::dll_result(false), Err(TuningError::DllLockTimeout));
    assert_eq!(K3SdhciHost::dll_result(true), Ok(()));
}

#[test]
fn vendor_interface_does_the_same() {
    let mut host = K3SdhciHost::new();
    assert_eq!(host.vendor_reset(SdMode::Sd).ops, host.reset(SdMode::Sd).ops);
    assert_eq!(
        host.vendor_set_timing(Timing::MmcHs400).ops,
        host.set_timing(Timing::MmcHs400).ops
    );
    assert_eq!(
        host.vendor_set_clock(Timing::MmcHs400).ops,
        host.set_clock(Timing::MmcHs400).ops
    );
    assert!(host.vendor_execute_tuning(Timing::MmcHs200, |delay| delay < 60).is_ok());
    assert_eq!(host.rxtuning.select_delay, 30);
}

#[test]
fn timings_have_numbers() {
    assert_eq!(Timing::from(0), Timing::Legacy);
    assert_eq!(Timing::from(6), Timing::UhsSdr104);
    assert_eq!(Timing::from(8), Timing::MmcHs400);
    assert_eq!(Timing::from(9), Timing::Legacy);
}
