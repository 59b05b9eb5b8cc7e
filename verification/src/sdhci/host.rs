//! Vendor part of the host controller: PHY setup, fast timings, tuning.
//!
//! Each operation returns the register accesses that carry it out.

use vstd::prelude::*;
use crate::script;
use crate::script::{core_reg, Op, Script};
use crate::sdhci::regs;
use crate::sdhci::tuning;
use crate::sdhci::tuning::{
    scan_tuning_windows, select_tuning_window, TuningWindow, TuningWindowScan,
    DEFAULT_TUNING_WINDOW_LIMIT,
};

verus! {

/// How often the lock state of the delay-locked loop is read.
pub const PHY_DLL_POLL_BUDGET: u32 = 50;

/// Drive strength of the pads of an embedded card.
pub const DEFAULT_PHY_DRIVER_SEL: u8 = 4;

/// Why a PHY or tuning operation failed.
#[derive(Clone, Copy, Debug, PartialEq, Eq, Structural)]
pub enum TuningError {
    /// The delay-locked loop did not lock.
    DllLockTimeout,
    /// No run of passing delay codes is long enough.
    WindowTooNarrow { max_windows: u16 },
}

/// Bus timings.
#[derive(Clone, Copy, Debug, PartialEq, Eq, Structural)]
pub enum Timing {
    /// Single data rate.
    Legacy,
    /// MMC high speed.
    MmcHs,
    /// SD high speed.
    SdHs,
    UhsSdr12,
    UhsSdr25,
    UhsSdr50,
    UhsSdr104,
    MmcHs200,
    MmcHs400,
}

/// What kind of card is attached.
#[derive(Clone, Copy, Debug, PartialEq, Eq, Structural)]
pub enum SdMode {
    /// A removable card.
    Sd,
    /// An embedded card.
    Emmc,
}

/// Whether the card clock may stop.
#[derive(Clone, Copy, Debug, PartialEq, Eq, Structural)]
pub enum ClockGate {
    /// The clock is forced on.
    Manual,
    /// The clock may stop when the bus is idle.
    Auto,
}

/// Whether the enhanced strobe is on.
#[derive(Clone, Copy, Debug, PartialEq, Eq, Structural)]
pub enum Hs400Strobe {
    Disable,
    Enable,
}

/// What tuning works with and what it found.
#[derive(Clone, Copy, Debug, PartialEq, Eq, Structural)]
pub struct RxTuning {
    /// The delay line in use.
    pub rx_dline_reg: u8,
    /// The window found last.
    pub windows: TuningWindow,
    /// The delay code selected last.
    pub select_delay: u8,
    /// Passing codes in a row that make a window reliable.
    pub window_limit: u16,
}

impl RxTuning {
    /// Nothing tuned yet.
    pub open spec fn initial() -> RxTuning {
        RxTuning {
            rx_dline_reg: 0,
            windows: TuningWindow { min_delay: 0, max_delay: 0 },
            select_delay: 0,
            window_limit: DEFAULT_TUNING_WINDOW_LIMIT,
        }
    }
}

impl Default for RxTuning {
    fn default() -> (tuning: Self)
        ensures
            tuning == RxTuning::initial(),
    {
        RxTuning {
            rx_dline_reg: 0,
            windows: TuningWindow { min_delay: 0, max_delay: 0 },
            select_delay: 0,
            window_limit: DEFAULT_TUNING_WINDOW_LIMIT,
        }
    }
}

/// The vendor part of a host controller.
#[derive(Clone, Copy, Debug, PartialEq, Eq, Structural)]
pub struct K3SdhciHost {
    /// Drive strength of the pads of an embedded card.
    pub phy_driver_sel: u8,
    pub rxtuning: RxTuning,
}

/// Bits that turn the PHY on.
pub const PHY_ON: u32 = regs::PHY_FUNC_EN | regs::PHY_PLL_LOCK;

/// Bits that override the card clock.
pub const CLOCK_OVERRIDE: u32 = regs::OVRRD_CLK_OEN | regs::FORCE_CLK_ON;

/// Bits of the fast embedded-card timings.
pub const FAST_TIMINGS: u32 = regs::MMC_HS400 | regs::MMC_HS200 | regs::ENHANCE_STROBE_EN;

/// The timings that use the internal transmit clock.
pub open spec fn uses_internal_clock(timing: Timing) -> bool {
    !(timing is UhsSdr104 || timing is MmcHs200 || timing is MmcHs400)
}

/// The timings that need tuning.
pub open spec fn needs_tuning(timing: Timing) -> bool {
    timing is MmcHs200 || timing is UhsSdr50 || timing is UhsSdr104
}

/// The accesses that bring the delay-locked loop up and wait for its lock.
pub open spec fn dll_init() -> Seq<Op> {
    seq![
        Op::Update {
            reg: core_reg(regs::PHY_DLLCFG),
            clear: regs::DLL_PREDLY_NUM_MASK | regs::DLL_FULLDLY_RANGE_MASK
                | regs::DLL_VREG_CTRL_MASK,
            set: regs::DLL_PREDLY_NUM_VALUE_1 | regs::DLL_FULLDLY_RANGE_VALUE_1
                | regs::DLL_VREG_CTRL_VALUE_1,
        },
        Op::Update {
            reg: core_reg(regs::PHY_DLLCFG1),
            clear: regs::DLL_REG1_CTRL_MASK,
            set: regs::DLL_REG1_CTRL_VALUE,
        },
        script::set_bits(core_reg(regs::PHY_DLLCFG), regs::DLL_ENABLE),
        Op::Poll {
            reg: core_reg(regs::PHY_DLLSTS),
            mask: regs::DLL_LOCK_STATE,
            value: regs::DLL_LOCK_STATE,
            attempts: PHY_DLL_POLL_BUDGET,
            interval_us: 0,
            patient: true,
            required: true,
        },
    ]
}

/// The accesses that set the PHY up for a kind of card.
pub open spec fn reset_ops(driver_sel: u8, mode: SdMode) -> Seq<Op> {
    match mode {
        SdMode::Emmc => seq![
            script::set_bits(core_reg(regs::PHY_CTRL), PHY_ON),
            Op::Update {
                reg: core_reg(regs::PHY_PADCFG),
                clear: regs::PHY_DRIVE_SEL_MASK,
                set: regs::RX_BIAS_CTRL | regs::phy_drive_sel(driver_sel as u32),
            },
            script::set_bits(core_reg(regs::MMC_CTRL), regs::MMC_CARD_MODE),
        ],
        SdMode::Sd => seq![script::set_bits(core_reg(regs::TX_CFG), regs::TX_INT_CLK_SEL)],
    }
}

/// The accesses that select a timing.
pub open spec fn timing_ops(timing: Timing) -> Seq<Op> {
    match timing {
        Timing::MmcHs200 => seq![script::set_bits(core_reg(regs::MMC_CTRL), regs::MMC_HS200)],
        Timing::MmcHs400 => seq![script::set_bits(core_reg(regs::MMC_CTRL), regs::MMC_HS400)],
        _ => Seq::empty(),
    }
}

/// The access that selects the transmit clock of a timing.
pub open spec fn clock_ops(timing: Timing) -> Seq<Op> {
    if uses_internal_clock(timing) {
        seq![script::set_bits(core_reg(regs::TX_CFG), regs::TX_INT_CLK_SEL)]
    } else {
        seq![script::clear_bits(core_reg(regs::TX_CFG), regs::TX_INT_CLK_SEL)]
    }
}

/// The accesses that turn the enhanced strobe on or off.
pub open spec fn strobe_ops(strobe: Hs400Strobe) -> Seq<Op> {
    match strobe {
        Hs400Strobe::Enable => seq![
            script::set_bits(core_reg(regs::MMC_CTRL), regs::ENHANCE_STROBE_EN),
        ] + dll_init(),
        Hs400Strobe::Disable => seq![
            script::clear_bits(core_reg(regs::MMC_CTRL), regs::ENHANCE_STROBE_EN),
        ],
    }
}

/// The accesses that take the bus back from HS400 to HS200.
pub open spec fn downgrade_ops() -> Seq<Op> {
    seq![
        script::clear_bits(core_reg(regs::PHY_CTRL), PHY_ON),
        script::clear_bits(core_reg(regs::MMC_CTRL), FAST_TIMINGS),
        script::clear_bits(core_reg(regs::PHY_FUNC), regs::HS200_USE_RFIFO),
        script::set_bits(core_reg(regs::PHY_CTRL), PHY_ON),
    ]
}

/// The accesses that route the receive clock through a delay line.
pub open spec fn route_ops(dline_reg: u8) -> Seq<Op> {
    seq![
        Op::Update {
            reg: core_reg(regs::DLINE_CFG),
            clear: regs::RX_DLINE_REG_MASK,
            set: dline_reg as u32,
        },
        script::set_bits(core_reg(regs::DLINE_CTRL), regs::DLINE_PU),
        Op::Update {
            reg: core_reg(regs::RX_CFG),
            clear: regs::RX_SDCLK_SEL1_MASK,
            set: regs::RX_SDCLK_SEL1_VALUE_1,
        },
    ]
}

/// The access that sets the delay code.
pub open spec fn delay_op(delay: u8) -> Op {
    Op::Update {
        reg: core_reg(regs::DLINE_CTRL),
        clear: regs::RX_DLINE_CODE_MASK,
        set: regs::rx_dline_code(delay),
    }
}

/// The code in the middle of a window: the upper one of two.
pub open spec fn middle(window: TuningWindow, scan: TuningWindowScan) -> u8 {
    (window.min_delay + scan.max_windows / 2) as u8
}

/// The host after tuning found a run that is long enough.
pub open spec fn tuned(host: K3SdhciHost, scan: TuningWindowScan) -> K3SdhciHost {
    let window = tuning::window_of(scan, host.rxtuning.window_limit).unwrap();
    K3SdhciHost {
        rxtuning: RxTuning {
            windows: window,
            select_delay: middle(window, scan),
            ..host.rxtuning
        },
        ..host
    }
}

impl K3SdhciHost {
    /// A controller with nothing set up.
    pub fn new() -> (host: K3SdhciHost)
        ensures
            host.phy_driver_sel == DEFAULT_PHY_DRIVER_SEL,
            host.rxtuning == RxTuning::initial(),
    {
        K3SdhciHost { phy_driver_sel: DEFAULT_PHY_DRIVER_SEL, rxtuning: RxTuning::default() }
    }

    /// Sets the PHY up for a kind of card. An embedded card gets the PHY, its
    /// pad drive strength and card mode; a removable one the internal transmit
    /// clock.
    pub fn reset(&self, mode: SdMode) -> (accesses: Script)
        ensures
            accesses@ == reset_ops(self.phy_driver_sel, mode),
    {
        let mut accesses = Script::new();
        match mode {
            SdMode::Emmc => {
                accesses.set(core_reg(regs::PHY_CTRL), PHY_ON);
                accesses.update(
                    core_reg(regs::PHY_PADCFG),
                    regs::PHY_DRIVE_SEL_MASK,
                    regs::RX_BIAS_CTRL | regs::phy_drive_sel(self.phy_driver_sel as u32),
                );
                accesses.set(core_reg(regs::MMC_CTRL), regs::MMC_CARD_MODE);
            },
            SdMode::Sd => {
                accesses.set(core_reg(regs::TX_CFG), regs::TX_INT_CLK_SEL);
            },
        }
        accesses
    }

    /// Selects a timing. Only HS200 and HS400 have a bit of their own.
    pub fn set_timing(&self, timing: Timing) -> (accesses: Script)
        ensures
            accesses@ == timing_ops(timing),
    {
        let mut accesses = Script::new();
        match timing {
            Timing::MmcHs200 => accesses.set(core_reg(regs::MMC_CTRL), regs::MMC_HS200),
            Timing::MmcHs400 => accesses.set(core_reg(regs::MMC_CTRL), regs::MMC_HS400),
            _ => {},
        }
        accesses
    }

    /// Lets the card clock stop, or forces it on.
    pub fn set_clock_gate(&self, gate: ClockGate) -> (accesses: Script)
        ensures
            accesses@ == seq![
                match gate {
                    ClockGate::Manual => script::set_bits(core_reg(regs::OP_EXT), CLOCK_OVERRIDE),
                    ClockGate::Auto => script::clear_bits(core_reg(regs::OP_EXT), CLOCK_OVERRIDE),
                },
            ],
    {
        let mut accesses = Script::new();
        match gate {
            ClockGate::Manual => accesses.set(core_reg(regs::OP_EXT), CLOCK_OVERRIDE),
            ClockGate::Auto => accesses.clear(core_reg(regs::OP_EXT), CLOCK_OVERRIDE),
        }
        accesses
    }

    /// Selects the transmit clock of a timing: the internal one up to SDR50.
    pub fn set_clock(&self, timing: Timing) -> (accesses: Script)
        ensures
            accesses@ == clock_ops(timing),
    {
        let mut accesses = Script::new();
        match timing {
            Timing::Legacy
            | Timing::MmcHs
            | Timing::SdHs
            | Timing::UhsSdr12
            | Timing::UhsSdr25
            | Timing::UhsSdr50 => accesses.set(core_reg(regs::TX_CFG), regs::TX_INT_CLK_SEL),
            _ => accesses.clear(core_reg(regs::TX_CFG), regs::TX_INT_CLK_SEL),
        }
        accesses
    }

    /// Brings the delay-locked loop up and waits for its lock.
    fn phy_dll_init(&self) -> (accesses: Script)
        ensures
            accesses@ == dll_init(),
    {
        let mut accesses = Script::new();
        accesses.update(
            core_reg(regs::PHY_DLLCFG),
            regs::DLL_PREDLY_NUM_MASK | regs::DLL_FULLDLY_RANGE_MASK | regs::DLL_VREG_CTRL_MASK,
            regs::DLL_PREDLY_NUM_VALUE_1 | regs::DLL_FULLDLY_RANGE_VALUE_1
                | regs::DLL_VREG_CTRL_VALUE_1,
        );
        accesses.update(
            core_reg(regs::PHY_DLLCFG1),
            regs::DLL_REG1_CTRL_MASK,
            regs::DLL_REG1_CTRL_VALUE,
        );
        accesses.set(core_reg(regs::PHY_DLLCFG), regs::DLL_ENABLE);
        accesses.push(
            Op::Poll {
                reg: core_reg(regs::PHY_DLLSTS),
                mask: regs::DLL_LOCK_STATE,
                value: regs::DLL_LOCK_STATE,
                attempts: PHY_DLL_POLL_BUDGET,
                interval_us: 0,
                patient: true,
                required: true,
            },
        );
        accesses
    }

    /// What the accesses of [`enable_hs400_strobe`](Self::enable_hs400_strobe)
    /// or [`post_hs400_config`](Self::post_hs400_config) came to: `finished` is
    /// false if the wait for the lock ran out.
    pub fn dll_result(finished: bool) -> (result: Result<(), TuningError>)
        ensures
            result == (if finished {
                Ok::<(), TuningError>(())
            } else {
                Err(TuningError::DllLockTimeout)
            }),
    {
        if finished {
            Ok(())
        } else {
            Err(TuningError::DllLockTimeout)
        }
    }

    /// Turns the enhanced strobe on or off. Turning it on brings the
    /// delay-locked loop up again.
    pub fn enable_hs400_strobe(&self, strobe: Hs400Strobe) -> (accesses: Script)
        ensures
            accesses@ == strobe_ops(strobe),
    {
        let mut accesses = Script::new();
        match strobe {
            Hs400Strobe::Enable => {
                accesses.set(core_reg(regs::MMC_CTRL), regs::ENHANCE_STROBE_EN);
                accesses.append(self.phy_dll_init());
                assert(accesses@ =~= strobe_ops(strobe));
            },
            Hs400Strobe::Disable => {
                accesses.clear(core_reg(regs::MMC_CTRL), regs::ENHANCE_STROBE_EN);
            },
        }
        accesses
    }

    /// Selects HS400 before the card switches to it.
    pub fn prepare_hs400(&self) -> (accesses: Script)
        ensures
            accesses@ == seq![script::set_bits(core_reg(regs::MMC_CTRL), regs::MMC_HS400)],
    {
        let mut accesses = Script::new();
        accesses.set(core_reg(regs::MMC_CTRL), regs::MMC_HS400);
        accesses
    }

    /// Brings the delay-locked loop up after the card has switched to HS400.
    pub fn post_hs400_config(&self) -> (accesses: Script)
        ensures
            accesses@ == dll_init(),
    {
        self.phy_dll_init()
    }

    /// Takes the bus back from HS400 to HS200: the PHY goes down, the bits of
    /// the fast timings are cleared, and the PHY comes up again.
    pub fn hs400_to_hs200(&self) -> (accesses: Script)
        ensures
            accesses@ == downgrade_ops(),
    {
        let mut accesses = Script::new();
        accesses.clear(core_reg(regs::PHY_CTRL), PHY_ON);
        accesses.clear(core_reg(regs::MMC_CTRL), FAST_TIMINGS);
        accesses.clear(core_reg(regs::PHY_FUNC), regs::HS200_USE_RFIFO);
        accesses.set(core_reg(regs::PHY_CTRL), PHY_ON);
        accesses
    }

    /// Routes the receive clock through the delay line, which tuning needs
    /// before the first code is tried. Timings without tuning need nothing.
    pub fn prepare_tuning(&self, timing: Timing) -> (accesses: Script)
        ensures
            accesses@ == (if needs_tuning(timing) {
                route_ops(self.rxtuning.rx_dline_reg)
            } else {
                Seq::empty()
            }),
    {
        match timing {
            Timing::MmcHs200 | Timing::UhsSdr50 | Timing::UhsSdr104 => self.sw_rx_tuning_prepare(
                self.rxtuning.rx_dline_reg,
            ),
            _ => Script::new(),
        }
    }

    /// Routes the receive clock through a delay line.
    fn sw_rx_tuning_prepare(&self, dline_reg: u8) -> (accesses: Script)
        ensures
            accesses@ == route_ops(dline_reg),
    {
        let mut accesses = Script::new();
        accesses.update(core_reg(regs::DLINE_CFG), regs::RX_DLINE_REG_MASK, dline_reg as u32);
        accesses.set(core_reg(regs::DLINE_CTRL), regs::DLINE_PU);
        accesses.update(
            core_reg(regs::RX_CFG),
            regs::RX_SDCLK_SEL1_MASK,
            regs::RX_SDCLK_SEL1_VALUE_1,
        );
        accesses
    }

    /// Sets the delay code.
    fn sw_rx_set_delaycode(&self, delay: u8) -> (accesses: Script)
        ensures
            accesses@ == seq![delay_op(delay)],
    {
        let mut accesses = Script::new();
        accesses.update(
            core_reg(regs::DLINE_CTRL),
            regs::RX_DLINE_CODE_MASK,
            regs::rx_dline_code(delay),
        );
        accesses
    }

    /// Selects the middle of the longest run of passing codes, if it is long
    /// enough, and returns the access that sets it.
    pub fn apply_scan(&mut self, scan: TuningWindowScan) -> (result: Result<Script, TuningError>)
        requires
            scan.max_windows <= scan.max_delay + 1,
        ensures
            match result {
                Ok(accesses) => {
                    &&& scan.max_windows >= old(self).rxtuning.window_limit
                    &&& *final(self) == tuned(*old(self), scan)
                    &&& accesses@ == seq![delay_op(final(self).rxtuning.select_delay)]
                },
                Err(error) => {
                    &&& scan.max_windows < old(self).rxtuning.window_limit
                    &&& error == (TuningError::WindowTooNarrow { max_windows: scan.max_windows })
                    &&& *final(self) == *old(self)
                },
            },
    {
        match select_tuning_window(scan, self.rxtuning.window_limit) {
            Some(window) => {
                self.rxtuning.windows = window;
                self.rxtuning.select_delay = window.min_delay + (scan.max_windows / 2) as u8;
                Ok(self.sw_rx_set_delaycode(self.rxtuning.select_delay))
            },
            None => Err(TuningError::WindowTooNarrow { max_windows: scan.max_windows }),
        }
    }

    /// Tunes the receive delay line, after the accesses of
    /// [`prepare_tuning`](Self::prepare_tuning). `test_fn` is asked once about
    /// each delay code, from 0 on, and says whether the card can be read with
    /// it. The access that is returned sets the middle of the longest run of
    /// passing codes. Timings without tuning need none.
    pub fn execute_tuning<F>(&mut self, timing: Timing, test_fn: F) -> (result: Result<
        Script,
        TuningError,
    >) where F: FnMut(u8) -> bool
        requires
            forall|delay: u8| call_requires(test_fn, (delay,)),
        ensures
            !needs_tuning(timing) ==> *final(self) == *old(self) && (result matches Ok(accesses)
                && accesses@ == Seq::<Op>::empty()),
            needs_tuning(timing) ==> exists|scan: TuningWindowScan| #[trigger]
                tuning::scanned(test_fn, scan) && match result {
                    Ok(accesses) => {
                        &&& scan.max_windows >= old(self).rxtuning.window_limit
                        &&& *final(self) == tuned(*old(self), scan)
                        &&& accesses@ == seq![delay_op(final(self).rxtuning.select_delay)]
                    },
                    Err(error) => {
                        &&& scan.max_windows < old(self).rxtuning.window_limit
                        &&& error == (TuningError::WindowTooNarrow {
                            max_windows: scan.max_windows,
                        })
                        &&& *final(self) == *old(self)
                    },
                },
    {
        let mut test_fn = test_fn;
        match timing {
            Timing::MmcHs200 | Timing::UhsSdr50 | Timing::UhsSdr104 => {
                let ghost test = test_fn;
                let scan = scan_tuning_windows(&mut test_fn);
                proof {
                    let results = choose|results: Seq<bool>| #[trigger]
                        tuning::possible_results(test, results) && results.len()
                            == tuning::RX_DELAY_CODE_MAX + 1 && tuning::longest_run(results, scan);
                    tuning::lemma_run_passes(results, scan.max_delay as int);
                }
                self.apply_scan(scan)
            },
            _ => Ok(Script::new()),
        }
    }
}

/// The delay code that tuning selects passed, and so did every code from the
/// start of the window to its end.
pub proof fn law_tuned_delay_passes(
    host: K3SdhciHost,
    results: Seq<bool>,
    scan: TuningWindowScan,
)
    requires
        results.len() <= tuning::RX_DELAY_CODE_MAX + 1,
        tuning::longest_run(results, scan),
        0 < host.rxtuning.window_limit <= scan.max_windows,
    ensures
        ({
            let found = tuned(host, scan).rxtuning;
            &&& found.windows.min_delay <= found.select_delay <= found.windows.max_delay
            &&& results[found.select_delay as int]
            &&& forall|code: int|
                found.windows.min_delay <= code <= found.windows.max_delay
                    ==> #[trigger] results[code]
        }),
{
    tuning::law_selected_window_passes(results, scan, host.rxtuning.window_limit);
}

/// Going back to HS200 leaves the PHY on, every bit of the fast timings clear
/// and the other mode bits as they were.
pub proof fn law_downgrade_clears_fast_timings(image: Map<script::Reg, u32>)
    ensures
        ({
            let left = script::settle(downgrade_ops(), image);
            let mode = core_reg(regs::MMC_CTRL);
            let phy = core_reg(regs::PHY_CTRL);
            &&& left[mode] & FAST_TIMINGS == 0
            &&& left[mode] & !FAST_TIMINGS == image[mode] & !FAST_TIMINGS
            &&& left[phy] & PHY_ON == PHY_ON
            &&& left[phy] & !PHY_ON == image[phy] & !PHY_ON
        }),
{
    reveal_with_fuel(script::settle, 5);
    let ops = downgrade_ops();
    assert(ops.drop_first().drop_first().drop_first().drop_first() =~= Seq::empty());
    lemma_cleared(image[core_reg(regs::MMC_CTRL)], FAST_TIMINGS);
    let phy = image[core_reg(regs::PHY_CTRL)];
    lemma_cleared(phy, PHY_ON);
    lemma_set(script::updated(phy, PHY_ON, 0), PHY_ON);
}

proof fn lemma_cleared(value: u32, bits: u32)
    ensures
        script::updated(value, bits, 0) & bits == 0,
        script::updated(value, bits, 0) & !bits == value & !bits,
{
    assert(((value & !bits) | 0) & bits == 0 && ((value & !bits) | 0) & !bits == value & !bits)
        by (bit_vector);
}

proof fn lemma_set(value: u32, bits: u32)
    ensures
        script::updated(value, 0, bits) & bits == bits,
        script::updated(value, 0, bits) & !bits == value & !bits,
{
    assert(((value & !0) | bits) & bits == bits && ((value & !0) | bits) & !bits == value & !bits)
        by (bit_vector);
}

/// Setting the delay code keeps the delay line powered, and the code can be
/// read back.
pub proof fn law_delay_code_reads_back(image: Map<script::Reg, u32>, delay: u8)
    ensures
        ({
            let line = core_reg(regs::DLINE_CTRL);
            let left = script::settle_op(delay_op(delay), image)[line];
            &&& left & regs::RX_DLINE_CODE_MASK == regs::rx_dline_code(delay)
            &&& left & !regs::RX_DLINE_CODE_MASK == image[line] & !regs::RX_DLINE_CODE_MASK
        }),
{
    let value = image[core_reg(regs::DLINE_CTRL)];
    assert(((value & !(0xffu32 << 16)) | ((delay as u32) << 16)) & (0xffu32 << 16) == (delay as u32)
        << 16 && ((value & !(0xffu32 << 16)) | ((delay as u32) << 16)) & !(0xffu32 << 16) == value
        & !(0xffu32 << 16)) by (bit_vector);
}

} // verus!
