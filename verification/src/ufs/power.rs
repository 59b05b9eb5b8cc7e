//! Changing the link to a fast power mode.
//!
//! What the device can do is read first. The best mode that both ends have is
//! then tried, and slower ones after it; if none works, the link stays at the
//! mode that it started in.

use vstd::prelude::*;
use crate::ufs::error::{InitFailure, UfsError};
use crate::ufs::link;
use crate::ufs::link::{expect, link_startup, link_startup_post, must_set, try_set, wait_mphy_pll_lock, LinkOp};
use crate::ufs::regs;
use crate::ufs::uic::{dme_get, dme_peer_get};

verus! {

pub const DL_FC0_PROTECTION_TIMEOUT_DEFAULT: u32 = 8191;
pub const DL_TC0_REPLAY_TIMEOUT_DEFAULT: u32 = 65535;
pub const DL_AFC0_REQ_TIMEOUT_DEFAULT: u32 = 32767;

/// A power mode of the link.
#[derive(Clone, Copy, Debug, PartialEq, Eq, Structural)]
pub struct PwrModeParams {
    pub gear_rx: u32,
    pub gear_tx: u32,
    pub lane_rx: u32,
    pub lane_tx: u32,
    pub pwr_rx: u32,
    pub pwr_tx: u32,
    pub hs_rate: u32,
}

impl PwrModeParams {
    /// A fast mode that is the same in both directions.
    #[verifier::allow_in_spec]
    pub fn fast(gear: u32, lanes: u32, rate: u32) -> (params: PwrModeParams)
        returns
            (PwrModeParams {
                gear_rx: gear,
                gear_tx: gear,
                lane_rx: lanes,
                lane_tx: lanes,
                pwr_rx: regs::PA_PWR_FAST_MODE,
                pwr_tx: regs::PA_PWR_FAST_MODE,
                hs_rate: rate,
            }),
    {
        PwrModeParams {
            gear_rx: gear,
            gear_tx: gear,
            lane_rx: lanes,
            lane_tx: lanes,
            pwr_rx: regs::PA_PWR_FAST_MODE,
            pwr_tx: regs::PA_PWR_FAST_MODE,
            hs_rate: rate,
        }
    }
}

/// Changes the power mode. Only the change itself must succeed of the
/// attributes that are set before it; after it the PLL must lock and the device
/// must still be there.
pub open spec fn change_plan(params: PwrModeParams) -> Seq<LinkOp> {
    seq![
        try_set(regs::PA_RXGEAR, params.gear_rx),
        try_set(regs::PA_ACTIVERXDATALANES, params.lane_rx),
        try_set(regs::PA_RXTERMINATION, 1),
        try_set(regs::PA_TXGEAR, params.gear_tx),
        try_set(regs::PA_ACTIVETXDATALANES, params.lane_tx),
        try_set(regs::PA_TXTERMINATION, 1),
        try_set(regs::PA_HSSERIES, params.hs_rate),
        try_set(regs::PA_PWRMODEUSERDATA0, DL_FC0_PROTECTION_TIMEOUT_DEFAULT),
        try_set(regs::PA_PWRMODEUSERDATA1, DL_TC0_REPLAY_TIMEOUT_DEFAULT),
        try_set(regs::PA_PWRMODEUSERDATA2, DL_AFC0_REQ_TIMEOUT_DEFAULT),
        try_set(regs::PA_PWRMODEUSERDATA3, DL_FC0_PROTECTION_TIMEOUT_DEFAULT),
        try_set(regs::PA_PWRMODEUSERDATA4, DL_TC0_REPLAY_TIMEOUT_DEFAULT),
        try_set(regs::PA_PWRMODEUSERDATA5, DL_AFC0_REQ_TIMEOUT_DEFAULT),
        try_set(regs::DME_LOCAL_FC0_PROTECTION_TIMEOUT, DL_FC0_PROTECTION_TIMEOUT_DEFAULT),
        try_set(regs::DME_LOCAL_TC0_REPLAY_TIMEOUT, DL_TC0_REPLAY_TIMEOUT_DEFAULT),
        try_set(regs::DME_LOCAL_AFC0_REQ_TIMEOUT, DL_AFC0_REQ_TIMEOUT_DEFAULT),
        must_set(regs::PA_PWRMODE, (params.pwr_rx << 4) | params.pwr_tx),
        wait_mphy_pll_lock(),
        expect(regs::REG_CONTROLLER_STATUS, regs::DEVICE_PRESENT, InitFailure::DeviceLost),
        must_set(regs::ANA_HSGEAR_CTRL_ATTR, 0x00),
    ]
}

/// Changes the power mode.
pub fn config_pwr_mode(params: &PwrModeParams) -> (plan: Vec<LinkOp>)
    ensures
        plan@ == change_plan(*params),
{
    let mut plan: Vec<LinkOp> = Vec::new();
    plan.push(try_set(regs::PA_RXGEAR, params.gear_rx));
    plan.push(try_set(regs::PA_ACTIVERXDATALANES, params.lane_rx));
    plan.push(try_set(regs::PA_RXTERMINATION, 1));
    plan.push(try_set(regs::PA_TXGEAR, params.gear_tx));
    plan.push(try_set(regs::PA_ACTIVETXDATALANES, params.lane_tx));
    plan.push(try_set(regs::PA_TXTERMINATION, 1));
    plan.push(try_set(regs::PA_HSSERIES, params.hs_rate));
    plan.push(try_set(regs::PA_PWRMODEUSERDATA0, DL_FC0_PROTECTION_TIMEOUT_DEFAULT));
    plan.push(try_set(regs::PA_PWRMODEUSERDATA1, DL_TC0_REPLAY_TIMEOUT_DEFAULT));
    plan.push(try_set(regs::PA_PWRMODEUSERDATA2, DL_AFC0_REQ_TIMEOUT_DEFAULT));
    plan.push(try_set(regs::PA_PWRMODEUSERDATA3, DL_FC0_PROTECTION_TIMEOUT_DEFAULT));
    plan.push(try_set(regs::PA_PWRMODEUSERDATA4, DL_TC0_REPLAY_TIMEOUT_DEFAULT));
    plan.push(try_set(regs::PA_PWRMODEUSERDATA5, DL_AFC0_REQ_TIMEOUT_DEFAULT));
    plan.push(try_set(regs::DME_LOCAL_FC0_PROTECTION_TIMEOUT, DL_FC0_PROTECTION_TIMEOUT_DEFAULT));
    plan.push(try_set(regs::DME_LOCAL_TC0_REPLAY_TIMEOUT, DL_TC0_REPLAY_TIMEOUT_DEFAULT));
    plan.push(try_set(regs::DME_LOCAL_AFC0_REQ_TIMEOUT, DL_AFC0_REQ_TIMEOUT_DEFAULT));
    plan.push(must_set(regs::PA_PWRMODE, (params.pwr_rx << 4) | params.pwr_tx));
    plan.push(wait_mphy_pll_lock());
    plan.push(expect(regs::REG_CONTROLLER_STATUS, regs::DEVICE_PRESENT, InitFailure::DeviceLost));
    plan.push(must_set(regs::ANA_HSGEAR_CTRL_ATTR, 0x00));
    plan
}

/// Takes back the analog setting for fast modes.
pub open spec fn settle_plan() -> Seq<LinkOp> {
    seq![try_set(regs::ANA_HSGEAR_CTRL_ATTR, 0x00)]
}

/// Takes back the analog setting for fast modes.
pub fn restore_ana_hsgear() -> (plan: Vec<LinkOp>)
    ensures
        plan@ == settle_plan(),
{
    let mut plan: Vec<LinkOp> = Vec::new();
    plan.push(try_set(regs::ANA_HSGEAR_CTRL_ATTR, 0x00));
    plan
}

/// Starts the link again in the mode that it starts in.
pub fn restore_pwm_link() -> (plan: Vec<LinkOp>)
    ensures
        plan@ == settle_plan() + link::startup_plan(),
{
    let mut plan = restore_ana_hsgear();
    let mut startup = link_startup();
    plan.append(&mut startup);
    plan
}

/// What the device can do in one direction.
#[derive(Clone, Copy, Debug, PartialEq, Eq, Structural)]
pub struct SideGear {
    pub gear: u32,
    /// Fast or slow.
    pub pwr: u32,
}

/// Lanes and gears of the device.
#[derive(Clone, Copy, Debug, PartialEq, Eq, Structural)]
pub struct DeviceCaps {
    pub lanes: u32,
    pub rx: SideGear,
    pub tx: SideGear,
}

/// The smaller of two numbers.
#[verifier::allow_in_spec]
pub fn least(a: u32, b: u32) -> (m: u32)
    returns
        (if a <= b {
            a
        } else {
            b
        }),
{
    if a <= b {
        a
    } else {
        b
    }
}

/// The gear and lanes to change to; `None` if the device has no fast mode.
pub open spec fn choice(caps: DeviceCaps) -> Option<(u32, u32)> {
    let gear = least(least(caps.rx.gear, caps.tx.gear), regs::UFS_HS_G3);
    let lanes = least(caps.lanes, 2);
    if caps.rx.pwr != regs::PA_PWR_FAST_MODE || caps.tx.pwr != regs::PA_PWR_FAST_MODE || gear == 0
        || lanes == 0 {
        None
    } else {
        Some((gear, lanes))
    }
}

/// The gear and lanes to change to.
pub fn choose_mode(caps: DeviceCaps) -> (chosen: Option<(u32, u32)>)
    ensures
        chosen == choice(caps),
{
    if caps.rx.pwr != regs::PA_PWR_FAST_MODE || caps.tx.pwr != regs::PA_PWR_FAST_MODE {
        return None;
    }
    let gear: u32 = least(least(caps.rx.gear, caps.tx.gear), regs::UFS_HS_G3);
    let lanes: u32 = least(caps.lanes, 2);
    if gear == 0 || lanes == 0 {
        return None;
    }
    Some((gear, lanes))
}

/// The modes to try, best first: gear and rate. The chosen gear at the faster
/// rate, then at the slower one, then the gear below at the slower rate.
pub open spec fn candidate(gear: u32, attempt: u32) -> Option<(u32, u32)> {
    if attempt == 0 {
        Some((gear, regs::PA_HS_MODE_B))
    } else if attempt == 1 {
        Some((gear, regs::PA_HS_MODE_A))
    } else if attempt == 2 && gear > regs::UFS_HS_G1 {
        Some(((gear - 1) as u32, regs::PA_HS_MODE_A))
    } else {
        None
    }
}

/// The mode to try at an attempt.
pub fn candidate_mode(gear: u32, attempt: u32) -> (mode: Option<(u32, u32)>)
    ensures
        mode == candidate(gear, attempt),
{
    if attempt == 0 {
        Some((gear, regs::PA_HS_MODE_B))
    } else if attempt == 1 {
        Some((gear, regs::PA_HS_MODE_A))
    } else if attempt == 2 && gear > regs::UFS_HS_G1 {
        Some((gear - 1, regs::PA_HS_MODE_A))
    } else {
        None
    }
}

/// Where the change to a fast mode stands.
#[derive(Clone, Copy, Debug, PartialEq, Eq, Structural)]
pub enum HsStep {
    /// Read how many receive lanes are connected, or available.
    RxConnected,
    RxAvailable,
    /// The same for transmit lanes.
    TxConnected { lane_rx: u32 },
    TxAvailable { lane_rx: u32 },
    /// Read the fast gear in receive direction, or the slow one.
    RxFast { lanes: u32 },
    RxSlow { lanes: u32 },
    /// The same in transmit direction, where the device is asked.
    TxFast { lanes: u32, rx: SideGear },
    TxSlow { lanes: u32, rx: SideGear },
    /// Take the analog setting back and stay.
    Settle,
    /// Try a mode.
    Change { gear: u32, lanes: u32, attempt: u32, mode_gear: u32, rate: u32 },
    /// Start the link again after a mode that failed.
    Restore { gear: u32, lanes: u32, attempt: u32 },
    /// Finish that start.
    Finish { gear: u32, lanes: u32, attempt: u32 },
    /// The link runs at a fast mode.
    Upgraded { gear: u32, lanes: u32, rate: u32 },
    /// The link stays as it started.
    Stayed,
}

/// The change of the link to a fast mode.
#[derive(Clone, Copy, Debug, PartialEq, Eq, Structural)]
pub struct HsUpgrade {
    /// Lanes to go by if the link does not tell.
    pub max_lanes: u32,
    pub step: HsStep,
}

/// A plan that reads an attribute.
pub open spec fn get_plan(attr: u32, peer: bool) -> Seq<LinkOp> {
    seq![
        LinkOp::Command {
            command: if peer {
                dme_peer_get(regs::uic_arg_mib(attr))
            } else {
                dme_get(regs::uic_arg_mib(attr))
            },
            tolerated: false,
        },
    ]
}

/// A plan that reads an attribute.
fn read_attribute(attr: u32, peer: bool) -> (plan: Vec<LinkOp>)
    ensures
        plan@ == get_plan(attr, peer),
{
    let mut plan: Vec<LinkOp> = Vec::new();
    let command = if peer {
        dme_peer_get(regs::uic_arg_mib(attr))
    } else {
        dme_get(regs::uic_arg_mib(attr))
    };
    plan.push(LinkOp::Command { command, tolerated: false });
    plan
}

/// The value that was read, if it is not 0.
pub open spec fn usable(outcome: Result<u32, UfsError>) -> Option<u32> {
    match outcome {
        Ok(value) => if value != 0 {
            Some(value)
        } else {
            None
        },
        Err(_) => None,
    }
}

fn usable_value(outcome: Result<u32, UfsError>) -> (value: Option<u32>)
    ensures
        value == usable(outcome),
{
    match outcome {
        Ok(value) => if value != 0 {
            Some(value)
        } else {
            None
        },
        Err(_) => None,
    }
}

impl HsUpgrade {
    /// The change before its first step. `max_lanes` are the lanes that the
    /// board has.
    pub fn new(max_lanes: u32) -> (upgrade: HsUpgrade)
        ensures
            upgrade == (HsUpgrade { max_lanes, step: HsStep::RxConnected }),
            upgrade.wf(),
    {
        HsUpgrade { max_lanes, step: HsStep::RxConnected }
    }

    /// Attempts are counted from 0 to 2.
    pub open spec fn wf(self) -> bool {
        match self.step {
            HsStep::Change { gear, attempt, mode_gear, rate, .. } => attempt <= 2 && candidate(
                gear,
                attempt,
            ) == Some((mode_gear, rate)),
            HsStep::Restore { attempt, .. } => attempt <= 2,
            HsStep::Finish { attempt, .. } => attempt <= 2,
            _ => true,
        }
    }

    /// The change is over.
    pub open spec fn is_over(self) -> bool {
        self.step is Upgraded || self.step is Stayed
    }

    /// How many plans are left at most.
    pub open spec fn remaining(self) -> nat {
        match self.step {
            HsStep::RxConnected => 18,
            HsStep::RxAvailable => 17,
            HsStep::TxConnected { .. } => 16,
            HsStep::TxAvailable { .. } => 15,
            HsStep::RxFast { .. } => 14,
            HsStep::RxSlow { .. } => 13,
            HsStep::TxFast { .. } => 12,
            HsStep::TxSlow { .. } => 11,
            HsStep::Settle => 1,
            HsStep::Change { attempt, .. } => (9 - 3 * attempt + 1) as nat,
            HsStep::Restore { attempt, .. } => (9 - 3 * attempt) as nat,
            HsStep::Finish { attempt, .. } => (8 - 3 * attempt) as nat,
            _ => 0,
        }
    }

    /// The plan of a step.
    pub open spec fn plan_of(self) -> Seq<LinkOp> {
        match self.step {
            HsStep::RxConnected => get_plan(regs::PA_CONNECTEDRXDATALANES, false),
            HsStep::RxAvailable => get_plan(regs::PA_AVAILRXDATALANES, false),
            HsStep::TxConnected { .. } => get_plan(regs::PA_CONNECTEDTXDATALANES, false),
            HsStep::TxAvailable { .. } => get_plan(regs::PA_AVAILTXDATALANES, false),
            HsStep::RxFast { .. } => get_plan(regs::PA_MAXRXHSGEAR, false),
            HsStep::RxSlow { .. } => get_plan(regs::PA_MAXRXPWMGEAR, false),
            HsStep::TxFast { .. } => get_plan(regs::PA_MAXRXHSGEAR, true),
            HsStep::TxSlow { .. } => get_plan(regs::PA_MAXRXPWMGEAR, true),
            HsStep::Settle => settle_plan(),
            HsStep::Change { lanes, mode_gear, rate, .. } => change_plan(
                PwrModeParams::fast(mode_gear, lanes, rate),
            ),
            HsStep::Restore { .. } => settle_plan() + link::startup_plan(),
            HsStep::Finish { .. } => link::post_plan(),
            HsStep::Upgraded { .. } => Seq::empty(),
            HsStep::Stayed => Seq::empty(),
        }
    }

    /// Once both lane counts are known: the smaller one, and at least one.
    pub open spec fn lanes_known(lane_rx: u32, lane_tx: u32) -> HsStep {
        let lanes = least(lane_rx, lane_tx);
        HsStep::RxFast {
            lanes: if lanes == 0 {
                1
            } else {
                lanes
            },
        }
    }

    /// The next mode to try.
    pub open spec fn attempt_step(gear: u32, lanes: u32, attempt: u32) -> HsStep {
        match candidate(gear, attempt) {
            Some((mode_gear, rate)) => HsStep::Change { gear, lanes, attempt, mode_gear, rate },
            None => HsStep::Stayed,
        }
    }

    /// Once the gears are known.
    pub open spec fn caps_known(caps: DeviceCaps) -> HsStep {
        match choice(caps) {
            Some((gear, lanes)) => HsUpgrade::attempt_step(gear, lanes, 0),
            None => HsStep::Settle,
        }
    }

    /// The step after one whose plan ended like this.
    pub open spec fn next(self, outcome: Result<u32, UfsError>) -> HsStep {
        let fast = regs::PA_PWR_FAST_MODE;
        let slow = regs::PA_PWR_SLOW_MODE;
        match self.step {
            HsStep::RxConnected => match usable(outcome) {
                Some(lane_rx) => HsStep::TxConnected { lane_rx },
                None => HsStep::RxAvailable,
            },
            HsStep::RxAvailable => HsStep::TxConnected {
                lane_rx: usable(outcome).unwrap_or(self.max_lanes),
            },
            HsStep::TxConnected { lane_rx } => match usable(outcome) {
                Some(lane_tx) => HsUpgrade::lanes_known(lane_rx, lane_tx),
                None => HsStep::TxAvailable { lane_rx },
            },
            HsStep::TxAvailable { lane_rx } => HsUpgrade::lanes_known(
                lane_rx,
                usable(outcome).unwrap_or(self.max_lanes),
            ),
            HsStep::RxFast { lanes } => match usable(outcome) {
                Some(gear) => HsStep::TxFast { lanes, rx: SideGear { gear, pwr: fast } },
                None => HsStep::RxSlow { lanes },
            },
            HsStep::RxSlow { lanes } => match usable(outcome) {
                Some(gear) => HsStep::TxFast { lanes, rx: SideGear { gear, pwr: slow } },
                None => HsStep::Settle,
            },
            HsStep::TxFast { lanes, rx } => match usable(outcome) {
                Some(gear) => HsUpgrade::caps_known(
                    DeviceCaps { lanes, rx, tx: SideGear { gear, pwr: fast } },
                ),
                None => HsStep::TxSlow { lanes, rx },
            },
            HsStep::TxSlow { lanes, rx } => match usable(outcome) {
                Some(gear) => HsUpgrade::caps_known(
                    DeviceCaps { lanes, rx, tx: SideGear { gear, pwr: slow } },
                ),
                None => HsStep::Settle,
            },
            HsStep::Settle => HsStep::Stayed,
            HsStep::Change { gear, lanes, attempt, mode_gear, rate } => if outcome is Ok {
                HsStep::Upgraded { gear: mode_gear, lanes, rate }
            } else {
                HsStep::Restore { gear, lanes, attempt }
            },
            HsStep::Restore { gear, lanes, attempt } => if outcome is Ok {
                HsStep::Finish { gear, lanes, attempt }
            } else {
                HsStep::Stayed
            },
            HsStep::Finish { gear, lanes, attempt } => HsUpgrade::attempt_step(
                gear,
                lanes,
                (attempt + 1) as u32,
            ),
            HsStep::Upgraded { .. } => self.step,
            HsStep::Stayed => self.step,
        }
    }

    /// The plan of the current step.
    pub fn plan(&self) -> (plan: Vec<LinkOp>)
        ensures
            plan@ == self.plan_of(),
    {
        match self.step {
            HsStep::RxConnected => read_attribute(regs::PA_CONNECTEDRXDATALANES, false),
            HsStep::RxAvailable => read_attribute(regs::PA_AVAILRXDATALANES, false),
            HsStep::TxConnected { .. } => read_attribute(regs::PA_CONNECTEDTXDATALANES, false),
            HsStep::TxAvailable { .. } => read_attribute(regs::PA_AVAILTXDATALANES, false),
            HsStep::RxFast { .. } => read_attribute(regs::PA_MAXRXHSGEAR, false),
            HsStep::RxSlow { .. } => read_attribute(regs::PA_MAXRXPWMGEAR, false),
            HsStep::TxFast { .. } => read_attribute(regs::PA_MAXRXHSGEAR, true),
            HsStep::TxSlow { .. } => read_attribute(regs::PA_MAXRXPWMGEAR, true),
            HsStep::Settle => restore_ana_hsgear(),
            HsStep::Change { lanes, mode_gear, rate, .. } => config_pwr_mode(
                &PwrModeParams::fast(mode_gear, lanes, rate),
            ),
            HsStep::Restore { .. } => restore_pwm_link(),
            HsStep::Finish { .. } => link_startup_post(),
            HsStep::Upgraded { .. } => Vec::new(),
            HsStep::Stayed => Vec::new(),
        }
    }

    /// Takes what the plan of the current step came to.
    pub fn resume(&mut self, outcome: Result<u32, UfsError>)
        requires
            old(self).wf(),
        ensures
            final(self).step == old(self).next(outcome),
            final(self).max_lanes == old(self).max_lanes,
            final(self).wf(),
            !old(self).is_over() ==> final(self).remaining() < old(self).remaining(),
    {
        let value = usable_value(outcome);
        let fast: u32 = regs::PA_PWR_FAST_MODE;
        let slow: u32 = regs::PA_PWR_SLOW_MODE;
        self.step = match self.step {
            HsStep::RxConnected => match value {
                Some(lane_rx) => HsStep::TxConnected { lane_rx },
                None => HsStep::RxAvailable,
            },
            HsStep::RxAvailable => HsStep::TxConnected { lane_rx: self.lanes_or_board(value) },
            HsStep::TxConnected { lane_rx } => match value {
                Some(lane_tx) => HsUpgrade::with_lanes(lane_rx, lane_tx),
                None => HsStep::TxAvailable { lane_rx },
            },
            HsStep::TxAvailable { lane_rx } => HsUpgrade::with_lanes(
                lane_rx,
                self.lanes_or_board(value),
            ),
            HsStep::RxFast { lanes } => match value {
                Some(gear) => HsStep::TxFast { lanes, rx: SideGear { gear, pwr: fast } },
                None => HsStep::RxSlow { lanes },
            },
            HsStep::RxSlow { lanes } => match value {
                Some(gear) => HsStep::TxFast { lanes, rx: SideGear { gear, pwr: slow } },
                None => HsStep::Settle,
            },
            HsStep::TxFast { lanes, rx } => match value {
                Some(gear) => HsUpgrade::with_caps(
                    DeviceCaps { lanes, rx, tx: SideGear { gear, pwr: fast } },
                ),
                None => HsStep::TxSlow { lanes, rx },
            },
            HsStep::TxSlow { lanes, rx } => match value {
                Some(gear) => HsUpgrade::with_caps(
                    DeviceCaps { lanes, rx, tx: SideGear { gear, pwr: slow } },
                ),
                None => HsStep::Settle,
            },
            HsStep::Settle => HsStep::Stayed,
            HsStep::Change { gear, lanes, attempt, mode_gear, rate } => if outcome.is_ok() {
                HsStep::Upgraded { gear: mode_gear, lanes, rate }
            } else {
                HsStep::Restore { gear, lanes, attempt }
            },
            HsStep::Restore { gear, lanes, attempt } => if outcome.is_ok() {
                HsStep::Finish { gear, lanes, attempt }
            } else {
                HsStep::Stayed
            },
            HsStep::Finish { gear, lanes, attempt } => HsUpgrade::try_mode(
                gear,
                lanes,
                attempt + 1,
            ),
            HsStep::Upgraded { gear, lanes, rate } => HsStep::Upgraded { gear, lanes, rate },
            HsStep::Stayed => HsStep::Stayed,
        };
    }

    fn lanes_or_board(&self, value: Option<u32>) -> (lanes: u32)
        ensures
            lanes == value.unwrap_or(self.max_lanes),
    {
        match value {
            Some(lanes) => lanes,
            None => self.max_lanes,
        }
    }

    fn with_lanes(lane_rx: u32, lane_tx: u32) -> (step: HsStep)
        ensures
            step == HsUpgrade::lanes_known(lane_rx, lane_tx),
    {
        let lanes: u32 = least(lane_rx, lane_tx);
        HsStep::RxFast {
            lanes: if lanes == 0 {
                1
            } else {
                lanes
            },
        }
    }

    fn with_caps(caps: DeviceCaps) -> (step: HsStep)
        ensures
            step == HsUpgrade::caps_known(caps),
    {
        match choose_mode(caps) {
            Some((gear, lanes)) => HsUpgrade::try_mode(gear, lanes, 0),
            None => HsStep::Settle,
        }
    }

    fn try_mode(gear: u32, lanes: u32, attempt: u32) -> (step: HsStep)
        ensures
            step == HsUpgrade::attempt_step(gear, lanes, attempt),
    {
        match candidate_mode(gear, attempt) {
            Some((mode_gear, rate)) => HsStep::Change { gear, lanes, attempt, mode_gear, rate },
            None => HsStep::Stayed,
        }
    }
}

/// The chosen mode is one that both ends have: no gear is higher than either
/// direction of the device or than gear 3, and no more lanes are used than the
/// device has, nor more than two.
pub proof fn law_choice_is_within_capabilities(caps: DeviceCaps)
    ensures
        choice(caps) matches Some((gear, lanes)) ==> {
            &&& 1 <= gear <= caps.rx.gear
            &&& gear <= caps.tx.gear
            &&& gear <= regs::UFS_HS_G3
            &&& 1 <= lanes <= caps.lanes
            &&& lanes <= 2
        },
{
}

/// Modes are tried from the most capable down, and never with a gear above the
/// chosen one or below the first.
pub proof fn law_candidates_get_slower(gear: u32, attempt: u32)
    requires
        gear >= 1,
        candidate(gear, attempt) is Some,
        attempt > 0,
    ensures
        candidate(gear, (attempt - 1) as u32) is Some,
        ({
            let (now, rate) = candidate(gear, attempt).unwrap();
            let (before, rate_before) = candidate(gear, (attempt - 1) as u32).unwrap();
            &&& 1 <= now <= before <= gear
            &&& rate <= rate_before
            &&& now < before || rate < rate_before
        }),
{
}

} // verus!
