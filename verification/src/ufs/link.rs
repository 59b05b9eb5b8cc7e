//! Bringing up the PHY and the link.
//!
//! Each part of the bring-up is a plan: register accesses, waits and link
//! commands in order. A [`LinkRun`] carries a plan out, a few register
//! accesses at a time, and stops at the first step that fails and is not
//! tolerated.

use vstd::prelude::*;
use crate::script::{core_reg, Op, Script};
use crate::ufs::error::{InitFailure, UfsError};
use crate::ufs::regs;
use crate::ufs::uic::{dme_get, dme_set, UicCommand, UicNext, UicStep};

verus! {

/// One step of a plan.
#[derive(Clone, Copy, Debug, PartialEq, Eq, Structural)]
pub enum LinkOp {
    /// A register access or a wait.
    Access { op: Op },
    /// Read a register until its `mask` bits equal `value`; fail with `failure`
    /// if they do not within `attempts` reads.
    Await {
        offset: usize,
        mask: u32,
        value: u32,
        attempts: u32,
        interval_us: u32,
        failure: InitFailure,
    },
    /// A command to the link layer. The plan goes on after a failure that is
    /// `tolerated`.
    Command { command: UicCommand, tolerated: bool },
}

/// A register write.
#[verifier::allow_in_spec]
pub fn put(offset: usize, value: u32) -> (op: LinkOp)
    returns
        (LinkOp::Access { op: Op::Write { reg: core_reg(offset), value } }),
{
    LinkOp::Access { op: Op::Write { reg: core_reg(offset), value } }
}

/// A register read.
#[verifier::allow_in_spec]
pub fn peek(offset: usize) -> (op: LinkOp)
    returns
        (LinkOp::Access { op: Op::Read { reg: core_reg(offset) } }),
{
    LinkOp::Access { op: Op::Read { reg: core_reg(offset) } }
}

/// A wait.
#[verifier::allow_in_spec]
pub fn wait(us: u32) -> (op: LinkOp)
    returns
        (LinkOp::Access { op: Op::Delay { us } }),
{
    LinkOp::Access { op: Op::Delay { us } }
}

/// A read that must find bits set.
#[verifier::allow_in_spec]
pub fn expect(offset: usize, mask: u32, failure: InitFailure) -> (op: LinkOp)
    returns
        (LinkOp::Await { offset, mask, value: mask, attempts: 1, interval_us: 0, failure }),
{
    LinkOp::Await { offset, mask, value: mask, attempts: 1, interval_us: 0, failure }
}

/// An attribute that must be set.
#[verifier::allow_in_spec]
pub fn must_set(attr: u32, value: u32) -> (op: LinkOp)
    returns
        (LinkOp::Command {
            command: dme_set(regs::uic_arg_mib(attr), value),
            tolerated: false,
        }),
{
    LinkOp::Command { command: dme_set(regs::uic_arg_mib(attr), value), tolerated: false }
}

/// An attribute of a lane that must be set.
#[verifier::allow_in_spec]
pub fn set_lane(attr: u32, lane: u32, value: u32) -> (op: LinkOp)
    returns
        (LinkOp::Command {
            command: dme_set(regs::uic_arg_mib_sel(attr, lane), value),
            tolerated: false,
        }),
{
    LinkOp::Command { command: dme_set(regs::uic_arg_mib_sel(attr, lane), value), tolerated: false }
}

/// An attribute that is set if the link lets it.
#[verifier::allow_in_spec]
pub fn try_set(attr: u32, value: u32) -> (op: LinkOp)
    returns
        (LinkOp::Command {
            command: dme_set(regs::uic_arg_mib(attr), value),
            tolerated: true,
        }),
{
    LinkOp::Command { command: dme_set(regs::uic_arg_mib(attr), value), tolerated: true }
}

/// The wait for the PLL of the PHY.
#[verifier::allow_in_spec]
pub fn wait_mphy_pll_lock() -> (op: LinkOp)
    returns
        (LinkOp::Await {
            offset: 0x1B04,
            mask: regs::MPHY_PLL_LOCK_BIT,
            value: regs::MPHY_PLL_LOCK_BIT,
            attempts: 10000,
            interval_us: 10,
            failure: InitFailure::PllLock,
        }),
{
    LinkOp::Await {
        offset: regs::UFS_PHY_MNG_BASE + regs::UFS_MPHY_PU_CTRL,
        mask: regs::MPHY_PLL_LOCK_BIT,
        value: regs::MPHY_PLL_LOCK_BIT,
        attempts: 10000,
        interval_us: 10,
        failure: InitFailure::PllLock,
    }
}

/// Registers of the PHY.
pub const MPHY_PU_CTRL: usize = 0x1B04;
pub const MPHY_BKDR_CTRL: usize = 0x1B08;
pub const MPHY_DEVICE_IO_CTRL: usize = 0x1B0C;
pub const ATOP_C2: usize = 0x1F08;

/// Powers the PHY up.
pub open spec fn mphy_plan() -> Seq<LinkOp> {
    seq![
        put(regs::UFS_PHY_MNG_BASE, 0x003),
        put(MPHY_PU_CTRL, regs::MPHY_PU_ALL),
        put(MPHY_PU_CTRL, regs::MPHY_PU_WITH_HB8_RESET),
        wait(500),
        put(MPHY_PU_CTRL, regs::MPHY_PU_ALL),
        put(MPHY_DEVICE_IO_CTRL, regs::MPHY_DEVICE_RESET_DEASSERT),
        wait(1000),
        wait_mphy_pll_lock(),
        put(MPHY_BKDR_CTRL, 0x1),
        put(ATOP_C2, 0x40),
        put(MPHY_BKDR_CTRL, 0x0),
        wait(2000),
    ]
}

/// Powers the PHY up: its blocks are reset, its power is turned on with the
/// receiver held in reset for a while, the device is let out of reset, and once
/// the PLL has locked an analog setting is made.
pub fn mphy_init() -> (plan: Vec<LinkOp>)
    ensures
        plan@ == mphy_plan(),
{
    let mut plan: Vec<LinkOp> = Vec::new();
    plan.push(put(regs::UFS_PHY_MNG_BASE, 0x003));
    plan.push(put(regs::UFS_PHY_MNG_BASE + regs::UFS_MPHY_PU_CTRL, regs::MPHY_PU_ALL));
    plan.push(put(regs::UFS_PHY_MNG_BASE + regs::UFS_MPHY_PU_CTRL, regs::MPHY_PU_WITH_HB8_RESET));
    plan.push(wait(500));
    plan.push(put(regs::UFS_PHY_MNG_BASE + regs::UFS_MPHY_PU_CTRL, regs::MPHY_PU_ALL));
    plan.push(
        put(regs::UFS_PHY_MNG_BASE + regs::UFS_DEVICE_IO_CTRL, regs::MPHY_DEVICE_RESET_DEASSERT),
    );
    plan.push(wait(1000));
    plan.push(wait_mphy_pll_lock());
    plan.push(put(regs::UFS_PHY_MNG_BASE + regs::UFS_MPHY_BKDR_CTRL, 0x1));
    plan.push(put(regs::UFS_ATOP_BASE + 0xC2 * 4, 0x40));
    plan.push(put(regs::UFS_PHY_MNG_BASE + regs::UFS_MPHY_BKDR_CTRL, 0x0));
    plan.push(wait(2000));
    plan
}

/// Restarts the host controller.
pub open spec fn host_plan() -> Seq<LinkOp> {
    seq![
        peek(regs::REG_CONTROLLER_CAPABILITIES),
        peek(regs::REG_UFS_VERSION),
        put(regs::REG_CONTROLLER_ENABLE, 0),
        wait(1000),
        put(regs::REG_CONTROLLER_ENABLE, 1),
        wait(1000),
        expect(regs::REG_CONTROLLER_ENABLE, 1, InitFailure::ControllerEnable),
    ]
}

/// Restarts the host controller.
pub fn host_init() -> (plan: Vec<LinkOp>)
    ensures
        plan@ == host_plan(),
{
    let mut plan: Vec<LinkOp> = Vec::new();
    plan.push(peek(regs::REG_CONTROLLER_CAPABILITIES));
    plan.push(peek(regs::REG_UFS_VERSION));
    plan.push(put(regs::REG_CONTROLLER_ENABLE, 0));
    plan.push(wait(1000));
    plan.push(put(regs::REG_CONTROLLER_ENABLE, 1));
    plan.push(wait(1000));
    plan.push(expect(regs::REG_CONTROLLER_ENABLE, 1, InitFailure::ControllerEnable));
    plan
}

/// Sets the timers that link startup goes by, from the clock in Hz.
pub fn link_startup_pre(clock_freq: u32) -> (plan: Vec<LinkOp>)
    ensures
        plan@ == seq![
            put(regs::UFS_PA_LINK_STARTUP_TIMER, 0xFFFF_FFF0),
            put(regs::UFS_SYS1CLK_1US, clock_freq / 1_000_000),
            put(regs::UFS_TX_SYMBOL_CLK_NS_US, regs::UFS_TX_SYMBO_CLK),
            peek(regs::UFS_SYS1CLK_1US),
            peek(regs::UFS_TX_SYMBOL_CLK_NS_US),
        ],
{
    let mut plan: Vec<LinkOp> = Vec::new();
    plan.push(put(regs::UFS_PA_LINK_STARTUP_TIMER, 0xFFFF_FFF0));
    plan.push(put(regs::UFS_SYS1CLK_1US, clock_freq / 1_000_000));
    plan.push(put(regs::UFS_TX_SYMBOL_CLK_NS_US, regs::UFS_TX_SYMBO_CLK));
    plan.push(peek(regs::UFS_SYS1CLK_1US));
    plan.push(peek(regs::UFS_TX_SYMBOL_CLK_NS_US));
    plan
}

/// Attributes of the link before startup, and their values.
pub const LINK_ATTRIBUTES: [(u32, u32); 18] = [
    (regs::PA_TXHSG1SYNCLENGTH, 0x4f),
    (regs::PA_TXHSG1PREPARELENGTH, 0x0f),
    (regs::PA_TXHSG2SYNCLENGTH, 0x4f),
    (regs::PA_TXHSG2PREPARELENGTH, 0x0f),
    (regs::PA_TXHSG3SYNCLENGTH, 0x4f),
    (regs::PA_TXHSG3PREPARELENGTH, 0x0f),
    (regs::PA_TXMK2EXTENSION, 0x0),
    (regs::PA_PEERSCRAMBLING, 0x1),
    (regs::PA_TXSKIP, 0x1),
    (regs::PA_TXSKIPPERIOD, 250),
    (regs::PA_LOCAL_TX_LCC_ENABLE, 0x0),
    (regs::PA_PEER_TX_LCC_ENABLE, 0x0),
    (regs::PA_SCRAMBLING, 0x1),
    (regs::PA_GRANULARITY, 0x1),
    (regs::PA_MK2EXTENSIONGUARDBAND, 0x0),
    (regs::PA_STALLNOCONFIGTIME, 15),
    (regs::PA_TACTIVATE, 0x64),
    (regs::PA_TXTRAILINGCLOCKS, 0x64),
];

/// Attributes of the lanes before startup: the attribute, the lane selector
/// and the value. Receive lanes have the selectors 4 and 5.
pub const LANE_ATTRIBUTES: [(u32, u32, u32); 15] = [
    (regs::RX_LS_PRE_LEN_CAP, 4, 0x0b),
    (regs::RX_LS_PRE_LEN_CAP, 5, 0x0b),
    (regs::RX_LANE_HB8_BKDOOR_ATTR, 4, 0x9f),
    (regs::RX_LANE_HB8_BKDOOR_ATTR, 5, 0x9f),
    (regs::RX_PWRM_CLOSURE_LEN_CAP, 4, 15),
    (regs::RX_PWRM_CLOSURE_LEN_CAP, 5, 15),
    (regs::RX_MIN_STALL_CAP, 4, 0xff),
    (regs::RX_MIN_STALL_CAP, 5, 0xff),
    (regs::TX_HIBERN8TIME_CAP, 0, 0x64),
    (regs::TX_HIBERN8TIME_CAP, 1, 0x64),
    (regs::RX_HIBERN8TIME_CAP, 4, 0x64),
    (regs::RX_HIBERN8TIME_CAP, 5, 0x64),
    (regs::ANA_EQ_CTRL_REG_ATTR, 0, 0x5),
    (regs::RX_GARBAGE_COUNT_OFFSET, 4, 0x9f),
    (regs::RX_GARBAGE_COUNT_OFFSET, 5, 0x9f),
];

/// Sets the attributes of the link and of its lanes.
pub open spec fn unipro_plan() -> Seq<LinkOp> {
    Seq::new(18, |i: int| must_set(LINK_ATTRIBUTES[i].0, LINK_ATTRIBUTES[i].1)) + Seq::new(
        15,
        |i: int| set_lane(LANE_ATTRIBUTES[i].0, LANE_ATTRIBUTES[i].1, LANE_ATTRIBUTES[i].2),
    )
}

/// Sets the attributes of the link and of its lanes.
pub fn unipro_init() -> (plan: Vec<LinkOp>)
    ensures
        plan@ == unipro_plan(),
{
    let mut plan: Vec<LinkOp> = Vec::new();
    let link: [(u32, u32); 18] = LINK_ATTRIBUTES;
    for i in 0..link.len()
        invariant
            link == LINK_ATTRIBUTES,
            plan@.len() == i,
            forall|j: int|
                0 <= j < i ==> #[trigger] plan@[j] == must_set(LINK_ATTRIBUTES[j].0, LINK_ATTRIBUTES[j].1),
    {
        plan.push(must_set(link[i].0, link[i].1));
    }
    let ghost head = plan@;
    let lanes: [(u32, u32, u32); 15] = LANE_ATTRIBUTES;
    for i in 0..lanes.len()
        invariant
            lanes == LANE_ATTRIBUTES,
            head.len() == 18,
            plan@.len() == 18 + i,
            forall|j: int| 0 <= j < 18 ==> #[trigger] plan@[j] == head[j],
            forall|j: int|
                18 <= j < 18 + i ==> #[trigger] plan@[j] == set_lane(
                    LANE_ATTRIBUTES[j - 18].0,
                    LANE_ATTRIBUTES[j - 18].1,
                    LANE_ATTRIBUTES[j - 18].2,
                ),
    {
        plan.push(set_lane(lanes[i].0, lanes[i].1, lanes[i].2));
    }
    assert(plan@ =~= unipro_plan());
    plan
}

/// Starts the link and waits for the device.
pub open spec fn startup_plan() -> Seq<LinkOp> {
    seq![
        LinkOp::Command {
            command: UicCommand {
                cmd: regs::UIC_CMD_DME_LINK_STARTUP,
                arg1: 0,
                arg2: 0,
                arg3: 0,
            },
            tolerated: false,
        },
        LinkOp::Await {
            offset: regs::REG_CONTROLLER_STATUS,
            mask: regs::DEVICE_PRESENT,
            value: regs::DEVICE_PRESENT,
            attempts: 1000,
            interval_us: 1000,
            failure: InitFailure::DeviceAbsent,
        },
    ]
}

/// Starts the link and waits for the device.
pub fn link_startup() -> (plan: Vec<LinkOp>)
    ensures
        plan@ == startup_plan(),
{
    let mut plan: Vec<LinkOp> = Vec::new();
    plan.push(
        LinkOp::Command {
            command: UicCommand {
                cmd: regs::UIC_CMD_DME_LINK_STARTUP,
                arg1: 0,
                arg2: 0,
                arg3: 0,
            },
            tolerated: false,
        },
    );
    plan.push(
        LinkOp::Await {
            offset: regs::REG_CONTROLLER_STATUS,
            mask: regs::DEVICE_PRESENT,
            value: regs::DEVICE_PRESENT,
            attempts: 1000,
            interval_us: 1000,
            failure: InitFailure::DeviceAbsent,
        },
    );
    plan
}

/// What follows link startup.
pub open spec fn post_plan() -> Seq<LinkOp> {
    seq![
        try_set(regs::UFS_SPACEMIT_GEAR3_ATTR, 0x97),
        try_set(regs::UFS_SPACEMIT_GEAR3_ATTR, 0xd7),
        try_set(regs::UFS_SPACEMIT_GEAR3_ATTR, 0x17),
        must_set(regs::DL_AFC0REQTIMEOUTVAL, regs::UFS_DL_AFC0REQTIMEOUTVAL_MAX),
        LinkOp::Command {
            command: dme_get(regs::uic_arg_mib(regs::PA_CONNECTEDTXDATALANES)),
            tolerated: true,
        },
        peek(regs::REG_UIC_ERROR_CODE_PHY_ADAPTER_LAYER),
    ]
}

/// What follows link startup: a vendor attribute and a timeout are set, and the
/// error code that startup leaves is read away.
pub fn link_startup_post() -> (plan: Vec<LinkOp>)
    ensures
        plan@ == post_plan(),
{
    let mut plan: Vec<LinkOp> = Vec::new();
    plan.push(try_set(regs::UFS_SPACEMIT_GEAR3_ATTR, 0x97));
    plan.push(try_set(regs::UFS_SPACEMIT_GEAR3_ATTR, 0xd7));
    plan.push(try_set(regs::UFS_SPACEMIT_GEAR3_ATTR, 0x17));
    plan.push(must_set(regs::DL_AFC0REQTIMEOUTVAL, regs::UFS_DL_AFC0REQTIMEOUTVAL_MAX));
    plan.push(
        LinkOp::Command {
            command: dme_get(regs::uic_arg_mib(regs::PA_CONNECTEDTXDATALANES)),
            tolerated: true,
        },
    );
    plan.push(peek(regs::REG_UIC_ERROR_CODE_PHY_ADAPTER_LAYER));
    plan
}

/// Sets the lanes up for a change to a fast power mode.
pub fn apply_dev_quirks() -> (plan: Vec<LinkOp>)
    ensures
        plan@ == seq![
            set_lane(regs::TX_LCC_ENABLE, 0, 0),
            set_lane(regs::TX_LCC_ENABLE, 1, 0),
            set_lane(regs::TX_MIN_ACTIVATETIME, 0, 0),
            set_lane(regs::TX_MIN_ACTIVATETIME, 1, 0),
            must_set(regs::ANA_HSGEAR_CTRL_ATTR, 0x25),
            wait_mphy_pll_lock(),
        ],
{
    let mut plan: Vec<LinkOp> = Vec::new();
    plan.push(set_lane(regs::TX_LCC_ENABLE, 0, 0));
    plan.push(set_lane(regs::TX_LCC_ENABLE, 1, 0));
    plan.push(set_lane(regs::TX_MIN_ACTIVATETIME, 0, 0));
    plan.push(set_lane(regs::TX_MIN_ACTIVATETIME, 1, 0));
    plan.push(must_set(regs::ANA_HSGEAR_CTRL_ATTR, 0x25));
    plan.push(wait_mphy_pll_lock());
    plan
}

/// Reads the main registers of the controller.
pub fn dump_regs() -> (accesses: Script)
    ensures
        accesses@ == seq![
            Op::Read { reg: core_reg(regs::REG_CONTROLLER_CAPABILITIES) },
            Op::Read { reg: core_reg(regs::REG_UFS_VERSION) },
            Op::Read { reg: core_reg(regs::REG_CONTROLLER_STATUS) },
            Op::Read { reg: core_reg(regs::REG_CONTROLLER_ENABLE) },
        ],
{
    let mut accesses = Script::new();
    accesses.read(core_reg(regs::REG_CONTROLLER_CAPABILITIES));
    accesses.read(core_reg(regs::REG_UFS_VERSION));
    accesses.read(core_reg(regs::REG_CONTROLLER_STATUS));
    accesses.read(core_reg(regs::REG_CONTROLLER_ENABLE));
    accesses
}

/// Points the controller to the transfer lists and starts it.
pub open spec fn lists_plan(utrd_phys: u64, utmrd_phys: u64) -> Seq<LinkOp> {
    seq![
        put(regs::REG_UTP_TRANSFER_REQ_INT_AGG_CONTROL, 0),
        put(regs::REG_UTP_TRANSFER_REQ_LIST_BASE_L, (utrd_phys % 0x1_0000_0000) as u32),
        put(regs::REG_UTP_TRANSFER_REQ_LIST_BASE_H, (utrd_phys / 0x1_0000_0000) as u32),
        put(regs::REG_UTP_TASK_REQ_LIST_BASE_L, (utmrd_phys % 0x1_0000_0000) as u32),
        put(regs::REG_UTP_TASK_REQ_LIST_BASE_H, (utmrd_phys / 0x1_0000_0000) as u32),
        peek(regs::REG_UTP_TRANSFER_REQ_LIST_BASE_H),
        peek(regs::REG_UTP_TASK_REQ_LIST_BASE_H),
        expect(
            regs::REG_CONTROLLER_STATUS,
            regs::UFSHCD_STATUS_READY,
            InitFailure::ListsNotReady,
        ),
        put(regs::REG_UTP_TASK_REQ_LIST_RUN_STOP, 1),
        put(regs::REG_UTP_TRANSFER_REQ_LIST_RUN_STOP, 1),
        peek(regs::REG_UTP_TRANSFER_REQ_DOOR_BELL),
    ]
}

/// Points the controller to the transfer lists at the given addresses and
/// starts it. No interrupt is turned on: the ends of transfers are polled for.
pub fn program_transfer_lists(utrd_phys: u64, utmrd_phys: u64) -> (plan: Vec<LinkOp>)
    ensures
        plan@ == lists_plan(utrd_phys, utmrd_phys),
{
    let mut plan: Vec<LinkOp> = Vec::new();
    plan.push(put(regs::REG_UTP_TRANSFER_REQ_INT_AGG_CONTROL, 0));
    plan.push(put(regs::REG_UTP_TRANSFER_REQ_LIST_BASE_L, (utrd_phys % 0x1_0000_0000) as u32));
    plan.push(put(regs::REG_UTP_TRANSFER_REQ_LIST_BASE_H, (utrd_phys / 0x1_0000_0000) as u32));
    plan.push(put(regs::REG_UTP_TASK_REQ_LIST_BASE_L, (utmrd_phys % 0x1_0000_0000) as u32));
    plan.push(put(regs::REG_UTP_TASK_REQ_LIST_BASE_H, (utmrd_phys / 0x1_0000_0000) as u32));
    plan.push(peek(regs::REG_UTP_TRANSFER_REQ_LIST_BASE_H));
    plan.push(peek(regs::REG_UTP_TASK_REQ_LIST_BASE_H));
    plan.push(
        expect(
            regs::REG_CONTROLLER_STATUS,
            regs::UFSHCD_STATUS_READY,
            InitFailure::ListsNotReady,
        ),
    );
    plan.push(put(regs::REG_UTP_TASK_REQ_LIST_RUN_STOP, 1));
    plan.push(put(regs::REG_UTP_TRANSFER_REQ_LIST_RUN_STOP, 1));
    plan.push(peek(regs::REG_UTP_TRANSFER_REQ_DOOR_BELL));
    plan
}

/// Stops the controller and clears what was under way.
pub open spec fn stop_plan() -> Seq<LinkOp> {
    seq![
        put(regs::REG_UTP_TRANSFER_REQ_LIST_RUN_STOP, 0),
        put(regs::REG_UTP_TASK_REQ_LIST_RUN_STOP, 0),
        put(regs::REG_INTERRUPT_STATUS, 0xFFFF_FFFF),
        put(regs::REG_CONTROLLER_ENABLE, 0),
        LinkOp::Access {
            op: Op::Poll {
                reg: core_reg(regs::REG_CONTROLLER_ENABLE),
                mask: 1,
                value: 0,
                attempts: 100,
                interval_us: 1000,
                patient: true,
                required: false,
            },
        },
        put(regs::REG_UTP_TRANSFER_REQ_DOOR_BELL, 0),
        put(regs::REG_UTP_TASK_REQ_DOOR_BELL, 0),
    ]
}

/// Stops the controller, starts it and the link again, and points it to the
/// transfer lists.
pub open spec fn recovery_plan(utrd_phys: u64, utmrd_phys: u64) -> Seq<LinkOp> {
    stop_plan() + host_plan() + unipro_plan() + startup_plan() + post_plan() + seq![
        put(regs::REG_INTERRUPT_STATUS, 0xFFFF_FFFF),
    ] + lists_plan(utrd_phys, utmrd_phys)
}

/// Recovers the controller after a failed transfer: stops it, clears the
/// doorbells, starts it and the link again, and points it to the transfer
/// lists.
pub fn recover_controller(utrd_phys: u64, utmrd_phys: u64) -> (plan: Vec<LinkOp>)
    ensures
        plan@ == recovery_plan(utrd_phys, utmrd_phys),
{
    let mut plan: Vec<LinkOp> = Vec::new();
    plan.push(put(regs::REG_UTP_TRANSFER_REQ_LIST_RUN_STOP, 0));
    plan.push(put(regs::REG_UTP_TASK_REQ_LIST_RUN_STOP, 0));
    plan.push(put(regs::REG_INTERRUPT_STATUS, 0xFFFF_FFFF));
    plan.push(put(regs::REG_CONTROLLER_ENABLE, 0));
    plan.push(
        LinkOp::Access {
            op: Op::Poll {
                reg: core_reg(regs::REG_CONTROLLER_ENABLE),
                mask: 1,
                value: 0,
                attempts: 100,
                interval_us: 1000,
                patient: true,
                required: false,
            },
        },
    );
    plan.push(put(regs::REG_UTP_TRANSFER_REQ_DOOR_BELL, 0));
    plan.push(put(regs::REG_UTP_TASK_REQ_DOOR_BELL, 0));
    assert(plan@ =~= stop_plan());
    let mut host = host_init();
    plan.append(&mut host);
    let mut unipro = unipro_init();
    plan.append(&mut unipro);
    let mut startup = link_startup();
    plan.append(&mut startup);
    let mut post = link_startup_post();
    plan.append(&mut post);
    plan.push(put(regs::REG_INTERRUPT_STATUS, 0xFFFF_FFFF));
    assert(plan@ =~= stop_plan() + host_plan() + unipro_plan() + startup_plan() + post_plan()
        + seq![put(regs::REG_INTERRUPT_STATUS, 0xFFFF_FFFF)]);
    let mut lists = program_transfer_lists(utrd_phys, utmrd_phys);
    plan.append(&mut lists);
    plan
}

/// A plan that is carried out.
#[derive(Debug)]
pub struct LinkRun {
    pub plan: Vec<LinkOp>,
    /// The current step.
    pub pc: usize,
    /// Where the current step stands, if it is a command.
    pub uic: UicStep,
    /// The value that the last command read.
    pub last: u32,
}

/// What follows a step of a plan.
#[derive(Clone, Copy, Debug, PartialEq, Eq)]
pub enum LinkNext {
    /// The accesses of the current step are to be performed.
    Continue,
    /// The plan is over: with the value that the last command read, or with the
    /// failure of a step.
    Done(Result<u32, UfsError>),
}

impl LinkOp {
    /// The accesses of a step.
    pub open spec fn ops(self, uic: UicStep) -> Seq<Op> {
        match self {
            LinkOp::Access { op } => seq![op],
            LinkOp::Await { offset, mask, value, attempts, interval_us, .. } => seq![
                Op::Poll {
                    reg: core_reg(offset),
                    mask,
                    value,
                    attempts,
                    interval_us,
                    patient: interval_us > 0,
                    required: true,
                },
            ],
            LinkOp::Command { command, .. } => command.ops(uic),
        }
    }
}

/// What a step of a plan comes to.
pub enum StepEnd {
    /// It goes on, at this step of its command.
    More { uic: UicStep },
    /// It is over; a command may have read a value.
    Over { value: Option<u32> },
    /// It failed and the plan with it.
    Failed { error: UfsError },
}

/// What a step comes to, for what its last read returned or `None` if its wait
/// ran out.
pub open spec fn step_end(op: LinkOp, uic: UicStep, reply: Option<u32>) -> StepEnd {
    match op {
        LinkOp::Access { .. } => StepEnd::Over { value: None },
        LinkOp::Await { failure, .. } => if reply is Some {
            StepEnd::Over { value: None }
        } else {
            StepEnd::Failed { error: UfsError::Init(failure) }
        },
        LinkOp::Command { tolerated, .. } => match uic.next(reply) {
            UicNext::Step(step) => StepEnd::More { uic: step },
            UicNext::Done(Ok(value)) => StepEnd::Over { value: Some(value) },
            UicNext::Done(Err(error)) => if tolerated {
                StepEnd::Over { value: None }
            } else {
                StepEnd::Failed { error }
            },
        },
    }
}

impl LinkRun {
    /// A plan before its first step.
    pub fn new(plan: Vec<LinkOp>) -> (run: LinkRun)
        ensures
            run.plan == plan,
            run.pc == 0,
            run.uic is Send,
            run.last == 0,
    {
        LinkRun { plan, pc: 0, uic: UicStep::Send, last: 0 }
    }

    /// The plan has a step left.
    pub fn is_running(&self) -> (running: bool)
        ensures
            running == (self.pc < self.plan@.len()),
    {
        self.pc < self.plan.len()
    }

    /// How many steps of few accesses are left at most.
    pub open spec fn remaining(&self) -> nat {
        if self.pc >= self.plan@.len() {
            0
        } else {
            (4 * (self.plan@.len() - self.pc - 1) + self.uic.rank()) as nat
        }
    }

    /// The accesses of the current step.
    pub fn script(&self) -> (accesses: Script)
        requires
            self.pc < self.plan@.len(),
        ensures
            accesses@ == self.plan@[self.pc as int].ops(self.uic),
    {
        let mut accesses = Script::new();
        match self.plan[self.pc] {
            LinkOp::Access { op } => accesses.push(op),
            LinkOp::Await { offset, mask, value, attempts, interval_us, failure } => accesses.push(
                Op::Poll {
                    reg: core_reg(offset),
                    mask,
                    value,
                    attempts,
                    interval_us,
                    patient: interval_us > 0,
                    required: true,
                },
            ),
            LinkOp::Command { command, tolerated } => {
                accesses = command.script(self.uic);
            },
        }
        accesses
    }

    /// Takes what the last read of the current step returned, or `None` if its
    /// wait ran out.
    pub fn resume(&mut self, reply: Option<u32>) -> (next: LinkNext)
        requires
            old(self).pc < old(self).plan@.len(),
        ensures
            final(self).plan == old(self).plan,
            match step_end(old(self).plan@[old(self).pc as int], old(self).uic, reply) {
                StepEnd::More { uic } => next is Continue && final(self).pc == old(self).pc
                    && final(self).uic == uic && final(self).last == old(self).last,
                StepEnd::Over { value } => {
                    &&& final(self).pc == old(self).pc + 1
                    &&& final(self).uic is Send
                    &&& final(self).last == value.unwrap_or(old(self).last)
                    &&& next == (if final(self).pc < final(self).plan@.len() {
                        LinkNext::Continue
                    } else {
                        LinkNext::Done(Ok(final(self).last))
                    })
                },
                StepEnd::Failed { error } => next == LinkNext::Done(Err(error))
                    && final(self).pc == old(self).pc && final(self).uic == old(self).uic
                    && final(self).last == old(self).last,
            },
            next is Continue ==> final(self).pc < final(self).plan@.len()
                && final(self).remaining() < old(self).remaining(),
    {
        let len: usize = self.plan.len();
        match self.plan[self.pc] {
            LinkOp::Access { op } => {},
            LinkOp::Await { offset, mask, value, attempts, interval_us, failure } => {
                if reply.is_none() {
                    return LinkNext::Done(Err(UfsError::Init(failure)));
                }
            },
            LinkOp::Command { command, tolerated } => {
                match self.uic.resume(reply) {
                    UicNext::Step(step) => {
                        self.uic = step;
                        return LinkNext::Continue;
                    },
                    UicNext::Done(Ok(value)) => {
                        self.last = value;
                    },
                    UicNext::Done(Err(error)) => {
                        if !tolerated {
                            return LinkNext::Done(Err(error));
                        }
                    },
                }
            },
        }
        self.pc = self.pc + 1;
        self.uic = UicStep::Send;
        if self.pc < len {
            LinkNext::Continue
        } else {
            LinkNext::Done(Ok(self.last))
        }
    }
}

/// A recovered controller points to the same lists as a freshly set up one, and
/// the recovery ends with that.
pub proof fn law_recovery_ends_with_list_setup(utrd_phys: u64, utmrd_phys: u64)
    ensures
        ({
            let plan = recovery_plan(utrd_phys, utmrd_phys);
            let lists = lists_plan(utrd_phys, utmrd_phys);
            plan.skip(plan.len() - lists.len()) == lists
        }),
{
    let plan = recovery_plan(utrd_phys, utmrd_phys);
    let lists = lists_plan(utrd_phys, utmrd_phys);
    assert(plan.skip(plan.len() - lists.len()) =~= lists);
}

} // verus!
