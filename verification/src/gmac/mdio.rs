//! MDIO bus master of the Ethernet controller, and the bring-up of the PHY
//! behind it.
//!
//! An MDIO access is a script; its reply is `Some` of the value that the
//! script read last, or `None` if the bus master stayed busy.

use vstd::prelude::*;
use crate::gmac::regs;
use crate::gmac::regs::Mmio;
use crate::script::{Op, Script};

verus! {

/// How many times the busy bit is read before an access is given up.
pub const MDIO_TIMEOUT: u32 = 10_000;

/// Clause 22 registers.
pub const MII_BMCR: u8 = 0;
pub const MII_BMSR: u8 = 1;
pub const MII_PHYSID1: u8 = 2;
pub const MII_ADVERTISE: u8 = 4;
pub const MII_LPA: u8 = 5;
pub const MII_CTRL1000: u8 = 9;
pub const MII_STAT1000: u8 = 10;

/// Basic mode control.
pub const BMCR_RESET: u16 = 1 << 15;
pub const BMCR_ANENABLE: u16 = 1 << 12;
pub const BMCR_ANRESTART: u16 = 1 << 9;

/// Basic mode status.
pub const BMSR_ANEGCOMPLETE: u16 = 1 << 5;
pub const BMSR_LSTATUS: u16 = 1 << 2;
pub const BMSR_ESTATEN: u16 = 1 << 8;

/// 10 and 100 Mbit/s abilities.
pub const ADV_10HALF: u16 = 1 << 5;
pub const ADV_10FULL: u16 = 1 << 6;
pub const ADV_100HALF: u16 = 1 << 7;
pub const ADV_100FULL: u16 = 1 << 8;
pub const ADV_PAUSE_CAP: u16 = 1 << 10;
pub const ADV_PAUSE_ASYM: u16 = 1 << 11;

/// 1000 Mbit/s full duplex, own ability.
pub const ADV_1000FULL: u16 = 1 << 9;
/// 1000 Mbit/s full duplex, ability of the link partner.
pub const LPA_1000FULL: u16 = 1 << 11;

/// What the PHY advertises: 10 and 100 Mbit/s in both duplex modes, and pause.
pub const ADVERTISED: u16 = ADV_10HALF | ADV_10FULL | ADV_100HALF | ADV_100FULL | ADV_PAUSE_CAP
    | ADV_PAUSE_ASYM;

/// The MDIO bus master.
#[derive(Clone, Copy, Debug)]
pub struct Mdio<'a> {
    pub mmio: &'a Mmio,
    /// MDC clock divider.
    pub csr_clock_range: u32,
}

/// The 16-bit value of a read access.
pub open spec fn data(reply: Option<u32>) -> Option<u16> {
    match reply {
        Some(value) => Some((value & 0xffff) as u16),
        None => None,
    }
}

/// The value of a read access, or `missing` if it was given up.
pub open spec fn data_or(reply: Option<u32>, missing: u16) -> u16 {
    match reply {
        Some(value) => (value & 0xffff) as u16,
        None => missing,
    }
}

fn reply_or(reply: Option<u32>, missing: u16) -> (value: u16)
    ensures
        value == data_or(reply, missing),
{
    match reply {
        Some(value) => (value & 0xffff) as u16,
        None => missing,
    }
}

impl<'a> Mdio<'a> {
    /// A bus master whose MDC clock is divided by `csr_clock_range`.
    pub fn new(mmio: &'a Mmio, csr_clock_range: u32) -> (mdio: Self)
        ensures
            mdio.mmio == mmio,
            mdio.csr_clock_range == csr_clock_range,
    {
        Mdio { mmio, csr_clock_range }
    }

    /// The command word of an access.
    pub open spec fn command_word(self, phy: u8, reg: u8, op: u32) -> u32 {
        regs::MII_ADDR_GBUSY | op | (self.csr_clock_range << regs::MDIO_CSR_CLK_SHIFT) | ((
        phy as u32) << 21) | ((reg as u32) << regs::MII_GMAC4_REG_ADDR_SHIFT)
    }

    /// The command word of an access.
    pub fn command(&self, phy: u8, reg: u8, op: u32) -> (word: u32)
        ensures
            word == self.command_word(phy, reg, op),
    {
        regs::MII_ADDR_GBUSY | op | (self.csr_clock_range << regs::MDIO_CSR_CLK_SHIFT) | ((
        phy as u32) << 21) | ((reg as u32) << regs::MII_GMAC4_REG_ADDR_SHIFT)
    }

    /// Waits until the bus master is idle.
    pub open spec fn idle(self) -> Op {
        Op::Poll {
            reg: self.mmio.reg(regs::GMAC_MDIO_ADDR),
            mask: regs::MII_ADDR_GBUSY,
            value: 0,
            attempts: MDIO_TIMEOUT,
            interval_us: 0,
            patient: true,
            required: true,
        }
    }

    /// Waits until the bus master is idle.
    pub fn wait_idle(&self) -> (op: Op)
        ensures
            op == self.idle(),
    {
        Op::Poll {
            reg: crate::script::Reg {
                window: self.mmio.window,
                offset: regs::GMAC_MDIO_ADDR as usize,
            },
            mask: regs::MII_ADDR_GBUSY,
            value: 0,
            attempts: MDIO_TIMEOUT,
            interval_us: 0,
            patient: true,
            required: true,
        }
    }

    /// Reads a PHY register.
    pub open spec fn read_ops(self, phy: u8, reg: u8) -> Seq<Op> {
        seq![
            self.idle(),
            Op::Write {
                reg: self.mmio.reg(regs::GMAC_MDIO_ADDR),
                value: self.command_word(phy, reg, regs::MII_GMAC4_READ),
            },
            self.idle(),
            Op::Read { reg: self.mmio.reg(regs::GMAC_MDIO_DATA) },
        ]
    }

    /// Reads a PHY register: the value is in the low half of the word that the
    /// script reads last.
    pub fn read_c22(&self, phy: u8, reg: u8) -> (script: Script)
        ensures
            script@ == self.read_ops(phy, reg),
    {
        let mut script = Script::new();
        script.push(self.wait_idle());
        script.push(
            self.mmio.write(regs::GMAC_MDIO_ADDR, self.command(phy, reg, regs::MII_GMAC4_READ)),
        );
        script.push(self.wait_idle());
        script.push(self.mmio.read(regs::GMAC_MDIO_DATA));
        script
    }

    /// Writes a PHY register.
    pub open spec fn write_ops(self, phy: u8, reg: u8, val: u16) -> Seq<Op> {
        seq![
            self.idle(),
            Op::Write { reg: self.mmio.reg(regs::GMAC_MDIO_DATA), value: val as u32 },
            Op::Write {
                reg: self.mmio.reg(regs::GMAC_MDIO_ADDR),
                value: self.command_word(phy, reg, regs::MII_GMAC4_WRITE),
            },
            self.idle(),
        ]
    }

    /// Writes a PHY register.
    pub fn write_c22(&self, phy: u8, reg: u8, val: u16) -> (script: Script)
        ensures
            script@ == self.write_ops(phy, reg, val),
    {
        let mut script = Script::new();
        script.push(self.wait_idle());
        script.push(self.mmio.write(regs::GMAC_MDIO_DATA, val as u32));
        script.push(
            self.mmio.write(regs::GMAC_MDIO_ADDR, self.command(phy, reg, regs::MII_GMAC4_WRITE)),
        );
        script.push(self.wait_idle());
        script
    }

    /// Starts the search for a PHY.
    pub fn find_phy(&self) -> (scan: PhyScan)
        ensures
            scan == (PhyScan { addr: 0 }),
    {
        PhyScan { addr: 0 }
    }

    /// Starts the bring-up of a PHY.
    pub fn init_phy(&self, phy: u8, target_speed_mbps: u32) -> (work: PhyBringUp)
        ensures
            work == (PhyBringUp { phy, target_speed_mbps, step: PhyStep::Reset }),
    {
        PhyBringUp { phy, target_speed_mbps, step: PhyStep::Reset }
    }
}

/// How many bus addresses are searched.
pub const PHY_ADDRESSES: u8 = 8;

/// The search for a PHY: the address that is looked at.
#[derive(Clone, Copy, Debug, PartialEq, Eq, Structural)]
pub struct PhyScan {
    pub addr: u8,
}

/// What a step of the search found.
#[derive(Clone, Copy, Debug, PartialEq, Eq, Structural)]
pub enum ScanStep {
    /// The next address is to be looked at.
    Next,
    /// A PHY answered.
    Found { addr: u8 },
    /// No address has a PHY.
    NotFound,
}

/// An identifier that a PHY returns; a bus without one reads as all ones.
pub open spec fn is_phy_id(id: u16) -> bool {
    id != 0x0000 && id != 0xffff
}

/// The first of some addresses at which a PHY answered.
pub open spec fn first_phy(replies: Seq<Option<u32>>) -> Option<int>
    decreases replies.len(),
{
    if replies.len() == 0 {
        None
    } else {
        match first_phy(replies.drop_last()) {
            Some(addr) => Some(addr),
            None => if is_phy_id(data_or(replies.last(), 0xffff)) {
                Some(replies.len() - 1)
            } else {
                None
            },
        }
    }
}

impl PhyScan {
    /// Reads the identifier at the current address.
    pub fn script(&self, mdio: &Mdio) -> (script: Script)
        ensures
            script@ == mdio.read_ops(self.addr, MII_PHYSID1),
    {
        mdio.read_c22(self.addr, MII_PHYSID1)
    }

    /// Takes the reply for the current address.
    pub fn resume(&mut self, reply: Option<u32>) -> (step: ScanStep)
        requires
            old(self).addr < PHY_ADDRESSES,
        ensures
            step == (if is_phy_id(data_or(reply, 0xffff)) {
                ScanStep::Found { addr: old(self).addr }
            } else if old(self).addr + 1 < PHY_ADDRESSES {
                ScanStep::Next
            } else {
                ScanStep::NotFound
            }),
            final(self).addr == (if step is Next {
                old(self).addr + 1
            } else {
                old(self).addr as int
            }),
    {
        let id: u16 = reply_or(reply, 0xffff);
        if id != 0x0000 && id != 0xffff {
            return ScanStep::Found { addr: self.addr };
        }
        if self.addr + 1 < PHY_ADDRESSES {
            self.addr = self.addr + 1;
            ScanStep::Next
        } else {
            ScanStep::NotFound
        }
    }
}

/// Looking at one address after another finds the first one that answers: as
/// long as none of `earlier` did, the reply at the next address decides.
pub proof fn law_scan_finds_first(earlier: Seq<Option<u32>>, reply: Option<u32>)
    requires
        first_phy(earlier) is None,
    ensures
        first_phy(earlier.push(reply)) == (if is_phy_id(data_or(reply, 0xffff)) {
            Some(earlier.len() as int)
        } else {
            None
        }),
{
    assert(earlier.push(reply).drop_last() =~= earlier);
}

/// The outcome of negotiating a link.
#[derive(Clone, Copy, Debug, PartialEq, Eq, Structural)]
pub struct PhyLinkState {
    pub up: bool,
    pub aneg_complete: bool,
    pub speed_mbps: u32,
    pub full_duplex: bool,
}

/// Where the bring-up of a PHY stands. Each step is one script.
#[derive(Clone, Copy, Debug, PartialEq, Eq, Structural)]
pub enum PhyStep {
    /// Reset the PHY.
    Reset,
    /// Wait and look whether the reset is over; `left` looks remain.
    ResetWait { left: u32 },
    /// Advertise the 10 and 100 Mbit/s abilities.
    Advertise,
    /// See whether the PHY knows 1000 Mbit/s.
    Ability,
    /// Advertise 1000 Mbit/s, or withdraw it.
    Gigabit { enable: bool },
    /// Restart negotiation.
    Restart,
    /// Read the latched status away; `left` looks remain.
    NegotiationLatch { left: u32 },
    /// Look whether negotiation is over; `left` looks remain, this one included.
    Negotiation { left: u32 },
    /// Wait after a look that found it going on; `left` looks remain.
    NegotiationWait { left: u32 },
    /// Read the latched link status away.
    LinkLatch { done: bool },
    /// Read the link status.
    Link { done: bool },
    /// Read the partner's 1000 Mbit/s abilities.
    Partner1000 { done: bool, up: bool },
    /// Read the partner's 10 and 100 Mbit/s abilities.
    Partner { done: bool, up: bool, stat1000: u16 },
    /// Read the own 1000 Mbit/s abilities.
    Own1000 { done: bool, up: bool, stat1000: u16, lpa: u16 },
}

/// The bring-up of a PHY.
#[derive(Clone, Copy, Debug, PartialEq, Eq, Structural)]
pub struct PhyBringUp {
    pub phy: u8,
    pub target_speed_mbps: u32,
    pub step: PhyStep,
}

/// What follows a step of the bring-up.
#[derive(Clone, Copy, Debug, PartialEq, Eq)]
pub enum BringUp {
    /// The script of the current step is to be carried out.
    Continue,
    /// It is over, with `None` if a write to the PHY was given up.
    Done { link: Option<PhyLinkState> },
}

/// How often the end of the reset and of the negotiation is looked for.
pub const PHY_POLLS: u32 = 50;

/// Speed and duplex mode that both ends agreed on: the best one that both
/// advertise.
pub open spec fn agreed(stat1000: u16, lpa: u16, ctrl1000: u16) -> (u32, bool) {
    if stat1000 & LPA_1000FULL != 0 && ctrl1000 & ADV_1000FULL != 0 {
        (1000, true)
    } else if lpa & ADV_100FULL != 0 {
        (100, true)
    } else if lpa & ADV_100HALF != 0 {
        (100, false)
    } else if lpa & ADV_10FULL != 0 {
        (10, true)
    } else {
        (10, false)
    }
}

/// Speed and duplex mode that both ends agreed on.
pub fn negotiated(stat1000: u16, lpa: u16, ctrl1000: u16) -> (mode: (u32, bool))
    ensures
        mode == agreed(stat1000, lpa, ctrl1000),
{
    if stat1000 & LPA_1000FULL != 0 && ctrl1000 & ADV_1000FULL != 0 {
        (1000, true)
    } else if lpa & ADV_100FULL != 0 {
        (100, true)
    } else if lpa & ADV_100HALF != 0 {
        (100, false)
    } else if lpa & ADV_10FULL != 0 {
        (10, true)
    } else {
        (10, false)
    }
}

impl PhyBringUp {
    /// A poll step has at least one look left.
    pub open spec fn wf(self) -> bool {
        match self.step {
            PhyStep::ResetWait { left } => 1 <= left <= PHY_POLLS,
            PhyStep::NegotiationLatch { left } => 1 <= left <= PHY_POLLS,
            PhyStep::Negotiation { left } => 1 <= left <= PHY_POLLS,
            PhyStep::NegotiationWait { left } => left < PHY_POLLS,
            _ => true,
        }
    }

    /// The accesses of the current step.
    pub open spec fn step_ops(self, mdio: Mdio) -> Seq<Op> {
        match self.step {
            PhyStep::Reset => mdio.write_ops(self.phy, MII_BMCR, BMCR_RESET),
            PhyStep::ResetWait { .. } => seq![Op::Delay { us: 10_000 }] + mdio.read_ops(
                self.phy,
                MII_BMCR,
            ),
            PhyStep::Advertise => mdio.write_ops(self.phy, MII_ADVERTISE, ADVERTISED),
            PhyStep::Ability => mdio.read_ops(self.phy, MII_BMSR),
            PhyStep::Gigabit { enable } => mdio.write_ops(
                self.phy,
                MII_CTRL1000,
                if enable {
                    ADV_1000FULL
                } else {
                    0
                },
            ),
            PhyStep::Restart => mdio.write_ops(
                self.phy,
                MII_BMCR,
                BMCR_ANENABLE | BMCR_ANRESTART,
            ),
            PhyStep::NegotiationLatch { .. } => mdio.read_ops(self.phy, MII_BMSR),
            PhyStep::Negotiation { .. } => mdio.read_ops(self.phy, MII_BMSR),
            PhyStep::NegotiationWait { .. } => seq![Op::Delay { us: 100_000 }],
            PhyStep::LinkLatch { .. } => mdio.read_ops(self.phy, MII_BMSR),
            PhyStep::Link { .. } => mdio.read_ops(self.phy, MII_BMSR),
            PhyStep::Partner1000 { .. } => mdio.read_ops(self.phy, MII_STAT1000),
            PhyStep::Partner { .. } => mdio.read_ops(self.phy, MII_LPA),
            PhyStep::Own1000 { .. } => mdio.read_ops(self.phy, MII_CTRL1000),
        }
    }

    /// The accesses of the current step.
    pub fn script(&self, mdio: &Mdio) -> (script: Script)
        ensures
            script@ == self.step_ops(*mdio),
    {
        let phy: u8 = self.phy;
        match self.step {
            PhyStep::Reset => mdio.write_c22(phy, MII_BMCR, BMCR_RESET),
            PhyStep::ResetWait { .. } => {
                let mut script = Script::new();
                script.delay(10_000);
                script.append(mdio.read_c22(phy, MII_BMCR));
                script
            },
            PhyStep::Advertise => mdio.write_c22(phy, MII_ADVERTISE, ADVERTISED),
            PhyStep::Ability => mdio.read_c22(phy, MII_BMSR),
            PhyStep::Gigabit { enable } => {
                let ability: u16 = if enable {
                    ADV_1000FULL
                } else {
                    0
                };
                mdio.write_c22(phy, MII_CTRL1000, ability)
            },
            PhyStep::Restart => mdio.write_c22(phy, MII_BMCR, BMCR_ANENABLE | BMCR_ANRESTART),
            PhyStep::NegotiationLatch { .. } => mdio.read_c22(phy, MII_BMSR),
            PhyStep::Negotiation { .. } => mdio.read_c22(phy, MII_BMSR),
            PhyStep::NegotiationWait { .. } => {
                let mut script = Script::new();
                script.delay(100_000);
                script
            },
            PhyStep::LinkLatch { .. } => mdio.read_c22(phy, MII_BMSR),
            PhyStep::Link { .. } => mdio.read_c22(phy, MII_BMSR),
            PhyStep::Partner1000 { .. } => mdio.read_c22(phy, MII_STAT1000),
            PhyStep::Partner { .. } => mdio.read_c22(phy, MII_LPA),
            PhyStep::Own1000 { .. } => mdio.read_c22(phy, MII_CTRL1000),
        }
    }

    /// The step after the current one, `None` if the bring-up is over.
    ///
    /// A write that is given up ends it. A read that is given up counts as one
    /// that found nothing: a reset still going on, no ability, no link.
    pub open spec fn next(self, reply: Option<u32>) -> Option<PhyStep> {
        match self.step {
            PhyStep::Reset => if reply is None {
                None
            } else {
                Some(PhyStep::ResetWait { left: PHY_POLLS })
            },
            PhyStep::ResetWait { left } => if data_or(reply, 0xffff) & BMCR_RESET == 0 || left
                <= 1 {
                Some(PhyStep::Advertise)
            } else {
                Some(PhyStep::ResetWait { left: (left - 1) as u32 })
            },
            PhyStep::Advertise => if reply is None {
                None
            } else {
                Some(PhyStep::Ability)
            },
            PhyStep::Ability => Some(
                PhyStep::Gigabit {
                    enable: self.target_speed_mbps >= 1000 && data_or(reply, 0) & BMSR_ESTATEN
                        != 0,
                },
            ),
            PhyStep::Gigabit { .. } => if reply is None {
                None
            } else {
                Some(PhyStep::Restart)
            },
            PhyStep::Restart => if reply is None {
                None
            } else {
                Some(PhyStep::NegotiationLatch { left: PHY_POLLS })
            },
            PhyStep::NegotiationLatch { left } => Some(PhyStep::Negotiation { left }),
            PhyStep::Negotiation { left } => if data_or(reply, 0) & BMSR_ANEGCOMPLETE != 0 {
                Some(PhyStep::LinkLatch { done: true })
            } else {
                Some(PhyStep::NegotiationWait { left: (left - 1) as u32 })
            },
            PhyStep::NegotiationWait { left } => if left == 0 {
                Some(PhyStep::LinkLatch { done: false })
            } else {
                Some(PhyStep::NegotiationLatch { left })
            },
            PhyStep::LinkLatch { done } => Some(PhyStep::Link { done }),
            PhyStep::Link { done } => Some(
                PhyStep::Partner1000 { done, up: data_or(reply, 0) & BMSR_LSTATUS != 0 },
            ),
            PhyStep::Partner1000 { done, up } => Some(
                PhyStep::Partner { done, up, stat1000: data_or(reply, 0) },
            ),
            PhyStep::Partner { done, up, stat1000 } => Some(
                PhyStep::Own1000 { done, up, stat1000, lpa: data_or(reply, 0) },
            ),
            PhyStep::Own1000 { .. } => None,
        }
    }

    /// What the bring-up ends with if the current step is its last one.
    pub open spec fn outcome(self, reply: Option<u32>) -> Option<PhyLinkState> {
        match self.step {
            PhyStep::Own1000 { done, up, stat1000, lpa } => Some(
                PhyLinkState {
                    up,
                    aneg_complete: done,
                    speed_mbps: agreed(stat1000, lpa, data_or(reply, 0)).0,
                    full_duplex: agreed(stat1000, lpa, data_or(reply, 0)).1,
                },
            ),
            _ => None,
        }
    }

    /// How many more steps there are at most.
    pub open spec fn remaining(self) -> nat {
        match self.step {
            PhyStep::Reset => 210,
            PhyStep::ResetWait { left } => (159 + left) as nat,
            PhyStep::Advertise => 159,
            PhyStep::Ability => 158,
            PhyStep::Gigabit { .. } => 157,
            PhyStep::Restart => 156,
            PhyStep::NegotiationLatch { left } => (5 + 3 * left) as nat,
            PhyStep::Negotiation { left } => (4 + 3 * left) as nat,
            PhyStep::NegotiationWait { left } => (6 + 3 * left) as nat,
            PhyStep::LinkLatch { .. } => 5,
            PhyStep::Link { .. } => 4,
            PhyStep::Partner1000 { .. } => 3,
            PhyStep::Partner { .. } => 2,
            PhyStep::Own1000 { .. } => 1,
        }
    }

    /// Takes the reply to the current step's script and moves on. The bring-up
    /// ends after finitely many steps.
    pub fn resume(&mut self, reply: Option<u32>) -> (result: BringUp)
        requires
            old(self).wf(),
        ensures
            final(self).wf(),
            final(self).phy == old(self).phy,
            final(self).target_speed_mbps == old(self).target_speed_mbps,
            match old(self).next(reply) {
                Some(step) => result is Continue && final(self).step == step,
                None => result == (BringUp::Done { link: old(self).outcome(reply) }),
            },
            result is Continue ==> final(self).remaining() < old(self).remaining(),
    {
        let step: Option<PhyStep> = match self.step {
            PhyStep::Reset => {
                if reply.is_none() {
                    None
                } else {
                    Some(PhyStep::ResetWait { left: PHY_POLLS })
                }
            },
            PhyStep::ResetWait { left } => {
                let bmcr: u16 = reply_or(reply, 0xffff);
                if bmcr & BMCR_RESET == 0 || left <= 1 {
                    Some(PhyStep::Advertise)
                } else {
                    Some(PhyStep::ResetWait { left: left - 1 })
                }
            },
            PhyStep::Advertise => {
                if reply.is_none() {
                    None
                } else {
                    Some(PhyStep::Ability)
                }
            },
            PhyStep::Ability => {
                let bmsr: u16 = reply_or(reply, 0);
                let enable = self.target_speed_mbps >= 1000 && (bmsr & BMSR_ESTATEN) != 0;
                Some(PhyStep::Gigabit { enable })
            },
            PhyStep::Gigabit { .. } => {
                if reply.is_none() {
                    None
                } else {
                    Some(PhyStep::Restart)
                }
            },
            PhyStep::Restart => {
                if reply.is_none() {
                    None
                } else {
                    Some(PhyStep::NegotiationLatch { left: PHY_POLLS })
                }
            },
            PhyStep::NegotiationLatch { left } => Some(PhyStep::Negotiation { left }),
            PhyStep::Negotiation { left } => {
                let bmsr: u16 = reply_or(reply, 0);
                if bmsr & BMSR_ANEGCOMPLETE != 0 {
                    Some(PhyStep::LinkLatch { done: true })
                } else {
                    Some(PhyStep::NegotiationWait { left: left - 1 })
                }
            },
            PhyStep::NegotiationWait { left } => {
                if left == 0 {
                    Some(PhyStep::LinkLatch { done: false })
                } else {
                    Some(PhyStep::NegotiationLatch { left })
                }
            },
            PhyStep::LinkLatch { done } => Some(PhyStep::Link { done }),
            PhyStep::Link { done } => {
                let bmsr: u16 = reply_or(reply, 0);
                Some(PhyStep::Partner1000 { done, up: bmsr & BMSR_LSTATUS != 0 })
            },
            PhyStep::Partner1000 { done, up } => Some(
                PhyStep::Partner { done, up, stat1000: reply_or(reply, 0) },
            ),
            PhyStep::Partner { done, up, stat1000 } => Some(
                PhyStep::Own1000 { done, up, stat1000, lpa: reply_or(reply, 0) },
            ),
            PhyStep::Own1000 { done, up, stat1000, lpa } => {
                let (speed_mbps, full_duplex) = negotiated(stat1000, lpa, reply_or(reply, 0));
                return BringUp::Done {
                    link: Some(PhyLinkState { up, aneg_complete: done, speed_mbps, full_duplex }),
                };
            },
        };
        match step {
            Some(step) => {
                self.step = step;
                BringUp::Continue
            },
            None => BringUp::Done { link: None },
        }
    }
}

/// 1000 Mbit/s is advertised only if it was asked for and the PHY knows it.
pub proof fn law_gigabit_only_if_asked_and_able(work: PhyBringUp, reply: Option<u32>)
    requires
        work.step is Ability,
    ensures
        work.next(reply) == Some(PhyStep::Gigabit { enable: true }) <==> (work.target_speed_mbps
            >= 1000 && reply is Some && (reply->0 & 0xffff) as u16 & BMSR_ESTATEN != 0),
{
    assert(0u16 & BMSR_ESTATEN == 0) by (bit_vector);
}

} // verus!
