//! What the PHY is told, what its answers mean, and what the glue registers
//! become.

use vstd::prelude::*;
use crate::bits;
use crate::bits::bit;
use crate::gmac::mdio;
use crate::gmac::mdio::{Mdio, PhyBringUp, PhyLinkState, PhyStep};
use crate::gmac::syscon;
use crate::gmac::syscon::{ClockTuning, GlueConfig, GpioReset, PhyMode};
use crate::script;
use crate::script::{Op, Reg, Script, Window};

verus! {

/// The bits of PHY registers that are looked at.
proof fn lemma_phy_bits(a: u16, w: u32)
    by (bit_vector)
    ensures
        a & mdio::BMCR_RESET != 0 <==> bit(a as u32, 15),
        a & mdio::BMSR_ESTATEN != 0 <==> bit(a as u32, 8),
        a & mdio::BMSR_ANEGCOMPLETE != 0 <==> bit(a as u32, 5),
        a & mdio::BMSR_LSTATUS != 0 <==> bit(a as u32, 2),
        a & mdio::LPA_1000FULL != 0 <==> bit(a as u32, 11),
        a & mdio::ADV_1000FULL != 0 <==> bit(a as u32, 9),
        a & mdio::ADV_100FULL != 0 <==> bit(a as u32, 8),
        a & mdio::ADV_100HALF != 0 <==> bit(a as u32, 7),
        a & mdio::ADV_10FULL != 0 <==> bit(a as u32, 6),
        mdio::ADVERTISED == 0x0de0,
        mdio::BMCR_RESET == 0x8000,
        mdio::ADV_1000FULL == 0x0200,
        mdio::BMCR_ANENABLE | mdio::BMCR_ANRESTART == 0x1200,
        (w & 0xffff) as u16 == w % 0x1_0000,
        !bit(0, 8),
        !bit(0, 5),
        !bit(0, 2),
        bit(0xffff, 15),
{
}

/// The best mode that both sides have is agreed on: gigabit if the partner has
/// it (bit 11 of its status) and the PHY offered it (bit 9), then full and half
/// duplex at 100 (bits 8 and 7 of the partner's abilities), then full duplex at
/// 10 (bit 6), and half duplex at 10 otherwise.
pub proof fn law_best_common_mode(stat1000: u16, lpa: u16, ctrl1000: u16, mode: (u32, bool))
    requires
        call_ensures(mdio::negotiated, (stat1000, lpa, ctrl1000), mode),
    ensures
        ({
            let (speed, full) = mode;
            let gigabit = bit(stat1000 as u32, 11) && bit(ctrl1000 as u32, 9);
            let hundred = bit(lpa as u32, 8) || bit(lpa as u32, 7);
            &&& speed == 1000 <==> gigabit
            &&& speed == 100 <==> !gigabit && hundred
            &&& speed == 10 <==> !gigabit && !hundred
            &&& speed == 1000 ==> full
            &&& speed == 100 ==> full == bit(lpa as u32, 8)
            &&& speed == 10 ==> full == bit(lpa as u32, 6)
        }),
{
    lemma_phy_bits(stat1000, 0);
    lemma_phy_bits(lpa, 0);
    lemma_phy_bits(ctrl1000, 0);
}

/// The command of a bus access: busy (bit 0), the operation, the clock range
/// from bit 8, the register from bit 16 and the PHY from bit 21.
pub proof fn law_bus_command_bits(mdio: Mdio, phy: u8, reg: u8, op: u32, word: u32, index: u32)
    requires
        call_ensures(Mdio::command, (&mdio, phy, reg, op), word),
        phy < 32,
        reg < 32,
        op < 16,
        mdio.csr_clock_range < 16,
        index < 32,
    ensures
        bit(word, index) == (index == 0 || bit(op, index) || (8 <= index < 12 && bit(
            mdio.csr_clock_range,
            (index - 8) as u32,
        )) || (16 <= index < 21 && bit(reg as u32, (index - 16) as u32)) || (21 <= index < 26 && bit(
            phy as u32,
            (index - 21) as u32,
        ))),
{
    broadcast use bits::group_bits;

    lemma_small(mdio.csr_clock_range, phy as u32, reg as u32, index);
}

proof fn lemma_small(range: u32, phy: u32, reg: u32, index: u32)
    requires
        range < 16,
        phy < 32,
        reg < 32,
        index < 32,
    ensures
        index >= 12 ==> !bit(range, (index - 8) as u32),
        index >= 21 ==> !bit(reg, (index - 16) as u32),
        index >= 26 ==> !bit(phy, (index - 21) as u32),
{
    assert(forall|x: u32, i: u32|
        x < 16 && 4 <= i < 32 || x < 32 && 5 <= i < 32 ==> !#[trigger] bit(x, i)) by (bit_vector);
}

/// A read (operation 3 at bit 2) ends with the data register (0x204); a write
/// (operation 1) fills it first. Both wait for the bus before and after.
pub proof fn law_bus_accesses(mdio: Mdio, phy: u8, reg: u8, value: u16, read: Script, write: Script)
    requires
        call_ensures(Mdio::read_c22, (&mdio, phy, reg), read),
        call_ensures(Mdio::write_c22, (&mdio, phy, reg, value), write),
    ensures
        ({
            let address = Reg { window: mdio.mmio.window, offset: 0x200 };
            let data = Reg { window: mdio.mmio.window, offset: 0x204 };
            &&& read@.len() == 4 && write@.len() == 4
            &&& read@[1] == (Op::Write { reg: address, value: mdio.command_word(phy, reg, 3u32 << 2) })
            &&& read@[3] == (Op::Read { reg: data })
            &&& write@[1] == (Op::Write { reg: data, value: value as u32 })
            &&& write@[2] == (Op::Write {
                reg: address,
                value: mdio.command_word(phy, reg, 1u32 << 2),
            })
            &&& read@[0] == read@[2] && read@[0] == write@[0] && write@[0] == write@[3]
            &&& read@[0] matches Op::Poll { reg, mask, value, attempts, .. } && reg == address && mask
                == 1u32 << 0 && value == 0 && attempts == 10_000
        }),
{
}

/// The bring-up resets the PHY (bit 15 of register 0), offers everything but
/// gigabit (0x0de0 in register 4), offers gigabit (bit 9 of register 9) if
/// asked and able, and restarts the negotiation (bits 12 and 9 of register 0).
pub proof fn law_bring_up_writes(work: PhyBringUp, mdio: Mdio)
    ensures
        work.step is Reset ==> work.step_ops(mdio) == mdio.write_ops(work.phy, 0, 0x8000),
        work.step is Advertise ==> work.step_ops(mdio) == mdio.write_ops(work.phy, 4, 0x0de0),
        work.step matches PhyStep::Gigabit { enable } ==> work.step_ops(mdio) == mdio.write_ops(
            work.phy,
            9,
            if enable {
                0x0200
            } else {
                0
            },
        ),
        work.step is Restart ==> work.step_ops(mdio) == mdio.write_ops(work.phy, 0, 0x1200),
        work.step is Partner1000 ==> work.step_ops(mdio) == mdio.read_ops(work.phy, 10),
        work.step is Partner ==> work.step_ops(mdio) == mdio.read_ops(work.phy, 5),
        work.step is Own1000 ==> work.step_ops(mdio) == mdio.read_ops(work.phy, 9),
        work.step is Ability || work.step is Negotiation || work.step is Link ==> work.step_ops(mdio)
            == mdio.read_ops(work.phy, 1),
{
    lemma_phy_bits(0, 0);
}

/// What the bring-up makes of an answer: the reset is over when bit 15 is clear,
/// gigabit is offered if it is asked for and bit 8 says the PHY has it, the
/// negotiation is over by bit 5 and the link is up by bit 2.
pub proof fn law_bring_up_answers(work: PhyBringUp, value: u32)
    requires
        value < 0x1_0000,
        work.wf(),
    ensures
        ({
            let next = work.next(Some(value));
            &&& work.step matches PhyStep::ResetWait { left } ==> (next == Some(PhyStep::Advertise)
                <==> !bit(value, 15) || left <= 1)
            &&& work.step is Ability ==> next == Some(
                PhyStep::Gigabit { enable: work.target_speed_mbps >= 1000 && bit(value, 8) },
            )
            &&& work.step is Negotiation ==> (next == Some(PhyStep::LinkLatch { done: true })
                <==> bit(value, 5))
            &&& work.step matches PhyStep::Link { done } ==> next == Some(
                PhyStep::Partner1000 { done, up: bit(value, 2) },
            )
        }),
{
    lemma_phy_bits((value & 0xffff) as u16, value);
}

/// The link that a bring-up reports is what the answers said: the negotiation
/// and the link as they were found, and the best common mode.
pub proof fn law_reported_link(work: PhyBringUp, value: u32, mode: (u32, bool))
    requires
        value < 0x1_0000,
        work.step is Own1000,
        call_ensures(
            mdio::negotiated,
            (work.step->Own1000_stat1000, work.step->Own1000_lpa, value as u16),
            mode,
        ),
    ensures
        ({
            let (speed_mbps, full_duplex) = mode;
            work.outcome(Some(value)) == Some(
                PhyLinkState {
                    up: work.step->Own1000_up,
                    aneg_complete: work.step->Own1000_done,
                    speed_mbps,
                    full_duplex,
                },
            )
        }),
{
    lemma_phy_bits((value & 0xffff) as u16, value);
    assert((value & 0xffff) as u16 == value as u16);
}

/// What the glue register becomes: clock on (bit 0), out of reset (bit 1), the
/// interface in bits 3 and 4 (3 for MII, 0 for RMII, 1 for any RGMII), the wake
/// interrupt as asked (bit 12); the other bits stay.
pub proof fn law_glue_control_bits(
    config: GlueConfig,
    ctrl_offset: u32,
    image: Map<Reg, u32>,
    index: u32,
)
    requires
        index < 32,
    ensures
        ({
            let reg = Reg { window: Window::Syscon, offset: ctrl_offset as usize };
            let after = script::settle(config.control_sequence(ctrl_offset), image)[reg];
            bit(after, index) == (if index < 2 {
                true
            } else if index == 3 {
                !(config.phy_mode is Rmii)
            } else if index == 4 {
                config.phy_mode is Mii
            } else if index == 12 {
                config.wake_irq_enable
            } else {
                bit(image[reg], index)
            })
        }),
{
    broadcast use {bits::group_bits, script::group_settle};

}

/// The delay lines are on in both directions (bits 16 and 0); with tuning by
/// delay lines their codes are the phases, from bit 24 on for transmission and
/// from bit 8 on for reception, and otherwise they stay.
pub proof fn law_delay_line_bits(
    config: GlueConfig,
    dline_offset: u32,
    image: Map<Reg, u32>,
    index: u32,
)
    requires
        index < 32,
    ensures
        ({
            let reg = Reg { window: Window::Syscon, offset: dline_offset as usize };
            let after = script::settle_op(config.delay_line(dline_offset), image)[reg];
            let before = bit(image[reg], index);
            match config.tuning {
                ClockTuning::ByDelayLine { tx_phase, rx_phase } => bit(after, index) == (if index
                    >= 24 {
                    bit(tx_phase as u32, (index - 24) as u32)
                } else if 8 <= index < 16 {
                    bit(rx_phase as u32, (index - 8) as u32)
                } else {
                    before || index == 0 || index == 16
                }),
                _ => bit(after, index) == (before || index == 0 || index == 16),
            }
        }),
{
    broadcast use bits::group_bits;

    if let ClockTuning::ByDelayLine { tx_phase, rx_phase } = config.tuning {
        if index >= 8 {
            bits::lemma_bit(rx_phase as u32, 0, 0, (index - 8) as u32);
        }
    }
}

/// A reset of the PHY makes its pin an output, and then drives it to the level
/// that is not reset, to the one that is, and back. A pin is driven high by
/// register 0x08 and low by 0x0c of its bank.
pub proof fn law_phy_reset_levels(reset: GpioReset, accesses: Script)
    requires
        reset.valid(),
        call_ensures(GpioReset::apply, (reset,), accesses),
    ensures
        ({
            let high = Op::Write {
                reg: Reg { window: Window::Gpio, offset: (0x40 * reset.bank + 0x08) as usize },
                value: 1u32 << reset.pin,
            };
            let low = Op::Write {
                reg: Reg { window: Window::Gpio, offset: (0x40 * reset.bank + 0x0c) as usize },
                value: 1u32 << reset.pin,
            };
            let (idle, asserted) = if reset.active_low {
                (high, low)
            } else {
                (low, high)
            };
            let (before, during, after) = reset.delays_us;
            &&& accesses@.len() == 7
            &&& accesses@[0] == (Op::Write {
                reg: Reg { window: Window::Gpio, offset: (0x40 * reset.bank + 0x1c) as usize },
                value: 1u32 << reset.pin,
            })
            &&& accesses@[1] == idle
            &&& accesses@[3] == asserted
            &&& accesses@[5] == idle
            &&& accesses@[2] == (Op::Delay { us: before }) || before < 2
            &&& accesses@[4] == (Op::Delay { us: during })
            &&& accesses@[6] == (Op::Delay { us: after })
        }),
{
}

/// The interfaces by name; anything else is plain RGMII.
pub proof fn law_interface_names(name: Seq<char>)
    ensures
        PhyMode::named(None) is Rgmii,
        PhyMode::named(Some(name)) is Mii <==> name == "mii"@,
        PhyMode::named(Some(name)) is Rmii ==> name == "rmii"@,
        PhyMode::named(Some(name)) is RgmiiId ==> name == "rgmii-id"@,
        PhyMode::named(Some(name)) is RgmiiRxId ==> name == "rgmii-rxid"@,
        PhyMode::named(Some(name)) is RgmiiTxId ==> name == "rgmii-txid"@,
        name == "rmii"@ ==> PhyMode::named(Some(name)) is Rmii,
        name == "rgmii-id"@ ==> PhyMode::named(Some(name)) is RgmiiId,
        name == "rgmii-rxid"@ ==> PhyMode::named(Some(name)) is RgmiiRxId,
        name == "rgmii-txid"@ ==> PhyMode::named(Some(name)) is RgmiiTxId,
        name == "rgmii"@ ==> PhyMode::named(Some(name)) is Rgmii,
{
    reveal_strlit("mii");
    reveal_strlit("rmii");
    reveal_strlit("rgmii");
    reveal_strlit("rgmii-id");
    reveal_strlit("rgmii-rxid");
    reveal_strlit("rgmii-txid");
    assert("mii"@.len() == 3 && "rmii"@.len() == 4 && "rgmii"@.len() == 5 && "rgmii-id"@.len() == 8
        && "rgmii-rxid"@.len() == 10 && "rgmii-txid"@.len() == 10);
    assert("rgmii-rxid"@[6] == 'r' && "rgmii-txid"@[6] == 't');
}

} // verus!
