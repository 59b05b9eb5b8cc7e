//! What the set-up of the USB controller leaves in its registers.

use vstd::prelude::*;
use crate::bits;
use crate::bits::bit;
use crate::script;
use crate::script::{core_reg, Op, Reg, Script, Window};
use crate::usb::dwc3;
use crate::usb::dwc3::{HostSetup, K3Dwc3Quirks, PhyError, Usb3Init, Usb3Step};

verus! {

/// The bus clock (bit 8 of 0x05c) is on and the resets (bits 9 to 11) are off
/// at the end, after having been on; no other bit changes.
pub proof fn law_clock_and_reset_bits(
    accesses: Script,
    image: Map<Reg, u32>,
    reg: Reg,
    index: u32,
)
    requires
        call_ensures(dwc3::clock_and_reset, (), accesses),
        index < 32,
    ensures
        ({
            let control = Reg { window: Window::Syscon, offset: 0x05c };
            let half = script::settle(accesses@.take(3), image);
            let after = script::settle(accesses@, image);
            &&& bit(after[reg], index) == (bit(image[reg], index) || reg == control && 8 <= index
                <= 11)
            &&& 9 <= index <= 11 ==> !bit(half[control], index)
            &&& bit(half[control], 8)
        }),
{
    broadcast use {bits::group_bits, script::group_settle};

}

/// The PHY interfaces: the SuperSpeed one neither suspends (bit 17) nor leaves
/// its state early (bit 27 of 0xc2c0); the other one (0xc200) is eight bits wide
/// (3), does not suspend (6), has the longest timeout (0 to 2) and the turnaround
/// time 9 (10 to 13), and sleeps (8) unless the quirk forbids it.
pub proof fn law_phy_interface_bits(
    quirks: K3Dwc3Quirks,
    accesses: Script,
    image: Map<Reg, u32>,
    reg: Reg,
    index: u32,
)
    requires
        call_ensures(dwc3::dwc3_phy_iface_setup, (&quirks,), accesses),
        index < 32,
    ensures
        bit(script::settle(accesses@, image)[reg], index) == (if reg == core_reg(0xc2c0) && (index
            == 17 || index == 27) {
            false
        } else if reg == core_reg(0xc200) && index < 3 {
            true
        } else if reg == core_reg(0xc200) && (index == 3 || index == 6) {
            false
        } else if reg == core_reg(0xc200) && 10 <= index < 14 {
            index == 10 || index == 13
        } else if reg == core_reg(0xc200) && index == 8 {
            !quirks.dis_enblslpm
        } else {
            bit(image[reg], index)
        }),
{
    broadcast use {bits::group_bits, script::group_settle};

}

/// The set-up as a host: no scaled-down times (bits 4 and 5 of 0xc110), the host
/// direction (12 and 13 become 1), and for the power option that the hardware
/// has: with 1 clock gating (0) off and the frame sync (10) on for revisions
/// 2.10a to 2.50a and clock gating on for others, with 2 hibernation (1). The
/// rest is what was read. The quirks are bits 28 and 17 of 0xc11c.
pub proof fn law_host_setup_bits(
    quirks: K3Dwc3Quirks,
    gctl: u32,
    option: u32,
    revision: u32,
    image: Map<Reg, u32>,
    index: u32,
)
    requires
        index < 32,
    ensures
        ({
            let setup = HostSetup::Apply { gctl, option, revision };
            let after = script::settle(setup.ops(quirks), image);
            let early = 0x5533_210a <= revision <= 0x5533_250a;
            &&& bit(after[core_reg(0xc110)], index) == (if index == 4 || index == 5 {
                false
            } else if index == 12 {
                true
            } else if index == 13 {
                false
            } else if index == 0 && option == 1 {
                early
            } else if index == 10 && option == 1 && early {
                true
            } else if index == 1 && option == 2 {
                true
            } else {
                bit(gctl, index)
            })
            &&& bit(after[core_reg(0xc11c)], index) == (bit(image[core_reg(0xc11c)], index) || index
                == 28 && quirks.dis_tx_ipgap_linecheck || index == 17 && quirks.parkmode_disable_ss)
        }),
{
    broadcast use {bits::group_bits, script::group_settle};

    lemma_host_control(gctl, option, revision, index);
}

proof fn lemma_host_control(gctl: u32, option: u32, revision: u32, index: u32)
    requires
        index < 32,
    ensures
        ({
            let early = 0x5533_210a <= revision <= 0x5533_250a;
            bit(dwc3::host_control(gctl, option, revision), index) == (if index == 4 || index == 5 {
                false
            } else if index == 0 && option == 1 {
                early
            } else if index == 10 && option == 1 && early {
                true
            } else if index == 1 && option == 2 {
                true
            } else {
                bit(gctl, index)
            })
        }),
{
    broadcast use bits::group_bits;

}

/// What the set-up as a host reads: the control (0xc110), the parameters
/// (0xc144), whose bits 24 and 25 are the power option, and for option 1 the
/// revision (0xc120).
pub proof fn law_host_setup_reads(quirks: K3Dwc3Quirks, gctl: u32, value: u32)
    ensures
        ({
            let option = (value / 0x100_0000) % 4;
            &&& HostSetup::Control.ops(quirks) == seq![Op::Read { reg: core_reg(0xc110) }]
            &&& HostSetup::Control.next(value) == (HostSetup::Params { gctl: value })
            &&& (HostSetup::Params { gctl }).ops(quirks) == seq![
                Op::Read { reg: core_reg(0xc144) },
            ]
            &&& option == 1 ==> (HostSetup::Params { gctl }).next(value) == (HostSetup::Revision {
                gctl,
            })
            &&& option != 1 ==> (HostSetup::Params { gctl }).next(value) == (HostSetup::Apply {
                gctl,
                option,
                revision: 0,
            })
            &&& (HostSetup::Revision { gctl }).ops(quirks) == seq![
                Op::Read { reg: core_reg(0xc120) },
            ]
            &&& (HostSetup::Revision { gctl }).next(value) == (HostSetup::Apply {
                gctl,
                option: 1,
                revision: value,
            })
        }),
{
}

/// The SuperSpeed PHY takes the lanes that the combo bit names (with bit 4 of
/// 0x1d8), and is given to USB (bits 16 and 17 of its override off).
pub proof fn law_lane_bits(init: Usb3Init, lane: u32, image: Map<Reg, u32>, index: u32)
    requires
        init.step is Begin,
        init.combo_bit == Some(lane),
        lane <= 2,
        index < 32,
    ensures
        ({
            let after = script::settle(init.ops(), image);
            let lanes = Reg { window: Window::Syscon, offset: 0x1d8 };
            let matrix = Reg { window: Window::Usb3Phy, offset: 0x18 };
            &&& bit(after[lanes], index) == (bit(image[lanes], index) || index == 4 || index == lane)
            &&& bit(after[matrix], index) == (bit(image[matrix], index) && index != 16 && index
                != 17)
        }),
{
    broadcast use {bits::group_bits, script::group_settle};

}

/// The SuperSpeed PHY is left alone but for its power if it says that it was set
/// up (bit 11); otherwise it is calibrated, or trimmed if that takes too long,
/// and configured. Only a PLL that does not lock fails.
pub proof fn law_phy_steps(init: Usb3Init, clocks: u32, reply: Option<u32>)
    ensures
        init.step is Begin ==> init.next(Some(clocks)) == (if bit(clocks, 11) {
            Usb3Step::PowerOn
        } else {
            Usb3Step::Calibrate
        }),
        init.step is Calibrate && reply is Some ==> init.next(reply) is Configure,
        init.step is Calibrate && reply is None ==> init.next(reply) is Trim,
        init.step is Trim ==> init.next(reply) is Configure,
        init.step is Configure && reply is Some ==> init.next(reply) is PowerOn,
        init.step is Configure && reply is None ==> init.next(reply) == (Usb3Step::Over {
            result: Err(PhyError::Usb3PllTimeout),
        }),
        init.step is PowerOn ==> init.next(reply) == (Usb3Step::Over { result: Ok(()) }),
{
    broadcast use bits::group_masks;

    assert(clocks & (1u32 << 11) != 0 <==> bit(clocks, 11));
}

/// A calibration that takes too long is overridden: both trims are on (28 and
/// 29) with 6 and 10 for their values, and the result counts as stable (30 and
/// 31). The low bits of 0x17c stay.
pub proof fn law_trim_bits(init: Usb3Init, image: Map<Reg, u32>, index: u32)
    requires
        init.step is Trim,
        index < 32,
    ensures
        ({
            let trim = Reg { window: Window::ApbSpare, offset: 0x17c };
            bit(script::settle(init.ops(), image)[trim], index) == (if index >= 28 {
                true
            } else if index >= 24 {
                index == 25 || index == 26
            } else if index >= 20 {
                index == 21 || index == 23
            } else {
                bit(image[trim], index)
            })
        }),
{
    broadcast use {bits::group_bits, script::group_settle};

}

/// The ports of the controller: their count is in bits 24 to 30 of the
/// parameters, their registers are 16 bytes apart from 0x400 on behind the
/// capabilities, and powering one off clears bit 9 of its register alone.
pub proof fn law_port_power_bits(
    caplength: u32,
    hcsparams1: u32,
    accesses: Script,
    image: Map<Reg, u32>,
    port: int,
    index: u32,
)
    requires
        call_ensures(dwc3::dwc3_power_off_roothub_ports, (caplength, hcsparams1), accesses),
        0 <= port < (hcsparams1 as int / 0x100_0000) % 128,
        index < 32,
    ensures
        ({
            let reg = core_reg((caplength % 256 + 0x400 + 0x10 * port) as usize);
            &&& accesses@.len() == (hcsparams1 as int / 0x100_0000) % 128
            &&& bit(script::settle_op(accesses@[port], image)[reg], index) == (bit(
                image[reg],
                index,
            ) && index != 9)
            &&& forall|other: Reg|
                other != reg ==> #[trigger] script::settle_op(accesses@[port], image)[other]
                    == image[other]
        }),
{
    broadcast use bits::group_bits;

}

} // verus!
