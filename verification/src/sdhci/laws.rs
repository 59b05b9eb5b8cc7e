//! What the operations of the host controller leave in its registers.
//!
//! Each law takes the accesses that an operation returned and says, for every
//! bit of every register, what it is once they were carried out.

use vstd::prelude::*;
use crate::bits;
use crate::bits::bit;
use crate::script;
use crate::script::{core_reg, Reg, Script};
use crate::sdhci::card;
use crate::sdhci::card::{
    CardError, CardInit, ErrorContext, InitAction, InitPoll, Phase, ProbeError,
};
use crate::sdhci::host;
use crate::sdhci::host::{ClockGate, Hs400Strobe, K3SdhciHost, SdMode, Timing};
use crate::sdhci::tuning::TuningWindowScan;
use crate::sdhci::vendor_ext;

verus! {

broadcast use {bits::group_bits, script::group_settle};

/// A timing sets its own bit of the card-mode register (0x114) and nothing
/// else: HS200 bit 10, HS400 bit 9, any other timing none.
pub proof fn law_timing_sets_its_own_bit(
    host: K3SdhciHost,
    timing: Timing,
    accesses: Script,
    image: Map<Reg, u32>,
    reg: Reg,
    index: u32,
)
    requires
        call_ensures(K3SdhciHost::set_timing, (&host, timing), accesses),
        index < 32,
    ensures
        bit(script::settle(accesses@, image)[reg], index) == (bit(image[reg], index) || (reg
            == core_reg(0x114) && (timing is MmcHs200 && index == 10 || timing is MmcHs400 && index
            == 9))),
{
}

/// Selecting HS400 and preparing for it do the same to every register.
pub proof fn law_hs400_is_prepared(
    host: K3SdhciHost,
    selected: Script,
    prepared: Script,
    image: Map<Reg, u32>,
    reg: Reg,
    index: u32,
)
    requires
        call_ensures(K3SdhciHost::set_timing, (&host, Timing::MmcHs400), selected),
        call_ensures(K3SdhciHost::prepare_hs400, (&host,), prepared),
        index < 32,
    ensures
        script::settle(selected@, image)[reg] == script::settle(prepared@, image)[reg],
        bit(script::settle(prepared@, image)[reg], index) == (bit(image[reg], index) || (reg
            == core_reg(0x114) && index == 9)),
{
}

/// Forcing the card clock on sets bits 11 and 12 of the clock register (0x108),
/// letting it stop clears them; no other bit changes.
pub proof fn law_clock_gate_bits(
    host: K3SdhciHost,
    gate: ClockGate,
    accesses: Script,
    image: Map<Reg, u32>,
    reg: Reg,
    index: u32,
)
    requires
        call_ensures(K3SdhciHost::set_clock_gate, (&host, gate), accesses),
        index < 32,
    ensures
        bit(script::settle(accesses@, image)[reg], index) == (if reg == core_reg(0x108) && (index
            == 11 || index == 12) {
            gate is Manual
        } else {
            bit(image[reg], index)
        }),
{
}

/// The internal transmit clock (bit 30 of 0x11C) is on exactly for the timings
/// other than SDR104, HS200 and HS400; no other bit changes.
pub proof fn law_internal_clock_bit(
    host: K3SdhciHost,
    timing: Timing,
    accesses: Script,
    image: Map<Reg, u32>,
    reg: Reg,
    index: u32,
)
    requires
        call_ensures(K3SdhciHost::set_clock, (&host, timing), accesses),
        index < 32,
    ensures
        bit(script::settle(accesses@, image)[reg], index) == (if reg == core_reg(0x11C) && index
            == 30 {
            timing is Legacy || timing is MmcHs || timing is SdHs || timing is UhsSdr12
                || timing is UhsSdr25 || timing is UhsSdr50
        } else {
            bit(image[reg], index)
        }),
{
}

/// A reset for an embedded card turns the PHY on (0x160, bits 0 and 1), gives
/// the pads the drive strength of the host and a receive bias (0x178, bits 0 to
/// 2 and bit 5) and selects card mode (0x114, bit 12); one for a removable card
/// turns the internal transmit clock on (0x11C, bit 30). No other bit changes.
pub proof fn law_reset_bits(
    host: K3SdhciHost,
    mode: SdMode,
    accesses: Script,
    image: Map<Reg, u32>,
    reg: Reg,
    index: u32,
)
    requires
        call_ensures(K3SdhciHost::reset, (&host, mode), accesses),
        index < 32,
    ensures
        bit(script::settle(accesses@, image)[reg], index) == (if mode is Emmc {
            if reg == core_reg(0x178) && index < 3 {
                bit(host.phy_driver_sel as u32, index)
            } else {
                bit(image[reg], index) || (reg == core_reg(0x160) && index < 2) || (reg == core_reg(
                    0x178,
                ) && index == 5) || (reg == core_reg(0x114) && index == 12)
            }
        } else {
            bit(image[reg], index) || (reg == core_reg(0x11C) && index == 30)
        }),
{
}

/// Disabling the enhanced strobe clears bit 8 of the card-mode register (0x114)
/// and nothing else; enabling it sets that bit.
pub proof fn law_strobe_bit(
    host: K3SdhciHost,
    strobe: Hs400Strobe,
    accesses: Script,
    image: Map<Reg, u32>,
    index: u32,
)
    requires
        call_ensures(K3SdhciHost::enable_hs400_strobe, (&host, strobe), accesses),
        index < 32,
    ensures
        bit(script::settle(accesses@, image)[core_reg(0x114)], index) == (if index == 8 {
            strobe is Enable
        } else {
            bit(image[core_reg(0x114)], index)
        }),
        strobe is Disable ==> forall|reg: Reg|
            reg != core_reg(0x114) ==> script::settle(accesses@, image)[reg] == image[reg],
{
}

/// Bringing the delay-locked loop up sets the pre-delay, the delay range and
/// the regulator (bits 2 to 7 of 0x168, two each) to 1 each, turns the loop on
/// (bit 31), puts 0x92 into the low byte of 0x16C, and changes no other bit.
pub proof fn law_delay_loop_bits(
    host: K3SdhciHost,
    accesses: Script,
    image: Map<Reg, u32>,
    reg: Reg,
    index: u32,
)
    requires
        call_ensures(K3SdhciHost::post_hs400_config, (&host,), accesses),
        index < 32,
    ensures
        bit(script::settle(accesses@, image)[reg], index) == (if reg == core_reg(0x168) && 2 <= index
            < 8 {
            index == 2 || index == 4 || index == 6
        } else if reg == core_reg(0x168) && index == 31 {
            true
        } else if reg == core_reg(0x16C) && index < 8 {
            index == 7 || index == 4 || index == 1
        } else {
            bit(image[reg], index)
        }),
        accesses@.last() == (script::Op::Poll {
            reg: core_reg(0x170),
            mask: 1,
            value: 1,
            attempts: 50,
            interval_us: 0,
            patient: true,
            required: true,
        }),
{
    bits::lemma_one();
}

/// Going back from HS400 to HS200 leaves the PHY on (0x160, bits 0 and 1),
/// clears the strobe, HS400 and HS200 bits (0x114, bits 8 to 10) and the
/// receive FIFO (0x164, bit 15), and changes no other bit.
pub proof fn law_downgrade_bits(
    host: K3SdhciHost,
    accesses: Script,
    image: Map<Reg, u32>,
    reg: Reg,
    index: u32,
)
    requires
        call_ensures(K3SdhciHost::hs400_to_hs200, (&host,), accesses),
        index < 32,
    ensures
        bit(script::settle(accesses@, image)[reg], index) == (if reg == core_reg(0x160) && index
            < 2 {
            true
        } else if reg == core_reg(0x114) && 8 <= index <= 10 {
            false
        } else if reg == core_reg(0x164) && index == 15 {
            false
        } else {
            bit(image[reg], index)
        }),
{
}

/// Tuning is prepared for HS200, SDR50 and SDR104 only: the delay line of the
/// host is selected (low byte of 0x134), powered (0x130, bit 0) and put into
/// the receive clock (0x118, bits 2 and 3 become 1); no other bit changes.
pub proof fn law_tuning_preparation_bits(
    host: K3SdhciHost,
    timing: Timing,
    accesses: Script,
    image: Map<Reg, u32>,
    reg: Reg,
    index: u32,
)
    requires
        call_ensures(K3SdhciHost::prepare_tuning, (&host, timing), accesses),
        index < 32,
    ensures
        bit(script::settle(accesses@, image)[reg], index) == (if !(timing is MmcHs200
            || timing is UhsSdr50 || timing is UhsSdr104) {
            bit(image[reg], index)
        } else if reg == core_reg(0x134) && index < 8 {
            bit(host.rxtuning.rx_dline_reg as u32, index)
        } else if reg == core_reg(0x130) && index == 0 {
            true
        } else if reg == core_reg(0x118) && 2 <= index < 4 {
            index == 2
        } else {
            bit(image[reg], index)
        }),
{
    bits::lemma_bit(host.rxtuning.rx_dline_reg as u32, 0, 0, index);
}

/// The code that tuning selects is in the middle of the run of codes that
/// passed: as many of them are below it as above, or one more below.
pub proof fn law_selected_delay_is_central(host: K3SdhciHost, scan: TuningWindowScan)
    requires
        0 < scan.max_windows <= scan.max_delay + 1,
        host.rxtuning.window_limit <= scan.max_windows,
    ensures
        ({
            let found = host::tuned(host, scan).rxtuning;
            let first = scan.max_delay - scan.max_windows + 1;
            let below = found.select_delay - first;
            let above = scan.max_delay - found.select_delay;
            &&& found.windows.min_delay == first && found.windows.max_delay == scan.max_delay
            &&& below + above + 1 == scan.max_windows
            &&& below == above || below == above + 1
            &&& found.rx_dline_reg == host.rxtuning.rx_dline_reg
            &&& found.window_limit == host.rxtuning.window_limit
        }),
{
}

/// The number of a timing.
pub open spec fn timing_number(timing: Timing) -> int {
    match timing {
        Timing::Legacy => 0,
        Timing::MmcHs => 1,
        Timing::SdHs => 2,
        Timing::UhsSdr12 => 3,
        Timing::UhsSdr25 => 4,
        Timing::UhsSdr50 => 5,
        Timing::UhsSdr104 => 6,
        Timing::MmcHs200 => 7,
        Timing::MmcHs400 => 8,
    }
}

/// Timings are numbered from 0 to 8; any other number is the legacy timing.
pub proof fn law_timing_numbers(raw: u32)
    ensures
        timing_number(vendor_ext::timing_of(raw)) == (if raw <= 8 {
            raw as int
        } else {
            0
        }),
{
}

/// A card is absent if the host says so, or if a command was not answered while
/// it was sent, waited for or used to bring the card up. Another failure stands.
pub proof fn law_absent_cards(phase: Phase, cmd: Option<u8>, error: CardError, result: ProbeError)
    requires
        ({
            let context = ErrorContext { phase, cmd };
            error == CardError::Timeout(context) || error == CardError::Crc(context) || error
                == CardError::BadResponse(context)
        }),
        call_ensures(card::card_init_error, (error,), result),
    ensures
        result == (if cmd is None || phase is DataRead || phase is DataWrite || phase is Other {
            ProbeError::Init(error)
        } else {
            ProbeError::NotMatch
        }),
        card::absent(CardError::NoCard),
        !card::absent(CardError::UnsupportedCommand) && !card::absent(CardError::Other),
{
}

/// What kind of card is tried: an SD card only if MMC is ruled out, an MMC card
/// only if SD is ruled out or the card cannot be removed, and otherwise SD first.
pub proof fn law_card_preference(no_mmc: bool, no_sd: bool, fixed: bool)
    ensures
        card::preference(no_mmc, no_sd, fixed) is SdOnly <==> no_mmc,
        card::preference(no_mmc, no_sd, fixed) is MmcOnly <==> !no_mmc && (no_sd || fixed),
        card::preference(no_mmc, no_sd, fixed) is SdFirst <==> !no_mmc && !no_sd && !fixed,
{
}

/// A bring-up that is pending waits 10 ms if it is to be paced; one that is over
/// is done or reports its error.
pub proof fn law_bring_up_actions(poll: InitPoll)
    ensures
        CardInit::action(poll) is Done <==> poll is Complete,
        CardInit::action(poll) == (InitAction::Wait { ms: 10 }) <==> poll == (InitPoll::Pending {
            needs_pace: true,
        }),
        CardInit::action(poll) is Wait || CardInit::action(poll) is Spin <==> poll is Pending,
        poll matches InitPoll::Failed(error) ==> CardInit::action(poll) == InitAction::Fail(error),
        poll is Other ==> CardInit::action(poll) == InitAction::Fail(CardError::UnsupportedCommand),
{
}

} // verus!
