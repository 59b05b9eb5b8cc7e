//! What pin settings leave in the registers.

use vstd::prelude::*;
use crate::bits;
use crate::bits::bit;
use crate::pinctrl::controller::{
    K3Pinctrl, K3_PIN_CONFIG_DRIVE_WITH_VOLTAGE, K3_PIN_CONFIG_INPUT_SCHMITT,
    K3_PIN_CONFIG_POWER_SOURCE, K3_PIN_CONFIG_STRONG_PULL,
};
use crate::pinctrl::fdt_parser::{
    bias_configs, cell_mux, drive_configs, schmitt_configs, K3Bias,
};
use crate::pinctrl::regs;
use crate::pinctrl::state::{
    Bias, ConfigSetting, ConfigTarget, MuxSetting, PinConfig, PinState, PinctrlError,
};
use crate::script;
use crate::script::{Op, Reg, Script, Window};

verus! {

broadcast use {bits::group_bits, script::group_settle};

/// The pin has an IO bank: all but pins 42 to 75 and 128 to 131.
pub open spec fn has_bank(pin: u32) -> bool {
    pin <= 144 && !(42 <= pin <= 75) && !(128 <= pin <= 131)
}

/// The register of a pin is the word of its number, two words further on for a
/// pin above 130.
pub proof fn law_pin_register(pin: u32)
    requires
        pin <= 144,
    ensures
        regs::pin_to_offset(pin) == 4 * (pin + if pin > 130 {
            2int
        } else {
            0
        }),
{
    bits::lemma_bytes(pin, 0);
    bits::lemma_bytes((pin + 2) as u32, 0);
}

/// Two pins of one bank share an IO power register, pins of different banks do
/// not, and a pin without a bank has none. The banks start at pins 0, 21, 76,
/// 99, 132 and 138.
pub proof fn law_banks(pin: u32, other: u32)
    ensures
        regs::pin_to_io_pd_offset(pin) != 0 <==> has_bank(pin),
        has_bank(pin) && has_bank(other) ==> (regs::pin_to_io_pd_offset(pin)
            == regs::pin_to_io_pd_offset(other) <==> (pin < 21 <==> other < 21) && (pin < 76
            <==> other < 76) && (pin < 99 <==> other < 99) && (pin < 132 <==> other < 132) && (pin
            < 138 <==> other < 138)),
        regs::pin_to_io_pd_offset(pin) % 4 == 0,
        regs::pin_to_io_pd_offset(0) == 0x04 && regs::pin_to_io_pd_offset(21) == 0x0c
            && regs::pin_to_io_pd_offset(76) == 0x20 && regs::pin_to_io_pd_offset(99) == 0x10
            && regs::pin_to_io_pd_offset(132) == 0x1c && regs::pin_to_io_pd_offset(138) == 0x2c,
{
}

/// Setting the voltage of a pin with a bank leaves the 1.8 V bit (bit 2) of the
/// bank's IO power register set if and only if 1.8 V was asked for, and every
/// other bit of it clear. The two access keys come right before that write, and
/// no other register changes. A pin without a bank changes nothing.
pub proof fn law_io_voltage_bit(
    controller: K3Pinctrl,
    pin: u32,
    is_1v8: bool,
    accesses: Script,
    image: Map<Reg, u32>,
    index: u32,
)
    requires
        controller.wf(),
        call_ensures(K3Pinctrl::set_io_pwr_domain, (&controller, pin, is_1v8), accesses),
        index < 32,
    ensures
        ({
            let after = script::settle(accesses@, image);
            let power = Reg {
                window: Window::IoPower,
                offset: regs::pin_to_io_pd_offset(pin) as usize,
            };
            let first = Reg { window: Window::Apbc, offset: controller.asar_offset as usize };
            let second = Reg { window: Window::Apbc, offset: (controller.asar_offset + 4) as usize };
            &&& has_bank(pin) ==> {
                &&& bit(after[power], index) == (is_1v8 && index == 2)
                &&& accesses@.len() == 3
                &&& accesses@[0] == (Op::Write { reg: first, value: 0xbaba })
                &&& accesses@[1] == (Op::Write { reg: second, value: 0xeb10 })
                &&& forall|reg: Reg|
                    reg != power && reg != first && reg != second ==> #[trigger] after[reg]
                        == image[reg]
            }
            &&& !has_bank(pin) ==> after == image
        }),
{
}

/// A configuration with a voltage, alone or with a drive strength, leaves the
/// 1.8 V bit of the bank set for 1800 mV and clear for 3300 mV; any other
/// voltage is refused, and the refusal names it.
pub proof fn law_configured_voltage(
    controller: K3Pinctrl,
    setting: ConfigSetting,
    param: u32,
    value: u32,
    result: Result<Script, PinctrlError>,
    image: Map<Reg, u32>,
    index: u32,
)
    requires
        controller.wf(),
        setting.config == (PinConfig::Vendor { param, value }),
        param == K3_PIN_CONFIG_POWER_SOURCE || param == K3_PIN_CONFIG_DRIVE_WITH_VOLTAGE,
        call_ensures(K3Pinctrl::apply_config, (&controller, &setting), result),
        index < 32,
    ensures
        ({
            let mv = if param == K3_PIN_CONFIG_POWER_SOURCE {
                value as int
            } else {
                value as int % 0x1_0000
            };
            let pin = match setting.target {
                ConfigTarget::Pin(pin) => pin,
                ConfigTarget::Group(pin) => pin,
            };
            let power = Reg {
                window: Window::IoPower,
                offset: regs::pin_to_io_pd_offset(pin) as usize,
            };
            &&& result is Ok <==> mv == 1800 || mv == 3300
            &&& result is Err ==> (result->Err_0 matches PinctrlError::InvalidPowerSource(refused)
                && refused == mv)
            &&& result is Ok && has_bank(pin) ==> bit(
                script::settle(result->Ok_0@, image)[power],
                index,
            ) == (mv == 1800 && index == 2)
        }),
{
    bits::lemma_bytes(value, 0);
    let pin = match setting.target {
        ConfigTarget::Pin(pin) => pin,
        ConfigTarget::Group(pin) => pin,
    };
    let is_1v8 = if param == K3_PIN_CONFIG_POWER_SOURCE {
        value == 1800
    } else {
        value & 0xffff == 1800
    };
    let power = Reg { window: Window::IoPower, offset: regs::pin_to_io_pd_offset(pin) as usize };
    if result is Ok && has_bank(pin) {
        let ops = controller.voltage_ops(pin, is_1v8);
        lemma_voltage_settles(controller, pin, is_1v8, image, power);
        if param != K3_PIN_CONFIG_POWER_SOURCE {
            let op = result->Ok_0@[3];
            assert(result->Ok_0@ =~= ops + seq![op]);
            assert(script::settle(seq![op], script::settle(ops, image))[power] == script::settle(
                ops,
                image,
            )[power]);
        }
    }
}

proof fn lemma_voltage_settles(
    controller: K3Pinctrl,
    pin: u32,
    is_1v8: bool,
    image: Map<Reg, u32>,
    power: Reg,
)
    requires
        has_bank(pin),
        power == (Reg {
            window: Window::IoPower,
            offset: regs::pin_to_io_pd_offset(pin) as usize,
        }),
    ensures
        script::settle(controller.voltage_ops(pin, is_1v8), image)[power] == (if is_1v8 {
            1u32 << 2
        } else {
            0
        }),
{
}

/// A pull, the strong pull-up and the Schmitt trigger are applied to any pin.
/// They replace the configuration bits of its register and keep its function,
/// bits 0 to 2. Bit 15 enables the pull, bit 14 is up, bit 13 down, bit 3 strong
/// and bit 8 the Schmitt trigger. No other register changes.
pub proof fn law_pad_bits(
    controller: K3Pinctrl,
    setting: ConfigSetting,
    pin: u32,
    result: Result<Script, PinctrlError>,
    image: Map<Reg, u32>,
    reg: Reg,
    index: u32,
)
    requires
        setting.target == ConfigTarget::Pin(pin) || setting.target == ConfigTarget::Group(pin),
        call_ensures(K3Pinctrl::apply_config, (&controller, &setting), result),
        pin <= 144,
        index < 32,
        setting.config is Bias || (setting.config matches PinConfig::Vendor { param, .. } && (param
            == K3_PIN_CONFIG_STRONG_PULL || param == K3_PIN_CONFIG_INPUT_SCHMITT)),
    ensures
        ({
            let pad = Reg { window: Window::Pins, offset: regs::pin_to_offset(pin) as usize };
            let after = script::settle(result->Ok_0@, image);
            let up = setting.config == PinConfig::Bias(Bias::PullUp);
            let down = setting.config == PinConfig::Bias(Bias::PullDown);
            let strong = setting.config matches PinConfig::Vendor { param, .. } && param
                == K3_PIN_CONFIG_STRONG_PULL;
            let schmitt = setting.config matches PinConfig::Vendor { param, value } && param
                == K3_PIN_CONFIG_INPUT_SCHMITT && value != 0;
            &&& result is Ok
            &&& reg == pad && index >= 3 ==> bit(after[reg], index) == (index == 15 && (up || down
                || strong) || index == 14 && (up || strong) || index == 13 && down || index == 3
                && strong || index == 8 && schmitt)
            &&& reg != pad || index < 3 ==> bit(after[reg], index) == bit(image[reg], index)
        }),
{
}

/// Setting the function of a pin puts its three bits into bits 0 to 2 of the
/// pin's register and keeps everything else.
pub proof fn law_function_bits(
    controller: K3Pinctrl,
    setting: MuxSetting,
    accesses: Script,
    image: Map<Reg, u32>,
    reg: Reg,
    index: u32,
)
    requires
        setting.group <= 144,
        call_ensures(K3Pinctrl::apply_mux, (&controller, &setting), accesses),
        index < 32,
    ensures
        ({
            let pad = Reg {
                window: Window::Pins,
                offset: regs::pin_to_offset(setting.group) as usize,
            };
            bit(script::settle(accesses@, image)[reg], index) == (if reg == pad && index < 3 {
                bit(setting.value, index)
            } else {
                bit(image[reg], index)
            })
        }),
{
}

/// A drive strength is applied by the smallest table entry that gives it: the
/// entry of the returned value gives at least the strength, or is the last one,
/// and no entry before it gives as much.
pub proof fn law_drive_is_smallest_that_suffices(table: Seq<(u32, u32)>, ma: u32)
    requires
        table.len() > 0,
    ensures
        exists|k: int|
            #![trigger table[k]]
            {
                &&& 0 <= k < table.len()
                &&& regs::strength(table, ma) == table[k].0
                &&& table[k].1 >= ma || k == table.len() - 1
                &&& forall|j: int| 0 <= j < k ==> (#[trigger] table[j]).1 < ma
            },
    decreases table.len(),
{
    if table[0].1 >= ma || table.len() == 1 {
        assert(regs::strength(table, ma) == table[0].0);
    } else {
        let rest = table.drop_first();
        law_drive_is_smallest_that_suffices(rest, ma);
        let k = choose|k: int|
            #![trigger rest[k]]
            {
                &&& 0 <= k < rest.len()
                &&& regs::strength(rest, ma) == rest[k].0
                &&& rest[k].1 >= ma || k == rest.len() - 1
                &&& forall|j: int| 0 <= j < k ==> (#[trigger] rest[j]).1 < ma
            };
        assert(rest[k] == table[k + 1]);
        assert forall|j: int| 0 <= j < k + 1 implies (#[trigger] table[j]).1 < ma by {
            if j > 0 {
                assert(rest[j - 1] == table[j]);
            }
        }
    }
}

/// The tables of drive strengths hold the register values 0 to 15 in order,
/// and a higher value gives more.
pub proof fn law_drive_tables_rise(i: int, j: int)
    requires
        0 <= i < j < 16,
    ensures
        regs::K3_DS_1V8@[i].0 == i && regs::K3_DS_3V3@[i].0 == i,
        regs::K3_DS_1V8@[j].0 == j && regs::K3_DS_3V3@[j].0 == j,
        regs::K3_DS_1V8@[i].1 < regs::K3_DS_1V8@[j].1,
        regs::K3_DS_3V3@[i].1 < regs::K3_DS_3V3@[j].1,
        regs::K3_DS_1V8@[i].1 < regs::K3_DS_3V3@[i].1,
        regs::K3_DS_1V8@[j].1 < regs::K3_DS_3V3@[j].1,
{
}

/// A drive strength goes into bits 9 to 12 and nowhere else: the bits hold a
/// register value whose entry in the table of the voltage gives the strength,
/// or the highest one, and no smaller entry gives it.
pub proof fn law_drive_bits(ma: u32, mv: u32, field: u32, index: u32)
    requires
        call_ensures(K3Pinctrl::drive_bits, (ma, mv), field),
        index < 32,
    ensures
        exists|k: int| #[trigger]
            gives_drive(mv, ma, k) && bit(field, index) == (9 <= index < 13 && bit(k as u32, (index - 9) as u32)),
{
    let table = if mv == 1800 {
        regs::K3_DS_1V8@
    } else {
        regs::K3_DS_3V3@
    };
    law_drive_is_smallest_that_suffices(table, ma);
    let k = choose|k: int|
        #![trigger table[k]]
        {
            &&& 0 <= k < table.len()
            &&& regs::strength(table, ma) == table[k].0
            &&& table[k].1 >= ma || k == table.len() - 1
            &&& forall|j: int| 0 <= j < k ==> (#[trigger] table[j]).1 < ma
        };
    if k < 15 {
        law_drive_tables_rise(k, 15);
    } else {
        law_drive_tables_rise(0, 15);
    }
    assert(gives_drive(mv, ma, k));
    bits::lemma_bit(k as u32, 0, 0, index);
    if index >= 9 {
        bits::lemma_bit(k as u32, 0, 0, (index - 9) as u32);
    }
}

/// Entry `k` of the table of a voltage is the first that gives `ma`, or the last.
pub open spec fn gives_drive(mv: u32, ma: u32, k: int) -> bool {
    let table = if mv == 1800 {
        regs::K3_DS_1V8@
    } else {
        regs::K3_DS_3V3@
    };
    &&& 0 <= k < 16
    &&& table[k].1 >= ma || k == 15
    &&& forall|j: int| 0 <= j < k ==> (#[trigger] table[j]).1 < ma
}

/// The upper half of a `pinmux` cell is the pin, the lower half the function.
pub proof fn law_cell_is_pin_and_function(cell: u32)
    ensures
        cell == 0x1_0000 * cell_mux(cell).group + cell_mux(cell).function,
        cell_mux(cell).function < 0x1_0000,
        cell_mux(cell).value == cell_mux(cell).function,
{
    bits::lemma_bytes(cell, 0);
}

/// What a node asks of a pin's drive is what the controller is told: with a
/// voltage and a strength both, packed so that the strength is the upper half
/// and the voltage the lower; with a voltage alone, that voltage; with a
/// strength alone, nothing. The same pin is named throughout.
pub proof fn law_node_drive_is_passed_on(
    pin: u32,
    ma: u32,
    mv: u32,
    schmitt: u32,
    bias: Bias,
)
    requires
        ma < 0x1_0000,
        mv < 0x1_0000,
    ensures
        ({
            let both = drive_configs(Some(ma), Some(mv), pin);
            let alone = drive_configs(None, Some(mv), pin);
            &&& both.len() == 1 && alone.len() == 1
            &&& both[0].target == ConfigTarget::Pin(pin) && alone[0].target == ConfigTarget::Pin(
                pin,
            )
            &&& both[0].config matches PinConfig::Vendor { param, value } && param
                == K3_PIN_CONFIG_DRIVE_WITH_VOLTAGE && value == 0x1_0000 * ma + mv
            &&& alone[0].config matches PinConfig::Vendor { param, value } && param
                == K3_PIN_CONFIG_POWER_SOURCE && value == mv
            &&& drive_configs(Some(ma), None, pin).len() == 0
            &&& drive_configs(None, None, pin).len() == 0
            &&& schmitt_configs(None, pin).len() == 0
            &&& schmitt_configs(Some(schmitt), pin) == seq![
                ConfigSetting {
                    target: ConfigTarget::Pin(pin),
                    config: PinConfig::Vendor { param: K3_PIN_CONFIG_INPUT_SCHMITT, value: schmitt },
                },
            ]
            &&& bias_configs(None, pin).len() == 0
            &&& bias_configs(Some(K3Bias::Normal(bias)), pin) == seq![
                ConfigSetting { target: ConfigTarget::Pin(pin), config: PinConfig::Bias(bias) },
            ]
            &&& bias_configs(Some(K3Bias::StrongPullUp), pin).len() == 1
            &&& bias_configs(Some(K3Bias::StrongPullUp), pin)[0].config matches PinConfig::Vendor {
                param,
                ..
            } && param == K3_PIN_CONFIG_STRONG_PULL
        }),
{
    bits::lemma_bytes(ma, mv);
    assert(0x1_0000 * (ma % 0x1_0000) + mv % 0x1_0000 == 0x1_0000 * ma + mv);
}

/// A pin state is refused for its first fault: a function setting with a pin
/// above 144 or a function above 7, and after all of these a configuration with
/// such a pin.
pub proof fn law_first_fault_is_reported(
    controller: K3Pinctrl,
    state: PinState,
    result: Result<(), PinctrlError>,
    i: int,
)
    requires
        call_ensures(K3Pinctrl::validate_state, (&controller, &state), result),
        0 <= i < state.muxes@.len(),
        forall|j: int|
            0 <= j < i ==> (#[trigger] state.muxes@[j]).group <= 144 && state.muxes@[j].function
                <= 7,
        state.muxes@[i].group > 144 || state.muxes@[i].function > 7,
    ensures
        result == Err::<(), PinctrlError>(
            if state.muxes@[i].group > 144 {
                PinctrlError::InvalidGroup(state.muxes@[i].group)
            } else {
                PinctrlError::InvalidMux {
                    group: state.muxes@[i].group,
                    function: state.muxes@[i].function,
                }
            },
        ),
{
    lemma_first_mux_fault(state.muxes@, i);
}

proof fn lemma_first_mux_fault(muxes: Seq<MuxSetting>, i: int)
    requires
        0 <= i < muxes.len(),
        forall|j: int|
            0 <= j < i ==> (#[trigger] muxes[j]).group <= 144 && muxes[j].function <= 7,
        muxes[i].group > 144 || muxes[i].function > 7,
    ensures
        crate::pinctrl::controller::first_mux_fault(muxes) == Some(
            if muxes[i].group > 144 {
                PinctrlError::InvalidGroup(muxes[i].group)
            } else {
                PinctrlError::InvalidMux { group: muxes[i].group, function: muxes[i].function }
            },
        ),
    decreases muxes.len(),
{
    if i > 0 {
        assert(muxes[0].group <= 144);
        lemma_first_mux_fault(muxes.drop_first(), i - 1);
    }
}

} // verus!
