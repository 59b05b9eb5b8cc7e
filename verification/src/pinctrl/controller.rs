//! The pin controller.

use vstd::prelude::*;
use fdt_edit::Node;
use crate::script;
use crate::fdt;
use crate::fdt::{has_prop, prop_u32_list};
use crate::pinctrl::regs;
use crate::pinctrl::regs::{ds_to_val, pin_to_io_pd_offset, pin_to_offset};
use crate::pinctrl::state::{Bias, ConfigSetting, ConfigTarget, MuxSetting, PinConfig, PinState, PinctrlError};
use crate::script::{Op, Reg, Script, Window};

verus! {

/// Sets the IO voltage; the value is in millivolts, 1800 or 3300.
pub const K3_PIN_CONFIG_POWER_SOURCE: u32 = 1;
/// Sets the IO voltage and the drive strength; the value is the strength in
/// milliamperes, shifted left by 16, and the voltage in millivolts.
pub const K3_PIN_CONFIG_DRIVE_WITH_VOLTAGE: u32 = 2;
/// Turns the Schmitt trigger on, or off for value 0.
pub const K3_PIN_CONFIG_INPUT_SCHMITT: u32 = 3;
/// Sets the strong pull-up, whatever the value.
pub const K3_PIN_CONFIG_STRONG_PULL: u32 = 4;

/// Offset of the access keys if the device tree does not say.
pub const DEFAULT_ASAR_OFFSET: u32 = 0x50;

/// The highest pin that the controller handles.
pub const LAST_PIN: u32 = 144;

/// Whether the controller handles a pin.
#[verifier::allow_in_spec]
pub fn k3_pin_valid(pin: u32) -> (valid: bool)
    returns
        pin <= LAST_PIN,
{
    pin <= LAST_PIN
}

/// The pin controller.
#[derive(Clone, Copy, Debug, PartialEq, Eq, Structural)]
pub struct K3Pinctrl {
    /// Offset of the access keys in the clock unit.
    pub asar_offset: u32,
}

/// The pin of a configuration.
pub open spec fn target_pin(target: ConfigTarget) -> u32 {
    match target {
        ConfigTarget::Pin(pin) => pin,
        ConfigTarget::Group(group) => group,
    }
}

/// What is wrong with a function setting.
pub open spec fn mux_fault(mux: MuxSetting) -> Option<PinctrlError> {
    if !k3_pin_valid(mux.group) {
        Some(PinctrlError::InvalidGroup(mux.group))
    } else if mux.function > 0x7 {
        Some(PinctrlError::InvalidMux { group: mux.group, function: mux.function })
    } else {
        None
    }
}

/// What is wrong with the target of a configuration.
pub open spec fn config_fault(config: ConfigSetting) -> Option<PinctrlError> {
    match config.target {
        ConfigTarget::Pin(pin) => if !k3_pin_valid(pin) {
            Some(PinctrlError::InvalidPin(pin))
        } else {
            None
        },
        ConfigTarget::Group(group) => if !k3_pin_valid(group) {
            Some(PinctrlError::InvalidGroup(group))
        } else {
            None
        },
    }
}

/// The first fault among some function settings.
pub open spec fn first_mux_fault(muxes: Seq<MuxSetting>) -> Option<PinctrlError>
    decreases muxes.len(),
{
    if muxes.len() == 0 {
        None
    } else if mux_fault(muxes[0]) is Some {
        mux_fault(muxes[0])
    } else {
        first_mux_fault(muxes.drop_first())
    }
}

/// The first fault among some configurations.
pub open spec fn first_config_fault(configs: Seq<ConfigSetting>) -> Option<PinctrlError>
    decreases configs.len(),
{
    if configs.len() == 0 {
        None
    } else if config_fault(configs[0]) is Some {
        config_fault(configs[0])
    } else {
        first_config_fault(configs.drop_first())
    }
}

/// The first fault of a pin state: function settings come first.
pub open spec fn state_fault(state: PinState) -> Option<PinctrlError> {
    match first_mux_fault(state.muxes@) {
        Some(error) => Some(error),
        None => first_config_fault(state.configs@),
    }
}

/// A valid IO voltage in millivolts.
pub open spec fn is_voltage(mv: u32) -> bool {
    mv == 1800 || mv == 3300
}

/// What is wrong with a configuration itself.
pub open spec fn setting_fault(config: PinConfig) -> Option<PinctrlError> {
    match config {
        PinConfig::Bias(_) => None,
        PinConfig::Vendor { param, value } => if param == K3_PIN_CONFIG_POWER_SOURCE {
            if is_voltage(value) {
                None
            } else {
                Some(PinctrlError::InvalidPowerSource(value))
            }
        } else if param == K3_PIN_CONFIG_DRIVE_WITH_VOLTAGE {
            if is_voltage(value & 0xffff) {
                None
            } else {
                Some(PinctrlError::InvalidPowerSource(value & 0xffff))
            }
        } else if param == K3_PIN_CONFIG_INPUT_SCHMITT || param == K3_PIN_CONFIG_STRONG_PULL {
            None
        } else {
            Some(PinctrlError::NotSupported)
        },
        PinConfig::Other => Some(PinctrlError::NotSupported),
    }
}

/// The configuration sets the IO voltage of the pin's bank.
pub open spec fn sets_voltage(config: PinConfig) -> bool {
    &&& setting_fault(config) is None
    &&& config matches PinConfig::Vendor { param, .. } && (param == K3_PIN_CONFIG_POWER_SOURCE
        || param == K3_PIN_CONFIG_DRIVE_WITH_VOLTAGE)
}

/// The configuration writes the register of the pin.
pub open spec fn sets_pad(config: PinConfig) -> bool {
    &&& setting_fault(config) is None
    &&& !(config matches PinConfig::Vendor { param, .. } && param == K3_PIN_CONFIG_POWER_SOURCE)
}

/// Whether a configuration writes the register of the pin: all that are not
/// refused do, except for a voltage alone.
pub fn writes_pad(config: &PinConfig) -> (result: bool)
    ensures
        result == sets_pad(*config),
{
    match *config {
        PinConfig::Bias(_) => true,
        PinConfig::Vendor { param, value } => if param == K3_PIN_CONFIG_DRIVE_WITH_VOLTAGE {
            let mv: u32 = value & 0xffff;
            mv == 1800 || mv == 3300
        } else {
            param == K3_PIN_CONFIG_INPUT_SCHMITT || param == K3_PIN_CONFIG_STRONG_PULL
        },
        PinConfig::Other => false,
    }
}

/// The register of a pin.
pub open spec fn pad_reg(pin: u32) -> Reg {
    Reg { window: Window::Pins, offset: pin_to_offset(pin) as usize }
}

impl K3Pinctrl {
    /// Sets the function of a pin and keeps its configuration.
    pub open spec fn mux_op(pin: u32, mux: u32) -> Op {
        Op::Update { reg: pad_reg(pin), clear: regs::PAD_MUX, set: mux & regs::PAD_MUX }
    }

    /// Replaces the configuration of a pin and keeps its function.
    pub open spec fn config_op(pin: u32, value: u32) -> Op {
        Op::Update { reg: pad_reg(pin), clear: !regs::PAD_MUX, set: value }
    }

    /// Sets the IO voltage of a pin's bank. The access keys open the register
    /// for the one access that follows. A pin without a bank is left alone.
    pub open spec fn voltage_ops(self, pin: u32, is_1v8: bool) -> Seq<Op> {
        if pin_to_io_pd_offset(pin) == 0 {
            Seq::empty()
        } else {
            seq![
                Op::Write {
                    reg: Reg {
                        window: Window::Apbc,
                        offset: (self.asar_offset + regs::APBC_ASFAR) as usize,
                    },
                    value: regs::APBC_ASFAR_AKEY,
                },
                Op::Write {
                    reg: Reg {
                        window: Window::Apbc,
                        offset: (self.asar_offset + regs::APBC_ASSAR) as usize,
                    },
                    value: regs::APBC_ASSAR_AKEY,
                },
                Op::Write {
                    reg: Reg {
                        window: Window::IoPower,
                        offset: pin_to_io_pd_offset(pin) as usize,
                    },
                    value: if is_1v8 {
                        regs::IO_PWR_DOMAIN_V18EN
                    } else {
                        0
                    },
                },
            ]
        }
    }

    /// The access keys lie within the clock unit.
    pub open spec fn wf(self) -> bool {
        self.asar_offset + regs::APBC_ASSAR <= u32::MAX
    }

    /// Sets the function of a pin.
    pub fn set_mux(&self, pin: u32, mux: u32) -> (script: Script)
        requires
            pin <= u32::MAX - 2,
        ensures
            script@ == seq![K3Pinctrl::mux_op(pin, mux)],
    {
        let mut script = Script::new();
        script.update(
            Reg { window: Window::Pins, offset: pin_to_offset(pin) as usize },
            regs::PAD_MUX,
            mux & regs::PAD_MUX,
        );
        script
    }

    /// Replaces the configuration of a pin.
    pub fn set_config_value(&self, pin: u32, value: u32) -> (script: Script)
        requires
            pin <= u32::MAX - 2,
        ensures
            script@ == seq![K3Pinctrl::config_op(pin, value)],
    {
        let mut script = Script::new();
        script.update(
            Reg { window: Window::Pins, offset: pin_to_offset(pin) as usize },
            !regs::PAD_MUX,
            value,
        );
        script
    }

    /// Sets the IO voltage of a pin's bank.
    pub fn set_io_pwr_domain(&self, pin: u32, is_1v8: bool) -> (script: Script)
        requires
            pin_to_io_pd_offset(pin) != 0 ==> self.wf(),
        ensures
            script@ == self.voltage_ops(pin, is_1v8),
    {
        let mut script = Script::new();
        let off: u32 = pin_to_io_pd_offset(pin);
        if off == 0 {
            return script;
        }
        let first: u32 = self.asar_offset + regs::APBC_ASFAR;
        let second: u32 = self.asar_offset + regs::APBC_ASSAR;
        let value: u32 = if is_1v8 {
            regs::IO_PWR_DOMAIN_V18EN
        } else {
            0
        };
        script.write(Reg { window: Window::Apbc, offset: first as usize }, regs::APBC_ASFAR_AKEY);
        script.write(Reg { window: Window::Apbc, offset: second as usize }, regs::APBC_ASSAR_AKEY);
        script.write(Reg { window: Window::IoPower, offset: off as usize }, value);
        script
    }

    /// The configuration bits of a pull. A pull that the pins do not have
    /// counts as none.
    #[verifier::allow_in_spec]
    pub fn bias_bits(bias: Bias) -> (bits: u32)
        returns
            (match bias {
                Bias::PullDown => regs::PAD_PULL_EN | regs::PAD_PULLDOWN,
                Bias::PullUp => regs::PAD_PULL_EN | regs::PAD_PULLUP,
                _ => 0,
            }),
    {
        match bias {
            Bias::PullDown => regs::PAD_PULL_EN | regs::PAD_PULLDOWN,
            Bias::PullUp => regs::PAD_PULL_EN | regs::PAD_PULLUP,
            _ => 0,
        }
    }

    /// The configuration bits of a drive strength at a voltage.
    pub open spec fn drive_field(ma: u32, mv: u32) -> u32 {
        (regs::strength(
            if mv == 1800 {
                regs::K3_DS_1V8@
            } else {
                regs::K3_DS_3V3@
            },
            ma,
        ) << regs::PAD_DRIVE_K3_SHIFT) & regs::PAD_DRIVE_K3
    }

    /// The configuration bits of a drive strength at a voltage.
    pub fn drive_bits(ma: u32, mv: u32) -> (bits: u32)
        ensures
            bits == K3Pinctrl::drive_field(ma, mv),
    {
        let value: u32 = if mv == 1800 {
            ds_to_val(regs::K3_DS_1V8.as_slice(), ma)
        } else {
            ds_to_val(regs::K3_DS_3V3.as_slice(), ma)
        };
        (value << regs::PAD_DRIVE_K3_SHIFT) & regs::PAD_DRIVE_K3
    }

    /// The configuration bits of the Schmitt trigger.
    #[verifier::allow_in_spec]
    pub fn schmitt_bits(arg: u32) -> (bits: u32)
        returns
            (if arg != 0 {
                regs::PAD_SCHMITT_K3
            } else {
                0
            }),
    {
        if arg != 0 {
            regs::PAD_SCHMITT_K3
        } else {
            0
        }
    }

    /// Whether a pin has a function.
    #[verifier::allow_in_spec]
    pub fn can_mux(&self, group: u32, function: u32) -> (can: bool)
        returns
            k3_pin_valid(group) && function <= 0x7,
    {
        k3_pin_valid(group) && function <= 0x7
    }

    /// Checks the pins and functions of a state.
    pub fn validate_state(&self, state: &PinState) -> (result: Result<(), PinctrlError>)
        ensures
            result == (match state_fault(*state) {
                Some(error) => Err::<(), PinctrlError>(error),
                None => Ok::<(), PinctrlError>(()),
            }),
    {
        assert(state.muxes@.skip(0) =~= state.muxes@);
        for i in 0..state.muxes.len()
            invariant
                first_mux_fault(state.muxes@) == first_mux_fault(state.muxes@.skip(i as int)),
        {
            let mux = state.muxes[i];
            assert(state.muxes@.skip(i as int).drop_first() =~= state.muxes@.skip(i + 1));
            if !k3_pin_valid(mux.group) {
                return Err(PinctrlError::InvalidGroup(mux.group));
            }
            if !self.can_mux(mux.group, mux.function) {
                return Err(
                    PinctrlError::InvalidMux { group: mux.group, function: mux.function },
                );
            }
        }
        assert(first_mux_fault(state.muxes@) is None);
        assert(state.configs@.skip(0) =~= state.configs@);
        for i in 0..state.configs.len()
            invariant
                first_mux_fault(state.muxes@) is None,
                first_config_fault(state.configs@) == first_config_fault(
                    state.configs@.skip(i as int),
                ),
        {
            assert(state.configs@.skip(i as int).drop_first() =~= state.configs@.skip(i + 1));
            match state.configs[i].target {
                ConfigTarget::Pin(pin) => {
                    if !k3_pin_valid(pin) {
                        return Err(PinctrlError::InvalidPin(pin));
                    }
                },
                ConfigTarget::Group(group) => {
                    if !k3_pin_valid(group) {
                        return Err(PinctrlError::InvalidGroup(group));
                    }
                },
            }
        }
        Ok(())
    }

    /// The accesses that a function setting takes.
    pub fn apply_mux(&self, setting: &MuxSetting) -> (script: Script)
        requires
            setting.group <= u32::MAX - 2,
        ensures
            script@ == seq![K3Pinctrl::mux_op(setting.group, setting.value)],
    {
        self.set_mux(setting.group, setting.value)
    }

    /// The accesses that a configuration without fault takes.
    pub open spec fn setting_ops(self, setting: ConfigSetting) -> Seq<Op> {
        let pin = target_pin(setting.target);
        match setting.config {
            PinConfig::Bias(bias) => seq![K3Pinctrl::config_op(pin, K3Pinctrl::bias_bits(bias))],
            PinConfig::Vendor { param, value } => if param == K3_PIN_CONFIG_POWER_SOURCE {
                self.voltage_ops(pin, value == 1800)
            } else if param == K3_PIN_CONFIG_DRIVE_WITH_VOLTAGE {
                self.voltage_ops(pin, value & 0xffff == 1800).push(
                    K3Pinctrl::config_op(
                        pin,
                        K3Pinctrl::drive_field(value >> 16, value & 0xffff),
                    ),
                )
            } else if param == K3_PIN_CONFIG_INPUT_SCHMITT {
                seq![K3Pinctrl::config_op(pin, K3Pinctrl::schmitt_bits(value))]
            } else {
                seq![
                    K3Pinctrl::config_op(
                        pin,
                        regs::PAD_PULL_EN | regs::PAD_PULLUP | regs::PAD_STRONG_PULL,
                    ),
                ]
            },
            PinConfig::Other => Seq::empty(),
        }
    }

    /// The accesses that a configuration takes. A voltage other than 1.8 V and
    /// 3.3 V, and a setting that the controller does not have, are refused.
    pub fn apply_config(&self, setting: &ConfigSetting) -> (result: Result<Script, PinctrlError>)
        requires
            sets_voltage(setting.config) && pin_to_io_pd_offset(target_pin(setting.target)) != 0
                ==> self.wf(),
            sets_pad(setting.config) ==> target_pin(setting.target) <= u32::MAX - 2,
        ensures
            match setting_fault(setting.config) {
                Some(error) => result == Err::<Script, PinctrlError>(error),
                None => result is Ok && result->Ok_0@ == self.setting_ops(*setting),
            },
    {
        let pin: u32 = match setting.target {
            ConfigTarget::Pin(pin) => pin,
            ConfigTarget::Group(group) => group,
        };
        match setting.config {
            PinConfig::Bias(bias) => Ok(self.set_config_value(pin, Self::bias_bits(bias))),
            PinConfig::Vendor { param, value } => {
                if param == K3_PIN_CONFIG_POWER_SOURCE {
                    if value != 1800 && value != 3300 {
                        return Err(PinctrlError::InvalidPowerSource(value));
                    }
                    Ok(self.set_io_pwr_domain(pin, value == 1800))
                } else if param == K3_PIN_CONFIG_DRIVE_WITH_VOLTAGE {
                    let ma: u32 = value >> 16;
                    let mv: u32 = value & 0xffff;
                    if mv != 1800 && mv != 3300 {
                        return Err(PinctrlError::InvalidPowerSource(mv));
                    }
                    let mut script = self.set_io_pwr_domain(pin, mv == 1800);
                    script.append(self.set_config_value(pin, Self::drive_bits(ma, mv)));
                    assert(script@ =~= self.setting_ops(*setting));
                    Ok(script)
                } else if param == K3_PIN_CONFIG_INPUT_SCHMITT {
                    Ok(self.set_config_value(pin, Self::schmitt_bits(value)))
                } else if param == K3_PIN_CONFIG_STRONG_PULL {
                    Ok(
                        self.set_config_value(
                            pin,
                            regs::PAD_PULL_EN | regs::PAD_PULLUP | regs::PAD_STRONG_PULL,
                        ),
                    )
                } else {
                    Err(PinctrlError::NotSupported)
                }
            },
            PinConfig::Other => Err(PinctrlError::NotSupported),
        }
    }
}

/// Why the clock unit of the pin controller is not known.
#[derive(Clone, Copy, Debug, PartialEq, Eq, Structural)]
pub enum ApbcError {
    /// The node has no `spacemit,apbc`.
    Missing,
    /// `spacemit,apbc` holds no phandle.
    Malformed,
}

/// The clock unit that a pin controller names: its phandle and the offset of
/// the access keys.
pub fn parse_apbc_phandle(node: &Node) -> (result: Result<(u32, u32), ApbcError>)
    ensures
        result == (if !fdt::present(*node, "spacemit,apbc"@) {
            Err::<(u32, u32), ApbcError>(ApbcError::Missing)
        } else if fdt::numbers(*node, "spacemit,apbc"@).len() == 0 {
            Err::<(u32, u32), ApbcError>(ApbcError::Malformed)
        } else {
            Ok::<(u32, u32), ApbcError>(
                (
                    fdt::numbers(*node, "spacemit,apbc"@)[0],
                    if fdt::numbers(*node, "spacemit,apbc"@).len() > 1 {
                        fdt::numbers(*node, "spacemit,apbc"@)[1]
                    } else {
                        DEFAULT_ASAR_OFFSET
                    },
                ),
            )
        }),
{
    if !has_prop(node, "spacemit,apbc") {
        return Err(ApbcError::Missing);
    }
    let cells = prop_u32_list(node, "spacemit,apbc");
    if cells.len() == 0 {
        return Err(ApbcError::Malformed);
    }
    let offset: u32 = if cells.len() > 1 {
        cells[1]
    } else {
        DEFAULT_ASAR_OFFSET
    };
    Ok((cells[0], offset))
}

/// The size of a register window to map: as given, or 0x400 bytes if the node
/// does not say, and never nothing.
pub fn window_size(size: Option<u64>) -> (mapped: u64)
    ensures
        mapped == (match size {
            Some(size) => if size > 1 {
                size
            } else {
                1
            },
            None => 0x400,
        }),
{
    match size {
        Some(size) => {
            if size > 1 {
                size
            } else {
                1
            }
        },
        None => 0x400,
    }
}

/// Each pin has a register of its own.
pub proof fn law_pins_have_distinct_registers(a: u32, b: u32)
    requires
        k3_pin_valid(a),
        k3_pin_valid(b),
        a != b,
    ensures
        pad_reg(a) != pad_reg(b),
{
    assert(forall|x: u32| x <= 146 ==> #[trigger] (x << 2u32) == 4 * x) by (bit_vector);
}

/// Setting the function of a pin keeps its configuration, and the function
/// set is the one asked for.
pub proof fn law_function_keeps_configuration(regs: Map<Reg, u32>, pin: u32, mux: u32)
    requires
        mux <= 0x7,
    ensures
        script::settle_op(K3Pinctrl::mux_op(pin, mux), regs)[pad_reg(pin)] & regs::PAD_MUX == mux,
        script::settle_op(K3Pinctrl::mux_op(pin, mux), regs)[pad_reg(pin)] & !regs::PAD_MUX
            == regs[pad_reg(pin)] & !regs::PAD_MUX,
{
    let old = regs[pad_reg(pin)];
    assert(mux <= 7 ==> ((old & !0b111u32) | (mux & 0b111u32)) & 0b111u32 == mux && ((old
        & !0b111u32) | (mux & 0b111u32)) & !0b111u32 == old & !0b111u32) by (bit_vector);
}

/// Replacing the configuration of a pin keeps its function.
pub proof fn law_configuration_keeps_function(regs: Map<Reg, u32>, pin: u32, value: u32)
    requires
        value & regs::PAD_MUX == 0,
    ensures
        script::settle_op(K3Pinctrl::config_op(pin, value), regs)[pad_reg(pin)] & regs::PAD_MUX
            == regs[pad_reg(pin)] & regs::PAD_MUX,
        script::settle_op(K3Pinctrl::config_op(pin, value), regs)[pad_reg(pin)] & !regs::PAD_MUX == value,
{
    let old = regs[pad_reg(pin)];
    assert(value & 0b111u32 == 0 ==> ((old & !!0b111u32) | value) & 0b111u32 == old & 0b111u32 && ((
    old & !!0b111u32) | value) & !0b111u32 == value) by (bit_vector);
}

/// No configuration that is applied touches the function of a pin.
pub proof fn law_configurations_leave_function_alone(bias: Bias, ma: u32, mv: u32, arg: u32)
    ensures
        K3Pinctrl::bias_bits(bias) & regs::PAD_MUX == 0,
        K3Pinctrl::drive_field(ma, mv) & regs::PAD_MUX == 0,
        K3Pinctrl::schmitt_bits(arg) & regs::PAD_MUX == 0,
        (regs::PAD_PULL_EN | regs::PAD_PULLUP | regs::PAD_STRONG_PULL) & regs::PAD_MUX == 0,
{
    assert((forall|x: u32| (x & regs::PAD_DRIVE_K3) & regs::PAD_MUX == 0) && (regs::PAD_PULL_EN | regs::PAD_PULLDOWN) & regs::PAD_MUX == 0 && (regs::PAD_PULL_EN
        | regs::PAD_PULLUP) & regs::PAD_MUX == 0 && 0u32 & regs::PAD_MUX == 0
        && regs::PAD_SCHMITT_K3 & regs::PAD_MUX == 0 && (regs::PAD_PULL_EN | regs::PAD_PULLUP
        | regs::PAD_STRONG_PULL) & regs::PAD_MUX == 0) by (bit_vector);
}

/// A state is accepted if and only if every pin exists and every function can
/// be selected.
pub proof fn law_accepted_states(state: PinState)
    ensures
        state_fault(state) is None <==> (forall|i: int|
            0 <= i < state.muxes@.len() ==> k3_pin_valid((#[trigger] state.muxes@[i]).group)
                && state.muxes@[i].function <= 0x7) && (forall|i: int|
            0 <= i < state.configs@.len() ==> k3_pin_valid(
                target_pin((#[trigger] state.configs@[i]).target),
            )),
{
    lemma_mux_faults(state.muxes@);
    lemma_config_faults(state.configs@);
}

proof fn lemma_mux_faults(muxes: Seq<MuxSetting>)
    ensures
        first_mux_fault(muxes) is None <==> forall|i: int|
            0 <= i < muxes.len() ==> mux_fault(#[trigger] muxes[i]) is None,
    decreases muxes.len(),
{
    if muxes.len() > 0 {
        lemma_mux_faults(muxes.drop_first());
        if first_mux_fault(muxes) is None {
            assert forall|i: int| 0 <= i < muxes.len() implies mux_fault(
                #[trigger] muxes[i],
            ) is None by {
                if i > 0 {
                    assert(muxes.drop_first()[i - 1] == muxes[i]);
                }
            }
        } else if mux_fault(muxes[0]) is None {
            let j = choose|j: int|
                0 <= j < muxes.drop_first().len() && mux_fault(
                    #[trigger] muxes.drop_first()[j],
                ) is Some;
            assert(muxes.drop_first()[j] == muxes[j + 1]);
        }
    }
}

proof fn lemma_config_faults(configs: Seq<ConfigSetting>)
    ensures
        first_config_fault(configs) is None <==> forall|i: int|
            0 <= i < configs.len() ==> config_fault(#[trigger] configs[i]) is None,
    decreases configs.len(),
{
    if configs.len() > 0 {
        lemma_config_faults(configs.drop_first());
        if first_config_fault(configs) is None {
            assert forall|i: int| 0 <= i < configs.len() implies config_fault(
                #[trigger] configs[i],
            ) is None by {
                if i > 0 {
                    assert(configs.drop_first()[i - 1] == configs[i]);
                }
            }
        } else if config_fault(configs[0]) is None {
            let j = choose|j: int|
                0 <= j < configs.drop_first().len() && config_fault(
                    #[trigger] configs.drop_first()[j],
                ) is Some;
            assert(configs.drop_first()[j] == configs[j + 1]);
        }
    }
}

} // verus!
