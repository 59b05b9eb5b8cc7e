use fdt_edit::{Node, Property};
use k3_drivers::pinctrl::controller::{
    k3_pin_valid, parse_apbc_phandle, window_size, ApbcError, K3Pinctrl, DEFAULT_ASAR_OFFSET,
    K3_PIN_CONFIG_DRIVE_WITH_VOLTAGE, K3_PIN_CONFIG_INPUT_SCHMITT, K3_PIN_CONFIG_POWER_SOURCE,
    K3_PIN_CONFIG_STRONG_PULL, writes_pad,
};
use k3_drivers::pinctrl::fdt_parser::{append_k3_pins, parse_bias, K3Bias, K3FdtPinctrlParser};
use k3_drivers::pinctrl::regs::{ds_to_val, pin_to_io_pd_offset, pin_to_offset, K3_DS_1V8};
use k3_drivers::pinctrl::state::{
    Bias, ConfigSetting, ConfigTarget, MuxSetting, PinConfig, PinState, PinctrlError,
};
use k3_drivers::script::{Op, Reg, Window};

fn cells(values: &[u32]) -> Vec<u8> {
    values.iter().flat_map(|value| value.to_be_bytes()).collect()
}

fn node(props: &[(&str, Vec<u8>)]) -> Node {
    let mut node = Node::new("pins");
    for (name, data) in props {
        node.set_property(Property::new(name, data.clone()));
    }
    node
}

fn controller() -> K3Pinctrl {
    K3Pinctrl { asar_offset: DEFAULT_ASAR_OFFSET }
}

fn vendor(param: u32, value: u32) -> PinConfig {
    PinConfig::Vendor { param, value }
}

fn on_pin(pin: u32, config: PinConfig) -> ConfigSetting {
    ConfigSetting { target: ConfigTarget::Pin(pin), config }
}

#[test]
fn pin_registers() {
    assert_eq!(pin_to_offset(130), 520);
    assert_eq!(pin_to_offset(131), 532);
    assert_eq!(pin_to_io_pd_offset(20), 0x04);
    assert_eq!(pin_to_io_pd_offset(42), 0);
    assert_eq!(pin_to_io_pd_offset(144), 0x2c);
    assert!(k3_pin_valid(144));
    assert!(!k3_pin_valid(145));
}

#[test]
fn drive_strengths_are_rounded_up() {
    assert_eq!(ds_to_val(&K3_DS_1V8, 0), 0);
    assert_eq!(ds_to_val(&K3_DS_1V8, 8), 4);
    assert_eq!(ds_to_val(&K3_DS_1V8, 100), 15);
    assert_eq!(ds_to_val(&[], 5), 0);
    assert_eq!(K3Pinctrl::drive_bits(9, 1800), 4 << 9);
    assert_eq!(K3Pinctrl::drive_bits(9, 3300), 3 << 9);
}

#[test]
fn pulls_and_triggers() {
    assert_eq!(K3Pinctrl::bias_bits(Bias::PullUp), 0xc000);
    assert_eq!(K3Pinctrl::bias_bits(Bias::PullDown), 0xa000);
    assert_eq!(K3Pinctrl::bias_bits(Bias::BusHold), 0);
    assert_eq!(K3Pinctrl::schmitt_bits(1), 0x100);
    assert_eq!(K3Pinctrl::schmitt_bits(0), 0);
}

#[test]
fn nodes_are_read_into_a_state() {
    let pins = node(&[
        ("pinmux", cells(&[0x0015_0001, 0x0016_0002])),
        ("bias-pull-up", cells(&[1])),
        ("drive-strength", cells(&[9])),
        ("power-source", cells(&[1800])),
        ("input-schmitt", cells(&[1])),
    ]);
    let mut state = PinState::new();
    append_k3_pins(&pins, &mut state);
    assert_eq!(
        state.muxes,
        vec![
            MuxSetting { group: 21, function: 1, value: 1 },
            MuxSetting { group: 22, function: 2, value: 2 },
        ]
    );
    assert_eq!(
        state.configs[..3],
        [
            on_pin(21, vendor(K3_PIN_CONFIG_STRONG_PULL, 0)),
            on_pin(21, vendor(K3_PIN_CONFIG_DRIVE_WITH_VOLTAGE, 9 << 16 | 1800)),
            on_pin(21, vendor(K3_PIN_CONFIG_INPUT_SCHMITT, 1)),
        ]
    );
    assert_eq!(state.configs.len(), 6);
    let power = node(&[("pinmux", cells(&[0])), ("power-source", cells(&[3300]))]);
    let drive = node(&[("pinmux", cells(&[0])), ("drive-strength", cells(&[9]))]);
    let mut state = PinState::new();
    K3FdtPinctrlParser.parse_pinctrl_node(&vec![&power, &drive], &mut state);
    assert_eq!(state.muxes.len(), 2);
    assert_eq!(state.configs, vec![on_pin(0, vendor(K3_PIN_CONFIG_POWER_SOURCE, 3300))]);
}

#[test]
fn pulls_are_read() {
    assert_eq!(parse_bias(&node(&[])), None);
    assert_eq!(
        parse_bias(&node(&[("bias-disable", vec![])])),
        Some(K3Bias::Normal(Bias::Disabled))
    );
    assert_eq!(
        parse_bias(&node(&[("bias-pull-up", vec![])])),
        Some(K3Bias::Normal(Bias::PullUp))
    );
    assert_eq!(parse_bias(&node(&[("bias-pull-up", cells(&[1]))])), Some(K3Bias::StrongPullUp));
    assert_eq!(
        parse_bias(&node(&[("bias-pull-down", vec![])])),
        Some(K3Bias::Normal(Bias::PullDown))
    );
}

#[test]
fn states_are_checked() {
    let controller = controller();
    let mut state = PinState::new();
    assert_eq!(controller.validate_state(&state), Ok(()));
    state.configs.push(on_pin(145, PinConfig::Other));
    assert_eq!(controller.validate_state(&state), Err(PinctrlError::InvalidPin(145)));
    state.configs[0].target = ConfigTarget::Group(145);
    assert_eq!(controller.validate_state(&state), Err(PinctrlError::InvalidGroup(145)));
    state.muxes.push(MuxSetting { group: 3, function: 8, value: 8 });
    assert_eq!(
        controller.validate_state(&state),
        Err(PinctrlError::InvalidMux { group: 3, function: 8 })
    );
    state.muxes.insert(0, MuxSetting { group: 200, function: 0, value: 0 });
    assert_eq!(controller.validate_state(&state), Err(PinctrlError::InvalidGroup(200)));
    assert!(controller.can_mux(144, 7));
    assert!(!controller.can_mux(144, 8));
}

fn pad(pin: u32) -> Reg {
    Reg { window: Window::Pins, offset: pin_to_offset(pin) as usize }
}

#[test]
fn functions_and_configurations_share_a_register() {
    let controller = controller();
    let mux = controller.apply_mux(&MuxSetting { group: 21, function: 3, value: 3 });
    assert_eq!(mux.ops, vec![Op::Update { reg: pad(21), clear: 7, set: 3 }]);
    let bias = controller.apply_config(&on_pin(21, PinConfig::Bias(Bias::PullUp))).unwrap();
    assert_eq!(bias.ops, vec![Op::Update { reg: pad(21), clear: !7, set: 0xc000 }]);
    let drive = controller
        .apply_config(&on_pin(21, vendor(K3_PIN_CONFIG_DRIVE_WITH_VOLTAGE, 9 << 16 | 1800)))
        .unwrap();
    assert_eq!(drive.ops.last(), Some(&Op::Update { reg: pad(21), clear: !7, set: 4 << 9 }));
    assert!(drive.ops.contains(&Op::Write {
        reg: Reg { window: Window::IoPower, offset: 0x0c },
        value: 4
    }));
    assert!(drive.ops.contains(&Op::Write {
        reg: Reg { window: Window::Apbc, offset: 0x50 },
        value: 0xbaba
    }));
}

#[test]
fn configurations_that_do_not_exist() {
    let controller = controller();
    assert_eq!(
        controller.apply_config(&on_pin(21, vendor(K3_PIN_CONFIG_POWER_SOURCE, 2500))).err(),
        Some(PinctrlError::InvalidPowerSource(2500))
    );
    assert_eq!(
        controller.apply_config(&on_pin(21, PinConfig::Other)).err(),
        Some(PinctrlError::NotSupported)
    );
    assert_eq!(
        controller.apply_config(&on_pin(21, vendor(99, 0))).err(),
        Some(PinctrlError::NotSupported)
    );
    assert_eq!(
        controller.apply_config(&on_pin(u32::MAX, PinConfig::Other)).err(),
        Some(PinctrlError::NotSupported)
    );
    assert!(controller.set_io_pwr_domain(42, true).ops.is_empty());
}

#[test]
fn only_some_configurations_write_the_register_of_the_pin() {
    assert!(writes_pad(&PinConfig::Bias(Bias::Disabled)));
    assert!(writes_pad(&vendor(K3_PIN_CONFIG_DRIVE_WITH_VOLTAGE, 9 << 16 | 3300)));
    assert!(!writes_pad(&vendor(K3_PIN_CONFIG_DRIVE_WITH_VOLTAGE, 9 << 16 | 2500)));
    assert!(!writes_pad(&vendor(K3_PIN_CONFIG_POWER_SOURCE, 1800)));
    assert!(!writes_pad(&vendor(99, 0)));
    assert!(!writes_pad(&PinConfig::Other));
}

#[test]
fn clock_unit_is_found() {
    assert_eq!(parse_apbc_phandle(&node(&[])), Err(ApbcError::Missing));
    assert_eq!(
        parse_apbc_phandle(&node(&[("spacemit,apbc", vec![])])),
        Err(ApbcError::Malformed)
    );
    assert_eq!(
        parse_apbc_phandle(&node(&[("spacemit,apbc", cells(&[3, 0x60]))])),
        Ok((3, 0x60))
    );
    assert_eq!(
        parse_apbc_phandle(&node(&[("spacemit,apbc", cells(&[3]))])),
        Ok((3, DEFAULT_ASAR_OFFSET))
    );
    assert_eq!(window_size(None), 0x400);
    assert_eq!(window_size(Some(0x1000)), 0x1000);
}
