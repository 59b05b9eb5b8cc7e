//! Pin states from the device tree.
//!
//! A pin state is a node whose children each configure some pins alike: a
//! `pinmux` list of `(pin << 16) | function` cells, and properties that hold
//! for all of these pins.

use vstd::prelude::*;
use fdt_edit::Node;
use crate::fdt;
use crate::fdt::{has_prop, prop_u32, prop_u32_list};
use crate::pinctrl::controller::{
    K3_PIN_CONFIG_DRIVE_WITH_VOLTAGE, K3_PIN_CONFIG_INPUT_SCHMITT, K3_PIN_CONFIG_POWER_SOURCE,
    K3_PIN_CONFIG_STRONG_PULL,
};
use crate::pinctrl::state::{Bias, ConfigSetting, ConfigTarget, MuxSetting, PinConfig, PinState};

verus! {

/// The pull that a node asks for.
#[derive(Clone, Copy, Debug, PartialEq, Eq, Structural)]
pub enum K3Bias {
    Normal(Bias),
    StrongPullUp,
}

/// The pull that a node asks for; `bias-pull-up = <1>` asks for the strong one.
pub open spec fn bias_of(node: Node) -> Option<K3Bias> {
    if fdt::present(node, "bias-disable"@) {
        Some(K3Bias::Normal(Bias::Disabled))
    } else if fdt::present(node, "bias-pull-up"@) {
        if fdt::number(node, "bias-pull-up"@) == Some(1u32) {
            Some(K3Bias::StrongPullUp)
        } else {
            Some(K3Bias::Normal(Bias::PullUp))
        }
    } else if fdt::present(node, "bias-pull-down"@) {
        Some(K3Bias::Normal(Bias::PullDown))
    } else {
        None
    }
}

/// The pull that a node asks for.
pub fn parse_bias(node: &Node) -> (bias: Option<K3Bias>)
    ensures
        bias == bias_of(*node),
{
    if has_prop(node, "bias-disable") {
        Some(K3Bias::Normal(Bias::Disabled))
    } else if has_prop(node, "bias-pull-up") {
        match prop_u32(node, "bias-pull-up") {
            Some(arg) => {
                if arg == 1 {
                    Some(K3Bias::StrongPullUp)
                } else {
                    Some(K3Bias::Normal(Bias::PullUp))
                }
            },
            None => Some(K3Bias::Normal(Bias::PullUp)),
        }
    } else if has_prop(node, "bias-pull-down") {
        Some(K3Bias::Normal(Bias::PullDown))
    } else {
        None
    }
}

/// A configuration of a pin.
pub open spec fn on_pin(pin: u32, config: PinConfig) -> ConfigSetting {
    ConfigSetting { target: ConfigTarget::Pin(pin), config }
}

/// The function that a `pinmux` cell selects.
pub open spec fn cell_mux(cell: u32) -> MuxSetting {
    MuxSetting { group: cell >> 16, function: cell & 0xffff, value: cell & 0xffff }
}

/// The pull configuration of a pin.
pub open spec fn bias_configs(bias: Option<K3Bias>, pin: u32) -> Seq<ConfigSetting> {
    match bias {
        Some(K3Bias::Normal(bias)) => seq![on_pin(pin, PinConfig::Bias(bias))],
        Some(K3Bias::StrongPullUp) => seq![
            on_pin(pin, PinConfig::Vendor { param: K3_PIN_CONFIG_STRONG_PULL, value: 0 }),
        ],
        None => Seq::empty(),
    }
}

/// The drive and voltage configuration of a pin. A drive strength without a
/// voltage is not applied.
pub open spec fn drive_configs(
    drive_ma: Option<u32>,
    power_mv: Option<u32>,
    pin: u32,
) -> Seq<ConfigSetting> {
    match (drive_ma, power_mv) {
        (Some(ma), Some(mv)) => seq![
            on_pin(
                pin,
                PinConfig::Vendor {
                    param: K3_PIN_CONFIG_DRIVE_WITH_VOLTAGE,
                    value: (ma << 16) | (mv & 0xffff),
                },
            ),
        ],
        (None, Some(mv)) => seq![
            on_pin(pin, PinConfig::Vendor { param: K3_PIN_CONFIG_POWER_SOURCE, value: mv }),
        ],
        _ => Seq::empty(),
    }
}

/// The Schmitt trigger configuration of a pin.
pub open spec fn schmitt_configs(schmitt: Option<u32>, pin: u32) -> Seq<ConfigSetting> {
    match schmitt {
        Some(value) => seq![
            on_pin(pin, PinConfig::Vendor { param: K3_PIN_CONFIG_INPUT_SCHMITT, value }),
        ],
        None => Seq::empty(),
    }
}

/// What a node asks for one of its pins, in the order in which it is applied.
pub open spec fn pin_configs(node: Node, pin: u32) -> Seq<ConfigSetting> {
    bias_configs(bias_of(node), pin) + drive_configs(
        fdt::number(node, "drive-strength"@),
        fdt::number(node, "power-source"@),
        pin,
    ) + schmitt_configs(fdt::number(node, "input-schmitt"@), pin)
}

/// The functions that some `pinmux` cells select.
pub open spec fn cells_muxes(cells: Seq<u32>) -> Seq<MuxSetting> {
    Seq::new(cells.len(), |i: int| cell_mux(cells[i]))
}

/// What a node asks for the pins of some `pinmux` cells.
pub open spec fn cells_configs(node: Node, cells: Seq<u32>) -> Seq<ConfigSetting>
    decreases cells.len(),
{
    if cells.len() == 0 {
        Seq::empty()
    } else {
        cells_configs(node, cells.drop_last()) + pin_configs(node, cells.last() >> 16)
    }
}

fn append_pin_configs(
    configs: &mut Vec<ConfigSetting>,
    pin: u32,
    bias: Option<K3Bias>,
    drive_ma: Option<u32>,
    power_mv: Option<u32>,
    schmitt: Option<u32>,
)
    ensures
        final(configs)@ == old(configs)@ + (bias_configs(bias, pin) + drive_configs(
            drive_ma,
            power_mv,
            pin,
        ) + schmitt_configs(schmitt, pin)),
{
    let ghost before = configs@;
    let target = ConfigTarget::Pin(pin);
    match bias {
        Some(K3Bias::Normal(bias)) => {
            configs.push(ConfigSetting { target, config: PinConfig::Bias(bias) });
        },
        Some(K3Bias::StrongPullUp) => {
            let config = PinConfig::Vendor { param: K3_PIN_CONFIG_STRONG_PULL, value: 0 };
            configs.push(ConfigSetting { target, config });
        },
        None => {},
    }
    assert(configs@ =~= before + bias_configs(bias, pin));
    if let Some(mv) = power_mv {
        let config = match drive_ma {
            Some(ma) => PinConfig::Vendor {
                param: K3_PIN_CONFIG_DRIVE_WITH_VOLTAGE,
                value: (ma << 16) | (mv & 0xffff),
            },
            None => PinConfig::Vendor { param: K3_PIN_CONFIG_POWER_SOURCE, value: mv },
        };
        configs.push(ConfigSetting { target, config });
    }
    let ghost driven = bias_configs(bias, pin) + drive_configs(drive_ma, power_mv, pin);
    assert(configs@ =~= before + driven);
    if let Some(value) = schmitt {
        let config = PinConfig::Vendor { param: K3_PIN_CONFIG_INPUT_SCHMITT, value };
        configs.push(ConfigSetting { target, config });
    }
    assert(configs@ =~= before + (driven + schmitt_configs(schmitt, pin)));
}

/// Adds what a node asks for to a pin state. A node without `pinmux` adds
/// nothing.
pub fn append_k3_pins(node: &Node, state: &mut PinState)
    ensures
        final(state).muxes@ == old(state).muxes@ + cells_muxes(fdt::numbers(*node, "pinmux"@)),
        final(state).configs@ == old(state).configs@ + cells_configs(
            *node,
            fdt::numbers(*node, "pinmux"@),
        ),
{
    let pinmux = prop_u32_list(node, "pinmux");
    let bias = parse_bias(node);
    let drive_ma = prop_u32(node, "drive-strength");
    let power_mv = prop_u32(node, "power-source");
    let schmitt = prop_u32(node, "input-schmitt");
    let ghost muxes = state.muxes@;
    let ghost configs = state.configs@;
    assert(pinmux@.take(0) =~= Seq::empty());
    assert(state.muxes@ =~= muxes + cells_muxes(pinmux@.take(0)));
    assert(state.configs@ =~= configs + cells_configs(*node, pinmux@.take(0)));
    for i in 0..pinmux.len()
        invariant
            bias == bias_of(*node),
            drive_ma == fdt::number(*node, "drive-strength"@),
            power_mv == fdt::number(*node, "power-source"@),
            schmitt == fdt::number(*node, "input-schmitt"@),
            state.muxes@ == muxes + cells_muxes(pinmux@.take(i as int)),
            state.configs@ == configs + cells_configs(*node, pinmux@.take(i as int)),
    {
        let raw: u32 = pinmux[i];
        let pin: u32 = raw >> 16;
        let mux: u32 = raw & 0xffff;
        let ghost before = state.configs@;
        state.muxes.push(MuxSetting { group: pin, function: mux, value: mux });
        append_pin_configs(&mut state.configs, pin, bias, drive_ma, power_mv, schmitt);
        proof {
            let done = pinmux@.take(i + 1);
            assert(state.configs@ == before + pin_configs(*node, pin));
            assert(done.drop_last() =~= pinmux@.take(i as int));
            assert(state.muxes@ =~= muxes + cells_muxes(done));
            assert(state.configs@ =~= configs + cells_configs(*node, done));
        }
    }
    assert(pinmux@.take(pinmux@.len() as int) =~= pinmux@);
}

/// The functions that some nodes select.
pub open spec fn nodes_muxes(nodes: Seq<&Node>) -> Seq<MuxSetting>
    decreases nodes.len(),
{
    if nodes.len() == 0 {
        Seq::empty()
    } else {
        nodes_muxes(nodes.drop_last()) + cells_muxes(fdt::numbers(*nodes.last(), "pinmux"@))
    }
}

/// What some nodes ask for.
pub open spec fn nodes_configs(nodes: Seq<&Node>) -> Seq<ConfigSetting>
    decreases nodes.len(),
{
    if nodes.len() == 0 {
        Seq::empty()
    } else {
        nodes_configs(nodes.drop_last()) + cells_configs(
            *nodes.last(),
            fdt::numbers(*nodes.last(), "pinmux"@),
        )
    }
}

/// Reads pin states out of device-tree nodes.
#[derive(Clone, Copy, Debug)]
pub struct K3FdtPinctrlParser;

impl K3FdtPinctrlParser {
    /// Adds what the children of a pin state node ask for to a pin state.
    pub fn parse_pinctrl_node(&self, children: &Vec<&Node>, state: &mut PinState)
        ensures
            final(state).muxes@ == old(state).muxes@ + nodes_muxes(children@),
            final(state).configs@ == old(state).configs@ + nodes_configs(children@),
    {
        let ghost muxes = state.muxes@;
        let ghost configs = state.configs@;
        assert(children@.take(0) =~= Seq::empty());
        assert(state.muxes@ =~= muxes + nodes_muxes(children@.take(0)));
        assert(state.configs@ =~= configs + nodes_configs(children@.take(0)));
        for i in 0..children.len()
            invariant
                state.muxes@ == muxes + nodes_muxes(children@.take(i as int)),
                state.configs@ == configs + nodes_configs(children@.take(i as int)),
        {
            append_k3_pins(children[i], state);
            proof {
                let done = children@.take(i + 1);
                assert(done.drop_last() =~= children@.take(i as int));
                assert(state.muxes@ =~= muxes + nodes_muxes(done));
                assert(state.configs@ =~= configs + nodes_configs(done));
            }
        }
        assert(children@.take(children@.len() as int) =~= children@);
    }
}

} // verus!
