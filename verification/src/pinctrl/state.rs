//! Pin states: which function and which configuration each pin is to have.

use vstd::prelude::*;

verus! {

/// Pull of a pin.
#[derive(Clone, Copy, Debug, PartialEq, Eq, Structural)]
pub enum Bias {
    Disabled,
    BusHold,
    PullUp,
    PullDown,
    PullPinDefault,
}

/// One aspect of a pin's configuration.
#[derive(Clone, Copy, Debug, PartialEq, Eq, Structural)]
pub enum PinConfig {
    /// Pull.
    Bias(Bias),
    /// A setting of this controller: see the `K3_PIN_CONFIG_*` constants.
    Vendor { param: u32, value: u32 },
    /// A setting that this controller does not have.
    Other,
}

/// What a configuration applies to.
#[derive(Clone, Copy, Debug, PartialEq, Eq, Structural)]
pub enum ConfigTarget {
    Pin(u32),
    Group(u32),
}

/// A configuration and what it applies to.
#[derive(Clone, Copy, Debug, PartialEq, Eq, Structural)]
pub struct ConfigSetting {
    pub target: ConfigTarget,
    pub config: PinConfig,
}

/// The function of a pin. A group is a pin here, and a function is the value
/// that selects it.
#[derive(Clone, Copy, Debug, PartialEq, Eq, Structural)]
pub struct MuxSetting {
    pub group: u32,
    pub function: u32,
    pub value: u32,
}

/// A pin state.
#[derive(Debug)]
pub struct PinState {
    pub muxes: Vec<MuxSetting>,
    pub configs: Vec<ConfigSetting>,
}

impl PinState {
    /// A state that asks for nothing.
    pub fn new() -> (state: PinState)
        ensures
            state.muxes@ == Seq::<MuxSetting>::empty(),
            state.configs@ == Seq::<ConfigSetting>::empty(),
    {
        PinState { muxes: Vec::new(), configs: Vec::new() }
    }
}

/// Why a pin state is refused.
#[derive(Clone, Copy, Debug, PartialEq, Eq, Structural)]
pub enum PinctrlError {
    /// There is no such group.
    InvalidGroup(u32),
    /// There is no such pin.
    InvalidPin(u32),
    /// The group does not have that function.
    InvalidMux { group: u32, function: u32 },
    /// The IO voltage, in millivolts, is neither 1800 nor 3300.
    InvalidPowerSource(u32),
    /// The controller does not have that setting.
    NotSupported,
}

} // verus!
