//! Glue logic of the Ethernet controller: the system controller registers
//! that select the PHY interface, and the GPIO that resets the PHY.

use vstd::prelude::*;
use fdt_edit::Node;
use crate::fdt;
use crate::fdt::{has_prop, prop_str, prop_u32, prop_u32_list, same_str};
use crate::gmac::regs;
use crate::gmac::regs::Mmio;
use crate::script;
use crate::script::{Op, Reg, Script, Window};

verus! {

/// PHY interface mode (`phy-mode`).
#[derive(Clone, Copy, Debug, PartialEq, Eq, Structural)]
pub enum PhyMode {
    Mii,
    Rmii,
    Rgmii,
    RgmiiId,
    RgmiiRxId,
    RgmiiTxId,
}

impl PhyMode {
    /// The mode that a `phy-mode` string names; RGMII if it names none.
    pub open spec fn named(value: Option<Seq<char>>) -> PhyMode {
        if value == Some("mii"@) {
            PhyMode::Mii
        } else if value == Some("rmii"@) {
            PhyMode::Rmii
        } else if value == Some("rgmii-id"@) {
            PhyMode::RgmiiId
        } else if value == Some("rgmii-rxid"@) {
            PhyMode::RgmiiRxId
        } else if value == Some("rgmii-txid"@) {
            PhyMode::RgmiiTxId
        } else {
            PhyMode::Rgmii
        }
    }

    /// The mode that a `phy-mode` string names.
    pub fn parse(value: Option<&str>) -> (mode: PhyMode)
        ensures
            mode == PhyMode::named(match value {
                Some(name) => Some(name@),
                None => None,
            }),
    {
        match value {
            Some(name) => {
                if same_str(name, "mii") {
                    PhyMode::Mii
                } else if same_str(name, "rmii") {
                    PhyMode::Rmii
                } else if same_str(name, "rgmii-id") {
                    PhyMode::RgmiiId
                } else if same_str(name, "rgmii-rxid") {
                    PhyMode::RgmiiRxId
                } else if same_str(name, "rgmii-txid") {
                    PhyMode::RgmiiTxId
                } else {
                    PhyMode::Rgmii
                }
            },
            None => PhyMode::Rgmii,
        }
    }

    /// The interface mode field of the control register.
    #[verifier::allow_in_spec]
    pub fn syscon_value(self) -> (value: u32)
        returns
            (match self {
                PhyMode::Mii => regs::PHY_INTF_MII,
                PhyMode::Rmii => regs::PHY_INTF_RMII,
                _ => regs::PHY_INTF_RGMII,
            }),
    {
        match self {
            PhyMode::Mii => regs::PHY_INTF_MII,
            PhyMode::Rmii => regs::PHY_INTF_RMII,
            _ => regs::PHY_INTF_RGMII,
        }
    }
}

/// How the RGMII clocks are shifted (`spacemit,clk-tuning-*`). Only the delay
/// line is programmed.
#[derive(Clone, Copy, Debug, PartialEq, Eq, Structural)]
pub enum ClockTuning {
    Disabled,
    ByReg { tx_phase: u8, rx_phase: u8 },
    ByDelayLine { tx_phase: u8, rx_phase: u8 },
    ByClockRevert { tx_phase: u8, rx_phase: u8 },
}

/// The GPIO that resets the PHY (`snps,reset-gpios`).
#[derive(Clone, Copy, Debug, PartialEq, Eq)]
pub struct GpioReset {
    /// Phandle of the GPIO controller.
    pub gpio_phandle: u32,
    /// Bank of the pin.
    pub bank: u32,
    /// Pin within the bank.
    pub pin: u32,
    /// Whether a low level resets the PHY.
    pub active_low: bool,
    /// Waits before, during and after the reset, in microseconds.
    pub delays_us: (u32, u32, u32),
}

impl GpioReset {
    /// The reset GPIO that a node describes: `<phandle bank pin flags>`, with
    /// `snps,reset-delays-us` for the waits. The flags may be absent.
    pub open spec fn described(node: Node) -> Option<GpioReset> {
        let spec_cells = fdt::numbers(node, "snps,reset-gpios"@);
        let delays = fdt::numbers(node, "snps,reset-delays-us"@);
        if spec_cells.len() < 3 {
            None
        } else {
            Some(
                GpioReset {
                    gpio_phandle: spec_cells[0],
                    bank: spec_cells[1],
                    pin: spec_cells[2],
                    active_low: spec_cells.len() > 3 && spec_cells[3] & 1 != 0,
                    delays_us: if delays.len() >= 3 {
                        (delays[0], delays[1], delays[2])
                    } else {
                        (0, 20_000, 100_000)
                    },
                },
            )
        }
    }

    /// The reset GPIO that a node describes.
    pub fn parse(node: &Node) -> (reset: Option<GpioReset>)
        ensures
            reset == GpioReset::described(*node),
    {
        let cells = prop_u32_list(node, "snps,reset-gpios");
        if cells.len() < 3 {
            return None;
        }
        let flags: u32 = if cells.len() > 3 {
            cells[3]
        } else {
            0
        };
        assert(0u32 & 1 == 0) by (bit_vector);
        let delays = prop_u32_list(node, "snps,reset-delays-us");
        let delays_us: (u32, u32, u32) = if delays.len() >= 3 {
            (delays[0], delays[1], delays[2])
        } else {
            (0, 20_000, 100_000)
        };
        Some(
            GpioReset {
                gpio_phandle: cells[0],
                bank: cells[1],
                pin: cells[2],
                active_low: flags & 1 != 0,
                delays_us,
            },
        )
    }

    /// The bank and the pin exist.
    pub open spec fn valid(self) -> bool {
        self.bank * regs::K3_GPIO_BANK_STRIDE + regs::K3_GPIO_GSDR <= u32::MAX && self.pin < 32
    }

    /// A register of the pin's bank.
    pub open spec fn bank_reg(self, register: u32) -> Reg {
        Reg {
            window: Window::Gpio,
            offset: (self.bank * regs::K3_GPIO_BANK_STRIDE + register) as usize,
        }
    }

    /// Drives the pin to the level that asserts or deasserts the reset.
    pub open spec fn level(self, asserted: bool) -> Op {
        Op::Write {
            reg: self.bank_reg(
                if self.active_low != asserted {
                    regs::K3_GPIO_GPSR
                } else {
                    regs::K3_GPIO_GPCR
                },
            ),
            value: 1u32 << self.pin,
        }
    }

    /// Drives the pin to the level that asserts or deasserts the reset.
    pub fn write_level(&self, gpio: &Mmio, bank_off: u32, bit: u32, asserted: bool) -> (op: Op)
        requires
            bank_off + regs::K3_GPIO_GPCR <= u32::MAX,
        ensures
            op == (Op::Write {
                reg: gpio.reg(
                    (bank_off + if self.active_low != asserted {
                        regs::K3_GPIO_GPSR
                    } else {
                        regs::K3_GPIO_GPCR
                    }) as u32,
                ),
                value: bit,
            }),
    {
        let physical_high = if self.active_low {
            !asserted
        } else {
            asserted
        };
        if physical_high {
            gpio.write(bank_off + regs::K3_GPIO_GPSR, bit)
        } else {
            gpio.write(bank_off + regs::K3_GPIO_GPCR, bit)
        }
    }

    /// Resets the PHY: the pin becomes an output, the reset is released,
    /// asserted and released again, with the waits in between.
    pub open spec fn sequence(self) -> Seq<Op> {
        seq![
            Op::Write { reg: self.bank_reg(regs::K3_GPIO_GSDR), value: 1u32 << self.pin },
            self.level(false),
            Op::Delay {
                us: if self.delays_us.0 > 2 {
                    self.delays_us.0
                } else {
                    2
                },
            },
            self.level(true),
            Op::Delay { us: self.delays_us.1 },
            self.level(false),
            Op::Delay { us: self.delays_us.2 },
        ]
    }

    /// Resets the PHY.
    pub fn apply(self) -> (script: Script)
        requires
            self.valid(),
        ensures
            script@ == self.sequence(),
    {
        let gpio = Mmio::new(Window::Gpio);
        let bank_off: u32 = self.bank * regs::K3_GPIO_BANK_STRIDE;
        let bit: u32 = 1u32 << self.pin;
        let first_us: u32 = if self.delays_us.0 > 2 {
            self.delays_us.0
        } else {
            2
        };
        let mut script = Script::new();
        script.push(gpio.write(bank_off + regs::K3_GPIO_GSDR, bit));
        script.push(self.write_level(&gpio, bank_off, bit, false));
        script.delay(first_us);
        script.push(self.write_level(&gpio, bank_off, bit, true));
        script.delay(self.delays_us.1);
        script.push(self.write_level(&gpio, bank_off, bit, false));
        script.delay(self.delays_us.2);
        script
    }
}

/// Glue settings that a node describes.
#[derive(Clone, Copy, Debug, PartialEq, Eq)]
pub struct GlueConfig {
    pub phy_mode: PhyMode,
    /// Phandle of the system controller.
    pub apmu: Option<u32>,
    pub ctrl_offset: Option<u32>,
    pub dline_offset: Option<u32>,
    pub wake_irq_enable: bool,
    pub tuning: ClockTuning,
    pub phy_reset: Option<GpioReset>,
}

/// What applying the glue settings takes.
#[derive(Debug)]
pub struct GluePlan {
    /// Phandle of the system controller that `syscon` addresses.
    pub apmu: u32,
    /// Accesses to the system controller.
    pub syscon: Script,
    /// The reset of the PHY, to be carried out after `syscon`: the phandle of
    /// the GPIO controller and the accesses to it.
    pub reset: Option<(u32, Script)>,
}

/// A phase property: its number, or 255 if that is less, and 0 without one.
pub open spec fn phase(node: Node, name: Seq<char>) -> u8 {
    match fdt::number(node, name) {
        Some(value) => if value < 255 {
            value as u8
        } else {
            255
        },
        None => 0,
    }
}

fn prop_phase(node: &Node, name: &str) -> (value: u8)
    ensures
        value == phase(*node, name@),
{
    match prop_u32(node, name) {
        Some(value) => {
            if value < 255 {
                value as u8
            } else {
                255
            }
        },
        None => 0,
    }
}

/// A syscon register.
pub open spec fn syscon_reg(offset: u32) -> Reg {
    Reg { window: Window::Syscon, offset: offset as usize }
}

/// Replaces the `mask` bits of a syscon register by those of `value`.
pub open spec fn syscon_bits(offset: u32, mask: u32, value: u32) -> Op {
    Op::Update { reg: syscon_reg(offset), clear: mask, set: value & mask }
}

/// Replaces the `mask` bits of a register by those of `value`.
pub fn update_bits(mmio: &Mmio, offset: u32, mask: u32, value: u32) -> (op: Op)
    ensures
        op == (Op::Update { reg: mmio.reg(offset), clear: mask, set: value & mask }),
{
    mmio.update(offset, mask, value & mask)
}

impl GlueConfig {
    /// The clock tuning that a node describes.
    pub open spec fn described_tuning(node: Node) -> ClockTuning {
        let tx_phase = phase(node, "spacemit,tx-phase"@);
        let rx_phase = phase(node, "spacemit,rx-phase"@);
        if !fdt::present(node, "spacemit,clk-tuning-enable"@) {
            ClockTuning::Disabled
        } else if fdt::present(node, "spacemit,clk-tuning-by-delayline"@) {
            ClockTuning::ByDelayLine { tx_phase, rx_phase }
        } else if fdt::present(node, "spacemit,clk-tuning-by-clk-revert"@) {
            ClockTuning::ByClockRevert { tx_phase, rx_phase }
        } else {
            ClockTuning::ByReg { tx_phase, rx_phase }
        }
    }

    /// The glue settings that a node describes.
    pub open spec fn described(node: Node) -> GlueConfig {
        GlueConfig {
            phy_mode: PhyMode::named(fdt::string(node, "phy-mode"@)),
            apmu: fdt::number(node, "spacemit,apmu"@),
            ctrl_offset: fdt::number(node, "spacemit,ctrl-offset"@),
            dline_offset: fdt::number(node, "spacemit,dline-offset"@),
            wake_irq_enable: fdt::present(node, "spacemit,wake-irq-enable"@),
            tuning: GlueConfig::described_tuning(node),
            phy_reset: GpioReset::described(node),
        }
    }

    /// The glue settings that a node describes.
    pub fn parse(node: &Node) -> (config: GlueConfig)
        ensures
            config == GlueConfig::described(*node),
    {
        let phy_mode = match prop_str(node, "phy-mode") {
            Some(name) => PhyMode::parse(Some(name.as_str())),
            None => PhyMode::parse(None),
        };
        let tx_phase: u8 = prop_phase(node, "spacemit,tx-phase");
        let rx_phase: u8 = prop_phase(node, "spacemit,rx-phase");
        let tuning = if has_prop(node, "spacemit,clk-tuning-enable") {
            if has_prop(node, "spacemit,clk-tuning-by-delayline") {
                ClockTuning::ByDelayLine { tx_phase, rx_phase }
            } else if has_prop(node, "spacemit,clk-tuning-by-clk-revert") {
                ClockTuning::ByClockRevert { tx_phase, rx_phase }
            } else {
                ClockTuning::ByReg { tx_phase, rx_phase }
            }
        } else {
            ClockTuning::Disabled
        };
        GlueConfig {
            phy_mode,
            apmu: prop_u32(node, "spacemit,apmu"),
            ctrl_offset: prop_u32(node, "spacemit,ctrl-offset"),
            dline_offset: prop_u32(node, "spacemit,dline-offset"),
            wake_irq_enable: has_prop(node, "spacemit,wake-irq-enable"),
            tuning,
            phy_reset: GpioReset::parse(node),
        }
    }

    /// Turns the bus clock on and selects the interface, then releases the bus
    /// reset and routes the wake interrupt.
    pub open spec fn control_sequence(self, ctrl_offset: u32) -> Seq<Op> {
        seq![
            syscon_bits(
                ctrl_offset,
                regs::EMAC_BUS_CLK_EN | regs::PHY_INTF_MODE_MASK,
                regs::EMAC_BUS_CLK_EN | self.phy_mode.syscon_value(),
            ),
            Op::Delay { us: 100 },
            syscon_bits(
                ctrl_offset,
                regs::EMAC_BUS_RST_DEASSERT | regs::WOL_WAKE_IRQ_EN,
                regs::EMAC_BUS_RST_DEASSERT | if self.wake_irq_enable {
                    regs::WOL_WAKE_IRQ_EN
                } else {
                    0
                },
            ),
            Op::Delay { us: 100 },
        ]
    }

    /// Enables the delay lines, with the phases as codes if they are what
    /// shifts the clocks.
    pub open spec fn delay_line(self, dline_offset: u32) -> Op {
        match self.tuning {
            ClockTuning::ByDelayLine { tx_phase, rx_phase } => syscon_bits(
                dline_offset,
                regs::EMAC_TX_DLINE_EN | regs::EMAC_RX_DLINE_EN | (regs::EMAC_TX_DLINE_CODE_MASK
                    | regs::EMAC_RX_DLINE_CODE_MASK),
                regs::EMAC_TX_DLINE_EN | regs::EMAC_RX_DLINE_EN | (((tx_phase as u32) << 24) | ((
                rx_phase as u32) << 8)),
            ),
            _ => syscon_bits(
                dline_offset,
                regs::EMAC_TX_DLINE_EN | regs::EMAC_RX_DLINE_EN,
                regs::EMAC_TX_DLINE_EN | regs::EMAC_RX_DLINE_EN,
            ),
        }
    }

    /// Everything that the settings ask of the system controller. The control
    /// register is read back once it is set.
    pub open spec fn syscon_sequence(self, ctrl_offset: u32) -> Seq<Op> {
        let control = self.control_sequence(ctrl_offset).push(
            Op::Read { reg: syscon_reg(ctrl_offset) },
        );
        match self.dline_offset {
            Some(dline_offset) => control.push(self.delay_line(dline_offset)),
            None => control,
        }
    }

    /// What applying the settings takes; nothing at all if the node names no
    /// system controller or no control register.
    pub fn apply(self) -> (plan: Option<GluePlan>)
        requires
            self.phy_reset matches Some(reset) ==> reset.valid(),
        ensures
            plan is Some <==> self.apmu is Some && self.ctrl_offset is Some,
            plan matches Some(plan) ==> {
                &&& self.apmu == Some(plan.apmu)
                &&& plan.syscon@ == self.syscon_sequence(self.ctrl_offset->0)
                &&& plan.reset is Some <==> self.phy_reset is Some
                &&& plan.reset matches Some(reset) ==> reset.0 == self.phy_reset->0.gpio_phandle
                    && reset.1@ == self.phy_reset->0.sequence()
            },
    {
        let apmu: u32 = match self.apmu {
            Some(apmu) => apmu,
            None => {
                return None;
            },
        };
        let ctrl_offset: u32 = match self.ctrl_offset {
            Some(offset) => offset,
            None => {
                return None;
            },
        };
        let mmio = Mmio::new(Window::Syscon);
        let mut syscon = Script::new();
        syscon.push(
            update_bits(
                &mmio,
                ctrl_offset,
                regs::EMAC_BUS_CLK_EN | regs::PHY_INTF_MODE_MASK,
                regs::EMAC_BUS_CLK_EN | self.phy_mode.syscon_value(),
            ),
        );
        syscon.delay(100);
        let wake: u32 = if self.wake_irq_enable {
            regs::WOL_WAKE_IRQ_EN
        } else {
            0
        };
        syscon.push(
            update_bits(
                &mmio,
                ctrl_offset,
                regs::EMAC_BUS_RST_DEASSERT | regs::WOL_WAKE_IRQ_EN,
                regs::EMAC_BUS_RST_DEASSERT | wake,
            ),
        );
        syscon.delay(100);
        syscon.push(mmio.read(ctrl_offset));
        if let Some(dline_offset) = self.dline_offset {
            let mut set: u32 = regs::EMAC_TX_DLINE_EN | regs::EMAC_RX_DLINE_EN;
            let mut mask: u32 = set;
            if let ClockTuning::ByDelayLine { tx_phase, rx_phase } = self.tuning {
                set = set | (((tx_phase as u32) << 24) | ((rx_phase as u32) << 8));
                mask = mask | (regs::EMAC_TX_DLINE_CODE_MASK | regs::EMAC_RX_DLINE_CODE_MASK);
            }
            syscon.push(update_bits(&mmio, dline_offset, mask, set));
        }
        let reset: Option<(u32, Script)> = match self.phy_reset {
            Some(reset) => Some((reset.gpio_phandle, reset.apply())),
            None => None,
        };
        Some(GluePlan { apmu, syscon, reset })
    }
}

/// The glue settings leave the bus clock on, the bus reset released, the
/// interface selected and the wake interrupt routed as asked, and keep every
/// other bit of the control register.
pub proof fn law_glue_selects_the_interface(
    config: GlueConfig,
    ctrl_offset: u32,
    image: Map<Reg, u32>,
)
    ensures
        ({
            let before = image[syscon_reg(ctrl_offset)];
            let after = script::settle(config.control_sequence(ctrl_offset), image)[syscon_reg(
                ctrl_offset,
            )];
            let touched = regs::EMAC_BUS_CLK_EN | regs::PHY_INTF_MODE_MASK
                | regs::EMAC_BUS_RST_DEASSERT | regs::WOL_WAKE_IRQ_EN;
            &&& after & regs::EMAC_BUS_CLK_EN != 0
            &&& after & regs::EMAC_BUS_RST_DEASSERT != 0
            &&& after & regs::PHY_INTF_MODE_MASK == config.phy_mode.syscon_value()
            &&& (after & regs::WOL_WAKE_IRQ_EN != 0) == config.wake_irq_enable
            &&& after & !touched == before & !touched
        }),
{
    reveal_with_fuel(script::settle, 5);
    let ops = config.control_sequence(ctrl_offset);
    assert(ops.drop_first().drop_first().drop_first().drop_first() =~= Seq::empty());
    let before = image[syscon_reg(ctrl_offset)];
    let mode = config.phy_mode.syscon_value();
    let wake = if config.wake_irq_enable {
        regs::WOL_WAKE_IRQ_EN
    } else {
        0
    };
    let clocked = script::updated(
        before,
        regs::EMAC_BUS_CLK_EN | regs::PHY_INTF_MODE_MASK,
        (regs::EMAC_BUS_CLK_EN | mode) & (regs::EMAC_BUS_CLK_EN | regs::PHY_INTF_MODE_MASK),
    );
    let after = script::updated(
        clocked,
        regs::EMAC_BUS_RST_DEASSERT | regs::WOL_WAKE_IRQ_EN,
        (regs::EMAC_BUS_RST_DEASSERT | wake) & (regs::EMAC_BUS_RST_DEASSERT
            | regs::WOL_WAKE_IRQ_EN),
    );
    assert({
        let touched = regs::EMAC_BUS_CLK_EN | regs::PHY_INTF_MODE_MASK
            | regs::EMAC_BUS_RST_DEASSERT | regs::WOL_WAKE_IRQ_EN;
        &&& after & regs::EMAC_BUS_CLK_EN != 0
        &&& after & regs::EMAC_BUS_RST_DEASSERT != 0
        &&& after & regs::PHY_INTF_MODE_MASK == mode
        &&& (after & regs::WOL_WAKE_IRQ_EN != 0) == (wake != 0)
        &&& after & !touched == before & !touched
        &&& regs::WOL_WAKE_IRQ_EN != 0
    }) by (bit_vector)
        requires
            mode == regs::PHY_INTF_MII || mode == regs::PHY_INTF_RMII || mode
                == regs::PHY_INTF_RGMII,
            wake == 0 || wake == regs::WOL_WAKE_IRQ_EN,
            clocked == (before & !(regs::EMAC_BUS_CLK_EN | regs::PHY_INTF_MODE_MASK)) | ((
            regs::EMAC_BUS_CLK_EN | mode) & (regs::EMAC_BUS_CLK_EN | regs::PHY_INTF_MODE_MASK)),
            after == (clocked & !(regs::EMAC_BUS_RST_DEASSERT | regs::WOL_WAKE_IRQ_EN)) | ((
            regs::EMAC_BUS_RST_DEASSERT | wake) & (regs::EMAC_BUS_RST_DEASSERT
                | regs::WOL_WAKE_IRQ_EN)),
    ;
}

} // verus!
