//! USB 3 host controller and its PHYs.
//!
//! The controller is clocked and taken out of reset first. Its PHY interfaces
//! are then woken, the PHYs are set up, and the controller is put into host
//! mode.

use vstd::prelude::*;
use fdt_edit::Node;
use crate::fdt;
use crate::fdt::{has_prop, prop_bytes, prop_str, prop_str_list, prop_u32, prop_u32_list, same_str};
use crate::script;
use crate::script::{core_reg, Op, Reg, Script, Window};
use crate::usb::regs;

verus! {

/// Name under which the host is registered.
pub const DRIVER_NAME: &'static str = "usb-k3com260-dwc3";

/// Binding of the controller.
pub const COMPATIBLE: &'static str = "spacemit,k1-dwc3";

/// Sizes of the register windows if the device tree does not give them.
pub const DWC3_MMIO_DEFAULT_SIZE: usize = 0x10000;
pub const PHY_MMIO_DEFAULT_SIZE: usize = 0x200;

/// Time between two looks at a PHY.
pub const POLL_DELAY_US: u32 = 500;

/// How often the end of calibration and the locks of the PLLs are looked for:
/// for 2 s, 500 ms and 50 ms.
pub const PU_CAL_POLLS: u32 = 4001;
pub const PLL_POLLS: u32 = 1001;
pub const USB2_PLL_POLLS: u32 = 101;

/// A register of the system controller.
#[verifier::allow_in_spec]
pub fn apmu(offset: usize) -> (reg: Reg)
    returns
        (Reg { window: Window::Syscon, offset }),
{
    Reg { window: Window::Syscon, offset }
}

/// A register of the calibration block.
#[verifier::allow_in_spec]
pub fn apb_spare(offset: usize) -> (reg: Reg)
    returns
        (Reg { window: Window::ApbSpare, offset }),
{
    Reg { window: Window::ApbSpare, offset }
}

/// A register of the USB 2 PHY.
#[verifier::allow_in_spec]
pub fn usb2_phy(offset: usize) -> (reg: Reg)
    returns
        (Reg { window: Window::Usb2Phy, offset }),
{
    Reg { window: Window::Usb2Phy, offset }
}

/// A register of the USB 3 PHY.
#[verifier::allow_in_spec]
pub fn usb3_phy(offset: usize) -> (reg: Reg)
    returns
        (Reg { window: Window::Usb3Phy, offset }),
{
    Reg { window: Window::Usb3Phy, offset }
}

/// What the device tree asks for.
#[derive(Clone, Copy, Debug, PartialEq, Eq, Structural)]
pub struct K3Dwc3Quirks {
    pub dis_enblslpm: bool,
    pub dis_tx_ipgap_linecheck: bool,
    pub parkmode_disable_ss: bool,
}

impl K3Dwc3Quirks {
    /// What the node of a controller asks for.
    pub fn parse(node: &Node) -> (quirks: K3Dwc3Quirks)
        ensures
            quirks == (K3Dwc3Quirks {
                dis_enblslpm: fdt::present(*node, "snps,dis_enblslpm_quirk"@),
                dis_tx_ipgap_linecheck: fdt::present(*node, "snps,dis-tx-ipgap-linecheck-quirk"@),
                parkmode_disable_ss: fdt::present(*node, "snps,parkmode-disable-ss-quirk"@),
            }),
    {
        K3Dwc3Quirks {
            dis_enblslpm: has_prop(node, "snps,dis_enblslpm_quirk"),
            dis_tx_ipgap_linecheck: has_prop(node, "snps,dis-tx-ipgap-linecheck-quirk"),
            parkmode_disable_ss: has_prop(node, "snps,parkmode-disable-ss-quirk"),
        }
    }
}

/// Whether a controller is to work as a host.
pub fn is_host(node: &Node) -> (result: bool)
    ensures
        result == (fdt::string(*node, "dr_mode"@) == Some("host"@)),
{
    match prop_str(node, "dr_mode") {
        Some(mode) => same_str(mode.as_str(), "host"),
        None => false,
    }
}

/// The node that a property refers to: its first number.
pub fn prop_phandle(node: &Node, name: &str) -> (phandle: Option<u32>)
    ensures
        phandle == (if fdt::numbers(*node, name@).len() > 0 {
            Some(fdt::numbers(*node, name@)[0])
        } else {
            None
        }),
{
    let cells = prop_u32_list(node, name);
    if cells.len() > 0 {
        Some(cells[0])
    } else {
        None
    }
}

/// The lane of a combined PHY, if the PHY is one.
pub fn combo_usb_bit(node: &Node) -> (bit: Option<u32>)
    ensures
        bit == fdt::number(*node, "combo-usb-bit"@),
{
    prop_u32(node, "combo-usb-bit")
}

/// Why the PHYs of a controller are not found.
#[derive(Clone, Copy, Debug, PartialEq, Eq, Structural)]
pub enum PhyLookup {
    NoPhys,
    NoNames,
    NoUsb2,
    NoUsb3,
}

/// The reference under a name: the one at the place of the first entry with
/// that name.
pub open spec fn named_phy(names: Seq<Seq<char>>, phys: Seq<u32>, name: Seq<char>) -> Option<u32> {
    match names.index_of_first(name) {
        Some(i) => if i < phys.len() {
            Some(phys[i])
        } else {
            None
        },
        None => None,
    }
}

/// The references to the USB 2 and the USB 3 PHY of a controller.
pub open spec fn phys_of(node: Node) -> Result<(u32, u32), PhyLookup> {
    let phys = fdt::numbers(node, "phys"@);
    let names = fdt::strings(node, "phy-names"@);
    if !fdt::present(node, "phys"@) {
        Err(PhyLookup::NoPhys)
    } else if !fdt::present(node, "phy-names"@) {
        Err(PhyLookup::NoNames)
    } else {
        match (named_phy(names, phys, "usb2-phy"@), named_phy(names, phys, "usb3-phy"@)) {
            (None, _) => Err(PhyLookup::NoUsb2),
            (Some(_), None) => Err(PhyLookup::NoUsb3),
            (Some(usb2), Some(usb3)) => Ok((usb2, usb3)),
        }
    }
}

fn pick_phy(names: &Vec<String>, phys: &Vec<u32>, name: &str, Ghost(texts): Ghost<Seq<Seq<char>>>)
    -> (found: Option<u32>)
    requires
        names@.len() == texts.len(),
        forall|i: int| 0 <= i < texts.len() ==> (#[trigger] names@[i])@ == texts[i],
    ensures
        found == named_phy(texts, phys@, name@),
{
    for i in 0..names.len()
        invariant
            names@.len() == texts.len(),
            forall|j: int| 0 <= j < texts.len() ==> (#[trigger] names@[j])@ == texts[j],
            forall|j: int| 0 <= j < i ==> texts[j] != name@,
    {
        assert(names@[i as int]@ == texts[i as int]);
        if same_str(names[i].as_str(), name) {
            proof {
                texts.index_of_first_ensures(name@);
                assert(texts.contains(name@));
            }
            return if i < phys.len() {
                Some(phys[i])
            } else {
                None
            };
        }
    }
    proof {
        texts.index_of_first_ensures(name@);
    }
    None
}

/// The references to the USB 2 and the USB 3 PHY of a controller, by the names
/// that its node gives them.
pub fn parse_phys(node: &Node) -> (result: Result<(u32, u32), PhyLookup>)
    ensures
        result == phys_of(*node),
{
    if prop_bytes(node, "phys").is_none() {
        return Err(PhyLookup::NoPhys);
    }
    let phys = prop_u32_list(node, "phys");
    if prop_bytes(node, "phy-names").is_none() {
        return Err(PhyLookup::NoNames);
    }
    let names = prop_str_list(node, "phy-names");
    let ghost texts = fdt::strings(*node, "phy-names"@);
    let usb2 = pick_phy(&names, &phys, "usb2-phy", Ghost(texts));
    let usb3 = pick_phy(&names, &phys, "usb3-phy", Ghost(texts));
    match usb2 {
        None => Err(PhyLookup::NoUsb2),
        Some(usb2) => match usb3 {
            None => Err(PhyLookup::NoUsb3),
            Some(usb3) => Ok((usb2, usb3)),
        },
    }
}

/// The size rounded up to whole pages.
pub fn align_up_4k(size: usize) -> (aligned: usize)
    requires
        size + 0xfff <= usize::MAX,
    ensures
        aligned == (size + 0xfff) / 0x1000 * 0x1000,
{
    (size + 0xfff) / 0x1000 * 0x1000
}

/// How much of a register window to map: whole pages, and at least one.
pub fn map_size(reg_size: Option<u64>, default_size: usize) -> (size: usize)
    requires
        reg_size matches Some(given) ==> given + 0xfff <= usize::MAX,
        default_size + 0xfff <= usize::MAX,
    ensures
        ({
            let given = match reg_size {
                Some(given) => given as int,
                None => default_size as int,
            };
            size == (if given == 0 {
                0x1000
            } else {
                (given + 0xfff) / 0x1000 * 0x1000
            })
        }),
{
    let given: usize = match reg_size {
        Some(given) => given as usize,
        None => default_size,
    };
    let least: usize = if given == 0 {
        1
    } else {
        given
    };
    align_up_4k(least)
}

/// Clocks the controller and takes it through a reset.
pub fn clock_and_reset() -> (accesses: Script)
    ensures
        accesses@ == seq![
            script::set_bits(apmu(regs::APMU_USB_CLK_RES_CTRL), regs::USB3_PORTB_BUS_CLK_GATE),
            Op::Read { reg: apmu(regs::APMU_USB_CLK_RES_CTRL) },
            script::clear_bits(apmu(regs::APMU_USB_CLK_RES_CTRL), regs::USB3_PORTB_RESET_DEASSERT),
            Op::Delay { us: 2 },
            script::set_bits(apmu(regs::APMU_USB_CLK_RES_CTRL), regs::USB3_PORTB_RESET_DEASSERT),
            Op::Read { reg: apmu(regs::APMU_USB_CLK_RES_CTRL) },
        ],
{
    let ctrl = apmu(regs::APMU_USB_CLK_RES_CTRL);
    let mut accesses = Script::new();
    accesses.set(ctrl, regs::USB3_PORTB_BUS_CLK_GATE);
    accesses.read(ctrl);
    accesses.clear(ctrl, regs::USB3_PORTB_RESET_DEASSERT);
    accesses.delay(2);
    accesses.set(ctrl, regs::USB3_PORTB_RESET_DEASSERT);
    accesses.read(ctrl);
    accesses
}

/// Where the operational registers begin.
pub fn op_regs_base(caplength: u32) -> (base: usize)
    ensures
        base == caplength % 256,
{
    (caplength % 256) as usize
}

/// How many ports the controller has.
pub fn port_count(hcsparams1: u32) -> (count: usize)
    ensures
        count == hcsparams1 / 0x100_0000 % 128,
{
    (hcsparams1 / 0x100_0000 % 128) as usize
}

/// The status register of a port.
pub open spec fn portsc(caplength: u32, port: int) -> Reg {
    core_reg((caplength % 256 + regs::XHCI_PORTSC_BASE + regs::XHCI_PORTSC_STRIDE * port) as usize)
}

/// Reads the status of the controller.
pub fn read_status(caplength: u32) -> (access: Op)
    ensures
        access == (Op::Read { reg: core_reg((caplength % 256 + regs::XHCI_USBSTS) as usize) }),
{
    Op::Read { reg: core_reg(op_regs_base(caplength) + regs::XHCI_USBSTS) }
}

/// Reads the status of every port, and then waits a second if there is one.
pub fn read_ports(caplength: u32, hcsparams1: u32) -> (accesses: Script)
    ensures
        ({
            let count = (hcsparams1 / 0x100_0000 % 128) as nat;
            let reads = Seq::new(count, |port: int| Op::Read { reg: portsc(caplength, port) });
            accesses@ == (if count == 0 {
                Seq::empty()
            } else {
                reads.push(Op::Delay { us: 1_000_000 })
            })
        }),
{
    let base: usize = op_regs_base(caplength);
    let count: usize = port_count(hcsparams1);
    let mut accesses = Script::new();
    for port in 0..count
        invariant
            base == caplength % 256,
            count < 128,
            accesses@.len() == port,
            forall|i: int|
                0 <= i < port ==> #[trigger] accesses@[i] == (Op::Read {
                    reg: portsc(caplength, i),
                }),
    {
        accesses.read(
            core_reg(base + regs::XHCI_PORTSC_BASE + regs::XHCI_PORTSC_STRIDE * port),
        );
    }
    let ghost reads = Seq::new(count as nat, |port: int| Op::Read { reg: portsc(caplength, port) });
    assert(accesses@ =~= reads);
    if count > 0 {
        accesses.delay(1_000_000);
    }
    accesses
}

/// Turns the power of every port off, so that the reset that follows is not
/// taken for devices coming and going.
pub fn dwc3_power_off_roothub_ports(caplength: u32, hcsparams1: u32) -> (accesses: Script)
    ensures
        accesses@ == Seq::new(
            (hcsparams1 / 0x100_0000 % 128) as nat,
            |port: int|
                script::clear_bits(portsc(caplength, port), regs::XHCI_PORTSC_PORT_POWER),
        ),
{
    let base: usize = op_regs_base(caplength);
    let count: usize = port_count(hcsparams1);
    let mut accesses = Script::new();
    for port in 0..count
        invariant
            base == caplength % 256,
            count < 128,
            accesses@.len() == port,
            forall|i: int|
                0 <= i < port ==> #[trigger] accesses@[i] == script::clear_bits(
                    portsc(caplength, i),
                    regs::XHCI_PORTSC_PORT_POWER,
                ),
    {
        accesses.clear(
            core_reg(base + regs::XHCI_PORTSC_BASE + regs::XHCI_PORTSC_STRIDE * port),
            regs::XHCI_PORTSC_PORT_POWER,
        );
    }
    assert(accesses@ =~= Seq::new(
        count as nat,
        |port: int| script::clear_bits(portsc(caplength, port), regs::XHCI_PORTSC_PORT_POWER),
    ));
    accesses
}

/// Settings of the USB 2 PHY interface that are replaced.
pub const USB2_INTERFACE_MASK: u32 = regs::GUSB2PHYCFG_PHYIF_MASK
    | regs::GUSB2PHYCFG_USBTRDTIM_MASK | regs::GUSB2PHYCFG_SUSPHY
    | regs::GUSB2PHYCFG_TOUTCAL_MASK;

/// Settings of the USB 2 PHY interface.
pub const USB2_INTERFACE: u32 = regs::GUSB2PHYCFG_USBTRDTIM_UTMI_8BIT
    | regs::GUSB2PHYCFG_TOUTCAL_MASK;

/// Wakes the PHY interfaces of the controller, before the PHYs are set up.
pub fn dwc3_phy_iface_setup(quirks: &K3Dwc3Quirks) -> (accesses: Script)
    ensures
        accesses@ == seq![
            script::clear_bits(
                core_reg(regs::DWC3_GUSB3PIPECTL0),
                regs::GUSB3PIPECTL_SUSPHY | regs::GUSB3PIPECTL_UX_EXIT_PX,
            ),
            if quirks.dis_enblslpm {
                Op::Update {
                    reg: core_reg(regs::DWC3_GUSB2PHYCFG0),
                    clear: USB2_INTERFACE_MASK | regs::GUSB2PHYCFG_ENBLSLPM,
                    set: USB2_INTERFACE,
                }
            } else {
                Op::Update {
                    reg: core_reg(regs::DWC3_GUSB2PHYCFG0),
                    clear: USB2_INTERFACE_MASK,
                    set: USB2_INTERFACE | regs::GUSB2PHYCFG_ENBLSLPM,
                }
            },
        ],
{
    let mut accesses = Script::new();
    accesses.clear(
        core_reg(regs::DWC3_GUSB3PIPECTL0),
        regs::GUSB3PIPECTL_SUSPHY | regs::GUSB3PIPECTL_UX_EXIT_PX,
    );
    if quirks.dis_enblslpm {
        accesses.update(
            core_reg(regs::DWC3_GUSB2PHYCFG0),
            USB2_INTERFACE_MASK | regs::GUSB2PHYCFG_ENBLSLPM,
            USB2_INTERFACE,
        );
    } else {
        accesses.update(
            core_reg(regs::DWC3_GUSB2PHYCFG0),
            USB2_INTERFACE_MASK,
            USB2_INTERFACE | regs::GUSB2PHYCFG_ENBLSLPM,
        );
    }
    accesses
}

/// Why a PHY does not come up.
#[derive(Clone, Copy, Debug, PartialEq, Eq, Structural)]
pub enum PhyError {
    Usb2PllTimeout,
    Usb3PllTimeout,
    InvalidComboBit(u32),
}

/// Divider of the USB 2 PHY for a 24 MHz reference.
pub const USB2_DIVIDER: u32 = regs::U2PHY_FDIV_REG_VAL | regs::U2PHY_SEL_FREQ_24MHZ
    | regs::U2PHY_DIV_LOCAL_EN;

/// Clocks and resets of the USB 2 PHY while it works.
pub const USB2_RUNNING: u32 = regs::U2PHY_HS_LINE_TX_MODE | regs::U2PHY_FS_LINE_TX_MODE
    | regs::U2PHY_CLK_CDR_EN | regs::U2PHY_CLK_PLL_EN | regs::U2PHY_CLK_MAC_EN
    | regs::U2PHY_PLL_RSTN | regs::U2PHY_CDR_RSTN | regs::U2PHY_MAC_RSTN;

/// Transmit path of the USB 2 PHY while it works.
pub const USB2_TX_PATH: u32 = regs::U2PHY_HSTXP_RSTN | regs::U2PHY_CLK_HSTXP_EN
    | regs::U2PHY_HSTXP_MODE;

/// Sets the USB 2 PHY up: its PLL must lock on the reference, and its clocks
/// and transmit path are turned on.
pub fn k3_usb2_phy_init() -> (accesses: Script)
    ensures
        accesses@ == seq![
            Op::Delay { us: 200 },
            Op::Write { reg: usb2_phy(regs::U2PHY_PLL_DIV_CFG), value: USB2_DIVIDER },
            Op::Poll {
                reg: usb2_phy(regs::U2PHY_RST_MODE_CTRL),
                mask: regs::U2PHY_PLL_RDY,
                value: regs::U2PHY_PLL_RDY,
                attempts: USB2_PLL_POLLS,
                interval_us: POLL_DELAY_US,
                patient: false,
                required: true,
            },
            Op::Read { reg: usb2_phy(regs::U2PHY_RST_MODE_CTRL) },
            Op::Write { reg: usb2_phy(regs::U2PHY_RST_MODE_CTRL), value: USB2_RUNNING },
            Op::Read { reg: usb2_phy(regs::U2PHY_RST_MODE_CTRL) },
            Op::Write { reg: usb2_phy(regs::U2PHY_HSTXP_HW_CTRL), value: USB2_TX_PATH },
            Op::Read { reg: usb2_phy(regs::U2PHY_HSTXP_HW_CTRL) },
            script::set_bits(usb2_phy(regs::U2PHY_TX_HOST_CTRL), regs::U2PHY_HST_DISC_AUTO_CLR),
            Op::Read { reg: usb2_phy(regs::U2PHY_TX_HOST_CTRL) },
        ],
{
    let mut accesses = Script::new();
    accesses.delay(200);
    accesses.write(usb2_phy(regs::U2PHY_PLL_DIV_CFG), USB2_DIVIDER);
    accesses.push(
        Op::Poll {
            reg: usb2_phy(regs::U2PHY_RST_MODE_CTRL),
            mask: regs::U2PHY_PLL_RDY,
            value: regs::U2PHY_PLL_RDY,
            attempts: USB2_PLL_POLLS,
            interval_us: POLL_DELAY_US,
            patient: false,
            required: true,
        },
    );
    accesses.read(usb2_phy(regs::U2PHY_RST_MODE_CTRL));
    accesses.write(usb2_phy(regs::U2PHY_RST_MODE_CTRL), USB2_RUNNING);
    accesses.read(usb2_phy(regs::U2PHY_RST_MODE_CTRL));
    accesses.write(usb2_phy(regs::U2PHY_HSTXP_HW_CTRL), USB2_TX_PATH);
    accesses.read(usb2_phy(regs::U2PHY_HSTXP_HW_CTRL));
    accesses.set(usb2_phy(regs::U2PHY_TX_HOST_CTRL), regs::U2PHY_HST_DISC_AUTO_CLR);
    accesses.read(usb2_phy(regs::U2PHY_TX_HOST_CTRL));
    accesses
}

/// What the setup of the USB 2 PHY came to; its wait may have run out.
pub fn usb2_phy_result(finished: bool) -> (result: Result<(), PhyError>)
    ensures
        result == (if finished {
            Ok::<(), PhyError>(())
        } else {
            Err(PhyError::Usb2PllTimeout)
        }),
{
    if finished {
        Ok(())
    } else {
        Err(PhyError::Usb2PllTimeout)
    }
}

/// Trim of a PHY that is used if calibration does not end.
pub const TRIM_MASK: u32 = regs::R_CAL_OVRD_TRIM_MASK | regs::R_CAL_OVRD_NTRIM_MASK
    | regs::R_CAL_OVRD_PTRIM_MASK | regs::R_CAL_OVRD_STABLE_VAL;

pub const TRIM: u32 = regs::R_CAL_OVRD_TRIM_EN | regs::R_CAL_OVRD_STABLE_VAL
    | regs::R_CAL_OVRD_NTRIM_DEFAULT | regs::R_CAL_OVRD_PTRIM_DEFAULT;

/// Clocks of the USB 3 PHY while it works.
pub const USB3_CLOCKS: u32 = regs::CFG_SW_INIT_DONE | regs::CFG_PU_SSC_OUT | regs::CFG_REFCLK_24M
    | regs::CFG_RXCLK_EN | regs::CFG_PCLK_EN | regs::CFG_PIPE_PCLK_EN | regs::CFG_TXCLK_EN;

/// PLL of the USB 3 PHY: spread down by 5000 ppm, from a 24 MHz reference.
pub const USB3_PLL: u32 = regs::SSC_DOWN_SPREAD1 | regs::SSC_5000PPM | regs::FREF_24M;

/// Receiver settings.
pub const RX_A: u32 = regs::RX_REG0_RLOAD | regs::RX_REG1_RC_CALI_DEFAULT
    | regs::RX_REG1_RTERM_DEFAULT | regs::RX_REG2_PSEL_DEFAULT | regs::RX_REG2_FORCE_CSEL
    | regs::RX_REG2_CSEL_DEFAULT | regs::RX_REG3_RDEG1_DEFAULT | regs::RX_REG3_ADJ_BIAS_DEFAULT
    | regs::RX_REG3_SEL_CBOOST_CODE | regs::RX_REG3_I_LOAD_DEFAULT;

pub const RX_B: u32 = regs::RX_REG4_MANUAL_CFG | regs::RX_REG4_RTERM_SEL | regs::RX_REG4_ENVOS
    | regs::RX_REG4_RDEG2_DEFAULT | regs::RX_REG5_RCELL_BIAS_DEFAULT
    | regs::RX_REG5_RCELL_VCM_DEFAULT | regs::RX_REG6_ADAPT_GAIN_DEFAULT
    | regs::RX_REG6_H1_REG_DEFAULT;

/// The first word of receiver settings.
pub fn rx_reg_a_value() -> (value: u32)
    ensures
        value == RX_A,
{
    RX_A
}

/// The second word of receiver settings.
pub fn rx_reg_b_value() -> (value: u32)
    ensures
        value == RX_B,
{
    RX_B
}

/// Where the setup of the USB 3 PHY stands.
#[derive(Clone, Copy, Debug, PartialEq, Eq)]
pub enum Usb3Step {
    /// Give the lane to USB, and see whether the PHY was set up before.
    Begin,
    /// Calibrate the PHY.
    Calibrate,
    /// Trim it by hand.
    Trim,
    /// Configure it and wait for its PLL.
    Configure,
    /// Turn its receive filter on.
    PowerOn,
    /// Over.
    Over { result: Result<(), PhyError> },
}

/// The setup of the USB 3 PHY.
#[derive(Clone, Copy, Debug, PartialEq, Eq)]
pub struct Usb3Init {
    /// The lane of a combined PHY.
    pub combo_bit: Option<u32>,
    pub step: Usb3Step,
}

/// Begins to set the USB 3 PHY up. Lanes above 2 are refused.
pub fn k3_usb3_phy_init(combo_bit: Option<u32>) -> (init: Usb3Init)
    ensures
        init.combo_bit == combo_bit,
        init.step == (match combo_bit {
            Some(bit) => if bit > 2 {
                Usb3Step::Over { result: Err(PhyError::InvalidComboBit(bit)) }
            } else {
                Usb3Step::Begin
            },
            None => Usb3Step::Begin,
        }),
        init.wf(),
{
    match combo_bit {
        Some(bit) => {
            if bit > 2 {
                return Usb3Init {
                    combo_bit,
                    step: Usb3Step::Over { result: Err(PhyError::InvalidComboBit(bit)) },
                };
            }
        },
        None => {},
    }
    Usb3Init { combo_bit, step: Usb3Step::Begin }
}

/// Configures the USB 3 PHY and waits for its PLL.
pub open spec fn configure_ops() -> Seq<Op> {
    seq![
        script::clear_bits(usb3_phy(regs::PHY_RESET_CFG), regs::EN_SAMPLE_DATA_AFTER_LOCK),
        script::clear_bits(usb3_phy(regs::PHY_PU_CK_REG), regs::PU_REFCLK_100),
        Op::Write { reg: usb3_phy(regs::PHY_PLL_REG1), value: USB3_PLL },
        script::clear_bits(usb3_phy(regs::PHY_PLL_REG2), regs::SEL_REF100),
        Op::Update {
            reg: usb3_phy(regs::PHY_MODE_CFG),
            clear: regs::CFG_LFPS_TPERIOD_MASK,
            set: regs::LFPS_TPERIOD_USB,
        },
        script::set_bits(
            usb3_phy(regs::PHY_ADPT_CFG0),
            regs::AFE_ADPT_RST_OVRD_EN | regs::AFE_ADPT_RST_OVRD_VAL,
        ),
        script::set_bits(
            usb3_phy(regs::PHY_RXEQ_TIME),
            regs::RXEQ_TIME_OVRD_AMP_SOC | regs::AMP_SOC_900M,
        ),
        Op::Write { reg: usb3_phy(regs::PHY_RX_REG_A), value: RX_A },
        Op::Write { reg: usb3_phy(regs::PHY_RX_REG_B), value: RX_B },
        Op::Write { reg: usb3_phy(regs::PHY_CLK_CFG), value: USB3_CLOCKS },
        Op::Read { reg: usb3_phy(regs::PHY_PLL_REG1) },
        Op::Read { reg: usb3_phy(regs::PHY_PLL_REG2) },
        Op::Poll {
            reg: usb3_phy(regs::PHY_CLK_CFG),
            mask: regs::PLL_READY,
            value: regs::PLL_READY,
            attempts: PLL_POLLS,
            interval_us: POLL_DELAY_US,
            patient: false,
            required: true,
        },
        Op::Read { reg: usb3_phy(regs::PHY_CLK_CFG) },
    ]
}

impl Usb3Init {
    /// The lane is one that the PHY has.
    pub open spec fn wf(self) -> bool {
        self.step is Over || (self.combo_bit matches Some(bit) ==> bit <= 2)
    }

    /// The accesses of a step.
    pub open spec fn ops(self) -> Seq<Op> {
        match self.step {
            Usb3Step::Begin => {
                let look = seq![
                    script::clear_bits(
                        usb3_phy(regs::PCIE_PHY_OVERRIDE),
                        regs::OVRD_MPU_U3 | regs::CFG_MPU_U3,
                    ),
                    Op::Read { reg: usb3_phy(regs::PHY_CLK_CFG) },
                ];
                match self.combo_bit {
                    Some(bit) => seq![
                        script::set_bits(
                            apmu(regs::PMUA_PCIE_SUBSYS_MGMT),
                            regs::PU_MATRIX_CONF_X8_DISABLE | (1u32 << bit),
                        ),
                    ] + look,
                    None => look,
                }
            },
            Usb3Step::Calibrate => seq![
                script::set_bits(apb_spare(regs::APB_SPARE_PU_CAL), regs::PU_CAL),
                Op::Poll {
                    reg: apb_spare(regs::APB_SPARE_RCAL_HSIO),
                    mask: regs::PU_CAL_DONE,
                    value: regs::PU_CAL_DONE,
                    attempts: PU_CAL_POLLS,
                    interval_us: POLL_DELAY_US,
                    patient: false,
                    required: true,
                },
            ],
            Usb3Step::Trim => seq![
                Op::Update {
                    reg: apb_spare(regs::APB_SPARE_RCAL_HSIO),
                    clear: TRIM_MASK,
                    set: TRIM,
                },
                script::set_bits(apb_spare(regs::APB_SPARE_RCAL_HSIO), regs::R_CAL_OVRD_STABLE_EN),
            ],
            Usb3Step::Configure => configure_ops(),
            Usb3Step::PowerOn => seq![
                script::set_bits(usb3_phy(regs::PHY_MODE_CFG), regs::CFG_LFPS_RX_FILTER_EN),
            ],
            Usb3Step::Over { .. } => Seq::empty(),
        }
    }

    /// The step after one whose last read returned this, or whose wait ran out.
    pub open spec fn next(self, reply: Option<u32>) -> Usb3Step {
        match self.step {
            Usb3Step::Begin => if reply matches Some(clocks) && clocks & regs::CFG_SW_INIT_DONE != 0 {
                Usb3Step::PowerOn
            } else {
                Usb3Step::Calibrate
            },
            Usb3Step::Calibrate => if reply is Some {
                Usb3Step::Configure
            } else {
                Usb3Step::Trim
            },
            Usb3Step::Trim => Usb3Step::Configure,
            Usb3Step::Configure => if reply is Some {
                Usb3Step::PowerOn
            } else {
                Usb3Step::Over { result: Err(PhyError::Usb3PllTimeout) }
            },
            Usb3Step::PowerOn => Usb3Step::Over { result: Ok(()) },
            Usb3Step::Over { .. } => self.step,
        }
    }

    /// How many steps are left at most.
    pub open spec fn remaining(self) -> nat {
        match self.step {
            Usb3Step::Begin => 5,
            Usb3Step::Calibrate => 4,
            Usb3Step::Trim => 3,
            Usb3Step::Configure => 2,
            Usb3Step::PowerOn => 1,
            Usb3Step::Over { .. } => 0,
        }
    }

    /// The accesses of the current step.
    pub fn script(&self) -> (accesses: Script)
        requires
            self.wf(),
        ensures
            accesses@ == self.ops(),
    {
        let mut accesses = Script::new();
        match self.step {
            Usb3Step::Begin => {
                if let Some(bit) = self.combo_bit {
                    accesses.set(
                        apmu(regs::PMUA_PCIE_SUBSYS_MGMT),
                        regs::PU_MATRIX_CONF_X8_DISABLE | (1u32 << bit),
                    );
                }
                accesses.clear(
                    usb3_phy(regs::PCIE_PHY_OVERRIDE),
                    regs::OVRD_MPU_U3 | regs::CFG_MPU_U3,
                );
                accesses.read(usb3_phy(regs::PHY_CLK_CFG));
                assert(accesses@ =~= self.ops());
            },
            Usb3Step::Calibrate => {
                accesses.set(apb_spare(regs::APB_SPARE_PU_CAL), regs::PU_CAL);
                accesses.push(
                    Op::Poll {
                        reg: apb_spare(regs::APB_SPARE_RCAL_HSIO),
                        mask: regs::PU_CAL_DONE,
                        value: regs::PU_CAL_DONE,
                        attempts: PU_CAL_POLLS,
                        interval_us: POLL_DELAY_US,
                        patient: false,
                        required: true,
                    },
                );
            },
            Usb3Step::Trim => {
                accesses.update(apb_spare(regs::APB_SPARE_RCAL_HSIO), TRIM_MASK, TRIM);
                accesses.set(apb_spare(regs::APB_SPARE_RCAL_HSIO), regs::R_CAL_OVRD_STABLE_EN);
            },
            Usb3Step::Configure => {
                accesses = Usb3Init::configure();
            },
            Usb3Step::PowerOn => {
                accesses = k3_usb3_phy_power_on();
            },
            Usb3Step::Over { .. } => {},
        }
        accesses
    }

    fn configure() -> (accesses: Script)
        ensures
            accesses@ == configure_ops(),
    {
        let mut accesses = Script::new();
        accesses.clear(usb3_phy(regs::PHY_RESET_CFG), regs::EN_SAMPLE_DATA_AFTER_LOCK);
        accesses.clear(usb3_phy(regs::PHY_PU_CK_REG), regs::PU_REFCLK_100);
        accesses.write(usb3_phy(regs::PHY_PLL_REG1), USB3_PLL);
        accesses.clear(usb3_phy(regs::PHY_PLL_REG2), regs::SEL_REF100);
        accesses.update(
            usb3_phy(regs::PHY_MODE_CFG),
            regs::CFG_LFPS_TPERIOD_MASK,
            regs::LFPS_TPERIOD_USB,
        );
        accesses.set(
            usb3_phy(regs::PHY_ADPT_CFG0),
            regs::AFE_ADPT_RST_OVRD_EN | regs::AFE_ADPT_RST_OVRD_VAL,
        );
        accesses.set(
            usb3_phy(regs::PHY_RXEQ_TIME),
            regs::RXEQ_TIME_OVRD_AMP_SOC | regs::AMP_SOC_900M,
        );
        accesses.write(usb3_phy(regs::PHY_RX_REG_A), rx_reg_a_value());
        accesses.write(usb3_phy(regs::PHY_RX_REG_B), rx_reg_b_value());
        accesses.write(usb3_phy(regs::PHY_CLK_CFG), USB3_CLOCKS);
        accesses.read(usb3_phy(regs::PHY_PLL_REG1));
        accesses.read(usb3_phy(regs::PHY_PLL_REG2));
        accesses.push(
            Op::Poll {
                reg: usb3_phy(regs::PHY_CLK_CFG),
                mask: regs::PLL_READY,
                value: regs::PLL_READY,
                attempts: PLL_POLLS,
                interval_us: POLL_DELAY_US,
                patient: false,
                required: true,
            },
        );
        accesses.read(usb3_phy(regs::PHY_CLK_CFG));
        accesses
    }

    /// Takes what the last read of the current step returned, or `None` if its
    /// wait ran out.
    pub fn resume(&mut self, reply: Option<u32>)
        requires
            old(self).wf(),
        ensures
            final(self).step == old(self).next(reply),
            final(self).combo_bit == old(self).combo_bit,
            final(self).wf(),
            !(old(self).step is Over) ==> final(self).remaining() < old(self).remaining(),
    {
        self.step = match self.step {
            Usb3Step::Begin => {
                let done = match reply {
                    Some(clocks) => clocks & regs::CFG_SW_INIT_DONE != 0,
                    None => false,
                };
                if done {
                    Usb3Step::PowerOn
                } else {
                    Usb3Step::Calibrate
                }
            },
            Usb3Step::Calibrate => if reply.is_some() {
                Usb3Step::Configure
            } else {
                Usb3Step::Trim
            },
            Usb3Step::Trim => Usb3Step::Configure,
            Usb3Step::Configure => if reply.is_some() {
                Usb3Step::PowerOn
            } else {
                Usb3Step::Over { result: Err(PhyError::Usb3PllTimeout) }
            },
            Usb3Step::PowerOn => Usb3Step::Over { result: Ok(()) },
            Usb3Step::Over { result } => Usb3Step::Over { result },
        };
    }
}

/// Turns the receive filter of the USB 3 PHY on.
pub fn k3_usb3_phy_power_on() -> (accesses: Script)
    ensures
        accesses@ == seq![
            script::set_bits(usb3_phy(regs::PHY_MODE_CFG), regs::CFG_LFPS_RX_FILTER_EN),
        ],
{
    let mut accesses = Script::new();
    accesses.set(usb3_phy(regs::PHY_MODE_CFG), regs::CFG_LFPS_RX_FILTER_EN);
    accesses
}

/// How the controller saves power.
#[verifier::allow_in_spec]
pub fn power_option(hwparams1: u32) -> (option: u32)
    returns
        hwparams1 / 0x100_0000 % 4,
{
    hwparams1 / 0x100_0000 % 4
}

/// The control register in host mode, before the port direction is set. Clock
/// gating must be off in some revisions.
pub open spec fn host_control(gctl: u32, option: u32, revision: u32) -> u32 {
    let scaled = gctl & !regs::GCTL_SCALEDOWN_MASK;
    if option == 1 {
        if regs::DWC3_REVISION_210A <= revision <= regs::DWC3_REVISION_250A {
            scaled | (regs::GCTL_DSBLCLKGTNG | regs::GCTL_SOFITPSYNC)
        } else {
            scaled & !regs::GCTL_DSBLCLKGTNG
        }
    } else if option == 2 {
        scaled | regs::GCTL_GBLHIBERNATIONEN
    } else {
        scaled
    }
}

/// Bits that the device tree asks for.
pub open spec fn quirk_bits(quirks: K3Dwc3Quirks) -> u32 {
    let linecheck = if quirks.dis_tx_ipgap_linecheck {
        regs::GUCTL1_TX_IPGAP_LINECHECK_DIS
    } else {
        0
    };
    if quirks.parkmode_disable_ss {
        linecheck | regs::GUCTL1_PARKMODE_DISABLE_SS
    } else {
        linecheck
    }
}

/// Where putting the controller into host mode stands.
#[derive(Clone, Copy, Debug, PartialEq, Eq, Structural)]
pub enum HostSetup {
    /// Read the control register.
    Control,
    /// Read how the controller saves power.
    Params { gctl: u32 },
    /// Read the revision.
    Revision { gctl: u32 },
    /// Write the settings.
    Apply { gctl: u32, option: u32, revision: u32 },
    /// Over.
    Done,
}

impl HostSetup {
    /// The accesses of a step.
    pub open spec fn ops(self, quirks: K3Dwc3Quirks) -> Seq<Op> {
        match self {
            HostSetup::Control => seq![Op::Read { reg: core_reg(regs::DWC3_GCTL) }],
            HostSetup::Params { .. } => seq![Op::Read { reg: core_reg(regs::DWC3_GHWPARAMS1) }],
            HostSetup::Revision { .. } => seq![Op::Read { reg: core_reg(regs::DWC3_GSNPSID) }],
            HostSetup::Apply { gctl, option, revision } => seq![
                Op::Write {
                    reg: core_reg(regs::DWC3_GCTL),
                    value: host_control(gctl, option, revision),
                },
                script::set_bits(core_reg(regs::DWC3_GUCTL1), quirk_bits(quirks)),
                Op::Update {
                    reg: core_reg(regs::DWC3_GCTL),
                    clear: regs::GCTL_PRTCAPDIR_MASK,
                    set: regs::GCTL_PRTCAP_HOST,
                },
            ],
            HostSetup::Done => Seq::empty(),
        }
    }

    /// The step after one whose last read returned `value`. The revision only
    /// matters with clock gating.
    pub open spec fn next(self, value: u32) -> HostSetup {
        match self {
            HostSetup::Control => HostSetup::Params { gctl: value },
            HostSetup::Params { gctl } => if power_option(value) == 1 {
                HostSetup::Revision { gctl }
            } else {
                HostSetup::Apply { gctl, option: power_option(value), revision: 0 }
            },
            HostSetup::Revision { gctl } => HostSetup::Apply { gctl, option: 1, revision: value },
            HostSetup::Apply { .. } => HostSetup::Done,
            HostSetup::Done => HostSetup::Done,
        }
    }

    /// How many steps are left at most.
    pub open spec fn remaining(self) -> nat {
        match self {
            HostSetup::Control => 4,
            HostSetup::Params { .. } => 3,
            HostSetup::Revision { .. } => 2,
            HostSetup::Apply { .. } => 1,
            HostSetup::Done => 0,
        }
    }

    /// The accesses of the current step.
    pub fn script(&self, quirks: &K3Dwc3Quirks) -> (accesses: Script)
        ensures
            accesses@ == self.ops(*quirks),
    {
        let mut accesses = Script::new();
        match *self {
            HostSetup::Control => accesses.read(core_reg(regs::DWC3_GCTL)),
            HostSetup::Params { .. } => accesses.read(core_reg(regs::DWC3_GHWPARAMS1)),
            HostSetup::Revision { .. } => accesses.read(core_reg(regs::DWC3_GSNPSID)),
            HostSetup::Apply { gctl, option, revision } => {
                let scaled: u32 = gctl & !regs::GCTL_SCALEDOWN_MASK;
                let control: u32 = if option == 1 {
                    if regs::DWC3_REVISION_210A <= revision && revision
                        <= regs::DWC3_REVISION_250A {
                        scaled | (regs::GCTL_DSBLCLKGTNG | regs::GCTL_SOFITPSYNC)
                    } else {
                        scaled & !regs::GCTL_DSBLCLKGTNG
                    }
                } else if option == 2 {
                    scaled | regs::GCTL_GBLHIBERNATIONEN
                } else {
                    scaled
                };
                accesses.write(core_reg(regs::DWC3_GCTL), control);
                let mut bits: u32 = 0;
                if quirks.dis_tx_ipgap_linecheck {
                    bits = regs::GUCTL1_TX_IPGAP_LINECHECK_DIS;
                }
                if quirks.parkmode_disable_ss {
                    bits = bits | regs::GUCTL1_PARKMODE_DISABLE_SS;
                }
                accesses.set(core_reg(regs::DWC3_GUCTL1), bits);
                accesses.update(
                    core_reg(regs::DWC3_GCTL),
                    regs::GCTL_PRTCAPDIR_MASK,
                    regs::GCTL_PRTCAP_HOST,
                );
            },
            HostSetup::Done => {},
        }
        accesses
    }

    /// Takes what the last read of the current step returned.
    pub fn resume(self, value: u32) -> (step: HostSetup)
        ensures
            step == self.next(value),
            !(self is Done) ==> step.remaining() < self.remaining(),
    {
        match self {
            HostSetup::Control => HostSetup::Params { gctl: value },
            HostSetup::Params { gctl } => if power_option(value) == 1 {
                HostSetup::Revision { gctl }
            } else {
                HostSetup::Apply { gctl, option: power_option(value), revision: 0 }
            },
            HostSetup::Revision { gctl } => HostSetup::Apply { gctl, option: 1, revision: value },
            HostSetup::Apply { .. } => HostSetup::Done,
            HostSetup::Done => HostSetup::Done,
        }
    }
}

/// Begins to put the controller into host mode.
pub fn dwc3_core_host_setup() -> (setup: HostSetup)
    ensures
        setup is Control,
{
    HostSetup::Control
}

/// In host mode the port direction is that of a host, and every other control
/// bit is as [`host_control`] says.
pub proof fn law_host_mode_is_set(
    image: Map<Reg, u32>,
    quirks: K3Dwc3Quirks,
    gctl: u32,
    option: u32,
    revision: u32,
)
    ensures
        ({
            let setup = HostSetup::Apply { gctl, option, revision };
            let left = script::settle(setup.ops(quirks), image)[core_reg(regs::DWC3_GCTL)];
            let control = host_control(gctl, option, revision);
            &&& left & regs::GCTL_PRTCAPDIR_MASK == regs::GCTL_PRTCAP_HOST
            &&& left & !regs::GCTL_PRTCAPDIR_MASK == control & !regs::GCTL_PRTCAPDIR_MASK
        }),
{
    reveal_with_fuel(script::settle, 4);
    let control = host_control(gctl, option, revision);
    let setup = HostSetup::Apply { gctl, option, revision };
    let ops = setup.ops(quirks);
    assert(ops.drop_first().drop_first().drop_first() =~= Seq::empty());
    assert(((control & !(0x3u32 << 12)) | (0x1u32 << 12)) & (0x3u32 << 12) == (0x1u32 << 12) && ((
    control & !(0x3u32 << 12)) | (0x1u32 << 12)) & !(0x3u32 << 12) == control & !(0x3u32 << 12))
        by (bit_vector);
}

/// A PHY that is set up already is not configured again.
pub proof fn law_configured_phy_is_left_alone(init: Usb3Init, clocks: u32)
    requires
        init.step is Begin,
        clocks & regs::CFG_SW_INIT_DONE != 0,
    ensures
        init.next(Some(clocks)) is PowerOn,
        (Usb3Init { step: init.next(Some(clocks)), ..init }).next(None) == (Usb3Step::Over {
            result: Ok::<(), PhyError>(()),
        }),
{
}

} // verus!
