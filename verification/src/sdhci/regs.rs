//! Vendor registers of the host controller.

use vstd::prelude::*;

verus! {

pub const OP_EXT: usize = 0x108;
pub const MMC_CTRL: usize = 0x114;
pub const RX_CFG: usize = 0x118;
pub const TX_CFG: usize = 0x11C;
pub const DLINE_CTRL: usize = 0x130;
pub const DLINE_CFG: usize = 0x134;
pub const PHY_CTRL: usize = 0x160;
pub const PHY_FUNC: usize = 0x164;
pub const PHY_DLLCFG: usize = 0x168;
pub const PHY_DLLCFG1: usize = 0x16C;
pub const PHY_DLLSTS: usize = 0x170;
pub const PHY_PADCFG: usize = 0x178;

// Clock override.
pub const OVRRD_CLK_OEN: u32 = 1 << 11;
pub const FORCE_CLK_ON: u32 = 1 << 12;

// Card modes.
pub const ENHANCE_STROBE_EN: u32 = 1 << 8;
pub const MMC_HS400: u32 = 1 << 9;
pub const MMC_HS200: u32 = 1 << 10;
pub const MMC_CARD_MODE: u32 = 1 << 12;

// Transmit clock.
pub const TX_INT_CLK_SEL: u32 = 1 << 30;

// PHY control.
pub const PHY_FUNC_EN: u32 = 1 << 0;
pub const PHY_PLL_LOCK: u32 = 1 << 1;
pub const HS200_USE_RFIFO: u32 = 1 << 15;

// Delay-locked loop of the PHY.
pub const DLL_PREDLY_NUM_MASK: u32 = 0b11 << 2;
pub const DLL_FULLDLY_RANGE_MASK: u32 = 0b11 << 4;
pub const DLL_VREG_CTRL_MASK: u32 = 0b11 << 6;
pub const DLL_ENABLE: u32 = 1 << 31;
pub const DLL_PREDLY_NUM_VALUE_1: u32 = 1 << 2;
pub const DLL_FULLDLY_RANGE_VALUE_1: u32 = 1 << 4;
pub const DLL_VREG_CTRL_VALUE_1: u32 = 1 << 6;
pub const DLL_REG1_CTRL_MASK: u32 = 0xff;
pub const DLL_REG1_CTRL_VALUE: u32 = 0x92;
pub const DLL_LOCK_STATE: u32 = 1 << 0;

// Pads.
pub const PHY_DRIVE_SEL_MASK: u32 = 0b111;
pub const RX_BIAS_CTRL: u32 = 1 << 5;

// Receive clock and delay line.
pub const RX_SDCLK_SEL1_MASK: u32 = 0b11 << 2;
pub const RX_SDCLK_SEL1_VALUE_1: u32 = 1 << 2;
pub const DLINE_PU: u32 = 1 << 0;
pub const RX_DLINE_CODE_MASK: u32 = 0xff << 16;
pub const RX_DLINE_REG_MASK: u32 = 0xff;

/// The delay-code field that holds `delay`.
#[verifier::allow_in_spec]
pub fn rx_dline_code(delay: u8) -> (field: u32)
    returns
        (delay as u32) << 16,
{
    (delay as u32) << 16
}

/// The drive-strength field that holds `value`.
#[verifier::allow_in_spec]
pub fn phy_drive_sel(value: u32) -> (field: u32)
    returns
        value & PHY_DRIVE_SEL_MASK,
{
    value & PHY_DRIVE_SEL_MASK
}

} // verus!
