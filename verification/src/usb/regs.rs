//! Registers of the USB controller and its PHYs.

use vstd::prelude::*;

verus! {

// System controller: clock and reset.
pub const APMU_SIZE: usize = 0x400;
pub const APMU_USB_CLK_RES_CTRL: usize = 0x05c;
pub const USB3_PORTB_BUS_CLK_GATE: u32 = 1 << 8;
pub const USB3_PORTB_RESET_DEASSERT: u32 = (1 << 9) | (1 << 10) | (1 << 11);

// System controller: lanes of the combined PHY.
pub const PMUA_PCIE_SUBSYS_MGMT: usize = 0x1d8;
pub const PU_MATRIX_CONF_X8_DISABLE: u32 = 1 << 4;

// Calibration of the PHYs.
pub const APB_SPARE_SIZE: usize = 0x10000;
pub const APB_SPARE_PU_CAL: usize = 0x178;
pub const PU_CAL: u32 = 1 << 17;
pub const APB_SPARE_RCAL_HSIO: usize = 0x17c;
pub const PU_CAL_DONE: u32 = 1 << 8;
pub const R_CAL_OVRD_STABLE_EN: u32 = 1 << 31;
pub const R_CAL_OVRD_STABLE_VAL: u32 = 1 << 30;
pub const R_CAL_OVRD_NTRIM_EN: u32 = 1 << 29;
pub const R_CAL_OVRD_PTRIM_EN: u32 = 1 << 28;
pub const R_CAL_OVRD_TRIM_EN: u32 = R_CAL_OVRD_NTRIM_EN | R_CAL_OVRD_PTRIM_EN;
pub const R_CAL_OVRD_NTRIM_MASK: u32 = 0xf << 24;
pub const R_CAL_OVRD_NTRIM_DEFAULT: u32 = 0x6 << 24;
pub const R_CAL_OVRD_PTRIM_MASK: u32 = 0xf << 20;
pub const R_CAL_OVRD_PTRIM_DEFAULT: u32 = 0xa << 20;
pub const R_CAL_OVRD_TRIM_MASK: u32 = R_CAL_OVRD_NTRIM_MASK | R_CAL_OVRD_PTRIM_MASK;

// USB 3 PHY.
pub const PHY_RESET_CFG: usize = 0x04;
pub const EN_SAMPLE_DATA_AFTER_LOCK: u32 = 1 << 6;
pub const PHY_CLK_CFG: usize = 0x08;
pub const PLL_READY: u32 = 1 << 0;
pub const CFG_RXCLK_EN: u32 = 1 << 3;
pub const CFG_TXCLK_EN: u32 = 1 << 4;
pub const CFG_PCLK_EN: u32 = 1 << 5;
pub const CFG_PIPE_PCLK_EN: u32 = 1 << 6;
pub const CFG_REFCLK_24M: u32 = 0x2 << 7;
pub const CFG_SW_INIT_DONE: u32 = 1 << 11;
pub const CFG_PU_SSC_OUT: u32 = 1 << 23;
pub const PHY_MODE_CFG: usize = 0x0c;
pub const CFG_LFPS_RX_FILTER_EN: u32 = 1 << 11;
pub const CFG_LFPS_TPERIOD_MASK: u32 = 0x3 << 8;
pub const LFPS_TPERIOD_USB: u32 = 0x3 << 8;
pub const PCIE_PHY_OVERRIDE: usize = 0x18;
pub const OVRD_MPU_U3: u32 = 1 << 17;
pub const CFG_MPU_U3: u32 = 1 << 16;
pub const PHY_PU_CK_REG: usize = 0x54;
pub const PU_REFCLK_100: u32 = 1 << 25;
pub const PHY_PLL_REG1: usize = 0x58;
pub const FREF_24M: u32 = 0x1 << 13;
pub const SSC_5000PPM: u32 = 0xa << 24;
pub const SSC_DOWN_SPREAD1: u32 = 0x3 << 28;
pub const PHY_PLL_REG2: usize = 0x5c;
pub const SEL_REF100: u32 = 1 << 21;
pub const PHY_RX_REG_A: usize = 0x60;
pub const RX_REG0_RLOAD: u32 = 1 << 4;
pub const RX_REG1_RC_CALI_DEFAULT: u32 = 0x7 << 12;
pub const RX_REG1_RTERM_DEFAULT: u32 = 0x8 << 8;
pub const RX_REG2_PSEL_DEFAULT: u32 = 0x4 << 21;
pub const RX_REG2_FORCE_CSEL: u32 = 1 << 20;
pub const RX_REG2_CSEL_DEFAULT: u32 = 0x8 << 16;
pub const RX_REG3_RDEG1_DEFAULT: u32 = 0x3 << 30;
pub const RX_REG3_ADJ_BIAS_DEFAULT: u32 = 0x1 << 28;
pub const RX_REG3_SEL_CBOOST_CODE: u32 = 1 << 27;
pub const RX_REG3_I_LOAD_DEFAULT: u32 = 0x7 << 24;
pub const PHY_RX_REG_B: usize = 0x64;
pub const RX_REG4_MANUAL_CFG: u32 = 1 << 7;
pub const RX_REG4_RTERM_SEL: u32 = 1 << 5;
pub const RX_REG4_ENVOS: u32 = 1 << 4;
pub const RX_REG4_RDEG2_DEFAULT: u32 = 0x2 << 1;
pub const RX_REG5_RCELL_BIAS_DEFAULT: u32 = 0x8 << 12;
pub const RX_REG5_RCELL_VCM_DEFAULT: u32 = 0x8 << 8;
pub const RX_REG6_ADAPT_GAIN_DEFAULT: u32 = 0x2 << 20;
pub const RX_REG6_H1_REG_DEFAULT: u32 = 0x8 << 16;
pub const PHY_RXEQ_TIME: usize = 0xb4;
pub const RXEQ_TIME_OVRD_AMP_SOC: u32 = 1 << 24;
pub const AMP_SOC_900M: u32 = 0x3 << 22;
pub const PHY_ADPT_CFG0: usize = 0x140;
pub const AFE_ADPT_RST_OVRD_EN: u32 = 1 << 1;
pub const AFE_ADPT_RST_OVRD_VAL: u32 = 1 << 4;

// USB 2 PHY.
pub const U2PHY_RST_MODE_CTRL: usize = 0x04;
pub const U2PHY_PLL_RDY: u32 = 1 << 0;
pub const U2PHY_CLK_CDR_EN: u32 = 1 << 1;
pub const U2PHY_CLK_PLL_EN: u32 = 1 << 2;
pub const U2PHY_CLK_MAC_EN: u32 = 1 << 3;
pub const U2PHY_MAC_RSTN: u32 = 1 << 5;
pub const U2PHY_CDR_RSTN: u32 = 1 << 6;
pub const U2PHY_PLL_RSTN: u32 = 1 << 7;
pub const U2PHY_HS_LINE_TX_MODE: u32 = 1 << 13;
pub const U2PHY_FS_LINE_TX_MODE: u32 = 1 << 14;
pub const U2PHY_TX_HOST_CTRL: usize = 0x10;
pub const U2PHY_HST_DISC_AUTO_CLR: u32 = 1 << 2;
pub const U2PHY_HSTXP_HW_CTRL: usize = 0x34;
pub const U2PHY_HSTXP_RSTN: u32 = 1 << 2;
pub const U2PHY_CLK_HSTXP_EN: u32 = 1 << 3;
pub const U2PHY_HSTXP_MODE: u32 = 1 << 4;
pub const U2PHY_PLL_DIV_CFG: usize = 0x98;
pub const U2PHY_FDIV_REG_VAL: u32 = 0x1ec4;
pub const U2PHY_SEL_FREQ_24MHZ: u32 = 0x1 << 13;
pub const U2PHY_DIV_LOCAL_EN: u32 = 1 << 15;

// Controller.
pub const DWC3_GCTL: usize = 0xc110;
pub const DWC3_GUCTL1: usize = 0xc11c;
pub const DWC3_GSNPSID: usize = 0xc120;
pub const DWC3_GHWPARAMS1: usize = 0xc144;
pub const DWC3_GUSB2PHYCFG0: usize = 0xc200;
pub const DWC3_GUSB3PIPECTL0: usize = 0xc2c0;
pub const GCTL_PRTCAPDIR_MASK: u32 = 0x3 << 12;
pub const GCTL_PRTCAP_HOST: u32 = 0x1 << 12;
pub const GCTL_SCALEDOWN_MASK: u32 = 0x3 << 4;
pub const GCTL_DSBLCLKGTNG: u32 = 1 << 0;
pub const GCTL_SOFITPSYNC: u32 = 1 << 10;
pub const GCTL_GBLHIBERNATIONEN: u32 = 1 << 1;
pub const GUCTL1_TX_IPGAP_LINECHECK_DIS: u32 = 1 << 28;
pub const GUCTL1_PARKMODE_DISABLE_SS: u32 = 1 << 17;
pub const GUSB2PHYCFG_PHYIF_MASK: u32 = 1 << 3;
pub const GUSB2PHYCFG_USBTRDTIM_MASK: u32 = 0xf << 10;
pub const GUSB2PHYCFG_USBTRDTIM_UTMI_8BIT: u32 = 9 << 10;
pub const GUSB2PHYCFG_SUSPHY: u32 = 1 << 6;
pub const GUSB2PHYCFG_ENBLSLPM: u32 = 1 << 8;
pub const GUSB2PHYCFG_TOUTCAL_MASK: u32 = 0x7;
pub const GUSB3PIPECTL_SUSPHY: u32 = 1 << 17;
pub const GUSB3PIPECTL_UX_EXIT_PX: u32 = 1 << 27;
pub const DWC3_REVISION_210A: u32 = 0x5533_210a;
pub const DWC3_REVISION_250A: u32 = 0x5533_250a;

// Host interface of the controller.
pub const XHCI_CAPLENGTH: usize = 0x00;
pub const XHCI_USBSTS: usize = 0x04;
pub const XHCI_HCSPARAMS1: usize = 0x04;
pub const XHCI_PORTSC_BASE: usize = 0x400;
pub const XHCI_PORTSC_STRIDE: usize = 0x10;
pub const XHCI_PORTSC_PORT_POWER: u32 = 1 << 9;

} // verus!
