//! Registers and attributes of the UFS host controller.

use vstd::prelude::*;

verus! {


// Vendor timers.
pub const UFS_SYS1CLK_1US: usize = 0xC0;
pub const UFS_TX_SYMBOL_CLK_NS_US: usize = 0xC4;
pub const UFS_PA_LINK_STARTUP_TIMER: usize = 0xD8;
pub const UFS_TX_SYMBO_CLK: u32 = 0x800;

// PHY management block.
pub const UFS_PHY_MNG_BASE: usize = 0x1B00;
pub const UFS_MPHY_PU_CTRL: usize = 0x4;
pub const UFS_MPHY_BKDR_CTRL: usize = 0x8;
pub const UFS_DEVICE_IO_CTRL: usize = 0xC;

// Analog block.
pub const UFS_ATOP_BASE: usize = 0x1C00;

// PHY power-up values.
pub const MPHY_PU_ALL: u32 = 0x87f;
pub const MPHY_PU_WITH_HB8_RESET: u32 = 0xb7f;
pub const MPHY_DEVICE_RESET_DEASSERT: u32 = 0x101;
pub const MPHY_PLL_LOCK_BIT: u32 = 1 << 31;

// Host controller registers.
pub const REG_CONTROLLER_CAPABILITIES: usize = 0x00;
pub const REG_UFS_VERSION: usize = 0x08;
pub const REG_INTERRUPT_STATUS: usize = 0x20;
pub const REG_INTERRUPT_ENABLE: usize = 0x24;
pub const REG_CONTROLLER_STATUS: usize = 0x30;
pub const REG_CONTROLLER_ENABLE: usize = 0x34;
pub const REG_UTP_TRANSFER_REQ_INT_AGG_CONTROL: usize = 0x4C;
pub const REG_UTP_TRANSFER_REQ_LIST_BASE_L: usize = 0x50;
pub const REG_UTP_TRANSFER_REQ_LIST_BASE_H: usize = 0x54;
pub const REG_UTP_TRANSFER_REQ_DOOR_BELL: usize = 0x58;
pub const REG_UTP_TRANSFER_REQ_LIST_RUN_STOP: usize = 0x60;
pub const REG_UTP_TASK_REQ_LIST_BASE_L: usize = 0x70;
pub const REG_UTP_TASK_REQ_LIST_BASE_H: usize = 0x74;
pub const REG_UTP_TASK_REQ_DOOR_BELL: usize = 0x78;
pub const REG_UTP_TASK_REQ_LIST_RUN_STOP: usize = 0x80;
pub const REG_UIC_COMMAND: usize = 0x90;
pub const REG_UIC_COMMAND_ARG1: usize = 0x94;
pub const REG_UIC_COMMAND_ARG2: usize = 0x98;
pub const REG_UIC_COMMAND_ARG3: usize = 0x9C;

// Error codes of the link layers; a read clears them.
pub const REG_UIC_ERROR_CODE_PHY_ADAPTER_LAYER: usize = 0x38;
pub const REG_UIC_ERROR_CODE_DATA_LINK_LAYER: usize = 0x3C;
pub const REG_UIC_ERROR_CODE_NETWORK_LAYER: usize = 0x40;
pub const REG_UIC_ERROR_CODE_TRANSPORT_LAYER: usize = 0x44;
pub const REG_UIC_ERROR_CODE_DME: usize = 0x48;

// Link commands.
pub const UIC_CMD_DME_GET: u32 = 0x01;
pub const UIC_CMD_DME_SET: u32 = 0x02;
pub const UIC_CMD_DME_PEER_GET: u32 = 0x03;
pub const UIC_CMD_DME_LINK_STARTUP: u32 = 0x16;
pub const UIC_CMD_CGE: u32 = 1 << 8;
pub const MASK_UIC_COMMAND_RESULT: u32 = 0xFF;

// PHY adapter attributes.
pub const PA_TXHSG1SYNCLENGTH: u32 = 0x1552;
pub const PA_TXHSG1PREPARELENGTH: u32 = 0x1553;
pub const PA_TXHSG2SYNCLENGTH: u32 = 0x1554;
pub const PA_TXHSG2PREPARELENGTH: u32 = 0x1555;
pub const PA_TXHSG3SYNCLENGTH: u32 = 0x1556;
pub const PA_TXHSG3PREPARELENGTH: u32 = 0x1557;
pub const PA_TXMK2EXTENSION: u32 = 0x155A;
pub const PA_PEERSCRAMBLING: u32 = 0x155B;
pub const PA_TXSKIP: u32 = 0x155C;
pub const PA_TXSKIPPERIOD: u32 = 0x155D;
pub const PA_LOCAL_TX_LCC_ENABLE: u32 = 0x155E;
pub const PA_PEER_TX_LCC_ENABLE: u32 = 0x155F;
pub const PA_SCRAMBLING: u32 = 0x1585;
pub const PA_GRANULARITY: u32 = 0x15AA;
pub const PA_MK2EXTENSIONGUARDBAND: u32 = 0x15AB;
pub const PA_STALLNOCONFIGTIME: u32 = 0x15A3;
pub const PA_TACTIVATE: u32 = 0x15A8;
pub const PA_TXTRAILINGCLOCKS: u32 = 0x1564;

// Lane attributes.
pub const RX_LS_PRE_LEN_CAP: u32 = 0x008D;
pub const RX_LANE_HB8_BKDOOR_ATTR: u32 = 0x00F4;
pub const RX_PWRM_CLOSURE_LEN_CAP: u32 = 0x008E;
pub const RX_MIN_STALL_CAP: u32 = 0x0088;
pub const TX_HIBERN8TIME_CAP: u32 = 0x000F;
pub const RX_HIBERN8TIME_CAP: u32 = 0x0092;
pub const ANA_EQ_CTRL_REG_ATTR: u32 = 0x00CD;
pub const RX_GARBAGE_COUNT_OFFSET: u32 = 0x00F2;

// Analog attributes.
pub const ANA_HSGEAR_CTRL_ATTR: u32 = 0x00C1;
pub const TX_LCC_ENABLE: u32 = 0x002C;
pub const TX_MIN_ACTIVATETIME: u32 = 0x0033;
pub const UFS_SPACEMIT_GEAR3_ATTR: u32 = 0x00E8;

// Power mode attributes.
pub const PA_ACTIVETXDATALANES: u32 = 0x1560;
pub const PA_CONNECTEDTXDATALANES: u32 = 0x1561;
pub const PA_TXGEAR: u32 = 0x1568;
pub const PA_TXTERMINATION: u32 = 0x1569;
pub const PA_HSSERIES: u32 = 0x156A;
pub const PA_PWRMODE: u32 = 0x1571;
pub const PA_AVAILTXDATALANES: u32 = 0x1520;
pub const PA_AVAILRXDATALANES: u32 = 0x1540;
pub const PA_ACTIVERXDATALANES: u32 = 0x1580;
pub const PA_CONNECTEDRXDATALANES: u32 = 0x1581;
pub const PA_RXGEAR: u32 = 0x1583;
pub const PA_RXTERMINATION: u32 = 0x1584;
pub const PA_MAXRXPWMGEAR: u32 = 0x1586;
pub const PA_MAXRXHSGEAR: u32 = 0x1587;

// Data link timeouts that go with a power mode.
pub const PA_PWRMODEUSERDATA0: u32 = 0x15B0;
pub const PA_PWRMODEUSERDATA1: u32 = 0x15B1;
pub const PA_PWRMODEUSERDATA2: u32 = 0x15B2;
pub const PA_PWRMODEUSERDATA3: u32 = 0x15B3;
pub const PA_PWRMODEUSERDATA4: u32 = 0x15B4;
pub const PA_PWRMODEUSERDATA5: u32 = 0x15B5;
pub const DME_LOCAL_FC0_PROTECTION_TIMEOUT: u32 = 0xD041;
pub const DME_LOCAL_TC0_REPLAY_TIMEOUT: u32 = 0xD042;
pub const DME_LOCAL_AFC0_REQ_TIMEOUT: u32 = 0xD043;

// Power modes.
pub const UFS_HS_G1: u32 = 1;
pub const UFS_HS_G3: u32 = 3;
pub const PA_HS_MODE_A: u32 = 1;
pub const PA_HS_MODE_B: u32 = 2;
pub const PA_PWR_FAST_MODE: u32 = 1;
pub const PA_PWR_SLOW_MODE: u32 = 2;
pub const PA_MAXDATALANES: u32 = 4;

// Data link attributes.
pub const DL_AFC0REQTIMEOUTVAL: u32 = 0x2043;
pub const UFS_DL_AFC0REQTIMEOUTVAL_MAX: u32 = 0xFFFF;

// Interrupt status.
pub const UTP_TRANSFER_REQ_COMPL: u32 = 0x1;
pub const UIC_ERROR: u32 = 0x4;
pub const UIC_LINK_LOST: u32 = 0x80;
pub const DEVICE_FATAL_ERROR: u32 = 0x800;
pub const UTP_ERROR: u32 = 0x1000;
pub const CONTROLLER_FATAL_ERROR: u32 = 0x10000;
pub const SYSTEM_BUS_FATAL_ERROR: u32 = 0x20000;
pub const CRYPTO_ENGINE_FATAL_ERROR: u32 = 0x40000;
pub const UIC_COMMAND_COMPL: u32 = 1 << 10;
pub const INT_FATAL_ERRORS: u32 = DEVICE_FATAL_ERROR | CONTROLLER_FATAL_ERROR | SYSTEM_BUS_FATAL_ERROR | CRYPTO_ENGINE_FATAL_ERROR | UIC_LINK_LOST | UTP_ERROR;
pub const UFSHCD_ERROR_MASK: u32 = UIC_ERROR | INT_FATAL_ERRORS;

// Controller status.
pub const DEVICE_PRESENT: u32 = 1 << 0;
pub const UTP_TRANSFER_REQ_LIST_READY: u32 = 1 << 1;
pub const UTP_TASK_REQ_LIST_READY: u32 = 1 << 2;
pub const UIC_COMMAND_READY: u32 = 1 << 3;
pub const UFSHCD_STATUS_READY: u32 = UTP_TRANSFER_REQ_LIST_READY | UTP_TASK_REQ_LIST_READY | UIC_COMMAND_READY;

/// The selector of an attribute.
#[verifier::allow_in_spec]
pub fn uic_arg_mib(attr: u32) -> (selector: u32)
    returns
        (attr & 0xFFFF) << 16,
{
    (attr & 0xFFFF) << 16
}

/// The selector of an attribute of a lane.
#[verifier::allow_in_spec]
pub fn uic_arg_mib_sel(attr: u32, sel: u32) -> (selector: u32)
    returns
        ((attr & 0xFFFF) << 16) | (sel & 0xFFFF),
{
    ((attr & 0xFFFF) << 16) | (sel & 0xFFFF)
}

/// The number under which the attributes of a receive lane are found.
pub fn rx_lane_sel(lane: u32) -> (sel: u32)
    requires
        lane <= u32::MAX - PA_MAXDATALANES,
    ensures
        sel == PA_MAXDATALANES + lane,
{
    PA_MAXDATALANES + lane
}

/// An attribute selector keeps its parts apart: the attribute is in the high
/// half and the lane in the low half.
pub proof fn law_selector_parts(attr: u32, sel: u32)
    requires
        attr <= 0xFFFF,
        sel <= 0xFFFF,
    ensures
        uic_arg_mib_sel(attr, sel) == attr * 0x1_0000 + sel,
        uic_arg_mib(attr) == attr * 0x1_0000,
{
    assert(attr <= 0xFFFF && sel <= 0xFFFF ==> (((attr & 0xFFFF) << 16) | (sel & 0xFFFF)) == attr
        * 0x1_0000 + sel && ((attr & 0xFFFF) << 16) == attr * 0x1_0000) by (bit_vector);
}

} // verus!
