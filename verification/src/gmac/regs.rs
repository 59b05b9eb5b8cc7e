//! Registers of the Ethernet controller (Synopsys DWMAC 5.10a) and of the
//! SpacemiT glue logic around it.

use vstd::prelude::*;
use crate::script::{Op, Reg, Window};

verus! {

/// MAC registers.
pub const GMAC_CONFIG: u32 = 0x000;
pub const GMAC_PACKET_FILTER: u32 = 0x008;
pub const GMAC_RXQ_CTRL0: u32 = 0x0a0;
pub const GMAC_VERSION: u32 = 0x110;
pub const GMAC_HW_FEATURE0: u32 = 0x11c;
pub const GMAC_HW_FEATURE1: u32 = 0x120;
pub const GMAC_HW_FEATURE2: u32 = 0x124;
pub const GMAC_HW_FEATURE3: u32 = 0x128;
pub const GMAC_MDIO_ADDR: u32 = 0x200;
pub const GMAC_MDIO_DATA: u32 = 0x204;
pub const GMAC_ADDR_HIGH0: u32 = 0x300;
pub const GMAC_ADDR_LOW0: u32 = 0x304;

/// `GMAC_CONFIG` bits.
pub const GMAC_CONFIG_RE: u32 = 1 << 0;
pub const GMAC_CONFIG_TE: u32 = 1 << 1;
pub const GMAC_CONFIG_DCRS: u32 = 1 << 9;
pub const GMAC_CONFIG_DM: u32 = 1 << 13;
pub const GMAC_CONFIG_FES: u32 = 1 << 14;
pub const GMAC_CONFIG_PS: u32 = 1 << 15;
pub const GMAC_CONFIG_JE: u32 = 1 << 16;
pub const GMAC_CONFIG_JD: u32 = 1 << 17;
pub const GMAC_CONFIG_BE: u32 = 1 << 18;
pub const GMAC_CONFIG_IPC: u32 = 1 << 27;

/// Bits of `GMAC_CONFIG` that every set-up turns on.
pub const GMAC_CORE_INIT: u32 = GMAC_CONFIG_JD | GMAC_CONFIG_PS | GMAC_CONFIG_BE
    | GMAC_CONFIG_DCRS | GMAC_CONFIG_JE;

/// The link speed field of `GMAC_CONFIG`.
pub const GMAC_SPEED_MASK: u32 = GMAC_CONFIG_FES | GMAC_CONFIG_PS;

/// `GMAC_PACKET_FILTER` bits.
pub const GMAC_PACKET_FILTER_PR: u32 = 1 << 0;
pub const GMAC_PACKET_FILTER_PM: u32 = 1 << 4;

/// `GMAC_RXQ_CTRL0`: queue 0 takes packets in DCB mode.
pub const GMAC_RXQ0EN_DCB: u32 = 0b10;

/// Address enable bit of `GMAC_ADDR_HIGH0`.
pub const GMAC_HI_REG_AE: u32 = 1 << 31;

/// `GMAC_MDIO_ADDR` fields.
pub const MII_ADDR_GBUSY: u32 = 1 << 0;
pub const MII_GMAC4_WRITE: u32 = 0b01 << 2;
pub const MII_GMAC4_READ: u32 = 0b11 << 2;
pub const MII_GMAC4_REG_ADDR_SHIFT: u32 = 16;
pub const MDIO_CSR_CLK_SHIFT: u32 = 8;

/// MDC clock divider for a bus clock of 250 to 300 MHz.
pub const STMMAC_CSR_250_300M: u32 = 5;

/// MTL queue registers: one block per queue.
pub const MTL_CHAN_BASE_ADDR: u32 = 0xc00;
pub const MTL_CHAN_BASE_OFFSET: u32 = 0x40;

/// MTL transmit operation mode.
pub const MTL_OP_MODE_TSF: u32 = 1 << 0;
pub const MTL_OP_MODE_TXQEN: u32 = 1 << 3;
pub const MTL_OP_MODE_TQS_SHIFT: u32 = 16;

/// MTL receive operation mode.
pub const MTL_OP_MODE_EHFC: u32 = 1 << 2;
pub const MTL_OP_MODE_RSF: u32 = 1 << 5;
pub const MTL_OP_MODE_DIS_TCP_EF: u32 = 1 << 6;
pub const MTL_OP_MODE_RFA_SHIFT: u32 = 8;
pub const MTL_OP_MODE_RFA_MASK: u32 = 0x3f << 8;
pub const MTL_OP_MODE_RFD_SHIFT: u32 = 14;
pub const MTL_OP_MODE_RFD_MASK: u32 = 0x3f << 14;
pub const MTL_OP_MODE_RQS_SHIFT: u32 = 20;
pub const MTL_OP_MODE_RQS_MASK: u32 = 0x3ff << 20;

/// DMA registers.
pub const DMA_BUS_MODE: u32 = 0x1000;
pub const DMA_SYS_BUS_MODE: u32 = 0x1004;

/// DMA channel registers: one block per channel.
pub const DMA_CHAN_BASE_ADDR: u32 = 0x1100;
pub const DMA_CHAN_BASE_OFFSET: u32 = 0x80;

/// `DMA_BUS_MODE` bits.
pub const DMA_BUS_MODE_SFT_RESET: u32 = 1 << 0;
/// Burst length field of the channel control registers.
pub const DMA_BUS_MODE_PBL_SHIFT: u32 = 16;

/// `DMA_SYS_BUS_MODE` fields.
pub const DMA_AXI_BLEN8: u32 = 1 << 2;
pub const DMA_AXI_BLEN16: u32 = 1 << 3;
pub const DMA_SYS_BUS_EAME: u32 = 1 << 11;
pub const DMA_AXI_RD_OSR_LMT_SHIFT: u32 = 16;

/// DMA channel control fields.
pub const DMA_CHAN_CONTROL_PBLX8: u32 = 1 << 16;
pub const DMA_CHAN_CONTROL_DSL_SHIFT: u32 = 18;
pub const DMA_CHAN_CONTROL_DSL_DEFAULT: u32 = 6;
pub const DMA_CONTROL_ST: u32 = 1 << 0;
pub const DMA_CONTROL_SR: u32 = 1 << 0;
pub const DMA_CONTROL_OSP: u32 = 1 << 4;

/// Receive buffer size field of the receive control register.
pub const DMA_RBSZ_MASK: u32 = 0x7ffe;
pub const DMA_RBSZ_SHIFT: u32 = 1;

/// DMA channel status bits; writing a bit back clears it.
pub const DMA_CHAN_STATUS_TI: u32 = 1 << 0;
pub const DMA_CHAN_STATUS_TBU: u32 = 1 << 2;
pub const DMA_CHAN_STATUS_RI: u32 = 1 << 6;
pub const DMA_CHAN_STATUS_RBU: u32 = 1 << 7;
pub const DMA_CHAN_STATUS_FBE: u32 = 1 << 12;
pub const DMA_CHAN_STATUS_AIS: u32 = 1 << 14;
pub const DMA_CHAN_STATUS_NIS: u32 = 1 << 15;

/// Interrupts that are enabled by default.
pub const DMA_CHAN_INTR_DEFAULT_MASK: u32 = 0x19001;

/// Glue control register.
pub const EMAC_BUS_CLK_EN: u32 = 1 << 0;
pub const EMAC_BUS_RST_DEASSERT: u32 = 1 << 1;
pub const PHY_INTF_MODE_MASK: u32 = 0b11 << 3;
pub const PHY_INTF_RMII: u32 = 0b00 << 3;
pub const PHY_INTF_RGMII: u32 = 0b01 << 3;
pub const PHY_INTF_MII: u32 = 0b11 << 3;
pub const WOL_WAKE_IRQ_EN: u32 = 1 << 12;

/// Glue delay-line register.
pub const EMAC_RX_DLINE_EN: u32 = 1 << 0;
pub const EMAC_TX_DLINE_EN: u32 = 1 << 16;
pub const EMAC_RX_DLINE_CODE_MASK: u32 = 0xff << 8;
pub const EMAC_TX_DLINE_CODE_MASK: u32 = 0xff << 24;

/// GPIO registers: one block per bank.
pub const K3_GPIO_BANK_STRIDE: u32 = 0x40;
pub const K3_GPIO_GPSR: u32 = 0x08;
pub const K3_GPIO_GPCR: u32 = 0x0c;
pub const K3_GPIO_GSDR: u32 = 0x1c;

/// A register block. Its methods give the access to ask for.
#[derive(Clone, Copy, Debug, PartialEq, Eq, Structural)]
pub struct Mmio {
    pub window: Window,
}

impl Mmio {
    /// A handle on the register block `window`.
    pub fn new(window: Window) -> (mmio: Mmio)
        ensures
            mmio.window == window,
    {
        Mmio { window }
    }

    /// The register at a byte offset.
    pub open spec fn reg(self, offset: u32) -> Reg {
        Reg { window: self.window, offset: offset as usize }
    }

    /// A read.
    pub fn read(&self, offset: u32) -> (op: Op)
        ensures
            op == (Op::Read { reg: self.reg(offset) }),
    {
        Op::Read { reg: Reg { window: self.window, offset: offset as usize } }
    }

    /// A write.
    pub fn write(&self, offset: u32, value: u32) -> (op: Op)
        ensures
            op == (Op::Write { reg: self.reg(offset), value }),
    {
        Op::Write { reg: Reg { window: self.window, offset: offset as usize }, value }
    }

    /// A read-modify-write that takes `clear` out and puts `set` in.
    pub fn update(&self, offset: u32, clear: u32, set: u32) -> (op: Op)
        ensures
            op == (Op::Update { reg: self.reg(offset), clear, set }),
    {
        Op::Update { reg: Reg { window: self.window, offset: offset as usize }, clear, set }
    }
}

/// The offset of the registers of DMA channel `chan`.
pub open spec fn dma_chan(chan: u32) -> int {
    DMA_CHAN_BASE_ADDR + chan * DMA_CHAN_BASE_OFFSET
}

/// The offset of the registers of MTL queue `chan`.
pub open spec fn mtl_chan(chan: u32) -> int {
    MTL_CHAN_BASE_ADDR + chan * MTL_CHAN_BASE_OFFSET
}

/// The offset of the registers of DMA channel `chan`.
pub fn dma_chan_base(chan: u32) -> (offset: u32)
    requires
        dma_chan(chan) <= u32::MAX,
    ensures
        offset == dma_chan(chan),
{
    DMA_CHAN_BASE_ADDR + chan * DMA_CHAN_BASE_OFFSET
}

/// The control register of a channel.
pub fn dma_chan_control(chan: u32) -> (offset: u32)
    requires
        dma_chan(chan) + 0x00 <= u32::MAX,
    ensures
        offset == dma_chan(chan) + 0x00,
{
    dma_chan_base(chan) + 0x00
}

/// The transmit control register of a channel.
pub fn dma_chan_tx_control(chan: u32) -> (offset: u32)
    requires
        dma_chan(chan) + 0x04 <= u32::MAX,
    ensures
        offset == dma_chan(chan) + 0x04,
{
    dma_chan_base(chan) + 0x04
}

/// The receive control register of a channel.
pub fn dma_chan_rx_control(chan: u32) -> (offset: u32)
    requires
        dma_chan(chan) + 0x08 <= u32::MAX,
    ensures
        offset == dma_chan(chan) + 0x08,
{
    dma_chan_base(chan) + 0x08
}

/// The upper half of the transmit ring address of a channel.
pub fn dma_chan_tx_base_hi(chan: u32) -> (offset: u32)
    requires
        dma_chan(chan) + 0x10 <= u32::MAX,
    ensures
        offset == dma_chan(chan) + 0x10,
{
    dma_chan_base(chan) + 0x10
}

/// The lower half of the transmit ring address of a channel.
pub fn dma_chan_tx_base(chan: u32) -> (offset: u32)
    requires
        dma_chan(chan) + 0x14 <= u32::MAX,
    ensures
        offset == dma_chan(chan) + 0x14,
{
    dma_chan_base(chan) + 0x14
}

/// The upper half of the receive ring address of a channel.
pub fn dma_chan_rx_base_hi(chan: u32) -> (offset: u32)
    requires
        dma_chan(chan) + 0x18 <= u32::MAX,
    ensures
        offset == dma_chan(chan) + 0x18,
{
    dma_chan_base(chan) + 0x18
}

/// The lower half of the receive ring address of a channel.
pub fn dma_chan_rx_base(chan: u32) -> (offset: u32)
    requires
        dma_chan(chan) + 0x1c <= u32::MAX,
    ensures
        offset == dma_chan(chan) + 0x1c,
{
    dma_chan_base(chan) + 0x1c
}

/// The transmit tail pointer of a channel.
pub fn dma_chan_tx_end(chan: u32) -> (offset: u32)
    requires
        dma_chan(chan) + 0x20 <= u32::MAX,
    ensures
        offset == dma_chan(chan) + 0x20,
{
    dma_chan_base(chan) + 0x20
}

/// The receive tail pointer of a channel.
pub fn dma_chan_rx_end(chan: u32) -> (offset: u32)
    requires
        dma_chan(chan) + 0x28 <= u32::MAX,
    ensures
        offset == dma_chan(chan) + 0x28,
{
    dma_chan_base(chan) + 0x28
}

/// The transmit ring length of a channel.
pub fn dma_chan_tx_ring_len(chan: u32) -> (offset: u32)
    requires
        dma_chan(chan) + 0x2c <= u32::MAX,
    ensures
        offset == dma_chan(chan) + 0x2c,
{
    dma_chan_base(chan) + 0x2c
}

/// The receive ring length of a channel.
pub fn dma_chan_rx_ring_len(chan: u32) -> (offset: u32)
    requires
        dma_chan(chan) + 0x30 <= u32::MAX,
    ensures
        offset == dma_chan(chan) + 0x30,
{
    dma_chan_base(chan) + 0x30
}

/// The interrupt enable register of a channel.
pub fn dma_chan_intr_ena(chan: u32) -> (offset: u32)
    requires
        dma_chan(chan) + 0x34 <= u32::MAX,
    ensures
        offset == dma_chan(chan) + 0x34,
{
    dma_chan_base(chan) + 0x34
}

/// The status register of a channel.
pub fn dma_chan_status(chan: u32) -> (offset: u32)
    requires
        dma_chan(chan) + 0x60 <= u32::MAX,
    ensures
        offset == dma_chan(chan) + 0x60,
{
    dma_chan_base(chan) + 0x60
}

/// The offset of the registers of MTL queue `chan`.
pub fn mtl_chan_base(chan: u32) -> (offset: u32)
    requires
        mtl_chan(chan) <= u32::MAX,
    ensures
        offset == mtl_chan(chan),
{
    MTL_CHAN_BASE_ADDR + chan * MTL_CHAN_BASE_OFFSET
}

/// The transmit operation mode register of a queue.
pub fn mtl_chan_tx_op_mode(chan: u32) -> (offset: u32)
    requires
        mtl_chan(chan) <= u32::MAX,
    ensures
        offset == mtl_chan(chan),
{
    mtl_chan_base(chan)
}

/// The receive operation mode register of a queue.
pub fn mtl_chan_rx_op_mode(chan: u32) -> (offset: u32)
    requires
        mtl_chan(chan) + 0x30 <= u32::MAX,
    ensures
        offset == mtl_chan(chan) + 0x30,
{
    mtl_chan_base(chan) + 0x30
}

} // verus!
