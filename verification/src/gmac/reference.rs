//! Register-level reference model of the Ethernet controller.
//!
//! The functions of this module program an in-memory image of the register
//! block. They fix, bit by bit, what the glue logic, the DMA engine, the MTL
//! queues and the MAC are to hold.

use vstd::prelude::*;

verus! {

/// A DMA descriptor.
#[allow(non_camel_case_types)]
#[derive(Clone, Copy, Debug, PartialEq, Eq, Structural)]
pub struct dma_desc {
    pub des0: u32,
    pub des1: u32,
    pub des2: u32,
    pub des3: u32,
}

/// An image of a register block: one word per register.
#[allow(non_camel_case_types)]
#[derive(Clone, Copy)]
pub struct k3_mmio {
    pub regs: [u32; 2048],
}

/// PHY interface modes.
pub const K3_PHY_MII: u32 = 0;
pub const K3_PHY_RMII: u32 = 1;
pub const K3_PHY_RGMII: u32 = 2;
pub const K3_PHY_RGMII_ID: u32 = 3;
pub const K3_PHY_RGMII_RXID: u32 = 4;
pub const K3_PHY_RGMII_TXID: u32 = 5;

/// Ways to shift the interface clocks.
pub const K3_CLK_TUNING_BY_REG: u32 = 0;
pub const K3_CLK_TUNING_BY_DLINE: u32 = 1;
pub const K3_CLK_TUNING_BY_CLK_REVERT: u32 = 2;

/// Glue logic settings of one controller.
#[allow(non_camel_case_types)]
#[derive(Clone, Copy, Debug, PartialEq, Eq, Structural)]
pub struct k3_glue {
    pub phy_mode: u32,
    pub tuning_way: u32,
    pub clk_tuning_enable: i32,
    pub wol_irq_enable: i32,
    pub tx_clk_phase: u8,
    pub rx_clk_phase: u8,
    pub ctrl_off: u32,
    pub dline_off: u32,
}

/// Interface mode field of the control register.
pub const PHY_INTF_MODE_MASK: u32 = 0x0000_0018;
pub const PHY_INTF_RMII: u32 = 0;
pub const PHY_INTF_RGMII: u32 = 0x0000_0008;
pub const PHY_INTF_MII: u32 = 0x0000_0018;
pub const RMII_TX_CLK_SEL: u32 = 1 << 6;
pub const RMII_RX_CLK_SEL: u32 = 1 << 7;
pub const WAKE_IRQ_EN: u32 = 1 << 12;
pub const RMII_TX_PHASE_MASK: u32 = 0x0007_0000;
pub const RMII_RX_PHASE_MASK: u32 = 0x0070_0000;
pub const RGMII_RX_PHASE_MASK: u32 = 0x0070_0000;
pub const RGMII_TX_PHASE_MASK: u32 = 0x0700_0000;

/// Fields of the delay-line register.
pub const EMAC_RX_DLINE_EN: u32 = 1 << 0;
pub const EMAC_TX_DLINE_EN: u32 = 1 << 16;
pub const EMAC_RX_DLINE_CODE_MASK: u32 = 0x0000_ff00;
pub const EMAC_TX_DLINE_CODE_MASK: u32 = 0xff00_0000;

/// Clock phase, in degrees, that asks for an inverted clock.
pub const CLK_PHASE_REVERT: u8 = 180;

/// The word at a byte offset exists.
pub open spec fn mapped(offset: u32) -> bool {
    offset / 4 < 2048
}

/// `old` with the `mask` bits replaced by those of `value`.
pub open spec fn with_field(old: u32, mask: u32, value: u32) -> u32 {
    old & !mask | value & mask
}

/// The register image with the word at `offset` set to `value`.
pub open spec fn with_reg(regs: Seq<u32>, offset: u32, value: u32) -> Seq<u32> {
    regs.update((offset / 4) as int, value)
}

/// The register image with one field of the word at `offset` replaced.
pub open spec fn with_bits(regs: Seq<u32>, offset: u32, mask: u32, value: u32) -> Seq<u32> {
    with_reg(regs, offset, with_field(regs[(offset / 4) as int], mask, value))
}

fn readl(io: &k3_mmio, offset: u32) -> (value: u32)
    requires
        mapped(offset),
    ensures
        value == io.regs@[(offset / 4) as int],
{
    io.regs[(offset / 4) as usize]
}

fn writel(value: u32, io: &mut k3_mmio, offset: u32)
    requires
        mapped(offset),
    ensures
        final(io).regs@ == with_reg(old(io).regs@, offset, value),
{
    io.regs[(offset / 4) as usize] = value;
}

fn update_bits(io: &mut k3_mmio, offset: u32, mask: u32, value: u32)
    requires
        mapped(offset),
    ensures
        final(io).regs@ == with_bits(old(io).regs@, offset, mask, value),
{
    let old_value: u32 = readl(io, offset);
    writel(old_value & !mask | value & mask, io, offset);
}

/// The interface mode field for a PHY mode.
pub open spec fn interface_mode(phy_mode: u32) -> u32 {
    if phy_mode == K3_PHY_MII {
        PHY_INTF_MII
    } else if phy_mode == K3_PHY_RMII {
        PHY_INTF_RMII
    } else {
        PHY_INTF_RGMII
    }
}

/// Selects the PHY interface.
pub fn k3_eqos_iface_config_ref(apmu: &mut k3_mmio, eqos: &k3_glue)
    requires
        mapped(eqos.ctrl_off),
    ensures
        final(apmu).regs@ == with_bits(
            old(apmu).regs@,
            eqos.ctrl_off,
            PHY_INTF_MODE_MASK,
            interface_mode(eqos.phy_mode),
        ),
{
    let mut val: u32 = PHY_INTF_RGMII;
    if eqos.phy_mode == K3_PHY_MII {
        val = PHY_INTF_MII;
    } else if eqos.phy_mode == K3_PHY_RMII {
        val = PHY_INTF_RMII;
    }
    update_bits(apmu, eqos.ctrl_off, PHY_INTF_MODE_MASK, val);
}

/// Routes the wake-on-LAN interrupt.
pub fn k3_eqos_wol_config_ref(apmu: &mut k3_mmio, eqos: &k3_glue)
    requires
        mapped(eqos.ctrl_off),
    ensures
        final(apmu).regs@ == with_bits(
            old(apmu).regs@,
            eqos.ctrl_off,
            WAKE_IRQ_EN,
            if eqos.wol_irq_enable != 0 {
                WAKE_IRQ_EN
            } else {
                0
            },
        ),
{
    let val: u32 = if eqos.wol_irq_enable != 0 {
        WAKE_IRQ_EN
    } else {
        0
    };
    update_bits(apmu, eqos.ctrl_off, WAKE_IRQ_EN, val);
}

/// The fields of the delay-line register: both enables and both codes.
pub open spec fn delay_line_fields() -> u32 {
    EMAC_TX_DLINE_EN | EMAC_RX_DLINE_EN | EMAC_TX_DLINE_CODE_MASK | EMAC_RX_DLINE_CODE_MASK
}

/// Enables both delay lines with code zero.
pub fn k3_delayline_init_ref(apmu: &mut k3_mmio, eqos: &k3_glue)
    requires
        mapped(eqos.dline_off),
    ensures
        final(apmu).regs@ == with_bits(
            old(apmu).regs@,
            eqos.dline_off,
            delay_line_fields(),
            EMAC_TX_DLINE_EN | EMAC_RX_DLINE_EN,
        ),
{
    let mask: u32 = EMAC_TX_DLINE_EN | EMAC_RX_DLINE_EN | EMAC_TX_DLINE_CODE_MASK
        | EMAC_RX_DLINE_CODE_MASK;
    let val: u32 = EMAC_TX_DLINE_EN | EMAC_RX_DLINE_EN;
    update_bits(apmu, eqos.dline_off, mask, val);
}

/// The RMII clock settings that the tuning way asks for.
pub open spec fn rmii_tuned(regs: Seq<u32>, eqos: k3_glue) -> Seq<u32> {
    if eqos.tuning_way == K3_CLK_TUNING_BY_REG {
        with_bits(
            with_bits(
                regs,
                eqos.ctrl_off,
                RMII_TX_PHASE_MASK,
                (eqos.tx_clk_phase as u32) << 16,
            ),
            eqos.ctrl_off,
            RMII_RX_PHASE_MASK,
            (eqos.rx_clk_phase as u32) << 20,
        )
    } else if eqos.tuning_way == K3_CLK_TUNING_BY_CLK_REVERT {
        with_bits(
            with_bits(
                regs,
                eqos.ctrl_off,
                RMII_TX_CLK_SEL,
                if eqos.tx_clk_phase == CLK_PHASE_REVERT {
                    RMII_TX_CLK_SEL
                } else {
                    0
                },
            ),
            eqos.ctrl_off,
            RMII_RX_CLK_SEL,
            if eqos.rx_clk_phase == CLK_PHASE_REVERT {
                RMII_RX_CLK_SEL
            } else {
                0
            },
        )
    } else {
        regs
    }
}

/// The RGMII receive clock setting that the tuning way asks for.
pub open spec fn rgmii_rx_tuned(regs: Seq<u32>, eqos: k3_glue) -> Seq<u32> {
    if eqos.tuning_way == K3_CLK_TUNING_BY_DLINE {
        with_bits(
            regs,
            eqos.dline_off,
            EMAC_RX_DLINE_CODE_MASK,
            (eqos.rx_clk_phase as u32) << 8,
        )
    } else {
        with_bits(regs, eqos.ctrl_off, RGMII_RX_PHASE_MASK, (eqos.rx_clk_phase as u32) << 20)
    }
}

/// The RGMII transmit clock setting that the tuning way asks for.
pub open spec fn rgmii_tx_tuned(regs: Seq<u32>, eqos: k3_glue) -> Seq<u32> {
    if eqos.tuning_way == K3_CLK_TUNING_BY_DLINE {
        with_bits(
            regs,
            eqos.dline_off,
            EMAC_TX_DLINE_CODE_MASK,
            (eqos.tx_clk_phase as u32) << 24,
        )
    } else {
        with_bits(regs, eqos.ctrl_off, RGMII_TX_PHASE_MASK, (eqos.tx_clk_phase as u32) << 24)
    }
}

/// The clock settings that the glue asks for. A direction whose delay the PHY
/// adds itself is left alone, and so is everything if tuning is off or the
/// mode needs none.
pub open spec fn clock_tuned(regs: Seq<u32>, eqos: k3_glue) -> Seq<u32> {
    if eqos.clk_tuning_enable == 0 || eqos.phy_mode == K3_PHY_RGMII_ID || eqos.phy_mode
        == K3_PHY_MII {
        regs
    } else if eqos.phy_mode == K3_PHY_RMII {
        rmii_tuned(regs, eqos)
    } else {
        let received = if eqos.phy_mode != K3_PHY_RGMII_TXID {
            rgmii_rx_tuned(regs, eqos)
        } else {
            regs
        };
        if eqos.phy_mode != K3_PHY_RGMII_RXID {
            rgmii_tx_tuned(received, eqos)
        } else {
            received
        }
    }
}

/// Clock tuning takes place.
pub open spec fn tunes(eqos: k3_glue) -> bool {
    eqos.clk_tuning_enable != 0 && eqos.phy_mode != K3_PHY_RGMII_ID && eqos.phy_mode != K3_PHY_MII
}

/// Clock tuning goes through the delay-line register.
pub open spec fn tunes_delay_line(eqos: k3_glue) -> bool {
    tunes(eqos) && eqos.phy_mode != K3_PHY_RMII && eqos.tuning_way == K3_CLK_TUNING_BY_DLINE
}

/// Clock tuning goes through the control register.
pub open spec fn tunes_control(eqos: k3_glue) -> bool {
    tunes(eqos) && eqos.tuning_way != K3_CLK_TUNING_BY_DLINE && (eqos.phy_mode == K3_PHY_RMII
        ==> eqos.tuning_way == K3_CLK_TUNING_BY_REG || eqos.tuning_way
        == K3_CLK_TUNING_BY_CLK_REVERT)
}

/// Shifts the interface clocks as the glue asks for.
pub fn k3_fix_mac_speed_ref(apmu: &mut k3_mmio, eqos: &k3_glue)
    requires
        tunes_control(*eqos) ==> mapped(eqos.ctrl_off),
        tunes_delay_line(*eqos) ==> mapped(eqos.dline_off),
    ensures
        final(apmu).regs@ == clock_tuned(old(apmu).regs@, *eqos),
{
    if eqos.clk_tuning_enable == 0 {
        return;
    }
    if eqos.phy_mode == K3_PHY_RGMII_ID || eqos.phy_mode == K3_PHY_MII {
        return;
    }
    if eqos.phy_mode == K3_PHY_RMII {
        if eqos.tuning_way == K3_CLK_TUNING_BY_REG {
            update_bits(
                apmu,
                eqos.ctrl_off,
                RMII_TX_PHASE_MASK,
                (eqos.tx_clk_phase as u32) << 16,
            );
            update_bits(
                apmu,
                eqos.ctrl_off,
                RMII_RX_PHASE_MASK,
                (eqos.rx_clk_phase as u32) << 20,
            );
        } else if eqos.tuning_way == K3_CLK_TUNING_BY_CLK_REVERT {
            update_bits(
                apmu,
                eqos.ctrl_off,
                RMII_TX_CLK_SEL,
                if eqos.tx_clk_phase == CLK_PHASE_REVERT {
                    RMII_TX_CLK_SEL
                } else {
                    0
                },
            );
            update_bits(
                apmu,
                eqos.ctrl_off,
                RMII_RX_CLK_SEL,
                if eqos.rx_clk_phase == CLK_PHASE_REVERT {
                    RMII_RX_CLK_SEL
                } else {
                    0
                },
            );
        }
        return;
    }
    if eqos.phy_mode != K3_PHY_RGMII_TXID {
        if eqos.tuning_way == K3_CLK_TUNING_BY_DLINE {
            update_bits(
                apmu,
                eqos.dline_off,
                EMAC_RX_DLINE_CODE_MASK,
                (eqos.rx_clk_phase as u32) << 8,
            );
        } else {
            update_bits(
                apmu,
                eqos.ctrl_off,
                RGMII_RX_PHASE_MASK,
                (eqos.rx_clk_phase as u32) << 20,
            );
        }
    }
    if eqos.phy_mode != K3_PHY_RGMII_RXID {
        if eqos.tuning_way == K3_CLK_TUNING_BY_DLINE {
            update_bits(
                apmu,
                eqos.dline_off,
                EMAC_TX_DLINE_CODE_MASK,
                (eqos.tx_clk_phase as u32) << 24,
            );
        } else {
            update_bits(
                apmu,
                eqos.ctrl_off,
                RGMII_TX_PHASE_MASK,
                (eqos.tx_clk_phase as u32) << 24,
            );
        }
    }
}

/// Transmit descriptor fields.
pub const TDES2_BUFFER1_SIZE_MASK: u32 = 0x0000_3fff;
pub const TDES2_INTERRUPT_ON_COMPLETION: u32 = 1 << 31;
pub const TDES3_PACKET_SIZE_MASK: u32 = 0x0000_7fff;
pub const TDES3_CHECKSUM_INSERTION_SHIFT: u32 = 16;
pub const TDES3_CHECKSUM_INSERTION_MASK: u32 = 0x0003_0000;
pub const TDES3_LAST_DESCRIPTOR: u32 = 1 << 28;
pub const TDES3_FIRST_DESCRIPTOR: u32 = 1 << 29;
pub const TDES3_OWN: u32 = 1 << 31;
pub const TX_CIC_FULL: u32 = 3;

/// Receive descriptor fields.
pub const RDES3_PACKET_SIZE_MASK: u32 = 0x0000_7fff;
pub const RDES3_BUFFER1_VALID_ADDR: u32 = 1 << 24;
pub const RDES3_LAST_DESCRIPTOR: u32 = 1 << 28;
pub const RDES3_FIRST_DESCRIPTOR: u32 = 1 << 29;
pub const RDES3_INT_ON_COMPLETION_EN: u32 = 1 << 30;
pub const RDES3_OWN: u32 = 1 << 31;

/// Points a descriptor at a buffer.
pub fn dwmac4_set_addr_ref(p: &mut dma_desc, addr: u64)
    ensures
        *final(p) == (dma_desc { des0: addr as u32, des1: (addr >> 32) as u32, ..*old(p) }),
{
    p.des0 = addr as u32;
    p.des1 = (addr >> 32) as u32;
}

/// Hands a receive buffer to the controller.
pub fn dwmac4_rd_init_rx_desc_ref(p: &mut dma_desc, addr: u64, disable_rx_ic: i32)
    ensures
        *final(p) == (dma_desc {
            des0: addr as u32,
            des1: (addr >> 32) as u32,
            des2: 0,
            des3: if disable_rx_ic == 0 {
                RDES3_OWN | RDES3_BUFFER1_VALID_ADDR | RDES3_INT_ON_COMPLETION_EN
            } else {
                RDES3_OWN | RDES3_BUFFER1_VALID_ADDR
            },
        }),
{
    let mut flags: u32 = RDES3_OWN | RDES3_BUFFER1_VALID_ADDR;
    dwmac4_set_addr_ref(p, addr);
    p.des2 = 0;
    if disable_rx_ic == 0 {
        flags = flags | RDES3_INT_ON_COMPLETION_EN;
    }
    p.des3 = flags;
}

/// The last word of a transmit descriptor for a whole frame of `len` bytes.
pub open spec fn tx_control(len: u32, csum: i32) -> u32 {
    if csum != 0 {
        (len & TDES3_PACKET_SIZE_MASK) | (TDES3_FIRST_DESCRIPTOR | TDES3_LAST_DESCRIPTOR) | (
        TX_CIC_FULL << TDES3_CHECKSUM_INSERTION_SHIFT & TDES3_CHECKSUM_INSERTION_MASK) | TDES3_OWN
    } else {
        (len & TDES3_PACKET_SIZE_MASK) | (TDES3_FIRST_DESCRIPTOR | TDES3_LAST_DESCRIPTOR)
            | TDES3_OWN
    }
}

/// Hands a frame to the controller.
pub fn dwmac4_rd_prepare_tx_desc_ref(p: &mut dma_desc, addr: u64, len: u32, csum: i32)
    ensures
        *final(p) == (dma_desc {
            des0: addr as u32,
            des1: (addr >> 32) as u32,
            des2: len & TDES2_BUFFER1_SIZE_MASK | TDES2_INTERRUPT_ON_COMPLETION,
            des3: tx_control(len, csum),
        }),
{
    let mut tdes3: u32 = len & TDES3_PACKET_SIZE_MASK;
    dwmac4_set_addr_ref(p, addr);
    p.des2 = len & TDES2_BUFFER1_SIZE_MASK | TDES2_INTERRUPT_ON_COMPLETION;
    tdes3 = tdes3 | (TDES3_FIRST_DESCRIPTOR | TDES3_LAST_DESCRIPTOR);
    if csum != 0 {
        tdes3 = tdes3 | (TX_CIC_FULL << TDES3_CHECKSUM_INSERTION_SHIFT
            & TDES3_CHECKSUM_INSERTION_MASK);
    }
    p.des3 = tdes3 | TDES3_OWN;
}

/// Whether the controller still holds a transmit descriptor: 1 or 0.
pub fn dwmac4_tx_owned_ref(p: &dma_desc) -> (owned: i32)
    ensures
        owned == (if p.des3 & TDES3_OWN != 0 {
            1i32
        } else {
            0i32
        }),
{
    if p.des3 & TDES3_OWN != 0 {
        1
    } else {
        0
    }
}

/// Whether a receive descriptor holds a whole frame: 1 or 0.
pub fn dwmac4_rx_ready_ref(p: &dma_desc) -> (ready: i32)
    ensures
        ready == (if p.des3 & RDES3_OWN == 0 && p.des3 & RDES3_LAST_DESCRIPTOR != 0 && p.des3
            & RDES3_FIRST_DESCRIPTOR != 0 {
            1i32
        } else {
            0i32
        }),
{
    if p.des3 & RDES3_OWN == 0 && p.des3 & RDES3_LAST_DESCRIPTOR != 0 && p.des3
        & RDES3_FIRST_DESCRIPTOR != 0 {
        1
    } else {
        0
    }
}

/// The length of a received frame.
pub fn dwmac4_rx_len_ref(p: &dma_desc) -> (len: u32)
    ensures
        len == p.des3 & RDES3_PACKET_SIZE_MASK,
{
    p.des3 & RDES3_PACKET_SIZE_MASK
}

/// MAC registers.
pub const GMAC_CONFIG: u32 = 0x0;
pub const GMAC_PACKET_FILTER: u32 = 0x8;
pub const GMAC_ADDR_HIGH0: u32 = 0x300;
pub const GMAC_ADDR_LOW0: u32 = 0x304;
pub const GMAC_CONFIG_RE: u32 = 1 << 0;
pub const GMAC_CONFIG_TE: u32 = 1 << 1;
pub const GMAC_CONFIG_DM: u32 = 1 << 13;
pub const GMAC_CONFIG_FES: u32 = 1 << 14;
pub const GMAC_CONFIG_PS: u32 = 1 << 15;
pub const GMAC_CONFIG_IPC: u32 = 1 << 27;
pub const GMAC_PACKET_FILTER_PR: u32 = 1 << 0;
pub const GMAC_PACKET_FILTER_PM: u32 = 1 << 4;
pub const GMAC_HI_REG_AE: u32 = 1 << 31;

/// MTL queue registers.
pub const MTL_CHAN_BASE_ADDR: u32 = 0xd00;
pub const MTL_CHAN_BASE_OFFSET: u32 = 0x40;
pub const MTL_OP_MODE_RSF: u32 = 1 << 5;
pub const MTL_OP_MODE_TXQEN_MASK: u32 = 0x0000_000c;
pub const MTL_OP_MODE_TXQEN: u32 = 1 << 3;
pub const MTL_OP_MODE_TSF: u32 = 1 << 1;
pub const MTL_OP_MODE_TQS_MASK: u32 = 0x01ff_0000;
pub const MTL_OP_MODE_TQS_SHIFT: u32 = 16;
pub const MTL_OP_MODE_RQS_MASK: u32 = 0x3ff0_0000;
pub const MTL_OP_MODE_RQS_SHIFT: u32 = 20;
pub const MTL_OP_MODE_RFD_MASK: u32 = 0x000f_c000;
pub const MTL_OP_MODE_RFD_SHIFT: u32 = 14;
pub const MTL_OP_MODE_RFA_MASK: u32 = 0x0000_3f00;
pub const MTL_OP_MODE_RFA_SHIFT: u32 = 8;
pub const MTL_OP_MODE_EHFC: u32 = 1 << 7;
pub const MTL_OP_MODE_DIS_TCP_EF: u32 = 1 << 6;

/// DMA registers.
pub const DMA_SYS_BUS_MODE: u32 = 0x1004;
pub const DMA_AXI_BUS_MODE: u32 = 0x1028;
pub const DMA_CHAN_BASE_ADDR: u32 = 0x1100;
pub const DMA_CHAN_BASE_OFFSET: u32 = 0x80;
pub const DMA_SYS_BUS_FB: u32 = 1 << 0;
pub const DMA_SYS_BUS_AAL: u32 = 1 << 12;
pub const DMA_SYS_BUS_MB: u32 = 1 << 14;
pub const DMA_BURST_LEN_DEFAULT: u32 = 0xfe;
pub const DMA_CONTROL_OSP: u32 = 1 << 4;
pub const DMA_RBSZ_MASK: u32 = 0x0000_7ffe;
pub const DMA_RBSZ_SHIFT: u32 = 1;

/// Sets the AXI burst lengths. No bit of the system bus mode is selected for a
/// change, so that register is written back as it was.
pub fn dwmac4_dma_init_ref(io: &mut k3_mmio)
    ensures
        final(io).regs@ == with_reg(
            with_bits(
                old(io).regs@,
                DMA_SYS_BUS_MODE,
                0,
                DMA_SYS_BUS_FB | DMA_SYS_BUS_MB | DMA_SYS_BUS_AAL,
            ),
            DMA_AXI_BUS_MODE,
            DMA_BURST_LEN_DEFAULT,
        ),
{
    update_bits(
        io,
        DMA_SYS_BUS_MODE,
        0,
        DMA_SYS_BUS_FB | DMA_SYS_BUS_MB | DMA_SYS_BUS_AAL,
    );
    writel(DMA_BURST_LEN_DEFAULT, io, DMA_AXI_BUS_MODE);
}

/// The offset of `register` in block `chan` of a row of register blocks.
pub open spec fn block_reg(base: u32, stride: u32, chan: u32, register: u32) -> u32 {
    base.wrapping_add(chan.wrapping_mul(stride)).wrapping_add(register)
}

/// The offset of a register of DMA channel `chan`.
pub open spec fn dma_chan(chan: u32, register: u32) -> u32 {
    block_reg(DMA_CHAN_BASE_ADDR, DMA_CHAN_BASE_OFFSET, chan, register)
}

/// The offset of a register of MTL queue `chan`.
pub open spec fn mtl_chan(chan: u32, register: u32) -> u32 {
    block_reg(MTL_CHAN_BASE_ADDR, MTL_CHAN_BASE_OFFSET, chan, register)
}

fn block_reg_offset(base: u32, stride: u32, chan: u32, register: u32) -> (offset: u32)
    ensures
        offset == block_reg(base, stride, chan, register),
{
    base.wrapping_add(chan.wrapping_mul(stride)).wrapping_add(register)
}

/// Every register that a channel's set-up writes exists.
pub open spec fn dma_chan_mapped(chan: u32) -> bool {
    &&& mapped(dma_chan(chan, 0x04))
    &&& mapped(dma_chan(chan, 0x08))
    &&& mapped(dma_chan(chan, 0x10))
    &&& mapped(dma_chan(chan, 0x14))
    &&& mapped(dma_chan(chan, 0x18))
    &&& mapped(dma_chan(chan, 0x1c))
    &&& mapped(dma_chan(chan, 0x20))
    &&& mapped(dma_chan(chan, 0x28))
    &&& mapped(dma_chan(chan, 0x2c))
    &&& mapped(dma_chan(chan, 0x30))
}

/// The ring registers of a channel: base addresses, lengths and tail pointers.
pub open spec fn rings_set(
    regs: Seq<u32>,
    chan: u32,
    tx_base: u64,
    rx_base: u64,
    ring_len: u32,
) -> Seq<u32> {
    let tx_hi = with_reg(regs, dma_chan(chan, 0x10), (tx_base >> 32) as u32);
    let tx_lo = with_reg(tx_hi, dma_chan(chan, 0x14), tx_base as u32);
    let rx_hi = with_reg(tx_lo, dma_chan(chan, 0x18), (rx_base >> 32) as u32);
    let rx_lo = with_reg(rx_hi, dma_chan(chan, 0x1c), rx_base as u32);
    let tx_len = with_reg(rx_lo, dma_chan(chan, 0x2c), ring_len.wrapping_sub(1));
    let rx_len = with_reg(tx_len, dma_chan(chan, 0x30), ring_len.wrapping_sub(1));
    let tx_tail = with_reg(rx_len, dma_chan(chan, 0x20), tx_base as u32);
    with_reg(tx_tail, dma_chan(chan, 0x28), rx_base as u32)
}

/// Sets up a DMA channel: rings, then the receive buffer size. No bit of the
/// transmit control register is selected for a change.
pub fn dwmac4_dma_init_channel_ref(
    io: &mut k3_mmio,
    chan: u32,
    tx_base: u64,
    rx_base: u64,
    ring_len: u32,
    rx_buf_size: u32,
)
    requires
        dma_chan_mapped(chan),
    ensures
        final(io).regs@ == with_bits(
            with_bits(
                rings_set(old(io).regs@, chan, tx_base, rx_base, ring_len),
                dma_chan(chan, 0x04),
                0,
                DMA_CONTROL_OSP,
            ),
            dma_chan(chan, 0x08),
            DMA_RBSZ_MASK,
            rx_buf_size << DMA_RBSZ_SHIFT & DMA_RBSZ_MASK,
        ),
{
    let base: u32 = DMA_CHAN_BASE_ADDR;
    let stride: u32 = DMA_CHAN_BASE_OFFSET;
    writel((tx_base >> 32) as u32, io, block_reg_offset(base, stride, chan, 0x10));
    writel(tx_base as u32, io, block_reg_offset(base, stride, chan, 0x14));
    writel((rx_base >> 32) as u32, io, block_reg_offset(base, stride, chan, 0x18));
    writel(rx_base as u32, io, block_reg_offset(base, stride, chan, 0x1c));
    writel(ring_len.wrapping_sub(1), io, block_reg_offset(base, stride, chan, 0x2c));
    writel(ring_len.wrapping_sub(1), io, block_reg_offset(base, stride, chan, 0x30));
    writel(tx_base as u32, io, block_reg_offset(base, stride, chan, 0x20));
    writel(rx_base as u32, io, block_reg_offset(base, stride, chan, 0x28));
    update_bits(io, block_reg_offset(base, stride, chan, 0x04), 0, DMA_CONTROL_OSP);
    update_bits(
        io,
        block_reg_offset(base, stride, chan, 0x08),
        DMA_RBSZ_MASK,
        rx_buf_size << DMA_RBSZ_SHIFT & DMA_RBSZ_MASK,
    );
}

/// The size field of a queue with `fifosz` bytes.
pub open spec fn queue_blocks(fifosz: u32) -> u32 {
    (fifosz / 256).wrapping_sub(1)
}

/// Flow control thresholds of a receive queue: `(deactivate, activate)`.
pub open spec fn flow_thresholds(fifosz: u32) -> (u32, u32) {
    if fifosz == 4096 {
        (0x3, 0x1)
    } else {
        (0x7, 0x4)
    }
}

/// The operation mode of a receive queue with `fifosz` bytes: store and
/// forward, and hardware flow control once the queue has 4096 bytes.
pub open spec fn rx_queue_mode(old: u32, fifosz: u32) -> u32 {
    let sized = (old | (MTL_OP_MODE_DIS_TCP_EF | MTL_OP_MODE_RSF)) & !MTL_OP_MODE_RQS_MASK
        | queue_blocks(fifosz) << MTL_OP_MODE_RQS_SHIFT;
    if fifosz >= 4096 {
        let (rfd, rfa) = flow_thresholds(fifosz);
        let held = (sized | MTL_OP_MODE_EHFC) & !MTL_OP_MODE_RFD_MASK | rfd
            << MTL_OP_MODE_RFD_SHIFT;
        held & !MTL_OP_MODE_RFA_MASK | rfa << MTL_OP_MODE_RFA_SHIFT
    } else {
        sized
    }
}

/// Sets the operation mode of a receive queue.
pub fn dwmac4_dma_rx_chan_op_mode_ref(io: &mut k3_mmio, chan: u32, fifosz: u32)
    requires
        mapped(mtl_chan(chan, 0x30)),
    ensures
        final(io).regs@ == with_reg(
            old(io).regs@,
            mtl_chan(chan, 0x30),
            rx_queue_mode(old(io).regs@[(mtl_chan(chan, 0x30) / 4) as int], fifosz),
        ),
{
    let rqs: u32 = (fifosz / 256).wrapping_sub(1);
    let offset: u32 = block_reg_offset(MTL_CHAN_BASE_ADDR, MTL_CHAN_BASE_OFFSET, chan, 0x30);
    let mut val: u32 = readl(io, offset);
    val = val | (MTL_OP_MODE_DIS_TCP_EF | MTL_OP_MODE_RSF);
    val = val & !MTL_OP_MODE_RQS_MASK;
    val = val | rqs << MTL_OP_MODE_RQS_SHIFT;
    if fifosz >= 4096 {
        let rfd: u32 = if fifosz == 4096 {
            0x3
        } else {
            0x7
        };
        let rfa: u32 = if fifosz == 4096 {
            0x1
        } else {
            0x4
        };
        val = val | MTL_OP_MODE_EHFC;
        val = val & !MTL_OP_MODE_RFD_MASK;
        val = val | rfd << MTL_OP_MODE_RFD_SHIFT;
        val = val & !MTL_OP_MODE_RFA_MASK;
        val = val | rfa << MTL_OP_MODE_RFA_SHIFT;
    }
    writel(val, io, offset);
}

/// The operation mode of a transmit queue with `fifosz` bytes: enabled, store
/// and forward.
pub open spec fn tx_queue_mode(old: u32, fifosz: u32) -> u32 {
    let enabled = (old | MTL_OP_MODE_TSF) & !MTL_OP_MODE_TXQEN_MASK | MTL_OP_MODE_TXQEN;
    enabled & !MTL_OP_MODE_TQS_MASK | queue_blocks(fifosz) << MTL_OP_MODE_TQS_SHIFT
}

/// Sets the operation mode of a transmit queue.
pub fn dwmac4_dma_tx_chan_op_mode_ref(io: &mut k3_mmio, chan: u32, fifosz: u32)
    requires
        mapped(mtl_chan(chan, 0)),
    ensures
        final(io).regs@ == with_reg(
            old(io).regs@,
            mtl_chan(chan, 0),
            tx_queue_mode(old(io).regs@[(mtl_chan(chan, 0) / 4) as int], fifosz),
        ),
{
    let tqs: u32 = (fifosz / 256).wrapping_sub(1);
    let offset: u32 = block_reg_offset(MTL_CHAN_BASE_ADDR, MTL_CHAN_BASE_OFFSET, chan, 0);
    let mut val: u32 = readl(io, offset);
    val = val | MTL_OP_MODE_TSF;
    val = val & !MTL_OP_MODE_TXQEN_MASK;
    val = val | MTL_OP_MODE_TXQEN;
    val = val & !MTL_OP_MODE_TQS_MASK;
    val = val | tqs << MTL_OP_MODE_TQS_SHIFT;
    writel(val, io, offset);
}

/// The low address register for a MAC address: its first four bytes.
pub open spec fn mac_low(mac: Seq<u8>) -> u32 {
    mac[0] as u32 | (mac[1] as u32) << 8 | (mac[2] as u32) << 16 | (mac[3] as u32) << 24
}

/// The last two bytes of a MAC address, as the high address register holds them.
pub open spec fn mac_high(mac: Seq<u8>) -> u32 {
    mac[4] as u32 | (mac[5] as u32) << 8
}

/// Programs the station address.
pub fn dwmac4_program_mac_ref(io: &mut k3_mmio, mac: &[u8; 6])
    ensures
        final(io).regs@ == with_reg(
            with_reg(old(io).regs@, GMAC_ADDR_LOW0, mac_low(mac@)),
            GMAC_ADDR_HIGH0,
            mac_high(mac@) | GMAC_HI_REG_AE,
        ),
{
    let low: u32 = mac[0] as u32 | (mac[1] as u32) << 8 | (mac[2] as u32) << 16 | (mac[3] as u32)
        << 24;
    let high: u32 = mac[4] as u32 | (mac[5] as u32) << 8 | GMAC_HI_REG_AE;
    writel(low, io, GMAC_ADDR_LOW0);
    writel(high, io, GMAC_ADDR_HIGH0);
}

/// Clears the speed selection of the MAC. No bit of the packet filter is
/// selected for a change, and the enable bits are not among the selected ones.
pub fn dwmac4_enable_mac_ref(io: &mut k3_mmio)
    ensures
        final(io).regs@ == with_bits(
            with_bits(
                old(io).regs@,
                GMAC_PACKET_FILTER,
                0,
                GMAC_PACKET_FILTER_PM | GMAC_PACKET_FILTER_PR,
            ),
            GMAC_CONFIG,
            GMAC_CONFIG_FES | GMAC_CONFIG_PS,
            GMAC_CONFIG_DM | GMAC_CONFIG_IPC | GMAC_CONFIG_TE | GMAC_CONFIG_RE,
        ),
{
    update_bits(io, GMAC_PACKET_FILTER, 0, GMAC_PACKET_FILTER_PM | GMAC_PACKET_FILTER_PR);
    update_bits(
        io,
        GMAC_CONFIG,
        GMAC_CONFIG_FES | GMAC_CONFIG_PS,
        GMAC_CONFIG_DM | GMAC_CONFIG_IPC | GMAC_CONFIG_TE | GMAC_CONFIG_RE,
    );
}

/// How replaced fields go together, and which fields are apart.
proof fn lemma_fields(old: u32, m: u32, v: u32, n: u32, w: u32)
    by (bit_vector)
    ensures
        (old & !m | v & m) & !m | v & m == old & !m | v & m,
        m & n == 0 ==> (old & !m | v & m) & n == old & n,
        m & n == 0 ==> ((old & !m | v & m) & !n | w & n) == ((old & !n | w & n) & !m | v & m),
        old & !0u32 | v & 0u32 == old,
        RMII_TX_PHASE_MASK & (PHY_INTF_MODE_MASK | WAKE_IRQ_EN) == 0,
        RMII_RX_PHASE_MASK & (PHY_INTF_MODE_MASK | WAKE_IRQ_EN) == 0,
        RGMII_TX_PHASE_MASK & (PHY_INTF_MODE_MASK | WAKE_IRQ_EN) == 0,
        RMII_TX_CLK_SEL & (PHY_INTF_MODE_MASK | WAKE_IRQ_EN) == 0,
        RMII_RX_CLK_SEL & (PHY_INTF_MODE_MASK | WAKE_IRQ_EN) == 0,
        RMII_TX_PHASE_MASK & RMII_RX_PHASE_MASK == 0,
        RMII_TX_CLK_SEL & RMII_RX_CLK_SEL == 0,
        RGMII_RX_PHASE_MASK & RGMII_TX_PHASE_MASK == 0,
        EMAC_RX_DLINE_CODE_MASK & EMAC_TX_DLINE_CODE_MASK == 0,
{
}

/// Replacing a field twice is replacing it once.
proof fn lemma_field_idempotent(old: u32, mask: u32, value: u32)
    ensures
        with_field(with_field(old, mask, value), mask, value) == with_field(old, mask, value),
{
    lemma_fields(old, mask, value, 0, 0);
}

/// Replacing a field keeps the bits outside it.
proof fn lemma_field_keeps(old: u32, mask: u32, value: u32, other: u32)
    requires
        mask & other == 0,
    ensures
        with_field(old, mask, value) & other == old & other,
{
    lemma_fields(old, mask, value, other, 0);
}

/// Replacing one field does not undo or disturb another.
proof fn lemma_fields_commute(old: u32, m: u32, v: u32, n: u32, w: u32)
    requires
        m & n == 0,
    ensures
        with_field(with_field(old, m, v), n, w) == with_field(with_field(old, n, w), m, v),
{
    lemma_fields(old, m, v, n, w);
}

/// Selecting no bit changes nothing.
pub proof fn law_empty_selection_changes_nothing(regs: Seq<u32>, offset: u32, value: u32)
    requires
        mapped(offset),
        regs.len() == 2048,
    ensures
        with_bits(regs, offset, 0, value) == regs,
{
    let old = regs[(offset / 4) as int];
    lemma_fields(old, 0, value, 0, 0);
    assert(with_bits(regs, offset, 0, value) =~= regs);
}

/// Tuning the clocks never disturbs the interface mode or the wake interrupt
/// enable of the control register, nor any register but the control and
/// delay-line registers.
pub proof fn law_tuning_keeps_interface_settings(regs: Seq<u32>, eqos: k3_glue)
    requires
        regs.len() == 2048,
        mapped(eqos.ctrl_off),
        mapped(eqos.dline_off),
        eqos.ctrl_off / 4 != eqos.dline_off / 4,
    ensures
        clock_tuned(regs, eqos)[(eqos.ctrl_off / 4) as int] & (PHY_INTF_MODE_MASK | WAKE_IRQ_EN)
            == regs[(eqos.ctrl_off / 4) as int] & (PHY_INTF_MODE_MASK | WAKE_IRQ_EN),
        forall|i: int|
            0 <= i < 2048 && i != eqos.ctrl_off / 4 && i != eqos.dline_off / 4
                ==> #[trigger] clock_tuned(regs, eqos)[i] == regs[i],
{
    let c = (eqos.ctrl_off / 4) as int;
    let keep = PHY_INTF_MODE_MASK | WAKE_IRQ_EN;
    lemma_fields(0, 0, 0, 0, 0);
    assert forall|old: u32, mask: u32, value: u32| mask & keep == 0 implies #[trigger] with_field(
        old,
        mask,
        value,
    ) & keep == old & keep by {
        lemma_field_keeps(old, mask, value, keep);
    }
}

/// Tuning the clocks a second time changes nothing.
pub proof fn law_tuning_is_idempotent(regs: Seq<u32>, eqos: k3_glue)
    requires
        regs.len() == 2048,
        mapped(eqos.ctrl_off),
        mapped(eqos.dline_off),
    ensures
        clock_tuned(clock_tuned(regs, eqos), eqos) == clock_tuned(regs, eqos),
{
    let once = clock_tuned(regs, eqos);
    let twice = clock_tuned(once, eqos);
    assert forall|old: u32, mask: u32, value: u32| #[trigger]
        with_field(with_field(old, mask, value), mask, value) == with_field(old, mask, value) by {
        lemma_field_idempotent(old, mask, value);
    }
    lemma_fields(0, 0, 0, 0, 0);
    assert forall|old: u32, m: u32, v: u32, n: u32, w: u32| m & n == 0 implies #[trigger]
        with_field(with_field(with_field(old, m, v), n, w), m, v) == with_field(
        with_field(old, m, v),
        n,
        w,
    ) by {
        lemma_fields_commute(old, m, v, n, w);
        lemma_fields_commute(with_field(old, m, v), m, v, n, w);
        lemma_field_idempotent(old, m, v);
    }
    assert(twice =~= once);
}

} // verus!
