//! What the operations of the controller leave in its registers and
//! descriptors.
//!
//! A register law takes the accesses that an operation returned and says, for
//! every bit of every register, what it is once they were carried out.

use vstd::prelude::*;
use crate::bits;
use crate::bits::bit;
use crate::gmac::controller::{frame_len, K3GmacCore};
use crate::gmac::desc;
use crate::gmac::desc::DmaDesc;
use crate::gmac::mdio::PhyLinkState;
use crate::gmac::pinctrl;
use crate::pinctrl::regs as pin_regs;
use crate::script;
use crate::script::{core_reg, Op, Reg, Script};

verus! {

broadcast use {bits::group_bits, bits::group_masks, script::group_settle};

/// What bit `index` of the configuration register (0x000) becomes for a link:
/// PS (15) is clear exactly for 1000 Mbit/s, FES (14) is set exactly for 100,
/// DM (13) is set exactly for full duplex, TE (1) and RE (0) are set, and the
/// others stay.
pub open spec fn linked(before: u32, speed_mbps: u32, full_duplex: bool, index: u32) -> bool {
    if index == 15 {
        speed_mbps != 1000
    } else if index == 14 {
        speed_mbps == 100
    } else if index == 13 {
        full_duplex
    } else {
        index < 2 || bit(before, index)
    }
}

/// After a link of 1000, 100 or 10 Mbit/s was applied, the configuration
/// register says so: PS and FES are clear for 1000, both set for 100, and PS
/// alone is set for 10. Any other speed changes nothing.
pub proof fn law_link_speed_bits(
    core: K3GmacCore,
    speed_mbps: u32,
    full_duplex: bool,
    accesses: Script,
    image: Map<Reg, u32>,
    reg: Reg,
    index: u32,
)
    requires
        call_ensures(K3GmacCore::apply_link_speed, (&core, speed_mbps, full_duplex), accesses),
        index < 32,
    ensures
        bit(script::settle(accesses@, image)[reg], index) == (if reg == core_reg(0x000) && (
        speed_mbps == 1000 || speed_mbps == 100 || speed_mbps == 10) {
            linked(image[reg], speed_mbps, full_duplex, index)
        } else {
            bit(image[reg], index)
        }),
{
}

/// The end of the set-up applies the link that the PHY negotiated, or the
/// configured one without a PHY, and turns both DMA directions on (bit 0 of
/// 0x1104 and of 0x1108).
pub proof fn law_finished_setup_bits(
    core: K3GmacCore,
    phy: Option<PhyLinkState>,
    accesses: Script,
    image: Map<Reg, u32>,
    reg: Reg,
    index: u32,
)
    requires
        call_ensures(K3GmacCore::finish_init, (&core, phy), accesses),
        index < 32,
    ensures
        ({
            let speed_mbps = if phy is Some {
                phy->0.speed_mbps
            } else {
                core.speed_mbps
            };
            let full_duplex = if phy is Some {
                phy->0.full_duplex
            } else {
                core.full_duplex
            };
            bit(script::settle(accesses@, image)[reg], index) == (if reg == core_reg(0x000) && (
            speed_mbps == 1000 || speed_mbps == 100 || speed_mbps == 10) {
                linked(image[reg], speed_mbps, full_duplex, index)
            } else {
                bit(image[reg], index) || index == 0 && (reg == core_reg(0x1104) || reg == core_reg(
                    0x1108,
                ))
            })
        }),
{
    let link = match phy {
        Some(link) => K3GmacCore::apply_link_ops(link.speed_mbps, link.full_duplex),
        None => K3GmacCore::apply_link_ops(core.speed_mbps, core.full_duplex),
    };
    let started = script::settle(
        K3GmacCore::start_dma_ops(),
        script::settle(link, image),
    );
    assert forall|i: int| 0 <= i < K3GmacCore::snapshot_ops().len() implies (
    #[trigger] K3GmacCore::snapshot_ops()[i]) is Read by {}
    script::settle_reads(K3GmacCore::snapshot_ops(), started);
    assert(script::settle(accesses@, image) == started);
}

/// Stopping the DMA clears the start bits (bit 0 of 0x1104 and 0x1108) and
/// transmission and reception (bits 0 and 1 of 0x000); starting it sets the
/// start bits. No other bit changes.
pub proof fn law_dma_start_and_stop_bits(
    core: K3GmacCore,
    stopped: Script,
    started: Script,
    image: Map<Reg, u32>,
    reg: Reg,
    index: u32,
)
    requires
        call_ensures(K3GmacCore::stop_dma, (&core,), stopped),
        call_ensures(K3GmacCore::start_dma, (&core,), started),
        index < 32,
    ensures
        bit(script::settle(stopped@, image)[reg], index) == (bit(image[reg], index) && !(index == 0
            && (reg == core_reg(0x1104) || reg == core_reg(0x1108))) && !(index < 2 && reg
            == core_reg(0x000))),
        bit(script::settle(started@, image)[reg], index) == (bit(image[reg], index) || (index == 0
            && (reg == core_reg(0x1104) || reg == core_reg(0x1108)))),
{
}

/// A DMA reset sets the reset bit (bit 0 of 0x1000) and waits until it reads
/// clear, a million times at most.
pub proof fn law_dma_reset_bits(
    core: K3GmacCore,
    accesses: Script,
    image: Map<Reg, u32>,
    reg: Reg,
    index: u32,
)
    requires
        call_ensures(K3GmacCore::reset_dma, (&core,), accesses),
        index < 32,
    ensures
        bit(script::settle(accesses@, image)[reg], index) == (bit(image[reg], index) || (index == 0
            && reg == core_reg(0x1000))),
        accesses@.len() == 2,
        accesses@[1] matches Op::Poll { reg, mask, value, attempts, interval_us, .. } && reg
            == core_reg(0x1000) && mask == 1 && value == 0 && attempts == 1_000_000 && interval_us
            == 1,
{
    bits::lemma_one();
}

/// The station address is in the address registers byte by byte, the first byte
/// lowest (0x304, then 0x300), and bit 31 of the high one marks it valid.
pub proof fn law_station_address_bits(
    core: K3GmacCore,
    accesses: Script,
    image: Map<Reg, u32>,
    index: u32,
)
    requires
        call_ensures(K3GmacCore::program_mac_address, (&core,), accesses),
        index < 32,
    ensures
        bit(script::settle(accesses@, image)[core_reg(0x304)], index) == bit(
            core.mac[index as int / 8] as u32,
            index % 8,
        ),
        bit(script::settle(accesses@, image)[core_reg(0x300)], index) == (if index < 16 {
            bit(core.mac[4 + index as int / 8] as u32, index % 8)
        } else {
            index == 31
        }),
{
    let m = core.mac@;
    assert forall|k: int, i: u32| 0 <= k < 6 && 8 <= i < 32 implies !#[trigger] bit(
        m[k] as u32,
        i,
    ) by {
        bits::lemma_bit(m[k] as u32, 0, 0, i);
    }
}

/// The DMA set-up writes the bus modes (0x1004), the channel control (0x1100),
/// the interrupts (0x1134), and bursts of 8 in both directions: bit 19 of
/// 0x1104 and 0x1108, where the latter also holds the buffer size of 2048 from
/// bit 1 on.
pub proof fn law_dma_bus_bits(
    core: K3GmacCore,
    accesses: Script,
    image: Map<Reg, u32>,
    reg: Reg,
    index: u32,
)
    requires
        call_ensures(K3GmacCore::init_dma_bus, (&core,), accesses),
        index < 32,
    ensures
        bit(script::settle(accesses@, image)[reg], index) == (if reg == core_reg(0x1004) {
            index == 2 || index == 3 || index == 11 || index == 17
        } else if reg == core_reg(0x1100) {
            index == 16 || index == 19 || index == 20
        } else if reg == core_reg(0x1134) {
            index == 0 || index == 12 || index == 15 || index == 16
        } else if reg == core_reg(0x1104) {
            index == 4 || index == 19
        } else if reg == core_reg(0x1108) {
            index == 12 || index == 19
        } else {
            bit(image[reg], index)
        }),
{
    let after = script::settle(accesses@, image);
    if reg == core_reg(0x1108) {
        assert(after[reg] == desc::rx_buf_size_bits(0x800) | (8u32 << 16));
    }
}

/// The number of 256-byte blocks of a queue beyond the first.
pub open spec fn blocks_but_one(bytes: u32) -> int {
    if bytes < 256 {
        0
    } else {
        bytes / 256 - 1
    }
}

/// The transmit queue (0xc00) stores and forwards (bit 0), is on (bit 3), and
/// its size is in the bits from 16 on, in blocks of 256 bytes less one.
pub proof fn law_transmit_queue_bits(
    core: K3GmacCore,
    accesses: Script,
    image: Map<Reg, u32>,
    index: u32,
)
    requires
        call_ensures(K3GmacCore::init_mtl, (&core,), accesses),
        index < 32,
    ensures
        bit(script::settle(accesses@, image)[core_reg(0xc00)], index) == (index == 0 || index == 3
            || (index >= 16 && bit(
            blocks_but_one(core.tx_fifo_depth) as u32,
            (index - 16) as u32,
        ))),
{
}

/// The receive queue (0xc30) stores and forwards (bit 5), forwards frames with
/// checksum errors (bit 6), and its size is in bits 20 to 29, in blocks of 256
/// bytes less one. From 4096 bytes on it has flow control (bit 2) that starts at bits 8 to 13 and ends at bits 14 to 19: 1 and 3 for 4096
/// bytes, 4 and 7 for more. A smaller queue keeps those bits.
pub proof fn law_receive_queue_bits(
    core: K3GmacCore,
    accesses: Script,
    image: Map<Reg, u32>,
    index: u32,
)
    requires
        call_ensures(K3GmacCore::init_mtl, (&core,), accesses),
        index < 30,
    ensures
        ({
            let before = bit(image[core_reg(0xc30)], index);
            bit(script::settle(accesses@, image)[core_reg(0xc30)], index) == (if index >= 20 {
                bit(blocks_but_one(core.rx_fifo_depth) as u32, (index - 20) as u32)
            } else if core.rx_fifo_depth >= 4096 && 8 <= index < 20 {
                if core.rx_fifo_depth == 4096 {
                    index == 8 || index == 14 || index == 15
                } else {
                    index == 10 || index == 14 || index == 15 || index == 16
                }
            } else {
                before || index == 5 || index == 6 || (index == 2 && core.rx_fifo_depth >= 4096)
            })
        }),
{
}

/// The configuration sets jumbo frames (16), no jabber timer (17), bursts (18),
/// no carrier sense (9) and PS (15), and with checksum offload also bit 27; it
/// lets every frame through (bits 0 and 4 of 0x008) and enables receive queue 0
/// (bits 0 and 1 of 0x0a0 become 2). No other bit changes.
pub proof fn law_mac_config_bits(
    core: K3GmacCore,
    accesses: Script,
    image: Map<Reg, u32>,
    reg: Reg,
    index: u32,
)
    requires
        call_ensures(K3GmacCore::init_mac_config, (&core,), accesses),
        index < 32,
    ensures
        bit(script::settle(accesses@, image)[reg], index) == (if reg == core_reg(0x008) {
            index == 0 || index == 4
        } else if reg == core_reg(0x0a0) && index < 2 {
            index == 1
        } else {
            bit(image[reg], index) || reg == core_reg(0x000) && (index == 9 || 15 <= index <= 18
                || index == 27 && core.checksum_offload)
        }),
{
}

/// An interrupt is taken if and only if the normal (15) or the abnormal (14)
/// summary bit is set, and then exactly what was read is written back to 0x1160.
pub proof fn law_acknowledged_interrupts(core: K3GmacCore, status: u32, accesses: Option<Script>)
    requires
        call_ensures(K3GmacCore::acknowledge, (&core, status), accesses),
    ensures
        accesses is Some <==> bit(status, 14) || bit(status, 15),
        accesses is Some ==> accesses->0@ == seq![
            Op::Write { reg: core_reg(0x1160), value: status },
        ],
{
}

/// The number in a transmit descriptor is the length, 0x3fff at most, and its
/// marks are: interrupt on completion (bit 31 of the third word), owned (31),
/// first and last of a frame (29 and 28) and, with checksum offload, full
/// checksum insertion (17 and 16).
pub proof fn law_transmit_descriptor(bus_addr: u64, len: usize, checksum: bool)
    ensures
        ({
            let filled = desc::tx_desc(bus_addr, len, checksum);
            let count = if len < 0x3fff {
                len as int
            } else {
                0x3fff
            };
            &&& filled.des2 == 0x8000_0000 + count
            &&& filled.des3 == 0xb000_0000 + count + if checksum {
                0x3_0000int
            } else {
                0
            }
        }),
{
    let n = desc::tx_len(len);
    assert(n <= 0x3fff);
    lemma_transmit_words(n);
}

proof fn lemma_transmit_words(n: u32)
    by (bit_vector)
    requires
        n <= 0x3fff,
    ensures
        n | desc::TDES2_INTERRUPT_ON_COMPLETION == 0x8000_0000 + n,
        (n & desc::TDES3_PACKET_SIZE_MASK) | (desc::TDES3_FIRST_DESCRIPTOR
            | desc::TDES3_LAST_DESCRIPTOR) | desc::TDES3_OWN == 0xb000_0000 + n,
        (n & desc::TDES3_PACKET_SIZE_MASK) | (desc::TDES3_FIRST_DESCRIPTOR
            | desc::TDES3_LAST_DESCRIPTOR) | ((desc::TX_CIC_FULL
            << desc::TDES3_CHECKSUM_INSERTION_SHIFT) & desc::TDES3_CHECKSUM_INSERTION_MASK)
            | desc::TDES3_OWN == 0xb003_0000 + n,
        desc::RDES3_OWN | desc::RDES3_BUFFER1_VALID_ADDR | desc::RDES3_INT_ON_COMPLETION_EN
            == 0xc100_0000,
        forall|d: u32| #[trigger] (d & desc::RDES3_PACKET_SIZE_MASK) == d % 0x8000,
{
}

/// A receive descriptor is handed over as owned (31), with an interrupt on
/// completion (30) and a valid buffer (24), and nothing else.
pub proof fn law_receive_descriptor(bus_addr: u64)
    ensures
        desc::rx_desc(bus_addr).des3 == 0xc100_0000,
        desc::rx_desc(bus_addr).des2 == 0,
{
    lemma_transmit_words(0);
}

/// A descriptor is owned by the controller by bit 31; a whole frame came in if
/// it is not, and bits 28 and 29 are set; its length is the low 15 bits, and bit
/// 15 is its error mark.
pub proof fn law_descriptor_marks(entry: DmaDesc)
    ensures
        desc::tx_owned(&entry) == bit(entry.des3, 31),
        desc::rx_owned(&entry) == bit(entry.des3, 31),
        desc::rx_ready(&entry) == (!bit(entry.des3, 31) && bit(entry.des3, 28) && bit(
            entry.des3,
            29,
        )),
        desc::rx_len(&entry) == entry.des3 % 0x8000,
        desc::rx_has_error(&entry) == bit(entry.des3, 15),
        desc::tx_has_error(&entry) == bit(entry.des3, 15),
{
    lemma_transmit_words(0);
}

/// A frame that came back has the length that its descriptor says, 2048 at
/// most; it has none if it is not whole, has an error or is still held.
pub proof fn law_frame_length(entry: DmaDesc)
    ensures
        ({
            let whole = !bit(entry.des3, 31) && bit(entry.des3, 29) && bit(entry.des3, 28) && !bit(
                entry.des3,
                15,
            );
            let len = entry.des3 % 0x8000;
            frame_len(entry) == (if !whole {
                0
            } else if len < 2048 {
                len as int
            } else {
                2048
            })
        }),
{
    law_descriptor_marks(entry);
}

/// The tail of a ring is the address of its slot, sixteen bytes apart.
pub proof fn law_ring_tails(core: K3GmacCore, slot: int)
    requires
        0 <= slot < 64,
        core.tx_ring_addr + 1024 <= 0xffff_ffff,
        core.rx_ring_addr + 1024 <= 0xffff_ffff,
    ensures
        core.tx_tail(slot) == core.tx_ring_addr + 16 * slot,
        core.rx_tail(slot) == core.rx_ring_addr + 16 * slot,
{
}

/// The controller's own pins are set up as the pin controller would: same
/// registers, same IO banks, same drive strengths.
pub proof fn law_pins_agree(pin: u16, code: int)
    requires
        pin <= 144,
        0 <= code < 15,
    ensures
        pinctrl::pin_register(pin) == pin_regs::pin_to_offset(pin as u32),
        pinctrl::io_pd_offset(pin) == pin_regs::pin_to_io_pd_offset(pin as u32),
        pinctrl::drive_strengths_1v8()[code] == pin_regs::K3_DS_1V8@[code].1,
{
    bits::lemma_bytes(pin as u32, 0);
    bits::lemma_bytes((pin + 2) as u32, 0);
}

/// A pin that is set up has its function in bits 0 to 2, the drive code in bits
/// 9 to 12 (the first that gives the strength), and nothing else: no pull, no
/// Schmitt trigger. No other register changes.
pub proof fn law_pin_setup_bits(
    pin: pinctrl::K3PinMux,
    drive_ma: u32,
    code: u32,
    pins: pinctrl::K3GmacPinctrl,
    accesses: Script,
    image: Map<Reg, u32>,
    reg: Reg,
    index: u32,
)
    requires
        pin.pin <= 144,
        pin.mux < 8,
        code <= 15,
        code < 15 ==> drive_ma <= pinctrl::drive_strengths_1v8()[code as int],
        forall|i: int| 0 <= i < code ==> #[trigger] pinctrl::drive_strengths_1v8()[i] < drive_ma,
        call_ensures(pinctrl::K3GmacPinctrl::apply_pin, (&pins, pin, drive_ma), accesses),
        index < 32,
    ensures
        ({
            let pad = Reg {
                window: script::Window::Pins,
                offset: pinctrl::pin_register(pin.pin) as usize,
            };
            bit(script::settle(accesses@, image)[reg], index) == (if reg != pad {
                bit(image[reg], index)
            } else if index < 3 {
                bit(pin.mux as u32, index)
            } else {
                9 <= index < 13 && bit(code, (index - 9) as u32)
            })
        }),
{
    let pad = Reg {
        window: script::Window::Pins,
        offset: pinctrl::pin_register(pin.pin) as usize,
    };
    lemma_drive_field(drive_ma, code);
    let set = script::updated(image[pad], !7u32, pinctrl::drive_field(drive_ma));
    let after = script::settle(accesses@, image);
    assert(reg != pad ==> after[reg] == image[reg]);
    assert(after[pad] == script::updated(set, 7, pin.mux as u32));
    lemma_pin_word(image[pad], code, pin.mux as u32, index);
}

proof fn lemma_drive_field(drive_ma: u32, code: u32)
    requires
        pinctrl::drive_code(drive_ma, code),
    ensures
        pinctrl::drive_field(drive_ma) == (code << 9) & (0xfu32 << 9),
{
    let picked = choose|found: u32| pinctrl::drive_code(drive_ma, found);
    if picked < code {
        assert(pinctrl::drive_strengths_1v8()[picked as int] < drive_ma);
    }
    if code < picked {
        assert(pinctrl::drive_strengths_1v8()[code as int] < drive_ma);
    }
}

proof fn lemma_pin_word(before: u32, code: u32, mux: u32, index: u32)
    by (bit_vector)
    requires
        code <= 15,
        mux < 8,
        index < 32,
    ensures
        bit(
            script::updated(script::updated(before, !7u32, (code << 9) & (0xfu32 << 9)), 7, mux),
            index,
        ) == (if index < 3 {
            bit(mux, index)
        } else {
            9 <= index < 13 && bit(code, (index - 9) as u32)
        }),
{
}

/// The bank of a pin is set to 1.8 V (bit 2 alone), after the access keys.
pub proof fn law_pin_bank_bits(
    pins: pinctrl::K3GmacPinctrl,
    pin: u16,
    accesses: Script,
    image: Map<Reg, u32>,
    index: u32,
)
    requires
        pins.apbc_unlock_offset + 4 <= u32::MAX,
        call_ensures(pinctrl::K3GmacPinctrl::set_io_power_1v8, (&pins, pin), accesses),
        index < 32,
    ensures
        ({
            let bank = Reg {
                window: script::Window::IoPower,
                offset: pinctrl::io_pd_offset(pin) as usize,
            };
            let key = |by: int| Reg {
                window: script::Window::Apbc,
                offset: (pins.apbc_unlock_offset + by) as usize,
            };
            &&& pinctrl::io_pd_offset(pin) == 0 ==> accesses@.len() == 0
            &&& pinctrl::io_pd_offset(pin) != 0 ==> {
                &&& bit(script::settle(accesses@, image)[bank], index) == (index == 2)
                &&& accesses@[0] == (Op::Write { reg: key(0), value: 0xbaba })
                &&& accesses@[1] == (Op::Write { reg: key(4), value: 0xeb10 })
                &&& accesses@[2] matches Op::Write { reg, .. } && reg == bank
            }
        }),
{
}

} // verus!
