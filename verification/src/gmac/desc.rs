//! DMA descriptors.
//!
//! A descriptor is four words. The driver fills it in and sets the OWN bit;
//! the controller clears the OWN bit when it is done and writes status back.

use vstd::prelude::*;
use crate::gmac::regs;

verus! {

/// A DMA descriptor.
#[derive(Clone, Copy, Debug, PartialEq, Eq, Structural)]
pub struct DmaDesc {
    /// Buffer address, lower half.
    pub des0: u32,
    /// Buffer address, upper half.
    pub des1: u32,
    /// Buffer size and control.
    pub des2: u32,
    /// OWN bit, control, packet length.
    pub des3: u32,
}

/// Size of a descriptor in bytes.
pub const DESC_SIZE: usize = 16;

pub const TDES2_BUFFER1_SIZE_MASK: u32 = 0x3fff;
pub const TDES2_INTERRUPT_ON_COMPLETION: u32 = 1 << 31;
pub const TDES3_OWN: u32 = 1 << 31;
pub const TDES3_ERROR_SUMMARY: u32 = 1 << 15;
pub const TDES3_LAST_DESCRIPTOR: u32 = 1 << 28;
pub const TDES3_FIRST_DESCRIPTOR: u32 = 1 << 29;
pub const TDES3_PACKET_SIZE_MASK: u32 = 0x7fff;
pub const TDES3_CHECKSUM_INSERTION_SHIFT: u32 = 16;
pub const TDES3_CHECKSUM_INSERTION_MASK: u32 = 0x3 << 16;
pub const TX_CIC_FULL: u32 = 3;

pub const RDES3_OWN: u32 = 1 << 31;
pub const RDES3_ERROR_SUMMARY: u32 = 1 << 15;
pub const RDES3_LAST_DESCRIPTOR: u32 = 1 << 28;
pub const RDES3_FIRST_DESCRIPTOR: u32 = 1 << 29;
pub const RDES3_BUFFER1_VALID_ADDR: u32 = 1 << 24;
pub const RDES3_INT_ON_COMPLETION_EN: u32 = 1 << 30;
pub const RDES3_PACKET_SIZE_MASK: u32 = 0x7fff;

/// The descriptor that nobody uses.
pub open spec fn idle() -> DmaDesc {
    DmaDesc { des0: 0, des1: 0, des2: 0, des3: 0 }
}

/// Clears a descriptor.
pub fn clear(desc: &mut DmaDesc)
    ensures
        *final(desc) == idle(),
{
    desc.des0 = 0;
    desc.des1 = 0;
    desc.des2 = 0;
    desc.des3 = 0;
}

/// Points a descriptor at a buffer.
pub fn set_addr(desc: &mut DmaDesc, bus_addr: u64)
    ensures
        *final(desc) == (DmaDesc {
            des0: bus_addr as u32,
            des1: (bus_addr >> 32) as u32,
            ..*old(desc)
        }),
{
    desc.des0 = bus_addr as u32;
    desc.des1 = (bus_addr >> 32) as u32;
}

/// The descriptor that hands a receive buffer to the controller.
pub open spec fn rx_desc(bus_addr: u64) -> DmaDesc {
    DmaDesc {
        des0: bus_addr as u32,
        des1: (bus_addr >> 32) as u32,
        des2: 0,
        des3: RDES3_OWN | RDES3_BUFFER1_VALID_ADDR | RDES3_INT_ON_COMPLETION_EN,
    }
}

/// Hands a receive buffer to the controller.
pub fn prepare_rx(desc: &mut DmaDesc, bus_addr: u64)
    ensures
        *final(desc) == rx_desc(bus_addr),
{
    set_addr(desc, bus_addr);
    desc.des2 = 0;
    dma_wmb();
    desc.des3 = RDES3_OWN | RDES3_BUFFER1_VALID_ADDR | RDES3_INT_ON_COMPLETION_EN;
}

/// The frame length that a transmit descriptor carries: `len`, or the largest
/// buffer size if that is less.
pub open spec fn tx_len(len: usize) -> u32 {
    if len < TDES2_BUFFER1_SIZE_MASK {
        len as u32
    } else {
        TDES2_BUFFER1_SIZE_MASK
    }
}

/// The descriptor that hands a whole frame to the controller.
pub open spec fn tx_desc(bus_addr: u64, len: usize, checksum: bool) -> DmaDesc {
    let control = (tx_len(len) & TDES3_PACKET_SIZE_MASK) | (TDES3_FIRST_DESCRIPTOR
        | TDES3_LAST_DESCRIPTOR);
    DmaDesc {
        des0: bus_addr as u32,
        des1: (bus_addr >> 32) as u32,
        des2: tx_len(len) | TDES2_INTERRUPT_ON_COMPLETION,
        des3: if checksum {
            control | ((TX_CIC_FULL << TDES3_CHECKSUM_INSERTION_SHIFT)
                & TDES3_CHECKSUM_INSERTION_MASK) | TDES3_OWN
        } else {
            control | TDES3_OWN
        },
    }
}

/// Hands a whole frame to the controller.
pub fn prepare_tx(desc: &mut DmaDesc, bus_addr: u64, len: usize, checksum: bool)
    ensures
        *final(desc) == tx_desc(bus_addr, len, checksum),
{
    let len: u32 = if len < TDES2_BUFFER1_SIZE_MASK as usize {
        len as u32
    } else {
        TDES2_BUFFER1_SIZE_MASK
    };
    set_addr(desc, bus_addr);
    desc.des2 = len | TDES2_INTERRUPT_ON_COMPLETION;
    let mut des3: u32 = len & TDES3_PACKET_SIZE_MASK;
    des3 = des3 | (TDES3_FIRST_DESCRIPTOR | TDES3_LAST_DESCRIPTOR);
    if checksum {
        des3 = des3 | ((TX_CIC_FULL << TDES3_CHECKSUM_INSERTION_SHIFT)
            & TDES3_CHECKSUM_INSERTION_MASK);
    }
    dma_wmb();
    desc.des3 = des3 | TDES3_OWN;
}

/// Orders the writes to a descriptor's fields before the write that sets its
/// OWN bit: `core::sync::atomic::fence` with release ordering. Nothing is
/// claimed of it, since it changes no value.
#[verifier::external_body]
pub fn dma_wmb() {
    core::sync::atomic::fence(core::sync::atomic::Ordering::Release);
}

/// Whether the controller holds a transmit descriptor.
#[verifier::allow_in_spec]
pub fn tx_owned(desc: &DmaDesc) -> (owned: bool)
    returns
        (desc.des3 & TDES3_OWN) != 0,
{
    (desc.des3 & TDES3_OWN) != 0
}

/// Whether a frame was sent with an error.
#[verifier::allow_in_spec]
pub fn tx_has_error(desc: &DmaDesc) -> (error: bool)
    returns
        (desc.des3 & TDES3_ERROR_SUMMARY) != 0,
{
    (desc.des3 & TDES3_ERROR_SUMMARY) != 0
}

/// Whether the controller holds a receive descriptor.
#[verifier::allow_in_spec]
pub fn rx_owned(desc: &DmaDesc) -> (owned: bool)
    returns
        (desc.des3 & RDES3_OWN) != 0,
{
    (desc.des3 & RDES3_OWN) != 0
}

/// Whether a receive descriptor holds one whole frame.
#[verifier::allow_in_spec]
pub fn rx_ready(desc: &DmaDesc) -> (ready: bool)
    returns
        !rx_owned(desc) && (desc.des3 & RDES3_LAST_DESCRIPTOR) != 0 && (desc.des3
            & RDES3_FIRST_DESCRIPTOR) != 0,
{
    !rx_owned(desc) && (desc.des3 & RDES3_LAST_DESCRIPTOR) != 0 && (desc.des3
        & RDES3_FIRST_DESCRIPTOR) != 0
}

/// The length of a received frame.
#[verifier::allow_in_spec]
pub fn rx_len(desc: &DmaDesc) -> (len: usize)
    returns
        (desc.des3 & RDES3_PACKET_SIZE_MASK) as usize,
{
    (desc.des3 & RDES3_PACKET_SIZE_MASK) as usize
}

/// Whether a frame was received with an error.
#[verifier::allow_in_spec]
pub fn rx_has_error(desc: &DmaDesc) -> (error: bool)
    returns
        (desc.des3 & RDES3_ERROR_SUMMARY) != 0,
{
    (desc.des3 & RDES3_ERROR_SUMMARY) != 0
}

/// The offset of a descriptor in its ring.
pub fn ring_offset(index: usize) -> (offset: u64)
    requires
        index * DESC_SIZE <= usize::MAX,
    ensures
        offset == index * DESC_SIZE,
{
    (index * DESC_SIZE) as u64
}

/// The lower and the upper half of an address.
pub fn split_addr(addr: u64) -> (halves: (u32, u32))
    ensures
        halves == (addr as u32, (addr >> 32) as u32),
        halves.0 + halves.1 * 0x1_0000_0000 == addr,
{
    assert((addr as u32) + ((addr >> 32) as u32) * 0x1_0000_0000 == addr) by (bit_vector);
    (addr as u32, (addr >> 32) as u32)
}

/// The size field of a queue with `bytes` bytes: one less than its count of
/// 256-byte blocks, but not less than zero.
pub fn mtl_fifo_words(bytes: u32) -> (words: u32)
    ensures
        words == if bytes < 256 {
            0int
        } else {
            bytes / 256 - 1
        },
{
    (bytes / 256).saturating_sub(1)
}

/// The receive buffer size field of the receive control register.
#[verifier::allow_in_spec]
pub fn rx_buf_size_bits(size: usize) -> (bits: u32)
    returns
        ((size as u32) << regs::DMA_RBSZ_SHIFT) & regs::DMA_RBSZ_MASK,
{
    ((size as u32) << regs::DMA_RBSZ_SHIFT) & regs::DMA_RBSZ_MASK
}

/// A frame that was handed over stays with the controller until it writes the
/// descriptor back.
pub proof fn law_prepared_descriptors_are_owned(bus_addr: u64, len: usize, checksum: bool)
    ensures
        tx_owned(&tx_desc(bus_addr, len, checksum)),
        rx_owned(&rx_desc(bus_addr)),
        !tx_owned(&idle()),
        !rx_owned(&idle()),
        !rx_ready(&idle()),
{
    assert((forall|x: u32| (x | TDES3_OWN) & TDES3_OWN != 0) && (RDES3_OWN
        | RDES3_BUFFER1_VALID_ADDR | RDES3_INT_ON_COMPLETION_EN) & RDES3_OWN != 0 && 0u32
        & TDES3_OWN == 0 && 0u32 & RDES3_OWN == 0 && 0u32 & RDES3_LAST_DESCRIPTOR == 0)
        by (bit_vector);
}

/// The buffer address in a descriptor is the one that was put in.
pub proof fn law_descriptor_holds_address(bus_addr: u64, len: usize, checksum: bool)
    ensures
        tx_desc(bus_addr, len, checksum).des0 + tx_desc(bus_addr, len, checksum).des1
            * 0x1_0000_0000 == bus_addr,
        rx_desc(bus_addr).des0 + rx_desc(bus_addr).des1 * 0x1_0000_0000 == bus_addr,
{
    assert((bus_addr as u32) + ((bus_addr >> 32) as u32) * 0x1_0000_0000 == bus_addr)
        by (bit_vector);
}

} // verus!
