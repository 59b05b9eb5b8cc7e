//! Descriptor rings, interrupts and hardware set-up of the Ethernet controller.

use std::collections::VecDeque;
use vstd::prelude::*;
use crate::bits;
use crate::bits::bit;
use crate::gmac::desc;
use crate::gmac::desc::DmaDesc;
use crate::gmac::mdio::PhyLinkState;
use crate::gmac::regs;
use crate::gmac::regs::Mmio;
use crate::script;
use crate::script::{Op, Reg, Script, Window};

verus! {

/// The queue and DMA channel in use.
pub const QUEUE_ID: usize = 0;
/// Descriptors in a ring.
pub const QUEUE_SIZE: usize = 64;
/// Size of a data buffer.
pub const BUFFER_SIZE: usize = 2048;
/// Alignment of a ring in memory.
pub const DMA_ALIGN: usize = 0x1000;
/// Addresses that the controller reaches.
pub const DMA_MASK: u64 = 0xffff_ffff_ffff_ffff;
/// Reads of the reset bit before the DMA reset is given up.
pub const RESET_TIMEOUT: u32 = 1_000_000;

/// Settings of the controller.
#[derive(Clone, Copy, Debug)]
pub struct K3GmacConfig {
    pub mac: [u8; 6],
    pub tx_fifo_depth: u32,
    pub rx_fifo_depth: u32,
    pub checksum_offload: bool,
    /// Link speed without a PHY: 1000, 100 or 10.
    pub speed_mbps: u32,
    /// Duplex mode without a PHY.
    pub full_duplex: bool,
}

impl K3GmacConfig {
    /// Transmit and receive queue sizes: as configured, but never less than
    /// one buffer.
    pub fn queue_fifo_depths(self) -> (depths: (u32, u32))
        ensures
            depths.0 == (if self.tx_fifo_depth > BUFFER_SIZE {
                self.tx_fifo_depth as int
            } else {
                BUFFER_SIZE as int
            }),
            depths.1 == (if self.rx_fifo_depth > BUFFER_SIZE {
                self.rx_fifo_depth as int
            } else {
                BUFFER_SIZE as int
            }),
    {
        let least: u32 = BUFFER_SIZE as u32;
        let tx: u32 = if self.tx_fifo_depth > least {
            self.tx_fifo_depth
        } else {
            least
        };
        let rx: u32 = if self.rx_fifo_depth > least {
            self.rx_fifo_depth
        } else {
            least
        };
        (tx, rx)
    }
}

/// The slot after `index` in a ring.
pub open spec fn after(index: int, steps: int) -> int {
    (index + steps) % QUEUE_SIZE as int
}

/// The slot after `index`.
pub fn next(index: usize) -> (following: usize)
    requires
        index < usize::MAX,
    ensures
        following == (index + 1) % QUEUE_SIZE as int,
{
    let sum: usize = index + 1;
    assert(sum & (64usize - 1) as usize == sum % 64) by (bit_vector);
    sum & (QUEUE_SIZE - 1)
}

/// Which buffers the controller holds. They were handed over in order and
/// come back in order.
#[derive(Clone, Copy, Debug)]
pub struct Ring {
    /// The buffer in each slot.
    pub slots: [Option<u64>; QUEUE_SIZE],
    /// The oldest slot in use.
    pub clean: usize,
    /// The slot for the next buffer.
    pub fill: usize,
}

impl Ring {
    /// How many slots are in use.
    pub open spec fn count(self) -> nat {
        if self.slots@[self.clean as int] is None {
            0
        } else if self.fill > self.clean {
            (self.fill - self.clean) as nat
        } else {
            (self.fill + QUEUE_SIZE - self.clean) as nat
        }
    }

    /// The slots in use are those from `clean` up to `fill`.
    pub open spec fn wf(self) -> bool {
        &&& self.clean < QUEUE_SIZE
        &&& self.fill < QUEUE_SIZE
        &&& self.count() == 0 ==> self.fill == self.clean
        &&& forall|k: int|
            0 <= k < QUEUE_SIZE ==> ((#[trigger] self.slots@[after(self.clean as int, k)]) is Some
                <==> k < self.count())
    }

    /// The buffers that the controller holds, oldest first.
    pub open spec fn view(self) -> Seq<u64> {
        Seq::new(self.count(), |k: int| self.slots@[after(self.clean as int, k)]->0)
    }

    /// A ring without buffers.
    pub fn new() -> (ring: Ring)
        ensures
            ring.wf(),
            ring@ == Seq::<u64>::empty(),
            ring.clean == 0,
            ring.fill == 0,
    {
        let ring = Ring { slots: [None; QUEUE_SIZE], clean: 0, fill: 0 };
        assert(ring@ =~= Seq::empty());
        ring
    }

    /// Puts a buffer into the slot at `fill`, which must be free.
    fn put(&mut self, addr: u64)
        requires
            old(self).wf(),
            old(self).slots@[old(self).fill as int] is None,
        ensures
            final(self).wf(),
            final(self)@ == old(self)@.push(addr),
            final(self).clean == old(self).clean,
            final(self).fill == after(old(self).fill as int, 1),
    {
        let ghost before = *self;
        let index: usize = self.fill;
        self.slots[index] = Some(addr);
        self.fill = next(index);
        proof {
            let n = before.count() as int;
            let clean = before.clean as int;
            assert(n < 64) by {
                if n >= 64 {
                    assert(before.slots@[after(clean, 0)] is Some);
                }
            }
            assert(after(clean, n) == index);
            assert(before.slots@[after(clean, 0)] is Some <==> 0 < n);
            assert(self.count() == n + 1);
            assert forall|k: int| 0 <= k < QUEUE_SIZE implies ((
            #[trigger] self.slots@[after(clean, k)]) is Some <==> k < self.count()) by {
                assert(before.slots@[after(clean, k)] is Some <==> k < n);
            }
            assert(self@ =~= before@.push(addr)) by {
                assert forall|k: int| 0 <= k < n implies self@[k] == before@[k] by {
                    assert(before.slots@[after(clean, k)] is Some);
                }
            }
        }
    }

    /// Takes the oldest buffer out.
    fn take(&mut self) -> (addr: u64)
        requires
            old(self).wf(),
            old(self).count() > 0,
        ensures
            final(self).wf(),
            addr == old(self)@[0],
            final(self)@ == old(self)@.skip(1),
            final(self).clean == after(old(self).clean as int, 1),
            final(self).fill == old(self).fill,
    {
        let ghost before = *self;
        let index: usize = self.clean;
        let addr: u64 = match self.slots[index] {
            Some(addr) => addr,
            None => 0,
        };
        self.slots[index] = None;
        self.clean = next(index);
        proof {
            let n = before.count() as int;
            let clean = before.clean as int;
            assert(after(clean, 0) == clean);
            assert(forall|k: int| 0 <= k < 63 ==> #[trigger] after(self.clean as int, k) == after(
                clean,
                k + 1,
            ));
            assert(after(self.clean as int, 63) == clean);
            if n > 1 {
                assert(before.slots@[after(clean, 1)] is Some);
            } else {
                assert(before.slots@[after(clean, 1)] is None);
            }
            assert(after(self.clean as int, 0) == self.clean);
            assert(self.count() == n - 1);
            assert forall|k: int| 0 <= k < QUEUE_SIZE implies ((
            #[trigger] self.slots@[after(self.clean as int, k)]) is Some <==> k < self.count()) by {
                if k < 63 {
                    assert(before.slots@[after(clean, k + 1)] is Some <==> k + 1 < n);
                }
            }
            assert(self@ =~= before@.skip(1)) by {
                assert forall|k: int| 0 <= k < n - 1 implies self@[k] == before@[k + 1] by {
                    assert(after(self.clean as int, k) == after(clean, k + 1));
                    assert(before.slots@[after(clean, k + 1)] is Some);
                }
            }
        }
        addr
    }
}

/// The descriptors of a ring, as the CPU sees them.
pub type DescRing = [DmaDesc; QUEUE_SIZE];

/// A frame to be sent.
#[derive(Clone, Copy, Debug, PartialEq, Eq, Structural)]
pub struct TxBuffer {
    pub bus_addr: u64,
    pub len: usize,
}

/// Why a buffer was not taken.
#[derive(Clone, Copy, Debug, PartialEq, Eq, Structural)]
pub enum SubmitError {
    /// The ring is full; try again when a buffer came back.
    Retry,
}

/// What is left to do once a descriptor is filled in: write the descriptor
/// at `index` to memory, then carry `script` out.
#[derive(Debug)]
pub struct Doorbell {
    pub index: usize,
    pub script: Script,
}

/// Which queues have work.
#[derive(Clone, Copy, Debug, PartialEq, Eq, Structural)]
pub struct NetEvent {
    pub tx: bool,
    pub rx: bool,
}

/// State of the controller.
#[derive(Debug)]
pub struct K3GmacCore {
    /// Bus address of the transmit ring.
    pub tx_ring_addr: u64,
    /// Bus address of the receive ring.
    pub rx_ring_addr: u64,
    pub mac: [u8; 6],
    pub checksum_offload: bool,
    pub tx_fifo_depth: u32,
    pub rx_fifo_depth: u32,
    pub speed_mbps: u32,
    pub full_duplex: bool,
    /// Frames that the controller holds.
    pub tx: Ring,
    /// Empty buffers that the controller holds.
    pub rx: Ring,
    /// Buffers of sent frames.
    pub tx_done: VecDeque<u64>,
    /// Buffers that came back from reception, with the frame length.
    pub rx_done: VecDeque<(u64, usize)>,
    pub irq_enabled: bool,
}

/// A register of the controller.
pub open spec fn gmac_reg(offset: int) -> Reg {
    Reg { window: Window::Core, offset: offset as usize }
}

/// How many of `count` descriptors from slot `at` on the controller has given
/// back: those before the first that it still holds.
pub open spec fn released(ring: Seq<DmaDesc>, at: int, count: nat) -> nat
    decreases count,
{
    if count == 0 || desc::tx_owned(&ring[at]) {
        0
    } else {
        1 + released(ring, after(at, 1), (count - 1) as nat)
    }
}

/// The ring with `count` descriptors from slot `at` on cleared.
pub open spec fn cleared(ring: Seq<DmaDesc>, at: int, count: nat) -> Seq<DmaDesc> {
    Seq::new(
        ring.len(),
        |i: int|
            if (i - at) % QUEUE_SIZE as int >= 0 && (i - at) % (QUEUE_SIZE as int) < count {
                desc::idle()
            } else {
                ring[i]
            },
    )
}

/// The length of the frame in a receive descriptor that came back: nothing if
/// it is not one whole frame without errors, and at most one buffer.
pub open spec fn frame_len(desc: DmaDesc) -> usize {
    if desc::rx_ready(&desc) && !desc::rx_has_error(&desc) {
        if desc::rx_len(&desc) < BUFFER_SIZE {
            desc::rx_len(&desc)
        } else {
            BUFFER_SIZE
        }
    } else {
        0
    }
}

/// The first `count` buffers of `held`, each with the length of its frame.
pub open spec fn received(
    held: Seq<u64>,
    ring: Seq<DmaDesc>,
    at: int,
    count: nat,
) -> Seq<(u64, usize)> {
    Seq::new(count, |k: int| (held[k], frame_len(ring[after(at, k)])))
}

impl K3GmacCore {
    /// Both rings are in order and lie within the address space.
    pub open spec fn wf(&self) -> bool {
        &&& self.tx.wf()
        &&& self.rx.wf()
        &&& self.tx_ring_addr + QUEUE_SIZE * desc::DESC_SIZE <= u64::MAX
        &&& self.rx_ring_addr + QUEUE_SIZE * desc::DESC_SIZE <= u64::MAX
    }

    /// Everything but the rings and the buffers that came back.
    pub open spec fn same_settings(&self, other: &K3GmacCore) -> bool {
        &&& self.tx_ring_addr == other.tx_ring_addr
        &&& self.rx_ring_addr == other.rx_ring_addr
        &&& self.mac == other.mac
        &&& self.checksum_offload == other.checksum_offload
        &&& self.tx_fifo_depth == other.tx_fifo_depth
        &&& self.rx_fifo_depth == other.rx_fifo_depth
        &&& self.speed_mbps == other.speed_mbps
        &&& self.full_duplex == other.full_duplex
        &&& self.irq_enabled == other.irq_enabled
    }

    /// How many frames the controller has sent and not yet had taken back.
    pub open spec fn sent(&self, ring: Seq<DmaDesc>) -> nat {
        released(ring, self.tx.clean as int, self.tx@.len())
    }

    /// How many receive buffers the controller is done with.
    pub open spec fn filled(&self, ring: Seq<DmaDesc>) -> nat {
        released(ring, self.rx.clean as int, self.rx@.len())
    }

    /// A controller with empty rings at the given bus addresses.
    pub fn new(tx_ring_addr: u64, rx_ring_addr: u64, config: K3GmacConfig) -> (core: K3GmacCore)
        requires
            tx_ring_addr + QUEUE_SIZE * desc::DESC_SIZE <= u64::MAX,
            rx_ring_addr + QUEUE_SIZE * desc::DESC_SIZE <= u64::MAX,
        ensures
            core.wf(),
            core.tx@ == Seq::<u64>::empty(),
            core.rx@ == Seq::<u64>::empty(),
            core.tx_done@ == Seq::<u64>::empty(),
            core.rx_done@ == Seq::<(u64, usize)>::empty(),
            core.tx.clean == 0 && core.rx.clean == 0,
            core.tx_ring_addr == tx_ring_addr,
            core.rx_ring_addr == rx_ring_addr,
            core.mac == config.mac,
            core.checksum_offload == config.checksum_offload,
            core.tx_fifo_depth == (if config.tx_fifo_depth > BUFFER_SIZE {
                config.tx_fifo_depth as int
            } else {
                BUFFER_SIZE as int
            }),
            core.rx_fifo_depth == (if config.rx_fifo_depth > BUFFER_SIZE {
                config.rx_fifo_depth as int
            } else {
                BUFFER_SIZE as int
            }),
            core.speed_mbps == config.speed_mbps,
            core.full_duplex == config.full_duplex,
            !core.irq_enabled,
    {
        let (tx_fifo_depth, rx_fifo_depth) = config.queue_fifo_depths();
        K3GmacCore {
            tx_ring_addr,
            rx_ring_addr,
            mac: config.mac,
            checksum_offload: config.checksum_offload,
            tx_fifo_depth,
            rx_fifo_depth,
            speed_mbps: config.speed_mbps,
            full_duplex: config.full_duplex,
            tx: Ring::new(),
            rx: Ring::new(),
            tx_done: VecDeque::with_capacity(QUEUE_SIZE),
            rx_done: VecDeque::with_capacity(QUEUE_SIZE),
            irq_enabled: false,
        }
    }

    /// The station address.
    pub fn mac_address(&self) -> (mac: [u8; 6])
        ensures
            mac == self.mac,
    {
        self.mac
    }

    /// Whether interrupts are enabled.
    pub fn is_irq_enabled(&self) -> (enabled: bool)
        ensures
            enabled == self.irq_enabled,
    {
        self.irq_enabled
    }

    /// Takes back the frames that were sent. They come back in the order in
    /// which they were handed over, and none is lost.
    pub fn reclaim_tx(&mut self, ring: &mut DescRing)
        requires
            old(self).wf(),
        ensures
            final(self).wf(),
            final(self).same_settings(old(self)),
            final(self).rx == old(self).rx,
            final(self).rx_done@ == old(self).rx_done@,
            final(self).tx.fill == old(self).tx.fill,
            final(self).tx.clean == after(
                old(self).tx.clean as int,
                old(self).sent(old(ring)@) as int,
            ),
            old(self).sent(old(ring)@) <= old(self).tx@.len(),
            final(self).tx@ == old(self).tx@.skip(old(self).sent(old(ring)@) as int),
            final(self).tx_done@ == old(self).tx_done@ + old(self).tx@.take(
                old(self).sent(old(ring)@) as int,
            ),
            final(ring)@ == cleared(
                old(ring)@,
                old(self).tx.clean as int,
                old(self).sent(old(ring)@),
            ),
    {
        let ghost start = *self;
        let ghost descs = ring@;
        let ghost mut count: nat = 0;
        assert(cleared(descs, start.tx.clean as int, 0) =~= descs);
        assert(start.tx@.skip(0) =~= start.tx@);
        while self.tx.slots[self.tx.clean].is_some()
            invariant_except_break
                count + released(descs, self.tx.clean as int, self.tx@.len()) == start.sent(descs),
            invariant
                self.wf(),
                start.wf(),
                self.same_settings(&start),
                self.rx == start.rx,
                self.rx_done@ == start.rx_done@,
                self.tx.fill == start.tx.fill,
                count <= start.tx@.len(),
                self.tx.clean == after(start.tx.clean as int, count as int),
                self.tx@ == start.tx@.skip(count as int),
                self.tx_done@ == start.tx_done@ + start.tx@.take(count as int),
                ring@ == cleared(descs, start.tx.clean as int, count),
                descs.len() == QUEUE_SIZE,
            ensures
                count == start.sent(descs),
            decreases self.tx@.len(),
        {
            let index: usize = self.tx.clean;
            proof {
                lemma_full(start.tx);
                lemma_clear_next(descs, start.tx.clean as int, count, index as int);
            }
            if desc::tx_owned(&ring[index]) {
                break;
            }
            let mut entry = ring[index];
            desc::clear(&mut entry);
            ring[index] = entry;
            let addr: u64 = self.tx.take();
            self.tx_done.push_back(addr);
            proof {
                assert(start.tx@.skip(count as int).skip(1) =~= start.tx@.skip(count as int + 1));
                assert(start.tx@.take(count as int).push(addr) =~= start.tx@.take(count as int + 1));
                count = count + 1;
            }
        }
    }

    /// Takes back the receive buffers that the controller is done with, each
    /// with the length of its frame. They come back in the order in which they
    /// were handed over, and none is lost: a buffer without a good frame comes
    /// back with length zero.
    pub fn reclaim_rx(&mut self, ring: &mut DescRing)
        requires
            old(self).wf(),
        ensures
            final(self).wf(),
            final(self).same_settings(old(self)),
            final(self).tx == old(self).tx,
            final(self).tx_done@ == old(self).tx_done@,
            final(self).rx.fill == old(self).rx.fill,
            final(self).rx.clean == after(
                old(self).rx.clean as int,
                old(self).filled(old(ring)@) as int,
            ),
            old(self).filled(old(ring)@) <= old(self).rx@.len(),
            final(self).rx@ == old(self).rx@.skip(old(self).filled(old(ring)@) as int),
            final(self).rx_done@ == old(self).rx_done@ + received(
                old(self).rx@,
                old(ring)@,
                old(self).rx.clean as int,
                old(self).filled(old(ring)@),
            ),
            final(ring)@ == cleared(
                old(ring)@,
                old(self).rx.clean as int,
                old(self).filled(old(ring)@),
            ),
    {
        let ghost start = *self;
        let ghost descs = ring@;
        let ghost mut count: nat = 0;
        assert(cleared(descs, start.rx.clean as int, 0) =~= descs);
        assert(start.rx@.skip(0) =~= start.rx@);
        while self.rx.slots[self.rx.clean].is_some()
            invariant_except_break
                count + released(descs, self.rx.clean as int, self.rx@.len()) == start.filled(
                    descs,
                ),
            invariant
                self.wf(),
                start.wf(),
                self.same_settings(&start),
                self.tx == start.tx,
                self.tx_done@ == start.tx_done@,
                self.rx.fill == start.rx.fill,
                count <= start.rx@.len(),
                self.rx.clean == after(start.rx.clean as int, count as int),
                self.rx@ == start.rx@.skip(count as int),
                self.rx_done@ == start.rx_done@ + received(
                    start.rx@,
                    descs,
                    start.rx.clean as int,
                    count,
                ),
                ring@ == cleared(descs, start.rx.clean as int, count),
                descs.len() == QUEUE_SIZE,
            ensures
                count == start.filled(descs),
            decreases self.rx@.len(),
        {
            let index: usize = self.rx.clean;
            proof {
                lemma_full(start.rx);
                lemma_clear_next(descs, start.rx.clean as int, count, index as int);
            }
            if desc::rx_owned(&ring[index]) {
                break;
            }
            let mut entry = ring[index];
            let has_err = desc::rx_has_error(&entry);
            let len: usize = if desc::rx_ready(&entry) && !has_err {
                let len: usize = desc::rx_len(&entry);
                if len < BUFFER_SIZE {
                    len
                } else {
                    BUFFER_SIZE
                }
            } else {
                0
            };
            desc::clear(&mut entry);
            ring[index] = entry;
            let addr: u64 = self.rx.take();
            self.rx_done.push_back((addr, len));
            proof {
                assert(start.rx@.skip(count as int).skip(1) =~= start.rx@.skip(count as int + 1));
                assert(received(start.rx@, descs, start.rx.clean as int, count).push((addr, len))
                    =~= received(start.rx@, descs, start.rx.clean as int, count + 1));
                count = count + 1;
            }
        }
    }

    /// The bus address of the transmit tail after a frame was put into `slot`.
    pub open spec fn tx_tail(&self, slot: int) -> u32 {
        (self.tx_ring_addr + slot * desc::DESC_SIZE) as u64 as u32
    }

    /// The bus address of the receive tail after a buffer was put into `slot`.
    pub open spec fn rx_tail(&self, slot: int) -> u32 {
        (self.rx_ring_addr + slot * desc::DESC_SIZE) as u64 as u32
    }

    /// Hands a frame to the controller. Sent frames are taken back first; the
    /// frame is refused if its slot is in use even then.
    pub fn submit_tx(&mut self, ring: &mut DescRing, buffer: TxBuffer) -> (result: Result<
        Doorbell,
        SubmitError,
    >)
        requires
            old(self).wf(),
        ensures
            final(self).wf(),
            final(self).same_settings(old(self)),
            final(self).rx == old(self).rx,
            final(self).rx_done@ == old(self).rx_done@,
            ({
                let sent = old(self).sent(old(ring)@);
                let held = old(self).tx@.skip(sent as int);
                let descs = cleared(old(ring)@, old(self).tx.clean as int, sent);
                let slot = old(self).tx.fill as int;
                let room = held.len() < QUEUE_SIZE && !desc::tx_owned(&descs[slot]);
                &&& final(self).tx_done@ == old(self).tx_done@ + old(self).tx@.take(sent as int)
                &&& final(self).tx.clean == after(old(self).tx.clean as int, sent as int)
                &&& result is Ok <==> room
                &&& !room ==> {
                    &&& result == Err::<Doorbell, SubmitError>(SubmitError::Retry)
                    &&& final(self).tx@ == held
                    &&& final(self).tx.fill == slot
                    &&& final(ring)@ == descs
                }
                &&& room ==> {
                    &&& final(self).tx@ == held.push(buffer.bus_addr)
                    &&& final(self).tx.fill == after(slot, 1)
                    &&& final(ring)@ == descs.update(
                        slot,
                        desc::tx_desc(
                            buffer.bus_addr,
                            if buffer.len < BUFFER_SIZE {
                                buffer.len
                            } else {
                                BUFFER_SIZE
                            },
                            old(self).checksum_offload,
                        ),
                    )
                    &&& result->Ok_0.index == slot
                    &&& result->Ok_0.script@ == seq![
                        Op::Write {
                            reg: gmac_reg(regs::dma_chan(0) + 0x20),
                            value: old(self).tx_tail(after(slot, 1)),
                        },
                        Op::Update { reg: gmac_reg(regs::dma_chan(0) + 0x04), clear: 0, set: regs::DMA_CONTROL_ST },
                    ]
                }
            }),
    {
        self.reclaim_tx(ring);
        let index: usize = self.tx.fill;
        proof {
            lemma_full(self.tx);
        }
        if self.tx.slots[index].is_some() || desc::tx_owned(&ring[index]) {
            return Err(SubmitError::Retry);
        }
        let len: usize = if buffer.len < BUFFER_SIZE {
            buffer.len
        } else {
            BUFFER_SIZE
        };
        let mut entry = ring[index];
        desc::prepare_tx(&mut entry, buffer.bus_addr, len, self.checksum_offload);
        ring[index] = entry;
        self.tx.put(buffer.bus_addr);
        let tail: u32 = (self.tx_ring_addr + desc::ring_offset(self.tx.fill)) as u32;
        let mmio = Mmio::new(Window::Core);
        let mut script = Script::new();
        script.push(mmio.write(regs::dma_chan_tx_end(0), tail));
        script.push(mmio.update(regs::dma_chan_tx_control(0), 0, regs::DMA_CONTROL_ST));
        Ok(Doorbell { index, script })
    }

    /// Takes back the buffer of the oldest frame that was sent.
    pub fn reclaim_tx_buffer(&mut self, ring: &mut DescRing) -> (buffer: Option<u64>)
        requires
            old(self).wf(),
        ensures
            final(self).wf(),
            final(self).same_settings(old(self)),
            final(self).rx == old(self).rx,
            final(self).rx_done@ == old(self).rx_done@,
            ({
                let sent = old(self).sent(old(ring)@);
                let done = old(self).tx_done@ + old(self).tx@.take(sent as int);
                &&& final(self).tx@ == old(self).tx@.skip(sent as int)
                &&& final(self).tx.clean == after(old(self).tx.clean as int, sent as int)
                &&& final(self).tx.fill == old(self).tx.fill
                &&& final(ring)@ == cleared(old(ring)@, old(self).tx.clean as int, sent)
                &&& done.len() == 0 ==> buffer is None && final(self).tx_done@ == done
                &&& done.len() > 0 ==> buffer == Some(done[0]) && final(self).tx_done@
                    == done.skip(1)
            }),
    {
        self.reclaim_tx(ring);
        let ghost done = self.tx_done@;
        let buffer = self.tx_done.pop_front();
        assert(done.len() > 0 ==> self.tx_done@ =~= done.skip(1));
        buffer
    }

    /// Hands an empty buffer to the controller; refused if its slot is in use.
    pub fn submit_rx(&mut self, ring: &mut DescRing, bus_addr: u64) -> (result: Result<
        Doorbell,
        SubmitError,
    >)
        requires
            old(self).wf(),
        ensures
            final(self).wf(),
            final(self).same_settings(old(self)),
            final(self).tx == old(self).tx,
            final(self).tx_done@ == old(self).tx_done@,
            final(self).rx_done@ == old(self).rx_done@,
            ({
                let slot = old(self).rx.fill as int;
                let room = old(self).rx@.len() < QUEUE_SIZE && !desc::rx_owned(&old(ring)@[slot]);
                &&& final(self).rx.clean == old(self).rx.clean
                &&& result is Ok <==> room
                &&& !room ==> {
                    &&& result == Err::<Doorbell, SubmitError>(SubmitError::Retry)
                    &&& final(self).rx == old(self).rx
                    &&& final(ring)@ == old(ring)@
                }
                &&& room ==> {
                    &&& final(self).rx@ == old(self).rx@.push(bus_addr)
                    &&& final(self).rx.fill == after(slot, 1)
                    &&& final(ring)@ == old(ring)@.update(slot, desc::rx_desc(bus_addr))
                    &&& result->Ok_0.index == slot
                    &&& result->Ok_0.script@ == seq![
                        Op::Write {
                            reg: gmac_reg(regs::dma_chan(0) + 0x28),
                            value: old(self).rx_tail(after(slot, 1)),
                        },
                        Op::Update { reg: gmac_reg(regs::dma_chan(0) + 0x08), clear: 0, set: regs::DMA_CONTROL_SR },
                    ]
                }
            }),
    {
        let index: usize = self.rx.fill;
        proof {
            lemma_full(self.rx);
        }
        if self.rx.slots[index].is_some() || desc::rx_owned(&ring[index]) {
            return Err(SubmitError::Retry);
        }
        let mut entry = ring[index];
        desc::prepare_rx(&mut entry, bus_addr);
        ring[index] = entry;
        self.rx.put(bus_addr);
        let tail: u32 = (self.rx_ring_addr + desc::ring_offset(self.rx.fill)) as u32;
        let mmio = Mmio::new(Window::Core);
        let mut script = Script::new();
        script.push(mmio.write(regs::dma_chan_rx_end(0), tail));
        script.push(mmio.update(regs::dma_chan_rx_control(0), 0, regs::DMA_CONTROL_SR));
        Ok(Doorbell { index, script })
    }

    /// Takes back the oldest receive buffer that the controller is done with.
    pub fn reclaim_rx_buffer(&mut self, ring: &mut DescRing) -> (buffer: Option<(u64, usize)>)
        requires
            old(self).wf(),
        ensures
            final(self).wf(),
            final(self).same_settings(old(self)),
            final(self).tx == old(self).tx,
            final(self).tx_done@ == old(self).tx_done@,
            ({
                let filled = old(self).filled(old(ring)@);
                let done = old(self).rx_done@ + received(
                    old(self).rx@,
                    old(ring)@,
                    old(self).rx.clean as int,
                    filled,
                );
                &&& final(self).rx@ == old(self).rx@.skip(filled as int)
                &&& final(self).rx.clean == after(old(self).rx.clean as int, filled as int)
                &&& final(self).rx.fill == old(self).rx.fill
                &&& final(ring)@ == cleared(old(ring)@, old(self).rx.clean as int, filled)
                &&& done.len() == 0 ==> buffer is None && final(self).rx_done@ == done
                &&& done.len() > 0 ==> buffer == Some(done[0]) && final(self).rx_done@
                    == done.skip(1)
            }),
    {
        self.reclaim_rx(ring);
        let ghost done = self.rx_done@;
        let buffer = self.rx_done.pop_front();
        assert(done.len() > 0 ==> self.rx_done@ =~= done.skip(1));
        buffer
    }
}

impl K3GmacCore {
    /// The access that enables the default interrupts.
    pub fn enable_irq(&mut self) -> (script: Script)
        ensures
            script@ == seq![
                Op::Write {
                    reg: gmac_reg(regs::dma_chan(0) + 0x34),
                    value: regs::DMA_CHAN_INTR_DEFAULT_MASK,
                },
            ],
            final(self).irq_enabled,
            script@ == seq![Op::Write { reg: gmac_reg(0x1134), value: 0x19001 }],
            *final(self) == (K3GmacCore { irq_enabled: true, ..*old(self) }),
    {
        let mmio = Mmio::new(Window::Core);
        let mut script = Script::new();
        script.push(mmio.write(regs::dma_chan_intr_ena(0), regs::DMA_CHAN_INTR_DEFAULT_MASK));
        self.irq_enabled = true;
        script
    }

    /// The access that disables every interrupt.
    pub fn disable_irq(&mut self) -> (script: Script)
        ensures
            script@ == seq![
                Op::Write { reg: gmac_reg(regs::dma_chan(0) + 0x34), value: 0 },
            ],
            !final(self).irq_enabled,
            script@ == seq![Op::Write { reg: gmac_reg(0x1134), value: 0 }],
            *final(self) == (K3GmacCore { irq_enabled: false, ..*old(self) }),
    {
        let mmio = Mmio::new(Window::Core);
        let mut script = Script::new();
        script.push(mmio.write(regs::dma_chan_intr_ena(0), 0));
        self.irq_enabled = false;
        script
    }

    /// The channel reports an event.
    pub open spec fn is_event(status: u32) -> bool {
        status & (regs::DMA_CHAN_STATUS_NIS | regs::DMA_CHAN_STATUS_AIS) != 0
    }

    /// Acknowledges the events in a channel status by writing it back; `None`
    /// if the interrupt came from elsewhere. The acknowledgement comes before
    /// [`K3GmacCore::handle_irq`], so that an event that arrives in between
    /// interrupts again.
    pub fn acknowledge(&self, status: u32) -> (script: Option<Script>)
        ensures
            script is Some <==> K3GmacCore::is_event(status),
            script matches Some(script) ==> script@ == seq![
                Op::Write { reg: gmac_reg(regs::dma_chan(0) + 0x60), value: status },
            ],
    {
        if status & (regs::DMA_CHAN_STATUS_NIS | regs::DMA_CHAN_STATUS_AIS) == 0 {
            return None;
        }
        let mmio = Mmio::new(Window::Core);
        let mut script = Script::new();
        script.push(mmio.write(regs::dma_chan_status(0), status));
        Some(script)
    }

    /// Handles the events in an acknowledged channel status: takes buffers
    /// back and tells which queues have work. Without an event nothing happens.
    pub fn handle_irq(
        &mut self,
        status: u32,
        tx_ring: &mut DescRing,
        rx_ring: &mut DescRing,
    ) -> (event: NetEvent)
        requires
            old(self).wf(),
        ensures
            final(self).wf(),
            final(self).same_settings(old(self)),
            !K3GmacCore::is_event(status) ==> {
                &&& event == (NetEvent { tx: false, rx: false })
                &&& *final(self) == *old(self)
                &&& final(tx_ring)@ == old(tx_ring)@
                &&& final(rx_ring)@ == old(rx_ring)@
            },
            K3GmacCore::is_event(status) ==> {
                let sent = old(self).sent(old(tx_ring)@);
                let filled = old(self).filled(old(rx_ring)@);
                &&& final(self).tx@ == old(self).tx@.skip(sent as int)
                &&& final(self).tx.clean == after(old(self).tx.clean as int, sent as int)
                &&& final(self).tx.fill == old(self).tx.fill
                &&& final(self).tx_done@ == old(self).tx_done@ + old(self).tx@.take(sent as int)
                &&& final(tx_ring)@ == cleared(old(tx_ring)@, old(self).tx.clean as int, sent)
                &&& final(self).rx@ == old(self).rx@.skip(filled as int)
                &&& final(self).rx.clean == after(old(self).rx.clean as int, filled as int)
                &&& final(self).rx.fill == old(self).rx.fill
                &&& final(self).rx_done@ == old(self).rx_done@ + received(
                    old(self).rx@,
                    old(rx_ring)@,
                    old(self).rx.clean as int,
                    filled,
                )
                &&& final(rx_ring)@ == cleared(old(rx_ring)@, old(self).rx.clean as int, filled)
                &&& event.tx <==> status & (regs::DMA_CHAN_STATUS_TI | regs::DMA_CHAN_STATUS_TBU)
                    != 0 || final(self).tx_done@.len() > 0
                &&& event.rx <==> status & (regs::DMA_CHAN_STATUS_RI | regs::DMA_CHAN_STATUS_RBU)
                    != 0 || final(self).rx_done@.len() > 0
            },
            bit(status, 14) || bit(status, 15) ==> {
                &&& event.tx <==> bit(status, 0) || bit(status, 2) || final(self).tx_done@.len() > 0
                &&& event.rx <==> bit(status, 6) || bit(status, 7) || final(self).rx_done@.len() > 0
            },
            !bit(status, 14) && !bit(status, 15) ==> !event.tx && !event.rx,
    {
        broadcast use bits::group_masks;

        if status & (regs::DMA_CHAN_STATUS_NIS | regs::DMA_CHAN_STATUS_AIS) == 0 {
            return NetEvent { tx: false, rx: false };
        }
        self.reclaim_tx(tx_ring);
        self.reclaim_rx(rx_ring);
        let tx = status & (regs::DMA_CHAN_STATUS_TI | regs::DMA_CHAN_STATUS_TBU) != 0
            || self.tx_done.len() > 0;
        let rx = status & (regs::DMA_CHAN_STATUS_RI | regs::DMA_CHAN_STATUS_RBU) != 0
            || self.rx_done.len() > 0;
        NetEvent { tx, rx }
    }

    /// Resets the DMA engine. The set-up goes on even if the reset bit stays.
    pub open spec fn reset_dma_ops() -> Seq<Op> {
        seq![
            Op::Update {
                reg: gmac_reg(regs::DMA_BUS_MODE as int),
                clear: 0,
                set: regs::DMA_BUS_MODE_SFT_RESET,
            },
            Op::Poll {
                reg: gmac_reg(regs::DMA_BUS_MODE as int),
                mask: regs::DMA_BUS_MODE_SFT_RESET,
                value: 0,
                attempts: RESET_TIMEOUT,
                interval_us: 1,
                patient: true,
                required: false,
            },
        ]
    }

    /// Resets the DMA engine.
    pub fn reset_dma(&self) -> (script: Script)
        ensures
            script@ == K3GmacCore::reset_dma_ops(),
    {
        let mmio = Mmio::new(Window::Core);
        let mut script = Script::new();
        script.push(mmio.update(regs::DMA_BUS_MODE, 0, regs::DMA_BUS_MODE_SFT_RESET));
        script.push(
            Op::Poll {
                reg: Reg { window: Window::Core, offset: regs::DMA_BUS_MODE as usize },
                mask: regs::DMA_BUS_MODE_SFT_RESET,
                value: 0,
                attempts: RESET_TIMEOUT,
                interval_us: 1,
                patient: true,
                required: false,
            },
        );
        script
    }

    /// Stops both DMA directions, then the MAC.
    pub open spec fn stop_dma_ops() -> Seq<Op> {
        seq![
            Op::Update {
                reg: gmac_reg(regs::dma_chan(0) + 0x04),
                clear: regs::DMA_CONTROL_ST,
                set: 0,
            },
            Op::Update {
                reg: gmac_reg(regs::dma_chan(0) + 0x08),
                clear: regs::DMA_CONTROL_SR,
                set: 0,
            },
            Op::Update {
                reg: gmac_reg(regs::GMAC_CONFIG as int),
                clear: regs::GMAC_CONFIG_TE | regs::GMAC_CONFIG_RE,
                set: 0,
            },
        ]
    }

    /// Stops both DMA directions, then the MAC.
    pub fn stop_dma(&self) -> (script: Script)
        ensures
            script@ == K3GmacCore::stop_dma_ops(),
    {
        let mmio = Mmio::new(Window::Core);
        let mut script = Script::new();
        script.push(mmio.update(regs::dma_chan_tx_control(0), regs::DMA_CONTROL_ST, 0));
        script.push(mmio.update(regs::dma_chan_rx_control(0), regs::DMA_CONTROL_SR, 0));
        script.push(
            mmio.update(regs::GMAC_CONFIG, regs::GMAC_CONFIG_TE | regs::GMAC_CONFIG_RE, 0),
        );
        script
    }

    /// Starts both DMA directions.
    pub open spec fn start_dma_ops() -> Seq<Op> {
        seq![
            Op::Update {
                reg: gmac_reg(regs::dma_chan(0) + 0x08),
                clear: 0,
                set: regs::DMA_CONTROL_SR,
            },
            Op::Update {
                reg: gmac_reg(regs::dma_chan(0) + 0x04),
                clear: 0,
                set: regs::DMA_CONTROL_ST,
            },
        ]
    }

    /// Starts both DMA directions.
    pub fn start_dma(&self) -> (script: Script)
        ensures
            script@ == K3GmacCore::start_dma_ops(),
    {
        let mmio = Mmio::new(Window::Core);
        let mut script = Script::new();
        script.push(mmio.update(regs::dma_chan_rx_control(0), 0, regs::DMA_CONTROL_SR));
        script.push(mmio.update(regs::dma_chan_tx_control(0), 0, regs::DMA_CONTROL_ST));
        script
    }

    /// Programs the station address.
    pub open spec fn program_mac_ops(&self) -> Seq<Op> {
        seq![
            Op::Write {
                reg: gmac_reg(regs::GMAC_ADDR_LOW0 as int),
                value: mac_low(self.mac@),
            },
            Op::Write {
                reg: gmac_reg(regs::GMAC_ADDR_HIGH0 as int),
                value: mac_high(self.mac@) | regs::GMAC_HI_REG_AE,
            },
        ]
    }

    /// Programs the station address.
    pub fn program_mac_address(&self) -> (script: Script)
        ensures
            script@ == self.program_mac_ops(),
    {
        let low: u32 = self.mac[0] as u32 | ((self.mac[1] as u32) << 8) | ((self.mac[2] as u32)
            << 16) | ((self.mac[3] as u32) << 24);
        let high: u32 = self.mac[4] as u32 | ((self.mac[5] as u32) << 8) | regs::GMAC_HI_REG_AE;
        let mmio = Mmio::new(Window::Core);
        let mut script = Script::new();
        script.push(mmio.write(regs::GMAC_ADDR_LOW0, low));
        script.push(mmio.write(regs::GMAC_ADDR_HIGH0, high));
        script
    }

    /// Bus mode, descriptor stride, interrupts and burst lengths. Every
    /// register is written as a whole, so that nothing is left of an earlier
    /// set-up.
    pub open spec fn init_dma_bus_ops() -> Seq<Op> {
        seq![
            Op::Write {
                reg: gmac_reg(regs::DMA_SYS_BUS_MODE as int),
                value: regs::DMA_SYS_BUS_EAME | regs::DMA_AXI_BLEN16 | regs::DMA_AXI_BLEN8 | (2u32
                    << regs::DMA_AXI_RD_OSR_LMT_SHIFT),
            },
            Op::Write {
                reg: gmac_reg(regs::dma_chan(0)),
                value: regs::DMA_CHAN_CONTROL_PBLX8 | (regs::DMA_CHAN_CONTROL_DSL_DEFAULT
                    << regs::DMA_CHAN_CONTROL_DSL_SHIFT),
            },
            Op::Write {
                reg: gmac_reg(regs::dma_chan(0) + 0x34),
                value: regs::DMA_CHAN_INTR_DEFAULT_MASK,
            },
            Op::Write {
                reg: gmac_reg(regs::dma_chan(0) + 0x04),
                value: regs::DMA_CONTROL_OSP | (8u32 << regs::DMA_BUS_MODE_PBL_SHIFT),
            },
            Op::Write {
                reg: gmac_reg(regs::dma_chan(0) + 0x08),
                value: desc::rx_buf_size_bits(BUFFER_SIZE) | (8u32
                    << regs::DMA_BUS_MODE_PBL_SHIFT),
            },
        ]
    }

    /// Bus mode, descriptor stride, interrupts and burst lengths.
    pub fn init_dma_bus(&self) -> (script: Script)
        ensures
            script@ == K3GmacCore::init_dma_bus_ops(),
    {
        let mmio = Mmio::new(Window::Core);
        let dsl: u32 = regs::DMA_CHAN_CONTROL_DSL_DEFAULT << regs::DMA_CHAN_CONTROL_DSL_SHIFT;
        let pbl: u32 = 8u32 << regs::DMA_BUS_MODE_PBL_SHIFT;
        let mut script = Script::new();
        script.push(
            mmio.write(
                regs::DMA_SYS_BUS_MODE,
                regs::DMA_SYS_BUS_EAME | regs::DMA_AXI_BLEN16 | regs::DMA_AXI_BLEN8 | (2u32
                    << regs::DMA_AXI_RD_OSR_LMT_SHIFT),
            ),
        );
        script.push(mmio.write(regs::dma_chan_control(0), regs::DMA_CHAN_CONTROL_PBLX8 | dsl));
        script.push(mmio.write(regs::dma_chan_intr_ena(0), regs::DMA_CHAN_INTR_DEFAULT_MASK));
        script.push(mmio.write(regs::dma_chan_tx_control(0), regs::DMA_CONTROL_OSP | pbl));
        script.push(
            mmio.write(regs::dma_chan_rx_control(0), desc::rx_buf_size_bits(BUFFER_SIZE) | pbl),
        );
        script
    }

    /// The size field of a queue.
    pub open spec fn queue_words(bytes: u32) -> u32 {
        if bytes < 256 {
            0
        } else {
            (bytes / 256 - 1) as u32
        }
    }

    /// Flow control thresholds of the receive queue, `(deactivate, activate)`.
    pub open spec fn flow_thresholds(bytes: u32) -> (u32, u32) {
        if bytes == 4096 {
            (0x03, 0x01)
        } else {
            (0x07, 0x04)
        }
    }

    /// Queue set-up: store and forward, queue sizes, and hardware flow control
    /// once the receive queue has 4096 bytes. The transmit mode is written as a
    /// whole, so that no flush is left on; the receive mode keeps its other bits.
    pub open spec fn init_mtl_ops(&self) -> Seq<Op> {
        let (rfd, rfa) = K3GmacCore::flow_thresholds(self.rx_fifo_depth);
        let basic = regs::MTL_OP_MODE_DIS_TCP_EF | regs::MTL_OP_MODE_RSF | (
        K3GmacCore::queue_words(self.rx_fifo_depth) << regs::MTL_OP_MODE_RQS_SHIFT);
        seq![
            Op::Write {
                reg: gmac_reg(regs::mtl_chan(0)),
                value: regs::MTL_OP_MODE_TSF | regs::MTL_OP_MODE_TXQEN | (
                K3GmacCore::queue_words(self.tx_fifo_depth) << regs::MTL_OP_MODE_TQS_SHIFT),
            },
            if self.rx_fifo_depth >= 4096 {
                Op::Update {
                    reg: gmac_reg(regs::mtl_chan(0) + 0x30),
                    clear: regs::MTL_OP_MODE_RQS_MASK | regs::MTL_OP_MODE_RFD_MASK
                        | regs::MTL_OP_MODE_RFA_MASK,
                    set: basic | regs::MTL_OP_MODE_EHFC | (rfd << regs::MTL_OP_MODE_RFD_SHIFT) | (
                    rfa << regs::MTL_OP_MODE_RFA_SHIFT),
                }
            } else {
                Op::Update {
                    reg: gmac_reg(regs::mtl_chan(0) + 0x30),
                    clear: regs::MTL_OP_MODE_RQS_MASK,
                    set: basic,
                }
            },
        ]
    }

    /// Queue set-up.
    pub fn init_mtl(&self) -> (script: Script)
        ensures
            script@ == self.init_mtl_ops(),
    {
        let mmio = Mmio::new(Window::Core);
        let txq_size: u32 = desc::mtl_fifo_words(self.tx_fifo_depth);
        let rxq_size: u32 = desc::mtl_fifo_words(self.rx_fifo_depth);
        let mut script = Script::new();
        script.push(
            mmio.write(
                regs::mtl_chan_tx_op_mode(0),
                regs::MTL_OP_MODE_TSF | regs::MTL_OP_MODE_TXQEN | (txq_size
                    << regs::MTL_OP_MODE_TQS_SHIFT),
            ),
        );
        let basic: u32 = regs::MTL_OP_MODE_DIS_TCP_EF | regs::MTL_OP_MODE_RSF | (rxq_size
            << regs::MTL_OP_MODE_RQS_SHIFT);
        if self.rx_fifo_depth >= 4096 {
            let (rfd, rfa): (u32, u32) = if self.rx_fifo_depth == 4096 {
                (0x03, 0x01)
            } else {
                (0x07, 0x04)
            };
            script.push(
                mmio.update(
                    regs::mtl_chan_rx_op_mode(0),
                    regs::MTL_OP_MODE_RQS_MASK | regs::MTL_OP_MODE_RFD_MASK
                        | regs::MTL_OP_MODE_RFA_MASK,
                    basic | regs::MTL_OP_MODE_EHFC | (rfd << regs::MTL_OP_MODE_RFD_SHIFT) | (rfa
                        << regs::MTL_OP_MODE_RFA_SHIFT),
                ),
            );
        } else {
            script.push(
                mmio.update(regs::mtl_chan_rx_op_mode(0), regs::MTL_OP_MODE_RQS_MASK, basic),
            );
        }
        script
    }

    /// Ring addresses and lengths. The tail pointers follow with the buffers.
    pub open spec fn init_rings_ops(&self) -> Seq<Op> {
        seq![
            Op::Write {
                reg: gmac_reg(regs::dma_chan(0) + 0x10),
                value: (self.tx_ring_addr >> 32) as u32,
            },
            Op::Write {
                reg: gmac_reg(regs::dma_chan(0) + 0x14),
                value: self.tx_ring_addr as u32,
            },
            Op::Write { reg: gmac_reg(regs::dma_chan(0) + 0x2c), value: 63 },
            Op::Write {
                reg: gmac_reg(regs::dma_chan(0) + 0x18),
                value: (self.rx_ring_addr >> 32) as u32,
            },
            Op::Write {
                reg: gmac_reg(regs::dma_chan(0) + 0x1c),
                value: self.rx_ring_addr as u32,
            },
            Op::Write { reg: gmac_reg(regs::dma_chan(0) + 0x30), value: 63 },
        ]
    }

    /// Clears every descriptor, and gives the accesses that announce the rings.
    pub fn init_rings(&self, tx_ring: &mut DescRing, rx_ring: &mut DescRing) -> (script: Script)
        ensures
            script@ == self.init_rings_ops(),
            forall|image: Map<Reg, u32>|
                {
                    let after = #[trigger] script::settle(script@, image);
                    &&& 0x1_0000_0000 * after[gmac_reg(0x1110)] + after[gmac_reg(0x1114)]
                        == self.tx_ring_addr
                    &&& 0x1_0000_0000 * after[gmac_reg(0x1118)] + after[gmac_reg(0x111c)]
                        == self.rx_ring_addr
                    &&& after[gmac_reg(0x112c)] == 63 && after[gmac_reg(0x1130)] == 63
                },
            final(tx_ring)@ == Seq::new(64, |i: int| desc::idle()),
            final(rx_ring)@ == Seq::new(64, |i: int| desc::idle()),
    {
        for index in 0..QUEUE_SIZE
            invariant
                tx_ring@.len() == QUEUE_SIZE,
                rx_ring@.len() == QUEUE_SIZE,
                forall|i: int| 0 <= i < index ==> tx_ring@[i] == desc::idle(),
                forall|i: int| 0 <= i < index ==> rx_ring@[i] == desc::idle(),
        {
            let mut tx_entry = tx_ring[index];
            desc::clear(&mut tx_entry);
            tx_ring[index] = tx_entry;
            let mut rx_entry = rx_ring[index];
            desc::clear(&mut rx_entry);
            rx_ring[index] = rx_entry;
        }
        let mmio = Mmio::new(Window::Core);
        let (tx_base, tx_base_hi) = desc::split_addr(self.tx_ring_addr);
        let (rx_base, rx_base_hi) = desc::split_addr(self.rx_ring_addr);
        let mut script = Script::new();
        script.push(mmio.write(regs::dma_chan_tx_base_hi(0), tx_base_hi));
        script.push(mmio.write(regs::dma_chan_tx_base(0), tx_base));
        script.push(mmio.write(regs::dma_chan_tx_ring_len(0), (QUEUE_SIZE - 1) as u32));
        script.push(mmio.write(regs::dma_chan_rx_base_hi(0), rx_base_hi));
        script.push(mmio.write(regs::dma_chan_rx_base(0), rx_base));
        script.push(mmio.write(regs::dma_chan_rx_ring_len(0), (QUEUE_SIZE - 1) as u32));
        assert forall|image: Map<Reg, u32>|
            {
                let after = #[trigger] script::settle(script@, image);
                &&& 0x1_0000_0000 * after[gmac_reg(0x1110)] + after[gmac_reg(0x1114)]
                    == self.tx_ring_addr
                &&& 0x1_0000_0000 * after[gmac_reg(0x1118)] + after[gmac_reg(0x111c)]
                    == self.rx_ring_addr
                &&& after[gmac_reg(0x112c)] == 63 && after[gmac_reg(0x1130)] == 63
            } by {
            script::settle_steps(script@, image);
        }
        script
    }

    /// MAC set-up without the speed and the enable bits; every frame passes
    /// the filter, and queue 0 takes them.
    pub open spec fn init_mac_ops(&self) -> Seq<Op> {
        seq![
            Op::Update {
                reg: gmac_reg(regs::GMAC_CONFIG as int),
                clear: regs::GMAC_CORE_INIT,
                set: if self.checksum_offload {
                    regs::GMAC_CORE_INIT | regs::GMAC_CONFIG_IPC
                } else {
                    regs::GMAC_CORE_INIT
                },
            },
            Op::Write {
                reg: gmac_reg(regs::GMAC_PACKET_FILTER as int),
                value: regs::GMAC_PACKET_FILTER_PR | regs::GMAC_PACKET_FILTER_PM,
            },
            Op::Update {
                reg: gmac_reg(regs::GMAC_RXQ_CTRL0 as int),
                clear: 0b11,
                set: regs::GMAC_RXQ0EN_DCB,
            },
        ]
    }

    /// MAC set-up without the speed and the enable bits.
    pub fn init_mac_config(&self) -> (script: Script)
        ensures
            script@ == self.init_mac_ops(),
    {
        let mmio = Mmio::new(Window::Core);
        let mut set: u32 = regs::GMAC_CORE_INIT;
        if self.checksum_offload {
            set = set | regs::GMAC_CONFIG_IPC;
        }
        let mut script = Script::new();
        script.push(mmio.update(regs::GMAC_CONFIG, regs::GMAC_CORE_INIT, set));
        script.push(
            mmio.write(
                regs::GMAC_PACKET_FILTER,
                regs::GMAC_PACKET_FILTER_PR | regs::GMAC_PACKET_FILTER_PM,
            ),
        );
        script.push(mmio.update(regs::GMAC_RXQ_CTRL0, 0b11, regs::GMAC_RXQ0EN_DCB));
        script
    }

    /// The version and what the hardware was built with.
    pub open spec fn feature_ops() -> Seq<Op> {
        seq![
            Op::Read { reg: gmac_reg(regs::GMAC_VERSION as int) },
            Op::Read { reg: gmac_reg(regs::GMAC_HW_FEATURE0 as int) },
            Op::Read { reg: gmac_reg(regs::GMAC_HW_FEATURE1 as int) },
            Op::Read { reg: gmac_reg(regs::GMAC_HW_FEATURE2 as int) },
            Op::Read { reg: gmac_reg(regs::GMAC_HW_FEATURE3 as int) },
        ]
    }

    /// Reads the version and what the hardware was built with, for diagnosis.
    pub fn log_hw_features(&self) -> (script: Script)
        ensures
            script@ == K3GmacCore::feature_ops(),
    {
        let mmio = Mmio::new(Window::Core);
        let mut script = Script::new();
        script.push(mmio.read(regs::GMAC_VERSION));
        script.push(mmio.read(regs::GMAC_HW_FEATURE0));
        script.push(mmio.read(regs::GMAC_HW_FEATURE1));
        script.push(mmio.read(regs::GMAC_HW_FEATURE2));
        script.push(mmio.read(regs::GMAC_HW_FEATURE3));
        script
    }

    /// The set-up before the PHY is looked for: reset, station address,
    /// features, DMA, queues, rings and MAC, in this order.
    pub open spec fn init_hardware_ops(&self) -> Seq<Op> {
        K3GmacCore::reset_dma_ops() + K3GmacCore::stop_dma_ops() + self.program_mac_ops()
            + K3GmacCore::feature_ops() + K3GmacCore::init_dma_bus_ops() + self.init_mtl_ops() + self.init_rings_ops()
            + self.init_mac_ops()
    }

    /// The set-up before the PHY is looked for. The cleared rings are to be
    /// written to memory before the script is carried out.
    pub fn init_hardware(&self, tx_ring: &mut DescRing, rx_ring: &mut DescRing) -> (script: Script)
        ensures
            script@ == self.init_hardware_ops(),
            final(tx_ring)@ == Seq::new(64, |i: int| desc::idle()),
            final(rx_ring)@ == Seq::new(64, |i: int| desc::idle()),
    {
        let mut script = self.reset_dma();
        script.append(self.stop_dma());
        script.append(self.program_mac_address());
        script.append(self.log_hw_features());
        script.append(self.init_dma_bus());
        script.append(self.init_mtl());
        script.append(self.init_rings(tx_ring, rx_ring));
        script.append(self.init_mac_config());
        script
    }

    /// The speed field of `GMAC_CONFIG`; `None` for a speed that the MAC does
    /// not have.
    pub open spec fn speed_bits(speed_mbps: u32) -> Option<u32> {
        if speed_mbps == 1000 {
            Some(0)
        } else if speed_mbps == 100 {
            Some(regs::GMAC_CONFIG_FES | regs::GMAC_CONFIG_PS)
        } else if speed_mbps == 10 {
            Some(regs::GMAC_CONFIG_PS)
        } else {
            None
        }
    }

    /// Sets speed and duplex mode and turns the MAC on; nothing for a speed
    /// that the MAC does not have.
    pub open spec fn apply_link_ops(speed_mbps: u32, full_duplex: bool) -> Seq<Op> {
        match K3GmacCore::speed_bits(speed_mbps) {
            Some(speed) => seq![
                Op::Update {
                    reg: gmac_reg(regs::GMAC_CONFIG as int),
                    clear: regs::GMAC_SPEED_MASK | regs::GMAC_CONFIG_DM | regs::GMAC_CONFIG_TE
                        | regs::GMAC_CONFIG_RE,
                    set: speed | if full_duplex {
                        regs::GMAC_CONFIG_DM
                    } else {
                        0
                    } | regs::GMAC_CONFIG_TE | regs::GMAC_CONFIG_RE,
                },
            ],
            None => Seq::empty(),
        }
    }

    /// Sets speed and duplex mode and turns the MAC on.
    pub fn apply_link_speed(&self, speed_mbps: u32, full_duplex: bool) -> (script: Script)
        ensures
            script@ == K3GmacCore::apply_link_ops(speed_mbps, full_duplex),
    {
        let mut script = Script::new();
        let speed: u32 = if speed_mbps == 1000 {
            0
        } else if speed_mbps == 100 {
            regs::GMAC_CONFIG_FES | regs::GMAC_CONFIG_PS
        } else if speed_mbps == 10 {
            regs::GMAC_CONFIG_PS
        } else {
            return script;
        };
        let duplex: u32 = if full_duplex {
            regs::GMAC_CONFIG_DM
        } else {
            0
        };
        let mmio = Mmio::new(Window::Core);
        script.push(
            mmio.update(
                regs::GMAC_CONFIG,
                regs::GMAC_SPEED_MASK | regs::GMAC_CONFIG_DM | regs::GMAC_CONFIG_TE
                    | regs::GMAC_CONFIG_RE,
                speed | duplex | regs::GMAC_CONFIG_TE | regs::GMAC_CONFIG_RE,
            ),
        );
        script
    }

    /// Speed and duplex mode to use: what the PHY negotiated, or the
    /// configured ones without a PHY or if its bring-up failed.
    pub fn link_settings(&self, phy: Option<PhyLinkState>) -> (settings: (u32, bool))
        ensures
            settings == (match phy {
                Some(link) => (link.speed_mbps, link.full_duplex),
                None => (self.speed_mbps, self.full_duplex),
            }),
    {
        match phy {
            Some(link) => (link.speed_mbps, link.full_duplex),
            None => (self.speed_mbps, self.full_duplex),
        }
    }

    /// The reads of the registers that the set-up leaves behind.
    pub open spec fn snapshot_ops() -> Seq<Op> {
        seq![
            Op::Read { reg: gmac_reg(regs::GMAC_CONFIG as int) },
            Op::Read { reg: gmac_reg(regs::GMAC_PACKET_FILTER as int) },
            Op::Read { reg: gmac_reg(regs::DMA_SYS_BUS_MODE as int) },
            Op::Read { reg: gmac_reg(regs::dma_chan(0) + 0x04) },
            Op::Read { reg: gmac_reg(regs::dma_chan(0) + 0x08) },
            Op::Read { reg: gmac_reg(regs::dma_chan(0) + 0x60) },
            Op::Read { reg: gmac_reg(regs::dma_chan(0) + 0x14) },
            Op::Read { reg: gmac_reg(regs::dma_chan(0) + 0x10) },
            Op::Read { reg: gmac_reg(regs::dma_chan(0) + 0x1c) },
            Op::Read { reg: gmac_reg(regs::dma_chan(0) + 0x18) },
            Op::Read { reg: gmac_reg(regs::dma_chan(0) + 0x2c) },
            Op::Read { reg: gmac_reg(regs::dma_chan(0) + 0x30) },
            Op::Read { reg: gmac_reg(regs::dma_chan(0) + 0x20) },
            Op::Read { reg: gmac_reg(regs::dma_chan(0) + 0x28) },
        ]
    }

    /// Reads the registers that the set-up leaves behind, for diagnosis.
    pub fn log_post_init_snapshot(&self) -> (script: Script)
        ensures
            script@ == K3GmacCore::snapshot_ops(),
    {
        let mmio = Mmio::new(Window::Core);
        let mut script = Script::new();
        script.push(mmio.read(regs::GMAC_CONFIG));
        script.push(mmio.read(regs::GMAC_PACKET_FILTER));
        script.push(mmio.read(regs::DMA_SYS_BUS_MODE));
        script.push(mmio.read(regs::dma_chan_tx_control(0)));
        script.push(mmio.read(regs::dma_chan_rx_control(0)));
        script.push(mmio.read(regs::dma_chan_status(0)));
        script.push(mmio.read(regs::dma_chan_tx_base(0)));
        script.push(mmio.read(regs::dma_chan_tx_base_hi(0)));
        script.push(mmio.read(regs::dma_chan_rx_base(0)));
        script.push(mmio.read(regs::dma_chan_rx_base_hi(0)));
        script.push(mmio.read(regs::dma_chan_tx_ring_len(0)));
        script.push(mmio.read(regs::dma_chan_rx_ring_len(0)));
        script.push(mmio.read(regs::dma_chan_tx_end(0)));
        script.push(mmio.read(regs::dma_chan_rx_end(0)));
        script
    }

    /// The set-up after the PHY: link speed, then DMA.
    pub fn finish_init(&self, phy: Option<PhyLinkState>) -> (script: Script)
        ensures
            script@ == (match phy {
                Some(link) => K3GmacCore::apply_link_ops(link.speed_mbps, link.full_duplex),
                None => K3GmacCore::apply_link_ops(self.speed_mbps, self.full_duplex),
            }) + K3GmacCore::start_dma_ops() + K3GmacCore::snapshot_ops(),
    {
        let (speed_mbps, full_duplex) = self.link_settings(phy);
        let mut script = self.apply_link_speed(speed_mbps, full_duplex);
        script.append(self.start_dma());
        script.append(self.log_post_init_snapshot());
        script
    }
}

/// The first four bytes of a MAC address, as the low address register holds
/// them.
pub open spec fn mac_low(mac: Seq<u8>) -> u32 {
    mac[0] as u32 | ((mac[1] as u32) << 8) | ((mac[2] as u32) << 16) | ((mac[3] as u32) << 24)
}

/// The last two bytes of a MAC address, as the high address register holds
/// them.
pub open spec fn mac_high(mac: Seq<u8>) -> u32 {
    mac[4] as u32 | ((mac[5] as u32) << 8)
}

/// A link setting turns transmission and reception on, sets the duplex mode as
/// asked, and keeps every setting that has nothing to do with the link.
pub proof fn law_link_settings_keep_the_rest(
    image: Map<Reg, u32>,
    speed_mbps: u32,
    full_duplex: bool,
)
    requires
        speed_mbps == 10 || speed_mbps == 100 || speed_mbps == 1000,
    ensures
        ({
            let reg = gmac_reg(regs::GMAC_CONFIG as int);
            let after = script::settle(K3GmacCore::apply_link_ops(speed_mbps, full_duplex), image)[reg];
            let link = regs::GMAC_SPEED_MASK | regs::GMAC_CONFIG_DM | regs::GMAC_CONFIG_TE
                | regs::GMAC_CONFIG_RE;
            &&& after & regs::GMAC_CONFIG_TE != 0
            &&& after & regs::GMAC_CONFIG_RE != 0
            &&& (after & regs::GMAC_CONFIG_DM != 0) == full_duplex
            &&& Some(after & regs::GMAC_SPEED_MASK) == K3GmacCore::speed_bits(speed_mbps)
            &&& after & !link == image[reg] & !link
        }),
{
    reveal_with_fuel(script::settle, 2);
    let ops = K3GmacCore::apply_link_ops(speed_mbps, full_duplex);
    assert(ops.drop_first() =~= Seq::empty());
    let v = image[gmac_reg(regs::GMAC_CONFIG as int)];
    let speed = K3GmacCore::speed_bits(speed_mbps)->0;
    let duplex = if full_duplex {
        regs::GMAC_CONFIG_DM
    } else {
        0
    };
    let speeds = regs::GMAC_CONFIG_FES | regs::GMAC_CONFIG_PS;
    assert(speed == 0 || speed == speeds || speed == regs::GMAC_CONFIG_PS);
    let after = script::updated(
        v,
        regs::GMAC_SPEED_MASK | regs::GMAC_CONFIG_DM | regs::GMAC_CONFIG_TE | regs::GMAC_CONFIG_RE,
        speed | duplex | regs::GMAC_CONFIG_TE | regs::GMAC_CONFIG_RE,
    );
    assert(after & regs::GMAC_CONFIG_TE != 0 && after & regs::GMAC_CONFIG_RE != 0 && (after
        & regs::GMAC_CONFIG_DM != 0) == (duplex != 0) && after & regs::GMAC_SPEED_MASK == speed
        && after & !(regs::GMAC_SPEED_MASK | regs::GMAC_CONFIG_DM | regs::GMAC_CONFIG_TE
        | regs::GMAC_CONFIG_RE) == v & !(regs::GMAC_SPEED_MASK | regs::GMAC_CONFIG_DM
        | regs::GMAC_CONFIG_TE | regs::GMAC_CONFIG_RE) && regs::GMAC_CONFIG_DM != 0) by (bit_vector)
        requires
            speed == 0 || speed == speeds || speed == regs::GMAC_CONFIG_PS,
            speeds == regs::GMAC_CONFIG_FES | regs::GMAC_CONFIG_PS,
            duplex == 0 || duplex == regs::GMAC_CONFIG_DM,
            after == (v & !(regs::GMAC_SPEED_MASK | regs::GMAC_CONFIG_DM | regs::GMAC_CONFIG_TE
                | regs::GMAC_CONFIG_RE)) | (speed | duplex | regs::GMAC_CONFIG_TE
                | regs::GMAC_CONFIG_RE),
    ;
}

/// The address registers hold each byte of the station address in its place.
pub proof fn law_station_address_reads_back(mac: [u8; 6])
    ensures
        mac_low(mac@) == mac[0] + mac[1] * 0x100 + mac[2] * 0x1_0000 + mac[3] * 0x100_0000,
        mac_high(mac@) == mac[4] + mac[5] * 0x100,
{
    let (a, b, c, d) = (mac[0], mac[1], mac[2], mac[3]);
    let (e, f) = (mac[4], mac[5]);
    assert(a as u32 | ((b as u32) << 8) | ((c as u32) << 16) | ((d as u32) << 24) == a + b * 0x100
        + c * 0x1_0000 + d * 0x100_0000 && e as u32 | ((f as u32) << 8) == e + f * 0x100)
        by (bit_vector);
}

/// The addresses of buffers that came back with a frame.
pub open spec fn addresses(done: Seq<(u64, usize)>) -> Seq<u64> {
    Seq::new(done.len(), |k: int| done[k].0)
}

/// No more descriptors come back than are looked at.
proof fn lemma_released_at_most(ring: Seq<DmaDesc>, at: int, count: nat)
    ensures
        released(ring, at, count) <= count,
    decreases count,
{
    if count > 0 && !desc::tx_owned(&ring[at]) {
        lemma_released_at_most(ring, after(at, 1), (count - 1) as nat);
    }
}

/// Transmit buffers are returned in the order in which they were handed over,
/// each once. The list of those that were not returned yet stays the same when
/// buffers are taken back from the controller, gets the new one at its end when
/// one is handed over, and loses its first one when one is returned.
pub proof fn law_sent_buffers_return_in_order(core: K3GmacCore, ring: Seq<DmaDesc>, bus_addr: u64)
    ensures
        ({
            let sent = core.sent(ring) as int;
            let unreturned = core.tx_done@ + core.tx@;
            let done = core.tx_done@ + core.tx@.take(sent);
            let held = core.tx@.skip(sent);
            &&& sent <= core.tx@.len()
            &&& done + held == unreturned
            &&& done + held.push(bus_addr) == unreturned.push(bus_addr)
            &&& done.len() > 0 ==> done[0] == unreturned[0] && done.skip(1) + held
                == unreturned.skip(1)
        }),
{
    lemma_released_at_most(ring, core.tx.clean as int, core.tx@.len());
    let sent = core.sent(ring) as int;
    let unreturned = core.tx_done@ + core.tx@;
    let done = core.tx_done@ + core.tx@.take(sent);
    let held = core.tx@.skip(sent);
    assert(done + held =~= unreturned);
    assert(done + held.push(bus_addr) =~= unreturned.push(bus_addr));
    if done.len() > 0 {
        assert(done.skip(1) + held =~= unreturned.skip(1));
    }
}

/// Receive buffers are returned in the order in which they were handed over,
/// each once.
pub proof fn law_received_buffers_return_in_order(
    core: K3GmacCore,
    ring: Seq<DmaDesc>,
    bus_addr: u64,
)
    ensures
        ({
            let filled = core.filled(ring);
            let unreturned = addresses(core.rx_done@) + core.rx@;
            let done = core.rx_done@ + received(core.rx@, ring, core.rx.clean as int, filled);
            let held = core.rx@.skip(filled as int);
            &&& filled <= core.rx@.len()
            &&& addresses(done) + held == unreturned
            &&& addresses(core.rx_done@) + core.rx@.push(bus_addr) == unreturned.push(bus_addr)
            &&& done.len() > 0 ==> done[0].0 == unreturned[0] && addresses(done.skip(1)) + held
                == unreturned.skip(1)
        }),
{
    lemma_released_at_most(ring, core.rx.clean as int, core.rx@.len());
    let filled = core.filled(ring);
    let unreturned = addresses(core.rx_done@) + core.rx@;
    let done = core.rx_done@ + received(core.rx@, ring, core.rx.clean as int, filled);
    let held = core.rx@.skip(filled as int);
    assert(addresses(done) + held =~= unreturned);
    assert(addresses(core.rx_done@) + core.rx@.push(bus_addr) =~= unreturned.push(bus_addr));
    if done.len() > 0 {
        assert(addresses(done.skip(1)) + held =~= unreturned.skip(1));
    }
}

/// Clearing the slot after `count` cleared ones.
proof fn lemma_clear_next(ring: Seq<DmaDesc>, at: int, count: nat, index: int)
    requires
        ring.len() == QUEUE_SIZE,
        0 <= at < QUEUE_SIZE,
        count < QUEUE_SIZE,
        index == after(at, count as int),
    ensures
        cleared(ring, at, count)[index] == ring[index],
        cleared(ring, at, count).update(index, desc::idle()) == cleared(ring, at, count + 1),
{
    assert((index - at) % 64 == count);
    assert(cleared(ring, at, count).update(index, desc::idle()) =~= cleared(ring, at, count + 1));
}

/// The slot at `fill` is free unless every slot is in use.
proof fn lemma_full(ring: Ring)
    requires
        ring.wf(),
    ensures
        ring.slots@[ring.fill as int] is None <==> ring@.len() < QUEUE_SIZE,
        ring@.len() <= QUEUE_SIZE,
{
    let n = ring.count() as int;
    let clean = ring.clean as int;
    if n < 64 {
        assert(after(clean, n) == ring.fill);
        assert(ring.slots@[after(clean, n)] is None);
    } else {
        assert(ring.fill == ring.clean);
        assert(after(clean, 0) == clean);
        assert(ring.slots@[after(clean, 0)] is Some);
    }
}

} // verus!
