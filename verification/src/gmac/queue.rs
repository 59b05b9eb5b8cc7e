//! The controller as a network device: one transmit and one receive queue, and
//! the interrupt that serves both.

use vstd::prelude::*;
use crate::gmac::controller::{
    K3GmacCore, NetEvent, BUFFER_SIZE, DMA_ALIGN, DMA_MASK, QUEUE_SIZE,
};

verus! {

/// What a queue asks of its buffers.
#[derive(Clone, Copy, Debug, PartialEq, Eq, Structural)]
pub struct QueueConfig {
    pub dma_mask: u64,
    pub align: usize,
    pub buf_size: usize,
    pub ring_size: usize,
}

/// What both queues ask of their buffers.
pub fn queue_config() -> (config: QueueConfig)
    ensures
        config == (QueueConfig {
            dma_mask: DMA_MASK,
            align: DMA_ALIGN,
            buf_size: BUFFER_SIZE,
            ring_size: QUEUE_SIZE,
        }),
{
    QueueConfig {
        dma_mask: DMA_MASK,
        align: DMA_ALIGN,
        buf_size: BUFFER_SIZE,
        ring_size: QUEUE_SIZE,
    }
}

/// The controller with its station address.
pub struct K3GmacNet {
    pub core: K3GmacCore,
    pub mac: [u8; 6],
}

impl K3GmacNet {
    /// A network device.
    pub fn new(core: K3GmacCore) -> (net: K3GmacNet)
        ensures
            net.core == core,
            net.mac == core.mac,
    {
        let mac = core.mac_address();
        K3GmacNet { core, mac }
    }
}

/// What an interrupt came to.
#[derive(Clone, Copy, Debug, PartialEq, Eq, Structural)]
pub enum NetHardIrqResult {
    /// The controller was busy; look again later.
    ProbeDeferred,
    /// The interrupt came from elsewhere.
    Spurious,
    /// Queues have work.
    Schedule(NetEvent),
}

/// What an interrupt came to, by the event that it brought; `None` if the
/// controller was busy.
pub fn hard_irq_result(event: Option<NetEvent>) -> (result: NetHardIrqResult)
    ensures
        result == (match event {
            None => NetHardIrqResult::ProbeDeferred,
            Some(event) => if event.tx || event.rx {
                NetHardIrqResult::Schedule(event)
            } else {
                NetHardIrqResult::Spurious
            },
        }),
{
    match event {
        None => NetHardIrqResult::ProbeDeferred,
        Some(event) => if event.tx || event.rx {
            NetHardIrqResult::Schedule(event)
        } else {
            NetHardIrqResult::Spurious
        },
    }
}

/// What was found when interrupts were turned on again.
#[derive(Clone, Copy, Debug, PartialEq, Eq, Structural)]
pub enum NetRearmResult {
    Idle,
    WorkPending(NetEvent),
}

/// What was found when interrupts were turned on again.
pub fn rearm_result(pending: NetEvent) -> (result: NetRearmResult)
    ensures
        result == (if pending.tx || pending.rx {
            NetRearmResult::WorkPending(pending)
        } else {
            NetRearmResult::Idle
        }),
{
    if pending.tx || pending.rx {
        NetRearmResult::WorkPending(pending)
    } else {
        NetRearmResult::Idle
    }
}

} // verus!
