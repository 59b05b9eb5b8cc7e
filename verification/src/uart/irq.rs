//! The interrupt side of the serial port.
//!
//! An interrupt is handled in passes: each finds out why the port interrupts
//! and deals with it, until there is no reason left. The handling goes in
//! steps of a few register accesses, so that the caller performs them.

use vstd::prelude::*;
use crate::script::{Op, Script};
use crate::uart::port;
use crate::uart::port::PendingSample;
use crate::uart::regs;
use crate::uart::rx;
use crate::uart::rx::{classify_rx, rx_errors_from_sample};
use crate::uart::types::{
    RxErrorFlags, RxSample, SerialEventSet, SerialIrqEvent, Source,
};

verus! {

/// Samples that are read in one interrupt.
pub const RX_SAMPLE_BUDGET: usize = 256;

/// Reasons that are dealt with in one interrupt.
pub const IRQ_PASS_BUDGET: usize = 32;

/// The interrupt side of a serial port.
#[derive(Clone, Copy, Debug, PartialEq, Eq, Structural)]
pub struct PxaUartIrq {
    /// Error bits of the line status that no sample has reported yet.
    pub saved_lsr: u8,
    /// Work around receiver timeouts that get lost: the timeout interrupt is
    /// off while samples are read, and samples are looked for even if the port
    /// gives no reason.
    pub timeout_errata: bool,
}

/// Why a port interrupts, by its identification register; `None` if it does
/// not.
pub open spec fn source_of(iir: u8) -> Option<Source> {
    if iir & regs::IIR_NO_INT != 0 {
        None
    } else {
        let id = iir & regs::IIR_ID_MASK;
        Some(
            if id == regs::IIR_RLSI {
                Source::RxStatus
            } else if id == regs::IIR_RDI {
                Source::RxData
            } else if id == regs::IIR_CTI {
                Source::RxTimeout
            } else if id == regs::IIR_THRI {
                Source::TxSpace
            } else if id == regs::IIR_MSI {
                Source::ModemStatus
            } else {
                Source::Fault
            },
        )
    }
}

/// Why a port interrupts.
pub fn iir_to_event(iir: u8) -> (source: Option<Source>)
    ensures
        source == source_of(iir),
{
    if iir & regs::IIR_NO_INT != 0 {
        return None;
    }
    let id: u8 = iir & regs::IIR_ID_MASK;
    let source = if id == regs::IIR_RLSI {
        Source::RxStatus
    } else if id == regs::IIR_RDI {
        Source::RxData
    } else if id == regs::IIR_CTI {
        Source::RxTimeout
    } else if id == regs::IIR_THRI {
        Source::TxSpace
    } else if id == regs::IIR_MSI {
        Source::ModemStatus
    } else {
        Source::Fault
    };
    Some(source)
}

/// Where the handling of an interrupt stands.
#[derive(Clone, Copy, Debug, PartialEq, Eq, Structural)]
pub enum IrqStep {
    /// Find out the reason.
    Identify,
    /// Look for samples although there is no reason.
    Stranded,
    /// Turn the receiver timeout off.
    Quiet,
    /// Read the line status.
    Status,
    /// Read a byte.
    Data { pending: PendingSample },
    /// Turn the receiver timeout on.
    Wake,
    /// Clear a change of the modem lines.
    Modem,
    /// Mask everything.
    Silence,
    /// Mask the transmitter.
    MaskTx,
    /// Over.
    Done,
}

/// The handling of an interrupt.
#[derive(Clone, Copy, Debug, PartialEq, Eq, Structural)]
pub struct IrqWork {
    pub step: IrqStep,
    /// Passes left, the current one included.
    pub passes: usize,
    /// Samples read.
    pub rx_samples: usize,
    /// Samples read before the receiver was last turned to.
    pub before: usize,
    /// Samples are read although there was no reason.
    pub stranded: bool,
    pub event: SerialIrqEvent,
}

impl IrqWork {
    /// The counts are within their budgets.
    pub open spec fn wf(self) -> bool {
        &&& self.passes <= IRQ_PASS_BUDGET
        &&& self.before <= self.rx_samples <= RX_SAMPLE_BUDGET
        &&& (self.step is Status || self.step is Data) ==> self.rx_samples < RX_SAMPLE_BUDGET
    }

    /// How many steps are left at most.
    pub open spec fn remaining(self) -> nat {
        let rank: nat = match self.step {
            IrqStep::Identify => 5,
            IrqStep::Stranded => 4,
            IrqStep::Quiet => 3,
            IrqStep::Status => 2,
            IrqStep::Done => 0,
            _ => 1,
        };
        if self.step is Done {
            0
        } else {
            rank + 8 * self.passes as nat + 2 * (RX_SAMPLE_BUDGET - self.rx_samples) as nat
        }
    }

    /// The accesses of a step.
    pub open spec fn ops(self) -> Seq<Op> {
        match self.step {
            IrqStep::Identify => seq![regs::read(regs::UART_IIR)],
            IrqStep::Stranded => seq![regs::read(regs::UART_LSR)],
            IrqStep::Quiet => seq![regs::update(regs::UART_IER, regs::IER_RTOIE, 0)],
            IrqStep::Status => seq![regs::read(regs::UART_LSR)],
            IrqStep::Data { .. } => seq![regs::read(regs::UART_RBR)],
            IrqStep::Wake => seq![regs::update(regs::UART_IER, 0, regs::IER_RTOIE)],
            IrqStep::Modem => seq![regs::read(regs::UART_MSR)],
            IrqStep::Silence => seq![regs::write(regs::UART_IER, regs::IER_UUE)],
            IrqStep::MaskTx => seq![
                regs::update(
                    regs::UART_IER,
                    port::enables(SerialEventSet::empty().with(Source::TxSpace)),
                    0,
                ),
            ],
            IrqStep::Done => Seq::empty(),
        }
    }

    /// The same handling at another step.
    pub open spec fn at(self, step: IrqStep) -> IrqWork {
        IrqWork { step, ..self }
    }

    /// The next pass, if there is one left.
    #[verifier::opaque]
    pub open spec fn next_pass(self) -> IrqWork {
        if self.passes > 1 {
            IrqWork { step: IrqStep::Identify, passes: (self.passes - 1) as usize, ..self }
        } else {
            self.at(IrqStep::Done)
        }
    }

    /// After the last sample was read.
    #[verifier::opaque]
    pub open spec fn read_out(self, timeout_errata: bool) -> IrqWork {
        if timeout_errata {
            self.at(IrqStep::Wake)
        } else if self.rx_samples == RX_SAMPLE_BUDGET || self.rx_samples == self.before {
            self.at(IrqStep::Done)
        } else {
            self.next_pass()
        }
    }

    /// Reads another sample, unless the budget is used up.
    #[verifier::opaque]
    pub open spec fn read_on(self, timeout_errata: bool) -> IrqWork {
        if self.rx_samples < RX_SAMPLE_BUDGET {
            self.at(IrqStep::Status)
        } else {
            self.read_out(timeout_errata)
        }
    }

    /// Counts a sample and notes its errors.
    pub open spec fn with_sample(self, sample: RxSample) -> IrqWork {
        IrqWork {
            rx_samples: (self.rx_samples + 1) as usize,
            event: SerialIrqEvent {
                rx_errors: self.event.rx_errors.union(rx_errors_from_sample(sample)),
                ..self.event
            },
            ..self
        }
    }

    /// Turns to the receiver.
    #[verifier::opaque]
    pub open spec fn turn_to_rx(self, timeout_errata: bool) -> IrqWork {
        let turned = IrqWork { before: self.rx_samples, ..self };
        if timeout_errata {
            turned.at(IrqStep::Quiet)
        } else {
            turned.read_on(timeout_errata)
        }
    }

    /// Notes an event.
    #[verifier::opaque]
    pub open spec fn with_event(self, source: Source) -> IrqWork {
        IrqWork {
            event: SerialIrqEvent { events: self.event.events.with(source), ..self.event },
            ..self
        }
    }

    /// After the reason was found out.
    #[verifier::opaque]
    pub open spec fn identified(self, timeout_errata: bool, source: Option<Source>) -> IrqWork {
        match source {
            None => if timeout_errata {
                self.at(IrqStep::Stranded)
            } else {
                self.at(IrqStep::Done)
            },
            Some(found) => {
                let noted = self.with_event(found);
                match found {
                    Source::ModemStatus => noted.at(IrqStep::Modem),
                    Source::Fault => noted.at(IrqStep::Silence),
                    Source::TxSpace => noted.at(IrqStep::MaskTx),
                    _ => noted.turn_to_rx(timeout_errata),
                }
            },
        }
    }

    /// The handling, the error latch and the sample that was read, after a step
    /// whose last read returned `value`.
    pub open spec fn next(self, irq: PxaUartIrq, value: u8) -> (IrqWork, u8, Option<RxSample>) {
        match self.step {
            IrqStep::Identify => (
                self.identified(irq.timeout_errata, source_of(value)),
                irq.saved_lsr,
                None,
            ),
            IrqStep::Stranded => (
                if value & rx::REPORTABLE != 0 {
                    IrqWork { stranded: true, ..self }.turn_to_rx(irq.timeout_errata)
                } else {
                    self.at(IrqStep::Done)
                },
                rx::fold(value, irq.saved_lsr),
                None,
            ),
            IrqStep::Quiet => (self.read_on(irq.timeout_errata), irq.saved_lsr, None),
            IrqStep::Status => {
                let (found, latch) = rx::classified(value, irq.saved_lsr);
                match found {
                    None => (self.read_out(irq.timeout_errata), latch, None),
                    Some((flag, overrun, has_data)) => {
                        let pending = PendingSample { flag, overrun, has_data };
                        if has_data {
                            (self.at(IrqStep::Data { pending }), latch, None)
                        } else {
                            let sample = pending.complete(0);
                            (
                                self.with_sample(sample).read_on(irq.timeout_errata),
                                latch,
                                Some(sample),
                            )
                        }
                    },
                }
            },
            IrqStep::Data { pending } => {
                let sample = pending.complete(value);
                (self.with_sample(sample).read_on(irq.timeout_errata), irq.saved_lsr, Some(sample))
            },
            IrqStep::Wake => (
                if self.stranded {
                    self.with_event(Source::RxData).at(IrqStep::Done)
                } else if self.rx_samples == self.before {
                    self.at(IrqStep::Done)
                } else {
                    self.next_pass()
                },
                irq.saved_lsr,
                None,
            ),
            IrqStep::Modem => (self.next_pass(), irq.saved_lsr, None),
            IrqStep::Silence => (self.at(IrqStep::Done), irq.saved_lsr, None),
            IrqStep::MaskTx => (
                IrqWork {
                    event: SerialIrqEvent {
                        rearm: self.event.rearm.with(Source::TxSpace),
                        ..self.event
                    },
                    ..self
                }.next_pass(),
                irq.saved_lsr,
                None,
            ),
            IrqStep::Done => (self, irq.saved_lsr, None),
        }
    }

    /// The accesses of the current step.
    pub fn script(&self) -> (accesses: Script)
        ensures
            accesses@ == self.ops(),
    {
        let mut accesses = Script::new();
        match self.step {
            IrqStep::Identify => accesses.push(regs::read(regs::UART_IIR)),
            IrqStep::Stranded => accesses.push(regs::read(regs::UART_LSR)),
            IrqStep::Quiet => accesses.push(regs::update(regs::UART_IER, regs::IER_RTOIE, 0)),
            IrqStep::Status => accesses.push(regs::read(regs::UART_LSR)),
            IrqStep::Data { .. } => accesses.push(regs::read(regs::UART_RBR)),
            IrqStep::Wake => accesses.push(regs::update(regs::UART_IER, 0, regs::IER_RTOIE)),
            IrqStep::Modem => accesses.push(regs::read(regs::UART_MSR)),
            IrqStep::Silence => accesses.push(regs::write(regs::UART_IER, regs::IER_UUE)),
            IrqStep::MaskTx => accesses.push(
                PxaUartIrq::mask(SerialEventSet::empty().with(Source::TxSpace)),
            ),
            IrqStep::Done => {},
        }
        accesses
    }

    /// Takes what the last read of the current step returned, and returns the
    /// sample that it completed.
    pub fn resume(&mut self, irq: &mut PxaUartIrq, value: u8) -> (sample: Option<RxSample>)
        requires
            old(self).wf(),
        ensures
            (*final(self), final(irq).saved_lsr, sample) == old(self).next(*old(irq), value),
            final(irq).timeout_errata == old(irq).timeout_errata,
            final(self).wf(),
            !(old(self).step is Done) ==> final(self).remaining() < old(self).remaining(),
    {
        let errata = irq.timeout_errata;
        proof {
            self.lemma_next(*irq, value);
        }
        match self.step {
            IrqStep::Identify => {
                self.turn_to(errata, iir_to_event(value));
                None
            },
            IrqStep::Stranded => {
                irq.saved_lsr = rx::fold(value, irq.saved_lsr);
                if value & rx::REPORTABLE != 0 {
                    self.stranded = true;
                    self.begin_rx(errata);
                } else {
                    self.step = IrqStep::Done;
                }
                None
            },
            IrqStep::Quiet => {
                self.continue_rx(errata);
                None
            },
            IrqStep::Status => {
                let mut latch: u8 = irq.saved_lsr;
                let found = classify_rx(value, &mut latch);
                irq.saved_lsr = latch;
                match found {
                    None => {
                        self.end_rx(errata);
                        None
                    },
                    Some((flag, overrun, has_data)) => {
                        let pending = PendingSample { flag, overrun, has_data };
                        if has_data {
                            self.step = IrqStep::Data { pending };
                            None
                        } else {
                            let sample = pending.complete(0);
                            self.take_sample(sample, errata);
                            Some(sample)
                        }
                    },
                }
            },
            IrqStep::Data { pending } => {
                let sample = pending.complete(value);
                self.take_sample(sample, errata);
                Some(sample)
            },
            IrqStep::Wake => {
                if self.stranded {
                    self.note(Source::RxData);
                    self.step = IrqStep::Done;
                } else if self.rx_samples == self.before {
                    self.step = IrqStep::Done;
                } else {
                    self.end_pass();
                }
                None
            },
            IrqStep::Modem => {
                self.end_pass();
                None
            },
            IrqStep::Silence => {
                self.step = IrqStep::Done;
                None
            },
            IrqStep::MaskTx => {
                self.event.rearm = self.event.rearm.with(Source::TxSpace);
                self.end_pass();
                None
            },
            IrqStep::Done => None,
        }
    }

    fn turn_to(&mut self, errata: bool, source: Option<Source>)
        ensures
            *final(self) == old(self).identified(errata, source),
    {
        reveal(IrqWork::identified);
        match source {
            None => {
                self.step = if errata {
                    IrqStep::Stranded
                } else {
                    IrqStep::Done
                };
            },
            Some(found) => {
                self.note(found);
                match found {
                    Source::ModemStatus => {
                        self.step = IrqStep::Modem;
                    },
                    Source::Fault => {
                        self.step = IrqStep::Silence;
                    },
                    Source::TxSpace => {
                        self.step = IrqStep::MaskTx;
                    },
                    _ => self.begin_rx(errata),
                }
            },
        }
    }

    fn note(&mut self, source: Source)
        ensures
            *final(self) == old(self).with_event(source),
    {
        reveal(IrqWork::with_event);
        self.event.events = self.event.events.with(source);
    }

    fn end_pass(&mut self)
        ensures
            *final(self) == old(self).next_pass(),
    {
        reveal(IrqWork::next_pass);
        if self.passes > 1 {
            self.passes = self.passes - 1;
            self.step = IrqStep::Identify;
        } else {
            self.step = IrqStep::Done;
        }
    }

    fn begin_rx(&mut self, errata: bool)
        ensures
            *final(self) == old(self).turn_to_rx(errata),
    {
        reveal(IrqWork::turn_to_rx);
        self.before = self.rx_samples;
        if errata {
            self.step = IrqStep::Quiet;
        } else {
            self.continue_rx(errata);
        }
    }

    fn continue_rx(&mut self, errata: bool)
        ensures
            *final(self) == old(self).read_on(errata),
    {
        reveal(IrqWork::read_on);
        if self.rx_samples < RX_SAMPLE_BUDGET {
            self.step = IrqStep::Status;
        } else {
            self.end_rx(errata);
        }
    }

    fn end_rx(&mut self, errata: bool)
        ensures
            *final(self) == old(self).read_out(errata),
    {
        reveal(IrqWork::read_out);
        if errata {
            self.step = IrqStep::Wake;
        } else if self.rx_samples == RX_SAMPLE_BUDGET || self.rx_samples == self.before {
            self.step = IrqStep::Done;
        } else {
            self.end_pass();
        }
    }

    fn take_sample(&mut self, sample: RxSample, errata: bool)
        requires
            old(self).rx_samples < RX_SAMPLE_BUDGET,
        ensures
            *final(self) == old(self).with_sample(sample).read_on(errata),
    {
        self.event.rx_errors = self.event.rx_errors.union(rx_errors_from_sample(sample));
        self.rx_samples = self.rx_samples + 1;
        self.continue_rx(errata);
    }

    /// The counts are within their budgets.
    spec fn counts(self) -> bool {
        self.passes <= IRQ_PASS_BUDGET && self.before <= self.rx_samples <= RX_SAMPLE_BUDGET
    }

    /// The steps that the passes and samples left make up for.
    spec fn rest(self) -> nat {
        8 * self.passes as nat + 2 * (RX_SAMPLE_BUDGET - self.rx_samples) as nat
    }

    proof fn lemma_next_pass(self)
        requires
            self.counts(),
        ensures
            self.next_pass().wf(),
            self.next_pass().remaining() <= self.rest(),
            self.next_pass().event == self.event,
            !(self.next_pass().step is MaskTx),
    {
        reveal(IrqWork::next_pass);
    }

    proof fn lemma_read_out(self, timeout_errata: bool)
        requires
            self.counts(),
        ensures
            self.read_out(timeout_errata).wf(),
            self.read_out(timeout_errata).remaining() <= 1 + self.rest(),
            self.read_out(timeout_errata).event == self.event,
            !(self.read_out(timeout_errata).step is MaskTx),
    {
        reveal(IrqWork::read_out);
        self.lemma_next_pass();
    }

    proof fn lemma_read_on(self, timeout_errata: bool)
        requires
            self.counts(),
        ensures
            self.read_on(timeout_errata).wf(),
            self.read_on(timeout_errata).remaining() <= 2 + self.rest(),
            self.read_on(timeout_errata).event == self.event,
            !(self.read_on(timeout_errata).step is MaskTx),
            self.rx_samples == RX_SAMPLE_BUDGET ==> self.read_on(timeout_errata).remaining() <= 1
                + self.rest(),
    {
        reveal(IrqWork::read_on);
        self.lemma_read_out(timeout_errata);
    }

    proof fn lemma_turn_to_rx(self, timeout_errata: bool)
        requires
            self.counts(),
        ensures
            self.turn_to_rx(timeout_errata).wf(),
            self.turn_to_rx(timeout_errata).remaining() <= 3 + self.rest(),
            self.turn_to_rx(timeout_errata).event == self.event,
            !(self.turn_to_rx(timeout_errata).step is MaskTx),
    {
        reveal(IrqWork::turn_to_rx);
        IrqWork { before: self.rx_samples, ..self }.lemma_read_on(timeout_errata);
    }

    proof fn lemma_identified(self, timeout_errata: bool, source: Option<Source>)
        requires
            self.counts(),
        ensures
            self.identified(timeout_errata, source).wf(),
            self.identified(timeout_errata, source).remaining() <= 4 + self.rest(),
            self.identified(timeout_errata, source).event == (match source {
                Some(found) => self.with_event(found).event,
                None => self.event,
            }),
            self.identified(timeout_errata, source).step is MaskTx ==> source == Some(
                Source::TxSpace,
            ),
    {
        reveal(IrqWork::identified);
        reveal(IrqWork::with_event);
        if let Some(found) = source {
            self.with_event(found).lemma_turn_to_rx(timeout_errata);
        }
    }

    /// The handling goes on after a step, and has fewer steps left.
    proof fn lemma_next(self, irq: PxaUartIrq, value: u8)
        requires
            self.wf(),
        ensures
            self.next(irq, value).0.wf(),
            !(self.step is Done) ==> self.next(irq, value).0.remaining() < self.remaining(),
            self.next(irq, value).0.event == (match (self.step, self.next(irq, value).2) {
                (IrqStep::Identify, _) => match source_of(value) {
                    Some(found) => self.with_event(found).event,
                    None => self.event,
                },
                (IrqStep::Wake, _) => if self.stranded {
                    self.with_event(Source::RxData).event
                } else {
                    self.event
                },
                (IrqStep::MaskTx, _) => SerialIrqEvent {
                    rearm: self.event.rearm.with(Source::TxSpace),
                    ..self.event
                },
                (_, Some(sample)) => self.with_sample(sample).event,
                (_, None) => self.event,
            }),
            self.next(irq, value).0.step is MaskTx ==> self.step is MaskTx || self.step is Identify
                && source_of(value) == Some(Source::TxSpace),
    {
        let errata = irq.timeout_errata;
        reveal(IrqWork::with_event);
        match self.step {
            IrqStep::Identify => {
                self.lemma_identified(errata, source_of(value));
            },
            IrqStep::Stranded => {
                IrqWork { stranded: true, ..self }.lemma_turn_to_rx(errata);
            },
            IrqStep::Quiet => {
                self.lemma_read_on(errata);
            },
            IrqStep::Status => {
                self.lemma_read_out(errata);
                if let Some((flag, overrun, has_data)) = rx::classified(value, irq.saved_lsr).0 {
                    let pending = PendingSample { flag, overrun, has_data };
                    self.with_sample(pending.complete(0)).lemma_read_on(errata);
                }
            },
            IrqStep::Data { pending } => {
                self.with_sample(pending.complete(value)).lemma_read_on(errata);
            },
            IrqStep::Wake => {
                self.lemma_next_pass();
            },
            IrqStep::Modem => {
                self.lemma_next_pass();
            },
            IrqStep::MaskTx => {
                let rearm = self.event.rearm.with(Source::TxSpace);
                IrqWork {
                    event: SerialIrqEvent { rearm, ..self.event },
                    ..self
                }.lemma_next_pass();
            },
            _ => {},
        }
    }

    /// What the interrupt came to, once it is over; `None` if the port did not
    /// interrupt.
    pub fn result(&self) -> (event: Option<SerialIrqEvent>)
        ensures
            event == (if self.event.events.is_empty() {
                None
            } else {
                Some(self.event)
            }),
    {
        if self.event.events.is_empty() {
            None
        } else {
            Some(self.event)
        }
    }
}

impl PxaUartIrq {
    /// The interrupt side of a port with the workaround for lost timeouts.
    pub fn new() -> (irq: PxaUartIrq)
        ensures
            irq == (PxaUartIrq { saved_lsr: 0, timeout_errata: true }),
    {
        PxaUartIrq { saved_lsr: 0, timeout_errata: true }
    }

    /// Masks the sources of some events.
    pub fn mask(events: SerialEventSet) -> (access: Op)
        ensures
            access == regs::update(regs::UART_IER, port::enables(events), 0),
    {
        regs::update(regs::UART_IER, port::ier_for_events(events), 0)
    }

    /// Begins to handle an interrupt.
    pub fn handle(&self) -> (work: IrqWork)
        ensures
            work == (IrqWork {
                step: IrqStep::Identify,
                passes: IRQ_PASS_BUDGET,
                rx_samples: 0,
                before: 0,
                stranded: false,
                event: SerialIrqEvent {
                    events: SerialEventSet::empty(),
                    rx_errors: RxErrorFlags::empty(),
                    rearm: SerialEventSet::empty(),
                },
            }),
            work.wf(),
    {
        IrqWork {
            step: IrqStep::Identify,
            passes: IRQ_PASS_BUDGET,
            rx_samples: 0,
            before: 0,
            stranded: false,
            event: SerialIrqEvent {
                events: SerialEventSet::empty(),
                rx_errors: RxErrorFlags::empty(),
                rearm: SerialEventSet::empty(),
            },
        }
    }
}

/// Every error that a sample reports is in the summary of the interrupt, and
/// so is every error reported before.
pub proof fn law_summary_holds_sample_errors(work: IrqWork, irq: PxaUartIrq, value: u8)
    requires
        work.wf(),
    ensures
        ({
            let (after, _, sample) = work.next(irq, value);
            let before = work.event.rx_errors;
            let summary = after.event.rx_errors;
            match sample {
                Some(found) => summary == before.union(rx_errors_from_sample(found)),
                None => summary == before,
            }
        }),
{
    reveal(IrqWork::with_event);
    work.lemma_next(irq, value);
}

/// No event that was noted is forgotten, and a source is handed back to be
/// armed again only if it was among them.
pub proof fn law_events_accumulate(work: IrqWork, irq: PxaUartIrq, value: u8)
    requires
        work.wf(),
        work.step is MaskTx ==> work.event.events.tx_space,
        work.event.rearm.tx_space ==> work.event.events.tx_space,
    ensures
        ({
            let after = work.next(irq, value).0;
            let was = work.event.events;
            let now = after.event.events;
            &&& was.rx_data ==> now.rx_data
            &&& was.rx_timeout ==> now.rx_timeout
            &&& was.rx_status ==> now.rx_status
            &&& was.tx_space ==> now.tx_space
            &&& was.modem_status ==> now.modem_status
            &&& was.fault ==> now.fault
            &&& after.step is MaskTx ==> now.tx_space
            &&& after.event.rearm.tx_space ==> now.tx_space
        }),
{
    reveal(IrqWork::with_event);
    work.lemma_next(irq, value);
}

} // verus!
