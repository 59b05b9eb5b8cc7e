//! The task side of the serial port.
//!
//! Register values that an operation needs are handed to it, and the accesses
//! that it makes are returned.

use vstd::prelude::*;
use crate::bits;
use crate::bits::bit8;
use crate::script::{core_reg, Op, Script};
use crate::uart::irq::PxaUartIrq;
use crate::uart::regs;
use crate::uart::rx;
use crate::uart::rx::classify_rx;
use crate::uart::types::{
    Config, ConfigError, DataBits, Parity, RxFlag, RxSample, SerialEvent, SerialEventSet, Source,
    StopBits, TransferError,
};

verus! {

/// A serial port.
#[derive(Clone, Copy, Debug, PartialEq, Eq, Structural)]
pub struct PxaUart {
    /// Functional clock in Hz.
    pub clock_freq: u32,
    /// Error bits of the line status that no read has reported yet.
    pub saved_lsr: u8,
    pub current_baud: u32,
    /// Interrupt enable register.
    pub ier: u8,
    /// Modem control register.
    pub mcr: u8,
    /// Line control register.
    pub lcr: u8,
}

/// Reads the divisor latch, where the baud rate set up before is found.
#[derive(Clone, Copy, Debug, PartialEq, Eq, Structural)]
pub enum DivisorProbe {
    /// Read the line control register.
    Line,
    /// Open the latch and read its low half.
    Low { lcr: u8 },
    /// Read its high half.
    High { lcr: u8, dll: u8 },
    /// Close the latch.
    Restore { lcr: u8, dll: u8, dlh: u8 },
    /// The latch holds this.
    Done { dll: u8, dlh: u8 },
}

impl DivisorProbe {
    /// The accesses of a step.
    pub open spec fn ops(self) -> Seq<Op> {
        match self {
            DivisorProbe::Line => seq![regs::read(regs::UART_LCR)],
            DivisorProbe::Low { lcr } => seq![
                regs::write(regs::UART_LCR, lcr | regs::LCR_DLAB),
                regs::read(regs::UART_DLL),
            ],
            DivisorProbe::High { .. } => seq![regs::read(regs::UART_DLH)],
            DivisorProbe::Restore { lcr, .. } => seq![regs::write(regs::UART_LCR, lcr)],
            DivisorProbe::Done { .. } => Seq::empty(),
        }
    }

    /// The step after one whose last read returned `value`.
    pub open spec fn next(self, value: u8) -> DivisorProbe {
        match self {
            DivisorProbe::Line => DivisorProbe::Low { lcr: value },
            DivisorProbe::Low { lcr } => DivisorProbe::High { lcr, dll: value },
            DivisorProbe::High { lcr, dll } => DivisorProbe::Restore { lcr, dll, dlh: value },
            DivisorProbe::Restore { dll, dlh, .. } => DivisorProbe::Done { dll, dlh },
            DivisorProbe::Done { .. } => self,
        }
    }

    /// The accesses of the current step.
    pub fn script(&self) -> (accesses: Script)
        ensures
            accesses@ == self.ops(),
    {
        let mut accesses = Script::new();
        match *self {
            DivisorProbe::Line => {
                accesses.push(regs::read(regs::UART_LCR));
            },
            DivisorProbe::Low { lcr } => {
                accesses.push(regs::write(regs::UART_LCR, lcr | regs::LCR_DLAB));
                accesses.push(regs::read(regs::UART_DLL));
            },
            DivisorProbe::High { .. } => {
                accesses.push(regs::read(regs::UART_DLH));
            },
            DivisorProbe::Restore { lcr, .. } => {
                accesses.push(regs::write(regs::UART_LCR, lcr));
            },
            DivisorProbe::Done { .. } => {},
        }
        accesses
    }

    /// Takes what the last read of the current step returned.
    pub fn resume(self, value: u8) -> (probe: DivisorProbe)
        ensures
            probe == self.next(value),
    {
        match self {
            DivisorProbe::Line => DivisorProbe::Low { lcr: value },
            DivisorProbe::Low { lcr } => DivisorProbe::High { lcr, dll: value },
            DivisorProbe::High { lcr, dll } => DivisorProbe::Restore { lcr, dll, dlh: value },
            DivisorProbe::Restore { dll, dlh, .. } => DivisorProbe::Done { dll, dlh },
            DivisorProbe::Done { .. } => self,
        }
    }
}

/// The baud rate that a divisor gives, rounded down; 0 if the divisor or the
/// clock is 0.
pub open spec fn baud_of(clock_freq: u32, dll: u8, dlh: u8) -> int {
    if dlh * 256 + dll == 0 {
        0
    } else {
        clock_freq as int / (16 * (dlh * 256 + dll))
    }
}

/// The baud rate that was set up before.
pub fn probe_current_baud(clock_freq: u32, dll: u8, dlh: u8) -> (baud: u32)
    ensures
        baud == baud_of(clock_freq, dll, dlh),
{
    let divisor: u32 = dlh as u32 * 256 + dll as u32;
    if divisor == 0 || clock_freq == 0 {
        proof {
            if divisor != 0 {
                let d = 16 * (dlh * 256 + dll);
                assert(0int / d == 0) by (nonlinear_arith)
                    requires
                        d > 0,
                ;
            }
        }
        0
    } else {
        clock_freq / (16 * divisor)
    }
}

/// The divisor closest to a baud rate, if there is one that fits the latch.
pub open spec fn divisor_for(clock_freq: u32, baudrate: u32) -> Option<u16> {
    if baudrate == 0 {
        None
    } else {
        let nearest = (clock_freq + 8 * baudrate) / (16 * baudrate);
        if 1 <= nearest <= 0xFFFF && clock_freq != 0 {
            Some(nearest as u16)
        } else {
            None
        }
    }
}

/// The accesses that set the divisor. The latch is opened for it; the order of
/// the accesses and the repeated reads are what the device asks for.
pub open spec fn divisor_ops(divisor: u16, lcr: u8) -> Seq<Op> {
    seq![
        regs::write(regs::UART_LCR, lcr | regs::LCR_DLAB),
        regs::write(regs::UART_DLH, (divisor / 256) as u8),
        regs::read(regs::UART_DLH),
        regs::write(regs::UART_DLL, (divisor % 256) as u8),
        regs::read(regs::UART_DLL),
        regs::read(regs::UART_DLL),
        regs::write(regs::UART_LCR, lcr),
    ]
}

/// The FIFO settings for a rate of `16` clock ticks per bit: the faster the
/// line, the more bytes gather before an interrupt.
pub open spec fn fifo_control(ticks_per_second: u32) -> u8 {
    if ticks_per_second < 2400 * 16 {
        regs::FCR_ENABLE_FIFO | regs::FCR_PXAR1
    } else if ticks_per_second < 230400 * 16 {
        regs::FCR_ENABLE_FIFO | regs::FCR_PXAR8
    } else {
        regs::FCR_ENABLE_FIFO | regs::FCR_PXAR32
    }
}

/// The word-length field.
pub open spec fn word_length(data_bits: DataBits) -> u8 {
    match data_bits {
        DataBits::Five => regs::LCR_WLEN5,
        DataBits::Six => regs::LCR_WLEN6,
        DataBits::Seven => regs::LCR_WLEN7,
        DataBits::Eight => regs::LCR_WLEN8,
    }
}

/// The parity field.
pub open spec fn parity_field(parity: Parity) -> u8 {
    match parity {
        Parity::Off => 0,
        Parity::Odd => regs::LCR_PARITY,
        Parity::Even => regs::LCR_PARITY | regs::LCR_EPAR,
        Parity::Mark => regs::LCR_PARITY | regs::LCR_SPAR,
        Parity::Space => regs::LCR_PARITY | regs::LCR_EPAR | regs::LCR_SPAR,
    }
}

/// All bits of the parity field.
pub const PARITY_BITS: u8 = regs::LCR_PARITY | regs::LCR_EPAR | regs::LCR_SPAR;

/// The line control register with new settings.
pub open spec fn line_control(lcr: u8, config: Config) -> u8 {
    let words = match config.data_bits {
        Some(data_bits) => (lcr & !regs::LCR_WLEN_MASK) | word_length(data_bits),
        None => lcr,
    };
    let stops = match config.stop_bits {
        Some(stop_bits) => if stop_bits is Two {
            words | regs::LCR_STOP
        } else {
            words & !regs::LCR_STOP
        },
        None => words,
    };
    match config.parity {
        Some(parity) => (stops & !PARITY_BITS) | parity_field(parity),
        None => stops,
    }
}

/// The word length that a line control register holds.
pub open spec fn data_bits_of(lcr: u8) -> DataBits {
    let field = lcr & regs::LCR_WLEN_MASK;
    if field == regs::LCR_WLEN5 {
        DataBits::Five
    } else if field == regs::LCR_WLEN6 {
        DataBits::Six
    } else if field == regs::LCR_WLEN7 {
        DataBits::Seven
    } else {
        DataBits::Eight
    }
}

/// The stop bits that a line control register holds.
pub open spec fn stop_bits_of(lcr: u8) -> StopBits {
    if lcr & regs::LCR_STOP != 0 {
        StopBits::Two
    } else {
        StopBits::One
    }
}

/// The parity that a line control register holds.
pub open spec fn parity_of(lcr: u8) -> Parity {
    if lcr & regs::LCR_PARITY == 0 {
        Parity::Off
    } else if lcr & regs::LCR_SPAR != 0 {
        if lcr & regs::LCR_EPAR != 0 {
            Parity::Space
        } else {
            Parity::Mark
        }
    } else if lcr & regs::LCR_EPAR != 0 {
        Parity::Even
    } else {
        Parity::Odd
    }
}

/// The interrupt sources behind a set of events. Everything about the receiver
/// has the same ones.
pub open spec fn enables(events: SerialEventSet) -> u8 {
    let receiver = if events.has_rx() {
        regs::IER_RDI | regs::IER_RLSI | regs::IER_RTOIE
    } else {
        0
    };
    if events.tx_space {
        receiver | regs::IER_THRI
    } else {
        receiver
    }
}

/// The interrupt sources behind a set of events.
pub fn ier_for_events(events: SerialEventSet) -> (bits: u8)
    ensures
        bits == enables(events),
{
    let mut bits: u8 = 0;
    if events.has_rx() {
        bits = regs::IER_RDI | regs::IER_RLSI | regs::IER_RTOIE;
    }
    if events.tx_space {
        bits = bits | regs::IER_THRI;
    }
    bits
}

/// How a byte that is about to be read is to be taken.
#[derive(Clone, Copy, Debug, PartialEq, Eq, Structural)]
pub enum Received {
    Data,
    Overrun,
    Parity,
    Framing,
    Break,
}

impl Received {
    /// What a read returns, for the byte that was read.
    pub fn complete(self, byte: u8) -> (result: Result<u8, TransferError>)
        ensures
            result == (match self {
                Received::Data => Ok::<u8, TransferError>(byte),
                Received::Overrun => Err(TransferError::Overrun(byte)),
                Received::Parity => Err(TransferError::Parity),
                Received::Framing => Err(TransferError::Framing),
                Received::Break => Err(TransferError::Break),
            }),
    {
        match self {
            Received::Data => Ok(byte),
            Received::Overrun => Err(TransferError::Overrun(byte)),
            Received::Parity => Err(TransferError::Parity),
            Received::Framing => Err(TransferError::Framing),
            Received::Break => Err(TransferError::Break),
        }
    }
}

/// A sample that lacks only its byte.
#[derive(Clone, Copy, Debug, PartialEq, Eq, Structural)]
pub struct PendingSample {
    pub flag: RxFlag,
    pub overrun: bool,
    /// The byte is still to be read.
    pub has_data: bool,
}

impl PendingSample {
    /// The sample, with the byte that was read if there is one.
    #[verifier::allow_in_spec]
    pub fn complete(self, byte: u8) -> (sample: RxSample)
        returns
            (RxSample {
                byte: if self.has_data {
                    Some(byte)
                } else {
                    None
                },
                flag: self.flag,
                overrun: self.overrun,
            }),
    {
        RxSample {
            byte: if self.has_data {
                Some(byte)
            } else {
                None
            },
            flag: self.flag,
            overrun: self.overrun,
        }
    }
}

/// The first error in a latch, in the order in which reads report them: the
/// bit and what it means.
pub open spec fn first_error(saved_lsr: u8) -> Option<(u8, Received)> {
    if saved_lsr & regs::LSR_OE != 0 {
        Some((regs::LSR_OE, Received::Overrun))
    } else if saved_lsr & regs::LSR_PE != 0 {
        Some((regs::LSR_PE, Received::Parity))
    } else if saved_lsr & regs::LSR_FE != 0 {
        Some((regs::LSR_FE, Received::Framing))
    } else if saved_lsr & regs::LSR_BI != 0 {
        Some((regs::LSR_BI, Received::Break))
    } else {
        None
    }
}

/// The accesses that clear pending interrupts.
pub open spec fn clear_pending() -> Seq<Op> {
    seq![
        regs::read(regs::UART_LSR),
        regs::read(regs::UART_RBR),
        regs::read(regs::UART_IIR),
        regs::read(regs::UART_MSR),
    ]
}

impl PxaUart {
    /// A port whose divisor latch holds the given bytes.
    pub fn new(clock_freq: u32, dll: u8, dlh: u8) -> (uart: PxaUart)
        ensures
            uart == (PxaUart {
                clock_freq,
                saved_lsr: 0,
                current_baud: baud_of(clock_freq, dll, dlh) as u32,
                ier: 0,
                mcr: 0,
                lcr: regs::LCR_WLEN8,
            }),
    {
        PxaUart {
            clock_freq,
            saved_lsr: 0,
            current_baud: probe_current_baud(clock_freq, dll, dlh),
            ier: 0,
            mcr: 0,
            lcr: regs::LCR_WLEN8,
        }
    }

    /// The divisor closest to a baud rate.
    pub fn divisor(&self, baudrate: u32) -> (divisor: Option<u16>)
        ensures
            divisor == divisor_for(self.clock_freq, baudrate),
    {
        if baudrate == 0 || self.clock_freq == 0 {
            return None;
        }
        let wide: u64 = baudrate as u64;
        let div: u64 = (self.clock_freq as u64 + 8 * wide) / (16 * wide);
        assert(div == (self.clock_freq + 8 * baudrate) / (16 * baudrate));
        if div == 0 || div > 0xFFFF {
            return None;
        }
        Some(div as u16)
    }

    /// Sets the divisor. `lcr` is what the line control register holds.
    pub fn set_divisor(&self, divisor: u16, lcr: u8) -> (accesses: Script)
        ensures
            accesses@ == divisor_ops(divisor, lcr),
    {
        let mut accesses = Script::new();
        accesses.push(regs::write(regs::UART_LCR, lcr | regs::LCR_DLAB));
        accesses.push(regs::write(regs::UART_DLH, (divisor / 256) as u8));
        accesses.push(regs::read(regs::UART_DLH));
        accesses.push(regs::write(regs::UART_DLL, (divisor % 256) as u8));
        accesses.push(regs::read(regs::UART_DLL));
        accesses.push(regs::read(regs::UART_DLL));
        accesses.push(regs::write(regs::UART_LCR, lcr));
        accesses
    }

    /// The FIFO settings for a divisor.
    pub fn select_fcr_flags(&self, divisor: u32) -> (fcr: u8)
        requires
            divisor != 0,
        ensures
            fcr == fifo_control(self.clock_freq / divisor),
    {
        let rate: u32 = self.clock_freq / divisor;
        if rate < 2400 * 16 {
            regs::FCR_ENABLE_FIFO | regs::FCR_PXAR1
        } else if rate < 230400 * 16 {
            regs::FCR_ENABLE_FIFO | regs::FCR_PXAR8
        } else {
            regs::FCR_ENABLE_FIFO | regs::FCR_PXAR32
        }
    }

    /// The line status with the latched errors put in. Its own errors are
    /// latched.
    pub fn read_lsr_preserving(&mut self, lsr: u8) -> (status: u8)
        ensures
            status == lsr | rx::fold(lsr, old(self).saved_lsr),
            *final(self) == (PxaUart { saved_lsr: rx::fold(lsr, old(self).saved_lsr), ..*old(self) }),
    {
        self.saved_lsr = rx::fold(lsr, self.saved_lsr);
        lsr | self.saved_lsr
    }

    /// Whether a received byte is still to be thrown away on shutdown.
    pub fn drain_rx(&self, lsr: u8) -> (access: Option<Op>)
        ensures
            access == (if lsr & regs::LSR_DR != 0 {
                Some(regs::read(regs::UART_RBR))
            } else {
                None
            }),
    {
        if lsr & regs::LSR_DR != 0 {
            Some(regs::read(regs::UART_RBR))
        } else {
            None
        }
    }

    /// What was received, if anything: its byte is still to be read.
    pub fn read_rx(&mut self, lsr: u8) -> (found: Option<PendingSample>)
        ensures
            (match found {
                Some(pending) => Some((pending.flag, pending.overrun, pending.has_data)),
                None => None,
            }) == rx::classified(lsr, old(self).saved_lsr).0,
            *final(self) == (PxaUart {
                saved_lsr: rx::classified(lsr, old(self).saved_lsr).1,
                ..*old(self)
            }),
    {
        let mut latch: u8 = self.saved_lsr;
        let found = classify_rx(lsr, &mut latch);
        self.saved_lsr = latch;
        match found {
            Some((flag, overrun, has_data)) => Some(PendingSample { flag, overrun, has_data }),
            None => None,
        }
    }

    /// Whether everything was sent.
    pub fn tx_idle(&self, lsr: u8) -> (idle: bool)
        ensures
            idle == (lsr & (regs::LSR_THRE | regs::LSR_TEMT) == regs::LSR_THRE | regs::LSR_TEMT),
    {
        lsr & (regs::LSR_THRE | regs::LSR_TEMT) == regs::LSR_THRE | regs::LSR_TEMT
    }

    /// The state of the line. Errors are latched for the next read.
    pub fn poll_status(&mut self, lsr: u8) -> (event: SerialEvent)
        ensures
            ({
                let status = lsr | rx::fold(lsr, old(self).saved_lsr);
                event == SerialEvent {
                    rx_ready: status & regs::LSR_DR != 0,
                    rx_error: status & (regs::LSR_PE | regs::LSR_FE | regs::LSR_BI) != 0 || status
                        & regs::LSR_OE != 0,
                    overrun: status & regs::LSR_OE != 0,
                    tx_ready: status & regs::LSR_THRE != 0,
                }
            }),
            *final(self) == (PxaUart { saved_lsr: rx::fold(lsr, old(self).saved_lsr), ..*old(self) }),
            ({
                let latched = old(self).saved_lsr;
                &&& event.rx_ready <==> bit8(lsr, 0) || bit8(latched, 0)
                &&& event.overrun <==> bit8(lsr, 1) || bit8(latched, 1)
                &&& event.rx_error <==> exists|i: u8|
                    1 <= i <= 4 && (#[trigger] bit8(lsr, i) || bit8(latched, i))
                &&& event.tx_ready <==> bit8(lsr, 5) || bit8(latched, 5)
            }),
    {
        broadcast use bits::group_bits8;

        proof {
            let status = lsr | rx::fold(lsr, self.saved_lsr);
            lemma_status_masks(status);
            assert(forall|i: u8| i < 8 ==> bit8(status, i) == (bit8(lsr, i) || bit8(self.saved_lsr, i)));
            if bit8(status, 1) || bit8(status, 2) || bit8(status, 3) || bit8(status, 4) {
                assert(bit8(lsr, 1) || bit8(lsr, 2) || bit8(lsr, 3) || bit8(lsr, 4) || bit8(
                    self.saved_lsr,
                    1,
                ) || bit8(self.saved_lsr, 2) || bit8(self.saved_lsr, 3) || bit8(self.saved_lsr, 4));
            }
        }
        let status: u8 = self.read_lsr_preserving(lsr);
        let overrun = status & regs::LSR_OE != 0;
        SerialEvent {
            rx_ready: status & regs::LSR_DR != 0,
            rx_error: status & (regs::LSR_PE | regs::LSR_FE | regs::LSR_BI) != 0 || overrun,
            overrun,
            tx_ready: status & regs::LSR_THRE != 0,
        }
    }

    /// Sends a byte if there is space for it.
    pub fn write_byte(&self, byte: u8, lsr: u8) -> (access: Option<Op>)
        ensures
            access == (if lsr & regs::LSR_THRE != 0 {
                Some(regs::write(regs::UART_THR, byte))
            } else {
                None
            }),
    {
        if lsr & regs::LSR_THRE != 0 {
            Some(regs::write(regs::UART_THR, byte))
        } else {
            None
        }
    }

    /// How to take the next byte, if one is to be read: as the first latched
    /// error, which leaves the latch, or else as data.
    pub fn read_byte(&mut self, status: SerialEvent) -> (found: Option<Received>)
        ensures
            !status.rx_ready && !status.rx_error ==> found is None && *final(self) == *old(self),
            status.rx_ready || status.rx_error ==> match first_error(old(self).saved_lsr) {
                Some((bit, received)) => found == Some(received) && *final(self) == (PxaUart {
                    saved_lsr: old(self).saved_lsr & !bit,
                    ..*old(self)
                }),
                None => *final(self) == *old(self) && found == (if status.rx_ready {
                    Some(Received::Data)
                } else {
                    None
                }),
            },
    {
        if !status.rx_ready && !status.rx_error {
            return None;
        }
        if self.saved_lsr & regs::LSR_OE != 0 {
            self.saved_lsr = self.saved_lsr & !regs::LSR_OE;
            return Some(Received::Overrun);
        }
        if self.saved_lsr & regs::LSR_PE != 0 {
            self.saved_lsr = self.saved_lsr & !regs::LSR_PE;
            return Some(Received::Parity);
        }
        if self.saved_lsr & regs::LSR_FE != 0 {
            self.saved_lsr = self.saved_lsr & !regs::LSR_FE;
            return Some(Received::Framing);
        }
        if self.saved_lsr & regs::LSR_BI != 0 {
            self.saved_lsr = self.saved_lsr & !regs::LSR_BI;
            return Some(Received::Break);
        }
        if status.rx_ready {
            return Some(Received::Data);
        }
        None
    }

    /// The baud rate.
    pub fn baudrate(&self) -> (baud: u32)
        ensures
            baud == self.current_baud,
    {
        self.current_baud
    }

    /// The word length.
    pub fn data_bits(&self) -> (data_bits: DataBits)
        ensures
            data_bits == data_bits_of(self.lcr),
    {
        let field: u8 = self.lcr & regs::LCR_WLEN_MASK;
        if field == regs::LCR_WLEN5 {
            DataBits::Five
        } else if field == regs::LCR_WLEN6 {
            DataBits::Six
        } else if field == regs::LCR_WLEN7 {
            DataBits::Seven
        } else {
            DataBits::Eight
        }
    }

    /// The stop bits.
    pub fn stop_bits(&self) -> (stop_bits: StopBits)
        ensures
            stop_bits == stop_bits_of(self.lcr),
    {
        if self.lcr & regs::LCR_STOP != 0 {
            StopBits::Two
        } else {
            StopBits::One
        }
    }

    /// The parity.
    pub fn parity(&self) -> (parity: Parity)
        ensures
            parity == parity_of(self.lcr),
    {
        if self.lcr & regs::LCR_PARITY == 0 {
            Parity::Off
        } else if self.lcr & regs::LCR_SPAR != 0 {
            if self.lcr & regs::LCR_EPAR != 0 {
                Parity::Space
            } else {
                Parity::Mark
            }
        } else if self.lcr & regs::LCR_EPAR != 0 {
            Parity::Even
        } else {
            Parity::Odd
        }
    }

    /// Feeds what is sent back to the receiver.
    pub fn enable_loopback(&mut self) -> (access: Op)
        ensures
            *final(self) == (PxaUart { mcr: old(self).mcr | regs::MCR_LOOP, ..*old(self) }),
            access == regs::write(regs::UART_MCR, final(self).mcr),
            forall|i: u8|
                i < 8 ==> #[trigger] bit8(final(self).mcr, i) == (i == 4 || bit8(old(self).mcr, i)),
            access == (Op::Write { reg: core_reg(0x10), value: final(self).mcr as u32 }),
    {
        broadcast use bits::group_bits8;

        self.mcr = self.mcr | regs::MCR_LOOP;
        regs::write(regs::UART_MCR, self.mcr)
    }

    /// Stops feeding what is sent back to the receiver.
    pub fn disable_loopback(&mut self) -> (access: Op)
        ensures
            *final(self) == (PxaUart { mcr: old(self).mcr & !regs::MCR_LOOP, ..*old(self) }),
            access == regs::write(regs::UART_MCR, final(self).mcr),
            forall|i: u8|
                i < 8 ==> #[trigger] bit8(final(self).mcr, i) == (i != 4 && bit8(old(self).mcr, i)),
            access == (Op::Write { reg: core_reg(0x10), value: final(self).mcr as u32 }),
    {
        broadcast use bits::group_bits8;

        self.mcr = self.mcr & !regs::MCR_LOOP;
        regs::write(regs::UART_MCR, self.mcr)
    }

    /// Whether what is sent is fed back to the receiver.
    pub fn is_loopback_enabled(&self) -> (enabled: bool)
        ensures
            enabled == (self.mcr & regs::MCR_LOOP != 0),
    {
        self.mcr & regs::MCR_LOOP != 0
    }

    /// The settings can be met.
    pub open spec fn accepts(self, config: Config) -> bool {
        config.baudrate matches Some(baudrate) ==> divisor_for(self.clock_freq, baudrate) is Some
    }

    /// The port with new settings.
    pub open spec fn configured(self, config: Config) -> PxaUart {
        PxaUart {
            current_baud: match config.baudrate {
                Some(baudrate) => baudrate,
                None => self.current_baud,
            },
            lcr: line_control(self.lcr, config),
            ier: self.ier | regs::IER_UUE,
            ..self
        }
    }

    /// The divisor that the FIFO settings go by.
    pub open spec fn fifo_divisor(self) -> u32 {
        match divisor_for(self.clock_freq, self.current_baud) {
            Some(divisor) => divisor as u32,
            None => 1,
        }
    }

    /// The accesses that apply new settings to the port.
    pub open spec fn config_ops(self, config: Config, lcr: u8) -> Seq<Op> {
        let set = self.configured(config);
        let divisor = match config.baudrate {
            Some(baudrate) => divisor_ops(
                divisor_for(self.clock_freq, baudrate).unwrap(),
                lcr,
            ),
            None => Seq::empty(),
        };
        divisor + seq![
            regs::write(regs::UART_LCR, set.lcr),
            regs::write(regs::UART_FCR, fifo_control(self.clock_freq / set.fifo_divisor())),
            regs::write(regs::UART_IER, set.ier),
        ]
    }

    /// Applies new settings. `lcr` is what the line control register holds.
    /// Settings with a baud rate that no divisor comes close to are refused,
    /// and change nothing.
    pub fn set_config(&mut self, config: &Config, lcr: u8) -> (result: Result<Script, ConfigError>)
        ensures
            result is Ok <==> old(self).accepts(*config),
            match result {
                Ok(accesses) => *final(self) == old(self).configured(*config) && accesses@ == old(
                    self,
                ).config_ops(*config, lcr),
                Err(error) => error == ConfigError::InvalidBaudrate && *final(self) == *old(self),
            },
    {
        let mut accesses = Script::new();
        if let Some(baudrate) = config.baudrate {
            match self.divisor(baudrate) {
                Some(divisor) => {
                    accesses = self.set_divisor(divisor, lcr);
                    self.current_baud = baudrate;
                },
                None => return Err(ConfigError::InvalidBaudrate),
            }
        }
        if let Some(data_bits) = config.data_bits {
            let field: u8 = match data_bits {
                DataBits::Five => regs::LCR_WLEN5,
                DataBits::Six => regs::LCR_WLEN6,
                DataBits::Seven => regs::LCR_WLEN7,
                DataBits::Eight => regs::LCR_WLEN8,
            };
            self.lcr = (self.lcr & !regs::LCR_WLEN_MASK) | field;
        }
        if let Some(stop_bits) = config.stop_bits {
            self.lcr = match stop_bits {
                StopBits::One => self.lcr & !regs::LCR_STOP,
                StopBits::Two => self.lcr | regs::LCR_STOP,
            };
        }
        if let Some(parity) = config.parity {
            let field: u8 = match parity {
                Parity::Off => 0,
                Parity::Odd => regs::LCR_PARITY,
                Parity::Even => regs::LCR_PARITY | regs::LCR_EPAR,
                Parity::Mark => regs::LCR_PARITY | regs::LCR_SPAR,
                Parity::Space => regs::LCR_PARITY | regs::LCR_EPAR | regs::LCR_SPAR,
            };
            self.lcr = (self.lcr & !PARITY_BITS) | field;
        }
        accesses.push(regs::write(regs::UART_LCR, self.lcr));
        let divisor: u32 = match self.divisor(self.current_baud) {
            Some(divisor) => divisor as u32,
            None => 1,
        };
        accesses.push(regs::write(regs::UART_FCR, self.select_fcr_flags(divisor)));
        self.ier = self.ier | regs::IER_UUE;
        accesses.push(regs::write(regs::UART_IER, self.ier));
        assert(accesses@ =~= old(self).config_ops(*config, lcr));
        Ok(accesses)
    }

    /// The accesses that empty the FIFOs and reset the line.
    pub open spec fn reset_ops() -> Seq<Op> {
        seq![
            regs::write(regs::UART_FCR, regs::FCR_ENABLE_FIFO),
            regs::write(
                regs::UART_FCR,
                regs::FCR_ENABLE_FIFO | regs::FCR_CLEAR_RX | regs::FCR_CLEAR_TX,
            ),
            regs::write(regs::UART_FCR, 0),
        ] + clear_pending() + seq![
            regs::write(regs::UART_LCR, regs::LCR_WLEN8),
            regs::write(regs::UART_MCR, regs::MCR_OUT2),
        ]
    }

    /// The first part of starting up: empties the FIFOs, clears what is pending
    /// and resets the line to 8-bit words.
    pub fn reset_line(&mut self) -> (accesses: Script)
        ensures
            accesses@ == PxaUart::reset_ops(),
            *final(self) == (PxaUart {
                lcr: regs::LCR_WLEN8,
                mcr: regs::MCR_OUT2,
                ..*old(self)
            }),
    {
        let mut accesses = Script::new();
        accesses.push(regs::write(regs::UART_FCR, regs::FCR_ENABLE_FIFO));
        accesses.push(
            regs::write(
                regs::UART_FCR,
                regs::FCR_ENABLE_FIFO | regs::FCR_CLEAR_RX | regs::FCR_CLEAR_TX,
            ),
        );
        accesses.push(regs::write(regs::UART_FCR, 0));
        self.append_clear_pending(&mut accesses);
        accesses.push(regs::write(regs::UART_LCR, regs::LCR_WLEN8));
        self.lcr = regs::LCR_WLEN8;
        self.mcr = regs::MCR_OUT2;
        accesses.push(regs::write(regs::UART_MCR, self.mcr));
        assert(accesses@ =~= PxaUart::reset_ops());
        accesses
    }

    fn append_clear_pending(&self, accesses: &mut Script)
        ensures
            final(accesses)@ == old(accesses)@ + clear_pending(),
    {
        accesses.push(regs::read(regs::UART_LSR));
        accesses.push(regs::read(regs::UART_RBR));
        accesses.push(regs::read(regs::UART_IIR));
        accesses.push(regs::read(regs::UART_MSR));
        assert(accesses@ =~= old(accesses)@ + clear_pending());
    }

    /// The second part of starting up, after [`reset_line`](Self::reset_line):
    /// applies the settings, clears what is pending and turns the port on with
    /// every interrupt masked. `lcr` is what the line control register holds.
    pub fn startup(&mut self, config: &Config, lcr: u8) -> (result: Result<Script, ConfigError>)
        ensures
            result is Ok <==> old(self).accepts(*config),
            match result {
                Ok(accesses) => {
                    &&& *final(self) == (PxaUart {
                        ier: regs::IER_UUE,
                        saved_lsr: 0,
                        ..old(self).configured(*config)
                    })
                    &&& accesses@ == old(self).config_ops(*config, lcr) + clear_pending() + seq![
                        regs::write(regs::UART_IER, regs::IER_UUE),
                    ]
                },
                Err(error) => error == ConfigError::InvalidBaudrate && *final(self) == *old(self),
            },
    {
        match self.set_config(config, lcr) {
            Ok(mut accesses) => {
                self.append_clear_pending(&mut accesses);
                self.ier = regs::IER_UUE;
                accesses.push(regs::write(regs::UART_IER, self.ier));
                self.saved_lsr = 0;
                assert(accesses@ =~= old(self).config_ops(*config, lcr) + clear_pending() + seq![
                    regs::write(regs::UART_IER, regs::IER_UUE),
                ]);
                Ok(accesses)
            },
            Err(error) => Err(error),
        }
    }

    /// Turns the port off. What is left in the receiver is then thrown away
    /// with [`drain_rx`](Self::drain_rx).
    pub fn shutdown(&mut self) -> (accesses: Script)
        ensures
            *final(self) == (PxaUart { ier: 0, mcr: old(self).mcr & !regs::MCR_OUT2, ..*old(self) }),
            accesses@ == seq![
                regs::write(regs::UART_IER, 0),
                regs::write(regs::UART_MCR, final(self).mcr),
                regs::update(regs::UART_LCR, regs::LCR_SBRK, 0),
                regs::write(
                    regs::UART_FCR,
                    regs::FCR_ENABLE_FIFO | regs::FCR_CLEAR_RX | regs::FCR_CLEAR_TX,
                ),
                regs::write(regs::UART_FCR, 0),
            ],
            forall|i: u8|
                i < 8 ==> #[trigger] bit8(final(self).mcr, i) == (i != 3 && bit8(old(self).mcr, i)),
    {
        broadcast use bits::group_bits8;

        let mut accesses = Script::new();
        self.ier = 0;
        accesses.push(regs::write(regs::UART_IER, 0));
        self.mcr = self.mcr & !regs::MCR_OUT2;
        accesses.push(regs::write(regs::UART_MCR, self.mcr));
        accesses.push(regs::update(regs::UART_LCR, regs::LCR_SBRK, 0));
        accesses.push(
            regs::write(
                regs::UART_FCR,
                regs::FCR_ENABLE_FIFO | regs::FCR_CLEAR_RX | regs::FCR_CLEAR_TX,
            ),
        );
        accesses.push(regs::write(regs::UART_FCR, 0));
        accesses
    }

    /// Sends the next of some bytes, `written` of which were sent in this burst,
    /// if there is space and the burst does not fill the FIFO.
    pub fn write_tx(&self, bytes: &Vec<u8>, written: usize, lsr: u8) -> (access: Option<Op>)
        ensures
            access == (if written < bytes@.len() && written < regs::FIFO_SIZE && lsr
                & regs::LSR_THRE != 0 {
                Some(regs::write(regs::UART_THR, bytes@[written as int]))
            } else {
                None
            }),
    {
        if written < bytes.len() && written < regs::FIFO_SIZE && lsr & regs::LSR_THRE != 0 {
            Some(regs::write(regs::UART_THR, bytes[written]))
        } else {
            None
        }
    }

    /// Masks every interrupt and leaves the port on. `ier` is what the
    /// interrupt enable register holds.
    pub fn mask_all(&mut self, ier: u8) -> (access: Op)
        ensures
            *final(self) == (PxaUart { ier: ier & regs::IER_UUE, ..*old(self) }),
            access == regs::write(regs::UART_IER, final(self).ier),
            forall|i: u8| i < 8 ==> #[trigger] bit8(final(self).ier, i) == (i == 6 && bit8(ier, i)),
            access == (Op::Write { reg: core_reg(0x04), value: final(self).ier as u32 }),
    {
        broadcast use bits::group_bits8;

        self.ier = ier & regs::IER_UUE;
        regs::write(regs::UART_IER, self.ier)
    }

    /// Unmasks the sources of some events and reads the line status. `ier` is
    /// what the interrupt enable register holds.
    pub fn arm(&mut self, sources: SerialEventSet, ier: u8) -> (accesses: Script)
        ensures
            *final(self) == (PxaUart { ier: ier | enables(sources), ..*old(self) }),
            accesses@ == seq![
                regs::write(regs::UART_IER, final(self).ier),
                regs::read(regs::UART_LSR),
            ],
            forall|i: u8|
                i < 8 ==> #[trigger] bit8(final(self).ier, i) == (bit8(ier, i) || (i == 0 || i == 2
                    || i == 4) && sources.has_rx() || i == 1 && sources.tx_space),
            accesses@ == seq![
                Op::Write { reg: core_reg(0x04), value: final(self).ier as u32 },
                Op::Read { reg: core_reg(0x14) },
            ],
    {
        broadcast use bits::group_bits8;

        let mut accesses = Script::new();
        self.ier = ier | ier_for_events(sources);
        accesses.push(regs::write(regs::UART_IER, self.ier));
        accesses.push(regs::read(regs::UART_LSR));
        accesses
    }

    /// Which of the awaited events are there already, for a status with the
    /// latched errors put in.
    pub open spec fn ready_events(sources: SerialEventSet, status: u8) -> SerialEventSet {
        SerialEventSet {
            rx_data: sources.has_rx() && status & regs::LSR_DR != 0,
            rx_timeout: false,
            rx_status: sources.has_rx() && status & regs::LSR_DR == 0 && status & rx::REPORTABLE != 0,
            tx_space: sources.tx_space && status & regs::LSR_THRE != 0,
            modem_status: false,
            fault: false,
        }
    }

    /// What [`arm`](Self::arm) came to: the events that are there already, whose
    /// sources are masked again. `lsr` is the line status.
    pub fn rearm(&mut self, sources: SerialEventSet, lsr: u8) -> (result: (SerialEventSet, Script))
        ensures
            ({
                let latch = rx::fold(lsr, old(self).saved_lsr);
                let ready = PxaUart::ready_events(sources, lsr | latch);
                let masked = old(self).ier & !enables(ready);
                &&& result.0 == ready
                &&& ready.is_empty() ==> result.1@ == Seq::<Op>::empty() && *final(self)
                    == PxaUart { saved_lsr: latch, ..*old(self) }
                &&& !ready.is_empty() ==> result.1@ == seq![regs::write(regs::UART_IER, masked)]
                    && *final(self) == PxaUart { saved_lsr: latch, ier: masked, ..*old(self) }
            }),
            forall|i: u8|
                i < 8 ==> #[trigger] bit8(final(self).ier, i) == (bit8(old(self).ier, i) && !((i == 0
                    || i == 2 || i == 4) && result.0.has_rx()) && !(i == 1 && result.0.tx_space)),
    {
        broadcast use bits::group_bits8;

        let status: u8 = self.read_lsr_preserving(lsr);
        let mut ready = SerialEventSet::empty();
        let mut accesses = Script::new();
        proof {
            assert(status & 0x01u8 != 0 ==> status & (0x01u8 | 0x1Eu8) != 0) by (bit_vector);
        }
        if sources.has_rx() && status & rx::REPORTABLE != 0 {
            if status & regs::LSR_DR != 0 {
                ready = ready.with(Source::RxData);
            } else {
                ready = ready.with(Source::RxStatus);
            }
        }
        if sources.tx_space && status & regs::LSR_THRE != 0 {
            ready = ready.with(Source::TxSpace);
        }
        if !ready.is_empty() {
            self.ier = self.ier & !ier_for_events(ready);
            accesses.push(regs::write(regs::UART_IER, self.ier));
        }
        (ready, accesses)
    }

    /// The baud rate to report before one was set: a sixteenth of the clock if
    /// none is known.
    pub fn initial_baudrate(&self) -> (baud: u32)
        ensures
            baud == (if self.current_baud != 0 {
                self.current_baud
            } else {
                self.clock_freq / 16
            }),
    {
        if self.current_baud != 0 {
            self.current_baud
        } else if self.clock_freq != 0 {
            self.clock_freq / 16
        } else {
            0
        }
    }

    /// The interrupt side of the port.
    pub fn split(self) -> (parts: (PxaUart, PxaUartIrq))
        ensures
            parts.0 == self,
            parts.1 == (PxaUartIrq { saved_lsr: 0, timeout_errata: false }),
    {
        (self, PxaUartIrq { saved_lsr: 0, timeout_errata: false })
    }
}

/// The divisor is the closest one: what it gives is off by at most half a
/// step.
pub proof fn law_divisor_is_nearest(clock_freq: u32, baudrate: u32)
    requires
        divisor_for(clock_freq, baudrate) is Some,
    ensures
        ({
            let ticks = 16 * baudrate * divisor_for(clock_freq, baudrate).unwrap();
            &&& clock_freq - ticks <= 8 * baudrate
            &&& ticks - clock_freq <= 8 * baudrate
        }),
{
    let step = 16 * baudrate;
    let sum = clock_freq + 8 * baudrate;
    vstd::arithmetic::div_mod::lemma_fundamental_div_mod(sum, step);
    let divisor = divisor_for(clock_freq, baudrate).unwrap() as int;
    assert(divisor == sum / step);
    assert(16 * baudrate * divisor == step * divisor);
    vstd::arithmetic::div_mod::lemma_mod_bound(sum, step);
}

/// What is set is read back, and what is not set stays.
pub proof fn law_settings_read_back(uart: PxaUart, config: Config)
    ensures
        ({
            let set = uart.configured(config);
            &&& set.current_baud == config.baudrate.unwrap_or(uart.current_baud)
            &&& data_bits_of(set.lcr) == config.data_bits.unwrap_or(data_bits_of(uart.lcr))
            &&& stop_bits_of(set.lcr) == config.stop_bits.unwrap_or(stop_bits_of(uart.lcr))
            &&& parity_of(set.lcr) == config.parity.unwrap_or(parity_of(uart.lcr))
        }),
{
    let lcr = uart.lcr;
    lemma_line_fields(lcr, config);
}

proof fn lemma_status_masks(status: u8)
    ensures
        status & regs::LSR_DR != 0 <==> bit8(status, 0),
        status & regs::LSR_OE != 0 <==> bit8(status, 1),
        status & (regs::LSR_PE | regs::LSR_FE | regs::LSR_BI) != 0 <==> bit8(status, 2) || bit8(
            status,
            3,
        ) || bit8(status, 4),
        status & regs::LSR_THRE != 0 <==> bit8(status, 5),
{
    bits::lemma_masks8(status);
}

proof fn lemma_line_fields(lcr: u8, config: Config)
    ensures
        ({
            let set = line_control(lcr, config);
            &&& set & 0x03 == (match config.data_bits {
                Some(data_bits) => word_length(data_bits),
                None => lcr & 0x03,
            })
            &&& set & 0x04 == (match config.stop_bits {
                Some(stop_bits) => if stop_bits is Two {
                    0x04
                } else {
                    0
                },
                None => lcr & 0x04,
            })
            &&& config.parity is None ==> set & 0x08 == lcr & 0x08 && set & 0x10 == lcr & 0x10 && set
                & 0x20 == lcr & 0x20
            &&& config.parity is Some ==> parity_of(set) == config.parity.unwrap()
        }),
{
    let words = match config.data_bits {
        Some(data_bits) => (lcr & !regs::LCR_WLEN_MASK) | word_length(data_bits),
        None => lcr,
    };
    let stops = match config.stop_bits {
        Some(stop_bits) => if stop_bits is Two {
            words | regs::LCR_STOP
        } else {
            words & !regs::LCR_STOP
        },
        None => words,
    };
    if let Some(data_bits) = config.data_bits {
        lemma_word_length_field(lcr, word_length(data_bits));
    }
    lemma_stop_field(words);
    if let Some(parity) = config.parity {
        lemma_stop_field(parity_field(parity));
        lemma_parity_field(stops, parity_field(parity));
    }
}

proof fn lemma_word_length_field(x: u8, w: u8)
    by (bit_vector)
    requires
        w <= 3,
    ensures
        ((x & !0x03u8) | w) & 0x03 == w,
        ((x & !0x03u8) | w) & 0x04 == x & 0x04,
        ((x & !0x03u8) | w) & 0x08 == x & 0x08,
        ((x & !0x03u8) | w) & 0x10 == x & 0x10,
        ((x & !0x03u8) | w) & 0x20 == x & 0x20,
{
}

proof fn lemma_stop_field(x: u8)
    by (bit_vector)
    ensures
        (x | 0x04u8) & 0x03 == x & 0x03,
        (x | 0x04u8) & 0x04 == 0x04,
        (x | 0x04u8) & 0x08 == x & 0x08,
        (x | 0x04u8) & 0x10 == x & 0x10,
        (x | 0x04u8) & 0x20 == x & 0x20,
        (x & !0x04u8) & 0x03 == x & 0x03,
        (x & !0x04u8) & 0x04 == 0,
        (x & !0x04u8) & 0x08 == x & 0x08,
        (x & !0x04u8) & 0x10 == x & 0x10,
        (x & !0x04u8) & 0x20 == x & 0x20,
        0u8 & 0x08 == 0,
        0x08u8 & 0x08 == 0x08,
        0x08u8 & 0x10 == 0,
        0x08u8 & 0x20 == 0,
        (0x08u8 | 0x10u8) & 0x08 == 0x08,
        (0x08u8 | 0x10u8) & 0x10 == 0x10,
        (0x08u8 | 0x10u8) & 0x20 == 0,
        (0x08u8 | 0x20u8) & 0x08 == 0x08,
        (0x08u8 | 0x20u8) & 0x10 == 0,
        (0x08u8 | 0x20u8) & 0x20 == 0x20,
        (0x08u8 | 0x10u8 | 0x20u8) & 0x08 == 0x08,
        (0x08u8 | 0x10u8 | 0x20u8) & 0x10 == 0x10,
        (0x08u8 | 0x10u8 | 0x20u8) & 0x20 == 0x20,
        0x04u8 & 0x04 == 0x04,
        0u8 & 0x04 == 0,
        (0x08u8 | 0x10u8 | 0x20u8) & !(0x08u8 | 0x10u8 | 0x20u8) == 0,
        (0x08u8 | 0x20u8) & !(0x08u8 | 0x10u8 | 0x20u8) == 0,
        (0x08u8 | 0x10u8) & !(0x08u8 | 0x10u8 | 0x20u8) == 0,
        0x08u8 & !(0x08u8 | 0x10u8 | 0x20u8) == 0,
        0u8 & !(0x08u8 | 0x10u8 | 0x20u8) == 0,
{
}

proof fn lemma_parity_field(x: u8, p: u8)
    by (bit_vector)
    requires
        p & !(0x08u8 | 0x10u8 | 0x20u8) == 0,
    ensures
        ((x & !(0x08u8 | 0x10u8 | 0x20u8)) | p) & 0x03 == x & 0x03,
        ((x & !(0x08u8 | 0x10u8 | 0x20u8)) | p) & 0x04 == x & 0x04,
        ((x & !(0x08u8 | 0x10u8 | 0x20u8)) | p) & 0x08 == p & 0x08,
        ((x & !(0x08u8 | 0x10u8 | 0x20u8)) | p) & 0x10 == p & 0x10,
        ((x & !(0x08u8 | 0x10u8 | 0x20u8)) | p) & 0x20 == p & 0x20,
{
}

} // verus!
