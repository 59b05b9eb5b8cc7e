//! Registers of the serial port.
//!
//! A register is one byte wide. It is accessed as a 32-bit word whose low byte
//! it is.

use vstd::prelude::*;
use crate::script::{Op, Reg, Window};

verus! {

pub const UART_RBR: u8 = 0x00;
pub const UART_THR: u8 = 0x00;
pub const UART_DLL: u8 = 0x00;
pub const UART_IER: u8 = 0x01;
pub const UART_DLH: u8 = 0x01;
pub const UART_IIR: u8 = 0x02;
pub const UART_FCR: u8 = 0x02;
pub const UART_LCR: u8 = 0x03;
pub const UART_MCR: u8 = 0x04;
pub const UART_LSR: u8 = 0x05;
pub const UART_MSR: u8 = 0x06;

/// Distance between registers.
pub const REG_WIDTH: usize = 4;
/// Bytes in each FIFO.
pub const FIFO_SIZE: usize = 64;
/// The bits of a word that hold no register.
pub const NO_REGISTER: u32 = 0xFFFF_FF00;

// Interrupt enable.
pub const IER_RDI: u8 = 0x01;
pub const IER_THRI: u8 = 0x02;
pub const IER_RLSI: u8 = 0x04;
pub const IER_RTOIE: u8 = 0x10;
pub const IER_UUE: u8 = 0x40;

// Interrupt identification.
pub const IIR_NO_INT: u8 = 0x01;
pub const IIR_ID_MASK: u8 = 0x0E;
pub const IIR_RLSI: u8 = 0x06;
pub const IIR_RDI: u8 = 0x04;
pub const IIR_CTI: u8 = 0x0C;
pub const IIR_THRI: u8 = 0x02;
pub const IIR_MSI: u8 = 0x00;

// FIFO control.
pub const FCR_ENABLE_FIFO: u8 = 0x01;
pub const FCR_CLEAR_RX: u8 = 0x02;
pub const FCR_CLEAR_TX: u8 = 0x04;
pub const FCR_PXAR1: u8 = 0x00;
pub const FCR_PXAR8: u8 = 0x40;
pub const FCR_PXAR32: u8 = 0x80;

// Line control.
pub const LCR_WLEN5: u8 = 0x00;
pub const LCR_WLEN6: u8 = 0x01;
pub const LCR_WLEN7: u8 = 0x02;
pub const LCR_WLEN8: u8 = 0x03;
pub const LCR_WLEN_MASK: u8 = 0x03;
pub const LCR_STOP: u8 = 0x04;
pub const LCR_PARITY: u8 = 0x08;
pub const LCR_EPAR: u8 = 0x10;
pub const LCR_SPAR: u8 = 0x20;
pub const LCR_SBRK: u8 = 0x40;
pub const LCR_DLAB: u8 = 0x80;

// Modem control.
pub const MCR_OUT2: u8 = 0x08;
pub const MCR_LOOP: u8 = 0x10;

// Line status.
pub const LSR_DR: u8 = 0x01;
pub const LSR_OE: u8 = 0x02;
pub const LSR_PE: u8 = 0x04;
pub const LSR_FE: u8 = 0x08;
pub const LSR_BI: u8 = 0x10;
pub const LSR_THRE: u8 = 0x20;
pub const LSR_TEMT: u8 = 0x40;
pub const LSR_FIFOE: u8 = 0x80;
pub const LSR_ERROR_MASK: u8 = 0x1E;

/// A register, by its number.
#[verifier::allow_in_spec]
pub fn reg(number: u8) -> (reg: Reg)
    returns
        (Reg { window: Window::Core, offset: (number * 4) as usize }),
{
    Reg { window: Window::Core, offset: number as usize * REG_WIDTH }
}

/// Reads a register.
#[verifier::allow_in_spec]
pub fn read(number: u8) -> (op: Op)
    returns
        (Op::Read { reg: reg(number) }),
{
    Op::Read { reg: reg(number) }
}

/// Writes a register.
#[verifier::allow_in_spec]
pub fn write(number: u8, value: u8) -> (op: Op)
    returns
        (Op::Write { reg: reg(number), value: value as u32 }),
{
    Op::Write { reg: reg(number), value: value as u32 }
}

/// Clears and sets bits of a register.
#[verifier::allow_in_spec]
pub fn update(number: u8, clear: u8, set: u8) -> (op: Op)
    returns
        (Op::Update { reg: reg(number), clear: NO_REGISTER | clear as u32, set: set as u32 }),
{
    Op::Update { reg: reg(number), clear: NO_REGISTER | clear as u32, set: set as u32 }
}

} // verus!
