//! What the serial port driver takes and reports.

use vstd::prelude::*;

verus! {

#[derive(Clone, Copy, Debug, PartialEq, Eq, Structural)]
pub enum DataBits {
    Five,
    Six,
    Seven,
    Eight,
}

#[derive(Clone, Copy, Debug, PartialEq, Eq, Structural)]
pub enum StopBits {
    One,
    Two,
}

#[derive(Clone, Copy, Debug, PartialEq, Eq, Structural)]
pub enum Parity {
    Off,
    Even,
    Odd,
    Mark,
    Space,
}

/// Line settings; what is `None` stays as it is.
#[derive(Clone, Copy, Debug, PartialEq, Eq, Structural)]
pub struct Config {
    pub baudrate: Option<u32>,
    pub data_bits: Option<DataBits>,
    pub stop_bits: Option<StopBits>,
    pub parity: Option<Parity>,
}

/// Why line settings are refused.
#[derive(Clone, Copy, Debug, PartialEq, Eq, Structural)]
pub enum ConfigError {
    /// No divisor comes close to the baud rate.
    InvalidBaudrate,
}

/// Why the port interrupts.
#[derive(Clone, Copy, Debug, PartialEq, Eq, Structural)]
pub enum Source {
    RxData,
    RxTimeout,
    RxStatus,
    TxSpace,
    ModemStatus,
    /// A reason that is not known.
    Fault,
}

/// A set of reasons to interrupt.
#[derive(Clone, Copy, Debug, PartialEq, Eq, Structural)]
pub struct SerialEventSet {
    pub rx_data: bool,
    pub rx_timeout: bool,
    pub rx_status: bool,
    pub tx_space: bool,
    pub modem_status: bool,
    pub fault: bool,
}

impl Source {
    /// The receiver is the reason.
    #[verifier::allow_in_spec]
    pub fn is_rx(self) -> (result: bool)
        returns
            self is RxData || self is RxTimeout || self is RxStatus,
    {
        match self {
            Source::RxData | Source::RxTimeout | Source::RxStatus => true,
            _ => false,
        }
    }
}

impl SerialEventSet {
    /// No reason.
    #[verifier::allow_in_spec]
    pub fn empty() -> (set: SerialEventSet)
        returns
            (SerialEventSet {
                rx_data: false,
                rx_timeout: false,
                rx_status: false,
                tx_space: false,
                modem_status: false,
                fault: false,
            }),
    {
        SerialEventSet {
            rx_data: false,
            rx_timeout: false,
            rx_status: false,
            tx_space: false,
            modem_status: false,
            fault: false,
        }
    }

    /// Adds a reason.
    #[verifier::allow_in_spec]
    pub fn with(self, source: Source) -> (set: SerialEventSet)
        returns
            (match source {
                Source::RxData => SerialEventSet { rx_data: true, ..self },
                Source::RxTimeout => SerialEventSet { rx_timeout: true, ..self },
                Source::RxStatus => SerialEventSet { rx_status: true, ..self },
                Source::TxSpace => SerialEventSet { tx_space: true, ..self },
                Source::ModemStatus => SerialEventSet { modem_status: true, ..self },
                Source::Fault => SerialEventSet { fault: true, ..self },
            }),
    {
        match source {
            Source::RxData => SerialEventSet { rx_data: true, ..self },
            Source::RxTimeout => SerialEventSet { rx_timeout: true, ..self },
            Source::RxStatus => SerialEventSet { rx_status: true, ..self },
            Source::TxSpace => SerialEventSet { tx_space: true, ..self },
            Source::ModemStatus => SerialEventSet { modem_status: true, ..self },
            Source::Fault => SerialEventSet { fault: true, ..self },
        }
    }

    /// The receiver is among the reasons.
    #[verifier::allow_in_spec]
    pub fn has_rx(self) -> (result: bool)
        returns
            self.rx_data || self.rx_timeout || self.rx_status,
    {
        self.rx_data || self.rx_timeout || self.rx_status
    }

    /// There is no reason.
    #[verifier::allow_in_spec]
    pub fn is_empty(self) -> (result: bool)
        returns
            !(self.rx_data || self.rx_timeout || self.rx_status || self.tx_space
                || self.modem_status || self.fault),
    {
        !(self.rx_data || self.rx_timeout || self.rx_status || self.tx_space || self.modem_status
            || self.fault)
    }
}

/// What was wrong with received bytes.
#[derive(Clone, Copy, Debug, PartialEq, Eq, Structural)]
pub struct RxErrorFlags {
    pub break_condition: bool,
    pub parity: bool,
    pub framing: bool,
    pub overrun: bool,
}

impl RxErrorFlags {
    /// Nothing.
    #[verifier::allow_in_spec]
    pub fn empty() -> (flags: RxErrorFlags)
        returns
            (RxErrorFlags {
                break_condition: false,
                parity: false,
                framing: false,
                overrun: false,
            }),
    {
        RxErrorFlags { break_condition: false, parity: false, framing: false, overrun: false }
    }

    /// Everything that either reports.
    #[verifier::allow_in_spec]
    pub fn union(self, other: RxErrorFlags) -> (flags: RxErrorFlags)
        returns
            (RxErrorFlags {
                break_condition: self.break_condition || other.break_condition,
                parity: self.parity || other.parity,
                framing: self.framing || other.framing,
                overrun: self.overrun || other.overrun,
            }),
    {
        RxErrorFlags {
            break_condition: self.break_condition || other.break_condition,
            parity: self.parity || other.parity,
            framing: self.framing || other.framing,
            overrun: self.overrun || other.overrun,
        }
    }
}

/// How a byte was received.
#[derive(Clone, Copy, Debug, PartialEq, Eq, Structural)]
pub enum RxFlag {
    Normal,
    Break,
    Parity,
    Framing,
}

/// What was received: a byte, an error, or both.
#[derive(Clone, Copy, Debug, PartialEq, Eq, Structural)]
pub struct RxSample {
    pub byte: Option<u8>,
    pub flag: RxFlag,
    /// Bytes before this one were lost.
    pub overrun: bool,
}

/// What an interrupt came to.
#[derive(Clone, Copy, Debug, PartialEq, Eq, Structural)]
pub struct SerialIrqEvent {
    pub events: SerialEventSet,
    pub rx_errors: RxErrorFlags,
    /// Sources that were masked and wait to be armed again.
    pub rearm: SerialEventSet,
}

/// The state of the line.
#[derive(Clone, Copy, Debug, PartialEq, Eq, Structural)]
pub struct SerialEvent {
    pub rx_ready: bool,
    pub rx_error: bool,
    pub overrun: bool,
    pub tx_ready: bool,
}

/// Why no byte was received.
#[derive(Clone, Copy, Debug, PartialEq, Eq, Structural)]
pub enum TransferError {
    /// Bytes were lost before this one.
    Overrun(u8),
    Parity,
    Framing,
    Break,
}

} // verus!
