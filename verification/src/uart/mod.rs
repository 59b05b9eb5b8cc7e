//! PXA-style serial port.

pub mod irq;
pub mod laws;
pub mod port;
pub mod probe;
pub mod regs;
pub mod rx;
pub mod types;
