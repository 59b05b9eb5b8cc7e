//! USB host controller and class drivers.

pub mod dwc3;
pub mod ids;
pub mod laws;
pub mod regs;
pub mod video;
