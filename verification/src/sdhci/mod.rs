//! SD and eMMC host controller.

pub mod card;
pub mod host;
pub mod laws;
pub mod regs;
pub mod tuning;
pub mod vendor_ext;
