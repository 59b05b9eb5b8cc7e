//! UFS host controller.

pub mod desc;
pub mod error;
pub mod host;
pub mod laws;
pub mod link;
pub mod power;
pub mod regs;
pub mod scan;
pub mod scan_laws;
pub mod scsi;
pub mod transfer;
pub mod uic;
