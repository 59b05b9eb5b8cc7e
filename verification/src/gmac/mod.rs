//! Gigabit Ethernet controller (DWMAC 5.10a core with SpacemiT glue logic).

pub mod controller;
pub mod desc;
pub mod laws;
pub mod link_laws;
pub mod mdio;
pub mod pinctrl;
pub mod probe;
pub mod queue;
pub mod reference;
pub mod regs;
pub mod syscon;
