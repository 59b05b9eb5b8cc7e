//! Drivers for the SpacemiT K3.

pub mod aplic;
pub mod bits;
pub mod block;
pub mod fdt;
pub mod gmac;
pub mod imsic;
pub mod pinctrl;
pub mod script;
pub mod sdhci;
pub mod uart;
pub mod ufs;
pub mod usb;
