//! Finding a serial port in the device tree.

use vstd::prelude::*;
use fdt_edit::Node;
use crate::fdt;
use crate::fdt::prop_u32;

verus! {

/// Binding of the port.
pub const COMPATIBLE: &'static str = "spacemit,k1-uart";

/// Functional clock if the node does not give one.
pub const PXA_DEFAULT_CLOCK: u32 = 14_700_000;

/// The functional clock of a port in Hz.
pub fn clock_frequency(node: &Node) -> (clock: u32)
    ensures
        clock == (match fdt::number(*node, "clock-frequency"@) {
            Some(hz) => hz,
            None => PXA_DEFAULT_CLOCK,
        }),
{
    match prop_u32(node, "clock-frequency") {
        Some(hz) => hz,
        None => PXA_DEFAULT_CLOCK,
    }
}

} // verus!
