//! Pin controller: function, bias, drive strength and IO voltage of each pin.

pub mod controller;
pub mod fdt_parser;
pub mod laws;
pub mod regs;
pub mod state;
