//! The commands for the SWD and JTAG pins.

pub mod clock;
