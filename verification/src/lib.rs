//! Trace configuration and trace capture for ARM CoreSight targets, and a few
//! CMSIS-DAP commands.
//!
//! Nothing in this crate touches a probe. Every operation is a value that says
//! which bus transactions to perform, one at a time; whoever holds the probe
//! performs them and hands the words read back.

pub mod architecture;
pub mod bytes;
pub mod error;
pub mod probe;

pub use crate::error::ArmError;
