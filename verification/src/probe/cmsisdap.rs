//! Probes that speak CMSIS-DAP.

pub mod commands;
