//! The general commands.

pub mod disconnect;
