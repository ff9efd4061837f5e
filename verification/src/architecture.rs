//! Target architectures.

pub mod arm;
