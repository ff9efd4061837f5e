//! Debug probes.

pub mod cmsisdap;
