//! Locates a C (or C++) compiler and probes which language standards it accepts.

pub mod get_cc;
pub mod invocation;
pub mod properties;
pub mod trial;
