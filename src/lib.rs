//! Acquires one geographic fix from a platform location service, a desktop
//! location service or a network lookup, and falls back between them.
//!
//! Floating-point values cross this library as IEEE-754 binary64 bit
//! patterns (`u64`, as given by `f64::to_bits`).
pub mod args;
pub mod bridge;
pub mod desktop;
pub mod error;
pub mod fallback;
pub mod location;
pub mod orchestrator;
