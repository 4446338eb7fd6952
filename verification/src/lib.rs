//! Operating-system version gate.
//!
//! The crate decides, from a detected `(major, minor)` system version and an
//! explicit bypass flag, whether a legacy application may start, and which
//! product name to show when it may not. Every function is verified with
//! Verus against the contract stated on it.

pub mod gate;
pub mod label;
pub mod notice;
pub mod probe;
pub mod version;
