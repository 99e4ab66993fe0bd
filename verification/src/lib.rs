//! Lowest-level digital I/O layer for a battery-powered board: a registry
//! binding symbolic pin roles to (port, bit) locations, a line-control
//! primitive that sets or clears one output bit without disturbing the
//! others, per-port electrical-mode configuration, and the timed power-up
//! sequence that brings every line to its documented idle level.
//!
//! The port registers are modelled by a plain handle holding each port's
//! data-output and mode-configuration words. All sequencing and bit
//! manipulation is verified against that model; mirroring the model onto the
//! memory-mapped peripheral is left to the thin unverified binding around
//! this crate.

use vstd::prelude::*;

pub mod registry;
pub mod registers;
pub mod line;
pub mod modes;
pub mod sequence;

verus! {

/// The delay requested after the power rail is switched on, in milliseconds.
pub const SETTLE_MS: u32 = 10;

/// The datasheet's minimum settling time for the 2.8 V rail, in milliseconds.
pub const MIN_SETTLE_MS: u32 = 10;

} // verus!
