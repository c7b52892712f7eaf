//! Behavioral core of a village of autonomous agents: a per-agent finite
//! state machine that starts, executes and completes multi-step tasks
//! (walking, building, harvesting, picking up and delivering resources),
//! plus the weighted decision policy that chooses what an idle agent does
//! next.
//!
//! All world quantities are fixed-point integers: lengths in thousandths of
//! a world unit, times in milliseconds, speeds in thousandths of a world
//! unit per second. The engine around this crate (rendering, physics,
//! asset loading) converts at the boundary.

use vstd::prelude::*;

pub mod fsm;
pub mod geometry;
pub mod harvest;
pub mod interrupt;
pub mod policy;
pub mod progress;
mod rng;
pub mod updates;
pub mod villager;
pub mod wood;

verus! {

/// Fixed-point scale: this many length units make one world unit, and this
/// many milliseconds make one second.
pub const SCALE: u64 = 1000;

} // verus!
