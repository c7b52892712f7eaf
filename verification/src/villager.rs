//! The agents themselves.

use vstd::prelude::*;

verus! {

/// How fast a villager walks, in thousandths of a world unit per second
/// (three units per second).
pub const MOVEMENT_SPEED: u64 = 3000;

/// How fast a villager drains a harvestable, in thousandths of a health
/// unit per second (one unit per second).
pub const HARVESTING_SPEED: u64 = 1000;

/// An autonomous agent: its two speeds. Position and state live beside it
/// in the world's entity table; a villager always carries exactly one
/// state, starting idle.
#[derive(Clone, Copy, Debug, PartialEq, Eq, Structural)]
pub struct Villager {
    pub movement_speed: u64,
    pub harvesting_speed: u64,
}

impl Villager {
    /// A villager with the standard speeds.
    pub fn new() -> (r: Villager)
        ensures
            r == (Villager { movement_speed: MOVEMENT_SPEED, harvesting_speed: HARVESTING_SPEED }),
    {
        Villager { movement_speed: MOVEMENT_SPEED, harvesting_speed: HARVESTING_SPEED }
    }
}

} // verus!
