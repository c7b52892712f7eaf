//! Droppable wood piles: stackable quantities created by harvesting and
//! merged into a destination's stock on delivery.

use vstd::prelude::*;

use crate::rng::random_below;

verus! {

/// Largest number of logs a felled tree can drop.
pub const MAX_WOOD_DROP: u64 = 5;

/// A stackable quantity of wood, lying in the world or held by an agent.
#[derive(Clone, Copy, Debug, PartialEq, Eq, Structural)]
pub struct WoodPile {
    pub count: u32,
}

impl WoodPile {
    pub fn new(count: u32) -> (r: WoodPile)
        ensures
            r == (WoodPile { count }),
    {
        WoodPile { count }
    }
}

/// The count a freshly spawned pile actually gets: four stacks of wood
/// don't look good, so four becomes three.
pub open spec fn spec_spawned_wood_count(count: u32) -> u32 {
    if count == 4 {
        3u32
    } else {
        count
    }
}

/// Adjust a requested pile size for spawning.
pub fn spawned_wood_count(count: u32) -> (r: u32)
    ensures
        r == spec_spawned_wood_count(count),
{
    if count == 4 {
        3
    } else {
        count
    }
}

/// Draw how much wood a felled tree drops: uniformly one through
/// `MAX_WOOD_DROP` logs.
pub fn draw_wood_drop_count() -> (r: u32)
    ensures
        1 <= r <= MAX_WOOD_DROP,
{
    1 + random_below(MAX_WOOD_DROP) as u32
}

/// Which of a pile's `n_children` stacked log models are visible: exactly
/// the first `count` of them.
pub fn wood_stack_visibility(count: u32, n_children: usize) -> (r: Vec<bool>)
    ensures
        r@.len() == n_children,
        forall|i: int| 0 <= i < n_children ==> r@[i] == (i < count),
{
    let mut r: Vec<bool> = Vec::new();
    let mut i: usize = 0;
    while i < n_children
        invariant
            i <= n_children,
            r@.len() == i,
            forall|j: int| 0 <= j < i ==> r@[j] == (j < count),
        decreases n_children - i,
    {
        r.push((i as u64) < (count as u64));
        i = i + 1;
    }
    r
}

} // verus!
