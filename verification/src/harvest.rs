//! Harvestable resource nodes and their exactly-once destruction.
//!
//! A harvestable (a tree, say) holds a health value drained by harvesting
//! agents. Once the health reaches zero the node is marked for destruction
//! exactly once — the deathmark — and a destroyed notification is owed for
//! that tick and no other.

use vstd::prelude::*;

use crate::SCALE;
use crate::rng::random_below;

verus! {

/// Health a freshly grown tree starts with, in thousandths of a health
/// unit (two units).
pub const TREE_HEALTH: u64 = 2000;

/// Growth rate of new trees, in thousandths of a tree per second.
pub const TREE_GROW_RATE: u64 = 600;

/// The number of equally likely draws behind one growth check: a million,
/// so that `TREE_GROW_RATE * dt_ms` of them signal growth.
pub const GROW_DRAW_SPACE: u64 = 1_000_000;

/// A resource node with a health value, in thousandths of a health unit,
/// and its one-shot deathmark.
#[derive(Clone, Copy, Debug, PartialEq, Eq, Structural)]
pub struct Harvestable {
    pub health: u64,
    pub deathmarked: bool,
}

/// What `drain` leaves of the health: the full drain is subtracted, but
/// never below zero.
pub open spec fn spec_drained(health: u64, harvesting_speed: u64, dt_ms: u64) -> u64 {
    let drain = (harvesting_speed * dt_ms) / (SCALE as int);
    if drain >= health {
        0u64
    } else {
        (health - drain) as u64
    }
}

/// A destroyed notification is owed: the node is out of health and not yet
/// deathmarked.
pub open spec fn spec_notifies(h: Harvestable) -> bool {
    !h.deathmarked && h.health == 0
}

/// The node after one destruction check: deathmarked as soon as its health
/// is out, untouched otherwise.
pub open spec fn spec_checked(h: Harvestable) -> Harvestable {
    Harvestable { health: h.health, deathmarked: h.deathmarked || h.health == 0 }
}

impl Harvestable {
    /// A fresh node with the given health and no deathmark.
    pub fn new(health: u64) -> (r: Harvestable)
        ensures
            r == (Harvestable { health, deathmarked: false }),
    {
        Harvestable { health, deathmarked: false }
    }

    /// A freshly grown tree.
    pub fn new_tree() -> (r: Harvestable)
        ensures
            r == (Harvestable { health: TREE_HEALTH, deathmarked: false }),
    {
        Harvestable { health: TREE_HEALTH, deathmarked: false }
    }

    /// Drain `dt_ms` milliseconds of harvesting at `harvesting_speed`
    /// health units per second, stopping at zero.
    pub fn drain(&mut self, harvesting_speed: u64, dt_ms: u64)
        ensures
            final(self).health == spec_drained(old(self).health, harvesting_speed, dt_ms),
            final(self).deathmarked == old(self).deathmarked,
    {
        assert(harvesting_speed * dt_ms <= 0xffff_ffff_ffff_ffff_ffff_ffff_ffff_ffff)
            by (nonlinear_arith)
            requires
                0 <= harvesting_speed <= 0xffff_ffff_ffff_ffff,
                0 <= dt_ms <= 0xffff_ffff_ffff_ffff;
        let drain: u128 = (harvesting_speed as u128) * (dt_ms as u128) / (SCALE as u128);
        if drain >= self.health as u128 {
            self.health = 0;
        } else {
            self.health = self.health - drain as u64;
        }
    }
}

/// Mark a node whose health has run out, and say whether a destroyed
/// notification must be broadcast now. The deathmark guarantees the
/// notification is owed at most once per node.
pub fn check_harvestable_destroyed(h: &mut Harvestable) -> (notify: bool)
    ensures
        notify == spec_notifies(*old(h)),
        *final(h) == spec_checked(*old(h)),
{
    if !h.deathmarked && h.health == 0 {
        h.deathmarked = true;
        true
    } else {
        false
    }
}

/// Exactly-once destruction: after one check, no further check of the same
/// node ever owes a notification again.
pub proof fn lemma_destroy_notification_once(h: Harvestable)
    ensures
        !spec_notifies(spec_checked(h)),
        spec_checked(spec_checked(h)) == spec_checked(h),
{
}

/// A draw out of `GROW_DRAW_SPACE` signals growth during a tick of
/// `dt_ms` milliseconds.
pub open spec fn grow_signal(draw: u64, dt_ms: u64) -> bool {
    (draw as int) < TREE_GROW_RATE * dt_ms
}

/// Decide whether a new tree grows this tick: a chance of `TREE_GROW_RATE`
/// thousandths per second of simulated time.
pub fn should_grow_tree(dt_ms: u64) -> (grow: bool)
    ensures
        exists|draw: u64| draw < GROW_DRAW_SPACE && grow == #[trigger] grow_signal(draw, dt_ms),
{
    let draw = random_below(GROW_DRAW_SPACE);
    assert(TREE_GROW_RATE * dt_ms <= 0xffff_ffff_ffff_ffff_ffff_ffff_ffff_ffff)
        by (nonlinear_arith)
        requires 0 <= dt_ms <= 0xffff_ffff_ffff_ffff;
    let grow = (draw as u128) < (TREE_GROW_RATE as u128) * (dt_ms as u128);
    proof {
        assert(draw < GROW_DRAW_SPACE && grow == grow_signal(draw, dt_ms));
    }
    grow
}

} // verus!
