//! One update routine per active state.
//!
//! Each routine owns its state's physical effect and completion semantics
//! for one tick: it steers or waits, reports world effects as data, and
//! yields the decision fed back into the transition table. Target entities
//! are re-resolved by the caller every tick; an unresolvable target is a
//! soft stall, never an error.

use vstd::prelude::*;

use crate::fsm::CLOSE_ENOUGH_DISTANCE;
use crate::fsm::Decision;
use crate::fsm::EntityId;
use crate::fsm::close_enough;
use crate::geometry::Pos;
use crate::geometry::dist_sq_exec;
use crate::geometry::walk_to;
use crate::geometry::walked;
use crate::harvest::Harvestable;
use crate::harvest::spec_drained;
use crate::progress::TaskProgress;
use crate::rng::random_below;

verus! {

/// How long one gather takes, in milliseconds.
pub const HARVEST_DURATION_MS: u64 = 700;

/// A world effect requested by an update routine, applied by the world
/// layer after the tick's decisions are in.
#[derive(Clone, Copy, Debug, PartialEq, Eq)]
pub enum Effect {
    /// Create a pile of the given quantity, held by the acting agent.
    SpawnHeldPile { id: EntityId, count: u32 },
    /// Remove an entity from the world.
    Despawn(EntityId),
    /// Merge a delivered quantity into a destination's stock.
    Deposit { dest: EntityId, amount: u32 },
}

/// One tick of `WalkingTo`: steer toward the resolved target position at
/// the agent's movement speed, holding position while the target is
/// unresolvable. Emits `Finished` on arrival and otherwise re-targets with
/// the freshly resolved position, so the carried position stays current.
pub fn fsm_update_walking_to(
    pos: &mut Pos,
    target: EntityId,
    movement_speed: u64,
    dt_ms: u64,
    resolved: Option<Pos>,
) -> (d: Decision)
    requires
        old(pos).wf(),
        resolved matches Some(t) ==> t.wf(),
    ensures
        final(pos).wf(),
        resolved is None ==> *final(pos) == *old(pos) && d == Decision::Continue,
        resolved matches Some(t) ==> {
            &&& *final(pos) == walked(*old(pos), t, movement_speed, dt_ms)
            &&& d == if close_enough(walked(*old(pos), t, movement_speed, dt_ms), t) {
                Decision::Finished
            } else {
                Decision::WalkTo(target, t)
            }
        },
{
    match resolved {
        None => Decision::Continue,
        Some(t) => {
            walk_to(pos, &t, movement_speed, dt_ms);
            if dist_sq_exec(pos, &t) < CLOSE_ENOUGH_DISTANCE * CLOSE_ENOUGH_DISTANCE {
                Decision::Finished
            } else {
                Decision::WalkTo(target, t)
            }
        },
    }
}

/// One tick of `WalkingToHarvest`: like `WalkingTo`, but arrival emits a
/// gather of the fixed duration instead of `Finished`, and a target
/// reported destroyed before arrival emits `Finished` (forcing idle)
/// without moving.
pub fn fsm_update_walking_to_harvest(
    pos: &mut Pos,
    target: EntityId,
    movement_speed: u64,
    dt_ms: u64,
    resolved: Option<Pos>,
    target_destroyed: bool,
) -> (d: Decision)
    requires
        old(pos).wf(),
        resolved matches Some(t) ==> t.wf(),
    ensures
        final(pos).wf(),
        target_destroyed ==> *final(pos) == *old(pos) && d == Decision::Finished,
        !target_destroyed && resolved is None ==> *final(pos) == *old(pos) && d
            == Decision::Continue,
        resolved matches Some(t) ==> (!target_destroyed ==> {
            &&& *final(pos) == walked(*old(pos), t, movement_speed, dt_ms)
            &&& d == if close_enough(walked(*old(pos), t, movement_speed, dt_ms), t) {
                Decision::Gather(target, HARVEST_DURATION_MS)
            } else {
                Decision::Continue
            }
        }),
{
    if target_destroyed {
        return Decision::Finished;
    }
    match resolved {
        None => Decision::Continue,
        Some(t) => {
            walk_to(pos, &t, movement_speed, dt_ms);
            if dist_sq_exec(pos, &t) < CLOSE_ENOUGH_DISTANCE * CLOSE_ENOUGH_DISTANCE {
                Decision::Gather(target, HARVEST_DURATION_MS)
            } else {
                Decision::Continue
            }
        },
    }
}

/// One tick of `Harvesting`: drain the target's health at the agent's
/// harvesting speed. Completion is owed to the accumulated progress alone
/// (or to an external destroyed notification, handled by the interruption
/// pass): the routine emits `Finished` exactly when the progress is
/// complete.
pub fn fsm_update_harvesting(
    progress: &TaskProgress,
    target: &mut Harvestable,
    harvesting_speed: u64,
    dt_ms: u64,
) -> (d: Decision)
    ensures
        final(target).health == spec_drained(old(target).health, harvesting_speed, dt_ms),
        final(target).deathmarked == old(target).deathmarked,
        d == if progress.spec_complete() {
            Decision::Finished
        } else {
            Decision::Continue
        },
{
    target.drain(harvesting_speed, dt_ms);
    if progress.is_complete() {
        Decision::Finished
    } else {
        Decision::Continue
    }
}

/// One tick of `PickingUp`: steer toward the resolved pile. On arrival,
/// pick a uniformly random delivery destination, request a held pile
/// carrying the pile's full quantity under the world-chosen id `new_held`,
/// request the original pile's despawn, and ask to transition directly to
/// `BringingTo`. A pile that has disappeared emits `Finished`; with no
/// destination in the world the agent waits in place.
pub fn fsm_update_picking_up(
    pos: &mut Pos,
    target: EntityId,
    movement_speed: u64,
    dt_ms: u64,
    resolved: Option<(Pos, u32)>,
    huts: &Vec<(EntityId, Pos)>,
    new_held: EntityId,
) -> (r: (Decision, Vec<Effect>))
    requires
        old(pos).wf(),
        resolved matches Some(p) ==> p.0.wf(),
    ensures
        final(pos).wf(),
        resolved is None ==> *final(pos) == *old(pos) && r.0 == Decision::Finished && r.1@.len()
            == 0,
        resolved matches Some(p) ==> {
            let np = walked(*old(pos), p.0, movement_speed, dt_ms);
            &&& *final(pos) == np
            &&& if close_enough(np, p.0) {
                if huts@.len() == 0 {
                    r.0 == Decision::Continue && r.1@.len() == 0
                } else {
                    &&& (exists|i: int|
                        0 <= i < huts@.len() && r.0 == Decision::BringTo(
                            #[trigger] huts@[i].0,
                            huts@[i].1,
                            Some(new_held),
                        ))
                    &&& r.1@ == seq![
                        Effect::SpawnHeldPile { id: new_held, count: p.1 },
                        Effect::Despawn(target),
                    ]
                }
            } else {
                r.0 == Decision::Continue && r.1@.len() == 0
            }
        },
{
    match resolved {
        None => (Decision::Finished, Vec::new()),
        Some((pile_pos, count)) => {
            walk_to(pos, &pile_pos, movement_speed, dt_ms);
            if dist_sq_exec(pos, &pile_pos) < CLOSE_ENOUGH_DISTANCE * CLOSE_ENOUGH_DISTANCE {
                if huts.len() == 0 {
                    (Decision::Continue, Vec::new())
                } else {
                    let pick = random_below(huts.len() as u64) as usize;
                    let (hut, hut_pos) = huts[pick];
                    let mut effects: Vec<Effect> = Vec::new();
                    effects.push(Effect::SpawnHeldPile { id: new_held, count });
                    effects.push(Effect::Despawn(target));
                    proof {
                        assert(effects@ =~= seq![
                            Effect::SpawnHeldPile { id: new_held, count },
                            Effect::Despawn(target),
                        ]);
                    }
                    (Decision::BringTo(hut, hut_pos, Some(new_held)), effects)
                }
            } else {
                (Decision::Continue, Vec::new())
            }
        },
    }
}

/// One tick of `BringingTo`: steer toward the resolved destination,
/// holding position while it is unresolvable. On arrival, merge any held
/// quantity into the destination's stock and despawn the held reference;
/// either way arrival emits `Finished`.
pub fn fsm_update_bringing_to(
    pos: &mut Pos,
    target: EntityId,
    held: Option<(EntityId, u32)>,
    movement_speed: u64,
    dt_ms: u64,
    resolved: Option<Pos>,
) -> (r: (Decision, Vec<Effect>))
    requires
        old(pos).wf(),
        resolved matches Some(t) ==> t.wf(),
    ensures
        final(pos).wf(),
        resolved is None ==> *final(pos) == *old(pos) && r.0 == Decision::Continue && r.1@.len()
            == 0,
        resolved matches Some(t) ==> {
            let np = walked(*old(pos), t, movement_speed, dt_ms);
            &&& *final(pos) == np
            &&& if close_enough(np, t) {
                &&& r.0 == Decision::Finished
                &&& match held {
                    Some(h) => r.1@ == seq![
                        Effect::Deposit { dest: target, amount: h.1 },
                        Effect::Despawn(h.0),
                    ],
                    None => r.1@.len() == 0,
                }
            } else {
                r.0 == Decision::Continue && r.1@.len() == 0
            }
        },
{
    match resolved {
        None => (Decision::Continue, Vec::new()),
        Some(t) => {
            walk_to(pos, &t, movement_speed, dt_ms);
            if dist_sq_exec(pos, &t) < CLOSE_ENOUGH_DISTANCE * CLOSE_ENOUGH_DISTANCE {
                match held {
                    Some((held_id, amount)) => {
                        let mut effects: Vec<Effect> = Vec::new();
                        effects.push(Effect::Deposit { dest: target, amount });
                        effects.push(Effect::Despawn(held_id));
                        proof {
                            assert(effects@ =~= seq![
                                Effect::Deposit { dest: target, amount },
                                Effect::Despawn(held_id),
                            ]);
                        }
                        (Decision::Finished, effects)
                    },
                    None => (Decision::Finished, Vec::new()),
                }
            } else {
                (Decision::Continue, Vec::new())
            }
        },
    }
}

} // verus!
