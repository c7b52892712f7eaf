//! The state/decision/transition algebra of the agent state machine.
//!
//! `transition` is a total pure function over (state, decision, elapsed
//! time); unmatched pairs leave the state unchanged. `is_finished` answers
//! whether the current state is complete, given the agent's position.
//! Targets are weak references: an `EntityId` is a handle into the world's
//! entity table, never assumed to stay valid.

use vstd::prelude::*;

use crate::geometry::Pos;
use crate::geometry::dist_sq;
use crate::geometry::dist_sq_exec;
use crate::progress::TaskProgress;

verus! {

/// Distance (in thousandths of a world unit) strictly below which a
/// positional state counts as reached: a tenth of a world unit.
pub const CLOSE_ENOUGH_DISTANCE: u64 = 100;

/// A weak reference to a world entity: a handle to be re-resolved on every
/// use, never an owning pointer.
#[derive(Clone, Copy, Debug, PartialEq, Eq, Hash, Structural)]
pub struct EntityId(pub u64);

/// An intent fed into the state machine to produce the next state.
/// Positional decisions carry the target entity and its resolved position;
/// timed decisions carry the required duration in milliseconds.
#[derive(Clone, Copy, Debug, PartialEq, Eq)]
pub enum Decision {
    /// Nothing new: keep going.
    Continue,
    /// The current task is complete.
    Finished,
    /// Walk to a generic destination.
    WalkTo(EntityId, Pos),
    /// Start a build of the given duration.
    Build(EntityId, u64),
    /// Walk to a harvestable entity.
    WalkToGather(EntityId, Pos),
    /// Start harvesting for the given duration.
    Gather(EntityId, u64),
    /// Walk to a resource pile, carrying an optional held resource.
    PickUp(EntityId, Pos, Option<EntityId>),
    /// Deliver an optional held resource to a destination.
    BringTo(EntityId, Pos, Option<EntityId>),
}

/// The state of one agent. Every non-idle state carries its target and,
/// for positional states, the target's last resolved position.
#[derive(Clone, Copy, Debug, PartialEq, Eq)]
pub enum FsmState {
    /// No active task.
    Idle,
    /// Moving toward a generic destination.
    WalkingTo { target: EntityId, target_pos: Pos },
    /// Stationary, accumulating time against a required build duration.
    Building { target: EntityId, progress: TaskProgress },
    /// Moving toward a harvestable entity.
    WalkingToHarvest { target: EntityId, target_pos: Pos },
    /// Stationary, draining the target's health until time or the target
    /// runs out.
    Harvesting { target: EntityId, progress: TaskProgress },
    /// Moving toward a droppable resource pile.
    PickingUp { target: EntityId, target_pos: Pos, held: Option<EntityId> },
    /// Moving toward a delivery destination, possibly carrying a held
    /// resource.
    BringingTo { target: EntityId, held: Option<EntityId>, target_pos: Pos },
}

impl FsmState {
    /// Positions carried by the state are well-formed.
    pub open spec fn wf(self) -> bool {
        match self {
            FsmState::Idle => true,
            FsmState::WalkingTo { target_pos, .. } => target_pos.wf(),
            FsmState::Building { .. } => true,
            FsmState::WalkingToHarvest { target_pos, .. } => target_pos.wf(),
            FsmState::Harvesting { .. } => true,
            FsmState::PickingUp { target_pos, .. } => target_pos.wf(),
            FsmState::BringingTo { target_pos, .. } => target_pos.wf(),
        }
    }

    /// The target entity the state is acting upon, if any.
    pub open spec fn spec_target(self) -> Option<EntityId> {
        match self {
            FsmState::Idle => None,
            FsmState::WalkingTo { target, .. } => Some(target),
            FsmState::Building { target, .. } => Some(target),
            FsmState::WalkingToHarvest { target, .. } => Some(target),
            FsmState::Harvesting { target, .. } => Some(target),
            FsmState::PickingUp { target, .. } => Some(target),
            FsmState::BringingTo { target, .. } => Some(target),
        }
    }

    /// The target entity the state is acting upon, if any.
    pub fn target(&self) -> (r: Option<EntityId>)
        ensures
            r == self.spec_target(),
    {
        match self {
            FsmState::Idle => None,
            FsmState::WalkingTo { target, .. } => Some(*target),
            FsmState::Building { target, .. } => Some(*target),
            FsmState::WalkingToHarvest { target, .. } => Some(*target),
            FsmState::Harvesting { target, .. } => Some(*target),
            FsmState::PickingUp { target, .. } => Some(*target),
            FsmState::BringingTo { target, .. } => Some(*target),
        }
    }
}

/// The transition table as a total function: what follows `s` when the
/// decision `d` arrives after `dt_ms` milliseconds.
///
/// `Finished` resets any state to `Idle`. `Idle` starts whichever task the
/// decision asks for. `WalkingTo` may be re-targeted by a new walk
/// decision; `WalkingToHarvest` turns into `Harvesting` on a gather
/// decision; `PickingUp` turns into `BringingTo` on an explicit bring-to
/// request. The time-accumulating states (`Building`, `Harvesting`)
/// advance their progress by `dt_ms` on every other decision, so external
/// decision noise never stalls their timers. All remaining pairs leave the
/// state unchanged.
pub open spec fn spec_transition(s: FsmState, d: Decision, dt_ms: u64) -> FsmState {
    match d {
        Decision::Finished => FsmState::Idle,
        _ => match s {
            FsmState::Idle => match d {
                Decision::WalkTo(e, pos) => FsmState::WalkingTo { target: e, target_pos: pos },
                Decision::Build(e, dur) => FsmState::Building {
                    target: e,
                    progress: TaskProgress { time_needed: dur, time_elapsed: 0 },
                },
                Decision::WalkToGather(e, pos) => FsmState::WalkingToHarvest {
                    target: e,
                    target_pos: pos,
                },
                Decision::Gather(e, dur) => FsmState::Harvesting {
                    target: e,
                    progress: TaskProgress { time_needed: dur, time_elapsed: 0 },
                },
                Decision::PickUp(e, pos, held) => FsmState::PickingUp {
                    target: e,
                    target_pos: pos,
                    held,
                },
                Decision::BringTo(e, pos, held) => FsmState::BringingTo {
                    target: e,
                    held,
                    target_pos: pos,
                },
                _ => s,
            },
            FsmState::WalkingTo { .. } => match d {
                Decision::WalkTo(e, pos) => FsmState::WalkingTo { target: e, target_pos: pos },
                _ => s,
            },
            FsmState::Building { target, progress } => FsmState::Building {
                target,
                progress: TaskProgress {
                    time_needed: progress.time_needed,
                    time_elapsed: (progress.time_elapsed + dt_ms) as u64,
                },
            },
            FsmState::WalkingToHarvest { .. } => match d {
                Decision::Gather(e, dur) => FsmState::Harvesting {
                    target: e,
                    progress: TaskProgress { time_needed: dur, time_elapsed: 0 },
                },
                _ => s,
            },
            FsmState::Harvesting { target, progress } => FsmState::Harvesting {
                target,
                progress: TaskProgress {
                    time_needed: progress.time_needed,
                    time_elapsed: (progress.time_elapsed + dt_ms) as u64,
                },
            },
            FsmState::PickingUp { .. } => match d {
                Decision::BringTo(e, pos, held) => FsmState::BringingTo {
                    target: e,
                    held,
                    target_pos: pos,
                },
                _ => s,
            },
            FsmState::BringingTo { .. } => s,
        },
    }
}

/// The timers of the time-accumulating states stay within machine range
/// for this decision and time step.
pub open spec fn transition_fits(s: FsmState, d: Decision, dt_ms: u64) -> bool {
    !(d is Finished) ==> match s {
        FsmState::Building { progress, .. } => progress.time_elapsed + dt_ms <= u64::MAX,
        FsmState::Harvesting { progress, .. } => progress.time_elapsed + dt_ms <= u64::MAX,
        _ => true,
    }
}

/// Apply one decision to one state after `dt_ms` milliseconds.
pub fn transition(s: FsmState, d: Decision, dt_ms: u64) -> (r: FsmState)
    requires
        transition_fits(s, d, dt_ms),
    ensures
        r == spec_transition(s, d, dt_ms),
{
    if let Decision::Finished = d {
        return FsmState::Idle;
    }
    match s {
        FsmState::Idle => match d {
            Decision::WalkTo(e, pos) => FsmState::WalkingTo { target: e, target_pos: pos },
            Decision::Build(e, dur) => FsmState::Building {
                target: e,
                progress: TaskProgress::new(dur),
            },
            Decision::WalkToGather(e, pos) => FsmState::WalkingToHarvest {
                target: e,
                target_pos: pos,
            },
            Decision::Gather(e, dur) => FsmState::Harvesting {
                target: e,
                progress: TaskProgress::new(dur),
            },
            Decision::PickUp(e, pos, held) => FsmState::PickingUp {
                target: e,
                target_pos: pos,
                held,
            },
            Decision::BringTo(e, pos, held) => FsmState::BringingTo {
                target: e,
                held,
                target_pos: pos,
            },
            _ => s,
        },
        FsmState::WalkingTo { .. } => match d {
            Decision::WalkTo(e, pos) => FsmState::WalkingTo { target: e, target_pos: pos },
            _ => s,
        },
        FsmState::Building { target, progress } => FsmState::Building {
            target,
            progress: progress.advanced(dt_ms),
        },
        FsmState::WalkingToHarvest { .. } => match d {
            Decision::Gather(e, dur) => FsmState::Harvesting {
                target: e,
                progress: TaskProgress::new(dur),
            },
            _ => s,
        },
        FsmState::Harvesting { target, progress } => FsmState::Harvesting {
            target,
            progress: progress.advanced(dt_ms),
        },
        FsmState::PickingUp { .. } => match d {
            Decision::BringTo(e, pos, held) => FsmState::BringingTo {
                target: e,
                held,
                target_pos: pos,
            },
            _ => s,
        },
        FsmState::BringingTo { .. } => s,
    }
}

/// Whether the state is complete, given the agent's current position.
///
/// `Idle` is never finished. The time-accumulating states are finished
/// exactly when their progress is complete, ignoring position. The
/// positional states are finished exactly when the agent is strictly
/// closer than `CLOSE_ENOUGH_DISTANCE` to the carried target position.
pub open spec fn spec_is_finished(s: FsmState, current_pos: Pos) -> bool {
    match s {
        FsmState::Idle => false,
        FsmState::Building { progress, .. } => progress.spec_complete(),
        FsmState::Harvesting { progress, .. } => progress.spec_complete(),
        FsmState::WalkingTo { target_pos, .. } => close_enough(current_pos, target_pos),
        FsmState::WalkingToHarvest { target_pos, .. } => close_enough(current_pos, target_pos),
        FsmState::PickingUp { target_pos, .. } => close_enough(current_pos, target_pos),
        FsmState::BringingTo { target_pos, .. } => close_enough(current_pos, target_pos),
    }
}

/// The Euclidean distance between the points is strictly below
/// `CLOSE_ENOUGH_DISTANCE` (stated over squared distances, which is
/// equivalent since both sides are non-negative).
pub open spec fn close_enough(a: Pos, b: Pos) -> bool {
    dist_sq(a, b) < CLOSE_ENOUGH_DISTANCE * CLOSE_ENOUGH_DISTANCE
}

/// Whether the state is complete, given the agent's current position.
pub fn is_finished(s: &FsmState, current_pos: &Pos) -> (r: bool)
    requires
        s.wf(),
        current_pos.wf(),
    ensures
        r == spec_is_finished(*s, *current_pos),
{
    match s {
        FsmState::Idle => false,
        FsmState::Building { progress, .. } => progress.is_complete(),
        FsmState::Harvesting { progress, .. } => progress.is_complete(),
        FsmState::WalkingTo { target_pos, .. } => {
            dist_sq_exec(current_pos, target_pos) < CLOSE_ENOUGH_DISTANCE * CLOSE_ENOUGH_DISTANCE
        },
        FsmState::WalkingToHarvest { target_pos, .. } => {
            dist_sq_exec(current_pos, target_pos) < CLOSE_ENOUGH_DISTANCE * CLOSE_ENOUGH_DISTANCE
        },
        FsmState::PickingUp { target_pos, .. } => {
            dist_sq_exec(current_pos, target_pos) < CLOSE_ENOUGH_DISTANCE * CLOSE_ENOUGH_DISTANCE
        },
        FsmState::BringingTo { target_pos, .. } => {
            dist_sq_exec(current_pos, target_pos) < CLOSE_ENOUGH_DISTANCE * CLOSE_ENOUGH_DISTANCE
        },
    }
}

/// A `Finished` decision resets every state to `Idle`.
pub proof fn lemma_finished_yields_idle(s: FsmState, dt_ms: u64)
    ensures
        spec_transition(s, Decision::Finished, dt_ms) == FsmState::Idle,
{
}

/// For any decision other than `Finished`, a time-accumulating state keeps
/// its variant, target and required duration, and its elapsed time grows
/// by exactly the time step.
pub proof fn lemma_time_states_accumulate(s: FsmState, d: Decision, dt_ms: u64)
    requires
        !(d is Finished),
        transition_fits(s, d, dt_ms),
    ensures
        s matches FsmState::Building { target, progress } ==> spec_transition(s, d, dt_ms)
            == (FsmState::Building {
            target,
            progress: TaskProgress {
                time_needed: progress.time_needed,
                time_elapsed: (progress.time_elapsed + dt_ms) as u64,
            },
        }),
        s matches FsmState::Harvesting { target, progress } ==> spec_transition(s, d, dt_ms)
            == (FsmState::Harvesting {
            target,
            progress: TaskProgress {
                time_needed: progress.time_needed,
                time_elapsed: (progress.time_elapsed + dt_ms) as u64,
            },
        }),
{
}

/// The state after applying `Continue` to `s` for `n` consecutive ticks.
pub open spec fn iterate_continue(s: FsmState, dt_ms: u64, n: nat) -> FsmState
    decreases n,
{
    if n == 0 {
        s
    } else {
        spec_transition(iterate_continue(s, dt_ms, (n - 1) as nat), Decision::Continue, dt_ms)
    }
}

/// Applying `Continue` to `Idle` any number of times never changes the
/// state.
pub proof fn lemma_idle_continue_idempotent(dt_ms: u64, n: nat)
    ensures
        iterate_continue(FsmState::Idle, dt_ms, n) == FsmState::Idle,
    decreases n,
{
    if n > 0 {
        lemma_idle_continue_idempotent(dt_ms, (n - 1) as nat);
    }
}

} // verus!
