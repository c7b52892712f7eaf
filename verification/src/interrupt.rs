//! The interruption pass.
//!
//! Once per tick, after the normal updates, every agent whose current
//! target was removed from the world this tick is forced back to idle,
//! bypassing the transition table. This is the system's only
//! externally-triggered state override, and it keeps agents from steering
//! forever toward a point that no longer exists.

use vstd::prelude::*;

use crate::fsm::EntityId;
use crate::fsm::FsmState;

verus! {

/// The state after the interruption pass: idle if the state's target is
/// among the entities removed this tick, unchanged otherwise.
pub open spec fn spec_interrupted(s: FsmState, removed: Seq<EntityId>) -> FsmState {
    if exists|i: int| 0 <= i < removed.len() && s.spec_target() == Some(#[trigger] removed[i]) {
        FsmState::Idle
    } else {
        s
    }
}

/// Force an agent back to idle if its current target is among the entities
/// removed this tick.
pub fn force_idle_on_removed(s: FsmState, removed: &Vec<EntityId>) -> (r: FsmState)
    ensures
        r == spec_interrupted(s, removed@),
{
    match s.target() {
        None => s,
        Some(t) => {
            let mut k: usize = 0;
            while k < removed.len()
                invariant
                    k <= removed@.len(),
                    s.spec_target() == Some(t),
                    forall|j: int| 0 <= j < k ==> #[trigger] removed@[j] != t,
                decreases removed@.len() - k,
            {
                if removed[k] == t {
                    return FsmState::Idle;
                }
                k = k + 1;
            }
            s
        },
    }
}

/// The interruption pass may only ever idle an agent: it never invents any
/// other state.
pub proof fn lemma_interruption_only_idles(s: FsmState, removed: Seq<EntityId>)
    ensures
        spec_interrupted(s, removed) == s || spec_interrupted(s, removed) == FsmState::Idle,
{
}

/// An agent whose target survives the tick is untouched by the
/// interruption pass.
pub proof fn lemma_interruption_keeps_unaffected(s: FsmState, removed: Seq<EntityId>)
    requires
        forall|i: int| 0 <= i < removed.len() ==> s.spec_target() != Some(#[trigger] removed[i]),
    ensures
        spec_interrupted(s, removed) == s,
{
}

} // verus!
