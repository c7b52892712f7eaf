//! The decision policy for idle agents.
//!
//! One weighted action class is drawn per tick and shared by every idle
//! agent in that tick; each agent then resolves its own target: a
//! uniformly random destination or harvestable, or the nearest resource
//! pile. An agent whose drawn class has no candidate stays idle this tick.

use vstd::prelude::*;

use crate::fsm::Decision;
use crate::fsm::EntityId;
use crate::geometry::Pos;
use crate::geometry::dist_sq;
use crate::geometry::dist_sq_exec;
use crate::rng::random_below;

verus! {

/// Weight of drawing a walk to a house.
pub const WALK_TO_HOUSE_WEIGHT: u64 = 1;

/// Weight of drawing a tree-chopping task.
pub const CHOP_TREE_WEIGHT: u64 = 2;

/// Weight of drawing a wood pickup.
pub const PICK_UP_WOOD_WEIGHT: u64 = 3;

/// Sum of the three action weights.
pub const TOTAL_DECISION_WEIGHT: u64 = 6;

/// The classes of action an idle agent can draw.
#[derive(Clone, Copy, Debug, PartialEq, Eq, Structural)]
pub enum ActionClass {
    /// Walk to a random destination.
    WalkToHouse,
    /// Walk to a random harvestable and gather it.
    ChopTree,
    /// Pick up the nearest resource pile.
    PickUpWood,
}

/// The action class that a uniform draw in `[0, TOTAL_DECISION_WEIGHT)`
/// selects: draws are apportioned to the classes by their weights, so a
/// class with weight `w` is selected by exactly `w` of the possible draws.
pub open spec fn spec_action_of_draw(r: u64) -> ActionClass {
    if r < WALK_TO_HOUSE_WEIGHT {
        ActionClass::WalkToHouse
    } else if r < WALK_TO_HOUSE_WEIGHT + CHOP_TREE_WEIGHT {
        ActionClass::ChopTree
    } else {
        ActionClass::PickUpWood
    }
}

/// Map a uniform draw to its action class.
pub fn action_of_draw(r: u64) -> (c: ActionClass)
    requires
        r < TOTAL_DECISION_WEIGHT,
    ensures
        c == spec_action_of_draw(r),
{
    if r < WALK_TO_HOUSE_WEIGHT {
        ActionClass::WalkToHouse
    } else if r < WALK_TO_HOUSE_WEIGHT + CHOP_TREE_WEIGHT {
        ActionClass::ChopTree
    } else {
        ActionClass::PickUpWood
    }
}

/// Of the `TOTAL_DECISION_WEIGHT` equally likely draws, exactly one
/// selects `WalkToHouse`, exactly two select `ChopTree` and exactly three
/// select `PickUpWood`: the configured 1:2:3 ratio.
pub proof fn lemma_weighted_ratio(r: u64)
    requires
        r < TOTAL_DECISION_WEIGHT,
    ensures
        (spec_action_of_draw(r) is WalkToHouse) <==> r < 1,
        (spec_action_of_draw(r) is ChopTree) <==> 1 <= r < 3,
        (spec_action_of_draw(r) is PickUpWood) <==> 3 <= r < 6,
{
}

/// Draw this tick's action class with the configured weights.
pub fn draw_action_class() -> (c: ActionClass)
    ensures
        exists|r: u64| r < TOTAL_DECISION_WEIGHT && c == spec_action_of_draw(r),
{
    let r = random_below(TOTAL_DECISION_WEIGHT);
    let c = action_of_draw(r);
    proof {
        assert(r < TOTAL_DECISION_WEIGHT && c == spec_action_of_draw(r));
    }
    c
}

/// `i` indexes the candidate nearest to `from`, with ties broken in favor
/// of the earliest candidate.
pub open spec fn is_nearest(from: Pos, cands: Seq<(EntityId, Pos)>, i: int) -> bool {
    &&& 0 <= i < cands.len()
    &&& forall|j: int|
        0 <= j < cands.len() ==> dist_sq(from, cands[i].1) <= dist_sq(from, cands[j].1)
    &&& forall|j: int| 0 <= j < i ==> dist_sq(from, cands[j].1) > dist_sq(from, cands[i].1)
}

/// All carried positions are well-formed.
pub open spec fn all_wf(cands: Seq<(EntityId, Pos)>) -> bool {
    forall|i: int| 0 <= i < cands.len() ==> (#[trigger] cands[i].1).wf()
}

/// The index of the candidate nearest to `from` by Euclidean distance,
/// ties broken by selection order, or nothing if there are no candidates.
pub fn nearest_index(from: &Pos, cands: &Vec<(EntityId, Pos)>) -> (r: Option<usize>)
    requires
        from.wf(),
        all_wf(cands@),
    ensures
        r is None <==> cands@.len() == 0,
        r matches Some(i) ==> is_nearest(*from, cands@, i as int),
{
    if cands.len() == 0 {
        return None;
    }
    let mut best: usize = 0;
    let mut best_d: u64 = dist_sq_exec(from, &cands[0].1);
    let mut k: usize = 1;
    while k < cands.len()
        invariant
            from.wf(),
            all_wf(cands@),
            1 <= k <= cands@.len(),
            best < k,
            best_d == dist_sq(*from, cands@[best as int].1),
            forall|j: int| 0 <= j < k ==> best_d <= dist_sq(*from, cands@[j].1),
            forall|j: int| 0 <= j < best ==> dist_sq(*from, cands@[j].1) > best_d,
        decreases cands@.len() - k,
    {
        let d: u64 = dist_sq_exec(from, &cands[k].1);
        if d < best_d {
            best = k;
            best_d = d;
        }
        k = k + 1;
    }
    Some(best)
}

/// The deterministic core of the idle policy: the decision that follows
/// from the drawn class and, for the uniformly random classes, the drawn
/// candidate index. An empty candidate set yields no decision.
pub fn decide_for_idle(
    class: ActionClass,
    agent_pos: &Pos,
    houses: &Vec<(EntityId, Pos)>,
    trees: &Vec<(EntityId, Pos)>,
    piles: &Vec<(EntityId, Pos)>,
    pick: usize,
) -> (r: Option<Decision>)
    requires
        agent_pos.wf(),
        all_wf(houses@),
        all_wf(trees@),
        all_wf(piles@),
        class is WalkToHouse && houses@.len() > 0 ==> pick < houses@.len(),
        class is ChopTree && trees@.len() > 0 ==> pick < trees@.len(),
    ensures
        class is WalkToHouse ==> r == if houses@.len() == 0 {
            Option::<Decision>::None
        } else {
            Option::Some(Decision::WalkTo(houses@[pick as int].0, houses@[pick as int].1))
        },
        class is ChopTree ==> r == if trees@.len() == 0 {
            Option::<Decision>::None
        } else {
            Option::Some(Decision::WalkToGather(trees@[pick as int].0, trees@[pick as int].1))
        },
        class is PickUpWood ==> {
            &&& (r is None <==> piles@.len() == 0)
            &&& (r matches Some(d) ==> exists|i: int|
                #[trigger] is_nearest(*agent_pos, piles@, i) && d == Decision::PickUp(
                    piles@[i].0,
                    piles@[i].1,
                    None,
                ))
        },
{
    match class {
        ActionClass::WalkToHouse => {
            if houses.len() == 0 {
                None
            } else {
                let (e, pos) = houses[pick];
                Some(Decision::WalkTo(e, pos))
            }
        },
        ActionClass::ChopTree => {
            if trees.len() == 0 {
                None
            } else {
                let (e, pos) = trees[pick];
                Some(Decision::WalkToGather(e, pos))
            }
        },
        ActionClass::PickUpWood => {
            match nearest_index(agent_pos, piles) {
                None => None,
                Some(i) => {
                    let (e, pos) = piles[i];
                    Some(Decision::PickUp(e, pos, None))
                },
            }
        },
    }
}

/// The idle update: resolve this tick's shared action class to a concrete
/// decision for one agent, drawing the agent's own random target where the
/// class calls for one. Reads positions only; mutates nothing.
pub fn fsm_update_idle(
    class: ActionClass,
    agent_pos: &Pos,
    houses: &Vec<(EntityId, Pos)>,
    trees: &Vec<(EntityId, Pos)>,
    piles: &Vec<(EntityId, Pos)>,
) -> (r: Option<Decision>)
    requires
        agent_pos.wf(),
        all_wf(houses@),
        all_wf(trees@),
        all_wf(piles@),
    ensures
        class is WalkToHouse ==> {
            &&& (r is None <==> houses@.len() == 0)
            &&& (r matches Some(d) ==> exists|i: int|
                0 <= i < houses@.len() && d == Decision::WalkTo(
                    #[trigger] houses@[i].0,
                    houses@[i].1,
                ))
        },
        class is ChopTree ==> {
            &&& (r is None <==> trees@.len() == 0)
            &&& (r matches Some(d) ==> exists|i: int|
                0 <= i < trees@.len() && d == Decision::WalkToGather(
                    #[trigger] trees@[i].0,
                    trees@[i].1,
                ))
        },
        class is PickUpWood ==> {
            &&& (r is None <==> piles@.len() == 0)
            &&& (r matches Some(d) ==> exists|i: int|
                #[trigger] is_nearest(*agent_pos, piles@, i) && d == Decision::PickUp(
                    piles@[i].0,
                    piles@[i].1,
                    None,
                ))
        },
{
    let pick: usize = match class {
        ActionClass::WalkToHouse => {
            if houses.len() == 0 {
                0
            } else {
                random_below(houses.len() as u64) as usize
            }
        },
        ActionClass::ChopTree => {
            if trees.len() == 0 {
                0
            } else {
                random_below(trees.len() as u64) as usize
            }
        },
        ActionClass::PickUpWood => 0,
    };
    decide_for_idle(class, agent_pos, houses, trees, piles, pick)
}

} // verus!
