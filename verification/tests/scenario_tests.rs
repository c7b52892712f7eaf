//! Whole-task scenarios: decision, walk, arrival, effects, reset.

use villagers::fsm::{transition, Decision, EntityId, FsmState};
use villagers::geometry::Pos;
use villagers::harvest::{check_harvestable_destroyed, Harvestable};
use villagers::interrupt::force_idle_on_removed;
use villagers::policy::{decide_for_idle, ActionClass};
use villagers::progress::TaskProgress;
use villagers::updates::{
    fsm_update_bringing_to, fsm_update_picking_up, fsm_update_walking_to,
    fsm_update_walking_to_harvest, Effect, HARVEST_DURATION_MS,
};
use villagers::villager::{Villager, HARVESTING_SPEED, MOVEMENT_SPEED};

fn pos(x: i64, y: i64, z: i64) -> Pos {
    Pos { x, y, z }
}

const DT: u64 = 100; // milliseconds per tick

/// An idle agent draws the chop-tree class with one harvestable two units
/// away, walks up at three units per second, and starts harvesting with a
/// fresh timer of the fixed gather duration.
#[test]
fn chop_tree_from_idle_to_harvesting() {
    let tree = EntityId(42);
    let tree_pos = pos(2000, 0, 0);
    let mut agent = pos(0, 0, 0);
    let villager = Villager::new();
    assert_eq!(villager.movement_speed, MOVEMENT_SPEED);

    let none: Vec<(EntityId, Pos)> = Vec::new();
    let trees = vec![(tree, tree_pos)];
    let decision =
        decide_for_idle(ActionClass::ChopTree, &agent, &none, &trees, &none, 0).unwrap();
    assert_eq!(decision, Decision::WalkToGather(tree, tree_pos));

    let mut state = transition(FsmState::Idle, decision, DT);
    assert_eq!(state, FsmState::WalkingToHarvest { target: tree, target_pos: tree_pos });

    // 0.3 units per tick over 2 units: six full steps, then arrival
    let mut ticks = 0;
    loop {
        let d = fsm_update_walking_to_harvest(
            &mut agent,
            tree,
            villager.movement_speed,
            DT,
            Some(tree_pos),
            false,
        );
        state = transition(state, d, DT);
        ticks += 1;
        if state != (FsmState::WalkingToHarvest { target: tree, target_pos: tree_pos }) {
            break;
        }
        assert!(ticks < 100, "never arrived");
    }
    assert_eq!(ticks, 7);
    assert_eq!(agent, tree_pos);
    assert_eq!(
        state,
        FsmState::Harvesting {
            target: tree,
            progress: TaskProgress { time_needed: HARVEST_DURATION_MS, time_elapsed: 0 }
        }
    );
}

/// A harvesting agent whose target is reported destroyed before the timer
/// runs out is forced to idle by the interruption pass, not by a finished
/// transition.
#[test]
fn destroyed_target_interrupts_harvesting() {
    let tree = EntityId(42);
    let mut node = Harvestable { health: 50, deathmarked: false };
    let state = FsmState::Harvesting {
        target: tree,
        progress: TaskProgress { time_needed: HARVEST_DURATION_MS, time_elapsed: 200 },
    };

    // another agent drains the node to zero; the world's check broadcasts
    node.drain(HARVESTING_SPEED, 100);
    assert_eq!(node.health, 0);
    let mut removed: Vec<EntityId> = Vec::new();
    if check_harvestable_destroyed(&mut node) {
        removed.push(tree);
    }
    assert_eq!(removed, vec![tree]);

    // the timer had not run out, yet the agent is idled by the override
    assert_eq!(force_idle_on_removed(state, &removed), FsmState::Idle);

    // an agent working a different target is untouched
    let other = FsmState::Harvesting {
        target: EntityId(7),
        progress: TaskProgress { time_needed: HARVEST_DURATION_MS, time_elapsed: 200 },
    };
    assert_eq!(force_idle_on_removed(other, &removed), other);
}

/// A picking-up agent that reaches a pile of quantity three gets a held
/// pile of quantity three, the world pile is despawned, and the agent goes
/// straight to bringing-to.
#[test]
fn pickup_hands_over_to_bringing_to() {
    let pile = EntityId(5);
    let pile_pos = pos(80, 0, 0);
    let hut = EntityId(6);
    let hut_pos = pos(4000, 0, 0);
    let held = EntityId(77);
    let mut agent = pos(0, 0, 0);

    let state = FsmState::PickingUp { target: pile, target_pos: pile_pos, held: None };
    let huts = vec![(hut, hut_pos)];
    let (d, effects) = fsm_update_picking_up(
        &mut agent,
        pile,
        MOVEMENT_SPEED,
        DT,
        Some((pile_pos, 3)),
        &huts,
        held,
    );
    assert_eq!(agent, pile_pos); // one step of 0.3 units covers 0.08
    assert_eq!(d, Decision::BringTo(hut, hut_pos, Some(held)));
    assert_eq!(
        effects,
        vec![
            Effect::SpawnHeldPile { id: held, count: 3 },
            Effect::Despawn(pile),
        ]
    );
    assert_eq!(
        transition(state, d, DT),
        FsmState::BringingTo { target: hut, held: Some(held), target_pos: hut_pos }
    );
}

/// A pile that disappeared before arrival finishes the pickup, forcing
/// idle through the normal transition.
#[test]
fn pickup_of_a_vanished_pile_finishes() {
    let pile = EntityId(5);
    let mut agent = pos(0, 0, 0);
    let state = FsmState::PickingUp { target: pile, target_pos: pos(80, 0, 0), held: None };
    let huts = vec![(EntityId(6), pos(4000, 0, 0))];
    let (d, effects) =
        fsm_update_picking_up(&mut agent, pile, MOVEMENT_SPEED, DT, None, &huts, EntityId(77));
    assert_eq!(agent, pos(0, 0, 0));
    assert_eq!(d, Decision::Finished);
    assert!(effects.is_empty());
    assert_eq!(transition(state, d, DT), FsmState::Idle);
}

/// A delivering agent that reaches its destination with five held logs
/// deposits all five, despawns the held reference, and goes idle.
#[test]
fn delivery_deposits_and_idles() {
    let dest = EntityId(6);
    let dest_pos = pos(50, 0, 0);
    let held = EntityId(77);
    let mut agent = pos(0, 0, 0);
    let state = FsmState::BringingTo { target: dest, held: Some(held), target_pos: dest_pos };

    let (d, effects) = fsm_update_bringing_to(
        &mut agent,
        dest,
        Some((held, 5)),
        MOVEMENT_SPEED,
        DT,
        Some(dest_pos),
    );
    assert_eq!(agent, dest_pos);
    assert_eq!(d, Decision::Finished);
    assert_eq!(
        effects,
        vec![
            Effect::Deposit { dest, amount: 5 },
            Effect::Despawn(held),
        ]
    );

    // the destination's stock grows by the delivered amount
    let mut stock: u32 = 2;
    for e in &effects {
        if let Effect::Deposit { dest: d, amount } = e {
            assert_eq!(*d, dest);
            stock += amount;
        }
    }
    assert_eq!(stock, 7);
    assert_eq!(transition(state, d, DT), FsmState::Idle);
}

/// A walking agent whose target cannot be resolved holds position and
/// keeps waiting.
#[test]
fn unresolvable_target_is_a_soft_stall() {
    let mut agent = pos(123, 0, 456);
    let d = fsm_update_walking_to(&mut agent, EntityId(9), MOVEMENT_SPEED, DT, None);
    assert_eq!(agent, pos(123, 0, 456));
    assert_eq!(d, Decision::Continue);
}

/// A walking agent that arrives finishes; short of that it re-targets with
/// the freshly resolved position.
#[test]
fn walking_to_finishes_on_arrival() {
    let house = EntityId(9);
    let house_pos = pos(600, 0, 0);
    let mut agent = pos(0, 0, 0);
    let mut state = FsmState::WalkingTo { target: house, target_pos: house_pos };
    let mut ticks = 0;
    while state != FsmState::Idle {
        let d = fsm_update_walking_to(&mut agent, house, MOVEMENT_SPEED, DT, Some(house_pos));
        state = transition(state, d, DT);
        ticks += 1;
        assert!(ticks < 100, "never arrived");
    }
    assert_eq!(ticks, 2);
    assert_eq!(agent, house_pos);
}
