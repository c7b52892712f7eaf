//! The idle decision policy: weighted draw, target resolution, tie-breaks.

use villagers::fsm::{Decision, EntityId};
use villagers::geometry::Pos;
use villagers::policy::{
    action_of_draw, decide_for_idle, draw_action_class, fsm_update_idle, nearest_index,
    ActionClass, TOTAL_DECISION_WEIGHT,
};

fn pos(x: i64, y: i64, z: i64) -> Pos {
    Pos { x, y, z }
}

#[test]
fn draws_are_apportioned_one_two_three() {
    assert_eq!(action_of_draw(0), ActionClass::WalkToHouse);
    assert_eq!(action_of_draw(1), ActionClass::ChopTree);
    assert_eq!(action_of_draw(2), ActionClass::ChopTree);
    assert_eq!(action_of_draw(3), ActionClass::PickUpWood);
    assert_eq!(action_of_draw(4), ActionClass::PickUpWood);
    assert_eq!(action_of_draw(5), ActionClass::PickUpWood);
    assert_eq!(TOTAL_DECISION_WEIGHT, 6);
}

#[test]
fn weighted_distribution_converges_to_the_configured_ratio() {
    let trials = 10_000;
    let mut counts = [0u32; 3];
    for _ in 0..trials {
        match draw_action_class() {
            ActionClass::WalkToHouse => counts[0] += 1,
            ActionClass::ChopTree => counts[1] += 1,
            ActionClass::PickUpWood => counts[2] += 1,
        }
    }
    let expected = [
        trials as f64 / 6.0,
        trials as f64 * 2.0 / 6.0,
        trials as f64 * 3.0 / 6.0,
    ];
    // each observed share within three percentage points of its weight share
    for k in 0..3 {
        let diff = (counts[k] as f64 - expected[k]).abs();
        assert!(
            diff < 0.03 * trials as f64,
            "class {} drawn {} times, expected about {}",
            k,
            counts[k],
            expected[k]
        );
    }
}

#[test]
fn nearest_pile_wins_and_ties_go_to_the_first() {
    let agent = pos(0, 0, 0);
    let piles = vec![
        (EntityId(1), pos(3000, 0, 0)),
        (EntityId(2), pos(1000, 0, 0)),
        (EntityId(3), pos(0, 0, 1000)), // same distance as pile 2
        (EntityId(4), pos(2000, 0, 0)),
    ];
    assert_eq!(nearest_index(&agent, &piles), Some(1));
    assert_eq!(nearest_index(&agent, &Vec::new()), None);
}

#[test]
fn decide_for_idle_resolves_each_class() {
    let agent = pos(0, 0, 0);
    let houses = vec![(EntityId(10), pos(3000, 0, 1000)), (EntityId(11), pos(-2000, 0, 0))];
    let trees = vec![(EntityId(20), pos(2000, 0, 0))];
    let piles = vec![(EntityId(30), pos(5000, 0, 0)), (EntityId(31), pos(500, 0, 0))];

    assert_eq!(
        decide_for_idle(ActionClass::WalkToHouse, &agent, &houses, &trees, &piles, 1),
        Some(Decision::WalkTo(EntityId(11), pos(-2000, 0, 0)))
    );
    assert_eq!(
        decide_for_idle(ActionClass::ChopTree, &agent, &houses, &trees, &piles, 0),
        Some(Decision::WalkToGather(EntityId(20), pos(2000, 0, 0)))
    );
    // the pile pick ignores the drawn index and takes the nearest
    assert_eq!(
        decide_for_idle(ActionClass::PickUpWood, &agent, &houses, &trees, &piles, 0),
        Some(Decision::PickUp(EntityId(31), pos(500, 0, 0), None))
    );
}

#[test]
fn empty_candidate_sets_skip_the_decision() {
    let agent = pos(0, 0, 0);
    let none: Vec<(EntityId, Pos)> = Vec::new();
    let some = vec![(EntityId(1), pos(1000, 0, 0))];
    assert_eq!(
        decide_for_idle(ActionClass::WalkToHouse, &agent, &none, &some, &some, 0),
        None
    );
    assert_eq!(
        decide_for_idle(ActionClass::ChopTree, &agent, &some, &none, &some, 0),
        None
    );
    assert_eq!(
        decide_for_idle(ActionClass::PickUpWood, &agent, &some, &some, &none, 0),
        None
    );
}

#[test]
fn idle_update_emits_a_decision_of_the_drawn_class() {
    let agent = pos(0, 0, 0);
    let houses = vec![(EntityId(10), pos(3000, 0, 1000))];
    let trees = vec![(EntityId(20), pos(2000, 0, 0)), (EntityId(21), pos(0, 0, 4000))];
    let piles = vec![(EntityId(30), pos(500, 0, 0))];
    for _ in 0..50 {
        match fsm_update_idle(ActionClass::ChopTree, &agent, &houses, &trees, &piles) {
            Some(Decision::WalkToGather(e, _)) => {
                assert!(e == EntityId(20) || e == EntityId(21));
            }
            other => panic!("expected a gather walk, got {:?}", other),
        }
    }
    assert_eq!(
        fsm_update_idle(ActionClass::PickUpWood, &agent, &houses, &trees, &piles),
        Some(Decision::PickUp(EntityId(30), pos(500, 0, 0), None))
    );
    let no_piles: Vec<(EntityId, Pos)> = Vec::new();
    assert_eq!(
        fsm_update_idle(ActionClass::PickUpWood, &agent, &houses, &trees, &no_piles),
        None
    );
}
