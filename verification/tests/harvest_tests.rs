//! Harvestables, the deathmark, and the wood piles they drop.

use villagers::fsm::Decision;
use villagers::harvest::{
    check_harvestable_destroyed, should_grow_tree, Harvestable, TREE_HEALTH,
};
use villagers::progress::TaskProgress;
use villagers::updates::fsm_update_harvesting;
use villagers::villager::HARVESTING_SPEED;
use villagers::wood::{
    draw_wood_drop_count, spawned_wood_count, wood_stack_visibility, WoodPile, MAX_WOOD_DROP,
};

#[test]
fn draining_subtracts_speed_times_time() {
    let mut node = Harvestable::new_tree();
    assert_eq!(node.health, TREE_HEALTH);
    // one unit per second for 100 ms drains a tenth of a unit
    node.drain(HARVESTING_SPEED, 100);
    assert_eq!(node.health, TREE_HEALTH - 100);
    // never below zero
    node.drain(HARVESTING_SPEED, 1_000_000);
    assert_eq!(node.health, 0);
}

#[test]
fn destroy_notification_fires_exactly_once() {
    let mut node = Harvestable { health: 0, deathmarked: false };
    assert!(check_harvestable_destroyed(&mut node));
    assert!(node.deathmarked);
    assert!(!check_harvestable_destroyed(&mut node));
    assert!(!check_harvestable_destroyed(&mut node));

    // a live node is neither marked nor announced
    let mut live = Harvestable { health: 5, deathmarked: false };
    assert!(!check_harvestable_destroyed(&mut live));
    assert!(!live.deathmarked);
}

#[test]
fn harvesting_update_drains_and_reports_timer_completion() {
    let mut node = Harvestable::new_tree();
    let running = TaskProgress { time_needed: 700, time_elapsed: 600 };
    let d = fsm_update_harvesting(&running, &mut node, HARVESTING_SPEED, 100);
    assert_eq!(node.health, TREE_HEALTH - 100);
    assert_eq!(d, Decision::Continue);

    let done = TaskProgress { time_needed: 700, time_elapsed: 700 };
    let d = fsm_update_harvesting(&done, &mut node, HARVESTING_SPEED, 100);
    assert_eq!(node.health, TREE_HEALTH - 200);
    assert_eq!(d, Decision::Finished);
}

#[test]
fn a_tick_of_no_time_grows_nothing() {
    for _ in 0..100 {
        assert!(!should_grow_tree(0));
    }
}

#[test]
fn wood_drops_stay_in_range() {
    let mut seen = [false; 5];
    for _ in 0..1000 {
        let c = draw_wood_drop_count();
        assert!(1 <= c && c as u64 <= MAX_WOOD_DROP);
        seen[(c - 1) as usize] = true;
    }
    // a thousand draws all but surely hit every count once
    assert!(seen.iter().all(|s| *s));
}

#[test]
fn four_logs_spawn_as_three() {
    assert_eq!(spawned_wood_count(4), 3);
    for c in [0u32, 1, 2, 3, 5, 6] {
        assert_eq!(spawned_wood_count(c), c);
    }
    assert_eq!(WoodPile::new(3).count, 3);
}

#[test]
fn stack_visibility_shows_the_first_count_models() {
    let vis = wood_stack_visibility(3, 5);
    assert_eq!(vis, vec![true, true, true, false, false]);
    assert_eq!(wood_stack_visibility(0, 2), vec![false, false]);
    assert_eq!(wood_stack_visibility(9, 2), vec![true, true]);
    assert_eq!(wood_stack_visibility(1, 0), Vec::<bool>::new());
}
