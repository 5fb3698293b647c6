use ant_colony::components::{Agent, AntBehaviorState, AntState, FoodSource, Velocity};
use ant_colony::foraging::food_collection_system;
use ant_colony::geometry::{Point, UNIT};
use ant_colony::monitor::PerformanceTracker;

fn agent_at(x: i64, y: i64) -> Agent {
    Agent {
        position: Point { x, y },
        velocity: Velocity { x: 100, y: 100 },
        state: AntState::new(Point { x, y }, 0, 0, 0),
    }
}

#[test]
fn reaching_food_starts_collecting() {
    let mut a = agent_at(0, 0);
    let mut food = vec![FoodSource { position: Point { x: 10 * UNIT, y: 0 }, amount: 5, max_amount: 5 }];
    let mut t = PerformanceTracker::new();
    food_collection_system(&mut a, &mut food, Point { x: -100 * UNIT, y: 0 }, &mut t, 1000, 16, 0);
    assert_eq!(a.state.food_collection_timer, 300);
    assert_eq!(a.velocity, Velocity { x: 0, y: 0 });
    assert_eq!(food[0].amount, 5);
    assert!(!a.state.carrying_food);
}

#[test]
fn empty_or_distant_food_is_ignored() {
    let mut a = agent_at(0, 0);
    let mut food = vec![
        FoodSource { position: Point { x: 10 * UNIT, y: 0 }, amount: 0, max_amount: 5 },
        FoodSource { position: Point { x: 25 * UNIT, y: 0 }, amount: 5, max_amount: 5 },
    ];
    let mut t = PerformanceTracker::new();
    food_collection_system(&mut a, &mut food, Point { x: 0, y: 0 }, &mut t, 1000, 16, 0);
    assert_eq!(a.state.food_collection_timer, 0);
    assert_eq!(a.velocity, Velocity { x: 100, y: 100 });
}

#[test]
fn countdown_end_takes_one_unit_and_heads_home() {
    let mut a = agent_at(0, 0);
    a.state.food_collection_timer = 100;
    let mut food = vec![FoodSource { position: Point { x: 10 * UNIT, y: 0 }, amount: 5, max_amount: 5 }];
    let mut t = PerformanceTracker::new();
    food_collection_system(&mut a, &mut food, Point { x: -100 * UNIT, y: 0 }, &mut t, 4000, 150, 0);
    assert_eq!(food[0].amount, 4);
    assert!(a.state.carrying_food);
    assert!(a.state.has_found_food);
    assert_eq!(a.state.food_pickup_time, 4000);
    assert_eq!(a.state.current_direction, 8);
    assert_eq!(a.velocity, Velocity { x: -85 * UNIT, y: 0 });
    assert_eq!(t.total_food_collected, 1);
    assert_eq!(t.total_food_collected + food[0].amount as u64, 5);
}

#[test]
fn countdown_runs_while_collecting() {
    let mut a = agent_at(0, 0);
    a.state.food_collection_timer = 300;
    let mut food = vec![FoodSource { position: Point { x: 10 * UNIT, y: 0 }, amount: 5, max_amount: 5 }];
    let mut t = PerformanceTracker::new();
    food_collection_system(&mut a, &mut food, Point { x: 0, y: 0 }, &mut t, 4000, 100, 0);
    assert_eq!(a.state.food_collection_timer, 200);
    assert_eq!(a.velocity, Velocity { x: 0, y: 0 });
    assert_eq!(food[0].amount, 5);
}

#[test]
fn delivery_counts_exactly_once() {
    let mut a = agent_at(5 * UNIT, 0);
    a.state.carrying_food = true;
    a.state.food_pickup_time = 1000;
    a.state.food_carry_start_time = 1000;
    a.state.behavior_state = AntBehaviorState::Following;
    let mut food: Vec<FoodSource> = Vec::new();
    let mut t = PerformanceTracker::new();
    food_collection_system(&mut a, &mut food, Point { x: 0, y: 0 }, &mut t, 5000, 16, 20);
    assert!(!a.state.carrying_food);
    assert_eq!(t.successful_deliveries, 1);
    assert_eq!(a.state.successful_deliveries, 1);
    assert_eq!(a.state.delivery_attempts, 1);
    assert_eq!(t.delivery_time_total, 4000);
    assert_eq!(t.average_delivery_time, 4000);
    assert_eq!(t.average_return_time, 4000);
    assert_eq!(t.last_delivery_time, 5000);
    assert_eq!(a.state.behavior_state, AntBehaviorState::Exploring);
    assert_eq!(a.state.current_direction, 4);
    food_collection_system(&mut a, &mut food, Point { x: 0, y: 0 }, &mut t, 5016, 16, 20);
    assert_eq!(t.successful_deliveries, 1);
}

#[test]
fn carrier_away_from_nest_keeps_its_load() {
    let mut a = agent_at(15 * UNIT, 0);
    a.state.carrying_food = true;
    let mut food: Vec<FoodSource> = Vec::new();
    let mut t = PerformanceTracker::new();
    food_collection_system(&mut a, &mut food, Point { x: 0, y: 0 }, &mut t, 5000, 16, 0);
    assert!(a.state.carrying_food);
    assert_eq!(t.successful_deliveries, 0);
}

#[test]
fn mean_delivery_time_over_two() {
    let mut t = PerformanceTracker::new();
    let mut food: Vec<FoodSource> = Vec::new();
    for (pickup, now) in [(1000u64, 2000u64), (1000, 5000)] {
        let mut a = agent_at(0, 0);
        a.state.carrying_food = true;
        a.state.food_pickup_time = pickup;
        a.state.food_carry_start_time = pickup;
        food_collection_system(&mut a, &mut food, Point { x: 0, y: 0 }, &mut t, now, 16, 0);
    }
    assert_eq!(t.successful_deliveries, 2);
    assert_eq!(t.average_delivery_time, 2500);
}
