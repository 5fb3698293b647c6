use ant_colony::geometry::{Point, UNIT};
use ant_colony::swarm::{
    analyze_local_swarm_intelligence, calculate_collective_intelligence_bonus, count_crowding, discount_for_crowding,
    least_traffic_heading, should_use_collective_exploration, Neighbor, SwarmContext,
};

fn blank() -> SwarmContext {
    SwarmContext {
        ant_density: 0,
        failing: 0,
        successful_by_heading: [0; 16],
        away_from_failures: 0,
        traffic_by_heading: [0; 16],
        local_failure_rate: 0,
        collective_confidence: 500,
        should_use_collective_exploration: false,
        least_explored_direction: 0,
        suggested_exploration_direction: 0,
        exploration_pressure: 0,
    }
}

fn at(x: i64, y: i64, deliveries: u32) -> Neighbor {
    Neighbor { position: Point { x: x * UNIT, y: y * UNIT }, carrying_food: false, successful_deliveries: deliveries }
}

#[test]
fn neighbourhood_statistics() {
    let snapshot = vec![at(0, 0, 0), at(10, 0, 2), at(0, 20, 0), at(100, 0, 3)];
    let c = analyze_local_swarm_intelligence(&snapshot, 0, 0, 0);
    assert_eq!(c.ant_density, 2);
    assert_eq!(c.failing, 1);
    assert_eq!(c.successful_by_heading[0], 1);
    assert_eq!(c.successful_by_heading.iter().sum::<u64>(), 1);
    assert_eq!(c.away_from_failures, 12);
    assert_eq!(c.traffic_by_heading[0], 1);
    assert_eq!(c.traffic_by_heading[4], 1);
    assert_eq!(c.traffic_by_heading.iter().sum::<u64>(), 2);
    assert_eq!(c.local_failure_rate, 500);
    assert_eq!(c.collective_confidence, 500);
    assert!(!c.should_use_collective_exploration);
    assert_eq!(c.exploration_pressure, 0);
}

#[test]
fn neighbours_at_exactly_sixty_units_count() {
    let snapshot = vec![at(0, 0, 0), at(60, 0, 1), at(0, 61, 0)];
    let c = analyze_local_swarm_intelligence(&snapshot, 0, 0, 0);
    assert_eq!(c.ant_density, 1);
    assert_eq!(c.collective_confidence, 1000);
    assert_eq!(c.local_failure_rate, 0);
}

#[test]
fn failing_crowd_explores_the_quiet_sector() {
    let snapshot = vec![at(0, 0, 0), at(10, 0, 0), at(0, 10, 0), at(-10, 0, 0), at(10, 10, 2)];
    let c = analyze_local_swarm_intelligence(&snapshot, 0, 9000, 4);
    assert_eq!(c.ant_density, 4);
    assert_eq!(c.local_failure_rate, 750);
    assert!(c.should_use_collective_exploration);
    assert_eq!(c.least_explored_direction, 10);
    assert_eq!(c.suggested_exploration_direction, 10);
    assert_eq!(c.exploration_pressure, 750);
    let calm = analyze_local_swarm_intelligence(&snapshot, 0, 0, 4);
    assert!(calm.should_use_collective_exploration);
}

#[test]
fn lone_agent_has_no_neighbours() {
    let snapshot = vec![at(0, 0, 0)];
    let c = analyze_local_swarm_intelligence(&snapshot, 0, 0, 0);
    assert_eq!(c.ant_density, 0);
    assert_eq!(c.failing, 0);
    assert_eq!(c.away_from_failures, 0);
}

#[test]
fn consensus_bias_when_failures_dominate() {
    let mut by_heading = [0u64; 16];
    by_heading[4] = 1;
    let c = SwarmContext { ant_density: 8, failing: 6, successful_by_heading: by_heading, away_from_failures: 0, traffic_by_heading: [0; 16], ..blank() };
    let b = calculate_collective_intelligence_bonus(&c);
    assert_eq!(b, [500_000, 500_000, 700_000, 0, 0, 0, 0, 500_000]);
}

#[test]
fn no_bias_in_a_successful_crowd() {
    let mut by_heading = [0u64; 16];
    by_heading[4] = 5;
    let c = SwarmContext { ant_density: 8, failing: 4, successful_by_heading: by_heading, away_from_failures: 0, traffic_by_heading: [0; 16], ..blank() };
    assert_eq!(calculate_collective_intelligence_bonus(&c), [0; 8]);
}

#[test]
fn crowding_counts_close_agents_only() {
    let snapshot = vec![at(0, 0, 0), at(10, 0, 0), at(0, -24, 0), at(25, 0, 0), at(3, 3, 1)];
    assert_eq!(count_crowding(&snapshot, 0), 3);
    assert_eq!(count_crowding(&snapshot, 3), 2);
}

#[test]
fn collective_exploration_needs_dominant_failures_and_a_success() {
    let mut by_heading = [0u64; 16];
    by_heading[2] = 1;
    let c = SwarmContext { ant_density: 4, failing: 2, successful_by_heading: by_heading, away_from_failures: 0, traffic_by_heading: [0; 16], ..blank() };
    assert!(!should_use_collective_exploration(&c, false));
    assert!(should_use_collective_exploration(&c, true));
    let none = SwarmContext { successful_by_heading: [0; 16], ..c };
    assert!(!should_use_collective_exploration(&none, true));
    let few = SwarmContext { ant_density: 2, failing: 2, ..c };
    assert!(!should_use_collective_exploration(&few, true));
}

#[test]
fn least_traffic_sector_is_chosen() {
    let mut traffic = [1u64; 16];
    traffic[10] = 0;
    traffic[11] = 0;
    let c = SwarmContext { traffic_by_heading: traffic, ..blank() };
    assert_eq!(least_traffic_heading(&c), 10);
    let flat = SwarmContext { traffic_by_heading: [2; 16], ..c };
    assert_eq!(least_traffic_heading(&flat), 8);
}

#[test]
fn crowding_discounts_samples() {
    let mut s = [100u64, 200, 0, 50, 1000, 7, 9, 10];
    discount_for_crowding(&mut s, 2);
    assert_eq!(s, [76, 152, 0, 38, 760, 5, 6, 7]);
    let mut t = [100u64; 8];
    discount_for_crowding(&mut t, 9);
    assert_eq!(t, [60; 8]);
    let mut u = [100u64; 8];
    discount_for_crowding(&mut u, 0);
    assert_eq!(u, [100; 8]);
}
