use ant_colony::components::{Agent, AntState, Velocity};
use ant_colony::geometry::Point;
use ant_colony::monitor::{performance_analysis_system, PerformanceTracker};

fn agent(state: AntState) -> Agent {
    Agent { position: Point { x: 0, y: 0 }, velocity: Velocity { x: 0, y: 0 }, state }
}

fn sample_agents() -> Vec<Agent> {
    let mut a0 = AntState::new(Point { x: 0, y: 0 }, 0, 0, 0);
    a0.stuck_timer = 3500;
    a0.direction_changes = 6;
    let a1 = AntState::new(Point { x: 0, y: 0 }, 0, 1000, 0);
    let mut a2 = AntState::new(Point { x: 0, y: 0 }, 0, 0, 0);
    a2.carrying_food = true;
    a2.has_found_food = true;
    a2.food_carry_start_time = 10_000;
    a2.last_goal_achievement_time = 10_000;
    vec![agent(a0), agent(a1), agent(a2)]
}

#[test]
fn counts_stuck_oscillating_lost_and_lost_carriers() {
    let agents = sample_agents();
    let mut t = PerformanceTracker::new();
    let end = performance_analysis_system(&agents, &mut t, 50_000);
    assert!(!end);
    assert_eq!(t.stuck_ants_count, 1);
    assert_eq!(t.oscillating_ants_count, 1);
    assert_eq!(t.lost_ants_count, 1);
    assert_eq!(t.lost_food_carriers_count, 1);
    assert_eq!(t.average_time_since_goal, 44_500);
}

#[test]
fn run_ends_past_the_horizon() {
    let agents = sample_agents();
    let mut t = PerformanceTracker::new();
    assert!(performance_analysis_system(&agents, &mut t, 90_001));
    assert!(!performance_analysis_system(&agents, &mut t, 90_000));
}

#[test]
fn run_ends_when_many_oscillate() {
    let mut s = AntState::new(Point { x: 0, y: 0 }, 0, 0, 0);
    s.stuck_timer = 1500;
    s.direction_changes = 9;
    let agents: Vec<Agent> = (0..20).map(|_| agent(s)).collect();
    let mut t = PerformanceTracker::new();
    assert!(performance_analysis_system(&agents, &mut t, 1000));
    assert_eq!(t.oscillating_ants_count, 20);
    assert_eq!(t.stuck_ants_count, 0);
}

#[test]
fn no_active_agents_gives_zero_mean() {
    let agents = vec![agent(AntState::new(Point { x: 0, y: 0 }, 0, 500, 0))];
    let mut t = PerformanceTracker::new();
    performance_analysis_system(&agents, &mut t, 10_000);
    assert_eq!(t.average_time_since_goal, 0);
    assert_eq!(t.lost_ants_count, 0);
}
