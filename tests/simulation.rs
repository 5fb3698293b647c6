use ant_colony::components::{Agent, AntBehaviorState, AntState, FoodSource, Rock, Velocity, ANT_HALF_WIDTH};
use ant_colony::config::SimConfig;
use ant_colony::geometry::{Point, UNIT};
use ant_colony::pheromones::PheromoneGrid;
use ant_colony::simulation::{rebuild_snapshot, sensing_system, World};

fn lcg_rolls(seed: &mut u64, n: usize) -> Vec<u32> {
    let mut v = Vec::with_capacity(n);
    for _ in 0..n {
        *seed = seed.wrapping_mul(6364136223846793005).wrapping_add(1442695040888963407);
        v.push((*seed >> 33) as u32);
    }
    v
}

#[test]
fn default_configuration_is_valid() {
    let c = SimConfig::default();
    assert!(c.is_valid());
    assert_eq!(c.world_size, 1000);
    assert_eq!(c.initial_ants, 50);
    let mut bad = c;
    bad.world_size = 0;
    assert!(!bad.is_valid());
    bad = c;
    bad.evap_food = 2_000_000;
    assert!(!bad.is_valid());
}

#[test]
fn standard_world_is_populated() {
    let c = SimConfig::default();
    let mut seed = 7u64;
    let rolls = lcg_rolls(&mut seed, 100);
    let w = World::new(c, true, &rolls).unwrap();
    assert_eq!(w.agents.len(), 50);
    assert_eq!(w.food.len(), 10);
    assert_eq!(w.rocks.len(), 10);
    assert_eq!(w.agents[0].position, Point { x: 50 * UNIT, y: 0 });
    assert_eq!(w.agents[0].state.startup_timer, 2000);
    assert_eq!(w.agents[3].state.startup_timer, 2300);
    assert!(w.food.iter().all(|f| f.amount == 100 && f.max_amount == 100));
    let mut bad = c;
    bad.world_size = 0;
    assert!(World::new(bad, false, &rolls).is_none());
}

#[test]
fn rock_on_the_spawn_ring_is_refused() {
    let mut c = SimConfig::default();
    c.initial_ants = 4;
    let rocks = vec![Rock { position: Point { x: 50 * UNIT, y: 0 }, radius: 5 * UNIT }];
    assert!(World::from_parts(c, Point { x: 0, y: 0 }, Vec::new(), rocks, &vec![0; 4]).is_none());
    let far = vec![Rock { position: Point { x: 200 * UNIT, y: 0 }, radius: 5 * UNIT }];
    assert!(World::from_parts(c, Point { x: 0, y: 0 }, Vec::new(), far, &vec![0; 4]).is_some());
}

#[test]
fn obstacle_between_nest_and_food_is_never_entered() {
    let mut c = SimConfig::default();
    c.world_size = 400;
    c.initial_ants = 10;
    c.food_sources = 1;
    let rock = Rock { position: Point { x: 100 * UNIT, y: 0 }, radius: 1440 };
    let food = vec![FoodSource { position: Point { x: 200 * UNIT, y: 0 }, amount: 100, max_amount: 100 }];
    let mut seed = 42u64;
    let rolls = lcg_rolls(&mut seed, 10);
    let mut w = World::from_parts(c, Point { x: 0, y: 0 }, food, vec![rock], &rolls).unwrap();
    let reach = (rock.radius + ANT_HALF_WIDTH) as i128;
    let mut refused_near_rock = false;
    for tick in 0..80 {
        let rolls = if tick % 2 == 0 { vec![1; 33] } else { lcg_rolls(&mut seed, 33) };
        w.tick(400, &rolls);
        for a in &w.agents {
            let dx = (a.position.x - rock.position.x) as i128;
            let dy = (a.position.y - rock.position.y) as i128;
            assert!(dx * dx + dy * dy >= reach * reach);
            if dx * dx + dy * dy < (reach + 20 * UNIT as i128) * (reach + 20 * UNIT as i128) {
                refused_near_rock = true;
            }
        }
    }
    assert!(refused_near_rock);
}

#[test]
fn end_to_end_delivery_from_food_at_distance_400() {
    let mut c = SimConfig::default();
    c.initial_ants = 10;
    c.food_sources = 1;
    let food = vec![FoodSource { position: Point { x: 400 * UNIT, y: 0 }, amount: 100, max_amount: 100 }];
    let mut w = World::from_parts(c, Point { x: 0, y: 0 }, food, Vec::new(), &vec![1; 10]).unwrap();
    let rolls = vec![1u32; 33];
    let mut delivered_at = None;
    for tick in 0..80 {
        w.tick(400, &rolls);
        assert!(w.tracker.total_food_collected <= 100);
        assert_eq!(w.tracker.total_food_collected + w.food[0].amount as u64, 100);
        for a in &w.agents {
            assert!(matches!(
                a.state.behavior_state,
                AntBehaviorState::Exploring
                    | AntBehaviorState::Sensing
                    | AntBehaviorState::Following
                    | AntBehaviorState::Tracking
            ));
        }
        if w.tracker.successful_deliveries >= 1 {
            delivered_at = Some(tick);
            break;
        }
    }
    assert!(delivered_at.is_some());
    assert_eq!(w.tracker.successful_deliveries, 1);
}

#[test]
fn restart_rebuilds_the_world() {
    let c = SimConfig::default();
    let mut seed = 3u64;
    let rolls = lcg_rolls(&mut seed, 100);
    let mut w = World::new(c, true, &rolls).unwrap();
    w.tick_random(16);
    assert_eq!(w.elapsed_ms, 16);
    assert!(w.restart_system());
    assert_eq!(w.elapsed_ms, 0);
    assert_eq!(w.agents.len(), 50);
    assert!(w.grid.food_trail.iter().all(|v| *v == 0));
    assert!(w.with_obstacles);
}

#[test]
fn sensing_phase_moves_explorers_and_carriers() {
    let mut c = SimConfig::default();
    c.world_size = 100;
    let explorer = AntState::new(Point { x: 40 * UNIT, y: 0 }, 0, 0, 0);
    let mut carrier = AntState::new(Point { x: 10 * UNIT, y: 0 }, 0, 0, 0);
    carrier.carrying_food = true;
    let starting = AntState::new(Point { x: 0, y: 10 * UNIT }, 0, 500, 0);
    let mut agents = vec![
        Agent { position: Point { x: 40 * UNIT, y: 0 }, velocity: Velocity { x: 0, y: 0 }, state: explorer },
        Agent { position: Point { x: 10 * UNIT, y: 0 }, velocity: Velocity { x: 0, y: 0 }, state: carrier },
        Agent { position: Point { x: 0, y: 10 * UNIT }, velocity: Velocity { x: 7, y: 7 }, state: starting },
    ];
    let snapshot = rebuild_snapshot(&agents);
    let g = PheromoneGrid::new(100, 100);
    sensing_system(&mut agents, &g, &Vec::new(), Point { x: 0, y: 0 }, &snapshot, &c, 100, &vec![1; 6]);
    let e = &agents[0];
    assert_eq!(e.state.world_edge_proximity, 10 * UNIT);
    assert_eq!(e.state.behavior_state, AntBehaviorState::Exploring);
    assert_eq!(e.state.current_direction, 0);
    assert_eq!(e.velocity, Velocity { x: 50 * UNIT, y: 0 });
    assert_eq!(e.state.sensing_timer, 1500);
    assert_eq!(e.state.time_since_progress, 100);
    let k = &agents[1];
    assert_eq!(k.state.current_direction, 8);
    assert_eq!(k.state.direction_changes, 1);
    assert_eq!(k.velocity, Velocity { x: -60 * UNIT, y: 0 });
    let s = &agents[2];
    assert_eq!(s.state.startup_timer, 400);
    assert_eq!(s.velocity, Velocity { x: 7, y: 7 });
    assert_eq!(s.state.current_direction, 0);
}

#[test]
fn near_nest_searchers_turn_outward_every_tick() {
    let c = SimConfig::default();
    let mut s = AntState::new(Point { x: -30 * UNIT, y: 0 }, 0, 0, 900);
    s.last_position = Point { x: 0, y: 0 };
    let mut agents = vec![Agent { position: Point { x: -30 * UNIT, y: 0 }, velocity: Velocity { x: 0, y: 0 }, state: s }];
    let snapshot = rebuild_snapshot(&agents);
    let g = PheromoneGrid::new(100, 100);
    sensing_system(&mut agents, &g, &Vec::new(), Point { x: 0, y: 0 }, &snapshot, &c, 100, &vec![1; 2]);
    assert_eq!(agents[0].state.current_direction, 8);
    assert_eq!(agents[0].state.sensing_timer, 1500);
    assert_eq!(agents[0].velocity, Velocity { x: -50 * UNIT, y: 0 });
}

#[test]
fn stuck_agent_recovers_during_sensing() {
    let c = SimConfig::default();
    let mut s = AntState::new(Point { x: 200 * UNIT, y: 0 }, 0, 0, 900);
    s.stuck_timer = 1950;
    let mut agents = vec![Agent { position: Point { x: 200 * UNIT, y: 0 }, velocity: Velocity { x: 0, y: 0 }, state: s }];
    let snapshot = rebuild_snapshot(&agents);
    let g = PheromoneGrid::new(100, 100);
    sensing_system(&mut agents, &g, &Vec::new(), Point { x: 0, y: 0 }, &snapshot, &c, 100, &vec![0, 21]);
    let a = &agents[0];
    assert_eq!(a.state.stuck_timer, 0);
    assert_eq!(a.state.current_direction, 5);
    assert_eq!(a.state.behavior_state, AntBehaviorState::Exploring);
    assert_eq!(a.velocity, Velocity { x: -1470, y: 3547 });
}

#[test]
fn carrier_escapes_a_rock_it_is_pressed_against() {
    let c = SimConfig::default();
    let mut s = AntState::new(Point { x: 200 * UNIT, y: 0 }, 8, 0, 0);
    s.carrying_food = true;
    let mut agents = vec![Agent { position: Point { x: 200 * UNIT, y: 0 }, velocity: Velocity { x: 0, y: 0 }, state: s }];
    let rocks = vec![Rock { position: Point { x: 172 * UNIT, y: 0 }, radius: 5 * UNIT }];
    let snapshot = rebuild_snapshot(&agents);
    let g = PheromoneGrid::new(100, 100);
    sensing_system(&mut agents, &g, &rocks, Point { x: 0, y: 0 }, &snapshot, &c, 100, &vec![0, 0]);
    let a = &agents[0];
    assert_eq!(a.state.behavior_state, AntBehaviorState::Exploring);
    assert_eq!(a.state.current_direction, 0);
    assert_eq!(a.velocity, Velocity { x: 60 * UNIT, y: 0 });
}
