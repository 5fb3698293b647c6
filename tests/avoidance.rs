use ant_colony::avoidance::{
    best_nest_path, best_nest_trail, carrier_decision, ease_toward, find_best_nest_trail_direction, is_path_safe,
    CarrierChoice, NestTrailResult,
};
use ant_colony::components::{AntBehaviorState, AntState, Rock};
use ant_colony::geometry::{Point, UNIT};
use ant_colony::pheromones::{PheromoneGrid, PheromoneType};

#[test]
fn easing_moves_two_fifths_of_the_way() {
    assert_eq!(ease_toward(0, 8), 3);
    assert_eq!(ease_toward(0, 1), 1);
    assert_eq!(ease_toward(0, 15), 15);
    assert_eq!(ease_toward(4, 0), 3);
    assert_eq!(ease_toward(4, 4), 4);
}

#[test]
fn nest_trails_must_lead_homeward() {
    let s = [60_000, 0, 0, 0, 100_000, 0, 0, 0];
    assert_eq!(best_nest_trail(&s, 0, 8), Some(4));
    assert_eq!(best_nest_trail(&s, 0, 0), Some(0));
    assert_eq!(best_nest_trail(&[40_000; 8], 0, 0), None);
}

#[test]
fn look_ahead_safety() {
    let rocks = vec![Rock { position: Point { x: 0, y: 0 }, radius: 10 * UNIT }];
    assert!(!is_path_safe(Point { x: 44 * UNIT, y: 0 }, &rocks));
    assert!(is_path_safe(Point { x: 45 * UNIT, y: 0 }, &rocks));
    assert!(!is_path_safe(Point { x: 476 * UNIT, y: 0 }, &Vec::new()));
}

#[test]
fn open_ground_path_goes_straight_home() {
    let g = PheromoneGrid::new(128, 128);
    assert_eq!(best_nest_path(&g, &Vec::new(), Point { x: 50 * UNIT, y: 0 }, Point { x: 0, y: 0 }, 8, 0), Some(8));
    let mut a = AntState::new(Point { x: 50 * UNIT, y: 0 }, 0, 0, 0);
    let c = carrier_decision(&mut a, &g, &Vec::new(), Point { x: 50 * UNIT, y: 0 }, Point { x: 0, y: 0 });
    assert_eq!(c, CarrierChoice::SafePath);
    assert_eq!(a.current_direction, 8);
    assert_eq!(a.behavior_state, AntBehaviorState::Following);
}

#[test]
fn alarm_steers_the_path_aside() {
    let mut g = PheromoneGrid::new(128, 128);
    g.deposit(30 * UNIT, 0, PheromoneType::Alarm, 2_000_000);
    let p = best_nest_path(&g, &Vec::new(), Point { x: 50 * UNIT, y: 0 }, Point { x: 0, y: 0 }, 8, 0);
    assert!(p == Some(7) || p == Some(9));
    assert_eq!(p, Some(7));
}

#[test]
fn blocked_carrier_turns_a_quarter() {
    let g = PheromoneGrid::new(128, 128);
    let rocks = vec![Rock { position: Point { x: 25 * UNIT, y: 0 }, radius: 5 * UNIT }];
    let mut a = AntState::new(Point { x: 50 * UNIT, y: 0 }, 0, 0, 0);
    let c = carrier_decision(&mut a, &g, &rocks, Point { x: 50 * UNIT, y: 0 }, Point { x: 0, y: 0 });
    assert_eq!(c, CarrierChoice::NoPath);
    assert_eq!(a.current_direction, 4);
    assert_eq!(a.behavior_state, AntBehaviorState::Exploring);
}

#[test]
fn carrier_eases_onto_a_homeward_nest_trail() {
    let mut g = PheromoneGrid::new(128, 128);
    g.deposit(25 * UNIT, 0, PheromoneType::Nest, 9_000_000);
    let mut a = AntState::new(Point { x: 50 * UNIT, y: 0 }, 0, 0, 0);
    let c = carrier_decision(&mut a, &g, &Vec::new(), Point { x: 50 * UNIT, y: 0 }, Point { x: 0, y: 0 });
    assert_eq!(c, CarrierChoice::NestTrail);
    assert_eq!(a.current_direction, 3);
    assert_eq!(a.behavior_state, AntBehaviorState::Following);
}

#[test]
fn sixteen_way_scan_finds_nothing_on_an_empty_field() {
    let g = PheromoneGrid::new(128, 128);
    let r = find_best_nest_trail_direction(&g, Point { x: 0, y: 0 }, Point { x: 0, y: 0 }, 5, 0);
    assert_eq!(r, NestTrailResult { found_trail: false, direction: 5, strength: 0, confidence: 0, gradient_quality: 0 });
}

#[test]
fn sixteen_way_scan_finds_the_single_trail() {
    let mut g = PheromoneGrid::new(128, 128);
    for d in [18, 26, 36] {
        g.deposit(0, d * UNIT, PheromoneType::Nest, 9_000_000);
    }
    let r = find_best_nest_trail_direction(&g, Point { x: 0, y: 0 }, Point { x: 300 * UNIT, y: 0 }, 4, 0);
    assert!(r.found_trail);
    assert_eq!(r.direction, 4);
    assert_eq!(r.strength, 1_000_000);
    assert_eq!(r.gradient_quality, 0);
    assert_eq!(r.confidence, 809);
    let near = find_best_nest_trail_direction(&g, Point { x: 0, y: 0 }, Point { x: 0, y: 0 }, 4, 0);
    assert_eq!(near.confidence, 1000);
}
