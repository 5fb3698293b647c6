use ant_colony::components::{AntBehaviorState, AntState};
use ant_colony::geometry::{nearest_heading, Point, UNIT};
use ant_colony::navigation::{
    best_trail, blend_with_memory, gradient_heading, remember_heading, score_candidate, smooth_quality,
    stuck_check, trail_decision, trail_quality_score,
};

fn ant(direction: u8) -> AntState {
    AntState::new(Point { x: 0, y: 0 }, direction, 0, 0)
}

#[test]
fn single_peak_gradient_points_at_the_peak() {
    for k in 0..8usize {
        let mut s = [0u64; 8];
        s[k] = 500;
        assert_eq!(gradient_heading(&s), Some((2 * k) as u8));
    }
}

#[test]
fn zero_samples_give_no_gradient() {
    assert_eq!(gradient_heading(&[0; 8]), None);
}

#[test]
fn two_equal_neighbours_give_the_heading_between() {
    assert_eq!(gradient_heading(&[1000, 1000, 0, 0, 0, 0, 0, 0]), Some(1));
    assert_eq!(gradient_heading(&[3, 0, 3, 0, 0, 0, 0, 0]), Some(2));
    assert_eq!(gradient_heading(&[3, 0, 0, 0, 3, 0, 0, 0]), None);
}

#[test]
fn nearest_heading_of_axes() {
    assert_eq!(nearest_heading(5, 0), 0);
    assert_eq!(nearest_heading(0, 5), 4);
    assert_eq!(nearest_heading(-5, 0), 8);
    assert_eq!(nearest_heading(0, -5), 12);
    assert_eq!(nearest_heading(0, 0), 0);
}

#[test]
fn memory_blend_leans_eighty_twenty() {
    assert_eq!(blend_with_memory(4, &[4; 5]), 4);
    assert_eq!(blend_with_memory(0, &[4; 5]), 1);
    assert_eq!(blend_with_memory(8, &[0; 5]), 8);
}

#[test]
fn ring_buffer_wraps() {
    let mut a = ant(0);
    for h in 1..=6u8 {
        remember_heading(&mut a, h);
    }
    assert_eq!(a.trail_memory, [6, 2, 3, 4, 5]);
    assert_eq!(a.memory_index, 1);
}

#[test]
fn trail_quality_of_flat_weak_and_peaked_samples() {
    assert_eq!(trail_quality_score(&[0; 8], 1_000_000), 0);
    assert_eq!(trail_quality_score(&[1_000_000; 8], 1_000_000), 1000);
    let s = [400_000, 200_000, 200_000, 200_000, 200_000, 200_000, 200_000, 200_000];
    assert_eq!(trail_quality_score(&s, 1_000_000), 200);
    assert_eq!(trail_quality_score(&[2_000_000, 0, 0, 0, 0, 0, 0, 0], 10_000_000), 0);
}

#[test]
fn quality_is_seventy_thirty_average() {
    assert_eq!(smooth_quality(1000, 0), 700);
    assert_eq!(smooth_quality(0, 1000), 300);
    assert_eq!(smooth_quality(500, 500), 500);
}

#[test]
fn candidate_score_adds_its_terms() {
    let s = [1_000_000u64; 8];
    let b = [0u64; 8];
    assert_eq!(score_candidate(&s, &b, 0, 0, false, 0, 0), 3_000_000);
    assert_eq!(score_candidate(&s, &b, 4, 0, true, 0, 100), 1_000_000 + 250_000 + 800_000 + 50_000);
    assert_eq!(score_candidate(&s, &b, 1, 0, false, 0, 0), 1_000_000 + 6 * 150_000 + 800_000);
    assert_eq!(score_candidate(&s, &b, 0, 0, false, 2_000_000, 0), 1_000_000 + 1_200_000);
    assert_eq!(score_candidate(&s, &b, 0, 0, false, 1_000_000, 0), 1_000_000 + 1_200_000 + 350_000);
}

#[test]
fn best_trail_needs_the_floor() {
    let b = [0u64; 8];
    assert_eq!(best_trail(&[100; 8], &b, 0, false, 0, 0, 800), None);
    assert_eq!(best_trail(&[0, 0, 5000, 0, 0, 0, 0, 0], &b, 0, false, 0, 0, 800), Some(2));
    assert_eq!(best_trail(&[900; 8], &b, 6, false, 0, 0, 800), Some(3));
}

#[test]
fn explorer_starts_following_a_detected_trail() {
    let mut a = ant(0);
    let s = [0, 0, 0, 0, 2_000_000, 0, 0, 0];
    let r = trail_decision(&mut a, &s, &[0; 8], 0, 800, 10_000_000, 100, 7);
    assert_eq!(r, Some(4));
    assert_eq!(a.behavior_state, AntBehaviorState::Following);
    assert_eq!(a.trail_strength, 2_000_000);
    assert_eq!(a.current_direction, 8);
    assert_eq!(a.momentum_timer, 1500);
}

#[test]
fn explorer_without_trail_wanders_one_step() {
    let mut a = ant(5);
    let r = trail_decision(&mut a, &[0; 8], &[0; 8], 0, 800, 10_000_000, 100, 0);
    assert_eq!(r, None);
    assert_eq!(a.behavior_state, AntBehaviorState::Exploring);
    assert_eq!(a.current_direction, 4);
    let mut b = ant(15);
    trail_decision(&mut b, &[0; 8], &[0; 8], 0, 800, 10_000_000, 100, 2);
    assert_eq!(b.current_direction, 0);
}

#[test]
fn fading_trail_drops_to_tracking() {
    let mut a = ant(0);
    a.behavior_state = AntBehaviorState::Following;
    a.trail_strength = 10_000;
    a.momentum_timer = 1000;
    let s = [3_000, 0, 0, 0, 0, 0, 0, 0];
    let r = trail_decision(&mut a, &s, &[0; 8], 0, 800, 10_000_000, 100, 1);
    assert_eq!(r, Some(0));
    assert_eq!(a.hysteresis_threshold, 800);
    assert_eq!(a.behavior_state, AntBehaviorState::Tracking);
    assert_eq!(a.current_direction, 0);
}

#[test]
fn held_trail_lowers_the_floor() {
    let mut a = ant(0);
    a.behavior_state = AntBehaviorState::Tracking;
    a.trail_strength = 1000;
    let s = [500, 0, 0, 0, 0, 0, 0, 0];
    let r = trail_decision(&mut a, &s, &[0; 8], 0, 800, 10_000_000, 100, 1);
    assert_eq!(a.hysteresis_threshold, 400);
    assert_eq!(r, Some(0));
    assert_eq!(a.behavior_state, AntBehaviorState::Tracking);
}

#[test]
fn stuck_agent_recovers_after_the_cutoff() {
    let mut a = ant(3);
    a.stuck_timer = 1900;
    assert!(stuck_check(&mut a, Point { x: 10, y: 0 }, 200, 21));
    assert_eq!(a.current_direction, 5);
    assert_eq!(a.stuck_timer, 0);
    assert_eq!(a.behavior_state, AntBehaviorState::Exploring);
    let mut b = ant(3);
    assert!(!stuck_check(&mut b, Point { x: 10 * UNIT, y: 0 }, 200, 21));
    assert_eq!(b.stuck_timer, 0);
    assert_eq!(b.last_position, Point { x: 10 * UNIT, y: 0 });
}

#[test]
fn long_search_widens_the_wander() {
    let mut a = ant(5);
    a.time_since_progress = 30_000;
    trail_decision(&mut a, &[0; 8], &[0; 8], 0, 800, 10_000_000, 100, 0);
    assert_eq!(a.current_direction, 3);
    let mut b = ant(5);
    b.time_since_progress = 30_000;
    trail_decision(&mut b, &[0; 8], &[0; 8], 0, 800, 10_000_000, 100, 4);
    assert_eq!(b.current_direction, 7);
    let mut c = ant(5);
    c.time_since_progress = 29_999;
    trail_decision(&mut c, &[0; 8], &[0; 8], 0, 800, 10_000_000, 100, 4);
    assert_eq!(c.current_direction, 5);
}
