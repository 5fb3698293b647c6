use ant_colony::geometry::UNIT;
use ant_colony::pheromones::{PheromoneGrid, PheromoneType, RATE_ONE};

#[test]
fn deposit_then_sample_reads_at_least_the_amount() {
    let mut g = PheromoneGrid::new(10, 10);
    g.deposit(3 * UNIT + 5, -2 * UNIT, PheromoneType::Food, 1234);
    assert!(g.sample_at(3 * UNIT + 5, -2 * UNIT, PheromoneType::Food) >= 1234);
    assert_eq!(g.sample_at(3 * UNIT + 5, -2 * UNIT, PheromoneType::Food), 1234);
    assert_eq!(g.food_trail[38], 1234);
    assert_eq!(g.sample_at(3 * UNIT + 5, -2 * UNIT, PheromoneType::Nest), 0);
    g.deposit(3 * UNIT + 5, -2 * UNIT, PheromoneType::Food, 6);
    assert_eq!(g.sample_at(3 * UNIT, -2 * UNIT, PheromoneType::Food), 1240);
}

#[test]
fn deposit_off_grid_changes_nothing() {
    let mut g = PheromoneGrid::new(10, 10);
    g.deposit(5 * UNIT, 0, PheromoneType::Alarm, 99);
    assert!(g.alarm.iter().all(|v| *v == 0));
    assert_eq!(g.sample_at(5 * UNIT, 0, PheromoneType::Alarm), 0);
}

#[test]
fn world_to_grid_maps_cells_and_rejects_outside() {
    let g = PheromoneGrid::new(10, 10);
    assert_eq!(g.world_to_grid(-5 * UNIT, -5 * UNIT), Some(0));
    assert_eq!(g.world_to_grid(4 * UNIT + 63, 4 * UNIT + 63), Some(99));
    assert_eq!(g.world_to_grid(0, 0), Some(55));
    assert_eq!(g.world_to_grid(-1, -1), Some(44));
    assert_eq!(g.world_to_grid(5 * UNIT, 0), None);
    assert_eq!(g.world_to_grid(-5 * UNIT - 1, 0), None);
    assert_eq!(g.world_to_grid(0, 5 * UNIT), None);
    let mut seen = vec![false; 100];
    for gy in 0..10i64 {
        for gx in 0..10i64 {
            let idx = g.world_to_grid((gx - 5) * UNIT, (gy - 5) * UNIT).unwrap();
            assert!(!seen[idx]);
            seen[idx] = true;
            assert_eq!(g.world_to_grid((gx - 5) * UNIT + UNIT - 1, (gy - 5) * UNIT + 17), Some(idx));
        }
    }
    assert!(seen.iter().all(|s| *s));
}

#[test]
fn evaporation_alone_scales_by_one_minus_rate() {
    let mut g = PheromoneGrid::new(5, 5);
    g.deposit(0, 0, PheromoneType::Food, 1_000_000);
    g.deposit(2 * UNIT, 2 * UNIT, PheromoneType::Nest, 333);
    g.update((100_000, 500_000, 0), (0, 0, 0));
    assert_eq!(g.sample_at(0, 0, PheromoneType::Food), 900_000);
    assert_eq!(g.sample_at(2 * UNIT, 2 * UNIT, PheromoneType::Nest), 166);
}

#[test]
fn full_diffusion_spreads_the_nine_cell_mean() {
    let mut g = PheromoneGrid::new(5, 5);
    g.deposit(0, 0, PheromoneType::Food, 900);
    g.update((0, 0, 0), (RATE_ONE, 0, 0));
    for y in 0..5usize {
        for x in 0..5usize {
            let expected = if (1..=3).contains(&x) && (1..=3).contains(&y) { 100 } else { 0 };
            assert_eq!(g.food_trail[y * 5 + x], expected);
        }
    }
}

#[test]
fn half_diffusion_blends_cell_and_mean() {
    let mut g = PheromoneGrid::new(5, 5);
    g.deposit(0, 0, PheromoneType::Alarm, 900);
    g.update((0, 0, 0), (0, 0, 500_000));
    assert_eq!(g.alarm[12], 500);
    assert_eq!(g.alarm[6], 50);
    assert_eq!(g.alarm[0], 0);
}

#[test]
fn uniform_field_is_steady_under_diffusion() {
    let mut g = PheromoneGrid::new(4, 4);
    for gy in 0..4i64 {
        for gx in 0..4i64 {
            g.deposit((gx - 2) * UNIT, (gy - 2) * UNIT, PheromoneType::Nest, 7);
        }
    }
    g.update((0, 0, 0), (0, 300_000, 0));
    assert!(g.nest_trail.iter().all(|v| *v == 7));
    g.update((0, 0, 0), (0, RATE_ONE, 0));
    assert!(g.nest_trail.iter().all(|v| *v == 7));
}

#[test]
fn directional_sample_averages_the_window() {
    let mut g = PheromoneGrid::new(10, 10);
    g.deposit(2 * UNIT, 0, PheromoneType::Food, 900);
    assert_eq!(g.sample_directional(0, 0, 0, 2, PheromoneType::Food), 100);
    let mut h = PheromoneGrid::new(10, 10);
    h.deposit(4 * UNIT, 0, PheromoneType::Food, 600);
    assert_eq!(h.sample_directional(0, 0, 0, 4, PheromoneType::Food), 100);
    assert_eq!(h.sample_directional(0, 0, 0, 10, PheromoneType::Food), 0);
}

#[test]
fn eight_way_scan_sees_the_east_deposit() {
    let mut g = PheromoneGrid::new(64, 64);
    g.deposit(25 * UNIT, 0, PheromoneType::Food, 900);
    let s = g.sample_all_directions(0, 0, PheromoneType::Food);
    assert_eq!(s, [100, 0, 0, 0, 0, 0, 0, 0]);
}

#[test]
fn gradient_probe_reads_left_front_right() {
    let mut g = PheromoneGrid::new(64, 64);
    g.deposit(-30 * UNIT, 0, PheromoneType::Food, 5);
    g.deposit(0, 30 * UNIT, PheromoneType::Food, 6);
    g.deposit(30 * UNIT, 0, PheromoneType::Food, 7);
    assert_eq!(g.sample_gradient(0, 0, PheromoneType::Food), (5, 6, 7));
    assert_eq!(g.sample_gradient(40 * UNIT, 0, PheromoneType::Food), (0, 0, 0));
    g.deposit(31 * UNIT, 5 * UNIT, PheromoneType::Food, 3);
    assert_eq!(g.sample_gradient(31 * UNIT, 5 * UNIT, PheromoneType::Food), (0, 3, 3));
}
