use ant_colony::deposition::{
    deposit_along, emit_food_scent, explorer_deposit_amount, food_deposit_amount, nest_deposit_amount,
};
use ant_colony::geometry::{Point, UNIT};
use ant_colony::pheromones::{PheromoneGrid, PheromoneType};

#[test]
fn food_deposit_halves_with_distance() {
    assert_eq!(food_deposit_amount(42_000_000, 100, 0), 42_000_000);
    assert_eq!(food_deposit_amount(42_000_000, 100, 70 * 64), 21_000_000);
    assert_eq!(food_deposit_amount(42_000_000, 100, 2 * 70 * 64 + 5), 10_500_000);
    assert_eq!(food_deposit_amount(42_000_000, 50, 0), 21_000_000);
    assert_eq!(food_deposit_amount(3, 100, 1_000_000_000), 0);
}

#[test]
fn nest_deposit_scales_with_proximity_and_record() {
    assert_eq!(nest_deposit_amount(25_000_000, 0, 0), 50_000_000);
    assert_eq!(nest_deposit_amount(25_000_000, (400 * UNIT) * (400 * UNIT), 10), 62_500_000);
    assert_eq!(nest_deposit_amount(25_000_000, (200 * UNIT) * (200 * UNIT), 1), 48_750_000);
}

#[test]
fn explorers_lay_nest_trail_only_after_a_delivery() {
    assert_eq!(explorer_deposit_amount(25_000_000, 0), 0);
    assert_eq!(explorer_deposit_amount(25_000_000, 1), 2_500_000);
}

#[test]
fn deposits_spread_along_the_move() {
    let mut g = PheromoneGrid::new(64, 64);
    deposit_along(&mut g, PheromoneType::Food, Point { x: 0, y: 0 }, Point { x: 102, y: 0 }, 300);
    assert_eq!(g.sample_at(0, 0, PheromoneType::Food), 150);
    assert_eq!(g.sample_at(102, 0, PheromoneType::Food), 150);
    let total: u64 = g.food_trail.iter().sum();
    assert_eq!(total, 300);
}

#[test]
fn short_move_deposits_along_its_length() {
    let mut g = PheromoneGrid::new(64, 64);
    deposit_along(&mut g, PheromoneType::Nest, Point { x: 0, y: 0 }, Point { x: 40, y: 10 }, 77);
    assert_eq!(g.sample_at(40, 10, PheromoneType::Nest), 75);
    assert_eq!(g.nest_trail.iter().sum::<u64>(), 75);
}

#[test]
fn food_scent_falls_off_with_radius() {
    let mut g = PheromoneGrid::new(128, 128);
    emit_food_scent(&mut g, Point { x: 0, y: 0 });
    assert_eq!(g.sample_at(0, 0, PheromoneType::Food), 200_000);
    assert_eq!(g.sample_at(5 * UNIT, 0, PheromoneType::Food), 198_611);
    assert_eq!(g.sample_at(25 * UNIT, 0, PheromoneType::Food), 165_277);
    assert_eq!(g.sample_at(50 * UNIT, 0, PheromoneType::Food), 61_111);
    assert_eq!(g.sample_at(55 * UNIT, 0, PheromoneType::Food), 31_944);
    assert_eq!(g.sample_at(56 * UNIT, 0, PheromoneType::Food), 0);
}
