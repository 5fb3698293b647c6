use ant_colony::components::{Agent, AntState, Rock, Velocity};
use ant_colony::geometry::{Point, UNIT};
use ant_colony::movement::{collides, movement_system, resolve_move};

#[test]
fn collision_uses_radius_plus_half_width() {
    let rocks = vec![Rock { position: Point { x: 0, y: 0 }, radius: 10 * UNIT }];
    assert!(!collides(Point { x: 16 * UNIT, y: 0 }, &rocks));
    assert!(collides(Point { x: 16 * UNIT - 1, y: 0 }, &rocks));
    assert!(collides(Point { x: 0, y: 0 }, &rocks));
    assert!(!collides(Point { x: 0, y: 0 }, &Vec::new()));
}

#[test]
fn step_into_a_rock_is_refused() {
    let rocks = vec![Rock { position: Point { x: 20 * UNIT, y: 0 }, radius: 10 * UNIT }];
    let pos = Point { x: -30 * UNIT, y: 0 };
    let vel = Velocity { x: 50 * UNIT, y: 0 };
    assert_eq!(resolve_move(pos, vel, 1000, &rocks), pos);
    assert_eq!(resolve_move(pos, vel, 1000, &Vec::new()), Point { x: 20 * UNIT, y: 0 });
    assert_eq!(resolve_move(pos, vel, 100, &rocks), Point { x: -25 * UNIT, y: 0 });
}

#[test]
fn moves_stay_within_the_world_bound() {
    let pos = Point { x: 479 * UNIT, y: -479 * UNIT };
    let vel = Velocity { x: 100 * UNIT, y: -100 * UNIT };
    assert_eq!(resolve_move(pos, vel, 1000, &Vec::new()), Point { x: 480 * UNIT, y: -480 * UNIT });
}

#[test]
fn negative_velocity_rounds_down() {
    let pos = Point { x: 0, y: 0 };
    let vel = Velocity { x: -1, y: 1 };
    assert_eq!(resolve_move(pos, vel, 500, &Vec::new()), Point { x: -1, y: 0 });
}

#[test]
fn movement_system_moves_each_agent() {
    let s = AntState::new(Point { x: 0, y: 0 }, 0, 0, 0);
    let mut agents = vec![
        Agent { position: Point { x: 0, y: 0 }, velocity: Velocity { x: 1000, y: 0 }, state: s },
        Agent { position: Point { x: 0, y: 0 }, velocity: Velocity { x: 0, y: -2000 }, state: s },
    ];
    let rocks = vec![Rock { position: Point { x: 0, y: -40 * UNIT }, radius: 10 * UNIT }];
    movement_system(&mut agents, &rocks, 500);
    assert_eq!(agents[0].position, Point { x: 500, y: 0 });
    assert_eq!(agents[1].position, Point { x: 0, y: -1000 });
    assert_eq!(agents[1].velocity, Velocity { x: 0, y: -2000 });
}
