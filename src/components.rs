use vstd::prelude::*;
use crate::geometry::{dir_x, dir_y, floor_div, compass_x, compass_y, in_bounds, Point, DIR_SCALE, HEADINGS, UNIT};

verus! {

/// Half the side of an agent's square body, in sub-units.
pub const ANT_HALF_WIDTH: i64 = 6 * UNIT;

/// Agents are held within this distance of the axes, in sub-units.
pub const WORLD_BOUND: i64 = 480 * UNIT;

/// Length of the trail-memory ring buffer.
pub const MEMORY_LEN: usize = 5;

/// Scale of per-mille quantities (trail quality and its factors).
pub const PER_MILLE: u32 = 1000;

/// How an agent is moving; each kind has its own speed.
#[derive(Clone, Copy, Debug, PartialEq, Eq, Structural)]
pub enum MovementType {
    /// Carrying food back to the nest.
    CarryingFood,
    /// Following a pheromone trail.
    FollowingTrail,
    /// Searching without a trail.
    Exploring,
    /// Leaving a spot where it was stuck.
    StuckRecovery,
    /// Heading set on pickup and on delivery.
    Legacy,
}

/// Speed of each movement kind, in world units per second.
pub open spec fn speed_of(m: MovementType) -> int {
    match m {
        MovementType::CarryingFood => 60,
        MovementType::FollowingTrail => 65,
        MovementType::Exploring => 50,
        MovementType::StuckRecovery => 60,
        MovementType::Legacy => 85,
    }
}

/// Velocity in sub-units per second.
#[derive(Clone, Copy, Debug, PartialEq, Eq, Structural)]
pub struct Velocity {
    pub x: i64,
    pub y: i64,
}

/// The velocity of heading `h` at the speed of `m`, each component rounded down.
pub open spec fn velocity_of(h: int, m: MovementType) -> (int, int) {
    (
        (dir_x(h) * speed_of(m) * UNIT) / (DIR_SCALE as int),
        (dir_y(h) * speed_of(m) * UNIT) / (DIR_SCALE as int),
    )
}

/// Sets `velocity` to move along heading `direction` at the speed of `movement_type`.
pub fn set_ant_velocity(velocity: &mut Velocity, direction: u8, movement_type: MovementType)
    requires
        direction < HEADINGS,
    ensures
        final(velocity).x == velocity_of(direction as int, movement_type).0,
        final(velocity).y == velocity_of(direction as int, movement_type).1,
        -85 * UNIT <= final(velocity).x <= 85 * UNIT,
        -85 * UNIT <= final(velocity).y <= 85 * UNIT,
{
    let speed: i64 = match movement_type {
        MovementType::CarryingFood => 60,
        MovementType::FollowingTrail => 65,
        MovementType::Exploring => 50,
        MovementType::StuckRecovery => 60,
        MovementType::Legacy => 85,
    };
    let cx = compass_x(direction);
    let cy = compass_y(direction);
    assert(-1024 * 85 * 64 <= cx * speed * UNIT <= 1024 * 85 * 64) by (nonlinear_arith)
        requires -1024 <= cx <= 1024, 0 <= speed <= 85;
    assert(-1024 * 85 * 64 <= cy * speed * UNIT <= 1024 * 85 * 64) by (nonlinear_arith)
        requires -1024 <= cy <= 1024, 0 <= speed <= 85;
    let vx = floor_div(cx * speed * UNIT, DIR_SCALE);
    let vy = floor_div(cy * speed * UNIT, DIR_SCALE);
    assert(-85 * 64 <= vx <= 85 * 64) by (nonlinear_arith)
        requires vx == (cx * speed * UNIT) / (DIR_SCALE as int), -1024 * 85 * 64 <= cx * speed * UNIT <= 1024 * 85 * 64;
    assert(-85 * 64 <= vy <= 85 * 64) by (nonlinear_arith)
        requires vy == (cy * speed * UNIT) / (DIR_SCALE as int), -1024 * 85 * 64 <= cy * speed * UNIT <= 1024 * 85 * 64;
    velocity.x = vx;
    velocity.y = vy;
}

/// An agent's navigation mode.
#[derive(Clone, Copy, Debug, PartialEq, Eq, Structural)]
pub enum AntBehaviorState {
    /// Searching without a trail.
    Exploring,
    /// Evaluating its surroundings for one step.
    Sensing,
    /// Committed to a detected trail.
    Following,
    /// Coasting while watching for a much stronger trail.
    Tracking,
}

/// Every value of `AntBehaviorState` is one of its four states.
pub proof fn lemma_state_total(s: AntBehaviorState)
    ensures
        s == AntBehaviorState::Exploring || s == AntBehaviorState::Sensing || s
            == AntBehaviorState::Following || s == AntBehaviorState::Tracking,
{
}

/// One agent. Times are in milliseconds, headings are compass headings
/// (0..16), distances in sub-units, pheromone strengths in field units.
#[derive(Clone, Copy, Debug)]
pub struct AntState {
    pub carrying_food: bool,
    pub food_collection_timer: u32,
    pub behavior_state: AntBehaviorState,
    pub sensing_timer: u32,
    pub startup_timer: u32,
    pub current_direction: u8,
    pub trail_strength: u64,
    pub momentum_timer: u32,
    pub last_position: Point,
    pub stuck_timer: u32,
    pub direction_changes: u32,
    pub trail_memory: [u8; 5],
    pub memory_index: usize,
    pub trail_quality: u32,
    pub hysteresis_threshold: u64,
    pub distance_from_food: u64,
    pub food_pickup_time: u64,
    pub delivery_attempts: u32,
    pub successful_deliveries: u32,
    pub has_found_food: bool,
    pub food_carry_start_time: u64,
    pub last_goal_achievement_time: u64,
    pub time_since_progress: u32,
    pub trail_following_time: u32,
    pub nearby_ant_count: u32,
    pub is_swarming: bool,
    pub world_edge_proximity: i64,
    pub is_edge_wanderer: bool,
    pub can_see_trail: bool,
    /// Distance (sub-units) to the nearest detected trail, `u64::MAX` with none.
    pub distance_from_trail: u64,
}

/// A fresh agent's state: at `position`, heading `direction`, starting
/// after `startup` ms and first sensing after `sensing` ms, its trail
/// memory `memory` (every entry `direction`).
pub open spec fn fresh_state(position: Point, direction: u8, startup: u32, sensing: u32, memory: [u8; 5]) -> AntState {
    AntState {
        carrying_food: false,
        food_collection_timer: 0,
        behavior_state: AntBehaviorState::Exploring,
        sensing_timer: sensing,
        startup_timer: startup,
        current_direction: direction,
        trail_strength: 0,
        momentum_timer: 0,
        last_position: position,
        stuck_timer: 0,
        direction_changes: 0,
        trail_memory: memory,
        memory_index: 0,
        trail_quality: 0,
        hysteresis_threshold: 0,
        distance_from_food: 0,
        food_pickup_time: 0,
        delivery_attempts: 0,
        successful_deliveries: 0,
        has_found_food: false,
        food_carry_start_time: 0,
        last_goal_achievement_time: 0,
        time_since_progress: 0,
        trail_following_time: 0,
        nearby_ant_count: 0,
        is_swarming: false,
        world_edge_proximity: 0,
        is_edge_wanderer: false,
        can_see_trail: false,
        distance_from_trail: u64::MAX,
    }
}

impl AntState {
    /// Headings in range, ring-buffer index below its length, quality
    /// per-mille, and no collecting while carrying.
    pub open spec fn wf(&self) -> bool {
        &&& self.current_direction < HEADINGS
        &&& self.memory_index < MEMORY_LEN
        &&& forall|i: int| 0 <= i < 5 ==> self.trail_memory@[i] < HEADINGS
        &&& self.trail_quality <= PER_MILLE
        &&& in_bounds(self.last_position)
        &&& self.carrying_food ==> self.food_collection_timer == 0
    }

    /// A fresh agent at `position`, heading `direction`, that starts moving
    /// after `startup` milliseconds and first senses after `sensing` milliseconds.
    pub fn new(position: Point, direction: u8, startup: u32, sensing: u32) -> (r: AntState)
        requires
            direction < HEADINGS,
            in_bounds(position),
        ensures
            r.wf(),
            r == fresh_state(position, direction, startup, sensing, r.trail_memory),
            r.last_position == position,
            r.current_direction == direction,
            r.startup_timer == startup,
            r.sensing_timer == sensing,
            r.behavior_state == AntBehaviorState::Exploring,
            !r.carrying_food,
            r.food_collection_timer == 0,
            r.successful_deliveries == 0,
            !r.has_found_food,
            r.stuck_timer == 0,
            r.trail_strength == 0,
            r.memory_index == 0,
            forall|i: int| 0 <= i < 5 ==> r.trail_memory@[i] == direction,
    {
        AntState {
            carrying_food: false,
            food_collection_timer: 0,
            behavior_state: AntBehaviorState::Exploring,
            sensing_timer: sensing,
            startup_timer: startup,
            current_direction: direction,
            trail_strength: 0,
            momentum_timer: 0,
            last_position: position,
            stuck_timer: 0,
            direction_changes: 0,
            trail_memory: [direction; 5],
            memory_index: 0,
            trail_quality: 0,
            hysteresis_threshold: 0,
            distance_from_food: 0,
            food_pickup_time: 0,
            delivery_attempts: 0,
            successful_deliveries: 0,
            has_found_food: false,
            food_carry_start_time: 0,
            last_goal_achievement_time: 0,
            time_since_progress: 0,
            trail_following_time: 0,
            nearby_ant_count: 0,
            is_swarming: false,
            world_edge_proximity: 0,
            is_edge_wanderer: false,
            can_see_trail: false,
            distance_from_trail: u64::MAX,
        }
    }
}

/// A food source: where it is, what is left, and what it started with.
#[derive(Clone, Copy, Debug, PartialEq, Eq, Structural)]
pub struct FoodSource {
    pub position: Point,
    pub amount: u32,
    pub max_amount: u32,
}

/// The nest; its capacity is informational only.
#[derive(Clone, Copy, Debug, PartialEq, Eq, Structural)]
pub struct Nest {
    pub position: Point,
    pub capacity: u32,
}

/// A static circular obstacle; radius in sub-units.
#[derive(Clone, Copy, Debug, PartialEq, Eq, Structural)]
pub struct Rock {
    pub position: Point,
    pub radius: i64,
}

} // verus!

verus! {

/// An agent in the world: where it is, how it moves, and its state.
#[derive(Clone, Copy, Debug)]
pub struct Agent {
    pub position: Point,
    pub velocity: Velocity,
    pub state: AntState,
}

} // verus!
