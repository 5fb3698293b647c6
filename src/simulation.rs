use vstd::prelude::*;
use crate::avoidance::{
    carrier_decided, carrier_decision, escape_direction, escape_heading, escapes, rock_to_escape, CarrierChoice,
};
use crate::components::{
    set_ant_velocity, velocity_of, Agent, AntBehaviorState, AntState, FoodSource, MovementType, Nest, Rock, Velocity,
    WORLD_BOUND,
};
use crate::config::{SimConfig, MAX_AGENTS};
use crate::deposition::{
    along, emission_points, emitted, explorer_nest_amount, food_amount, intervals, nest_amount,
    deposit_along, emit_food_scent, explorer_deposit_amount, food_deposit_amount, nest_deposit_amount,
};
use crate::foraging::{food_collection_system, forage_step, sources_ok};
use crate::geometry::{ahead, bearing, dir_x, dir_y, dist_sq, distance_sq, in_bounds, nearest_heading, Point, HEADINGS, UNIT};
use crate::monitor::{performance_analysis_system, PerformanceTracker};
use crate::movement::{blocked, movement_system, rocks_ok, velocity_ok};
use crate::navigation::{stuck_check, trail_decided, trail_decision};
use crate::pheromones::{GridView, PheromoneGrid, PheromoneType, LEVEL_CAP};
use crate::swarm::{
    analyze_local_swarm_intelligence, calculate_collective_intelligence_bonus, count_crowding, discount_for_crowding,
    analysis_of, bias_at, crowding_percent, snapshot_ok, SwarmContext, Neighbor, CROWD_COUNT, CROWD_TRAIL_MS,
    STRUGGLING_MS,
};

verus! {

/// Sensing delay after a decision while following, and while exploring (ms).
pub const SENSE_FOLLOW_MS: u32 = 800;
pub const SENSE_EXPLORE_MS: u32 = 400;

/// An agent whose steps have been refused for longer than this (ms) is
/// colliding repeatedly, and lays alarm.
pub const ALARM_AFTER_MS: u32 = 600;

/// Alarm laid where an agent's step is refused by a rock, in field units.
pub const ALARM_DEPOSIT: u64 = 2_000_000;

/// Longest run, in milliseconds, that the counters are sized for.
pub const TIME_LIMIT: u64 = 100_000_000_000;

/// Random numbers a tick consumes per agent and per food source.
pub const ROLLS_PER_AGENT: usize = 3;
pub const ROLLS_PER_SOURCE: usize = 3;

/// A food source holds this much when it appears.
pub const SOURCE_AMOUNT: u32 = 100;

/// A respawned source too near the nest is put this far from it (world
/// units) along a random heading, or due east should rounding leave it
/// closer than `RESPAWN_MIN_DISTANCE`.
pub const RESPAWN_PUSH: i64 = 152;

/// Respawned sources keep at least this far from the nest (world units).
pub const RESPAWN_MIN_DISTANCE: i64 = 151;

/// An agent that the world can hold: valid state, on the grid, moving at
/// a bounded speed, clear of every rock.
pub open spec fn agent_ok(a: Agent, rocks: Seq<Rock>) -> bool {
    &&& a.state.wf()
    &&& in_bounds(a.position)
    &&& -WORLD_BOUND <= a.position.x <= WORLD_BOUND
    &&& -WORLD_BOUND <= a.position.y <= WORLD_BOUND
    &&& velocity_ok(a.velocity)
    &&& a.state.trail_strength <= LEVEL_CAP
    &&& !blocked(a.position, rocks)
}

pub open spec fn agents_ok(s: Seq<Agent>, rocks: Seq<Rock>) -> bool {
    forall|i: int| 0 <= i < s.len() ==> agent_ok(#[trigger] s[i], rocks)
}

/// The whole simulation state.
pub struct World {
    pub config: SimConfig,
    pub grid: PheromoneGrid,
    pub agents: Vec<Agent>,
    pub food: Vec<FoodSource>,
    pub nest: Nest,
    pub rocks: Vec<Rock>,
    pub tracker: PerformanceTracker,
    pub snapshot: Vec<Neighbor>,
    pub elapsed_ms: u64,
    pub with_obstacles: bool,
}

pub open spec fn minus_sat(a: int, b: int) -> int {
    if a >= b { a - b } else { 0 }
}

pub open spec fn plus_sat(a: int, b: int) -> int {
    if a + b > u32::MAX { u32::MAX as int } else { a + b }
}

/// Distance (sub-units) from `p` to the nearer edge of a world reaching
/// `half` sub-units from the origin on each axis.
pub open spec fn edge_proximity(p: Point, half: int) -> int {
    let ax = if p.x >= 0 { p.x as int } else { -p.x };
    let ay = if p.y >= 0 { p.y as int } else { -p.y };
    half - if ax >= ay { ax } else { ay }
}

/// Near an edge (sub-units) and without progress this long (ms), an agent
/// is an edge wanderer.
pub const EDGE_NEAR: i64 = 50 * UNIT;
pub const EDGE_STALL_MS: u32 = 10_000;

/// A turn of at least this many compass steps counts as a reversal.
pub const REVERSAL_STEPS: u8 = 6;

/// Within this distance of the nest (sub-units) a searching agent heads
/// straight away from it, committing for `NEAR_NEST_SENSE_MS`.
pub const NEAR_NEST: i64 = 100 * UNIT;
pub const NEAR_NEST_SENSE_MS: u32 = 1500;

/// An agent's state once its timers have run for `dt` ms and its edge
/// proximity is measured at `pos`, in a world reaching `half` sub-units.
pub open spec fn timed(s0: AntState, pos: Point, dt: int, half: int) -> AntState {
    let tsp = plus_sat(s0.time_since_progress as int, dt);
    let edge = edge_proximity(pos, half);
    AntState {
        sensing_timer: minus_sat(s0.sensing_timer as int, dt) as u32,
        startup_timer: minus_sat(s0.startup_timer as int, dt) as u32,
        time_since_progress: tsp as u32,
        trail_following_time: plus_sat(s0.trail_following_time as int, dt) as u32,
        world_edge_proximity: edge as i64,
        is_edge_wanderer: edge < EDGE_NEAR && tsp > EDGE_STALL_MS,
        ..s0
    }
}

/// `after`, with one more reversal counted when it turned at least
/// `REVERSAL_STEPS` from `before`.
pub open spec fn counted(before: AntState, after: AntState) -> AntState {
    AntState {
        direction_changes: if crate::geometry::heading_gap(before.current_direction as int, after.current_direction as int)
            >= REVERSAL_STEPS {
            plus_sat(before.direction_changes as int, 1) as u32
        } else {
            before.direction_changes
        },
        ..after
    }
}

/// The food samples a searching agent weighs: the eight-way scan at
/// `pos`, discounted by `crowding_percent` while it is swarming.
pub open spec fn samples_seen(g: GridView, pos: Point, s: AntState) -> Seq<u64> {
    Seq::new(
        8,
        |i: int| {
            let v = g.sample_directional(PheromoneType::Food, pos, 2 * i, crate::pheromones::SENSE_DISTANCE as int);
            (if s.is_swarming { v * (100 - crowding_percent(s.nearby_ant_count as int)) / 100 } else { v }) as u64
        },
    )
}

/// The per-direction bias of a neighbourhood analysis.
pub open spec fn bias_seq(c: SwarmContext) -> Seq<u64> {
    Seq::new(8, |i: int| bias_at(c, i) as u64)
}

/// Distance to the nearest detected trail: the scan distance when some
/// sample exceeds `threshold`, else `u64::MAX`.
pub open spec fn trail_distance(samples: Seq<u64>, threshold: int) -> u64 {
    if exists|i: int| 0 <= i < 8 && samples[i] > threshold {
        (crate::pheromones::SENSE_DISTANCE * UNIT) as u64
    } else {
        u64::MAX
    }
}

/// The heading a searching agent ends with after its trail decision
/// chose `r` and left it at `mid`: toward the least-travelled sector when
/// no trail was found and collective exploration applies, nudged by
/// `(roll / 3) % 3 - 1` steps when it follows a trail while swarming.
pub open spec fn searched_heading(mid: AntState, r: Option<usize>, c: SwarmContext, swarming: bool, roll: int) -> int {
    if r is None && c.should_use_collective_exploration {
        c.suggested_exploration_direction as int
    } else if swarming && mid.behavior_state == AntBehaviorState::Following {
        (mid.current_direction + (roll / 3) % 3 + 15) % 16
    } else {
        mid.current_direction as int
    }
}

/// A carrier at `pos` whose timed state is `pre` ends as `a1`, at carrying
/// speed: escaping the nearest sensed rock (`escapes`) it explores along
/// `escape_heading`; otherwise it takes the heading of `carrier_decided`.
pub open spec fn carried(pre: AntState, a1: Agent, g: GridView, rocks: Seq<Rock>, pos: Point, nest: Point) -> bool {
    let escaping = exists|j: int| #[trigger] escapes(pos, rocks, pre.stuck_timer as int, j);
    &&& escaping ==> exists|j: int| {
        let h = escape_heading(pos, nest, rocks[j].position);
        &&& #[trigger] escapes(pos, rocks, pre.stuck_timer as int, j)
        &&& a1.state == counted(pre, AntState {
            current_direction: h as u8,
            behavior_state: AntBehaviorState::Exploring,
            ..pre
        })
        &&& a1.velocity.x == velocity_of(h, MovementType::CarryingFood).0
        &&& a1.velocity.y == velocity_of(h, MovementType::CarryingFood).1
    }
    &&& !escaping ==> exists|mid: AntState, choice: CarrierChoice| {
        &&& #[trigger] carrier_decided(pre, mid, g, rocks, pos, nest, choice)
        &&& a1.state == counted(pre, mid)
        &&& a1.velocity.x == velocity_of(mid.current_direction as int, MovementType::CarryingFood).0
        &&& a1.velocity.y == velocity_of(mid.current_direction as int, MovementType::CarryingFood).1
    }
}

/// A searching agent at `pos` whose timed state is `pre` ends as `a1`:
/// the trail decision on `samples_seen` with the bias of its
/// neighbourhood analysis, then `searched_heading`, at following or
/// exploring speed.
pub open spec fn searched(
    pre: AntState,
    a1: Agent,
    g: GridView,
    pos: Point,
    snap: Seq<Neighbor>,
    me: int,
    config: SimConfig,
    dt: int,
    roll: int,
) -> bool {
    exists|c: SwarmContext, r: Option<usize>, mid: AntState| {
        &&& #[trigger] analysis_of(snap, me, pre.time_since_progress as int, roll, c)
        &&& #[trigger] trail_decided(
            pre,
            mid,
            samples_seen(g, pos, pre),
            bias_seq(c),
            g.sample_at(PheromoneType::Food, pos.x as int, pos.y as int),
            config.detection_threshold as int,
            config.saturation_limit as int,
            dt,
            roll,
            r,
        )
        &&& a1.state == counted(pre, AntState {
            current_direction: searched_heading(mid, r, c, pre.is_swarming, roll) as u8,
            can_see_trail: g.sample_at(PheromoneType::Food, pos.x as int, pos.y as int) > config.detection_threshold,
            distance_from_trail: trail_distance(samples_seen(g, pos, pre), config.detection_threshold as int),
            sensing_timer: if mid.behavior_state == AntBehaviorState::Following { SENSE_FOLLOW_MS } else { SENSE_EXPLORE_MS },
            ..mid
        })
        &&& a1.velocity.x == velocity_of(
            searched_heading(mid, r, c, pre.is_swarming, roll),
            if mid.behavior_state == AntBehaviorState::Following { MovementType::FollowingTrail } else { MovementType::Exploring },
        ).0
        &&& a1.velocity.y == velocity_of(
            searched_heading(mid, r, c, pre.is_swarming, roll),
            if mid.behavior_state == AntBehaviorState::Following { MovementType::FollowingTrail } else { MovementType::Exploring },
        ).1
    }
}

/// The decision part of sensing for agent `me` (`a0` becomes `a1`),
/// reading field `g`, the rocks, the nest, the snapshot and the
/// configuration, with random number `roll`.
///
/// Its timers run and its edge proximity is measured (`timed`). Still
/// starting up or collecting, it changes no further. A carrier takes
/// `carrier_decided`'s heading and moves at carrying speed. A searching
/// agent within `NEAR_NEST` of the nest heads straight away from it, every
/// tick. Further out, with its sensing delay still running it changes no
/// further; once the delay ran out it takes the trail decision on
/// `samples_seen` with its neighbourhood's bias, then `searched_heading`,
/// moving at following or exploring speed and re-sensing after
/// `SENSE_FOLLOW_MS` or `SENSE_EXPLORE_MS`. Each turn of `REVERSAL_STEPS`
/// or more is counted.
pub open spec fn sense_decided(
    a0: Agent,
    a1: Agent,
    g: GridView,
    rocks: Seq<Rock>,
    nest: Point,
    snap: Seq<Neighbor>,
    me: int,
    config: SimConfig,
    dt: int,
    roll: int,
) -> bool {
    let pos = a0.position;
    let pre = timed(a0.state, pos, dt, (config.world_size / 2) as int * UNIT);
    let idle = a0.state.food_collection_timer > 0 || pre.startup_timer > 0;
    let due = pre.sensing_timer == 0;
    let near = dist_sq(pos, nest) < NEAR_NEST * NEAR_NEST;
    &&& a1.position == a0.position
    &&& (idle || (!pre.carrying_food && !due && !near)) ==> a1 == (Agent { state: pre, ..a0 })
    &&& (!idle && pre.carrying_food) ==> carried(pre, a1, g, rocks, pos, nest)
    &&& (!idle && !pre.carrying_food && near) ==> {
        let h = bearing(pos.x - nest.x, pos.y - nest.y);
        &&& a1.state == counted(pre, AntState {
            current_direction: h as u8,
            behavior_state: AntBehaviorState::Exploring,
            sensing_timer: NEAR_NEST_SENSE_MS,
            ..pre
        })
        &&& a1.velocity.x == velocity_of(h, MovementType::Exploring).0
        &&& a1.velocity.y == velocity_of(h, MovementType::Exploring).1
    }
    &&& (!idle && !pre.carrying_food && due && !near) ==> searched(
        pre,
        a1,
        g,
        pos,
        snap,
        me,
        config,
        dt,
        roll,
    )
}

/// Stuck detection for an agent that has sensed and decided (`m`
/// becomes `a1`): less than `STUCK_DISTANCE` from its last position runs
/// the stuck timer, and past `STUCK_MS` the agent takes heading
/// `roll % 16` at recovery speed and explores again, the timer reset;
/// moving clears the timer and the count of recent reversals. The
/// position is recorded as the last one.
pub open spec fn unstuck(m: Agent, a1: Agent, dt: int, roll: int) -> bool {
    let s = m.state;
    let barely = crate::navigation::barely_moved(m.position, s.last_position);
    let t = s.stuck_timer + dt;
    let rec = barely && t > crate::navigation::STUCK_MS;
    &&& a1.position == m.position
    &&& a1.state == (AntState {
        stuck_timer: (if barely && !rec { t } else { 0 }) as u32,
        current_direction: if rec { (roll % 16) as u8 } else { s.current_direction },
        behavior_state: if rec { AntBehaviorState::Exploring } else { s.behavior_state },
        direction_changes: if barely { s.direction_changes } else { 0 },
        last_position: m.position,
        ..s
    })
    &&& rec ==> a1.velocity.x == velocity_of(roll % 16, MovementType::StuckRecovery).0
        && a1.velocity.y == velocity_of(roll % 16, MovementType::StuckRecovery).1
    &&& !rec ==> a1.velocity == m.velocity
}

/// What sensing does to agent `me` (`a0` becomes `a1`): the decision of
/// `sense_decided` (random number `roll`), then, for an agent neither
/// starting up nor collecting, stuck detection (`unstuck`, random number
/// `stuck_roll`).
pub open spec fn sense_effect(
    a0: Agent,
    a1: Agent,
    g: GridView,
    rocks: Seq<Rock>,
    nest: Point,
    snap: Seq<Neighbor>,
    me: int,
    config: SimConfig,
    dt: int,
    roll: int,
    stuck_roll: int,
) -> bool {
    let idle = a0.state.food_collection_timer > 0 || minus_sat(a0.state.startup_timer as int, dt) > 0;
    &&& idle ==> sense_decided(a0, a1, g, rocks, nest, snap, me, config, dt, roll)
    &&& !idle ==> exists|m: Agent| #[trigger] sense_decided(a0, m, g, rocks, nest, snap, me, config, dt, roll) && unstuck(m, a1, dt, stuck_roll)
}

fn sat_sub(a: u32, b: u32) -> (r: u32)
    ensures
        r == if a >= b { a - b } else { 0 },
{
    if a >= b { a - b } else { 0 }
}

fn sat_add(a: u32, b: u32) -> (r: u32)
    ensures
        r == if a + b > u32::MAX { u32::MAX as int } else { a + b },
{
    if a > u32::MAX - b { u32::MAX } else { a + b }
}

/// Sensing, deciding and stuck detection for one agent, as
/// `sense_effect` states.
fn sense_agent(
    agent: &mut Agent,
    grid: &PheromoneGrid,
    rocks: &Vec<Rock>,
    nest: Point,
    snapshot: &Vec<Neighbor>,
    me: usize,
    config: &SimConfig,
    dt_ms: u32,
    roll: u32,
    stuck_roll: u32,
)
    requires
        agent_ok(*old(agent), rocks@),
        grid.wf(),
        rocks_ok(rocks@),
        in_bounds(nest),
        me < snapshot@.len() < 1_000_000,
        snapshot_ok(snapshot@),
        config.wf(),
    ensures
        agent_ok(*final(agent), rocks@),
        sense_effect(
            *old(agent),
            *final(agent),
            grid@,
            rocks@,
            nest,
            snapshot@,
            me as int,
            *config,
            dt_ms as int,
            roll as int,
            stuck_roll as int,
        ),
{
    let idle = agent.state.food_collection_timer > 0 || sat_sub(agent.state.startup_timer, dt_ms) > 0;
    decide_agent(agent, grid, rocks, nest, snapshot, me, config, dt_ms, roll);
    if !idle {
        let ghost m = *agent;
        let pos = agent.position;
        if stuck_check(&mut agent.state, pos, dt_ms, stuck_roll) {
            set_ant_velocity(&mut agent.velocity, agent.state.current_direction, MovementType::StuckRecovery);
        }
        assert(unstuck(m, *agent, dt_ms as int, stuck_roll as int));
    }
}

/// Sensing and deciding for one agent, as `sense_decided` states.
#[verifier::rlimit(100)]
fn decide_agent(
    agent: &mut Agent,
    grid: &PheromoneGrid,
    rocks: &Vec<Rock>,
    nest: Point,
    snapshot: &Vec<Neighbor>,
    me: usize,
    config: &SimConfig,
    dt_ms: u32,
    roll: u32,
)
    requires
        agent_ok(*old(agent), rocks@),
        grid.wf(),
        rocks_ok(rocks@),
        in_bounds(nest),
        me < snapshot@.len() < 1_000_000,
        snapshot_ok(snapshot@),
        config.wf(),
    ensures
        agent_ok(*final(agent), rocks@),
        sense_decided(*old(agent), *final(agent), grid@, rocks@, nest, snapshot@, me as int, *config, dt_ms as int, roll as int),
{
    let ghost a0 = *agent;
    agent.state.sensing_timer = sat_sub(agent.state.sensing_timer, dt_ms);
    agent.state.startup_timer = sat_sub(agent.state.startup_timer, dt_ms);
    agent.state.time_since_progress = sat_add(agent.state.time_since_progress, dt_ms);
    agent.state.trail_following_time = sat_add(agent.state.trail_following_time, dt_ms);
    let p = agent.position;
    let ax = if p.x >= 0 { p.x } else { -p.x };
    let ay = if p.y >= 0 { p.y } else { -p.y };
    agent.state.world_edge_proximity = (config.world_size / 2) as i64 * UNIT - if ax >= ay { ax } else { ay };
    agent.state.is_edge_wanderer = agent.state.world_edge_proximity < EDGE_NEAR
        && agent.state.time_since_progress > EDGE_STALL_MS;
    let ghost pre = agent.state;
    assert(pre == timed(a0.state, a0.position, dt_ms as int, (config.world_size / 2) as int * UNIT));
    if agent.state.food_collection_timer > 0 || agent.state.startup_timer > 0 {
        return;
    }
    let d0 = agent.state.current_direction;
    let c0 = agent.state.direction_changes;
    let pos = agent.position;
    if !agent.state.carrying_food && distance_sq(pos, nest) < NEAR_NEST * NEAR_NEST {
        let h = nearest_heading((pos.x - nest.x) as i128, (pos.y - nest.y) as i128);
        agent.state.current_direction = h;
        agent.state.behavior_state = AntBehaviorState::Exploring;
        agent.state.sensing_timer = NEAR_NEST_SENSE_MS;
        set_ant_velocity(&mut agent.velocity, h, MovementType::Exploring);
        count_reversal(&mut agent.state, d0, c0);
        return;
    }
    if agent.state.carrying_food {
        if let Some(j) = rock_to_escape(pos, rocks, agent.state.stuck_timer) {
            assert(crate::movement::rock_ok(rocks@[j as int]));
            let h = escape_direction(pos, nest, rocks[j].position);
            agent.state.current_direction = h;
            agent.state.behavior_state = AntBehaviorState::Exploring;
            set_ant_velocity(&mut agent.velocity, h, MovementType::CarryingFood);
            count_reversal(&mut agent.state, d0, c0);
            assert(escapes(pos, rocks@, pre.stuck_timer as int, j as int));
            return;
        }
        let choice = carrier_decision(&mut agent.state, grid, rocks, pos, nest);
        let ghost mid = agent.state;
        set_ant_velocity(&mut agent.velocity, agent.state.current_direction, MovementType::CarryingFood);
        count_reversal(&mut agent.state, d0, c0);
        assert(carrier_decided(pre, mid, grid@, rocks@, pos, nest, choice));
        assert(agent.state == counted(pre, mid));
    } else if agent.state.sensing_timer == 0 {
        search_step(agent, grid, snapshot, me, config, dt_ms, roll, d0, c0);
    }
}

/// The decision of a searching agent whose sensing delay ran out, away
/// from the nest, as `searched` states.
#[verifier::rlimit(100)]
fn search_step(
    agent: &mut Agent,
    grid: &PheromoneGrid,
    snapshot: &Vec<Neighbor>,
    me: usize,
    config: &SimConfig,
    dt_ms: u32,
    roll: u32,
    d0: u8,
    c0: u32,
)
    requires
        old(agent).state.wf(),
        old(agent).state.trail_strength <= LEVEL_CAP,
        in_bounds(old(agent).position),
        d0 == old(agent).state.current_direction,
        c0 == old(agent).state.direction_changes,
        grid.wf(),
        me < snapshot@.len() < 1_000_000,
        snapshot_ok(snapshot@),
        config.wf(),
    ensures
        final(agent).state.wf(),
        final(agent).state.trail_strength <= LEVEL_CAP,
        final(agent).position == old(agent).position,
        velocity_ok(final(agent).velocity),
        searched(old(agent).state, *final(agent), grid@, old(agent).position, snapshot@, me as int, *config, dt_ms as int, roll as int),
{
    let ghost pre = agent.state;
    let pos = agent.position;
    let mut samples = grid.sample_all_directions(pos.x, pos.y, PheromoneType::Food);
    assert(forall|i: int| 0 <= i < 8 ==> samples@[i] <= LEVEL_CAP) by {
        assert forall|i: int| 0 <= i < 8 implies samples@[i] <= LEVEL_CAP by {
            crate::pheromones::lemma_directional_capped(grid@, PheromoneType::Food, pos, 2 * i, 25);
        }
    }
    if agent.state.is_swarming {
        discount_for_crowding(&mut samples, agent.state.nearby_ant_count);
    }
    assert(samples@ =~= samples_seen(grid@, pos, pre));
    let center = grid.sample_at(pos.x, pos.y, PheromoneType::Food);
    let ctx = analyze_local_swarm_intelligence(snapshot, me, agent.state.time_since_progress, roll);
    let bias = calculate_collective_intelligence_bonus(&ctx);
    assert(bias@ =~= bias_seq(ctx));
    let best = trail_decision(
        &mut agent.state,
        &samples,
        &bias,
        center,
        config.detection_threshold,
        config.saturation_limit,
        dt_ms,
        roll,
    );
    let ghost mid = agent.state;
    agent.state.can_see_trail = center > config.detection_threshold;
    agent.state.distance_from_trail = nearest_trail_distance(&samples, config.detection_threshold);
    if best.is_none() && ctx.should_use_collective_exploration {
        agent.state.current_direction = ctx.suggested_exploration_direction;
    } else if agent.state.is_swarming && agent.state.behavior_state == AntBehaviorState::Following {
        let d = agent.state.current_direction;
        agent.state.current_direction = (d + ((roll / 3) % 3) as u8 + 15) % 16;
    }
    if agent.state.behavior_state == AntBehaviorState::Following {
        set_ant_velocity(&mut agent.velocity, agent.state.current_direction, MovementType::FollowingTrail);
        agent.state.sensing_timer = SENSE_FOLLOW_MS;
    } else {
        set_ant_velocity(&mut agent.velocity, agent.state.current_direction, MovementType::Exploring);
        agent.state.sensing_timer = SENSE_EXPLORE_MS;
    }
    count_reversal(&mut agent.state, d0, c0);
    assert(trail_decided(
        pre,
        mid,
        samples_seen(grid@, pos, pre),
        bias_seq(ctx),
        grid@.sample_at(PheromoneType::Food, pos.x as int, pos.y as int),
        config.detection_threshold as int,
        config.saturation_limit as int,
        dt_ms as int,
        roll as int,
        best,
    ));
}

/// Counts a reversal when the heading turned `REVERSAL_STEPS` or more from `before`.
fn count_reversal(s: &mut AntState, before: u8, changes_before: u32)
    requires
        old(s).current_direction < HEADINGS,
        before < HEADINGS,
        old(s).direction_changes == changes_before,
    ensures
        *final(s) == (AntState {
            direction_changes: if crate::geometry::heading_gap(before as int, old(s).current_direction as int)
                >= REVERSAL_STEPS {
                plus_sat(changes_before as int, 1) as u32
            } else {
                changes_before
            },
            ..*old(s)
        }),
{
    if crate::geometry::gap(before, s.current_direction) >= REVERSAL_STEPS {
        s.direction_changes = sat_add(s.direction_changes, 1);
    }
}

fn nearest_trail_distance(samples: &[u64; 8], threshold: u64) -> (r: u64)
    ensures
        r == trail_distance(samples@, threshold as int),
{
    let mut i: usize = 0;
    while i < 8
        invariant
            i <= 8,
            forall|j: int| 0 <= j < i ==> samples@[j] <= threshold,
        decreases 8 - i,
    {
        if samples[i] > threshold {
            return (crate::pheromones::SENSE_DISTANCE * UNIT) as u64;
        }
        i = i + 1;
    }
    u64::MAX
}

/// Phase 1: every agent senses and decides, from last tick's field and
/// snapshot, and is checked for being stuck; agent `i` of `n` uses
/// `rolls[i]` for its decision and `rolls[n + i]` for stuck recovery.
pub fn sensing_system(
    agents: &mut Vec<Agent>,
    grid: &PheromoneGrid,
    rocks: &Vec<Rock>,
    nest: Point,
    snapshot: &Vec<Neighbor>,
    config: &SimConfig,
    dt_ms: u32,
    rolls: &Vec<u32>,
)
    requires
        agents_ok(old(agents)@, rocks@),
        grid.wf(),
        rocks_ok(rocks@),
        in_bounds(nest),
        snapshot@.len() == old(agents)@.len(),
        old(agents)@.len() <= MAX_AGENTS,
        snapshot_ok(snapshot@),
        config.wf(),
        rolls@.len() >= 2 * old(agents)@.len(),
    ensures
        agents_ok(final(agents)@, rocks@),
        final(agents)@.len() == old(agents)@.len(),
        forall|i: int|
            0 <= i < final(agents)@.len() ==> sense_effect(
                old(agents)@[i],
                #[trigger] final(agents)@[i],
                grid@,
                rocks@,
                nest,
                snapshot@,
                i,
                *config,
                dt_ms as int,
                rolls@[i] as int,
                rolls@[old(agents)@.len() + i] as int,
            ),
{
    let ghost start = agents@;
    let mut i: usize = 0;
    while i < agents.len()
        invariant
            agents@.len() == start.len(),
            agents_ok(agents@, rocks@),
            grid.wf(),
            rocks_ok(rocks@),
            in_bounds(nest),
            snapshot@.len() == start.len(),
            start.len() <= MAX_AGENTS,
            snapshot_ok(snapshot@),
            config.wf(),
            rolls@.len() >= 2 * start.len(),
            i <= agents@.len(),
            forall|k: int|
                0 <= k < i ==> sense_effect(
                    start[k],
                    #[trigger] agents@[k],
                    grid@,
                    rocks@,
                    nest,
                    snapshot@,
                    k,
                    *config,
                    dt_ms as int,
                    rolls@[k] as int,
                    rolls@[start.len() + k] as int,
                ),
            forall|k: int| i <= k < agents@.len() ==> #[trigger] agents@[k] == start[k],
        decreases agents@.len() - i,
    {
        let mut a = agents[i];
        assert(agent_ok(agents@[i as int], rocks@));
        sense_agent(&mut a, grid, rocks, nest, snapshot, i, config, dt_ms, rolls[i], rolls[agents.len() + i]);
        agents.set(i, a);
        i = i + 1;
    }
}

/// The longer axis of the move from `a` to `b`.
pub open spec fn cheb(a: Point, b: Point) -> int {
    let dx = if a.x >= b.x { a.x - b.x } else { b.x - a.x };
    let dy = if a.y >= b.y { a.y - b.y } else { b.y - a.y };
    if dx >= dy { dx } else { dy }
}

/// A carrier's odometer after moving to `to`, saturating.
pub open spec fn odometer(s: AntState, to: Point) -> AntState {
    if s.carrying_food {
        let d = s.distance_from_food + cheb(s.last_position, to);
        AntState { distance_from_food: (if d > u64::MAX { u64::MAX as int } else { d }) as u64, ..s }
    } else {
        s
    }
}

/// What the deposit phase does to one agent (`a0` becomes `a1`) besides
/// laying its trail: a carrier's odometer runs; nothing else changes.
pub open spec fn settled(a0: Agent, a1: Agent) -> bool {
    a1 == (Agent { state: odometer(a0.state, a0.position), ..a0 })
}

fn chebyshev(a: Point, b: Point) -> (r: u64)
    requires
        in_bounds(a),
        in_bounds(b),
    ensures
        r <= 2_000_000_000,
        r == cheb(a, b),
{
    let dx = if a.x >= b.x { a.x - b.x } else { b.x - a.x };
    let dy = if a.y >= b.y { a.y - b.y } else { b.y - a.y };
    (if dx >= dy { dx } else { dy }) as u64
}

/// The field after one agent lays its trail along its last move (from its
/// last position to its position): a carrier lays food, fading with the
/// distance it has carried, and nest trail; an agent that has delivered
/// before lays a weak nest trail; and an agent whose steps keep being
/// refused (standing still with a velocity, active, not collecting, stuck
/// past `ALARM_AFTER_MS`), or a carrier escaping a rock (`escapes`), lays
/// alarm where it stands.
pub open spec fn trail_laid(g: GridView, a: Agent, config: SimConfig, nest: Point, rocks: Seq<Rock>) -> GridView {
    let s = a.state;
    let from = s.last_position;
    let to = a.position;
    let n = intervals(from, to);
    let g1 = if s.carrying_food {
        let f = food_amount(config.lay_rate_food as int, config.food_quality_weight as int, s.distance_from_food as int);
        let m = nest_amount(config.lay_rate_nest as int, dist_sq(to, nest), s.successful_deliveries as int);
        along(along(g, PheromoneType::Food, from, to, n, f / (n + 1), n + 1), PheromoneType::Nest, from, to, n, m / (n + 1), n + 1)
    } else {
        let e = explorer_nest_amount(config.lay_rate_nest as int, s.successful_deliveries as int);
        if e > 0 { along(g, PheromoneType::Nest, from, to, n, e / (n + 1), n + 1) } else { g }
    };
    if (from == to && (a.velocity.x != 0 || a.velocity.y != 0) && s.startup_timer == 0 && s.food_collection_timer == 0
        && s.stuck_timer > ALARM_AFTER_MS) || (s.carrying_food && exists|j: int| #[trigger] escapes(to, rocks, s.stuck_timer as int, j)) {
        g1.deposit(PheromoneType::Alarm, to.x as int, to.y as int, ALARM_DEPOSIT as int)
    } else {
        g1
    }
}

/// The field after the first `k` agents lay their trails, in order.
pub open spec fn trails_laid(g: GridView, agents: Seq<Agent>, config: SimConfig, nest: Point, rocks: Seq<Rock>, k: int) -> GridView
    decreases k,
{
    if k <= 0 { g } else { trail_laid(trails_laid(g, agents, config, nest, rocks, k - 1), agents[k - 1], config, nest, rocks) }
}

/// Phase 2 for one agent: trail deposits along this tick's move, alarm
/// where its steps keep being refused or it escapes a rock, and the
/// odometer.
fn settle_agent(
    agent: &mut Agent,
    grid: &mut PheromoneGrid,
    rocks: &Vec<Rock>,
    nest: Point,
    config: &SimConfig,
)
    requires
        agent_ok(*old(agent), rocks@),
        old(grid).wf(),
        rocks_ok(rocks@),
        in_bounds(nest),
        config.wf(),
    ensures
        agent_ok(*final(agent), rocks@),
        final(grid).wf(),
        final(grid)@ == trail_laid(old(grid)@, *old(agent), *config, nest, rocks@),
        final(grid).width == old(grid).width,
        final(grid).height == old(grid).height,
        final(agent).position == old(agent).position,
        final(agent).state.carrying_food == old(agent).state.carrying_food,
        final(agent).state.successful_deliveries == old(agent).state.successful_deliveries,
        final(agent).state.delivery_attempts == old(agent).state.delivery_attempts,
        settled(*old(agent), *final(agent)),
{
    let from = agent.state.last_position;
    let to = agent.position;
    let deliveries = agent.state.successful_deliveries;
    if agent.state.carrying_food {
        let f = food_deposit_amount(config.lay_rate_food, config.food_quality_weight, agent.state.distance_from_food);
        deposit_along(grid, PheromoneType::Food, from, to, f);
        let n = nest_deposit_amount(config.lay_rate_nest, distance_sq(to, nest), deliveries);
        deposit_along(grid, PheromoneType::Nest, from, to, n);
        let moved = chebyshev(from, to);
        agent.state.distance_from_food = if agent.state.distance_from_food > u64::MAX - moved {
            u64::MAX
        } else {
            agent.state.distance_from_food + moved
        };
    } else {
        let e = explorer_deposit_amount(config.lay_rate_nest, deliveries);
        if e > 0 {
            deposit_along(grid, PheromoneType::Nest, from, to, e);
        }
    }
    let moving = agent.velocity.x != 0 || agent.velocity.y != 0;
    let escaping = agent.state.carrying_food && rock_to_escape(to, rocks, agent.state.stuck_timer).is_some();
    if (from == to && moving && agent.state.startup_timer == 0 && agent.state.food_collection_timer == 0
        && agent.state.stuck_timer > ALARM_AFTER_MS) || escaping {
        grid.deposit(to.x, to.y, PheromoneType::Alarm, ALARM_DEPOSIT);
    }
}

/// Phase 2: every agent lays its trail along this tick's move.
pub fn pheromone_deposit_system(
    agents: &mut Vec<Agent>,
    grid: &mut PheromoneGrid,
    rocks: &Vec<Rock>,
    nest: Point,
    config: &SimConfig,
)
    requires
        agents_ok(old(agents)@, rocks@),
        old(grid).wf(),
        rocks_ok(rocks@),
        in_bounds(nest),
        config.wf(),
        old(agents)@.len() <= MAX_AGENTS,
    ensures
        agents_ok(final(agents)@, rocks@),
        final(grid).wf(),
        final(grid)@ == trails_laid(old(grid)@, old(agents)@, *config, nest, rocks@, old(agents)@.len() as int),
        final(grid).width == old(grid).width,
        final(grid).height == old(grid).height,
        final(agents)@.len() == old(agents)@.len(),
        forall|i: int| 0 <= i < final(agents)@.len() ==> settled(old(agents)@[i], #[trigger] final(agents)@[i]),
        forall|i: int|
            0 <= i < final(agents)@.len() ==> (#[trigger] final(agents)@[i]).state.successful_deliveries == old(
                agents,
            )@[i].state.successful_deliveries && final(agents)@[i].state.delivery_attempts == old(
                agents,
            )@[i].state.delivery_attempts,
{
    let ghost start = agents@;
    let ghost g0 = grid@;
    let mut i: usize = 0;
    while i < agents.len()
        invariant
            agents@.len() == start.len(),
            agents_ok(agents@, rocks@),
            grid.wf(),
            rocks_ok(rocks@),
            grid.width == g0.width,
            grid.height == g0.height,
            in_bounds(nest),
            config.wf(),
            start.len() <= MAX_AGENTS,
            i <= agents@.len(),
            grid@ == trails_laid(g0, start, *config, nest, rocks@, i as int),
            forall|k: int|
                0 <= k < agents@.len() ==> (#[trigger] agents@[k]).state.successful_deliveries
                    == start[k].state.successful_deliveries && agents@[k].state.delivery_attempts
                    == start[k].state.delivery_attempts,
            forall|k: int| 0 <= k < i ==> settled(start[k], #[trigger] agents@[k]),
            forall|k: int| i <= k < agents@.len() ==> #[trigger] agents@[k] == start[k],
        decreases agents@.len() - i,
    {
        let mut a = agents[i];
        assert(agent_ok(agents@[i as int], rocks@));
        settle_agent(&mut a, grid, rocks, nest, config);
        agents.set(i, a);
        i = i + 1;
    }
}

/// The field after the first `k` sources emit their scent, in order.
pub open spec fn scents_emitted(g: GridView, food: Seq<FoodSource>, k: int) -> GridView
    decreases k,
{
    if k <= 0 { g } else { emitted(scents_emitted(g, food, k - 1), food[k - 1].position, emission_points()) }
}

/// Phase 3: every food source emits its scent, then the field evaporates
/// and diffuses at the configured rates.
pub fn pheromone_update_system(grid: &mut PheromoneGrid, food: &Vec<FoodSource>, config: &SimConfig)
    requires
        old(grid).wf(),
        sources_ok(food@),
        config.wf(),
    ensures
        final(grid).wf(),
        final(grid)@ == scents_emitted(old(grid)@, food@, food@.len() as int).update(
            (config.evap_food as int, config.evap_nest as int, config.evap_alarm as int),
            (config.diff_food as int, config.diff_nest as int, config.diff_alarm as int),
        ),
        final(grid).width == old(grid).width,
        final(grid).height == old(grid).height,
{
    let ghost g0 = grid@;
    let mut j: usize = 0;
    while j < food.len()
        invariant
            grid.wf(),
            grid.width == g0.width,
            grid.height == g0.height,
            grid@ == scents_emitted(g0, food@, j as int),
            sources_ok(food@),
            j <= food@.len(),
        decreases food@.len() - j,
    {
        assert(in_bounds(food@[j as int].position));
        emit_food_scent(grid, food[j].position);
        j = j + 1;
    }
    let evap = (config.evap_food, config.evap_nest, config.evap_alarm);
    let diff = (config.diff_food, config.diff_nest, config.diff_alarm);
    grid.update(evap, diff);
}

/// Room in every counter for one more tick.
pub open spec fn counters_have_room(agents: Seq<Agent>, tracker: PerformanceTracker) -> bool {
    &&& tracker.successful_deliveries + agents.len() < u64::MAX
    &&& tracker.total_food_collected + agents.len() < u64::MAX
    &&& forall|i: int|
        0 <= i < agents.len() ==> (#[trigger] agents[i]).state.successful_deliveries < u32::MAX
            && agents[i].state.delivery_attempts < u32::MAX
}

/// Number of the first `n` agents that went from carrying to not carrying.
pub open spec fn count_delivered(a0: Seq<Agent>, a1: Seq<Agent>, n: int) -> int
    decreases n,
{
    if n <= 0 {
        0
    } else {
        count_delivered(a0, a1, n - 1) + if a0[n - 1].state.carrying_food && !a1[n - 1].state.carrying_food {
            1int
        } else {
            0
        }
    }
}

/// Number of the first `n` agents carrying food.
pub open spec fn count_carrying(a: Seq<Agent>, n: int) -> int
    decreases n,
{
    if n <= 0 { 0 } else { count_carrying(a, n - 1) + if a[n - 1].state.carrying_food { 1int } else { 0 } }
}

/// The agents `a0` became `a1` by one `forage_step` each, in order, with
/// the sources passing through `fs` and the tracker through `ts`; agent `k`
/// uses `rolls[base + k]`.
pub open spec fn foraged_in_order(
    a0: Seq<Agent>,
    a1: Seq<Agent>,
    fs: Seq<Seq<FoodSource>>,
    ts: Seq<PerformanceTracker>,
    nest: Point,
    now: u64,
    dt_ms: u32,
    rolls: Seq<u32>,
    base: int,
    n: int,
) -> bool {
    &&& fs.len() == n + 1
    &&& ts.len() == n + 1
    &&& forall|k: int|
        0 <= k < n ==> #[trigger] forage_step(a0[k], a1[k], fs[k], fs[k + 1], ts[k], ts[k + 1], nest, now, dt_ms, rolls[base + k])
}

/// Phase 4: the foraging cycle of every agent, in order; agent `i` uses
/// `rolls[2 n + i]` of `n` agents.
pub fn forage_all(
    agents: &mut Vec<Agent>,
    food: &mut Vec<FoodSource>,
    nest: Point,
    tracker: &mut PerformanceTracker,
    now: u64,
    dt_ms: u32,
    rocks: &Vec<Rock>,
    rolls: &Vec<u32>,
)
    requires
        agents_ok(old(agents)@, rocks@),
        sources_ok(old(food)@),
        in_bounds(nest),
        old(tracker).wf(),
        counters_have_room(old(agents)@, *old(tracker)),
        rolls@.len() >= 3 * old(agents)@.len(),
        old(agents)@.len() <= MAX_AGENTS,
    ensures
        agents_ok(final(agents)@, rocks@),
        sources_ok(final(food)@),
        final(food)@.len() == old(food)@.len(),
        final(agents)@.len() == old(agents)@.len(),
        final(tracker).wf(),
        old(tracker).successful_deliveries <= final(tracker).successful_deliveries
            <= old(tracker).successful_deliveries + old(agents)@.len(),
        final(tracker).total_food_collected <= old(tracker).total_food_collected + old(agents)@.len(),
        final(tracker).total_food_collected + crate::foraging::total_amount(final(food)@) == old(
            tracker,
        ).total_food_collected + crate::foraging::total_amount(old(food)@),
        forall|j: int|
            0 <= j < final(food)@.len() ==> (#[trigger] final(food)@[j]).max_amount == old(food)@[j].max_amount,
        exists|fs: Seq<Seq<FoodSource>>, ts: Seq<PerformanceTracker>| {
            &&& #[trigger] foraged_in_order(
                old(agents)@,
                final(agents)@,
                fs,
                ts,
                nest,
                now,
                dt_ms,
                rolls@,
                2 * old(agents)@.len() as int,
                old(agents)@.len() as int,
            )
            &&& fs[0] == old(food)@
            &&& ts[0] == *old(tracker)
            &&& fs[old(agents)@.len() as int] == final(food)@
            &&& ts[old(agents)@.len() as int] == *final(tracker)
        },
        final(tracker).successful_deliveries == old(tracker).successful_deliveries + count_delivered(
            old(agents)@,
            final(agents)@,
            old(agents)@.len() as int,
        ),
        final(tracker).total_food_collected - final(tracker).successful_deliveries - count_carrying(
            final(agents)@,
            final(agents)@.len() as int,
        ) == old(tracker).total_food_collected - old(tracker).successful_deliveries - count_carrying(
            old(agents)@,
            old(agents)@.len() as int,
        ),
{
    let ghost start = agents@;
    let ghost t0 = *tracker;
    let ghost f0 = food@;
    let ghost mut fs: Seq<Seq<FoodSource>> = seq![food@];
    let ghost mut ts: Seq<PerformanceTracker> = seq![*tracker];
    let mut i: usize = 0;
    while i < agents.len()
        invariant
            agents@.len() == start.len(),
            agents_ok(agents@, rocks@),
            sources_ok(food@),
            food@.len() == f0.len(),
            in_bounds(nest),
            tracker.wf(),
            rolls@.len() >= 3 * start.len(),
            start.len() <= MAX_AGENTS,
            counters_have_room(start, t0),
            i <= agents@.len(),
            t0.successful_deliveries <= tracker.successful_deliveries <= t0.successful_deliveries + i,
            tracker.total_food_collected <= t0.total_food_collected + i,
            tracker.total_food_collected + crate::foraging::total_amount(food@) == t0.total_food_collected
                + crate::foraging::total_amount(f0),
            forall|j: int| 0 <= j < food@.len() ==> (#[trigger] food@[j]).max_amount == f0[j].max_amount,
            forall|k: int| i <= k < agents@.len() ==> #[trigger] agents@[k] == start[k],
            foraged_in_order(start, agents@, fs, ts, nest, now, dt_ms, rolls@, 2 * start.len() as int, i as int),
            fs[0] == f0,
            ts[0] == t0,
            fs[i as int] == food@,
            ts[i as int] == *tracker,
            tracker.successful_deliveries == t0.successful_deliveries + count_delivered(start, agents@, i as int),
            tracker.total_food_collected - tracker.successful_deliveries - count_carrying(agents@, i as int)
                == t0.total_food_collected - t0.successful_deliveries - count_carrying(start, i as int),
        decreases agents@.len() - i,
    {
        let mut a = agents[i];
        assert(agent_ok(agents@[i as int], rocks@));
        assert(a == start[i as int]);
        let ghost prev = agents@;
        food_collection_system(&mut a, food, nest, tracker, now, dt_ms, rolls[2 * agents.len() + i]);
        agents.set(i, a);
        proof {
            fs = fs.push(food@);
            ts = ts.push(*tracker);
            assert forall|k: int| 0 <= k < i + 1 implies #[trigger] forage_step(start[k], agents@[k], fs[k], fs[k + 1], ts[k], ts[k + 1], nest, now, dt_ms, rolls@[2 * start.len() + k]) by {
                if k < i {
                    assert(prev[k] == agents@[k]);
                    assert(forage_step(start[k], prev[k], fs[k], fs[k + 1], ts[k], ts[k + 1], nest, now, dt_ms, rolls@[2 * start.len() + k]));
                }
            }
            lemma_counts_prefix(start, prev, agents@, i as int, i as int);
        }
        i = i + 1;
    }
    proof {
        assert(agents@.len() == start.len());
    }
}

proof fn lemma_counts_prefix(a0: Seq<Agent>, p: Seq<Agent>, q: Seq<Agent>, k: int, i: int)
    requires
        0 <= k <= i,
        i < p.len(),
        p.len() == q.len(),
        forall|j: int| 0 <= j < i ==> p[j] == q[j],
    ensures
        count_delivered(a0, p, k) == count_delivered(a0, q, k),
        count_carrying(p, k) == count_carrying(q, k),
    decreases k,
{
    if k > 0 {
        lemma_counts_prefix(a0, p, q, k - 1, i);
    }
}

/// The snapshot of positions, carrying states and delivery counts.
pub fn rebuild_snapshot(agents: &Vec<Agent>) -> (r: Vec<Neighbor>)
    ensures
        r@.len() == agents@.len(),
        forall|i: int|
            0 <= i < r@.len() ==> #[trigger] r@[i] == (Neighbor {
                position: agents@[i].position,
                carrying_food: agents@[i].state.carrying_food,
                successful_deliveries: agents@[i].state.successful_deliveries,
            }),
{
    let mut r: Vec<Neighbor> = Vec::new();
    let mut i: usize = 0;
    while i < agents.len()
        invariant
            i <= agents@.len(),
            r@.len() == i,
            forall|k: int|
                0 <= k < i ==> #[trigger] r@[k] == (Neighbor {
                    position: agents@[k].position,
                    carrying_food: agents@[k].state.carrying_food,
                    successful_deliveries: agents@[k].state.successful_deliveries,
                }),
        decreases agents@.len() - i,
    {
        let a = agents[i];
        r.push(Neighbor {
            position: a.position,
            carrying_food: a.state.carrying_food,
            successful_deliveries: a.state.successful_deliveries,
        });
        i = i + 1;
    }
    r
}

/// Crowding: each agent's count of close neighbours, and whether it is
/// swarming (`CROWD_COUNT` or more while on a trail past `CROWD_TRAIL_MS`).
pub fn ant_proximity_analysis_system(agents: &mut Vec<Agent>, snapshot: &Vec<Neighbor>)
    requires
        snapshot@.len() == old(agents)@.len(),
        old(agents)@.len() <= MAX_AGENTS,
        snapshot_ok(snapshot@),
    ensures
        final(agents)@.len() == old(agents)@.len(),
        forall|i: int|
            0 <= i < final(agents)@.len() ==> #[trigger] final(agents)@[i] == (Agent {
                state: AntState {
                    nearby_ant_count: crate::swarm::count_near(
                        snapshot@,
                        i,
                        crate::swarm::CROWD_RADIUS as int,
                        snapshot@.len() as int,
                    ) as u32,
                    is_swarming: crate::swarm::count_near(
                        snapshot@,
                        i,
                        crate::swarm::CROWD_RADIUS as int,
                        snapshot@.len() as int,
                    ) >= CROWD_COUNT && old(agents)@[i].state.trail_following_time > CROWD_TRAIL_MS,
                    ..old(agents)@[i].state
                },
                ..old(agents)@[i]
            }),
{
    let ghost start = agents@;
    let mut i: usize = 0;
    while i < agents.len()
        invariant
            agents@.len() == start.len(),
            snapshot@.len() == start.len(),
            start.len() <= MAX_AGENTS,
            snapshot_ok(snapshot@),
            i <= agents@.len(),
            forall|k: int|
                0 <= k < i ==> #[trigger] agents@[k] == (Agent {
                    state: AntState {
                        nearby_ant_count: crate::swarm::count_near(
                            snapshot@,
                            k,
                            crate::swarm::CROWD_RADIUS as int,
                            snapshot@.len() as int,
                        ) as u32,
                        is_swarming: crate::swarm::count_near(
                            snapshot@,
                            k,
                            crate::swarm::CROWD_RADIUS as int,
                            snapshot@.len() as int,
                        ) >= CROWD_COUNT && start[k].state.trail_following_time > CROWD_TRAIL_MS,
                        ..start[k].state
                    },
                    ..start[k]
                }),
            forall|k: int| i <= k < agents@.len() ==> #[trigger] agents@[k] == start[k],
        decreases agents@.len() - i,
    {
        let mut a = agents[i];
        let n = count_crowding(snapshot, i);
        a.state.nearby_ant_count = n;
        a.state.is_swarming = n >= CROWD_COUNT && a.state.trail_following_time > CROWD_TRAIL_MS;
        agents.set(i, a);
        i = i + 1;
    }
}

/// Phase 4b: each depleted source is replaced by a fresh one, at
/// (`roll_a`, `roll_b`) within the central 40% of the world, or, closer
/// than `RESPAWN_MIN_DISTANCE` to the nest, that far from the nest along
/// heading `roll_c % 16`.
#[verifier::rlimit(60)]
fn respawn_depleted(food: &mut Vec<FoodSource>, nest: Point, world_size: usize, rolls: &Vec<u32>, base: usize)
    requires
        sources_ok(old(food)@),
        in_bounds(nest),
        -1_000_000 * UNIT <= nest.x <= 1_000_000 * UNIT,
        -1_000_000 * UNIT <= nest.y <= 1_000_000 * UNIT,
        0 < world_size <= crate::pheromones::MAX_SIDE,
        base + 3 * old(food)@.len() <= rolls@.len(),
    ensures
        sources_ok(final(food)@),
        final(food)@.len() == old(food)@.len(),
        forall|j: int|
            0 <= j < final(food)@.len() ==> replenished(
                old(food)@[j],
                #[trigger] final(food)@[j],
                nest,
                respawn_spot(nest, rolls@, base as int, j, world_size as int),
            ),
{
    let ghost f0 = food@;
    let range = (world_size * 4 / 10) as u32 + 1;
    let total = rolls.len();
    let mut j: usize = 0;
    while j < food.len()
        invariant
            f0.len() == food@.len(),
            sources_ok(food@),
            in_bounds(nest),
            -1_000_000 * UNIT <= nest.x <= 1_000_000 * UNIT,
            -1_000_000 * UNIT <= nest.y <= 1_000_000 * UNIT,
            0 < world_size <= crate::pheromones::MAX_SIDE,
            range == (world_size * 4 / 10) as u32 + 1,
            base + 3 * f0.len() <= rolls@.len(),
            total == rolls@.len(),
            j <= food@.len(),
            forall|k: int| 0 <= k < j ==> replenished(f0[k], #[trigger] food@[k], nest, respawn_spot(nest, rolls@, base as int, k, world_size as int)),
            forall|k: int| j <= k < food@.len() ==> #[trigger] food@[k] == f0[k],
        decreases food@.len() - j,
    {
        if food[j].amount == 0 {
            assert(base + 3 * j + 2 < rolls@.len());
            let half = (range / 2) as i64;
            let x = ((rolls[base + 3 * j] % range) as i64 - half) * UNIT;
            let y = ((rolls[base + 3 * j + 1] % range) as i64 - half) * UNIT;
            let p = Point { x, y };
            let min = RESPAWN_MIN_DISTANCE * UNIT;
            let position = if distance_sq(p, nest) < min * min {
                let h = (rolls[base + 3 * j + 2] % 16) as u8;
                let q = crate::geometry::step_ahead(nest, h, RESPAWN_PUSH);
                if distance_sq(q, nest) >= min * min {
                    q
                } else {
                    let far = Point { x: nest.x + RESPAWN_PUSH * UNIT, y: nest.y };
                    assert(dist_sq(far, nest) == 9728 * 9728) by {
                        assert(far.x - nest.x == 9728 && far.y - nest.y == 0);
                    }
                    far
                }
            } else {
                p
            };
            assert(dist_sq(position, nest) >= min * min);
            let ghost before = food@;
            assert(sources_ok(before));
            food.set(j, FoodSource { position, amount: SOURCE_AMOUNT, max_amount: SOURCE_AMOUNT });
            assert(position == respawn_spot(nest, rolls@, base as int, j as int, world_size as int));
            assert(replenished(f0[j as int], food@[j as int], nest, respawn_spot(nest, rolls@, base as int, j as int, world_size as int)));
            assert forall|k: int| 0 <= k < j implies replenished(f0[k], #[trigger] food@[k], nest, respawn_spot(nest, rolls@, base as int, k, world_size as int)) by {
                assert(food@[k] == before[k]);
            }
            assert(in_bounds(position));
            assert forall|k: int| 0 <= k < food@.len() implies in_bounds(#[trigger] food@[k].position)
                && food@[k].amount <= food@[k].max_amount by {
                if k == j {
                    assert(food@[k].position == position);
                } else {
                    assert(food@[k] == before[k]);
                    assert(in_bounds(before[k].position) && before[k].amount <= before[k].max_amount);
                }
            }
        }
        j = j + 1;
    }
}

/// `a` after moving by its velocity over `dt`, refused by `rocks`.
pub open spec fn moved(a: Agent, dt: int, rocks: Seq<Rock>) -> Agent {
    Agent { position: crate::movement::resolved(a.position, a.velocity, dt, rocks), ..a }
}

/// The snapshot of a sequence of agents.
pub open spec fn snapshot_of(a: Seq<Agent>) -> Seq<Neighbor> {
    Seq::new(
        a.len(),
        |i: int|
            Neighbor {
                position: a[i].position,
                carrying_food: a[i].state.carrying_food,
                successful_deliveries: a[i].state.successful_deliveries,
            },
    )
}

/// `a` with its crowding recounted against snapshot `snap` as agent `i`.
pub open spec fn crowded(a: Agent, snap: Seq<Neighbor>, i: int) -> Agent {
    let n = crate::swarm::count_near(snap, i, crate::swarm::CROWD_RADIUS as int, snap.len() as int);
    Agent {
        state: AntState {
            nearby_ant_count: n as u32,
            is_swarming: n >= CROWD_COUNT && a.state.trail_following_time > CROWD_TRAIL_MS,
            ..a.state
        },
        ..a
    }
}

/// Source `f1` replaces `f0` when `f0` is depleted, else is `f0`.
pub open spec fn replenished(f0: FoodSource, f1: FoodSource, nest: Point, spot: Point) -> bool {
    if f0.amount > 0 {
        f1 == f0
    } else {
        &&& f1 == (FoodSource { position: spot, amount: SOURCE_AMOUNT, max_amount: SOURCE_AMOUNT })
        &&& dist_sq(spot, nest) >= (RESPAWN_MIN_DISTANCE * UNIT) * (RESPAWN_MIN_DISTANCE * UNIT)
    }
}

/// Where depleted source `j` reappears: at (`rolls[base + 3j] % r - r/2`,
/// `rolls[base + 3j + 1] % r - r/2`) world units, `r` being 40% of the
/// world plus one, or, closer than `RESPAWN_MIN_DISTANCE` to the nest,
/// `RESPAWN_PUSH` units from the nest along heading
/// `rolls[base + 3j + 2] % 16` (due east should rounding leave that too close).
pub open spec fn respawn_spot(nest: Point, rolls: Seq<u32>, base: int, j: int, world_size: int) -> Point {
    let range = world_size * 4 / 10 + 1;
    let half = range / 2;
    let p = Point {
        x: (((rolls[base + 3 * j] as int) % range - half) * UNIT) as i64,
        y: (((rolls[base + 3 * j + 1] as int) % range - half) * UNIT) as i64,
    };
    let min = RESPAWN_MIN_DISTANCE * UNIT;
    if dist_sq(p, nest) >= min * min {
        p
    } else {
        let q = Point {
            x: ahead(nest, (rolls[base + 3 * j + 2] as int) % 16, RESPAWN_PUSH as int).0 as i64,
            y: ahead(nest, (rolls[base + 3 * j + 2] as int) % 16, RESPAWN_PUSH as int).1 as i64,
        };
        if dist_sq(q, nest) >= min * min { q } else { Point { x: (nest.x + RESPAWN_PUSH * UNIT) as i64, y: nest.y } }
    }
}

/// The four agent stages of a tick all hold `n` agents.
pub open spec fn stages(
    n: int,
    s1: Seq<Agent>,
    s2: Seq<Agent>,
    s3: Seq<Agent>,
    s4: Seq<Agent>,
    tf: PerformanceTracker,
    ff: Seq<FoodSource>,
) -> bool {
    s1.len() == n && s2.len() == n && s3.len() == n && s4.len() == n
}

/// One tick, from world `w0` to `w1` with random numbers `rolls`, phase by
/// phase: every agent senses and is checked for being stuck
/// (`sense_effect`, giving `s1`), moves (`moved`, giving `s2`) and lays its
/// trail (`settled`, giving `s3`); the field is the trails of `s2`, then the
/// sources' scent, then evaporation and diffusion; the agents forage in
/// order (giving `s4`), depleted sources are replaced, the snapshot is
/// rebuilt from `s4`, crowding is recounted against it, and the monitor
/// recounts over the result, `end` being its verdict.
pub open spec fn tick_effect(w0: World, w1: World, dt: int, rolls: Seq<u32>, end: bool) -> bool {
    let n = w0.agents@.len() as int;
    let nest = w0.nest.position;
    let now = w0.elapsed_ms + dt;
    let c = w0.config;
    exists|s1: Seq<Agent>, s2: Seq<Agent>, s3: Seq<Agent>, s4: Seq<Agent>, tf: PerformanceTracker, ff: Seq<FoodSource>| {
        &&& #[trigger] stages(n, s1, s2, s3, s4, tf, ff)
        &&& forall|i: int|
            0 <= i < n ==> #[trigger] sense_effect(w0.agents@[i], s1[i], w0.grid@, w0.rocks@, nest, w0.snapshot@, i, c, dt, rolls[i] as int, rolls[n + i] as int)
        &&& forall|i: int| 0 <= i < n ==> #[trigger] s2[i] == moved(s1[i], dt, w0.rocks@)
        &&& forall|i: int| 0 <= i < n ==> #[trigger] settled(s2[i], s3[i])
        &&& w1.grid@ == scents_emitted(trails_laid(w0.grid@, s2, c, nest, w0.rocks@, n), w0.food@, w0.food@.len() as int).update(
            (c.evap_food as int, c.evap_nest as int, c.evap_alarm as int),
            (c.diff_food as int, c.diff_nest as int, c.diff_alarm as int),
        )
        &&& exists|fs: Seq<Seq<FoodSource>>, ts: Seq<PerformanceTracker>| {
            &&& #[trigger] foraged_in_order(s3, s4, fs, ts, nest, now as u64, dt as u32, rolls, 2 * n, n)
            &&& fs[0] == w0.food@
            &&& ts[0] == w0.tracker
            &&& fs[n] == ff
            &&& ts[n] == tf
        }
        &&& w1.food@.len() == ff.len()
        &&& forall|j: int|
            0 <= j < ff.len() ==> replenished(ff[j], #[trigger] w1.food@[j], nest, respawn_spot(nest, rolls, 3 * n, j, c.world_size as int))
        &&& w1.snapshot@ == snapshot_of(s4)
        &&& w1.agents@.len() == n
        &&& forall|i: int| 0 <= i < n ==> #[trigger] w1.agents@[i] == crowded(s4[i], snapshot_of(s4), i)
        &&& crate::monitor::analysed(w1.agents@, tf, w1.tracker, now, end)
        &&& w1.elapsed_ms == now
        &&& w1.rocks@ == w0.rocks@
        &&& w1.config == w0.config
        &&& w1.nest == w0.nest
        &&& w1.with_obstacles == w0.with_obstacles
    }
}

impl World {
    /// Everything the tick relies on: valid configuration, grid, rocks,
    /// sources and agents, a snapshot per agent, time within bounds.
    pub open spec fn wf(&self) -> bool {
        &&& self.config.wf()
        &&& self.grid.wf()
        &&& rocks_ok(self.rocks@)
        &&& sources_ok(self.food@)
        &&& self.food@.len() <= MAX_AGENTS
        &&& in_bounds(self.nest.position)
        &&& -WORLD_BOUND <= self.nest.position.x <= WORLD_BOUND
        &&& -WORLD_BOUND <= self.nest.position.y <= WORLD_BOUND
        &&& self.agents@.len() <= MAX_AGENTS
        &&& agents_ok(self.agents@, self.rocks@)
        &&& self.snapshot@.len() == self.agents@.len()
        &&& snapshot_ok(self.snapshot@)
        &&& self.tracker.wf()
        &&& self.elapsed_ms <= TIME_LIMIT
    }

    /// Random numbers one tick consumes.
    pub open spec fn rolls_needed(&self) -> int {
        ROLLS_PER_AGENT * self.agents@.len() + ROLLS_PER_SOURCE * self.food@.len()
    }

    /// `rolls_needed` in code.
    pub fn rolls_per_tick(&self) -> (r: usize)
        requires
            self.wf(),
        ensures
            r == self.rolls_needed(),
    {
        ROLLS_PER_AGENT * self.agents.len() + ROLLS_PER_SOURCE * self.food.len()
    }

    /// Whether every counter has room for one more tick.
    pub fn has_room(&self) -> (r: bool)
        requires
            self.wf(),
        ensures
            r == counters_have_room(self.agents@, self.tracker),
    {
        let n = self.agents.len() as u64;
        if self.tracker.successful_deliveries >= u64::MAX - n || self.tracker.total_food_collected >= u64::MAX - n {
            return false;
        }
        let mut i: usize = 0;
        while i < self.agents.len()
            invariant
                i <= self.agents@.len(),
                forall|k: int|
                    0 <= k < i ==> (#[trigger] self.agents@[k]).state.successful_deliveries < u32::MAX
                        && self.agents@[k].state.delivery_attempts < u32::MAX,
            decreases self.agents@.len() - i,
        {
            let s = self.agents[i].state;
            if s.successful_deliveries == u32::MAX || s.delivery_attempts == u32::MAX {
                return false;
            }
            i = i + 1;
        }
        true
    }

    /// One simulated tick of `dt_ms` milliseconds, in the fixed phase order:
    /// sense and decide (last tick's field and snapshot), move, deposit,
    /// food scent then evaporation and diffusion, foraging, depleted sources
    /// replaced, snapshot rebuilt, crowding and performance recounted.
    /// `rolls` supplies the tick's random numbers. Returns whether the run
    /// should end.
    pub fn tick(&mut self, dt_ms: u32, rolls: &Vec<u32>) -> (end: bool)
        requires
            old(self).wf(),
            counters_have_room(old(self).agents@, old(self).tracker),
            rolls@.len() >= old(self).rolls_needed(),
            dt_ms <= crate::movement::MAX_TICK_MS,
            old(self).elapsed_ms + dt_ms <= TIME_LIMIT,
        ensures
            final(self).wf(),
            final(self).agents@.len() == old(self).agents@.len(),
            final(self).food@.len() == old(self).food@.len(),
            final(self).elapsed_ms == old(self).elapsed_ms + dt_ms,
            final(self).rocks@ == old(self).rocks@,
            final(self).config == old(self).config,
            forall|i: int|
                0 <= i < final(self).agents@.len() ==> !blocked(
                    #[trigger] final(self).agents@[i].position,
                    final(self).rocks@,
                ),
            old(self).tracker.successful_deliveries <= final(self).tracker.successful_deliveries
                <= old(self).tracker.successful_deliveries + old(self).agents@.len(),
            final(self).tracker.total_food_collected <= old(self).tracker.total_food_collected
                + old(self).agents@.len(),
            tick_effect(*old(self), *final(self), dt_ms as int, rolls@, end),
    {
        let ghost w0 = *self;
        let n = self.agents.len();
        let nest = self.nest.position;
        sensing_system(&mut self.agents, &self.grid, &self.rocks, nest, &self.snapshot, &self.config, dt_ms, rolls);
        let ghost s1 = self.agents@;
        proof {
            assert forall|i: int| 0 <= i < self.agents@.len() implies in_bounds(#[trigger] self.agents@[i].position)
                && velocity_ok(self.agents@[i].velocity) by {
                assert(agent_ok(self.agents@[i], self.rocks@));
            }
        }
        let ghost before = self.agents@;
        movement_system(&mut self.agents, &self.rocks, dt_ms);
        proof {
            assert forall|i: int| 0 <= i < self.agents@.len() implies agent_ok(#[trigger] self.agents@[i], self.rocks@) by {
                assert(agent_ok(before[i], self.rocks@));
                assert(self.agents@[i] == (Agent {
                    position: crate::movement::resolved(before[i].position, before[i].velocity, dt_ms as int, self.rocks@),
                    ..before[i]
                }));
            }
        }
        let ghost s2 = self.agents@;
        pheromone_deposit_system(&mut self.agents, &mut self.grid, &self.rocks, nest, &self.config);
        let ghost s3 = self.agents@;
        pheromone_update_system(&mut self.grid, &self.food, &self.config);
        let now = self.elapsed_ms + dt_ms as u64;
        forage_all(&mut self.agents, &mut self.food, nest, &mut self.tracker, now, dt_ms, &self.rocks, rolls);
        let ghost s4 = self.agents@;
        let ghost tf = self.tracker;
        let ghost ff = self.food@;
        let ghost chain = choose|p: (Seq<Seq<FoodSource>>, Seq<PerformanceTracker>)| {
            &&& #[trigger] foraged_in_order(s3, s4, p.0, p.1, nest, now, dt_ms, rolls@, 2 * n as int, n as int)
            &&& p.0[0] == w0.food@
            &&& p.1[0] == w0.tracker
            &&& p.0[n as int] == ff
            &&& p.1[n as int] == tf
        };
        proof {
            let fs = choose|fs: Seq<Seq<FoodSource>>, ts: Seq<PerformanceTracker>| {
                &&& #[trigger] foraged_in_order(s3, s4, fs, ts, nest, now, dt_ms, rolls@, 2 * n as int, n as int)
                &&& fs[0] == w0.food@
                &&& ts[0] == w0.tracker
                &&& fs[n as int] == ff
                &&& ts[n as int] == tf
            };
            assert(foraged_in_order(s3, s4, fs.0, fs.1, nest, now, dt_ms, rolls@, 2 * n as int, n as int));
            assert(foraged_in_order(s3, s4, chain.0, chain.1, nest, now, dt_ms, rolls@, 2 * n as int, n as int));
        }
        respawn_depleted(&mut self.food, nest, self.config.world_size, rolls, 3 * n);
        self.elapsed_ms = now;
        let snapshot = rebuild_snapshot(&self.agents);
        proof {
            assert forall|j: int| 0 <= j < snapshot@.len() implies in_bounds(#[trigger] snapshot@[j].position) by {
                assert(agent_ok(self.agents@[j], self.rocks@));
            }
        }
        let ghost before_crowding = self.agents@;
        ant_proximity_analysis_system(&mut self.agents, &snapshot);
        proof {
            assert forall|i: int| 0 <= i < self.agents@.len() implies agent_ok(#[trigger] self.agents@[i], self.rocks@) by {
                assert(agent_ok(before_crowding[i], self.rocks@));
            }
        }
        self.snapshot = snapshot;
        let end = performance_analysis_system(&self.agents, &mut self.tracker, now);
        proof {
            assert(snapshot@ =~= snapshot_of(s4));
            assert forall|i: int| 0 <= i < n implies #[trigger] s2[i] == moved(s1[i], dt_ms as int, w0.rocks@) by {}
            assert forall|i: int| 0 <= i < n implies #[trigger] self.agents@[i] == crowded(s4[i], snapshot_of(s4), i) by {}
            assert(stages(n as int, s1, s2, s3, s4, tf, ff));
            let c = w0.config;
            let nn = n as int;
            assert(forall|i: int| 0 <= i < nn ==> #[trigger] sense_effect(w0.agents@[i], s1[i], w0.grid@, w0.rocks@, nest, w0.snapshot@, i, c, dt_ms as int, rolls@[i] as int, rolls@[nn + i] as int));
            assert(forall|i: int| 0 <= i < nn ==> #[trigger] settled(s2[i], s3[i]));
            assert(self.grid@ == scents_emitted(trails_laid(w0.grid@, s2, c, nest, w0.rocks@, nn), w0.food@, w0.food@.len() as int).update(
                (c.evap_food as int, c.evap_nest as int, c.evap_alarm as int),
                (c.diff_food as int, c.diff_nest as int, c.diff_alarm as int),
            ));
            assert(now == (w0.elapsed_ms + dt_ms as int) as u64);
            assert(foraged_in_order(s3, s4, chain.0, chain.1, nest, (w0.elapsed_ms + dt_ms as int) as u64, (dt_ms as int) as u32, rolls@, 2 * nn, nn));
            assert(exists|fs: Seq<Seq<FoodSource>>, ts: Seq<PerformanceTracker>| {
                &&& #[trigger] foraged_in_order(s3, s4, fs, ts, nest, (w0.elapsed_ms + dt_ms as int) as u64, (dt_ms as int) as u32, rolls@, 2 * nn, nn)
                &&& fs[0] == w0.food@
                &&& ts[0] == w0.tracker
                &&& fs[nn] == ff
                &&& ts[nn] == tf
            });
            assert(forall|j: int| 0 <= j < ff.len() ==> replenished(ff[j], #[trigger] self.food@[j], nest, respawn_spot(nest, rolls@, 3 * nn, j, c.world_size as int)));
            assert(crate::monitor::analysed(self.agents@, tf, self.tracker, w0.elapsed_ms + dt_ms as int, end));
        }
        end
    }
}

/// Agents start this far from the nest (world units).
pub const SPAWN_RING: i64 = 50;

/// Agent `i` waits this long plus `STARTUP_STAGGER_MS` per index (ms).
pub const STARTUP_BASE_MS: u32 = 2000;
pub const STARTUP_STAGGER_MS: u32 = 100;

/// Food sources start 334 to 499 units along a compass heading from the
/// nest, which the rounding of the compass keeps within [333, 500) units.
pub const FOOD_MIN_DISTANCE: i64 = 334;
pub const FOOD_SPREAD: u32 = 166;

/// Radius of the rock placed between the nest and each source (sub-units).
pub const ROCK_RADIUS: i64 = 1440;

/// The heading of agent `i` of `n`: evenly spread round the compass.
pub open spec fn spawn_heading(i: int, n: int) -> int {
    (i * 16 / n) % 16
}

/// Where agent `i` of `n` starts.
pub open spec fn spawn_point(nest: Point, i: int, n: int) -> Point {
    Point {
        x: ahead(nest, spawn_heading(i, n), SPAWN_RING as int).0 as i64,
        y: ahead(nest, spawn_heading(i, n), SPAWN_RING as int).1 as i64,
    }
}

/// Agent `i` of `n` can start at its spawn point.
pub open spec fn spawn_ok(nest: Point, i: int, n: int, rocks: Seq<Rock>) -> bool {
    let p = spawn_point(nest, i, n);
    -WORLD_BOUND <= p.x <= WORLD_BOUND && -WORLD_BOUND <= p.y <= WORLD_BOUND && !blocked(p, rocks)
}

/// The layout can be populated: a valid configuration, a nest within the
/// world bound, valid sources and rocks, and every spawn point clear.
/// Agents `a` are the `n` fresh agents of a ring round `nest`: agent `i` at
/// `spawn_point`, still, facing the random heading `rolls[i] / 2048 % 16`,
/// starting after
/// `STARTUP_BASE_MS + STARTUP_STAGGER_MS * i` ms and first sensing after
/// `rolls[i] % 2000` ms.
pub open spec fn fresh_agents(a: Seq<Agent>, nest: Point, n: int, rolls: Seq<u32>) -> bool {
    &&& a.len() == n
    &&& forall|i: int|
        0 <= i < n ==> {
            let p = spawn_point(nest, i, n);
            let h = ((rolls[i] / 2048) % 16) as u8;
            &&& (#[trigger] a[i]).position == p
            &&& a[i].velocity == (Velocity { x: 0, y: 0 })
            &&& a[i].state == crate::components::fresh_state(
                p,
                h,
                (STARTUP_BASE_MS + STARTUP_STAGGER_MS * i) as u32,
                (rolls[i] % 2000) as u32,
                a[i].state.trail_memory,
            )
            &&& forall|m: int| 0 <= m < 5 ==> a[i].state.trail_memory@[m] == h
        }
}

/// A world just populated: zeroed field and counters, no time elapsed.
pub open spec fn pristine(w: World) -> bool {
    &&& w.grid@.food == Seq::new((w.config.world_size * w.config.world_size) as nat, |i: int| 0u64)
    &&& w.grid@.nest == Seq::new((w.config.world_size * w.config.world_size) as nat, |i: int| 0u64)
    &&& w.grid@.alarm == Seq::new((w.config.world_size * w.config.world_size) as nat, |i: int| 0u64)
    &&& w.tracker.successful_deliveries == 0
    &&& w.tracker.total_food_collected == 0
    &&& w.elapsed_ms == 0
}

pub open spec fn layout_ok(config: SimConfig, nest: Point, food: Seq<FoodSource>, rocks: Seq<Rock>) -> bool {
    &&& config.wf()
    &&& -WORLD_BOUND <= nest.x <= WORLD_BOUND
    &&& -WORLD_BOUND <= nest.y <= WORLD_BOUND
    &&& sources_ok(food)
    &&& food.len() <= MAX_AGENTS
    &&& rocks_ok(rocks)
    &&& forall|i: int| 0 <= i < config.initial_ants ==> spawn_ok(nest, i, config.initial_ants as int, rocks)
}

pub open spec fn source_ok(f: FoodSource) -> bool {
    in_bounds(f.position) && f.amount <= f.max_amount
}

fn source_valid(f: FoodSource) -> (r: bool)
    ensures
        r == source_ok(f),
{
    -crate::geometry::COORD_LIMIT <= f.position.x && f.position.x <= crate::geometry::COORD_LIMIT
        && -crate::geometry::COORD_LIMIT <= f.position.y && f.position.y <= crate::geometry::COORD_LIMIT
        && f.amount <= f.max_amount
}

fn check_sources(food: &Vec<FoodSource>) -> (r: bool)
    ensures
        r == sources_ok(food@),
{
    let mut j: usize = 0;
    while j < food.len()
        invariant
            j <= food@.len(),
            forall|k: int| 0 <= k < j ==> source_ok(#[trigger] food@[k]),
        decreases food@.len() - j,
    {
        if !source_valid(food[j]) {
            assert(!source_ok(food@[j as int]));
            return false;
        }
        j = j + 1;
    }
    assert(sources_ok(food@)) by {
        assert forall|k: int| 0 <= k < food@.len() implies in_bounds(#[trigger] food@[k].position) && food@[k].amount <= food@[k].max_amount by {
            assert(source_ok(food@[k]));
        }
    }
    true
}

fn check_rocks(rocks: &Vec<Rock>) -> (r: bool)
    ensures
        r == rocks_ok(rocks@),
{
    let mut j: usize = 0;
    while j < rocks.len()
        invariant
            j <= rocks@.len(),
            forall|k: int| 0 <= k < j ==> crate::movement::rock_ok(#[trigger] rocks@[k]),
        decreases rocks@.len() - j,
    {
        let r = rocks[j];
        if !(-crate::geometry::COORD_LIMIT <= r.position.x && r.position.x <= crate::geometry::COORD_LIMIT
            && -crate::geometry::COORD_LIMIT <= r.position.y && r.position.y <= crate::geometry::COORD_LIMIT
            && 0 <= r.radius && r.radius <= crate::movement::MAX_ROCK_RADIUS) {
            assert(!crate::movement::rock_ok(rocks@[j as int]));
            return false;
        }
        j = j + 1;
    }
    true
}

impl World {
    /// A world of `config` with the nest, sources and rocks given, and
    /// `config.initial_ants` agents on a ring round the nest, agent `i`
    /// facing the random heading `rolls[i] / 2048 % 16`, starting after
    /// `2000 + 100 i` ms and first sensing after `rolls[i] % 2000` ms.
    /// `None` exactly when the layout is not `layout_ok`.
    pub fn from_parts(
        config: SimConfig,
        nest: Point,
        food: Vec<FoodSource>,
        rocks: Vec<Rock>,
        rolls: &Vec<u32>,
    ) -> (r: Option<World>)
        requires
            rolls@.len() >= config.initial_ants,
        ensures
            r is Some <==> layout_ok(config, nest, food@, rocks@),
            r matches Some(w) ==> {
                &&& w.wf()
                &&& w.agents@.len() == config.initial_ants
                &&& w.food@ == food@
                &&& w.rocks@ == rocks@
                &&& w.nest.position == nest
                &&& w.config == config
                &&& w.elapsed_ms == 0
                &&& w.tracker.successful_deliveries == 0
                &&& w.tracker.total_food_collected == 0
                &&& forall|i: int| 0 <= i < w.agents@.len() ==> (#[trigger] w.agents@[i]).position == spawn_point(nest, i, config.initial_ants as int)
                &&& fresh_agents(w.agents@, nest, config.initial_ants as int, rolls@)
                &&& pristine(w)
                &&& !w.with_obstacles
            },
    {
        if !config.is_valid() || nest.x < -WORLD_BOUND || nest.x > WORLD_BOUND || nest.y < -WORLD_BOUND
            || nest.y > WORLD_BOUND || !check_sources(&food) || food.len() > MAX_AGENTS || !check_rocks(&rocks) {
            return None;
        }
        let n = config.initial_ants;
        let mut agents: Vec<Agent> = Vec::new();
        let mut i: usize = 0;
        while i < n
            invariant
                config.wf(),
                n == config.initial_ants,
                rolls@.len() >= n,
                -WORLD_BOUND <= nest.x <= WORLD_BOUND,
                -WORLD_BOUND <= nest.y <= WORLD_BOUND,
                rocks_ok(rocks@),
                i <= n,
                agents@.len() == i,
                agents_ok(agents@, rocks@),
                forall|k: int| 0 <= k < i ==> spawn_ok(nest, k, n as int, rocks@),
                forall|k: int| 0 <= k < i ==> (#[trigger] agents@[k]).position == spawn_point(nest, k, n as int),
                forall|k: int| 0 <= k < i ==> (#[trigger] agents@[k]).state.successful_deliveries == 0,
                forall|k: int|
                    0 <= k < i ==> {
                        let p = spawn_point(nest, k, n as int);
                        let h = ((rolls@[k] / 2048) % 16) as u8;
                        &&& (#[trigger] agents@[k]).velocity == (Velocity { x: 0, y: 0 })
                        &&& agents@[k].state == crate::components::fresh_state(
                            p,
                            h,
                            (STARTUP_BASE_MS + STARTUP_STAGGER_MS * k) as u32,
                            (rolls@[k] % 2000) as u32,
                            agents@[k].state.trail_memory,
                        )
                        &&& forall|m: int| 0 <= m < 5 ==> agents@[k].state.trail_memory@[m] == h
                    },
            decreases n - i,
        {
            assert(i * 16 / (n as int) < 16 * MAX_AGENTS) by (nonlinear_arith)
                requires i < n, n <= MAX_AGENTS;
            let h = ((i * 16 / n) % 16) as u8;
            let p = crate::geometry::step_ahead(nest, h, SPAWN_RING);
            assert(p == spawn_point(nest, i as int, n as int));
            if p.x < -WORLD_BOUND || p.x > WORLD_BOUND || p.y < -WORLD_BOUND || p.y > WORLD_BOUND
                || crate::movement::collides(p, &rocks) {
                assert(!spawn_ok(nest, i as int, n as int, rocks@));
                return None;
            }
            assert(STARTUP_STAGGER_MS * i <= 100 * MAX_AGENTS);
            let startup = STARTUP_BASE_MS + STARTUP_STAGGER_MS * i as u32;
            let state = AntState::new(p, ((rolls[i] / 2048) % 16) as u8, startup, rolls[i] % 2000);
            let a = Agent { position: p, velocity: Velocity { x: 0, y: 0 }, state };
            assert(agent_ok(a, rocks@));
            agents.push(a);
            assert(agents@[i as int] == a);
            i = i + 1;
        }
        let snapshot = rebuild_snapshot(&agents);
        proof {
            assert forall|j: int| 0 <= j < snapshot@.len() implies in_bounds(#[trigger] snapshot@[j].position) by {
                assert(agent_ok(agents@[j], rocks@));
            }
        }
        let grid = PheromoneGrid::new(config.world_size, config.world_size);
        Some(World {
            config,
            grid,
            agents,
            food,
            nest: Nest { position: nest, capacity: 10_000 },
            rocks,
            tracker: PerformanceTracker::new(),
            snapshot,
            elapsed_ms: 0,
            with_obstacles: false,
        })
    }
}

/// A source position lies at least 333 and less than 500 units from the
/// nest at the origin.
pub open spec fn in_food_ring(p: Point) -> bool {
    let o = Point { x: 0, y: 0 };
    (333 * UNIT) * (333 * UNIT) <= dist_sq(p, o) < (500 * UNIT) * (500 * UNIT)
}

/// Where the compass rounding could leave a source outside the ring, it is
/// put here instead (400 units east).
pub const FOOD_FALLBACK_X: i64 = 400 * UNIT;

/// Source `j` of the standard layout: `334 + rolls[n + 2j + 1] % 166`
/// units from the origin along heading `rolls[n + 2j] % 16`, where `n` is
/// the number of agents; should the compass rounding take that outside
/// `in_food_ring`, at `FOOD_FALLBACK_X` on the x axis.
pub open spec fn standard_food(rolls: Seq<u32>, n: int, j: int) -> FoodSource {
    let h = (rolls[n + 2 * j] as int) % 16;
    let d = FOOD_MIN_DISTANCE + (rolls[n + 2 * j + 1] as int) % (FOOD_SPREAD as int);
    let p = Point {
        x: ahead(Point { x: 0, y: 0 }, h as int, d).0 as i64,
        y: ahead(Point { x: 0, y: 0 }, h as int, d).1 as i64,
    };
    FoodSource {
        position: if in_food_ring(p) { p } else { Point { x: FOOD_FALLBACK_X, y: 0 } },
        amount: SOURCE_AMOUNT,
        max_amount: SOURCE_AMOUNT,
    }
}

/// The rock halfway between the nest at the origin and source `f`.
pub open spec fn standard_rock(f: FoodSource) -> Rock {
    Rock {
        position: Point { x: (f.position.x as int / 2) as i64, y: (f.position.y as int / 2) as i64 },
        radius: ROCK_RADIUS,
    }
}

pub open spec fn standard_foods(rolls: Seq<u32>, n: int, k: int) -> Seq<FoodSource> {
    Seq::new(k as nat, |j: int| standard_food(rolls, n, j))
}

pub open spec fn standard_rocks(rolls: Seq<u32>, n: int, k: int, with_obstacles: bool) -> Seq<Rock> {
    if with_obstacles { Seq::new(k as nat, |j: int| standard_rock(standard_food(rolls, n, j))) } else { Seq::empty() }
}

/// Random numbers `World::new` consumes.
pub open spec fn setup_rolls(config: SimConfig) -> int {
    config.initial_ants + 2 * config.food_sources
}

proof fn lemma_dir_major(h: int)
    requires
        0 <= h < 16,
    ensures
        dir_x(h) >= 724 || dir_x(h) <= -724 || dir_y(h) >= 724 || dir_y(h) <= -724,
        -1024 <= dir_x(h) <= 1024,
        -1024 <= dir_y(h) <= 1024,
{
    assert(h == 0 || h == 1 || h == 2 || h == 3 || h == 4 || h == 5 || h == 6 || h == 7 || h == 8 || h == 9
        || h == 10 || h == 11 || h == 12 || h == 13 || h == 14 || h == 15);
}

/// An offset `(v * d * UNIT) / DIR_SCALE` of a component `v` with `|v| >= 724`
/// over at least 333 units is at least 15068 sub-units long; any component
/// over at most 500 units is at most 32000 long.
proof fn lemma_offset(v: int, d: int)
    requires
        -1024 <= v <= 1024,
        0 <= d <= 500,
    ensures
        -32000 <= (v * d * 64) / 1024 <= 32000,
        (v >= 724 && d >= 333) ==> (v * d * 64) / 1024 >= 15068,
        (v <= -724 && d >= 333) ==> (v * d * 64) / 1024 <= -15068,
{
    assert(-32768000 <= v * d * 64 <= 32768000) by (nonlinear_arith)
        requires -1024 <= v <= 1024, 0 <= d <= 500;
    if v >= 724 && d >= 333 {
        assert(v * d * 64 >= 724 * 333 * 64) by (nonlinear_arith)
            requires v >= 724, d >= 333;
    }
    if v <= -724 && d >= 333 {
        assert(v * d * 64 <= -724 * 333 * 64) by (nonlinear_arith)
            requires v <= -724, d >= 333;
    }
}

/// The standard layout always populates: every source and rock lies in the
/// world, and the rocks, halfway to sources at least 333 units out, stay
/// clear of the 50-unit spawn ring.
proof fn lemma_standard_layout_ok(config: SimConfig, rolls: Seq<u32>, with_obstacles: bool)
    requires
        config.wf(),
        rolls.len() >= setup_rolls(config),
    ensures
        layout_ok(
            config,
            Point { x: 0, y: 0 },
            standard_foods(rolls, config.initial_ants as int, config.food_sources as int),
            standard_rocks(rolls, config.initial_ants as int, config.food_sources as int, with_obstacles),
        ),
{
    let n = config.initial_ants as int;
    let k = config.food_sources as int;
    let origin = Point { x: 0, y: 0 };
    let foods = standard_foods(rolls, n, k);
    let rocks = standard_rocks(rolls, n, k, with_obstacles);
    assert forall|j: int| 0 <= j < k implies {
        let f = #[trigger] standard_food(rolls, n, j);
        &&& -32000 <= f.position.x <= 32000
        &&& -32000 <= f.position.y <= 32000
        &&& (f.position.x >= 15068 || f.position.x <= -15068 || f.position.y >= 15068 || f.position.y <= -15068)
    } by {
        let h = (rolls[n + 2 * j] as int) % 16;
        let d = FOOD_MIN_DISTANCE + (rolls[n + 2 * j + 1] as int) % (FOOD_SPREAD as int);
        lemma_dir_major(h);
        lemma_offset(dir_x(h), d);
        lemma_offset(dir_y(h), d);
    }
    assert(sources_ok(foods)) by {
        assert forall|j: int| 0 <= j < foods.len() implies in_bounds(#[trigger] foods[j].position)
            && foods[j].amount <= foods[j].max_amount by {
            assert(foods[j] == standard_food(rolls, n, j));
        }
    }
    assert(rocks_ok(rocks)) by {
        assert forall|j: int| 0 <= j < rocks.len() implies crate::movement::rock_ok(#[trigger] rocks[j]) by {
            assert(rocks[j] == standard_rock(standard_food(rolls, n, j)));
        }
    }
    assert forall|i: int| 0 <= i < n implies spawn_ok(origin, i, n, rocks) by {
        let h = spawn_heading(i, n);
        assert(0 <= h < 16) by {
            assert(i * 16 / n >= 0) by (nonlinear_arith)
                requires i >= 0, n > 0;
        }
        lemma_dir_major(h);
        lemma_offset(dir_x(h), SPAWN_RING as int);
        lemma_offset(dir_y(h), SPAWN_RING as int);
        let p = spawn_point(origin, i, n);
        assert(-3200 <= p.x <= 3200 && -3200 <= p.y <= 3200) by {
            assert(-3200 <= (dir_x(h) * 50 * 64) / 1024 <= 3200) by (nonlinear_arith)
                requires -1024 <= dir_x(h) <= 1024;
            assert(-3200 <= (dir_y(h) * 50 * 64) / 1024 <= 3200) by (nonlinear_arith)
                requires -1024 <= dir_y(h) <= 1024;
        }
        assert forall|j: int| 0 <= j < rocks.len() implies !crate::movement::hits(p, #[trigger] rocks[j]) by {
            let f = standard_food(rolls, n, j);
            assert(rocks[j] == standard_rock(f));
            let r = rocks[j];
            let dx = p.x - r.position.x;
            let dy = p.y - r.position.y;
            assert(dx >= 4333 || dx <= -4333 || dy >= 4333 || dy <= -4333);
            assert(dx * dx + dy * dy >= 4333 * 4333) by (nonlinear_arith)
                requires dx >= 4333 || dx <= -4333 || dy >= 4333 || dy <= -4333;
            assert((r.radius + crate::components::ANT_HALF_WIDTH) * (r.radius + crate::components::ANT_HALF_WIDTH) == 1824 * 1824);
        }
    }
}

/// `w` is the standard world of `config` for random numbers `rolls`:
/// nest at the origin, the standard sources and rocks, fresh agents on
/// the ring, and nothing yet laid, counted or elapsed.
pub open spec fn standard_world(w: World, config: SimConfig, with_obstacles: bool, rolls: Seq<u32>) -> bool {
    let n = config.initial_ants as int;
    let k = config.food_sources as int;
    &&& w.wf()
    &&& w.config == config
    &&& w.with_obstacles == with_obstacles
    &&& w.nest.position == (Point { x: 0, y: 0 })
    &&& w.food@ == standard_foods(rolls, n, k)
    &&& w.rocks@ == standard_rocks(rolls, n, k, with_obstacles)
    &&& fresh_agents(w.agents@, Point { x: 0, y: 0 }, n, rolls)
    &&& pristine(w)
}

impl World {
    /// The standard world of `config`: the nest at the origin,
    /// `config.food_sources` sources by `standard_food`, and, with
    /// obstacles, a rock halfway to each source. `None` exactly when the
    /// configuration is invalid or that layout is not `layout_ok`.
    pub fn new(config: SimConfig, with_obstacles: bool, rolls: &Vec<u32>) -> (r: Option<World>)
        requires
            rolls@.len() >= setup_rolls(config),
        ensures
            r is Some <==> config.wf() && layout_ok(
                config,
                Point { x: 0, y: 0 },
                standard_foods(rolls@, config.initial_ants as int, config.food_sources as int),
                standard_rocks(rolls@, config.initial_ants as int, config.food_sources as int, with_obstacles),
            ),
            r matches Some(w) ==> {
                &&& w.wf()
                &&& w.with_obstacles == with_obstacles
                &&& w.config == config
                &&& w.agents@.len() == config.initial_ants
                &&& standard_world(w, config, with_obstacles, rolls@)
            },
    {
        if !config.is_valid() {
            return None;
        }
        let n = config.initial_ants;
        let k = config.food_sources;
        let origin = Point { x: 0, y: 0 };
        let mut food: Vec<FoodSource> = Vec::new();
        let mut rocks: Vec<Rock> = Vec::new();
        let mut j: usize = 0;
        while j < k
            invariant
                config.wf(),
                origin == (Point { x: 0, y: 0 }),
                n == config.initial_ants,
                k == config.food_sources,
                rolls@.len() >= n + 2 * k,
                j <= k,
                food@ == standard_foods(rolls@, n as int, j as int),
                rocks@ == standard_rocks(rolls@, n as int, j as int, with_obstacles),
            decreases k - j,
        {
            let h = (rolls[n + 2 * j] % 16) as u8;
            let d = FOOD_MIN_DISTANCE + (rolls[n + 2 * j + 1] % FOOD_SPREAD) as i64;
            let p0 = crate::geometry::step_ahead(origin, h, d);
            let r2 = distance_sq(p0, origin);
            let lo: i64 = 333 * UNIT;
            let hi: i64 = 500 * UNIT;
            assert(lo * lo == 454_201_344 && hi * hi == 1_024_000_000);
            let p = if lo * lo <= r2 && r2 < hi * hi {
                p0
            } else {
                Point { x: FOOD_FALLBACK_X, y: 0 }
            };
            let f = FoodSource { position: p, amount: SOURCE_AMOUNT, max_amount: SOURCE_AMOUNT };
            proof {
                let hh = (rolls@[n + 2 * j] as int) % 16;
                let dd = FOOD_MIN_DISTANCE + (rolls@[n + 2 * j + 1] as int) % (FOOD_SPREAD as int);
                assert(h as int == hh);
                assert(d as int == dd);
                let q = ahead(origin, hh, dd);
                assert(p0.x as int == q.0 && p0.y as int == q.1);
                assert(q.0 as i64 == p0.x && q.1 as i64 == p0.y);
            }
            assert(f == standard_food(rolls@, n as int, j as int));
            food.push(f);
            if with_obstacles {
                let rock = Rock {
                    position: Point {
                        x: crate::geometry::floor_div(p.x, 2),
                        y: crate::geometry::floor_div(p.y, 2),
                    },
                    radius: ROCK_RADIUS,
                };
                rocks.push(rock);
            }
            j = j + 1;
            assert(food@ =~= standard_foods(rolls@, n as int, j as int));
            assert(rocks@ =~= standard_rocks(rolls@, n as int, j as int, with_obstacles));
        }
        match World::from_parts(config, origin, food, rocks, rolls) {
            Some(w) => {
                let mut w = w;
                w.with_obstacles = with_obstacles;
                Some(w)
            },
            None => None,
        }
    }

    /// Restarts the run: the standard world of the same configuration for
    /// freshly drawn random numbers. It always succeeds: the standard
    /// layout always populates.
    pub fn restart_system(&mut self) -> (r: bool)
        requires
            old(self).wf(),
        ensures
            final(self).wf(),
            final(self).config == old(self).config,
            final(self).with_obstacles == old(self).with_obstacles,
            r,
            exists|rolls: Seq<u32>|
                rolls.len() == setup_rolls(old(self).config) && #[trigger] standard_world(
                    *final(self),
                    old(self).config,
                    old(self).with_obstacles,
                    rolls,
                ),
    {
        let needed = self.config.initial_ants + 2 * self.config.food_sources;
        let rolls = crate::chance::draw_rolls(needed);
        proof {
            lemma_standard_layout_ok(self.config, rolls@, self.with_obstacles);
        }
        match World::new(self.config, self.with_obstacles, &rolls) {
            Some(w) => {
                *self = w;
                assert(standard_world(*self, old(self).config, old(self).with_obstacles, rolls@));
                true
            },
            None => false,
        }
    }

    /// One tick with random numbers drawn from the thread-local generator.
    pub fn tick_random(&mut self, dt_ms: u32) -> (end: bool)
        requires
            old(self).wf(),
            counters_have_room(old(self).agents@, old(self).tracker),
            dt_ms <= crate::movement::MAX_TICK_MS,
            old(self).elapsed_ms + dt_ms <= TIME_LIMIT,
        ensures
            final(self).wf(),
            final(self).agents@.len() == old(self).agents@.len(),
            final(self).elapsed_ms == old(self).elapsed_ms + dt_ms,
            old(self).tracker.successful_deliveries <= final(self).tracker.successful_deliveries
                <= old(self).tracker.successful_deliveries + old(self).agents@.len(),
            exists|rolls: Seq<u32>|
                rolls.len() == old(self).rolls_needed() && #[trigger] tick_effect(*old(self), *final(self), dt_ms as int, rolls, end),
    {
        let rolls = crate::chance::draw_rolls(self.rolls_per_tick());
        self.tick(dt_ms, &rolls)
    }
}

} // verus!
