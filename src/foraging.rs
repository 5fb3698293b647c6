use vstd::prelude::*;
use crate::components::{
    set_ant_velocity, velocity_of, Agent, AntBehaviorState, AntState, FoodSource, MovementType, Velocity,
};
use crate::geometry::{dist_sq, distance_sq, in_bounds, is_nearest_heading, nearest_heading, Point, UNIT};
use crate::monitor::PerformanceTracker;

verus! {

/// An agent within this distance of a food source can collect from it (sub-units).
pub const PICKUP_RADIUS: i64 = 25 * UNIT;

/// An agent carrying food within this distance of the nest delivers it (sub-units).
pub const DELIVERY_RADIUS: i64 = 15 * UNIT;

/// How long collecting takes, in milliseconds.
pub const COLLECT_MS: u32 = 300;

/// Sensing delay set on delivery, in milliseconds.
pub const RESENSE_MS: u32 = 200;

pub open spec fn near(p: Point, q: Point, radius: int) -> bool {
    dist_sq(p, q) < radius * radius
}

/// Source `s` is non-empty and within pickup range of `p`.
pub open spec fn available(s: FoodSource, p: Point) -> bool {
    s.amount > 0 && near(p, s.position, PICKUP_RADIUS as int)
}

pub open spec fn any_available(sources: Seq<FoodSource>, p: Point) -> bool {
    exists|j: int| 0 <= j < sources.len() && available(sources[j], p)
}

/// `j` is the first source available to `p`.
pub open spec fn first_available(sources: Seq<FoodSource>, p: Point, j: int) -> bool {
    &&& 0 <= j < sources.len()
    &&& available(sources[j], p)
    &&& forall|k: int| 0 <= k < j ==> !available(sources[k], p)
}

pub open spec fn sources_ok(sources: Seq<FoodSource>) -> bool {
    forall|j: int| 0 <= j < sources.len() ==> in_bounds(#[trigger] sources[j].position)
        && sources[j].amount <= sources[j].max_amount
}

/// Food left over all sources.
pub open spec fn total_amount(sources: Seq<FoodSource>) -> int
    decreases sources.len(),
{
    if sources.len() == 0 { 0 } else { total_amount(sources.drop_last()) + sources.last().amount }
}

/// `later - earlier`, or 0 where `later` comes first.
pub open spec fn elapsed(later: int, earlier: int) -> int {
    if later >= earlier { later - earlier } else { 0 }
}

proof fn lemma_total_amount_update(s: Seq<FoodSource>, j: int, f: FoodSource)
    requires
        0 <= j < s.len(),
    ensures
        total_amount(s.update(j, f)) == total_amount(s) - s[j].amount + f.amount,
    decreases s.len(),
{
    if j == s.len() - 1 {
        assert(s.update(j, f).drop_last() =~= s.drop_last());
    } else {
        lemma_total_amount_update(s.drop_last(), j, f);
        assert(s.update(j, f).drop_last() =~= s.drop_last().update(j, f));
    }
}

/// The index of the first source available to `p`, if any.
pub fn find_available(sources: &Vec<FoodSource>, p: Point) -> (r: Option<usize>)
    requires
        in_bounds(p),
        sources_ok(sources@),
    ensures
        match r {
            Some(j) => first_available(sources@, p, j as int),
            None => !any_available(sources@, p),
        },
{
    let mut j: usize = 0;
    while j < sources.len()
        invariant
            in_bounds(p),
            sources_ok(sources@),
            j <= sources.len(),
            forall|k: int| 0 <= k < j ==> !available(sources@[k], p),
        decreases sources.len() - j,
    {
        let s = sources[j];
        assert(in_bounds(sources@[j as int].position));
        if s.amount > 0 && distance_sq(p, s.position) < PICKUP_RADIUS * PICKUP_RADIUS {
            return Some(j);
        }
        j = j + 1;
    }
    None
}

/// One step of the foraging cycle: agent `a0` becomes `a1`, sources `f0`
/// become `f1`, tracker `t0` becomes `t1`.
pub open spec fn forage_step(
    a0: Agent,
    a1: Agent,
    f0: Seq<FoodSource>,
    f1: Seq<FoodSource>,
    t0: PerformanceTracker,
    t1: PerformanceTracker,
    nest: Point,
    now: u64,
    dt_ms: u32,
    roll: u32,
) -> bool {
    &&& a1.state.wf()
    &&& a1.position == a0.position
    &&& a1.state.trail_strength == a0.state.trail_strength
    &&& a1.state.startup_timer == a0.state.startup_timer
    &&& crate::movement::velocity_ok(a0.velocity) ==> crate::movement::velocity_ok(a1.velocity)
    &&& t1.total_food_collected <= t0.total_food_collected + 1
    &&& t1.wf()
    &&& sources_ok(f1)
    &&& f1.len() == f0.len()
    &&& forall|j: int|
        0 <= j < f1.len() ==> (#[trigger] f1[j]).position == f0[j].position && f1[j].max_amount == f0[j].max_amount
    // what is taken from the sources is what the tracker collects
    &&& t1.total_food_collected + total_amount(f1) == t0.total_food_collected + total_amount(f0)
    // a delivery is exactly a change from carrying to not carrying
    &&& t1.successful_deliveries == t0.successful_deliveries + if a0.state.carrying_food && !a1.state.carrying_food {
        1int
    } else {
        0int
    }
    &&& a1.state.successful_deliveries == a0.state.successful_deliveries + (t1.successful_deliveries
        - t0.successful_deliveries)
    // start collecting
    &&& !a0.state.carrying_food && a0.state.food_collection_timer == 0 ==> {
        &&& f1 == f0
        &&& t1 == t0
        &&& if any_available(f0, a0.position) {
            &&& a1.state == (AntState { food_collection_timer: COLLECT_MS, ..a0.state })
            &&& a1.velocity == (Velocity { x: 0, y: 0 })
        } else {
            a1 == a0
        }
    }
    // collecting
    &&& a0.state.food_collection_timer > 0 ==> {
        let timer = elapsed(a0.state.food_collection_timer as int, dt_ms as int);
        let p = a0.position;
        &&& t1.successful_deliveries == t0.successful_deliveries
        &&& if timer == 0 && any_available(f0, p) {
            &&& exists|j: int|
                first_available(f0, p, j) && f1 == f0.update(
                    j,
                    FoodSource { amount: (f0[j].amount - 1) as u32, ..f0[j] },
                )
            &&& t1.total_food_collected == t0.total_food_collected + 1
            &&& is_nearest_heading(
                nest.x - p.x,
                nest.y - p.y,
                a1.state.current_direction as int,
            )
            &&& a1.state == (AntState {
                food_collection_timer: 0,
                carrying_food: true,
                food_pickup_time: now,
                food_carry_start_time: now,
                has_found_food: true,
                last_goal_achievement_time: now,
                time_since_progress: 0,
                distance_from_food: 0,
                current_direction: a1.state.current_direction,
                ..a0.state
            })
            &&& a1.velocity.x == velocity_of(
                a1.state.current_direction as int,
                MovementType::Legacy,
            ).0
            &&& a1.velocity.y == velocity_of(
                a1.state.current_direction as int,
                MovementType::Legacy,
            ).1
        } else {
            &&& f1 == f0
            &&& t1 == t0
            &&& a1.state == (AntState {
                food_collection_timer: timer as u32,
                ..a0.state
            })
            &&& a1.velocity == (Velocity { x: 0, y: 0 })
        }
    }
    // delivering
    &&& a0.state.carrying_food && a0.state.food_collection_timer == 0 ==> {
        &&& f1 == f0
        &&& t1.total_food_collected == t0.total_food_collected
        &&& if near(a0.position, nest, DELIVERY_RADIUS as int) {
            let dt = elapsed(now as int, a0.state.food_pickup_time as int);
            let rt = elapsed(now as int, a0.state.food_carry_start_time as int);
            &&& t1.delivery_time_total == t0.delivery_time_total + dt
            &&& t1.return_time_total == t0.return_time_total + rt
            &&& t1.last_delivery_time == now
            &&& a1.state == (AntState {
                carrying_food: false,
                delivery_attempts: (a0.state.delivery_attempts + 1) as u32,
                successful_deliveries: (a0.state.successful_deliveries + 1) as u32,
                last_goal_achievement_time: now,
                time_since_progress: 0,
                behavior_state: AntBehaviorState::Exploring,
                sensing_timer: RESENSE_MS,
                current_direction: (roll % 16) as u8,
                ..a0.state
            })
            &&& a1.velocity.x == velocity_of(roll as int % 16, MovementType::Legacy).0
            &&& a1.velocity.y == velocity_of(roll as int % 16, MovementType::Legacy).1
        } else {
            &&& t1 == t0
            &&& a1 == a0
        }
    }
    // every carrier holds one unit taken from a source and not yet delivered
    &&& t1.total_food_collected - t1.successful_deliveries - (if a1.state.carrying_food { 1int } else { 0 })
        == t0.total_food_collected - t0.successful_deliveries - (if a0.state.carrying_food { 1int } else { 0 })
}

/// The foraging cycle for one agent.
///
/// - Not carrying and not collecting, within reach of a non-empty source:
///   collecting starts (`COLLECT_MS`), and the agent stops.
/// - Collecting: the countdown runs and the agent stays still; when it
///   runs out within reach of a non-empty source, one unit is taken from
///   the first such source and the agent carries it, heading for the nest.
/// - Carrying, within `DELIVERY_RADIUS` of the nest: the food is delivered,
///   the counters and mean delivery and return times are updated, and the
///   agent explores again along heading `roll % 16`.
pub fn food_collection_system(
    agent: &mut Agent,
    sources: &mut Vec<FoodSource>,
    nest: Point,
    tracker: &mut PerformanceTracker,
    now: u64,
    dt_ms: u32,
    roll: u32,
)
    requires
        old(agent).state.wf(),
        in_bounds(old(agent).position),
        in_bounds(nest),
        sources_ok(old(sources)@),
        old(tracker).wf(),
        old(tracker).successful_deliveries < u64::MAX,
        old(tracker).total_food_collected < u64::MAX,
        old(agent).state.successful_deliveries < u32::MAX,
        old(agent).state.delivery_attempts < u32::MAX,
    ensures
        forage_step(
            *old(agent),
            *final(agent),
            old(sources)@,
            final(sources)@,
            *old(tracker),
            *final(tracker),
            nest,
            now,
            dt_ms,
            roll,
        ),
{
    let pos = agent.position;
    if !agent.state.carrying_food && agent.state.food_collection_timer == 0 {
        if let Some(_) = find_available(sources, pos) {
            agent.state.food_collection_timer = COLLECT_MS;
            agent.velocity = Velocity { x: 0, y: 0 };
        }
    } else if agent.state.food_collection_timer > 0 {
        let timer = if agent.state.food_collection_timer > dt_ms {
            agent.state.food_collection_timer - dt_ms
        } else {
            0
        };
        agent.state.food_collection_timer = timer;
        agent.velocity = Velocity { x: 0, y: 0 };
        if timer == 0 {
            match find_available(sources, pos) {
                Some(j) => {
                    let s = sources[j];
                    let taken = FoodSource { amount: s.amount - 1, ..s };
                    proof {
                        lemma_total_amount_update(sources@, j as int, taken);
                    }
                    sources.set(j, taken);
                    tracker.total_food_collected = tracker.total_food_collected + 1;
                    agent.state.carrying_food = true;
                    agent.state.food_pickup_time = now;
                    agent.state.food_carry_start_time = now;
                    agent.state.has_found_food = true;
                    agent.state.last_goal_achievement_time = now;
                    agent.state.time_since_progress = 0;
                    agent.state.distance_from_food = 0;
                    let h = nearest_heading((nest.x - pos.x) as i128, (nest.y - pos.y) as i128);
                    agent.state.current_direction = h;
                    set_ant_velocity(&mut agent.velocity, h, MovementType::Legacy);
                },
                None => {},
            }
        }
    } else if agent.state.carrying_food {
        if distance_sq(pos, nest) < DELIVERY_RADIUS * DELIVERY_RADIUS {
            let delivery_time = if now >= agent.state.food_pickup_time {
                now - agent.state.food_pickup_time
            } else {
                0
            };
            let return_time = if now >= agent.state.food_carry_start_time {
                now - agent.state.food_carry_start_time
            } else {
                0
            };
            agent.state.carrying_food = false;
            agent.state.delivery_attempts = agent.state.delivery_attempts + 1;
            agent.state.successful_deliveries = agent.state.successful_deliveries + 1;
            agent.state.last_goal_achievement_time = now;
            agent.state.time_since_progress = 0;
            record_delivery(tracker, delivery_time, return_time, now);
            agent.state.behavior_state = AntBehaviorState::Exploring;
            agent.state.sensing_timer = RESENSE_MS;
            let h = (roll % 16) as u8;
            agent.state.current_direction = h;
            set_ant_velocity(&mut agent.velocity, h, MovementType::Legacy);
        }
    }
}

/// Counts one delivery and folds its times into the running means.
fn record_delivery(tracker: &mut PerformanceTracker, delivery_time: u64, return_time: u64, now: u64)
    requires
        old(tracker).wf(),
        old(tracker).successful_deliveries < u64::MAX,
    ensures
        final(tracker).wf(),
        *final(tracker) == (PerformanceTracker {
            successful_deliveries: (old(tracker).successful_deliveries + 1) as u64,
            delivery_time_total: (old(tracker).delivery_time_total + delivery_time) as u128,
            return_time_total: (old(tracker).return_time_total + return_time) as u128,
            average_delivery_time: final(tracker).average_delivery_time,
            average_return_time: final(tracker).average_return_time,
            last_delivery_time: now,
            ..*old(tracker)
        }),
{
    let n = tracker.successful_deliveries + 1;
    assert(tracker.delivery_time_total + delivery_time <= n * (u64::MAX as int)) by (nonlinear_arith)
        requires
            tracker.delivery_time_total <= tracker.successful_deliveries * (u64::MAX as int),
            n == tracker.successful_deliveries + 1,
            delivery_time <= u64::MAX;
    assert(tracker.return_time_total + return_time <= n * (u64::MAX as int)) by (nonlinear_arith)
        requires
            tracker.return_time_total <= tracker.successful_deliveries * (u64::MAX as int),
            n == tracker.successful_deliveries + 1,
            return_time <= u64::MAX;
    assert(n * (u64::MAX as int) <= u128::MAX) by (nonlinear_arith)
        requires n <= u64::MAX;
    tracker.successful_deliveries = n;
    tracker.delivery_time_total = tracker.delivery_time_total + delivery_time as u128;
    tracker.return_time_total = tracker.return_time_total + return_time as u128;
    tracker.average_delivery_time = tracker.delivery_time_total / n as u128;
    tracker.average_return_time = tracker.return_time_total / n as u128;
    tracker.last_delivery_time = now;
}

} // verus!
