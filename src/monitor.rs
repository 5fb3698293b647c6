use vstd::prelude::*;
use crate::components::{Agent, AntState};

verus! {

/// Aggregate counters of a run. Times are in milliseconds.
#[derive(Clone, Copy, Debug)]
pub struct PerformanceTracker {
    pub successful_deliveries: u64,
    pub total_food_collected: u64,
    pub delivery_time_total: u128,
    pub average_delivery_time: u128,
    pub return_time_total: u128,
    pub average_return_time: u128,
    pub last_delivery_time: u64,
    pub stuck_ants_count: u64,
    pub oscillating_ants_count: u64,
    pub lost_ants_count: u64,
    pub lost_food_carriers_count: u64,
    pub average_time_since_goal: u64,
}

impl PerformanceTracker {
    /// The means are the totals over the number of deliveries.
    pub open spec fn wf(&self) -> bool {
        &&& self.delivery_time_total <= self.successful_deliveries * (u64::MAX as int)
        &&& self.return_time_total <= self.successful_deliveries * (u64::MAX as int)
        &&& self.successful_deliveries == 0 ==> self.average_delivery_time == 0
            && self.average_return_time == 0
        &&& self.successful_deliveries > 0 ==> self.average_delivery_time == (self.delivery_time_total as int)
            / (self.successful_deliveries as int) && self.average_return_time == (self.return_time_total as int)
            / (self.successful_deliveries as int)
    }

    /// A tracker with every counter at zero.
    pub fn new() -> (r: PerformanceTracker)
        ensures
            r.wf(),
            r.successful_deliveries == 0,
            r.total_food_collected == 0,
    {
        PerformanceTracker {
            successful_deliveries: 0,
            total_food_collected: 0,
            delivery_time_total: 0,
            average_delivery_time: 0,
            return_time_total: 0,
            average_return_time: 0,
            last_delivery_time: 0,
            stuck_ants_count: 0,
            oscillating_ants_count: 0,
            lost_ants_count: 0,
            lost_food_carriers_count: 0,
            average_time_since_goal: 0,
        }
    }
}

/// Stuck longer than this (ms) counts as stuck.
pub const STUCK_CUTOFF_MS: u32 = 3000;

/// Oscillating: more direction changes than this while stuck longer than
/// `OSCILLATION_STUCK_MS`.
pub const OSCILLATION_CHANGES: u32 = 5;
pub const OSCILLATION_STUCK_MS: u32 = 1000;

/// Agents that never found food are lost after this much run time (ms).
pub const LOST_AFTER_MS: u64 = 45_000;

/// Carriers that have not delivered this long after pickup are lost (ms).
pub const CARRIER_LOST_MS: u64 = 30_000;

/// The startup period after which an agent's search time starts (ms).
pub const STARTUP_MS: u64 = 1000;

/// The run ends when this many agents oscillate, or after `RUN_HORIZON_MS`.
pub const OSCILLATION_CEILING: u64 = 20;
pub const RUN_HORIZON_MS: u64 = 90_000;

pub open spec fn is_stuck(a: AntState) -> bool {
    a.stuck_timer > STUCK_CUTOFF_MS
}

pub open spec fn is_oscillating(a: AntState) -> bool {
    a.direction_changes > OSCILLATION_CHANGES && a.stuck_timer > OSCILLATION_STUCK_MS
}

pub open spec fn is_lost(a: AntState, now: int) -> bool {
    !a.has_found_food && a.startup_timer == 0 && now > LOST_AFTER_MS
}

pub open spec fn is_lost_carrier(a: AntState, now: int) -> bool {
    a.carrying_food && a.food_carry_start_time > 0 && now - a.food_carry_start_time > CARRIER_LOST_MS
}

pub open spec fn is_active(a: AntState) -> bool {
    a.startup_timer == 0
}

/// Time since the agent last reached a goal; before any, since startup ended.
pub open spec fn time_since_goal(a: AntState, now: int) -> int {
    if a.last_goal_achievement_time > 0 {
        if now >= a.last_goal_achievement_time { now - a.last_goal_achievement_time } else { 0 }
    } else if now >= STARTUP_MS {
        now - STARTUP_MS
    } else {
        0
    }
}

/// Number of the first `n` agents whose state satisfies `p`.
pub open spec fn count_agents(s: Seq<Agent>, n: int, p: spec_fn(AntState) -> bool) -> int
    decreases n,
{
    if n <= 0 { 0 } else { count_agents(s, n - 1, p) + if p(s[n - 1].state) { 1int } else { 0 } }
}

/// Sum of `time_since_goal` over the first `n` agents that are active.
pub open spec fn goal_time_sum(s: Seq<Agent>, n: int, now: int) -> int
    decreases n,
{
    if n <= 0 {
        0
    } else {
        goal_time_sum(s, n - 1, now) + if is_active(s[n - 1].state) { time_since_goal(s[n - 1].state, now) } else { 0 }
    }
}

fn time_since_goal_of(a: &AntState, now: u64) -> (r: u64)
    ensures
        r == time_since_goal(*a, now as int),
        r <= now,
{
    if a.last_goal_achievement_time > 0 {
        if now >= a.last_goal_achievement_time { now - a.last_goal_achievement_time } else { 0 }
    } else if now >= STARTUP_MS {
        now - STARTUP_MS
    } else {
        0
    }
}

/// What the monitor does: tracker `t0` becomes `t1` with its counts and
/// mean recomputed over `agents` at time `now`, and `end` says whether the
/// run should end.
pub open spec fn analysed(agents: Seq<Agent>, t0: PerformanceTracker, t1: PerformanceTracker, now: int, end: bool) -> bool {
    &&& t1.stuck_ants_count == count_agents(agents, agents.len() as int, |a: AntState| is_stuck(a))
    &&& t1.oscillating_ants_count == count_agents(
        agents,
        agents.len() as int,
        |a: AntState| is_oscillating(a),
    )
    &&& t1.lost_ants_count == count_agents(
        agents,
        agents.len() as int,
        |a: AntState| is_lost(a, now),
    )
    &&& t1.lost_food_carriers_count == count_agents(
        agents,
        agents.len() as int,
        |a: AntState| is_lost_carrier(a, now),
    )
    &&& ({
        let active = count_agents(agents, agents.len() as int, |a: AntState| is_active(a));
        t1.average_time_since_goal == if active == 0 {
            0
        } else {
            goal_time_sum(agents, agents.len() as int, now) / active
        }
    })
    &&& t1 == (PerformanceTracker {
        stuck_ants_count: t1.stuck_ants_count,
        oscillating_ants_count: t1.oscillating_ants_count,
        lost_ants_count: t1.lost_ants_count,
        lost_food_carriers_count: t1.lost_food_carriers_count,
        average_time_since_goal: t1.average_time_since_goal,
        ..t0
    })
    &&& end == (t1.oscillating_ants_count >= OSCILLATION_CEILING || now > RUN_HORIZON_MS)
}

/// Recounts stuck, oscillating, lost and lost-carrier agents and the mean
/// time since an active agent's last goal (0 with none active), and says
/// whether the run should end: too many oscillating agents, or past the horizon.
pub fn performance_analysis_system(agents: &Vec<Agent>, tracker: &mut PerformanceTracker, now: u64) -> (end: bool)
    requires
        agents@.len() < 1_000_000,
        now < 1_000_000_000_000,
    ensures
        analysed(agents@, *old(tracker), *final(tracker), now as int, end),
{
    let mut stuck: u64 = 0;
    let mut oscillating: u64 = 0;
    let mut lost: u64 = 0;
    let mut lost_carriers: u64 = 0;
    let mut active: u64 = 0;
    let mut goal_sum: u64 = 0;
    let mut i: usize = 0;
    while i < agents.len()
        invariant
            agents@.len() < 1_000_000,
            now < 1_000_000_000_000,
            i <= agents@.len(),
            stuck == count_agents(agents@, i as int, |a: AntState| is_stuck(a)),
            oscillating == count_agents(agents@, i as int, |a: AntState| is_oscillating(a)),
            lost == count_agents(agents@, i as int, |a: AntState| is_lost(a, now as int)),
            lost_carriers == count_agents(agents@, i as int, |a: AntState| is_lost_carrier(a, now as int)),
            active == count_agents(agents@, i as int, |a: AntState| is_active(a)),
            goal_sum == goal_time_sum(agents@, i as int, now as int),
            stuck <= i && oscillating <= i && lost <= i && lost_carriers <= i && active <= i,
            goal_sum <= i * now,
        decreases agents@.len() - i,
    {
        let a = agents[i].state;
        if a.stuck_timer > STUCK_CUTOFF_MS {
            stuck = stuck + 1;
        }
        if a.direction_changes > OSCILLATION_CHANGES && a.stuck_timer > OSCILLATION_STUCK_MS {
            oscillating = oscillating + 1;
        }
        if !a.has_found_food && a.startup_timer == 0 && now > LOST_AFTER_MS {
            lost = lost + 1;
        }
        if a.carrying_food && a.food_carry_start_time > 0 && now >= a.food_carry_start_time
            && now - a.food_carry_start_time > CARRIER_LOST_MS {
            lost_carriers = lost_carriers + 1;
        }
        if a.startup_timer == 0 {
            let t = time_since_goal_of(&a, now);
            assert(goal_sum + t <= (i + 1) * now) by (nonlinear_arith)
                requires goal_sum <= i * now, t <= now;
            assert((i + 1) * now <= 1_000_000 * 1_000_000_000_000) by (nonlinear_arith)
                requires i + 1 <= 1_000_000, now < 1_000_000_000_000;
            active = active + 1;
            goal_sum = goal_sum + t;
        } else {
            assert(goal_sum <= (i + 1) * now) by (nonlinear_arith)
                requires goal_sum <= i * now, 0 <= now;
        }
        i = i + 1;
    }
    tracker.stuck_ants_count = stuck;
    tracker.oscillating_ants_count = oscillating;
    tracker.lost_ants_count = lost;
    tracker.lost_food_carriers_count = lost_carriers;
    tracker.average_time_since_goal = if active == 0 { 0 } else { goal_sum / active };
    oscillating >= OSCILLATION_CEILING || now > RUN_HORIZON_MS
}

} // verus!
