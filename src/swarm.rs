use vstd::prelude::*;
use crate::geometry::{bearing, dist_sq, distance_sq, gap, heading_gap, in_bounds, nearest_heading, Point, HEADINGS, UNIT};
use crate::navigation::BIAS_LIMIT;

verus! {

/// Radius within which other agents count as neighbours (sub-units).
pub const SWARM_RADIUS: i64 = 60 * UNIT;

/// Radius within which other agents count as crowding (sub-units).
pub const CROWD_RADIUS: i64 = 25 * UNIT;

/// Crowding neighbours, and trail time (ms), that make an agent "swarming".
pub const CROWD_COUNT: u32 = 3;
pub const CROWD_TRAIL_MS: u32 = 2000;

/// Failure share (tenths) and neighbour count above which consensus biases apply.
pub const FAILURE_TENTHS: u64 = 6;
pub const DENSITY_MIN: u64 = 5;

/// Bias toward a direction with a successful neighbour, and away from failures.
pub const CONSENSUS_BONUS: u64 = 700_000;
pub const AVOID_FAILURE_BONUS: u64 = 500_000;

/// One agent as seen in the per-tick snapshot.
#[derive(Clone, Copy, Debug, PartialEq, Eq, Structural)]
pub struct Neighbor {
    pub position: Point,
    pub carrying_food: bool,
    pub successful_deliveries: u32,
}

pub open spec fn snapshot_ok(s: Seq<Neighbor>) -> bool {
    forall|j: int| 0 <= j < s.len() ==> in_bounds(#[trigger] s[j].position)
}

/// Agent `j` is a neighbour of `me` within `r`.
pub open spec fn near_to(s: Seq<Neighbor>, me: int, j: int, r: int) -> bool {
    j != me && dist_sq(s[j].position, s[me].position) < r * r
}

/// Bearing from `me` to agent `j`.
pub open spec fn bearing_to(s: Seq<Neighbor>, me: int, j: int) -> int {
    bearing(s[j].position.x - s[me].position.x, s[j].position.y - s[me].position.y)
}

/// Number of neighbours of `me` within `r` among the first `n` entries.
pub open spec fn count_near(s: Seq<Neighbor>, me: int, r: int, n: int) -> int
    decreases n,
{
    if n <= 0 { 0 } else { count_near(s, me, r, n - 1) + if near_to(s, me, n - 1, r) { 1int } else { 0 } }
}

/// Agent `j` is a neighbour of `me` within `r`, the boundary included.
pub open spec fn within(s: Seq<Neighbor>, me: int, j: int, r: int) -> bool {
    j != me && dist_sq(s[j].position, s[me].position) <= r * r
}

/// Number of agents within `r` of `me`, boundary included, among the first `n`.
pub open spec fn count_within(s: Seq<Neighbor>, me: int, r: int, n: int) -> int
    decreases n,
{
    if n <= 0 { 0 } else { count_within(s, me, r, n - 1) + if within(s, me, n - 1, r) { 1int } else { 0 } }
}

/// Number of those that have never delivered.
pub open spec fn count_failing(s: Seq<Neighbor>, me: int, r: int, n: int) -> int
    decreases n,
{
    if n <= 0 {
        0
    } else {
        count_failing(s, me, r, n - 1) + if within(s, me, n - 1, r) && s[n - 1].successful_deliveries == 0 {
            1int
        } else {
            0
        }
    }
}

/// Number of successful neighbours (at least one delivery) at bearing `h`.
pub open spec fn count_success_at(s: Seq<Neighbor>, me: int, r: int, n: int, h: int) -> int
    decreases n,
{
    if n <= 0 {
        0
    } else {
        count_success_at(s, me, r, n - 1, h) + if within(s, me, n - 1, r) && s[n - 1].successful_deliveries > 0
            && bearing_to(s, me, n - 1) == h {
            1int
        } else {
            0
        }
    }
}

/// Number of neighbours not carrying food (still searching) at bearing `h`.
pub open spec fn count_traffic_at(s: Seq<Neighbor>, me: int, r: int, n: int, h: int) -> int
    decreases n,
{
    if n <= 0 {
        0
    } else {
        count_traffic_at(s, me, r, n - 1, h) + if within(s, me, n - 1, r) && !s[n - 1].carrying_food
            && bearing_to(s, me, n - 1) == h {
            1int
        } else {
            0
        }
    }
}

/// Sum of the vectors from failing neighbours to `me` (x and y).
pub open spec fn away_x(s: Seq<Neighbor>, me: int, r: int, n: int) -> int
    decreases n,
{
    if n <= 0 {
        0
    } else {
        away_x(s, me, r, n - 1) + if within(s, me, n - 1, r) && s[n - 1].successful_deliveries == 0 {
            s[me].position.x - s[n - 1].position.x
        } else {
            0
        }
    }
}

pub open spec fn away_y(s: Seq<Neighbor>, me: int, r: int, n: int) -> int
    decreases n,
{
    if n <= 0 {
        0
    } else {
        away_y(s, me, r, n - 1) + if within(s, me, n - 1, r) && s[n - 1].successful_deliveries == 0 {
            s[me].position.y - s[n - 1].position.y
        } else {
            0
        }
    }
}

/// What one agent learns from its neighbourhood in the snapshot.
#[derive(Clone, Copy, Debug)]
pub struct SwarmContext {
    /// Neighbours within `SWARM_RADIUS`.
    pub ant_density: u64,
    /// Those of them that have never delivered.
    pub failing: u64,
    /// Successful neighbours by bearing.
    pub successful_by_heading: [u64; 16],
    /// Heading away from the failing neighbours, on average.
    pub away_from_failures: u8,
    /// Searching neighbours by bearing.
    pub traffic_by_heading: [u64; 16],
    /// Share of neighbours that never delivered, per-mille (0 with none).
    pub local_failure_rate: u64,
    /// Share of neighbours that delivered, per-mille (500 with none).
    pub collective_confidence: u64,
    /// Whether, finding no trail, the agent should explore where its
    /// neighbours are not (`collective_exploration`).
    pub should_use_collective_exploration: bool,
    /// The opening heading of the sector with least searching traffic.
    pub least_explored_direction: u8,
    /// That heading with a random turn of up to one compass step.
    pub suggested_exploration_direction: u8,
    /// The failure rate when collective exploration applies, else 0.
    pub exploration_pressure: u64,
}

/// Builds the neighbourhood statistics of agent `me` from the snapshot.
/// `c` is what agent `me` learns from snapshot `s`, having gone
/// `since_progress` ms without progress, with random number `roll`.
pub open spec fn analysis_of(s: Seq<Neighbor>, me: int, since_progress: int, roll: int, c: SwarmContext) -> bool {
    &&& c.ant_density == count_within(s, me, SWARM_RADIUS as int, s.len() as int)
    &&& c.failing == count_failing(s, me, SWARM_RADIUS as int, s.len() as int)
    &&& forall|h: int|
        0 <= h < 16 ==> c.successful_by_heading@[h] == count_success_at(
            s,
            me,
            SWARM_RADIUS as int,
            s.len() as int,
            h,
        )
    &&& c.away_from_failures == bearing(
        away_x(s, me, SWARM_RADIUS as int, s.len() as int),
        away_y(s, me, SWARM_RADIUS as int, s.len() as int),
    )
    &&& forall|h: int|
        0 <= h < 16 ==> c.traffic_by_heading@[h] == count_traffic_at(
            s,
            me,
            SWARM_RADIUS as int,
            s.len() as int,
            h,
        )
    &&& forall|h: int| 0 <= h < 16 ==> c.traffic_by_heading@[h] <= s.len()
    &&& c.away_from_failures < HEADINGS
    &&& c.ant_density <= s.len()
    &&& c.failing <= s.len()
    &&& c.local_failure_rate == if c.ant_density > 0 { c.failing * 1000 / (c.ant_density as int) } else { 0 }
    &&& c.collective_confidence == if c.ant_density > 0 {
        (c.ant_density - c.failing) * 1000 / (c.ant_density as int)
    } else {
        500
    }
    &&& c.should_use_collective_exploration == collective_exploration(c, since_progress > STRUGGLING_MS)
    &&& c.should_use_collective_exploration ==> {
        &&& c.least_explored_direction % 2 == 0
        &&& c.least_explored_direction < HEADINGS
        &&& forall|k: int| 0 <= k < 8 ==> sector_traffic(c, sector_of(c.least_explored_direction as int)) <= #[trigger] sector_traffic(c, k)
        &&& forall|k: int| 0 <= k < sector_of(c.least_explored_direction as int) ==> sector_traffic(c, sector_of(c.least_explored_direction as int)) < #[trigger] sector_traffic(c, k)
        &&& c.suggested_exploration_direction == (c.least_explored_direction + roll % 3 + 15) % 16
        &&& c.exploration_pressure == c.local_failure_rate
    }
    &&& !c.should_use_collective_exploration ==> c.exploration_pressure == 0
        && c.least_explored_direction == 0 && c.suggested_exploration_direction == 0
}

pub fn analyze_local_swarm_intelligence(
    snapshot: &Vec<Neighbor>,
    me: usize,
    since_progress: u32,
    roll: u32,
) -> (r: SwarmContext)
    requires
        me < snapshot@.len(),
        snapshot@.len() < 1_000_000,
        snapshot_ok(snapshot@),
    ensures
        analysis_of(snapshot@, me as int, since_progress as int, roll as int, r),
        forall|h: int| 0 <= h < 16 ==> r.traffic_by_heading@[h] <= snapshot@.len(),
        r.away_from_failures < HEADINGS,
        r.ant_density <= snapshot@.len(),
        r.failing <= snapshot@.len(),
        r.suggested_exploration_direction < HEADINGS,
{
    let ghost s = snapshot@;
    let ghost m = me as int;
    let ghost rad = SWARM_RADIUS as int;
    let here = snapshot[me].position;
    assert(in_bounds(s[m].position));
    let mut density: u64 = 0;
    let mut failing: u64 = 0;
    let mut by_heading = [0u64; 16];
    let mut traffic = [0u64; 16];
    let mut ax: i128 = 0;
    let mut ay: i128 = 0;
    let mut j: usize = 0;
    while j < snapshot.len()
        invariant
            s == snapshot@,
            m == me,
            rad == SWARM_RADIUS,
            me < s.len() < 1_000_000,
            snapshot_ok(s),
            here == s[m].position,
            in_bounds(here),
            j <= s.len(),
            density == count_within(s, m, rad, j as int),
            failing == count_failing(s, m, rad, j as int),
            density <= j,
            failing <= density,
            forall|h: int| 0 <= h < 16 ==> by_heading@[h] == count_success_at(s, m, rad, j as int, h),
            forall|h: int| 0 <= h < 16 ==> by_heading@[h] <= j,
            forall|h: int| 0 <= h < 16 ==> traffic@[h] == count_traffic_at(s, m, rad, j as int, h),
            forall|h: int| 0 <= h < 16 ==> traffic@[h] <= j,
            ax == away_x(s, m, rad, j as int),
            ay == away_y(s, m, rad, j as int),
            -2_000_000_000 * j <= ax <= 2_000_000_000 * j,
            -2_000_000_000 * j <= ay <= 2_000_000_000 * j,
        decreases s.len() - j,
    {
        let other = snapshot[j];
        assert(in_bounds(s[j as int].position));
        if j != me && distance_sq(other.position, here) <= SWARM_RADIUS * SWARM_RADIUS {
            density = density + 1;
            let h = nearest_heading((other.position.x - here.x) as i128, (other.position.y - here.y) as i128);
            if other.successful_deliveries == 0 {
                failing = failing + 1;
                ax = ax + (here.x - other.position.x) as i128;
                ay = ay + (here.y - other.position.y) as i128;
            } else {
                by_heading[h as usize] = by_heading[h as usize] + 1;
            }
            if !other.carrying_food {
                traffic[h as usize] = traffic[h as usize] + 1;
            }
        }
        j = j + 1;
    }
    assert(-2_000_000_000_000_000 <= ax <= 2_000_000_000_000_000) by (nonlinear_arith)
        requires -2_000_000_000 * j <= ax <= 2_000_000_000 * j, j < 1_000_000;
    assert(-2_000_000_000_000_000 <= ay <= 2_000_000_000_000_000) by (nonlinear_arith)
        requires -2_000_000_000 * j <= ay <= 2_000_000_000 * j, j < 1_000_000;
    let away = nearest_heading(ax, ay);
    let mut c = SwarmContext {
        ant_density: density,
        failing,
        successful_by_heading: by_heading,
        away_from_failures: away,
        traffic_by_heading: traffic,
        local_failure_rate: if density > 0 { failing * 1000 / density } else { 0 },
        collective_confidence: if density > 0 { (density - failing) * 1000 / density } else { 500 },
        should_use_collective_exploration: false,
        least_explored_direction: 0,
        suggested_exploration_direction: 0,
        exploration_pressure: 0,
    };
    if should_use_collective_exploration(&c, since_progress > STRUGGLING_MS) {
        let least = least_traffic_heading(&c);
        let ghost c0 = c;
        c.should_use_collective_exploration = true;
        c.least_explored_direction = least;
        c.suggested_exploration_direction = ((least as u32 + roll % 3 + 15) % 16) as u8;
        c.exploration_pressure = c.local_failure_rate;
        assert forall|k: int| 0 <= k < 8 implies #[trigger] sector_traffic(c, k) == sector_traffic(c0, k) by {}
    }
    c
}

/// Failures dominate a crowded neighbourhood: more than six in ten of
/// more than `DENSITY_MIN` neighbours have never delivered.
pub open spec fn consensus_applies(density: int, failing: int) -> bool {
    failing * 10 > density * FAILURE_TENTHS && density > DENSITY_MIN
}

/// A successful neighbour lies within one compass step of heading `h`.
pub open spec fn success_near(by_heading: Seq<u64>, h: int) -> bool {
    by_heading[(h + 15) % 16] > 0 || by_heading[h] > 0 || by_heading[(h + 1) % 16] > 0
}

/// Bias of the `i`th of the eight sampled directions (heading `2 i`).
pub open spec fn bias_at(c: SwarmContext, i: int) -> int {
    if consensus_applies(c.ant_density as int, c.failing as int) {
        (if success_near(c.successful_by_heading@, 2 * i) { CONSENSUS_BONUS as int } else { 0 }) + (if heading_gap(
            2 * i,
            c.away_from_failures as int,
        ) <= 2 {
            AVOID_FAILURE_BONUS as int
        } else {
            0
        })
    } else {
        0
    }
}

/// The per-direction trail-score bias of the eight sampled directions:
/// where failures dominate a crowd, toward successful neighbours and away
/// from the failing ones; otherwise none.
pub fn calculate_collective_intelligence_bonus(ctx: &SwarmContext) -> (r: [u64; 8])
    requires
        ctx.away_from_failures < HEADINGS,
        ctx.ant_density < 1_000_000,
        ctx.failing < 1_000_000,
    ensures
        forall|i: int| 0 <= i < 8 ==> r@[i] == bias_at(*ctx, i),
        forall|i: int| 0 <= i < 8 ==> r@[i] <= BIAS_LIMIT,
{
    let mut r = [0u64; 8];
    let applies = ctx.failing * 10 > ctx.ant_density * FAILURE_TENTHS && ctx.ant_density > DENSITY_MIN;
    let mut i: usize = 0;
    while i < 8
        invariant
            ctx.away_from_failures < HEADINGS,
            applies == consensus_applies(ctx.ant_density as int, ctx.failing as int),
            i <= 8,
            forall|j: int| 0 <= j < i ==> r@[j] == bias_at(*ctx, j),
            forall|j: int| 0 <= j < i ==> r@[j] <= BIAS_LIMIT,
        decreases 8 - i,
    {
        if applies {
            let h = 2 * i;
            let s = &ctx.successful_by_heading;
            let toward = if s[(h + 15) % 16] > 0 || s[h] > 0 || s[(h + 1) % 16] > 0 { CONSENSUS_BONUS } else { 0 };
            let away = if gap(h as u8, ctx.away_from_failures) <= 2 { AVOID_FAILURE_BONUS } else { 0 };
            r[i] = toward + away;
        } else {
            r[i] = 0;
        }
        i = i + 1;
    }
    r
}

/// Number of agents other than `me` within `CROWD_RADIUS`.
pub fn count_crowding(snapshot: &Vec<Neighbor>, me: usize) -> (r: u32)
    requires
        me < snapshot@.len(),
        snapshot@.len() < 1_000_000,
        snapshot_ok(snapshot@),
    ensures
        r == count_near(snapshot@, me as int, CROWD_RADIUS as int, snapshot@.len() as int),
{
    let here = snapshot[me].position;
    let mut n: u32 = 0;
    let mut j: usize = 0;
    while j < snapshot.len()
        invariant
            me < snapshot@.len() < 1_000_000,
            snapshot_ok(snapshot@),
            here == snapshot@[me as int].position,
            in_bounds(here),
            j <= snapshot@.len(),
            n == count_near(snapshot@, me as int, CROWD_RADIUS as int, j as int),
            n <= j,
        decreases snapshot@.len() - j,
    {
        let other = snapshot[j];
        assert(in_bounds(snapshot@[j as int].position));
        if j != me && distance_sq(other.position, here) < CROWD_RADIUS * CROWD_RADIUS {
            n = n + 1;
        }
        j = j + 1;
    }
    n
}

/// Share of failing neighbours (tenths) above which a struggling agent,
/// and any other agent, turns to collective exploration.
pub const STRUGGLING_FAILURE_TENTHS: u64 = 3;

/// Time without progress (ms) after which an agent counts as struggling.
pub const STRUGGLING_MS: u32 = 8000;

/// Neighbours needed for collective exploration.
pub const COLLECTIVE_MIN: u64 = 3;

/// Some successful neighbour was seen.
pub open spec fn any_success(by_heading: Seq<u64>) -> bool {
    exists|h: int| 0 <= h < 16 && by_heading[h] > 0
}

/// With no trail, the agent explores where its neighbours are not: failures
/// dominate (over three tenths for a struggling agent, six otherwise), it
/// has at least `COLLECTIVE_MIN` neighbours, and one of them has succeeded.
pub open spec fn collective_exploration(c: SwarmContext, struggling: bool) -> bool {
    &&& c.failing * 10 > c.ant_density * (if struggling { STRUGGLING_FAILURE_TENTHS } else { FAILURE_TENTHS })
    &&& c.ant_density >= COLLECTIVE_MIN
    &&& any_success(c.successful_by_heading@)
}

/// `collective_exploration` in code.
pub fn should_use_collective_exploration(c: &SwarmContext, struggling: bool) -> (r: bool)
    requires
        c.ant_density < 1_000_000,
        c.failing < 1_000_000,
    ensures
        r == collective_exploration(*c, struggling),
{
    let tenths = if struggling { STRUGGLING_FAILURE_TENTHS } else { FAILURE_TENTHS };
    if !(c.failing * 10 > c.ant_density * tenths && c.ant_density >= COLLECTIVE_MIN) {
        return false;
    }
    let mut h: usize = 0;
    while h < 16
        invariant
            h <= 16,
            tenths == (if struggling { STRUGGLING_FAILURE_TENTHS } else { FAILURE_TENTHS }),
            c.failing * 10 > c.ant_density * tenths && c.ant_density >= COLLECTIVE_MIN,
            forall|k: int| 0 <= k < h ==> c.successful_by_heading@[k] == 0,
        decreases 16 - h,
    {
        if c.successful_by_heading[h] > 0 {
            assert(any_success(c.successful_by_heading@)) by {
                assert(c.successful_by_heading@[h as int] > 0);
            }
            return true;
        }
        h = h + 1;
    }
    false
}

/// The compass heading that opens sector `k`: sectors run counter-clockwise
/// from 180 degrees, 45 degrees each.
pub open spec fn sector_start(k: int) -> int {
    (8 + 2 * k) % 16
}

/// The sector that heading `h` opens.
pub open spec fn sector_of(h: int) -> int {
    ((h + 8) % 16) / 2
}

/// Searching traffic in compass sector `k` (headings `sector_start(k)`
/// and the one after).
pub open spec fn sector_traffic(c: SwarmContext, k: int) -> int {
    c.traffic_by_heading@[sector_start(k)] + c.traffic_by_heading@[sector_start(k) + 1]
}

/// The first of the eight sectors, counted from 180 degrees, with the
/// least searching traffic, as the heading that opens it.
pub fn least_traffic_heading(c: &SwarmContext) -> (r: u8)
    requires
        forall|h: int| 0 <= h < 16 ==> c.traffic_by_heading@[h] < 1_000_000,
    ensures
        r % 2 == 0,
        r < HEADINGS,
        r == sector_start(sector_of(r as int)),
        forall|k: int| 0 <= k < 8 ==> sector_traffic(*c, sector_of(r as int)) <= #[trigger] sector_traffic(*c, k),
        forall|k: int| 0 <= k < sector_of(r as int) ==> sector_traffic(*c, sector_of(r as int)) < #[trigger] sector_traffic(*c, k),
{
    let t = &c.traffic_by_heading;
    let mut best: usize = 0;
    let mut best_traffic: u64 = t[8] + t[9];
    let mut k: usize = 1;
    while k < 8
        invariant
            forall|h: int| 0 <= h < 16 ==> c.traffic_by_heading@[h] < 1_000_000,
            t == &c.traffic_by_heading,
            1 <= k <= 8,
            best < k,
            best_traffic == sector_traffic(*c, best as int),
            forall|j: int| 0 <= j < k ==> best_traffic <= #[trigger] sector_traffic(*c, j),
            forall|j: int| 0 <= j < best ==> best_traffic < #[trigger] sector_traffic(*c, j),
        decreases 8 - k,
    {
        let v = t[(8 + 2 * k) % 16] + t[(8 + 2 * k) % 16 + 1];
        if v < best_traffic {
            best = k;
            best_traffic = v;
        }
        k = k + 1;
    }
    ((8 + 2 * best) % 16) as u8
}

/// Percent by which a swarming agent discounts what it senses: 12 per
/// close neighbour, at most 40.
pub open spec fn crowding_percent(nearby: int) -> int {
    if 12 * nearby > 40 { 40 } else { 12 * nearby }
}

/// A swarming agent's view of the trail: every sample reduced by
/// `crowding_percent` of its close neighbours, rounded down.
pub fn discount_for_crowding(samples: &mut [u64; 8], nearby: u32)
    requires
        forall|i: int| 0 <= i < 8 ==> old(samples)@[i] <= crate::pheromones::LEVEL_CAP,
    ensures
        forall|i: int|
            0 <= i < 8 ==> final(samples)@[i] == old(samples)@[i] * (100 - crowding_percent(nearby as int)) / 100,
        forall|i: int| 0 <= i < 8 ==> final(samples)@[i] <= old(samples)@[i],
{
    let pct: u64 = if nearby > 3 { 40 } else { 12 * nearby as u64 };
    let ghost start = samples@;
    let mut i: usize = 0;
    while i < 8
        invariant
            pct == crowding_percent(nearby as int),
            pct <= 40,
            forall|j: int| 0 <= j < 8 ==> start[j] <= crate::pheromones::LEVEL_CAP,
            i <= 8,
            forall|j: int| 0 <= j < i ==> samples@[j] == start[j] * (100 - pct) / 100,
            forall|j: int| 0 <= j < i ==> samples@[j] <= start[j],
            forall|j: int| i <= j < 8 ==> samples@[j] == start[j],
        decreases 8 - i,
    {
        let v = samples[i];
        assert(samples@[i as int] == start[i as int]);
        assert(v == samples@[i as int]);
        assert(start[i as int] <= crate::pheromones::LEVEL_CAP);
        assert(v * (100 - pct) <= v * 100) by (nonlinear_arith)
            requires pct <= 40;
        let d = v * (100 - pct) / 100;
        samples[i] = d;
        i = i + 1;
    }
}

} // verus!
