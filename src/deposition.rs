use vstd::prelude::*;
use crate::geometry::{ahead, floor_div, in_bounds, step_ahead, Point, COORD_LIMIT, UNIT};
use crate::pheromones::{GridView, PheromoneGrid, PheromoneType};

verus! {

/// The food deposit halves for every this many sub-units travelled since
/// pickup: the discrete form of `exp(-0.01 d)`.
pub const FADE_HALF_DISTANCE: u64 = 70 * 64;

/// Spacing (sub-units, on the longer axis) of the points a move deposits
/// at: 36 keeps consecutive points under 0.8 units (51.2 sub-units) apart
/// in any direction, since 36 * sqrt(2) < 51.2.
pub const DEPOSIT_STEP: i64 = 36;

/// Within these distances of the nest a carrier's nest deposit is doubled,
/// or raised by half (sub-units).
pub const NEST_NEAR: i64 = 150 * UNIT;
pub const NEST_MID: i64 = 300 * UNIT;

/// Emission of a food source at its centre, in field units; ring `k` of
/// eleven emits `(144 - k^2) / 144` of it at points `5 k` units out (see
/// `emission`).
pub const EMIT_CENTER: u64 = 200_000;
pub const EMIT_RINGS: usize = 11;
pub const EMIT_RING_SPACING: i64 = 5;

/// Largest lay rate a configuration may give, in field units.
pub const MAX_LAY_RATE: u64 = 1_000_000_000_000;

/// `v` halved `k` times, rounding down each time.
pub open spec fn halved(v: int, k: int) -> int
    decreases k,
{
    if k <= 0 { v } else { halved(v, k - 1) / 2 }
}

/// A carrier's food deposit: the lay rate times the quality weight
/// (percent), halved once per `FADE_HALF_DISTANCE` travelled since pickup.
pub open spec fn food_amount(lay: int, weight_pct: int, travelled: int) -> int {
    halved(lay * weight_pct / 100, travelled / FADE_HALF_DISTANCE as int)
}

/// Tenths by which nearness to the nest scales a carrier's nest deposit.
pub open spec fn nest_proximity_tenths(d_sq: int) -> int {
    if d_sq < NEST_NEAR * NEST_NEAR { 20 } else if d_sq < NEST_MID * NEST_MID { 15 } else { 10 }
}

/// Tenths by which an agent's delivery record scales its nest deposit:
/// 1 + 0.3 per delivery, at most 2.5.
pub open spec fn success_tenths(deliveries: int) -> int {
    if 3 * deliveries > 15 { 25 } else { 10 + 3 * deliveries }
}

/// A carrier's nest deposit.
pub open spec fn nest_amount(lay: int, d_sq: int, deliveries: int) -> int {
    lay * nest_proximity_tenths(d_sq) * success_tenths(deliveries) / 100
}

/// An explorer's nest deposit: a tenth of the lay rate, and only from an
/// agent that has delivered before.
pub open spec fn explorer_nest_amount(lay: int, deliveries: int) -> int {
    if deliveries > 0 { lay / 10 } else { 0 }
}

proof fn lemma_halved_bound(v: int, k: int)
    requires
        0 <= v,
    ensures
        0 <= halved(v, k) <= v,
    decreases k,
{
    if k > 0 {
        lemma_halved_bound(v, k - 1);
    }
}

/// `food_amount` in code.
pub fn food_deposit_amount(lay: u64, weight_pct: u64, travelled: u64) -> (r: u64)
    requires
        lay <= MAX_LAY_RATE,
        weight_pct <= 1000,
    ensures
        r == food_amount(lay as int, weight_pct as int, travelled as int),
{
    let k = travelled / FADE_HALF_DISTANCE;
    assert(lay * weight_pct <= MAX_LAY_RATE * 1000) by (nonlinear_arith)
        requires lay <= MAX_LAY_RATE, weight_pct <= 1000;
    let mut v = lay * weight_pct / 100;
    assert(k == travelled as int / FADE_HALF_DISTANCE as int);
    let mut i: u64 = 0;
    while i < k
        invariant
            i <= k,
            k == travelled as int / FADE_HALF_DISTANCE as int,
            v == halved(lay * weight_pct / 100, i as int),
        decreases k - i,
    {
        if v == 0 {
            proof {
                lemma_halved_zero(lay * weight_pct / 100, i as int, k as int);
            }
            return 0;
        }
        v = v / 2;
        i = i + 1;
    }
    v
}

proof fn lemma_halved_zero(v: int, i: int, k: int)
    requires
        0 <= i <= k,
        halved(v, i) == 0,
    ensures
        halved(v, k) == 0,
    decreases k - i,
{
    if i < k {
        lemma_halved_zero(v, i, k - 1);
        assert(halved(v, k) == halved(v, k - 1) / 2);
    }
}

/// `nest_amount` in code.
pub fn nest_deposit_amount(lay: u64, to_nest_sq: i64, deliveries: u32) -> (r: u64)
    requires
        lay <= MAX_LAY_RATE,
    ensures
        r == nest_amount(lay as int, to_nest_sq as int, deliveries as int),
{
    let prox: u64 = if to_nest_sq < NEST_NEAR * NEST_NEAR {
        20
    } else if to_nest_sq < NEST_MID * NEST_MID {
        15
    } else {
        10
    };
    let success: u64 = if deliveries > 5 { 25 } else { 10 + 3 * deliveries as u64 };
    assert(lay * prox * success <= MAX_LAY_RATE * 20 * 25) by (nonlinear_arith)
        requires lay <= MAX_LAY_RATE, prox <= 20, success <= 25;
    lay * prox * success / 100
}

/// `explorer_nest_amount` in code.
pub fn explorer_deposit_amount(lay: u64, deliveries: u32) -> (r: u64)
    ensures
        r == explorer_nest_amount(lay as int, deliveries as int),
{
    if deliveries > 0 { lay / 10 } else { 0 }
}

/// Number of intervals a move from `a` to `b` is split into: its longer
/// axis over `DEPOSIT_STEP`, rounded up, so that consecutive deposit
/// points are at most one step apart.
pub open spec fn intervals(a: Point, b: Point) -> int {
    let dx = if b.x >= a.x { b.x - a.x } else { a.x - b.x };
    let dy = if b.y >= a.y { b.y - a.y } else { a.y - b.y };
    ((if dx >= dy { dx } else { dy }) + DEPOSIT_STEP - 1) / DEPOSIT_STEP as int
}

/// Point `k` of `n + 1` evenly spaced points from `a` to `b` (rounded down).
pub open spec fn path_point(a: Point, b: Point, n: int, k: int) -> (int, int) {
    if n == 0 { (b.x as int, b.y as int) } else {
        (a.x + (b.x - a.x) * k / n, a.y + (b.y - a.y) * k / n)
    }
}

/// The grid after depositing `each` at the first `k` points of the path.
pub open spec fn along(g: GridView, c: PheromoneType, a: Point, b: Point, n: int, each: int, k: int) -> GridView
    decreases k,
{
    if k <= 0 { g } else {
        along(g, c, a, b, n, each, k - 1).deposit(c, path_point(a, b, n, k - 1).0, path_point(a, b, n, k - 1).1, each)
    }
}

/// Spreads `amount` of channel `c` evenly over the points of the move from
/// `a` to `b`, one point per `DEPOSIT_STEP` of its longer axis plus one, so
/// the trail has no gaps.
pub fn deposit_along(grid: &mut PheromoneGrid, c: PheromoneType, a: Point, b: Point, amount: u64)
    requires
        old(grid).wf(),
        in_bounds(a),
        in_bounds(b),
    ensures
        final(grid).wf(),
        final(grid)@ == along(
            old(grid)@,
            c,
            a,
            b,
            intervals(a, b),
            amount as int / (intervals(a, b) + 1),
            intervals(a, b) + 1,
        ),
        final(grid).width == old(grid).width,
        final(grid).height == old(grid).height,
{
    let dx = if b.x >= a.x { b.x - a.x } else { a.x - b.x };
    let dy = if b.y >= a.y { b.y - a.y } else { a.y - b.y };
    let n = ((if dx >= dy { dx } else { dy }) + DEPOSIT_STEP - 1) / DEPOSIT_STEP;
    let each = amount / (n as u64 + 1);
    let ghost g0 = grid@;
    let mut k: i64 = 0;
    while k <= n
        invariant
            grid.wf(),
            in_bounds(a),
            in_bounds(b),
            0 <= n <= 2 * COORD_LIMIT / DEPOSIT_STEP as int + 1,
            n == intervals(a, b),
            each == amount as int / (n + 1),
            0 <= k <= n + 1,
            grid@ == along(g0, c, a, b, n as int, each as int, k as int),
            grid.width == g0.width,
            grid.height == g0.height,
        decreases n + 1 - k,
    {
        let (px, py) = if n == 0 {
            (b.x, b.y)
        } else {
            assert(-200_000_000_000_000_000 <= (b.x - a.x) * k <= 200_000_000_000_000_000) by (nonlinear_arith)
                requires
                    -2_000_000_000 <= b.x - a.x <= 2_000_000_000,
                    0 <= k <= 100_000_000;
            assert(-200_000_000_000_000_000 <= (b.y - a.y) * k <= 200_000_000_000_000_000) by (nonlinear_arith)
                requires
                    -2_000_000_000 <= b.y - a.y <= 2_000_000_000,
                    0 <= k <= 100_000_000;
            let ox = floor_div((b.x - a.x) * k, n);
            let oy = floor_div((b.y - a.y) * k, n);
            assert(-2 * COORD_LIMIT <= ox <= 2 * COORD_LIMIT) by (nonlinear_arith)
                requires
                    ox == (b.x - a.x) * k / (n as int),
                    -2 * COORD_LIMIT <= b.x - a.x <= 2 * COORD_LIMIT,
                    0 <= k <= n,
                    n > 0;
            assert(-2 * COORD_LIMIT <= oy <= 2 * COORD_LIMIT) by (nonlinear_arith)
                requires
                    oy == (b.y - a.y) * k / (n as int),
                    -2 * COORD_LIMIT <= b.y - a.y <= 2 * COORD_LIMIT,
                    0 <= k <= n,
                    n > 0;
            (a.x + ox, a.y + oy)
        };
        grid.deposit(px, py, c, each);
        k = k + 1;
    }
}

/// Emission point `t` of a source at `p` and what it emits: the centre,
/// then eight points on the first ring (every other compass heading), then
/// sixteen on each further ring, as evenly as the compass allows.
pub open spec fn emission(p: Point, t: int) -> (int, int, int) {
    if t == 0 {
        (p.x as int, p.y as int, EMIT_CENTER as int)
    } else if t <= 8 {
        let q = ahead(p, 2 * (t - 1), EMIT_RING_SPACING as int);
        (q.0, q.1, EMIT_CENTER * 143 / 144)
    } else {
        let ring = (t - 9) / 16 + 2;
        let h = (t - 9) % 16;
        let q = ahead(p, h, ring * EMIT_RING_SPACING);
        (q.0, q.1, EMIT_CENTER * (144 - ring * ring) / 144)
    }
}

/// The grid after the first `t` emission points of a source at `p`.
pub open spec fn emitted(g: GridView, p: Point, t: int) -> GridView
    decreases t,
{
    if t <= 0 { g } else {
        emitted(g, p, t - 1).deposit(PheromoneType::Food, emission(p, t - 1).0, emission(p, t - 1).1, emission(p, t - 1).2)
    }
}

/// Number of emission points of one source.
pub open spec fn emission_points() -> int {
    1 + 8 + 16 * (EMIT_RINGS - 1)
}

/// A food source's passive scent: a smooth radial falloff into the food
/// channel, strongest at the centre and `1 - (r / R)^2` of that at radius r.
pub fn emit_food_scent(grid: &mut PheromoneGrid, p: Point)
    requires
        old(grid).wf(),
        in_bounds(p),
    ensures
        final(grid).wf(),
        final(grid)@ == emitted(old(grid)@, p, emission_points()),
        final(grid).width == old(grid).width,
        final(grid).height == old(grid).height,
{
    let ghost g0 = grid@;
    let total: usize = 1 + 8 + 16 * (EMIT_RINGS - 1);
    let mut t: usize = 0;
    while t < total
        invariant
            grid.wf(),
            in_bounds(p),
            total == emission_points(),
            t <= total,
            grid@ == emitted(g0, p, t as int),
            grid.width == g0.width,
            grid.height == g0.height,
        decreases total - t,
    {
        if t == 0 {
            grid.deposit(p.x, p.y, PheromoneType::Food, EMIT_CENTER);
        } else if t <= 8 {
            let q = step_ahead(p, (2 * (t - 1)) as u8, EMIT_RING_SPACING);
            grid.deposit(q.x, q.y, PheromoneType::Food, EMIT_CENTER * 143 / 144);
        } else {
            assert(2 <= (t - 9) / 16 + 2 <= 11);
            let ring = ((t - 9) / 16 + 2) as i64;
            assert(ring * ring <= 121) by (nonlinear_arith)
                requires 1 <= ring <= 11;
            let h = ((t - 9) % 16) as u8;
            let q = step_ahead(p, h, ring * EMIT_RING_SPACING);
            let amount = EMIT_CENTER * (144 - (ring * ring) as u64) / 144;
            grid.deposit(q.x, q.y, PheromoneType::Food, amount);
        }
        t = t + 1;
    }
}

} // verus!

verus! {

proof fn lemma_step_offset(d: int, n: int, k: int)
    requires
        n > 0,
        -36 * n <= d <= 36 * n,
        0 <= k < n,
    ensures
        -36 <= d * (k + 1) / n - d * k / n <= 36,
{
    let u = d * k;
    let v = d * (k + 1);
    vstd::arithmetic::div_mod::lemma_fundamental_div_mod(u, n);
    vstd::arithmetic::div_mod::lemma_fundamental_div_mod(v, n);
    let fu = u / n;
    let fv = v / n;
    assert(v == u + d) by (nonlinear_arith)
        requires u == d * k, v == d * (k + 1);
    assert(n * (fv - fu) == d + u % n - v % n) by (nonlinear_arith)
        requires u == n * fu + u % n, v == n * fv + v % n, v == u + d;
    assert(-37 * n < n * (fv - fu) < 37 * n) by (nonlinear_arith)
        requires n * (fv - fu) == d + u % n - v % n, 0 <= u % n < n, 0 <= v % n < n, -36 * n <= d <= 36 * n;
    assert(-37 < fv - fu < 37) by (nonlinear_arith)
        requires -37 * n < n * (fv - fu) < 37 * n, n > 0;
}

/// Consecutive deposit points of a move are less than 0.8 world units
/// (51.2 sub-units) apart: each coordinate steps at most `DEPOSIT_STEP`.
pub proof fn lemma_deposit_spacing(a: Point, b: Point, k: int)
    requires
        in_bounds(a),
        in_bounds(b),
        intervals(a, b) > 0,
        0 <= k < intervals(a, b),
    ensures
        ({
            let p = path_point(a, b, intervals(a, b), k);
            let q = path_point(a, b, intervals(a, b), k + 1);
            25 * ((q.0 - p.0) * (q.0 - p.0) + (q.1 - p.1) * (q.1 - p.1)) < 256 * 256
        }),
{
    let n = intervals(a, b);
    let dx = b.x - a.x;
    let dy = b.y - a.y;
    let adx = if dx >= 0 { dx } else { -dx };
    let ady = if dy >= 0 { dy } else { -dy };
    let m = if adx >= ady { adx } else { ady };
    assert(n == (m + 35) / 36);
    assert(36 * n >= m) by (nonlinear_arith)
        requires n == (m + 35) / 36, m >= 0;
    lemma_step_offset(dx, n, k);
    lemma_step_offset(dy, n, k);
    let ex = dx * (k + 1) / n - dx * k / n;
    let ey = dy * (k + 1) / n - dy * k / n;
    assert(25 * (ex * ex + ey * ey) < 256 * 256) by (nonlinear_arith)
        requires -36 <= ex <= 36, -36 <= ey <= 36;
}

} // verus!
