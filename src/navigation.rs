use vstd::prelude::*;
use crate::components::{AntBehaviorState, AntState, MEMORY_LEN, PER_MILLE};
use crate::geometry::{bearing, dir_x, dir_y, dot_dir, heading_gap, gap, is_nearest_heading, nearest_heading, compass_x, compass_y, HEADINGS};
use crate::pheromones::LEVEL_CAP;

verus! {

/// x component of sample `i`'s contribution to the gradient: its squared
/// strength along heading `2 i`.
pub open spec fn pull_x(s: Seq<u64>, i: int) -> int {
    (s[i] as int) * (s[i] as int) * dir_x(2 * i)
}

pub open spec fn pull_y(s: Seq<u64>, i: int) -> int {
    (s[i] as int) * (s[i] as int) * dir_y(2 * i)
}

/// The gradient of eight samples taken at headings 0, 2, ..., 14: the sum
/// of their unit vectors weighted by squared strength.
pub open spec fn gradient_x(s: Seq<u64>) -> int {
    pull_x(s, 0) + pull_x(s, 1) + pull_x(s, 2) + pull_x(s, 3) + pull_x(s, 4) + pull_x(s, 5) + pull_x(s, 6)
        + pull_x(s, 7)
}

pub open spec fn gradient_y(s: Seq<u64>) -> int {
    pull_y(s, 0) + pull_y(s, 1) + pull_y(s, 2) + pull_y(s, 3) + pull_y(s, 4) + pull_y(s, 5) + pull_y(s, 6)
        + pull_y(s, 7)
}

pub open spec fn samples_capped(s: Seq<u64>) -> bool {
    forall|i: int| 0 <= i < s.len() ==> s[i] <= LEVEL_CAP
}

fn pull(s: &[u64; 8], i: usize) -> (r: (i128, i128))
    requires
        i < 8,
        samples_capped(s@),
    ensures
        r.0 == pull_x(s@, i as int),
        r.1 == pull_y(s@, i as int),
        -1024 * LEVEL_CAP * LEVEL_CAP <= r.0 <= 1024 * LEVEL_CAP * LEVEL_CAP,
        -1024 * LEVEL_CAP * LEVEL_CAP <= r.1 <= 1024 * LEVEL_CAP * LEVEL_CAP,
{
    let v = s[i] as i128;
    assert(s@[i as int] <= LEVEL_CAP);
    assert(0 <= v * v <= LEVEL_CAP * LEVEL_CAP) by (nonlinear_arith)
        requires 0 <= v <= LEVEL_CAP;
    let h = (2 * i) as u8;
    let cx = compass_x(h) as i128;
    let cy = compass_y(h) as i128;
    assert(-1024 * LEVEL_CAP * LEVEL_CAP <= (v * v) * cx <= 1024 * LEVEL_CAP * LEVEL_CAP) by (nonlinear_arith)
        requires 0 <= v * v <= LEVEL_CAP * LEVEL_CAP, -1024 <= cx <= 1024;
    assert(-1024 * LEVEL_CAP * LEVEL_CAP <= (v * v) * cy <= 1024 * LEVEL_CAP * LEVEL_CAP) by (nonlinear_arith)
        requires 0 <= v * v <= LEVEL_CAP * LEVEL_CAP, -1024 <= cy <= 1024;
    (v * v * cx, v * v * cy)
}

/// The compass heading of the gradient of eight directional samples (taken
/// at headings 0, 2, ..., 14), or `None` where the gradient is zero.
pub fn gradient_heading(samples: &[u64; 8]) -> (r: Option<u8>)
    requires
        samples_capped(samples@),
    ensures
        (gradient_x(samples@) == 0 && gradient_y(samples@) == 0) <==> r is None,
        r matches Some(h) ==> is_nearest_heading(gradient_x(samples@), gradient_y(samples@), h as int),
{
    let (x0, y0) = pull(samples, 0);
    let (x1, y1) = pull(samples, 1);
    let (x2, y2) = pull(samples, 2);
    let (x3, y3) = pull(samples, 3);
    let (x4, y4) = pull(samples, 4);
    let (x5, y5) = pull(samples, 5);
    let (x6, y6) = pull(samples, 6);
    let (x7, y7) = pull(samples, 7);
    let vx = x0 + x1 + x2 + x3 + x4 + x5 + x6 + x7;
    let vy = y0 + y1 + y2 + y3 + y4 + y5 + y6 + y7;
    if vx == 0 && vy == 0 {
        None
    } else {
        Some(nearest_heading(vx, vy))
    }
}

/// The dot product of the unit vectors of headings `a` and `b`.
pub open spec fn heading_dot(a: int, b: int) -> int {
    dir_x(a) * dir_x(b) + dir_y(a) * dir_y(b)
}

proof fn lemma_heading_dot_peak(a: int, b: int)
    requires
        0 <= a < 16,
        0 <= b < 16,
        a != b,
    ensures
        heading_dot(a, b) < heading_dot(a, a),
{
    assert(a == 0 || a == 1 || a == 2 || a == 3 || a == 4 || a == 5 || a == 6 || a == 7 || a == 8 || a == 9
        || a == 10 || a == 11 || a == 12 || a == 13 || a == 14 || a == 15);
    assert(b == 0 || b == 1 || b == 2 || b == 3 || b == 4 || b == 5 || b == 6 || b == 7 || b == 8 || b == 9
        || b == 10 || b == 11 || b == 12 || b == 13 || b == 14 || b == 15);
}

/// Eight samples of which one alone is non-zero give a gradient that points
/// exactly along that sample's heading, so well within its 45-degree sector.
pub proof fn lemma_gradient_single_peak(s: Seq<u64>, k: int, h: int)
    requires
        s.len() == 8,
        samples_capped(s),
        0 <= k < 8,
        s[k] > 0,
        forall|j: int| 0 <= j < 8 && j != k ==> s[j] == 0,
        is_nearest_heading(gradient_x(s), gradient_y(s), h),
    ensures
        h == 2 * k,
{
    let m = (s[k] as int) * (s[k] as int);
    assert(m > 0) by (nonlinear_arith)
        requires m == (s[k] as int) * (s[k] as int), s[k] > 0;
    assert forall|j: int| 0 <= j < 8 && j != k implies pull_x(s, j) == 0 && pull_y(s, j) == 0 by {
        assert(s[j] == 0);
    }
    assert(gradient_x(s) == m * dir_x(2 * k));
    assert(gradient_y(s) == m * dir_y(2 * k));
    if h != 2 * k {
        lemma_heading_dot_peak(2 * k, h);
        let dh = heading_dot(2 * k, h);
        let dk = heading_dot(2 * k, 2 * k);
        let gx = gradient_x(s);
        let gy = gradient_y(s);
        let ax = dir_x(2 * k);
        let ay = dir_y(2 * k);
        let bx = dir_x(h);
        let by = dir_y(h);
        assert(gx * bx + gy * by == m * dh) by (nonlinear_arith)
            requires gx == m * ax, gy == m * ay, dh == ax * bx + ay * by;
        assert(gx * ax + gy * ay == m * dk) by (nonlinear_arith)
            requires gx == m * ax, gy == m * ay, dk == ax * ax + ay * ay;
        assert(dot_dir(gx, gy, h) == gx * bx + gy * by);
        assert(dot_dir(gx, gy, 2 * k) == gx * ax + gy * ay);
        assert(m * dh < m * dk) by (nonlinear_arith)
            requires m > 0, dh < dk;
    }
}

/// Score added per compass step of closeness to the current heading.
pub const MOMENTUM_STEP: u64 = 150_000;

/// Score added to every candidate while already following a trail.
pub const PERSISTENCE_BONUS: u64 = 250_000;

/// Difference from the agent's own reading that counts as a gradient.
pub const GRADIENT_MARGIN: u64 = 80_000;

/// Gradient term for a rising, a level and a falling candidate.
pub const GRADIENT_RISING: u64 = 800_000;
pub const GRADIENT_LEVEL: u64 = 350_000;

/// Score per per-mille of trail quality.
pub const QUALITY_WEIGHT: u64 = 500;

/// Below this trail quality (per-mille) a followed trail is abandoned.
pub const QUALITY_FLOOR: u32 = 200;

/// How long a newly followed trail is held before it must be re-earned (ms).
pub const MOMENTUM_MS: u32 = 1500;

/// Stronger by this factor, a competing trail takes over from tracking.
pub const TAKEOVER_FACTOR: u64 = 2;

/// Moving less than this far (sub-units) counts as not moving.
pub const STUCK_DISTANCE: i64 = 5 * crate::geometry::UNIT;

/// Not moving for longer than this (ms) triggers recovery.
pub const STUCK_MS: u32 = 2000;

// ---- trail memory -------------------------------------------------------

/// Records heading `h` in the trail-memory ring buffer and advances its index.
pub fn remember_heading(ant: &mut AntState, h: u8)
    requires
        old(ant).wf(),
        h < HEADINGS,
    ensures
        final(ant).wf(),
        final(ant).trail_memory@ == old(ant).trail_memory@.update(old(ant).memory_index as int, h),
        final(ant).memory_index == (old(ant).memory_index + 1) % 5,
        *final(ant) == (AntState {
            trail_memory: final(ant).trail_memory,
            memory_index: final(ant).memory_index,
            ..*old(ant)
        }),
{
    let i = ant.memory_index;
    ant.trail_memory[i] = h;
    ant.memory_index = (i + 1) % MEMORY_LEN;
}

/// x component of the sum of the unit vectors of the remembered headings.
pub open spec fn memory_x(m: Seq<u8>) -> int {
    dir_x(m[0] as int) + dir_x(m[1] as int) + dir_x(m[2] as int) + dir_x(m[3] as int) + dir_x(m[4] as int)
}

pub open spec fn memory_y(m: Seq<u8>) -> int {
    dir_y(m[0] as int) + dir_y(m[1] as int) + dir_y(m[2] as int) + dir_y(m[3] as int) + dir_y(m[4] as int)
}

/// Heading `h` blended 80/20 with the mean of the remembered headings:
/// the nearest heading to `20 u(h) + sum of u(m)`, which is 25 times
/// `0.8 u(h) + 0.2 mean(u(m))`.
pub fn blend_with_memory(h: u8, memory: &[u8; 5]) -> (r: u8)
    requires
        h < HEADINGS,
        forall|i: int| 0 <= i < 5 ==> memory@[i] < HEADINGS,
    ensures
        is_nearest_heading(
            20 * dir_x(h as int) + memory_x(memory@),
            20 * dir_y(h as int) + memory_y(memory@),
            r as int,
        ),
{
    let mut vx: i64 = 20 * compass_x(h);
    let mut vy: i64 = 20 * compass_y(h);
    let mut i: usize = 0;
    while i < 5
        invariant
            i <= 5,
            forall|j: int| 0 <= j < 5 ==> memory@[j] < HEADINGS,
            vx == 20 * dir_x(h as int) + partial_x(memory@, i as int),
            vy == 20 * dir_y(h as int) + partial_y(memory@, i as int),
            -20480 - 1024 * i <= vx <= 20480 + 1024 * i,
            -20480 - 1024 * i <= vy <= 20480 + 1024 * i,
        decreases 5 - i,
    {
        vx = vx + compass_x(memory[i]);
        vy = vy + compass_y(memory[i]);
        i = i + 1;
    }
    assert(partial_x(memory@, 5) == memory_x(memory@)) by {
        assert(partial_x(memory@, 0) == 0);
        assert(partial_x(memory@, 1) == dir_x(memory@[0] as int));
        assert(partial_x(memory@, 2) == partial_x(memory@, 1) + dir_x(memory@[1] as int));
        assert(partial_x(memory@, 3) == partial_x(memory@, 2) + dir_x(memory@[2] as int));
        assert(partial_x(memory@, 4) == partial_x(memory@, 3) + dir_x(memory@[3] as int));
    }
    assert(partial_y(memory@, 5) == memory_y(memory@)) by {
        assert(partial_y(memory@, 0) == 0);
        assert(partial_y(memory@, 1) == dir_y(memory@[0] as int));
        assert(partial_y(memory@, 2) == partial_y(memory@, 1) + dir_y(memory@[1] as int));
        assert(partial_y(memory@, 3) == partial_y(memory@, 2) + dir_y(memory@[2] as int));
        assert(partial_y(memory@, 4) == partial_y(memory@, 3) + dir_y(memory@[3] as int));
    }
    nearest_heading(vx as i128, vy as i128)
}

spec fn partial_x(m: Seq<u8>, n: int) -> int
    decreases n,
{
    if n <= 0 { 0 } else { partial_x(m, n - 1) + dir_x(m[n - 1] as int) }
}

spec fn partial_y(m: Seq<u8>, n: int) -> int
    decreases n,
{
    if n <= 0 { 0 } else { partial_y(m, n - 1) + dir_y(m[n - 1] as int) }
}

// ---- trail quality -----------------------------------------------------

pub open spec fn max_of(s: Seq<u64>) -> int
    decreases s.len(),
{
    if s.len() == 0 { 0 } else if max_of(s.drop_last()) >= s.last() { max_of(s.drop_last()) } else { s.last() as int }
}

pub open spec fn min_of(s: Seq<u64>) -> int
    decreases s.len(),
{
    if s.len() == 0 { 0 } else if s.len() == 1 { s[0] as int } else if min_of(s.drop_last()) <= s.last() {
        min_of(s.drop_last())
    } else {
        s.last() as int
    }
}

pub open spec fn sum_of(s: Seq<u64>) -> int
    decreases s.len(),
{
    if s.len() == 0 { 0 } else { sum_of(s.drop_last()) + s.last() }
}

pub open spec fn clamp_mille(v: int) -> int {
    if v > PER_MILLE { PER_MILLE as int } else if v < 0 { 0 } else { v }
}

/// Consistency: one less the spread relative to the peak, per-mille; 0 with no signal.
pub open spec fn consistency(s: Seq<u64>) -> int {
    if max_of(s) == 0 { 0 } else { clamp_mille(PER_MILLE - (max_of(s) - min_of(s)) * PER_MILLE / max_of(s)) }
}

/// Strength: the peak relative to the saturation limit, per-mille.
pub open spec fn strength_factor(s: Seq<u64>, saturation: int) -> int {
    clamp_mille(max_of(s) * PER_MILLE / saturation)
}

/// Clarity: the peak over the mean, per-mille and clamped; 0 with no signal.
pub open spec fn clarity(s: Seq<u64>) -> int {
    if sum_of(s) == 0 { 0 } else { clamp_mille(max_of(s) * PER_MILLE * s.len() / sum_of(s)) }
}

/// The composite trail score of eight samples, per-mille.
pub open spec fn trail_score(s: Seq<u64>, saturation: int) -> int {
    consistency(s) * strength_factor(s, saturation) / (PER_MILLE as int) * clarity(s) / (PER_MILLE as int)
}

/// Exponential moving average: 70% of the old quality, 30% of the new score.
pub open spec fn smoothed_quality(old_q: int, score: int) -> int {
    (7 * old_q + 3 * score) / 10
}

proof fn lemma_stats_bounds(s: Seq<u64>)
    requires
        samples_capped(s),
    ensures
        0 <= min_of(s) <= max_of(s) <= LEVEL_CAP,
        0 <= sum_of(s) <= s.len() * LEVEL_CAP,
        max_of(s) <= sum_of(s),
        s.len() > 0 ==> min_of(s) <= s.last(),
    decreases s.len(),
{
    if s.len() > 0 {
        lemma_stats_bounds(s.drop_last());
    }
}

/// The composite trail score of eight samples, each factor clamped to
/// [0, 1] and the product per-mille.
pub fn trail_quality_score(samples: &[u64; 8], saturation: u64) -> (r: u32)
    requires
        samples_capped(samples@),
        0 < saturation,
    ensures
        r == trail_score(samples@, saturation as int),
        r <= PER_MILLE,
{
    let mut mx: u64 = 0;
    let mut mn: u64 = samples[0];
    let mut total: u64 = 0;
    let mut i: usize = 0;
    proof {
        lemma_stats_bounds(samples@);
    }
    while i < 8
        invariant
            samples_capped(samples@),
            i <= 8,
            mx == max_of(samples@.take(i as int)),
            i > 0 ==> mn == min_of(samples@.take(i as int)),
            i == 0 ==> mn == samples@[0],
            total == sum_of(samples@.take(i as int)),
            total <= i * LEVEL_CAP,
        decreases 8 - i,
    {
        proof {
            assert(samples@.take(i + 1).drop_last() =~= samples@.take(i as int));
            lemma_stats_bounds(samples@.take(i as int));
        }
        let v = samples[i];
        assert(v <= LEVEL_CAP);
        if v > mx {
            mx = v;
        }
        if i > 0 && v < mn {
            mn = v;
        }
        total = total + v;
        i = i + 1;
    }
    assert(samples@.take(8) =~= samples@);
    proof {
        lemma_stats_bounds(samples@);
    }
    let cons: u64 = if mx == 0 {
        0
    } else {
        let spread = (mx - mn) * 1000 / mx;
        assert(spread <= 1000) by (nonlinear_arith)
            requires 0 <= mx - mn <= mx, mx > 0, spread == (mx - mn) * 1000 / (mx as int);
        1000 - spread
    };
    let strength: u64 = {
        let v = mx * 1000 / saturation;
        if v > 1000 { 1000 } else { v }
    };
    let clar: u64 = if total == 0 {
        0
    } else {
        let v = mx * 1000 * 8 / total;
        if v > 1000 { 1000 } else { v }
    };
    assert(cons * strength <= 1000 * 1000) by (nonlinear_arith)
        requires cons <= 1000, strength <= 1000;
    let a = cons * strength / 1000;
    assert(a <= 1000) by (nonlinear_arith)
        requires a == cons * strength / 1000, cons * strength <= 1000 * 1000;
    assert(a * clar <= 1000 * 1000) by (nonlinear_arith)
        requires a <= 1000, clar <= 1000;
    let r = a * clar / 1000;
    assert(r <= 1000) by (nonlinear_arith)
        requires r == a * clar / 1000, a * clar <= 1000 * 1000;
    r as u32
}

/// Folds a new trail score into the quality: 70% old, 30% new.
pub fn smooth_quality(old_q: u32, score: u32) -> (r: u32)
    requires
        old_q <= PER_MILLE,
        score <= PER_MILLE,
    ensures
        r == smoothed_quality(old_q as int, score as int),
        r <= PER_MILLE,
{
    (7 * old_q + 3 * score) / 10
}

// ---- candidate scoring and trail choice --------------------------------

/// Bonus for closeness to the current heading: one step's worth for each
/// compass step short of a reversal.
pub open spec fn momentum_bonus(dir: int, current: int) -> int {
    (8 - heading_gap(dir, current)) * MOMENTUM_STEP
}

/// Rewards a candidate stronger than the agent's own reading, penalises
/// a weaker one.
pub open spec fn gradient_bonus(strength: int, center: int) -> int {
    if strength > center + GRADIENT_MARGIN {
        GRADIENT_RISING as int
    } else if strength + GRADIENT_MARGIN < center {
        0
    } else {
        GRADIENT_LEVEL as int
    }
}

/// Effective strength of the candidate at heading `dir`.
pub open spec fn candidate_score(
    strength: int,
    bias: int,
    dir: int,
    current: int,
    following: bool,
    center: int,
    quality: int,
) -> int {
    strength + bias + momentum_bonus(dir, current) + (if following { PERSISTENCE_BONUS as int } else { 0 })
        + gradient_bonus(strength, center) + quality * QUALITY_WEIGHT
}

/// Bound on a per-direction bias handed to the trail choice.
pub const BIAS_LIMIT: u64 = 1_000_000_000;

pub open spec fn biases_ok(b: Seq<u64>) -> bool {
    forall|i: int| 0 <= i < b.len() ==> b[i] <= BIAS_LIMIT
}

/// Score of the `i`th of eight directional samples (heading `2 i`).
pub open spec fn score_at(
    s: Seq<u64>,
    b: Seq<u64>,
    i: int,
    current: int,
    following: bool,
    center: int,
    quality: int,
) -> int {
    candidate_score(s[i] as int, b[i] as int, 2 * i, current, following, center, quality)
}

/// `r` is the first eligible sample (at least `floor`) of highest score,
/// or none where no sample is eligible.
pub open spec fn is_best_trail(
    s: Seq<u64>,
    b: Seq<u64>,
    current: int,
    following: bool,
    center: int,
    quality: int,
    floor: int,
    r: Option<usize>,
) -> bool {
    match r {
        Some(i) => {
            &&& i < 8
            &&& s[i as int] >= floor
            &&& forall|j: int|
                0 <= j < 8 && s[j] >= floor ==> score_at(s, b, j, current, following, center, quality)
                    <= score_at(s, b, i as int, current, following, center, quality)
            &&& forall|j: int|
                0 <= j < i && s[j] >= floor ==> score_at(s, b, j, current, following, center, quality)
                    < score_at(s, b, i as int, current, following, center, quality)
        },
        None => forall|j: int| 0 <= j < 8 ==> s[j] < floor,
    }
}

/// Effective strength of sample `i`, by `candidate_score`.
pub fn score_candidate(
    samples: &[u64; 8],
    bias: &[u64; 8],
    i: usize,
    current: u8,
    following: bool,
    center: u64,
    quality: u32,
) -> (r: u64)
    requires
        i < 8,
        samples_capped(samples@),
        biases_ok(bias@),
        current < HEADINGS,
        quality <= PER_MILLE,
    ensures
        r == score_at(samples@, bias@, i as int, current as int, following, center as int, quality as int),
{
    let s = samples[i];
    let b = bias[i];
    assert(s <= LEVEL_CAP && b <= BIAS_LIMIT);
    let g = gap((2 * i) as u8, current);
    let momentum = (8 - g as u64) * MOMENTUM_STEP;
    let persistence = if following { PERSISTENCE_BONUS } else { 0 };
    let gradient = if s > center && s - center > GRADIENT_MARGIN {
        GRADIENT_RISING
    } else if s < center && center - s > GRADIENT_MARGIN {
        0
    } else {
        GRADIENT_LEVEL
    };
    s + b + momentum + persistence + gradient + quality as u64 * QUALITY_WEIGHT
}

/// The first of the eight samples, among those at least `floor`, whose
/// effective strength is highest; `None` where none is eligible.
pub fn best_trail(
    samples: &[u64; 8],
    bias: &[u64; 8],
    current: u8,
    following: bool,
    center: u64,
    quality: u32,
    floor: u64,
) -> (r: Option<usize>)
    requires
        samples_capped(samples@),
        biases_ok(bias@),
        current < HEADINGS,
        quality <= PER_MILLE,
    ensures
        is_best_trail(
            samples@,
            bias@,
            current as int,
            following,
            center as int,
            quality as int,
            floor as int,
            r,
        ),
{
    let mut best: Option<usize> = None;
    let mut best_score: u64 = 0;
    let mut i: usize = 0;
    while i < 8
        invariant
            samples_capped(samples@),
            biases_ok(bias@),
            current < HEADINGS,
            quality <= PER_MILLE,
            i <= 8,
            match best {
                Some(k) => {
                    &&& k < i
                    &&& samples@[k as int] >= floor
                    &&& best_score == score_at(samples@, bias@, k as int, current as int, following, center as int, quality as int)
                    &&& forall|j: int|
                        0 <= j < i && samples@[j] >= floor ==> score_at(samples@, bias@, j, current as int, following, center as int, quality as int)
                            <= best_score
                    &&& forall|j: int|
                        0 <= j < k && samples@[j] >= floor ==> score_at(samples@, bias@, j, current as int, following, center as int, quality as int)
                            < best_score
                },
                None => forall|j: int| 0 <= j < i ==> samples@[j] < floor,
            },
        decreases 8 - i,
    {
        if samples[i] >= floor {
            let sc = score_candidate(samples, bias, i, current, following, center, quality);
            match best {
                None => {
                    best = Some(i);
                    best_score = sc;
                },
                Some(_) => {
                    if sc > best_score {
                        best = Some(i);
                        best_score = sc;
                    }
                },
            }
        }
        i = i + 1;
    }
    best
}

// ---- hysteresis and the navigation state machine -----------------------

/// The floor a candidate must reach: the base threshold to begin following,
/// and, on a trail already held, the lower of that and 40% of its strength.
pub open spec fn follow_floor(mode: AntBehaviorState, threshold: int, trail_strength: int) -> int {
    if (mode == AntBehaviorState::Following || mode == AntBehaviorState::Tracking) && trail_strength * 4 / 10
        < threshold {
        trail_strength * 4 / 10
    } else {
        threshold
    }
}

/// A followed trail is kept while it holds 40% of its last strength, its
/// quality stays above the floor, and the momentum countdown runs.
pub open spec fn keeps_trail(strength: int, trail_strength: int, quality: int, momentum: int) -> bool {
    strength * 10 >= trail_strength * 4 && quality >= QUALITY_FLOOR && momentum > 0
}

/// The next navigation state, from the current one and the chosen trail.
pub open spec fn next_mode(
    mode: AntBehaviorState,
    best: Option<usize>,
    s: Seq<u64>,
    trail_strength: int,
    quality: int,
    momentum: int,
) -> AntBehaviorState {
    match best {
        None => AntBehaviorState::Exploring,
        Some(i) => match mode {
            AntBehaviorState::Following => if keeps_trail(s[i as int] as int, trail_strength, quality, momentum) {
                AntBehaviorState::Following
            } else {
                AntBehaviorState::Tracking
            },
            AntBehaviorState::Tracking => if s[i as int] >= TAKEOVER_FACTOR * trail_strength {
                AntBehaviorState::Following
            } else {
                AntBehaviorState::Tracking
            },
            _ => AntBehaviorState::Following,
        },
    }
}

/// Time without a goal (ms) after which exploration turns more widely.
pub const WIDE_SEARCH_MS: u32 = 30_000;

/// How many compass steps an exploring agent may turn either way: one,
/// or two once it has gone `WIDE_SEARCH_MS` without reaching a goal.
pub open spec fn wander_spread(search_ms: int) -> int {
    if search_ms >= WIDE_SEARCH_MS { 2 } else { 1 }
}

/// An exploring agent's new heading: `roll` picks a turn of between
/// `-spread` and `spread` compass steps.
pub open spec fn wandered(h: int, roll: int, search_ms: int) -> int {
    let k = wander_spread(search_ms);
    (h + roll % (2 * k + 1) + 16 - k) % 16
}

/// The heading the gradient of the samples points to, or the chosen
/// sample's own heading where the gradient is zero.
pub open spec fn follow_target(s: Seq<u64>, i: int) -> int {
    if gradient_x(s) == 0 && gradient_y(s) == 0 { 2 * i } else { bearing(gradient_x(s), gradient_y(s)) }
}

/// What one trail decision does: `a0` becomes `a1`, choosing sample `r`.
pub open spec fn trail_decided(
    a0: AntState,
    a1: AntState,
    s: Seq<u64>,
    b: Seq<u64>,
    center: int,
    threshold: int,
    saturation: int,
    dt: int,
    roll: int,
    r: Option<usize>,
) -> bool {
    &&& a1.trail_strength <= LEVEL_CAP
    &&& a1.trail_quality == smoothed_quality(
            a0.trail_quality as int,
            trail_score(s, saturation)
    )
    &&& a1.hysteresis_threshold == follow_floor(
            a0.behavior_state,
            threshold,
            a0.trail_strength as int
    )
    &&& is_best_trail(
            s,
            b,
            a0.current_direction as int,
            a0.behavior_state == AntBehaviorState::Following,
            center,
            a1.trail_quality as int,
            a1.hysteresis_threshold as int,
            r
    )
    &&& a1.behavior_state == next_mode(
            a0.behavior_state,
            r,
            s,
            a0.trail_strength as int,
            a1.trail_quality as int,
            a0.momentum_timer as int
    )
    &&& a1.behavior_state == AntBehaviorState::Following ==> (r matches Some(i) && {
            &&& a1.trail_strength == s[i as int]
            &&& is_nearest_heading(
                20 * dir_x(follow_target(s, i as int)) + memory_x(a0.trail_memory@),
                20 * dir_y(follow_target(s, i as int)) + memory_y(a0.trail_memory@),
                a1.current_direction as int,
            )
    })
    &&& a1.behavior_state == AntBehaviorState::Tracking ==> a1.current_direction
            == a0.current_direction
    &&& a1.behavior_state == AntBehaviorState::Exploring ==> a1.current_direction == wandered(
            a0.current_direction as int,
            roll,
            a0.time_since_progress as int
    ) && a1.trail_strength == 0
    &&& a1.carrying_food == a0.carrying_food
    &&& a1.successful_deliveries == a0.successful_deliveries
    &&& a1.delivery_attempts == a0.delivery_attempts
    &&& a1.food_collection_timer == a0.food_collection_timer
    &&& a1.startup_timer == a0.startup_timer
    &&& a1.sensing_timer == a0.sensing_timer
    &&& a1.time_since_progress == a0.time_since_progress
    &&& a1.trail_following_time == a0.trail_following_time
    &&& a1.direction_changes == a0.direction_changes
    &&& a1.last_position == a0.last_position
    &&& a1 == (AntState {
            trail_quality: a1.trail_quality,
            hysteresis_threshold: a1.hysteresis_threshold,
            behavior_state: a1.behavior_state,
            trail_strength: a1.trail_strength,
            momentum_timer: a1.momentum_timer,
            current_direction: a1.current_direction,
            trail_memory: a1.trail_memory,
            memory_index: a1.memory_index,
            ..a0
    })
}

/// One sensing decision of an agent that is not carrying food.
///
/// Folds the samples' trail score into the quality, picks the best trail
/// at or above the hysteresis floor, and moves to `next_mode`: a followed
/// trail turns the agent toward it (blended with trail memory), tracking
/// coasts on the current heading, and exploring turns at random by up to
/// `wander_spread` of its time without progress.
#[verifier::rlimit(60)]
pub fn trail_decision(
    ant: &mut AntState,
    samples: &[u64; 8],
    bias: &[u64; 8],
    center: u64,
    threshold: u64,
    saturation: u64,
    dt_ms: u32,
    roll: u32,
) -> (r: Option<usize>)
    requires
        old(ant).wf(),
        samples_capped(samples@),
        biases_ok(bias@),
        0 < saturation,
        old(ant).trail_strength <= LEVEL_CAP,
    ensures
        final(ant).wf(),
        trail_decided(
            *old(ant),
            *final(ant),
            samples@,
            bias@,
            center as int,
            threshold as int,
            saturation as int,
            dt_ms as int,
            roll as int,
            r,
        ),
{
    let score = trail_quality_score(samples, saturation);
    let q = smooth_quality(ant.trail_quality, score);
    ant.trail_quality = q;
    let mode = ant.behavior_state;
    let held = mode == AntBehaviorState::Following || mode == AntBehaviorState::Tracking;
    let floor = if held && ant.trail_strength * 4 / 10 < threshold {
        ant.trail_strength * 4 / 10
    } else {
        threshold
    };
    ant.hysteresis_threshold = floor;
    let following = mode == AntBehaviorState::Following;
    let best = best_trail(samples, bias, ant.current_direction, following, center, q, floor);
    let countdown = if ant.momentum_timer > dt_ms { ant.momentum_timer - dt_ms } else { 0 };
    match best {
        None => {
            ant.behavior_state = AntBehaviorState::Exploring;
            ant.trail_strength = 0;
            ant.momentum_timer = 0;
            let k: u32 = if ant.time_since_progress >= WIDE_SEARCH_MS { 2 } else { 1 };
            ant.current_direction = ((ant.current_direction as u32 + roll % (2 * k + 1) + 16 - k) % 16) as u8;
        },
        Some(i) => {
            let strength = samples[i];
            assert(strength <= LEVEL_CAP);
            let next = match mode {
                AntBehaviorState::Following => {
                    if strength * 10 >= ant.trail_strength * 4 && q >= QUALITY_FLOOR && ant.momentum_timer > 0 {
                        AntBehaviorState::Following
                    } else {
                        AntBehaviorState::Tracking
                    }
                },
                AntBehaviorState::Tracking => {
                    if strength >= TAKEOVER_FACTOR * ant.trail_strength {
                        AntBehaviorState::Following
                    } else {
                        AntBehaviorState::Tracking
                    }
                },
                _ => AntBehaviorState::Following,
            };
            if next == AntBehaviorState::Following {
                let target = match gradient_heading(samples) {
                    Some(g) => g,
                    None => (2 * i) as u8,
                };
                let h = blend_with_memory(target, &ant.trail_memory);
                ant.momentum_timer = if mode == AntBehaviorState::Following { countdown } else { MOMENTUM_MS };
                ant.trail_strength = strength;
                ant.current_direction = h;
                remember_heading(ant, h);
            } else {
                ant.momentum_timer = countdown;
            }
            ant.behavior_state = next;
        },
    }
    best
}

/// `a` and `b` are less than `STUCK_DISTANCE` apart.
pub open spec fn barely_moved(a: crate::geometry::Point, b: crate::geometry::Point) -> bool {
    crate::geometry::dist_sq(a, b) < STUCK_DISTANCE * STUCK_DISTANCE
}

/// Stuck detection: while the agent moves less than `STUCK_DISTANCE` per
/// tick the stuck timer runs; past `STUCK_MS` the agent takes heading
/// `roll % 16`, explores again, and the timer restarts. Moving clears the
/// count of recent reversals. Returns whether it recovered.
pub fn stuck_check(ant: &mut AntState, position: crate::geometry::Point, dt_ms: u32, roll: u32) -> (r: bool)
    requires
        old(ant).wf(),
        crate::geometry::in_bounds(position),
    ensures
        final(ant).wf(),
        final(ant).last_position == position,
        !barely_moved(position, old(ant).last_position) ==> !r && final(ant).stuck_timer == 0
            && final(ant).current_direction == old(ant).current_direction && final(ant).behavior_state
            == old(ant).behavior_state,
        barely_moved(position, old(ant).last_position) ==> {
            let t = old(ant).stuck_timer as int + dt_ms as int;
            &&& r == (t > STUCK_MS)
            &&& r ==> final(ant).stuck_timer == 0 && final(ant).current_direction == roll % 16
                && final(ant).behavior_state == AntBehaviorState::Exploring
            &&& !r ==> final(ant).stuck_timer == t && final(ant).current_direction
                == old(ant).current_direction && final(ant).behavior_state == old(ant).behavior_state
        },
        final(ant).carrying_food == old(ant).carrying_food,
        final(ant).trail_strength == old(ant).trail_strength,
        final(ant).successful_deliveries == old(ant).successful_deliveries,
        final(ant).delivery_attempts == old(ant).delivery_attempts,
        final(ant).direction_changes == if barely_moved(position, old(ant).last_position) {
            old(ant).direction_changes
        } else {
            0
        },
        *final(ant) == (AntState {
            stuck_timer: final(ant).stuck_timer,
            current_direction: final(ant).current_direction,
            behavior_state: final(ant).behavior_state,
            direction_changes: final(ant).direction_changes,
            last_position: position,
            ..*old(ant)
        }),
{
    let moved = crate::geometry::distance_sq(position, ant.last_position);
    let mut recovered = false;
    if moved < STUCK_DISTANCE * STUCK_DISTANCE {
        let t: u64 = ant.stuck_timer as u64 + dt_ms as u64;
        if t > STUCK_MS as u64 {
            ant.current_direction = (roll % 16) as u8;
            ant.behavior_state = AntBehaviorState::Exploring;
            ant.stuck_timer = 0;
            recovered = true;
        } else {
            ant.stuck_timer = t as u32;
        }
    } else {
        ant.stuck_timer = 0;
        ant.direction_changes = 0;
    }
    ant.last_position = position;
    recovered
}

} // verus!
