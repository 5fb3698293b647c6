use vstd::prelude::*;
use crate::components::{AntBehaviorState, AntState, Rock};
use crate::geometry::{ahead, bearing, dir_x, dir_y, dist_sq, distance_sq, in_bounds, is_nearest_heading, nearest_heading, step_ahead, Point, HEADINGS, UNIT};
use crate::movement::{rock_ok, rocks_ok};
use crate::navigation::heading_dot;
use crate::pheromones::{PheromoneGrid, PheromoneType, LEVEL_CAP};

verus! {

/// How far ahead a carrier tests each candidate heading, in world units.
pub const LOOKAHEAD: i64 = 40;

/// The shorter look-ahead within `LOOK_NEAR` of the nest (world units).
pub const LOOKAHEAD_NEAR: i64 = 20;
pub const LOOK_NEAR: i64 = 100 * UNIT;

/// How far ahead a carrier at `pos` looks: `LOOKAHEAD_NEAR` within
/// `LOOK_NEAR` of the nest, `LOOKAHEAD` elsewhere.
pub open spec fn look_distance(pos: Point, nest: Point) -> int {
    if dist_sq(pos, nest) < LOOK_NEAR * LOOK_NEAR { LOOKAHEAD_NEAR as int } else { LOOKAHEAD as int }
}

fn look_distance_of(pos: Point, nest: Point) -> (r: i64)
    requires
        in_bounds(pos),
        in_bounds(nest),
    ensures
        r == look_distance(pos, nest),
{
    if distance_sq(pos, nest) < LOOK_NEAR * LOOK_NEAR { LOOKAHEAD_NEAR } else { LOOKAHEAD }
}

/// Clearance a look-ahead point must keep beyond a rock's radius (sub-units).
pub const SAFETY_MARGIN: i64 = 35 * UNIT;

/// Look-ahead points must stay within this distance of the axes (sub-units).
pub const PATH_BOUND: i64 = 475 * UNIT;

/// Weights of nest alignment and of momentum in a path's score.
pub const ALIGN_WEIGHT: i128 = 100;
pub const CONTINUITY_WEIGHT: i128 = 25;

/// Score lost per field unit of alarm at the look-ahead point.
pub const ALARM_WEIGHT: i128 = 40;

/// The five candidate headings around `ideal`: two compass steps either side.
pub open spec fn candidate_heading(ideal: int, k: int) -> int {
    (ideal + 14 + k) % 16
}

/// The look-ahead point of heading `h` from `pos`.
pub open spec fn look_point(pos: Point, nest: Point, h: int) -> Point {
    Point {
        x: ahead(pos, h, look_distance(pos, nest)).0 as i64,
        y: ahead(pos, h, look_distance(pos, nest)).1 as i64,
    }
}

/// A look-ahead point is inside the world margin and clear of every rock
/// by its radius plus `SAFETY_MARGIN`.
pub open spec fn path_safe(q: Point, rocks: Seq<Rock>) -> bool {
    &&& -PATH_BOUND <= q.x <= PATH_BOUND
    &&& -PATH_BOUND <= q.y <= PATH_BOUND
    &&& forall|j: int|
        0 <= j < rocks.len() ==> dist_sq(q, #[trigger] rocks[j].position) >= (rocks[j].radius + SAFETY_MARGIN) * (
        rocks[j].radius + SAFETY_MARGIN)
}

/// Score of heading `h` for a carrier at `pos`: alignment with the nest
/// heading, continuity with the current heading, progress toward the nest
/// (the drop in squared distance), less a penalty for alarm at the
/// look-ahead point.
pub open spec fn path_score(g: crate::pheromones::GridView, pos: Point, nest: Point, ideal: int, current: int, h: int) -> int {
    let q = look_point(pos, nest, h);
    ALIGN_WEIGHT * heading_dot(ideal, h) + CONTINUITY_WEIGHT * heading_dot(current, h) + (dist_sq(pos, nest)
        - dist_sq(q, nest)) - ALARM_WEIGHT * g.sample_at(PheromoneType::Alarm, q.x as int, q.y as int)
}

/// `r` is the first safe candidate of highest score, or none where no
/// candidate is safe.
pub open spec fn is_best_path(
    g: crate::pheromones::GridView,
    pos: Point,
    nest: Point,
    ideal: int,
    current: int,
    rocks: Seq<Rock>,
    r: Option<u8>,
) -> bool {
    match r {
        Some(h) => exists|k: int|
            0 <= k < 5 && h == candidate_heading(ideal, k) && path_safe(look_point(pos, nest, h as int), rocks) && (
            forall|j: int|
                0 <= j < 5 && path_safe(look_point(pos, nest, candidate_heading(ideal, j)), rocks) ==> path_score(
                    g,
                    pos,
                    nest,
                    ideal,
                    current,
                    candidate_heading(ideal, j),
                ) <= path_score(g, pos, nest, ideal, current, h as int)) && (forall|j: int|
                0 <= j < k && path_safe(look_point(pos, nest, candidate_heading(ideal, j)), rocks) ==> path_score(
                    g,
                    pos,
                    nest,
                    ideal,
                    current,
                    candidate_heading(ideal, j),
                ) < path_score(g, pos, nest, ideal, current, h as int)),
        None => forall|j: int| 0 <= j < 5 ==> !path_safe(look_point(pos, nest, candidate_heading(ideal, j)), rocks),
    }
}

/// Whether look-ahead point `q` is safe.
pub fn is_path_safe(q: Point, rocks: &Vec<Rock>) -> (r: bool)
    requires
        -2_000_000_000 <= q.x <= 2_000_000_000,
        -2_000_000_000 <= q.y <= 2_000_000_000,
        rocks_ok(rocks@),
    ensures
        r == path_safe(q, rocks@),
{
    if q.x < -PATH_BOUND || q.x > PATH_BOUND || q.y < -PATH_BOUND || q.y > PATH_BOUND {
        return false;
    }
    let mut j: usize = 0;
    while j < rocks.len()
        invariant
            in_bounds(q),
            rocks_ok(rocks@),
            j <= rocks.len(),
            forall|k: int|
                0 <= k < j ==> dist_sq(q, #[trigger] rocks@[k].position) >= (rocks@[k].radius + SAFETY_MARGIN) * (
                rocks@[k].radius + SAFETY_MARGIN),
        decreases rocks.len() - j,
    {
        let rock = rocks[j];
        assert(rock_ok(rocks@[j as int]));
        let reach = rock.radius + SAFETY_MARGIN;
        assert(reach * reach <= (crate::movement::MAX_ROCK_RADIUS + SAFETY_MARGIN) * (crate::movement::MAX_ROCK_RADIUS + SAFETY_MARGIN))
            by (nonlinear_arith)
            requires 0 <= reach <= crate::movement::MAX_ROCK_RADIUS + SAFETY_MARGIN;
        if distance_sq(q, rock.position) < reach * reach {
            return false;
        }
        j = j + 1;
    }
    true
}

fn score_path(grid: &PheromoneGrid, pos: Point, nest: Point, ideal: u8, current: u8, h: u8) -> (r: i128)
    requires
        grid.wf(),
        in_bounds(pos),
        in_bounds(nest),
        ideal < HEADINGS,
        current < HEADINGS,
        h < HEADINGS,
    ensures
        r == path_score(grid@, pos, nest, ideal as int, current as int, h as int),
{
    let q = step_ahead(pos, h, look_distance_of(pos, nest));
    let ix = crate::geometry::compass_x(ideal) as i128;
    let iy = crate::geometry::compass_y(ideal) as i128;
    let cx = crate::geometry::compass_x(current) as i128;
    let cy = crate::geometry::compass_y(current) as i128;
    let hx = crate::geometry::compass_x(h) as i128;
    let hy = crate::geometry::compass_y(h) as i128;
    assert(-1024 * 1024 <= ix * hx <= 1024 * 1024) by (nonlinear_arith) requires -1024 <= ix <= 1024, -1024 <= hx <= 1024;
    assert(-1024 * 1024 <= iy * hy <= 1024 * 1024) by (nonlinear_arith) requires -1024 <= iy <= 1024, -1024 <= hy <= 1024;
    assert(-1024 * 1024 <= cx * hx <= 1024 * 1024) by (nonlinear_arith) requires -1024 <= cx <= 1024, -1024 <= hx <= 1024;
    assert(-1024 * 1024 <= cy * hy <= 1024 * 1024) by (nonlinear_arith) requires -1024 <= cy <= 1024, -1024 <= hy <= 1024;
    let align = ALIGN_WEIGHT * (ix * hx + iy * hy);
    let cont = CONTINUITY_WEIGHT * (cx * hx + cy * hy);
    let d0 = far_distance_sq(pos, nest);
    let d1 = far_distance_sq(q, nest);
    let alarm = grid.sample_at(q.x, q.y, PheromoneType::Alarm) as i128;
    align + cont + (d0 - d1) - ALARM_WEIGHT * alarm
}

/// Squared distance for points up to twice the coordinate bound away.
fn far_distance_sq(a: Point, b: Point) -> (r: i128)
    requires
        -2_000_000_000 <= a.x <= 2_000_000_000,
        -2_000_000_000 <= a.y <= 2_000_000_000,
        in_bounds(b),
    ensures
        r == dist_sq(a, b),
        0 <= r <= 18_000_000_000_000_000_000,
{
    let dx = a.x as i128 - b.x as i128;
    let dy = a.y as i128 - b.y as i128;
    assert(0 <= dx * dx <= 9_000_000_000_000_000_000) by (nonlinear_arith)
        requires -3_000_000_000 <= dx <= 3_000_000_000;
    assert(0 <= dy * dy <= 9_000_000_000_000_000_000) by (nonlinear_arith)
        requires -3_000_000_000 <= dy <= 3_000_000_000;
    dx * dx + dy * dy
}

/// The best of the five headings around `ideal` for a carrier at `pos`,
/// among those whose look-ahead point is safe; `None` where none is.
pub fn best_nest_path(
    grid: &PheromoneGrid,
    rocks: &Vec<Rock>,
    pos: Point,
    nest: Point,
    ideal: u8,
    current: u8,
) -> (r: Option<u8>)
    requires
        grid.wf(),
        rocks_ok(rocks@),
        in_bounds(pos),
        in_bounds(nest),
        ideal < HEADINGS,
        current < HEADINGS,
    ensures
        is_best_path(grid@, pos, nest, ideal as int, current as int, rocks@, r),
        r matches Some(h) ==> h < HEADINGS,
{
    let mut best: Option<u8> = None;
    let mut best_k: usize = 0;
    let mut best_score: i128 = 0;
    let mut k: usize = 0;
    while k < 5
        invariant
            grid.wf(),
            rocks_ok(rocks@),
            in_bounds(pos),
            in_bounds(nest),
            ideal < HEADINGS,
            current < HEADINGS,
            k <= 5,
            match best {
                Some(h) => {
                    &&& best_k < k
                    &&& h == candidate_heading(ideal as int, best_k as int)
                    &&& path_safe(look_point(pos, nest, h as int), rocks@)
                    &&& best_score == path_score(grid@, pos, nest, ideal as int, current as int, h as int)
                    &&& forall|j: int|
                        0 <= j < k && path_safe(look_point(pos, nest, candidate_heading(ideal as int, j)), rocks@)
                            ==> path_score(grid@, pos, nest, ideal as int, current as int, candidate_heading(ideal as int, j))
                            <= best_score
                    &&& forall|j: int|
                        0 <= j < best_k && path_safe(look_point(pos, nest, candidate_heading(ideal as int, j)), rocks@)
                            ==> path_score(grid@, pos, nest, ideal as int, current as int, candidate_heading(ideal as int, j))
                            < best_score
                },
                None => forall|j: int|
                    0 <= j < k ==> !path_safe(look_point(pos, nest, candidate_heading(ideal as int, j)), rocks@),
            },
        decreases 5 - k,
    {
        let h = ((ideal as usize + 14 + k) % 16) as u8;
        let q = step_ahead(pos, h, look_distance_of(pos, nest));
        assert(q == look_point(pos, nest, h as int));
        if is_path_safe(q, rocks) {
            let sc = score_path(grid, pos, nest, ideal, current, h);
            let better = match best {
                None => true,
                Some(_) => sc > best_score,
            };
            if better {
                best = Some(h);
                best_k = k;
                best_score = sc;
            }
        }
        k = k + 1;
    }
    best
}

/// A nest-channel reading below this is no trail (field units).
pub const NEST_TRAIL_MIN: u64 = 50_000;

/// Score per compass step of closeness to the current heading when a
/// carrier weighs nest trails.
pub const NEST_MOMENTUM_STEP: u64 = 25_000;

/// Score of the `i`th nest sample for a carrier heading `current`.
pub open spec fn nest_trail_score(s: Seq<u64>, i: int, current: int) -> int {
    s[i] + (8 - crate::geometry::heading_gap(2 * i, current)) * NEST_MOMENTUM_STEP
}

/// Sample `i` is a nest trail that leads homeward: above `NEST_TRAIL_MIN`
/// and within 45 degrees of the nest heading `ideal`.
pub open spec fn homeward(s: Seq<u64>, i: int, ideal: int) -> bool {
    s[i] > NEST_TRAIL_MIN && crate::geometry::heading_gap(2 * i, ideal) <= 2
}

/// `r` is the first homeward nest sample of highest score, or none where
/// no sample is homeward.
pub open spec fn is_best_nest_trail(s: Seq<u64>, current: int, ideal: int, r: Option<usize>) -> bool {
    match r {
        Some(i) => {
            &&& i < 8
            &&& homeward(s, i as int, ideal)
            &&& forall|j: int| 0 <= j < 8 && homeward(s, j, ideal) ==> nest_trail_score(s, j, current) <= nest_trail_score(s, i as int, current)
            &&& forall|j: int| 0 <= j < i && homeward(s, j, ideal) ==> nest_trail_score(s, j, current) < nest_trail_score(s, i as int, current)
        },
        None => forall|j: int| 0 <= j < 8 ==> !homeward(s, j, ideal),
    }
}

/// The strongest homeward nest trail among eight samples, favouring the
/// current heading.
pub fn best_nest_trail(samples: &[u64; 8], current: u8, ideal: u8) -> (r: Option<usize>)
    requires
        forall|i: int| 0 <= i < 8 ==> samples@[i] <= LEVEL_CAP,
        current < HEADINGS,
        ideal < HEADINGS,
    ensures
        is_best_nest_trail(samples@, current as int, ideal as int, r),
{
    let mut best: Option<usize> = None;
    let mut best_score: u64 = 0;
    let mut i: usize = 0;
    while i < 8
        invariant
            forall|k: int| 0 <= k < 8 ==> samples@[k] <= LEVEL_CAP,
            current < HEADINGS,
            ideal < HEADINGS,
            i <= 8,
            match best {
                Some(k) => {
                    &&& k < i
                    &&& homeward(samples@, k as int, ideal as int)
                    &&& best_score == nest_trail_score(samples@, k as int, current as int)
                    &&& forall|j: int| 0 <= j < i && homeward(samples@, j, ideal as int) ==> nest_trail_score(samples@, j, current as int) <= best_score
                    &&& forall|j: int| 0 <= j < k && homeward(samples@, j, ideal as int) ==> nest_trail_score(samples@, j, current as int) < best_score
                },
                None => forall|j: int| 0 <= j < i ==> !homeward(samples@, j, ideal as int),
            },
        decreases 8 - i,
    {
        let v = samples[i];
        if v > NEST_TRAIL_MIN && crate::geometry::gap((2 * i) as u8, ideal) <= 2 {
            let g = crate::geometry::gap((2 * i) as u8, current);
            let sc = v + (8 - g as u64) * NEST_MOMENTUM_STEP;
            let better = match best {
                None => true,
                Some(_) => sc > best_score,
            };
            if better {
                best = Some(i);
                best_score = sc;
            }
        }
        i = i + 1;
    }
    best
}

/// Steps from heading `a` to heading `b` the shorter way, counter-clockwise
/// positive, in -7..=8.
pub open spec fn signed_gap(a: int, b: int) -> int {
    let d = (b - a + 16) % 16;
    if d > 8 { d - 16 } else { d }
}

/// Two fifths of the way from `current` toward `target`, rounded toward
/// zero but at least one step when they differ.
pub open spec fn eased(current: int, target: int) -> int {
    let d = signed_gap(current, target);
    let step = if d == 0 { 0 } else if d > 0 { if 2 * d / 5 == 0 { 1 } else { 2 * d / 5 } } else {
        if (-2 * d) / 5 == 0 { -1 } else { -((-2 * d) / 5) }
    };
    (current + step + 16) % 16
}

/// `eased` in code.
pub fn ease_toward(current: u8, target: u8) -> (r: u8)
    requires
        current < HEADINGS,
        target < HEADINGS,
    ensures
        r == eased(current as int, target as int),
        r < HEADINGS,
{
    let d0 = ((target + 16 - current) % 16) as i64;
    assert(0 <= d0 < 16);
    let d: i64 = if d0 > 8 { d0 - 16 } else { d0 };
    assert(-8 <= d <= 8);
    let step: i64 = if d == 0 {
        0
    } else if d > 0 {
        if 2 * d / 5 == 0 { 1 } else { 2 * d / 5 }
    } else {
        let nd: i64 = 0 - d;
        if 2 * nd / 5 == 0 { -1 } else { 0 - 2 * nd / 5 }
    };
    assert(-4 <= step <= 4);
    ((current as i64 + step + 16) % 16) as u8
}

/// How a carrier chose its heading.
#[derive(Clone, Copy, Debug, PartialEq, Eq, Structural)]
pub enum CarrierChoice {
    /// Eased toward a nest trail whose look-ahead point is safe.
    NestTrail,
    /// The best safe path toward the nest.
    SafePath,
    /// No safe path: a quarter turn.
    NoPath,
}

/// What a carrier's decision does: `a0` becomes `a1` by way of `choice`.
pub open spec fn carrier_decided(
    a0: AntState,
    a1: AntState,
    g: crate::pheromones::GridView,
    rocks: Seq<Rock>,
    pos: Point,
    nest: Point,
    choice: CarrierChoice,
) -> bool {
    &&& ({
        let s = Seq::new(8, |i: int| g.sample_directional(PheromoneType::Nest, pos, 2 * i, crate::pheromones::SENSE_DISTANCE as int) as u64);
        let ideal = bearing(nest.x - pos.x, nest.y - pos.y);
        &&& choice == CarrierChoice::NestTrail <==> exists|i: usize| #[trigger] is_best_nest_trail(s, a0.current_direction as int, ideal, Some(i)) && path_safe(look_point(pos, nest, 2 * i), rocks)
            && path_safe(look_point(pos, nest, eased(a0.current_direction as int, 2 * i)), rocks)
        &&& choice == CarrierChoice::NestTrail ==> exists|i: usize| #[trigger] is_best_nest_trail(s, a0.current_direction as int, ideal, Some(i)) && a1.current_direction == eased(a0.current_direction as int, 2 * i)
    })
    &&& choice != CarrierChoice::NestTrail ==> exists|ideal: int| {
        &&& #[trigger] is_nearest_heading(nest.x - pos.x, nest.y - pos.y, ideal)
        &&& is_best_path(
            g,
            pos,
            nest,
            ideal,
            a0.current_direction as int,
            rocks,
            if choice == CarrierChoice::SafePath { Some(a1.current_direction) } else { None },
        )
    }
    &&& choice != CarrierChoice::NoPath ==> a1.behavior_state == AntBehaviorState::Following
    &&& choice == CarrierChoice::NoPath ==> a1.behavior_state == AntBehaviorState::Exploring
        && a1.current_direction == (a0.current_direction + 4) % 16
    &&& a1 == (AntState {
        current_direction: a1.current_direction,
        behavior_state: a1.behavior_state,
        ..a0
    })
}

/// The heading decision of a carrier. A homeward nest trail (eight-way
/// scan of the nest channel) is eased toward (state `Following`) when the
/// look-ahead points of both the trail and the eased heading are safe;
/// otherwise the best safe path toward the nest is taken
/// (state `Following`); with no safe path, a quarter turn to the left of
/// the current heading (state `Exploring`).
pub fn carrier_decision(ant: &mut AntState, grid: &PheromoneGrid, rocks: &Vec<Rock>, pos: Point, nest: Point) -> (choice: CarrierChoice)
    requires
        old(ant).wf(),
        grid.wf(),
        rocks_ok(rocks@),
        in_bounds(pos),
        in_bounds(nest),
    ensures
        final(ant).wf(),
        carrier_decided(*old(ant), *final(ant), grid@, rocks@, pos, nest, choice),
{
    let current = ant.current_direction;
    let samples = grid.sample_all_directions(pos.x, pos.y, PheromoneType::Nest);
    let ghost s = Seq::new(8, |i: int| grid@.sample_directional(PheromoneType::Nest, pos, 2 * i, crate::pheromones::SENSE_DISTANCE as int) as u64);
    assert(samples@ =~= s);
    assert forall|i: int| 0 <= i < 8 implies samples@[i] <= LEVEL_CAP by {
        crate::pheromones::lemma_directional_capped(grid@, PheromoneType::Nest, pos, 2 * i, crate::pheromones::SENSE_DISTANCE as int);
    }
    let ideal = nearest_heading((nest.x - pos.x) as i128, (nest.y - pos.y) as i128);
    let trail = best_nest_trail(&samples, current, ideal);
    if let Some(i) = trail {
        let h = (2 * i) as u8;
        let q = step_ahead(pos, h, look_distance_of(pos, nest));
        if is_path_safe(q, rocks) {
            let e = ease_toward(current, h);
            let qe = step_ahead(pos, e, look_distance_of(pos, nest));
            if is_path_safe(qe, rocks) {
                ant.current_direction = e;
                ant.behavior_state = AntBehaviorState::Following;
                return CarrierChoice::NestTrail;
            }
        }
    }
    match best_nest_path(grid, rocks, pos, nest, ideal, current) {
        Some(h) => {
            ant.current_direction = h;
            ant.behavior_state = AntBehaviorState::Following;
            CarrierChoice::SafePath
        },
        None => {
            ant.current_direction = (current + 4) % 16;
            ant.behavior_state = AntBehaviorState::Exploring;
            CarrierChoice::NoPath
        },
    }
}

} // verus!

verus! {

/// A nest-channel average below this is no trail (field units, 0.2 units).
pub const NEST_FIND_MIN: i128 = 200_000;

/// Sampling distances (world units) of the near, middle and far readings.
pub const NEST_NEAR: i64 = 18;
pub const NEST_MID: i64 = 26;
pub const NEST_FAR: i64 = 36;

/// Score per compass step of closeness to the current heading (0.3 units
/// over a half turn).
pub const NEST_FIND_MOMENTUM_STEP: i128 = 37_500;

/// Bonus of an agent with more than two deliveries (0.2 units).
pub const NEST_EXPERIENCE_BONUS: i128 = 200_000;

/// What the sixteen-heading nest-trail scan found.
#[derive(Clone, Copy, Debug, PartialEq, Eq, Structural)]
pub struct NestTrailResult {
    pub found_trail: bool,
    /// Compass heading of the trail, or the current heading with none.
    pub direction: u8,
    /// Mean of its near, middle and far readings.
    pub strength: u64,
    /// How far it beats the runner-up, per-mille.
    pub confidence: u32,
    /// Size of its near-to-far gradient.
    pub gradient_quality: u64,
}

pub open spec fn nest_reading(g: crate::pheromones::GridView, pos: Point, k: int, d: int) -> int {
    g.sample_directional(PheromoneType::Nest, pos, k, d)
}

/// Near-to-far gradient along heading `k`, doubled.
pub open spec fn nest_gradient(g: crate::pheromones::GridView, pos: Point, k: int) -> int {
    (nest_reading(g, pos, k, NEST_NEAR as int) - nest_reading(g, pos, k, NEST_FAR as int)) * 2
}

/// Mean reading along heading `k`.
pub open spec fn nest_average(g: crate::pheromones::GridView, pos: Point, k: int) -> int {
    (nest_reading(g, pos, k, NEST_NEAR as int) + nest_reading(g, pos, k, NEST_MID as int) + nest_reading(
        g,
        pos,
        k,
        NEST_FAR as int,
    )) / 3
}

/// Score of heading `k`: twice the gradient, one and a half times the
/// mean, momentum toward the current heading, and experience.
pub open spec fn nest_find_score(g: crate::pheromones::GridView, pos: Point, k: int, current: int, deliveries: int) -> int {
    2 * nest_gradient(g, pos, k) + nest_average(g, pos, k) * 3 / 2 + (8 - crate::geometry::heading_gap(k, current))
        * NEST_FIND_MOMENTUM_STEP + if deliveries > 2 { NEST_EXPERIENCE_BONUS as int } else { 0 }
}

/// Heading `k` qualifies: mean above `NEST_FIND_MIN` and a positive score.
pub open spec fn nest_eligible(g: crate::pheromones::GridView, pos: Point, k: int, current: int, deliveries: int) -> bool {
    nest_average(g, pos, k) > NEST_FIND_MIN && nest_find_score(g, pos, k, current, deliveries) > 0
}

/// The largest score below `best` among the first `n` headings, at least 0.
pub open spec fn runner_up(g: crate::pheromones::GridView, pos: Point, current: int, deliveries: int, best: int, n: int) -> int
    decreases n,
{
    if n <= 0 {
        0
    } else {
        let r = runner_up(g, pos, current, deliveries, best, n - 1);
        let sc = nest_find_score(g, pos, n - 1, current, deliveries);
        if sc < best && sc > r { sc } else { r }
    }
}

pub open spec fn min_mille(v: int) -> int {
    if v > 1000 { 1000 } else { v }
}

/// Confidence in heading `k` of score `best`: its lead over the runner-up
/// relative to `best + 0.1` units, raised by 300 for a gradient above 0.5
/// units and by 200 within 200 units of the nest, each capped at 1000.
pub open spec fn nest_confidence(g: crate::pheromones::GridView, pos: Point, nest: Point, k: int, current: int, deliveries: int) -> int {
    let best = nest_find_score(g, pos, k, current, deliveries);
    let lead = best - runner_up(g, pos, current, deliveries, best, 16);
    let c0 = min_mille(lead * 1000 / (best + 100_000));
    let gq = if nest_gradient(g, pos, k) >= 0 { nest_gradient(g, pos, k) } else { -nest_gradient(g, pos, k) };
    let c1 = if gq > 500_000 { min_mille(c0 + 300) } else { c0 };
    if dist_sq(pos, nest) < (200 * UNIT) * (200 * UNIT) { min_mille(c1 + 200) } else { c1 }
}

/// Scans the nest channel along sixteen headings, each at three distances,
/// for the trail of highest score among those whose mean exceeds 0.2 units
/// with a positive score (the first such on ties), and reports its heading,
/// strength, gradient and confidence.
pub fn find_best_nest_trail_direction(
    grid: &PheromoneGrid,
    pos: Point,
    nest: Point,
    current_direction: u8,
    successful_deliveries: u32,
) -> (r: NestTrailResult)
    requires
        grid.wf(),
        in_bounds(pos),
        in_bounds(nest),
        current_direction < HEADINGS,
    ensures
        r.found_trail <==> exists|k: int| 0 <= k < 16 && nest_eligible(grid@, pos, k, current_direction as int, successful_deliveries as int),
        !r.found_trail ==> r == (NestTrailResult {
            found_trail: false,
            direction: current_direction,
            strength: 0,
            confidence: 0,
            gradient_quality: 0,
        }),
        r.found_trail ==> {
            let k = r.direction as int;
            let c = current_direction as int;
            let dv = successful_deliveries as int;
            &&& 0 <= k < 16
            &&& nest_eligible(grid@, pos, k, c, dv)
            &&& forall|j: int| 0 <= j < 16 && nest_eligible(grid@, pos, j, c, dv) ==> nest_find_score(grid@, pos, j, c, dv) <= nest_find_score(grid@, pos, k, c, dv)
            &&& forall|j: int| 0 <= j < k && nest_eligible(grid@, pos, j, c, dv) ==> nest_find_score(grid@, pos, j, c, dv) < nest_find_score(grid@, pos, k, c, dv)
            &&& r.strength == nest_average(grid@, pos, k)
            &&& r.gradient_quality == (if nest_gradient(grid@, pos, k) >= 0 { nest_gradient(grid@, pos, k) } else { -nest_gradient(grid@, pos, k) })
            &&& r.confidence == nest_confidence(grid@, pos, nest, k, c, dv)
        },
{
    let ghost c = current_direction as int;
    let ghost dv = successful_deliveries as int;
    let mut found = false;
    let mut best_k: u8 = 0;
    let mut best_score: i128 = 0;
    let mut k: u8 = 0;
    while k < 16
        invariant
            grid.wf(),
            in_bounds(pos),
            current_direction < HEADINGS,
            c == current_direction,
            dv == successful_deliveries,
            k <= 16,
            found ==> best_k < k && nest_eligible(grid@, pos, best_k as int, c, dv) && best_score == nest_find_score(grid@, pos, best_k as int, c, dv),
            !found ==> best_score == 0 && forall|j: int| 0 <= j < k ==> !nest_eligible(grid@, pos, j, c, dv),
            forall|j: int| 0 <= j < k && nest_eligible(grid@, pos, j, c, dv) ==> nest_find_score(grid@, pos, j, c, dv) <= best_score,
            found ==> forall|j: int| 0 <= j < best_k && nest_eligible(grid@, pos, j, c, dv) ==> nest_find_score(grid@, pos, j, c, dv) < best_score,
        decreases 16 - k,
    {
        let (sc, avg, _) = nest_scan(grid, pos, k, current_direction, successful_deliveries);
        if sc > best_score && avg > NEST_FIND_MIN {
            found = true;
            best_k = k;
            best_score = sc;
        }
        k = k + 1;
    }
    if !found {
        return NestTrailResult { found_trail: false, direction: current_direction, strength: 0, confidence: 0, gradient_quality: 0 };
    }
    let (sc, avg, grad) = nest_scan(grid, pos, best_k, current_direction, successful_deliveries);
    let mut second: i128 = 0;
    let mut j: u8 = 0;
    while j < 16
        invariant
            grid.wf(),
            in_bounds(pos),
            current_direction < HEADINGS,
            c == current_direction,
            dv == successful_deliveries,
            j <= 16,
            sc == nest_find_score(grid@, pos, best_k as int, c, dv),
            second == runner_up(grid@, pos, c, dv, sc as int, j as int),
            0 <= second,
            second <= sc || second == 0,
        decreases 16 - j,
    {
        let (s2, _, _) = nest_scan(grid, pos, j, current_direction, successful_deliveries);
        if s2 < sc && s2 > second {
            second = s2;
        }
        j = j + 1;
    }
    let gq: i128 = if grad >= 0 { grad } else { -grad };
    let lead = sc - second;
    assert(sc > 0);
    let c0 = if lead * 1000 / (sc + 100_000) > 1000 { 1000 } else { lead * 1000 / (sc + 100_000) };
    let c1 = if gq > 500_000 { if c0 + 300 > 1000 { 1000 } else { c0 + 300 } } else { c0 };
    let c2 = if distance_sq(pos, nest) < (200 * UNIT) * (200 * UNIT) { if c1 + 200 > 1000 { 1000 } else { c1 + 200 } } else { c1 };
    NestTrailResult {
        found_trail: true,
        direction: best_k,
        strength: avg as u64,
        confidence: c2 as u32,
        gradient_quality: gq as u64,
    }
}

/// Score, mean and gradient of heading `k`.
fn nest_scan(grid: &PheromoneGrid, pos: Point, k: u8, current: u8, deliveries: u32) -> (r: (i128, i128, i128))
    requires
        grid.wf(),
        in_bounds(pos),
        k < HEADINGS,
        current < HEADINGS,
    ensures
        r.0 == nest_find_score(grid@, pos, k as int, current as int, deliveries as int),
        r.1 == nest_average(grid@, pos, k as int),
        r.2 == nest_gradient(grid@, pos, k as int),
        0 <= r.1 <= LEVEL_CAP,
        -4 * LEVEL_CAP <= r.2 <= 4 * LEVEL_CAP,
        -20 * LEVEL_CAP <= r.0 <= 20 * LEVEL_CAP,
{
    let near = grid.sample_directional(pos.x, pos.y, k, NEST_NEAR, PheromoneType::Nest) as i128;
    let mid = grid.sample_directional(pos.x, pos.y, k, NEST_MID, PheromoneType::Nest) as i128;
    let far = grid.sample_directional(pos.x, pos.y, k, NEST_FAR, PheromoneType::Nest) as i128;
    let grad = (near - far) * 2;
    let avg = (near + mid + far) / 3;
    let g = crate::geometry::gap(k, current) as i128;
    let exp: i128 = if deliveries > 2 { NEST_EXPERIENCE_BONUS } else { 0 };
    (2 * grad + avg * 3 / 2 + (8 - g) * NEST_FIND_MOMENTUM_STEP + exp, avg, grad)
}

} // verus!

verus! {

/// A carrier senses a rock within its radius plus this (sub-units).
pub const ESCAPE_SENSE: i64 = 25 * UNIT;

/// Closer than this to a sensed rock's centre (sub-units), or stuck longer
/// than `ESCAPE_STUCK_MS`, a carrier escapes it.
pub const ESCAPE_CLOSE: i64 = 35 * UNIT;
pub const ESCAPE_STUCK_MS: u32 = 600;

/// Rock `r` is within its radius plus `ESCAPE_SENSE` of `pos`.
pub open spec fn rock_sensed(pos: Point, r: Rock) -> bool {
    dist_sq(pos, r.position) < (r.radius + ESCAPE_SENSE) * (r.radius + ESCAPE_SENSE)
}

/// Rock `j` is the nearest sensed rock (the first on ties).
pub open spec fn nearest_sensed(pos: Point, rocks: Seq<Rock>, j: int) -> bool {
    &&& 0 <= j < rocks.len()
    &&& rock_sensed(pos, rocks[j])
    &&& forall|k: int|
        0 <= k < rocks.len() && rock_sensed(pos, rocks[k]) ==> dist_sq(pos, rocks[j].position) <= dist_sq(
            pos,
            #[trigger] rocks[k].position,
        )
    &&& forall|k: int|
        0 <= k < j && rock_sensed(pos, rocks[k]) ==> dist_sq(pos, rocks[j].position) < dist_sq(
            pos,
            #[trigger] rocks[k].position,
        )
}

/// A carrier at `pos`, stuck for `stuck` ms, escapes rock `j`: the nearest
/// sensed rock, and it is close or the carrier has been stuck a while.
pub open spec fn escapes(pos: Point, rocks: Seq<Rock>, stuck: int, j: int) -> bool {
    nearest_sensed(pos, rocks, j) && (stuck > ESCAPE_STUCK_MS || dist_sq(pos, rocks[j].position) < ESCAPE_CLOSE
        * ESCAPE_CLOSE)
}

/// The escape heading from a rock at `c`: six parts away from the rock to
/// four parts toward the nest.
pub open spec fn escape_heading(pos: Point, nest: Point, c: Point) -> int {
    let away = bearing(pos.x - c.x, pos.y - c.y);
    let home = bearing(nest.x - pos.x, nest.y - pos.y);
    bearing(6 * dir_x(away) + 4 * dir_x(home), 6 * dir_y(away) + 4 * dir_y(home))
}

/// The rock a carrier at `pos`, stuck for `stuck` ms, must escape, if any.
pub fn rock_to_escape(pos: Point, rocks: &Vec<Rock>, stuck: u32) -> (r: Option<usize>)
    requires
        in_bounds(pos),
        rocks_ok(rocks@),
    ensures
        match r {
            Some(j) => escapes(pos, rocks@, stuck as int, j as int),
            None => forall|j: int| 0 <= j < rocks@.len() ==> !escapes(pos, rocks@, stuck as int, j),
        },
{
    let mut best: Option<usize> = None;
    let mut best_d: i64 = 0;
    let mut k: usize = 0;
    while k < rocks.len()
        invariant
            in_bounds(pos),
            rocks_ok(rocks@),
            k <= rocks@.len(),
            match best {
                Some(j) => {
                    &&& j < k
                    &&& rock_sensed(pos, rocks@[j as int])
                    &&& best_d == dist_sq(pos, rocks@[j as int].position)
                    &&& forall|m: int| 0 <= m < k && rock_sensed(pos, rocks@[m]) ==> best_d <= dist_sq(pos, #[trigger] rocks@[m].position)
                    &&& forall|m: int| 0 <= m < j && rock_sensed(pos, rocks@[m]) ==> best_d < dist_sq(pos, #[trigger] rocks@[m].position)
                },
                None => forall|m: int| 0 <= m < k ==> !rock_sensed(pos, #[trigger] rocks@[m]),
            },
        decreases rocks@.len() - k,
    {
        let rock = rocks[k];
        assert(rock_ok(rocks@[k as int]));
        let reach = rock.radius + ESCAPE_SENSE;
        assert(reach * reach <= (crate::movement::MAX_ROCK_RADIUS + ESCAPE_SENSE) * (crate::movement::MAX_ROCK_RADIUS + ESCAPE_SENSE))
            by (nonlinear_arith)
            requires 0 <= reach <= crate::movement::MAX_ROCK_RADIUS + ESCAPE_SENSE;
        let d = distance_sq(pos, rock.position);
        if d < reach * reach {
            let better = match best {
                None => true,
                Some(_) => d < best_d,
            };
            if better {
                best = Some(k);
                best_d = d;
            }
        }
        k = k + 1;
    }
    match best {
        Some(j) => {
            if stuck > ESCAPE_STUCK_MS || best_d < ESCAPE_CLOSE * ESCAPE_CLOSE {
                Some(j)
            } else {
                proof {
                    assert forall|m: int| 0 <= m < rocks@.len() implies !escapes(pos, rocks@, stuck as int, m) by {
                        if escapes(pos, rocks@, stuck as int, m) {
                            assert(dist_sq(pos, rocks@[m].position) == best_d);
                        }
                    }
                }
                None
            }
        },
        None => None,
    }
}

/// The escape heading from the rock at `c`.
pub fn escape_direction(pos: Point, nest: Point, c: Point) -> (r: u8)
    requires
        in_bounds(pos),
        in_bounds(nest),
        in_bounds(c),
    ensures
        r == escape_heading(pos, nest, c),
        r < HEADINGS,
{
    let away = nearest_heading((pos.x - c.x) as i128, (pos.y - c.y) as i128);
    let home = nearest_heading((nest.x - pos.x) as i128, (nest.y - pos.y) as i128);
    let vx = 6 * crate::geometry::compass_x(away) as i128 + 4 * crate::geometry::compass_x(home) as i128;
    let vy = 6 * crate::geometry::compass_y(away) as i128 + 4 * crate::geometry::compass_y(home) as i128;
    nearest_heading(vx, vy)
}

} // verus!
