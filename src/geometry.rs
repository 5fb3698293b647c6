use vstd::prelude::*;

verus! {

/// Sub-units in one world unit; one world unit is one field cell.
pub const UNIT: i64 = 64;

/// Scale of the compass unit vectors: a unit vector has length `DIR_SCALE`.
pub const DIR_SCALE: i64 = 1024;

/// Number of compass headings; heading `k` points at `k * 22.5` degrees
/// counter-clockwise from the positive x axis.
pub const HEADINGS: u8 = 16;

/// A position in sub-units (`UNIT` of them per world unit).
#[derive(Clone, Copy, Debug, PartialEq, Eq, Structural)]
pub struct Point {
    pub x: i64,
    pub y: i64,
}

/// The x component of the unit vector of heading `k`, scaled by `DIR_SCALE`.
pub open spec fn dir_x(k: int) -> int {
    if k == 0 { 1024 }
    else if k == 1 { 946 }
    else if k == 2 { 724 }
    else if k == 3 { 392 }
    else if k == 4 { 0 }
    else if k == 5 { -392 }
    else if k == 6 { -724 }
    else if k == 7 { -946 }
    else if k == 8 { -1024 }
    else if k == 9 { -946 }
    else if k == 10 { -724 }
    else if k == 11 { -392 }
    else if k == 12 { 0 }
    else if k == 13 { 392 }
    else if k == 14 { 724 }
    else { 946 }
}

/// The y component of the unit vector of heading `k`: a quarter turn behind x.
pub open spec fn dir_y(k: int) -> int {
    dir_x((k + 12) % 16)
}

/// Executable `dir_x`.
pub fn compass_x(k: u8) -> (r: i64)
    requires
        k < HEADINGS,
    ensures
        r == dir_x(k as int),
{
    if k == 0 { 1024 }
    else if k == 1 { 946 }
    else if k == 2 { 724 }
    else if k == 3 { 392 }
    else if k == 4 { 0 }
    else if k == 5 { -392 }
    else if k == 6 { -724 }
    else if k == 7 { -946 }
    else if k == 8 { -1024 }
    else if k == 9 { -946 }
    else if k == 10 { -724 }
    else if k == 11 { -392 }
    else if k == 12 { 0 }
    else if k == 13 { 392 }
    else if k == 14 { 724 }
    else { 946 }
}

/// Executable `dir_y`.
pub fn compass_y(k: u8) -> (r: i64)
    requires
        k < HEADINGS,
    ensures
        r == dir_y(k as int),
{
    compass_x((k + 12) % 16)
}

/// The number of steps between two headings, the shorter way round (0..=8).
pub open spec fn heading_gap(a: int, b: int) -> int {
    let d = if a >= b { a - b } else { b - a };
    if d > 8 { 16 - d } else { d }
}

/// Executable `heading_gap`.
pub fn gap(a: u8, b: u8) -> (r: u8)
    requires
        a < HEADINGS,
        b < HEADINGS,
    ensures
        r == heading_gap(a as int, b as int),
        r <= 8,
{
    let d = if a >= b { a - b } else { b - a };
    if d > 8 { 16 - d } else { d }
}

/// Division rounding down, for a positive divisor.
pub fn floor_div(a: i64, d: i64) -> (r: i64)
    requires
        0 < d <= 4_000_000_000_000_000_000,
        a >= -4_000_000_000_000_000_000,
    ensures
        r == a as int / d as int,
{
    if a >= 0 {
        a / d
    } else {
        let m = -a;
        let q = (m + (d - 1)) / d;
        assert(-q == a as int / d as int) by (nonlinear_arith)
            requires
                m == -a,
                m > 0,
                d > 0,
                q == (m + (d - 1)) / (d as int),
        {
            let qq = a as int / d as int;
            let rr = a as int % d as int;
            assert(a == qq * d + rr && 0 <= rr < d);
        }
        -q
    }
}

/// The point `dist` world units from `p` along heading `h`, in sub-units,
/// each offset rounded down.
pub open spec fn ahead(p: Point, h: int, dist: int) -> (int, int) {
    (p.x + (dir_x(h) * dist * UNIT) / (DIR_SCALE as int), p.y + (dir_y(h) * dist * UNIT) / (DIR_SCALE as int))
}

/// Bound on coordinates that the library keeps positions within.
pub const COORD_LIMIT: i64 = 1_000_000_000;

/// The squared distance between two points, in squared sub-units.
pub open spec fn dist_sq(a: Point, b: Point) -> int {
    (a.x - b.x) * (a.x - b.x) + (a.y - b.y) * (a.y - b.y)
}

/// Whether a point lies within the coordinate bound.
pub open spec fn in_bounds(p: Point) -> bool {
    -COORD_LIMIT <= p.x <= COORD_LIMIT && -COORD_LIMIT <= p.y <= COORD_LIMIT
}

/// Executable `dist_sq`.
pub fn distance_sq(a: Point, b: Point) -> (r: i64)
    requires
        in_bounds(a),
        in_bounds(b),
    ensures
        r == dist_sq(a, b),
        r >= 0,
{
    let dx = a.x - b.x;
    let dy = a.y - b.y;
    assert(dx * dx <= 4_000_000_000_000_000_000) by (nonlinear_arith)
        requires -2_000_000_000 <= dx <= 2_000_000_000;
    assert(dy * dy <= 4_000_000_000_000_000_000) by (nonlinear_arith)
        requires -2_000_000_000 <= dy <= 2_000_000_000;
    assert(dx * dx >= 0) by (nonlinear_arith);
    assert(dy * dy >= 0) by (nonlinear_arith);
    dx * dx + dy * dy
}

/// Bound on the components of a vector handed to `nearest_heading`.
pub const VEC_LIMIT: i128 = 1_000_000_000_000_000_000_000_000_000_000;

/// The dot product of (vx, vy) with the unit vector of heading `k`.
pub open spec fn dot_dir(vx: int, vy: int, k: int) -> int {
    vx * dir_x(k) + vy * dir_y(k)
}

/// `h` is the first of the sixteen headings whose unit vector has the
/// largest dot product with (vx, vy).
pub open spec fn is_nearest_heading(vx: int, vy: int, h: int) -> bool {
    &&& 0 <= h < 16
    &&& forall|k: int| 0 <= k < 16 ==> dot_dir(vx, vy, k) <= dot_dir(vx, vy, h)
    &&& forall|k: int| 0 <= k < h ==> dot_dir(vx, vy, k) < dot_dir(vx, vy, h)
}

/// The compass heading nearest to (vx, vy), as `nearest_heading` finds it.
pub open spec fn bearing(vx: int, vy: int) -> int {
    choose|h: int| is_nearest_heading(vx, vy, h)
}

/// At most one heading is the nearest, so `bearing` names the one found.
pub proof fn lemma_bearing_unique(vx: int, vy: int, h: int)
    requires
        is_nearest_heading(vx, vy, h),
    ensures
        bearing(vx, vy) == h,
{
    let b = bearing(vx, vy);
    assert(is_nearest_heading(vx, vy, b));
    if b < h {
        assert(dot_dir(vx, vy, b) < dot_dir(vx, vy, h));
    } else if h < b {
        assert(dot_dir(vx, vy, h) < dot_dir(vx, vy, b));
    }
}

/// The compass heading closest in direction to the vector (vx, vy); the
/// zero vector gives heading 0.
pub fn nearest_heading(vx: i128, vy: i128) -> (r: u8)
    requires
        -VEC_LIMIT <= vx <= VEC_LIMIT,
        -VEC_LIMIT <= vy <= VEC_LIMIT,
    ensures
        is_nearest_heading(vx as int, vy as int, r as int),
        r == bearing(vx as int, vy as int),
        r < HEADINGS,
{
    let mut best: u8 = 0;
    let mut best_dot: i128 = dot_heading(vx, vy, 0);
    let mut k: u8 = 1;
    while k < HEADINGS
        invariant
            -VEC_LIMIT <= vx <= VEC_LIMIT,
            -VEC_LIMIT <= vy <= VEC_LIMIT,
            1 <= k <= 16,
            best < k,
            best_dot == dot_dir(vx as int, vy as int, best as int),
            forall|j: int| 0 <= j < k ==> dot_dir(vx as int, vy as int, j) <= best_dot,
            forall|j: int| 0 <= j < best ==> dot_dir(vx as int, vy as int, j) < best_dot,
        decreases 16 - k,
    {
        let d = dot_heading(vx, vy, k);
        if d > best_dot {
            best = k;
            best_dot = d;
        }
        k = k + 1;
    }
    proof {
        lemma_bearing_unique(vx as int, vy as int, best as int);
    }
    best
}

fn dot_heading(vx: i128, vy: i128, k: u8) -> (r: i128)
    requires
        -VEC_LIMIT <= vx <= VEC_LIMIT,
        -VEC_LIMIT <= vy <= VEC_LIMIT,
        k < HEADINGS,
    ensures
        r == dot_dir(vx as int, vy as int, k as int),
{
    let cx = compass_x(k) as i128;
    let cy = compass_y(k) as i128;
    assert(-VEC_LIMIT * 1024 <= vx * cx <= VEC_LIMIT * 1024) by (nonlinear_arith)
        requires -VEC_LIMIT <= vx <= VEC_LIMIT, -1024 <= cx <= 1024;
    assert(-VEC_LIMIT * 1024 <= vy * cy <= VEC_LIMIT * 1024) by (nonlinear_arith)
        requires -VEC_LIMIT <= vy <= VEC_LIMIT, -1024 <= cy <= 1024;
    vx * cx + vy * cy
}

/// The point `dist` world units from `p` along heading `h`.
pub fn step_ahead(p: Point, h: u8, dist: i64) -> (r: Point)
    requires
        h < HEADINGS,
        in_bounds(p),
        0 <= dist <= 100_000,
    ensures
        r.x == ahead(p, h as int, dist as int).0,
        r.y == ahead(p, h as int, dist as int).1,
        p.x - 6_553_600 <= r.x <= p.x + 6_553_600,
        p.y - 6_553_600 <= r.y <= p.y + 6_553_600,
{
    let cx = compass_x(h);
    let cy = compass_y(h);
    assert(-1024 <= cx <= 1024 && -1024 <= cy <= 1024);
    assert(-1024 * 100_000 * 64 <= cx * dist * 64 <= 1024 * 100_000 * 64) by (nonlinear_arith)
        requires -1024 <= cx <= 1024, 0 <= dist <= 100_000;
    assert(-1024 * 100_000 * 64 <= cy * dist * 64 <= 1024 * 100_000 * 64) by (nonlinear_arith)
        requires -1024 <= cy <= 1024, 0 <= dist <= 100_000;
    let ox = floor_div(cx * dist * UNIT, DIR_SCALE);
    let oy = floor_div(cy * dist * UNIT, DIR_SCALE);
    assert(-6_553_600 <= ox <= 6_553_600 && -6_553_600 <= oy <= 6_553_600);
    Point { x: p.x + ox, y: p.y + oy }
}

} // verus!
