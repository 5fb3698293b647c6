use vstd::prelude::*;
use crate::components::{Agent, Rock, Velocity, ANT_HALF_WIDTH, WORLD_BOUND};
use crate::geometry::{dist_sq, distance_sq, floor_div, in_bounds, Point, UNIT};

verus! {

/// Largest obstacle radius, in sub-units.
pub const MAX_ROCK_RADIUS: i64 = 100_000 * UNIT;

/// Largest velocity component, in sub-units per second.
pub const MAX_SPEED: i64 = 1_000_000;

/// Longest tick, in milliseconds.
pub const MAX_TICK_MS: u32 = 60_000;

pub open spec fn rock_ok(r: Rock) -> bool {
    in_bounds(r.position) && 0 <= r.radius <= MAX_ROCK_RADIUS
}

pub open spec fn rocks_ok(rocks: Seq<Rock>) -> bool {
    forall|j: int| 0 <= j < rocks.len() ==> rock_ok(rocks[j])
}

pub open spec fn velocity_ok(v: Velocity) -> bool {
    -MAX_SPEED <= v.x <= MAX_SPEED && -MAX_SPEED <= v.y <= MAX_SPEED
}

/// A body centred at `p` overlaps rock `r`.
pub open spec fn hits(p: Point, r: Rock) -> bool {
    dist_sq(p, r.position) < (r.radius + ANT_HALF_WIDTH) * (r.radius + ANT_HALF_WIDTH)
}

/// A body centred at `p` overlaps some rock.
pub open spec fn blocked(p: Point, rocks: Seq<Rock>) -> bool {
    exists|j: int| 0 <= j < rocks.len() && hits(p, rocks[j])
}

pub open spec fn clamp_bound(v: int) -> int {
    if v > WORLD_BOUND { WORLD_BOUND as int } else if v < -WORLD_BOUND { -WORLD_BOUND as int } else { v }
}

/// The position a velocity proposes after `dt` milliseconds, held within
/// `WORLD_BOUND` on each axis.
pub open spec fn proposed(pos: Point, vel: Velocity, dt: int) -> Point {
    Point {
        x: clamp_bound(pos.x + (vel.x * dt) / 1000) as i64,
        y: clamp_bound(pos.y + (vel.y * dt) / 1000) as i64,
    }
}

/// The position a velocity proposes after `dt` milliseconds, before the
/// world bound is applied.
pub open spec fn unbounded(pos: Point, vel: Velocity, dt: int) -> Point {
    Point { x: (pos.x + (vel.x * dt) / 1000) as i64, y: (pos.y + (vel.y * dt) / 1000) as i64 }
}

/// Where a move from `pos` ends: the proposed position, or `pos` itself
/// when the step, before or after the world bound is applied, would
/// overlap a rock.
pub open spec fn resolved(pos: Point, vel: Velocity, dt: int, rocks: Seq<Rock>) -> Point {
    if blocked(unbounded(pos, vel, dt), rocks) || blocked(proposed(pos, vel, dt), rocks) {
        pos
    } else {
        proposed(pos, vel, dt)
    }
}

/// Within twice the coordinate bound.
pub open spec fn near_bounds(p: Point) -> bool {
    -2_000_000_000 <= p.x <= 2_000_000_000 && -2_000_000_000 <= p.y <= 2_000_000_000
}

/// Whether a body centred at `p` overlaps any of `rocks`.
pub fn collides(p: Point, rocks: &Vec<Rock>) -> (r: bool)
    requires
        near_bounds(p),
        rocks_ok(rocks@),
    ensures
        r == blocked(p, rocks@),
{
    let mut j: usize = 0;
    while j < rocks.len()
        invariant
            near_bounds(p),
            rocks_ok(rocks@),
            j <= rocks.len(),
            forall|k: int| 0 <= k < j ==> !hits(p, rocks@[k]),
        decreases rocks.len() - j,
    {
        let rock = rocks[j];
        assert(rock_ok(rocks@[j as int]));
        let reach = rock.radius + ANT_HALF_WIDTH;
        let dx = p.x as i128 - rock.position.x as i128;
        let dy = p.y as i128 - rock.position.y as i128;
        assert(0 <= dx * dx <= 9_000_000_000_000_000_000) by (nonlinear_arith)
            requires -3_000_000_000 <= dx <= 3_000_000_000;
        assert(0 <= dy * dy <= 9_000_000_000_000_000_000) by (nonlinear_arith)
            requires -3_000_000_000 <= dy <= 3_000_000_000;
        let d = dx * dx + dy * dy;
        assert(reach * reach <= (MAX_ROCK_RADIUS + ANT_HALF_WIDTH) * (MAX_ROCK_RADIUS + ANT_HALF_WIDTH))
            by (nonlinear_arith)
            requires 0 <= reach <= MAX_ROCK_RADIUS + ANT_HALF_WIDTH;
        if d < (reach as i128) * (reach as i128) {
            return true;
        }
        j = j + 1;
    }
    false
}

fn clamp_coord(v: i64) -> (r: i64)
    ensures
        r == clamp_bound(v as int),
{
    if v > WORLD_BOUND { WORLD_BOUND } else if v < -WORLD_BOUND { -WORLD_BOUND } else { v }
}

/// Moves from `pos` by `vel` over `dt_ms` milliseconds, within the world
/// bound; the step is refused, and `pos` kept, when it would end inside
/// `radius + ANT_HALF_WIDTH` of a rock's centre, before or after the bound
/// is applied.
pub fn resolve_move(pos: Point, vel: Velocity, dt_ms: u32, rocks: &Vec<Rock>) -> (r: Point)
    requires
        in_bounds(pos),
        velocity_ok(vel),
        dt_ms <= MAX_TICK_MS,
        rocks_ok(rocks@),
    ensures
        r == resolved(pos, vel, dt_ms as int, rocks@),
        in_bounds(r),
        !blocked(pos, rocks@) ==> !blocked(r, rocks@),
{
    let dt = dt_ms as i64;
    assert(-MAX_SPEED * 60_000 <= vel.x * dt <= MAX_SPEED * 60_000) by (nonlinear_arith)
        requires -MAX_SPEED <= vel.x <= MAX_SPEED, 0 <= dt <= 60_000;
    assert(-MAX_SPEED * 60_000 <= vel.y * dt <= MAX_SPEED * 60_000) by (nonlinear_arith)
        requires -MAX_SPEED <= vel.y <= MAX_SPEED, 0 <= dt <= 60_000;
    let dx = floor_div(vel.x * dt, 1000);
    let dy = floor_div(vel.y * dt, 1000);
    let raw = Point { x: pos.x + dx, y: pos.y + dy };
    let next = Point { x: clamp_coord(pos.x + dx), y: clamp_coord(pos.y + dy) };
    if collides(raw, rocks) || collides(next, rocks) {
        pos
    } else {
        next
    }
}

/// Moves every agent by its velocity over `dt_ms`, refusing steps into rocks.
pub fn movement_system(agents: &mut Vec<Agent>, rocks: &Vec<Rock>, dt_ms: u32)
    requires
        forall|i: int| 0 <= i < old(agents)@.len() ==> in_bounds(#[trigger] old(agents)@[i].position)
            && velocity_ok(old(agents)@[i].velocity),
        dt_ms <= MAX_TICK_MS,
        rocks_ok(rocks@),
    ensures
        final(agents)@.len() == old(agents)@.len(),
        forall|i: int|
            0 <= i < final(agents)@.len() ==> #[trigger] final(agents)@[i] == (Agent {
                position: resolved(old(agents)@[i].position, old(agents)@[i].velocity, dt_ms as int, rocks@),
                ..old(agents)@[i]
            }),
        forall|i: int|
            0 <= i < final(agents)@.len() ==> in_bounds(#[trigger] final(agents)@[i].position),
        forall|i: int|
            0 <= i < final(agents)@.len() && !blocked(old(agents)@[i].position, rocks@) ==> !blocked(
                #[trigger] final(agents)@[i].position,
                rocks@,
            ),
{
    let ghost start = agents@;
    let mut i: usize = 0;
    while i < agents.len()
        invariant
            agents@.len() == start.len(),
            i <= agents@.len(),
            forall|k: int| 0 <= k < start.len() ==> in_bounds(#[trigger] start[k].position)
                && velocity_ok(start[k].velocity),
            dt_ms <= MAX_TICK_MS,
            rocks_ok(rocks@),
            forall|k: int|
                0 <= k < i ==> #[trigger] agents@[k] == (Agent {
                    position: resolved(start[k].position, start[k].velocity, dt_ms as int, rocks@),
                    ..start[k]
                }),
            forall|k: int| 0 <= k < i ==> in_bounds(#[trigger] agents@[k].position),
            forall|k: int|
                0 <= k < i && !blocked(start[k].position, rocks@) ==> !blocked(
                    #[trigger] agents@[k].position,
                    rocks@,
                ),
            forall|k: int| i <= k < agents@.len() ==> #[trigger] agents@[k] == start[k],
        decreases agents@.len() - i,
    {
        let mut a = agents[i];
        assert(a == start[i as int]);
        a.position = resolve_move(a.position, a.velocity, dt_ms, rocks);
        agents.set(i, a);
        i = i + 1;
    }
}

} // verus!
