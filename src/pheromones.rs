use vstd::prelude::*;
use crate::geometry::{ahead, in_bounds, step_ahead, Point, HEADINGS, UNIT};

verus! {

/// No cell holds more than this; deposits beyond it saturate.
pub const LEVEL_CAP: u64 = 1_099_511_627_776;

/// One unit of concentration, in field units.
pub const LEVEL_ONE: u64 = 1_000_000;

/// Rates (evaporation, diffusion) are given in parts of `RATE_ONE`.
pub const RATE_ONE: u64 = 1_000_000;

/// Largest side of the grid, in cells.
pub const MAX_SIDE: usize = 16384;

/// Reach of the three-point gradient probe, in sub-units (30 world units).
pub const GRADIENT_REACH: i64 = 30 * UNIT;

/// Distance, in world units, of the eight-way directional scan.
pub const SENSE_DISTANCE: i64 = 25;

/// The three independent chemical channels.
#[derive(Clone, Copy, Debug, PartialEq, Eq, Structural)]
pub enum PheromoneType {
    Food,
    Nest,
    Alarm,
}

/// A width x height grid of cells over a square world centred on the origin,
/// one world unit per cell, with three channels of concentrations.
pub struct PheromoneGrid {
    pub width: usize,
    pub height: usize,
    pub food_trail: Vec<u64>,
    pub nest_trail: Vec<u64>,
    pub alarm: Vec<u64>,
    pub food_trail_buffer: Vec<u64>,
    pub nest_trail_buffer: Vec<u64>,
    pub alarm_buffer: Vec<u64>,
}

/// The mathematical content of a grid: its size and its three channels.
pub ghost struct GridView {
    pub width: int,
    pub height: int,
    pub food: Seq<u64>,
    pub nest: Seq<u64>,
    pub alarm: Seq<u64>,
}

impl View for PheromoneGrid {
    type V = GridView;

    open spec fn view(&self) -> GridView {
        GridView {
            width: self.width as int,
            height: self.height as int,
            food: self.food_trail@,
            nest: self.nest_trail@,
            alarm: self.alarm@,
        }
    }
}

/// Every value of the channel is at most `LEVEL_CAP`.
pub open spec fn capped(s: Seq<u64>) -> bool {
    forall|i: int| 0 <= i < s.len() ==> s[i] <= LEVEL_CAP
}

/// `a + b`, saturated at `LEVEL_CAP`.
pub open spec fn cap_add(a: int, b: int) -> int {
    if a + b > LEVEL_CAP { LEVEL_CAP as int } else { a + b }
}

impl GridView {
    /// Positive sides within `MAX_SIDE`, channels of `width * height` cells,
    /// every value within the cap.
    pub open spec fn wf(self) -> bool {
        &&& 0 < self.width <= MAX_SIDE
        &&& 0 < self.height <= MAX_SIDE
        &&& self.food.len() == self.width * self.height
        &&& self.nest.len() == self.width * self.height
        &&& self.alarm.len() == self.width * self.height
        &&& capped(self.food)
        &&& capped(self.nest)
        &&& capped(self.alarm)
    }

    pub open spec fn channel(self, c: PheromoneType) -> Seq<u64> {
        match c {
            PheromoneType::Food => self.food,
            PheromoneType::Nest => self.nest,
            PheromoneType::Alarm => self.alarm,
        }
    }

    /// The same grid with channel `c` replaced by `s`.
    pub open spec fn with_channel(self, c: PheromoneType, s: Seq<u64>) -> GridView {
        match c {
            PheromoneType::Food => GridView { food: s, ..self },
            PheromoneType::Nest => GridView { nest: s, ..self },
            PheromoneType::Alarm => GridView { alarm: s, ..self },
        }
    }

    /// The column of the cell that holds sub-unit coordinate `x`.
    pub open spec fn column(self, x: int) -> int {
        (x + (self.width / 2) * UNIT) / (UNIT as int)
    }

    /// The row of the cell that holds sub-unit coordinate `y`.
    pub open spec fn row(self, y: int) -> int {
        (y + (self.height / 2) * UNIT) / (UNIT as int)
    }

    pub open spec fn in_grid(self, gx: int, gy: int) -> bool {
        0 <= gx < self.width && 0 <= gy < self.height
    }

    /// The index of the cell holding point (x, y), or none off the grid.
    pub open spec fn cell_of(self, x: int, y: int) -> Option<int> {
        if self.in_grid(self.column(x), self.row(y)) {
            Some(self.row(y) * self.width + self.column(x))
        } else {
            None
        }
    }

    /// What one cell of channel `c` reads: its value, or 0 off the grid.
    pub open spec fn reading(self, c: PheromoneType, gx: int, gy: int) -> int {
        if self.in_grid(gx, gy) { self.channel(c)[gy * self.width + gx] as int } else { 0 }
    }

    pub open spec fn present(self, gx: int, gy: int) -> int {
        if self.in_grid(gx, gy) { 1 } else { 0 }
    }

    /// Sum of the readings of the 3x3 window centred on (gx, gy).
    pub open spec fn window_sum(self, c: PheromoneType, gx: int, gy: int) -> int {
        self.reading(c, gx - 1, gy - 1) + self.reading(c, gx, gy - 1) + self.reading(c, gx + 1, gy - 1)
            + self.reading(c, gx - 1, gy) + self.reading(c, gx, gy) + self.reading(c, gx + 1, gy)
            + self.reading(c, gx - 1, gy + 1) + self.reading(c, gx, gy + 1) + self.reading(c, gx + 1, gy + 1)
    }

    /// Number of the cells of the 3x3 window centred on (gx, gy) that are on the grid.
    pub open spec fn window_count(self, gx: int, gy: int) -> int {
        self.present(gx - 1, gy - 1) + self.present(gx, gy - 1) + self.present(gx + 1, gy - 1)
            + self.present(gx - 1, gy) + self.present(gx, gy) + self.present(gx + 1, gy)
            + self.present(gx - 1, gy + 1) + self.present(gx, gy + 1) + self.present(gx + 1, gy + 1)
    }

    /// The value of the cell that holds (x, y), or 0 off the grid.
    pub open spec fn sample_at(self, c: PheromoneType, x: int, y: int) -> int {
        self.reading(c, self.column(x), self.row(y))
    }

    /// The mean over the 3x3 window around the point `dist` units from
    /// (x, y) along heading `h`, rounded down; 0 where that point is off the grid.
    pub open spec fn sample_directional(self, c: PheromoneType, p: Point, h: int, dist: int) -> int {
        let q = ahead(p, h, dist);
        let gx = self.column(q.0);
        let gy = self.row(q.1);
        if self.in_grid(gx, gy) { self.window_sum(c, gx, gy) / self.window_count(gx, gy) } else { 0 }
    }

    /// The reading of the cell holding (sx, sy), or of the cell holding
    /// (x, y) where (sx, sy) is off the grid.
    pub open spec fn side_reading(self, c: PheromoneType, x: int, y: int, sx: int, sy: int) -> int {
        match self.cell_of(sx, sy) {
            Some(i) => self.channel(c)[i] as int,
            None => self.channel(c)[self.cell_of(x, y)->0] as int,
        }
    }

    /// The grid after one update: evaporation, then diffusion, on each channel.
    pub open spec fn update(self, evap: (int, int, int), diff: (int, int, int)) -> GridView {
        GridView {
            food: updated_channel(self.food, self.width, self.height, evap.0, diff.0),
            nest: updated_channel(self.nest, self.width, self.height, evap.1, diff.1),
            alarm: updated_channel(self.alarm, self.width, self.height, evap.2, diff.2),
            ..self
        }
    }

    /// Channel `c` after adding `amount` to the cell holding (x, y).
    pub open spec fn deposit(self, c: PheromoneType, x: int, y: int, amount: int) -> GridView {
        match self.cell_of(x, y) {
            Some(i) => self.with_channel(
                c,
                self.channel(c).update(i, cap_add(self.channel(c)[i] as int, amount) as u64),
            ),
            None => self,
        }
    }
}

impl PheromoneGrid {
    /// Well-formed: positive sides, every channel and buffer of `width * height`
    /// cells, every value within the cap.
    pub open spec fn wf(&self) -> bool {
        &&& self@.wf()
        &&& self.food_trail_buffer@.len() == self.width * self.height
        &&& self.nest_trail_buffer@.len() == self.width * self.height
        &&& self.alarm_buffer@.len() == self.width * self.height
    }

    /// An empty grid of `width` x `height` cells.
    pub fn new(width: usize, height: usize) -> (r: PheromoneGrid)
        requires
            0 < width <= MAX_SIDE,
            0 < height <= MAX_SIDE,
        ensures
            r.wf(),
            r.width == width,
            r.height == height,
            r@.food == Seq::new((width * height) as nat, |i: int| 0u64),
            r@.nest == Seq::new((width * height) as nat, |i: int| 0u64),
            r@.alarm == Seq::new((width * height) as nat, |i: int| 0u64),
    {
        assert(width * height <= MAX_SIDE * MAX_SIDE) by (nonlinear_arith)
            requires 0 < width <= MAX_SIDE, 0 < height <= MAX_SIDE;
        let size = width * height;
        PheromoneGrid {
            width,
            height,
            food_trail: zeros(size),
            nest_trail: zeros(size),
            alarm: zeros(size),
            food_trail_buffer: zeros(size),
            nest_trail_buffer: zeros(size),
            alarm_buffer: zeros(size),
        }
    }

    /// Index of the cell holding the point (x, y) in sub-units, or `None`
    /// off the grid.
    pub fn world_to_grid(&self, x: i64, y: i64) -> (r: Option<usize>)
        requires
            self.wf(),
        ensures
            match r {
                Some(i) => self@.cell_of(x as int, y as int) == Some(i as int),
                None => self@.cell_of(x as int, y as int) is None,
            },
            r matches Some(i) ==> i < self.width * self.height,
    {
        let hw = (self.width / 2) as i64;
        let hh = (self.height / 2) as i64;
        let w = self.width as i64;
        let h = self.height as i64;
        if x < -(hw * UNIT) || x >= (w - hw) * UNIT || y < -(hh * UNIT) || y >= (h - hh) * UNIT {
            assert(!self@.in_grid(self@.column(x as int), self@.row(y as int)));
            None
        } else {
            let gx = ((x + hw * UNIT) / UNIT) as usize;
            let gy = ((y + hh * UNIT) / UNIT) as usize;
            assert(gy * self.width + gx < self.width * self.height <= MAX_SIDE * MAX_SIDE) by (nonlinear_arith)
                requires gx < self.width, gy < self.height, self.width <= MAX_SIDE, self.height <= MAX_SIDE;
            Some(gy * self.width + gx)
        }
    }

    /// Adds `amount` to channel `c` of the cell holding (x, y), saturating
    /// at `LEVEL_CAP`; nothing happens off the grid.
    pub fn deposit(&mut self, x: i64, y: i64, pheromone_type: PheromoneType, amount: u64)
        requires
            old(self).wf(),
        ensures
            final(self).wf(),
            final(self)@ == old(self)@.deposit(pheromone_type, x as int, y as int, amount as int),
    {
        if let Some(idx) = self.world_to_grid(x, y) {
            match pheromone_type {
                PheromoneType::Food => {
                    let v = add_capped(self.food_trail[idx], amount);
                    self.food_trail.set(idx, v);
                },
                PheromoneType::Nest => {
                    let v = add_capped(self.nest_trail[idx], amount);
                    self.nest_trail.set(idx, v);
                },
                PheromoneType::Alarm => {
                    let v = add_capped(self.alarm[idx], amount);
                    self.alarm.set(idx, v);
                },
            }
        }
    }

    /// The value of channel `c` in the cell holding (x, y), 0 off the grid.
    pub fn sample_at(&self, x: i64, y: i64, pheromone_type: PheromoneType) -> (r: u64)
        requires
            self.wf(),
        ensures
            r == self@.sample_at(pheromone_type, x as int, y as int),
            r <= LEVEL_CAP,
    {
        match self.world_to_grid(x, y) {
            Some(idx) => self.value(idx, pheromone_type),
            None => 0,
        }
    }

    /// Evaporates every cell of each channel by its rate, then diffuses the
    /// interior cells toward their 9-cell mean, read from a snapshot taken
    /// after evaporation. Rates are in parts of `RATE_ONE`.
    pub fn update(&mut self, evap_rates: (u64, u64, u64), diff_rates: (u64, u64, u64))
        requires
            old(self).wf(),
            evap_rates.0 <= RATE_ONE,
            evap_rates.1 <= RATE_ONE,
            evap_rates.2 <= RATE_ONE,
            diff_rates.0 <= RATE_ONE,
            diff_rates.1 <= RATE_ONE,
            diff_rates.2 <= RATE_ONE,
        ensures
            final(self).wf(),
            final(self)@ == old(self)@.update(
                (evap_rates.0 as int, evap_rates.1 as int, evap_rates.2 as int),
                (diff_rates.0 as int, diff_rates.1 as int, diff_rates.2 as int),
            ),
    {
        let w = self.width;
        let h = self.height;
        update_channel(&mut self.food_trail, &mut self.food_trail_buffer, w, h, evap_rates.0, diff_rates.0);
        update_channel(&mut self.nest_trail, &mut self.nest_trail_buffer, w, h, evap_rates.1, diff_rates.1);
        update_channel(&mut self.alarm, &mut self.alarm_buffer, w, h, evap_rates.2, diff_rates.2);
    }

    /// Point readings of channel `c` 30 units left of, above, and right of
    /// (x, y); a reading off the grid falls back to the cell of (x, y), and
    /// all three are 0 where (x, y) itself is off the grid.
    pub fn sample_gradient(&self, x: i64, y: i64, pheromone_type: PheromoneType) -> (r: (u64, u64, u64))
        requires
            self.wf(),
            in_bounds(Point { x, y }),
        ensures
            self@.cell_of(x as int, y as int) is None ==> r == (0u64, 0u64, 0u64),
            self@.cell_of(x as int, y as int) is Some ==> {
                &&& r.0 == self@.side_reading(pheromone_type, x as int, y as int, x - GRADIENT_REACH, y as int)
                &&& r.1 == self@.side_reading(pheromone_type, x as int, y as int, x as int, y + GRADIENT_REACH)
                &&& r.2 == self@.side_reading(pheromone_type, x as int, y as int, x + GRADIENT_REACH, y as int)
            },
    {
        match self.world_to_grid(x, y) {
            None => (0, 0, 0),
            Some(center) => {
                let c = pheromone_type;
                let left = match self.world_to_grid(x - GRADIENT_REACH, y) { Some(i) => i, None => center };
                let front = match self.world_to_grid(x, y + GRADIENT_REACH) { Some(i) => i, None => center };
                let right = match self.world_to_grid(x + GRADIENT_REACH, y) { Some(i) => i, None => center };
                (self.value(left, c), self.value(front, c), self.value(right, c))
            },
        }
    }

    /// The mean of channel `c` over the 3x3 window of cells around the point
    /// `distance` world units from (x, y) along heading `direction`, rounded
    /// down; 0 where that point is off the grid.
    pub fn sample_directional(
        &self,
        x: i64,
        y: i64,
        direction: u8,
        distance: i64,
        pheromone_type: PheromoneType,
    ) -> (r: u64)
        requires
            self.wf(),
            in_bounds(Point { x, y }),
            direction < HEADINGS,
            0 <= distance <= 100_000,
        ensures
            r == self@.sample_directional(pheromone_type, Point { x, y }, direction as int, distance as int),
            r <= LEVEL_CAP,
    {
        let q = step_ahead(Point { x, y }, direction, distance);
        match self.world_to_grid(q.x, q.y) {
            None => 0,
            Some(_) => {
                let gx = (q.x + (self.width / 2) as i64 * UNIT) / UNIT;
                let gy = (q.y + (self.height / 2) as i64 * UNIT) / UNIT;
                let c = pheromone_type;
                let (v0, n0) = self.cell_reading(gx - 1, gy - 1, c);
                let (v1, n1) = self.cell_reading(gx, gy - 1, c);
                let (v2, n2) = self.cell_reading(gx + 1, gy - 1, c);
                let (v3, n3) = self.cell_reading(gx - 1, gy, c);
                let (v4, n4) = self.cell_reading(gx, gy, c);
                let (v5, n5) = self.cell_reading(gx + 1, gy, c);
                let (v6, n6) = self.cell_reading(gx - 1, gy + 1, c);
                let (v7, n7) = self.cell_reading(gx, gy + 1, c);
                let (v8, n8) = self.cell_reading(gx + 1, gy + 1, c);
                let total = v0 + v1 + v2 + v3 + v4 + v5 + v6 + v7 + v8;
                let count = n0 + n1 + n2 + n3 + n4 + n5 + n6 + n7 + n8;
                assert(total <= 9 * LEVEL_CAP);
                assert(total / count <= total) by (nonlinear_arith)
                    requires count >= 1, total >= 0;
                assert(total / count <= LEVEL_CAP) by (nonlinear_arith)
                    requires count >= 1, total >= 0, total <= count * LEVEL_CAP;
                total / count
            },
        }
    }

    /// Directional samples of channel `c` at `SENSE_DISTANCE` along the eight
    /// compass headings 0, 45, ..., 315 degrees (headings 0, 2, ..., 14).
    pub fn sample_all_directions(&self, x: i64, y: i64, pheromone_type: PheromoneType) -> (r: [u64; 8])
        requires
            self.wf(),
            in_bounds(Point { x, y }),
        ensures
            forall|i: int|
                0 <= i < 8 ==> r@[i] == self@.sample_directional(
                    pheromone_type,
                    Point { x, y },
                    2 * i,
                    SENSE_DISTANCE as int,
                ),
    {
        let mut samples = [0u64; 8];
        let mut i: usize = 0;
        while i < 8
            invariant
                self.wf(),
                in_bounds(Point { x, y }),
                i <= 8,
                forall|j: int|
                    0 <= j < i ==> samples@[j] == self@.sample_directional(
                        pheromone_type,
                        Point { x, y },
                        2 * j,
                        SENSE_DISTANCE as int,
                    ),
            decreases 8 - i,
        {
            samples[i] = self.sample_directional(x, y, (2 * i) as u8, SENSE_DISTANCE, pheromone_type);
            i = i + 1;
        }
        samples
    }

    /// The reading of cell (gx, gy) of channel `c` and whether it is on the grid.
    fn cell_reading(&self, gx: i64, gy: i64, c: PheromoneType) -> (r: (u64, u64))
        requires
            self.wf(),
        ensures
            r.0 == self@.reading(c, gx as int, gy as int),
            r.1 == self@.present(gx as int, gy as int),
            r.0 <= LEVEL_CAP,
    {
        if gx >= 0 && gy >= 0 && gx < self.width as i64 && gy < self.height as i64 {
            let ux = gx as usize;
            let uy = gy as usize;
            assert(uy * self.width + ux < self.width * self.height <= MAX_SIDE * MAX_SIDE) by (nonlinear_arith)
                requires ux < self.width, uy < self.height, self.width <= MAX_SIDE, self.height <= MAX_SIDE;
            (self.value(uy * self.width + ux, c), 1)
        } else {
            (0, 0)
        }
    }

    fn value(&self, idx: usize, c: PheromoneType) -> (r: u64)
        requires
            self.wf(),
            idx < self.width * self.height,
        ensures
            r == self@.channel(c)[idx as int],
            r <= LEVEL_CAP,
    {
        match c {
            PheromoneType::Food => self.food_trail[idx],
            PheromoneType::Nest => self.nest_trail[idx],
            PheromoneType::Alarm => self.alarm[idx],
        }
    }
}

/// `v` after one evaporation step at rate `e` (in parts of `RATE_ONE`), rounded down.
pub open spec fn evaporated(v: int, e: int) -> int {
    v * (RATE_ONE - e) / (RATE_ONE as int)
}

pub open spec fn evaporate_all(s: Seq<u64>, e: int) -> Seq<u64> {
    Seq::new(s.len(), |i: int| evaporated(s[i] as int, e) as u64)
}

/// Cell `i` of a `w`-wide, `h`-high grid is not on the outermost ring.
pub open spec fn interior(w: int, h: int, i: int) -> bool {
    1 <= i % w < w - 1 && 1 <= i / w < h - 1
}

/// Sum of the 3x3 window centred on the interior cell `i` of a `w`-wide grid.
pub open spec fn nine_sum(s: Seq<u64>, w: int, i: int) -> int {
    s[i - w - 1] + s[i - w] + s[i - w + 1] + s[i - 1] + s[i] + s[i + 1] + s[i + w - 1] + s[i + w]
        + s[i + w + 1]
}

/// `v` blended with `avg` at weight `d` (in parts of `RATE_ONE`), rounded down.
pub open spec fn blend(v: int, avg: int, d: int) -> int {
    (v * (RATE_ONE - d) + avg * d) / (RATE_ONE as int)
}

/// Cell `i` after diffusion reads snapshot `s`: interior cells blend with
/// their 9-cell mean, the outer ring stays.
pub open spec fn diffused(s: Seq<u64>, w: int, h: int, d: int, i: int) -> int {
    if interior(w, h, i) { blend(s[i] as int, nine_sum(s, w, i) / 9, d) } else { s[i] as int }
}

pub open spec fn diffuse_all(s: Seq<u64>, w: int, h: int, d: int) -> Seq<u64> {
    Seq::new(s.len(), |i: int| diffused(s, w, h, d, i) as u64)
}

/// One channel after evaporation at `e` and then diffusion at `d`.
pub open spec fn updated_channel(s: Seq<u64>, w: int, h: int, e: int, d: int) -> Seq<u64> {
    diffuse_all(evaporate_all(s, e), w, h, d)
}

proof fn lemma_evaporated_bound(v: int, e: int)
    requires
        0 <= v <= LEVEL_CAP,
        0 <= e <= RATE_ONE,
    ensures
        0 <= evaporated(v, e) <= v,
{
    assert(0 <= v * (RATE_ONE - e) <= v * RATE_ONE) by (nonlinear_arith)
        requires 0 <= v, 0 <= e <= RATE_ONE;
    assert(v * (RATE_ONE - e) / (RATE_ONE as int) <= v * RATE_ONE / (RATE_ONE as int)) by (nonlinear_arith)
        requires 0 <= v * (RATE_ONE - e) <= v * RATE_ONE;
    assert(v * RATE_ONE / (RATE_ONE as int) == v) by (nonlinear_arith);
}

proof fn lemma_blend_bound(v: int, a: int, d: int)
    requires
        0 <= v <= LEVEL_CAP,
        0 <= a <= LEVEL_CAP,
        0 <= d <= RATE_ONE,
    ensures
        0 <= blend(v, a, d) <= LEVEL_CAP,
{
    assert(0 <= v * (RATE_ONE - d) + a * d <= LEVEL_CAP * RATE_ONE) by (nonlinear_arith)
        requires 0 <= v <= LEVEL_CAP, 0 <= a <= LEVEL_CAP, 0 <= d <= RATE_ONE;
    assert((v * (RATE_ONE - d) + a * d) / (RATE_ONE as int) <= LEVEL_CAP * RATE_ONE / (RATE_ONE as int))
        by (nonlinear_arith)
        requires 0 <= v * (RATE_ONE - d) + a * d <= LEVEL_CAP * RATE_ONE;
}

/// Evaporates `cur` at rate `evap`, snapshots it into `buf`, then diffuses
/// the interior cells of `cur` at rate `diff`, reading the snapshot only.
fn update_channel(cur: &mut Vec<u64>, buf: &mut Vec<u64>, w: usize, h: usize, evap: u64, diff: u64)
    requires
        0 < w <= MAX_SIDE,
        0 < h <= MAX_SIDE,
        old(cur)@.len() == w * h,
        old(buf)@.len() == w * h,
        capped(old(cur)@),
        evap <= RATE_ONE,
        diff <= RATE_ONE,
    ensures
        final(cur)@ == updated_channel(old(cur)@, w as int, h as int, evap as int, diff as int),
        final(buf)@.len() == w * h,
        capped(final(cur)@),
{
    let n = cur.len();
    let ghost start = cur@;
    let mut i: usize = 0;
    while i < n
        invariant
            n == start.len(),
            cur@.len() == n,
            capped(start),
            evap <= RATE_ONE,
            i <= n,
            forall|j: int| 0 <= j < i ==> cur@[j] == evaporated(start[j] as int, evap as int),
            forall|j: int| i <= j < n ==> cur@[j] == start[j],
        decreases n - i,
    {
        let v = cur[i];
        assert(v == start[i as int] && start[i as int] <= LEVEL_CAP);
        proof {
            lemma_evaporated_bound(v as int, evap as int);
        }
        assert(v * (RATE_ONE - evap) <= LEVEL_CAP * RATE_ONE) by (nonlinear_arith)
            requires v <= LEVEL_CAP, evap <= RATE_ONE;
        cur.set(i, v * (RATE_ONE - evap) / RATE_ONE);
        i = i + 1;
    }
    let ghost snap = cur@;
    assert(snap =~= evaporate_all(start, evap as int));
    assert(capped(snap)) by {
        assert forall|j: int| 0 <= j < snap.len() implies snap[j] <= LEVEL_CAP by {
            lemma_evaporated_bound(start[j] as int, evap as int);
        }
    }
    i = 0;
    while i < n
        invariant
            n == snap.len(),
            cur@ == snap,
            buf@.len() == n,
            i <= n,
            forall|j: int| 0 <= j < i ==> buf@[j] == snap[j],
        decreases n - i,
    {
        buf.set(i, cur[i]);
        i = i + 1;
    }
    assert(buf@ =~= snap);
    i = 0;
    while i < n
        invariant
            0 < w <= MAX_SIDE,
            0 < h <= MAX_SIDE,
            n == w * h,
            n == snap.len(),
            buf@ == snap,
            capped(snap),
            cur@.len() == n,
            diff <= RATE_ONE,
            i <= n,
            forall|j: int| 0 <= j < i ==> cur@[j] == diffused(snap, w as int, h as int, diff as int, j),
            forall|j: int| i <= j < n ==> cur@[j] == snap[j],
        decreases n - i,
    {
        let x = i % w;
        let y = i / w;
        if x >= 1 && x + 1 < w && y >= 1 && y + 1 < h {
            proof {
                vstd::arithmetic::div_mod::lemma_fundamental_div_mod(i as int, w as int);
            }
            assert(i >= w + 1 && i + w + 1 < n) by (nonlinear_arith)
                requires
                    i == w * y + x,
                    1 <= x,
                    x + 1 < w,
                    1 <= y,
                    y + 1 < h,
                    n == w * h;
            let total = buf[i - w - 1] + buf[i - w] + buf[i - w + 1] + buf[i - 1] + buf[i] + buf[i + 1]
                + buf[i + w - 1] + buf[i + w] + buf[i + w + 1];
            let avg = total / 9;
            let v = buf[i];
            proof {
                lemma_blend_bound(v as int, avg as int, diff as int);
            }
            assert(v * (RATE_ONE - diff) <= LEVEL_CAP * RATE_ONE) by (nonlinear_arith)
                requires v <= LEVEL_CAP, diff <= RATE_ONE;
            assert(avg * diff <= LEVEL_CAP * RATE_ONE) by (nonlinear_arith)
                requires avg <= LEVEL_CAP, diff <= RATE_ONE;
            cur.set(i, (v * (RATE_ONE - diff) + avg * diff) / RATE_ONE);
        }
        i = i + 1;
    }
    assert(cur@ =~= diffuse_all(snap, w as int, h as int, diff as int));
    assert(capped(cur@)) by {
        assert forall|j: int| 0 <= j < n implies cur@[j] <= LEVEL_CAP by {
            if interior(w as int, h as int, j) {
                vstd::arithmetic::div_mod::lemma_fundamental_div_mod(j, w as int);
                assert(j >= w + 1 && j + w + 1 < n) by (nonlinear_arith)
                    requires
                        j == w * (j / w as int) + j % w as int,
                        1 <= j % w as int,
                        j % w as int + 1 < w,
                        1 <= j / w as int,
                        j / w as int + 1 < h,
                        n == w * h;
                lemma_blend_bound(snap[j] as int, nine_sum(snap, w as int, j) / 9, diff as int);
            }
        }
    }
}

/// Depositing `amount` at a point on the grid and sampling that point
/// before any update reads at least `amount`.
pub proof fn lemma_deposit_then_sample(g: GridView, c: PheromoneType, x: int, y: int, amount: int)
    requires
        g.wf(),
        0 <= amount <= LEVEL_CAP,
        g.cell_of(x, y) is Some,
    ensures
        g.deposit(c, x, y, amount).sample_at(c, x, y) >= amount,
{
    let gx = g.column(x);
    let gy = g.row(y);
    let i = gy * g.width + gx;
    assert(0 <= i < g.width * g.height) by (nonlinear_arith)
        requires 0 <= gx < g.width, 0 <= gy < g.height, i == gy * g.width + gx;
    let g2 = g.deposit(c, x, y, amount);
    assert(g2.channel(c)[i] == cap_add(g.channel(c)[i] as int, amount) as u64);
}

/// With no diffusion, one update scales every cell of every channel by
/// `1 - evap` (in parts of `RATE_ONE`, rounded down) and does nothing else.
pub proof fn lemma_evaporation_only(g: GridView, evap: (int, int, int), c: PheromoneType, i: int)
    requires
        g.wf(),
        0 <= evap.0 <= RATE_ONE,
        0 <= evap.1 <= RATE_ONE,
        0 <= evap.2 <= RATE_ONE,
        0 <= i < g.width * g.height,
    ensures
        g.update(evap, (0, 0, 0)).channel(c)[i] == g.channel(c)[i] * (RATE_ONE - rate_of(evap, c))
            / (RATE_ONE as int),
{
    let s = g.channel(c);
    let e = rate_of(evap, c);
    lemma_evaporated_bound(s[i] as int, e);
    let v = evaporated(s[i] as int, e);
    assert(blend(v, nine_sum(evaporate_all(s, e), g.width, i) / 9, 0) == v) by (nonlinear_arith)
        requires blend(v, nine_sum(evaporate_all(s, e), g.width, i) / 9, 0) == (v * RATE_ONE + (nine_sum(evaporate_all(s, e), g.width, i) / 9) * 0) / (RATE_ONE as int);
}

/// The rate of channel `c` among three rates given as (food, nest, alarm).
pub open spec fn rate_of(rates: (int, int, int), c: PheromoneType) -> int {
    match c {
        PheromoneType::Food => rates.0,
        PheromoneType::Nest => rates.1,
        PheromoneType::Alarm => rates.2,
    }
}

/// Every cell of the channel holds `v`.
pub open spec fn uniform(s: Seq<u64>, v: u64) -> bool {
    forall|i: int| 0 <= i < s.len() ==> s[i] == v
}

/// Diffusion at any rate leaves a uniform channel as it is.
pub proof fn lemma_diffusion_uniform(s: Seq<u64>, w: int, h: int, d: int, v: u64)
    requires
        0 < w,
        0 < h,
        s.len() == w * h,
        uniform(s, v),
        0 <= d <= RATE_ONE,
    ensures
        diffuse_all(s, w, h, d) == s,
{
    assert forall|i: int| 0 <= i < s.len() implies diffuse_all(s, w, h, d)[i] == s[i] by {
        if interior(w, h, i) {
            vstd::arithmetic::div_mod::lemma_fundamental_div_mod(i, w);
            assert(i >= w + 1 && i + w + 1 < s.len()) by (nonlinear_arith)
                requires
                    i == w * (i / w) + i % w,
                    1 <= i % w,
                    i % w + 1 < w,
                    1 <= i / w,
                    i / w + 1 < h,
                    s.len() == w * h;
            assert(nine_sum(s, w, i) == 9 * v);
            let vi = v as int;
            assert(blend(vi, vi, d) == vi) by (nonlinear_arith)
                requires blend(vi, vi, d) == (vi * (RATE_ONE - d) + vi * d) / (RATE_ONE as int);
        }
    }
    assert(diffuse_all(s, w, h, d) =~= s);
}

/// On a uniform channel with no evaporation, an update at any diffusion
/// rate leaves the channel unchanged.
pub proof fn lemma_uniform_steady(g: GridView, diff: (int, int, int), c: PheromoneType, v: u64)
    requires
        g.wf(),
        uniform(g.channel(c), v),
        0 <= diff.0 <= RATE_ONE,
        0 <= diff.1 <= RATE_ONE,
        0 <= diff.2 <= RATE_ONE,
    ensures
        g.update((0, 0, 0), diff).channel(c) == g.channel(c),
{
    let s = g.channel(c);
    assert forall|i: int| 0 <= i < s.len() implies evaporated(s[i] as int, 0) == s[i] by {
        let si = s[i] as int;
        assert(si * RATE_ONE / (RATE_ONE as int) == si) by (nonlinear_arith);
    }
    assert(evaporate_all(s, 0) =~= s);
    lemma_diffusion_uniform(s, g.width, g.height, rate_of(diff, c), v);
}

/// The lower-left corner, in sub-units, of the cell with index `i`.
pub open spec fn cell_corner(g: GridView, i: int) -> (int, int) {
    ((i % g.width - g.width / 2) * UNIT, (i / g.width - g.height / 2) * UNIT)
}

/// The world square covered by the grid: `[-w/2, w - w/2)` world units
/// across and likewise up, in sub-units.
pub open spec fn in_world(g: GridView, x: int, y: int) -> bool {
    &&& -(g.width / 2) * UNIT <= x < (g.width - g.width / 2) * UNIT
    &&& -(g.height / 2) * UNIT <= y < (g.height - g.height / 2) * UNIT
}

/// `world_to_grid` pairs the unit cells of the world square one to one with
/// the grid's indices: a point maps to a cell exactly when it lies in the
/// square, every index is the image of its cell's corner, and two points
/// share an index exactly when they share a unit cell.
pub proof fn lemma_world_to_grid_bijective(g: GridView, x: int, y: int, x2: int, y2: int, i: int)
    requires
        g.wf(),
    ensures
        g.cell_of(x, y) is Some <==> in_world(g, x, y),
        0 <= i < g.width * g.height ==> g.cell_of(cell_corner(g, i).0, cell_corner(g, i).1) == Some(i),
        (in_world(g, x, y) && in_world(g, x2, y2)) ==> (g.cell_of(x, y) == g.cell_of(x2, y2) <==> (x
            / UNIT as int == x2 / UNIT as int && y / UNIT as int == y2 / UNIT as int)),
{
    let w = g.width;
    let h = g.height;
    let u = UNIT as int;
    vstd::arithmetic::div_mod::lemma_hoist_over_denominator(x, w / 2, UNIT as nat);
    vstd::arithmetic::div_mod::lemma_hoist_over_denominator(y, h / 2, UNIT as nat);
    vstd::arithmetic::div_mod::lemma_hoist_over_denominator(x2, w / 2, UNIT as nat);
    vstd::arithmetic::div_mod::lemma_hoist_over_denominator(y2, h / 2, UNIT as nat);
    assert(g.column(x) == x / u + w / 2);
    assert(g.row(y) == y / u + h / 2);
    assert(g.column(x2) == x2 / u + w / 2);
    assert(g.row(y2) == y2 / u + h / 2);
    assert(g.cell_of(x, y) is Some <==> in_world(g, x, y)) by {
        assert(0 <= x / u + w / 2 < w <==> -(w / 2) * u <= x < (w - w / 2) * u) by (nonlinear_arith)
            requires u == 64, x == u * (x / u) + x % u, 0 <= x % u < u;
        assert(0 <= y / u + h / 2 < h <==> -(h / 2) * u <= y < (h - h / 2) * u) by (nonlinear_arith)
            requires u == 64, y == u * (y / u) + y % u, 0 <= y % u < u;
    }
    if 0 <= i < w * h {
        let cx = cell_corner(g, i).0;
        let cy = cell_corner(g, i).1;
        vstd::arithmetic::div_mod::lemma_fundamental_div_mod(i, w);
        assert(0 <= i / w < h) by (nonlinear_arith)
            requires 0 <= i < w * h, 0 < w, i == w * (i / w) + i % w, 0 <= i % w < w;
        vstd::arithmetic::div_mod::lemma_hoist_over_denominator(cx, w / 2, UNIT as nat);
        vstd::arithmetic::div_mod::lemma_hoist_over_denominator(cy, h / 2, UNIT as nat);
        assert(cx / u == i % w - w / 2) by (nonlinear_arith)
            requires cx == (i % w - w / 2) * u, u == 64;
        assert(cy / u == i / w - h / 2) by (nonlinear_arith)
            requires cy == (i / w - h / 2) * u, u == 64;
        assert(g.column(cx) == i % w);
        assert(g.row(cy) == i / w);
        assert((i / w) * w + i % w == i) by (nonlinear_arith)
            requires i == w * (i / w) + i % w;
    }
    if in_world(g, x, y) && in_world(g, x2, y2) {
        let a = g.column(x);
        let b = g.row(y);
        let a2 = g.column(x2);
        let b2 = g.row(y2);
        assert(0 <= a < w && 0 <= b < h && 0 <= a2 < w && 0 <= b2 < h) by (nonlinear_arith)
            requires
                u == 64,
                a == x / u + w / 2,
                b == y / u + h / 2,
                a2 == x2 / u + w / 2,
                b2 == y2 / u + h / 2,
                x == u * (x / u) + x % u, 0 <= x % u < u,
                y == u * (y / u) + y % u, 0 <= y % u < u,
                x2 == u * (x2 / u) + x2 % u, 0 <= x2 % u < u,
                y2 == u * (y2 / u) + y2 % u, 0 <= y2 % u < u,
                -(w / 2) * u <= x < (w - w / 2) * u,
                -(h / 2) * u <= y < (h - h / 2) * u,
                -(w / 2) * u <= x2 < (w - w / 2) * u,
                -(h / 2) * u <= y2 < (h - h / 2) * u;
        assert(b * w + a == b2 * w + a2 <==> (a == a2 && b == b2)) by (nonlinear_arith)
            requires 0 <= a < w, 0 <= a2 < w, 0 <= b, 0 <= b2;
    }
}

/// A directional sample never exceeds the cap.
pub proof fn lemma_directional_capped(g: GridView, c: PheromoneType, p: Point, h: int, dist: int)
    requires
        g.wf(),
    ensures
        0 <= g.sample_directional(c, p, h, dist) <= LEVEL_CAP,
{
    let q = ahead(p, h, dist);
    let gx = g.column(q.0);
    let gy = g.row(q.1);
    if g.in_grid(gx, gy) {
        assert forall|ax: int, ay: int| 0 <= #[trigger] g.reading(c, ax, ay) <= LEVEL_CAP by {
            if g.in_grid(ax, ay) {
                assert(0 <= ay * g.width + ax < g.width * g.height) by (nonlinear_arith)
                    requires 0 <= ax < g.width, 0 <= ay < g.height;
            }
        }
        let t = g.window_sum(c, gx, gy);
        let n = g.window_count(gx, gy);
        assert(1 <= n <= 9);
        assert(0 <= t <= n * LEVEL_CAP) by {
            assert(0 <= g.reading(c, gx - 1, gy - 1) <= g.present(gx - 1, gy - 1) * LEVEL_CAP);
            assert(0 <= g.reading(c, gx, gy - 1) <= g.present(gx, gy - 1) * LEVEL_CAP);
            assert(0 <= g.reading(c, gx + 1, gy - 1) <= g.present(gx + 1, gy - 1) * LEVEL_CAP);
            assert(0 <= g.reading(c, gx - 1, gy) <= g.present(gx - 1, gy) * LEVEL_CAP);
            assert(0 <= g.reading(c, gx, gy) <= g.present(gx, gy) * LEVEL_CAP);
            assert(0 <= g.reading(c, gx + 1, gy) <= g.present(gx + 1, gy) * LEVEL_CAP);
            assert(0 <= g.reading(c, gx - 1, gy + 1) <= g.present(gx - 1, gy + 1) * LEVEL_CAP);
            assert(0 <= g.reading(c, gx, gy + 1) <= g.present(gx, gy + 1) * LEVEL_CAP);
            assert(0 <= g.reading(c, gx + 1, gy + 1) <= g.present(gx + 1, gy + 1) * LEVEL_CAP);
        }
        assert(t / n <= LEVEL_CAP) by (nonlinear_arith)
            requires 0 <= t <= n * LEVEL_CAP, n >= 1;
        assert(t / n >= 0) by (nonlinear_arith)
            requires 0 <= t, n >= 1;
    }
}

fn add_capped(a: u64, b: u64) -> (r: u64)
    requires
        a <= LEVEL_CAP,
    ensures
        r == cap_add(a as int, b as int),
{
    if b >= LEVEL_CAP - a { LEVEL_CAP } else { a + b }
}

fn zeros(n: usize) -> (r: Vec<u64>)
    ensures
        r@ == Seq::new(n as nat, |i: int| 0u64),
{
    let mut r: Vec<u64> = Vec::new();
    let mut k: usize = 0;
    while k < n
        invariant
            k <= n,
            r@ == Seq::new(k as nat, |i: int| 0u64),
        decreases n - k,
    {
        r.push(0);
        k = k + 1;
        assert(r@ =~= Seq::new(k as nat, |i: int| 0u64));
    }
    r
}

} // verus!
