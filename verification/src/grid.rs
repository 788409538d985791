//! The grid itself and the stepping engine: construction from seeds, the
//! Moore-family synchronous step, and the Wolfram-family row step with its
//! scroll policies. Every public operation is specified against the model
//! in `model`.

use vstd::prelude::*;
use crate::cell::{Cell, CellState, Color, cell_wf};
use crate::coords::{idx_spec, wrap_once, lemma_xy_to_idx, lemma_idx_to_xy, xy_idx, idx_xy};
use crate::model::{
    Mode, ScrollMode, GridView, view_wf, sample_on, count_upto, live_neighbors, moore_next,
    conway_next, conway_step_view, pred_sample, recomputed_states, shifted_up, wolfram_step_view,
    step_view, pow2_of, rule_entry, rule_table_spec, seeded, initial_view,
};

verus! {

/// The one construction-time failure: a Wolfram rule number outside 0..=255.
#[derive(Clone, Copy, PartialEq, Eq, Structural, Debug)]
pub enum GridError {
    InvalidRule,
}

/// A rectangular cellular-automaton grid. The cells sit in row-major order;
/// stepping never mutates a grid, it returns the next generation as a new
/// value.
pub struct CellGrid {
    pub mode: Mode,
    pub width: usize,
    pub height: usize,
    pub cells: Vec<Cell>,
    pub wrap: bool,
    pub scroll: ScrollMode,
    pub w_line: usize,
    pub rule_table: Vec<CellState>,
    pub low_survive: u32,
    pub high_survive: u32,
    pub birth: u32,
    pub radius: u32,
}

impl View for CellGrid {
    type V = GridView;

    open spec fn view(&self) -> GridView {
        GridView {
            mode: self.mode,
            width: self.width as int,
            height: self.height as int,
            states: self.cells@.map_values(|c: Cell| c.state),
            wrap: self.wrap,
            scroll: self.scroll,
            active_row: self.w_line as int,
            rule_table: self.rule_table@,
            low_survive: self.low_survive as int,
            high_survive: self.high_survive as int,
            birth: self.birth as int,
            radius: self.radius as int,
        }
    }
}

impl CellGrid {
    /// Well-formed: the model invariants hold and every cell carries its own
    /// coordinates and the display attributes of its state.
    pub open spec fn wf(self) -> bool {
        &&& view_wf(self@)
        &&& forall|i: int|
            0 <= i < self.cells.len() ==> #[trigger] cell_wf(
                self.cells[i],
                i % (self.width as int),
                i / (self.width as int),
            )
    }
}

/// True when some seed pair equals (x, y).
fn seeds_contain(seeds: &Vec<(i32, i32)>, x: i32, y: i32) -> (b: bool)
    ensures
        b == seeded(seeds@, x as int, y as int),
{
    let mut k: usize = 0;
    while k < seeds.len()
        invariant
            k <= seeds.len(),
            forall|j: int|
                0 <= j < k ==> !((#[trigger] seeds@[j]).0 == x && seeds@[j].1 == y),
        decreases seeds.len() - k,
    {
        let (sx, sy) = seeds[k];
        if sx == x && sy == y {
            return true;
        }
        k += 1;
    }
    false
}

/// A fresh copy of a state table.
fn copy_states(t: &Vec<CellState>) -> (r: Vec<CellState>)
    ensures
        r@ == t@,
{
    let mut r: Vec<CellState> = Vec::new();
    let mut i: usize = 0;
    while i < t.len()
        invariant
            i <= t.len(),
            r@ == t@.subrange(0, i as int),
        decreases t.len() - i,
    {
        r.push(t[i]);
        i += 1;
        proof {
            assert(r@ =~= t@.subrange(0, i as int));
        }
    }
    proof {
        assert(r@ =~= t@);
    }
    r
}

proof fn lemma_pow2_pos(k: nat)
    ensures
        pow2_of(k) >= 1,
    decreases k,
{
    if k > 0 {
        lemma_pow2_pos((k - 1) as nat);
    }
}

/// Expands a rule number into its 8-entry table: the number rendered in
/// binary, most significant bit first, one state per bit.
fn rule_from_number(n: i32) -> (t: Vec<CellState>)
    requires
        0 <= n <= 255,
    ensures
        t@ == rule_table_spec(n as int),
{
    let mut t: Vec<CellState> = Vec::new();
    let mut p: i32 = 128;
    let mut i: usize = 0;
    proof {
        reveal_with_fuel(pow2_of, 9);
    }
    while i < 8
        invariant
            0 <= n <= 255,
            i <= 8,
            t.len() == i,
            i < 8 ==> p == pow2_of((7 - i) as nat),
            forall|j: int| 0 <= j < i ==> t@[j] == rule_entry(n as int, j),
        decreases 8 - i,
    {
        proof {
            lemma_pow2_pos((7 - i) as nat);
        }
        let e = if (n / p) % 2 == 1 {
            CellState::On
        } else {
            CellState::Off
        };
        t.push(e);
        i += 1;
        p = p / 2;
        proof {
            if i < 8 {
                assert(pow2_of((8 - i) as nat) == 2 * pow2_of((7 - i) as nat));
            }
        }
    }
    proof {
        assert(t@ =~= rule_table_spec(n as int));
    }
    t
}

/// The ordered offset list of the square window of the given radius: the
/// (2r+1)^2 relative positions in row-major order, the center included at
/// its place in the order.
pub fn moore_offsets(radius: u32) -> (offs: Vec<(i32, i32)>)
    requires
        2 * radius + 1 <= i32::MAX,
        (2 * radius + 1) * (2 * radius + 1) <= usize::MAX,
    ensures
        offs@.len() == (2 * radius + 1) * (2 * radius + 1),
        forall|j: int|
            0 <= j < offs@.len() ==> (#[trigger] offs@[j]).0 == j / (2 * radius + 1) - radius
                && offs@[j].1 == j % (2 * radius + 1) - radius,
{
    let side: usize = 2 * (radius as usize) + 1;
    let r = radius as i32;
    let mut offs: Vec<(i32, i32)> = Vec::new();
    let mut du: usize = 0;
    while du < side
        invariant
            side == 2 * radius + 1,
            side <= i32::MAX,
            r == radius,
            side * side <= usize::MAX,
            du <= side,
            offs@.len() == du * side,
            forall|j: int|
                0 <= j < offs@.len() ==> (#[trigger] offs@[j]).0 == j / (side as int) - radius
                    && offs@[j].1 == j % (side as int) - radius,
        decreases side - du,
    {
        let mut dv: usize = 0;
        proof {
            assert(du * side + side <= side * side) by (nonlinear_arith)
                requires du < side;
        }
        while dv < side
            invariant
                side == 2 * radius + 1,
                side <= i32::MAX,
                r == radius,
                side * side <= usize::MAX,
                du < side,
                dv <= side,
                du * side + side <= side * side,
                offs@.len() == du * side + dv,
                forall|j: int|
                    0 <= j < offs@.len() ==> (#[trigger] offs@[j]).0 == j / (side as int) - radius
                        && offs@[j].1 == j % (side as int) - radius,
            decreases side - dv,
        {
            proof {
                lemma_xy_to_idx(dv as int, du as int, side as int, side as int);
            }
            offs.push(((du as i32) - r, (dv as i32) - r));
            dv += 1;
        }
        proof {
            assert((du + 1) * side == du * side + side) by (nonlinear_arith);
        }
        du += 1;
    }
    proof {
        assert(side * side == (2 * radius + 1) * (2 * radius + 1)) by (nonlinear_arith)
            requires side == 2 * radius + 1;
    }
    offs
}

impl CellGrid {
    /// Reads the state at (cx, cy) as 0 or 1 under the grid's boundary
    /// policy: wrapped once on both axes, or 0 when out of range.
    fn sample(&self, cx: i32, cy: i32) -> (b: u64)
        requires
            self.wf(),
            self@.wrap ==> -self@.width <= cx < 2 * self@.width && -self@.height <= cy < 2
                * self@.height,
        ensures
            b == sample_on(self@, cx as int, cy as int),
            b <= 1,
    {
        if self.wrap {
            let w = self.width as i32;
            let h = self.height as i32;
            let x = if cx < 0 {
                cx + w
            } else if cx >= w {
                cx - w
            } else {
                cx
            };
            let y = if cy < 0 {
                cy + h
            } else if cy >= h {
                cy - h
            } else {
                cy
            };
            proof {
                lemma_xy_to_idx(x as int, y as int, self@.width, self@.height);
            }
            let idx = xy_idx(x, y, self.width);
            match self.cells[idx].state {
                CellState::On => 1,
                CellState::Off => 0,
            }
        } else if cx >= 0 && cx < self.width as i32 && cy >= 0 && cy < self.height as i32 {
            proof {
                lemma_xy_to_idx(cx as int, cy as int, self@.width, self@.height);
            }
            let idx = xy_idx(cx, cy, self.width);
            match self.cells[idx].state {
                CellState::On => 1,
                CellState::Off => 0,
            }
        } else {
            0
        }
    }

    /// Counts the live Moore neighbors of (x, y) by walking the offset list.
    fn count_live_neighbors(&self, x: i32, y: i32, offsets: &Vec<(i32, i32)>) -> (n: u64)
        requires
            self.wf(),
            0 <= x < self@.width,
            0 <= y < self@.height,
            offsets@.len() == (2 * self@.radius + 1) * (2 * self@.radius + 1),
            forall|j: int|
                0 <= j < offsets@.len() ==> (#[trigger] offsets@[j]).0 == j / (2 * self@.radius + 1)
                    - self@.radius && offsets@[j].1 == j % (2 * self@.radius + 1) - self@.radius,
        ensures
            n == live_neighbors(self@, x as int, y as int),
    {
        let mut n: u64 = 0;
        let mut j: usize = 0;
        while j < offsets.len()
            invariant
                self.wf(),
                0 <= x < self@.width,
                0 <= y < self@.height,
                offsets@.len() == (2 * self@.radius + 1) * (2 * self@.radius + 1),
                forall|jj: int|
                    0 <= jj < offsets@.len() ==> (#[trigger] offsets@[jj]).0 == jj / (2
                        * self@.radius + 1) - self@.radius && offsets@[jj].1 == jj % (2
                        * self@.radius + 1) - self@.radius,
                j <= offsets@.len(),
                n <= j,
                n == count_upto(self@, x as int, y as int, self@.radius, j as nat),
            decreases offsets@.len() - j,
        {
            let (dx, dy) = offsets[j];
            proof {
                // the offset stays within the radius on both axes
                lemma_idx_to_xy(j as int, 2 * self@.radius + 1, 2 * self@.radius + 1);
            }
            if !(dx == 0 && dy == 0) {
                let b = self.sample(x + dx, y + dy);
                n = n + b;
            }
            j += 1;
        }
        n
    }

    /// Applies the threshold rule to a center state and its neighbor count.
    fn moore_rule(center: CellState, n: u64, low: u32, high: u32, birth: u32) -> (s: CellState)
        ensures
            s == moore_next(center, n as int, low as int, high as int, birth as int),
    {
        match center {
            CellState::On => {
                if n < low as u64 || n > high as u64 {
                    CellState::Off
                } else {
                    CellState::On
                }
            },
            CellState::Off => {
                if n == birth as u64 {
                    CellState::On
                } else {
                    CellState::Off
                }
            },
        }
    }

    /// Looks the predecessor triple up in the rule table.
    fn wolfram_rule(&self, a: u64, b: u64, c: u64) -> (s: CellState)
        requires
            self.wf(),
            a <= 1,
            b <= 1,
            c <= 1,
        ensures
            s == self@.rule_table[7 - (4 * a + 2 * b + c)],
    {
        let p = (4 * a + 2 * b + c) as usize;
        self.rule_table[7 - p]
    }

    /// Reads the predecessor sample for the active row at column cx: one row
    /// up, the x axis under the wrap flag, the y axis under the scroll policy.
    fn pred_on(&self, cx: i32) -> (b: u64)
        requires
            self.wf(),
            self@.mode is Wolfram,
            -self@.width <= cx < 2 * self@.width,
        ensures
            b == pred_sample(self@, cx as int),
            b <= 1,
    {
        let py: usize = if self.w_line == 0 {
            self.height - 1
        } else {
            self.w_line - 1
        };
        if self.wrap {
            let w = self.width as i32;
            let x = if cx < 0 {
                cx + w
            } else if cx >= w {
                cx - w
            } else {
                cx
            };
            proof {
                lemma_xy_to_idx(x as int, py as int, self@.width, self@.height);
            }
            let idx = xy_idx(x, py as i32, self.width);
            match self.cells[idx].state {
                CellState::On => 1,
                CellState::Off => 0,
            }
        } else if cx >= 0 && cx < self.width as i32 {
            proof {
                lemma_xy_to_idx(cx as int, py as int, self@.width, self@.height);
            }
            let idx = xy_idx(cx, py as i32, self.width);
            match self.cells[idx].state {
                CellState::On => 1,
                CellState::Off => 0,
            }
        } else {
            0
        }
    }

    /// Builds a grid: every cell Off except those named by a seed coordinate
    /// (out-of-range seeds match nothing), the active row at 1, the rule
    /// table decoded from the rule number, and the classic thresholds
    /// (survive on 2 or 3, birth on 3) at radius 1. Fails exactly when the
    /// rule number lies outside 0..=255.
    pub fn new(
        mode: Mode,
        width: usize,
        height: usize,
        seeds: Vec<(i32, i32)>,
        wrap: bool,
        scroll: ScrollMode,
        rule_number: i32,
    ) -> (r: Result<CellGrid, GridError>)
        requires
            1 <= width,
            1 <= height,
            width + 1 <= i32::MAX,
            height + 1 <= i32::MAX,
            width * height <= usize::MAX,
            mode is Wolfram ==> 2 <= height,
        ensures
            r is Ok <==> 0 <= rule_number <= 255,
            r is Ok ==> (r->Ok_0).wf() && (r->Ok_0)@ == initial_view(
                mode,
                width as int,
                height as int,
                seeds@,
                wrap,
                scroll,
                rule_number as int,
            ),
            r is Err ==> r->Err_0 == GridError::InvalidRule,
    {
        if rule_number < 0 || rule_number > 255 {
            return Err(GridError::InvalidRule);
        }
        let rule_table = rule_from_number(rule_number);
        let total = width * height;
        let mut cells: Vec<Cell> = Vec::new();
        let mut idx: usize = 0;
        while idx < total
            invariant
                1 <= width,
                1 <= height,
                width + 1 <= i32::MAX,
                height + 1 <= i32::MAX,
                total == width * height,
                total <= usize::MAX,
                idx <= total,
                cells.len() == idx,
                forall|j: int|
                    0 <= j < idx ==> (#[trigger] cells@[j]).state == (if seeded(
                        seeds@,
                        j % (width as int),
                        j / (width as int),
                    ) {
                        CellState::On
                    } else {
                        CellState::Off
                    }) && cell_wf(cells@[j], j % (width as int), j / (width as int)),
            decreases total - idx,
        {
            proof {
                lemma_idx_to_xy(idx as int, width as int, height as int);
            }
            let (x, y) = idx_xy(idx, width);
            let state = if seeds_contain(&seeds, x, y) {
                CellState::On
            } else {
                CellState::Off
            };
            cells.push(Cell::new(state, x, y));
            idx += 1;
        }
        let g = CellGrid {
            mode,
            width,
            height,
            cells,
            wrap,
            scroll,
            w_line: 1,
            rule_table,
            low_survive: 2,
            high_survive: 3,
            birth: 3,
            radius: 1,
        };
        proof {
            let iv = initial_view(
                mode,
                width as int,
                height as int,
                seeds@,
                wrap,
                scroll,
                rule_number as int,
            );
            assert(g@.states =~= iv.states);
            assert(g@ =~= iv);
        }
        Ok(g)
    }

    /// The next generation under the grid's rule family. The input grid is
    /// read only; the result is a fresh, equally well-formed grid whose
    /// content is the stepped model of this one.
    pub fn step(&self) -> (r: CellGrid)
        requires
            self.wf(),
        ensures
            r.wf(),
            r@ == step_view(self@),
    {
        match self.mode {
            Mode::Conway => self.conway_step(),
            Mode::Wolfram => self.wolfram_step(),
        }
    }

    /// One synchronous Moore-family generation: every cell's next state is
    /// computed from the current grid before any of it is replaced.
    fn conway_step(&self) -> (r: CellGrid)
        requires
            self.wf(),
            self@.mode is Conway,
        ensures
            r.wf(),
            r@ == conway_step_view(self@),
    {
        let offsets = moore_offsets(self.radius);
        let total = self.width * self.height;
        let mut new_cells: Vec<Cell> = Vec::new();
        let mut idx: usize = 0;
        while idx < total
            invariant
                self.wf(),
                total == self.width * self.height,
                offsets@.len() == (2 * self@.radius + 1) * (2 * self@.radius + 1),
                forall|j: int|
                    0 <= j < offsets@.len() ==> (#[trigger] offsets@[j]).0 == j / (2 * self@.radius
                        + 1) - self@.radius && offsets@[j].1 == j % (2 * self@.radius + 1)
                        - self@.radius,
                idx <= total,
                new_cells.len() == idx,
                forall|j: int|
                    0 <= j < idx ==> (#[trigger] new_cells@[j]).state == conway_next(
                        self@,
                        j % self@.width,
                        j / self@.width,
                    ) && cell_wf(new_cells@[j], j % self@.width, j / self@.width),
            decreases total - idx,
        {
            proof {
                lemma_idx_to_xy(idx as int, self@.width, self@.height);
            }
            let (x, y) = idx_xy(idx, self.width);
            let n = self.count_live_neighbors(x, y, &offsets);
            let state = Self::moore_rule(
                self.cells[idx].state,
                n,
                self.low_survive,
                self.high_survive,
                self.birth,
            );
            new_cells.push(Cell::new(state, x, y));
            idx += 1;
        }
        let r = CellGrid {
            mode: self.mode,
            width: self.width,
            height: self.height,
            cells: new_cells,
            wrap: self.wrap,
            scroll: self.scroll,
            w_line: self.w_line,
            rule_table: copy_states(&self.rule_table),
            low_survive: self.low_survive,
            high_survive: self.high_survive,
            birth: self.birth,
            radius: self.radius,
        };
        proof {
            assert(r@.states =~= conway_step_view(self@).states);
            assert(r@ =~= conway_step_view(self@));
        }
        r
    }

    /// Rebuilds a full cell buffer translated by (shift_x, shift_y), both
    /// axes wrapped once, the result again in row-major order.
    fn shift_all_cells(&self, buffer: &Vec<Cell>, shift_x: i32, shift_y: i32) -> (r: Vec<Cell>)
        requires
            self.wf(),
            buffer.len() == self.width * self.height,
            -self@.width <= shift_x <= self@.width,
            -self@.height <= shift_y <= self@.height,
        ensures
            r.len() == buffer.len(),
            forall|i: int|
                0 <= i < r.len() ==> (#[trigger] r@[i]).state == buffer@[idx_spec(
                    wrap_once(i % self@.width - shift_x, self@.width),
                    wrap_once(i / self@.width - shift_y, self@.height),
                    self@.width,
                )].state && cell_wf(r@[i], i % self@.width, i / self@.width),
    {
        let total = self.width * self.height;
        let mut r: Vec<Cell> = Vec::new();
        let mut idx: usize = 0;
        while idx < total
            invariant
                self.wf(),
                buffer.len() == total,
                total == self.width * self.height,
                -self@.width <= shift_x <= self@.width,
                -self@.height <= shift_y <= self@.height,
                idx <= total,
                r.len() == idx,
                forall|i: int|
                    0 <= i < idx ==> (#[trigger] r@[i]).state == buffer@[idx_spec(
                        wrap_once(i % self@.width - shift_x, self@.width),
                        wrap_once(i / self@.width - shift_y, self@.height),
                        self@.width,
                    )].state && cell_wf(r@[i], i % self@.width, i / self@.width),
            decreases total - idx,
        {
            proof {
                lemma_idx_to_xy(idx as int, self@.width, self@.height);
            }
            let (x, y) = idx_xy(idx, self.width);
            let w = self.width as i64;
            let h = self.height as i64;
            let tx = x as i64 - shift_x as i64;
            let ty = y as i64 - shift_y as i64;
            let sx = if tx < 0 {
                tx + w
            } else if tx >= w {
                tx - w
            } else {
                tx
            };
            let sy = if ty < 0 {
                ty + h
            } else if ty >= h {
                ty - h
            } else {
                ty
            };
            proof {
                lemma_xy_to_idx(sx as int, sy as int, self@.width, self@.height);
            }
            let src = xy_idx(sx as i32, sy as i32, self.width);
            r.push(Cell::new(buffer[src].state, x, y));
            idx += 1;
        }
        r
    }

    /// One Wolfram-family generation: recomputes the active row from the row
    /// above it, carries every other row over unchanged, then advances the
    /// active row under the scroll policy (Stop clamps it at the bottom,
    /// Loop wraps it to the top, Shift moves the whole grid up one row).
    fn wolfram_step(&self) -> (r: CellGrid)
        requires
            self.wf(),
            self@.mode is Wolfram,
        ensures
            r.wf(),
            r@ == wolfram_step_view(self@),
    {
        let total = self.width * self.height;
        let mut new_cells: Vec<Cell> = Vec::new();
        let mut idx: usize = 0;
        while idx < total
            invariant
                self.wf(),
                self@.mode is Wolfram,
                total == self.width * self.height,
                idx <= total,
                new_cells.len() == idx,
                forall|j: int|
                    0 <= j < idx ==> (#[trigger] new_cells@[j]).state == recomputed_states(
                        self@,
                    )[j] && cell_wf(new_cells@[j], j % self@.width, j / self@.width),
            decreases total - idx,
        {
            proof {
                lemma_idx_to_xy(idx as int, self@.width, self@.height);
            }
            let (x, y) = idx_xy(idx, self.width);
            let state = if y >= 0 && (y as usize) == self.w_line {
                let a = self.pred_on(x - 1);
                let b = self.pred_on(x);
                let c = self.pred_on(x + 1);
                self.wolfram_rule(a, b, c)
            } else {
                self.cells[idx].state
            };
            new_cells.push(Cell::new(state, x, y));
            idx += 1;
        }
        let mut new_w_line = self.w_line + 1;
        if new_w_line >= self.height {
            match self.scroll {
                ScrollMode::Stop => {
                    new_w_line = self.height - 1;
                },
                ScrollMode::Loop => {
                    new_w_line = 0;
                },
                ScrollMode::Shift => {
                    new_w_line = self.height - 1;
                    new_cells = self.shift_all_cells(&new_cells, 0, -1);
                },
            }
        }
        let r = CellGrid {
            mode: self.mode,
            width: self.width,
            height: self.height,
            cells: new_cells,
            wrap: self.wrap,
            scroll: self.scroll,
            w_line: new_w_line,
            rule_table: copy_states(&self.rule_table),
            low_survive: self.low_survive,
            high_survive: self.high_survive,
            birth: self.birth,
            radius: self.radius,
        };
        proof {
            if self@.active_row + 1 < self@.height || !(self@.scroll is Shift) {
                assert(r@.states =~= recomputed_states(self@));
            } else {
                let w = self@.width;
                let h = self@.height;
                let shifted = shifted_up(recomputed_states(self@), w, h);
                assert forall|i: int| 0 <= i < r.cells.len() implies r@.states[i] == shifted[i] by {
                    lemma_idx_to_xy(i, w, h);
                    lemma_xy_to_idx(i % w, wrap_once(i / w + 1, h), w, h);
                }
                assert(r@.states =~= shifted);
            }
            assert(r@ =~= wolfram_step_view(self@));
        }
        r
    }

    /// The same grid with other survive and birth thresholds.
    pub fn with_thresholds(self, low_survive: u32, high_survive: u32, birth: u32) -> (r: CellGrid)
        requires
            self.wf(),
        ensures
            r.wf(),
            r@ == (GridView {
                low_survive: low_survive as int,
                high_survive: high_survive as int,
                birth: birth as int,
                ..self@
            }),
    {
        CellGrid { low_survive, high_survive, birth, ..self }
    }

    /// The same grid with another Moore-neighborhood radius.
    pub fn with_radius(self, radius: u32) -> (r: CellGrid)
        requires
            self.wf(),
            1 <= radius,
            2 * radius + 1 <= i32::MAX,
            self@.width + radius <= i32::MAX,
            self@.height + radius <= i32::MAX,
            (2 * radius + 1) * (2 * radius + 1) <= usize::MAX,
            self@.wrap ==> radius <= self@.width && radius <= self@.height,
        ensures
            r.wf(),
            r@ == (GridView { radius: radius as int, ..self@ }),
    {
        CellGrid { radius, ..self }
    }

    /// The draw instructions for the whole grid, one per cell, in index
    /// order: position, glyph, foreground and background.
    pub fn draw_cells(&self) -> (out: Vec<(i32, i32, u16, Color, Color)>)
        requires
            self.wf(),
        ensures
            out@.len() == self.cells@.len(),
            forall|i: int|
                0 <= i < out@.len() ==> #[trigger] out@[i] == (
                    self.cells@[i].x,
                    self.cells@[i].y,
                    self.cells@[i].glyph,
                    self.cells@[i].fg,
                    self.cells@[i].bg,
                ),
            forall|i: int|
                0 <= i < out@.len() ==> (#[trigger] out@[i]).0 == i % self@.width && out@[i].1 == i
                    / self@.width && 0 <= out@[i].0 < self@.width && 0 <= out@[i].1 < self@.height,
    {
        let mut out: Vec<(i32, i32, u16, Color, Color)> = Vec::new();
        let mut i: usize = 0;
        while i < self.cells.len()
            invariant
                i <= self.cells@.len(),
                out@.len() == i,
                forall|j: int|
                    0 <= j < i ==> #[trigger] out@[j] == (
                        self.cells@[j].x,
                        self.cells@[j].y,
                        self.cells@[j].glyph,
                        self.cells@[j].fg,
                        self.cells@[j].bg,
                    ),
            decreases self.cells@.len() - i,
        {
            let c = &self.cells[i];
            out.push((c.x, c.y, c.glyph, c.fg, c.bg));
            i += 1;
        }
        proof {
            assert forall|j: int| 0 <= j < out@.len() implies (#[trigger] out@[j]).0 == j
                % self@.width && out@[j].1 == j / self@.width && 0 <= out@[j].0 < self@.width && 0
                <= out@[j].1 < self@.height by {
                lemma_idx_to_xy(j, self@.width, self@.height);
                assert(cell_wf(self.cells[j], j % (self.width as int), j / (self.width as int)));
            }
        }
        out
    }
}

} // verus!
