//! The mathematical model of a grid and of one generation step: everything
//! the stepping engine promises is stated over these functions.

use vstd::prelude::*;
use crate::cell::{CellState, bit_of};
use crate::coords::{idx_spec, wrap_once};

verus! {

/// Which rule family governs stepping.
#[derive(Clone, Copy, PartialEq, Eq, Structural, Debug)]
pub enum Mode {
    Conway,
    Wolfram,
}

/// What happens when the active row of a Wolfram grid passes the bottom.
#[derive(Clone, Copy, PartialEq, Eq, Structural, Debug)]
pub enum ScrollMode {
    Shift,
    Loop,
    Stop,
}

/// The content of a grid that stepping depends on: dimensions, the cell
/// states in row-major order, the boundary and scroll policies, and the
/// rule parameters of both families.
#[verifier::ext_equal]
pub ghost struct GridView {
    pub mode: Mode,
    pub width: int,
    pub height: int,
    pub states: Seq<CellState>,
    pub wrap: bool,
    pub scroll: ScrollMode,
    pub active_row: int,
    pub rule_table: Seq<CellState>,
    pub low_survive: int,
    pub high_survive: int,
    pub birth: int,
    pub radius: int,
}

/// The invariants every grid keeps: positive dimensions that fit the
/// machine, one state per cell, an 8-entry rule table, a neighborhood
/// radius the boundary arithmetic supports, and, for the Wolfram family,
/// an active row inside the grid (and past the seed row unless the scroll
/// policy wraps it there).
pub open spec fn view_wf(v: GridView) -> bool {
    &&& 1 <= v.width
    &&& 1 <= v.height
    &&& v.width <= i32::MAX
    &&& v.height <= i32::MAX
    &&& v.states.len() == v.width * v.height
    &&& v.width * v.height <= usize::MAX
    &&& v.rule_table.len() == 8
    &&& 1 <= v.radius
    &&& 2 * v.radius + 1 <= i32::MAX
    &&& v.width + v.radius <= i32::MAX
    &&& v.height + v.radius <= i32::MAX
    &&& (2 * v.radius + 1) * (2 * v.radius + 1) <= usize::MAX
    &&& (v.wrap ==> v.radius <= v.width && v.radius <= v.height)
    &&& (v.mode is Wolfram ==> {
        &&& 2 <= v.height
        &&& 0 <= v.active_row < v.height
        &&& (!(v.scroll is Loop) ==> 1 <= v.active_row)
    })
}

/// The state sampled at (cx, cy), read as 0 or 1, under the grid's boundary
/// policy: with wrap-around both axes are wrapped once; without it an
/// out-of-range position reads as 0.
pub open spec fn sample_on(v: GridView, cx: int, cy: int) -> int {
    if v.wrap {
        bit_of(v.states[idx_spec(wrap_once(cx, v.width), wrap_once(cy, v.height), v.width)])
    } else if 0 <= cx < v.width && 0 <= cy < v.height {
        bit_of(v.states[idx_spec(cx, cy, v.width)])
    } else {
        0
    }
}

/// Live cells among the first k positions of the square window of radius r
/// around (x, y), the positions ordered row-major by offset and the center
/// itself never counted.
pub open spec fn count_upto(v: GridView, x: int, y: int, r: int, k: nat) -> int
    decreases k,
{
    if k == 0 {
        0
    } else {
        let j = k - 1;
        let side = 2 * r + 1;
        let dx = j / side - r;
        let dy = j % side - r;
        count_upto(v, x, y, r, (k - 1) as nat) + if dx == 0 && dy == 0 {
            0
        } else {
            sample_on(v, x + dx, y + dy)
        }
    }
}

/// The number of live Moore neighbors of (x, y) at the grid's radius.
pub open spec fn live_neighbors(v: GridView, x: int, y: int) -> int {
    count_upto(v, x, y, v.radius, ((2 * v.radius + 1) * (2 * v.radius + 1)) as nat)
}

/// The threshold rule: a live cell survives exactly when its live-neighbor
/// count lies in [low, high]; a dead cell is born exactly on birth.
pub open spec fn moore_next(center: CellState, n: int, low: int, high: int, birth: int) -> CellState {
    match center {
        CellState::On => if n < low || n > high {
            CellState::Off
        } else {
            CellState::On
        },
        CellState::Off => if n == birth {
            CellState::On
        } else {
            CellState::Off
        },
    }
}

/// The next state of the cell at (x, y) under the grid's Moore-family rule,
/// computed from the current generation alone.
pub open spec fn conway_next(v: GridView, x: int, y: int) -> CellState {
    moore_next(
        v.states[idx_spec(x, y, v.width)],
        live_neighbors(v, x, y),
        v.low_survive,
        v.high_survive,
        v.birth,
    )
}

/// One synchronous Moore-family generation: every cell's next state is a
/// function of the current grid only.
pub open spec fn conway_step_view(v: GridView) -> GridView {
    GridView {
        states: Seq::new(v.states.len(), |i: int| conway_next(v, i % v.width, i / v.width)),
        ..v
    }
}

/// The predecessor sample for the active row at column cx: the cell one row
/// above, the x axis under the wrap flag (a missing column reads as Off),
/// the y axis under the scroll policy (only Loop wraps the row above).
pub open spec fn pred_sample(v: GridView, cx: int) -> int {
    let py = if v.scroll is Loop {
        wrap_once(v.active_row - 1, v.height)
    } else {
        v.active_row - 1
    };
    if v.wrap {
        bit_of(v.states[idx_spec(wrap_once(cx, v.width), py, v.width)])
    } else if 0 <= cx < v.width {
        bit_of(v.states[idx_spec(cx, py, v.width)])
    } else {
        0
    }
}

/// The value of the predecessor triple above column x, read as a 3-bit
/// number: left neighbor, cell above, right neighbor.
pub open spec fn pred_pattern(v: GridView, x: int) -> int {
    4 * pred_sample(v, x - 1) + 2 * pred_sample(v, x) + pred_sample(v, x + 1)
}

/// The state the Wolfram rule emits at column x of the active row: the rule
/// table is indexed in the canonical order 111, 110, ..., 000.
pub open spec fn wolfram_next(v: GridView, x: int) -> CellState {
    v.rule_table[7 - pred_pattern(v, x)]
}

/// The cell states after recomputing the active row, before any scrolling:
/// every other row is carried over unchanged.
pub open spec fn recomputed_states(v: GridView) -> Seq<CellState> {
    Seq::new(
        v.states.len(),
        |i: int| if i / v.width == v.active_row {
            wolfram_next(v, i % v.width)
        } else {
            v.states[i]
        },
    )
}

/// Every row moved up one position; the bottom row is refilled from the
/// discarded top row.
pub open spec fn shifted_up(s: Seq<CellState>, w: int, h: int) -> Seq<CellState> {
    Seq::new(s.len(), |i: int| s[idx_spec(i % w, wrap_once(i / w + 1, h), w)])
}

/// One Wolfram-family generation: the active row is recomputed from the row
/// above it, then the active row advances under the scroll policy — Stop
/// clamps it to the bottom row, Loop wraps it to the top, and Shift holds it
/// at the bottom while the whole grid moves up one row.
pub open spec fn wolfram_step_view(v: GridView) -> GridView {
    if v.active_row + 1 < v.height {
        GridView { states: recomputed_states(v), active_row: v.active_row + 1, ..v }
    } else {
        match v.scroll {
            ScrollMode::Stop => GridView {
                states: recomputed_states(v),
                active_row: v.height - 1,
                ..v
            },
            ScrollMode::Loop => GridView { states: recomputed_states(v), active_row: 0, ..v },
            ScrollMode::Shift => GridView {
                states: shifted_up(recomputed_states(v), v.width, v.height),
                active_row: v.height - 1,
                ..v
            },
        }
    }
}

/// One generation of either family.
pub open spec fn step_view(v: GridView) -> GridView {
    match v.mode {
        Mode::Conway => conway_step_view(v),
        Mode::Wolfram => wolfram_step_view(v),
    }
}

/// n generations.
pub open spec fn step_n(v: GridView, n: nat) -> GridView
    decreases n,
{
    if n == 0 {
        v
    } else {
        step_view(step_n(v, (n - 1) as nat))
    }
}

/// Two to the power k.
pub open spec fn pow2_of(k: nat) -> int
    decreases k,
{
    if k == 0 {
        1
    } else {
        2 * pow2_of((k - 1) as nat)
    }
}

/// Entry i of the rule table for rule number n: bit i of the 8-bit binary
/// rendering of n, most significant bit first.
pub open spec fn rule_entry(n: int, i: int) -> CellState {
    if (n / pow2_of((7 - i) as nat)) % 2 == 1 {
        CellState::On
    } else {
        CellState::Off
    }
}

/// The whole 8-entry rule table of rule number n, in the canonical pattern
/// order 111, 110, 101, 100, 011, 010, 001, 000.
pub open spec fn rule_table_spec(n: int) -> Seq<CellState> {
    Seq::new(8, |i: int| rule_entry(n, i))
}

/// True when some seed coordinate names (x, y).
pub open spec fn seeded(seeds: Seq<(i32, i32)>, x: int, y: int) -> bool {
    exists|k: int|
        0 <= k < seeds.len() && (#[trigger] seeds[k]).0 == x && seeds[k].1 == y
}

/// The grid a fresh construction yields: every cell Off except the seeded
/// ones, the active row at 1, the rule table decoded from the rule number,
/// and the classic thresholds (survive on 2 or 3, birth on 3) at radius 1.
pub open spec fn initial_view(
    mode: Mode,
    w: int,
    h: int,
    seeds: Seq<(i32, i32)>,
    wrap: bool,
    scroll: ScrollMode,
    rule_number: int,
) -> GridView {
    GridView {
        mode,
        width: w,
        height: h,
        states: Seq::new(
            (w * h) as nat,
            |i: int| if seeded(seeds, i % w, i / w) {
                CellState::On
            } else {
                CellState::Off
            },
        ),
        wrap,
        scroll,
        active_row: 1,
        rule_table: rule_table_spec(rule_number),
        low_survive: 2,
        high_survive: 3,
        birth: 3,
        radius: 1,
    }
}

} // verus!
