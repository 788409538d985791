//! General properties of the stepping engine, stated and proved over the
//! model: well-formedness is preserved, a saturated all-live grid dies of
//! overcrowding, the Stop policy freezes the automaton, the Shift policy
//! translates the grid, and stepping is deterministic.

use vstd::prelude::*;
use crate::coords::{idx_spec, wrap_once, lemma_xy_to_idx, lemma_idx_to_xy};
use crate::model::{
    GridView, view_wf, sample_on, count_upto, live_neighbors, conway_next, recomputed_states,
    step_view, step_n,
};

verus! {

/// Stepping keeps a grid well formed: the dimensions, policies and rule
/// parameters carry over, and the active row stays inside the grid.
pub proof fn lemma_step_preserves_wf(v: GridView)
    requires
        view_wf(v),
    ensures
        view_wf(step_view(v)),
{
}

/// With wrap-around, any sample of an everywhere-live grid reads 1.
proof fn lemma_sample_all_on(v: GridView, cx: int, cy: int)
    requires
        view_wf(v),
        v.wrap,
        -v.width <= cx < 2 * v.width,
        -v.height <= cy < 2 * v.height,
        forall|i: int| 0 <= i < v.states.len() ==> #[trigger] v.states[i] is On,
    ensures
        sample_on(v, cx, cy) == 1,
{
    let x = wrap_once(cx, v.width);
    let y = wrap_once(cy, v.height);
    lemma_xy_to_idx(x, y, v.width, v.height);
    assert(v.states[idx_spec(x, y, v.width)] is On);
}

/// On an everywhere-live wrapped grid, the first k window positions count
/// k live neighbors, less one if the center position is among them.
proof fn lemma_count_all_on(v: GridView, x: int, y: int, k: nat)
    requires
        view_wf(v),
        v.wrap,
        0 <= x < v.width,
        0 <= y < v.height,
        k <= (2 * v.radius + 1) * (2 * v.radius + 1),
        forall|i: int| 0 <= i < v.states.len() ==> #[trigger] v.states[i] is On,
    ensures
        count_upto(v, x, y, v.radius, k) == k - (if 2 * v.radius * (v.radius + 1) < k {
            1int
        } else {
            0int
        }),
    decreases k,
{
    let r = v.radius;
    let side = 2 * r + 1;
    let center = 2 * r * (r + 1);
    assert(center == r * side + r) by (nonlinear_arith)
        requires side == 2 * r + 1 && center == 2 * r * (r + 1);
    if k > 0 {
        lemma_count_all_on(v, x, y, (k - 1) as nat);
        let j = k - 1;
        let dx = j / side - r;
        let dy = j % side - r;
        assert(0 <= j % side < side && 0 <= j / side < side && idx_spec(j % side, j / side, side)
            == j) by {
            assert(j < side * side) by (nonlinear_arith)
                requires side == 2 * r + 1 && j < (2 * r + 1) * (2 * r + 1);
            lemma_idx_to_xy(j, side, side);
        }
        if j == center {
            lemma_xy_to_idx(r, r, side, side);
            assert(dx == 0 && dy == 0);
        }
        if dx == 0 && dy == 0 {
            assert(j == r * side + r);
        } else {
            assert(j != center);
            lemma_sample_all_on(v, x + dx, y + dy);
        }
    }
}

/// Overcrowding kills a saturated grid: stepping an everywhere-live wrapped
/// Moore-family grid whose high survive threshold lies below the full
/// neighbor count leaves every cell dead.
pub proof fn lemma_all_on_dies(v: GridView)
    requires
        view_wf(v),
        v.mode is Conway,
        v.wrap,
        v.high_survive < (2 * v.radius + 1) * (2 * v.radius + 1) - 1,
        forall|i: int| 0 <= i < v.states.len() ==> #[trigger] v.states[i] is On,
    ensures
        forall|i: int|
            0 <= i < v.states.len() ==> #[trigger] step_view(v).states[i] is Off,
{
    let full = (2 * v.radius + 1) * (2 * v.radius + 1);
    assert forall|i: int| 0 <= i < v.states.len() implies #[trigger] step_view(v).states[i]
        is Off by {
        lemma_idx_to_xy(i, v.width, v.height);
        let x = i % v.width;
        let y = i / v.width;
        assert(2 * v.radius * (v.radius + 1) < full) by (nonlinear_arith)
            requires v.radius >= 1 && full == (2 * v.radius + 1) * (2 * v.radius + 1);
        lemma_count_all_on(v, x, y, full as nat);
        assert(live_neighbors(v, x, y) == full - 1);
        assert(v.states[idx_spec(x, y, v.width)] is On);
        assert(conway_next(v, x, y) is Off);
    }
}

/// Once the active row stands on the bottom row under the Stop policy,
/// stepping keeps it there and carries every other row over unchanged, so
/// repeated stepping leaves all rows above the bottom fixed forever.
pub proof fn lemma_stop_freezes(v: GridView)
    requires
        view_wf(v),
        v.mode is Wolfram,
        v.scroll is Stop,
        v.active_row == v.height - 1,
    ensures
        view_wf(step_view(v)),
        step_view(v).active_row == v.height - 1,
        forall|i: int|
            0 <= i < v.states.len() && i / v.width != v.height - 1
                ==> #[trigger] step_view(v).states[i] == v.states[i],
{
}

/// Stepping any number of times from the frozen position keeps the active
/// row on the bottom row and every row above it unchanged.
pub proof fn lemma_stop_freezes_forever(v: GridView, n: nat)
    requires
        view_wf(v),
        v.mode is Wolfram,
        v.scroll is Stop,
        v.active_row == v.height - 1,
    ensures
        view_wf(step_n(v, n)),
        step_n(v, n).mode == v.mode,
        step_n(v, n).scroll == v.scroll,
        step_n(v, n).width == v.width,
        step_n(v, n).height == v.height,
        step_n(v, n).active_row == v.height - 1,
        forall|i: int|
            0 <= i < v.states.len() && i / v.width != v.height - 1
                ==> #[trigger] step_n(v, n).states[i] == v.states[i],
    decreases n,
{
    if n > 0 {
        lemma_stop_freezes_forever(v, (n - 1) as nat);
        lemma_stop_freezes(step_n(v, (n - 1) as nat));
    }
}

/// The Shift policy translates the grid: when the active row passes the
/// bottom, what stands at (x, r) afterwards is what stood at (x, r + 1)
/// after the bottom row was computed, for every row above the bottom.
pub proof fn lemma_shift_translates(v: GridView)
    requires
        view_wf(v),
        v.mode is Wolfram,
        v.scroll is Shift,
        v.active_row == v.height - 1,
    ensures
        view_wf(step_view(v)),
        step_view(v).active_row == v.height - 1,
        forall|x: int, r: int|
            0 <= x < v.width && 0 <= r < v.height - 1 ==> step_view(v).states[idx_spec(
                x,
                r,
                v.width,
            )] == #[trigger] recomputed_states(v)[idx_spec(x, r + 1, v.width)],
{
    assert forall|x: int, r: int|
        0 <= x < v.width && 0 <= r < v.height - 1 implies step_view(v).states[idx_spec(
        x,
        r,
        v.width,
    )] == #[trigger] recomputed_states(v)[idx_spec(x, r + 1, v.width)] by {
        lemma_xy_to_idx(x, r, v.width, v.height);
        lemma_xy_to_idx(x, r + 1, v.width, v.height);
        let i = idx_spec(x, r, v.width);
        assert(step_view(v).states[i] == recomputed_states(v)[idx_spec(
            i % v.width,
            wrap_once(i / v.width + 1, v.height),
            v.width,
        )]);
    }
}

/// Stepping is deterministic: it is a function of the grid's content alone,
/// so structurally equal grids step to structurally equal grids.
pub proof fn lemma_step_deterministic(a: GridView, b: GridView)
    requires
        a == b,
    ensures
        step_view(a) == step_view(b),
{
}

} // verus!
