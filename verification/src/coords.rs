//! The bijection between grid coordinates and linear, row-major indices,
//! and the one-step wrap-around used by toroidal boundary policies.

use vstd::prelude::*;

verus! {

/// Linear index of the cell at (x, y) in a row-major grid of the given width.
pub open spec fn idx_spec(x: int, y: int, width: int) -> int {
    y * width + x
}

/// Brings a coordinate that is at most one axis length out of range back in
/// by adding or subtracting the length exactly once.
pub open spec fn wrap_once(c: int, len: int) -> int {
    if c < 0 {
        c + len
    } else if c >= len {
        c - len
    } else {
        c
    }
}

/// An in-range coordinate pair maps to an in-range index, and the index
/// decomposes back into exactly that pair.
pub proof fn lemma_xy_to_idx(x: int, y: int, w: int, h: int)
    by (nonlinear_arith)
    requires
        1 <= w,
        0 <= x < w,
        0 <= y < h,
    ensures
        0 <= idx_spec(x, y, w) < w * h,
        idx_spec(x, y, w) % w == x,
        idx_spec(x, y, w) / w == y,
{
}

/// An in-range index decomposes into an in-range coordinate pair, and that
/// pair maps back to exactly this index.
pub proof fn lemma_idx_to_xy(i: int, w: int, h: int)
    by (nonlinear_arith)
    requires
        1 <= w,
        1 <= h,
        0 <= i < w * h,
    ensures
        0 <= i % w < w,
        0 <= i / w < h,
        idx_spec(i % w, i / w, w) == i,
{
}

/// Linear index of (x, y), row-major.
pub fn xy_idx(x: i32, y: i32, width: usize) -> (idx: usize)
    requires
        1 <= width,
        0 <= x < width,
        0 <= y,
        y * width + x <= usize::MAX,
    ensures
        idx == idx_spec(x as int, y as int, width as int),
{
    (y as usize) * width + (x as usize)
}

/// Coordinates of the cell at a linear index, row-major.
pub fn idx_xy(idx: usize, width: usize) -> (r: (i32, i32))
    requires
        1 <= width,
        width <= i32::MAX,
        idx / width <= i32::MAX,
    ensures
        r.0 == idx % width,
        r.1 == idx / width,
        idx_spec(r.0 as int, r.1 as int, width as int) == idx,
{
    let x = idx % width;
    let y = idx / width;
    proof {
        assert(idx % width < width && (idx / width) * width + idx % width == idx)
            by (nonlinear_arith)
            requires 1 <= width && idx >= 0;
    }
    (x as i32, y as i32)
}

} // verus!
