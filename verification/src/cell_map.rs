//! A fixed-size map of bare cell states with a single center seed: the
//! simplest grid this library offers, kept for drivers that want a plain
//! state buffer without display attributes.

use vstd::prelude::*;
use crate::cell::CellState;
use crate::coords::idx_spec;

verus! {

/// Width of a `CellMap`.
pub const MAPWIDTH: usize = 80;

/// Height of a `CellMap`.
pub const MAPHEIGHT: usize = 50;

/// Number of cells of a `CellMap`.
pub const MAPCOUNT: usize = MAPWIDTH * MAPHEIGHT;

/// A fixed-size, row-major buffer of bare cell states.
pub struct CellMap {
    pub cells: Vec<CellState>,
    pub width: i32,
    pub height: i32,
}

impl CellMap {
    /// Linear index of (x, y) in the fixed map width.
    pub fn xy_idx(x: i32, y: i32) -> (idx: usize)
        requires
            0 <= x < MAPWIDTH,
            0 <= y < MAPHEIGHT,
        ensures
            idx == idx_spec(x as int, y as int, MAPWIDTH as int),
            idx < MAPCOUNT,
    {
        (y as usize) * MAPWIDTH + (x as usize)
    }

    /// A map with every cell Off except the single center seed.
    pub fn new() -> (m: CellMap)
        ensures
            m.width == MAPWIDTH,
            m.height == MAPHEIGHT,
            m.cells@.len() == MAPCOUNT,
            forall|i: int|
                0 <= i < MAPCOUNT ==> #[trigger] m.cells@[i] == (if i == idx_spec(
                    (MAPWIDTH / 2) as int,
                    (MAPHEIGHT / 2) as int,
                    MAPWIDTH as int,
                ) {
                    CellState::On
                } else {
                    CellState::Off
                }),
    {
        let mut cells: Vec<CellState> = Vec::new();
        let mut i: usize = 0;
        while i < MAPCOUNT
            invariant
                i <= MAPCOUNT,
                cells@.len() == i,
                forall|j: int| 0 <= j < i ==> #[trigger] cells@[j] == CellState::Off,
            decreases MAPCOUNT - i,
        {
            cells.push(CellState::Off);
            i += 1;
        }
        let seed_pos = Self::xy_idx((MAPWIDTH as i32) / 2, (MAPHEIGHT as i32) / 2);
        cells.set(seed_pos, CellState::On);
        CellMap { cells, width: MAPWIDTH as i32, height: MAPHEIGHT as i32 }
    }
}

} // verus!
