//! Cells: a binary state plus display attributes (glyph and colors) that are
//! derived purely from the state when the cell is built.

use vstd::prelude::*;

verus! {

/// The state of one cell.
#[derive(Clone, Copy, PartialEq, Eq, Structural, Debug)]
pub enum CellState {
    Off,
    On,
}

/// A named color of the character terminal the grids are drawn on.
#[derive(Clone, Copy, PartialEq, Eq, Structural, Debug)]
pub enum Color {
    Black,
    Grey,
}

/// Code page 437 glyph drawn for a live cell (the inverse bullet).
pub const GLYPH_ON: u16 = 8;

/// Code page 437 glyph drawn for a dead cell (the bullet).
pub const GLYPH_OFF: u16 = 7;

/// A cell's state read as 0 or 1.
pub open spec fn bit_of(s: CellState) -> int {
    match s {
        CellState::On => 1,
        CellState::Off => 0,
    }
}

/// The glyph a cell of the given state carries.
pub open spec fn glyph_of(s: CellState) -> u16 {
    match s {
        CellState::On => GLYPH_ON,
        CellState::Off => GLYPH_OFF,
    }
}

/// The foreground color a cell of the given state carries.
pub open spec fn fg_of(s: CellState) -> Color {
    Color::Black
}

/// The background color a cell of the given state carries.
pub open spec fn bg_of(s: CellState) -> Color {
    Color::Grey
}

/// One cell of a grid: its state, its own coordinates, and the cached
/// display attributes of its state.
#[derive(Clone, Copy, PartialEq, Eq, Structural, Debug)]
pub struct Cell {
    pub state: CellState,
    pub x: i32,
    pub y: i32,
    pub glyph: u16,
    pub fg: Color,
    pub bg: Color,
}

/// A cell standing at (x, y) carries exactly those coordinates and the
/// display attributes derived from its state.
pub open spec fn cell_wf(c: Cell, x: int, y: int) -> bool {
    &&& c.x == x
    &&& c.y == y
    &&& c.glyph == glyph_of(c.state)
    &&& c.fg == fg_of(c.state)
    &&& c.bg == bg_of(c.state)
}

impl Cell {
    /// Builds a cell, deriving glyph and colors from the state.
    pub fn new(state: CellState, x: i32, y: i32) -> (c: Cell)
        ensures
            c.state == state,
            cell_wf(c, x as int, y as int),
    {
        match state {
            CellState::On => Cell {
                state,
                x,
                y,
                glyph: GLYPH_ON,
                fg: Color::Black,
                bg: Color::Grey,
            },
            CellState::Off => Cell {
                state,
                x,
                y,
                glyph: GLYPH_OFF,
                fg: Color::Black,
                bg: Color::Grey,
            },
        }
    }
}

/// A bare two-dimensional position.
#[derive(Clone, Copy, PartialEq, Eq, Structural, Debug)]
pub struct Position {
    pub x: i32,
    pub y: i32,
}

} // verus!
