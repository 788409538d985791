//! A small cellular-automaton engine: a rectangular grid of binary cells,
//! neighbor sampling under wrap or clamp boundary policies, and two rule
//! families — Moore-neighborhood threshold rules (Conway-style) and Wolfram
//! elementary rules rendered row by row over a two-dimensional buffer with a
//! configurable scroll policy. Stepping is a pure function from one grid
//! value to the next; rendering and input belong to the surrounding driver.

pub mod cell;
pub mod cell_map;
pub mod control;
pub mod coords;
pub mod grid;
pub mod laws;
pub mod model;
