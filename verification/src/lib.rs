//! Conway's Game of Life on a torus, for a 320x240 display driven from a
//! touch screen.
//!
//! The crate holds the three parts that carry logic: the automaton
//! ([`universe`], specified in [`life`]), the mapping from a touch sample to
//! cell toggles ([`touch`]) and the rendering of a generation into a packed
//! pixel buffer ([`render`]).  [`frame`] strings them together for one pass of
//! a display loop.  Everything is stated over a plain mathematical model, a
//! sequence of booleans in row-major order, and proved against it.
use vstd::prelude::*;

pub mod frame;
pub mod life;
pub mod render;
pub mod touch;
pub mod universe;

verus! {

/// Edge length of the square block of pixels that shows one cell.
pub const BLK_SIZE: usize = 8;

/// Display width in pixels.
pub const DISP_WIDTH: usize = 320;

/// Display height in pixels.
pub const DISP_HEIGHT: usize = 240;

/// Number of cells in one row of the grid.
pub const GRID_WIDTH: usize = 40;

/// Number of rows of the grid.
pub const GRID_HEIGHT: usize = 30;

/// Number of cells of the grid.
pub const GRID_CELLS: usize = 1200;

/// The grid is the display counted in blocks: one cell for every block of
/// `BLK_SIZE` by `BLK_SIZE` pixels, with no pixel left over.
pub proof fn lemma_grid_tiles_display()
    ensures
        GRID_WIDTH == DISP_WIDTH / BLK_SIZE,
        GRID_HEIGHT == DISP_HEIGHT / BLK_SIZE,
        GRID_WIDTH * BLK_SIZE == DISP_WIDTH,
        GRID_HEIGHT * BLK_SIZE == DISP_HEIGHT,
        GRID_CELLS == GRID_WIDTH * GRID_HEIGHT,
{
}

} // verus!
