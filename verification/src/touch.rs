//! The input mapper: from one reading of the touch screen to the cells that
//! it flips.
//!
//! A touch flips a square of cells around the cell under the finger; the
//! harder the touch, the larger the square.  The square is cut off at the
//! edges of the grid: unlike the automaton, a touch does not go round the
//! torus.
use vstd::prelude::*;
use crate::life::{cell_index, column_of, in_grid, lemma_cell_index, row_of};
use crate::universe::Universe;
use crate::{BLK_SIZE, GRID_CELLS, GRID_HEIGHT, GRID_WIDTH};

verus! {

/// Pressure that widens the flipped square by one more cell on every side.
pub const PRESSURE_DIVISOR: i32 = 300;

/// One reading of the touch screen: a position in display pixels and a
/// pressure.
#[derive(Clone, Copy, Debug)]
pub struct TouchSample {
    pub x: i32,
    pub y: i32,
    pub z: i32,
}

/// The quotient of `a` by a positive `d`, rounded toward zero.
pub open spec fn quotient_toward_zero(a: int, d: int) -> int {
    if a >= 0 {
        a / d
    } else {
        -((-a) / d)
    }
}

impl TouchSample {
    /// The grid column under the touch.  It is negative or beyond the last
    /// column where the touch lies off the display.
    pub open spec fn spec_column(&self) -> int {
        quotient_toward_zero(self.x as int, BLK_SIZE as int)
    }

    /// The grid row under the touch.
    pub open spec fn spec_row(&self) -> int {
        quotient_toward_zero(self.y as int, BLK_SIZE as int)
    }

    /// How many cells the flipped square reaches out from its centre.
    pub open spec fn spec_radius(&self) -> int {
        quotient_toward_zero(self.z as int, PRESSURE_DIVISOR as int) + 1
    }

    /// Whether `(x, y)` lies in the square around the touch, on a plane
    /// without edges.
    pub open spec fn covers(&self, x: int, y: int) -> bool {
        &&& self.spec_column() - self.spec_radius() <= x <= self.spec_column() + self.spec_radius()
        &&& self.spec_row() - self.spec_radius() <= y <= self.spec_row() + self.spec_radius()
    }

    /// The grid column under the touch.
    pub fn column(&self) -> (column: i32)
        ensures
            column == self.spec_column(),
    {
        self.x / (BLK_SIZE as i32)
    }

    /// The grid row under the touch.
    pub fn row(&self) -> (row: i32)
        ensures
            row == self.spec_row(),
    {
        self.y / (BLK_SIZE as i32)
    }

    /// Determine radius of changed area from pressure.
    pub fn radius(&self) -> (radius: i32)
        ensures
            radius == self.spec_radius(),
    {
        (self.z / PRESSURE_DIVISOR) + 1
    }
}

/// The generation `g` after a touch: each cell of the grid that the sample
/// covers is flipped, every other cell is as it was.
pub open spec fn touched(g: Seq<bool>, sample: TouchSample) -> Seq<bool> {
    Seq::new(GRID_CELLS as nat, |i: int| g[i] != sample.covers(column_of(i), row_of(i)))
}

/// The position nearest to `at` among `0..=limit`.
fn clip(at: i32, limit: usize) -> (clipped: usize)
    requires
        limit <= i32::MAX,
    ensures
        clipped == (if at < 0 { 0 } else if at > limit { limit as int } else { at as int }),
{
    if at < 0 {
        0
    } else if at as usize > limit {
        limit
    } else {
        at as usize
    }
}

/// Flip every cell of the grid that the sample covers.
pub fn apply_touch(universe: &mut Universe, sample: TouchSample)
    ensures
        final(universe)@ == touched(old(universe)@, sample),
        final(universe).current_buffer() == old(universe).current_buffer(),
{
    let ghost before = universe@;
    proof {
        universe.lemma_len();
    }
    let x = sample.column();
    let y = sample.row();
    let r = sample.radius();
    if r < 0 {
        return;
    }
    // the part of the square that lies on the grid
    let x_begin = clip(x - r, GRID_WIDTH);
    let x_end = clip(x + r + 1, GRID_WIDTH);
    let y_begin = clip(y - r, GRID_HEIGHT);
    let y_end = clip(y + r + 1, GRID_HEIGHT);
    for yi in y_begin..y_end
        invariant
            x_begin <= x_end <= GRID_WIDTH,
            y_begin <= y_end <= GRID_HEIGHT,
            universe@.len() == GRID_CELLS,
            before.len() == GRID_CELLS,
            universe.current_buffer() == old(universe).current_buffer(),
            forall|cx: int, cy: int|
                0 <= cx < GRID_WIDTH && 0 <= cy < GRID_HEIGHT ==> (sample.covers(cx, cy) <==> x_begin
                    <= cx < x_end && y_begin <= cy < y_end),
            forall|i: int|
                0 <= i < GRID_CELLS ==> universe@[i] == (before[i] != (sample.covers(
                    column_of(i),
                    row_of(i),
                ) && row_of(i) < yi)),
    {
        for xi in x_begin..x_end
            invariant
                x_begin <= x_end <= GRID_WIDTH,
                y_begin <= yi < y_end <= GRID_HEIGHT,
                universe@.len() == GRID_CELLS,
                before.len() == GRID_CELLS,
                universe.current_buffer() == old(universe).current_buffer(),
                forall|cx: int, cy: int|
                    0 <= cx < GRID_WIDTH && 0 <= cy < GRID_HEIGHT ==> (sample.covers(cx, cy) <==> x_begin
                        <= cx < x_end && y_begin <= cy < y_end),
                forall|i: int|
                    0 <= i < GRID_CELLS ==> universe@[i] == (before[i] != (sample.covers(
                        column_of(i),
                        row_of(i),
                    ) && (row_of(i) < yi || (row_of(i) == yi && column_of(i) < xi)))),
        {
            universe.toggle(xi, yi);
        }
    }
}

/// A touch flips the cells of the grid that it covers and no others.  What it
/// covers beyond an edge of the grid is dropped: it is not carried round to
/// the opposite edge, and the cells that it covers on the grid are flipped
/// all the same.
pub proof fn lemma_touch_cell(g: Seq<bool>, sample: TouchSample, x: int, y: int)
    requires
        g.len() == GRID_CELLS,
        in_grid(x, y),
    ensures
        touched(g, sample).len() == GRID_CELLS,
        touched(g, sample)[cell_index(x, y)] == (g[cell_index(x, y)] != sample.covers(x, y)),
{
    lemma_cell_index(x, y);
}

} // verus!
