//! The automaton as mathematics: the torus, the neighbour count, the rule and
//! the step from one generation to the next.
//!
//! A generation is a `Seq<bool>` of `GRID_CELLS` flags, row by row: the cell in
//! column `x` of row `y` is at index `y * GRID_WIDTH + x`.
use vstd::arithmetic::div_mod::{lemma_mod_add_multiples_vanish, lemma_mod_self_0, lemma_small_mod};
use vstd::prelude::*;
use crate::{GRID_CELLS, GRID_HEIGHT, GRID_WIDTH};

verus! {

/// Whether `(x, y)` names a cell of the grid.
pub open spec fn in_grid(x: int, y: int) -> bool {
    0 <= x < GRID_WIDTH && 0 <= y < GRID_HEIGHT
}

/// Where the cell in column `x` of row `y` is kept.
pub open spec fn cell_index(x: int, y: int) -> int {
    y * GRID_WIDTH + x
}

/// The column of the cell kept at index `i`.
pub open spec fn column_of(i: int) -> int {
    i % (GRID_WIDTH as int)
}

/// The row of the cell kept at index `i`.
pub open spec fn row_of(i: int) -> int {
    i / (GRID_WIDTH as int)
}

/// The generation in which no cell is alive.
pub open spec fn all_dead() -> Seq<bool> {
    Seq::new(GRID_CELLS as nat, |i: int| false)
}

/// The generation `g` with cell `(x, y)` set to `state`.
pub open spec fn with_cell(g: Seq<bool>, x: int, y: int, state: bool) -> Seq<bool> {
    g.update(cell_index(x, y), state)
}

/// The generation `g` with cell `(x, y)` flipped.
pub open spec fn with_cell_toggled(g: Seq<bool>, x: int, y: int) -> Seq<bool> {
    g.update(cell_index(x, y), !g[cell_index(x, y)])
}

/// Whether `(x, y)` is one of the five cells of the glider at the centre of
/// the grid:
///
/// ```text
/// 010
/// 001
/// 111
/// ```
pub open spec fn glider_cell(x: int, y: int) -> bool {
    let dx = x - GRID_WIDTH / 2;
    let dy = y - GRID_HEIGHT / 2;
    ||| dx == 0 && dy == -1
    ||| dx == 1 && dy == 0
    ||| dx == -1 && dy == 1
    ||| dx == 0 && dy == 1
    ||| dx == 1 && dy == 1
}

/// The generation `g` with the cells of the glider alive.
pub open spec fn with_glider(g: Seq<bool>) -> Seq<bool> {
    Seq::new(GRID_CELLS as nat, |i: int| g[i] || glider_cell(column_of(i), row_of(i)))
}

/// The position before `i` on a ring of `n` positions: before the first is
/// the last.
pub open spec fn ring_prev(i: int, n: int) -> int {
    (i - 1) % n
}

/// The position after `i` on a ring of `n` positions: after the last is the
/// first.
pub open spec fn ring_next(i: int, n: int) -> int {
    (i + 1) % n
}

/// 1 if the cell `(x, y)` is alive in `g`, else 0.
pub open spec fn live(g: Seq<bool>, x: int, y: int) -> int {
    if g[cell_index(x, y)] {
        1
    } else {
        0
    }
}

/// The number of live cells among the eight neighbours of `(x, y)`.  The
/// grid is a torus: columns and rows are rings, so the first and the last of
/// each are neighbours.
pub open spec fn neighbor_count(g: Seq<bool>, x: int, y: int) -> int {
    let left = ring_prev(x, GRID_WIDTH as int);
    let right = ring_next(x, GRID_WIDTH as int);
    let above = ring_prev(y, GRID_HEIGHT as int);
    let below = ring_next(y, GRID_HEIGHT as int);
    live(g, left, above) + live(g, x, above) + live(g, right, above)
        + live(g, left, y) + live(g, right, y)
        + live(g, left, below) + live(g, x, below) + live(g, right, below)
}

/// Whether `(bx, by)` is one of the eight neighbours of `(ax, ay)` on the
/// torus.
pub open spec fn adjacent(ax: int, ay: int, bx: int, by: int) -> bool {
    &&& bx == ring_prev(ax, GRID_WIDTH as int) || bx == ax || bx == ring_next(ax, GRID_WIDTH as int)
    &&& by == ring_prev(ay, GRID_HEIGHT as int) || by == ay || by == ring_next(
        ay,
        GRID_HEIGHT as int,
    )
    &&& !(bx == ax && by == ay)
}

/// What cell `(bx, by)` adds to the neighbour count of `(ax, ay)`: the count
/// with that cell alive, less the count with it dead.
pub open spec fn influence(g: Seq<bool>, ax: int, ay: int, bx: int, by: int) -> int {
    neighbor_count(with_cell(g, bx, by, true), ax, ay) - neighbor_count(
        with_cell(g, bx, by, false),
        ax,
        ay,
    )
}

/// The rule of the game: a live cell survives with two or three live
/// neighbours, a dead cell comes alive with exactly three.
pub open spec fn rule(alive: bool, neighbors: int) -> bool {
    if alive {
        neighbors == 2 || neighbors == 3
    } else {
        neighbors == 3
    }
}

/// The generation that follows `g`: every cell judged by the rule against its
/// neighbours in `g` itself.
pub open spec fn next_generation(g: Seq<bool>) -> Seq<bool> {
    Seq::new(
        GRID_CELLS as nat,
        |i: int| rule(g[i], neighbor_count(g, column_of(i), row_of(i))),
    )
}

/// Step back by one on a ring of `n` positions.
pub fn step_back(i: usize, n: usize) -> (p: usize)
    requires
        i < n,
    ensures
        p == ring_prev(i as int, n as int),
        p < n,
{
    proof {
        if i == 0 {
            lemma_mod_add_multiples_vanish(-1, n as int);
            lemma_small_mod((n - 1) as nat, n as nat);
        } else {
            lemma_small_mod((i - 1) as nat, n as nat);
        }
    }
    if i == 0 {
        n - 1
    } else {
        i - 1
    }
}

/// Step forward by one on a ring of `n` positions.
pub fn step_forward(i: usize, n: usize) -> (s: usize)
    requires
        i < n,
    ensures
        s == ring_next(i as int, n as int),
        s < n,
{
    proof {
        if i == n - 1 {
            lemma_mod_self_0(n as int);
        } else {
            lemma_small_mod((i + 1) as nat, n as nat);
        }
    }
    if i == n - 1 {
        0
    } else {
        i + 1
    }
}

/// The state of a cell in the next generation, from its own state and the
/// number of its live neighbours.
pub fn next_state(alive: bool, neighbors: u32) -> (next: bool)
    ensures
        next == rule(alive, neighbors as int),
{
    match (alive, neighbors) {
        // A live cell with fewer than two live neighbours dies.
        (true, n) if n < 2 => false,
        // A live cell with two or three live neighbours lives on.
        (true, 2) | (true, 3) => true,
        // A live cell with more than three live neighbours dies.
        (true, n) if n > 3 => false,
        // A dead cell with exactly three live neighbours comes alive.
        (false, 3) => true,
        // Every other cell stays as it is.
        (otherwise, _) => otherwise,
    }
}

/// Every cell of the grid has an index of its own, from which its column and
/// row can be read back.
pub proof fn lemma_cell_index(x: int, y: int)
    requires
        in_grid(x, y),
    ensures
        0 <= cell_index(x, y) < GRID_CELLS,
        column_of(cell_index(x, y)) == x,
        row_of(cell_index(x, y)) == y,
{
}

/// Every index below `GRID_CELLS` is the index of one cell of the grid.
pub proof fn lemma_cell_place(i: int)
    requires
        0 <= i < GRID_CELLS,
    ensures
        in_grid(column_of(i), row_of(i)),
        cell_index(column_of(i), row_of(i)) == i,
{
}

/// Inside the grid a step to a neighbour is a step by one, except across an
/// edge, where it lands on the opposite edge.
pub proof fn lemma_wrap_around(x: int, y: int)
    requires
        in_grid(x, y),
    ensures
        ring_prev(x, GRID_WIDTH as int) == (if x == 0 { GRID_WIDTH - 1 } else { x - 1 }),
        ring_next(x, GRID_WIDTH as int) == (if x == GRID_WIDTH - 1 { 0 } else { x + 1 }),
        ring_prev(y, GRID_HEIGHT as int) == (if y == 0 { GRID_HEIGHT - 1 } else { y - 1 }),
        ring_next(y, GRID_HEIGHT as int) == (if y == GRID_HEIGHT - 1 { 0 } else { y + 1 }),
{
}

/// The rule, case by case: a live cell with fewer than two live neighbours
/// dies, with two or three it lives on, with more than three it dies; a dead
/// cell with exactly three comes alive, with any other number it stays dead.
pub proof fn lemma_rule_table(alive: bool, neighbors: int)
    ensures
        alive && neighbors < 2 ==> !rule(alive, neighbors),
        alive && (neighbors == 2 || neighbors == 3) ==> rule(alive, neighbors),
        alive && neighbors > 3 ==> !rule(alive, neighbors),
        !alive && neighbors == 3 ==> rule(alive, neighbors),
        !alive && neighbors != 3 ==> !rule(alive, neighbors),
{
}

/// A cell of the next generation is the rule applied to that cell and its
/// neighbours in the generation before, and to nothing else.
pub proof fn lemma_next_generation_cell(g: Seq<bool>, x: int, y: int)
    requires
        in_grid(x, y),
    ensures
        next_generation(g).len() == GRID_CELLS,
        next_generation(g)[cell_index(x, y)] == rule(g[cell_index(x, y)], neighbor_count(g, x, y)),
{
    lemma_cell_index(x, y);
}

/// Toggling a cell twice in succession restores the generation.
pub proof fn lemma_toggle_twice(g: Seq<bool>, x: int, y: int)
    requires
        g.len() == GRID_CELLS,
        in_grid(x, y),
    ensures
        with_cell_toggled(with_cell_toggled(g, x, y), x, y) == g,
{
    lemma_cell_index(x, y);
}

/// Setting a cell alive and then dead leaves it dead, whatever it was
/// before, and leaves every other cell as it was.
pub proof fn lemma_set_then_clear(g: Seq<bool>, x: int, y: int)
    requires
        g.len() == GRID_CELLS,
        in_grid(x, y),
    ensures
        !with_cell(with_cell(g, x, y, true), x, y, false)[cell_index(x, y)],
        with_cell(with_cell(g, x, y, true), x, y, false) == with_cell(g, x, y, false),
{
    lemma_cell_index(x, y);
}

/// Changing one cell changes what `live` reads at that cell, and nowhere
/// else on the grid.
proof fn lemma_live_update(g: Seq<bool>, bx: int, by: int, state: bool, x: int, y: int)
    requires
        g.len() == GRID_CELLS,
        in_grid(bx, by),
        in_grid(x, y),
    ensures
        live(with_cell(g, bx, by, state), x, y) == (if x == bx && y == by {
            if state {
                1int
            } else {
                0int
            }
        } else {
            live(g, x, y)
        }),
{
    lemma_cell_index(bx, by);
    lemma_cell_index(x, y);
}

/// A cell counts in the neighbour count of the cells adjacent to it on the
/// torus, once in each, and in no other: with the cell alive the count of an
/// adjacent cell is one more than with it dead, and the count of any other
/// cell is the same.
pub proof fn lemma_neighbor_influence(g: Seq<bool>, ax: int, ay: int, bx: int, by: int)
    requires
        g.len() == GRID_CELLS,
        in_grid(ax, ay),
        in_grid(bx, by),
    ensures
        influence(g, ax, ay, bx, by) == (if adjacent(ax, ay, bx, by) {
            1int
        } else {
            0int
        }),
{
    let left = ring_prev(ax, GRID_WIDTH as int);
    let right = ring_next(ax, GRID_WIDTH as int);
    let above = ring_prev(ay, GRID_HEIGHT as int);
    let below = ring_next(ay, GRID_HEIGHT as int);
    lemma_wrap_around(ax, ay);
    lemma_live_update(g, bx, by, true, left, above);
    lemma_live_update(g, bx, by, false, left, above);
    lemma_live_update(g, bx, by, true, ax, above);
    lemma_live_update(g, bx, by, false, ax, above);
    lemma_live_update(g, bx, by, true, right, above);
    lemma_live_update(g, bx, by, false, right, above);
    lemma_live_update(g, bx, by, true, left, ay);
    lemma_live_update(g, bx, by, false, left, ay);
    lemma_live_update(g, bx, by, true, right, ay);
    lemma_live_update(g, bx, by, false, right, ay);
    lemma_live_update(g, bx, by, true, left, below);
    lemma_live_update(g, bx, by, false, left, below);
    lemma_live_update(g, bx, by, true, ax, below);
    lemma_live_update(g, bx, by, false, ax, below);
    lemma_live_update(g, bx, by, true, right, below);
    lemma_live_update(g, bx, by, false, right, below);
}

/// The grid has no edge: the cell in the first column of the first row
/// counts for the cells in the last column and in the last row exactly as it
/// counts for the cells beside and below it.
pub proof fn lemma_origin_wraps(g: Seq<bool>)
    requires
        g.len() == GRID_CELLS,
    ensures
        influence(g, GRID_WIDTH - 1, 0, 0, 0) == 1,
        influence(g, 0, GRID_HEIGHT - 1, 0, 0) == 1,
        influence(g, GRID_WIDTH - 1, GRID_HEIGHT - 1, 0, 0) == 1,
        influence(g, 1, 0, 0, 0) == 1,
        influence(g, 0, 1, 0, 0) == 1,
        influence(g, 1, 1, 0, 0) == 1,
{
    lemma_wrap_around(GRID_WIDTH - 1, GRID_HEIGHT - 1);
    lemma_wrap_around(1, 1);
    lemma_wrap_around(0, 0);
    lemma_neighbor_influence(g, GRID_WIDTH - 1, 0, 0, 0);
    lemma_neighbor_influence(g, 0, GRID_HEIGHT - 1, 0, 0);
    lemma_neighbor_influence(g, GRID_WIDTH - 1, GRID_HEIGHT - 1, 0, 0);
    lemma_neighbor_influence(g, 1, 0, 0, 0);
    lemma_neighbor_influence(g, 0, 1, 0, 0);
    lemma_neighbor_influence(g, 1, 1, 0, 0);
}

} // verus!
