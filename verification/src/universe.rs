//! The automaton engine: two fixed buffers of cell states and a selector that
//! says which of them holds the current generation.
use vstd::prelude::*;
use crate::life::{
    all_dead, cell_index, lemma_cell_index, neighbor_count, next_generation, next_state, step_back,
    step_forward, with_cell, with_cell_toggled, with_glider,
};
use crate::{GRID_CELLS, GRID_HEIGHT, GRID_WIDTH};

verus! {

/// A universe of `GRID_WIDTH` by `GRID_HEIGHT` cells on a torus.
///
/// Its view is the current generation.  The other buffer is scratch space
/// that a step fills before the selector flips.
pub struct Universe {
    state: [[bool; GRID_CELLS]; 2],
    cur: usize,
}

impl View for Universe {
    type V = Seq<bool>;

    closed spec fn view(&self) -> Seq<bool> {
        self.state[self.cur as int]@
    }
}

impl Clone for Universe {
    /// A universe of its own with the same current generation.
    fn clone(&self) -> (copy: Self)
        ensures
            copy@ == self@,
            copy.current_buffer() == self.current_buffer(),
    {
        proof {
            use_type_invariant(self);
        }
        Universe { state: self.state, cur: self.cur }
    }
}

impl Universe {
    #[verifier::type_invariant]
    spec fn selector_in_range(self) -> bool {
        self.cur < 2
    }

    /// Which of the two buffers holds the current generation: 0 or 1.
    pub closed spec fn current_buffer(&self) -> int {
        self.cur as int
    }

    /// Every universe holds exactly `GRID_CELLS` cells.
    pub proof fn lemma_len(self)
        ensures
            self@.len() == GRID_CELLS,
    {
    }

    /// Create a new universe, with every cell dead and the first buffer
    /// current.
    pub fn new() -> (universe: Self)
        ensures
            universe@ == all_dead(),
            universe.current_buffer() == 0,
    {
        Self { state: [[false; GRID_CELLS]; 2], cur: 0 }
    }

    /// Get status of a cell.
    pub fn get(&self, x: usize, y: usize) -> (alive: bool)
        requires
            x < GRID_WIDTH,
            y < GRID_HEIGHT,
        ensures
            alive == self@[cell_index(x as int, y as int)],
    {
        proof {
            use_type_invariant(self);
        }
        self.state[self.cur][y * GRID_WIDTH + x]
    }

    /// Set status of a cell, in place in the current buffer.
    pub fn set(&mut self, x: usize, y: usize, state: bool)
        requires
            x < GRID_WIDTH,
            y < GRID_HEIGHT,
        ensures
            final(self)@ == with_cell(old(self)@, x as int, y as int, state),
            final(self).current_buffer() == old(self).current_buffer(),
    {
        proof {
            use_type_invariant(&*self);
        }
        self.state[self.cur][y * GRID_WIDTH + x] = state;
    }

    /// Toggle a cell dead/alive, in place in the current buffer.
    pub fn toggle(&mut self, x: usize, y: usize)
        requires
            x < GRID_WIDTH,
            y < GRID_HEIGHT,
        ensures
            final(self)@ == with_cell_toggled(old(self)@, x as int, y as int),
            final(self).current_buffer() == old(self).current_buffer(),
    {
        proof {
            use_type_invariant(&*self);
        }
        self.state[self.cur][y * GRID_WIDTH + x] ^= true;
    }

    /// Bring the glider at the centre of the grid to life.
    pub fn seed_glider(&mut self)
        ensures
            final(self)@ == with_glider(old(self)@),
            final(self).current_buffer() == old(self).current_buffer(),
    {
        self.set(GRID_WIDTH / 2 + 0, GRID_HEIGHT / 2 - 1, true);
        self.set(GRID_WIDTH / 2 + 1, GRID_HEIGHT / 2 + 0, true);
        self.set(GRID_WIDTH / 2 - 1, GRID_HEIGHT / 2 + 1, true);
        self.set(GRID_WIDTH / 2 + 0, GRID_HEIGHT / 2 + 1, true);
        self.set(GRID_WIDTH / 2 + 1, GRID_HEIGHT / 2 + 1, true);
    }

    /// Count the live cells among the eight neighbours of a cell, going
    /// round the edges of the grid.
    pub fn live_neighbors(&self, x: usize, y: usize) -> (count: u32)
        requires
            x < GRID_WIDTH,
            y < GRID_HEIGHT,
        ensures
            count == neighbor_count(self@, x as int, y as int),
    {
        // wrap around y
        let yp = step_back(y, GRID_HEIGHT);
        let yn = step_forward(y, GRID_HEIGHT);
        // wrap around x
        let xp = step_back(x, GRID_WIDTH);
        let xn = step_forward(x, GRID_WIDTH);

        self.get(xp, yp) as u32 + self.get(x, yp) as u32 + self.get(xn, yp) as u32
            + self.get(xp, y) as u32 + self.get(xn, y) as u32
            + self.get(xp, yn) as u32 + self.get(x, yn) as u32 + self.get(xn, yn) as u32
    }

    /// Run cellular automaton: replace the current generation by the next.
    ///
    /// Every cell of the next generation is computed from the current one
    /// alone and written to the scratch buffer, which then becomes current.
    pub fn iterate(&mut self)
        ensures
            final(self)@ == next_generation(old(self)@),
            final(self).current_buffer() == 1 - old(self).current_buffer(),
    {
        proof {
            use_type_invariant(&*self);
        }
        let ghost before = self@;
        let cur = self.cur;
        for y in 0..GRID_HEIGHT
            invariant
                cur < 2,
                self.cur == cur,
                self@ == before,
                forall|i: int|
                    0 <= i < y * GRID_WIDTH ==> self.state[1 - cur]@[i] == next_generation(
                        before,
                    )[i],
        {
            let yi = y * GRID_WIDTH;
            for x in 0..GRID_WIDTH
                invariant
                    cur < 2,
                    self.cur == cur,
                    y < GRID_HEIGHT,
                    yi == y * GRID_WIDTH,
                    self@ == before,
                    forall|i: int|
                        0 <= i < yi + x ==> self.state[1 - cur]@[i] == next_generation(
                            before,
                        )[i],
            {
                let count = self.live_neighbors(x, y);
                let alive = self.get(x, y);
                proof {
                    lemma_cell_index(x as int, y as int);
                }
                self.state[1 - cur][yi + x] = next_state(alive, count);
            }
        }
        self.cur = 1 - cur;
    }
}

} // verus!
