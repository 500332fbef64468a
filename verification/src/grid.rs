//! The automaton grid and its transition function.
//!
//! A grid is a fixed 5x5 matrix of boolean cell states. The transition
//! function applies Conway's rule with a zero-padded boundary: positions
//! outside the matrix count as permanently dead neighbors (no wraparound).
//! All cells of a generation are computed from the pre-transition grid.

use vstd::prelude::*;

verus! {

/// The mathematical model of a matrix of booleans: row-major nested sequences.
pub open spec fn bool_grid(m: [[bool; 5]; 5]) -> Seq<Seq<bool>> {
    Seq::new(5, |r: int| Seq::new(5, |c: int| m[r][c]))
}

/// The model of a matrix of intensities, as handed to the display boundary.
pub open spec fn int_grid(m: [[u8; 5]; 5]) -> Seq<Seq<u8>> {
    Seq::new(5, |r: int| Seq::new(5, |c: int| m[r][c]))
}

/// A cell read with the zero-padding boundary policy: positions outside the
/// 5x5 bounds are permanently dead.
pub open spec fn cell_at(g: Seq<Seq<bool>>, r: int, c: int) -> bool {
    0 <= r < 5 && 0 <= c < 5 && g[r][c]
}

/// 1 if the cell is alive, 0 otherwise (out-of-bounds positions count 0).
pub open spec fn live_at(g: Seq<Seq<bool>>, r: int, c: int) -> int {
    if cell_at(g, r, c) {
        1
    } else {
        0
    }
}

/// The number of live cells among the 8 positions adjacent to (r, c).
pub open spec fn neighbor_count(g: Seq<Seq<bool>>, r: int, c: int) -> int {
    live_at(g, r - 1, c - 1) + live_at(g, r - 1, c) + live_at(g, r - 1, c + 1) + live_at(
        g,
        r,
        c - 1,
    ) + live_at(g, r, c + 1) + live_at(g, r + 1, c - 1) + live_at(g, r + 1, c) + live_at(
        g,
        r + 1,
        c + 1,
    )
}

/// Conway's rule for one cell: an alive cell survives with 2 or 3 live
/// neighbors; a dead cell becomes alive with exactly 3; all else is dead.
pub open spec fn step_rule(alive: bool, neighbors: int) -> bool {
    if alive {
        neighbors == 2 || neighbors == 3
    } else {
        neighbors == 3
    }
}

/// One generation of the automaton, every cell computed from the old grid.
pub open spec fn next_grid(g: Seq<Seq<bool>>) -> Seq<Seq<bool>> {
    Seq::new(5, |r: int| Seq::new(5, |c: int| step_rule(cell_at(g, r, c), neighbor_count(g, r, c))))
}

/// The state container of the automaton.
pub struct LifeState {
    pub matrix: [[bool; 5]; 5],
}

/// Intensities of a grid as the display boundary expects them: 1 for an
/// alive cell, 0 for a dead one.
pub open spec fn render(g: Seq<Seq<bool>>) -> Seq<Seq<u8>> {
    Seq::new(
        5,
        |r: int|
            Seq::new(
                5,
                |c: int|
                    if cell_at(g, r, c) {
                        1u8
                    } else {
                        0u8
                    },
            ),
    )
}

/// The boolean grid read back from rendered intensities: any nonzero
/// intensity counts as alive, matching what the LED driver lights.
pub open spec fn parse(img: Seq<Seq<u8>>) -> Seq<Seq<bool>> {
    Seq::new(5, |r: int| Seq::new(5, |c: int| img[r][c] != 0))
}

impl LifeState {
    /// The grid's mathematical model.
    pub open spec fn grid(self) -> Seq<Seq<bool>> {
        bool_grid(self.matrix)
    }

    /// Advance the automaton by exactly one generation, every cell computed
    /// simultaneously from the pre-transition grid.
    pub fn next_state(&mut self)
        ensures
            final(self).grid() == next_grid(old(self).grid()),
    {
        let mut next_state_matrix: [[bool; 5]; 5] = [[false; 5]; 5];
        let mut row_n: usize = 0;
        while row_n < 5
            invariant
                row_n <= 5,
                *self == *old(self),
                forall|r: int, c: int|
                    0 <= r < row_n && 0 <= c < 5 ==> next_state_matrix[r][c] == next_grid(old(self).grid())[r][c],
            decreases 5 - row_n,
        {
            let mut new_row: [bool; 5] = [false; 5];
            let mut col_n: usize = 0;
            while col_n < 5
                invariant
                    col_n <= 5,
                    row_n < 5,
                    *self == *old(self),
                    forall|c: int| 0 <= c < col_n ==> new_row[c] == next_grid(old(self).grid())[row_n as int][c],
                decreases 5 - col_n,
            {
                let n_neighbors = count_live_neighbors(self.matrix, row_n, col_n);
                let element = self.matrix[row_n][col_n];
                let alive = if element {
                    n_neighbors == 2 || n_neighbors == 3
                } else {
                    n_neighbors == 3
                };
                new_row[col_n] = alive;
                col_n = col_n + 1;
            }
            next_state_matrix[row_n] = new_row;
            row_n = row_n + 1;
        }
        self.matrix = next_state_matrix;
        proof {
            assert(self.grid() =~~= next_grid(old(self).grid()));
        }
    }

    /// The grid converted to per-cell intensities for the display boundary.
    pub fn int_matrix(&self) -> (m: [[u8; 5]; 5])
        ensures
            int_grid(m) == render(self.grid()),
    {
        let mut m: [[u8; 5]; 5] = [[0; 5]; 5];
        let mut row_n: usize = 0;
        while row_n < 5
            invariant
                row_n <= 5,
                forall|r: int, c: int|
                    0 <= r < row_n && 0 <= c < 5 ==> m[r][c] == render(self.grid())[r][c],
            decreases 5 - row_n,
        {
            let mut new_row: [u8; 5] = [0; 5];
            let mut col_n: usize = 0;
            while col_n < 5
                invariant
                    col_n <= 5,
                    row_n < 5,
                    forall|c: int|
                        0 <= c < col_n ==> new_row[c] == render(self.grid())[row_n as int][c],
                decreases 5 - col_n,
            {
                new_row[col_n] = if self.matrix[row_n][col_n] {
                    1
                } else {
                    0
                };
                col_n = col_n + 1;
            }
            m[row_n] = new_row;
            row_n = row_n + 1;
        }
        proof {
            assert(int_grid(m) =~~= render(self.grid()));
        }
        m
    }

    /// The grid read back from rendered intensities, the inverse of
    /// `int_matrix` on every grid.
    pub fn from_int_matrix(m: &[[u8; 5]; 5]) -> (s: LifeState)
        ensures
            s.grid() == parse(int_grid(*m)),
    {
        let mut matrix: [[bool; 5]; 5] = [[false; 5]; 5];
        let mut row_n: usize = 0;
        while row_n < 5
            invariant
                row_n <= 5,
                forall|r: int, c: int|
                    0 <= r < row_n && 0 <= c < 5 ==> matrix[r][c] == parse(int_grid(*m))[r][c],
            decreases 5 - row_n,
        {
            let mut new_row: [bool; 5] = [false; 5];
            let mut col_n: usize = 0;
            while col_n < 5
                invariant
                    col_n <= 5,
                    row_n < 5,
                    forall|c: int|
                        0 <= c < col_n ==> new_row[c] == parse(int_grid(*m))[row_n as int][c],
                decreases 5 - col_n,
            {
                new_row[col_n] = m[row_n][col_n] != 0;
                col_n = col_n + 1;
            }
            matrix[row_n] = new_row;
            row_n = row_n + 1;
        }
        let s = LifeState { matrix };
        proof {
            assert(s.grid() =~~= parse(int_grid(*m)));
        }
        s
    }
}

/// The number of live neighbors of the cell at (target_row, target_col),
/// with out-of-bounds positions treated as dead.
fn count_live_neighbors(matrix: [[bool; 5]; 5], target_row: usize, target_col: usize) -> (n: u8)
    requires
        target_row < 5,
        target_col < 5,
    ensures
        n as int == neighbor_count(bool_grid(matrix), target_row as int, target_col as int),
{
    let mut n: u8 = 0;
    if target_row > 0 {
        if target_col > 0 && matrix[target_row - 1][target_col - 1] {
            n = n + 1;
        }
        if matrix[target_row - 1][target_col] {
            n = n + 1;
        }
        if target_col < 4 && matrix[target_row - 1][target_col + 1] {
            n = n + 1;
        }
    }
    if target_col > 0 && matrix[target_row][target_col - 1] {
        n = n + 1;
    }
    if target_col < 4 && matrix[target_row][target_col + 1] {
        n = n + 1;
    }
    if target_row < 4 {
        if target_col > 0 && matrix[target_row + 1][target_col - 1] {
            n = n + 1;
        }
        if matrix[target_row + 1][target_col] {
            n = n + 1;
        }
        if target_col < 4 && matrix[target_row + 1][target_col + 1] {
            n = n + 1;
        }
    }
    n
}

/// Law: the transition is a pure, deterministic function of the grid value;
/// equal grids step to equal grids.
pub proof fn lemma_next_deterministic(a: Seq<Seq<bool>>, b: Seq<Seq<bool>>)
    requires
        a == b,
    ensures
        next_grid(a) == next_grid(b),
{
}

/// Law of the boundary policy: a grid whose only alive cell sits in a corner
/// steps to the all-dead grid. With the zero-padded boundary a lone cell never
/// has live neighbors, so nothing survives and nothing is born.
pub proof fn lemma_lone_corner_cell_dies(s: LifeState, r: int, c: int)
    requires
        r == 0 || r == 4,
        c == 0 || c == 4,
        forall|i: int, j: int| 0 <= i < 5 && 0 <= j < 5 ==> (s.grid()[i][j] <==> (i == r && j == c)),
    ensures
        forall|i: int, j: int| 0 <= i < 5 && 0 <= j < 5 ==> !next_grid(s.grid())[i][j],
{
    let g = s.grid();
    assert forall|x: int, y: int| live_at(g, x, y) == (if x == r && y == c {
        1int
    } else {
        0int
    }) by {
        if 0 <= x < 5 && 0 <= y < 5 {
            assert(g[x][y] <==> (x == r && y == c));
        }
    }
    assert forall|i: int, j: int| 0 <= i < 5 && 0 <= j < 5 implies !next_grid(g)[i][j] by {
        assert(next_grid(g)[i][j] == step_rule(cell_at(g, i, j), neighbor_count(g, i, j)));
        if i == r && j == c {
            assert(neighbor_count(g, i, j) == 0);
        } else {
            assert(!cell_at(g, i, j));
            assert(neighbor_count(g, i, j) <= 1);
        }
    }
}

/// Law: rendering a grid to intensities and parsing the intensities back
/// recovers the original grid exactly.
pub proof fn lemma_render_round_trip(s: LifeState)
    ensures
        parse(render(s.grid())) == s.grid(),
{
    assert(parse(render(s.grid())) =~~= s.grid());
}

} // verus!
