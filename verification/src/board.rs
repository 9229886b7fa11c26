use vstd::prelude::*;

use crate::cell_state::CellState;
use crate::pattern::{
    lemma_row_len_le_max, longest_row_len, max_row_len, pattern_marks, pattern_marks_before,
    pattern_offset, pattern_rows,
};
use crate::random::{fresh_rng, random_ratio};
use crate::rules::{evolve_cell, spec_evolve};

verus! {

/// A fixed-size grid of cell states, indexed as `cells[x][y]` with
/// `0 <= x < grid_width` and `0 <= y < grid_height`. The grid does not wrap:
/// out-of-range coordinates read as dead cells.
#[derive(Clone)]
pub struct Board {
    pub grid_width: usize,
    pub grid_height: usize,
    pub cells: Vec<Vec<CellState>>,
}

impl View for Board {
    type V = Seq<Seq<CellState>>;

    open spec fn view(&self) -> Seq<Seq<CellState>> {
        self.cells@.map_values(|row: Vec<CellState>| row@)
    }
}

/// The grid has exactly `width` columns of exactly `height` cells each.
pub open spec fn grid_dims(grid: Seq<Seq<CellState>>, width: int, height: int) -> bool {
    &&& grid.len() == width
    &&& forall|x: int| 0 <= x < grid.len() ==> (#[trigger] grid[x]).len() == height
}

/// The cell stored at `(x, y)`, or `Dead` for any coordinate outside the
/// grid (the closed, non-wrapping boundary condition).
pub open spec fn cell_at(grid: Seq<Seq<CellState>>, x: int, y: int) -> CellState {
    if 0 <= x < grid.len() && 0 <= y < grid[x].len() {
        grid[x][y]
    } else {
        CellState::Dead
    }
}

/// 1 for an alive cell, 0 for a dead one.
pub open spec fn alive_as_int(state: CellState) -> int {
    if state == CellState::Alive {
        1
    } else {
        0
    }
}

/// The number of alive cells among the 8 Moore neighbors of `(x, y)`:
/// the 3x3 block centered on the cell, excluding the cell itself.
/// Off-grid coordinates contribute nothing.
pub open spec fn neighbor_count(grid: Seq<Seq<CellState>>, x: int, y: int) -> int {
    alive_as_int(cell_at(grid, x - 1, y - 1)) + alive_as_int(cell_at(grid, x - 1, y))
        + alive_as_int(cell_at(grid, x - 1, y + 1)) + alive_as_int(cell_at(grid, x, y - 1))
        + alive_as_int(cell_at(grid, x, y + 1)) + alive_as_int(cell_at(grid, x + 1, y - 1))
        + alive_as_int(cell_at(grid, x + 1, y)) + alive_as_int(cell_at(grid, x + 1, y + 1))
}

/// The next generation: every cell evolves from a snapshot of the current
/// grid, so no transition observes a partially updated state.
pub open spec fn next_grid(grid: Seq<Seq<CellState>>) -> Seq<Seq<CellState>> {
    Seq::new(
        grid.len(),
        |x: int|
            Seq::new(
                grid[x].len(),
                |y: int| spec_evolve(grid[x][y], neighbor_count(grid, x, y)),
            ),
    )
}

impl Board {
    /// The grid's shape matches the stored dimensions: `grid_width` columns,
    /// each of exactly `grid_height` cells. Established by `new` and kept by
    /// every mutation.
    pub open spec fn wf(self) -> bool {
        grid_dims(self@, self.grid_width as int, self.grid_height as int)
    }

    /// Allocates a `grid_width` by `grid_height` grid with every cell dead.
    pub fn new(grid_width: usize, grid_height: usize) -> (board: Board)
        ensures
            board.wf(),
            board.grid_width == grid_width,
            board.grid_height == grid_height,
            forall|x: int, y: int|
                0 <= x < grid_width && 0 <= y < grid_height ==> #[trigger] cell_at(
                    board@,
                    x,
                    y,
                ) == CellState::Dead,
    {
        let mut cells: Vec<Vec<CellState>> = Vec::new();
        let mut x: usize = 0;
        while x < grid_width
            invariant
                x <= grid_width,
                cells@.len() == x,
                forall|i: int|
                    0 <= i < x ==> (#[trigger] cells@[i])@.len() == grid_height,
                forall|i: int, j: int|
                    0 <= i < x && 0 <= j < grid_height ==> cells@[i]@[j] == CellState::Dead,
            decreases grid_width - x,
        {
            let mut row: Vec<CellState> = Vec::new();
            let mut y: usize = 0;
            while y < grid_height
                invariant
                    y <= grid_height,
                    row@.len() == y,
                    forall|j: int| 0 <= j < y ==> row@[j] == CellState::Dead,
                decreases grid_height - y,
            {
                row.push(CellState::Dead);
                y = y + 1;
            }
            cells.push(row);
            x = x + 1;
        }
        let board = Board { grid_width, grid_height, cells };
        board
    }

    /// The stored state at `(x, y)`, or `Dead` when the coordinate is out of
    /// range: boundary cells behave as permanently dead, never as an error.
    pub fn get_cell(&self, x: usize, y: usize) -> (state: CellState)
        requires
            self.wf(),
        ensures
            state == cell_at(self@, x as int, y as int),
    {
        if x < self.grid_width && y < self.grid_height {
            self.cells[x][y]
        } else {
            CellState::Dead
        }
    }

    /// Writes `cell_state` at `(x, y)` when the coordinate is in range, and
    /// silently does nothing otherwise. No other cell changes.
    pub fn set_cell(&mut self, x: usize, y: usize, cell_state: CellState)
        requires
            old(self).wf(),
        ensures
            final(self).wf(),
            final(self).grid_width == old(self).grid_width,
            final(self).grid_height == old(self).grid_height,
            forall|i: int, j: int|
                #![trigger cell_at(final(self)@, i, j)]
                cell_at(final(self)@, i, j) == if i == x as int && j == y as int && x
                    < old(self).grid_width && y < old(self).grid_height {
                    cell_state
                } else {
                    cell_at(old(self)@, i, j)
                },
    {
        if x < self.grid_width && y < self.grid_height {
            proof {
                assert(self@[x as int] == self.cells@[x as int]@);
            }
            let row = &mut self.cells[x];
            row.set(y, cell_state);
            proof {
                assert(self@[x as int] == self.cells@[x as int]@);
                assert forall|i: int|
                    0 <= i < self@.len() && i != x as int implies #[trigger] self@[i] == old(
                    self,
                )@[i] by {
                    assert(old(self)@[i] == old(self).cells@[i]@);
                }
            }
        }
    }

    /// True exactly when `(x, y)` addresses a cell of the grid: both
    /// coordinates non-negative, `x` below the width and `y` below the
    /// height.
    pub fn is_coord_in_board(&self, x: isize, y: isize) -> (in_board: bool)
        ensures
            in_board == (0 <= x && (x as int) < self.grid_width as int && 0 <= y && (y as int)
                < self.grid_height as int),
    {
        if x < 0 || y < 0 {
            return false;
        }
        (x as usize) < self.grid_width && (y as usize) < self.grid_height
    }

    /// Counts the alive cells among the 8 Moore neighbors of `(x, y)`.
    /// Neighbors that fall outside the grid are excluded entirely, so a
    /// corner cell considers at most 3 neighbors.
    pub fn count_alive_neighbors(&self, x: usize, y: usize) -> (count: u8)
        requires
            self.wf(),
            x < usize::MAX,
            y < usize::MAX,
        ensures
            count as int == neighbor_count(self@, x as int, y as int),
    {
        let mut count: u8 = 0;
        if x > 0 && y > 0 && self.get_cell(x - 1, y - 1) == CellState::Alive {
            count = count + 1;
        }
        if x > 0 && self.get_cell(x - 1, y) == CellState::Alive {
            count = count + 1;
        }
        if x > 0 && self.get_cell(x - 1, y + 1) == CellState::Alive {
            count = count + 1;
        }
        if y > 0 && self.get_cell(x, y - 1) == CellState::Alive {
            count = count + 1;
        }
        if self.get_cell(x, y + 1) == CellState::Alive {
            count = count + 1;
        }
        if y > 0 && self.get_cell(x + 1, y - 1) == CellState::Alive {
            count = count + 1;
        }
        if self.get_cell(x + 1, y) == CellState::Alive {
            count = count + 1;
        }
        if self.get_cell(x + 1, y + 1) == CellState::Alive {
            count = count + 1;
        }
        count
    }

    /// Advances the board by exactly one generation: every cell evolves by
    /// the transition rule applied to a snapshot of the current grid, and the
    /// whole grid is replaced at once, so no cell's transition observes
    /// another cell's new state.
    pub fn update(&mut self)
        requires
            old(self).wf(),
        ensures
            final(self).wf(),
            final(self).grid_width == old(self).grid_width,
            final(self).grid_height == old(self).grid_height,
            final(self)@ == next_grid(old(self)@),
            forall|x: int, y: int|
                0 <= x < old(self).grid_width && 0 <= y < old(self).grid_height
                    ==> #[trigger] cell_at(final(self)@, x, y) == spec_evolve(
                    cell_at(old(self)@, x, y),
                    neighbor_count(old(self)@, x, y),
                ),
    {
        let mut new_cells: Vec<Vec<CellState>> = Vec::new();
        let mut x: usize = 0;
        while x < self.grid_width
            invariant
                *self == *old(self),
                self.wf(),
                x <= self.grid_width,
                new_cells@.len() == x,
                forall|i: int|
                    0 <= i < x ==> (#[trigger] new_cells@[i])@.len() == self.grid_height,
                forall|i: int, j: int|
                    0 <= i < x && 0 <= j < self.grid_height ==> new_cells@[i]@[j] == spec_evolve(
                        self@[i][j],
                        neighbor_count(self@, i, j),
                    ),
            decreases self.grid_width - x,
        {
            let mut row: Vec<CellState> = Vec::new();
            let mut y: usize = 0;
            while y < self.grid_height
                invariant
                    *self == *old(self),
                    self.wf(),
                    x < self.grid_width,
                    y <= self.grid_height,
                    row@.len() == y,
                    forall|j: int|
                        0 <= j < y ==> row@[j] == spec_evolve(
                            self@[x as int][j],
                            neighbor_count(self@, x as int, j),
                        ),
                decreases self.grid_height - y,
            {
                let alive_neighbors = self.count_alive_neighbors(x, y);
                let new_cell = evolve_cell(self.get_cell(x, y), alive_neighbors);
                row.push(new_cell);
                y = y + 1;
            }
            new_cells.push(row);
            x = x + 1;
        }
        self.cells = new_cells;
        proof {
            assert(self@ =~~= next_grid(old(self)@));
        }
    }

    /// Reseeds the whole grid at random: every cell, independently, is drawn
    /// alive with probability `alive_numerator / alive_denominator` and dead
    /// otherwise. At the extremes there is no variance: a numerator of 0
    /// yields an all-dead grid, and a numerator equal to the denominator an
    /// all-alive one.
    pub fn set_initial_state(&mut self, alive_numerator: u32, alive_denominator: u32)
        requires
            old(self).wf(),
            0 < alive_denominator,
            alive_numerator <= alive_denominator,
        ensures
            final(self).wf(),
            final(self).grid_width == old(self).grid_width,
            final(self).grid_height == old(self).grid_height,
            alive_numerator == 0 ==> forall|x: int, y: int|
                0 <= x < old(self).grid_width && 0 <= y < old(self).grid_height
                    ==> #[trigger] cell_at(final(self)@, x, y) == CellState::Dead,
            alive_numerator == alive_denominator ==> forall|x: int, y: int|
                0 <= x < old(self).grid_width && 0 <= y < old(self).grid_height
                    ==> #[trigger] cell_at(final(self)@, x, y) == CellState::Alive,
    {
        let mut rng = fresh_rng();
        let mut x: usize = 0;
        while x < self.grid_width
            invariant
                self.wf(),
                self.grid_width == old(self).grid_width,
                self.grid_height == old(self).grid_height,
                x <= self.grid_width,
                0 < alive_denominator,
                alive_numerator <= alive_denominator,
                alive_numerator == 0 ==> forall|i: int, j: int|
                    0 <= i < x && 0 <= j < self.grid_height ==> #[trigger] cell_at(self@, i, j)
                        == CellState::Dead,
                alive_numerator == alive_denominator ==> forall|i: int, j: int|
                    0 <= i < x && 0 <= j < self.grid_height ==> #[trigger] cell_at(self@, i, j)
                        == CellState::Alive,
            decreases self.grid_width - x,
        {
            let mut y: usize = 0;
            while y < self.grid_height
                invariant
                    self.wf(),
                    self.grid_width == old(self).grid_width,
                    self.grid_height == old(self).grid_height,
                    x < self.grid_width,
                    y <= self.grid_height,
                    0 < alive_denominator,
                    alive_numerator <= alive_denominator,
                    alive_numerator == 0 ==> forall|i: int, j: int|
                        0 <= i < self.grid_width && 0 <= j < self.grid_height && (i < x || (i == x
                            && j < y)) ==> #[trigger] cell_at(self@, i, j) == CellState::Dead,
                    alive_numerator == alive_denominator ==> forall|i: int, j: int|
                        0 <= i < self.grid_width && 0 <= j < self.grid_height && (i < x || (i == x
                            && j < y)) ==> #[trigger] cell_at(self@, i, j) == CellState::Alive,
                decreases self.grid_height - y,
            {
                let alive = random_ratio(&mut rng, alive_numerator, alive_denominator);
                let state = if alive {
                    CellState::Alive
                } else {
                    CellState::Dead
                };
                self.set_cell(x, y, state);
                y = y + 1;
            }
            x = x + 1;
        }
    }

    /// Stamps a pattern of text rows onto the grid, centered: the pattern's
    /// bounding box (longest row by row count) is placed at offset
    /// `((grid_width - box_width) / 2, (grid_height - box_height) / 2)`, and
    /// every `'X'` character turns the cell under it alive. All other cells
    /// keep their state: this is an overlay, not a reset.
    pub fn add_pattern(&mut self, pattern: Vec<String>)
        requires
            old(self).wf(),
            pattern@.len() > 0,
            pattern@.len() <= old(self).grid_height,
            max_row_len(pattern_rows(pattern@)) <= old(self).grid_width,
        ensures
            final(self).wf(),
            final(self).grid_width == old(self).grid_width,
            final(self).grid_height == old(self).grid_height,
            forall|i: int, j: int|
                #![trigger cell_at(final(self)@, i, j)]
                0 <= i < old(self).grid_width && 0 <= j < old(self).grid_height ==> cell_at(
                    final(self)@,
                    i,
                    j,
                ) == if pattern_marks(
                    pattern_rows(pattern@),
                    pattern_offset(
                        old(self).grid_width as int,
                        max_row_len(pattern_rows(pattern@)) as int,
                    ),
                    pattern_offset(old(self).grid_height as int, pattern@.len() as int),
                    i,
                    j,
                ) {
                    CellState::Alive
                } else {
                    cell_at(old(self)@, i, j)
                },
    {
        let ghost rows = pattern_rows(pattern@);
        let pattern_width = longest_row_len(&pattern);
        let pattern_height = pattern.len();

        let start_x = (self.grid_width - pattern_width) / 2;
        let start_y = (self.grid_height - pattern_height) / 2;
        let ghost off_x = start_x as int;
        let ghost off_y = start_y as int;

        let mut py: usize = 0;
        while py < pattern.len()
            invariant
                self.wf(),
                self.grid_width == old(self).grid_width,
                self.grid_height == old(self).grid_height,
                rows == pattern_rows(pattern@),
                py <= pattern@.len(),
                pattern@.len() == rows.len(),
                pattern@.len() <= self.grid_height,
                pattern_width as nat == max_row_len(rows),
                pattern_width <= self.grid_width,
                off_x == start_x as int,
                off_y == start_y as int,
                off_x == pattern_offset(self.grid_width as int, pattern_width as int),
                off_y == pattern_offset(self.grid_height as int, pattern@.len() as int),
                start_x + pattern_width <= self.grid_width,
                start_y + pattern@.len() <= self.grid_height,
                forall|i: int, j: int|
                    #![trigger cell_at(self@, i, j)]
                    0 <= i < self.grid_width && 0 <= j < self.grid_height ==> cell_at(self@, i, j)
                        == if pattern_marks_before(rows, off_x, off_y, i, j, py as int, 0) {
                        CellState::Alive
                    } else {
                        cell_at(old(self)@, i, j)
                    },
            decreases pattern@.len() - py,
        {
            let row = &pattern[py];
            let row_len = row.as_str().unicode_len();
            proof {
                lemma_row_len_le_max(rows, py as int);
            }
            let mut px: usize = 0;
            while px < row_len
                invariant
                    self.wf(),
                    self.grid_width == old(self).grid_width,
                    self.grid_height == old(self).grid_height,
                    rows == pattern_rows(pattern@),
                    py < pattern@.len(),
                    pattern@.len() == rows.len(),
                    row@ == rows[py as int],
                    row_len as nat == rows[py as int].len(),
                    px <= row_len,
                    pattern_width as nat == max_row_len(rows),
                    row_len <= pattern_width,
                    start_x + pattern_width <= self.grid_width,
                    start_y + pattern@.len() <= self.grid_height,
                    off_x == start_x as int,
                    off_y == start_y as int,
                    forall|i: int, j: int|
                        #![trigger cell_at(self@, i, j)]
                        0 <= i < self.grid_width && 0 <= j < self.grid_height ==> cell_at(
                            self@,
                            i,
                            j,
                        ) == if pattern_marks_before(
                            rows,
                            off_x,
                            off_y,
                            i,
                            j,
                            py as int,
                            px as int,
                        ) {
                            CellState::Alive
                        } else {
                            cell_at(old(self)@, i, j)
                        },
                decreases row_len - px,
            {
                if row.as_str().get_char(px) == 'X' {
                    self.set_cell(start_x + px, start_y + py, CellState::Alive);
                }
                px = px + 1;
            }
            py = py + 1;
        }
    }

    /// Stamps the R-pentomino onto the 3x3 block whose top-left corner is
    /// `(x, y)`, overwriting all nine cells of the block that lie on the
    /// grid; cells outside the block keep their state.
    pub fn place_r_pentomino(&mut self, x: usize, y: usize)
        requires
            old(self).wf(),
            x + 2 <= usize::MAX,
            y + 2 <= usize::MAX,
        ensures
            final(self).wf(),
            final(self).grid_width == old(self).grid_width,
            final(self).grid_height == old(self).grid_height,
            forall|i: int, j: int|
                #![trigger cell_at(final(self)@, i, j)]
                cell_at(final(self)@, i, j) == if 0 <= i < old(self).grid_width && 0 <= j < old(
                    self,
                ).grid_height && x as int <= i <= x as int + 2 && y as int <= j <= y as int + 2 {
                    r_pentomino_cell(i - x as int, j - y as int)
                } else {
                    cell_at(old(self)@, i, j)
                },
    {
        self.set_cell(x, y, CellState::Dead);
        self.set_cell(x, y + 1, CellState::Alive);
        self.set_cell(x, y + 2, CellState::Dead);

        self.set_cell(x + 1, y, CellState::Alive);
        self.set_cell(x + 1, y + 1, CellState::Alive);
        self.set_cell(x + 1, y + 2, CellState::Alive);

        self.set_cell(x + 2, y, CellState::Alive);
        self.set_cell(x + 2, y + 1, CellState::Dead);
        self.set_cell(x + 2, y + 2, CellState::Dead);
    }
}

/// The R-pentomino stamp: the state written at offset `(dx, dy)` within the
/// 3x3 block, for `0 <= dx <= 2` and `0 <= dy <= 2`.
pub open spec fn r_pentomino_cell(dx: int, dy: int) -> CellState {
    if (dx == 0 && dy == 1) || (dx == 1 && dy == 0) || (dx == 1 && dy == 1) || (dx == 1 && dy == 2)
        || (dx == 2 && dy == 0) {
        CellState::Alive
    } else {
        CellState::Dead
    }
}

} // verus!
