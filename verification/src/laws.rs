use vstd::prelude::*;

use crate::board::{alive_as_int, cell_at, grid_dims, neighbor_count, next_grid};
use crate::cell_state::CellState;
use crate::rules::spec_evolve;

verus! {

/// Determinism: the next generation is a pure function of the current grid,
/// so two boards holding identical grids step to identical grids.
pub proof fn lemma_update_deterministic(grid1: Seq<Seq<CellState>>, grid2: Seq<Seq<CellState>>)
    requires
        grid1 == grid2,
    ensures
        next_grid(grid1) == next_grid(grid2),
{
}

/// Simultaneity: every cell of the next generation is the transition rule
/// applied to the pre-update snapshot — its own old state and the count of
/// alive neighbors in the old grid — never to a partially updated one.
pub proof fn lemma_update_simultaneous(grid: Seq<Seq<CellState>>, x: int, y: int)
    requires
        0 <= x < grid.len(),
        0 <= y < grid[x].len(),
    ensures
        next_grid(grid)[x][y] == spec_evolve(cell_at(grid, x, y), neighbor_count(grid, x, y)),
{
}

/// On an all-dead grid of any size, every coordinate — on the grid or off
/// it — has exactly 0 alive neighbors.
pub proof fn lemma_all_dead_no_neighbors(grid: Seq<Seq<CellState>>, x: int, y: int)
    requires
        forall|i: int, j: int|
            0 <= i < grid.len() && 0 <= j < grid[i].len() ==> #[trigger] grid[i][j]
                == CellState::Dead,
    ensures
        neighbor_count(grid, x, y) == 0,
{
}

/// A corner cell considers at most 3 neighbors: at least five of its eight
/// Moore offsets fall off the grid and are excluded from the count.
pub proof fn lemma_corner_at_most_three_neighbors(
    grid: Seq<Seq<CellState>>,
    width: int,
    height: int,
    x: int,
    y: int,
)
    requires
        grid_dims(grid, width, height),
        0 <= x < width,
        0 <= y < height,
        x == 0 || x == width - 1,
        y == 0 || y == height - 1,
    ensures
        neighbor_count(grid, x, y) <= 3,
{
    assert(alive_as_int(cell_at(grid, x - 1, y - 1)) <= 1);
    assert(alive_as_int(cell_at(grid, x - 1, y)) <= 1);
    assert(alive_as_int(cell_at(grid, x - 1, y + 1)) <= 1);
    assert(alive_as_int(cell_at(grid, x, y - 1)) <= 1);
    assert(alive_as_int(cell_at(grid, x, y + 1)) <= 1);
    assert(alive_as_int(cell_at(grid, x + 1, y - 1)) <= 1);
    assert(alive_as_int(cell_at(grid, x + 1, y)) <= 1);
    assert(alive_as_int(cell_at(grid, x + 1, y + 1)) <= 1);
}

/// Boundary non-wrapping, first half: a single alive cell in the corner
/// `(0, 0)` of a grid of any size of at least 2x2 leaves every neighbor
/// count at 0 or 1, so after one generation the whole grid is dead.
pub proof fn lemma_lone_corner_cell_dies(grid: Seq<Seq<CellState>>, width: int, height: int)
    requires
        grid_dims(grid, width, height),
        width >= 2,
        height >= 2,
        forall|i: int, j: int|
            0 <= i < width && 0 <= j < height ==> #[trigger] grid[i][j] == (if i == 0 && j == 0 {
                CellState::Alive
            } else {
                CellState::Dead
            }),
    ensures
        forall|i: int, j: int|
            0 <= i < width && 0 <= j < height ==> #[trigger] next_grid(grid)[i][j]
                == CellState::Dead,
{
    assert forall|i: int, j: int|
        0 <= i < width && 0 <= j < height implies #[trigger] next_grid(grid)[i][j]
        == CellState::Dead by {
        assert(neighbor_count(grid, i, j) <= 1);
    }
}

/// Boundary non-wrapping, second half: with only the corner `(0, 0)` alive
/// and the grid at least 3 cells wide, no coordinate on the opposite edge
/// counts any alive neighbor — the lone cell never wraps around.
pub proof fn lemma_no_wrap_to_opposite_edge(
    grid: Seq<Seq<CellState>>,
    width: int,
    height: int,
    y: int,
)
    requires
        grid_dims(grid, width, height),
        width >= 3,
        0 <= y < height,
        forall|i: int, j: int|
            0 <= i < width && 0 <= j < height ==> #[trigger] grid[i][j] == (if i == 0 && j == 0 {
                CellState::Alive
            } else {
                CellState::Dead
            }),
    ensures
        neighbor_count(grid, width - 1, y) == 0,
{
}

} // verus!
