use vstd::prelude::*;

use crate::board::{cell_at, next_grid, Board};
use crate::cell_state::CellState;
use crate::pattern::{max_row_len, pattern_marks, pattern_offset, pattern_rows};

verus! {

/// The simulation state handed to a driver: a board sized in pixels and
/// scaled down by the cell size.
#[derive(Clone)]
pub struct GameState {
    pub board: Board,
}

impl GameState {
    /// Builds a game whose grid has one cell per `cell_size` pixels of the
    /// given window dimensions, every cell dead.
    pub fn new(width: usize, height: usize, cell_size: usize) -> (game_state: GameState)
        requires
            cell_size > 0,
        ensures
            game_state.board.wf(),
            game_state.board.grid_width == width as int / cell_size as int,
            game_state.board.grid_height == height as int / cell_size as int,
            forall|x: int, y: int|
                0 <= x < game_state.board.grid_width && 0 <= y < game_state.board.grid_height
                    ==> #[trigger] cell_at(game_state.board@, x, y) == CellState::Dead,
    {
        let grid_width = width / cell_size;
        let grid_height = height / cell_size;

        GameState { board: Board::new(grid_width, grid_height) }
    }

    /// Reseeds the board at random; see `Board::set_initial_state`.
    pub fn init(&mut self, alive_numerator: u32, alive_denominator: u32)
        requires
            old(self).board.wf(),
            0 < alive_denominator,
            alive_numerator <= alive_denominator,
        ensures
            final(self).board.wf(),
            final(self).board.grid_width == old(self).board.grid_width,
            final(self).board.grid_height == old(self).board.grid_height,
            alive_numerator == 0 ==> forall|x: int, y: int|
                0 <= x < old(self).board.grid_width && 0 <= y < old(self).board.grid_height
                    ==> #[trigger] cell_at(final(self).board@, x, y) == CellState::Dead,
            alive_numerator == alive_denominator ==> forall|x: int, y: int|
                0 <= x < old(self).board.grid_width && 0 <= y < old(self).board.grid_height
                    ==> #[trigger] cell_at(final(self).board@, x, y) == CellState::Alive,
    {
        self.board.set_initial_state(alive_numerator, alive_denominator);
    }

    /// Stamps a centered pattern onto the board; see `Board::add_pattern`.
    pub fn add_pattern(&mut self, pattern: Vec<String>)
        requires
            old(self).board.wf(),
            pattern@.len() > 0,
            pattern@.len() <= old(self).board.grid_height,
            max_row_len(pattern_rows(pattern@)) <= old(self).board.grid_width,
        ensures
            final(self).board.wf(),
            final(self).board.grid_width == old(self).board.grid_width,
            final(self).board.grid_height == old(self).board.grid_height,
            forall|i: int, j: int|
                #![trigger cell_at(final(self).board@, i, j)]
                0 <= i < old(self).board.grid_width && 0 <= j < old(self).board.grid_height
                    ==> cell_at(final(self).board@, i, j) == if pattern_marks(
                    pattern_rows(pattern@),
                    pattern_offset(
                        old(self).board.grid_width as int,
                        max_row_len(pattern_rows(pattern@)) as int,
                    ),
                    pattern_offset(old(self).board.grid_height as int, pattern@.len() as int),
                    i,
                    j,
                ) {
                    CellState::Alive
                } else {
                    cell_at(old(self).board@, i, j)
                },
    {
        self.board.add_pattern(pattern);
    }

    /// Advances the board by one generation; see `Board::update`.
    pub fn update(&mut self)
        requires
            old(self).board.wf(),
        ensures
            final(self).board.wf(),
            final(self).board.grid_width == old(self).board.grid_width,
            final(self).board.grid_height == old(self).board.grid_height,
            final(self).board@ == next_grid(old(self).board@),
    {
        self.board.update();
    }
}

/// Seeds a fresh game for a driver: stamps the pattern, centered, when one
/// was supplied, and otherwise reseeds the whole board at random with the
/// given alive probability.
pub fn initialize_game_state(
    game_state: &mut GameState,
    pattern: Option<Vec<String>>,
    alive_numerator: u32,
    alive_denominator: u32,
)
    requires
        old(game_state).board.wf(),
        pattern is Some ==> {
            &&& pattern->0@.len() > 0
            &&& pattern->0@.len() <= old(game_state).board.grid_height
            &&& max_row_len(pattern_rows(pattern->0@)) <= old(game_state).board.grid_width
        },
        pattern is None ==> 0 < alive_denominator && alive_numerator <= alive_denominator,
    ensures
        final(game_state).board.wf(),
        final(game_state).board.grid_width == old(game_state).board.grid_width,
        final(game_state).board.grid_height == old(game_state).board.grid_height,
        pattern is Some ==> forall|i: int, j: int|
            #![trigger cell_at(final(game_state).board@, i, j)]
            0 <= i < old(game_state).board.grid_width && 0 <= j < old(
                game_state,
            ).board.grid_height ==> cell_at(final(game_state).board@, i, j) == if pattern_marks(
                pattern_rows(pattern->0@),
                pattern_offset(
                    old(game_state).board.grid_width as int,
                    max_row_len(pattern_rows(pattern->0@)) as int,
                ),
                pattern_offset(old(game_state).board.grid_height as int, pattern->0@.len() as int),
                i,
                j,
            ) {
                CellState::Alive
            } else {
                cell_at(old(game_state).board@, i, j)
            },
        pattern is None && alive_numerator == 0 ==> forall|x: int, y: int|
            0 <= x < old(game_state).board.grid_width && 0 <= y < old(
                game_state,
            ).board.grid_height ==> #[trigger] cell_at(final(game_state).board@, x, y)
                == CellState::Dead,
        pattern is None && alive_numerator == alive_denominator ==> forall|x: int, y: int|
            0 <= x < old(game_state).board.grid_width && 0 <= y < old(
                game_state,
            ).board.grid_height ==> #[trigger] cell_at(final(game_state).board@, x, y)
                == CellState::Alive,
{
    match pattern {
        Some(p) => {
            game_state.add_pattern(p);
        },
        None => {
            game_state.init(alive_numerator, alive_denominator);
        },
    }
}

} // verus!
