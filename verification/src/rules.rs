use vstd::prelude::*;

use crate::cell_state::CellState;

verus! {

/// The classic birth/survival transition rule, as a mathematical function:
/// a dead cell with exactly 3 alive neighbors is born; an alive cell with
/// 2 or 3 alive neighbors survives; every other combination yields a dead
/// cell.
pub open spec fn spec_evolve(current_state: CellState, alive_neighbors: int) -> CellState {
    if current_state == CellState::Dead && alive_neighbors == 3 {
        CellState::Alive
    } else if current_state == CellState::Alive
        && (alive_neighbors == 2 || alive_neighbors == 3) {
        CellState::Alive
    } else {
        CellState::Dead
    }
}

/// Applies the transition rule to one cell given its alive-neighbor count.
pub fn evolve_cell(current_state: CellState, alive_neighbors: u8) -> (next_state: CellState)
    ensures
        next_state == spec_evolve(current_state, alive_neighbors as int),
{
    match (current_state, alive_neighbors) {
        (CellState::Dead, 3) => CellState::Alive,
        (CellState::Alive, 2) => CellState::Alive,
        (CellState::Alive, 3) => CellState::Alive,
        _ => CellState::Dead,
    }
}

} // verus!
