use vstd::prelude::*;

verus! {

/// The state of a single cell on the board: a closed two-valued enumeration.
#[derive(Clone, Copy, Debug, PartialEq, Eq, Structural)]
pub enum CellState {
    Alive,
    Dead,
}

} // verus!
