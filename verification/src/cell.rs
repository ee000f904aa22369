//! The state of a single position of the grid.

use vstd::prelude::*;

verus! {

/// A cell is either dead or alive; it has no identity beyond its position.
#[derive(Clone, Copy, Debug, PartialEq, Eq, Structural)]
pub enum Cell {
    Dead,
    Alive,
}

impl Cell {
    /// What the cell contributes to the neighbour count of an adjacent cell:
    /// one if it is alive, nothing if it is dead.
    pub open spec fn population(self) -> nat {
        match self {
            Cell::Alive => 1,
            Cell::Dead => 0,
        }
    }

    /// The executable counterpart of [`Cell::population`].
    pub fn count(self) -> (n: u8)
        ensures
            n == self.population(),
    {
        match self {
            Cell::Alive => 1,
            Cell::Dead => 0,
        }
    }
}

} // verus!
