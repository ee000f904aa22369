//! Random initial populations: the life rate, and the random draws that
//! decide which cells start alive.

use rand::Rng;
use vstd::prelude::*;
use crate::cell::Cell;

verus! {

/// The probability `numerator / denominator` with which each cell of a
/// random universe starts alive.
///
/// Any two numbers can be written down; only a denominator above zero and a
/// numerator that does not exceed it make a probability.
#[derive(Clone, Copy, Debug, PartialEq, Eq)]
pub struct LifeRate {
    pub numerator: u64,
    pub denominator: u64,
}

impl LifeRate {
    /// The rate lies between 0 and 1.
    pub open spec fn is_probability(self) -> bool {
        0 < self.denominator && self.numerator <= self.denominator
    }

    /// The cell that a draw decides. Of the `denominator` possible draws
    /// `0, 1, ..., denominator - 1`, the first `numerator` give an alive cell.
    pub open spec fn cell_of(self, draw: nat) -> Cell {
        if draw < self.numerator {
            Cell::Alive
        } else {
            Cell::Dead
        }
    }

    /// Some draw below the denominator decides `cell`.
    pub open spec fn may_give(self, cell: Cell) -> bool {
        exists|draw: nat| draw < self.denominator && #[trigger] self.cell_of(draw) == cell
    }

    /// Each of the cells is what some draw below the denominator decides.
    pub open spec fn may_populate(self, cells: Seq<Cell>) -> bool {
        forall|i: int| 0 <= i < cells.len() ==> self.may_give(#[trigger] cells[i])
    }

    /// Whether the rate lies between 0 and 1.
    pub fn valid(&self) -> (valid: bool)
        ensures
            valid == self.is_probability(),
    {
        0 < self.denominator && self.numerator <= self.denominator
    }

    /// The cell that the draw `draw` decides.
    pub fn cell_for(&self, draw: u64) -> (cell: Cell)
        ensures
            cell == self.cell_of(draw as nat),
    {
        if draw < self.numerator {
            Cell::Alive
        } else {
            Cell::Dead
        }
    }

    /// At the two ends of the scale nothing is left to chance: a rate of 0
    /// populates with dead cells only, a rate of 1 with alive cells only.
    pub proof fn lemma_certain(self, cells: Seq<Cell>)
        requires
            self.is_probability(),
            self.may_populate(cells),
        ensures
            self.numerator == 0 ==> forall|i: int| 0 <= i < cells.len() ==> cells[i] is Dead,
            self.numerator == self.denominator
                ==> forall|i: int| 0 <= i < cells.len() ==> cells[i] is Alive,
    {
    }
}

/// Draws a number from `0` up to `bound - 1`.
///
/// This is `Rng::gen_range` of the rand crate on the range `0..bound`, called
/// on the generator that `rand::thread_rng` hands out. What is taken on trust
/// is that the number lies in the range; which number it is no contract
/// says. `gen_range` panics on an empty range, which `bound > 0` excludes.
/// The generator is seeded from the operating system when a thread first
/// uses it, and rand panics if the system gives it no seed.
#[verifier::external_body]
fn draw_below(bound: u64) -> (draw: u64)
    requires
        bound > 0,
    ensures
        draw < bound,
{
    rand::thread_rng().gen_range(0..bound)
}

/// A random population of `total` cells, each drawn on its own and alive
/// with probability `life_rate`.
pub fn populate(life_rate: LifeRate, total: usize) -> (cells: Vec<Cell>)
    requires
        life_rate.is_probability(),
    ensures
        cells@.len() == total,
        life_rate.may_populate(cells@),
{
    let mut cells: Vec<Cell> = Vec::new();
    while cells.len() < total
        invariant
            life_rate.is_probability(),
            cells@.len() <= total,
            life_rate.may_populate(cells@),
        decreases total - cells@.len(),
    {
        let draw: u64 = draw_below(life_rate.denominator);
        let cell: Cell = life_rate.cell_for(draw);
        cells.push(cell);
        assert(life_rate.cell_of(draw as nat) == cell);
    }
    cells
}

} // verus!
