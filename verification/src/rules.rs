//! The rules by which a cell lives, dies or is born.

use vstd::prelude::*;
use crate::cell::Cell;

verus! {

/// The neighbour counts from `lo` to `hi`, both included.
pub open spec fn closed_range(lo: nat, hi: nat) -> Set<nat> {
    Set::new(|n: nat| lo <= n <= hi)
}

/// The set of neighbour counts that a list of bytes lists. Order and
/// repetition in the list do not matter.
pub open spec fn counts(list: Seq<u8>) -> Set<nat> {
    Set::new(|n: nat| exists|i: int| 0 <= i < list.len() && list[i] == n)
}

/// Whether `count` is one of the neighbour counts that `list` lists.
pub fn lists(list: &Vec<u8>, count: u8) -> (found: bool)
    ensures
        found == counts(list@).contains(count as nat),
{
    let mut i: usize = 0;
    while i < list.len()
        invariant
            i <= list.len(),
            forall|j: int| 0 <= j < i ==> list[j] != count,
        decreases list.len() - i,
    {
        if list[i] == count {
            return true;
        }
        i += 1;
    }
    false
}

/// The list of the neighbour counts from `lo` to `hi`, both included, in
/// rising order. It is empty when `lo` is above `hi`.
pub fn range_list(lo: u8, hi: u8) -> (list: Vec<u8>)
    ensures
        lo <= hi ==> list@.len() == hi - lo + 1,
        lo > hi ==> list@.len() == 0,
        forall|j: int| 0 <= j < list@.len() ==> list@[j] == lo + j,
        counts(list@) == closed_range(lo as nat, hi as nat),
{
    let mut list: Vec<u8> = Vec::new();
    if lo <= hi {
        let mut next: u8 = lo;
        while next < hi
            invariant
                lo <= next <= hi,
                list@.len() == next - lo,
                forall|j: int| 0 <= j < list@.len() ==> list@[j] == lo + j,
            decreases hi - next,
        {
            list.push(next);
            next += 1;
        }
        list.push(hi);
        assert forall|n: nat| lo <= n <= hi implies counts(list@).contains(n) by {
            assert(list@[n - lo] == n);
        }
    }
    assert(counts(list@) =~= closed_range(lo as nat, hi as nat));
    list
}

/// The four parameters that decide the next state of a cell from the number
/// of its alive neighbours.
pub struct Rules {
    /// An alive cell with fewer alive neighbours than this dies.
    pub underpopulation: nat,
    /// An alive cell with more alive neighbours than this dies.
    pub overpopulation: nat,
    /// The neighbour counts under which an alive cell stays alive.
    pub survival: Set<nat>,
    /// The neighbour counts under which a dead cell becomes alive.
    pub reproduction: Set<nat>,
}

impl Rules {
    /// The rules with the given thresholds and reproduction set, whose
    /// survival set is the closed range between the two thresholds.
    pub open spec fn with_thresholds(
        underpopulation: nat,
        overpopulation: nat,
        reproduction: Set<nat>,
    ) -> Rules {
        Rules {
            underpopulation,
            overpopulation,
            survival: closed_range(underpopulation, overpopulation),
            reproduction,
        }
    }

    /// Conway's rules: an alive cell survives with two or three alive
    /// neighbours, a dead cell is born with exactly three.
    pub open spec fn classic() -> Rules {
        Rules::with_thresholds(2, 3, set![3nat])
    }

    /// The next state of a cell that has `alive_neighbours` alive neighbours.
    ///
    /// The order of the tests is part of the definition: death by under- or
    /// overpopulation is decided before the survival set is consulted.
    pub open spec fn next_cell(self, cell: Cell, alive_neighbours: nat) -> Cell {
        if cell is Alive && alive_neighbours < self.underpopulation {
            Cell::Dead
        } else if cell is Alive && alive_neighbours > self.overpopulation {
            Cell::Dead
        } else if cell is Alive && self.survival.contains(alive_neighbours) {
            Cell::Alive
        } else if cell is Dead && self.reproduction.contains(alive_neighbours) {
            Cell::Alive
        } else {
            cell
        }
    }

    /// Under Conway's rules an alive cell stays alive exactly with two or
    /// three alive neighbours, and a dead cell becomes alive exactly with
    /// three. So an isolated alive cell dies, and a dead cell with any count
    /// but three stays dead.
    pub proof fn lemma_classic(alive_neighbours: nat)
        ensures
            Rules::classic().next_cell(Cell::Alive, alive_neighbours) is Alive
                <==> alive_neighbours == 2 || alive_neighbours == 3,
            Rules::classic().next_cell(Cell::Dead, alive_neighbours) is Alive
                <==> alive_neighbours == 3,
            Rules::classic().next_cell(Cell::Alive, 0) is Dead,
    {
    }

    /// Death by under- or overpopulation takes precedence over survival: no
    /// survival set, however it overlaps the thresholds, keeps alive a cell
    /// with fewer than `underpopulation` or more than `overpopulation` alive
    /// neighbours.
    pub proof fn lemma_death_takes_precedence(self, alive_neighbours: nat)
        requires
            alive_neighbours < self.underpopulation || alive_neighbours > self.overpopulation,
        ensures
            self.next_cell(Cell::Alive, alive_neighbours) is Dead,
    {
    }

    /// With the survival set that constructors give, the closed range between
    /// the thresholds, an alive cell stays alive exactly when its neighbour
    /// count lies in that range, and a dead cell is born exactly when its
    /// count is in the reproduction set.
    pub proof fn lemma_with_thresholds(
        underpopulation: nat,
        overpopulation: nat,
        reproduction: Set<nat>,
        alive_neighbours: nat,
    )
        ensures
            Rules::with_thresholds(underpopulation, overpopulation, reproduction).next_cell(
                Cell::Alive,
                alive_neighbours,
            ) is Alive <==> underpopulation <= alive_neighbours <= overpopulation,
            Rules::with_thresholds(underpopulation, overpopulation, reproduction).next_cell(
                Cell::Dead,
                alive_neighbours,
            ) is Alive <==> reproduction.contains(alive_neighbours),
    {
    }
}

} // verus!
