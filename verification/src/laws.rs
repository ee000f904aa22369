//! What holds of every universe, whatever its size, rules and cells.

use vstd::prelude::*;
use vstd::arithmetic::div_mod::{lemma_mod_add_multiples_vanish, lemma_mod_bound};
use crate::model::UniverseView;
use crate::render::GlyphsView;

verus! {

impl UniverseView {
    /// A step keeps the grid well formed and changes neither its dimensions
    /// nor its rules.
    pub proof fn lemma_step_keeps_shape(self)
        requires
            self.wf(),
        ensures
            self.step().wf(),
            self.step().width == self.width,
            self.step().height == self.height,
            self.step().rules == self.rules,
            self.step().generation == self.generation + 1,
    {
    }

    /// The generation counter counts the steps: after `n` of them it has
    /// gone up by exactly `n`. It never goes down and is never reset, and
    /// dimensions and rules stay what they were.
    pub proof fn lemma_generation_counts_steps(self, n: nat)
        requires
            self.wf(),
        ensures
            self.advance(n).generation == self.generation + n,
            self.advance(n).wf(),
            self.advance(n).width == self.width,
            self.advance(n).height == self.height,
            self.advance(n).rules == self.rules,
        decreases n,
    {
        if n > 0 {
            self.lemma_generation_counts_steps((n - 1) as nat);
            self.advance((n - 1) as nat).lemma_step_keeps_shape();
        }
    }

    /// Advancing is deterministic. Two universes that agree in dimensions,
    /// rules, cells and generation agree after any number of steps, and so
    /// do their text forms, character for character. For the rules to agree
    /// it is enough that their sets hold the same counts.
    pub proof fn lemma_deterministic(self, other: UniverseView, n: nat, glyphs: GlyphsView)
        requires
            self.width == other.width,
            self.height == other.height,
            self.generation == other.generation,
            self.rules.underpopulation == other.rules.underpopulation,
            self.rules.overpopulation == other.rules.overpopulation,
            forall|count: nat|
                self.rules.survival.contains(count) <==> other.rules.survival.contains(count),
            forall|count: nat|
                self.rules.reproduction.contains(count)
                    <==> other.rules.reproduction.contains(count),
            self.cells.len() == other.cells.len(),
            forall|i: int| 0 <= i < self.cells.len() ==> self.cells[i] == other.cells[i],
        ensures
            self.advance(n) == other.advance(n),
            self.advance(n).render(glyphs) == other.advance(n).render(glyphs),
    {
        assert(self.rules.survival =~= other.rules.survival);
        assert(self.rules.reproduction =~= other.rules.reproduction);
        assert(self.cells =~= other.cells);
        assert(self.rules == other.rules);
        assert(self == other);
    }

    /// The grid is a torus: going down by the height, or right by the width,
    /// leads back to the same cell, and every position, inside the grid or
    /// outside, names a cell of the grid.
    pub proof fn lemma_torus(self, row: int, col: int)
        requires
            self.wf(),
        ensures
            self.at(row + self.height, col) == self.at(row, col),
            self.at(row, col + self.width) == self.at(row, col),
            0 <= self.index(row % (self.height as int), col % (self.width as int))
                < self.cells.len(),
    {
        let h = self.height as int;
        let w = self.width as int;
        lemma_mod_add_multiples_vanish(row, h);
        lemma_mod_add_multiples_vanish(col, w);
        assert((row + h) % h == row % h) by {
            assert(row + h == h + row);
        }
        assert((col + w) % w == col % w) by {
            assert(col + w == w + col);
        }
        lemma_mod_bound(row, h);
        lemma_mod_bound(col, w);
        self.lemma_index(row % h, col % w);
    }

    /// The grid wraps at its corners: the neighbour above and to the left of
    /// the cell in the first row and first column is the cell in the last row
    /// and last column, and it is counted among the neighbours of that cell.
    pub proof fn lemma_corner_wraps(self)
        requires
            self.wf(),
        ensures
            self.at(-1, -1) == self.cells[self.index(self.height - 1, self.width - 1)],
            self.at(-1, -1) == self.at(self.height - 1, self.width - 1),
            self.alive_neighbours(0, 0) >= self.at(self.height - 1, self.width - 1).population(),
            self.at(self.height - 1, self.width - 1) is Alive ==> self.alive_neighbours(0, 0) >= 1,
    {
        UniverseView::lemma_wrap_before(0, self.height as int);
        UniverseView::lemma_wrap_before(0, self.width as int);
        self.lemma_index(self.height - 1, self.width - 1);
    }
}

} // verus!
