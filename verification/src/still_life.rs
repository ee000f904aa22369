//! The block, the smallest still life of Conway's rules: four alive cells in
//! a square, which no step changes.

use vstd::prelude::*;
use crate::model::UniverseView;
use crate::rules::Rules;

verus! {

impl UniverseView {
    /// Whether row `row` and column `col` lie in the block of two rows and
    /// two columns whose upper left cell is in row `top` and column `left`.
    /// The block may reach over the edge of the grid and go on at the other
    /// side.
    pub open spec fn in_block(self, top: int, left: int, row: int, col: int) -> bool {
        &&& (row == top || row == (top + 1) % (self.height as int))
        &&& (col == left || col == (left + 1) % (self.width as int))
    }

    /// The cells of the block at (`top`, `left`) are alive and all others
    /// are dead.
    pub open spec fn is_block(self, top: int, left: int) -> bool {
        forall|row: int, col: int|
            0 <= row < self.height && 0 <= col < self.width
                ==> (#[trigger] self.at(row, col) is Alive <==> self.in_block(top, left, row, col))
    }

    /// On a grid of at least three rows and three columns that holds a block
    /// and nothing else, a cell of the block has exactly three alive
    /// neighbours, and no cell outside it has three.
    pub proof fn lemma_block_neighbours(self, top: int, left: int, row: int, col: int)
        requires
            self.wf(),
            self.width >= 3,
            self.height >= 3,
            0 <= top < self.height,
            0 <= left < self.width,
            self.is_block(top, left),
            0 <= row < self.height,
            0 <= col < self.width,
        ensures
            self.in_block(top, left, row, col) ==> self.alive_neighbours(row, col) == 3,
            !self.in_block(top, left, row, col) ==> self.alive_neighbours(row, col) != 3,
    {
        let h = self.height as int;
        let w = self.width as int;
        UniverseView::lemma_wrap_after(top, h);
        UniverseView::lemma_wrap_after(left, w);
        UniverseView::lemma_wrap_before(row, h);
        UniverseView::lemma_wrap_after(row, h);
        UniverseView::lemma_wrap_before(col, w);
        UniverseView::lemma_wrap_after(col, w);
        let up = (row - 1) % h;
        let down = (row + 1) % h;
        let before = (col - 1) % w;
        let after = (col + 1) % w;
        vstd::arithmetic::div_mod::lemma_small_mod(row as nat, h as nat);
        vstd::arithmetic::div_mod::lemma_small_mod(col as nat, w as nat);
        self.lemma_wrapped(row - 1, col - 1, up, before);
        self.lemma_wrapped(row - 1, col, up, col);
        self.lemma_wrapped(row - 1, col + 1, up, after);
        self.lemma_wrapped(row, col - 1, row, before);
        self.lemma_wrapped(row, col + 1, row, after);
        self.lemma_wrapped(row + 1, col - 1, down, before);
        self.lemma_wrapped(row + 1, col, down, col);
        self.lemma_wrapped(row + 1, col + 1, down, after);
    }

    /// The block is a still life. On a grid of at least three rows and three
    /// columns under Conway's rules, a universe whose only alive cells are
    /// the four of a block has the same cells after a step, wherever on the
    /// torus the block lies. (With two rows or two columns the block meets
    /// itself around the torus, and dies.)
    pub proof fn lemma_block_is_still(self, top: int, left: int)
        requires
            self.wf(),
            self.width >= 3,
            self.height >= 3,
            self.rules == Rules::classic(),
            0 <= top < self.height,
            0 <= left < self.width,
            self.is_block(top, left),
        ensures
            self.step().cells == self.cells,
            self.step().is_block(top, left),
    {
        assert forall|index: int| 0 <= index < self.cells.len() implies
            self.next_at(index) == self.cells[index]
        by {
            let row = index / (self.width as int);
            let col = index % (self.width as int);
            self.lemma_position(index);
            self.lemma_index(row, col);
            self.lemma_block_neighbours(top, left, row, col);
            assert(self.cells[index] == self.at(row, col));
        }
        assert(self.step().cells =~= self.cells);
        let next = self.step();
        assert forall|row: int, col: int| 0 <= row < self.height && 0 <= col < self.width implies
            (#[trigger] next.at(row, col) is Alive <==> next.in_block(top, left, row, col))
        by {
            assert(next.at(row, col) == self.at(row, col));
        }
    }
}

} // verus!
