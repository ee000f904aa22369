//! The mathematical model of a universe: one generation of a toroidal grid
//! together with its rules, and the function that gives the next generation.

use vstd::prelude::*;
use vstd::arithmetic::div_mod::{
    lemma_fundamental_div_mod, lemma_fundamental_div_mod_converse, lemma_mod_add_multiples_vanish,
    lemma_mod_self_0, lemma_small_mod,
};
use crate::cell::Cell;
use crate::rules::Rules;

verus! {

/// One generation of the automaton.
///
/// The cells are stored row by row: the cell in row `row` and column `col`
/// is `cells[row * width + col]`.
pub struct UniverseView {
    /// How many generations have been computed since construction.
    pub generation: nat,
    /// The number of columns.
    pub width: nat,
    /// The number of rows.
    pub height: nat,
    /// The rules, which never change.
    pub rules: Rules,
    /// The cells, row-major.
    pub cells: Seq<Cell>,
}

impl UniverseView {
    /// The grid is not empty and holds exactly one cell for each position.
    pub open spec fn wf(self) -> bool {
        &&& self.width > 0
        &&& self.height > 0
        &&& self.cells.len() == self.width * self.height
    }

    /// A universe as a constructor leaves it: generation zero of the given
    /// grid under the given rules.
    pub open spec fn initial(
        width: nat,
        height: nat,
        rules: Rules,
        cells: Seq<Cell>,
    ) -> UniverseView {
        UniverseView { generation: 0, width, height, rules, cells }
    }

    /// The place in `cells` of the cell in row `row` and column `col`.
    pub open spec fn index(self, row: int, col: int) -> int {
        row * self.width + col
    }

    /// The cell in row `row` and column `col` of the torus. Rows and columns
    /// wrap: row `-1` is the last row, row `height` is the first one, and
    /// likewise for columns.
    pub open spec fn at(self, row: int, col: int) -> Cell {
        self.cells[self.index(row % (self.height as int), col % (self.width as int))]
    }

    /// The number of alive cells among the eight neighbours of the cell in
    /// row `row` and column `col`. On a grid with fewer than three rows or
    /// columns one cell is met under several offsets and is counted once for
    /// each of them.
    pub open spec fn alive_neighbours(self, row: int, col: int) -> nat {
        self.at(row - 1, col - 1).population()
            + self.at(row - 1, col).population()
            + self.at(row - 1, col + 1).population()
            + self.at(row, col - 1).population()
            + self.at(row, col + 1).population()
            + self.at(row + 1, col - 1).population()
            + self.at(row + 1, col).population()
            + self.at(row + 1, col + 1).population()
    }

    /// The next state of the cell at place `index` of `cells`, decided from
    /// this generation alone.
    pub open spec fn next_at(self, index: int) -> Cell {
        self.rules.next_cell(
            self.cells[index],
            self.alive_neighbours(index / (self.width as int), index % (self.width as int)),
        )
    }

    /// The next generation: every cell is replaced at once by its next state,
    /// and the generation counter goes up by one.
    pub open spec fn step(self) -> UniverseView {
        UniverseView {
            generation: self.generation + 1,
            width: self.width,
            height: self.height,
            rules: self.rules,
            cells: Seq::new(self.cells.len(), |index: int| self.next_at(index)),
        }
    }

    /// The generation reached after `n` steps.
    pub open spec fn advance(self, n: nat) -> UniverseView
        decreases n,
    {
        if n == 0 {
            self
        } else {
            self.advance((n - 1) as nat).step()
        }
    }

    /// A position inside the grid has its own place in `cells`, from which
    /// the position can be read back, and `at` finds the cell there.
    pub proof fn lemma_index(self, row: int, col: int)
        requires
            self.wf(),
            0 <= row < self.height,
            0 <= col < self.width,
        ensures
            0 <= self.index(row, col) < self.cells.len(),
            self.index(row, col) / (self.width as int) == row,
            self.index(row, col) % (self.width as int) == col,
            self.at(row, col) == self.cells[self.index(row, col)],
    {
        let w = self.width as int;
        let h = self.height as int;
        assert(0 <= row * w && row * w + col < w * h) by (nonlinear_arith)
            requires
                0 <= row < h,
                0 <= col < w,
        ;
        lemma_fundamental_div_mod_converse(row * w + col, w, row, col);
        lemma_small_mod(row as nat, h as nat);
        lemma_small_mod(col as nat, w as nat);
    }

    /// Every place in `cells` is the place of one position inside the grid.
    pub proof fn lemma_position(self, index: int)
        requires
            self.wf(),
            0 <= index < self.cells.len(),
        ensures
            0 <= index / (self.width as int) < self.height,
            0 <= index % (self.width as int) < self.width,
            self.index(index / (self.width as int), index % (self.width as int)) == index,
    {
        let w = self.width as int;
        let h = self.height as int;
        let row = index / w;
        lemma_fundamental_div_mod(index, w);
        assert(index == w * row + index % w);
        assert(0 <= index % w < w);
        assert(0 <= row < h) by (nonlinear_arith)
            requires
                0 <= index < w * h,
                index == w * row + index % w,
                0 <= index % w < w,
                w > 0,
        ;
        assert(w * row == row * w) by (nonlinear_arith);
    }

    /// A position outside the grid names the cell of the position inside the
    /// grid that it wraps to.
    pub proof fn lemma_wrapped(self, row: int, col: int, wrapped_row: int, wrapped_col: int)
        requires
            self.wf(),
            0 <= wrapped_row < self.height,
            0 <= wrapped_col < self.width,
            wrapped_row == row % (self.height as int),
            wrapped_col == col % (self.width as int),
        ensures
            self.at(row, col) == self.at(wrapped_row, wrapped_col),
    {
        lemma_small_mod(wrapped_row as nat, self.height);
        lemma_small_mod(wrapped_col as nat, self.width);
    }

    /// The row (or column) before row `i` on a ring of `n` rows: the one
    /// above, and the last one for the first.
    pub proof fn lemma_wrap_before(i: int, n: int)
        requires
            0 <= i < n,
        ensures
            i == 0 ==> (i - 1) % n == n - 1,
            i > 0 ==> (i - 1) % n == i - 1,
    {
        if i == 0 {
            lemma_mod_add_multiples_vanish(-1, n);
            lemma_small_mod((n - 1) as nat, n as nat);
        } else {
            lemma_small_mod((i - 1) as nat, n as nat);
        }
    }

    /// The row (or column) after row `i` on a ring of `n` rows: the one
    /// below, and the first one for the last.
    pub proof fn lemma_wrap_after(i: int, n: int)
        requires
            0 <= i < n,
        ensures
            i == n - 1 ==> (i + 1) % n == 0,
            i < n - 1 ==> (i + 1) % n == i + 1,
    {
        if i == n - 1 {
            lemma_mod_self_0(n);
        } else {
            lemma_small_mod((i + 1) as nat, n as nat);
        }
    }
}

} // verus!
