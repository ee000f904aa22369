//! The executable universe: a grid of cells on a torus, the rules it was
//! made with, and the operation that advances it by one generation.

use vstd::prelude::*;
use crate::cell::Cell;
use crate::error::UniverseError;
use crate::model::UniverseView;
use crate::random::{populate, LifeRate};
use crate::rules::{counts, lists, range_list, Rules};

verus! {

/// A toroidal grid of cells with its rules and its generation counter.
///
/// A universe is made once, by one of the constructors, and changes only by
/// [`Universe::tick`]. Its dimensions and rules never change.
pub struct Universe {
    generation: u32,
    width: u32,
    height: u32,
    underpopulation: u8,
    overpopulation: u8,
    aging: Vec<u8>,
    reproduction: Vec<u8>,
    cells: Vec<Cell>,
}

impl View for Universe {
    type V = UniverseView;

    closed spec fn view(&self) -> UniverseView {
        UniverseView {
            generation: self.generation as nat,
            width: self.width as nat,
            height: self.height as nat,
            rules: Rules {
                underpopulation: self.underpopulation as nat,
                overpopulation: self.overpopulation as nat,
                survival: counts(self.aging@),
                reproduction: counts(self.reproduction@),
            },
            cells: self.cells@,
        }
    }
}

/// The row or column before `i` on a ring of `n`.
fn before(i: u32, n: u32) -> (wrapped: u32)
    requires
        i < n,
    ensures
        wrapped == (i - 1) % (n as int),
        wrapped < n,
{
    proof {
        UniverseView::lemma_wrap_before(i as int, n as int);
    }
    if i == 0 {
        n - 1
    } else {
        i - 1
    }
}

/// The row or column after `i` on a ring of `n`.
fn after(i: u32, n: u32) -> (wrapped: u32)
    requires
        i < n,
    ensures
        wrapped == (i + 1) % (n as int),
        wrapped < n,
{
    proof {
        UniverseView::lemma_wrap_after(i as int, n as int);
    }
    if i == n - 1 {
        0
    } else {
        i + 1
    }
}

/// The fixed pattern of [`Universe::from_fixed_cells`]: the cell at place
/// `index` is alive if `index` is a multiple of 4 or of 13.
pub open spec fn patterned(index: int) -> Cell {
    if index % 4 == 0 || index % 13 == 0 {
        Cell::Alive
    } else {
        Cell::Dead
    }
}

/// The list that holds the one count 3 lists the reproduction set of
/// Conway's rules.
proof fn lemma_only_three(list: Seq<u8>)
    requires
        list.len() == 1,
        list[0] == 3,
    ensures
        counts(list) == set![3nat],
{
    assert(counts(list) =~= set![3nat]);
}

impl Universe {
    /// Every universe is a well-formed grid: it is not empty, and it holds
    /// one cell for each position.
    #[verifier::type_invariant]
    spec fn inv(self) -> bool {
        &&& self.width > 0
        &&& self.height > 0
        &&& self.cells.len() == self.width * self.height
    }

    /// A universe of the given cells, at generation zero.
    ///
    /// The cells are given row by row. The survival set is the closed range
    /// from `underpopulation` to `overpopulation`. Construction fails with
    /// `InvalidDimensions` exactly when the width or the height is zero or
    /// the number of cells is not their product.
    pub fn from_cells(
        width: u32,
        height: u32,
        underpopulation: u8,
        overpopulation: u8,
        reproduction: Vec<u8>,
        cells: Vec<Cell>,
    ) -> (made: Result<Universe, UniverseError>)
        ensures
            made is Ok <==> width > 0 && height > 0 && cells@.len() == width * height,
            made matches Err(error) ==> error == UniverseError::InvalidDimensions,
            made matches Ok(universe) ==> universe@ == UniverseView::initial(
                width as nat,
                height as nat,
                Rules::with_thresholds(
                    underpopulation as nat,
                    overpopulation as nat,
                    counts(reproduction@),
                ),
                cells@,
            ),
    {
        if width == 0 || height == 0 {
            return Err(UniverseError::InvalidDimensions);
        }
        assert(width * height <= u64::MAX) by (nonlinear_arith)
            requires
                width <= u32::MAX,
                height <= u32::MAX,
        ;
        let total: u64 = width as u64 * height as u64;
        if cells.len() as u64 != total {
            return Err(UniverseError::InvalidDimensions);
        }
        let aging: Vec<u8> = range_list(underpopulation, overpopulation);
        Ok(
            Universe {
                generation: 0,
                width,
                height,
                underpopulation,
                overpopulation,
                aging,
                reproduction,
                cells,
            },
        )
    }

    /// A universe under the given rules whose cells are drawn at random, each
    /// alive with probability `life_rate` and independently of the others.
    ///
    /// Construction fails with `InvalidDimensions` when the width or the
    /// height is zero, and otherwise with `InvalidProbability` when the life
    /// rate is not a probability. What the draws leave open is only the
    /// state of each cell.
    pub fn new(
        width: u32,
        height: u32,
        life_rate: LifeRate,
        underpopulation: u8,
        overpopulation: u8,
        reproduction: Vec<u8>,
    ) -> (made: Result<Universe, UniverseError>)
        requires
            width * height <= usize::MAX,
        ensures
            width == 0 || height == 0
                ==> (made matches Err(error) && error == UniverseError::InvalidDimensions),
            width > 0 && height > 0 && !life_rate.is_probability()
                ==> (made matches Err(error) && error == UniverseError::InvalidProbability),
            width > 0 && height > 0 && life_rate.is_probability() ==> made is Ok,
            made matches Ok(universe) ==> universe@ == UniverseView::initial(
                width as nat,
                height as nat,
                Rules::with_thresholds(
                    underpopulation as nat,
                    overpopulation as nat,
                    counts(reproduction@),
                ),
                universe@.cells,
            ) && universe@.wf() && life_rate.may_populate(universe@.cells),
    {
        if width == 0 || height == 0 {
            return Err(UniverseError::InvalidDimensions);
        }
        if !life_rate.valid() {
            return Err(UniverseError::InvalidProbability);
        }
        let cells: Vec<Cell> = populate(life_rate, width as usize * height as usize);
        Universe::from_cells(width, height, underpopulation, overpopulation, reproduction, cells)
    }

    /// A random universe under Conway's rules: [`Universe::new`] with
    /// underpopulation 2, overpopulation 3 and reproduction set {3}.
    pub fn from_life_rate(width: u32, height: u32, life_rate: LifeRate) -> (made: Result<
        Universe,
        UniverseError,
    >)
        requires
            width * height <= usize::MAX,
        ensures
            width == 0 || height == 0
                ==> (made matches Err(error) && error == UniverseError::InvalidDimensions),
            width > 0 && height > 0 && !life_rate.is_probability()
                ==> (made matches Err(error) && error == UniverseError::InvalidProbability),
            width > 0 && height > 0 && life_rate.is_probability() ==> made is Ok,
            made matches Ok(universe) ==> universe@ == UniverseView::initial(
                width as nat,
                height as nat,
                Rules::classic(),
                universe@.cells,
            ) && universe@.wf() && life_rate.may_populate(universe@.cells),
    {
        let mut reproduction: Vec<u8> = Vec::new();
        reproduction.push(3);
        proof {
            lemma_only_three(reproduction@);
        }
        Universe::new(width, height, life_rate, 2, 3, reproduction)
    }

    /// The universe of the fixed pattern under Conway's rules: the cell at
    /// place `i`, counting row by row from zero, is alive if `i` is a
    /// multiple of 4 or of 13, and dead otherwise.
    ///
    /// Construction fails with `InvalidDimensions` exactly when the width or
    /// the height is zero.
    pub fn from_fixed_cells(width: u32, height: u32) -> (made: Result<Universe, UniverseError>)
        requires
            width * height <= usize::MAX,
        ensures
            made is Ok <==> width > 0 && height > 0,
            made matches Err(error) ==> error == UniverseError::InvalidDimensions,
            made matches Ok(universe) ==> universe@ == UniverseView::initial(
                width as nat,
                height as nat,
                Rules::classic(),
                Seq::new((width * height) as nat, |index: int| patterned(index)),
            ),
    {
        if width == 0 || height == 0 {
            return Err(UniverseError::InvalidDimensions);
        }
        let total: usize = width as usize * height as usize;
        let mut cells: Vec<Cell> = Vec::new();
        let mut index: usize = 0;
        while index < total
            invariant
                index <= total,
                cells@.len() == index,
                forall|i: int| 0 <= i < index ==> cells@[i] == patterned(i),
            decreases total - index,
        {
            if index % 4 == 0 || index % 13 == 0 {
                cells.push(Cell::Alive);
            } else {
                cells.push(Cell::Dead);
            }
            index += 1;
        }
        assert(cells@ =~= Seq::new((width * height) as nat, |index: int| patterned(index)));
        let mut reproduction: Vec<u8> = Vec::new();
        reproduction.push(3);
        proof {
            lemma_only_three(reproduction@);
        }
        Universe::from_cells(width, height, 2, 3, reproduction, cells)
    }

    /// The number of columns.
    pub fn width(&self) -> (width: u32)
        ensures
            width == self@.width,
            width > 0,
    {
        proof {
            use_type_invariant(self);
        }
        self.width
    }

    /// The number of rows.
    pub fn height(&self) -> (height: u32)
        ensures
            height == self@.height,
            height > 0,
    {
        proof {
            use_type_invariant(self);
        }
        self.height
    }

    /// The cells of the current generation, row by row.
    pub fn cells(&self) -> (cells: &Vec<Cell>)
        ensures
            cells@ == self@.cells,
            self@.wf(),
    {
        proof {
            use_type_invariant(self);
        }
        &self.cells
    }

    /// How many times the universe has been advanced since it was made.
    pub fn generation(&self) -> (generation: u32)
        ensures
            generation == self@.generation,
    {
        self.generation
    }

    /// The place in `cells()` of the cell in row `row` and column `col`.
    pub fn get_index(&self, row: u32, col: u32) -> (index: usize)
        requires
            row < self@.height,
            col < self@.width,
        ensures
            index == self@.index(row as int, col as int),
            index < self@.cells.len(),
    {
        proof {
            use_type_invariant(self);
            self@.lemma_index(row as int, col as int);
            assert(0 <= row * self.width <= self@.index(row as int, col as int))
                by (nonlinear_arith)
                requires
                    self@.index(row as int, col as int) == row * self.width + col,
            ;
        }
        row as usize * self.width as usize + col as usize
    }

    /// The cell in row `row` and column `col`.
    pub fn cell(&self, row: u32, col: u32) -> (cell: Cell)
        requires
            row < self@.height,
            col < self@.width,
        ensures
            cell == self@.at(row as int, col as int),
    {
        proof {
            use_type_invariant(self);
            self@.lemma_index(row as int, col as int);
        }
        self.cells[self.get_index(row, col)]
    }

    /// The number of alive cells among the eight neighbours, on the torus, of
    /// the cell in row `row` and column `col`. Where the grid has fewer than
    /// three rows or columns, a cell that is met under several offsets is
    /// counted once for each of them.
    pub fn alive_neighbour_count(&self, row: u32, col: u32) -> (count: u8)
        requires
            row < self@.height,
            col < self@.width,
        ensures
            count == self@.alive_neighbours(row as int, col as int),
            count <= 8,
    {
        proof {
            use_type_invariant(self);
        }
        let up: u32 = before(row, self.height);
        let down: u32 = after(row, self.height);
        let left: u32 = before(col, self.width);
        let right: u32 = after(col, self.width);
        proof {
            vstd::arithmetic::div_mod::lemma_small_mod(row as nat, self.height as nat);
            vstd::arithmetic::div_mod::lemma_small_mod(col as nat, self.width as nat);
            self@.lemma_wrapped(row as int - 1, col as int - 1, up as int, left as int);
            self@.lemma_wrapped(row as int - 1, col as int, up as int, col as int);
            self@.lemma_wrapped(row as int - 1, col as int + 1, up as int, right as int);
            self@.lemma_wrapped(row as int, col as int - 1, row as int, left as int);
            self@.lemma_wrapped(row as int, col as int + 1, row as int, right as int);
            self@.lemma_wrapped(row as int + 1, col as int - 1, down as int, left as int);
            self@.lemma_wrapped(row as int + 1, col as int, down as int, col as int);
            self@.lemma_wrapped(row as int + 1, col as int + 1, down as int, right as int);
        }
        let above: u8 = self.cell(up, left).count()
            + self.cell(up, col).count()
            + self.cell(up, right).count();
        let beside: u8 = self.cell(row, left).count() + self.cell(row, right).count();
        let below: u8 = self.cell(down, left).count()
            + self.cell(down, col).count()
            + self.cell(down, right).count();
        above + beside + below
    }

    /// The next state of a cell that is in state `cell` and has
    /// `alive_neighbours` alive neighbours, by the rules of this universe.
    pub fn next_cell(&self, cell: Cell, alive_neighbours: u8) -> (next: Cell)
        ensures
            next == self@.rules.next_cell(cell, alive_neighbours as nat),
    {
        match cell {
            Cell::Alive => {
                if alive_neighbours < self.underpopulation {
                    Cell::Dead
                } else if alive_neighbours > self.overpopulation {
                    Cell::Dead
                } else if lists(&self.aging, alive_neighbours) {
                    Cell::Alive
                } else {
                    cell
                }
            },
            Cell::Dead => {
                if lists(&self.reproduction, alive_neighbours) {
                    Cell::Alive
                } else {
                    cell
                }
            },
        }
    }

    /// Advances the universe by one generation.
    ///
    /// Every cell is decided from the generation before the call, never from
    /// a cell that the call has already replaced. The counter goes up by one,
    /// for which it must not have reached the largest number it can hold.
    pub fn tick(&mut self)
        requires
            old(self)@.generation < u32::MAX,
        ensures
            final(self)@ == old(self)@.step(),
            final(self)@.wf(),
    {
        proof {
            use_type_invariant(&*self);
        }
        let mut next: Vec<Cell> = Vec::new();
        let mut row: u32 = 0;
        while row < self.height
            invariant
                *self == *old(self),
                self@.wf(),
                row <= self.height,
                next@.len() == row * self.width,
                forall|i: int| 0 <= i < next@.len() ==> next@[i] == self@.next_at(i),
            decreases self.height - row,
        {
            let mut col: u32 = 0;
            while col < self.width
                invariant
                    *self == *old(self),
                    self@.wf(),
                    row < self.height,
                    col <= self.width,
                    next@.len() == row * self.width + col,
                    forall|i: int| 0 <= i < next@.len() ==> next@[i] == self@.next_at(i),
                decreases self.width - col,
            {
                let index: usize = self.get_index(row, col);
                let cell: Cell = self.cells[index];
                let alive_neighbours: u8 = self.alive_neighbour_count(row, col);
                proof {
                    self@.lemma_index(row as int, col as int);
                }
                next.push(self.next_cell(cell, alive_neighbours));
                col += 1;
            }
            row += 1;
            assert(next@.len() == row * self.width) by (nonlinear_arith)
                requires
                    next@.len() == (row - 1) * self.width + self.width,
            ;
        }
        assert(next@.len() == self@.cells.len()) by (nonlinear_arith)
            requires
                next@.len() == row * self.width,
                row == self.height,
                self@.cells.len() == self.width * self.height,
        ;
        assert(next@ =~= self@.step().cells);
        self.generation = self.generation + 1;
        self.cells = next;
    }
}

} // verus!
