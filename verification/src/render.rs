//! The text form of a universe: a header line with the generation number,
//! then one line for each row of the grid.

use vstd::prelude::*;
use crate::cell::Cell;
use crate::model::UniverseView;
use crate::universe::Universe;

verus! {

/// The strings that stand for cells in the text form of a universe.
pub struct Glyphs {
    /// What is written for an alive cell.
    pub alive: String,
    /// What is written for a dead cell.
    pub dead: String,
    /// What is written after each cell.
    pub separator: String,
}

/// The glyphs as sequences of characters.
pub struct GlyphsView {
    pub alive: Seq<char>,
    pub dead: Seq<char>,
    pub separator: Seq<char>,
}

impl View for Glyphs {
    type V = GlyphsView;

    open spec fn view(&self) -> GlyphsView {
        GlyphsView { alive: self.alive@, dead: self.dead@, separator: self.separator@ }
    }
}

impl GlyphsView {
    /// A filled square for an alive cell, a hollow square for a dead one,
    /// and a blank after each.
    pub open spec fn standard() -> GlyphsView {
        GlyphsView { alive: seq!['\u{25FC}'], dead: seq!['\u{25FB}'], separator: seq![' '] }
    }

    /// What is written for `cell`, separator included.
    pub open spec fn cell(self, cell: Cell) -> Seq<char> {
        match cell {
            Cell::Alive => self.alive + self.separator,
            Cell::Dead => self.dead + self.separator,
        }
    }
}

impl Glyphs {
    /// The standard glyphs.
    pub fn standard() -> (glyphs: Glyphs)
        ensures
            glyphs@ == GlyphsView::standard(),
    {
        proof {
            reveal_strlit("\u{25FC}");
            reveal_strlit("\u{25FB}");
            reveal_strlit(" ");
        }
        let glyphs = Glyphs {
            alive: String::from_str("\u{25FC}"),
            dead: String::from_str("\u{25FB}"),
            separator: String::from_str(" "),
        };
        assert(glyphs@.alive =~= seq!['\u{25FC}']);
        assert(glyphs@.dead =~= seq!['\u{25FB}']);
        assert(glyphs@.separator =~= seq![' ']);
        glyphs
    }
}

/// The character of the decimal digit `d`.
pub open spec fn digit(d: nat) -> char {
    if d == 0 {
        '0'
    } else if d == 1 {
        '1'
    } else if d == 2 {
        '2'
    } else if d == 3 {
        '3'
    } else if d == 4 {
        '4'
    } else if d == 5 {
        '5'
    } else if d == 6 {
        '6'
    } else if d == 7 {
        '7'
    } else if d == 8 {
        '8'
    } else {
        '9'
    }
}

/// The decimal numeral of `n`, without leading zeros.
pub open spec fn decimal(n: nat) -> Seq<char>
    decreases n,
{
    if n < 10 {
        seq![digit(n)]
    } else {
        decimal(n / 10).push(digit(n % 10))
    }
}

/// The text that opens the header line.
pub open spec fn header_prefix() -> Seq<char> {
    "Life in generation: "@
}

impl UniverseView {
    /// The header line: the generation number after a fixed text.
    pub open spec fn render_header(self) -> Seq<char> {
        header_prefix() + decimal(self.generation).push('\n')
    }

    /// The first `cols` cells of row `row`, each followed by the separator.
    pub open spec fn render_cells(self, glyphs: GlyphsView, row: int, cols: nat) -> Seq<char>
        decreases cols,
    {
        if cols == 0 {
            Seq::empty()
        } else {
            self.render_cells(glyphs, row, (cols - 1) as nat) + glyphs.cell(
                self.at(row, cols - 1),
            )
        }
    }

    /// The first `rows` rows, each ended by a newline.
    pub open spec fn render_rows(self, glyphs: GlyphsView, rows: nat) -> Seq<char>
        decreases rows,
    {
        if rows == 0 {
            Seq::empty()
        } else {
            self.render_rows(glyphs, (rows - 1) as nat) + self.render_cells(
                glyphs,
                rows - 1,
                self.width,
            ).push('\n')
        }
    }

    /// The text form of the universe: the header line, then the rows from
    /// the first to the last.
    pub open spec fn render(self, glyphs: GlyphsView) -> Seq<char> {
        self.render_header() + self.render_rows(glyphs, self.height)
    }
}

/// The one-character text of the decimal digit `d`.
fn digit_text(d: u32) -> (text: &'static str)
    requires
        d < 10,
    ensures
        text@ == seq![digit(d as nat)],
{
    proof {
        reveal_strlit("0");
        reveal_strlit("1");
        reveal_strlit("2");
        reveal_strlit("3");
        reveal_strlit("4");
        reveal_strlit("5");
        reveal_strlit("6");
        reveal_strlit("7");
        reveal_strlit("8");
        reveal_strlit("9");
    }
    let text: &'static str = if d == 0 {
        "0"
    } else if d == 1 {
        "1"
    } else if d == 2 {
        "2"
    } else if d == 3 {
        "3"
    } else if d == 4 {
        "4"
    } else if d == 5 {
        "5"
    } else if d == 6 {
        "6"
    } else if d == 7 {
        "7"
    } else if d == 8 {
        "8"
    } else {
        "9"
    };
    assert(text@ =~= seq![digit(d as nat)]);
    text
}

/// Appends the decimal numeral of `n` to `text`.
pub fn append_decimal(text: &mut String, n: u32)
    ensures
        final(text)@ == old(text)@ + decimal(n as nat),
    decreases n,
{
    if n >= 10 {
        append_decimal(text, n / 10);
    }
    text.append(digit_text(n % 10));
    assert(text@ =~= old(text)@ + decimal(n as nat));
}

impl Universe {
    /// The text form of the universe with the given glyphs.
    pub fn render_with(&self, glyphs: &Glyphs) -> (text: String)
        ensures
            text@ == self@.render(glyphs@),
    {
        let width: u32 = self.width();
        let height: u32 = self.height();
        let mut text: String = String::from_str("Life in generation: ");
        append_decimal(&mut text, self.generation());
        text.append("\n");
        proof {
            reveal_strlit("\n");
            assert(text@ =~= self@.render_header());
            assert(text@ =~= self@.render_header() + self@.render_rows(glyphs@, 0));
        }
        let mut row: u32 = 0;
        while row < height
            invariant
                width == self@.width,
                height == self@.height,
                row <= height,
                text@ == self@.render_header() + self@.render_rows(glyphs@, row as nat),
            decreases height - row,
        {
            let ghost before = text@;
            let mut col: u32 = 0;
            assert(text@ =~= before + self@.render_cells(glyphs@, row as int, 0));
            while col < width
                invariant
                    width == self@.width,
                    height == self@.height,
                    row < height,
                    col <= width,
                    text@ == before + self@.render_cells(glyphs@, row as int, col as nat),
                decreases width - col,
            {
                match self.cell(row, col) {
                    Cell::Alive => text.append(glyphs.alive.as_str()),
                    Cell::Dead => text.append(glyphs.dead.as_str()),
                }
                text.append(glyphs.separator.as_str());
                col += 1;
                assert(text@ =~= before + self@.render_cells(glyphs@, row as int, col as nat));
            }
            text.append("\n");
            row += 1;
            proof {
                reveal_strlit("\n");
                assert(text@ =~= before + self@.render_cells(glyphs@, row - 1, width as nat).push(
                    '\n',
                ));
                assert(text@ =~= self@.render_header() + self@.render_rows(glyphs@, row as nat));
            }
        }
        text
    }

    /// The text form of the universe with the standard glyphs.
    pub fn render(&self) -> (text: String)
        ensures
            text@ == self@.render(GlyphsView::standard()),
    {
        let glyphs: Glyphs = Glyphs::standard();
        self.render_with(&glyphs)
    }
}

} // verus!
