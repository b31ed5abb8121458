//! The mathematical model of a table and of its rendered text.
//!
//! Cells are sequences of characters; every length in this module counts
//! characters, not bytes.

use vstd::prelude::*;

verus! {

/// The larger of two naturals.
pub open spec fn max_nat(a: nat, b: nat) -> nat {
    if a >= b {
        a
    } else {
        b
    }
}

/// The length of the longest cell in column `c` among `rows`; zero when there
/// are no rows.
pub open spec fn column_max(rows: Seq<Seq<Seq<char>>>, c: int) -> nat
    decreases rows.len(),
{
    if rows.len() == 0 {
        0
    } else {
        max_nat(column_max(rows.drop_last(), c), rows.last()[c].len())
    }
}

/// `n` copies of `fill`.
pub open spec fn run(fill: char, n: nat) -> Seq<char> {
    Seq::new(n, |i: int| fill)
}

/// `text` left-aligned in a field of `w` characters: trailing spaces are
/// added up to `w`, and a longer text is kept whole.
pub open spec fn padded(text: Seq<char>, w: nat) -> Seq<char> {
    if text.len() >= w {
        text
    } else {
        text + run(' ', (w - text.len()) as nat)
    }
}

/// One cell of a line: `"| "`, the padded text, `" "`.
pub open spec fn cell_text(text: Seq<char>, w: nat) -> Seq<char> {
    seq!['|', ' '] + padded(text, w) + seq![' ']
}

/// The first `n` cells of a line, each padded to its column's width.
pub open spec fn line_cells(cells: Seq<Seq<char>>, widths: Seq<nat>, n: nat) -> Seq<char>
    decreases n,
{
    if n == 0 {
        Seq::empty()
    } else {
        line_cells(cells, widths, (n - 1) as nat) + cell_text(cells[n - 1], widths[n - 1])
    }
}

/// A whole line: one cell per column, a closing `"|"` and a newline.
pub open spec fn line(cells: Seq<Seq<char>>, widths: Seq<nat>) -> Seq<char> {
    line_cells(cells, widths, widths.len()) + seq!['|', '\n']
}

/// The number of characters that the first `n` cells of a line take when
/// no cell is longer than its column: each column's width and three more.
pub open spec fn cells_len(widths: Seq<nat>, n: nat) -> nat
    decreases n,
{
    if n == 0 {
        0
    } else {
        cells_len(widths, (n - 1) as nat) + widths[n - 1] + 3
    }
}

/// The cells of the separator line: a run of dashes as wide as each column.
pub open spec fn separator_cells(widths: Seq<nat>) -> Seq<Seq<char>> {
    Seq::new(widths.len(), |c: int| run('-', widths[c]))
}

/// The lines of the first `n` rows, in order.
pub open spec fn row_lines(rows: Seq<Seq<Seq<char>>>, widths: Seq<nat>, n: nat) -> Seq<char>
    decreases n,
{
    if n == 0 {
        Seq::empty()
    } else {
        row_lines(rows, widths, (n - 1) as nat) + line(rows[n - 1], widths)
    }
}

/// What a table holds: an optional header and the data rows in insertion
/// order, each row a sequence of cells.
pub struct TableView {
    pub header: Option<Seq<Seq<char>>>,
    pub rows: Seq<Seq<Seq<char>>>,
}

impl TableView {
    /// Whether the table has an established width: it has a header or at
    /// least one row.
    pub open spec fn has_width(self) -> bool {
        self.header.is_some() || self.rows.len() > 0
    }

    /// The established width: the header's cell count, or without a header
    /// the first row's.
    pub open spec fn width(self) -> nat {
        match self.header {
            Some(h) => h.len(),
            None => if self.rows.len() > 0 {
                self.rows[0].len()
            } else {
                0
            },
        }
    }

    /// Whether row `i` is the first whose cell count differs from the
    /// established width.
    pub open spec fn first_mismatch_at(self, i: int) -> bool {
        &&& 0 <= i < self.rows.len()
        &&& self.rows[i].len() != self.width()
        &&& forall|j: int| 0 <= j < i ==> (#[trigger] self.rows[j]).len() == self.width()
    }

    /// Every row has the established width.
    pub open spec fn uniform(self) -> bool {
        forall|i: int| 0 <= i < self.rows.len() ==> (#[trigger] self.rows[i]).len() == self.width()
    }

    /// The invariant of a table: it has an established width and every row,
    /// header included, has exactly that many cells.
    pub open spec fn wf(self) -> bool {
        self.has_width() && self.uniform()
    }

    /// The table with `row` appended after the existing rows.
    pub open spec fn with_row(self, row: Seq<Seq<char>>) -> TableView {
        TableView { header: self.header, rows: self.rows.push(row) }
    }

    /// The longest cell of column `c` among the data rows.
    pub open spec fn content_width(self, c: int) -> nat {
        column_max(self.rows, c)
    }

    /// The width to which column `c` is padded: the content width, widened
    /// to the header's cell where there is a header.
    pub open spec fn display_width(self, c: int) -> nat {
        match self.header {
            Some(h) => max_nat(self.content_width(c), h[c].len()),
            None => self.content_width(c),
        }
    }

    /// The display width of every column.
    pub open spec fn widths(self) -> Seq<nat> {
        Seq::new(self.width(), |c: int| self.display_width(c))
    }

    /// The header line and the separator line, or nothing without a header.
    pub open spec fn header_lines(self) -> Seq<char> {
        match self.header {
            Some(h) => line(h, self.widths()) + line(separator_cells(self.widths()), self.widths()),
            None => Seq::empty(),
        }
    }

    /// The rendered table: the header lines, then one line per data row.
    pub open spec fn render(self) -> Seq<char> {
        self.header_lines() + row_lines(self.rows, self.widths(), self.rows.len())
    }
}

} // verus!
