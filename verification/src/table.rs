//! The table itself: construction, appending, column widths and rendering.

use vstd::prelude::*;
use vstd::string::*;
use crate::error::MarkdownTableError;
use crate::layout::{cell_text, column_max, line, line_cells, padded, row_lines, run, separator_cells, TableView};
use crate::row::TableRow;

verus! {

/// The cells of each row, in order.
pub open spec fn rows_view(rows: Seq<TableRow>) -> Seq<Seq<Seq<char>>> {
    Seq::new(rows.len(), |i: int| rows[i]@)
}

/// The cells of the header, where there is one.
pub open spec fn header_view(header: Option<TableRow>) -> Option<Seq<Seq<char>>> {
    match header {
        Some(h) => Some(h@),
        None => None,
    }
}

/// What building a table from `input` must return: the table itself when
/// `input` is well formed, `NoRowsSpecified` when it has neither header nor
/// rows, and otherwise `InvalidRowLength` with the established width and the
/// cell count of the first row that differs from it.
pub open spec fn built_from(input: TableView, res: Result<MarkdownTable, MarkdownTableError>) -> bool {
    match res {
        Ok(table) => input.wf() && table@ == input,
        Err(MarkdownTableError::NoRowsSpecified) => !input.has_width(),
        Err(MarkdownTableError::InvalidRowLength(expected, actual)) => {
            &&& input.has_width()
            &&& expected == input.width()
            &&& exists|i: int| #[trigger] input.first_mismatch_at(i) && actual == input.rows[i].len()
        },
    }
}

/// What comparing a row of `actual` cells with a width of `expected` must
/// return: success exactly when the two are equal, and otherwise
/// `InvalidRowLength` carrying both numbers.
pub open spec fn length_checked(expected: nat, actual: nat, res: Result<(), MarkdownTableError>) -> bool {
    match res {
        Ok(()) => expected == actual,
        Err(MarkdownTableError::InvalidRowLength(e, a)) => {
            &&& expected != actual
            &&& e == expected
            &&& a == actual
        },
        Err(MarkdownTableError::NoRowsSpecified) => false,
    }
}

/// What appending `row` to a table with content `before` must return and
/// leave behind: the row is appended exactly when it has the established
/// width; otherwise the table is unchanged and the error carries the
/// established width and the row's cell count.
pub open spec fn appended(
    before: TableView,
    row: Seq<Seq<char>>,
    after: TableView,
    res: Result<(), MarkdownTableError>,
) -> bool {
    &&& length_checked(before.width(), row.len(), res)
    &&& after == if res.is_ok() {
        before.with_row(row)
    } else {
        before
    }
}

/// Whether `cells` are the cells of a row that converting `value` may
/// return.
pub open spec fn converts_to<R: Into<TableRow>>(value: R, cells: Seq<Seq<char>>) -> bool {
    exists|row: TableRow| row@ == cells && #[trigger] call_ensures(<R as Into<TableRow>>::into, (value,), row)
}

/// Whether `head` and `body` are what converting `header` and each of
/// `rows`, in order, may return.
pub open spec fn converted<H: Into<TableRow>, R: Into<TableRow>>(
    header: Option<H>,
    rows: Seq<R>,
    head: Option<Seq<Seq<char>>>,
    body: Seq<Seq<Seq<char>>>,
) -> bool {
    &&& match header {
        Some(h) => head.is_some() && converts_to(h, head.unwrap()),
        None => head.is_none(),
    }
    &&& body.len() == rows.len()
    &&& forall|i: int| 0 <= i < rows.len() ==> converts_to(rows[i], #[trigger] body[i])
}

/// A table of string cells: an optional header and data rows in insertion
/// order, all of one width.
pub struct MarkdownTable {
    header: Option<TableRow>,
    rows: Vec<TableRow>,
}

impl View for MarkdownTable {
    type V = TableView;

    closed spec fn view(&self) -> TableView {
        TableView { header: header_view(self.header), rows: rows_view(self.rows@) }
    }
}

/// A string of `n` dashes.
pub fn dashes(n: usize) -> (text: String)
    ensures
        text@ == run('-', n as nat),
{
    let mut text = String::new();
    let mut i: usize = 0;
    while i < n
        invariant
            i <= n,
            text@ == run('-', i as nat),
        decreases n - i,
    {
        proof {
            reveal_strlit("-");
        }
        text.append("-");
        i += 1;
        assert(text@ =~= run('-', i as nat));
    }
    text
}

/// Appends one cell to `out`: `"| "`, `text` padded with trailing spaces to
/// `width` characters, and `" "`.
pub fn push_cell(out: &mut String, text: &str, width: usize)
    ensures
        final(out)@ == old(out)@ + cell_text(text@, width as nat),
{
    proof {
        reveal_strlit("| ");
        reveal_strlit(" ");
    }
    let len: usize = text.unicode_len();
    out.append("| ");
    out.append(text);
    let ghost start = out@;
    assert(start =~= old(out)@ + seq!['|', ' '] + text@);
    let mut i: usize = len;
    while i < width
        invariant
            len <= i,
            i <= width || i == len,
            " "@ == seq![' '],
            out@ == start + run(' ', (i - len) as nat),
        decreases width - i,
    {
        out.append(" ");
        i += 1;
        assert(out@ =~= start + run(' ', (i - len) as nat));
    }
    assert(start + run(' ', (i - len) as nat) =~= old(out)@ + seq!['|', ' '] + padded(text@, width as nat)) by {
        if len >= width {
            assert(run(' ', (i - len) as nat) =~= Seq::<char>::empty());
        } else {
            assert(i == width);
        }
    }
    out.append(" ");
    assert(out@ =~= old(out)@ + cell_text(text@, width as nat));
}

impl MarkdownTable {
    /// Whether the table has an established width that all its rows share.
    /// This is the type's invariant: it holds of every table at all times.
    pub open spec fn wf(&self) -> bool {
        self@.wf()
    }

    #[verifier::type_invariant]
    closed spec fn inv(self) -> bool {
        self@.wf()
    }

    /// Converts the header, if any, and each row, in order, and builds a
    /// table from them as [`MarkdownTable::from_rows`] does.
    ///
    /// The outcome is the one that `from_rows` gives for rows that the
    /// conversions may return: one row per row given, in the order given,
    /// and a header exactly when one was given.
    pub fn new<H: Into<TableRow>, R: Into<TableRow>>(header: Option<H>, rows: Vec<R>) -> (res:
        Result<Self, MarkdownTableError>)
        ensures
            exists|head: Option<Seq<Seq<char>>>, body: Seq<Seq<Seq<char>>>|
                {
                    &&& converted(header, rows@, head, body)
                    &&& #[trigger] built_from(TableView { header: head, rows: body }, res)
                },
    {
        let head: Option<TableRow> = match header {
            Some(h) => Some(h.into()),
            None => None,
        };
        let mut body: Vec<TableRow> = Vec::new();
        for row in it: rows
            invariant
                body@.len() == it.index(),
                it.seq() == rows@,
                forall|j: int| 0 <= j < body@.len() ==> converts_to(rows@[j], (#[trigger] body@[j])@),
        {
            body.push(row.into());
        }
        let res = Self::from_rows(head, body);
        assert(converted(header, rows@, header_view(head), rows_view(body@)));
        assert(built_from(TableView { header: header_view(head), rows: rows_view(body@) }, res));
        res
    }

    /// Converts `row` and appends it as [`MarkdownTable::push_row`] does.
    ///
    /// The outcome is the one that `push_row` gives for a row that the
    /// conversion may return.
    pub fn add_row<R: Into<TableRow>>(&mut self, row: R) -> (res: Result<(), MarkdownTableError>)
        ensures
            final(self).wf(),
            exists|cells: Seq<Seq<char>>|
                converts_to(row, cells) && #[trigger] appended(old(self)@, cells, final(self)@, res),
    {
        let cells: TableRow = row.into();
        let res = self.push_row(cells);
        assert(converts_to(row, cells@) && appended(old(self)@, cells@, self@, res));
        res
    }

    /// Builds a table from a header, if any, and the initial rows.
    ///
    /// The established width is the header's cell count, or without a header
    /// the first row's. The rows are checked in order and the first one of
    /// another width is reported; with neither header nor rows there is no
    /// width and the table is refused.
    pub fn from_rows(header: Option<TableRow>, rows: Vec<TableRow>) -> (res: Result<
        Self,
        MarkdownTableError,
    >)
        ensures
            built_from(TableView { header: header_view(header), rows: rows_view(rows@) }, res),
    {
        let ghost input = TableView { header: header_view(header), rows: rows_view(rows@) };
        if header.is_none() && rows.len() == 0 {
            return Err(MarkdownTableError::NoRowsSpecified);
        }
        let mut i: usize = 0;
        while i < rows.len()
            invariant
                i <= rows@.len(),
                input == (TableView { header: header_view(header), rows: rows_view(rows@) }),
                input.has_width(),
                forall|j: int| 0 <= j < i ==> (#[trigger] input.rows[j]).len() == input.width(),
            decreases rows@.len() - i,
        {
            let reference: &TableRow = match &header {
                Some(h) => h,
                None => &rows[0],
            };
            assert(input.rows[i as int] == rows@[i as int]@);
            assert(header.is_none() ==> input.rows[0] == rows@[0]@);
            match Self::validate_row_length(reference, &rows[i]) {
                Ok(()) => {},
                Err(e) => {
                    assert(input.first_mismatch_at(i as int));
                    return Err(e);
                },
            }
            i += 1;
        }
        let table = Self { header, rows };
        assert(table@ == input);
        Ok(table)
    }

    /// Appends `row` after the existing rows if it has the established
    /// width, and otherwise leaves the table as it was.
    pub fn push_row(&mut self, row: TableRow) -> (res: Result<(), MarkdownTableError>)
        ensures
            final(self).wf(),
            appended(old(self)@, row@, final(self)@, res),
    {
        proof {
            use_type_invariant(&*self);
        }
        let reference: &TableRow = match &self.header {
            Some(h) => h,
            None => &self.rows[0],
        };
        match Self::validate_row_length(reference, &row) {
            Ok(()) => {},
            Err(e) => {
                return Err(e);
            },
        }
        // The table is taken out of `self` while it grows, so that `self`
        // holds a well-formed table at every point.
        let mut taken = Self { header: Some(TableRow::new(Vec::new())), rows: Vec::new() };
        std::mem::swap(self, &mut taken);
        let Self { header, mut rows } = taken;
        rows.push(row);
        assert(rows_view(rows@) =~= old(self)@.rows.push(row@));
        *self = Self { header, rows };
        Ok(())
    }

    /// The number of data rows.
    pub fn row_count(&self) -> (n: usize)
        ensures
            n == self@.rows.len(),
    {
        self.rows.len()
    }

    /// The header, where the table has one.
    pub fn header(&self) -> (res: Option<&TableRow>)
        ensures
            match res {
                Some(h) => self@.header == Some(h@) && h@.len() == self@.width(),
                None => self@.header.is_none(),
            },
    {
        match &self.header {
            Some(h) => Some(h),
            None => None,
        }
    }

    /// The data row at position `i`, counted from zero in insertion order.
    pub fn row(&self, i: usize) -> (row: &TableRow)
        requires
            i < self@.rows.len(),
        ensures
            row@ == self@.rows[i as int],
            row@.len() == self@.width(),
    {
        proof {
            use_type_invariant(self);
        }
        &self.rows[i]
    }

    /// The established width: the number of columns.
    pub fn cols(&self) -> (n: usize)
        ensures
            self.wf(),
            n == self@.width(),
    {
        proof {
            use_type_invariant(self);
        }
        if let Some(ref header) = self.header {
            header.len()
        } else {
            self.rows[0].len()
        }
    }

    /// The display width of column `col`, or `None` where the table has no
    /// such column.
    pub fn col_len(&self, col: usize) -> (res: Option<usize>)
        ensures
            match res {
                Some(w) => col < self@.width() && w == self@.display_width(col as int),
                None => col >= self@.width(),
            },
    {
        proof {
            use_type_invariant(self);
        }
        if col >= self.cols() {
            None
        } else {
            let mut widest: usize = 0;
            let mut i: usize = 0;
            while i < self.rows.len()
                invariant
                    self.wf(),
                    col < self@.width(),
                    i <= self.rows@.len(),
                    widest == column_max(self@.rows.take(i as int), col as int),
                decreases self.rows@.len() - i,
            {
                assert(self@.rows[i as int] == self.rows@[i as int]@);
                let len: usize = self.rows[i].col_len(col);
                assert(self@.rows.take(i + 1).drop_last() =~= self@.rows.take(i as int));
                if len > widest {
                    widest = len;
                }
                i += 1;
            }
            assert(self@.rows.take(i as int) =~= self@.rows);
            if let Some(ref header) = self.header {
                let len: usize = header.col_len(col);
                if widest > len {
                    Some(widest)
                } else {
                    Some(len)
                }
            } else {
                Some(widest)
            }
        }
    }

    /// Appends to `out` the line that shows `cells`, one cell per column,
    /// each padded to its column's display width.
    pub fn fmt_line(&self, out: &mut String, cells: &TableRow)
        requires
            cells@.len() == self@.width(),
        ensures
            final(out)@ == old(out)@ + line(cells@, self@.widths()),
    {
        let cols: usize = self.cols();
        let mut col: usize = 0;
        while col < cols
            invariant
                self.wf(),
                cols == self@.width(),
                cells@.len() == cols,
                col <= cols,
                out@ == old(out)@ + line_cells(cells@, self@.widths(), col as nat),
            decreases cols - col,
        {
            let len: usize = match self.col_len(col) {
                Some(len) => len,
                None => 0,
            };
            push_cell(out, cells.cell(col).as_str(), len);
            col += 1;
            assert(out@ =~= old(out)@ + line_cells(cells@, self@.widths(), col as nat));
        }
        proof {
            reveal_strlit("|\n");
        }
        out.append("|\n");
        assert(out@ =~= old(out)@ + line(cells@, self@.widths()));
    }

    /// The row of the separator line: in each column a run of dashes as long
    /// as the column's display width.
    pub fn separator_row(&self) -> (row: TableRow)
        ensures
            row@ == separator_cells(self@.widths()),
    {
        let cols: usize = self.cols();
        let mut cells: Vec<String> = Vec::new();
        let mut col: usize = 0;
        while col < cols
            invariant
                self.wf(),
                cols == self@.width(),
                col <= cols,
                cells@.len() == col,
                forall|c: int| 0 <= c < col ==> (#[trigger] cells@[c])@ == run('-', self@.widths()[c]),
            decreases cols - col,
        {
            let len: usize = match self.col_len(col) {
                Some(len) => len,
                None => 0,
            };
            cells.push(dashes(len));
            col += 1;
        }
        let row = TableRow::new(cells);
        assert(row@ =~= separator_cells(self@.widths()));
        row
    }

    /// The table as text: with a header, the header line and the separator
    /// line; then one line per data row, in insertion order.
    pub fn render(&self) -> (text: String)
        ensures
            text@ == self@.render(),
    {
        proof {
            use_type_invariant(self);
        }
        let mut out = String::new();
        if let Some(ref header) = self.header {
            self.fmt_line(&mut out, header);
            let separator = self.separator_row();
            self.fmt_line(&mut out, &separator);
        }
        assert(out@ =~= self@.header_lines());
        let mut i: usize = 0;
        while i < self.rows.len()
            invariant
                self.wf(),
                i <= self.rows@.len(),
                out@ == self@.header_lines() + row_lines(self@.rows, self@.widths(), i as nat),
            decreases self.rows@.len() - i,
        {
            assert(self@.rows[i as int] == self.rows@[i as int]@);
            self.fmt_line(&mut out, &self.rows[i]);
            i += 1;
            assert(out@ =~= self@.header_lines() + row_lines(self@.rows, self@.widths(), i as nat));
        }
        out
    }

    /// Compares the cell counts of the row that sets the width and of
    /// `new_row`.
    pub fn validate_row_length(header: &TableRow, new_row: &TableRow) -> (res: Result<
        (),
        MarkdownTableError,
    >)
        ensures
            length_checked(header@.len(), new_row@.len(), res),
    {
        let header_len: usize = header.len();
        let new_len: usize = new_row.len();
        if header_len != new_len {
            Err(MarkdownTableError::InvalidRowLength(header_len, new_len))
        } else {
            Ok(())
        }
    }
}

} // verus!
