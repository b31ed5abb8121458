//! What holds of every table: the shared width of its rows, the effect of
//! appending, the meaning of a column's display width, and the determinism
//! of rendering.

use vstd::prelude::*;
use crate::error::MarkdownTableError;
use crate::layout::{cells_len, column_max, line, line_cells, padded, separator_cells, TableView};
use crate::table::{appended, MarkdownTable};

verus! {

/// `table` after appending each of `rows` in turn.
pub open spec fn with_rows(table: TableView, rows: Seq<Seq<Seq<char>>>) -> TableView
    decreases rows.len(),
{
    if rows.len() == 0 {
        table
    } else {
        with_rows(table, rows.drop_last()).with_row(rows.last())
    }
}

/// In a well-formed table the header, if any, and every data row have
/// exactly as many cells as the established width.
pub proof fn lemma_rows_share_width(table: TableView)
    requires
        table.wf(),
    ensures
        table.header.is_some() ==> table.header.unwrap().len() == table.width(),
        forall|i: int| 0 <= i < table.rows.len() ==> (#[trigger] table.rows[i]).len() == table.width(),
{
}

/// Appending a row of the established width keeps the table well formed,
/// keeps its width, and puts the row last.
pub proof fn lemma_with_row_wf(table: TableView, row: Seq<Seq<char>>)
    requires
        table.wf(),
        row.len() == table.width(),
    ensures
        table.with_row(row).wf(),
        table.with_row(row).width() == table.width(),
        table.with_row(row).rows.len() == table.rows.len() + 1,
        table.with_row(row).rows.last() == row,
{
    let after = table.with_row(row);
    assert(after.rows[0] == if table.rows.len() > 0 {
        table.rows[0]
    } else {
        row
    });
    assert forall|i: int| 0 <= i < after.rows.len() implies (#[trigger] after.rows[i]).len()
        == after.width() by {
        if i < table.rows.len() {
            assert(after.rows[i] == table.rows[i]);
        }
    }
}

/// A well-formed table stays well formed, with the same width, after any
/// sequence of appended rows that each have the established width.
pub proof fn lemma_with_rows_wf(table: TableView, rows: Seq<Seq<Seq<char>>>)
    requires
        table.wf(),
        forall|i: int| 0 <= i < rows.len() ==> (#[trigger] rows[i]).len() == table.width(),
    ensures
        with_rows(table, rows).wf(),
        with_rows(table, rows).width() == table.width(),
        with_rows(table, rows).header == table.header,
        with_rows(table, rows).rows == table.rows + rows,
    decreases rows.len(),
{
    if rows.len() == 0 {
        assert(table.rows + rows =~= table.rows);
    } else {
        let front = rows.drop_last();
        assert forall|i: int| 0 <= i < front.len() implies (#[trigger] front[i]).len()
            == table.width() by {
            assert(front[i] == rows[i]);
        }
        lemma_with_rows_wf(table, front);
        lemma_with_row_wf(with_rows(table, front), rows.last());
        assert((table.rows + front).push(rows.last()) =~= table.rows + rows);
    }
}

/// An append that the table's contract describes fails on a row of another
/// width: the error carries the established width and the row's cell count,
/// and the table, its row count included, is as before.
pub proof fn lemma_mismatch_leaves_table(
    before: TableView,
    row: Seq<Seq<char>>,
    after: TableView,
    res: Result<(), MarkdownTableError>,
)
    requires
        appended(before, row, after, res),
        row.len() != before.width(),
    ensures
        res matches Err(MarkdownTableError::InvalidRowLength(expected, actual)) && expected
            == before.width() && actual == row.len(),
        after == before,
        after.rows.len() == before.rows.len(),
{
}

/// An append that the table's contract describes succeeds on a row of the
/// established width and adds exactly that row at the end.
pub proof fn lemma_match_appends(
    before: TableView,
    row: Seq<Seq<char>>,
    after: TableView,
    res: Result<(), MarkdownTableError>,
)
    requires
        appended(before, row, after, res),
        row.len() == before.width(),
    ensures
        res.is_ok(),
        after.rows == before.rows.push(row),
        after.header == before.header,
{
}

/// The longest cell of a column is at least as long as each cell of the
/// column, and, where there are rows, is the length of one of them.
pub proof fn lemma_column_max_is_max(rows: Seq<Seq<Seq<char>>>, c: int)
    ensures
        forall|i: int| 0 <= i < rows.len() ==> (#[trigger] rows[i])[c].len() <= column_max(rows, c),
        rows.len() == 0 ==> column_max(rows, c) == 0,
        rows.len() > 0 ==> exists|i: int|
            0 <= i < rows.len() && (#[trigger] rows[i])[c].len() == column_max(rows, c),
    decreases rows.len(),
{
    if rows.len() > 0 {
        let front = rows.drop_last();
        lemma_column_max_is_max(front, c);
        assert forall|i: int| 0 <= i < rows.len() implies (#[trigger] rows[i])[c].len()
            <= column_max(rows, c) by {
            if i < front.len() {
                assert(front[i] == rows[i]);
            }
        }
        if front.len() > 0 && column_max(rows, c) == column_max(front, c) {
            let i = choose|i: int|
                0 <= i < front.len() && (#[trigger] front[i])[c].len() == column_max(front, c);
            assert(rows[i] == front[i]);
        } else {
            assert(rows[rows.len() - 1] == rows.last());
        }
    }
}

/// The display width of a column is the maximum of the header cell's length,
/// where there is a header, and of the lengths of all data cells in that
/// column: no cell is longer, and some cell is exactly as long.
pub proof fn lemma_display_width_is_max(table: TableView, c: int)
    requires
        table.wf(),
        0 <= c < table.width(),
    ensures
        table.header.is_some() ==> table.header.unwrap()[c].len() <= table.display_width(c),
        forall|i: int|
            0 <= i < table.rows.len() ==> (#[trigger] table.rows[i])[c].len() <= table.display_width(c),
        (table.header.is_some() && table.header.unwrap()[c].len() == table.display_width(c))
            || exists|i: int|
            0 <= i < table.rows.len() && (#[trigger] table.rows[i])[c].len() == table.display_width(c),
        table.header.is_none() ==> table.display_width(c) == table.content_width(c),
{
    lemma_column_max_is_max(table.rows, c);
}

/// Every cell of a well-formed table, padded to its column's display width,
/// is exactly that wide and begins with the cell's own text.
pub proof fn lemma_cells_fill_column(table: TableView, i: int, c: int)
    requires
        table.wf(),
        0 <= i < table.rows.len(),
        0 <= c < table.width(),
    ensures
        padded(table.rows[i][c], table.display_width(c)).len() == table.display_width(c),
        padded(table.rows[i][c], table.display_width(c)).subrange(0, table.rows[i][c].len() as int)
            == table.rows[i][c],
{
    lemma_display_width_is_max(table, c);
    let text = table.rows[i][c];
    assert(padded(text, table.display_width(c)).subrange(0, text.len() as int) =~= text);
}

/// Cells that each fit their column fill it: the first `n` cells of the line
/// take each column's width and three characters more.
pub proof fn lemma_line_cells_len(cells: Seq<Seq<char>>, widths: Seq<nat>, n: nat)
    requires
        n <= widths.len(),
        n <= cells.len(),
        forall|c: int| 0 <= c < n ==> (#[trigger] cells[c]).len() <= widths[c],
    ensures
        line_cells(cells, widths, n).len() == cells_len(widths, n),
    decreases n,
{
    if n > 0 {
        lemma_line_cells_len(cells, widths, (n - 1) as nat);
        assert(cells[n - 1].len() <= widths[n - 1]);
    }
}

/// The lines of a well-formed table are aligned: the header line, the
/// separator line and the line of every data row all have the same number
/// of characters, which the column widths fix.
pub proof fn lemma_lines_align(table: TableView)
    requires
        table.wf(),
    ensures
        table.header.is_some() ==> line(table.header.unwrap(), table.widths()).len() == cells_len(
            table.widths(),
            table.width(),
        ) + 2,
        line(separator_cells(table.widths()), table.widths()).len() == cells_len(
            table.widths(),
            table.width(),
        ) + 2,
        forall|i: int|
            0 <= i < table.rows.len() ==> line(#[trigger] table.rows[i], table.widths()).len()
                == cells_len(table.widths(), table.width()) + 2,
{
    let widths = table.widths();
    assert forall|c: int| 0 <= c < table.width() implies {
        &&& table.header.is_some() ==> table.header.unwrap()[c].len() <= widths[c]
        &&& forall|i: int| 0 <= i < table.rows.len() ==> (#[trigger] table.rows[i])[c].len() <= widths[c]
    } by {
        lemma_display_width_is_max(table, c);
    }
    if table.header.is_some() {
        lemma_line_cells_len(table.header.unwrap(), widths, table.width());
    }
    lemma_line_cells_len(separator_cells(widths), widths, table.width());
    assert forall|i: int| 0 <= i < table.rows.len() implies line(
        #[trigger] table.rows[i],
        widths,
    ).len() == cells_len(widths, table.width()) + 2 by {
        lemma_line_cells_len(table.rows[i], widths, table.width());
    }
}

/// Rendering is a function of what the table holds: two renderings of
/// tables with the same content are the same text, byte for byte.
pub proof fn lemma_render_deterministic(a: MarkdownTable, b: MarkdownTable, x: String, y: String)
    requires
        a@ == b@,
        x@ == a@.render(),
        y@ == b@.render(),
    ensures
        x@ == y@,
        vstd::utf8::encode_utf8(x@) == vstd::utf8::encode_utf8(y@),
{
}

} // verus!
