//! A row of a table: an ordered sequence of string cells.

use vstd::prelude::*;
use vstd::string::*;
use vstd::std_specs::convert::FromSpecImpl;

verus! {

/// The characters of each string, in order.
pub open spec fn texts(data: Seq<String>) -> Seq<Seq<char>> {
    Seq::new(data.len(), |i: int| data[i]@)
}

/// One line of tabular data. Its view is the sequence of its cells, each a
/// sequence of characters.
#[derive(Clone)]
pub struct TableRow(Vec<String>);

impl View for TableRow {
    type V = Seq<Seq<char>>;

    closed spec fn view(&self) -> Seq<Seq<char>> {
        texts(self.0@)
    }
}

impl TableRow {
    /// A row with the given cells, in the given order.
    pub fn new(data: Vec<String>) -> (row: Self)
        ensures
            row@ == texts(data@),
    {
        Self(data)
    }

    /// The number of cells.
    pub fn len(&self) -> (n: usize)
        ensures
            n == self@.len(),
    {
        self.0.len()
    }

    /// The cell at `col`.
    pub fn cell(&self, col: usize) -> (text: &String)
        requires
            col < self@.len(),
        ensures
            text@ == self@[col as int],
    {
        &self.0[col]
    }

    /// The number of characters in the cell at `col`.
    pub fn col_len(&self, col: usize) -> (n: usize)
        requires
            col < self@.len(),
        ensures
            n == self@[col as int].len(),
    {
        self.0[col].as_str().unicode_len()
    }
}

/// Whether `text` is what the default string conversion of `value` may give.
pub open spec fn shown_as<T: std::fmt::Display>(value: &T, text: Seq<char>) -> bool {
    exists|s: String| s@ == text && #[trigger] to_string_from_display_ensures::<T>(value, s)
}

/// Whether `cells` holds, in order, a textual form of each of `values`.
pub open spec fn row_of<T: std::fmt::Display>(values: Seq<T>, cells: Seq<Seq<char>>) -> bool {
    &&& cells.len() == values.len()
    &&& forall|i: int| 0 <= i < values.len() ==> shown_as(&values[i], #[trigger] cells[i])
}

/// Converts each value to its textual form, keeping the order.
pub fn row_from_slice<T: std::fmt::Display>(values: &[T]) -> (row: TableRow)
    ensures
        row_of(values@, row@),
{
    let mut cells: Vec<String> = Vec::new();
    let mut i: usize = 0;
    while i < values.len()
        invariant
            i <= values@.len(),
            cells@.len() == i,
            forall|j: int| 0 <= j < i ==> shown_as(&values@[j], #[trigger] cells@[j]@),
        decreases values@.len() - i,
    {
        let text: String = values[i].to_string();
        assert(shown_as(&values@[i as int], text@));
        cells.push(text);
        i += 1;
    }
    let row = TableRow::new(cells);
    assert forall|j: int| 0 <= j < values@.len() implies shown_as(&values@[j], #[trigger] row@[j]) by {
        assert(row@[j] == cells@[j]@);
    }
    row
}

impl<T: std::fmt::Display, const N: usize> From<&[T; N]> for TableRow {
    /// A row whose cells are the textual forms of the array's elements.
    fn from(value: &[T; N]) -> (row: TableRow)
        ensures
            row_of(value@, row@),
    {
        row_from_slice(value.as_slice())
    }
}

impl<T: std::fmt::Display, const N: usize> FromSpecImpl<&[T; N]> for TableRow {
    open spec fn obeys_from_spec() -> bool {
        false
    }

    open spec fn from_spec(value: &[T; N]) -> TableRow {
        arbitrary()
    }
}

impl<T: std::fmt::Display> From<&[T]> for TableRow {
    /// A row whose cells are the textual forms of the slice's elements.
    fn from(value: &[T]) -> (row: TableRow)
        ensures
            row_of(value@, row@),
    {
        row_from_slice(value)
    }
}

impl<T: std::fmt::Display> FromSpecImpl<&[T]> for TableRow {
    open spec fn obeys_from_spec() -> bool {
        false
    }

    open spec fn from_spec(value: &[T]) -> TableRow {
        arbitrary()
    }
}

impl<T: std::fmt::Display> From<Vec<T>> for TableRow {
    /// A row whose cells are the textual forms of the vector's elements.
    fn from(value: Vec<T>) -> (row: TableRow)
        ensures
            row_of(value@, row@),
    {
        row_from_slice(value.as_slice())
    }
}

impl<T: std::fmt::Display> FromSpecImpl<Vec<T>> for TableRow {
    open spec fn obeys_from_spec() -> bool {
        false
    }

    open spec fn from_spec(value: Vec<T>) -> TableRow {
        arbitrary()
    }
}

} // verus!
