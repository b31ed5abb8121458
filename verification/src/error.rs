//! The ways in which building or growing a table can fail.

use vstd::prelude::*;

verus! {

/// Why a table could not be built or a row could not be appended.
#[derive(Debug, Clone, Copy, PartialEq, Eq, Structural)]
pub enum MarkdownTableError {
    /// A row has a different number of cells than the table's established
    /// width: `InvalidRowLength(expected, actual)`.
    InvalidRowLength(usize, usize),
    /// Neither a header nor a data row was given, so the table has no width.
    NoRowsSpecified,
}

} // verus!
