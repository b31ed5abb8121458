//! Plain-text, pipe-delimited tables with columns sized to their content.
//!
//! A [`MarkdownTable`] owns an optional header and a sequence of data rows of
//! one common width. Every operation carries a contract over [`TableView`],
//! the mathematical content of a table, and rendering is proved equal to the
//! layout that [`TableView::render`] defines.

pub mod error;
pub mod layout;
pub mod lemmas;
pub mod row;
pub mod table;

pub use error::MarkdownTableError;
pub use layout::TableView;
pub use row::TableRow;
pub use table::MarkdownTable;
