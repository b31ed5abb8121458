use to_markdown_table::table::{dashes, push_cell};
use to_markdown_table::{MarkdownTable, MarkdownTableError, TableRow};

#[derive(Clone)]
struct DummyRow {
    data: Vec<String>,
}

impl From<DummyRow> for TableRow {
    fn from(val: DummyRow) -> Self {
        TableRow::new(val.data)
    }
}

impl From<&DummyRow> for TableRow {
    fn from(val: &DummyRow) -> Self {
        TableRow::new(val.data.clone())
    }
}

fn cells(texts: &[&str]) -> TableRow {
    TableRow::new(texts.iter().map(|t| t.to_string()).collect())
}

fn texts(row: &TableRow) -> Vec<String> {
    (0..row.len()).map(|c| row.cell(c).clone()).collect()
}

#[test]
fn adding_row() {
    let dd = DummyRow {
        data: vec!["a".to_string(), "b".to_string()],
    };

    let mut mt =
        MarkdownTable::new(Some(vec!["Hoi".to_string(), "Bye".to_string()]), vec![dd]).unwrap();

    let res = mt.add_row(DummyRow {
        data: vec!["c".to_string(), "d".to_string()],
    });

    assert!(res.is_ok());
}

#[test]
fn wrong_row_size() {
    let dd = DummyRow {
        data: vec!["a".to_string(), "b".to_string()],
    };

    let mut mt =
        MarkdownTable::new(Some(vec!["Hoi".to_string(), "Bye".to_string()]), vec![dd]).unwrap();

    let res = mt.add_row(DummyRow {
        data: vec!["d".to_string()],
    });

    assert!(res.is_err());
}

#[test]
fn to_string() {
    let dd = vec![
        DummyRow {
            data: vec!["a".to_string(), "b".to_string()],
        },
        DummyRow {
            data: vec!["c".to_string(), "d".to_string()],
        },
        DummyRow {
            data: vec!["e".to_string(), "fg".to_string()],
        },
    ];

    let mt = MarkdownTable::new(Some(vec!["Hoi".to_string(), "Bye".to_string()]), dd).unwrap();

    println!("{}", mt.render());
    assert_eq!(
        mt.render(),
        "| Hoi | Bye |\n| --- | --- |\n| a   | b   |\n| c   | d   |\n| e   | fg  |\n"
    );
}

#[test]
fn renders_names_and_ages() {
    let mt = MarkdownTable::new(
        Some(vec!["Name", "Age"]),
        vec![vec!["Jessica", "28"], vec!["Dennis", "22"]],
    )
    .unwrap();
    let expected = "| Name    | Age |\n\
                    | ------- | --- |\n\
                    | Jessica | 28  |\n\
                    | Dennis  | 22  |\n";
    assert_eq!(mt.render(), expected);
}

#[test]
fn append_then_reject_short_row() {
    let mut mt = MarkdownTable::new(Some(vec!["Hoi", "Bye"]), vec![vec!["a", "b"]]).unwrap();
    assert_eq!(mt.add_row(vec!["c", "d"]), Ok(()));
    assert_eq!(mt.row_count(), 2);
    assert_eq!(
        mt.add_row(vec!["d"]),
        Err(MarkdownTableError::InvalidRowLength(2, 1))
    );
    assert_eq!(mt.row_count(), 2);
    assert_eq!(texts(mt.row(0)), vec!["a", "b"]);
    assert_eq!(texts(mt.row(1)), vec!["c", "d"]);
}

#[test]
fn headerless_table_takes_width_from_first_row() {
    let mt = MarkdownTable::new(None::<Vec<String>>, vec![vec!["e", "fg"]]).unwrap();
    assert_eq!(mt.cols(), 2);
    assert!(mt.header().is_none());
    assert_eq!(mt.col_len(0), Some(1));
    assert_eq!(mt.col_len(1), Some(2));
    assert_eq!(mt.render(), "| e | fg |\n");
}

#[test]
fn headerless_table_validates_against_first_row() {
    let mut mt = MarkdownTable::new(None::<Vec<String>>, vec![vec!["e", "fg"]]).unwrap();
    assert_eq!(
        mt.add_row(vec!["x", "y", "z"]),
        Err(MarkdownTableError::InvalidRowLength(2, 3))
    );
    assert_eq!(mt.row_count(), 1);
    assert_eq!(mt.add_row(vec!["long", "h"]), Ok(()));
    assert_eq!(mt.render(), "| e    | fg |\n| long | h  |\n");
}

#[test]
fn empty_input_has_no_width() {
    let res = MarkdownTable::new(None::<Vec<String>>, Vec::<Vec<String>>::new());
    assert_eq!(res.err(), Some(MarkdownTableError::NoRowsSpecified));
    let res = MarkdownTable::from_rows(None, Vec::new());
    assert_eq!(res.err(), Some(MarkdownTableError::NoRowsSpecified));
}

#[test]
fn header_alone_renders_two_lines() {
    let mt = MarkdownTable::new(Some(vec!["Name", "Age"]), Vec::<Vec<String>>::new()).unwrap();
    assert_eq!(mt.row_count(), 0);
    assert_eq!(mt.cols(), 2);
    assert_eq!(mt.col_len(0), Some(4));
    assert_eq!(mt.render(), "| Name | Age |\n| ---- | --- |\n");
}

#[test]
fn construction_reports_first_mismatch_only() {
    let res = MarkdownTable::new(
        Some(vec!["a", "b"]),
        vec![vec!["1", "2"], vec!["1", "2", "3"], vec!["1"]],
    );
    assert_eq!(res.err(), Some(MarkdownTableError::InvalidRowLength(2, 3)));
}

#[test]
fn construction_without_header_checks_against_first_row() {
    let res = MarkdownTable::new(None::<Vec<String>>, vec![vec!["1"], vec!["1", "2"]]);
    assert_eq!(res.err(), Some(MarkdownTableError::InvalidRowLength(1, 2)));
}

#[test]
fn from_rows_keeps_header_and_row_order() {
    let mt = MarkdownTable::from_rows(
        Some(cells(&["h1", "h2"])),
        vec![cells(&["a", "b"]), cells(&["c", "d"])],
    )
    .unwrap();
    assert_eq!(texts(mt.header().unwrap()), vec!["h1", "h2"]);
    assert_eq!(mt.row_count(), 2);
    assert_eq!(texts(mt.row(0)), vec!["a", "b"]);
    assert_eq!(texts(mt.row(1)), vec!["c", "d"]);
}

#[test]
fn push_row_appends_or_leaves_unchanged() {
    let mut mt = MarkdownTable::from_rows(Some(cells(&["h1", "h2"])), Vec::new()).unwrap();
    assert_eq!(mt.push_row(cells(&["a", "b"])), Ok(()));
    assert_eq!(
        mt.push_row(cells(&[])),
        Err(MarkdownTableError::InvalidRowLength(2, 0))
    );
    assert_eq!(mt.row_count(), 1);
    assert_eq!(texts(mt.row(0)), vec!["a", "b"]);
}

#[test]
fn every_row_has_the_established_width() {
    let mut mt = MarkdownTable::new(Some(vec![1, 2, 3]), vec![vec![4, 5, 6]]).unwrap();
    for n in 0..5 {
        assert!(mt.add_row(vec![n, n + 1, n + 2]).is_ok());
        assert!(mt.add_row(vec![n]).is_err());
    }
    assert_eq!(mt.row_count(), 6);
    assert_eq!(mt.header().unwrap().len(), mt.cols());
    for i in 0..mt.row_count() {
        assert_eq!(mt.row(i).len(), mt.cols());
    }
}

#[test]
fn display_width_is_the_longest_cell() {
    let mt = MarkdownTable::new(
        Some(vec!["id", "description"]),
        vec![vec!["1", "x"], vec!["12345", "yy"], vec!["22", ""]],
    )
    .unwrap();
    assert_eq!(mt.col_len(0), Some(5));
    assert_eq!(mt.col_len(1), Some(11));
    assert_eq!(mt.col_len(2), None);
    for c in 0..mt.cols() {
        let w = mt.col_len(c).unwrap();
        assert!(mt.header().unwrap().col_len(c) <= w);
        for i in 0..mt.row_count() {
            assert!(mt.row(i).col_len(c) <= w);
        }
    }
}

#[test]
fn widths_count_characters() {
    let mt = MarkdownTable::new(Some(vec!["é"]), vec![vec!["ab"], vec!["ñö"]]).unwrap();
    assert_eq!(mt.col_len(0), Some(2));
    assert_eq!(mt.render(), "| é  |\n| -- |\n| ab |\n| ñö |\n");
    assert_eq!(cells(&["žluť"]).col_len(0), 4);
}

#[test]
fn rendering_twice_gives_the_same_text() {
    let mt = MarkdownTable::new(Some(vec!["a", "bb"]), vec![vec!["ccc", "d"]]).unwrap();
    let first = mt.render();
    let second = mt.render();
    assert_eq!(first.as_bytes(), second.as_bytes());
}

#[test]
fn zero_columns_render_bare_lines() {
    let mt = MarkdownTable::new(Some(Vec::<String>::new()), vec![Vec::<String>::new()]).unwrap();
    assert_eq!(mt.cols(), 0);
    assert_eq!(mt.col_len(0), None);
    assert_eq!(mt.render(), "|\n|\n|\n");
}

#[test]
fn rows_convert_from_arrays_slices_and_vectors() {
    let from_array = TableRow::from(&[1, 22, 333]);
    assert_eq!(texts(&from_array), vec!["1", "22", "333"]);
    let values = vec![true, false];
    let from_slice = TableRow::from(&values[..]);
    assert_eq!(texts(&from_slice), vec!["true", "false"]);
    let from_vec = TableRow::from(vec!['x', 'y']);
    assert_eq!(texts(&from_vec), vec!["x", "y"]);
    let mt = MarkdownTable::new(Some(&["n", "sq"]), vec![&[1, 1], &[12, 144]]).unwrap();
    assert_eq!(mt.render(), "| n  | sq  |\n| -- | --- |\n| 1  | 1   |\n| 12 | 144 |\n");
}

#[test]
fn row_accessors() {
    let row = TableRow::new(vec!["Jessica".to_string(), "28".to_string()]);
    assert_eq!(row.len(), 2);
    assert_eq!(row.cell(0), "Jessica");
    assert_eq!(row.col_len(0), 7);
    assert_eq!(row.col_len(1), 2);
    let copy = row.clone();
    assert_eq!(texts(&copy), texts(&row));
}

#[test]
fn validate_row_length_compares_cell_counts() {
    let two = cells(&["a", "b"]);
    let three = cells(&["a", "b", "c"]);
    assert_eq!(MarkdownTable::validate_row_length(&two, &two), Ok(()));
    assert_eq!(
        MarkdownTable::validate_row_length(&two, &three),
        Err(MarkdownTableError::InvalidRowLength(2, 3))
    );
    assert_eq!(
        MarkdownTable::validate_row_length(&three, &two),
        Err(MarkdownTableError::InvalidRowLength(3, 2))
    );
}

#[test]
fn cells_are_padded_on_the_right() {
    let mut out = String::from(">");
    push_cell(&mut out, "ab", 4);
    assert_eq!(out, ">| ab   ");
    push_cell(&mut out, "abcdef", 4);
    assert_eq!(out, ">| ab   | abcdef ");
    push_cell(&mut out, "", 0);
    assert_eq!(out, ">| ab   | abcdef |  ");
    assert_eq!(dashes(0), "");
    assert_eq!(dashes(3), "---");
}

#[test]
fn lines_and_separator() {
    let mt = MarkdownTable::new(Some(vec!["Name", "Age"]), vec![vec!["Jessica", "28"]]).unwrap();
    let mut out = String::new();
    mt.fmt_line(&mut out, &cells(&["x", "y"]));
    assert_eq!(out, "| x       | y   |\n");
    mt.fmt_line(&mut out, mt.row(0));
    assert_eq!(out, "| x       | y   |\n| Jessica | 28  |\n");
    assert_eq!(texts(&mt.separator_row()), vec!["-------", "---"]);
}

#[test]
fn lines_have_equal_length() {
    let mut mt = MarkdownTable::new(
        Some(vec!["id", "description"]),
        vec![vec!["1", "x"], vec!["12345", "yy"]],
    )
    .unwrap();
    assert_eq!(mt.add_row(vec!["", "a much longer description"]), Ok(()));
    let text = mt.render();
    let lengths: Vec<usize> = text.lines().map(|l| l.chars().count()).collect();
    assert_eq!(lengths, vec![37, 37, 37, 37, 37]);
}
