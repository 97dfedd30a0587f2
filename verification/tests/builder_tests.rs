use tabled::builder::Builder;

fn row(cells: &[&str]) -> Vec<String> {
    cells.iter().map(|s| s.to_string()).collect()
}

fn grid(rows: &[&[&str]]) -> Vec<Vec<String>> {
    rows.iter().map(|r| row(r)).collect()
}

#[test]
fn header_and_row_export() {
    let mut b = Builder::new();
    b.set_header(row(&["index", "measure", "value"]));
    b.push_record(row(&["0", "weight", "0.443"]));
    let g = b.build();
    assert_eq!(
        g,
        grid(&[&["index", "measure", "value"], &["0", "weight", "0.443"]])
    );
}

#[test]
fn clean_removes_empty_row() {
    let mut b = Builder::new();
    b.push_record(row(&["Hello"]));
    b.push_record(row(&["World"]));
    b.push_record(row(&[""]));
    b.clean();
    assert_eq!(b.count_columns(), 1);
    assert_eq!(b.count_records(), 2);
    let g = b.build();
    assert_eq!(g, grid(&[&["Hello"], &["World"]]));
}

#[test]
fn width_grows_and_pads() {
    let mut b = Builder::new();
    b.push_record(row(&["a", "b"]));
    assert_eq!(b.count_columns(), 2);
    b.push_record(row(&["c"]));
    assert_eq!(b.count_columns(), 2);
    let g = b.build();
    assert_eq!(g, grid(&[&["a", "b"], &["c", ""]]));
}

#[test]
fn insert_then_remove_restores_rows() {
    let mut b = Builder::new();
    b.push_record(row(&["1", "2"]));
    b.push_record(row(&["3", "4"]));
    let before = b.clone().build();
    let ok = b.insert_record(1, row(&["x", "y"]));
    assert!(ok);
    assert_eq!(b.count_records(), 3);
    b.remove_record(1);
    assert_eq!(b.count_records(), 2);
    assert_eq!(b.count_columns(), 2);
    assert_eq!(b.build(), before);
}

#[test]
fn insert_record_out_of_range() {
    let mut b = Builder::new();
    b.push_record(row(&["a"]));
    let ok = b.insert_record(5, row(&["b"]));
    assert!(!ok);
    assert_eq!(b.count_records(), 1);
    assert_eq!(b.build(), grid(&[&["a"]]));
}

#[test]
fn clean_is_idempotent() {
    let mut b = Builder::new();
    b.set_header(row(&["h1", "", "h3"]));
    b.push_record(row(&["a", "", ""]));
    b.push_record(row(&["", "", ""]));
    b.push_record(row(&["c", "", "d"]));
    let mut once = b.clone();
    once.clean();
    let mut twice = b;
    twice.clean();
    twice.clean();
    assert_eq!(once.count_columns(), twice.count_columns());
    assert_eq!(once.build(), twice.build());
}

#[test]
fn clean_without_empties_is_no_op() {
    let mut b = Builder::new();
    b.set_header(row(&["h1", "h2"]));
    b.push_record(row(&["a", ""]));
    b.push_record(row(&["", "b"]));
    let before = b.clone().build();
    b.clean();
    assert_eq!(b.count_columns(), 2);
    assert_eq!(b.count_records(), 2);
    assert_eq!(b.build(), before);
}

#[test]
fn remove_then_push_column_changes_order() {
    // removing a column and supplying the same cells again appends them at
    // the end: the original column order does not come back.
    let mut b = Builder::new();
    b.push_record(row(&["a", "b"]));
    b.push_record(row(&["c", "d"]));
    b.remove_column(0);
    assert_eq!(b.count_columns(), 1);
    b.push_column(row(&["a", "c"]));
    assert_eq!(b.count_columns(), 2);
    let g = b.build();
    assert_eq!(g, grid(&[&["b", "a"], &["d", "c"]]));
}

#[test]
fn default_text_fills_padding() {
    let mut b = Builder::new();
    b.set_default_text("undefined".to_string());
    b.set_header(row(&["0", "1", "2"]));
    b.push_record(row(&["i"]));
    let g = b.build();
    assert_eq!(
        g,
        grid(&[&["0", "1", "2"], &["i", "undefined", "undefined"]])
    );
}

#[test]
fn remove_header_keeps_width() {
    let mut b = Builder::new();
    b.set_header(row(&["h1", "h2", "h3"]));
    b.push_record(row(&["a"]));
    b.remove_header();
    assert!(!b.has_header());
    assert_eq!(b.count_columns(), 3);
    let g = b.build();
    assert_eq!(g, grid(&[&["a", "", ""]]));
}

#[test]
fn clear_keeps_header() {
    let mut b = Builder::new();
    b.set_header(row(&["h1", "h2"]));
    b.push_record(row(&["a", "b"]));
    b.push_record(row(&["c", "d"]));
    b.clear();
    assert_eq!(b.count_records(), 0);
    assert_eq!(b.count_columns(), 2);
    assert!(b.has_header());
    assert_eq!(b.build(), grid(&[&["h1", "h2"]]));
}

#[test]
fn hint_column_size_marks_consistent() {
    let mut b = Builder::new();
    b.push_record(row(&["a", "b"]));
    b.push_record(row(&["c", "d"]));
    b.hint_column_size(2);
    assert_eq!(b.count_columns(), 2);
    assert_eq!(b.build(), grid(&[&["a", "b"], &["c", "d"]]));
}

#[test]
fn push_column_with_header() {
    let mut b = Builder::new();
    b.set_header(row(&["h"]));
    b.push_record(row(&["1"]));
    b.push_record(row(&["2"]));
    b.push_column(row(&["H2", "x", "y"]));
    assert_eq!(b.count_columns(), 2);
    let g = b.build();
    assert_eq!(g, grid(&[&["h", "H2"], &["1", "x"], &["2", "y"]]));
}

#[test]
fn push_column_short_supply() {
    let mut b = Builder::new();
    b.push_record(row(&["1"]));
    b.push_record(row(&["2"]));
    b.push_column(row(&["x"]));
    let g = b.build();
    assert_eq!(g, grid(&[&["1", "x"], &["2", ""]]));
}

#[test]
fn insert_column_in_the_middle() {
    let mut b = Builder::new();
    b.push_record(row(&["a", "b"]));
    b.push_record(row(&["c", "d"]));
    b.insert_column(row(&["x", "y"]), 1);
    assert_eq!(b.count_columns(), 3);
    let g = b.build();
    assert_eq!(g, grid(&[&["a", "x", "b"], &["c", "y", "d"]]));
}

#[test]
fn remove_column_pads_first() {
    let mut b = Builder::new();
    b.push_record(row(&["a", "b", "c"]));
    b.push_record(row(&["d"]));
    b.remove_column(0);
    assert_eq!(b.count_columns(), 2);
    let g = b.build();
    assert_eq!(g, grid(&[&["b", "c"], &["", ""]]));
}

#[test]
fn narrower_header_is_padded() {
    let mut b = Builder::new();
    b.set_header(row(&["h1", "h2", "h3"]));
    b.set_header(row(&["x"]));
    assert_eq!(b.count_columns(), 3);
    let g = b.build();
    assert_eq!(g, grid(&[&["x", "", ""]]));
}

#[test]
fn clean_without_rows_drops_all_columns() {
    let mut b = Builder::new();
    b.set_header(row(&["h1", "h2"]));
    b.clean();
    assert_eq!(b.count_columns(), 0);
    assert!(b.has_header());
    let g = b.build();
    assert_eq!(g, vec![Vec::<String>::new()]);
}

#[test]
fn empty_builder_builds_empty_grid() {
    let b = Builder::new();
    let g = b.build();
    assert_eq!(g, Vec::<Vec<String>>::new());
    let b2 = Builder::with_capacity(7);
    assert_eq!(b2.count_records(), 0);
    assert_eq!(b2.build(), Vec::<Vec<String>>::new());
}

#[test]
fn exported_rows_have_the_max_pushed_width() {
    let mut b = Builder::new();
    b.push_record(row(&["1"]));
    b.push_record(row(&["1", "2", "3", "4"]));
    b.push_record(row(&["1", "2"]));
    b.push_record(row(&[]));
    assert_eq!(b.count_columns(), 4);
    let g = b.build();
    assert_eq!(g.len(), 4);
    for r in &g {
        assert_eq!(r.len(), 4);
    }
}

#[test]
fn from_rows_builds_and_pads() {
    let data = vec![
        row(&["column1", "column2"]),
        row(&["data1", "data2"]),
        row(&["data3"]),
    ];
    let mut b = Builder::from_rows(data);
    assert_eq!(b.count_records(), 3);
    assert_eq!(b.count_columns(), 2);
    assert!(!b.has_header());
    b.set_default_text("-".to_string());
    let g = b.build();
    assert_eq!(
        g,
        grid(&[&["column1", "column2"], &["data1", "data2"], &["data3", "-"]])
    );
}
