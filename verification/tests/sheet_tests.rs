use dataman::libstuff::adapter::{Mode as AdapterMode, Row, Sheet as RowSheet};
use dataman::libstuff::datarow::{DataItem as RowItem, DataRow};
use dataman::libstuff::model::{Column as TextColumn, Mode as TextMode, Sheet as TextSheet};
use dataman::model::datarow::DataItem;
use dataman::model::db_slice::{DatabaseSlice, TableState};
use dataman::model::{Column, Mode, Sheet};
use dataman::error::AppError;
use dataman::Config;

fn strings(v: &[&str]) -> Vec<String> {
    v.iter().map(|s| s.to_string()).collect()
}

#[test]
fn sheet_from_records_builds_columns() {
    let sheet = Sheet::from_records(
        strings(&["firstname", "age"]),
        vec![strings(&["henrik", "30"]), strings(&["john", "40"])],
    );
    assert_eq!(sheet.columns.len(), 2);
    assert_eq!(sheet.get(0, 0), "firstname");
    assert_eq!(sheet.get(0, 2), "john");
    assert_eq!(sheet.get(1, 1), "30");
    assert_eq!(sheet.columns[1].get_data(), &["30".to_string(), "40".to_string()][..]);
    assert_eq!(sheet.cursor, 0);
    assert_eq!(sheet.mode, Mode::Normal);
}

#[test]
fn sheet_derives_a_column() {
    let mut sheet = Sheet::new(vec![Column::new(strings(&["name", "ann", "bo"]))], 0);
    sheet.derive_new(0, |s| format!("{}X{}", s, s));
    assert_eq!(sheet.columns.len(), 2);
    assert_eq!(sheet.get(1, 0), "name-DER");
    assert_eq!(sheet.get(1, 1), "annXann");
    assert_eq!(sheet.get(1, 2), "boXbo");
    sheet.change_mode(Mode::Regex);
    assert_eq!(sheet.mode, Mode::Regex);
    assert_eq!(sheet.user_inputs, vec![String::new()]);
    assert_eq!(Mode::default(), Mode::Normal);
}

#[test]
fn text_sheet_from_csv_text() {
    let sheet = TextSheet::try_from_str("firstname,age\nhenrik,30\njohn,40\n").unwrap();
    assert_eq!(sheet.columns.len(), 2);
    assert_eq!(sheet.get(0, 1), "henrik");
    assert_eq!(sheet.get(1, 2), "40");
    assert_eq!(sheet.columns[0].get_data(), &["henrik".to_string(), "john".to_string()][..]);
    assert_eq!(sheet.mode, TextMode::Normal);
}

#[test]
fn text_sheet_refuses_empty_text() {
    assert!(matches!(TextSheet::try_from_str(""), Err(AppError::Io(_))));
}

#[test]
fn text_sheet_refuses_ragged_records() {
    assert!(matches!(TextSheet::try_from_str("a,b\n1,2,3\n"), Err(AppError::Parse(_))));
}

#[test]
fn text_sheet_derives_and_changes_mode() {
    let mut sheet = TextSheet::new(vec![TextColumn::new(strings(&["h", "x"]))]);
    sheet.derive_new(|s| s.to_uppercase());
    assert_eq!(sheet.get(1, 0), "h-DER");
    assert_eq!(sheet.get(1, 1), "X");
    sheet.user_input.push_str("abc");
    sheet.change_mode(TextMode::RegexReplace);
    assert!(sheet.user_input.is_empty());
    assert_eq!(sheet.mode, TextMode::RegexReplace);
}

#[test]
fn row_sheet_derives_from_the_cursor() {
    let mut sheet = RowSheet::new(vec![Row::new(strings(&["h", "a", "b"])), Row::new(strings(&["g", "c", "d"]))]);
    sheet.cursor = 1;
    sheet.derive_new(|s| format!("<{}>", s));
    assert_eq!(sheet.rows.len(), 3);
    assert_eq!(sheet.get(2, 0), "g-DER");
    assert_eq!(sheet.get(2, 2), "<d>");
    assert_eq!(sheet.rows[0].get_data(), &["a".to_string(), "b".to_string()][..]);
    sheet.change_mode(AdapterMode::Regex);
    assert_eq!(sheet.mode, AdapterMode::Regex);
}

#[test]
fn data_row_cells() {
    let row = DataRow::from_strs(vec!["a", "b"]);
    assert_eq!(row.get(1), RowItem::Text("b".to_string()));
    assert_eq!(row.get(2), RowItem::Null);
    assert_eq!(row.get(-1), RowItem::Null);
    assert_eq!(RowItem::Null.to_text(), "NULL");
    assert_eq!(RowItem::Integer(-7).to_text(), "-7");
}

#[test]
fn data_item_lengths_and_text() {
    assert_eq!(DataItem::Text("héllo".to_string()).len(), 6);
    assert_eq!(DataItem::Integer(-120).len(), 4);
    assert_eq!(DataItem::Integer(0).len(), 1);
    assert_eq!(DataItem::Integer(i64::MIN).len(), 20);
    assert_eq!(DataItem::Float("1.5".to_string()).len(), 3);
    assert_eq!(DataItem::Null.len(), 4);
    assert!(DataItem::Null.is_empty());
    assert!(DataItem::Text(String::new()).is_empty());
    assert!(!DataItem::Integer(5).is_empty());
    assert_eq!(DataItem::Integer(42).to_text(), "42");
    assert_eq!(DataItem::Null.to_text(), "");
}

#[test]
fn column_widths_fit_the_screen() {
    let mut slice = DatabaseSlice::new(
        strings(&["id", "firstname"]),
        vec![vec![DataItem::Integer(1), DataItem::Text("henrikson".to_string())]],
        TableState::default(),
        0,
        0,
    );
    assert_eq!(slice.column_widths(), vec![2, 9]);

    let long = "x".repeat(50);
    let mut wide = DatabaseSlice::new(vec![long.clone(), long], Vec::new(), TableState::default(), 0, 0);
    let widths = wide.column_widths();
    assert_eq!(widths, vec![46, 46]);
    assert!(widths.iter().map(|w| *w as u32).sum::<u32>() <= 92);

    let mut uneven = DatabaseSlice::new(strings(&["a"]), vec![vec![DataItem::Text("y".repeat(100))]], TableState::default(), 0, 0);
    assert_eq!(uneven.column_widths(), vec![92]);
}

#[test]
fn rows_move_within_and_across_pages() {
    let mut slice = DatabaseSlice::new(Vec::new(), Vec::new(), TableState::default(), 0, 0);
    slice.next_row(3, Some(10));
    assert_eq!(slice.table_state.selected(), Some(0));
    slice.next_row(3, Some(10));
    slice.next_row(3, Some(10));
    assert_eq!(slice.table_state.selected(), Some(2));
    assert_eq!(slice.row_offset, 0);
    slice.next_row(3, Some(10));
    assert_eq!(slice.table_state.selected(), Some(0));
    assert_eq!(slice.row_offset, 3);
    assert!(!slice.is_unchanged());
    slice.previous_row(3);
    assert_eq!(slice.table_state.selected(), Some(2));
    assert_eq!(slice.row_offset, 0);
    slice.previous_row(3);
    assert_eq!(slice.table_state.selected(), Some(1));
}

#[test]
fn last_page_does_not_turn() {
    let mut slice = DatabaseSlice::new(Vec::new(), Vec::new(), TableState { offset: 0, selected: Some(2) }, 0, 8);
    slice.next_row(3, Some(10));
    assert_eq!(slice.table_state.selected(), Some(2));
    assert_eq!(slice.row_offset, 8);
}

#[test]
fn down_then_up_comes_back() {
    let mut slice = DatabaseSlice::new(Vec::new(), Vec::new(), TableState { offset: 0, selected: Some(4) }, 0, 10);
    slice.next_row(5, None);
    assert_eq!((slice.table_state.selected(), slice.row_offset), (Some(0), 15));
    slice.previous_row(5);
    assert_eq!((slice.table_state.selected(), slice.row_offset), (Some(4), 10));
}

#[test]
fn update_and_select() {
    let mut slice = DatabaseSlice::new(Vec::new(), Vec::new(), TableState::default(), 0, 0);
    slice.update(3, 7);
    assert_eq!(slice.table_state.selected(), Some(3));
    assert_eq!(slice.row_offset, 7);
    slice.has_changed();
    assert!(!slice.is_unchanged());
    let mut state = TableState { offset: 5, selected: Some(1) };
    state.select(None);
    assert_eq!(state.offset(), 0);
    assert_eq!(Config::new(true).verbose, true);
}

#[test]
fn sheet_from_csv_text() {
    let sheet = Sheet::from_csv_text("name,age\nann,30\nbo,41\n").unwrap();
    assert_eq!(sheet.columns.len(), 2);
    assert_eq!(sheet.get(0, 0), "name");
    assert_eq!(sheet.get(0, 2), "bo");
    assert_eq!(sheet.get(1, 1), "30");
    assert!(matches!(Sheet::from_csv_text(""), Err(AppError::Io(_))));
    assert!(matches!(Sheet::from_csv_text("a\n1,2\n"), Err(AppError::Parse(_))));
}

#[test]
fn only_the_widest_columns_are_trimmed() {
    let mut slice = DatabaseSlice::new(
        vec!["x".repeat(50), "y".repeat(30), "z".repeat(20)],
        Vec::new(),
        TableState::default(),
        0,
        0,
    );
    let widths = slice.column_widths();
    assert_eq!(widths, vec![42, 30, 20]);
    assert_eq!(widths.iter().map(|w| *w as u32).sum::<u32>(), 92);

    let mut close = DatabaseSlice::new(
        vec!["x".repeat(40), "y".repeat(39), "z".repeat(20)],
        Vec::new(),
        TableState::default(),
        0,
        0,
    );
    let widths = close.column_widths();
    assert_eq!(widths.iter().map(|w| *w as u32).sum::<u32>(), 92);
    assert_eq!(widths[2], 20);
    assert!(widths[0].abs_diff(widths[1]) <= 1);
}
