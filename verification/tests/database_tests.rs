use dataman::controller::direction::Direction;
use dataman::model::converter::{
    batch_exec_and_clear, create_insert_stmt_record, create_table_query, get_headers_for_query,
    CsvImport, LIMIT,
};
use dataman::model::database::Database;
use dataman::model::datarow::DataItem;
use dataman::model::regexping::regex_no_capture_group_transform_query;
use dataman::error::AppError;
use rusqlite::Connection;

fn strings(v: &[&str]) -> Vec<String> {
    v.iter().map(|s| s.to_string()).collect()
}

/// The table `data` of a CSV file with the headers firstname, lastname and age
/// and six records, loaded as the application loads one.
fn data_connection() -> Connection {
    let conn = Connection::open_in_memory().unwrap();
    let headers = strings(&["firstname", "lastname", "age"]);
    let records = [
        ["henrik", "zenkert", "35"],
        ["john", "doe", "40"],
        ["anna", "svensson", "28"],
        ["peter", "pan", "12"],
        ["lisa", "simpson", "10"],
        ["bart", "simpson", "12"],
    ];
    let mut import = CsvImport::new(&conn, &headers, "data").unwrap();
    for record in records {
        import.add_record(&conn, &strings(&record)).unwrap();
    }
    import.finish(&conn).unwrap();
    assert!(import.items.is_empty());
    conn
}

fn data_database() -> Database {
    Database::new(data_connection()).unwrap()
}

fn cell_text(item: &DataItem) -> String {
    item.to_text()
}

#[test]
fn database_get_number_of_headers_test() {
    let mut database = data_database();
    let number_of_headers = database.count_headers();
    assert_eq!(number_of_headers.unwrap(), 4);
}

#[test]
fn database_inc_header() {
    let mut database = data_database();
    database.next_header().unwrap();
    assert_eq!(1, database.header_idx);
    database.next_header().unwrap();
    assert_eq!(2, database.header_idx);
    database.next_header().unwrap();
    assert_eq!(3, database.header_idx);
    database.next_header().unwrap();
    assert_eq!(0, database.header_idx);
}

#[test]
fn database_dec_header() {
    let mut database = data_database();
    database.previous_header().unwrap();
    assert_eq!(3, database.header_idx);
    database.previous_header().unwrap();
    assert_eq!(2, database.header_idx);
    database.previous_header().unwrap();
    assert_eq!(1, database.header_idx);
    database.previous_header().unwrap();
    assert_eq!(0, database.header_idx);
}

#[test]
fn database_derive_column_test() {
    let mut database = data_database();
    let col = "firstname";
    let fun = |s| Some(format!("{}-changed", s));
    database.derive_column(col.to_string(), fun).unwrap();
    let first: String = cell_text(&database.get(1, 0, "data".to_string()).unwrap().1[0][4]);
    assert_eq!(first, "henrik-changed");
    let n = database.count_headers().unwrap();
    assert_eq!(n, 5);
}

#[test]
fn database_update_cell() {
    let mut database = data_database();
    database.update_cell("firstname", 1, "hank").unwrap();
    let first: String = cell_text(&database.get(1, 0, "data".to_string()).unwrap().1[0][1]);
    assert_eq!(first, "hank");
    assert_eq!(database.get_cell(1, "firstname").unwrap(), "hank");
}

#[test]
fn database_test_offset() {
    let mut database = data_database();
    let first: String = cell_text(&database.get(1, 0, "data".to_string()).unwrap().1[0][1]);
    assert_eq!("henrik", first);
    let second: String = cell_text(&database.get(1, 1, "data".to_string()).unwrap().1[0][1]);
    assert_eq!("john", second);
}

#[test]
fn database_get_table_names_test() {
    let mut database = data_database();
    let table_names = database.get_table_names().unwrap();
    assert_eq!(table_names, vec!["data".to_string()]);
}

#[test]
fn database_get_current_table_name_test() {
    let mut database = data_database();
    let table_name = database.get_current_table_name().unwrap();
    assert_eq!(table_name, "data".to_string());
}

#[test]
fn get_headers_test() {
    let mut database = data_database();
    let table_name = database.get_current_table_name().unwrap();
    let headers = database.get_headers(&table_name).unwrap();
    assert_eq!(headers, vec!["id", "firstname", "lastname", "age"]);
}

#[test]
fn count_rows_test() {
    let mut database = data_database();
    let rows_len = database.count_rows().unwrap();
    assert_eq!(rows_len, 6)
}

#[test]
fn custom_functions_regexp_test() {
    let mut database = data_database();
    let query = "SELECT firstname FROM `data` WHERE regexp_filter('h.*k', firstname)";
    let result: String = database
        .connection
        .query_row(query, [], |row| row.get(0))
        .unwrap_or("john".to_string());
    assert_eq!(result, "henrik");
}

#[test]
fn custom_functions_regexp_transform_test() {
    let mut database = data_database();
    let table_name = database.get_current_table_name().unwrap();
    let header = database.get_headers(&table_name).unwrap()[1].clone();
    let pattern = "n.*";

    let query = regex_no_capture_group_transform_query(&header, pattern, &table_name).unwrap();

    database.execute_batch(&query).unwrap();

    let result: String = database
        .connection
        .query_row(
            "SELECT derivedfirstname FROM `data` WHERE id = 1 ORDER BY rowid ASC",
            [],
            |row| row.get(0),
        )
        .unwrap();
    assert_eq!(result, "nrik");
}

#[test]
fn copy_column_test() {
    let mut database = data_database();
    let copy_fun = |s: String| Some(s.to_string());

    database.move_cursor(Direction::Right, 20).unwrap();
    let column_name = database.get_current_header().unwrap();
    database.derive_column(column_name, copy_fun).unwrap();
    let (_, res) = database.get(20, 100, "data".to_string()).unwrap();
    for row in res.iter() {
        let original = row.get(1);
        let copy = row.get(4);
        assert_eq!(original, copy);
    }
    let (_, first_page) = database.get(20, 0, "data".to_string()).unwrap();
    assert_eq!(first_page.len(), 6);
    for row in first_page.iter() {
        assert_eq!(row.get(1), row.get(4));
    }
}

#[test]
fn regex_filter_moves_to_the_filtered_table() {
    let mut database = data_database();
    database.next_header().unwrap();
    let header = database.get_current_header().unwrap();
    database.regex_filter(&header, "^[a-j]").unwrap();
    assert_eq!(database.get_current_table_name().unwrap(), "dataRegexFiltered");
    assert_eq!(database.count_rows(), Some(4));
    assert!(matches!(database.regex_filter(&header, "("), Err(AppError::Regex(_))));
    database.prev_table().unwrap();
    assert_eq!(database.get_current_table_name().unwrap(), "data");
}

#[test]
fn regex_transforms_add_derived_columns() {
    let mut database = data_database();
    database.regex_no_capture_group_transform("son", "lastname").unwrap();
    database
        .regex_capture_group_transform("(\\d)(\\d)", "age", "$2$1")
        .unwrap();
    let headers = database.get_headers("data").unwrap();
    assert_eq!(headers, vec!["id", "firstname", "lastname", "age", "derivedlastname", "derivedage"]);
    let (transformed, reversed): (Option<String>, String) = database
        .connection
        .query_row("SELECT derivedlastname, derivedage FROM data WHERE id = 3", [], |row| {
            Ok((row.get(0)?, row.get(1)?))
        })
        .unwrap();
    assert_eq!(transformed, Some("son".to_string()));
    assert_eq!(reversed, "82");
    let missing: Option<String> = database
        .connection
        .query_row("SELECT derivedlastname FROM data WHERE id = 2", [], |row| row.get(0))
        .unwrap();
    assert_eq!(missing, None);
}

#[test]
fn sort_toggles_the_order() {
    let mut database = data_database();
    database.next_header().unwrap();
    database.sort().unwrap();
    assert_eq!(database.order_column, "firstname");
    assert!(database.is_asc_order);
    let (_, rows) = database.get(1, 0, "data".to_string()).unwrap();
    assert_eq!(rows[0][1].to_text(), "anna");
    database.sort().unwrap();
    assert!(!database.is_asc_order);
    let (_, rows) = database.get(1, 0, "data".to_string()).unwrap();
    assert_eq!(rows[0][1].to_text(), "peter");
}

#[test]
fn conversions_and_schema_changes() {
    let mut database = data_database();
    database.previous_header().unwrap();
    assert_eq!(database.get_current_header().unwrap(), "age");
    database.text_to_int().unwrap();
    database.int_to_text().unwrap();
    let headers = database.get_headers("data").unwrap();
    assert_eq!(&headers[4..], &["INT_age".to_string(), "TEXT_age".to_string()]);
    database.rename_column("years").unwrap();
    assert_eq!(database.get_current_header().unwrap(), "years");
    assert_eq!(database.delete_column().unwrap(), Some("Deleted column years".to_string()));
    assert_eq!(database.get_headers("data").unwrap().len(), 5);
    database.math_operation(vec!["id*2".to_string()]).unwrap();
    let doubled: i64 = database
        .connection
        .query_row("SELECT \"id*2\" FROM data WHERE id = 3", [], |row| row.get(0))
        .unwrap();
    assert_eq!(doubled, 6);
    assert!(database.math_operation(Vec::new()).is_err());
}

#[test]
fn exact_search_finds_the_row() {
    let mut database = data_database();
    database.next_header().unwrap();
    database.exact_search("firstname", "lisa", 3).unwrap();
    assert_eq!(database.slice.table_state.selected(), Some(2));
    assert_eq!(database.slice.row_offset, 3);
    assert!(database.exact_search("firstname", "nobody", 3).is_err());
}

#[test]
fn tables_can_be_renamed_and_dropped() {
    let mut database = data_database();
    database.rename_table("people").unwrap();
    assert_eq!(database.get_current_table_name().unwrap(), "people");
    database
        .sql_query("CREATE TABLE other (id INTEGER PRIMARY KEY, v TEXT);")
        .unwrap();
    database.next_table().unwrap();
    assert_eq!(database.get_current_table_name().unwrap(), "other");
    database.delete_table().unwrap();
    assert_eq!(database.get_current_table_name().unwrap(), "people");
    assert_eq!(database.get_table_names().unwrap(), vec!["people".to_string()]);
}

#[test]
fn failed_batch_is_rolled_back() {
    let mut database = data_database();
    assert!(database
        .execute_batch("ALTER TABLE data ADD COLUMN extra TEXT; SELECT * FROM missing;")
        .is_err());
    assert_eq!(database.get_headers("data").unwrap().len(), 4);
}

#[test]
fn rows_move_through_pages() {
    let mut database = data_database();
    database.move_cursor(Direction::Down, 4).unwrap();
    assert_eq!(database.slice.table_state.selected(), Some(0));
    for _ in 0..3 {
        database.next_row(4);
    }
    assert_eq!(database.slice.table_state.selected(), Some(3));
    database.next_row(4);
    assert_eq!(database.slice.table_state.selected(), Some(0));
    assert_eq!(database.slice.row_offset, 4);
    database.previous_row(4);
    assert_eq!(database.slice.table_state.selected(), Some(3));
    assert_eq!(database.slice.row_offset, 0);
    assert_eq!(database.get_current_id().unwrap(), 4);
}

#[test]
fn empty_database_opens() {
    let mut database = Database::new(Connection::open_in_memory().unwrap()).unwrap();
    assert!(database.get_current_table_name().is_err());
    assert_eq!(database.count_rows(), None);
}

#[test]
fn csv_import_inserts_in_batches() {
    let conn = Connection::open_in_memory().unwrap();
    let headers = strings(&["n"]);
    let mut import = CsvImport::new(&conn, &headers, "numbers").unwrap();
    for i in 0..(LIMIT + 5) {
        import.add_record(&conn, &vec![i.to_string()]).unwrap();
        if i + 1 == LIMIT {
            assert!(import.items.is_empty());
            assert!(import.queries.starts_with("INSERT INTO 'numbers' ('n') VALUES ('0'),\n('1')"));
        }
    }
    assert_eq!(import.items.len(), 5);
    import.finish(&conn).unwrap();
    assert_eq!(import.queries, format!(
        "INSERT INTO 'numbers' ('n') VALUES ('{}'),\n('{}'),\n('{}'),\n('{}'),\n('{}');",
        LIMIT, LIMIT + 1, LIMIT + 2, LIMIT + 3, LIMIT + 4
    ));
    let count: i64 = conn.query_row("SELECT COUNT(*) FROM numbers", [], |row| row.get(0)).unwrap();
    assert_eq!(count as usize, LIMIT + 5);
}

#[test]
fn batch_insert_by_hand() {
    let conn = Connection::open_in_memory().unwrap();
    let headers = strings(&["a", "b"]);
    conn.execute_batch(&create_table_query(&headers, "t")).unwrap();
    let mut items = Vec::new();
    create_insert_stmt_record(&strings(&["x", ""]), &mut items);
    let mut queries = String::new();
    let columns = get_headers_for_query(&headers);
    batch_exec_and_clear(&mut queries, "t", &columns, &mut items, &conn).unwrap();
    assert_eq!(queries, "INSERT INTO 't' ('a', 'b') VALUES ('x',NULL);");
    assert!(items.is_empty());
    let mut bad = strings(&["('only one')"]);
    assert!(batch_exec_and_clear(&mut queries, "t", &columns, &mut bad, &conn).is_err());
    assert_eq!(bad.len(), 1);
}

#[test]
fn cells_keep_their_types() {
    let conn = Connection::open_in_memory().unwrap();
    conn.execute_batch(
        "CREATE TABLE m (id INTEGER PRIMARY KEY, r REAL, t TEXT, n TEXT);
         INSERT INTO m (r, t, n) VALUES (1.5, 'x', NULL);",
    )
    .unwrap();
    let mut database = Database::new(conn).unwrap();
    let (headers, rows) = database.get(10, 0, "m".to_string()).unwrap();
    assert_eq!(headers, vec!["id", "r", "t", "n"]);
    assert_eq!(
        rows[0],
        vec![
            DataItem::Integer(1),
            DataItem::Float("1.5".to_string()),
            DataItem::Text("x".to_string()),
            DataItem::Null
        ]
    );
    database
        .connection
        .execute_batch("CREATE TABLE b (id INTEGER PRIMARY KEY, v BLOB); INSERT INTO b (v) VALUES (x'00');")
        .unwrap();
    assert!(matches!(database.get(10, 0, "b".to_string()), Err(AppError::Other(_))));
}

#[test]
fn csv_text_is_imported_into_a_table() {
    let conn = Connection::open_in_memory().unwrap();
    let import = dataman::model::converter::import_csv_text(
        &conn,
        "people",
        "name,age\nann,30\nbo,\n",
    )
    .unwrap();
    assert_eq!(import.columns, "'name', 'age'");
    let mut database = Database::new(conn).unwrap();
    assert_eq!(database.get_current_table_name().unwrap(), "people");
    let (headers, rows) = database.get(10, 0, "people".to_string()).unwrap();
    assert_eq!(headers, vec!["id", "name", "age"]);
    assert_eq!(rows[1], vec![DataItem::Integer(2), DataItem::Text("bo".to_string()), DataItem::Null]);
    let empty = Connection::open_in_memory().unwrap();
    assert!(dataman::model::converter::import_csv_text(&empty, "t", "").is_err());
    assert!(dataman::model::converter::import_csv_text(&empty, "t", "a,b\n1,2,3\n").is_err());
}

#[test]
fn tables_are_exported_without_keys() {
    let conn = data_connection();
    let tables = dataman::model::converter::tables_to_export(&conn, &mut dataman::model::database::SqlLog::new()).unwrap();
    assert_eq!(tables, vec!["data".to_string()]);
    let (headers, rows) = dataman::model::converter::export_table(&conn, "data", &mut dataman::model::database::SqlLog::new()).unwrap();
    assert_eq!(headers, strings(&["firstname", "lastname", "age"]));
    assert_eq!(rows.len(), 6);
    assert_eq!(
        rows[0],
        vec![
            Some(DataItem::Text("henrik".to_string())),
            Some(DataItem::Text("zenkert".to_string())),
            Some(DataItem::Text("35".to_string()))
        ]
    );
}

#[test]
fn text_that_is_not_utf8_is_read_lossily() {
    let conn = Connection::open_in_memory().unwrap();
    conn.execute_batch(
        "CREATE TABLE w (id INTEGER PRIMARY KEY, t TEXT); INSERT INTO w (t) VALUES (CAST(x'61ff62' AS TEXT));",
    )
    .unwrap();
    let mut database = Database::new(conn).unwrap();
    let (_, rows) = database.get(10, 0, "w".to_string()).unwrap();
    assert_eq!(rows[0][1], DataItem::Text("a\u{FFFD}b".to_string()));
}

#[test]
fn refused_patterns_and_failed_statements_change_nothing() {
    let mut database = data_database();
    let before = database.count_headers().unwrap();
    assert!(matches!(
        database.regex_no_capture_group_transform("(", "firstname"),
        Err(AppError::Regex(_))
    ));
    assert!(matches!(
        database.regex_capture_group_transform("(", "firstname", "$1"),
        Err(AppError::Regex(_))
    ));
    assert!(matches!(
        database.sql_query("ALTER TABLE data ADD COLUMN extra TEXT; SELECT * FROM no_such_table;"),
        Err(AppError::Sqlite(_))
    ));
    assert_eq!(database.count_headers().unwrap(), before);
    assert_eq!(database.get_current_table_name().unwrap(), "data");
}
