use dataman::model::converter::{
    create_insert_stmt_record, create_table_query, export_headers, export_row,
    get_headers_for_query, push_escaped, should_batch_execute, value_query, LIMIT,
};
use dataman::model::database::{
    cell_query, copy_column_query, header_at, next_sort_order, row_count_of, row_id_of, count_rows_query, headers_query, id_and_column_query,
    math_operation_query, neighbour_table_query, next_header_index, page_query,
    previous_header_index, row_id_query, search_ordering, table_name_query, transaction_query,
    update_cell_query,
};
use dataman::model::datarow::DataItem;
use dataman::model::regexping::{
    capture_group_slots, regex_filter_query, regex_no_capture_group_transform_query,
    regex_with_capture_group_transform_query, regexp, regexp_transform_no_capture_group,
    regexp_transform_with_capture_group, validate_regex,
};
use dataman::model::sql_queries::{
    convert_into, delete_column_query, delete_table_query, exact_search_query, histogram_query,
    int_to_text_query, rename_column_query, rename_table_query, text_to_int,
};
use dataman::text::{i64_to_string, push_joined, u64_to_string};
use dataman::error::AppError;

fn strings(v: &[&str]) -> Vec<String> {
    v.iter().map(|s| s.to_string()).collect()
}

#[test]
fn exact_search_query_text() {
    let q = exact_search_query("ORDER BY id ASC", "firstname", 3, "data");
    assert_eq!(
        q,
        "SELECT rownum FROM\n\t\t\t(SELECT ROW_NUMBER() OVER (ORDER BY id ASC) AS rownum, \"firstname\" FROM \"data\")\n\t\t\tWHERE \"firstname\" = ? AND rownum > 3 LIMIT 1;"
    );
}

#[test]
fn conversion_queries() {
    assert_eq!(
        text_to_int("data", "age"),
        "ALTER TABLE \"data\" ADD COLUMN \"INT_age\" INT;\n\t\tUPDATE \"data\" SET \"INT_age\" = CAST(\"age\" as INT);"
    );
    assert_eq!(
        int_to_text_query("data", "age"),
        "ALTER TABLE \"data\" ADD COLUMN \"TEXT_age\" TEXT;\n\t\tUPDATE \"data\" SET \"TEXT_age\" = CAST(\"age\" as TEXT);"
    );
    assert_eq!(convert_into("t", "c", "REAL"), "ALTER TABLE \"t\" ADD COLUMN \"REAL_c\" REAL;\n\t\tUPDATE \"t\" SET \"REAL_c\" = CAST(\"c\" as REAL);");
}

#[test]
fn schema_change_queries() {
    assert_eq!(delete_column_query("data", "age"), "ALTER TABLE \"data\" DROP COLUMN \"age\";");
    assert_eq!(delete_table_query("data"), "DROP TABLE \"data\";");
    assert_eq!(
        rename_column_query("data", "age", "years"),
        "ALTER TABLE \"data\" RENAME COLUMN \"age\" TO \"years\";"
    );
    assert_eq!(
        rename_table_query("data", "people"),
        "ALTER TABLE \"data\"\n  RENAME TO \"people\";"
    );
    assert_eq!(histogram_query("age", "data"), "");
}

#[test]
fn page_and_copy_queries() {
    assert_eq!(
        page_query("data", "id", true, 20, 100),
        "SELECT * FROM `data` ORDER BY `id` ASC LIMIT 20 OFFSET 100;"
    );
    assert_eq!(
        page_query("data", "age", false, 0, 0),
        "SELECT * FROM `data` ORDER BY `age` DESC LIMIT 0 OFFSET 0;"
    );
    assert_eq!(
        copy_column_query("data", "age"),
        "ALTER TABLE `data` ADD COLUMN `derivedage` TEXT;\nUPDATE `data` SET `derivedage` = `age`;"
    );
    assert_eq!(transaction_query("X;"), "BEGIN TRANSACTION;\nX;\nCOMMIT;");
    assert_eq!(
        math_operation_query("data", "age*2"),
        "ALTER TABLE \"data\" ADD COLUMN \"age*2\";UPDATE \"data\" SET \"age*2\" = age*2;"
    );
}

#[test]
fn header_index_wraps() {
    assert_eq!(next_header_index(0, 4), 1);
    assert_eq!(next_header_index(3, 4), 0);
    assert_eq!(previous_header_index(0, 4), 3);
    assert_eq!(previous_header_index(2, 4), 1);
}

#[test]
fn header_moves_undo_each_other() {
    for count in 1u16..6 {
        for idx in 0..count {
            assert_eq!(previous_header_index(next_header_index(idx, count), count), idx);
            assert_eq!(next_header_index(previous_header_index(idx, count), count), idx);
        }
    }
}

#[test]
fn values_are_quoted_and_escaped() {
    let record = strings(&["henrik", "o'brien", ""]);
    assert_eq!(value_query(&record), "('henrik','o''brien',NULL)");
    assert_eq!(value_query(&Vec::new()), "()");
    let mut out = "x".to_string();
    push_escaped(&mut out, "a''b");
    assert_eq!(out, "xa''''b");
}

#[test]
fn escaping_round_trips() {
    let original = "it's 'quoted'";
    let mut escaped = String::new();
    push_escaped(&mut escaped, original);
    assert_eq!(escaped, "it''s ''quoted''");
    assert_eq!(escaped.replace("''", "'"), original);
}

#[test]
fn create_table_and_header_lists() {
    let headers = strings(&["firstname", "lastname", "age"]);
    assert_eq!(
        create_table_query(&headers, "data"),
        "CREATE TABLE IF NOT EXISTS 'data'\n\t(id INTEGER PRIMARY KEY, \"firstname\" TEXT,\"lastname\" TEXT,\"age\" TEXT)\n\t;"
    );
    assert_eq!(get_headers_for_query(&headers), "'firstname', 'lastname', 'age'");
}

#[test]
fn batches_are_full_at_the_limit() {
    assert!(should_batch_execute(LIMIT));
    assert!(!should_batch_execute(LIMIT - 1));
    assert!(!should_batch_execute(0));
    let mut items = strings(&["(1)"]);
    create_insert_stmt_record(&strings(&["a", "b"]), &mut items);
    assert_eq!(items, strings(&["(1)", "('a','b')"]));
}

#[test]
fn export_leaves_out_the_key_column() {
    let headers = strings(&["id", "firstname", "age"]);
    assert_eq!(export_headers(&headers), strings(&["firstname", "age"]));
    let row = vec![DataItem::Integer(1), DataItem::Text("henrik".to_string()), DataItem::Null];
    let out = export_row(&headers, row);
    assert_eq!(out, vec![Some(DataItem::Text("henrik".to_string())), None]);
}

#[test]
fn regex_queries() {
    assert_eq!(
        regex_filter_query("firstname", "h.*k", "data").unwrap(),
        "CREATE TABLE \"dataRegexFiltered\" AS SELECT * FROM \"data\" WHERE \"firstname\" REGEXP 'h.*k';"
    );
    assert_eq!(
        regex_no_capture_group_transform_query("firstname", "n.*", "data").unwrap(),
        "ALTER TABLE \"data\" ADD COLUMN \"derivedfirstname\" TEXT;UPDATE \"data\" SET \"derivedfirstname\" = regexp_transform_no_capture_group('n.*', \"firstname\");"
    );
    assert_eq!(
        regex_with_capture_group_transform_query("firstname", "(n).*", "$1", "data").unwrap(),
        "ALTER TABLE \"data\" ADD COLUMN \"derivedfirstname\" TEXT;UPDATE \"data\" SET \"derivedfirstname\" = regexp_transform_with_capture_group('(n).*', \"firstname\", '$1');"
    );
    assert!(matches!(regex_filter_query("firstname", "(", "data"), Err(AppError::Regex(_))));
    assert!(matches!(
        regex_no_capture_group_transform_query("firstname", "[", "data"),
        Err(AppError::Regex(_))
    ));
}

#[test]
fn regex_functions() {
    assert_eq!(regexp(r"\d+", "123abc"), Some(true));
    assert_eq!(regexp(r"\d+", "abc"), Some(false));
    assert_eq!(regexp("(", "abc"), None);
    assert_eq!(
        regexp_transform_with_capture_group(r"(\d+)", "number 42 here", "$1 transformed"),
        Some(Some("number 42 transformed here".to_string()))
    );
    assert_eq!(regexp_transform_with_capture_group(r"(\d+)", "none", "$1"), Some(None));
    assert_eq!(
        regexp_transform_no_capture_group("n.*", "henrik"),
        Some(Some("nrik".to_string()))
    );
    assert_eq!(regexp_transform_no_capture_group("z", "henrik"), Some(None));
    assert_eq!(regexp_transform_no_capture_group("(", "henrik"), None);
}

#[test]
fn transforms_agree_with_the_filter() {
    for text in ["abc123", "abc", ""] {
        let matched = regexp(r"\d+", text).unwrap();
        assert_eq!(regexp_transform_no_capture_group(r"\d+", text).unwrap().is_some(), matched);
        assert_eq!(
            regexp_transform_with_capture_group(r"(\d+)", text, "x").unwrap().is_some(),
            regexp(r"(\d+)", text).unwrap()
        );
    }
}

#[test]
fn regex_validation_and_groups() {
    assert!(validate_regex("a+b").is_ok());
    assert!(matches!(validate_regex("a(b"), Err(AppError::Regex(_))));
    assert_eq!(capture_group_slots("abc").unwrap(), 1);
    assert_eq!(capture_group_slots("(a)(b)").unwrap(), 3);
    assert!(capture_group_slots(")").is_err());
}

#[test]
fn numbers_as_text() {
    assert_eq!(u64_to_string(0), "0");
    assert_eq!(u64_to_string(18446744073709551615), "18446744073709551615");
    assert_eq!(i64_to_string(-42), "-42");
    assert_eq!(i64_to_string(i64::MIN), "-9223372036854775808");
    let mut out = "a".to_string();
    push_joined(&mut out, &strings(&["b", "c"]), ", ");
    assert_eq!(out, "ab, c");
}

#[test]
fn error_texts_name_their_kind() {
    assert_eq!(AppError::Other("no input given".to_string()).to_text(), "no input given");
    let regex_error = match validate_regex("(") {
        Err(e) => e,
        Ok(()) => panic!("an open group is not a valid pattern"),
    };
    let text = regex_error.to_text();
    assert!(text.starts_with("Regex parsing error: "));
    assert!(text.len() > "Regex parsing error: ".len());
    let sqlite_error = AppError::Sqlite(rusqlite::Error::QueryReturnedNoRows);
    assert_eq!(sqlite_error.to_text(), "Sqlite error: Query returned no rows");
}

#[test]
fn database_queries() {
    assert_eq!(
        table_name_query(3),
        "SELECT name FROM sqlite_master WHERE type='table' AND rowid='3';"
    );
    assert_eq!(
        neighbour_table_query(2, true),
        "SELECT rowid FROM sqlite_master WHERE type='table' AND rowid > 2 ORDER BY rowid ASC LIMIT 1;"
    );
    assert_eq!(
        neighbour_table_query(2, false),
        "SELECT rowid FROM sqlite_master WHERE type='table' AND rowid < 2 ORDER BY rowid DESC LIMIT 1;"
    );
    assert_eq!(headers_query("data"), "PRAGMA table_info(`data`)");
    assert_eq!(count_rows_query("data"), "SELECT COUNT(*) FROM data;");
    assert_eq!(cell_query("age", "data"), "SELECT `age` FROM `data` WHERE id = ?;");
    assert_eq!(update_cell_query("data", "age"), "UPDATE `data` SET 'age' = ? WHERE id = ?;");
    assert_eq!(id_and_column_query("age", "data"), "SELECT `id`, `age` FROM `data`");
    assert_eq!(row_id_query("data", 12), "SELECT rowid FROM `data` LIMIT 1 OFFSET 12;");
    assert_eq!(search_ordering("age", true), "ORDER BY \"age\" ASC");
    assert_eq!(search_ordering("age", false), "ORDER BY \"age\" DESC");
}

#[test]
fn values_read_back_from_the_database() {
    let headers = strings(&["id", "name"]);
    assert_eq!(header_at(&headers, 1).unwrap(), "name");
    assert!(matches!(header_at(&headers, 2), Err(AppError::Other(_))));
    assert_eq!(row_count_of(6), Some(6));
    assert_eq!(row_count_of(-1), None);
    assert_eq!(row_count_of(1 << 32), None);
    assert_eq!(row_id_of(-5).unwrap(), -5);
    assert!(row_id_of(1 << 31).is_err());
}

#[test]
fn sort_order_toggles_on_the_same_column() {
    assert_eq!(next_sort_order("id", true, "age"), ("age".to_string(), true));
    assert_eq!(next_sort_order("age", true, "age"), ("age".to_string(), false));
    let (c, a) = next_sort_order("id", true, "age");
    assert_eq!(next_sort_order(&c, a, "age"), ("age".to_string(), false));
    let (c, a) = next_sort_order("age", false, "age");
    assert_eq!(next_sort_order(&c, a, "age"), ("age".to_string(), false));
}
