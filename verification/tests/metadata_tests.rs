use dataman::model::metadata::{
    count_kind, create_table_of_tables, get_table_col_count, get_table_kind_col_count,
    get_table_row_count, get_tables, populate_table_of_tables, ColumnKind,
};
use dataman::model::database::SqlLog;
use rusqlite::Connection;

fn setup_three_table_db() -> Result<Connection, rusqlite::Error> {
    let conn = Connection::open_in_memory().unwrap();
    conn.execute("CREATE TABLE t1 (id INTEGER PRIMARY KEY, c1 TEXT);", [])?;
    conn.execute(
        "CREATE TABLE t2 (id INTEGER PRIMARY KEY, c1 TEXT, c2 TEXT, c3 TEXT);",
        [],
    )?;
    conn.execute(
        "CREATE TABLE t3 (id INTEGER PRIMARY KEY, c1 TEXT, c2 TEXT, c3 TEXT, c4 INT);",
        [],
    )?;

    for i in 0..5 {
        let text = format!("lorem ipsum bla bla {}", i);
        conn.execute(&(format!("INSERT INTO t1 (c1) VALUES ('{}')", text)), [])?;
    }
    for i in 3..8 {
        let text1 = format!("lorem ipsum bla bla {}", i);
        let text2 = format!("other {}", (i + 7) / 2);
        let text3 = format!("last {}", (i + 19) / 3);
        conn.execute(
            &format!(
                "INSERT INTO t2 (c1, c2, c3) VALUES ('{}', '{}', '{}' )",
                text1, text2, text3
            ),
            [],
        )?;
    }
    for i in 13..21 {
        let text1 = format!("lorem ipsum bla bla {}", i);
        let text2 = format!("other {}", (i + 7) / 2);
        let text3 = format!("almost last {}", (i + 19) / 3);
        let num = (i + 9) / 4;
        conn.execute(
            &format!(
                "INSERT INTO t3 (c1, c2,c3,c4) VALUES ('{}', '{}', '{}', '{}' )",
                text1, text2, text3, num
            ),
            [],
        )?;
    }

    let mut log = SqlLog::new();
    create_table_of_tables(&conn, &mut log).unwrap();
    populate_table_of_tables(&conn, &mut log).unwrap();
    Ok(conn)
}

#[test]
fn table_of_tables_num_count_test() {
    let conn = setup_three_table_db().unwrap();
    let num_tables = "SELECT COUNT(*) FROM table_of_tables";
    let mut stmt = conn.prepare(num_tables).unwrap();
    let count: i64 = stmt.query_row([], |row| row.get(0)).unwrap();
    assert_eq!(count, 3);
}

#[test]
fn table_of_tables_int_col_count() {
    let conn = setup_three_table_db().unwrap();
    let num_tables_fun =
        |table| format!("SELECT int_col_count FROM table_of_tables WHERE table_name = '{table}'");
    let mut stmt = conn.prepare(&num_tables_fun("t2")).unwrap();
    let count: i64 = stmt.query_row([], |row| row.get(0)).unwrap();
    assert_eq!(count, 0);
    let mut stmt = conn.prepare(&num_tables_fun("t3")).unwrap();
    let count: i64 = stmt.query_row([], |row| row.get(0)).unwrap();
    assert_eq!(count, 1);
}

#[test]
fn table_of_tables_text_col_count() {
    let conn = setup_three_table_db().unwrap();
    let num_tables_fun =
        |table| format!("SELECT text_col_count FROM table_of_tables WHERE table_name = '{table}'");

    let mut stmt = conn.prepare(&num_tables_fun("t1")).unwrap();
    let count: i64 = stmt.query_row([], |row| row.get(0)).unwrap();
    assert_eq!(count, 1);
    let mut stmt = conn.prepare(&num_tables_fun("t2")).unwrap();
    let count: i64 = stmt.query_row([], |row| row.get(0)).unwrap();
    assert_eq!(count, 3);
    let mut stmt = conn.prepare(&num_tables_fun("t3")).unwrap();
    let count: i64 = stmt.query_row([], |row| row.get(0)).unwrap();
    assert_eq!(count, 3);
}

#[test]
fn table_statistics() {
    let conn = setup_three_table_db().unwrap();
    let tables = get_tables(&conn, &mut SqlLog::new()).unwrap();
    assert!(tables.contains(&"t1".to_string()));
    assert!(tables.contains(&"t3".to_string()));
    assert_eq!(get_table_row_count(&conn, "t3", &mut SqlLog::new()).unwrap(), 8);
    assert_eq!(get_table_col_count(&conn, "t2", &mut SqlLog::new()).unwrap(), 4);
    assert_eq!(get_table_kind_col_count(&conn, "t3", ColumnKind::Int, &mut SqlLog::new()).unwrap(), 1);
    assert_eq!(get_table_kind_col_count(&conn, "t3", ColumnKind::Text, &mut SqlLog::new()).unwrap(), 3);
    let rows: i64 = conn
        .query_row("SELECT row_count FROM table_of_tables WHERE table_name = 't1'", [], |row| row.get(0))
        .unwrap();
    assert_eq!(rows, 5);
}

#[test]
fn column_kinds_are_counted_by_type_name() {
    let types = vec!["TEXT".to_string(), "INT".to_string(), "INTEGER".to_string(), "TEXT".to_string()];
    assert_eq!(count_kind(&types, ColumnKind::Text), 2);
    assert_eq!(count_kind(&types, ColumnKind::Int), 1);
    assert_eq!(ColumnKind::Int.name(), "INT");
    assert_eq!(ColumnKind::Text.name(), "TEXT");
}
