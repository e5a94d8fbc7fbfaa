use dataman::model::database::Database;
use rusqlite::{Connection, Result};
use std::time::Instant;

fn setup_empty_database() -> Result<Database> {
    let connection = Connection::open_in_memory()?;
    let database = Database::new(connection).unwrap();
    Ok(database)
}

fn setup_large_database(num_rows: usize) -> Result<Database> {
    let conn = Connection::open_in_memory()?;
    {
        conn.execute("CREATE TABLE test (id INTEGER PRIMARY KEY, text TEXT)", [])?;
        let mut stmt = conn.prepare("INSERT INTO test (text) VALUES (?)")?;

        for i in 0..num_rows {
            let text = format!("Sample text with number {}", i);
            stmt.execute([text])?;
        }
    }
    let database = Database::new(conn).unwrap();
    Ok(database)
}

#[test]
fn test_regexp_function_single_threaded() -> Result<()> {
    let mut database = setup_empty_database()?;
    let conn = &database.connection;

    let mut stmt = conn.prepare("SELECT regexp(?, ?)")?;
    let regex_str = r"\d+";
    let text = "123abc";

    let start = Instant::now();
    let result: bool = stmt.query_row((regex_str, text), |row| row.get(0))?;
    let duration = start.elapsed();

    assert!(result);
    println!("Single-threaded test duration: {:?}", duration);

    Ok(())
}

#[test]
fn test_regexp_function_small_dataset() -> Result<()> {
    let num_rows = 10000;
    let mut database = setup_large_database(num_rows)?;
    let conn = &database.connection;

    let mut stmt = conn.prepare("SELECT regexp(?, text) FROM test")?;
    let regex_str = r"\d+";

    let start = Instant::now();
    let mut count = 0;
    let mut rows = stmt.query([regex_str])?;
    while let Some(row) = rows.next()? {
        let result: bool = row.get(0)?;
        if result {
            count += 1;
        }
    }
    let duration = start.elapsed();

    println!("Large dataset test duration: {:?}", duration);
    println!("Number of matches: {}", count);
    assert_eq!(count, num_rows);

    Ok(())
}

#[test]
fn regexp_operator_filters_rows() -> Result<()> {
    let mut database = setup_large_database(20)?;
    let count: i64 = database
        .connection
        .query_row("SELECT COUNT(*) FROM test WHERE text REGEXP '1\\d$'", [], |row| row.get(0))?;
    assert_eq!(count, 10);
    let bad = database
        .connection
        .query_row("SELECT regexp('(', text) FROM test", [], |row| row.get::<usize, bool>(0));
    assert!(bad.is_err());
    Ok(())
}
