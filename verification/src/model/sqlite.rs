//! The calls into SQLite (through rusqlite) that the model makes. What a query
//! returns depends on what the database holds, so these items state nothing of
//! their results: the functions that call them say what holds whatever came back.
use vstd::prelude::*;

use rusqlite::types::ValueRef;


verus! {

#[verifier::external_type_specification]
#[verifier::external_body]
pub struct ExConnection(rusqlite::Connection);


/// `Connection::execute_batch`: runs the semicolon-separated statements of `sql`
/// in order and stops at the first error. Nothing is stated of the outcome.
#[verifier::external_body]
pub(crate) fn sql_execute_batch(conn: &rusqlite::Connection, sql: &str) -> (r: Result<
    (),
    rusqlite::Error,
>) {
    conn.execute_batch(sql)
}

/// `Connection::execute` with no parameters: runs one statement and gives the
/// number of rows it changed. Nothing is stated of the outcome.
#[verifier::external_body]
pub(crate) fn sql_execute(conn: &rusqlite::Connection, sql: &str) -> (r: Result<
    usize,
    rusqlite::Error,
>) {
    conn.execute(sql, [])
}

/// `Connection::execute` with a text and an integer bound to the statement's two
/// `?` parameters, in that order. Nothing is stated of the outcome.
#[verifier::external_body]
pub(crate) fn sql_execute_text_and_int(
    conn: &rusqlite::Connection,
    sql: &str,
    text: &str,
    number: i32,
) -> (r: Result<usize, rusqlite::Error>) {
    conn.execute(sql, (text, number))
}

/// `Connection::execute` with a text and four integers bound to the statement's
/// five parameters, in that order. Nothing is stated of the outcome.
#[verifier::external_body]
pub(crate) fn sql_execute_text_and_counts(
    conn: &rusqlite::Connection,
    sql: &str,
    text: &str,
    first: i64,
    second: usize,
    third: usize,
    fourth: usize,
) -> (r: Result<usize, rusqlite::Error>) {
    conn.execute(sql, (text, first, second, third, fourth))
}

/// `Connection::query_row`, reading the first column of the first row as text.
/// Nothing is stated of the outcome.
#[verifier::external_body]
pub(crate) fn sql_query_text(conn: &rusqlite::Connection, sql: &str) -> (r: Result<
    String,
    rusqlite::Error,
>) {
    conn.query_row(sql, [], |row| row.get::<usize, String>(0))
}

/// `Connection::query_row`, reading the first column of the first row as a 64-bit
/// integer. Nothing is stated of the outcome.
#[verifier::external_body]
pub(crate) fn sql_query_int(conn: &rusqlite::Connection, sql: &str) -> (r: Result<
    i64,
    rusqlite::Error,
>) {
    conn.query_row(sql, [], |row| row.get::<usize, i64>(0))
}

/// `Connection::query_row` and `OptionalExtension::optional`: the first column of
/// the first row as a 64-bit integer, or `None` when the query gives no row.
/// Nothing is stated of the outcome.
#[verifier::external_body]
pub(crate) fn sql_query_optional_int(conn: &rusqlite::Connection, sql: &str) -> (r: Result<
    Option<i64>,
    rusqlite::Error,
>) {
    rusqlite::OptionalExtension::optional(conn.query_row(sql, [], |row| row.get::<usize, i64>(0)))
}

/// `Connection::query_row` with `text` bound to the statement's `?` parameter,
/// reading the first column of the first row as a 64-bit integer. Nothing is
/// stated of the outcome.
#[verifier::external_body]
pub(crate) fn sql_query_int_with_text(conn: &rusqlite::Connection, sql: &str, text: &str) -> (r:
    Result<i64, rusqlite::Error>) {
    conn.query_row(sql, [text], |row| row.get::<usize, i64>(0))
}

/// `Statement::query` with `id` bound to the statement's `?` parameter: the first
/// column of the first row as text, or `None` when there is no row. Nothing is
/// stated of the outcome.
#[verifier::external_body]
pub(crate) fn sql_query_text_with_int(conn: &rusqlite::Connection, sql: &str, id: i32) -> (r:
    Result<Option<String>, rusqlite::Error>) {
    let mut stmt = conn.prepare(sql)?;
    let mut rows = stmt.query([id])?;
    match rows.next()? {
        Some(row) => Ok(Some(row.get::<usize, String>(0)?)),
        None => Ok(None),
    }
}

/// `Statement::query_map`: column `column` of every row, as text. Nothing is stated
/// of the outcome.
#[verifier::external_body]
pub(crate) fn sql_query_column(conn: &rusqlite::Connection, sql: &str, column: usize) -> (r:
    Result<Vec<String>, rusqlite::Error>) {
    let mut stmt = conn.prepare(sql)?;
    let rows = stmt.query_map([], |row| row.get::<usize, String>(column))?;
    rows.collect()
}

/// `Statement::query_map`: the first column of every row as a 32-bit integer and
/// the second as text. Nothing is stated of the outcome.
#[verifier::external_body]
pub(crate) fn sql_query_int_text_pairs(conn: &rusqlite::Connection, sql: &str) -> (r: Result<
    Vec<(i32, String)>,
    rusqlite::Error,
>) {
    let mut stmt = conn.prepare(sql)?;
    let rows = stmt.query_map([], |row| Ok((row.get::<usize, i32>(0)?, row.get::<usize, String>(1)?)))?;
    rows.collect()
}

/// A cell as SQLite holds it, as plain values: a real number as the text that Rust
/// prints for it, a text with any bytes that are not UTF-8 replaced.
#[derive(Debug)]
pub enum SqlCell {
    Null,
    Integer(i64),
    Real(String),
    Text(String),
    Blob,
}

/// `Statement::column_count`, `Statement::query_map` and `Row::get_ref`: the number of
/// the result's columns, and every row with one cell per column, each `ValueRef`
/// turned into a `SqlCell` variant for variant (`String::from_utf8_lossy` for a
/// text). Which rows come back is not stated. The columns' names are not read here:
/// rusqlite panics on a name that is not UTF-8.
#[verifier::external_body]
pub(crate) fn sql_query_table(conn: &rusqlite::Connection, sql: &str) -> (r: Result<
    (usize, Vec<Vec<SqlCell>>),
    rusqlite::Error,
>)
    ensures
        r matches Ok((n, rows)) ==> forall|k: int|
            0 <= k < rows@.len() ==> (#[trigger] rows@[k])@.len() == n,
{
    let mut stmt = conn.prepare(sql)?;
    let n = stmt.column_count();
    let rows = stmt.query_map([], |row| (0..n).map(|i| row.get_ref(i).map(|v| match v {
        ValueRef::Null => SqlCell::Null,
        ValueRef::Integer(x) => SqlCell::Integer(x),
        ValueRef::Real(x) => SqlCell::Real(x.to_string()),
        ValueRef::Text(t) => SqlCell::Text(String::from_utf8_lossy(t).into()),
        ValueRef::Blob(_) => SqlCell::Blob,
    })).collect())?;
    Ok((n, rows.collect::<Result<_, _>>()?))
}

} // verus!
