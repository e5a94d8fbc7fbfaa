//! The table of tables: for each table, its numbers of rows and of columns, and of
//! text and integer columns.
use vstd::prelude::*;

use crate::error::{AppError, AppResult};

use crate::text::string_views;

use super::database::{int_exchange, statement_exchange, text_rows, SqlExchange, SqlLog};
use super::datarow::CellValue;
use super::sqlite::{sql_execute, sql_execute_text_and_counts, sql_query_column, sql_query_int};

verus! {

/// The kinds of columns that the table of tables counts.
#[derive(Debug, PartialEq, Eq, Clone, Copy, Structural)]
pub enum ColumnKind {
    Text,
    Int,
}

/// The SQL type name of a kind of column.
pub open spec fn spec_kind_name(kind: ColumnKind) -> Seq<char> {
    match kind {
        ColumnKind::Text => "TEXT"@,
        ColumnKind::Int => "INT"@,
    }
}

impl ColumnKind {
    /// The SQL type name of the kind.
    pub fn name(&self) -> (s: String)
        ensures
            s@ == spec_kind_name(*self),
    {
        match self {
            ColumnKind::Text => String::from_str("TEXT"),
            ColumnKind::Int => String::from_str("INT"),
        }
    }
}

/// The number of type names that are the name of `kind`.
pub open spec fn spec_kind_count(type_names: Seq<Seq<char>>, kind: ColumnKind) -> nat {
    type_names.filter(|t: Seq<char>| t == spec_kind_name(kind)).len()
}

/// The query that lists the columns of a table.
pub open spec fn spec_table_info_query(table_name: Seq<char>) -> Seq<char> {
    "PRAGMA table_info(\""@ + table_name + "\")"@
}

fn table_info_query(table_name: &str) -> (q: String)
    ensures
        q@ == spec_table_info_query(table_name@),
{
    let mut q = String::from_str("PRAGMA table_info(\"");
    q.append(table_name);
    q.append("\")");
    q
}

/// Drops the table of tables where it exists and creates it empty.
pub fn create_table_of_tables(conn: &rusqlite::Connection, log: &mut SqlLog) -> (r: AppResult<()>)
    ensures
        r is Ok ==> final(log).entries@ == old(log).entries@.push(
            statement_exchange(spec_drop_table_of_tables(), Seq::empty()),
        ).push(statement_exchange(spec_create_table_of_tables(), Seq::empty())),
        r matches Err(e) ==> e is Sqlite,
{
    let drop = "DROP TABLE IF EXISTS table_of_tables;";
    proof {
        log.entries = Ghost(log.entries@.push(statement_exchange(drop@, Seq::empty())));
    }
    if let Err(e) = sql_execute(conn, drop) {
        return Err(AppError::Sqlite(e));
    }
    let create = "CREATE TABLE IF NOT EXISTS table_of_tables (\n            table_name TEXT PRIMARY KEY,\n            row_count INTEGER,\n            col_count INTEGER,\n            text_col_count INTEGER,\n            int_col_count INTEGER\n        )";
    proof {
        log.entries = Ghost(log.entries@.push(statement_exchange(create@, Seq::empty())));
    }
    if let Err(e) = sql_execute(conn, create) {
        return Err(AppError::Sqlite(e));
    }
    Ok(())
}

/// The statement that drops the table of tables.
pub open spec fn spec_drop_table_of_tables() -> Seq<char> {
    "DROP TABLE IF EXISTS table_of_tables;"@
}

/// The statement that creates the table of tables.
pub open spec fn spec_create_table_of_tables() -> Seq<char> {
    "CREATE TABLE IF NOT EXISTS table_of_tables (\n            table_name TEXT PRIMARY KEY,\n            row_count INTEGER,\n            col_count INTEGER,\n            text_col_count INTEGER,\n            int_col_count INTEGER\n        )"@
}

/// The query for the names of the user's tables.
pub open spec fn spec_user_tables_query() -> Seq<char> {
    "SELECT name FROM sqlite_master WHERE type='table' AND name NOT LIKE 'sqlite_%' AND name != 'table_of_tables'"@
}

/// The names of the user's tables: all but SQLite's own and the table of tables.
pub fn get_tables(conn: &rusqlite::Connection, log: &mut SqlLog) -> (r: AppResult<Vec<String>>)
    ensures
        r matches Ok(names) ==> final(log).entries@ == old(log).entries@.push(
            (spec_user_tables_query(), Seq::empty(), text_rows(string_views(names@))),
        ),
        r is Err ==> final(log).entries == old(log).entries,
        r matches Err(e) ==> e is Sqlite,
{
    match sql_query_column(
        conn,
        "SELECT name FROM sqlite_master WHERE type='table' AND name NOT LIKE 'sqlite_%' AND name != 'table_of_tables'",
        0,
    ) {
        Ok(names) => {
            proof {
                log.entries = Ghost(log.entries@.push(
                    (spec_user_tables_query(), Seq::empty(), text_rows(string_views(names@))),
                ));
            }
            Ok(names)
        },
        Err(e) => Err(AppError::Sqlite(e)),
    }
}

/// The query that counts the rows of a table.
pub open spec fn spec_row_count_query(table_name: Seq<char>) -> Seq<char> {
    "SELECT COUNT(*) FROM \""@ + table_name + "\""@
}

fn row_count_query(table_name: &str) -> (q: String)
    ensures
        q@ == spec_row_count_query(table_name@),
{
    let mut q = String::from_str("SELECT COUNT(*) FROM \"");
    q.append(table_name);
    q.append("\"");
    q
}

/// The number of rows of `table_name`.
pub fn get_table_row_count(conn: &rusqlite::Connection, table_name: &str, log: &mut SqlLog) -> (r:
    AppResult<i64>)
    ensures
        r matches Ok(n) ==> final(log).entries@ == old(log).entries@.push(
            int_exchange(spec_row_count_query(table_name@), Seq::empty(), n),
        ),
        r is Err ==> final(log).entries == old(log).entries,
        r matches Err(e) ==> e is Sqlite,
{
    let query = row_count_query(table_name);
    match sql_query_int(conn, query.as_str()) {
        Ok(n) => {
            proof {
                log.entries = Ghost(log.entries@.push(int_exchange(query@, Seq::empty(), n)));
            }
            Ok(n)
        },
        Err(e) => Err(AppError::Sqlite(e)),
    }
}

/// The reading of `values`, one column of what `PRAGMA table_info` says of
/// `table_name`.
pub open spec fn table_info_exchange(table_name: Seq<char>, values: Seq<Seq<char>>) -> SqlExchange {
    (spec_table_info_query(table_name), Seq::empty(), text_rows(values))
}

/// The number of columns of `table_name`.
pub fn get_table_col_count(conn: &rusqlite::Connection, table_name: &str, log: &mut SqlLog) -> (r:
    AppResult<usize>)
    ensures
        r matches Ok(n) ==> exists|names: Seq<Seq<char>>|
            final(log).entries@ == old(log).entries@.push(#[trigger] table_info_exchange(table_name@, names))
                && n == names.len(),
        r is Err ==> final(log).entries == old(log).entries,
        r matches Err(e) ==> e is Sqlite,
{
    let query = table_info_query(table_name);
    match sql_query_column(conn, query.as_str(), 1) {
        Ok(names) => {
            proof {
                log.entries = Ghost(log.entries@.push(table_info_exchange(table_name@, string_views(names@))));
            }
            Ok(names.len())
        },
        Err(e) => Err(AppError::Sqlite(e)),
    }
}

/// How many of the type names are the name of `kind`.
pub fn count_kind(type_names: &Vec<String>, kind: ColumnKind) -> (n: usize)
    ensures
        n == spec_kind_count(type_names@.map_values(|t: String| t@), kind),
{
    let ghost names = type_names@.map_values(|t: String| t@);
    let kind_name = kind.name();
    let mut n: usize = 0;
    let mut i: usize = 0;
    while i < type_names.len()
        invariant
            i <= type_names@.len(),
            names == type_names@.map_values(|t: String| t@),
            kind_name@ == spec_kind_name(kind),
            n == spec_kind_count(names.take(i as int), kind),
            n <= i,
        decreases type_names@.len() - i,
    {
        proof {
            assert(names.take(i + 1).drop_last() =~= names.take(i as int));
            reveal(Seq::filter);
        }
        if type_names[i] == kind_name {
            n = n + 1;
        }
        i = i + 1;
    }
    assert(names.take(type_names@.len() as int) =~= names);
    n
}

/// The number of columns of `table_name` whose declared type is the name of `kind`.
pub fn get_table_kind_col_count(
    conn: &rusqlite::Connection,
    table_name: &str,
    kind: ColumnKind,
    log: &mut SqlLog,
) -> (r: AppResult<usize>)
    ensures
        r matches Ok(n) ==> exists|types: Seq<Seq<char>>|
            final(log).entries@ == old(log).entries@.push(#[trigger] table_info_exchange(table_name@, types))
                && n == spec_kind_count(types, kind),
        r is Err ==> final(log).entries == old(log).entries,
        r matches Err(e) ==> e is Sqlite,
{
    let query = table_info_query(table_name);
    match sql_query_column(conn, query.as_str(), 2) {
        Ok(type_names) => {
            proof {
                log.entries = Ghost(log.entries@.push(
                    table_info_exchange(table_name@, string_views(type_names@)),
                ));
            }
            Ok(count_kind(&type_names, kind))
        },
        Err(e) => Err(AppError::Sqlite(e)),
    }
}

/// The statement that adds one row to the table of tables.
pub open spec fn spec_insert_counts_statement() -> Seq<char> {
    "INSERT INTO table_of_tables (table_name, row_count, col_count, text_col_count, int_col_count) VALUES (?1, ?2, ?3, ?4, ?5)"@
}

/// The row of the table of tables for `table_name`, from what was read of it: its
/// number of rows, its columns, and its column types (read twice).
pub open spec fn spec_counts_row(
    table_name: Seq<char>,
    row_count: i64,
    names: Seq<Seq<char>>,
    int_types: Seq<Seq<char>>,
    text_types: Seq<Seq<char>>,
) -> Seq<CellValue> {
    seq![
        CellValue::Text(table_name),
        CellValue::Integer(row_count),
        CellValue::Integer(names.len() as i64),
        CellValue::Integer(spec_kind_count(text_types, ColumnKind::Text) as i64),
        CellValue::Integer(spec_kind_count(int_types, ColumnKind::Int) as i64),
    ]
}

/// What was read and written for one table: its number of rows, its columns and
/// its column types, and then the insertion of its row into the table of tables.
pub open spec fn table_counted(table_name: Seq<char>, entries: Seq<SqlExchange>) -> bool {
    exists|row_count: i64, names: Seq<Seq<char>>, int_types: Seq<Seq<char>>, text_types: Seq<Seq<char>>|
        entries == seq![
            int_exchange(spec_row_count_query(table_name), Seq::empty(), row_count),
            table_info_exchange(table_name, names),
            table_info_exchange(table_name, int_types),
            table_info_exchange(table_name, text_types),
            statement_exchange(
                spec_insert_counts_statement(),
                #[trigger] spec_counts_row(table_name, row_count, names, int_types, text_types),
            ),
        ]
}

/// The entries of the tables, one after the other.
pub open spec fn concat_entries(per_table: Seq<Seq<SqlExchange>>) -> Seq<SqlExchange>
    decreases per_table.len(),
{
    if per_table.len() == 0 {
        Seq::empty()
    } else {
        concat_entries(per_table.drop_last()) + per_table.last()
    }
}

/// Fills the table of tables with one row per table of the user's: for each table
/// in the order that they were listed, its counts are read and its row inserted.
pub fn populate_table_of_tables(conn: &rusqlite::Connection, log: &mut SqlLog) -> (r: AppResult<()>)
    ensures
        r is Ok ==> exists|names: Seq<Seq<char>>, per_table: Seq<Seq<SqlExchange>>|
            {
                &&& per_table.len() == names.len()
                &&& forall|k: int| 0 <= k < names.len() ==> table_counted(names[k], #[trigger] per_table[k])
                &&& final(log).entries@ == old(log).entries@.push(
                    (spec_user_tables_query(), Seq::empty(), #[trigger] text_rows(names)),
                ) + #[trigger] concat_entries(per_table)
            },
        r matches Err(e) ==> e is Sqlite,
{
    let tables = get_tables(conn, log)?;
    let ghost names = string_views(tables@);
    let ghost base = log.entries@;
    let ghost mut per_table: Seq<Seq<SqlExchange>> = Seq::empty();
    let mut i: usize = 0;
    while i < tables.len()
        invariant
            i <= tables@.len(),
            names == string_views(tables@),
            per_table.len() == i,
            forall|k: int| 0 <= k < i ==> table_counted(names[k], #[trigger] per_table[k]),
            log.entries@ == base + concat_entries(per_table),
        decreases tables@.len() - i,
    {
        let ghost before = log.entries@;
        let table = tables[i].as_str();
        let row_count = get_table_row_count(conn, table, log)?;
        let ghost l1 = log.entries@;
        let col_count = get_table_col_count(conn, table, log)?;
        let ghost l2 = log.entries@;
        let int_col_count = get_table_kind_col_count(conn, table, ColumnKind::Int, log)?;
        let ghost l3 = log.entries@;
        let text_col_count = get_table_kind_col_count(conn, table, ColumnKind::Text, log)?;
        let insert = "INSERT INTO table_of_tables (table_name, row_count, col_count, text_col_count, int_col_count) VALUES (?1, ?2, ?3, ?4, ?5)";
        proof {
            let cols = choose|cols: Seq<Seq<char>>|
                l2 == l1.push(#[trigger] table_info_exchange(table@, cols)) && col_count == cols.len();
            let int_types = choose|ty: Seq<Seq<char>>|
                l3 == l2.push(#[trigger] table_info_exchange(table@, ty)) && int_col_count
                    == spec_kind_count(ty, ColumnKind::Int);
            let text_types = choose|ty: Seq<Seq<char>>|
                log.entries@ == l3.push(#[trigger] table_info_exchange(table@, ty)) && text_col_count
                    == spec_kind_count(ty, ColumnKind::Text);
            let row = spec_counts_row(table@, row_count, cols, int_types, text_types);
            assert(row =~= seq![
                CellValue::Text(table@),
                CellValue::Integer(row_count),
                CellValue::Integer(col_count as i64),
                CellValue::Integer(text_col_count as i64),
                CellValue::Integer(int_col_count as i64),
            ]);
            log.entries = Ghost(log.entries@.push(statement_exchange(insert@, row)));
            let entries = seq![
                int_exchange(spec_row_count_query(table@), Seq::empty(), row_count),
                table_info_exchange(table@, cols),
                table_info_exchange(table@, int_types),
                table_info_exchange(table@, text_types),
                statement_exchange(spec_insert_counts_statement(), row),
            ];
            assert(log.entries@ =~= before + entries);
            assert(names[i as int] == table@);
            assert(table_counted(table@, entries));
            let old_per = per_table;
            per_table = per_table.push(entries);
            assert(per_table.drop_last() =~= old_per);
            assert(log.entries@ =~= base + concat_entries(per_table));
        }
        if let Err(e) = sql_execute_text_and_counts(
            conn,
            insert,
            table,
            row_count,
            col_count,
            text_col_count,
            int_col_count,
        ) {
            return Err(AppError::Sqlite(e));
        }
        i = i + 1;
    }
    Ok(())
}

} // verus!
