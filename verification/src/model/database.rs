//! The open database: which table, column and row the user is on, the rows on
//! screen, the input line, and the operations that change the tables.
use vstd::prelude::*;

use crate::controller::command::{Command, PreviousCommand, QueuedCommand};
use crate::controller::direction::Direction;
use crate::controller::input::{InputMode, StateMachine};
use crate::error::{AppError, AppResult};
use crate::text::{int_decimal, nat_decimal, push_decimal, push_int_decimal, string_views};

use super::datarow::{CellValue, DataItem, DataTable};
use super::db_slice::{DatabaseSlice, TableState};
use super::regexping::{
    regex_filter_query, regex_is_valid, spec_regex_filter_query, validate_regex, regex_no_capture_group_transform_query,
    regex_with_capture_group_transform_query, spec_regex_no_capture_group_transform_query,
    spec_regex_with_capture_group_transform_query,
};
use super::regexping::custom_functions::{
    add_custom_functions, registered_views, spec_custom_functions, SqlFunction,
};
use super::sql_queries::{
    delete_column_query, delete_table_query, exact_search_query, int_to_text_query,
    rename_column_query, rename_table_query, spec_convert_into, spec_delete_column_query,
    spec_delete_table_query, spec_exact_search_query,
    spec_rename_column_query, spec_rename_table_query, text_to_int,
};
use super::sqlite::{
    SqlCell,
    sql_execute, sql_execute_batch, sql_execute_text_and_int,
    sql_query_column, sql_query_int, sql_query_int_text_pairs, sql_query_optional_int, sql_query_int_with_text,
    sql_query_table, sql_query_text, sql_query_text_with_int,
};

verus! {

/// An open database and where the user is in it.
pub struct Database {
    pub connection: rusqlite::Connection,
    pub header_idx: u16,
    pub order_column: String,
    pub is_asc_order: bool,
    pub current_table_idx: u16,
    pub slice: DatabaseSlice,
    pub input: String,
    pub character_index: usize,
    pub queued_command: Option<QueuedCommand>,
    pub last_command: PreviousCommand,
    pub input_mode_state_machine: StateMachine,
    /// The query of the last page that was read from SQLite, the table's columns,
    /// and the cells that the query answered.
    pub fetched: Ghost<(Seq<char>, Seq<Seq<char>>, Seq<Vec<SqlCell>>)>,
    /// The SQL names of the functions registered on the connection, with the
    /// verified functions that answer them.
    pub sql_functions: Ghost<Seq<(Seq<char>, SqlFunction)>>,
    /// The transactions that were handed to SQLite to change the tables, in order.
    pub sent: Ghost<Seq<Seq<char>>>,
    /// The queries that SQLite answered and the single statements that were handed
    /// to it, in order.
    pub log: Ghost<Seq<SqlExchange>>,
}

/// An exchange with SQLite: a statement, the values bound to its parameters, and
/// the rows that it answered.
pub type SqlExchange = (Seq<char>, Seq<CellValue>, Seq<Seq<CellValue>>);

/// What went to SQLite through a connection that no `Database` holds: the queries
/// it answered and the statements handed to it, in order.
pub struct SqlLog {
    pub entries: Ghost<Seq<SqlExchange>>,
}

impl SqlLog {
    /// A log with nothing in it.
    pub fn new() -> (l: Self)
        ensures
            l.entries@ == Seq::<SqlExchange>::empty(),
    {
        SqlLog { entries: Ghost(Seq::empty()) }
    }
}

/// Rows of one text each.
pub open spec fn text_rows(values: Seq<Seq<char>>) -> Seq<Seq<CellValue>> {
    values.map_values(|v: Seq<char>| seq![CellValue::Text(v)])
}

/// The reading of `name`, the name of the table whose `rowid` is `rowid`.
pub open spec fn name_exchange(rowid: u16, name: Seq<char>) -> SqlExchange {
    (spec_table_name_query(rowid), Seq::empty(), seq![seq![CellValue::Text(name)]])
}

/// The reading of `names`, the columns of `table_name`.
pub open spec fn headers_exchange(table_name: Seq<char>, names: Seq<Seq<char>>) -> SqlExchange {
    (spec_headers_query(table_name), Seq::empty(), text_rows(names))
}

/// A query with the parameters `params` that answered the one integer `n`.
pub open spec fn int_exchange(query: Seq<char>, params: Seq<CellValue>, n: i64) -> SqlExchange {
    (query, params, seq![seq![CellValue::Integer(n)]])
}

/// A statement handed to SQLite with the parameters `params`.
pub open spec fn statement_exchange(sql: Seq<char>, params: Seq<CellValue>) -> SqlExchange {
    (sql, params, Seq::empty())
}

/// The log after the name `table_name` of the table whose `rowid` is `rowid` was
/// read.
pub open spec fn read_name(o: Seq<SqlExchange>, f: Seq<SqlExchange>, rowid: u16, table_name: Seq<char>) -> bool {
    f == o.push(name_exchange(rowid, table_name))
}

/// The log after the name `table_name` of the table whose `rowid` is `rowid`, and
/// then its columns `headers`, were read.
pub open spec fn read_columns(
    o: Seq<SqlExchange>,
    f: Seq<SqlExchange>,
    rowid: u16,
    table_name: Seq<char>,
    headers: Seq<Seq<char>>,
) -> bool {
    f == o.push(name_exchange(rowid, table_name)).push(headers_exchange(table_name, headers))
}

/// As `read_columns`, where the table has a column at `header_idx`: the current
/// column is `headers[header_idx]`.
pub open spec fn read_column(
    o: Seq<SqlExchange>,
    f: Seq<SqlExchange>,
    rowid: u16,
    header_idx: u16,
    table_name: Seq<char>,
    headers: Seq<Seq<char>>,
) -> bool {
    &&& read_columns(o, f, rowid, table_name, headers)
    &&& header_idx < headers.len()
}

/// The row after which a search starts: the first row of the page plus the
/// selected row, each cut to 32 bits.
pub open spec fn spec_search_start(row_offset: u32, selected: Option<usize>) -> nat {
    let sel: int = match selected {
        Some(i) => if i > 0xffff_ffff { 0xffff_ffff } else { i as int },
        None => 0,
    };
    if row_offset + sel > 0xffff_ffff {
        0xffff_ffff
    } else {
        (row_offset + sel) as nat
    }
}

/// The log after the name `table_name` of the table whose `rowid` is `rowid` was
/// read, and then the number `n` of the first row after `start`, in the order
/// `ordering`, whose `header` equals `pattern`.
pub open spec fn searched(
    o: Seq<SqlExchange>,
    f: Seq<SqlExchange>,
    rowid: u16,
    table_name: Seq<char>,
    ordering: Seq<char>,
    header: Seq<char>,
    start: nat,
    pattern: Seq<char>,
    n: i64,
) -> bool {
    f == o.push(name_exchange(rowid, table_name)).push(
        int_exchange(spec_exact_search_query(ordering, header, start, table_name), seq![CellValue::Text(pattern)], n),
    )
}

/// `f` holds `o` and then maybe more.
pub open spec fn log_extends(o: Seq<SqlExchange>, f: Seq<SqlExchange>) -> bool {
    &&& o.len() <= f.len()
    &&& forall|i: int| 0 <= i < o.len() ==> #[trigger] f[i] == o[i]
}

/// The log after the `rowid` `n` of the table next to `rowid` (after it when
/// `forward`) was read.
pub open spec fn read_neighbour(o: Seq<SqlExchange>, f: Seq<SqlExchange>, rowid: u16, forward: bool, n: i64) -> bool {
    f == o.push(int_exchange(spec_neighbour_table_query(rowid, forward), Seq::empty(), n))
}

/// The views of the rows of a table.
pub open spec fn row_views(rows: Seq<Vec<DataItem>>) -> Seq<Seq<CellValue>> {
    rows.map_values(|r: Vec<DataItem>| r@.map_values(|c: DataItem| c@))
}

/// The statement that adds the column `derived{header}` as a copy of `header`.
pub open spec fn spec_copy_column_query(table_name: Seq<char>, header: Seq<char>) -> Seq<char> {
    let derived = "derived"@ + header;
    "ALTER TABLE `"@ + table_name + "` ADD COLUMN `"@ + derived + "` TEXT;\n"@ + "UPDATE `"@
        + table_name + "` SET `"@ + derived + "` = `"@ + header + "`;"@
}

/// The query that reads one page of a table in the chosen order.
pub open spec fn spec_page_query(
    table_name: Seq<char>,
    order_column: Seq<char>,
    is_asc: bool,
    limit: nat,
    offset: nat,
) -> Seq<char> {
    "SELECT * FROM `"@ + table_name + "` ORDER BY `"@ + order_column + "` "@ + (if is_asc {
        "ASC"@
    } else {
        "DESC"@
    }) + " LIMIT "@ + nat_decimal(limit) + " OFFSET "@ + nat_decimal(offset) + ";"@
}

/// A batch of statements wrapped in one transaction.
pub open spec fn spec_transaction(sql: Seq<char>) -> Seq<char> {
    "BEGIN TRANSACTION;\n"@ + sql + "\nCOMMIT;"@
}

/// The column that follows `idx` among `count` columns, wrapping to the first.
pub open spec fn spec_next_header(idx: u16, count: u16) -> u16 {
    ((idx + 1) % (count as int)) as u16
}

/// The column before `idx` among `count` columns, wrapping to the last.
pub open spec fn spec_previous_header(idx: u16, count: u16) -> u16 {
    if idx == 0 {
        (count - 1) as u16
    } else {
        (idx - 1) as u16
    }
}

/// The column after `idx`; `count` must be positive.
pub fn next_header_index(idx: u16, count: u16) -> (r: u16)
    requires
        count > 0,
    ensures
        r == spec_next_header(idx, count),
        r < count,
{
    ((idx as u32 + 1) % (count as u32)) as u16
}

/// The column before `idx`; from the first column it wraps to the last, so there
/// must be one.
pub fn previous_header_index(idx: u16, count: u16) -> (r: u16)
    requires
        idx > 0 || count > 0,
    ensures
        r == spec_previous_header(idx, count),
{
    if idx == 0 {
        count - 1
    } else {
        idx - 1
    }
}

/// Moving right and then left, or left and then right, comes back to the same
/// column.
pub proof fn lemma_header_moves_undo(idx: u16, count: u16)
    requires
        idx < count,
    ensures
        spec_previous_header(spec_next_header(idx, count), count) == idx,
        spec_next_header(spec_previous_header(idx, count), count) == idx,
{
    if idx + 1 < count {
        vstd::arithmetic::div_mod::lemma_small_mod((idx + 1) as nat, count as nat);
    } else {
        vstd::arithmetic::div_mod::lemma_mod_self_0(count as int);
    }
    if idx == 0 {
        vstd::arithmetic::div_mod::lemma_mod_self_0(count as int);
    } else {
        vstd::arithmetic::div_mod::lemma_small_mod(idx as nat, count as nat);
    }
}

/// The statement that copies the column `header` into a new column.
pub fn copy_column_query(table_name: &str, header: &str) -> (q: String)
    ensures
        q@ == spec_copy_column_query(table_name@, header@),
{
    let mut derived = String::from_str("derived");
    derived.append(header);
    let mut q = String::from_str("ALTER TABLE `");
    q.append(table_name);
    q.append("` ADD COLUMN `");
    q.append(derived.as_str());
    q.append("` TEXT;\n");
    q.append("UPDATE `");
    q.append(table_name);
    q.append("` SET `");
    q.append(derived.as_str());
    q.append("` = `");
    q.append(header);
    q.append("`;");
    q
}

/// The query that reads one page of a table.
pub fn page_query(table_name: &str, order_column: &str, is_asc: bool, limit: u32, offset: u32) -> (q:
    String)
    ensures
        q@ == spec_page_query(table_name@, order_column@, is_asc, limit as nat, offset as nat),
{
    let mut q = String::from_str("SELECT * FROM `");
    q.append(table_name);
    q.append("` ORDER BY `");
    q.append(order_column);
    q.append("` ");
    if is_asc {
        q.append("ASC");
    } else {
        q.append("DESC");
    }
    q.append(" LIMIT ");
    push_decimal(&mut q, limit as u64);
    q.append(" OFFSET ");
    push_decimal(&mut q, offset as u64);
    q.append(";");
    q
}

/// Wraps statements in one transaction.
pub fn transaction_query(sql: &str) -> (q: String)
    ensures
        q@ == spec_transaction(sql@),
{
    let mut q = String::from_str("BEGIN TRANSACTION;\n");
    q.append(sql);
    q.append("\nCOMMIT;");
    q
}

/// The query for the name of the table whose `rowid` is `rowid`.
pub open spec fn spec_table_name_query(rowid: u16) -> Seq<char> {
    "SELECT name FROM sqlite_master WHERE type='table' AND rowid='"@ + nat_decimal(rowid as nat)
        + "';"@
}

pub fn table_name_query(rowid: u16) -> (q: String)
    ensures
        q@ == spec_table_name_query(rowid),
{
    let mut q = String::from_str("SELECT name FROM sqlite_master WHERE type='table' AND rowid='");
    push_decimal(&mut q, rowid as u64);
    q.append("';");
    q
}

/// The query for the `rowid` of the next table after `rowid` (`forward`), or of the
/// one before it.
pub open spec fn spec_neighbour_table_query(rowid: u16, forward: bool) -> Seq<char> {
    "SELECT rowid FROM sqlite_master WHERE type='table' AND rowid "@ + (if forward {
        ">"@
    } else {
        "<"@
    }) + " "@ + nat_decimal(rowid as nat) + " ORDER BY rowid "@ + (if forward {
        "ASC"@
    } else {
        "DESC"@
    }) + " LIMIT 1;"@
}

pub fn neighbour_table_query(rowid: u16, forward: bool) -> (q: String)
    ensures
        q@ == spec_neighbour_table_query(rowid, forward),
{
    let mut q = String::from_str("SELECT rowid FROM sqlite_master WHERE type='table' AND rowid ");
    if forward {
        q.append(">");
    } else {
        q.append("<");
    }
    q.append(" ");
    push_decimal(&mut q, rowid as u64);
    q.append(" ORDER BY rowid ");
    if forward {
        q.append("ASC");
    } else {
        q.append("DESC");
    }
    q.append(" LIMIT 1;");
    q
}

/// The query that lists the columns of `table_name`.
pub open spec fn spec_headers_query(table_name: Seq<char>) -> Seq<char> {
    "PRAGMA table_info(`"@ + table_name + "`)"@
}

pub fn headers_query(table_name: &str) -> (q: String)
    ensures
        q@ == spec_headers_query(table_name@),
{
    let mut q = String::from_str("PRAGMA table_info(`");
    q.append(table_name);
    q.append("`)");
    q
}

/// The query that counts the rows of `table_name`.
pub open spec fn spec_count_rows_query(table_name: Seq<char>) -> Seq<char> {
    "SELECT COUNT(*) FROM "@ + table_name + ";"@
}

pub fn count_rows_query(table_name: &str) -> (q: String)
    ensures
        q@ == spec_count_rows_query(table_name@),
{
    let mut q = String::from_str("SELECT COUNT(*) FROM ");
    q.append(table_name);
    q.append(";");
    q
}

/// The query for column `header` of the row whose `id` is the bound parameter.
pub open spec fn spec_cell_query(header: Seq<char>, table_name: Seq<char>) -> Seq<char> {
    "SELECT `"@ + header + "` FROM `"@ + table_name + "` WHERE id = ?;"@
}

pub fn cell_query(header: &str, table_name: &str) -> (q: String)
    ensures
        q@ == spec_cell_query(header@, table_name@),
{
    let mut q = String::from_str("SELECT `");
    q.append(header);
    q.append("` FROM `");
    q.append(table_name);
    q.append("` WHERE id = ?;");
    q
}

/// The statement that sets column `header` of the row whose `id` is the second bound
/// parameter to the first.
pub open spec fn spec_update_cell_query(table_name: Seq<char>, header: Seq<char>) -> Seq<char> {
    "UPDATE `"@ + table_name + "` SET '"@ + header + "' = ? WHERE id = ?;"@
}

pub fn update_cell_query(table_name: &str, header: &str) -> (q: String)
    ensures
        q@ == spec_update_cell_query(table_name@, header@),
{
    let mut q = String::from_str("UPDATE `");
    q.append(table_name);
    q.append("` SET '");
    q.append(header);
    q.append("' = ? WHERE id = ?;");
    q
}

/// The query for the key and column `column` of every row of `table_name`.
pub open spec fn spec_id_and_column_query(column: Seq<char>, table_name: Seq<char>) -> Seq<char> {
    "SELECT `id`, `"@ + column + "` FROM `"@ + table_name + "`"@
}

pub fn id_and_column_query(column: &str, table_name: &str) -> (q: String)
    ensures
        q@ == spec_id_and_column_query(column@, table_name@),
{
    let mut q = String::from_str("SELECT `id`, `");
    q.append(column);
    q.append("` FROM `");
    q.append(table_name);
    q.append("`");
    q
}

/// The query for the `rowid` of row `index` (counted from 0) of `table_name`.
pub open spec fn spec_row_id_query(table_name: Seq<char>, index: nat) -> Seq<char> {
    "SELECT rowid FROM `"@ + table_name + "` LIMIT 1 OFFSET "@ + nat_decimal(index) + ";"@
}

pub fn row_id_query(table_name: &str, index: u64) -> (q: String)
    ensures
        q@ == spec_row_id_query(table_name@, index as nat),
{
    let mut q = String::from_str("SELECT rowid FROM `");
    q.append(table_name);
    q.append("` LIMIT 1 OFFSET ");
    push_decimal(&mut q, index);
    q.append(";");
    q
}

/// The ordering clause of a search: by `column`, ascending or descending.
pub open spec fn spec_search_ordering(column: Seq<char>, is_asc: bool) -> Seq<char> {
    "ORDER BY \""@ + column + (if is_asc {
        "\" ASC"@
    } else {
        "\" DESC"@
    })
}

pub fn search_ordering(column: &str, is_asc: bool) -> (q: String)
    ensures
        q@ == spec_search_ordering(column@, is_asc),
{
    let mut q = String::from_str("ORDER BY \"");
    q.append(column);
    if is_asc {
        q.append("\" ASC");
    } else {
        q.append("\" DESC");
    }
    q
}

/// The column at position `idx` among `headers`; an error where there is none.
pub fn header_at(headers: &Vec<String>, idx: u16) -> (r: AppResult<String>)
    ensures
        r is Ok <==> (idx as int) < headers@.len(),
        r matches Ok(h) ==> h@ == headers@[idx as int]@,
        r matches Err(e) ==> e is Other,
{
    if (idx as usize) < headers.len() {
        Ok(headers[idx as usize].clone())
    } else {
        Err(AppError::Other(String::from_str("no column at the cursor")))
    }
}

/// A number of rows read from the database, where it fits in 32 bits.
pub fn row_count_of(n: i64) -> (r: Option<u32>)
    ensures
        r is Some <==> 0 <= n <= u32::MAX,
        r matches Some(c) ==> c == n,
{
    if 0 <= n && n <= 0xffff_ffff {
        Some(n as u32)
    } else {
        None
    }
}

/// A row key read from the database, where it fits in a signed 32-bit number.
pub fn row_id_of(n: i64) -> (r: AppResult<i32>)
    ensures
        r is Ok <==> i32::MIN <= n <= i32::MAX,
        r matches Ok(v) ==> v == n,
        r matches Err(e) ==> e is Other,
{
    if -0x8000_0000 <= n && n <= 0x7fff_ffff {
        Ok(n as i32)
    } else {
        Err(AppError::Other(String::from_str("value out of range")))
    }
}

/// The order after sorting by `header`: a new column is sorted ascending, the column
/// that already orders the table turns to the other direction.
pub open spec fn spec_sort_order(order_column: Seq<char>, is_asc: bool, header: Seq<char>) -> (
    Seq<char>,
    bool,
) {
    if order_column == header {
        (order_column, !is_asc)
    } else {
        (header, true)
    }
}

/// The order column and direction after sorting by `header`.
pub fn next_sort_order(order_column: &str, is_asc: bool, header: &str) -> (r: (String, bool))
    ensures
        (r.0@, r.1) == spec_sort_order(order_column@, is_asc, header@),
{
    let header = String::from_str(header);
    let order_column = String::from_str(order_column);
    if order_column == header {
        (order_column, !is_asc)
    } else {
        (header, true)
    }
}

/// Sorting twice by the same column sorts by it in the direction that it had before
/// when it already ordered the table, and descending otherwise.
pub proof fn lemma_sort_twice(order_column: Seq<char>, is_asc: bool, header: Seq<char>)
    ensures
        ({
            let (c1, a1) = spec_sort_order(order_column, is_asc, header);
            spec_sort_order(c1, a1, header) == (header, if order_column == header {
                is_asc
            } else {
                false
            })
        }),
{
}

/// Where a move of the cursor in direction `d` (on pages of `height` rows) leaves
/// the cursor column, the selected row and the page.
pub open spec fn spec_moved(o: Database, f: Database, d: Direction, height: u32) -> bool {
    match d {
        Direction::Up => {
            let (sel, off) = super::db_slice::spec_previous_row(o.slice.table_state.selected, o.slice.row_offset, height);
            &&& f.header_idx == o.header_idx
            &&& f.slice.table_state.selected == Some(sel)
            &&& f.slice.row_offset == off
        },
        Direction::Down => {
            &&& f.header_idx == o.header_idx
            &&& f.slice.table_state.selected is Some
            &&& exists|total: Option<u32>|
                #[trigger] super::db_slice::spec_next_row(o.slice.table_state.selected, o.slice.row_offset, height, total)
                    == (f.slice.table_state.selected.unwrap(), f.slice.row_offset)
        },
        Direction::Right => {
            &&& f.slice.table_state == o.slice.table_state
            &&& f.slice.row_offset == o.slice.row_offset
            &&& (f.header_idx == o.header_idx || exists|count: u16|
                count > 0 && f.header_idx == #[trigger] spec_next_header(o.header_idx, count))
        },
        Direction::Left => {
            &&& f.slice.table_state == o.slice.table_state
            &&& f.slice.row_offset == o.slice.row_offset
            &&& (f.header_idx == o.header_idx || exists|count: u16|
                (o.header_idx > 0 || count > 0) && f.header_idx == #[trigger] spec_previous_header(
                    o.header_idx,
                    count,
                ))
        },
    }
}

/// Everything of the database but the logs of what went to SQLite is as it was.
pub open spec fn same_but_logs(o: Database, f: Database) -> bool {
    &&& f.connection == o.connection
    &&& f.header_idx == o.header_idx
    &&& f.order_column == o.order_column
    &&& f.is_asc_order == o.is_asc_order
    &&& f.current_table_idx == o.current_table_idx
    &&& f.slice == o.slice
    &&& f.input == o.input
    &&& f.character_index == o.character_index
    &&& f.queued_command == o.queued_command
    &&& f.last_command == o.last_command
    &&& f.input_mode_state_machine == o.input_mode_state_machine
    &&& f.fetched == o.fetched
    &&& f.sql_functions == o.sql_functions
}

/// The log after the statements `sql` were handed to SQLite in one transaction.
pub open spec fn sent_after(o: Seq<Seq<char>>, f: Seq<Seq<char>>, sql: Seq<char>) -> bool {
    f == o.push(spec_transaction(sql))
}

/// The log after the statements `sql` were handed to SQLite in one transaction that
/// failed, and a rollback followed.
pub open spec fn sent_rolled_back(o: Seq<Seq<char>>, f: Seq<Seq<char>>, sql: Seq<char>) -> bool {
    f == o.push(spec_transaction(sql)).push("ROLLBACK;"@)
}

/// The statements `sql` were handed to SQLite in one transaction, which went through
/// or was rolled back.
pub open spec fn sent_tried(o: Seq<Seq<char>>, f: Seq<Seq<char>>, sql: Seq<char>) -> bool {
    sent_after(o, f, sql) || sent_rolled_back(o, f, sql)
}

/// The log after the name `table_name` of the table whose `rowid` is `rowid`, and
/// then its number of rows `n`, were read.
pub open spec fn rows_counted(o: Seq<SqlExchange>, f: Seq<SqlExchange>, rowid: u16, table_name: Seq<char>, n: i64) -> bool {
    f == o.push(name_exchange(rowid, table_name)).push(
        int_exchange(spec_count_rows_query(table_name), Seq::empty(), n),
    )
}

/// The query for the names of all tables, in the order they were created.
pub open spec fn spec_table_names_query() -> Seq<char> {
    "SELECT name FROM sqlite_master WHERE type='table' ORDER BY rowid;"@
}

/// The log after the name `table_name` of the table whose `rowid` is `rowid` was
/// read, and then column `header` of the row whose `id` is `id`, which answered
/// `cell`.
pub open spec fn cell_read(
    o: Seq<SqlExchange>,
    f: Seq<SqlExchange>,
    rowid: u16,
    table_name: Seq<char>,
    header: Seq<char>,
    id: i32,
    cell: Seq<char>,
) -> bool {
    f == o.push(name_exchange(rowid, table_name)).push(
        (spec_cell_query(header, table_name), seq![CellValue::Integer(id as i64)], seq![seq![CellValue::Text(cell)]]),
    )
}

/// As `cell_read`, for some name of the table whose `rowid` is `rowid`.
pub open spec fn cell_answered(
    o: Seq<SqlExchange>,
    f: Seq<SqlExchange>,
    rowid: u16,
    header: Seq<char>,
    id: i32,
    cell: Seq<char>,
) -> bool {
    exists|t: Seq<char>| #[trigger] cell_read(o, f, rowid, t, header, id, cell)
}

/// As `read_current_column`, for some name of the table whose `rowid` is `rowid`.
pub open spec fn read_current_header(
    o: Seq<SqlExchange>,
    f: Seq<SqlExchange>,
    rowid: u16,
    header_idx: u16,
    header: Seq<char>,
) -> bool {
    exists|t: Seq<char>| #[trigger] read_current_column(o, f, rowid, header_idx, t, header)
}

/// As `read_column`, where `header` is the current column.
pub open spec fn read_current_column(
    o: Seq<SqlExchange>,
    f: Seq<SqlExchange>,
    rowid: u16,
    header_idx: u16,
    table_name: Seq<char>,
    header: Seq<char>,
) -> bool {
    exists|hs: Seq<Seq<char>>|
        #[trigger] read_column(o, f, rowid, header_idx, table_name, hs) && header == hs[header_idx as int]
}

/// The log after the name `table_name` of the table whose `rowid` is `rowid` was
/// read, and the statement that sets column `header` of the row whose `id` is `id`
/// to `content` was handed to SQLite with `content` and `id` bound to it.
pub open spec fn cell_update_sent(
    o: Seq<SqlExchange>,
    f: Seq<SqlExchange>,
    rowid: u16,
    table_name: Seq<char>,
    header: Seq<char>,
    id: i32,
    content: Seq<char>,
) -> bool {
    f == o.push(name_exchange(rowid, table_name)).push(
        statement_exchange(
            spec_update_cell_query(table_name, header),
            seq![CellValue::Text(content), CellValue::Integer(id as i64)],
        ),
    )
}

/// The log after the name `table_name` of the table whose `rowid` is `rowid`, and
/// then the key `n` of its row `index`, were read.
pub open spec fn row_id_read(
    o: Seq<SqlExchange>,
    f: Seq<SqlExchange>,
    rowid: u16,
    table_name: Seq<char>,
    index: nat,
    n: i64,
) -> bool {
    f == o.push(name_exchange(rowid, table_name)).push(
        int_exchange(spec_row_id_query(table_name, index), Seq::empty(), n),
    )
}

/// The log after the name `table_name` of the table whose `rowid` is `rowid` was
/// read, the statement that filters it by `pattern` on `header` was handed to
/// SQLite, and the `rowid` `n` of the next table was read.
pub open spec fn filtered_into_new_table(
    o: Seq<SqlExchange>,
    f: Seq<SqlExchange>,
    rowid: u16,
    table_name: Seq<char>,
    header: Seq<char>,
    pattern: Seq<char>,
    n: i64,
) -> bool {
    f == o.push(name_exchange(rowid, table_name)).push(
        statement_exchange(spec_regex_filter_query(header, pattern, table_name), Seq::empty()),
    ).push(int_exchange(spec_neighbour_table_query(rowid, true), Seq::empty(), n))
}

/// Rows of a key and a text each.
pub open spec fn pair_rows(rows: Seq<(i32, String)>) -> Seq<Seq<CellValue>> {
    rows.map_values(|r: (i32, String)| seq![CellValue::Integer(r.0 as i64), CellValue::Text(r.1@)])
}

/// `q` adds the column `derived` to `table_name` and sets it, row by row, to what
/// `fun` gives for each row's text (the text NULL where it gives nothing).
pub open spec fn spec_derive_statements<F: Fn(String) -> Option<String>>(
    fun: F,
    table_name: Seq<char>,
    derived: Seq<char>,
    rows: Seq<(i32, String)>,
    q: Seq<char>,
) -> bool {
    exists|values: Seq<Seq<char>>|
        {
            &&& values.len() == rows.len()
            &&& forall|k: int| 0 <= k < rows.len() ==> derived_by(fun, rows[k].1@, #[trigger] values[k])
            &&& q == "ALTER TABLE `"@ + table_name + "` ADD COLUMN `"@ + derived + "` TEXT;\n"@
                + #[trigger] spec_update_lines(table_name, derived, row_ids(rows), values)
        }
}

/// The log after the name `table_name` of the table whose `rowid` is `rowid`, and
/// then the keys and the texts `rows` of its column `column`, were read; `q` derives
/// a column from them with `fun`.
pub open spec fn column_derived<F: Fn(String) -> Option<String>>(
    fun: F,
    o: Seq<SqlExchange>,
    f: Seq<SqlExchange>,
    rowid: u16,
    table_name: Seq<char>,
    column: Seq<char>,
    rows: Seq<(i32, String)>,
    q: Seq<char>,
) -> bool {
    &&& f == o.push(name_exchange(rowid, table_name)).push(
        (spec_id_and_column_query(column, table_name), Seq::empty(), pair_rows(rows)),
    )
    &&& spec_derive_statements(fun, table_name, "derived"@ + column, rows, q)
}

/// The read of the current column stays in the log while nothing is added to it.
proof fn column_read_kept(
    o: Seq<SqlExchange>,
    mid: Seq<SqlExchange>,
    f: Seq<SqlExchange>,
    rowid: u16,
    header_idx: u16,
    table_name: Seq<char>,
    header: Seq<char>,
) -> (hs: Seq<Seq<char>>)
    requires
        f == mid,
        read_current_column(o, mid, rowid, header_idx, table_name, header),
    ensures
        read_column(o, f, rowid, header_idx, table_name, hs),
        header == hs[header_idx as int],
{
    choose|hs: Seq<Seq<char>>|
        #[trigger] read_column(o, mid, rowid, header_idx, table_name, hs) && header == hs[header_idx as int]
}

/// A query that SQLite answered with an error or with no row.
pub open spec fn unanswered(query: Seq<char>) -> SqlExchange {
    (query, Seq::empty(), Seq::empty())
}

/// The log after counting the rows of the table whose `rowid` is `rowid` gave no
/// count that fits in 32 bits: its name could not be read, or its rows could not
/// be counted, or the count does not fit.
pub open spec fn count_failed(o: Seq<SqlExchange>, f: Seq<SqlExchange>, rowid: u16) -> bool {
    ||| f == o.push(unanswered(spec_table_name_query(rowid)))
    ||| exists|t: Seq<char>|
        #[trigger] read_name(o, f.drop_last(), rowid, t) && f.len() > 0 && f.last() == unanswered(
            spec_count_rows_query(t),
        )
    ||| exists|t: Seq<char>, n: i64| #[trigger] rows_counted(o, f, rowid, t, n) && !(0 <= n <= u32::MAX)
}

/// `total` is the number of rows of the table whose `rowid` is `rowid` as the log
/// shows it was counted, and `None` where the log shows the count failed.
pub open spec fn count_read_as(o: Seq<SqlExchange>, f: Seq<SqlExchange>, rowid: u16, total: Option<u32>) -> bool {
    match total {
        Some(c) => exists|t: Seq<char>, n: i64| #[trigger] rows_counted(o, f, rowid, t, n) && c == n,
        None => count_failed(o, f, rowid),
    }
}

/// An exact search starts after the current row: the first row of the page plus
/// the selected row (the first row of the page without a selection), as long as
/// that fits in 32 bits; it never starts before the page.
pub proof fn lemma_search_starts_at_cursor(row_offset: u32, selected: Option<usize>)
    ensures
        forall|i: usize|
            selected == Some(i) && row_offset + i <= u32::MAX ==> #[trigger] spec_search_start(
                row_offset,
                Some(i),
            ) == row_offset + i,
        selected is None ==> spec_search_start(row_offset, selected) == row_offset,
        row_offset <= spec_search_start(row_offset, selected) <= u32::MAX,
{
}

/// A count of rows takes two entries of the log.
proof fn lemma_rows_counted_len(o: Seq<SqlExchange>, f: Seq<SqlExchange>, rowid: u16)
    requires
        f.len() < o.len() + 2,
    ensures
        forall|t: Seq<char>, n: i64| !#[trigger] rows_counted(o, f, rowid, t, n),
{
    assert forall|t: Seq<char>, n: i64| !#[trigger] rows_counted(o, f, rowid, t, n) by {
        if rows_counted(o, f, rowid, t, n) {
            assert(f.len() == o.len() + 2);
        }
    }
}

/// The log tells which count of rows was read.
proof fn lemma_rows_counted_unique(
    o: Seq<SqlExchange>,
    f: Seq<SqlExchange>,
    rowid: u16,
    t: Seq<char>,
    n: i64,
    t2: Seq<char>,
    n2: i64,
)
    requires
        rows_counted(o, f, rowid, t, n),
        rows_counted(o, f, rowid, t2, n2),
    ensures
        n == n2,
{
    let e = f.last();
    assert(e == int_exchange(spec_count_rows_query(t), Seq::empty(), n));
    assert(e == int_exchange(spec_count_rows_query(t2), Seq::empty(), n2));
    assert(e.2[0][0] == CellValue::Integer(n));
    assert(e.2[0][0] == CellValue::Integer(n2));
}

/// The selected row, the first where none is selected.
pub open spec fn selected_index(selected: Option<usize>) -> nat {
    match selected {
        Some(i) => i as nat,
        None => 0,
    }
}

/// A number read from the database, if it fits in 16 bits.
fn to_u16(n: i64) -> (r: AppResult<u16>)
    ensures
        r matches Ok(v) ==> v as int == n,
        r is Ok <==> 0 <= n <= u16::MAX,
{
    if 0 <= n && n <= 0xffff {
        Ok(n as u16)
    } else {
        Err(AppError::Other(String::from_str("value out of range")))
    }
}

/// The key of the first table of the database.
pub const FIRST_TABLE_QUERY: &'static str = "SELECT rowid FROM sqlite_master WHERE type='table' ORDER BY rowid LIMIT 1;";

/// The positions that commands other than table switches leave as they were.
pub open spec fn same_editing_state(a: &Database, b: &Database) -> bool {
    &&& a.input@ == b.input@
    &&& a.character_index == b.character_index
    &&& a.queued_command == b.queued_command
    &&& a.last_command == b.last_command
    &&& a.input_mode_state_machine == b.input_mode_state_machine
}

impl Database {
    /// Opens the database on `connection`, on its first table (on none, for a
    /// database without tables), and registers the regular-expression SQL functions.
    /// The log starts with the query for the first table and its answer.
    pub fn new(connection: rusqlite::Connection) -> (r: AppResult<Self>)
        ensures
            r matches Ok(d) ==> {
                &&& d.header_idx == 0
                &&& d.order_column@ == "id"@
                &&& d.is_asc_order
                &&& d.input@.len() == 0
                &&& d.character_index == 0
                &&& d.queued_command is None
                &&& d.last_command.command == Command::NoCommand
                &&& d.last_command.message is None
                &&& d.input_mode_state_machine.mode() == InputMode::Normal
                &&& d.slice.headers@.len() == 0
                &&& d.slice.data_rows@.len() == 0
                &&& d.slice.row_offset == 0
                &&& d.slice.table_state.selected is None
                &&& !d.slice.is_unchanged
                &&& d.sql_functions@ == spec_custom_functions()
                &&& d.sent@.len() == 0
                &&& d.log@.len() == 1
                &&& d.log@[0].0 == FIRST_TABLE_QUERY@
                &&& d.log@[0].1.len() == 0
                &&& (d.log@[0].2 == seq![seq![CellValue::Integer(d.current_table_idx as i64)]]
                    || (d.log@[0].2.len() == 0 && d.current_table_idx == 0))
            },
    {
        let first = match sql_query_optional_int(&connection, FIRST_TABLE_QUERY) {
            Ok(first) => first,
            Err(e) => return Err(AppError::Sqlite(e)),
        };
        let ghost answer: Seq<Seq<CellValue>> = match first {
            Some(n) => seq![seq![CellValue::Integer(n)]],
            None => Seq::empty(),
        };
        let rowid = match first {
            Some(n) => to_u16(n)?,
            None => 0,
        };
        let slice = DatabaseSlice::new(Vec::new(), Vec::new(), TableState::default(), 0, 0);
        let mut database = Database {
            connection,
            header_idx: 0,
            order_column: String::from_str("id"),
            is_asc_order: true,
            current_table_idx: rowid,
            slice,
            input: String::new(),
            character_index: 0,
            queued_command: None,
            last_command: PreviousCommand::new(Command::NoCommand, None),
            input_mode_state_machine: StateMachine::new(),
            fetched: Ghost((Seq::empty(), Seq::empty(), Seq::empty())),
            sql_functions: Ghost(Seq::empty()),
            sent: Ghost(Seq::empty()),
            log: Ghost(Seq::empty()),
        };
        let ghost first_exchange: SqlExchange = (FIRST_TABLE_QUERY@, Seq::empty(), answer);
        let ghost entries: Seq<SqlExchange> = seq![first_exchange];
        database.log = Ghost(entries);
        match add_custom_functions(&database.connection) {
            Ok(registered) => {
                database.sql_functions = Ghost(registered_views(registered@));
                Ok(database)
            },
            Err(err) => Err(AppError::Sqlite(err)),
        }
    }

    /// The name of the table that the user is on.
    pub fn get_current_table_name(&mut self) -> (r: AppResult<String>)
        ensures
            same_but_logs(*old(self), *final(self)),
            final(self).sent == old(self).sent,
            r matches Ok(name) ==> read_name(old(self).log@, final(self).log@, old(self).current_table_idx, name@),
            r is Err ==> final(self).log == old(self).log,
            r matches Err(e) ==> e is Sqlite,
    {
        let query = table_name_query(self.current_table_idx);
        match sql_query_text(&self.connection, query.as_str()) {
            Ok(name) => {
                proof {
                    self.log = Ghost(self.log@.push(name_exchange(self.current_table_idx, name@)));
                }
                Ok(name)
            },
            Err(e) => Err(AppError::Sqlite(e)),
        }
    }

    /// The names of all tables, in the order they were created.
    pub fn get_table_names(&mut self) -> (r: AppResult<Vec<String>>)
        ensures
            same_but_logs(*old(self), *final(self)),
            final(self).sent == old(self).sent,
            r matches Ok(names) ==> final(self).log@ == old(self).log@.push(
                (spec_table_names_query(), Seq::empty(), text_rows(string_views(names@))),
            ),
            r is Err ==> final(self).log == old(self).log,
            r matches Err(e) ==> e is Sqlite,
    {
        match sql_query_column(
            &self.connection,
            "SELECT name FROM sqlite_master WHERE type='table' ORDER BY rowid;",
            0,
        ) {
            Ok(names) => {
                proof {
                    self.log = Ghost(self.log@.push(
                        (spec_table_names_query(), Seq::empty(), text_rows(string_views(names@))),
                    ));
                }
                Ok(names)
            },
            Err(e) => Err(AppError::Sqlite(e)),
        }
    }

    /// The column names of `table_name`, in order.
    pub fn get_headers(&mut self, table_name: &str) -> (r: AppResult<Vec<String>>)
        ensures
            same_but_logs(*old(self), *final(self)),
            final(self).sent == old(self).sent,
            r matches Ok(names) ==> final(self).log@ == old(self).log@.push(
                headers_exchange(table_name@, string_views(names@)),
            ),
            r is Err ==> final(self).log == old(self).log,
            r matches Err(e) ==> e is Sqlite,
    {
        let query = headers_query(table_name);
        match sql_query_column(&self.connection, query.as_str(), 1) {
            Ok(names) => {
                proof {
                    self.log = Ghost(self.log@.push(headers_exchange(table_name@, string_views(names@))));
                }
                Ok(names)
            },
            Err(e) => Err(AppError::Sqlite(e)),
        }
    }

    /// The name and the columns of the current table.
    fn current_columns(&mut self) -> (r: AppResult<(String, Vec<String>)>)
        ensures
            same_but_logs(*old(self), *final(self)),
            final(self).sent == old(self).sent,
            r matches Ok((t, hs)) ==> read_columns(
                old(self).log@,
                final(self).log@,
                old(self).current_table_idx,
                t@,
                string_views(hs@),
            ),
            r matches Err(e) ==> e is Sqlite,
    {
        let table_name = self.get_current_table_name()?;
        let headers = self.get_headers(table_name.as_str())?;
        Ok((table_name, headers))
    }

    /// The name of the current table and of the column that the user is on; an
    /// error where the table has no such column.
    fn current_column(&mut self) -> (r: AppResult<(String, String)>)
        ensures
            same_but_logs(*old(self), *final(self)),
            final(self).sent == old(self).sent,
            r matches Ok((t, h)) ==> read_current_column(
                old(self).log@,
                final(self).log@,
                old(self).current_table_idx,
                old(self).header_idx,
                t@,
                h@,
            ),
            r matches Err(e) ==> e is Sqlite || e is Other,
    {
        let (table_name, headers) = self.current_columns()?;
        let header = header_at(&headers, self.header_idx)?;
        proof {
            assert(header@ == string_views(headers@)[old(self).header_idx as int]);
            assert(read_column(
                old(self).log@,
                self.log@,
                old(self).current_table_idx,
                old(self).header_idx,
                table_name@,
                string_views(headers@),
            ));
            assert(read_current_column(
                old(self).log@,
                self.log@,
                old(self).current_table_idx,
                old(self).header_idx,
                table_name@,
                header@,
            ));
        }
        Ok((table_name, header))
    }

    /// The number of columns of the current table, cut to 16 bits.
    pub fn count_headers(&mut self) -> (r: AppResult<u16>)
        ensures
            same_but_logs(*old(self), *final(self)),
            final(self).sent == old(self).sent,
            r matches Ok(n) ==> exists|t: Seq<char>, hs: Seq<Seq<char>>|
                #[trigger] read_columns(old(self).log@, final(self).log@, old(self).current_table_idx, t, hs)
                    && n == hs.len() as u16,
            r matches Err(e) ==> e is Sqlite,
    {
        let (table_name, headers) = self.current_columns()?;
        proof {
            assert(read_columns(
                old(self).log@,
                self.log@,
                old(self).current_table_idx,
                table_name@,
                string_views(headers@),
            ));
        }
        Ok(#[verifier::truncate] (headers.len() as u16))
    }

    /// The name of the column that the user is on; an error where the current table
    /// has no such column.
    pub fn get_current_header(&mut self) -> (r: AppResult<String>)
        ensures
            same_but_logs(*old(self), *final(self)),
            final(self).sent == old(self).sent,
            r matches Ok(h) ==> read_current_header(
                old(self).log@,
                final(self).log@,
                old(self).current_table_idx,
                old(self).header_idx,
                h@,
            ),
            r matches Err(e) ==> e is Sqlite || e is Other,
    {
        let (table_name, header) = self.current_column()?;
        proof {
            assert(read_current_column(
                old(self).log@,
                self.log@,
                old(self).current_table_idx,
                old(self).header_idx,
                table_name@,
                header@,
            ));
            assert(read_current_header(
                old(self).log@,
                self.log@,
                old(self).current_table_idx,
                old(self).header_idx,
                header@,
            ));
        }
        Ok(header)
    }

    /// The number of rows of the current table, where it can be counted.
    pub fn count_rows(&mut self) -> (r: Option<u32>)
        ensures
            same_but_logs(*old(self), *final(self)),
            final(self).sent == old(self).sent,
            r matches Some(c) ==> exists|t: Seq<char>, n: i64|
                #[trigger] rows_counted(old(self).log@, final(self).log@, old(self).current_table_idx, t, n)
                    && c == n,
            forall|t: Seq<char>, n: i64|
                #[trigger] rows_counted(old(self).log@, final(self).log@, old(self).current_table_idx, t, n)
                    ==> (r is Some <==> 0 <= n <= u32::MAX),
            r is None ==> count_failed(old(self).log@, final(self).log@, old(self).current_table_idx),
    {
        let table_name = match self.get_current_table_name() {
            Ok(t) => t,
            Err(_) => {
                proof {
                    self.log = Ghost(self.log@.push(unanswered(spec_table_name_query(old(self).current_table_idx))));
                    lemma_rows_counted_len(old(self).log@, self.log@, old(self).current_table_idx);
                }
                return None;
            },
        };
        let query = count_rows_query(table_name.as_str());
        match sql_query_int(&self.connection, query.as_str()) {
            Ok(n) => {
                proof {
                    self.log = Ghost(self.log@.push(int_exchange(query@, Seq::empty(), n)));
                    assert(rows_counted(old(self).log@, self.log@, old(self).current_table_idx, table_name@, n));
                    assert forall|t: Seq<char>, n2: i64|
                        #[trigger] rows_counted(old(self).log@, self.log@, old(self).current_table_idx, t, n2)
                        implies n2 == n by {
                        lemma_rows_counted_unique(old(self).log@, self.log@, old(self).current_table_idx, table_name@, n, t, n2);
                    }
                }
                row_count_of(n)
            },
            Err(_) => {
                let ghost mid = self.log@;
                proof {
                    self.log = Ghost(self.log@.push(unanswered(query@)));
                    assert(self.log@.drop_last() =~= mid);
                    assert(read_name(old(self).log@, self.log@.drop_last(), old(self).current_table_idx, table_name@));
                    assert forall|t: Seq<char>, n2: i64|
                        !#[trigger] rows_counted(old(self).log@, self.log@, old(self).current_table_idx, t, n2) by {
                        if rows_counted(old(self).log@, self.log@, old(self).current_table_idx, t, n2) {
                            assert(self.log@.last().2.len() == 1);
                        }
                    }
                }
                None
            },
        }
    }

    /// The header and `limit` rows, from row `offset` on, of `table_name` in the
    /// chosen order. The header is the table's columns as SQLite lists them; a page
    /// whose rows do not have one cell per column is refused. The rows are kept as
    /// the page on screen; where the page is marked as unchanged, the kept page is
    /// given instead.
    pub fn get(&mut self, limit: u32, offset: u32, table_name: String) -> (r: AppResult<DataTable>)
        ensures
            same_editing_state(&*final(self), &*old(self)),
            final(self).sent == old(self).sent,
            final(self).header_idx == old(self).header_idx,
            final(self).order_column@ == old(self).order_column@,
            final(self).is_asc_order == old(self).is_asc_order,
            final(self).current_table_idx == old(self).current_table_idx,
            final(self).slice.table_state == old(self).slice.table_state,
            final(self).slice.row_offset == old(self).slice.row_offset,
            old(self).slice.is_unchanged ==> {
                &&& r matches Ok(t) && string_views(t.0@) == string_views(
                    old(self).slice.headers@,
                ) && row_views(t.1@) == row_views(old(self).slice.data_rows@)
                &&& final(self).slice.headers@ == old(self).slice.headers@
                &&& final(self).slice.data_rows@ == old(self).slice.data_rows@
                &&& final(self).slice.is_unchanged
                &&& final(self).log == old(self).log
            },
            !old(self).slice.is_unchanged ==> {
                &&& !final(self).slice.is_unchanged
                &&& r matches Ok(t) ==> string_views(t.0@) == string_views(
                    final(self).slice.headers@,
                ) && row_views(t.1@) == row_views(final(self).slice.data_rows@)
                &&& r is Err ==> final(self).slice.headers@ == old(self).slice.headers@
                    && final(self).slice.data_rows@ == old(self).slice.data_rows@
                &&& r matches Ok(t) ==> {
                    &&& final(self).fetched@.0 == spec_page_query(
                        table_name@,
                        old(self).order_column@,
                        old(self).is_asc_order,
                        limit as nat,
                        offset as nat,
                    )
                    &&& final(self).log@ == old(self).log@.push(
                        headers_exchange(table_name@, final(self).fetched@.1),
                    )
                    &&& string_views(t.0@) == final(self).fetched@.1
                    &&& row_views(t.1@) == spec_page_values(final(self).fetched@.2)
                    &&& forall|k: int|
                        0 <= k < final(self).fetched@.2.len() ==> (#[trigger] final(self).fetched@.2[k])@.len()
                            == final(self).fetched@.1.len()
                }
            },
    {
        if self.slice.is_unchanged() {
            let headers = self.slice.headers.clone();
            let rows = clone_rows(&self.slice.data_rows);
            proof {
                assert(string_views(headers@) =~= string_views(self.slice.headers@));
            }
            Ok((headers, rows))
        } else {
            let headers = self.get_headers(table_name.as_str())?;
            let query = page_query(
                table_name.as_str(),
                self.order_column.as_str(),
                self.is_asc_order,
                limit,
                offset,
            );
            let (count, cells) = match sql_query_table(&self.connection, query.as_str()) {
                Ok(t) => t,
                Err(e) => return Err(AppError::Sqlite(e)),
            };
            if count != headers.len() {
                return Err(AppError::Other(String::from_str("the columns changed while reading")));
            }
            proof {
                self.fetched = Ghost((query@, string_views(headers@), cells@));
            }
            let data_rows = rows_from_cells(cells)?;
            self.slice.data_rows = clone_rows(&data_rows);
            self.slice.headers = headers.clone();
            self.slice.has_changed();
            proof {
                assert(string_views(headers@) =~= string_views(self.slice.headers@));
            }
            Ok((headers, data_rows))
        }
    }

    /// Moves the cursor one column, or one row (on pages of `height` rows).
    pub fn move_cursor(&mut self, direction: Direction, height: u32) -> (r: AppResult<()>)
        requires
            direction == Direction::Up || direction == Direction::Down ==> height >= 1,
        ensures
            same_editing_state(&*final(self), &*old(self)),
            final(self).current_table_idx == old(self).current_table_idx,
            final(self).order_column@ == old(self).order_column@,
            final(self).is_asc_order == old(self).is_asc_order,
            spec_moved(*old(self), *final(self), direction, height),
            direction == Direction::Up || direction == Direction::Down ==> r is Ok,
            direction == Direction::Down ==> exists|total: Option<u32>|
                #[trigger] count_read_as(old(self).log@, final(self).log@, old(self).current_table_idx, total)
                    && super::db_slice::spec_next_row(
                    old(self).slice.table_state.selected,
                    old(self).slice.row_offset,
                    height,
                    total,
                ) == (final(self).slice.table_state.selected.unwrap(), final(self).slice.row_offset),
            direction == Direction::Right ==> (r is Ok ==> exists|count: u16|
                count > 0 && final(self).header_idx == spec_next_header(old(self).header_idx, count)),
            direction == Direction::Left ==> (r is Ok ==> exists|count: u16|
                (old(self).header_idx > 0 || count > 0) && final(self).header_idx
                    == spec_previous_header(old(self).header_idx, count)),
    {
        match direction {
            Direction::Left => self.previous_header(),
            Direction::Right => self.next_header(),
            Direction::Up => {
                self.previous_row(height);
                Ok(())
            },
            Direction::Down => {
                self.next_row(height);
                Ok(())
            },
        }
    }

    /// Moves to the next column, wrapping to the first. A table without columns is
    /// refused.
    pub fn next_header(&mut self) -> (r: AppResult<()>)
        ensures
            same_editing_state(&*final(self), &*old(self)),
            final(self).slice == old(self).slice,
            final(self).current_table_idx == old(self).current_table_idx,
            final(self).order_column@ == old(self).order_column@,
            final(self).is_asc_order == old(self).is_asc_order,
            r is Ok ==> exists|count: u16|
                count > 0 && final(self).header_idx == spec_next_header(old(self).header_idx, count),
            r is Ok ==> exists|t: Seq<char>, hs: Seq<Seq<char>>|
                #[trigger] read_columns(old(self).log@, final(self).log@, old(self).current_table_idx, t, hs)
                    && hs.len() as u16 > 0
                    && final(self).header_idx == spec_next_header(old(self).header_idx, hs.len() as u16),
            r is Err ==> final(self).header_idx == old(self).header_idx,
    {
        let count = self.count_headers()?;
        if count == 0 {
            return Err(AppError::Other(String::from_str("the table has no columns")));
        }
        self.header_idx = next_header_index(self.header_idx, count);
        proof {
            let (t, hs) = choose|t: Seq<char>, hs: Seq<Seq<char>>|
                #[trigger] read_columns(old(self).log@, self.log@, old(self).current_table_idx, t, hs)
                    && count == hs.len() as u16;
            assert(read_columns(old(self).log@, self.log@, old(self).current_table_idx, t, hs));
        }
        Ok(())
    }

    /// Moves to the column before, wrapping to the last. From the first column of a
    /// table without columns, it is refused.
    pub fn previous_header(&mut self) -> (r: AppResult<()>)
        ensures
            same_editing_state(&*final(self), &*old(self)),
            final(self).slice == old(self).slice,
            final(self).current_table_idx == old(self).current_table_idx,
            final(self).order_column@ == old(self).order_column@,
            final(self).is_asc_order == old(self).is_asc_order,
            old(self).header_idx > 0 ==> r is Ok && final(self).header_idx == old(self).header_idx - 1
                && final(self).log == old(self).log,
            old(self).header_idx == 0 && r is Ok ==> exists|t: Seq<char>, hs: Seq<Seq<char>>|
                #[trigger] read_columns(old(self).log@, final(self).log@, old(self).current_table_idx, t, hs)
                    && hs.len() as u16 > 0 && final(self).header_idx == (hs.len() as u16) - 1,
            r is Ok ==> exists|count: u16|
                (old(self).header_idx > 0 || count > 0) && final(self).header_idx
                    == spec_previous_header(old(self).header_idx, count),
            r is Err ==> final(self).header_idx == old(self).header_idx,
    {
        if self.header_idx == 0 {
            let count = self.count_headers()?;
            if count == 0 {
                return Err(AppError::Other(String::from_str("the table has no columns")));
            }
            self.header_idx = previous_header_index(0, count);
            proof {
                let (t, hs) = choose|t: Seq<char>, hs: Seq<Seq<char>>|
                    #[trigger] read_columns(old(self).log@, self.log@, old(self).current_table_idx, t, hs)
                        && count == hs.len() as u16;
                assert(read_columns(old(self).log@, self.log@, old(self).current_table_idx, t, hs));
            }
        } else {
            self.header_idx = previous_header_index(self.header_idx, 1);
        }
        Ok(())
    }

    /// Moves the selection one row down, turning the page where it ends.
    pub fn next_row(&mut self, height: u32)
        requires
            height >= 1,
        ensures
            same_editing_state(&*final(self), &*old(self)),
            final(self).header_idx == old(self).header_idx,
            final(self).current_table_idx == old(self).current_table_idx,
            final(self).order_column@ == old(self).order_column@,
            final(self).is_asc_order == old(self).is_asc_order,
            final(self).slice.headers == old(self).slice.headers,
            final(self).slice.data_rows == old(self).slice.data_rows,
            exists|total: Option<u32>|
                #[trigger] super::db_slice::spec_next_row(
                    old(self).slice.table_state.selected,
                    old(self).slice.row_offset,
                    height,
                    total,
                ) == (final(self).slice.table_state.selected.unwrap(), final(self).slice.row_offset),
            exists|total: Option<u32>|
                #[trigger] count_read_as(old(self).log@, final(self).log@, old(self).current_table_idx, total)
                    && super::db_slice::spec_next_row(
                    old(self).slice.table_state.selected,
                    old(self).slice.row_offset,
                    height,
                    total,
                ) == (final(self).slice.table_state.selected.unwrap(), final(self).slice.row_offset),
            final(self).slice.table_state.selected is Some,
    {
        let total = self.count_rows();
        proof {
            assert(count_read_as(old(self).log@, self.log@, old(self).current_table_idx, total));
        }
        self.slice.next_row(height, total);
        proof {
            assert(count_read_as(old(self).log@, self.log@, old(self).current_table_idx, total));
            assert(super::db_slice::spec_next_row(
                old(self).slice.table_state.selected,
                old(self).slice.row_offset,
                height,
                total,
            ) == (self.slice.table_state.selected.unwrap(), self.slice.row_offset));
        }
    }

    /// Selects row `value` of the page.
    pub fn set_current_row(&mut self, value: usize)
        ensures
            final(self).slice.table_state.selected == Some(value),
            final(self).slice.row_offset == old(self).slice.row_offset,
            same_editing_state(&*final(self), &*old(self)),
            final(self).header_idx == old(self).header_idx,
            final(self).current_table_idx == old(self).current_table_idx,
    {
        self.slice.table_state.select(Some(value));
    }

    /// Moves the selection one row up, turning back a page where it begins.
    pub fn previous_row(&mut self, height: u32)
        requires
            height >= 1 || !super::db_slice::spec_previous_row_turns_page(
                old(self).slice.table_state.selected,
                old(self).slice.row_offset,
            ),
        ensures
            same_editing_state(&*final(self), &*old(self)),
            final(self).header_idx == old(self).header_idx,
            final(self).current_table_idx == old(self).current_table_idx,
            final(self).order_column@ == old(self).order_column@,
            final(self).is_asc_order == old(self).is_asc_order,
            final(self).slice.headers == old(self).slice.headers,
            final(self).slice.data_rows == old(self).slice.data_rows,
            ({
                let (sel, off) = super::db_slice::spec_previous_row(
                    old(self).slice.table_state.selected,
                    old(self).slice.row_offset,
                    height,
                );
                final(self).slice.table_state.selected == Some(sel) && final(self).slice.row_offset
                    == off
            }),
    {
        self.slice.previous_row(height);
    }

    /// The value of column `header` in the row whose `id` is `id`; an error where
    /// there is no such row.
    pub fn get_cell(&mut self, id: i32, header: &str) -> (r: AppResult<String>)
        ensures
            same_but_logs(*old(self), *final(self)),
            final(self).sent == old(self).sent,
            r matches Ok(cell) ==> cell_answered(
                old(self).log@,
                final(self).log@,
                old(self).current_table_idx,
                header@,
                id,
                cell@,
            ),
            r matches Err(e) ==> e is Sqlite || e is Other,
    {
        let table_name = self.get_current_table_name()?;
        let query = cell_query(header, table_name.as_str());
        match sql_query_text_with_int(&self.connection, query.as_str(), id) {
            Ok(Some(cell)) => {
                proof {
                    self.log = Ghost(self.log@.push(
                        (query@, seq![CellValue::Integer(id as i64)], seq![seq![CellValue::Text(cell@)]]),
                    ));
                    assert(cell_read(
                        old(self).log@,
                        self.log@,
                        old(self).current_table_idx,
                        table_name@,
                        header@,
                        id,
                        cell@,
                    ));
                    assert(cell_answered(
                        old(self).log@,
                        self.log@,
                        old(self).current_table_idx,
                        header@,
                        id,
                        cell@,
                    ));
                }
                Ok(cell)
            },
            Ok(None) => Err(AppError::Other(String::from_str("no row with this id"))),
            Err(e) => Err(AppError::Sqlite(e)),
        }
    }

    /// Runs `sql` in one transaction, and rolls it back where it fails.
    pub fn execute_batch(&mut self, sql: &str) -> (r: AppResult<()>)
        ensures
            same_but_logs(*old(self), *final(self)),
            final(self).log == old(self).log,
            r is Ok ==> sent_after(old(self).sent@, final(self).sent@, sql@),
            r is Err ==> sent_rolled_back(old(self).sent@, final(self).sent@, sql@),
            r matches Err(e) ==> e is Sqlite,
    {
        let query = transaction_query(sql);
        self.sent = Ghost(self.sent@.push(query@));
        match sql_execute_batch(&self.connection, query.as_str()) {
            Ok(()) => Ok(()),
            Err(err) => {
                let rollback = "ROLLBACK;";
                proof {
                    reveal_strlit("ROLLBACK;");
                }
                self.sent = Ghost(self.sent@.push(rollback@));
                if let Err(e) = sql_execute(&self.connection, rollback) {
                    return Err(AppError::Sqlite(e));
                }
                Err(AppError::Sqlite(err))
            },
        }
    }

    /// Adds the column `derived{column_name}` to the current table, holding `fun` of
    /// each value of `column_name` (the text NULL where `fun` gives nothing).
    pub fn derive_column<F>(&mut self, column_name: String, fun: F) -> (r: AppResult<()>) where
        F: Fn(String) -> Option<String>,
        requires
            forall|s: String| #[trigger] call_requires(fun, (s,)),
        ensures
            same_but_logs(*old(self), *final(self)),
            final(self).sent@ == old(self).sent@ || exists|t: Seq<char>, rows: Seq<(i32, String)>, q: Seq<char>|
                #[trigger] column_derived(
                    fun,
                    old(self).log@,
                    final(self).log@,
                    old(self).current_table_idx,
                    t,
                    column_name@,
                    rows,
                    q,
                ) && sent_tried(old(self).sent@, final(self).sent@, q),
            r is Ok ==> exists|t: Seq<char>, rows: Seq<(i32, String)>, q: Seq<char>|
                #[trigger] column_derived(
                    fun,
                    old(self).log@,
                    final(self).log@,
                    old(self).current_table_idx,
                    t,
                    column_name@,
                    rows,
                    q,
                ) && sent_after(old(self).sent@, final(self).sent@, q),
            r matches Err(e) ==> e is Sqlite,
    {
        let table_name = self.get_current_table_name()?;
        let query = id_and_column_query(column_name.as_str(), table_name.as_str());
        let rows = match sql_query_int_text_pairs(&self.connection, query.as_str()) {
            Ok(rows) => rows,
            Err(e) => return Err(AppError::Sqlite(e)),
        };
        proof {
            self.log = Ghost(self.log@.push((query@, Seq::empty(), pair_rows(rows@))));
        }
        let mut derived_column_name = String::from_str("derived");
        derived_column_name.append(column_name.as_str());
        let transaction = derive_column_statements(
            table_name.as_str(),
            derived_column_name.as_str(),
            &rows,
            &fun,
        );
        proof {
            assert(column_derived(
                fun,
                old(self).log@,
                self.log@,
                old(self).current_table_idx,
                table_name@,
                column_name@,
                rows@,
                transaction@,
            ));
        }
        self.execute_batch(transaction.as_str())
    }

    /// The `rowid` of the selected row, counted from the start of the table.
    pub fn get_current_id(&mut self) -> (r: AppResult<i32>)
        ensures
            same_but_logs(*old(self), *final(self)),
            final(self).sent == old(self).sent,
            r matches Ok(v) ==> exists|t: Seq<char>, n: i64|
                #[trigger] row_id_read(
                    old(self).log@,
                    final(self).log@,
                    old(self).current_table_idx,
                    t,
                    selected_index(old(self).slice.table_state.selected),
                    n,
                ) && v == n,
            r matches Err(e) ==> e is Sqlite || e is Other,
    {
        let i = match self.slice.table_state.selected() {
            Some(i) => i,
            None => 0,
        };
        let table_name = self.get_current_table_name()?;
        let query = row_id_query(table_name.as_str(), i as u64);
        match sql_query_int(&self.connection, query.as_str()) {
            Ok(n) => {
                proof {
                    self.log = Ghost(self.log@.push(int_exchange(query@, Seq::empty(), n)));
                    assert(selected_index(old(self).slice.table_state.selected) == i as nat);
                    assert(row_id_read(
                        old(self).log@,
                        self.log@,
                        old(self).current_table_idx,
                        table_name@,
                        selected_index(old(self).slice.table_state.selected),
                        n,
                    ));
                }
                row_id_of(n)
            },
            Err(e) => Err(AppError::Sqlite(e)),
        }
    }

    /// Sorts by the current column: the first time ascending, and each time again
    /// in the other direction. The selection goes back to the first row.
    pub fn sort(&mut self) -> (r: AppResult<()>)
        ensures
            same_editing_state(&*final(self), &*old(self)),
            final(self).sent == old(self).sent,
            final(self).header_idx == old(self).header_idx,
            final(self).current_table_idx == old(self).current_table_idx,
            final(self).slice.row_offset == old(self).slice.row_offset,
            r is Ok ==> {
                &&& final(self).slice.table_state.selected == Some(0usize)
                &&& exists|t: Seq<char>, hs: Seq<Seq<char>>|
                    #[trigger] read_column(
                        old(self).log@,
                        final(self).log@,
                        old(self).current_table_idx,
                        old(self).header_idx,
                        t,
                        hs,
                    ) && (final(self).order_column@, final(self).is_asc_order) == spec_sort_order(
                        old(self).order_column@,
                        old(self).is_asc_order,
                        hs[old(self).header_idx as int],
                    )
            },
            r is Err ==> final(self).order_column@ == old(self).order_column@
                && final(self).is_asc_order == old(self).is_asc_order,
    {
        let header = self.get_current_header()?;
        let ghost mid = self.log@;
        self.slice.table_state.select(Some(0));
        let (order_column, is_asc) = next_sort_order(
            self.order_column.as_str(),
            self.is_asc_order,
            header.as_str(),
        );
        self.order_column = order_column;
        self.is_asc_order = is_asc;
        proof {
            let t = choose|t: Seq<char>|
                #[trigger] read_current_column(
                    old(self).log@,
                    mid,
                    old(self).current_table_idx,
                    old(self).header_idx,
                    t,
                    header@,
                );
            let hs = column_read_kept(
                old(self).log@,
                mid,
                self.log@,
                old(self).current_table_idx,
                old(self).header_idx,
                t,
                header@,
            );
        }
        Ok(())
    }

    /// Keeps, in a new table `{table}RegexFiltered`, the rows of the current table
    /// whose `header` matches `pattern`, and moves to the new table. An invalid
    /// pattern is refused before anything is read.
    pub fn regex_filter(&mut self, header: &str, pattern: &str) -> (r: AppResult<()>)
        ensures
            final(self).sent == old(self).sent,
            final(self).fetched == old(self).fetched,
            same_editing_state(&*final(self), &*old(self)),
            final(self).header_idx == old(self).header_idx,
            final(self).slice == old(self).slice,
            !regex_is_valid(pattern@) ==> (r matches Err(e) && e is Regex) && *final(self) == *old(self),
            r is Ok ==> exists|t: Seq<char>, n: i64|
                #[trigger] filtered_into_new_table(
                    old(self).log@,
                    final(self).log@,
                    old(self).current_table_idx,
                    t,
                    header@,
                    pattern@,
                    n,
                ) && final(self).current_table_idx == n,
            r is Err ==> final(self).current_table_idx == old(self).current_table_idx,
    {
        validate_regex(pattern)?;
        let table_name = self.get_current_table_name()?;
        let query = regex_filter_query(header, pattern, table_name.as_str())?;
        proof {
            self.log = Ghost(self.log@.push(statement_exchange(query@, Seq::empty())));
        }
        if let Err(e) = sql_execute(&self.connection, query.as_str()) {
            return Err(AppError::Sqlite(e));
        }
        let ghost mid = self.log@;
        self.next_table()?;
        proof {
            let n = choose|n: i64| #[trigger] read_neighbour(mid, self.log@, old(self).current_table_idx, true, n)
                && self.current_table_idx == n;
            assert(filtered_into_new_table(
                old(self).log@,
                self.log@,
                old(self).current_table_idx,
                table_name@,
                header@,
                pattern@,
                n,
            ));
        }
        Ok(())
    }

    /// Adds a column holding `header` with its first match of `pattern` replaced by
    /// `transformation`. An invalid pattern is refused before anything is read.
    pub fn regex_capture_group_transform(&mut self, pattern: &str, header: &str, transformation: &str) -> (r: AppResult<()>)
        ensures
            same_but_logs(*old(self), *final(self)),
            final(self).sent@ == old(self).sent@ || exists|t: Seq<char>|
                #[trigger] read_name(old(self).log@, final(self).log@, old(self).current_table_idx, t)
                    && sent_tried(old(self).sent@, final(self).sent@, spec_regex_with_capture_group_transform_query(header@, pattern@, transformation@, t)),
            r is Ok ==> exists|t: Seq<char>|
                #[trigger] read_name(old(self).log@, final(self).log@, old(self).current_table_idx, t)
                    && sent_after(old(self).sent@, final(self).sent@, spec_regex_with_capture_group_transform_query(header@, pattern@, transformation@, t)),
            !regex_is_valid(pattern@) ==> (r matches Err(e) && e is Regex) && *final(self) == *old(self),
            r matches Err(e) ==> e is Sqlite || e is Regex,
    {
        validate_regex(pattern)?;
        let table_name = self.get_current_table_name()?;
        let queries = regex_with_capture_group_transform_query(header, pattern, transformation, table_name.as_str())?;
        self.execute_batch(queries.as_str())
    }

    /// Adds a column holding the first match of `pattern` in `header`. An invalid
    /// pattern is refused before anything is read.
    pub fn regex_no_capture_group_transform(&mut self, pattern: &str, header: &str) -> (r: AppResult<()>)
        ensures
            same_but_logs(*old(self), *final(self)),
            final(self).sent@ == old(self).sent@ || exists|t: Seq<char>|
                #[trigger] read_name(old(self).log@, final(self).log@, old(self).current_table_idx, t)
                    && sent_tried(old(self).sent@, final(self).sent@, spec_regex_no_capture_group_transform_query(header@, pattern@, t)),
            r is Ok ==> exists|t: Seq<char>|
                #[trigger] read_name(old(self).log@, final(self).log@, old(self).current_table_idx, t)
                    && sent_after(old(self).sent@, final(self).sent@, spec_regex_no_capture_group_transform_query(header@, pattern@, t)),
            !regex_is_valid(pattern@) ==> (r matches Err(e) && e is Regex) && *final(self) == *old(self),
            r matches Err(e) ==> e is Sqlite || e is Regex,
    {
        validate_regex(pattern)?;
        let table_name = self.get_current_table_name()?;
        let queries = regex_no_capture_group_transform_query(header, pattern, table_name.as_str())?;
        self.execute_batch(queries.as_str())
    }

    /// Adds a copy of the current column.
    pub fn copy(&mut self) -> (r: AppResult<()>)
        ensures
            same_but_logs(*old(self), *final(self)),
            final(self).sent@ == old(self).sent@ || exists|t: Seq<char>, hs: Seq<Seq<char>>|
                #[trigger] read_column(
                    old(self).log@,
                    final(self).log@,
                    old(self).current_table_idx,
                    old(self).header_idx,
                    t,
                    hs,
                ) && sent_tried(old(self).sent@, final(self).sent@, spec_copy_column_query(t, hs[old(self).header_idx as int])),
            r is Ok ==> exists|t: Seq<char>, hs: Seq<Seq<char>>|
                #[trigger] read_column(
                    old(self).log@,
                    final(self).log@,
                    old(self).current_table_idx,
                    old(self).header_idx,
                    t,
                    hs,
                ) && sent_after(old(self).sent@, final(self).sent@, spec_copy_column_query(t, hs[old(self).header_idx as int])),
            r matches Err(e) ==> e is Sqlite || e is Other,
    {
        let (table_name, header) = self.current_column()?;
        let queries = copy_column_query(table_name.as_str(), header.as_str());
        let ghost mid = self.log@;
        let res = self.execute_batch(queries.as_str());
        proof {
            column_read_kept(old(self).log@, mid, self.log@, old(self).current_table_idx, old(self).header_idx, table_name@, header@);
        }
        res
    }

    /// Runs the user's SQL in one transaction.
    pub fn sql_query(&mut self, query: &str) -> (r: AppResult<()>)
        ensures
            same_but_logs(*old(self), *final(self)),
            final(self).log == old(self).log,
            r is Ok ==> sent_after(old(self).sent@, final(self).sent@, query@),
            r is Err ==> sent_rolled_back(old(self).sent@, final(self).sent@, query@),
            r matches Err(e) ==> e is Sqlite,
    {
        self.execute_batch(query)
    }

    /// Sets column `header` of the row whose `id` is `id` to `content`.
    pub fn update_cell(&mut self, header: &str, id: i32, content: &str) -> (r: AppResult<()>)
        ensures
            same_but_logs(*old(self), *final(self)),
            final(self).sent == old(self).sent,
            final(self).log == old(self).log || exists|t: Seq<char>|
                #[trigger] cell_update_sent(
                    old(self).log@,
                    final(self).log@,
                    old(self).current_table_idx,
                    t,
                    header@,
                    id,
                    content@,
                ),
            r is Ok ==> exists|t: Seq<char>|
                #[trigger] cell_update_sent(
                    old(self).log@,
                    final(self).log@,
                    old(self).current_table_idx,
                    t,
                    header@,
                    id,
                    content@,
                ),
            r matches Err(e) ==> e is Sqlite,
    {
        let table_name = self.get_current_table_name()?;
        let update_query = update_cell_query(table_name.as_str(), header);
        proof {
            self.log = Ghost(self.log@.push(
                statement_exchange(update_query@, seq![CellValue::Text(content@), CellValue::Integer(id as i64)]),
            ));
            assert(cell_update_sent(
                old(self).log@,
                self.log@,
                old(self).current_table_idx,
                table_name@,
                header@,
                id,
                content@,
            ));
        }
        match sql_execute_text_and_int(&self.connection, update_query.as_str(), content, id) {
            Ok(_) => Ok(()),
            Err(e) => Err(AppError::Sqlite(e)),
        }
    }

    /// Moves to the table created after the current one.
    pub fn next_table(&mut self) -> (r: AppResult<()>)
        ensures
            final(self).sent == old(self).sent,
            final(self).fetched == old(self).fetched,
            final(self).connection == old(self).connection,
            same_editing_state(&*final(self), &*old(self)),
            final(self).header_idx == old(self).header_idx,
            final(self).slice == old(self).slice,
            r is Ok ==> exists|n: i64|
                #[trigger] read_neighbour(old(self).log@, final(self).log@, old(self).current_table_idx, true, n)
                    && final(self).current_table_idx == n,
            r is Err ==> final(self).current_table_idx == old(self).current_table_idx,
            log_extends(old(self).log@, final(self).log@),
    {
        self.move_to_neighbour(true)
    }

    /// Moves to the table created before the current one.
    pub fn prev_table(&mut self) -> (r: AppResult<()>)
        ensures
            final(self).sent == old(self).sent,
            final(self).fetched == old(self).fetched,
            final(self).connection == old(self).connection,
            same_editing_state(&*final(self), &*old(self)),
            final(self).header_idx == old(self).header_idx,
            final(self).slice == old(self).slice,
            r is Ok ==> exists|n: i64|
                #[trigger] read_neighbour(old(self).log@, final(self).log@, old(self).current_table_idx, false, n)
                    && final(self).current_table_idx == n,
            r is Err ==> final(self).current_table_idx == old(self).current_table_idx,
            log_extends(old(self).log@, final(self).log@),
    {
        self.move_to_neighbour(false)
    }

    /// Moves to the table created next after the current one (`forward`) or next
    /// before it; where there is none, it is an error and nothing moves.
    fn move_to_neighbour(&mut self, forward: bool) -> (r: AppResult<()>)
        ensures
            final(self).sent == old(self).sent,
            final(self).fetched == old(self).fetched,
            final(self).connection == old(self).connection,
            same_editing_state(&*final(self), &*old(self)),
            final(self).header_idx == old(self).header_idx,
            final(self).slice == old(self).slice,
            r is Ok ==> exists|n: i64|
                #[trigger] read_neighbour(old(self).log@, final(self).log@, old(self).current_table_idx, forward, n)
                    && final(self).current_table_idx == n,
            r is Err ==> final(self).current_table_idx == old(self).current_table_idx,
            log_extends(old(self).log@, final(self).log@),
    {
        let query = neighbour_table_query(self.current_table_idx, forward);
        match sql_query_int(&self.connection, query.as_str()) {
            Ok(n) => {
                proof {
                    self.log = Ghost(self.log@.push(int_exchange(query@, Seq::empty(), n)));
                }
                let v = to_u16(n)?;
                self.current_table_idx = v;
                proof {
                    assert(read_neighbour(old(self).log@, self.log@, old(self).current_table_idx, forward, n));
                    assert(self.current_table_idx == n);
                }
                Ok(())
            },
            Err(e) => Err(AppError::Sqlite(e)),
        }
    }

    /// Jumps to the first row after the selected one, in the current order, whose
    /// column `header` equals `pattern`, on pages of `height` rows. Where there is
    /// none, it is an error and nothing moves.
    pub fn exact_search(&mut self, header: &str, pattern: &str, height: u32) -> (r: AppResult<()>)
        requires
            height >= 1,
        ensures
            final(self).sent == old(self).sent,
            final(self).fetched == old(self).fetched,
            same_editing_state(&*final(self), &*old(self)),
            final(self).header_idx == old(self).header_idx,
            final(self).current_table_idx == old(self).current_table_idx,
            final(self).slice.headers == old(self).slice.headers,
            final(self).slice.data_rows == old(self).slice.data_rows,
            r is Ok ==> exists|t: Seq<char>, row_number: u32|
                {
                    &&& #[trigger] searched(
                        old(self).log@,
                        final(self).log@,
                        old(self).current_table_idx,
                        t,
                        spec_search_ordering(old(self).order_column@, old(self).is_asc_order),
                        header@,
                        spec_search_start(old(self).slice.row_offset, old(self).slice.table_state.selected),
                        pattern@,
                        row_number as i64,
                    )
                    &&& final(self).slice.table_state.selected == Some(
                        (row_number % height) as usize,
                    )
                    &&& (row_number - row_number % height) == final(self).slice.row_offset
                },
            r is Err ==> final(self).slice == old(self).slice,
    {
        let table_name = self.get_current_table_name()?;
        let ordering = search_ordering(self.order_column.as_str(), self.is_asc_order);
        let selected = match self.slice.table_state.selected() {
            Some(i) => i,
            None => 0,
        };
        let current = (self.slice.row_offset as u64) + (if selected as u64 > 0xffff_ffff {
            0xffff_ffff
        } else {
            selected as u64
        });
        let current_row: u32 = if current > 0xffff_ffff {
            0xffff_ffff
        } else {
            current as u32
        };
        let query = exact_search_query(
            ordering.as_str(),
            header,
            current_row,
            table_name.as_str(),
        );
        let row_number: u32 = match sql_query_int_with_text(&self.connection, query.as_str(), pattern) {
            Ok(n) => if 0 <= n && n <= 0xffff_ffff {
                n as u32
            } else {
                return Err(AppError::Other(String::from_str("value out of range")));
            },
            Err(e) => return Err(AppError::Sqlite(e)),
        };
        let row_idx = row_number % height;
        proof {
            vstd::arithmetic::div_mod::lemma_mod_decreases(row_number as nat, height as nat);
            assert(current_row as nat == spec_search_start(old(self).slice.row_offset, old(self).slice.table_state.selected));
            self.log = Ghost(self.log@.push(
                int_exchange(query@, seq![CellValue::Text(pattern@)], row_number as i64),
            ));
            assert(searched(
                old(self).log@,
                self.log@,
                old(self).current_table_idx,
                table_name@,
                ordering@,
                header@,
                current_row as nat,
                pattern@,
                row_number as i64,
            ));
        }
        let row_offset = row_number - row_idx;
        self.slice.update(row_idx, row_offset);
        proof {
            assert(searched(
                old(self).log@,
                self.log@,
                old(self).current_table_idx,
                table_name@,
                spec_search_ordering(old(self).order_column@, old(self).is_asc_order),
                header@,
                spec_search_start(old(self).slice.row_offset, old(self).slice.table_state.selected),
                pattern@,
                row_number as i64,
            ));
        }
        Ok(())
    }

    /// Adds a column holding the current column as integers.
    pub fn text_to_int(&mut self) -> (r: AppResult<()>)
        ensures
            same_but_logs(*old(self), *final(self)),
            final(self).sent@ == old(self).sent@ || exists|t: Seq<char>, hs: Seq<Seq<char>>|
                #[trigger] read_column(
                    old(self).log@,
                    final(self).log@,
                    old(self).current_table_idx,
                    old(self).header_idx,
                    t,
                    hs,
                ) && sent_tried(old(self).sent@, final(self).sent@, spec_convert_into(t, hs[old(self).header_idx as int], "INT"@)),
            r is Ok ==> exists|t: Seq<char>, hs: Seq<Seq<char>>|
                #[trigger] read_column(
                    old(self).log@,
                    final(self).log@,
                    old(self).current_table_idx,
                    old(self).header_idx,
                    t,
                    hs,
                ) && sent_after(old(self).sent@, final(self).sent@, spec_convert_into(t, hs[old(self).header_idx as int], "INT"@)),
            r matches Err(e) ==> e is Sqlite || e is Other,
    {
        let (table_name, header) = self.current_column()?;
        let queries = text_to_int(table_name.as_str(), header.as_str());
        let ghost mid = self.log@;
        let res = self.execute_batch(queries.as_str());
        proof {
            column_read_kept(old(self).log@, mid, self.log@, old(self).current_table_idx, old(self).header_idx, table_name@, header@);
        }
        res
    }

    /// Adds a column holding the current column as text.
    pub fn int_to_text(&mut self) -> (r: AppResult<()>)
        ensures
            same_but_logs(*old(self), *final(self)),
            final(self).sent@ == old(self).sent@ || exists|t: Seq<char>, hs: Seq<Seq<char>>|
                #[trigger] read_column(
                    old(self).log@,
                    final(self).log@,
                    old(self).current_table_idx,
                    old(self).header_idx,
                    t,
                    hs,
                ) && sent_tried(old(self).sent@, final(self).sent@, spec_convert_into(t, hs[old(self).header_idx as int], "TEXT"@)),
            r is Ok ==> exists|t: Seq<char>, hs: Seq<Seq<char>>|
                #[trigger] read_column(
                    old(self).log@,
                    final(self).log@,
                    old(self).current_table_idx,
                    old(self).header_idx,
                    t,
                    hs,
                ) && sent_after(old(self).sent@, final(self).sent@, spec_convert_into(t, hs[old(self).header_idx as int], "TEXT"@)),
            r matches Err(e) ==> e is Sqlite || e is Other,
    {
        let (table_name, header) = self.current_column()?;
        let queries = int_to_text_query(table_name.as_str(), header.as_str());
        let ghost mid = self.log@;
        let res = self.execute_batch(queries.as_str());
        proof {
            column_read_kept(old(self).log@, mid, self.log@, old(self).current_table_idx, old(self).header_idx, table_name@, header@);
        }
        res
    }

    /// Drops the current column, and says which one it dropped.
    pub fn delete_column(&mut self) -> (r: AppResult<Option<String>>)
        ensures
            same_but_logs(*old(self), *final(self)),
            final(self).sent@ == old(self).sent@ || exists|t: Seq<char>, hs: Seq<Seq<char>>|
                #[trigger] read_column(
                    old(self).log@,
                    final(self).log@,
                    old(self).current_table_idx,
                    old(self).header_idx,
                    t,
                    hs,
                ) && sent_tried(old(self).sent@, final(self).sent@, spec_delete_column_query(t, hs[old(self).header_idx as int])),
            r is Ok ==> exists|t: Seq<char>, hs: Seq<Seq<char>>|
                #[trigger] read_column(
                    old(self).log@,
                    final(self).log@,
                    old(self).current_table_idx,
                    old(self).header_idx,
                    t,
                    hs,
                ) && sent_after(old(self).sent@, final(self).sent@, spec_delete_column_query(t, hs[old(self).header_idx as int])),
            r matches Ok(m) ==> m is Some,
            r matches Err(e) ==> e is Sqlite || e is Other,
    {
        let (table_name, header) = self.current_column()?;
        let queries = delete_column_query(table_name.as_str(), header.as_str());
        let ghost mid = self.log@;
        let res = self.execute_batch(queries.as_str());
        proof {
            column_read_kept(old(self).log@, mid, self.log@, old(self).current_table_idx, old(self).header_idx, table_name@, header@);
        }
        res?;
        let mut message = String::from_str("Deleted column ");
        message.append(header.as_str());
        Ok(Some(message))
    }

    /// Drops the current table and moves to the next one, or else to the one before.
    pub fn delete_table(&mut self) -> (r: AppResult<()>)
        ensures
            same_editing_state(&*final(self), &*old(self)),
            final(self).header_idx == old(self).header_idx,
            final(self).slice == old(self).slice,
            final(self).fetched == old(self).fetched,
            final(self).connection == old(self).connection,
            final(self).sent@ == old(self).sent@ || exists|t: Seq<char>|
                #[trigger] name_exchange(old(self).current_table_idx, t) == final(self).log@[old(self).log@.len() as int]
                    && final(self).log@.len() > old(self).log@.len()
                    && sent_tried(old(self).sent@, final(self).sent@, spec_delete_table_query(t)),
            r is Ok ==> exists|t: Seq<char>|
                #[trigger] name_exchange(old(self).current_table_idx, t) == final(self).log@[old(self).log@.len() as int]
                    && final(self).log@.len() > old(self).log@.len()
                    && sent_after(old(self).sent@, final(self).sent@, spec_delete_table_query(t)),
            r is Ok ==> exists|n: i64, forward: bool|
                #[trigger] int_exchange(spec_neighbour_table_query(old(self).current_table_idx, forward), Seq::empty(), n)
                    == final(self).log@.last() && final(self).current_table_idx == n,
    {
        let table_name = self.get_current_table_name()?;
        let ghost m0 = self.log@;
        let ghost k = old(self).log@.len() as int;
        proof {
            assert(m0[k] == name_exchange(old(self).current_table_idx, table_name@));
        }
        let query = delete_table_query(table_name.as_str());
        self.execute_batch(query.as_str())?;
        if self.next_table().is_err() {
            let ghost m1 = self.log@;
            let res = self.prev_table();
            proof {
                assert(self.log@[k] == m1[k]);
                if res is Ok {
                    let n = choose|n: i64| #[trigger] read_neighbour(m1, self.log@, old(self).current_table_idx, false, n)
                        && self.current_table_idx == n;
                    assert(self.log@.last() == int_exchange(
                        spec_neighbour_table_query(old(self).current_table_idx, false),
                        Seq::empty(),
                        n,
                    ));
                }
            }
            res?;
        } else {
            proof {
                let n = choose|n: i64| #[trigger] read_neighbour(m0, self.log@, old(self).current_table_idx, true, n)
                    && self.current_table_idx == n;
                assert(self.log@[k] == m0[k]);
                assert(self.log@.last() == int_exchange(
                    spec_neighbour_table_query(old(self).current_table_idx, true),
                    Seq::empty(),
                    n,
                ));
            }
        }
        Ok(())
    }

    /// Renames the current column to `new_column`.
    pub fn rename_column(&mut self, new_column: &str) -> (r: AppResult<()>)
        ensures
            same_but_logs(*old(self), *final(self)),
            final(self).sent@ == old(self).sent@ || exists|t: Seq<char>, hs: Seq<Seq<char>>|
                #[trigger] read_column(
                    old(self).log@,
                    final(self).log@,
                    old(self).current_table_idx,
                    old(self).header_idx,
                    t,
                    hs,
                ) && sent_tried(old(self).sent@, final(self).sent@, spec_rename_column_query(t, hs[old(self).header_idx as int], new_column@)),
            r is Ok ==> exists|t: Seq<char>, hs: Seq<Seq<char>>|
                #[trigger] read_column(
                    old(self).log@,
                    final(self).log@,
                    old(self).current_table_idx,
                    old(self).header_idx,
                    t,
                    hs,
                ) && sent_after(old(self).sent@, final(self).sent@, spec_rename_column_query(t, hs[old(self).header_idx as int], new_column@)),
            r matches Err(e) ==> e is Sqlite || e is Other,
    {
        let (table_name, header) = self.current_column()?;
        let queries = rename_column_query(table_name.as_str(), header.as_str(), new_column);
        let ghost mid = self.log@;
        let res = self.execute_batch(queries.as_str());
        proof {
            column_read_kept(old(self).log@, mid, self.log@, old(self).current_table_idx, old(self).header_idx, table_name@, header@);
        }
        res
    }

    /// Renames the current table to `new_table_name`.
    pub fn rename_table(&mut self, new_table_name: &str) -> (r: AppResult<()>)
        ensures
            same_but_logs(*old(self), *final(self)),
            final(self).sent@ == old(self).sent@ || exists|t: Seq<char>|
                #[trigger] read_name(old(self).log@, final(self).log@, old(self).current_table_idx, t)
                    && sent_tried(old(self).sent@, final(self).sent@, spec_rename_table_query(t, new_table_name@)),
            r is Ok ==> exists|t: Seq<char>|
                #[trigger] read_name(old(self).log@, final(self).log@, old(self).current_table_idx, t)
                    && sent_after(old(self).sent@, final(self).sent@, spec_rename_table_query(t, new_table_name@)),
            r matches Err(e) ==> e is Sqlite,
    {
        let table_name = self.get_current_table_name()?;
        let queries = rename_table_query(table_name.as_str(), new_table_name);
        self.execute_batch(queries.as_str())
    }

    /// Adds a column named after the expression in `inputs[0]` (such as
    /// `col1 + col2` or `col1 > 20`), holding its value on every row. Without an
    /// expression it is refused.
    pub fn math_operation(&mut self, inputs: Vec<String>) -> (r: AppResult<()>)
        ensures
            same_but_logs(*old(self), *final(self)),
            final(self).sent@ == old(self).sent@ || exists|t: Seq<char>|
                #[trigger] read_name(old(self).log@, final(self).log@, old(self).current_table_idx, t)
                    && sent_tried(old(self).sent@, final(self).sent@, spec_math_operation_query(t, inputs@[0]@)),
            r is Ok ==> exists|t: Seq<char>|
                #[trigger] read_name(old(self).log@, final(self).log@, old(self).current_table_idx, t)
                    && sent_after(old(self).sent@, final(self).sent@, spec_math_operation_query(t, inputs@[0]@)),
            inputs@.len() == 0 ==> r is Err && *final(self) == *old(self),
    {
        if inputs.len() == 0 {
            return Err(AppError::Other(String::from_str("no expression given")));
        }
        let table_name = self.get_current_table_name()?;
        let query = math_operation_query(table_name.as_str(), inputs[0].as_str());
        self.execute_batch(query.as_str())
    }
}

/// The statements that add the column named `expression` and fill it with the
/// expression's value on every row.
pub open spec fn spec_math_operation_query(table_name: Seq<char>, expression: Seq<char>) -> Seq<char> {
    "ALTER TABLE \""@ + table_name + "\" ADD COLUMN \""@ + expression + "\";"@ + "UPDATE \""@
        + table_name + "\" SET \""@ + expression + "\" = "@ + expression + ";"@
}

/// The statements that add a column holding the value of `expression`.
pub fn math_operation_query(table_name: &str, expression: &str) -> (q: String)
    ensures
        q@ == spec_math_operation_query(table_name@, expression@),
{
    let mut q = String::from_str("ALTER TABLE \"");
    q.append(table_name);
    q.append("\" ADD COLUMN \"");
    q.append(expression);
    q.append("\";");
    q.append("UPDATE \"");
    q.append(table_name);
    q.append("\" SET \"");
    q.append(expression);
    q.append("\" = ");
    q.append(expression);
    q.append(";");
    q
}

/// The statement that sets the derived column of the row `id` to `value`.
pub open spec fn spec_update_line(table_name: Seq<char>, derived: Seq<char>, value: Seq<char>, id: i32) -> Seq<
    char,
> {
    "UPDATE `"@ + table_name + "` SET '"@ + derived + "' = '"@ + value + "' WHERE id = '"@
        + int_decimal(id as int) + "';\n"@
}

/// The update statements of the first rows, given the derived value of each.
pub open spec fn spec_update_lines(
    table_name: Seq<char>,
    derived: Seq<char>,
    ids: Seq<i32>,
    values: Seq<Seq<char>>,
) -> Seq<char>
    decreases ids.len(),
{
    if ids.len() == 0 {
        Seq::empty()
    } else {
        spec_update_lines(table_name, derived, ids.drop_last(), values.drop_last()) + spec_update_line(
            table_name,
            derived,
            values[ids.len() - 1],
            ids.last(),
        )
    }
}

/// The keys of rows read with their values.
pub open spec fn row_ids(rows: Seq<(i32, String)>) -> Seq<i32> {
    rows.map_values(|r: (i32, String)| r.0)
}

/// The text that a derived value is written as: the value, or NULL for nothing.
pub open spec fn spec_derived_text(o: Option<String>) -> Seq<char> {
    match o {
        Some(s) => s@,
        None => "NULL"@,
    }
}

/// Whether `value` is what `fun` may give for a text whose view is `text`.
pub open spec fn derived_by<F: Fn(String) -> Option<String>>(fun: F, text: Seq<char>, value: Seq<char>) -> bool {
    exists|x: String, o: Option<String>|
        x@ == text && call_ensures(fun, (x,), o) && value == spec_derived_text(o)
}

/// Appends the statement that sets the derived column of the row `id` to `value`.
fn push_update_line(transaction: &mut String, table_name: &str, derived: &str, value: &str, id: i32)
    ensures
        final(transaction)@ == old(transaction)@ + spec_update_line(table_name@, derived@, value@, id),
{
    transaction.append("UPDATE `");
    transaction.append(table_name);
    transaction.append("` SET '");
    transaction.append(derived);
    transaction.append("' = '");
    transaction.append(value);
    transaction.append("' WHERE id = '");
    push_int_decimal(transaction, id as i64);
    transaction.append("';\n");
}

/// The statements that add the column `derived_column_name` and fill it, row by
/// row, with `fun` of each row's value.
pub fn derive_column_statements<F>(
    table_name: &str,
    derived_column_name: &str,
    rows: &Vec<(i32, String)>,
    fun: &F,
) -> (q: String) where F: Fn(String) -> Option<String>,
    requires
        forall|s: String| #[trigger] call_requires(*fun, (s,)),
    ensures
        spec_derive_statements(*fun, table_name@, derived_column_name@, rows@, q@),
{
    let mut transaction = String::from_str("ALTER TABLE `");
    transaction.append(table_name);
    transaction.append("` ADD COLUMN `");
    transaction.append(derived_column_name);
    transaction.append("` TEXT;\n");
    let ghost prefix = transaction@;
    let ghost ids = row_ids(rows@);
    let ghost mut values: Seq<Seq<char>> = Seq::empty();
    let mut i: usize = 0;
    while i < rows.len()
        invariant
            i <= rows@.len(),
            ids == row_ids(rows@),
            forall|s: String| #[trigger] call_requires(*fun, (s,)),
            values.len() == i,
            forall|k: int| 0 <= k < i ==> derived_by(*fun, rows@[k].1@, #[trigger] values[k]),
            transaction@ == prefix + spec_update_lines(
                table_name@,
                derived_column_name@,
                ids.take(i as int),
                values,
            ),
        decreases rows@.len() - i,
    {
        let value = rows[i].1.clone();
        let derived = fun(value);
        let ghost dv = spec_derived_text(derived);
        proof {
            assert(derived_by(*fun, rows@[i as int].1@, dv));
        }
        let derived_value = match derived {
            Some(v) => v,
            None => String::from_str("NULL"),
        };
        push_update_line(&mut transaction, table_name, derived_column_name, derived_value.as_str(), rows[i].0);
        proof {
            let old_values = values;
            values = values.push(dv);
            assert(ids.take(i + 1).drop_last() =~= ids.take(i as int));
            assert(values.drop_last() =~= old_values);
            assert(ids.take(i + 1).last() == rows@[i as int].0);
        }
        i = i + 1;
    }
    assert(ids.take(rows@.len() as int) =~= ids);
    transaction
}

/// A copy of rows, cell for cell.
fn clone_rows(rows: &Vec<Vec<DataItem>>) -> (r: Vec<Vec<DataItem>>)
    ensures
        row_views(r@) == row_views(rows@),
{
    let mut r: Vec<Vec<DataItem>> = Vec::new();
    let mut i: usize = 0;
    while i < rows.len()
        invariant
            i <= rows@.len(),
            r@.len() == i,
            forall|k: int| 0 <= k < i ==> (#[trigger] r@[k])@.map_values(|c: DataItem| c@)
                == rows@[k]@.map_values(|c: DataItem| c@),
        decreases rows@.len() - i,
    {
        let row = &rows[i];
        let mut copy: Vec<DataItem> = Vec::new();
        let mut j: usize = 0;
        while j < row.len()
            invariant
                j <= row@.len(),
                copy@.len() == j,
                forall|k: int| 0 <= k < j ==> (#[trigger] copy@[k])@ == row@[k]@,
            decreases row@.len() - j,
        {
            copy.push(row[j].clone());
            j = j + 1;
        }
        assert(copy@.map_values(|c: DataItem| c@) =~= row@.map_values(|c: DataItem| c@));
        r.push(copy);
        i = i + 1;
    }
    assert(row_views(r@) =~= row_views(rows@));
    r
}

/// The value of a cell that SQLite returned (a blob has none and reads as null).
pub open spec fn spec_cell_value(c: SqlCell) -> CellValue {
    match c {
        SqlCell::Null => CellValue::Null,
        SqlCell::Integer(x) => CellValue::Integer(x),
        SqlCell::Real(t) => CellValue::Float(t@),
        SqlCell::Text(t) => CellValue::Text(t@),
        SqlCell::Blob => CellValue::Null,
    }
}

/// The values of the cells of a page, row for row.
pub open spec fn spec_page_values(cells: Seq<Vec<SqlCell>>) -> Seq<Seq<CellValue>> {
    cells.map_values(|row: Vec<SqlCell>| row@.map_values(|c: SqlCell| spec_cell_value(c)))
}

/// Whether a page holds a blob.
pub open spec fn page_has_blob(cells: Seq<Vec<SqlCell>>) -> bool {
    exists|k: int, j: int| 0 <= k < cells.len() && 0 <= j < cells[k]@.len() && (#[trigger] cells[k]@[j]) is Blob
}

/// The cell of a value that SQLite returned; a blob has none.
pub fn item_of_cell(c: SqlCell) -> (r: Option<DataItem>)
    ensures
        r is None <==> c is Blob,
        r matches Some(item) ==> item@ == spec_cell_value(c),
{
    match c {
        SqlCell::Null => Some(DataItem::Null),
        SqlCell::Integer(x) => Some(DataItem::Integer(x)),
        SqlCell::Real(t) => Some(DataItem::Float(t)),
        SqlCell::Text(t) => Some(DataItem::Text(t)),
        SqlCell::Blob => None,
    }
}

/// The cells of the rows that SQLite returned, row for row and cell for cell; a
/// page that holds a blob is refused.
pub fn rows_from_cells(cells: Vec<Vec<SqlCell>>) -> (r: AppResult<Vec<Vec<DataItem>>>)
    ensures
        r is Err <==> page_has_blob(cells@),
        r matches Ok(rows) ==> row_views(rows@) == spec_page_values(cells@),
        r matches Err(e) ==> e is Other,
{
    let mut rows: Vec<Vec<DataItem>> = Vec::new();
    let ghost all = cells@;
    for row in it: cells
        invariant
            it.seq() == all,
            all == cells@,
            rows@.len() == it.index(),
            forall|k: int| 0 <= k < rows@.len() ==> (#[trigger] rows@[k])@.map_values(|c: DataItem| c@)
                == all[k]@.map_values(|c: SqlCell| spec_cell_value(c)),
            forall|k: int, j: int|
                0 <= k < it.index() && 0 <= j < all[k]@.len() ==> !((#[trigger] all[k]@[j]) is Blob),
    {
        let ghost row_cells = row@;
        let ghost k = it.index();
        assert(0 <= k < all.len());
        let mut items: Vec<DataItem> = Vec::new();
        for cell in jt: row
            invariant
                jt.seq() == row_cells,
                all == cells@,
                0 <= k < all.len(),
                row_cells == all[k]@,
                items@.len() == jt.index(),
                forall|j: int| 0 <= j < items@.len() ==> (#[trigger] items@[j])@ == spec_cell_value(
                    row_cells[j],
                ),
                forall|j: int| 0 <= j < jt.index() ==> !((#[trigger] row_cells[j]) is Blob),
        {
            match item_of_cell(cell) {
                Some(item) => items.push(item),
                None => {
                    proof {
                        let j = jt.index() as int;
                        assert(0 <= j < all[k]@.len());
                        assert(all[k]@[j] is Blob);
                        assert(page_has_blob(all));
                    }
                    return Err(AppError::Other(String::from_str("blob values are not supported")));
                },
            }
        }
        proof {
            assert(items@.map_values(|c: DataItem| c@) =~= row_cells.map_values(
                |c: SqlCell| spec_cell_value(c),
            ));
        }
        rows.push(items);
    }
    proof {
        assert(row_views(rows@) =~= spec_page_values(all));
    }
    Ok(rows)
}

} // verus!
