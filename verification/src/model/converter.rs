//! Turning a CSV file into a table: the statements that create the table and
//! insert its records.
use vstd::prelude::*;

use crate::error::{AppError, AppResult};
use crate::libstuff::model::{
    csv_records, no_data_error, parse_csv_records, record_view, records_of_equal_width,
};
use crate::text::{join_with, push_char, push_joined, string_views};

use super::datarow::{CellValue, DataItem};
use super::database::{headers_exchange, headers_query, page_has_blob, text_rows, SqlLog, rows_from_cells, row_views, spec_cell_value, spec_page_values};
use super::sqlite::{sql_execute_batch, sql_query_column, sql_query_table, SqlCell};

verus! {

broadcast use vstd::string::group_string_axioms;

/// `s` with every single quote doubled, as an SQL string literal needs it.
pub open spec fn escape_quotes(s: Seq<char>) -> Seq<char>
    decreases s.len(),
{
    if s.len() == 0 {
        Seq::empty()
    } else {
        escape_quotes(s.drop_last()) + if s.last() == '\'' {
            seq!['\'', '\'']
        } else {
            seq![s.last()]
        }
    }
}

/// How SQL reads the inside of a quoted literal: a doubled quote stands for one.
pub open spec fn unescape_quotes(t: Seq<char>) -> Seq<char>
    decreases t.len(),
{
    if t.len() == 0 {
        Seq::empty()
    } else if t.len() >= 2 && t.last() == '\'' && t[t.len() - 2] == '\'' {
        unescape_quotes(t.take(t.len() - 2)).push('\'')
    } else {
        unescape_quotes(t.drop_last()).push(t.last())
    }
}

/// A quoted field reads back as itself: doubling the quotes loses nothing, and no
/// quote of the field ends the literal early.
pub proof fn lemma_escape_round_trip(s: Seq<char>)
    ensures
        unescape_quotes(escape_quotes(s)) == s,
    decreases s.len(),
{
    if s.len() > 0 {
        let init = s.drop_last();
        let e = escape_quotes(s);
        lemma_escape_round_trip(init);
        if s.last() == '\'' {
            assert(e.take(e.len() - 2) =~= escape_quotes(init));
        } else {
            assert(e.drop_last() =~= escape_quotes(init));
        }
        assert(s =~= init.push(s.last()));
    }
}

/// Appends `s` to `out` with every single quote doubled.
pub fn push_escaped(out: &mut String, s: &str)
    ensures
        final(out)@ == old(out)@ + escape_quotes(s@),
{
    let ghost start = out@;
    for c in it: s.chars()
        invariant
            out@ == start + escape_quotes(s@.take(it.index())),
            it.seq() == s@,
    {
        assert(s@.take(it.index() + 1).drop_last() =~= s@.take(it.index()));
        if c == '\'' {
            push_char(out, '\'');
            push_char(out, '\'');
        } else {
            push_char(out, c);
        }
    }
    assert(s@.take(s@.len() as int) =~= s@);
}

/// The SQL literal of a CSV field: `NULL` for an empty field, otherwise the field
/// quoted, with its quotes doubled.
pub open spec fn sql_value(field: Seq<char>) -> Seq<char> {
    if field.len() == 0 {
        "NULL"@
    } else {
        "'"@ + escape_quotes(field) + "'"@
    }
}

/// The SQL row of a CSV record: its fields' literals, between parentheses.
pub open spec fn spec_value_query(record: Seq<Seq<char>>) -> Seq<char> {
    "("@ + join_with(record.map_values(|f: Seq<char>| sql_value(f)), ","@) + ")"@
}

/// The statement that creates the table of a CSV file: an integer key `id`, then
/// one text column per header.
pub open spec fn spec_create_table_query(headers: Seq<Seq<char>>, table_name: Seq<char>) -> Seq<char> {
    let columns = headers.map_values(|h: Seq<char>| "\""@ + h + "\" TEXT"@);
    "CREATE TABLE IF NOT EXISTS '"@ + table_name + "'\n\t(id INTEGER PRIMARY KEY, "@ + join_with(
        columns,
        ","@,
    ) + ")\n\t;"@
}

/// The column list of the insert statements: each header between single quotes.
pub open spec fn spec_headers_for_query(headers: Seq<Seq<char>>) -> Seq<char> {
    join_with(headers.map_values(|h: Seq<char>| "'"@ + h + "'"@), ", "@)
}

/// The statement that inserts a batch of rows.
pub open spec fn spec_batch_insert_query(table_name: Seq<char>, columns: Seq<char>, items: Seq<Seq<char>>) -> Seq<
    char,
> {
    "INSERT INTO '"@ + table_name + "' ("@ + columns + ") VALUES "@ + join_with(items, ",\n"@) + ";"@
}

/// The number of records that are inserted in one statement.
pub const LIMIT: usize = 10000;

/// The SQL row of a CSV record.
pub fn value_query(record: &Vec<String>) -> (q: String)
    ensures
        q@ == spec_value_query(string_views(record@)),
{
    let ghost fields = string_views(record@);
    let mut literals: Vec<String> = Vec::new();
    let mut i: usize = 0;
    while i < record.len()
        invariant
            i <= record@.len(),
            fields == string_views(record@),
            literals@.len() == i,
            forall|k: int| 0 <= k < i ==> (#[trigger] literals@[k])@ == sql_value(fields[k]),
        decreases record@.len() - i,
    {
        let field = record[i].as_str();
        if field.is_empty() {
            literals.push(String::from_str("NULL"));
        } else {
            let mut literal = String::from_str("'");
            push_escaped(&mut literal, field);
            literal.append("'");
            literals.push(literal);
        }
        i = i + 1;
    }
    let mut q = String::from_str("(");
    push_joined(&mut q, &literals, ",");
    q.append(")");
    assert(string_views(literals@) =~= fields.map_values(|f: Seq<char>| sql_value(f)));
    q
}

/// The statement that creates the table `table_name` with the given headers.
pub fn create_table_query(headers: &Vec<String>, table_name: &str) -> (q: String)
    ensures
        q@ == spec_create_table_query(string_views(headers@), table_name@),
{
    let ghost hs = string_views(headers@);
    let mut columns: Vec<String> = Vec::new();
    let mut i: usize = 0;
    while i < headers.len()
        invariant
            i <= headers@.len(),
            hs == string_views(headers@),
            columns@.len() == i,
            forall|k: int| 0 <= k < i ==> (#[trigger] columns@[k])@ == "\""@ + hs[k] + "\" TEXT"@,
        decreases headers@.len() - i,
    {
        let mut column = String::from_str("\"");
        column.append(headers[i].as_str());
        column.append("\" TEXT");
        columns.push(column);
        i = i + 1;
    }
    let mut q = String::from_str("CREATE TABLE IF NOT EXISTS '");
    q.append(table_name);
    q.append("'\n\t(id INTEGER PRIMARY KEY, ");
    push_joined(&mut q, &columns, ",");
    q.append(")\n\t;");
    assert(string_views(columns@) =~= hs.map_values(|h: Seq<char>| "\""@ + h + "\" TEXT"@));
    q
}

/// The column list of the insert statements.
pub fn get_headers_for_query(headers: &Vec<String>) -> (q: String)
    ensures
        q@ == spec_headers_for_query(string_views(headers@)),
{
    let ghost hs = string_views(headers@);
    let mut columns: Vec<String> = Vec::new();
    let mut i: usize = 0;
    while i < headers.len()
        invariant
            i <= headers@.len(),
            hs == string_views(headers@),
            columns@.len() == i,
            forall|k: int| 0 <= k < i ==> (#[trigger] columns@[k])@ == "'"@ + hs[k] + "'"@,
        decreases headers@.len() - i,
    {
        let mut column = String::from_str("'");
        column.append(headers[i].as_str());
        column.append("'");
        columns.push(column);
        i = i + 1;
    }
    let mut q = String::new();
    push_joined(&mut q, &columns, ", ");
    assert(string_views(columns@) =~= hs.map_values(|h: Seq<char>| "'"@ + h + "'"@));
    assert(q@ =~= spec_headers_for_query(hs));
    q
}

/// Whether a batch of `i` records is full and has to be inserted.
pub fn should_batch_execute(i: usize) -> (b: bool)
    ensures
        b == (i == LIMIT),
{
    i == LIMIT
}

/// Turns a record into its SQL row and adds it to the pending batch.
pub fn create_insert_stmt_record(record: &Vec<String>, items: &mut Vec<String>)
    ensures
        final(items)@.len() == old(items)@.len() + 1,
        final(items)@.drop_last() == old(items)@,
        final(items)@.last()@ == spec_value_query(string_views(record@)),
{
    let result = value_query(record);
    items.push(result);
    assert(items@.drop_last() =~= old(items)@);
}

/// Inserts the pending batch into `table_name` and empties it. The statement is
/// left in `queries`; where SQLite refuses it, the batch is kept.
pub fn batch_exec_and_clear(
    queries: &mut String,
    table_name: &str,
    columns: &str,
    items: &mut Vec<String>,
    connection: &rusqlite::Connection,
) -> (r: AppResult<()>)
    ensures
        final(queries)@ == spec_batch_insert_query(table_name@, columns@, string_views(old(items)@)),
        r is Ok ==> final(items)@.len() == 0,
        r is Err ==> final(items)@ == old(items)@,
        r matches Err(e) ==> e is Sqlite,
{
    let mut q = String::from_str("INSERT INTO '");
    q.append(table_name);
    q.append("' (");
    q.append(columns);
    q.append(") VALUES ");
    push_joined(&mut q, items, ",\n");
    q.append(";");
    *queries = q;
    match sql_execute_batch(connection, queries.as_str()) {
        Ok(()) => {
            items.clear();
            Ok(())
        },
        Err(e) => Err(AppError::Sqlite(e)),
    }
}

/// The headers that are written out: all but the key column `id`.
pub open spec fn spec_export_headers(headers: Seq<Seq<char>>) -> Seq<Seq<char>> {
    headers.filter(|h: Seq<char>| h != "id"@)
}

/// The headers of a table as they are written to a CSV file: without `id`.
pub fn export_headers(headers: &Vec<String>) -> (r: Vec<String>)
    ensures
        string_views(r@) == spec_export_headers(string_views(headers@)),
{
    let ghost hs = string_views(headers@);
    let id = String::from_str("id");
    let mut r: Vec<String> = Vec::new();
    let mut i: usize = 0;
    while i < headers.len()
        invariant
            i <= headers@.len(),
            hs == string_views(headers@),
            id@ == "id"@,
            string_views(r@) == spec_export_headers(hs.take(i as int)),
        decreases headers@.len() - i,
    {
        proof {
            assert(hs.take(i + 1).drop_last() =~= hs.take(i as int));
            reveal(Seq::filter);
        }
        if headers[i] != id {
            r.push(headers[i].clone());
            assert(string_views(r@) =~= spec_export_headers(hs.take(i + 1)));
        } else {
            assert(string_views(r@) =~= spec_export_headers(hs.take(i + 1)));
        }
        i = i + 1;
    }
    assert(hs.take(headers@.len() as int) =~= hs);
    r
}

/// The cells of the first `n` columns as they are written out: without the cells
/// of `id` columns, and with nothing for a null.
pub open spec fn spec_export_row(headers: Seq<Seq<char>>, cells: Seq<CellValue>, n: nat) -> Seq<
    Option<CellValue>,
>
    decreases n,
{
    if n == 0 {
        Seq::empty()
    } else {
        let prev = spec_export_row(headers, cells, (n - 1) as nat);
        if headers[n - 1] == "id"@ {
            prev
        } else if cells[n - 1] is Null {
            prev.push(None)
        } else {
            prev.push(Some(cells[n - 1]))
        }
    }
}

/// The views of optional cells.
pub open spec fn optional_cell_views(v: Seq<Option<DataItem>>) -> Seq<Option<CellValue>> {
    v.map_values(|o: Option<DataItem>| match o {
        Some(item) => Some(item@),
        None => None,
    })
}

/// The number of columns among the first `n` that are not `id`.
pub open spec fn non_id_count(headers: Seq<Seq<char>>, n: nat) -> nat
    decreases n,
{
    if n == 0 {
        0
    } else {
        non_id_count(headers, (n - 1) as nat) + if headers[n - 1] == "id"@ {
            0nat
        } else {
            1nat
        }
    }
}

proof fn lemma_non_id_count_grows(headers: Seq<Seq<char>>, j: nat, n: nat)
    requires
        j <= n,
    ensures
        non_id_count(headers, j) <= non_id_count(headers, n),
    decreases n,
{
    if j < n {
        lemma_non_id_count_grows(headers, j, (n - 1) as nat);
    }
}

/// An exported row has one field per column that is not `id`, in the columns'
/// order; the field of such a column `j` is `None` for a null cell and the cell
/// itself, whatever its kind (text, integer, real), for any other.
pub proof fn lemma_export_row_keeps_cells(headers: Seq<Seq<char>>, cells: Seq<CellValue>, n: nat)
    requires
        n <= headers.len(),
        n <= cells.len(),
    ensures
        spec_export_row(headers, cells, n).len() == non_id_count(headers, n),
        forall|j: int|
            0 <= j < n && headers[j] != "id"@ ==> #[trigger] spec_export_row(headers, cells, n)[non_id_count(
                headers,
                j as nat,
            ) as int] == if cells[j] is Null {
                None
            } else {
                Some(cells[j])
            },
    decreases n,
{
    if n > 0 {
        let m = (n - 1) as nat;
        lemma_export_row_keeps_cells(headers, cells, m);
        assert forall|j: int|
            0 <= j < n && headers[j] != "id"@ implies #[trigger] spec_export_row(headers, cells, n)[non_id_count(
                headers,
                j as nat,
            ) as int] == if cells[j] is Null {
                None
            } else {
                Some(cells[j])
            } by {
            if j < m {
                lemma_non_id_count_grows(headers, (j + 1) as nat, m);
                assert(non_id_count(headers, (j + 1) as nat) == non_id_count(headers, j as nat) + 1);
                assert(spec_export_row(headers, cells, m)[non_id_count(headers, j as nat) as int] == if cells[j] is Null {
                    None
                } else {
                    Some(cells[j])
                });
            }
        }
    }
}

/// The cells of a row as they are written to a CSV file: without the cells of the
/// `id` column, and with an empty field for a null.
pub fn export_row(headers: &Vec<String>, row: Vec<DataItem>) -> (r: Vec<Option<DataItem>>)
    requires
        row@.len() == headers@.len(),
    ensures
        optional_cell_views(r@) == spec_export_row(
            string_views(headers@),
            row@.map_values(|c: DataItem| c@),
            headers@.len() as nat,
        ),
        r@.len() == spec_export_headers(string_views(headers@)).len(),
        r@.len() == non_id_count(string_views(headers@), headers@.len() as nat),
        forall|j: int|
            0 <= j < headers@.len() && headers@[j]@ != "id"@ ==> #[trigger] optional_cell_views(r@)[non_id_count(
                string_views(headers@),
                j as nat,
            ) as int] == if row@[j]@ is Null {
                None
            } else {
                Some(row@[j]@)
            },
{
    let ghost hs = string_views(headers@);
    let id = String::from_str("id");
    let mut r: Vec<Option<DataItem>> = Vec::new();
    let mut i: usize = 0;
    while i < headers.len()
        invariant
            i <= headers@.len(),
            row@.len() == headers@.len(),
            hs == string_views(headers@),
            id@ == "id"@,
            r@.len() == spec_export_headers(hs.take(i as int)).len(),
            optional_cell_views(r@) == spec_export_row(hs, row@.map_values(|c: DataItem| c@), i as nat),
        decreases headers@.len() - i,
    {
        proof {
            assert(hs.take(i + 1).drop_last() =~= hs.take(i as int));
            reveal(Seq::filter);
        }
        if headers[i] != id {
            let item = row[i].clone();
            match item {
                DataItem::Null => r.push(None),
                other => r.push(Some(other)),
            }
        }
        assert(optional_cell_views(r@) =~= spec_export_row(
            hs,
            row@.map_values(|c: DataItem| c@),
            (i + 1) as nat,
        ));
        i = i + 1;
    }
    assert(hs.take(headers@.len() as int) =~= hs);
    proof {
        lemma_export_row_keeps_cells(hs, row@.map_values(|c: DataItem| c@), headers@.len() as nat);
        assert(optional_cell_views(r@).len() == r@.len());
    }
    r
}

/// The import of a CSV file into the table `table_name`: the records that wait to be
/// inserted, at most `LIMIT` of them, as SQL rows.
pub struct CsvImport {
    pub table_name: String,
    /// The column list of the insert statements.
    pub columns: String,
    /// The SQL rows of the records that wait to be inserted.
    pub items: Vec<String>,
    /// The last insert statement that was run.
    pub queries: String,
    /// The SQL rows that were inserted so far, in order.
    pub inserted: Ghost<Seq<Seq<char>>>,
}

impl CsvImport {
    /// Whether the pending batch is within its limit.
    pub open spec fn wf(&self) -> bool {
        self.items@.len() < LIMIT
    }

    /// Creates the table `table_name` with the given headers (and the key `id`).
    pub fn new(connection: &rusqlite::Connection, headers: &Vec<String>, table_name: &str) -> (r:
        AppResult<CsvImport>)
        ensures
            r matches Ok(import) ==> {
                &&& import.wf()
                &&& import.table_name@ == table_name@
                &&& import.columns@ == spec_headers_for_query(string_views(headers@))
                &&& import.items@.len() == 0
                &&& import.inserted@.len() == 0
            },
            r matches Err(e) ==> e is Sqlite,
    {
        let query = create_table_query(headers, table_name);
        if let Err(e) = sql_execute_batch(connection, query.as_str()) {
            return Err(AppError::Sqlite(e));
        }
        Ok(CsvImport {
            table_name: String::from_str(table_name),
            columns: get_headers_for_query(headers),
            items: Vec::new(),
            queries: String::new(),
            inserted: Ghost(Seq::empty()),
        })
    }

    /// Adds a record to the pending batch, and inserts the batch once it holds
    /// `LIMIT` records.
    pub fn add_record(&mut self, connection: &rusqlite::Connection, record: &Vec<String>) -> (r:
        AppResult<()>)
        requires
            old(self).wf(),
        ensures
            final(self).wf() || r is Err,
            final(self).table_name@ == old(self).table_name@,
            final(self).columns@ == old(self).columns@,
            old(self).items@.len() + 1 < LIMIT ==> {
                &&& r is Ok
                &&& final(self).items@ == old(self).items@.push(final(self).items@.last())
                &&& final(self).items@.last()@ == spec_value_query(string_views(record@))
                &&& final(self).queries@ == old(self).queries@
            },
            r is Ok ==> final(self).inserted@ + string_views(final(self).items@) == old(self).inserted@
                + string_views(old(self).items@) + seq![spec_value_query(string_views(record@))],
            old(self).items@.len() + 1 == LIMIT ==> {
                &&& final(self).queries@ == spec_batch_insert_query(
                    old(self).table_name@,
                    old(self).columns@,
                    string_views(old(self).items@) + seq![spec_value_query(string_views(record@))],
                )
                &&& r is Ok ==> final(self).items@.len() == 0
            },
            r matches Err(e) ==> e is Sqlite,
    {
        create_insert_stmt_record(record, &mut self.items);
        proof {
            assert(self.items@ == old(self).items@.push(self.items@.last()));
        }
        if should_batch_execute(self.items.len()) {
            let ghost pending = self.items@;
            assert(string_views(pending) =~= string_views(old(self).items@) + seq![
                spec_value_query(string_views(record@)),
            ]);
            batch_exec_and_clear(
                &mut self.queries,
                self.table_name.as_str(),
                self.columns.as_str(),
                &mut self.items,
                connection,
            )?;
            proof {
                self.inserted = Ghost(self.inserted@ + string_views(pending));
                assert(string_views(self.items@) =~= Seq::<Seq<char>>::empty());
            }
        }
        proof {
            assert(self.inserted@ + string_views(self.items@) =~= old(self).inserted@ + string_views(
                old(self).items@,
            ) + seq![spec_value_query(string_views(record@))]);
        }
        Ok(())
    }

    /// Inserts the records that still wait.
    pub fn finish(&mut self, connection: &rusqlite::Connection) -> (r: AppResult<()>)
        ensures
            old(self).items@.len() == 0 ==> r is Ok && final(self).queries@ == old(self).queries@,
            old(self).items@.len() > 0 ==> final(self).queries@ == spec_batch_insert_query(
                old(self).table_name@,
                old(self).columns@,
                string_views(old(self).items@),
            ),
            r is Ok ==> final(self).items@.len() == 0,
            r is Ok ==> final(self).inserted@ == old(self).inserted@ + string_views(old(self).items@),
            final(self).table_name@ == old(self).table_name@,
            final(self).columns@ == old(self).columns@,
            r matches Err(e) ==> e is Sqlite,
    {
        if self.items.len() > 0 {
            let ghost pending = self.items@;
            batch_exec_and_clear(
                &mut self.queries,
                self.table_name.as_str(),
                self.columns.as_str(),
                &mut self.items,
                connection,
            )?;
            proof {
                self.inserted = Ghost(self.inserted@ + string_views(pending));
            }
        } else {
            assert(string_views(self.items@) =~= Seq::<Seq<char>>::empty());
            assert(self.inserted@ + string_views(self.items@) =~= self.inserted@);
        }
        Ok(())
    }
}

/// The query for the names of the tables that are written out: all but the table
/// of tables, by name.
pub const EXPORT_TABLES_QUERY: &'static str = "SELECT \"name\" FROM sqlite_master WHERE type='table' AND name != 'table_of_tables' ORDER BY \"name\";";

/// The names of the tables that are written out.
pub fn tables_to_export(connection: &rusqlite::Connection, log: &mut SqlLog) -> (r: AppResult<Vec<String>>)
    ensures
        r matches Ok(names) ==> final(log).entries@ == old(log).entries@.push(
            (EXPORT_TABLES_QUERY@, Seq::empty(), text_rows(string_views(names@))),
        ),
        r is Err ==> final(log).entries == old(log).entries,
        r matches Err(e) ==> e is Sqlite,
{
    match sql_query_column(connection, EXPORT_TABLES_QUERY, 0) {
        Ok(names) => {
            proof {
                log.entries = Ghost(log.entries@.push(
                    (EXPORT_TABLES_QUERY@, Seq::empty(), text_rows(string_views(names@))),
                ));
            }
            Ok(names)
        },
        Err(e) => Err(AppError::Sqlite(e)),
    }
}

/// The query for every row of a table.
pub open spec fn spec_all_rows_query(table_name: Seq<char>) -> Seq<char> {
    "SELECT * FROM \""@ + table_name + "\";"@
}

pub fn all_rows_query(table_name: &str) -> (q: String)
    ensures
        q@ == spec_all_rows_query(table_name@),
{
    let mut q = String::from_str("SELECT * FROM \"");
    q.append(table_name);
    q.append("\";");
    q
}

/// A table as it is written to a CSV file: its headers without `id`, and each of
/// its rows as `export_row` gives it. A table that holds a blob, or whose rows do
/// not have one cell per column, is refused. The columns' query and the rows'
/// query, with their answers, go to `log`.
pub fn export_table(connection: &rusqlite::Connection, table_name: &str, log: &mut SqlLog) -> (r: AppResult<
    (Vec<String>, Vec<Vec<Option<DataItem>>>),
>)
    ensures
        r matches Err(e) ==> e is Sqlite || e is Other,
        r matches Ok((headers, rows)) ==> exists|names: Seq<Seq<char>>, cells: Seq<Vec<SqlCell>>|
            {
                &&& final(log).entries@ == old(log).entries@.push(#[trigger] headers_exchange(table_name@, names)).push(
                    (spec_all_rows_query(table_name@), Seq::empty(), #[trigger] spec_page_values(cells)),
                )
                &&& !page_has_blob(cells)
                &&& string_views(headers@) == spec_export_headers(names)
                &&& rows@.len() == cells.len()
                &&& forall|k: int|
                    0 <= k < rows@.len() ==> optional_cell_views((#[trigger] rows@[k])@)
                        == spec_export_row(names, spec_page_values(cells)[k], names.len())
            },
{
    let columns_query = headers_query(table_name);
    let headers = match sql_query_column(connection, columns_query.as_str(), 1) {
        Ok(names) => names,
        Err(e) => return Err(AppError::Sqlite(e)),
    };
    let query = all_rows_query(table_name);
    let (count, cells) = match sql_query_table(connection, query.as_str()) {
        Ok(t) => t,
        Err(e) => return Err(AppError::Sqlite(e)),
    };
    proof {
        log.entries = Ghost(log.entries@.push(headers_exchange(table_name@, string_views(headers@))).push(
            (spec_all_rows_query(table_name@), Seq::empty(), spec_page_values(cells@)),
        ));
    }
    if count != headers.len() {
        return Err(AppError::Other(String::from_str("the columns changed while reading")));
    }
    let ghost names = string_views(headers@);
    let ghost all = cells@;
    let rows = rows_from_cells(cells)?;
    let mut out: Vec<Vec<Option<DataItem>>> = Vec::new();
    let mut k: usize = 0;
    let n = rows.len();
    let mut rest = rows;
    let mut taken: Vec<Vec<DataItem>> = Vec::new();
    proof {
        assert(row_views(rest@).len() == rest@.len());
        assert(spec_page_values(all).len() == all.len());
    }
    while k < n
        invariant
            n == rest@.len(),
            k <= n,
            out@.len() == k,
            names == string_views(headers@),
            row_views(rest@) == spec_page_values(all),
            all.len() == n,
            forall|i: int| 0 <= i < all.len() ==> (#[trigger] all[i])@.len() == headers@.len(),
            forall|i: int|
                0 <= i < k ==> optional_cell_views((#[trigger] out@[i])@) == spec_export_row(
                    names,
                    spec_page_values(all)[i],
                    names.len(),
                ),
        decreases n - k,
    {
        let row = clone_row(&rest[k]);
        proof {
            let ki = k as int;
            assert(row_views(rest@)[ki] == rest@[ki]@.map_values(|c: DataItem| c@));
            assert(spec_page_values(all)[ki] == all[ki]@.map_values(|c: SqlCell| spec_cell_value(c)));
            assert(row@.map_values(|c: DataItem| c@).len() == row@.len());
            assert(rest@[ki]@.map_values(|c: DataItem| c@).len() == rest@[ki]@.len());
            assert(all[ki]@.map_values(|c: SqlCell| spec_cell_value(c)).len() == all[ki]@.len());
            assert(row@.len() == all[ki]@.len());
        }
        let exported = export_row(&headers, row);
        proof {
            assert(row@.map_values(|c: DataItem| c@) == spec_page_values(all)[k as int]);
        }
        out.push(exported);
        k = k + 1;
    }
    let h = export_headers(&headers);
    Ok((h, out))
}

/// A copy of a row, cell for cell.
fn clone_row(row: &Vec<DataItem>) -> (r: Vec<DataItem>)
    ensures
        r@.map_values(|c: DataItem| c@) == row@.map_values(|c: DataItem| c@),
{
    let mut r: Vec<DataItem> = Vec::new();
    let mut j: usize = 0;
    while j < row.len()
        invariant
            j <= row@.len(),
            r@.len() == j,
            forall|i: int| 0 <= i < j ==> (#[trigger] r@[i])@ == row@[i]@,
        decreases row@.len() - j,
    {
        r.push(row[j].clone());
        j = j + 1;
    }
    assert(r@.map_values(|c: DataItem| c@) =~= row@.map_values(|c: DataItem| c@));
    r
}

/// The SQL rows of the records of a CSV text after its header record.
pub open spec fn spec_record_rows(records: Seq<Option<Seq<Seq<char>>>>) -> Seq<Seq<char>> {
    records.map_values(|r: Option<Seq<Seq<char>>>| spec_value_query(r.unwrap()))
}

/// Reads the CSV text `text` into the new table `table_name` of `connection`: its
/// first record gives the columns, every later record one row, inserted in batches
/// in the order of the text. A record that cannot be read is refused. For a text
/// without records the table is created without columns besides the key, a
/// statement that SQLite refuses.
pub fn import_csv_text(connection: &rusqlite::Connection, table_name: &str, text: &str) -> (r:
    AppResult<CsvImport>)
    ensures
        csv_records(text@).len() == 0 ==> (r matches Ok(i) ==> {
            &&& i.table_name@ == table_name@
            &&& i.columns@ == spec_headers_for_query(Seq::empty())
            &&& i.items@.len() == 0
            &&& i.inserted@.len() == 0
        }),
        csv_records(text@).len() == 0 ==> (r matches Err(e) ==> e is Sqlite),
        (exists|k: int| 0 <= k < csv_records(text@).len() && #[trigger] csv_records(text@)[k] is None)
            ==> r is Err,
        csv_records(text@).len() > 0 ==> (r matches Ok(i) ==> {
            &&& i.table_name@ == table_name@
            &&& i.columns@ == spec_headers_for_query(csv_records(text@)[0].unwrap())
            &&& i.items@.len() == 0
            &&& i.inserted@ == spec_record_rows(csv_records(text@).skip(1))
        }),
{
    let records = parse_csv_records(text);
    let ghost recs = records@;
    let ghost rows = csv_records(text@);
    let count: usize = records.len();
    if count == 0 {
        let no_headers: Vec<String> = Vec::new();
        proof {
            assert(string_views(no_headers@) =~= Seq::<Seq<char>>::empty());
        }
        return CsvImport::new(connection, &no_headers, table_name);
    }
    let mut import: Option<CsvImport> = None;
    let mut k: usize = 0;
    for record in it: records
        invariant
            it.seq() == recs,
            rows == csv_records(text@),
            recs.len() == rows.len(),
            recs.len() > 0,
            forall|j: int| 0 <= j < recs.len() ==> record_view(#[trigger] recs[j]) == rows[j],
            k == it.index(),
            k <= recs.len(),
            recs.len() == count,
            forall|j: int| 0 <= j < k ==> #[trigger] recs[j] is Ok,
            k == 0 <==> import is None,
            import matches Some(i) ==> {
                &&& i.wf()
                &&& i.table_name@ == table_name@
                &&& i.columns@ == spec_headers_for_query(rows[0].unwrap())
                &&& i.inserted@ + string_views(i.items@) == spec_record_rows(rows.subrange(1, k as int))
            },
    {
        proof {
            assert(record_view(recs[k as int]) == rows[k as int]);
        }
        match record {
            Ok(fields) => {
                match import {
                    None => {
                        let started = CsvImport::new(connection, &fields, table_name)?;
                        proof {
                            assert(rows.subrange(1, 1) =~= Seq::<Option<Seq<Seq<char>>>>::empty());
                            assert(spec_record_rows(rows.subrange(1, 1)) =~= Seq::<Seq<char>>::empty());
                            assert(string_views(started.items@) =~= Seq::<Seq<char>>::empty());
                        }
                        import = Some(started);
                    },
                    Some(mut i) => {
                        i.add_record(connection, &fields)?;
                        proof {
                            assert(rows.subrange(1, k + 1) =~= rows.subrange(1, k as int).push(rows[k as int]));
                            assert(spec_record_rows(rows.subrange(1, k + 1)) =~= spec_record_rows(
                                rows.subrange(1, k as int),
                            ).push(spec_value_query(rows[k as int].unwrap())));
                        }
                        import = Some(i);
                    },
                }
            },
            Err(e) => {
                return Err(AppError::Parse(e));
            },
        }
        k = k + 1;
    }
    assert forall|j: int| 0 <= j < rows.len() implies #[trigger] rows[j] is Some by {
        assert(recs[j] is Ok);
        assert(record_view(recs[j]) == rows[j]);
    }
    match import {
        Some(mut i) => {
            i.finish(connection)?;
            proof {
                assert(rows.subrange(1, rows.len() as int) =~= rows.skip(1));
            }
            Ok(i)
        },
        None => Err(AppError::Io(no_data_error())),
    }
}

} // verus!
