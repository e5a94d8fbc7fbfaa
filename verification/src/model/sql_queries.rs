//! The SQL statements that the table operations run.
use vstd::prelude::*;

use crate::text::{nat_decimal, push_decimal};

verus! {

/// The query that finds the number of the first row after `current_row`, in the
/// order `ordering`, whose `search_column` equals the bound parameter.
pub open spec fn spec_exact_search_query(
    ordering: Seq<char>,
    search_column: Seq<char>,
    current_row: nat,
    table_name: Seq<char>,
) -> Seq<char> {
    "SELECT rownum FROM\n\t\t\t(SELECT ROW_NUMBER() OVER ("@ + ordering + ") AS rownum, \""@
        + search_column + "\" FROM \""@ + table_name + "\")\n\t\t\tWHERE \""@ + search_column
        + "\" = ? AND rownum > "@ + nat_decimal(current_row) + " LIMIT 1;"@
}

/// The statements that add the column `{kind}_{column}` of type `kind`, holding
/// the values of `column` cast to `kind`.
pub open spec fn spec_convert_into(table_name: Seq<char>, column: Seq<char>, kind: Seq<char>) -> Seq<
    char,
> {
    let derived = kind + "_"@ + column;
    "ALTER TABLE \""@ + table_name + "\" ADD COLUMN \""@ + derived + "\" "@ + kind + ";\n\t\t"@
        + "UPDATE \""@ + table_name + "\" SET \""@ + derived + "\" = CAST(\""@ + column + "\" as "@
        + kind + ");"@
}

pub open spec fn spec_delete_column_query(table_name: Seq<char>, column: Seq<char>) -> Seq<char> {
    "ALTER TABLE \""@ + table_name + "\" DROP COLUMN \""@ + column + "\";"@
}

pub open spec fn spec_delete_table_query(table_name: Seq<char>) -> Seq<char> {
    "DROP TABLE \""@ + table_name + "\";"@
}

pub open spec fn spec_rename_column_query(
    table_name: Seq<char>,
    column: Seq<char>,
    new_column: Seq<char>,
) -> Seq<char> {
    "ALTER TABLE \""@ + table_name + "\" RENAME COLUMN \""@ + column + "\" TO \""@ + new_column
        + "\";"@
}

pub open spec fn spec_rename_table_query(old_table_name: Seq<char>, new_table_name: Seq<char>) -> Seq<
    char,
> {
    "ALTER TABLE \""@ + old_table_name + "\"\n  RENAME TO \""@ + new_table_name + "\";"@
}

pub fn exact_search_query(
    ordering: &str,
    search_column: &str,
    current_row: u32,
    table_name: &str,
) -> (q: String)
    ensures
        q@ == spec_exact_search_query(ordering@, search_column@, current_row as nat, table_name@),
{
    let mut q = String::from_str("SELECT rownum FROM\n\t\t\t(SELECT ROW_NUMBER() OVER (");
    q.append(ordering);
    q.append(") AS rownum, \"");
    q.append(search_column);
    q.append("\" FROM \"");
    q.append(table_name);
    q.append("\")\n\t\t\tWHERE \"");
    q.append(search_column);
    q.append("\" = ? AND rownum > ");
    push_decimal(&mut q, current_row as u64);
    q.append(" LIMIT 1;");
    q
}

/// The statements that add a column holding `column` cast to an integer.
pub fn text_to_int(table_name: &str, column: &str) -> (q: String)
    ensures
        q@ == spec_convert_into(table_name@, column@, "INT"@),
{
    convert_into(table_name, column, "INT")
}

/// The statements that add a column holding `column` cast to text.
pub fn int_to_text_query(table_name: &str, column: &str) -> (q: String)
    ensures
        q@ == spec_convert_into(table_name@, column@, "TEXT"@),
{
    convert_into(table_name, column, "TEXT")
}

pub fn convert_into(table_name: &str, column: &str, kind: &str) -> (q: String)
    ensures
        q@ == spec_convert_into(table_name@, column@, kind@),
{
    let mut derived_column = String::from_str(kind);
    derived_column.append("_");
    derived_column.append(column);
    let mut queries = String::from_str("ALTER TABLE \"");
    queries.append(table_name);
    queries.append("\" ADD COLUMN \"");
    queries.append(derived_column.as_str());
    queries.append("\" ");
    queries.append(kind);
    queries.append(";\n\t\t");
    queries.append("UPDATE \"");
    queries.append(table_name);
    queries.append("\" SET \"");
    queries.append(derived_column.as_str());
    queries.append("\" = CAST(\"");
    queries.append(column);
    queries.append("\" as ");
    queries.append(kind);
    queries.append(");");
    queries
}

pub fn delete_column_query(table_name: &str, column: &str) -> (q: String)
    ensures
        q@ == spec_delete_column_query(table_name@, column@),
{
    let mut q = String::from_str("ALTER TABLE \"");
    q.append(table_name);
    q.append("\" DROP COLUMN \"");
    q.append(column);
    q.append("\";");
    q
}

pub fn delete_table_query(table_name: &str) -> (q: String)
    ensures
        q@ == spec_delete_table_query(table_name@),
{
    let mut q = String::from_str("DROP TABLE \"");
    q.append(table_name);
    q.append("\";");
    q
}

pub fn rename_column_query(table_name: &str, column: &str, new_column: &str) -> (q: String)
    ensures
        q@ == spec_rename_column_query(table_name@, column@, new_column@),
{
    let mut q = String::from_str("ALTER TABLE \"");
    q.append(table_name);
    q.append("\" RENAME COLUMN \"");
    q.append(column);
    q.append("\" TO \"");
    q.append(new_column);
    q.append("\";");
    q
}

pub fn rename_table_query(old_table_name: &str, new_table_name: &str) -> (q: String)
    ensures
        q@ == spec_rename_table_query(old_table_name@, new_table_name@),
{
    let mut q = String::from_str("ALTER TABLE \"");
    q.append(old_table_name);
    q.append("\"\n  RENAME TO \"");
    q.append(new_table_name);
    q.append("\";");
    q
}

/// The query of a column's histogram; none is built yet, so it is empty.
pub fn histogram_query(column: &str, table_name: &str) -> (q: String)
    ensures
        q@ == Seq::<char>::empty(),
{
    String::new()
}

} // verus!
