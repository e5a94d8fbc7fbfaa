//! The regular-expression functions that SQL statements call.
use vstd::prelude::*;

use super::{regexp, regexp_transform_no_capture_group, regexp_transform_with_capture_group};

verus! {

/// The verified functions that SQL can call.
#[derive(Debug, Clone, Copy, PartialEq, Eq, Structural)]
pub enum SqlFunction {
    /// `regexp(pattern, text)`, answered by `regexp`.
    Regexp,
    /// `(pattern, text, substitution)`, answered by `regexp_transform_with_capture_group`.
    TransformWithCaptureGroup,
    /// `(pattern, text)`, answered by `regexp_transform_no_capture_group`.
    TransformNoCaptureGroup,
}

/// A function that was registered on a connection: its SQL name, and which verified
/// function answers it.
#[derive(Debug)]
pub struct RegisteredFunction {
    pub name: String,
    pub function: SqlFunction,
}

/// The SQL names and functions of registered functions.
pub open spec fn registered_views(v: Seq<RegisteredFunction>) -> Seq<(Seq<char>, SqlFunction)> {
    v.map_values(|f: RegisteredFunction| (f.name@, f.function))
}

/// The functions that every database registers, in order: `regexp` (which the
/// `REGEXP` operator calls) and its other name `regexp_filter`, and the two transforms.
pub open spec fn spec_custom_functions() -> Seq<(Seq<char>, SqlFunction)> {
    seq![
        ("regexp"@, SqlFunction::Regexp),
        ("regexp_filter"@, SqlFunction::Regexp),
        ("regexp_transform_with_capture_group"@, SqlFunction::TransformWithCaptureGroup),
        ("regexp_transform_no_capture_group"@, SqlFunction::TransformNoCaptureGroup),
    ]
}

/// `Connection::create_scalar_function`: makes `name(pattern, text)` callable from
/// SQL with two arguments, answering with `regexp` of this library; an invalid
/// pattern makes the statement fail. On success it gives back the name and the
/// function that it registered.
#[verifier::external_body]
fn register_regexp(conn: &rusqlite::Connection, name: &str) -> (r: Result<RegisteredFunction, rusqlite::Error>)
    ensures
        r matches Ok(f) ==> f.name@ == name@ && f.function == SqlFunction::Regexp,
{
    conn.create_scalar_function(
        name,
        2,
        rusqlite::functions::FunctionFlags::SQLITE_UTF8 | rusqlite::functions::FunctionFlags::SQLITE_DETERMINISTIC,
        |ctx| regexp(&ctx.get::<String>(0)?, &ctx.get::<String>(1)?).ok_or_else(
            || rusqlite::Error::UserFunctionError("invalid regular expression".into()),
        ),
    ).map(|()| RegisteredFunction { name: name.to_string(), function: SqlFunction::Regexp })
}

/// `Connection::create_scalar_function`: makes `name(pattern, text, substitution)`
/// callable from SQL with three arguments, answering with
/// `regexp_transform_with_capture_group` of this library; an invalid pattern makes
/// the statement fail. On success it gives back the name and the function that it
/// registered.
#[verifier::external_body]
fn register_transform_with_capture_group(conn: &rusqlite::Connection, name: &str) -> (r: Result<
    RegisteredFunction,
    rusqlite::Error,
>)
    ensures
        r matches Ok(f) ==> f.name@ == name@ && f.function == SqlFunction::TransformWithCaptureGroup,
{
    conn.create_scalar_function(
        name,
        3,
        rusqlite::functions::FunctionFlags::SQLITE_UTF8 | rusqlite::functions::FunctionFlags::SQLITE_DETERMINISTIC,
        |ctx| regexp_transform_with_capture_group(&ctx.get::<String>(0)?, &ctx.get::<String>(1)?, &ctx.get::<String>(2)?).ok_or_else(
            || rusqlite::Error::UserFunctionError("invalid regular expression".into()),
        ),
    ).map(|()| RegisteredFunction { name: name.to_string(), function: SqlFunction::TransformWithCaptureGroup })
}

/// `Connection::create_scalar_function`: makes `name(pattern, text)` callable from
/// SQL with two arguments, answering with `regexp_transform_no_capture_group` of this
/// library; an invalid pattern makes the statement fail. On success it gives back
/// the name and the function that it registered.
#[verifier::external_body]
fn register_transform_no_capture_group(conn: &rusqlite::Connection, name: &str) -> (r: Result<
    RegisteredFunction,
    rusqlite::Error,
>)
    ensures
        r matches Ok(f) ==> f.name@ == name@ && f.function == SqlFunction::TransformNoCaptureGroup,
{
    conn.create_scalar_function(
        name,
        2,
        rusqlite::functions::FunctionFlags::SQLITE_UTF8 | rusqlite::functions::FunctionFlags::SQLITE_DETERMINISTIC,
        |ctx| regexp_transform_no_capture_group(&ctx.get::<String>(0)?, &ctx.get::<String>(1)?).ok_or_else(
            || rusqlite::Error::UserFunctionError("invalid regular expression".into()),
        ),
    ).map(|()| RegisteredFunction { name: name.to_string(), function: SqlFunction::TransformNoCaptureGroup })
}

/// Registers the regular-expression SQL functions on `conn`, stopping at the first
/// that SQLite refuses, and gives back the functions it registered: those of
/// `spec_custom_functions`, in order.
pub fn add_custom_functions(conn: &rusqlite::Connection) -> (r: Result<Vec<RegisteredFunction>, rusqlite::Error>)
    ensures
        r matches Ok(v) ==> registered_views(v@) == spec_custom_functions(),
{
    let mut registered: Vec<RegisteredFunction> = Vec::new();
    registered.push(register_regexp(conn, "regexp")?);
    registered.push(register_regexp(conn, "regexp_filter")?);
    registered.push(register_transform_with_capture_group(conn, "regexp_transform_with_capture_group")?);
    registered.push(register_transform_no_capture_group(conn, "regexp_transform_no_capture_group")?);
    assert(registered_views(registered@) =~= spec_custom_functions());
    Ok(registered)
}

} // verus!
