//! Regular expressions: the statements that filter and transform a column with
//! one, and the SQL functions that run them inside SQLite.
use vstd::prelude::*;

use crate::error::{AppError, AppResult};

pub mod custom_functions;

verus! {

/// Whether the regex crate accepts `pattern` (`Regex::new` succeeds).
pub uninterp spec fn regex_is_valid(pattern: Seq<char>) -> bool;

/// Whether `pattern` matches somewhere in `text` (`Regex::is_match`).
pub uninterp spec fn regex_matches(pattern: Seq<char>, text: Seq<char>) -> bool;

/// The leftmost-first match of `pattern` in `text` (group 0 of `Regex::captures`).
pub uninterp spec fn regex_first_match(pattern: Seq<char>, text: Seq<char>) -> Option<Seq<char>>;

/// `text` with its first match of `pattern` replaced by `replacement`, where `$name`
/// and `${n}` stand for capture groups (`Regex::replace`).
pub uninterp spec fn regex_replace_first(
    pattern: Seq<char>,
    text: Seq<char>,
    replacement: Seq<char>,
) -> Seq<char>;

/// The number of capture groups of `pattern`, counting group 0, the whole match
/// (`Regex::capture_names().len()`).
pub uninterp spec fn regex_capture_slots(pattern: Seq<char>) -> nat;

/// `Regex::new`: whether `pattern` is a valid regular expression. The error is the
/// one that the regex crate reports.
#[verifier::external_body]
fn check_regex(pattern: &str) -> (r: Result<(), regex::Error>)
    ensures
        r is Ok <==> regex_is_valid(pattern@),
{
    regex::Regex::new(pattern).map(|_| ())
}

/// `Regex::new` and `Regex::capture_names`: the number of capture groups of the
/// pattern, group 0 included, which the regex crate documents as at least one.
#[verifier::external_body]
fn capture_slot_count(pattern: &str) -> (r: Result<usize, regex::Error>)
    ensures
        r is Ok <==> regex_is_valid(pattern@),
        r matches Ok(n) ==> n == regex_capture_slots(pattern@) && n >= 1,
{
    regex::Regex::new(pattern).map(|re| re.capture_names().len())
}

/// `Regex::new` and `Regex::is_match`: `None` for an invalid pattern.
#[verifier::external_body]
fn regex_is_match(pattern: &str, text: &str) -> (r: Option<bool>)
    ensures
        r is Some <==> regex_is_valid(pattern@),
        r matches Some(b) ==> b == regex_matches(pattern@, text@),
{
    regex::Regex::new(pattern).ok().map(|re| re.is_match(text))
}

/// `Regex::new` and group 0 of `Regex::captures`: the first match, `None` for an
/// invalid pattern. The regex crate documents that a match exists exactly when
/// `is_match` holds.
#[verifier::external_body]
fn regex_find(pattern: &str, text: &str) -> (r: Option<Option<String>>)
    ensures
        r is Some <==> regex_is_valid(pattern@),
        r matches Some(m) ==> {
            &&& (m is Some <==> regex_matches(pattern@, text@))
            &&& regex_first_match(pattern@, text@) == match m {
                Some(s) => Some(s@),
                None => None::<Seq<char>>,
            }
        },
{
    regex::Regex::new(pattern).ok().map(
        |re| re.captures(text).and_then(|c| c.get(0)).map(|m| m.as_str().to_string()),
    )
}

/// `Regex::new` and `Regex::replace`: `None` for an invalid pattern. The regex
/// crate documents that the text comes back unchanged where nothing matches.
#[verifier::external_body]
fn regex_replace(pattern: &str, text: &str, replacement: &str) -> (r: Option<String>)
    ensures
        r is Some <==> regex_is_valid(pattern@),
        r matches Some(s) ==> s@ == regex_replace_first(pattern@, text@, replacement@),
        r matches Some(s) ==> (!regex_matches(pattern@, text@) ==> s@ == text@),
{
    regex::Regex::new(pattern).ok().map(|re| re.replace(text, replacement).to_string())
}

/// Checks that `pattern` is a valid regular expression.
pub fn validate_regex(pattern: &str) -> (r: AppResult<()>)
    ensures
        r is Ok <==> regex_is_valid(pattern@),
        r matches Err(e) ==> e is Regex,
{
    match check_regex(pattern) {
        Ok(()) => Ok(()),
        Err(e) => Err(AppError::Regex(e)),
    }
}

/// The number of capture groups of `pattern`, group 0 included.
pub fn capture_group_slots(pattern: &str) -> (r: AppResult<usize>)
    ensures
        r is Ok <==> regex_is_valid(pattern@),
        r matches Ok(n) ==> n == regex_capture_slots(pattern@) && n >= 1,
        r matches Err(e) ==> e is Regex,
{
    match capture_slot_count(pattern) {
        Ok(n) => Ok(n),
        Err(e) => Err(AppError::Regex(e)),
    }
}

/// The statement that keeps, in a new table `{table_name}RegexFiltered`, the rows
/// whose `header` matches `pattern`.
pub open spec fn spec_regex_filter_query(header: Seq<char>, pattern: Seq<char>, table_name: Seq<char>) -> Seq<
    char,
> {
    let select_query = "SELECT * FROM \""@ + table_name + "\" WHERE \""@ + header + "\" REGEXP '"@
        + pattern + "'"@;
    "CREATE TABLE \""@ + table_name + "RegexFiltered\" AS "@ + select_query + ";"@
}

/// The statements that add the column `derived{header}`, holding each value of
/// `header` with its first match of `pattern` replaced by `transformation`, or
/// NULL where `pattern` does not match.
pub open spec fn spec_regex_with_capture_group_transform_query(
    header: Seq<char>,
    pattern: Seq<char>,
    transformation: Seq<char>,
    table_name: Seq<char>,
) -> Seq<char> {
    let derived = "derived"@ + header;
    "ALTER TABLE \""@ + table_name + "\" ADD COLUMN \""@ + derived + "\" TEXT;"@ + "UPDATE \""@
        + table_name + "\" SET \""@ + derived + "\" = "@ + "regexp_transform_with_capture_group('"@
        + pattern + "', \""@ + header + "\", '"@ + transformation + "');"@
}

/// The statements that add the column `derived{header}`, holding the first match of
/// `pattern` in each value of `header`, or NULL where there is none.
pub open spec fn spec_regex_no_capture_group_transform_query(
    header: Seq<char>,
    pattern: Seq<char>,
    table_name: Seq<char>,
) -> Seq<char> {
    let derived = "derived"@ + header;
    "ALTER TABLE \""@ + table_name + "\" ADD COLUMN \""@ + derived + "\" TEXT;"@ + "UPDATE \""@
        + table_name + "\" SET \""@ + derived + "\" = "@ + "regexp_transform_no_capture_group('"@
        + pattern + "', \""@ + header + "\");"@
}

/// The statement that filters the current table by a regular expression; an
/// invalid pattern is refused.
pub fn regex_filter_query(header: &str, pattern: &str, table_name: &str) -> (r: AppResult<String>)
    ensures
        r is Ok <==> regex_is_valid(pattern@),
        r matches Ok(q) ==> q@ == spec_regex_filter_query(header@, pattern@, table_name@),
        r matches Err(e) ==> e is Regex,
{
    validate_regex(pattern)?;
    let mut select_query = String::from_str("SELECT * FROM \"");
    select_query.append(table_name);
    select_query.append("\" WHERE \"");
    select_query.append(header);
    select_query.append("\" REGEXP '");
    select_query.append(pattern);
    select_query.append("'");
    let mut create_table_query = String::from_str("CREATE TABLE \"");
    create_table_query.append(table_name);
    create_table_query.append("RegexFiltered\" AS ");
    create_table_query.append(select_query.as_str());
    create_table_query.append(";");
    Ok(create_table_query)
}

/// The statement that adds the column `derived{header}`, followed by the start of
/// the statement that fills it.
fn derived_column_query_prefix(header: &str, table_name: &str) -> (queries: String)
    ensures
        queries@ == "ALTER TABLE \""@ + table_name@ + "\" ADD COLUMN \""@ + ("derived"@ + header@)
            + "\" TEXT;"@ + "UPDATE \""@ + table_name@ + "\" SET \""@ + ("derived"@ + header@)
            + "\" = "@,
{
    let mut derived_header_name = String::from_str("derived");
    derived_header_name.append(header);
    let mut queries = String::from_str("ALTER TABLE \"");
    queries.append(table_name);
    queries.append("\" ADD COLUMN \"");
    queries.append(derived_header_name.as_str());
    queries.append("\" TEXT;");
    queries.append("UPDATE \"");
    queries.append(table_name);
    queries.append("\" SET \"");
    queries.append(derived_header_name.as_str());
    queries.append("\" = ");
    queries
}

/// The statements that derive a column by replacing the first match of `pattern`
/// with `transformation`; an invalid pattern is refused.
pub fn regex_with_capture_group_transform_query(
    header: &str,
    pattern: &str,
    transformation: &str,
    table_name: &str,
) -> (r: AppResult<String>)
    ensures
        r is Ok <==> regex_is_valid(pattern@),
        r matches Ok(q) ==> q@ == spec_regex_with_capture_group_transform_query(
            header@,
            pattern@,
            transformation@,
            table_name@,
        ),
        r matches Err(e) ==> e is Regex,
{
    validate_regex(pattern)?;
    let mut queries = derived_column_query_prefix(header, table_name);
    queries.append("regexp_transform_with_capture_group('");
    queries.append(pattern);
    queries.append("', \"");
    queries.append(header);
    queries.append("\", '");
    queries.append(transformation);
    queries.append("');");
    assert(queries@ =~= spec_regex_with_capture_group_transform_query(
        header@,
        pattern@,
        transformation@,
        table_name@,
    ));
    Ok(queries)
}

/// The statements that derive a column holding the first match of `pattern`; an
/// invalid pattern is refused.
pub fn regex_no_capture_group_transform_query(header: &str, pattern: &str, table_name: &str) -> (r:
    AppResult<String>)
    ensures
        r is Ok <==> regex_is_valid(pattern@),
        r matches Ok(q) ==> q@ == spec_regex_no_capture_group_transform_query(
            header@,
            pattern@,
            table_name@,
        ),
        r matches Err(e) ==> e is Regex,
{
    validate_regex(pattern)?;
    let mut queries = derived_column_query_prefix(header, table_name);
    queries.append("regexp_transform_no_capture_group('");
    queries.append(pattern);
    queries.append("', \"");
    queries.append(header);
    queries.append("\");");
    assert(queries@ =~= spec_regex_no_capture_group_transform_query(header@, pattern@, table_name@));
    Ok(queries)
}

/// The SQL function `regexp(pattern, text)`: whether `pattern` matches in `text`,
/// `None` for an invalid pattern.
pub fn regexp(regex_str: &str, text: &str) -> (r: Option<bool>)
    ensures
        r is Some <==> regex_is_valid(regex_str@),
        r matches Some(b) ==> b == regex_matches(regex_str@, text@),
{
    regex_is_match(regex_str, text)
}

/// The SQL function `regexp_transform_with_capture_group(pattern, text, substitution)`:
/// `text` with its first match replaced by `substitution`, nothing where `pattern`
/// does not match, and `None` for an invalid pattern.
pub fn regexp_transform_with_capture_group(regex_str: &str, text: &str, substitution: &str) -> (r:
    Option<Option<String>>)
    ensures
        r is Some <==> regex_is_valid(regex_str@),
        r matches Some(v) ==> (v is Some <==> regex_matches(regex_str@, text@)),
        r matches Some(Some(s)) ==> s@ == regex_replace_first(regex_str@, text@, substitution@),
{
    match regex_is_match(regex_str, text) {
        None => None,
        Some(false) => Some(None),
        Some(true) => match regex_replace(regex_str, text, substitution) {
            Some(s) => Some(Some(s)),
            None => None,
        },
    }
}

/// The SQL function `regexp_transform_no_capture_group(pattern, text)`: the first
/// match of `pattern` in `text`, nothing where there is none, and `None` for an
/// invalid pattern.
pub fn regexp_transform_no_capture_group(regex_str: &str, text: &str) -> (r: Option<
    Option<String>,
>)
    ensures
        r is Some <==> regex_is_valid(regex_str@),
        r matches Some(v) ==> (v is Some <==> regex_matches(regex_str@, text@)),
        r matches Some(v) ==> regex_first_match(regex_str@, text@) == match v {
            Some(s) => Some(s@),
            None => None::<Seq<char>>,
        },
{
    regex_find(regex_str, text)
}

/// A derived column gets a value exactly on the rows that the regex filter keeps:
/// for a valid pattern, both transforms give a value exactly where `regexp` holds.
pub proof fn lemma_transforms_follow_filter(
    pattern: Seq<char>,
    text: Seq<char>,
    filter: Option<bool>,
    with_group: Option<Option<String>>,
    without_group: Option<Option<String>>,
)
    requires
        filter is Some <==> regex_is_valid(pattern),
        filter matches Some(b) ==> b == regex_matches(pattern, text),
        with_group is Some <==> regex_is_valid(pattern),
        with_group matches Some(v) ==> (v is Some <==> regex_matches(pattern, text)),
        without_group is Some <==> regex_is_valid(pattern),
        without_group matches Some(v) ==> (v is Some <==> regex_matches(pattern, text)),
        regex_is_valid(pattern),
    ensures
        with_group.unwrap() is Some <==> filter.unwrap(),
        without_group.unwrap() is Some <==> filter.unwrap(),
{
}

} // verus!
