use vstd::prelude::*;

verus! {

#[verifier::external_type_specification]
#[verifier::external_body]
pub struct ExIoError(std::io::Error);

#[verifier::external_type_specification]
#[verifier::external_body]
pub struct ExCsvError(csv::Error);

#[verifier::external_type_specification]
#[verifier::external_body]
pub struct ExRegexError(regex::Error);

#[verifier::external_type_specification]
#[verifier::external_body]
pub struct ExSqliteError(rusqlite::Error);

pub type AppResult<T> = Result<T, AppError>;

/// The errors of the application.
#[derive(Debug)]
pub enum AppError {
    Io(std::io::Error),
    Parse(csv::Error),
    Regex(regex::Error),
    Sqlite(rusqlite::Error),
    Other(String),
}

/// `Display` of `std::io::Error`: its message. Nothing is stated of the text.
#[verifier::external_body]
fn io_error_text(e: &std::io::Error) -> (s: String) {
    format!("{}", e)
}

/// `Display` of `csv::Error`: its message. Nothing is stated of the text.
#[verifier::external_body]
fn csv_error_text(e: &csv::Error) -> (s: String) {
    format!("{}", e)
}

/// `Display` of `regex::Error`: its message. Nothing is stated of the text.
#[verifier::external_body]
fn regex_error_text(e: &regex::Error) -> (s: String) {
    format!("{}", e)
}

/// `Display` of `rusqlite::Error`: its message. Nothing is stated of the text.
#[verifier::external_body]
fn sqlite_error_text(e: &rusqlite::Error) -> (s: String) {
    format!("{}", e)
}

/// Whether `s` is the message of `e`: the text of an `Other` error, and for the
/// others what kind of error it is followed by the outside crate's own message.
pub open spec fn error_text(e: AppError, s: Seq<char>) -> bool {
    match e {
        AppError::Other(m) => s == m@,
        AppError::Io(_) => exists|t: Seq<char>| s == "IO error: "@ + t,
        AppError::Parse(_) => exists|t: Seq<char>| s == "Csv parsing error: "@ + t,
        AppError::Regex(_) => exists|t: Seq<char>| s == "Regex parsing error: "@ + t,
        AppError::Sqlite(_) => exists|t: Seq<char>| s == "Sqlite error: "@ + t,
    }
}

impl AppError {
    /// The message of the error, led by what kind of error it is.
    pub fn to_text(&self) -> (s: String)
        ensures
            error_text(*self, s@),
            self matches AppError::Other(m) ==> s@ == m@,
            self is Io ==> exists|t: Seq<char>| s@ == "IO error: "@ + t,
            self is Parse ==> exists|t: Seq<char>| s@ == "Csv parsing error: "@ + t,
            self is Regex ==> exists|t: Seq<char>| s@ == "Regex parsing error: "@ + t,
            self is Sqlite ==> exists|t: Seq<char>| s@ == "Sqlite error: "@ + t,
    {
        match self {
            AppError::Io(err) => {
                let mut s = String::from_str("IO error: ");
                let t = io_error_text(err);
                s.append(t.as_str());
                s
            },
            AppError::Parse(err) => {
                let mut s = String::from_str("Csv parsing error: ");
                let t = csv_error_text(err);
                s.append(t.as_str());
                s
            },
            AppError::Regex(err) => {
                let mut s = String::from_str("Regex parsing error: ");
                let t = regex_error_text(err);
                s.append(t.as_str());
                s
            },
            AppError::Sqlite(err) => {
                let mut s = String::from_str("Sqlite error: ");
                let t = sqlite_error_text(err);
                s.append(t.as_str());
                s
            },
            AppError::Other(m) => m.clone(),
        }
    }
}

} // verus!
