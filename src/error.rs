//! The errors that repository operations report.
use vstd::prelude::*;

verus! {

#[verifier::external_type_specification]
#[verifier::external_body]
pub struct ExSqliteError(rusqlite::Error);

#[verifier::external_type_specification]
#[verifier::external_body]
pub struct ExMySqlError(mysql::Error);

/// Why a repository operation failed.
#[derive(Debug)]
pub enum RepositoryError {
    /// A partial update named no application.
    NoIdField,
    /// A partial update named more than one application.
    MultipleIdFields,
    /// A partial update named an application but changed no field.
    NoChanges,
    /// A stored value in the column at this position has the wrong type or
    /// cannot be read.
    InvalidColumnValue(usize),
    /// The database handed out a row id that does not fit an `i32`.
    IdOutOfRange(i64),
    /// The embedded database reported an error.
    Sqlite(rusqlite::Error),
    /// The database server reported an error.
    MySql(mysql::Error),
    /// A query on the server yielded a row with this many values, not one
    /// per column.
    UnexpectedRowWidth(usize),
}

/// The error comes from the database itself.
pub open spec fn is_engine_error(e: RepositoryError) -> bool {
    e is Sqlite || e is MySql
}

/// The error comes from the database, or from a stored row that cannot be
/// read.
pub open spec fn is_read_error(e: RepositoryError) -> bool {
    is_engine_error(e) || e is InvalidColumnValue || e is UnexpectedRowWidth
}

pub open spec fn error_text(e: RepositoryError) -> Seq<char> {
    match e {
        RepositoryError::NoIdField => "Unable to generate SQL statement because there is no id field"@,
        RepositoryError::MultipleIdFields => "Unable to generate SQL statement because there are multiple id fields"@,
        RepositoryError::NoChanges => "Unable to generate SQL statement because there are no changes"@,
        _ => Seq::empty(),
    }
}

/// Relies on the `Display` impl of rusqlite::Error for a readable message;
/// nothing is assumed of its text.
#[verifier::external_body]
fn sqlite_message(e: &rusqlite::Error) -> String {
    e.to_string()
}

/// Relies on the `Display` impl of mysql::Error for a readable message;
/// nothing is assumed of its text.
#[verifier::external_body]
fn mysql_message(e: &mysql::Error) -> String {
    e.to_string()
}

impl RepositoryError {
    /// A readable description of the error. The three refusals of a partial
    /// update have fixed texts.
    pub fn message(&self) -> (r: String)
        ensures
            (self is NoIdField || self is MultipleIdFields || self is NoChanges) ==> r@
                == error_text(*self),
    {
        match self {
            RepositoryError::NoIdField => String::from_str(
                "Unable to generate SQL statement because there is no id field",
            ),
            RepositoryError::MultipleIdFields => String::from_str(
                "Unable to generate SQL statement because there are multiple id fields",
            ),
            RepositoryError::NoChanges => String::from_str(
                "Unable to generate SQL statement because there are no changes",
            ),
            RepositoryError::InvalidColumnValue(_) => String::from_str(
                "A stored value could not be read",
            ),
            RepositoryError::IdOutOfRange(_) => String::from_str(
                "The new row id does not fit a job application id",
            ),
            RepositoryError::Sqlite(e) => sqlite_message(e),
            RepositoryError::MySql(e) => mysql_message(e),
            RepositoryError::UnexpectedRowWidth(_) => String::from_str(
                "A row does not hold one value per column",
            ),
        }
    }
}

} // verus!
