//! The operations that the front ends run on stored job applications, and
//! their implementation on an embedded SQLite database (see `mysql_backend`
//! for the one on a server).
use vstd::prelude::*;

use rusqlite::Connection;

use crate::codec::{data_of, decode_row, decode_rows, first_application, Datum, SqlValue, COLUMN_COUNT};
use crate::date::{today_utc, Date};
use crate::error::{is_engine_error, is_read_error, RepositoryError};
use crate::job_application_model::{
    opt_date_valid, ApplicationRecord, HumanResponse, JobApplication, PartialJobApplication,
};
use crate::statement::{check_projection, fields_valid, Statement};
use crate::text::lowercase;

verus! {

#[verifier::external_type_specification]
#[verifier::external_body]
pub struct ExConnection(rusqlite::Connection);

#[verifier::external_type_specification]
#[verifier::external_body]
pub struct ExSqliteValue(rusqlite::types::Value);

/// The table that holds the job applications; creating it is a no-op where
/// it exists already.
pub const TABLE_DEFINITION: &'static str = "CREATE TABLE IF NOT EXISTS job_applications (id INTEGER PRIMARY KEY, source TEXT NOT NULL, company TEXT NOT NULL, job_title TEXT NOT NULL, application_date TEXT NOT NULL, time_investment INTEGER, human_response TEXT NOT NULL DEFAULT 'N', human_response_date TEXT, application_website TEXT, notes TEXT)";

/// Every record read from the database has valid dates.
pub open spec fn all_valid(v: Seq<JobApplication>) -> bool {
    forall|i: int| 0 <= i < v.len() ==> (#[trigger] v[i])@.is_valid()
}

/// The parameters hold no floating-point value.
pub open spec fn binds_no_real(params: Seq<SqlValue>) -> bool {
    forall|i: int| 0 <= i < params.len() ==> !((#[trigger] params[i]) is Real)
}

proof fn lemma_no_real(params: Seq<SqlValue>, data: Seq<Datum>)
    requires
        data_of(params) == data,
        forall|i: int| 0 <= i < data.len() ==> !((#[trigger] data[i]) is Real),
    ensures
        binds_no_real(params),
{
    assert forall|i: int| 0 <= i < params.len() implies !((#[trigger] params[i]) is Real) by {
        assert(data[i] == params[i]@);
    }
}

proof fn lemma_decoded_valid(row: Seq<Datum>)
    requires
        decode_row(row) is Ok,
    ensures
        decode_row(row)->Ok_0.is_valid(),
{
}

/// The operations on stored job applications. Not finding an application is
/// no error, for reads and writes alike.
pub trait JobApplicationRepository: Sized {
    /// Every stored application, in no particular order.
    fn get_job_applications(&mut self) -> (r: Result<Vec<JobApplication>, RepositoryError>)
        ensures
            r is Ok ==> all_valid(r->Ok_0@),
            r is Err ==> is_read_error(r->Err_0),
    ;

    /// The applications that have no human response yet.
    fn get_pending_job_applications(&mut self) -> (r: Result<Vec<JobApplication>, RepositoryError>)
        ensures
            r is Ok ==> all_valid(r->Ok_0@),
            r is Err ==> is_read_error(r->Err_0),
    {
        self.search_by_human_response(HumanResponse::NoResponse)
    }

    /// The application with the given id, if one is stored.
    fn get_job_application_by_id(&mut self, id: i32) -> (r: Result<
        Option<JobApplication>,
        RepositoryError,
    >)
        ensures
            r matches Ok(Some(a)) ==> a@.is_valid(),
            r is Err ==> is_read_error(r->Err_0),
    ;

    /// The applications whose source, company or job title contains `query`,
    /// ignoring case.
    fn search_job_applications(&mut self, query: &str) -> (r: Result<
        Vec<JobApplication>,
        RepositoryError,
    >)
        ensures
            r is Ok ==> all_valid(r->Ok_0@),
            r is Err ==> is_read_error(r->Err_0),
    ;

    /// The applications with the given human response.
    fn search_by_human_response(&mut self, human_response: HumanResponse) -> (r: Result<
        Vec<JobApplication>,
        RepositoryError,
    >)
        ensures
            r is Ok ==> all_valid(r->Ok_0@),
            r is Err ==> is_read_error(r->Err_0),
    ;

    /// The applications that match `query` as `search_job_applications`
    /// does and have the given human response.
    fn search_by_query_and_human_response(
        &mut self,
        query: &str,
        human_response: HumanResponse,
    ) -> (r: Result<Vec<JobApplication>, RepositoryError>)
        ensures
            r is Ok ==> all_valid(r->Ok_0@),
            r is Err ==> is_read_error(r->Err_0),
    ;

    /// Stores a new application and returns it under the id that the
    /// database gave it; the id it carries is ignored.
    fn insert_job_application(&mut self, application: &JobApplication) -> (r: Result<
        JobApplication,
        RepositoryError,
    >)
        requires
            application@.is_valid(),
        ensures
            r is Ok ==> r->Ok_0@ == (ApplicationRecord { id: r->Ok_0.id, ..application@ }),
    ;

    /// Sets the human response of the application with the given id, and
    /// the date it came on: today's date in UTC where none is given.
    fn update_human_response(
        &mut self,
        id: i32,
        human_response: HumanResponse,
        human_response_date: Option<Date>,
    ) -> (r: Result<(), RepositoryError>)
        requires
            opt_date_valid(human_response_date),
        ensures
            r is Err ==> is_engine_error(r->Err_0),
    ;

    /// Replaces every field but the id of the application whose id
    /// `application` carries.
    fn update_job_application(&mut self, application: &JobApplication) -> (r: Result<
        (),
        RepositoryError,
    >)
        requires
            application@.is_valid(),
        ensures
            r is Err ==> is_engine_error(r->Err_0),
    ;

    /// Sets the fields that the projection carries on the application that
    /// its single identifier entry names, leaving the others as they were.
    /// A projection with no identifier entry, with more than one, or with no
    /// other entry is refused, and the database is not touched.
    fn update_job_application_partial(&mut self, partial_application: PartialJobApplication) -> (r:
        Result<(), RepositoryError>)
        requires
            fields_valid(partial_application@),
        ensures
            check_projection(partial_application@) is Err <==> (r is Err && (r->Err_0 is NoIdField
                || r->Err_0 is MultipleIdFields || r->Err_0 is NoChanges)),
            check_projection(partial_application@) is Err ==> r->Err_0 == check_projection(
                partial_application@,
            )->Err_0 && *final(self) == *old(self),
            check_projection(partial_application@) is Ok && r is Err ==> is_engine_error(r->Err_0),
    ;

    /// Removes the application with the given id.
    fn delete_job_application(&mut self, id: i32) -> (r: Result<(), RepositoryError>)
        ensures
            r is Err ==> is_engine_error(r->Err_0),
    ;
}

/// Relies on the variants of rusqlite::types::Value: converts one for one.
/// The floating-point variant carries no number here; no statement binds it.
#[verifier::external_body]
fn engine_value(v: &SqlValue) -> rusqlite::types::Value {
    match v {
        SqlValue::Null => rusqlite::types::Value::Null,
        SqlValue::Integer(i) => rusqlite::types::Value::Integer(*i),
        SqlValue::Text(s) => rusqlite::types::Value::Text(s.clone()),
        SqlValue::Blob(b) => rusqlite::types::Value::Blob(b.clone()),
        SqlValue::Real => rusqlite::types::Value::Null,
    }
}

/// Relies on the variants of rusqlite::types::Value: converts one for one,
/// keeping no floating-point number.
#[verifier::external_body]
fn plain_value(v: rusqlite::types::Value) -> SqlValue {
    match v {
        rusqlite::types::Value::Null => SqlValue::Null,
        rusqlite::types::Value::Integer(i) => SqlValue::Integer(i),
        rusqlite::types::Value::Text(s) => SqlValue::Text(s),
        rusqlite::types::Value::Blob(b) => SqlValue::Blob(b),
        rusqlite::types::Value::Real(_) => SqlValue::Real,
    }
}

/// Relies on rusqlite::Connection::open: opens the database file at `path`,
/// creating it where it does not exist.
#[verifier::external_body]
fn open_file(path: &str) -> Result<Connection, rusqlite::Error> {
    Connection::open(path)
}

/// Relies on rusqlite::Connection::execute: runs one statement with its
/// parameters bound in order.
#[verifier::external_body]
fn execute(conn: &Connection, stmt: &Statement) -> Result<usize, rusqlite::Error>
    requires
        binds_no_real(stmt.params@),
{
    conn.execute(stmt.sql.as_str(), rusqlite::params_from_iter(stmt.params.iter().map(engine_value)))
}

/// Relies on rusqlite's Connection::prepare, Statement::query, Rows::next and
/// Row::get: the rows that a query yields, each as its first `width` values.
#[verifier::external_body]
fn query(conn: &Connection, stmt: &Statement, width: usize) -> (r: Result<
    Vec<Vec<SqlValue>>,
    rusqlite::Error,
>)
    requires
        binds_no_real(stmt.params@),
    ensures
        r is Ok ==> forall|i: int|
            0 <= i < r->Ok_0@.len() ==> (#[trigger] r->Ok_0@[i])@.len() == width,
{
    let mut prepared = conn.prepare(stmt.sql.as_str())?;
    let mut rows = prepared.query(rusqlite::params_from_iter(stmt.params.iter().map(engine_value)))?;
    let mut out = Vec::new();
    while let Some(row) = rows.next()? {
        let mut values = Vec::new();
        for i in 0..width {
            values.push(plain_value(row.get::<usize, rusqlite::types::Value>(i)?));
        }
        out.push(values);
    }
    Ok(out)
}

/// Relies on rusqlite::Connection::last_insert_rowid: the row id of the
/// latest successful insert.
#[verifier::external_body]
fn last_insert_rowid(conn: &Connection) -> i64 {
    conn.last_insert_rowid()
}

/// Opens the database file at `path` and creates the job application table
/// in it where it is missing.
pub fn get_or_make_db(path: &str) -> (r: Result<Connection, RepositoryError>)
    ensures
        r is Err ==> r->Err_0 is Sqlite,
{
    let conn = match open_file(path) {
        Ok(c) => c,
        Err(e) => return Err(RepositoryError::Sqlite(e)),
    };
    let stmt = Statement { sql: String::from_str(TABLE_DEFINITION), params: Vec::new() };
    match execute(&conn, &stmt) {
        Ok(_) => Ok(conn),
        Err(e) => Err(RepositoryError::Sqlite(e)),
    }
}

/// Runs a query that yields job applications and reads them.
fn read_applications(conn: &Connection, stmt: &Statement) -> (r: Result<
    Vec<JobApplication>,
    RepositoryError,
>)
    requires
        binds_no_real(stmt.params@),
    ensures
        r is Ok ==> all_valid(r->Ok_0@),
        r is Err ==> is_read_error(r->Err_0),
{
    match query(conn, stmt, COLUMN_COUNT) {
        Ok(rows) => {
            let r = decode_rows(&rows);
            proof {
                if r is Ok {
                    assert forall|i: int| 0 <= i < r->Ok_0@.len() implies (#[trigger] r->Ok_0@[
                        i
                    ])@.is_valid() by {
                        lemma_decoded_valid(data_of(rows@[i]@));
                    }
                }
            }
            r
        },
        Err(e) => Err(RepositoryError::Sqlite(e)),
    }
}

/// Converts the outcome of a statement that changes rows.
fn changed(r: Result<usize, rusqlite::Error>) -> (out: Result<(), RepositoryError>)
    ensures
        out is Ok <==> r is Ok,
        out is Err ==> out->Err_0 is Sqlite,
{
    match r {
        Ok(_) => Ok(()),
        Err(e) => Err(RepositoryError::Sqlite(e)),
    }
}

/// The application as stored under a row id that the database gave it; an
/// id that does not fit an `i32` is an error.
pub fn with_row_id(application: &JobApplication, row_id: i64) -> (r: Result<
    JobApplication,
    RepositoryError,
>)
    ensures
        r is Ok <==> i32::MIN <= row_id <= i32::MAX,
        r is Ok ==> r->Ok_0@ == (ApplicationRecord { id: row_id as i32, ..application@ }),
        r is Err ==> r->Err_0 == RepositoryError::IdOutOfRange(row_id),
{
    if row_id < i32::MIN as i64 || row_id > i32::MAX as i64 {
        return Err(RepositoryError::IdOutOfRange(row_id));
    }
    Ok(application.with_id(row_id as i32))
}

impl JobApplicationRepository for Connection {
    fn get_job_applications(&mut self) -> (r: Result<Vec<JobApplication>, RepositoryError>) {
        let stmt = crate::statement::select_all();
        read_applications(self, &stmt)
    }

    fn get_job_application_by_id(&mut self, id: i32) -> (r: Result<
        Option<JobApplication>,
        RepositoryError,
    >) {
        let stmt = crate::statement::select_by_id(id);
        proof {
            lemma_no_real(stmt.params@, seq![Datum::Integer(id as i64)]);
        }
        let rows = match query(self, &stmt, COLUMN_COUNT) {
            Ok(rows) => rows,
            Err(e) => return Err(RepositoryError::Sqlite(e)),
        };
        let r = first_application(&rows);
        proof {
            if rows@.len() > 0 && r is Ok {
                lemma_decoded_valid(data_of(rows@[0]@));
            }
        }
        r
    }

    fn search_job_applications(&mut self, query: &str) -> (r: Result<
        Vec<JobApplication>,
        RepositoryError,
    >) {
        let lowered = lowercase(query);
        let stmt = crate::statement::search(lowered.as_str());
        proof {
            lemma_no_real(
                stmt.params@,
                seq![Datum::Text(crate::statement::like_pattern(lowered@))],
            );
        }
        read_applications(self, &stmt)
    }

    fn search_by_human_response(&mut self, human_response: HumanResponse) -> (r: Result<
        Vec<JobApplication>,
        RepositoryError,
    >) {
        let stmt = crate::statement::select_by_response(human_response);
        proof {
            lemma_no_real(stmt.params@, seq![crate::codec::response_datum(human_response)]);
        }
        read_applications(self, &stmt)
    }

    fn search_by_query_and_human_response(
        &mut self,
        query: &str,
        human_response: HumanResponse,
    ) -> (r: Result<Vec<JobApplication>, RepositoryError>) {
        let lowered = lowercase(query);
        let stmt = crate::statement::search_with_response(lowered.as_str(), human_response);
        proof {
            lemma_no_real(
                stmt.params@,
                seq![
                    Datum::Text(crate::statement::like_pattern(lowered@)),
                    crate::codec::response_datum(human_response),
                ],
            );
        }
        read_applications(self, &stmt)
    }

    fn insert_job_application(&mut self, application: &JobApplication) -> (r: Result<
        JobApplication,
        RepositoryError,
    >) {
        let stmt = crate::statement::insert(application);
        proof {
            lemma_no_real(stmt.params@, crate::codec::record_row(application@).drop_first());
        }
        match execute(self, &stmt) {
            Ok(_) => with_row_id(application, last_insert_rowid(self)),
            Err(e) => Err(RepositoryError::Sqlite(e)),
        }
    }

    fn update_human_response(
        &mut self,
        id: i32,
        human_response: HumanResponse,
        human_response_date: Option<Date>,
    ) -> (r: Result<(), RepositoryError>) {
        let today = today_utc();
        let stmt = crate::statement::response_statement(
            id,
            human_response,
            human_response_date,
            today,
        );
        proof {
            lemma_no_real(
                stmt.params@,
                seq![
                    crate::codec::response_datum(human_response),
                    Datum::Text(
                        crate::date::date_text(
                            crate::statement::response_date(human_response_date, today),
                        ),
                    ),
                    Datum::Integer(id as i64),
                ],
            );
        }
        changed(execute(self, &stmt))
    }

    fn update_job_application(&mut self, application: &JobApplication) -> (r: Result<
        (),
        RepositoryError,
    >) {
        let stmt = crate::statement::full_update(application);
        proof {
            lemma_no_real(
                stmt.params@,
                crate::codec::record_row(application@).drop_first().push(
                    Datum::Integer(application.id as i64),
                ),
            );
        }
        changed(execute(self, &stmt))
    }

    fn update_job_application_partial(&mut self, partial_application: PartialJobApplication) -> (r:
        Result<(), RepositoryError>) {
        let stmt = match crate::statement::partial_update(&partial_application) {
            Ok(s) => s,
            Err(e) => return Err(e),
        };
        proof {
            crate::statement::lemma_update_binds_no_real(partial_application@);
            lemma_no_real(
                stmt.params@,
                crate::statement::assigned_data(partial_application@).push(
                    Datum::Integer(crate::statement::target_id(partial_application@) as i64),
                ),
            );
        }
        changed(execute(self, &stmt))
    }

    fn delete_job_application(&mut self, id: i32) -> (r: Result<(), RepositoryError>) {
        let stmt = crate::statement::delete(id);
        proof {
            lemma_no_real(stmt.params@, seq![Datum::Integer(id as i64)]);
        }
        changed(execute(self, &stmt))
    }
}

} // verus!
