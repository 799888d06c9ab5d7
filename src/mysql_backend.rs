//! The repository on a MySQL server. Values travel as the driver's binary
//! protocol has them: text as UTF-8 bytes, dates as date values, the time
//! investment as a time value. Rows read back are mapped onto the stored
//! values of `codec` and read there, so both databases read records alike.
use vstd::prelude::*;
use vstd::utf8::{decode_utf8, encode_utf8, valid_utf8};

use mysql::prelude::Queryable;
use mysql::PooledConn;

use crate::codec::{data_of, decode_row, decode_values, Datum, SqlValue, COLUMN_COUNT};
use crate::date::{abs, date_text, is_valid_date, today_utc, Date};
use crate::error::{is_read_error, RepositoryError};
use crate::job_application_model::{
    code_of, opt_text, ApplicationRecord, FieldValue, HumanResponse, JobApplication,
    JobApplicationField, PartialJobApplication,
};
use crate::job_application_repository::{all_valid, with_row_id, JobApplicationRepository};
use crate::statement::{
    assigned, assigned_columns, check_projection, fields_valid, like_pattern, target_id,
    response_date, update_sql, update_sql_for, value_columns,
};
use crate::text::lowercase;

verus! {

#[verifier::external_type_specification]
#[verifier::external_body]
pub struct ExPooledConn(mysql::PooledConn);

#[verifier::external_type_specification]
#[verifier::external_body]
pub struct ExDriverValue(mysql::Value);

/// A value as the MySQL driver hands it over.
#[derive(Clone, Debug, PartialEq)]
pub enum MySqlValue {
    Null,
    Bytes(Vec<u8>),
    Int(i64),
    UInt(u64),
    /// A single-precision number; no column of the table holds one.
    Float,
    /// A double-precision number; no column of the table holds one.
    Double,
    /// Year, month, day, hour, minutes, seconds, microseconds.
    Date(u16, u8, u8, u8, u8, u8, u32),
    /// Negative or not, days, hours, minutes, seconds, microseconds.
    Time(bool, u32, u8, u8, u8, u32),
}

/// The mathematical value of a driver value.
pub enum MyDatum {
    Null,
    Bytes(Seq<u8>),
    Int(i64),
    UInt(u64),
    Float,
    Double,
    Date(u16, u8, u8, u8, u8, u8, u32),
    Time(bool, u32, u8, u8, u8, u32),
}

impl View for MySqlValue {
    type V = MyDatum;

    open spec fn view(&self) -> MyDatum {
        match self {
            MySqlValue::Null => MyDatum::Null,
            MySqlValue::Bytes(b) => MyDatum::Bytes(b@),
            MySqlValue::Int(i) => MyDatum::Int(*i),
            MySqlValue::UInt(u) => MyDatum::UInt(*u),
            MySqlValue::Float => MyDatum::Float,
            MySqlValue::Double => MyDatum::Double,
            MySqlValue::Date(y, m, d, h, mi, s, us) => MyDatum::Date(*y, *m, *d, *h, *mi, *s, *us),
            MySqlValue::Time(n, d, h, mi, s, us) => MyDatum::Time(*n, *d, *h, *mi, *s, *us),
        }
    }
}

pub open spec fn my_data_of(v: Seq<MySqlValue>) -> Seq<MyDatum> {
    Seq::new(v.len(), |i: int| v[i]@)
}

/// The values hold no floating-point number.
pub open spec fn binds_no_float(v: Seq<MySqlValue>) -> bool {
    forall|i: int| 0 <= i < v.len() ==> !((#[trigger] v[i]) is Float || v[i] is Double)
}

// Writing

pub open spec fn my_text(s: Seq<char>) -> MyDatum {
    MyDatum::Bytes(encode_utf8(s))
}

/// A date as the driver's date value, the year cast to 16 bits as the
/// driver casts it.
pub open spec fn my_date(d: Date) -> MyDatum {
    MyDatum::Date(d.year as u16, d.month, d.day, 0, 0, 0, 0)
}

/// A number of seconds as the driver's time value, the days cast to 32 bits
/// as the driver casts them.
pub open spec fn my_duration(t: i64) -> MyDatum {
    let a = abs(t as int);
    MyDatum::Time(
        t < 0,
        (a / 86400) as u32,
        (a % 86400 / 3600) as u8,
        (a % 3600 / 60) as u8,
        (a % 60) as u8,
        0,
    )
}

pub open spec fn my_opt_text(o: Option<Seq<char>>) -> MyDatum {
    match o {
        Some(s) => my_text(s),
        None => MyDatum::Null,
    }
}

pub open spec fn my_opt_date(o: Option<Date>) -> MyDatum {
    match o {
        Some(d) => my_date(d),
        None => MyDatum::Null,
    }
}

pub open spec fn my_opt_duration(o: Option<i64>) -> MyDatum {
    match o {
        Some(t) => my_duration(t),
        None => MyDatum::Null,
    }
}

/// The driver value of a field entry.
pub open spec fn my_field_datum(f: FieldValue) -> MyDatum {
    match f {
        FieldValue::Id(i) => MyDatum::Int(i as i64),
        FieldValue::Source(s) => my_text(s),
        FieldValue::Company(s) => my_text(s),
        FieldValue::JobTitle(s) => my_text(s),
        FieldValue::ApplicationDate(d) => my_date(d),
        FieldValue::TimeInvestment(t) => my_opt_duration(t),
        FieldValue::HumanResponse(h) => my_text(code_of(h)),
        FieldValue::HumanResponseDate(d) => my_opt_date(d),
        FieldValue::ApplicationWebsite(s) => my_opt_text(s),
        FieldValue::Notes(s) => my_opt_text(s),
    }
}

/// The driver values of a record, in column order.
pub open spec fn my_record_row(r: ApplicationRecord) -> Seq<MyDatum> {
    seq![
        MyDatum::Int(r.id as i64),
        my_text(r.source),
        my_text(r.company),
        my_text(r.job_title),
        my_date(r.application_date),
        my_opt_duration(r.time_investment),
        my_text(code_of(r.human_response)),
        my_opt_date(r.human_response_date),
        my_opt_text(r.application_website),
        my_opt_text(r.notes),
    ]
}

pub open spec fn my_assigned_data(fs: Seq<FieldValue>) -> Seq<MyDatum> {
    assigned(fs).map_values(|f: FieldValue| my_field_datum(f))
}

fn my_text_value(s: &str) -> (r: MySqlValue)
    ensures
        r@ == my_text(s@),
{
    MySqlValue::Bytes(s.as_bytes_vec())
}

fn my_opt_text_value(o: &Option<String>) -> (r: MySqlValue)
    ensures
        r@ == my_opt_text(opt_text(*o)),
{
    match o {
        Some(s) => my_text_value(s.as_str()),
        None => MySqlValue::Null,
    }
}

fn my_date_value(d: Date) -> (r: MySqlValue)
    ensures
        r@ == my_date(d),
{
    MySqlValue::Date(#[verifier::truncate] (d.year as u16), d.month, d.day, 0, 0, 0, 0)
}

fn my_opt_date_value(o: Option<Date>) -> (r: MySqlValue)
    ensures
        r@ == my_opt_date(o),
{
    match o {
        Some(d) => my_date_value(d),
        None => MySqlValue::Null,
    }
}

fn my_duration_value(t: i64) -> (r: MySqlValue)
    ensures
        r@ == my_duration(t),
{
    let a: u64 = if t < 0 {
        ((-(t + 1)) as u64) + 1
    } else {
        t as u64
    };
    assert(a as int == abs(t as int));
    let days: u32 = #[verifier::truncate] ((a / 86400) as u32);
    let hours: u8 = (a % 86400 / 3600) as u8;
    let minutes: u8 = (a % 3600 / 60) as u8;
    let seconds: u8 = (a % 60) as u8;
    MySqlValue::Time(t < 0, days, hours, minutes, seconds, 0)
}

fn my_opt_duration_value(o: Option<i64>) -> (r: MySqlValue)
    ensures
        r@ == my_opt_duration(o),
{
    match o {
        Some(t) => my_duration_value(t),
        None => MySqlValue::Null,
    }
}

/// The driver value of a field entry.
pub fn my_field_value(f: &JobApplicationField) -> (r: MySqlValue)
    ensures
        r@ == my_field_datum(f@),
{
    match f {
        JobApplicationField::Id(i) => MySqlValue::Int(*i as i64),
        JobApplicationField::Source(s) => my_text_value(s.as_str()),
        JobApplicationField::Company(s) => my_text_value(s.as_str()),
        JobApplicationField::JobTitle(s) => my_text_value(s.as_str()),
        JobApplicationField::ApplicationDate(d) => my_date_value(*d),
        JobApplicationField::TimeInvestment(t) => my_opt_duration_value(*t),
        JobApplicationField::HumanResponse(h) => my_text_value(h.code()),
        JobApplicationField::HumanResponseDate(d) => my_opt_date_value(*d),
        JobApplicationField::ApplicationWebsite(s) => my_opt_text_value(s),
        JobApplicationField::Notes(s) => my_opt_text_value(s),
    }
}

/// The driver values of a job application, in column order.
pub fn my_record_values(a: &JobApplication) -> (r: Vec<MySqlValue>)
    ensures
        my_data_of(r@) == my_record_row(a@),
{
    let mut r: Vec<MySqlValue> = Vec::new();
    r.push(MySqlValue::Int(a.id as i64));
    r.push(my_text_value(a.source.as_str()));
    r.push(my_text_value(a.company.as_str()));
    r.push(my_text_value(a.job_title.as_str()));
    r.push(my_date_value(a.application_date));
    r.push(my_opt_duration_value(a.time_investment));
    r.push(my_text_value(a.human_response.code()));
    r.push(my_opt_date_value(a.human_response_date));
    r.push(my_opt_text_value(&a.application_website));
    r.push(my_opt_text_value(&a.notes));
    assert(my_data_of(r@) =~= my_record_row(a@));
    r
}

// Reading

/// The seconds that a driver time value holds, its microseconds dropped.
pub open spec fn time_seconds(negative: bool, days: u32, h: u8, mi: u8, s: u8) -> int {
    let a = days as int * 86400 + h as int * 3600 + mi as int * 60 + s as int;
    if negative {
        -a
    } else {
        a
    }
}

/// The stored value that a driver value stands for. Text is UTF-8 bytes; a
/// valid date reads as the text of that date and a time as its seconds. A
/// value that no column can read becomes an empty blob.
pub open spec fn stored_datum(v: MyDatum) -> Datum {
    match v {
        MyDatum::Null => Datum::Null,
        MyDatum::Bytes(b) => if valid_utf8(b) {
            Datum::Text(decode_utf8(b))
        } else {
            Datum::Blob(b)
        },
        MyDatum::Int(i) => Datum::Integer(i),
        MyDatum::UInt(u) => if u <= i64::MAX {
            Datum::Integer(u as i64)
        } else {
            Datum::Blob(Seq::empty())
        },
        MyDatum::Float => Datum::Real,
        MyDatum::Double => Datum::Real,
        MyDatum::Date(y, m, d, _, _, _, _) => if is_valid_date(y as int, m as int, d as int) {
            Datum::Text(date_text(Date { year: y as i32, month: m, day: d }))
        } else {
            Datum::Blob(Seq::empty())
        },
        MyDatum::Time(n, d, h, mi, s, _) => Datum::Integer(time_seconds(n, d, h, mi, s) as i64),
    }
}

pub open spec fn stored_row(row: Seq<MyDatum>) -> Seq<Datum> {
    row.map_values(|v: MyDatum| stored_datum(v))
}

/// Relies on String::from_utf8: it succeeds exactly on valid UTF-8 and then
/// holds the characters that the bytes encode; on failure
/// FromUtf8Error::into_bytes gives the bytes back.
#[verifier::external_body]
fn utf8_text(b: Vec<u8>) -> (r: Result<String, Vec<u8>>)
    ensures
        r is Ok <==> valid_utf8(b@),
        r is Ok ==> r->Ok_0@ == decode_utf8(b@),
        r is Err ==> r->Err_0@ == b@,
{
    String::from_utf8(b).map_err(|e| e.into_bytes())
}

/// The stored value that a driver value stands for.
pub fn stored_value(v: &MySqlValue) -> (r: SqlValue)
    ensures
        r@ == stored_datum(v@),
{
    match v {
        MySqlValue::Null => SqlValue::Null,
        MySqlValue::Bytes(b) => match utf8_text(b.clone()) {
            Ok(s) => SqlValue::Text(s),
            Err(b) => SqlValue::Blob(b),
        },
        MySqlValue::Int(i) => SqlValue::Integer(*i),
        MySqlValue::UInt(u) => if *u <= i64::MAX as u64 {
            SqlValue::Integer(*u as i64)
        } else {
            SqlValue::Blob(Vec::new())
        },
        MySqlValue::Float => SqlValue::Real,
        MySqlValue::Double => SqlValue::Real,
        MySqlValue::Date(y, m, d, _, _, _, _) => match Date::from_calendar_date(*y as i32, *m, *d) {
            Ok(date) => SqlValue::Text(date.to_text()),
            Err(_) => SqlValue::Blob(Vec::new()),
        },
        MySqlValue::Time(n, d, h, mi, s, _) => {
            let a: i64 = (*d as i64) * 86400 + (*h as i64) * 3600 + (*mi as i64) * 60 + (*s as i64);
            SqlValue::Integer(
                if *n {
                    -a
                } else {
                    a
                },
            )
        },
    }
}

/// Reads a row that the server yielded; a row that does not hold one value
/// per column is an error.
pub fn decode_my_row(row: &Vec<MySqlValue>) -> (r: Result<JobApplication, RepositoryError>)
    ensures
        row@.len() != COLUMN_COUNT ==> r is Err && r->Err_0 == RepositoryError::UnexpectedRowWidth(
            row@.len() as usize,
        ),
        row@.len() == COLUMN_COUNT ==> (r is Ok <==> decode_row(stored_row(my_data_of(row@))) is Ok),
        r is Ok ==> r->Ok_0@ == decode_row(stored_row(my_data_of(row@)))->Ok_0 && r->Ok_0@.is_valid(),
        row@.len() == COLUMN_COUNT && r is Err ==> r->Err_0 == crate::codec::column_error(
            crate::codec::first_bad_column(stored_row(my_data_of(row@))),
        ),
{
    if row.len() != COLUMN_COUNT {
        return Err(RepositoryError::UnexpectedRowWidth(row.len()));
    }
    let mut values: Vec<SqlValue> = Vec::new();
    let mut i: usize = 0;
    while i < row.len()
        invariant
            i <= row@.len(),
            row@.len() == COLUMN_COUNT,
            data_of(values@) == stored_row(my_data_of(row@)).take(i as int),
        decreases row@.len() - i,
    {
        let ghost before = values@;
        values.push(stored_value(&row[i]));
        proof {
            assert(data_of(values@) =~= data_of(before).push(stored_datum(row@[i as int]@)));
            assert(stored_row(my_data_of(row@)).take(i + 1) =~= stored_row(my_data_of(row@)).take(
                i as int,
            ).push(stored_datum(row@[i as int]@)));
        }
        i = i + 1;
    }
    proof {
        assert(stored_row(my_data_of(row@)).take(10) =~= stored_row(my_data_of(row@)));
    }
    let r = decode_values(&values);
    proof {
        if r is Ok {
            assert(r->Ok_0@.is_valid());
        }
    }
    r
}

/// Whether a record's values survive the driver's casts: years from 0 on,
/// and a time investment of fewer than 2^32 days.
pub open spec fn fits_driver(r: ApplicationRecord) -> bool {
    &&& r.application_date.year >= 0
    &&& match r.human_response_date {
        Some(d) => d.year >= 0,
        None => true,
    }
    &&& match r.time_investment {
        Some(t) => abs(t as int) < 86400 * 0x1_0000_0000,
        None => true,
    }
}

proof fn lemma_text_round_trip(s: Seq<char>)
    ensures
        stored_datum(my_text(s)) == Datum::Text(s),
{
    vstd::utf8::encode_utf8_valid_utf8(s);
    vstd::utf8::encode_utf8_decode_utf8(s);
}

proof fn lemma_date_round_trip(d: Date)
    requires
        d.is_valid(),
        d.year >= 0,
    ensures
        stored_datum(my_date(d)) == Datum::Text(date_text(d)),
{
    let y = d.year;
    assert((y as u16) as i32 == y) by (bit_vector)
        requires
            0 <= y && y <= 9999,
    ;
}

proof fn lemma_duration_round_trip(t: i64)
    requires
        abs(t as int) < 86400 * 0x1_0000_0000,
    ensures
        stored_datum(my_duration(t)) == Datum::Integer(t),
{
    let a = abs(t as int);
    assert(a == (a / 86400) * 86400 + (a % 86400 / 3600) * 3600 + (a % 3600 / 60) * 60 + a % 60)
        by (nonlinear_arith)
        requires
            a >= 0,
    ;
}

/// A record written through the driver and read back is the record again,
/// where its values survive the driver's casts.
#[verifier::spinoff_prover]
pub proof fn lemma_my_record_round_trip(r: ApplicationRecord)
    requires
        r.is_valid(),
        fits_driver(r),
    ensures
        decode_row(stored_row(my_record_row(r))) == Ok::<ApplicationRecord, int>(r),
{
    lemma_text_round_trip(r.source);
    lemma_text_round_trip(r.company);
    lemma_text_round_trip(r.job_title);
    lemma_text_round_trip(code_of(r.human_response));
    lemma_date_round_trip(r.application_date);
    if let Some(d) = r.human_response_date {
        lemma_date_round_trip(d);
    }
    if let Some(t) = r.time_investment {
        lemma_duration_round_trip(t);
    }
    if let Some(s) = r.application_website {
        lemma_text_round_trip(s);
    }
    if let Some(s) = r.notes {
        lemma_text_round_trip(s);
    }
    let mine = stored_row(my_record_row(r));
    let stored = crate::codec::record_row(r);
    assert forall|i: int| 0 <= i < 10 implies #[trigger] mine[i] == stored[i] by {
        assert(mine[i] == stored_datum(my_record_row(r)[i]));
    }
    assert(mine =~= stored);
    crate::codec::lemma_record_round_trip(r);
}

// Statements

/// A statement for the server: its text and the values bound to its `?`
/// placeholders, in order.
#[derive(Debug)]
pub struct MySqlStatement {
    pub sql: String,
    pub params: Vec<MySqlValue>,
}

pub open spec fn my_search_sql() -> Seq<char> {
    "SELECT id, source, company, job_title, application_date, time_investment, human_response, human_response_date, application_website, notes FROM job_applications WHERE LOWER(source) LIKE ? OR LOWER(company) LIKE ? OR LOWER(job_title) LIKE ?"@
}

pub open spec fn my_search_with_response_sql() -> Seq<char> {
    "SELECT id, source, company, job_title, application_date, time_investment, human_response, human_response_date, application_website, notes FROM job_applications WHERE (LOWER(source) LIKE ? OR LOWER(company) LIKE ? OR LOWER(job_title) LIKE ?) AND human_response = ?"@
}

/// The server statement of a partial update: the same text as on the
/// embedded database, the values as the driver has them. A projection
/// without exactly one identifier entry, or without any other entry, is
/// refused.
pub fn my_partial_update(p: &PartialJobApplication) -> (r: Result<MySqlStatement, RepositoryError>)
    requires
        fields_valid(p@),
    ensures
        check_projection(p@) is Err <==> r is Err,
        r is Err ==> r->Err_0 == check_projection(p@)->Err_0,
        r is Ok ==> r->Ok_0.sql@ == update_sql(assigned_columns(p@)) && my_data_of(
            r->Ok_0.params@,
        ) == my_assigned_data(p@).push(MyDatum::Int(target_id(p@) as i64)),
{
    let sql = match crate::statement::partial_update(p) {
        Ok(stmt) => stmt.sql,
        Err(e) => return Err(e),
    };
    let ghost fs = p@;
    let mut id: i32 = 0;
    let mut params: Vec<MySqlValue> = Vec::new();
    let mut i: usize = 0;
    while i < p.0.len()
        invariant
            fs == p@,
            i <= fs.len(),
            id == target_id(fs.take(i as int)),
            my_data_of(params@) == my_assigned_data(fs.take(i as int)),
        decreases fs.len() - i,
    {
        let f = &p.0[i];
        let ghost t = fs.take(i + 1);
        proof {
            assert(t.drop_last() =~= fs.take(i as int));
            assert(t.last() == f@);
        }
        match f {
            JobApplicationField::Id(v) => {
                id = *v;
            },
            _ => {
                let ghost before = params@;
                params.push(my_field_value(f));
                proof {
                    assert(assigned(t) == assigned(fs.take(i as int)).push(f@));
                    assert(my_data_of(params@) =~= my_data_of(before).push(my_field_datum(f@)));
                    assert(my_assigned_data(t) =~= my_assigned_data(fs.take(i as int)).push(
                        my_field_datum(f@),
                    ));
                }
            },
        }
        i = i + 1;
    }
    proof {
        assert(fs.take(fs.len() as int) =~= fs);
    }
    let ghost before = params@;
    params.push(MySqlValue::Int(id as i64));
    proof {
        assert(my_data_of(params@) =~= my_data_of(before).push(MyDatum::Int(id as i64)));
    }
    Ok(MySqlStatement { sql, params })
}

/// The server statement that replaces every field but the id.
pub fn my_full_update(a: &JobApplication) -> (r: MySqlStatement)
    ensures
        r.sql@ == update_sql(value_columns()),
        my_data_of(r.params@) == my_record_row(a@).drop_first().push(MyDatum::Int(a.id as i64)),
{
    let mut cols = Vec::new();
    cols.push(crate::job_application_model::Column::Source);
    cols.push(crate::job_application_model::Column::Company);
    cols.push(crate::job_application_model::Column::JobTitle);
    cols.push(crate::job_application_model::Column::ApplicationDate);
    cols.push(crate::job_application_model::Column::TimeInvestment);
    cols.push(crate::job_application_model::Column::HumanResponse);
    cols.push(crate::job_application_model::Column::HumanResponseDate);
    cols.push(crate::job_application_model::Column::ApplicationWebsite);
    cols.push(crate::job_application_model::Column::Notes);
    assert(cols@ =~= value_columns());
    let sql = update_sql_for(&cols);
    let mut params = my_record_values(a);
    assert(my_data_of(params@).len() == 10);
    params.remove(0);
    params.push(MySqlValue::Int(a.id as i64));
    assert(my_data_of(params@) =~= my_record_row(a@).drop_first().push(MyDatum::Int(a.id as i64)));
    MySqlStatement { sql, params }
}

/// The server statement that records a human response for the application
/// with the given id, dated `given`, or `today` where no date is given.
pub fn my_response_statement(
    id: i32,
    human_response: HumanResponse,
    given: Option<Date>,
    today: Date,
) -> (r: MySqlStatement)
    ensures
        r.sql@ == update_sql(
            seq![
                crate::job_application_model::Column::HumanResponse,
                crate::job_application_model::Column::HumanResponseDate,
            ],
        ),
        my_data_of(r.params@) == seq![
            my_text(code_of(human_response)),
            my_date(response_date(given, today)),
            MyDatum::Int(id as i64),
        ],
{
    let date = match given {
        Some(d) => d,
        None => today,
    };
    my_response_update(id, human_response, date)
}

/// The first row that a query by id yielded, read: no row means no
/// application with that id.
pub fn first_my_application(rows: &Vec<Vec<MySqlValue>>) -> (r: Result<
    Option<JobApplication>,
    RepositoryError,
>)
    ensures
        rows@.len() == 0 ==> r matches Ok(None),
        rows@.len() > 0 && rows@[0]@.len() != COLUMN_COUNT ==> r is Err && r->Err_0
            == RepositoryError::UnexpectedRowWidth(rows@[0]@.len() as usize),
        rows@.len() > 0 && rows@[0]@.len() == COLUMN_COUNT ==> (r is Ok <==> decode_row(
            stored_row(my_data_of(rows@[0]@)),
        ) is Ok),
        rows@.len() > 0 && r is Ok ==> r->Ok_0 is Some && r->Ok_0->Some_0@ == decode_row(
            stored_row(my_data_of(rows@[0]@)),
        )->Ok_0 && r->Ok_0->Some_0@.is_valid(),
        rows@.len() > 0 && rows@[0]@.len() == COLUMN_COUNT && r is Err ==> r->Err_0
            == crate::codec::column_error(
            crate::codec::first_bad_column(stored_row(my_data_of(rows@[0]@))),
        ),
{
    if rows.len() == 0 {
        return Ok(None);
    }
    match decode_my_row(&rows[0]) {
        Ok(a) => Ok(Some(a)),
        Err(e) => Err(e),
    }
}

/// The server statement that sets a human response and its date.
pub fn my_response_update(id: i32, human_response: HumanResponse, date: Date) -> (r: MySqlStatement)
    ensures
        r.sql@ == update_sql(
            seq![
                crate::job_application_model::Column::HumanResponse,
                crate::job_application_model::Column::HumanResponseDate,
            ],
        ),
        my_data_of(r.params@) == seq![
            my_text(code_of(human_response)),
            my_date(date),
            MyDatum::Int(id as i64),
        ],
{
    let mut cols = Vec::new();
    cols.push(crate::job_application_model::Column::HumanResponse);
    cols.push(crate::job_application_model::Column::HumanResponseDate);
    assert(cols@ =~= seq![
        crate::job_application_model::Column::HumanResponse,
        crate::job_application_model::Column::HumanResponseDate,
    ]);
    let sql = update_sql_for(&cols);
    let mut params: Vec<MySqlValue> = Vec::new();
    params.push(my_text_value(human_response.code()));
    params.push(my_date_value(date));
    params.push(MySqlValue::Int(id as i64));
    assert(my_data_of(params@) =~= seq![
        my_text(code_of(human_response)),
        my_date(date),
        MyDatum::Int(id as i64),
    ]);
    MySqlStatement { sql, params }
}

/// The server statement that adds an application.
pub fn my_insert(a: &JobApplication) -> (r: MySqlStatement)
    ensures
        r.sql@ == crate::statement::insert_sql(),
        my_data_of(r.params@) == my_record_row(a@).drop_first(),
{
    let mut params = my_record_values(a);
    assert(my_data_of(params@).len() == 10);
    params.remove(0);
    assert(my_data_of(params@) =~= my_record_row(a@).drop_first());
    MySqlStatement {
        sql: String::from_str(
            "INSERT INTO job_applications (source, company, job_title, application_date, time_investment, human_response, human_response_date, application_website, notes) VALUES (?, ?, ?, ?, ?, ?, ?, ?, ?)",
        ),
        params,
    }
}

/// The server statement that reads the applications matching an already
/// lower-cased query, with or without a given human response.
pub fn my_search(lowered: &str, human_response: Option<HumanResponse>) -> (r: MySqlStatement)
    ensures
        human_response is None ==> r.sql@ == my_search_sql(),
        human_response is Some ==> r.sql@ == my_search_with_response_sql(),
        human_response is None ==> my_data_of(r.params@) == seq![
            my_text(like_pattern(lowered@)),
            my_text(like_pattern(lowered@)),
            my_text(like_pattern(lowered@)),
        ],
        human_response is Some ==> my_data_of(r.params@) == seq![
            my_text(like_pattern(lowered@)),
            my_text(like_pattern(lowered@)),
            my_text(like_pattern(lowered@)),
            my_text(code_of(human_response->Some_0)),
        ],
{
    let pattern = crate::statement::search_pattern(lowered);
    let mut params: Vec<MySqlValue> = Vec::new();
    params.push(my_text_value(pattern.as_str()));
    params.push(my_text_value(pattern.as_str()));
    params.push(my_text_value(pattern.as_str()));
    match human_response {
        None => {
            assert(my_data_of(params@) =~= seq![
                my_text(like_pattern(lowered@)),
                my_text(like_pattern(lowered@)),
                my_text(like_pattern(lowered@)),
            ]);
            MySqlStatement {
                sql: String::from_str(
                    "SELECT id, source, company, job_title, application_date, time_investment, human_response, human_response_date, application_website, notes FROM job_applications WHERE LOWER(source) LIKE ? OR LOWER(company) LIKE ? OR LOWER(job_title) LIKE ?",
                ),
                params,
            }
        },
        Some(h) => {
            params.push(my_text_value(h.code()));
            assert(my_data_of(params@) =~= seq![
                my_text(like_pattern(lowered@)),
                my_text(like_pattern(lowered@)),
                my_text(like_pattern(lowered@)),
                my_text(code_of(h)),
            ]);
            MySqlStatement {
                sql: String::from_str(
                    "SELECT id, source, company, job_title, application_date, time_investment, human_response, human_response_date, application_website, notes FROM job_applications WHERE (LOWER(source) LIKE ? OR LOWER(company) LIKE ? OR LOWER(job_title) LIKE ?) AND human_response = ?",
                ),
                params,
            }
        },
    }
}

/// A server statement with the text of one built for the embedded database
/// and the same values as the driver has them; those statements bind ids
/// and codes alone.
fn my_simple(sql: String, params: Vec<MySqlValue>) -> (r: MySqlStatement)
    ensures
        r.sql@ == sql@,
        r.params@ == params@,
{
    MySqlStatement { sql, params }
}

// The driver

/// Relies on the variants of mysql::Value: converts one for one. The two
/// floating-point variants carry no number here; no statement binds them.
#[verifier::external_body]
fn driver_value(v: &MySqlValue) -> mysql::Value {
    match v {
        MySqlValue::Null => mysql::Value::NULL,
        MySqlValue::Bytes(b) => mysql::Value::Bytes(b.clone()),
        MySqlValue::Int(i) => mysql::Value::Int(*i),
        MySqlValue::UInt(u) => mysql::Value::UInt(*u),
        MySqlValue::Float | MySqlValue::Double => mysql::Value::NULL,
        MySqlValue::Date(y, m, d, h, mi, s, us) => mysql::Value::Date(*y, *m, *d, *h, *mi, *s, *us),
        MySqlValue::Time(n, d, h, mi, s, us) => mysql::Value::Time(*n, *d, *h, *mi, *s, *us),
    }
}

/// Relies on the variants of mysql::Value: converts one for one, keeping no
/// floating-point number.
#[verifier::external_body]
fn plain_driver_value(v: mysql::Value) -> MySqlValue {
    match v {
        mysql::Value::NULL => MySqlValue::Null,
        mysql::Value::Bytes(b) => MySqlValue::Bytes(b),
        mysql::Value::Int(i) => MySqlValue::Int(i),
        mysql::Value::UInt(u) => MySqlValue::UInt(u),
        mysql::Value::Float(_) => MySqlValue::Float,
        mysql::Value::Double(_) => MySqlValue::Double,
        mysql::Value::Date(y, m, d, h, mi, s, us) => MySqlValue::Date(y, m, d, h, mi, s, us),
        mysql::Value::Time(n, d, h, mi, s, us) => MySqlValue::Time(n, d, h, mi, s, us),
    }
}

/// Relies on Queryable::exec_drop of mysql::PooledConn: runs one statement
/// with its values bound in order.
#[verifier::external_body]
fn my_execute(conn: &mut PooledConn, stmt: &MySqlStatement) -> Result<(), mysql::Error>
    requires
        binds_no_float(stmt.params@),
{
    let values: Vec<mysql::Value> = stmt.params.iter().map(driver_value).collect();
    conn.exec_drop(stmt.sql.as_str(), mysql::Params::from(values))
}

/// Relies on Queryable::exec of mysql::PooledConn and Row::unwrap: the rows
/// of a query's first result set, each as its values.
#[verifier::external_body]
fn my_query(conn: &mut PooledConn, stmt: &MySqlStatement) -> Result<Vec<Vec<MySqlValue>>, mysql::Error>
    requires
        binds_no_float(stmt.params@),
{
    let values: Vec<mysql::Value> = stmt.params.iter().map(driver_value).collect();
    let rows: Vec<mysql::Row> = conn.exec(stmt.sql.as_str(), mysql::Params::from(values))?;
    Ok(rows.into_iter().map(|row| row.unwrap().into_iter().map(plain_driver_value).collect()).collect())
}

/// Relies on Conn::last_insert_id (through PooledConn's Deref): the id of
/// the latest insert, zero where there was none.
#[verifier::external_body]
fn my_last_insert_id(conn: &PooledConn) -> u64 {
    conn.last_insert_id()
}

proof fn lemma_no_float(params: Seq<MySqlValue>, data: Seq<MyDatum>)
    requires
        my_data_of(params) == data,
        forall|i: int|
            0 <= i < data.len() ==> !((#[trigger] data[i]) is Float || data[i] is Double),
    ensures
        binds_no_float(params),
{
    assert forall|i: int| 0 <= i < params.len() implies !((#[trigger] params[i]) is Float
        || params[i] is Double) by {
        assert(data[i] == params[i]@);
    }
}

proof fn lemma_assigned_no_float(fs: Seq<FieldValue>)
    ensures
        forall|i: int|
            0 <= i < my_assigned_data(fs).len() ==> !((#[trigger] my_assigned_data(fs)[i]) is Float
                || my_assigned_data(fs)[i] is Double),
{
    assert forall|i: int| 0 <= i < my_assigned_data(fs).len() implies !((
    #[trigger] my_assigned_data(fs)[i]) is Float || my_assigned_data(fs)[i] is Double) by {
        assert(my_assigned_data(fs)[i] == my_field_datum(assigned(fs)[i]));
    }
}

fn server_failed(e: mysql::Error) -> (r: RepositoryError)
    ensures
        r is MySql,
{
    RepositoryError::MySql(e)
}

/// Runs a query that yields job applications and reads them.
fn read_my_applications(conn: &mut PooledConn, stmt: &MySqlStatement) -> (r: Result<
    Vec<JobApplication>,
    RepositoryError,
>)
    requires
        binds_no_float(stmt.params@),
    ensures
        r is Ok ==> all_valid(r->Ok_0@),
        r is Err ==> is_read_error(r->Err_0),
{
    let rows = match my_query(conn, stmt) {
        Ok(rows) => rows,
        Err(e) => return Err(server_failed(e)),
    };
    let mut out: Vec<JobApplication> = Vec::new();
    let mut i: usize = 0;
    while i < rows.len()
        invariant
            i <= rows@.len(),
            all_valid(out@),
        decreases rows@.len() - i,
    {
        let a = decode_my_row(&rows[i])?;
        out.push(a);
        i = i + 1;
    }
    Ok(out)
}

impl JobApplicationRepository for PooledConn {
    fn get_job_applications(&mut self) -> (r: Result<Vec<JobApplication>, RepositoryError>) {
        let stmt = crate::statement::select_all();
        let stmt = my_simple(stmt.sql, Vec::new());
        read_my_applications(self, &stmt)
    }

    fn get_job_application_by_id(&mut self, id: i32) -> (r: Result<
        Option<JobApplication>,
        RepositoryError,
    >) {
        let mut params: Vec<MySqlValue> = Vec::new();
        params.push(MySqlValue::Int(id as i64));
        let stmt = my_simple(crate::statement::select_by_id(id).sql, params);
        proof {
            assert(my_data_of(stmt.params@) =~= seq![MyDatum::Int(id as i64)]);
            lemma_no_float(stmt.params@, seq![MyDatum::Int(id as i64)]);
        }
        let rows = match my_query(self, &stmt) {
            Ok(rows) => rows,
            Err(e) => return Err(server_failed(e)),
        };
        first_my_application(&rows)
    }

    fn search_job_applications(&mut self, query: &str) -> (r: Result<
        Vec<JobApplication>,
        RepositoryError,
    >) {
        let lowered = lowercase(query);
        let stmt = my_search(lowered.as_str(), None);
        proof {
            let t = my_text(like_pattern(lowered@));
            lemma_no_float(stmt.params@, seq![t, t, t]);
        }
        read_my_applications(self, &stmt)
    }

    fn search_by_human_response(&mut self, human_response: HumanResponse) -> (r: Result<
        Vec<JobApplication>,
        RepositoryError,
    >) {
        let mut params: Vec<MySqlValue> = Vec::new();
        params.push(my_text_value(human_response.code()));
        let stmt = my_simple(crate::statement::select_by_response(human_response).sql, params);
        proof {
            assert(my_data_of(stmt.params@) =~= seq![my_text(code_of(human_response))]);
            lemma_no_float(stmt.params@, seq![my_text(code_of(human_response))]);
        }
        read_my_applications(self, &stmt)
    }

    fn search_by_query_and_human_response(
        &mut self,
        query: &str,
        human_response: HumanResponse,
    ) -> (r: Result<Vec<JobApplication>, RepositoryError>) {
        let lowered = lowercase(query);
        let stmt = my_search(lowered.as_str(), Some(human_response));
        proof {
            let t = my_text(like_pattern(lowered@));
            lemma_no_float(stmt.params@, seq![t, t, t, my_text(code_of(human_response))]);
        }
        read_my_applications(self, &stmt)
    }

    fn insert_job_application(&mut self, application: &JobApplication) -> (r: Result<
        JobApplication,
        RepositoryError,
    >) {
        let stmt = my_insert(application);
        proof {
            lemma_no_float(stmt.params@, my_record_row(application@).drop_first());
        }
        match my_execute(self, &stmt) {
            Ok(()) => {
                let id = my_last_insert_id(self);
                let row_id: i64 = if id > i64::MAX as u64 {
                    i64::MAX
                } else {
                    id as i64
                };
                with_row_id(application, row_id)
            },
            Err(e) => Err(server_failed(e)),
        }
    }

    fn update_human_response(
        &mut self,
        id: i32,
        human_response: HumanResponse,
        human_response_date: Option<Date>,
    ) -> (r: Result<(), RepositoryError>) {
        let today = today_utc();
        let stmt = my_response_statement(id, human_response, human_response_date, today);
        proof {
            lemma_no_float(
                stmt.params@,
                seq![
                    my_text(code_of(human_response)),
                    my_date(response_date(human_response_date, today)),
                    MyDatum::Int(id as i64),
                ],
            );
        }
        match my_execute(self, &stmt) {
            Ok(()) => Ok(()),
            Err(e) => Err(server_failed(e)),
        }
    }

    fn update_job_application(&mut self, application: &JobApplication) -> (r: Result<
        (),
        RepositoryError,
    >) {
        let stmt = my_full_update(application);
        proof {
            lemma_no_float(
                stmt.params@,
                my_record_row(application@).drop_first().push(
                    MyDatum::Int(application.id as i64),
                ),
            );
        }
        match my_execute(self, &stmt) {
            Ok(()) => Ok(()),
            Err(e) => Err(server_failed(e)),
        }
    }

    fn update_job_application_partial(&mut self, partial_application: PartialJobApplication) -> (r:
        Result<(), RepositoryError>) {
        let stmt = match my_partial_update(&partial_application) {
            Ok(s) => s,
            Err(e) => return Err(e),
        };
        proof {
            lemma_assigned_no_float(partial_application@);
            lemma_no_float(
                stmt.params@,
                my_assigned_data(partial_application@).push(
                    MyDatum::Int(target_id(partial_application@) as i64),
                ),
            );
        }
        match my_execute(self, &stmt) {
            Ok(()) => Ok(()),
            Err(e) => Err(server_failed(e)),
        }
    }

    fn delete_job_application(&mut self, id: i32) -> (r: Result<(), RepositoryError>) {
        let mut params: Vec<MySqlValue> = Vec::new();
        params.push(MySqlValue::Int(id as i64));
        let stmt = my_simple(crate::statement::delete(id).sql, params);
        proof {
            assert(my_data_of(stmt.params@) =~= seq![MyDatum::Int(id as i64)]);
            lemma_no_float(stmt.params@, seq![MyDatum::Int(id as i64)]);
        }
        match my_execute(self, &stmt) {
            Ok(()) => Ok(()),
            Err(e) => Err(server_failed(e)),
        }
    }
}

} // verus!
