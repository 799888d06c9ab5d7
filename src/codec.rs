//! The values that the database stores, and how a job application and its
//! fields are written to and read from them.
//!
//! A stored row holds the columns in table order: id, source, company, job
//! title, application date, time investment (seconds), human response (its
//! code), human response date, application website, notes. Dates are stored
//! as text, absent optional fields as `NULL`.
use vstd::prelude::*;

use crate::date::{date_text, parse_date_text, Date};
use crate::error::RepositoryError;
use crate::job_application_model::{
    code_of, lemma_code_round_trip, opt_date_valid, opt_text, response_of_code, ApplicationRecord,
    FieldValue, HumanResponse, JobApplication, JobApplicationField, field_valid,
};

verus! {

/// A value as the database stores it.
#[derive(Clone, Debug, PartialEq)]
pub enum SqlValue {
    Null,
    Integer(i64),
    Text(String),
    /// A floating-point value; no column of the table holds one, so the
    /// number itself is not kept.
    Real,
    Blob(Vec<u8>),
}

/// The mathematical value of a stored value.
pub enum Datum {
    Null,
    Integer(i64),
    Text(Seq<char>),
    Real,
    Blob(Seq<u8>),
}

impl View for SqlValue {
    type V = Datum;

    open spec fn view(&self) -> Datum {
        match self {
            SqlValue::Null => Datum::Null,
            SqlValue::Integer(i) => Datum::Integer(*i),
            SqlValue::Text(s) => Datum::Text(s@),
            SqlValue::Real => Datum::Real,
            SqlValue::Blob(b) => Datum::Blob(b@),
        }
    }
}

/// The views of a sequence of stored values.
pub open spec fn data_of(v: Seq<SqlValue>) -> Seq<Datum> {
    Seq::new(v.len(), |i: int| v[i]@)
}

/// The number of columns of the job application table.
pub const COLUMN_COUNT: usize = 10;

// Writing

pub open spec fn opt_text_datum(o: Option<Seq<char>>) -> Datum {
    match o {
        Some(s) => Datum::Text(s),
        None => Datum::Null,
    }
}

pub open spec fn opt_int_datum(o: Option<i64>) -> Datum {
    match o {
        Some(i) => Datum::Integer(i),
        None => Datum::Null,
    }
}

pub open spec fn opt_date_datum(o: Option<Date>) -> Datum {
    match o {
        Some(d) => Datum::Text(date_text(d)),
        None => Datum::Null,
    }
}

pub open spec fn response_datum(h: HumanResponse) -> Datum {
    Datum::Text(code_of(h))
}

/// The stored value of a field entry.
pub open spec fn field_datum(f: FieldValue) -> Datum {
    match f {
        FieldValue::Id(i) => Datum::Integer(i as i64),
        FieldValue::Source(s) => Datum::Text(s),
        FieldValue::Company(s) => Datum::Text(s),
        FieldValue::JobTitle(s) => Datum::Text(s),
        FieldValue::ApplicationDate(d) => Datum::Text(date_text(d)),
        FieldValue::TimeInvestment(t) => opt_int_datum(t),
        FieldValue::HumanResponse(h) => response_datum(h),
        FieldValue::HumanResponseDate(d) => opt_date_datum(d),
        FieldValue::ApplicationWebsite(s) => opt_text_datum(s),
        FieldValue::Notes(s) => opt_text_datum(s),
    }
}

/// The stored row of a record.
pub open spec fn record_row(r: ApplicationRecord) -> Seq<Datum> {
    seq![
        Datum::Integer(r.id as i64),
        Datum::Text(r.source),
        Datum::Text(r.company),
        Datum::Text(r.job_title),
        Datum::Text(date_text(r.application_date)),
        opt_int_datum(r.time_investment),
        response_datum(r.human_response),
        opt_date_datum(r.human_response_date),
        opt_text_datum(r.application_website),
        opt_text_datum(r.notes),
    ]
}

fn text_value(s: &String) -> (r: SqlValue)
    ensures
        r@ == Datum::Text(s@),
{
    SqlValue::Text(s.clone())
}

fn opt_text_value(o: &Option<String>) -> (r: SqlValue)
    ensures
        r@ == opt_text_datum(opt_text(*o)),
{
    match o {
        Some(s) => SqlValue::Text(s.clone()),
        None => SqlValue::Null,
    }
}

fn opt_int_value(o: Option<i64>) -> (r: SqlValue)
    ensures
        r@ == opt_int_datum(o),
{
    match o {
        Some(i) => SqlValue::Integer(i),
        None => SqlValue::Null,
    }
}

fn date_value(d: &Date) -> (r: SqlValue)
    requires
        d.is_valid(),
    ensures
        r@ == Datum::Text(date_text(*d)),
{
    SqlValue::Text(d.to_text())
}

fn opt_date_value(o: Option<Date>) -> (r: SqlValue)
    requires
        opt_date_valid(o),
    ensures
        r@ == opt_date_datum(o),
{
    match o {
        Some(d) => date_value(&d),
        None => SqlValue::Null,
    }
}

/// The stored value of a human response: its code.
pub fn response_value(h: HumanResponse) -> (r: SqlValue)
    ensures
        r@ == response_datum(h),
{
    SqlValue::Text(String::from_str(h.code()))
}

/// The stored value of a field entry.
pub fn field_value(f: &JobApplicationField) -> (r: SqlValue)
    requires
        field_valid(f@),
    ensures
        r@ == field_datum(f@),
{
    match f {
        JobApplicationField::Id(i) => SqlValue::Integer(*i as i64),
        JobApplicationField::Source(s) => text_value(s),
        JobApplicationField::Company(s) => text_value(s),
        JobApplicationField::JobTitle(s) => text_value(s),
        JobApplicationField::ApplicationDate(d) => date_value(d),
        JobApplicationField::TimeInvestment(t) => opt_int_value(*t),
        JobApplicationField::HumanResponse(h) => response_value(*h),
        JobApplicationField::HumanResponseDate(d) => opt_date_value(*d),
        JobApplicationField::ApplicationWebsite(s) => opt_text_value(s),
        JobApplicationField::Notes(s) => opt_text_value(s),
    }
}

/// The stored row of a job application.
pub fn record_values(a: &JobApplication) -> (r: Vec<SqlValue>)
    requires
        a@.is_valid(),
    ensures
        data_of(r@) == record_row(a@),
{
    let mut r: Vec<SqlValue> = Vec::new();
    r.push(SqlValue::Integer(a.id as i64));
    r.push(text_value(&a.source));
    r.push(text_value(&a.company));
    r.push(text_value(&a.job_title));
    r.push(date_value(&a.application_date));
    r.push(opt_int_value(a.time_investment));
    r.push(response_value(a.human_response));
    r.push(opt_date_value(a.human_response_date));
    r.push(opt_text_value(&a.application_website));
    r.push(opt_text_value(&a.notes));
    assert(data_of(r@) =~= record_row(a@));
    r
}

// Reading

pub open spec fn decode_id(v: Datum) -> Option<i32> {
    match v {
        Datum::Integer(i) => if i32::MIN <= i <= i32::MAX {
            Some(i as i32)
        } else {
            None
        },
        _ => None,
    }
}

pub open spec fn decode_text(v: Datum) -> Option<Seq<char>> {
    match v {
        Datum::Text(s) => Some(s),
        _ => None,
    }
}

pub open spec fn decode_opt_text(v: Datum) -> Option<Option<Seq<char>>> {
    match v {
        Datum::Null => Some(None),
        Datum::Text(s) => Some(Some(s)),
        _ => None,
    }
}

pub open spec fn decode_opt_int(v: Datum) -> Option<Option<i64>> {
    match v {
        Datum::Null => Some(None),
        Datum::Integer(i) => Some(Some(i)),
        _ => None,
    }
}

pub open spec fn decode_date(v: Datum) -> Option<Date> {
    match v {
        Datum::Text(s) => parse_date_text(s),
        _ => None,
    }
}

pub open spec fn decode_opt_date(v: Datum) -> Option<Option<Date>> {
    match v {
        Datum::Null => Some(None),
        Datum::Text(s) => match parse_date_text(s) {
            Some(d) => Some(Some(d)),
            None => None,
        },
        _ => None,
    }
}

/// A stored human response: any text reads as a response, an unknown code as
/// no reply yet; `NULL` and values of other types cannot be read.
pub open spec fn decode_response(v: Datum) -> Option<HumanResponse> {
    match v {
        Datum::Text(s) => Some(response_of_code(s)),
        _ => None,
    }
}

/// Whether the value in column `k` of a stored row can be read.
pub open spec fn column_decodes(row: Seq<Datum>, k: int) -> bool {
    if k == 0 {
        decode_id(row[0]) is Some
    } else if 1 <= k <= 3 {
        decode_text(row[k]) is Some
    } else if k == 4 {
        decode_date(row[4]) is Some
    } else if k == 5 {
        decode_opt_int(row[5]) is Some
    } else if k == 6 {
        decode_response(row[6]) is Some
    } else if k == 7 {
        decode_opt_date(row[7]) is Some
    } else {
        decode_opt_text(row[k]) is Some
    }
}

/// The first column of a stored row that cannot be read, or the column
/// count where every column can.
pub open spec fn first_bad_column(row: Seq<Datum>) -> int {
    if !column_decodes(row, 0) {
        0
    } else if !column_decodes(row, 1) {
        1
    } else if !column_decodes(row, 2) {
        2
    } else if !column_decodes(row, 3) {
        3
    } else if !column_decodes(row, 4) {
        4
    } else if !column_decodes(row, 5) {
        5
    } else if !column_decodes(row, 6) {
        6
    } else if !column_decodes(row, 7) {
        7
    } else if !column_decodes(row, 8) {
        8
    } else if !column_decodes(row, 9) {
        9
    } else {
        10
    }
}

/// The record that a stored row holds, where every column can be read.
pub open spec fn decode_row(row: Seq<Datum>) -> Result<ApplicationRecord, int> {
    if first_bad_column(row) < 10 {
        Err(first_bad_column(row))
    } else {
        Ok(
            ApplicationRecord {
                id: decode_id(row[0])->Some_0,
                source: decode_text(row[1])->Some_0,
                company: decode_text(row[2])->Some_0,
                job_title: decode_text(row[3])->Some_0,
                application_date: decode_date(row[4])->Some_0,
                time_investment: decode_opt_int(row[5])->Some_0,
                human_response: decode_response(row[6])->Some_0,
                human_response_date: decode_opt_date(row[7])->Some_0,
                application_website: decode_opt_text(row[8])->Some_0,
                notes: decode_opt_text(row[9])->Some_0,
            },
        )
    }
}

/// The error for an unreadable value in column `k`.
pub open spec fn column_error(k: int) -> RepositoryError {
    RepositoryError::InvalidColumnValue(k as usize)
}

fn read_id(v: &SqlValue) -> (r: Option<i32>)
    ensures
        r == decode_id(v@),
{
    match v {
        SqlValue::Integer(i) => if i32::MIN as i64 <= *i && *i <= i32::MAX as i64 {
            Some(*i as i32)
        } else {
            None
        },
        _ => None,
    }
}

fn read_text(v: &SqlValue) -> (r: Option<String>)
    ensures
        opt_text(r) == decode_text(v@),
{
    match v {
        SqlValue::Text(s) => Some(s.clone()),
        _ => None,
    }
}

fn read_opt_text(v: &SqlValue) -> (r: Option<Option<String>>)
    ensures
        r is Some <==> decode_opt_text(v@) is Some,
        r is Some ==> opt_text(r->Some_0) == decode_opt_text(v@)->Some_0,
{
    match v {
        SqlValue::Null => Some(None),
        SqlValue::Text(s) => Some(Some(s.clone())),
        _ => None,
    }
}

fn read_opt_int(v: &SqlValue) -> (r: Option<Option<i64>>)
    ensures
        r == decode_opt_int(v@),
{
    match v {
        SqlValue::Null => Some(None),
        SqlValue::Integer(i) => Some(Some(*i)),
        _ => None,
    }
}

fn read_date(v: &SqlValue) -> (r: Option<Date>)
    ensures
        r == decode_date(v@),
{
    match v {
        SqlValue::Text(s) => Date::parse_text(s.as_str()),
        _ => None,
    }
}

fn read_opt_date(v: &SqlValue) -> (r: Option<Option<Date>>)
    ensures
        r == decode_opt_date(v@),
{
    match v {
        SqlValue::Null => Some(None),
        SqlValue::Text(s) => match Date::parse_text(s.as_str()) {
            Some(d) => Some(Some(d)),
            None => None,
        },
        _ => None,
    }
}

/// Reads a stored human response. Text reads as the response whose code it
/// is, or as no reply yet where the code is unknown; a stored `NULL`, or a
/// value of another type, is an error.
pub fn decode_human_response(v: &SqlValue) -> (r: Result<HumanResponse, RepositoryError>)
    ensures
        r is Ok <==> decode_response(v@) is Some,
        r is Ok ==> r->Ok_0 == decode_response(v@)->Some_0,
        r is Err ==> r->Err_0 == column_error(6),
{
    match v {
        SqlValue::Text(s) => Ok(HumanResponse::from_code(s.as_str())),
        _ => Err(RepositoryError::InvalidColumnValue(6)),
    }
}

/// Reads a stored row of the job application table.
pub fn decode_values(row: &Vec<SqlValue>) -> (r: Result<JobApplication, RepositoryError>)
    requires
        row@.len() == COLUMN_COUNT,
    ensures
        r is Ok <==> decode_row(data_of(row@)) is Ok,
        r is Ok ==> r->Ok_0@ == decode_row(data_of(row@))->Ok_0,
        r is Err ==> r->Err_0 == column_error(first_bad_column(data_of(row@))),
{
    let ghost d = data_of(row@);
    assert(d.len() == 10);
    assert(forall|k: int| 0 <= k < 10 ==> d[k] == #[trigger] row@[k]@);
    let id = match read_id(&row[0]) {
        Some(v) => v,
        None => return Err(RepositoryError::InvalidColumnValue(0)),
    };
    let source = match read_text(&row[1]) {
        Some(v) => v,
        None => return Err(RepositoryError::InvalidColumnValue(1)),
    };
    let company = match read_text(&row[2]) {
        Some(v) => v,
        None => return Err(RepositoryError::InvalidColumnValue(2)),
    };
    let job_title = match read_text(&row[3]) {
        Some(v) => v,
        None => return Err(RepositoryError::InvalidColumnValue(3)),
    };
    let application_date = match read_date(&row[4]) {
        Some(v) => v,
        None => return Err(RepositoryError::InvalidColumnValue(4)),
    };
    let time_investment = match read_opt_int(&row[5]) {
        Some(v) => v,
        None => return Err(RepositoryError::InvalidColumnValue(5)),
    };
    let human_response = match decode_human_response(&row[6]) {
        Ok(v) => v,
        Err(e) => return Err(e),
    };
    let human_response_date = match read_opt_date(&row[7]) {
        Some(v) => v,
        None => return Err(RepositoryError::InvalidColumnValue(7)),
    };
    let application_website = match read_opt_text(&row[8]) {
        Some(v) => v,
        None => return Err(RepositoryError::InvalidColumnValue(8)),
    };
    let notes = match read_opt_text(&row[9]) {
        Some(v) => v,
        None => return Err(RepositoryError::InvalidColumnValue(9)),
    };
    Ok(
        JobApplication {
            id,
            source,
            company,
            job_title,
            application_date,
            time_investment,
            human_response,
            human_response_date,
            application_website,
            notes,
        },
    )
}

/// Reads every stored row, failing at the first row that cannot be read.
pub fn decode_rows(rows: &Vec<Vec<SqlValue>>) -> (r: Result<Vec<JobApplication>, RepositoryError>)
    requires
        forall|i: int| 0 <= i < rows@.len() ==> (#[trigger] rows@[i])@.len() == COLUMN_COUNT,
    ensures
        r is Ok <==> forall|i: int|
            0 <= i < rows@.len() ==> decode_row(data_of(#[trigger] rows@[i]@)) is Ok,
        r is Err ==> r->Err_0 is InvalidColumnValue,
        r is Ok ==> r->Ok_0@.len() == rows@.len() && forall|i: int|
            0 <= i < rows@.len() ==> (#[trigger] r->Ok_0@[i])@ == decode_row(
                data_of(rows@[i]@),
            )->Ok_0,
{
    let mut out: Vec<JobApplication> = Vec::new();
    let mut i: usize = 0;
    while i < rows.len()
        invariant
            i <= rows@.len(),
            out@.len() == i,
            forall|j: int| 0 <= j < rows@.len() ==> (#[trigger] rows@[j])@.len() == COLUMN_COUNT,
            forall|j: int| 0 <= j < i ==> decode_row(data_of(#[trigger] rows@[j]@)) is Ok,
            forall|j: int|
                0 <= j < i ==> (#[trigger] out@[j])@ == decode_row(data_of(rows@[j]@))->Ok_0,
        decreases rows@.len() - i,
    {
        match decode_values(&rows[i]) {
            Ok(a) => out.push(a),
            Err(e) => return Err(e),
        }
        i = i + 1;
    }
    Ok(out)
}

/// The first row that a query by id yielded, read: no row means no
/// application with that id.
pub fn first_application(rows: &Vec<Vec<SqlValue>>) -> (r: Result<
    Option<JobApplication>,
    RepositoryError,
>)
    requires
        forall|i: int| 0 <= i < rows@.len() ==> (#[trigger] rows@[i])@.len() == COLUMN_COUNT,
    ensures
        rows@.len() == 0 ==> r matches Ok(None),
        rows@.len() > 0 ==> (r is Ok <==> decode_row(data_of(rows@[0]@)) is Ok),
        rows@.len() > 0 && r is Ok ==> r->Ok_0 is Some && r->Ok_0->Some_0@ == decode_row(
            data_of(rows@[0]@),
        )->Ok_0,
        rows@.len() > 0 && r is Err ==> r->Err_0 == column_error(
            first_bad_column(data_of(rows@[0]@)),
        ),
{
    if rows.len() == 0 {
        return Ok(None);
    }
    match decode_values(&rows[0]) {
        Ok(a) => Ok(Some(a)),
        Err(e) => Err(e),
    }
}

/// A stored human response reads back as the response that was stored; a
/// code that names no response reads as no reply yet; a stored `NULL` cannot
/// be read.
pub proof fn lemma_status_codec(h: HumanResponse, unknown: Seq<char>)
    ensures
        decode_response(response_datum(h)) == Some(h),
        unknown != "R"@ && unknown != "I"@ && unknown != "IR"@ && unknown != "J"@
            ==> decode_response(Datum::Text(unknown)) == Some(HumanResponse::NoResponse),
        decode_response(Datum::Null) is None,
{
    lemma_code_round_trip(h);
}

/// Reading back the stored row of a valid record gives that record.
pub proof fn lemma_record_round_trip(r: ApplicationRecord)
    requires
        r.is_valid(),
    ensures
        decode_row(record_row(r)) == Ok::<ApplicationRecord, int>(r),
{
    crate::date::lemma_date_text_round_trip(r.application_date);
    if let Some(d) = r.human_response_date {
        crate::date::lemma_date_text_round_trip(d);
    }
    lemma_code_round_trip(r.human_response);
}

} // verus!
