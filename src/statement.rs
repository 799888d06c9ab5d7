//! The statements the repository sends to the database: their text and their
//! parameters. Statement text is assembled from fixed column names alone;
//! every value travels as a parameter.
use vstd::prelude::*;

use crate::codec::{
    data_of, decode_row, field_datum, lemma_record_round_trip, record_row, record_values,
    response_value, Datum, SqlValue,
};
use crate::date::Date;
use crate::error::RepositoryError;
use crate::job_application_model::{
    column_index, column_name, field_column, field_valid, opt_date_valid, with_field, with_fields,
    ApplicationRecord, Column, FieldValue, HumanResponse, JobApplication, JobApplicationField,
    PartialJobApplication,
};

verus! {

/// A statement's text and the values bound to its `?` placeholders, in order.
#[derive(Debug)]
pub struct Statement {
    pub sql: String,
    pub params: Vec<SqlValue>,
}

// The projection of a partial update

/// The number of identifier entries.
pub open spec fn id_count(fs: Seq<FieldValue>) -> nat
    decreases fs.len(),
{
    if fs.len() == 0 {
        0
    } else {
        id_count(fs.drop_last()) + if fs.last() is Id {
            1nat
        } else {
            0nat
        }
    }
}

/// The identifier that the last identifier entry carries.
pub open spec fn target_id(fs: Seq<FieldValue>) -> i32
    decreases fs.len(),
{
    if fs.len() == 0 {
        0
    } else if fs.last() is Id {
        fs.last()->Id_0
    } else {
        target_id(fs.drop_last())
    }
}

/// The entries other than identifiers, in order.
pub open spec fn assigned(fs: Seq<FieldValue>) -> Seq<FieldValue>
    decreases fs.len(),
{
    if fs.len() == 0 {
        Seq::empty()
    } else if fs.last() is Id {
        assigned(fs.drop_last())
    } else {
        assigned(fs.drop_last()).push(fs.last())
    }
}

pub open spec fn assigned_columns(fs: Seq<FieldValue>) -> Seq<Column> {
    assigned(fs).map_values(|f: FieldValue| field_column(f))
}

pub open spec fn assigned_data(fs: Seq<FieldValue>) -> Seq<Datum> {
    assigned(fs).map_values(|f: FieldValue| field_datum(f))
}

/// Whether a projection can become an update: exactly one identifier entry
/// and at least one other entry. The refusals are checked in this order.
pub open spec fn check_projection(fs: Seq<FieldValue>) -> Result<(), RepositoryError> {
    if id_count(fs) == 0 {
        Err(RepositoryError::NoIdField)
    } else if id_count(fs) > 1 {
        Err(RepositoryError::MultipleIdFields)
    } else if assigned(fs).len() == 0 {
        Err(RepositoryError::NoChanges)
    } else {
        Ok(())
    }
}

pub open spec fn fields_valid(fs: Seq<FieldValue>) -> bool {
    forall|i: int| 0 <= i < fs.len() ==> field_valid(#[trigger] fs[i])
}

// Statement text

/// `c1 = ?, c2 = ?, ...` for the given columns.
pub open spec fn set_list(cols: Seq<Column>) -> Seq<char>
    decreases cols.len(),
{
    if cols.len() == 0 {
        Seq::empty()
    } else {
        set_list(cols.drop_last()) + (if cols.len() == 1 {
            Seq::empty()
        } else {
            ", "@
        }) + column_name(cols.last()) + " = ?"@
    }
}

/// The text of an update of the given columns of the row with one id; its
/// placeholders take the new values in order, then the id.
pub open spec fn update_sql(cols: Seq<Column>) -> Seq<char> {
    "UPDATE job_applications SET "@ + set_list(cols) + " WHERE id = ?"@
}

pub open spec fn select_all_sql() -> Seq<char> {
    "SELECT id, source, company, job_title, application_date, time_investment, human_response, human_response_date, application_website, notes FROM job_applications"@
}

pub open spec fn select_by_id_sql() -> Seq<char> {
    "SELECT id, source, company, job_title, application_date, time_investment, human_response, human_response_date, application_website, notes FROM job_applications WHERE id = ?"@
}

pub open spec fn search_sql() -> Seq<char> {
    "SELECT id, source, company, job_title, application_date, time_investment, human_response, human_response_date, application_website, notes FROM job_applications WHERE LOWER(source) LIKE ?1 OR LOWER(company) LIKE ?1 OR LOWER(job_title) LIKE ?1"@
}

pub open spec fn select_by_response_sql() -> Seq<char> {
    "SELECT id, source, company, job_title, application_date, time_investment, human_response, human_response_date, application_website, notes FROM job_applications WHERE human_response = ?"@
}

pub open spec fn search_with_response_sql() -> Seq<char> {
    "SELECT id, source, company, job_title, application_date, time_investment, human_response, human_response_date, application_website, notes FROM job_applications WHERE (LOWER(source) LIKE ?1 OR LOWER(company) LIKE ?1 OR LOWER(job_title) LIKE ?1) AND human_response = ?2"@
}

pub open spec fn insert_sql() -> Seq<char> {
    "INSERT INTO job_applications (source, company, job_title, application_date, time_investment, human_response, human_response_date, application_website, notes) VALUES (?, ?, ?, ?, ?, ?, ?, ?, ?)"@
}

pub open spec fn delete_sql() -> Seq<char> {
    "DELETE FROM job_applications WHERE id = ?"@
}

/// The columns that a full update sets: all but the id.
pub open spec fn value_columns() -> Seq<Column> {
    seq![
        Column::Source,
        Column::Company,
        Column::JobTitle,
        Column::ApplicationDate,
        Column::TimeInvestment,
        Column::HumanResponse,
        Column::HumanResponseDate,
        Column::ApplicationWebsite,
        Column::Notes,
    ]
}

/// The text of an update of the given columns.
pub fn update_sql_for(cols: &Vec<Column>) -> (r: String)
    ensures
        r@ == update_sql(cols@),
{
    let mut sql = String::from_str("UPDATE job_applications SET ");
    let mut i: usize = 0;
    while i < cols.len()
        invariant
            i <= cols@.len(),
            sql@ == "UPDATE job_applications SET "@ + set_list(cols@.take(i as int)),
        decreases cols@.len() - i,
    {
        let ghost before = sql@;
        if i > 0 {
            sql.append(", ");
        }
        sql.append(cols[i].name());
        sql.append(" = ?");
        proof {
            let t = cols@.take(i + 1);
            assert(t.drop_last() =~= cols@.take(i as int));
            assert(t.last() == cols@[i as int]);
            if i == 0 {
                assert(sql@ =~= before + column_name(cols@[i as int]) + " = ?"@);
            } else {
                assert(sql@ =~= before + ", "@ + column_name(cols@[i as int]) + " = ?"@);
            }
            assert(sql@ =~= "UPDATE job_applications SET "@ + set_list(t));
        }
        i = i + 1;
    }
    sql.append(" WHERE id = ?");
    assert(cols@.take(cols@.len() as int) =~= cols@);
    assert(sql@ =~= update_sql(cols@));
    sql
}

/// The statement of a partial update: it sets each non-identifier entry's
/// column to the entry's value, in order, on the row whose id the identifier
/// entry carries. A projection without exactly one identifier entry, or
/// without any other entry, is refused before anything is built.
pub fn partial_update(p: &PartialJobApplication) -> (r: Result<Statement, RepositoryError>)
    requires
        fields_valid(p@),
    ensures
        check_projection(p@) is Err <==> r is Err,
        r is Err ==> r->Err_0 == check_projection(p@)->Err_0,
        r is Ok ==> r->Ok_0.sql@ == update_sql(assigned_columns(p@)) && data_of(r->Ok_0.params@)
            == assigned_data(p@).push(Datum::Integer(target_id(p@) as i64)),
{
    let ghost fs = p@;
    let mut ids: usize = 0;
    let mut id: i32 = 0;
    let mut cols: Vec<Column> = Vec::new();
    let mut params: Vec<SqlValue> = Vec::new();
    let mut i: usize = 0;
    while i < p.0.len()
        invariant
            fs == p@,
            fields_valid(fs),
            i <= fs.len(),
            ids as nat == id_count(fs.take(i as int)),
            ids <= i,
            id == target_id(fs.take(i as int)),
            cols@ == assigned_columns(fs.take(i as int)),
            data_of(params@) == assigned_data(fs.take(i as int)),
        decreases fs.len() - i,
    {
        let f = &p.0[i];
        let ghost t = fs.take(i + 1);
        proof {
            assert(t.drop_last() =~= fs.take(i as int));
            assert(t.last() == f@);
            assert(field_valid(fs[i as int]));
        }
        match f {
            JobApplicationField::Id(v) => {
                ids = ids + 1;
                id = *v;
            },
            _ => {
                let ghost old_params = params@;
                cols.push(f.column());
                params.push(crate::codec::field_value(f));
                proof {
                    assert(assigned(t) == assigned(fs.take(i as int)).push(f@));
                    assert(data_of(params@) =~= data_of(old_params).push(field_datum(f@)));
                    assert(assigned_data(t) =~= assigned_data(fs.take(i as int)).push(
                        field_datum(f@),
                    ));
                    assert(cols@ =~= assigned_columns(t));
                    assert(data_of(params@) =~= assigned_data(t));
                }
            },
        }
        i = i + 1;
    }
    proof {
        assert(fs.take(fs.len() as int) =~= fs);
    }
    if ids == 0 {
        return Err(RepositoryError::NoIdField);
    }
    if ids > 1 {
        return Err(RepositoryError::MultipleIdFields);
    }
    if cols.len() == 0 {
        return Err(RepositoryError::NoChanges);
    }
    let sql = update_sql_for(&cols);
    params.push(SqlValue::Integer(id as i64));
    proof {
        assert(data_of(params@) =~= assigned_data(fs).push(Datum::Integer(id as i64)));
    }
    Ok(Statement { sql, params })
}

/// The statement that replaces every field but the id of the application
/// whose id `a` carries.
pub fn full_update(a: &JobApplication) -> (r: Statement)
    requires
        a@.is_valid(),
    ensures
        r.sql@ == update_sql(value_columns()),
        data_of(r.params@) == record_row(a@).drop_first().push(Datum::Integer(a.id as i64)),
{
    let mut cols: Vec<Column> = Vec::new();
    cols.push(Column::Source);
    cols.push(Column::Company);
    cols.push(Column::JobTitle);
    cols.push(Column::ApplicationDate);
    cols.push(Column::TimeInvestment);
    cols.push(Column::HumanResponse);
    cols.push(Column::HumanResponseDate);
    cols.push(Column::ApplicationWebsite);
    cols.push(Column::Notes);
    assert(cols@ =~= value_columns());
    let sql = update_sql_for(&cols);
    let mut params = record_values(a);
    assert(data_of(params@).len() == 10);
    params.remove(0);
    params.push(SqlValue::Integer(a.id as i64));
    assert(data_of(params@) =~= record_row(a@).drop_first().push(Datum::Integer(a.id as i64)));
    Statement { sql, params }
}

/// The statement that sets the human response of the application with the
/// given id, and the date on which it came.
pub fn response_update(id: i32, human_response: HumanResponse, date: Date) -> (r: Statement)
    requires
        date.is_valid(),
    ensures
        r.sql@ == update_sql(seq![Column::HumanResponse, Column::HumanResponseDate]),
        data_of(r.params@) == seq![
            crate::codec::response_datum(human_response),
            Datum::Text(crate::date::date_text(date)),
            Datum::Integer(id as i64),
        ],
{
    let mut cols: Vec<Column> = Vec::new();
    cols.push(Column::HumanResponse);
    cols.push(Column::HumanResponseDate);
    assert(cols@ =~= seq![Column::HumanResponse, Column::HumanResponseDate]);
    let sql = update_sql_for(&cols);
    let mut params: Vec<SqlValue> = Vec::new();
    params.push(response_value(human_response));
    params.push(SqlValue::Text(date.to_text()));
    params.push(SqlValue::Integer(id as i64));
    assert(data_of(params@) =~= seq![
        crate::codec::response_datum(human_response),
        Datum::Text(crate::date::date_text(date)),
        Datum::Integer(id as i64),
    ]);
    Statement { sql, params }
}

/// The date a human response is recorded with: the given one, or today's
/// where none is given.
pub open spec fn response_date(given: Option<Date>, today: Date) -> Date {
    match given {
        Some(d) => d,
        None => today,
    }
}

/// The statement that records a human response for the application with
/// the given id, dated `given`, or `today` where no date is given.
pub fn response_statement(
    id: i32,
    human_response: HumanResponse,
    given: Option<Date>,
    today: Date,
) -> (r: Statement)
    requires
        opt_date_valid(given),
        today.is_valid(),
    ensures
        r.sql@ == update_sql(seq![Column::HumanResponse, Column::HumanResponseDate]),
        data_of(r.params@) == seq![
            crate::codec::response_datum(human_response),
            Datum::Text(crate::date::date_text(response_date(given, today))),
            Datum::Integer(id as i64),
        ],
{
    let date = match given {
        Some(d) => d,
        None => today,
    };
    response_update(id, human_response, date)
}

/// The statement that adds an application; the database picks its id.
pub fn insert(a: &JobApplication) -> (r: Statement)
    requires
        a@.is_valid(),
    ensures
        r.sql@ == insert_sql(),
        data_of(r.params@) == record_row(a@).drop_first(),
{
    let mut params = record_values(a);
    assert(data_of(params@).len() == 10);
    params.remove(0);
    assert(data_of(params@) =~= record_row(a@).drop_first());
    Statement {
        sql: String::from_str(
            "INSERT INTO job_applications (source, company, job_title, application_date, time_investment, human_response, human_response_date, application_website, notes) VALUES (?, ?, ?, ?, ?, ?, ?, ?, ?)",
        ),
        params,
    }
}

/// The statement that reads every application.
pub fn select_all() -> (r: Statement)
    ensures
        r.sql@ == select_all_sql(),
        r.params@.len() == 0,
{
    Statement {
        sql: String::from_str(
            "SELECT id, source, company, job_title, application_date, time_investment, human_response, human_response_date, application_website, notes FROM job_applications",
        ),
        params: Vec::new(),
    }
}

/// The statement that reads the application with the given id.
pub fn select_by_id(id: i32) -> (r: Statement)
    ensures
        r.sql@ == select_by_id_sql(),
        data_of(r.params@) == seq![Datum::Integer(id as i64)],
{
    let mut params: Vec<SqlValue> = Vec::new();
    params.push(SqlValue::Integer(id as i64));
    assert(data_of(params@) =~= seq![Datum::Integer(id as i64)]);
    Statement {
        sql: String::from_str(
            "SELECT id, source, company, job_title, application_date, time_investment, human_response, human_response_date, application_website, notes FROM job_applications WHERE id = ?",
        ),
        params,
    }
}

/// The pattern that finds a lower-cased query anywhere in a lower-cased column.
pub open spec fn like_pattern(lowered: Seq<char>) -> Seq<char> {
    "%"@ + lowered + "%"@
}

/// Wraps an already lower-cased query in the wildcards of `LIKE`.
pub fn search_pattern(lowered: &str) -> (r: String)
    ensures
        r@ == like_pattern(lowered@),
{
    let mut r = String::from_str("%");
    r.append(lowered);
    r.append("%");
    r
}

/// The statement that reads the applications whose source, company or job
/// title, lower-cased, contains the already lower-cased query.
pub fn search(lowered: &str) -> (r: Statement)
    ensures
        r.sql@ == search_sql(),
        data_of(r.params@) == seq![Datum::Text(like_pattern(lowered@))],
{
    let mut params: Vec<SqlValue> = Vec::new();
    params.push(SqlValue::Text(search_pattern(lowered)));
    assert(data_of(params@) =~= seq![Datum::Text(like_pattern(lowered@))]);
    Statement {
        sql: String::from_str(
            "SELECT id, source, company, job_title, application_date, time_investment, human_response, human_response_date, application_website, notes FROM job_applications WHERE LOWER(source) LIKE ?1 OR LOWER(company) LIKE ?1 OR LOWER(job_title) LIKE ?1",
        ),
        params,
    }
}

/// The statement that reads the applications with the given human response.
pub fn select_by_response(human_response: HumanResponse) -> (r: Statement)
    ensures
        r.sql@ == select_by_response_sql(),
        data_of(r.params@) == seq![crate::codec::response_datum(human_response)],
{
    let mut params: Vec<SqlValue> = Vec::new();
    params.push(response_value(human_response));
    assert(data_of(params@) =~= seq![crate::codec::response_datum(human_response)]);
    Statement {
        sql: String::from_str(
            "SELECT id, source, company, job_title, application_date, time_investment, human_response, human_response_date, application_website, notes FROM job_applications WHERE human_response = ?",
        ),
        params,
    }
}

/// The statement that reads the applications that match an already
/// lower-cased query and have the given human response.
pub fn search_with_response(lowered: &str, human_response: HumanResponse) -> (r: Statement)
    ensures
        r.sql@ == search_with_response_sql(),
        data_of(r.params@) == seq![
            Datum::Text(like_pattern(lowered@)),
            crate::codec::response_datum(human_response),
        ],
{
    let mut params: Vec<SqlValue> = Vec::new();
    params.push(SqlValue::Text(search_pattern(lowered)));
    params.push(response_value(human_response));
    assert(data_of(params@) =~= seq![
        Datum::Text(like_pattern(lowered@)),
        crate::codec::response_datum(human_response),
    ]);
    Statement {
        sql: String::from_str(
            "SELECT id, source, company, job_title, application_date, time_investment, human_response, human_response_date, application_website, notes FROM job_applications WHERE (LOWER(source) LIKE ?1 OR LOWER(company) LIKE ?1 OR LOWER(job_title) LIKE ?1) AND human_response = ?2",
        ),
        params,
    }
}

/// The statement that removes the application with the given id.
pub fn delete(id: i32) -> (r: Statement)
    ensures
        r.sql@ == delete_sql(),
        data_of(r.params@) == seq![Datum::Integer(id as i64)],
{
    let mut params: Vec<SqlValue> = Vec::new();
    params.push(SqlValue::Integer(id as i64));
    assert(data_of(params@) =~= seq![Datum::Integer(id as i64)]);
    Statement { sql: String::from_str("DELETE FROM job_applications WHERE id = ?"), params }
}

/// A projection's refusal depends only on how many identifier entries it has
/// and whether it has any other entry: none gives "no id field" however many
/// other entries there are, several give "multiple id fields" whichever
/// fields they sit among, and an identifier alone gives "no changes".
pub proof fn lemma_validation(fs: Seq<FieldValue>, id: i32)
    ensures
        id_count(fs) == 0 ==> check_projection(fs) == Err::<(), RepositoryError>(
            RepositoryError::NoIdField,
        ),
        id_count(fs) > 1 ==> check_projection(fs) == Err::<(), RepositoryError>(
            RepositoryError::MultipleIdFields,
        ),
        check_projection(seq![FieldValue::Id(id)]) == Err::<(), RepositoryError>(
            RepositoryError::NoChanges,
        ),
{
    let single = seq![FieldValue::Id(id)];
    assert(single.drop_last() =~= Seq::<FieldValue>::empty());
    assert(single.len() == 1 && single.last() == FieldValue::Id(id));
    assert(id_count(Seq::<FieldValue>::empty()) == 0);
    assert(assigned(Seq::<FieldValue>::empty()).len() == 0);
    assert(id_count(single) == 1);
    assert(assigned(single).len() == 0);
}

/// No value that a partial update binds is a floating-point one.
pub proof fn lemma_update_binds_no_real(fs: Seq<FieldValue>)
    ensures
        forall|i: int|
            0 <= i < assigned_data(fs).len() ==> !((#[trigger] assigned_data(fs)[i]) is Real),
{
    assert forall|i: int| 0 <= i < assigned_data(fs).len() implies !((#[trigger] assigned_data(
        fs,
    )[i]) is Real) by {
        assert(assigned_data(fs)[i] == field_datum(assigned(fs)[i]));
    }
}

// What an update does to the stored rows

/// A stored row with the given columns set to the given values, in order.
pub open spec fn assign(row: Seq<Datum>, cols: Seq<Column>, data: Seq<Datum>) -> Seq<Datum>
    decreases cols.len(),
{
    if cols.len() == 0 {
        row
    } else {
        assign(row, cols.drop_last(), data.drop_last()).update(
            column_index(cols.last()),
            data.last(),
        )
    }
}

/// The table, keyed by id, after an update of the given columns with the
/// given values on the row with the target id. No row has that id: nothing
/// changes.
pub open spec fn run_update(
    table: Map<int, Seq<Datum>>,
    cols: Seq<Column>,
    data: Seq<Datum>,
    target: int,
) -> Map<int, Seq<Datum>> {
    if table.contains_key(target) {
        table.insert(target, assign(table[target], cols, data))
    } else {
        table
    }
}

/// The table after the partial update that a projection asks for.
pub open spec fn run_partial_update(table: Map<int, Seq<Datum>>, fs: Seq<FieldValue>) -> Map<
    int,
    Seq<Datum>,
> {
    run_update(table, assigned_columns(fs), assigned_data(fs), target_id(fs) as int)
}

/// The table, keyed by id, after the delete statement for one id.
pub open spec fn run_delete(table: Map<int, Seq<Datum>>, id: i32) -> Map<int, Seq<Datum>> {
    table.remove(id as int)
}

/// After a delete, no row has the deleted id and every other row is as it
/// was.
pub proof fn lemma_delete_then_read(table: Map<int, Seq<Datum>>, id: i32, other: int)
    requires
        table.contains_key(other),
        other != id as int,
    ensures
        !run_delete(table, id).contains_key(id as int),
        run_delete(table, id).contains_key(other),
        run_delete(table, id)[other] == table[other],
{
}

proof fn lemma_with_field_row(r: ApplicationRecord, f: FieldValue)
    requires
        !(f is Id),
    ensures
        record_row(with_field(r, f)) == record_row(r).update(
            column_index(field_column(f)),
            field_datum(f),
        ),
{
    assert(record_row(with_field(r, f)) =~= record_row(r).update(
        column_index(field_column(f)),
        field_datum(f),
    ));
}

proof fn lemma_with_field_valid(r: ApplicationRecord, f: FieldValue)
    requires
        r.is_valid(),
        field_valid(f),
    ensures
        with_field(r, f).is_valid(),
        with_field(r, f).id == r.id,
{
}

proof fn lemma_assign_fields(r: ApplicationRecord, fs: Seq<FieldValue>)
    requires
        r.is_valid(),
        fields_valid(fs),
    ensures
        assign(record_row(r), assigned_columns(fs), assigned_data(fs)) == record_row(
            with_fields(r, fs),
        ),
        with_fields(r, fs).is_valid(),
        with_fields(r, fs).id == r.id,
    decreases fs.len(),
{
    if fs.len() > 0 {
        let prev = fs.drop_last();
        let f = fs.last();
        assert(fields_valid(prev)) by {
            assert forall|i: int| 0 <= i < prev.len() implies field_valid(#[trigger] prev[i]) by {
                assert(prev[i] == fs[i]);
            }
        }
        assert(field_valid(fs[fs.len() - 1]));
        lemma_assign_fields(r, prev);
        let q = with_fields(r, prev);
        lemma_with_field_valid(q, f);
        if !(f is Id) {
            let cols = assigned_columns(fs);
            let data = assigned_data(fs);
            assert(assigned(fs) == assigned(prev).push(f));
            assert(cols.drop_last() =~= assigned_columns(prev));
            assert(data.drop_last() =~= assigned_data(prev));
            assert(cols.last() == field_column(f));
            assert(data.last() == field_datum(f));
            lemma_with_field_row(q, f);
        } else {
            assert(assigned(fs) == assigned(prev));
        }
    }
}

/// A partial update changes no row but the one whose id the projection
/// names.
pub proof fn lemma_partial_update_isolation(
    table: Map<int, Seq<Datum>>,
    fs: Seq<FieldValue>,
    other: int,
)
    requires
        check_projection(fs) is Ok,
        table.contains_key(other),
        other != target_id(fs) as int,
    ensures
        run_partial_update(table, fs).contains_key(other),
        run_partial_update(table, fs)[other] == table[other],
{
}

/// On the row it names, a partial update sets exactly the fields that the
/// projection carries, a later entry for a field winning, and leaves every
/// other field as it was: the updated row reads back as the stored record
/// with the entries applied.
pub proof fn lemma_partial_update_target(
    table: Map<int, Seq<Datum>>,
    fs: Seq<FieldValue>,
    r: ApplicationRecord,
)
    requires
        check_projection(fs) is Ok,
        fields_valid(fs),
        r.is_valid(),
        r.id == target_id(fs),
        table.contains_key(r.id as int),
        table[r.id as int] == record_row(r),
    ensures
        run_partial_update(table, fs).contains_key(r.id as int),
        decode_row(run_partial_update(table, fs)[r.id as int]) == Ok::<ApplicationRecord, int>(
            with_fields(r, fs),
        ),
        with_fields(r, fs).id == r.id,
{
    lemma_assign_fields(r, fs);
    lemma_record_round_trip(with_fields(r, fs));
}

} // verus!
