//! Tests of opening database files and of whole scenarios on the repository.

use rusqlite::Connection;
use tempfile::TempDir;

use repository::date::Date;
use repository::form::{reset_selected_row, submit_job_application, FormDate, SubmitError};
use repository::job_application_model::{
    HumanResponse, JobApplication, JobApplicationField, PartialJobApplication,
};
use repository::job_application_repository::{
    get_or_make_db, with_row_id, JobApplicationRepository, TABLE_DEFINITION,
};

fn memory_connection() -> Connection {
    let conn = Connection::open_in_memory().unwrap();
    conn.execute(TABLE_DEFINITION, ()).unwrap();
    conn
}

fn record(source: &str) -> JobApplication {
    JobApplication {
        id: 0,
        source: source.to_string(),
        company: "Initech".to_string(),
        job_title: "Engineer".to_string(),
        application_date: Date::from_calendar_date(2023, 3, 4).unwrap(),
        time_investment: Some(600),
        human_response: HumanResponse::InterviewRequest,
        human_response_date: Some(Date::from_calendar_date(2023, 3, 10).unwrap()),
        application_website: Some("https://initech.example".to_string()),
        notes: Some("first line\nsecond line".to_string()),
    }
}

#[test]
fn test_new_db() {
    let expected_tbl_name = "job_applications";
    let expected_tbl_sql =
        "SELECT EXISTS(SELECT 1 FROM sqlite_schema WHERE type = 'table' AND tbl_name = ?1)";
    let path = TempDir::new().unwrap();
    let db_path = path.path().join("test_db.db3");

    let conn = get_or_make_db(db_path.to_str().unwrap()).unwrap();

    assert_eq!(
        1,
        conn.query_row(expected_tbl_sql, (expected_tbl_name,), |row| row.get::<usize, i32>(0))
            .unwrap()
    );
}

#[test]
fn test_existing_db() {
    let path = TempDir::new().unwrap();
    let db_path = path.path().join("test_db.db3");
    let db_path = db_path.to_str().unwrap();

    let test_data = (
        "test source".to_string(),
        "test company".to_string(),
        "test job title".to_string(),
        "test application date".to_string(),
        3,
        "R".to_string(),
        "test human response date".to_string(),
        "test application website".to_string(),
        "test notes".to_string(),
    );

    let job_application_id: i64;
    {
        let conn = get_or_make_db(db_path).unwrap();
        job_application_id = conn
            .prepare("INSERT INTO job_applications (source, company, job_title, application_date, time_investment, human_response, human_response_date, application_website, notes) \
                VALUES (?, ?, ?, ?, ?, ?, ?, ?, ?)")
            .unwrap()
            .insert(test_data.clone())
            .expect("INSERT FAIL");
    }

    let conn = get_or_make_db(db_path).unwrap();
    let stored: (String, String, String, String, i32, String, String, String, String) = conn
        .prepare("SELECT source, company, job_title, application_date, time_investment, human_response, human_response_date, application_website, notes FROM job_applications WHERE id = ?")
        .unwrap()
        .query_row((job_application_id,), |row| {
            Ok((
                row.get(0)?,
                row.get(1)?,
                row.get(2)?,
                row.get(3)?,
                row.get(4)?,
                row.get(5)?,
                row.get(6)?,
                row.get(7)?,
                row.get(8)?,
            ))
        })
        .expect("New database connection failed to use existing database.");
    assert_eq!(test_data, stored);
}

#[test]
fn insert_then_read_back_gives_the_record() {
    let mut conn = memory_connection();
    let a = record("LinkedIn");
    let stored = conn.insert_job_application(&a).unwrap();
    assert_eq!(stored, JobApplication { id: stored.id, ..a.clone() });
    assert_eq!(conn.get_job_application_by_id(stored.id).unwrap(), Some(stored));
}

#[test]
fn partial_update_scenario_on_two_records() {
    let mut conn = memory_connection();
    let a = record("LinkedIn");
    let b = record("LinkedIn");
    let a = conn.insert_job_application(&a).unwrap();
    assert_eq!(a.id, 1);
    let b = conn.insert_job_application(&b).unwrap();
    assert_eq!(b.id, 2);

    conn.update_job_application_partial(PartialJobApplication(vec![
        JobApplicationField::Id(2),
        JobApplicationField::Company("Acme".to_string()),
    ]))
    .unwrap();

    assert_eq!(conn.get_job_application_by_id(1).unwrap(), Some(a));
    assert_eq!(
        conn.get_job_application_by_id(2).unwrap(),
        Some(JobApplication { company: "Acme".to_string(), ..b })
    );
}

#[test]
fn partial_update_clears_optional_fields_and_later_entries_win() {
    let mut conn = memory_connection();
    let a = conn.insert_job_application(&record("Indeed")).unwrap();
    conn.update_job_application_partial(PartialJobApplication(vec![
        JobApplicationField::Notes(None),
        JobApplicationField::Id(a.id),
        JobApplicationField::TimeInvestment(None),
        JobApplicationField::Source("first".to_string()),
        JobApplicationField::Source("second".to_string()),
    ]))
    .unwrap();
    assert_eq!(
        conn.get_job_application_by_id(a.id).unwrap(),
        Some(JobApplication {
            notes: None,
            time_investment: None,
            source: "second".to_string(),
            ..a
        })
    );
}

#[test]
fn delete_then_read_is_absent() {
    let mut conn = memory_connection();
    let a = conn.insert_job_application(&record("one")).unwrap();
    let b = conn.insert_job_application(&record("two")).unwrap();
    let c = conn.insert_job_application(&record("three")).unwrap();
    conn.delete_job_application(b.id).unwrap();
    assert_eq!(conn.get_job_application_by_id(b.id).unwrap(), None);
    let mut all = conn.get_job_applications().unwrap();
    all.sort_unstable_by_key(|x| x.id);
    assert_eq!(all, vec![a, c]);
}

#[test]
fn search_with_response_filters_both_ways() {
    let mut conn = memory_connection();
    let a = conn.insert_job_application(&record("MarkerCo board")).unwrap();
    let mut rejected = record("markerco referral");
    rejected.human_response = HumanResponse::Rejection;
    let rejected = conn.insert_job_application(&rejected).unwrap();
    conn.insert_job_application(&record("other")).unwrap();

    let found = conn
        .search_by_query_and_human_response("MARKERCO", HumanResponse::InterviewRequest)
        .unwrap();
    assert_eq!(found, vec![a.clone()]);
    let found = conn.search_by_human_response(HumanResponse::Rejection).unwrap();
    assert_eq!(found, vec![rejected.clone()]);
    let mut found = conn.search_job_applications("mArKeRcO").unwrap();
    found.sort_unstable_by_key(|x| x.id);
    assert_eq!(found, vec![a, rejected]);
}

#[test]
fn stored_unknown_code_reads_as_no_response() {
    let mut conn = memory_connection();
    conn.execute(
        "INSERT INTO job_applications (id, source, company, job_title, application_date, human_response) \
         VALUES (5, 's', 'c', 't', '2000-01-01', 'FOO')",
        (),
    )
    .unwrap();
    let a = conn.get_job_application_by_id(5).unwrap().unwrap();
    assert_eq!(a.human_response, HumanResponse::NoResponse);
}

#[test]
fn row_ids_beyond_i32_are_refused() {
    let a = record("x");
    assert_eq!(with_row_id(&a, 7).unwrap(), JobApplication { id: 7, ..a.clone() });
    assert!(with_row_id(&a, 1 << 33).is_err());
}

#[test]
fn form_submission_inserts_then_updates() {
    let mut conn = memory_connection();
    let today = Date::from_calendar_date(2024, 5, 6).unwrap();
    let mut view = reset_selected_row(today);
    view.source = "Referral".to_string();
    view.company = "Initech".to_string();
    view.job_title = "Engineer".to_string();

    let stored = submit_job_application(&mut conn, &view).unwrap();
    assert_eq!(stored.id, 1);
    assert_eq!(stored.application_date, today);
    assert_eq!(stored.human_response_date, None);

    view.id = stored.id;
    view.company = "Initrode".to_string();
    view.human_response = HumanResponse::Rejection;
    let updated = submit_job_application(&mut conn, &view).unwrap();
    assert_eq!(updated.human_response_date, Some(today));
    assert_eq!(conn.get_job_applications().unwrap(), vec![updated]);

    view.application_date = FormDate { year: 2024, month: 2, day: 30 };
    assert!(matches!(
        submit_job_application(&mut conn, &view),
        Err(SubmitError::InvalidDate)
    ));
}
