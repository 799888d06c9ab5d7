//! Tests of the record model, the storage codec, the statements and the form.

use repository::codec::{decode_human_response, decode_values, field_value, record_values, response_value, SqlValue};
use repository::date::{days_between, Date};
use repository::error::RepositoryError;
use repository::form::{date_diff, reset_selected_row, FormDate, JobApplicationView};
use repository::job_application_model::{
    HumanResponse, JobApplication, JobApplicationField, PartialJobApplication,
};
use repository::codec::first_application;
use repository::statement::{full_update, insert, partial_update, response_statement, search_pattern};

fn date(year: i32, month: u8, day: u8) -> Date {
    Date::from_calendar_date(year, month, day).unwrap()
}

fn text(s: &str) -> SqlValue {
    SqlValue::Text(s.to_string())
}

fn sample() -> JobApplication {
    JobApplication {
        id: 12,
        source: "foo source".to_owned(),
        company: "foo company".to_owned(),
        job_title: "foo job".to_owned(),
        application_date: date(2001, 2, 2),
        time_investment: Some(90),
        human_response: HumanResponse::Rejection,
        human_response_date: Some(date(2001, 2, 3)),
        application_website: Some("foo website".to_owned()),
        notes: Some("foo notes".to_owned()),
    }
}

#[test]
fn test_to_sql_human_response() {
    assert_eq!(text("N"), response_value(HumanResponse::NoResponse), "None -> N");
    assert_eq!(text("R"), response_value(HumanResponse::Rejection), "Rejection -> R");
    assert_eq!(text("I"), response_value(HumanResponse::InterviewRequest), "InterviewRequest -> I");
    assert_eq!(
        text("IR"),
        response_value(HumanResponse::InterviewedThenRejected),
        "InterviewedThenRejected -> IR"
    );
    assert_eq!(text("J"), response_value(HumanResponse::JobOffer), "JobOffer -> J");
}

#[test]
fn test_from_sql_human_response() {
    assert_eq!(HumanResponse::NoResponse, decode_human_response(&text("N")).unwrap(), "N -> None");
    assert_eq!(HumanResponse::Rejection, decode_human_response(&text("R")).unwrap(), "R -> Rejection");
    assert_eq!(
        HumanResponse::InterviewRequest,
        decode_human_response(&text("I")).unwrap(),
        "I -> InterviewRequest"
    );
    assert_eq!(
        HumanResponse::InterviewedThenRejected,
        decode_human_response(&text("IR")).unwrap(),
        "IR -> InterviewedThenRejected"
    );
    assert_eq!(HumanResponse::JobOffer, decode_human_response(&text("J")).unwrap(), "J -> JobOffer");
    assert_eq!(
        HumanResponse::NoResponse,
        decode_human_response(&text("")).unwrap(),
        "Empty string should produce HumanResponse::None"
    );
    // An unknown code reads as no reply yet.
    assert_eq!(HumanResponse::NoResponse, decode_human_response(&text("FOO")).unwrap());
    // A stored NULL cannot be read.
    assert!(
        matches!(
            decode_human_response(&SqlValue::Null),
            Err(RepositoryError::InvalidColumnValue(6))
        ),
        "NULL should produce an InvalidType error"
    );
    assert!(decode_human_response(&SqlValue::Integer(1)).is_err());
}

#[test]
fn status_codec_round_trips_every_variant() {
    for h in [
        HumanResponse::NoResponse,
        HumanResponse::Rejection,
        HumanResponse::InterviewRequest,
        HumanResponse::InterviewedThenRejected,
        HumanResponse::JobOffer,
    ] {
        assert_eq!(decode_human_response(&response_value(h)).unwrap(), h);
        assert_eq!(HumanResponse::from_code(h.code()), h);
    }
}

#[test]
fn human_response_labels() {
    assert_eq!(HumanResponse::NoResponse.label(), "No response yet");
    assert_eq!(HumanResponse::Rejection.label(), "Rejection");
    assert_eq!(HumanResponse::InterviewRequest.label(), "Interview request");
    assert_eq!(HumanResponse::InterviewedThenRejected.label(), "Interviewed, then rejected");
    assert_eq!(HumanResponse::JobOffer.label(), "Job offer");
    assert_eq!(HumanResponse::default(), HumanResponse::NoResponse);
}

#[test]
fn human_response_from_answers() {
    assert_eq!(HumanResponse::try_from_str("  Job Offer "), Ok(HumanResponse::JobOffer));
    assert_eq!(HumanResponse::try_from_str("IR"), Ok(HumanResponse::InterviewedThenRejected));
    assert_eq!(HumanResponse::try_from_str("interview request"), Ok(HumanResponse::InterviewRequest));
    assert_eq!(HumanResponse::try_from_str("r"), Ok(HumanResponse::Rejection));
    assert_eq!(HumanResponse::try_from_str(""), Ok(HumanResponse::NoResponse));
    assert_eq!(HumanResponse::try_from_str("N"), Ok(HumanResponse::NoResponse));
    assert_eq!(HumanResponse::try_from_str("maybe"), Err(()));
}

#[test]
fn dates_are_checked_and_written_as_text() {
    assert!(Date::from_calendar_date(2000, 2, 29).is_ok());
    assert!(Date::from_calendar_date(1900, 2, 29).is_err());
    assert!(Date::from_calendar_date(2001, 13, 1).is_err());
    assert!(Date::from_calendar_date(2001, 4, 31).is_err());
    assert!(Date::from_calendar_date(10000, 1, 1).is_err());
    assert_eq!(date(2000, 1, 2).to_text(), "2000-01-02");
    assert_eq!(date(-5, 12, 31).to_text(), "-0005-12-31");
    assert_eq!(Date::parse_text("2001-02-03"), Some(date(2001, 2, 3)));
    assert_eq!(Date::parse_text("-0005-12-31"), Some(date(-5, 12, 31)));
    assert_eq!(Date::parse_text("2001-02-30"), None);
    assert_eq!(Date::parse_text("2001/02/03"), None);
    assert_eq!(Date::parse_text("test application date"), None);
}

#[test]
fn record_round_trips_through_stored_row() {
    let a = sample();
    let row = record_values(&a);
    assert_eq!(
        row,
        vec![
            SqlValue::Integer(12),
            text("foo source"),
            text("foo company"),
            text("foo job"),
            text("2001-02-02"),
            SqlValue::Integer(90),
            text("R"),
            text("2001-02-03"),
            text("foo website"),
            text("foo notes"),
        ]
    );
    assert_eq!(decode_values(&row).unwrap(), a);

    let bare = JobApplication {
        time_investment: None,
        human_response: HumanResponse::NoResponse,
        human_response_date: None,
        application_website: None,
        notes: None,
        ..sample()
    };
    let row = record_values(&bare);
    assert_eq!(row[5], SqlValue::Null);
    assert_eq!(row[9], SqlValue::Null);
    assert_eq!(decode_values(&row).unwrap(), bare);
}

#[test]
fn unreadable_columns_are_reported() {
    let mut row = record_values(&sample());
    row[4] = text("not a date");
    assert!(matches!(decode_values(&row), Err(RepositoryError::InvalidColumnValue(4))));
    let mut row = record_values(&sample());
    row[1] = SqlValue::Null;
    assert!(matches!(decode_values(&row), Err(RepositoryError::InvalidColumnValue(1))));
    let mut row = record_values(&sample());
    row[6] = SqlValue::Null;
    assert!(matches!(decode_values(&row), Err(RepositoryError::InvalidColumnValue(6))));
    let mut row = record_values(&sample());
    row[0] = SqlValue::Integer(1 << 40);
    assert!(matches!(decode_values(&row), Err(RepositoryError::InvalidColumnValue(0))));
}

#[test]
fn field_values_are_encoded() {
    assert_eq!(field_value(&JobApplicationField::Id(3)), SqlValue::Integer(3));
    assert_eq!(field_value(&JobApplicationField::ApplicationDate(date(2001, 2, 2))), text("2001-02-02"));
    assert_eq!(field_value(&JobApplicationField::TimeInvestment(None)), SqlValue::Null);
    assert_eq!(field_value(&JobApplicationField::Notes(None)), SqlValue::Null);
    assert_eq!(field_value(&JobApplicationField::HumanResponse(HumanResponse::JobOffer)), text("J"));
    assert_eq!(JobApplicationField::HumanResponseDate(None).name(), "human_response_date");
    assert_eq!(JobApplicationField::JobTitle("x".to_string()).name(), "job_title");
}

#[test]
fn partial_update_statement_lists_only_named_fields() {
    let p = PartialJobApplication(vec![
        JobApplicationField::Company("Acme".to_string()),
        JobApplicationField::Id(2),
        JobApplicationField::Notes(None),
    ]);
    let stmt = partial_update(&p).unwrap();
    assert_eq!(stmt.sql, "UPDATE job_applications SET company = ?, notes = ? WHERE id = ?");
    assert_eq!(stmt.params, vec![text("Acme"), SqlValue::Null, SqlValue::Integer(2)]);
}

#[test]
fn partial_update_without_id_is_refused() {
    for p in [
        vec![],
        vec![JobApplicationField::Company("Acme".to_string())],
        vec![
            JobApplicationField::Company("Acme".to_string()),
            JobApplicationField::Source("x".to_string()),
            JobApplicationField::Notes(None),
        ],
    ] {
        let err = partial_update(&PartialJobApplication(p)).unwrap_err();
        assert!(matches!(err, RepositoryError::NoIdField));
        assert_eq!(err.message(), "Unable to generate SQL statement because there is no id field");
    }
}

#[test]
fn partial_update_with_several_ids_is_refused() {
    for p in [
        vec![JobApplicationField::Id(1), JobApplicationField::Id(1)],
        vec![
            JobApplicationField::Id(1),
            JobApplicationField::Company("Acme".to_string()),
            JobApplicationField::Id(2),
        ],
    ] {
        let err = partial_update(&PartialJobApplication(p)).unwrap_err();
        assert!(matches!(err, RepositoryError::MultipleIdFields));
        assert_eq!(
            err.message(),
            "Unable to generate SQL statement because there are multiple id fields"
        );
    }
}

#[test]
fn partial_update_with_only_id_is_refused() {
    let err = partial_update(&PartialJobApplication(vec![JobApplicationField::Id(4)])).unwrap_err();
    assert!(matches!(err, RepositoryError::NoChanges));
    assert_eq!(err.message(), "Unable to generate SQL statement because there are no changes");
}

#[test]
fn full_update_and_insert_statements() {
    let a = sample();
    let stmt = full_update(&a);
    assert_eq!(
        stmt.sql,
        "UPDATE job_applications SET source = ?, company = ?, job_title = ?, application_date = ?, \
         time_investment = ?, human_response = ?, human_response_date = ?, application_website = ?, \
         notes = ? WHERE id = ?"
    );
    assert_eq!(stmt.params.len(), 10);
    assert_eq!(stmt.params[0], text("foo source"));
    assert_eq!(stmt.params[9], SqlValue::Integer(12));
    let stmt = insert(&a);
    assert_eq!(stmt.params.len(), 9);
    assert_eq!(stmt.params[0], text("foo source"));
    assert_eq!(stmt.params[8], text("foo notes"));
    assert_eq!(search_pattern("abc"), "%abc%");
}

#[test]
fn reset_form_is_empty_with_today() {
    let today = date(2024, 5, 6);
    let v = reset_selected_row(today);
    let day = FormDate { year: 2024, month: 5, day: 6 };
    assert_eq!(
        v,
        JobApplicationView {
            id: 0,
            source: String::new(),
            company: String::new(),
            job_title: String::new(),
            application_date: day,
            time_investment: 0,
            human_response: HumanResponse::NoResponse,
            human_response_date: day,
            application_website: String::new(),
            notes: String::new(),
        }
    );
}

#[test]
fn form_converts_both_ways() {
    let a = sample();
    let v = JobApplicationView::from_application(&a);
    assert_eq!(v.time_investment, 90);
    assert_eq!(v.application_date, FormDate { year: 2001, month: 2, day: 2 });
    assert_eq!(v.to_application().unwrap(), a);

    let empty = JobApplicationView {
        human_response: HumanResponse::NoResponse,
        human_response_date: FormDate { year: 0, month: 0, day: 0 },
        time_investment: 0,
        application_website: String::new(),
        notes: String::new(),
        ..v.clone()
    };
    let back = empty.to_application().unwrap();
    assert_eq!(back.time_investment, None);
    assert_eq!(back.human_response_date, None);
    assert_eq!(back.application_website, None);
    assert_eq!(back.notes, None);

    let bad = JobApplicationView { application_date: FormDate { year: 2001, month: 2, day: 30 }, ..v };
    assert!(bad.to_application().is_err());
}

#[test]
fn day_differences() {
    assert_eq!(days_between(date(2000, 1, 1), date(2019, 1, 1)), 6940);
    assert_eq!(days_between(date(2019, 12, 31), date(2019, 1, 1)), -364);
    let from = FormDate { year: 2000, month: 1, day: 1 };
    let to = FormDate { year: 2019, month: 1, day: 1 };
    assert_eq!(date_diff(from, to), 6940);
    assert_eq!(date_diff(to, from), -6940);
    assert_eq!(date_diff(FormDate { year: 0, month: 0, day: 0 }, to), 0);
    assert_eq!(date_diff(from, FormDate { year: 2019, month: 2, day: 30 }), 0);

    let mut a = sample();
    a.application_date = date(2000, 1, 1);
    a.human_response_date = Some(date(2000, 1, 31));
    assert_eq!(a.days_to_respond(), Some(30));
    a.human_response_date = None;
    assert_eq!(a.days_to_respond(), None);
}

#[test]
fn first_row_or_none() {
    assert_eq!(first_application(&vec![]).unwrap(), None);
    let a = sample();
    let b = JobApplication { id: 13, ..sample() };
    let rows = vec![record_values(&a), record_values(&b)];
    assert_eq!(first_application(&rows).unwrap(), Some(a));
    let mut bad = record_values(&sample());
    bad[3] = SqlValue::Integer(1);
    assert!(matches!(
        first_application(&vec![bad]),
        Err(RepositoryError::InvalidColumnValue(3))
    ));
}

#[test]
fn response_statement_dates_default_to_today() {
    let today = date(2024, 5, 6);
    let stmt = response_statement(4, HumanResponse::Rejection, None, today);
    assert_eq!(
        stmt.sql,
        "UPDATE job_applications SET human_response = ?, human_response_date = ? WHERE id = ?"
    );
    assert_eq!(stmt.params, vec![text("R"), text("2024-05-06"), SqlValue::Integer(4)]);
    let stmt = response_statement(4, HumanResponse::JobOffer, Some(date(2001, 2, 3)), today);
    assert_eq!(stmt.params, vec![text("J"), text("2001-02-03"), SqlValue::Integer(4)]);
}
