//! Tests of the values and statements sent to a MySQL server.

use repository::codec::{decode_human_response, response_value, SqlValue};
use repository::date::Date;
use repository::error::RepositoryError;
use repository::job_application_model::{
    HumanResponse, JobApplication, JobApplicationField, PartialJobApplication,
};
use repository::mysql_backend::{
    decode_my_row, first_my_application, my_field_value, my_full_update, my_insert,
    my_partial_update, my_record_values, my_response_statement, my_response_update, my_search,
    stored_value, MySqlValue,
};

fn date(year: i32, month: u8, day: u8) -> Date {
    Date::from_calendar_date(year, month, day).unwrap()
}

fn bytes(s: &str) -> MySqlValue {
    MySqlValue::Bytes(s.as_bytes().to_vec())
}

fn example() -> JobApplication {
    JobApplication {
        id: 12,
        source: "foo source".to_owned(),
        company: "foo company".to_owned(),
        job_title: "foo job".to_owned(),
        application_date: date(2001, 2, 2),
        time_investment: Some(90),
        human_response: HumanResponse::Rejection,
        human_response_date: Some(date(2001, 2, 3)),
        application_website: Some("foo website".to_owned()),
        notes: Some("foo notes".to_owned()),
    }
}

#[test]
fn record_values_match_the_driver_encoding() {
    assert_eq!(
        my_record_values(&example()),
        vec![
            MySqlValue::Int(12),
            bytes("foo source"),
            bytes("foo company"),
            bytes("foo job"),
            MySqlValue::Date(2001, 2, 2, 0, 0, 0, 0),
            MySqlValue::Time(false, 0, 0, 1, 30, 0),
            bytes("R"),
            MySqlValue::Date(2001, 2, 3, 0, 0, 0, 0),
            bytes("foo website"),
            bytes("foo notes"),
        ]
    );
}

#[test]
fn null_fields_are_null_values() {
    let a = JobApplication {
        time_investment: None,
        human_response: HumanResponse::NoResponse,
        human_response_date: None,
        application_website: None,
        notes: None,
        ..example()
    };
    let values = my_record_values(&a);
    assert_eq!(values[5], MySqlValue::Null);
    assert_eq!(values[6], bytes("N"));
    assert_eq!(values[7], MySqlValue::Null);
    assert_eq!(values[8], MySqlValue::Null);
    assert_eq!(values[9], MySqlValue::Null);
}

#[test]
fn long_and_negative_times() {
    assert_eq!(
        my_field_value(&JobApplicationField::TimeInvestment(Some(90061))),
        MySqlValue::Time(false, 1, 1, 1, 1, 0)
    );
    assert_eq!(
        my_field_value(&JobApplicationField::TimeInvestment(Some(-61))),
        MySqlValue::Time(true, 0, 0, 1, 1, 0)
    );
    assert_eq!(stored_value(&MySqlValue::Time(true, 0, 0, 1, 1, 0)), SqlValue::Integer(-61));
}

#[test]
fn driver_values_map_onto_stored_values() {
    assert_eq!(stored_value(&bytes("abc")), SqlValue::Text("abc".to_string()));
    assert_eq!(stored_value(&MySqlValue::Bytes(vec![0xff, 0xfe])), SqlValue::Blob(vec![0xff, 0xfe]));
    assert_eq!(
        stored_value(&MySqlValue::Date(2001, 2, 3, 0, 0, 0, 0)),
        SqlValue::Text("2001-02-03".to_string())
    );
    assert_eq!(stored_value(&MySqlValue::Date(2001, 2, 30, 0, 0, 0, 0)), SqlValue::Blob(vec![]));
    assert_eq!(stored_value(&MySqlValue::UInt(7)), SqlValue::Integer(7));
    assert_eq!(stored_value(&MySqlValue::Null), SqlValue::Null);
}

#[test]
fn rows_read_back_as_records() {
    let a = example();
    assert_eq!(decode_my_row(&my_record_values(&a)).unwrap(), a);
    let short = vec![MySqlValue::Int(1)];
    assert!(matches!(decode_my_row(&short), Err(RepositoryError::UnexpectedRowWidth(1))));
    let mut null_response = my_record_values(&a);
    null_response[6] = MySqlValue::Null;
    assert!(matches!(
        decode_my_row(&null_response),
        Err(RepositoryError::InvalidColumnValue(6))
    ));
    let mut unknown = my_record_values(&a);
    unknown[6] = bytes("Q");
    assert_eq!(decode_my_row(&unknown).unwrap().human_response, HumanResponse::NoResponse);
}

#[test]
fn server_statements() {
    let p = PartialJobApplication(vec![
        JobApplicationField::Id(2),
        JobApplicationField::Company("Acme".to_string()),
    ]);
    let stmt = my_partial_update(&p).unwrap();
    assert_eq!(stmt.sql, "UPDATE job_applications SET company = ? WHERE id = ?");
    assert_eq!(stmt.params, vec![bytes("Acme"), MySqlValue::Int(2)]);
    assert!(matches!(
        my_partial_update(&PartialJobApplication(vec![])),
        Err(RepositoryError::NoIdField)
    ));

    let stmt = my_full_update(&example());
    assert_eq!(stmt.params.len(), 10);
    assert_eq!(stmt.params[9], MySqlValue::Int(12));
    assert_eq!(my_insert(&example()).params.len(), 9);

    let stmt = my_response_update(3, HumanResponse::JobOffer, date(2020, 1, 5));
    assert_eq!(
        stmt.sql,
        "UPDATE job_applications SET human_response = ?, human_response_date = ? WHERE id = ?"
    );
    assert_eq!(
        stmt.params,
        vec![bytes("J"), MySqlValue::Date(2020, 1, 5, 0, 0, 0, 0), MySqlValue::Int(3)]
    );

    let stmt = my_search("acme", Some(HumanResponse::NoResponse));
    assert_eq!(
        stmt.params,
        vec![bytes("%acme%"), bytes("%acme%"), bytes("%acme%"), bytes("N")]
    );
    assert!(stmt.sql.ends_with("AND human_response = ?"));
}

fn check_into_params() {
    let actual = my_insert(&example()).params;
    let expected = vec![
        bytes("foo source"),
        bytes("foo company"),
        bytes("foo job"),
        MySqlValue::Date(2001, 2, 2, 0, 0, 0, 0),
        MySqlValue::Time(false, 0, 0, 1, 30, 0),
        bytes("R"),
        MySqlValue::Date(2001, 2, 3, 0, 0, 0, 0),
        bytes("foo website"),
        bytes("foo notes"),
    ];
    assert_eq!(actual, expected, "Actual and expected params differ");
}

fn check_into_params_null() {
    let a = JobApplication {
        time_investment: None,
        human_response: HumanResponse::NoResponse,
        human_response_date: None,
        application_website: None,
        notes: None,
        ..example()
    };
    let expected = vec![
        bytes("foo source"),
        bytes("foo company"),
        bytes("foo job"),
        MySqlValue::Date(2001, 2, 2, 0, 0, 0, 0),
        MySqlValue::Null,
        bytes("N"),
        MySqlValue::Null,
        MySqlValue::Null,
        MySqlValue::Null,
    ];
    assert_eq!(my_insert(&a).params, expected, "Actual and expected params differ");
}

fn check_to_value_human_response() {
    assert_eq!(
        my_field_value(&JobApplicationField::HumanResponse(HumanResponse::NoResponse)),
        bytes("N"),
        "None -> N"
    );
    assert_eq!(
        my_field_value(&JobApplicationField::HumanResponse(HumanResponse::Rejection)),
        bytes("R"),
        "Rejection -> R"
    );
    assert_eq!(
        my_field_value(&JobApplicationField::HumanResponse(HumanResponse::InterviewRequest)),
        bytes("I"),
        "InterviewRequest -> I"
    );
    assert_eq!(response_value(HumanResponse::Rejection), SqlValue::Text("R".to_string()));
}

fn check_from_value_human_response() {
    let read = |v: MySqlValue| decode_human_response(&stored_value(&v)).unwrap();
    assert_eq!(read(bytes("N")), HumanResponse::NoResponse, "N -> None");
    assert_eq!(read(bytes("R")), HumanResponse::Rejection, "R -> Rejection");
    assert_eq!(read(bytes("I")), HumanResponse::InterviewRequest, "I -> InterviewRequest");
    assert_eq!(read(bytes("")), HumanResponse::NoResponse, "Unknown value -> None");
}

fn check_into_params_partial() {
    let fields = vec![
        JobApplicationField::Source("foo source".to_owned()),
        JobApplicationField::Company("foo company".to_owned()),
        JobApplicationField::JobTitle("foo job".to_owned()),
        JobApplicationField::ApplicationDate(date(2001, 2, 2)),
        JobApplicationField::TimeInvestment(Some(90)),
        JobApplicationField::HumanResponse(HumanResponse::Rejection),
        JobApplicationField::HumanResponseDate(Some(date(2001, 2, 3))),
        JobApplicationField::ApplicationWebsite(Some("foo website".to_owned())),
        JobApplicationField::Notes(Some("foo notes".to_owned())),
    ];
    let expected = vec![
        bytes("foo source"),
        bytes("foo company"),
        bytes("foo job"),
        MySqlValue::Date(2001, 2, 2, 0, 0, 0, 0),
        MySqlValue::Time(false, 0, 0, 1, 30, 0),
        bytes("R"),
        MySqlValue::Date(2001, 2, 3, 0, 0, 0, 0),
        bytes("foo website"),
        bytes("foo notes"),
    ];
    let actual: Vec<MySqlValue> = fields.iter().map(my_field_value).collect();
    assert_eq!(actual, expected, "Actual and expected params differ");

    // As an update, the same entries come first and the id last.
    let mut with_id = fields;
    with_id.push(JobApplicationField::Id(12));
    let stmt = my_partial_update(&PartialJobApplication(with_id)).unwrap();
    let mut expected_update = expected;
    expected_update.push(MySqlValue::Int(12));
    assert_eq!(stmt.params, expected_update);
}

#[test]
fn mysql_backend_test_into_params() {
    check_into_params();
}

#[test]
fn mysql_backend_test_into_params_null() {
    check_into_params_null();
}

#[test]
fn mysql_backend_test_to_value_human_response() {
    check_to_value_human_response();
}

#[test]
fn mysql_backend_test_from_value_human_response() {
    check_from_value_human_response();
}

#[test]
fn mysql_backend_test_into_params_partial() {
    check_into_params_partial();
}

#[test]
fn job_application_model_test_into_params() {
    check_into_params();
}

#[test]
fn job_application_model_test_into_params_null() {
    check_into_params_null();
}

#[test]
fn job_application_model_test_to_value_human_response() {
    check_to_value_human_response();
}

#[test]
fn job_application_model_test_from_value_human_response() {
    check_from_value_human_response();
}

#[test]
fn job_application_model_test_into_params_partial() {
    check_into_params_partial();
}

#[test]
fn first_server_row_or_none() {
    assert_eq!(first_my_application(&vec![]).unwrap(), None);
    let a = example();
    let rows = vec![my_record_values(&a), my_record_values(&JobApplication { id: 99, ..example() })];
    assert_eq!(first_my_application(&rows).unwrap(), Some(a));
    assert!(matches!(
        first_my_application(&vec![vec![MySqlValue::Int(1)]]),
        Err(RepositoryError::UnexpectedRowWidth(1))
    ));
}

#[test]
fn server_response_statement_dates_default_to_today() {
    let today = date(2024, 5, 6);
    let stmt = my_response_statement(4, HumanResponse::Rejection, None, today);
    assert_eq!(
        stmt.params,
        vec![bytes("R"), MySqlValue::Date(2024, 5, 6, 0, 0, 0, 0), MySqlValue::Int(4)]
    );
    let stmt = my_response_statement(4, HumanResponse::Rejection, Some(date(2001, 2, 3)), today);
    assert_eq!(stmt.params[1], MySqlValue::Date(2001, 2, 3, 0, 0, 0, 0));
}
