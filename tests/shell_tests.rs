//! Tests of the shell's command and answer readers.

use repository::date::Date;
use repository::job_application_model::HumanResponse;
use repository::shell_input::{
    parse_date, parse_date_optional, parse_response, parse_response_change, parse_time_investment,
};
use repository::shell_option::{ReadType, ShellOption, UpdateType};

#[test]
fn simple_commands() {
    assert_eq!(ShellOption::try_from_str("help"), Ok(ShellOption::Help));
    assert_eq!(ShellOption::try_from_str("h"), Ok(ShellOption::Help));
    assert_eq!(ShellOption::try_from_str("exit"), Ok(ShellOption::Exit));
    assert_eq!(ShellOption::try_from_str("quit"), Ok(ShellOption::Exit));
    assert_eq!(ShellOption::try_from_str("create"), Ok(ShellOption::Create));
    assert_eq!(ShellOption::try_from_str("new"), Ok(ShellOption::Create));
    assert_eq!(ShellOption::try_from_str(""), Err("No command given".to_string()));
    assert_eq!(ShellOption::try_from_str("fly"), Err("Invalid command".to_string()));
}

#[test]
fn read_commands() {
    assert_eq!(ShellOption::try_from_str("read"), Ok(ShellOption::Read(ReadType::All)));
    assert_eq!(ShellOption::try_from_str("read all"), Ok(ShellOption::Read(ReadType::All)));
    assert_eq!(ShellOption::try_from_str("read pending"), Ok(ShellOption::Read(ReadType::Pending)));
    assert_eq!(ShellOption::try_from_str("read 42"), Ok(ShellOption::Read(ReadType::One(42))));
    assert_eq!(
        ShellOption::try_from_str("read search big corp"),
        Ok(ShellOption::Read(ReadType::Search("big corp".to_string())))
    );
    assert_eq!(
        ShellOption::try_from_str("search big corp"),
        Ok(ShellOption::Read(ReadType::Search("big corp".to_string())))
    );
    assert_eq!(
        ShellOption::try_from_str("search"),
        Err("Search query is required for search".to_string())
    );
    assert_eq!(
        ShellOption::try_from_str("read abc"),
        Err("Unable to parse id 'abc'. Error: invalid digit found in string".to_string())
    );
}

#[test]
fn update_and_delete_commands() {
    assert_eq!(
        ShellOption::try_from_str("update response 7"),
        Ok(ShellOption::Update(UpdateType::HumanResponse, 7))
    );
    assert_eq!(
        ShellOption::try_from_str("update other -3"),
        Ok(ShellOption::Update(UpdateType::Other, -3))
    );
    assert_eq!(
        ShellOption::try_from_str("update other"),
        Err("Update type and ID are required".to_string())
    );
    assert_eq!(
        ShellOption::try_from_str("update sideways 7"),
        Err("Invalid update type".to_string())
    );
    assert_eq!(ShellOption::try_from_str("update  7"), Err("No update type given".to_string()));
    assert_eq!(ShellOption::try_from_str("delete 9"), Ok(ShellOption::Delete(9)));
    assert!(ShellOption::try_from_str("delete 99999999999")
        .unwrap_err()
        .starts_with("Unable to parse id '99999999999'. Error: "));
    assert_eq!(UpdateType::try_from_str(""), Err("No update type given".to_string()));
    assert_eq!(ReadType::try_from_str(""), Ok(ReadType::All));
}

#[test]
fn response_answers() {
    assert_eq!(parse_response("r"), Ok(HumanResponse::Rejection));
    assert_eq!(parse_response("Reject"), Ok(HumanResponse::Rejection));
    assert_eq!(parse_response("I"), Ok(HumanResponse::InterviewRequest));
    assert_eq!(parse_response(""), Ok(HumanResponse::NoResponse));
    assert_eq!(parse_response("x"), Err("Unknown response".to_string()));
    assert_eq!(parse_response_change("remove"), Ok(Some(HumanResponse::NoResponse)));
    assert_eq!(parse_response_change(""), Ok(None));
    assert_eq!(parse_response_change("i"), Ok(Some(HumanResponse::InterviewRequest)));
    assert_eq!(parse_response_change("zzz"), Err("Unknown response".to_string()));
}

#[test]
fn time_answers() {
    assert_eq!(parse_time_investment(""), Ok(None));
    assert_eq!(parse_time_investment("1:23"), Ok(Some(83)));
    assert_eq!(parse_time_investment("90:00"), Ok(Some(5400)));
    assert_eq!(parse_time_investment("123"), Err("No colon found".to_string()));
    assert!(parse_time_investment("a:10").is_err());
}

#[test]
fn date_answers() {
    let today = Date::from_calendar_date(2024, 5, 6).unwrap();
    assert_eq!(parse_date("", today), Ok(today));
    assert_eq!(
        parse_date("02/03/2001", today),
        Ok(Date::from_calendar_date(2001, 2, 3).unwrap())
    );
    assert!(parse_date("02/30/2001", today).is_err());
    assert_eq!(parse_date_optional(""), Ok(None));
    assert_eq!(
        parse_date_optional("12/31/1999"),
        Ok(Some(Date::from_calendar_date(1999, 12, 31).unwrap()))
    );
    assert!(parse_date_optional("1999-12-31").is_err());
}
