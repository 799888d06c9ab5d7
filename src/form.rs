//! The job application as the desktop form edits it: every field present,
//! empty text and zero standing for absent values, and dates as three plain
//! numbers.
use vstd::prelude::*;

use crate::date::{days_between, is_valid_date, julian_day_of, Date, InvalidDate};
use crate::error::RepositoryError;
use crate::job_application_model::{opt_text, ApplicationRecord, HumanResponse, JobApplication};
use crate::job_application_repository::JobApplicationRepository;

verus! {

/// A date as the form holds it; all zeros when unset.
#[derive(Clone, Copy, Debug, PartialEq, Eq, Structural)]
pub struct FormDate {
    pub year: i32,
    pub month: i32,
    pub day: i32,
}

/// The application shown in the form's sidebar.
#[derive(Clone, Debug, PartialEq, Eq)]
pub struct JobApplicationView {
    /// 0 for an application that is not stored yet.
    pub id: i32,
    pub source: String,
    pub company: String,
    pub job_title: String,
    pub application_date: FormDate,
    /// Seconds; 0 when unknown.
    pub time_investment: i32,
    pub human_response: HumanResponse,
    /// Read only where there is a human response.
    pub human_response_date: FormDate,
    /// Empty when there is none.
    pub application_website: String,
    /// Empty when there are none.
    pub notes: String,
}

pub open spec fn form_date_of(d: Date) -> FormDate {
    FormDate { year: d.year as i32, month: d.month as i32, day: d.day as i32 }
}

pub open spec fn form_date_valid(f: FormDate) -> bool {
    is_valid_date(f.year as int, f.month as int, f.day as int)
}

pub open spec fn date_of_form(f: FormDate) -> Date {
    Date { year: f.year, month: f.month as u8, day: f.day as u8 }
}

/// Text that is empty stands for an absent value.
pub open spec fn text_or_none(s: Seq<char>) -> Option<Seq<char>> {
    if s.len() == 0 {
        None
    } else {
        Some(s)
    }
}

pub open spec fn none_as_empty(o: Option<Seq<char>>) -> Seq<char> {
    match o {
        Some(s) => s,
        None => Seq::empty(),
    }
}

/// Whether the form's dates that are read are days of the calendar.
pub open spec fn view_dates_valid(v: JobApplicationView) -> bool {
    form_date_valid(v.application_date) && (v.human_response == HumanResponse::NoResponse
        || form_date_valid(v.human_response_date))
}

/// The record that a filled-in form stands for.
pub open spec fn record_of_view(v: JobApplicationView) -> ApplicationRecord {
    ApplicationRecord {
        id: v.id,
        source: v.source@,
        company: v.company@,
        job_title: v.job_title@,
        application_date: date_of_form(v.application_date),
        time_investment: if v.time_investment == 0 {
            None
        } else {
            Some(v.time_investment as i64)
        },
        human_response: v.human_response,
        human_response_date: if v.human_response == HumanResponse::NoResponse {
            None
        } else {
            Some(date_of_form(v.human_response_date))
        },
        application_website: text_or_none(v.application_website@),
        notes: text_or_none(v.notes@),
    }
}

impl FormDate {
    /// The form's value for a date.
    pub fn from_date(d: Date) -> (r: FormDate)
        ensures
            r == form_date_of(d),
    {
        FormDate { year: d.year, month: d.month as i32, day: d.day as i32 }
    }

    /// The calendar date the form's numbers name, if they name one.
    pub fn to_date(&self) -> (r: Result<Date, InvalidDate>)
        ensures
            r is Ok <==> form_date_valid(*self),
            r is Ok ==> r->Ok_0 == date_of_form(*self),
    {
        if self.month < 0 || self.month > 255 || self.day < 0 || self.day > 255 {
            return Err(InvalidDate);
        }
        Date::from_calendar_date(self.year, self.month as u8, self.day as u8)
    }
}

fn text_or_none_exec(s: &String) -> (r: Option<String>)
    ensures
        opt_text(r) == text_or_none(s@),
{
    if s.as_str().unicode_len() == 0 {
        None
    } else {
        Some(s.clone())
    }
}

fn none_as_empty_exec(o: &Option<String>) -> (r: String)
    ensures
        r@ == none_as_empty(opt_text(*o)),
{
    match o {
        Some(s) => s.clone(),
        None => String::new(),
    }
}

impl JobApplicationView {
    /// The record that the form stands for; a date that the form reads and
    /// that is no day of the calendar is an error.
    pub fn to_application(&self) -> (r: Result<JobApplication, InvalidDate>)
        ensures
            r is Ok <==> view_dates_valid(*self),
            r is Ok ==> r->Ok_0@ == record_of_view(*self) && r->Ok_0@.is_valid(),
    {
        let application_date = self.application_date.to_date()?;
        let human_response_date = match self.human_response {
            HumanResponse::NoResponse => None,
            _ => Some(self.human_response_date.to_date()?),
        };
        let time_investment = if self.time_investment == 0 {
            None
        } else {
            Some(self.time_investment as i64)
        };
        Ok(
            JobApplication {
                id: self.id,
                source: self.source.clone(),
                company: self.company.clone(),
                job_title: self.job_title.clone(),
                application_date,
                time_investment,
                human_response: self.human_response,
                human_response_date,
                application_website: text_or_none_exec(&self.application_website),
                notes: text_or_none_exec(&self.notes),
            },
        )
    }

    /// The form filled in with a stored application. Absent values show as
    /// empty text, zero seconds or an all-zero date; the time investment is
    /// cast to 32 bits.
    pub fn from_application(a: &JobApplication) -> (r: JobApplicationView)
        ensures
            r.id == a.id,
            r.source@ == a.source@,
            r.company@ == a.company@,
            r.job_title@ == a.job_title@,
            r.application_date == form_date_of(a.application_date),
            r.time_investment == match a.time_investment {
                Some(t) => t as i32,
                None => 0,
            },
            r.human_response == a.human_response,
            r.human_response_date == match a.human_response_date {
                Some(d) => form_date_of(d),
                None => (FormDate { year: 0, month: 0, day: 0 }),
            },
            r.application_website@ == none_as_empty(opt_text(a.application_website)),
            r.notes@ == none_as_empty(opt_text(a.notes)),
    {
        let time_investment = match a.time_investment {
            Some(t) => #[verifier::truncate] (t as i32),
            None => 0,
        };
        let human_response_date = match a.human_response_date {
            Some(d) => FormDate::from_date(d),
            None => FormDate { year: 0, month: 0, day: 0 },
        };
        JobApplicationView {
            id: a.id,
            source: a.source.clone(),
            company: a.company.clone(),
            job_title: a.job_title.clone(),
            application_date: FormDate::from_date(a.application_date),
            time_investment,
            human_response: a.human_response,
            human_response_date,
            application_website: none_as_empty_exec(&a.application_website),
            notes: none_as_empty_exec(&a.notes),
        }
    }
}

/// The number of days from one form date to another, cast to 32 bits; 0
/// where either date is unset (all zeros) or names no day of the calendar.
pub fn date_diff(from: FormDate, to: FormDate) -> (r: i32)
    ensures
        r == if to == (FormDate { year: 0, month: 0, day: 0 }) || from == (FormDate {
            year: 0,
            month: 0,
            day: 0,
        }) || !form_date_valid(from) || !form_date_valid(to) {
            0
        } else {
            (julian_day_of(date_of_form(to)) - julian_day_of(date_of_form(from))) as i32
        },
{
    let unset = FormDate { year: 0, month: 0, day: 0 };
    if to == unset || from == unset {
        return 0;
    }
    match (from.to_date(), to.to_date()) {
        (Ok(f), Ok(t)) => #[verifier::truncate] (days_between(f, t) as i32),
        _ => 0,
    }
}

/// The empty form for a new application: id 0 (so that submitting it
/// inserts), no human response, empty text, and both dates set to today.
pub fn reset_selected_row(today: Date) -> (r: JobApplicationView)
    ensures
        r.id == 0,
        r.source@.len() == 0,
        r.company@.len() == 0,
        r.job_title@.len() == 0,
        r.application_date == form_date_of(today),
        r.time_investment == 0,
        r.human_response == HumanResponse::NoResponse,
        r.human_response_date == form_date_of(today),
        r.application_website@.len() == 0,
        r.notes@.len() == 0,
{
    JobApplicationView {
        id: 0,
        source: String::new(),
        company: String::new(),
        job_title: String::new(),
        application_date: FormDate::from_date(today),
        time_investment: 0,
        human_response: HumanResponse::NoResponse,
        human_response_date: FormDate::from_date(today),
        application_website: String::new(),
        notes: String::new(),
    }
}

/// Why the form could not be stored.
#[derive(Debug)]
pub enum SubmitError {
    /// A date that the form reads names no day of the calendar.
    InvalidDate,
    /// The repository refused.
    Repository(RepositoryError),
}

/// Stores the application that the form holds: one with id 0 is inserted,
/// any other replaces every field of the stored application with its id.
/// Returns the application as stored.
pub fn submit_job_application<C: JobApplicationRepository>(
    conn: &mut C,
    view: &JobApplicationView,
) -> (r: Result<JobApplication, SubmitError>)
    ensures
        !view_dates_valid(*view) <==> (r is Err && r->Err_0 is InvalidDate),
        !view_dates_valid(*view) ==> *final(conn) == *old(conn),
        r is Ok && view.id == 0 ==> r->Ok_0@ == (ApplicationRecord {
            id: r->Ok_0.id,
            ..record_of_view(*view)
        }),
        r is Ok && view.id != 0 ==> r->Ok_0@ == record_of_view(*view),
{
    let application = match view.to_application() {
        Ok(a) => a,
        Err(_) => return Err(SubmitError::InvalidDate),
    };
    if application.id == 0 {
        match conn.insert_job_application(&application) {
            Ok(stored) => Ok(stored),
            Err(e) => Err(SubmitError::Repository(e)),
        }
    } else {
        match conn.update_job_application(&application) {
            Ok(()) => Ok(application),
            Err(e) => Err(SubmitError::Repository(e)),
        }
    }
}

/// Filling the form with a stored application and reading it back gives
/// the application again, where its time investment is a non-zero number of
/// seconds that fits an `i32` or is absent, its optional texts are not empty,
/// and it has a response date exactly when it has a human response.
pub proof fn lemma_form_round_trip(a: ApplicationRecord, v: JobApplicationView)
    requires
        a.is_valid(),
        v.id == a.id,
        v.source@ == a.source,
        v.company@ == a.company,
        v.job_title@ == a.job_title,
        v.application_date == form_date_of(a.application_date),
        v.time_investment == match a.time_investment {
            Some(t) => t as i32,
            None => 0,
        },
        v.human_response == a.human_response,
        v.human_response_date == match a.human_response_date {
            Some(d) => form_date_of(d),
            None => (FormDate { year: 0, month: 0, day: 0 }),
        },
        v.application_website@ == none_as_empty(a.application_website),
        v.notes@ == none_as_empty(a.notes),
        match a.time_investment {
            Some(t) => t != 0 && i32::MIN <= t <= i32::MAX,
            None => true,
        },
        match a.application_website {
            Some(s) => s.len() > 0,
            None => true,
        },
        match a.notes {
            Some(s) => s.len() > 0,
            None => true,
        },
        (a.human_response == HumanResponse::NoResponse) <==> a.human_response_date is None,
    ensures
        view_dates_valid(v),
        record_of_view(v) == a,
{
}

} // verus!
