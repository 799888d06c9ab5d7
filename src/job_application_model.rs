//! The job application record, the human response it tracks, and the field
//! projection that a partial update carries.
use vstd::prelude::*;

use crate::date::{days_between, julian_day_of, Date};
use crate::text::{lower_of, lowercase, str_equals, trim, trimmed_of};

verus! {

/// The reply an employer has given to an application.
#[derive(Clone, Copy, Debug, PartialEq, Eq, Structural)]
pub enum HumanResponse {
    /// No reply yet.
    NoResponse,
    /// The company rejected the application.
    Rejection,
    /// The company asked for an interview.
    InterviewRequest,
    /// An interview took place, then a rejection came.
    InterviewedThenRejected,
    /// An interview took place, then a job offer came.
    JobOffer,
}

/// The storage code of a human response.
pub open spec fn code_of(r: HumanResponse) -> Seq<char> {
    match r {
        HumanResponse::NoResponse => "N"@,
        HumanResponse::Rejection => "R"@,
        HumanResponse::InterviewRequest => "I"@,
        HumanResponse::InterviewedThenRejected => "IR"@,
        HumanResponse::JobOffer => "J"@,
    }
}

/// The human response that a stored code denotes: an unknown code means no
/// reply yet.
pub open spec fn response_of_code(s: Seq<char>) -> HumanResponse {
    if s == "R"@ {
        HumanResponse::Rejection
    } else if s == "I"@ {
        HumanResponse::InterviewRequest
    } else if s == "IR"@ {
        HumanResponse::InterviewedThenRejected
    } else if s == "J"@ {
        HumanResponse::JobOffer
    } else {
        HumanResponse::NoResponse
    }
}

/// The label under which a human response is shown to a person.
pub open spec fn label_of(r: HumanResponse) -> Seq<char> {
    match r {
        HumanResponse::NoResponse => "No response yet"@,
        HumanResponse::Rejection => "Rejection"@,
        HumanResponse::InterviewRequest => "Interview request"@,
        HumanResponse::InterviewedThenRejected => "Interviewed, then rejected"@,
        HumanResponse::JobOffer => "Job offer"@,
    }
}

impl Default for HumanResponse {
    fn default() -> (r: Self)
        ensures
            r == HumanResponse::NoResponse,
    {
        HumanResponse::NoResponse
    }
}

impl HumanResponse {
    /// The code under which the database stores this response.
    pub fn code(&self) -> (r: &'static str)
        ensures
            r@ == code_of(*self),
    {
        match self {
            HumanResponse::NoResponse => "N",
            HumanResponse::Rejection => "R",
            HumanResponse::InterviewRequest => "I",
            HumanResponse::InterviewedThenRejected => "IR",
            HumanResponse::JobOffer => "J",
        }
    }

    /// The response that a stored code denotes; an unknown code gives `None`.
    pub fn from_code(s: &str) -> (r: HumanResponse)
        ensures
            r == response_of_code(s@),
    {
        if str_equals(s, "R") {
            HumanResponse::Rejection
        } else if str_equals(s, "I") {
            HumanResponse::InterviewRequest
        } else if str_equals(s, "IR") {
            HumanResponse::InterviewedThenRejected
        } else if str_equals(s, "J") {
            HumanResponse::JobOffer
        } else {
            HumanResponse::NoResponse
        }
    }

    /// The label under which this response is shown.
    pub fn label(&self) -> (r: &'static str)
        ensures
            r@ == label_of(*self),
    {
        match self {
            HumanResponse::NoResponse => "No response yet",
            HumanResponse::Rejection => "Rejection",
            HumanResponse::InterviewRequest => "Interview request",
            HumanResponse::InterviewedThenRejected => "Interviewed, then rejected",
            HumanResponse::JobOffer => "Job offer",
        }
    }
}

/// The response that a person's lower-cased, trimmed answer names: a label
/// or a code, the empty answer meaning no reply yet.
pub open spec fn response_of_answer(s: Seq<char>) -> Option<HumanResponse> {
    if s == "job offer"@ || s == "j"@ {
        Some(HumanResponse::JobOffer)
    } else if s == "interviewed then rejected"@ || s == "ir"@ {
        Some(HumanResponse::InterviewedThenRejected)
    } else if s == "interview request"@ || s == "i"@ {
        Some(HumanResponse::InterviewRequest)
    } else if s == "rejection"@ || s == "r"@ {
        Some(HumanResponse::Rejection)
    } else if s.len() == 0 || s == "n"@ {
        Some(HumanResponse::NoResponse)
    } else {
        None
    }
}

impl HumanResponse {
    /// Reads an answer that is already trimmed and lower-cased.
    pub fn from_normalized(s: &str) -> (r: Result<HumanResponse, ()>)
        ensures
            r is Ok <==> response_of_answer(s@) is Some,
            r is Ok ==> r->Ok_0 == response_of_answer(s@)->Some_0,
    {
        if str_equals(s, "job offer") || str_equals(s, "j") {
            Ok(HumanResponse::JobOffer)
        } else if str_equals(s, "interviewed then rejected") || str_equals(s, "ir") {
            Ok(HumanResponse::InterviewedThenRejected)
        } else if str_equals(s, "interview request") || str_equals(s, "i") {
            Ok(HumanResponse::InterviewRequest)
        } else if str_equals(s, "rejection") || str_equals(s, "r") {
            Ok(HumanResponse::Rejection)
        } else if s.unicode_len() == 0 || str_equals(s, "n") {
            Ok(HumanResponse::NoResponse)
        } else {
            Err(())
        }
    }

    /// Reads a person's answer: a label or a code, in any case, with white
    /// space around it ignored.
    pub fn try_from_str(value: &str) -> (r: Result<HumanResponse, ()>)
        ensures
            r is Ok <==> response_of_answer(lower_of(trimmed_of(value@))) is Some,
            r is Ok ==> r->Ok_0 == response_of_answer(lower_of(trimmed_of(value@)))->Some_0,
    {
        let lowered = lowercase(trim(value));
        HumanResponse::from_normalized(lowered.as_str())
    }
}

/// Every response's code reads back as that response.
pub proof fn lemma_code_round_trip(r: HumanResponse)
    ensures
        response_of_code(code_of(r)) == r,
{
    reveal_strlit("N");
    reveal_strlit("R");
    reveal_strlit("I");
    reveal_strlit("IR");
    reveal_strlit("J");
    assert("N"@[0] != "R"@[0] && "N"@[0] != "I"@[0] && "N"@[0] != "J"@[0]);
    assert("I"@[0] != "R"@[0] && "J"@[0] != "R"@[0] && "J"@[0] != "I"@[0]);
    assert("IR"@.len() != "R"@.len() && "IR"@.len() != "I"@.len());
    assert("N"@.len() != "IR"@.len() && "J"@.len() != "IR"@.len());
}

/// The view of an optional string.
pub open spec fn opt_text(o: Option<String>) -> Option<Seq<char>> {
    match o {
        Some(s) => Some(s@),
        None => None,
    }
}

pub fn clone_opt_text(o: &Option<String>) -> (r: Option<String>)
    ensures
        opt_text(r) == opt_text(*o),
{
    match o {
        Some(s) => Some(s.clone()),
        None => None,
    }
}

/// One row of the job application table.
#[derive(Clone, Debug, PartialEq, Eq)]
pub struct JobApplication {
    /// The primary key; 0 for an application that is not stored yet.
    pub id: i32,
    /// Where the opening was found: a job board, a referral, ...
    pub source: String,
    /// The hiring company.
    pub company: String,
    pub job_title: String,
    /// The day the application was sent.
    pub application_date: Date,
    /// Seconds spent filling out the application, where known.
    pub time_investment: Option<i64>,
    pub human_response: HumanResponse,
    /// The day the human response came.
    pub human_response_date: Option<Date>,
    /// The application's web site, where it was not sent through a job board.
    pub application_website: Option<String>,
    pub notes: Option<String>,
}

/// The mathematical value of a job application.
pub struct ApplicationRecord {
    pub id: i32,
    pub source: Seq<char>,
    pub company: Seq<char>,
    pub job_title: Seq<char>,
    pub application_date: Date,
    pub time_investment: Option<i64>,
    pub human_response: HumanResponse,
    pub human_response_date: Option<Date>,
    pub application_website: Option<Seq<char>>,
    pub notes: Option<Seq<char>>,
}

pub open spec fn opt_date_valid(o: Option<Date>) -> bool {
    match o {
        Some(d) => d.is_valid(),
        None => true,
    }
}

impl ApplicationRecord {
    /// Its dates are days of the calendar.
    pub open spec fn is_valid(self) -> bool {
        self.application_date.is_valid() && opt_date_valid(self.human_response_date)
    }
}

impl View for JobApplication {
    type V = ApplicationRecord;

    open spec fn view(&self) -> ApplicationRecord {
        ApplicationRecord {
            id: self.id,
            source: self.source@,
            company: self.company@,
            job_title: self.job_title@,
            application_date: self.application_date,
            time_investment: self.time_investment,
            human_response: self.human_response,
            human_response_date: self.human_response_date,
            application_website: opt_text(self.application_website),
            notes: opt_text(self.notes),
        }
    }
}

impl JobApplication {
    /// The days from sending the application to the human response, where
    /// there is one.
    pub fn days_to_respond(&self) -> (r: Option<i64>)
        requires
            self@.is_valid(),
        ensures
            r == match self.human_response_date {
                Some(d) => Some((julian_day_of(d) - julian_day_of(self.application_date)) as i64),
                None => None::<i64>,
            },
    {
        match self.human_response_date {
            Some(d) => Some(days_between(self.application_date, d)),
            None => None,
        }
    }

    /// A copy of this application under another id.
    pub fn with_id(&self, id: i32) -> (r: JobApplication)
        ensures
            r@ == (ApplicationRecord { id, ..self@ }),
    {
        JobApplication {
            id,
            source: self.source.clone(),
            company: self.company.clone(),
            job_title: self.job_title.clone(),
            application_date: self.application_date,
            time_investment: self.time_investment,
            human_response: self.human_response,
            human_response_date: self.human_response_date,
            application_website: clone_opt_text(&self.application_website),
            notes: clone_opt_text(&self.notes),
        }
    }
}

/// The columns of the job application table, in table order.
#[derive(Clone, Copy, Debug, PartialEq, Eq, Structural)]
pub enum Column {
    Id,
    Source,
    Company,
    JobTitle,
    ApplicationDate,
    TimeInvestment,
    HumanResponse,
    HumanResponseDate,
    ApplicationWebsite,
    Notes,
}

pub open spec fn column_name(c: Column) -> Seq<char> {
    match c {
        Column::Id => "id"@,
        Column::Source => "source"@,
        Column::Company => "company"@,
        Column::JobTitle => "job_title"@,
        Column::ApplicationDate => "application_date"@,
        Column::TimeInvestment => "time_investment"@,
        Column::HumanResponse => "human_response"@,
        Column::HumanResponseDate => "human_response_date"@,
        Column::ApplicationWebsite => "application_website"@,
        Column::Notes => "notes"@,
    }
}

/// The position of a column in a stored row.
pub open spec fn column_index(c: Column) -> int {
    match c {
        Column::Id => 0,
        Column::Source => 1,
        Column::Company => 2,
        Column::JobTitle => 3,
        Column::ApplicationDate => 4,
        Column::TimeInvestment => 5,
        Column::HumanResponse => 6,
        Column::HumanResponseDate => 7,
        Column::ApplicationWebsite => 8,
        Column::Notes => 9,
    }
}

impl Column {
    /// The column's name in the table; statements are built from these names
    /// alone.
    pub fn name(&self) -> (r: &'static str)
        ensures
            r@ == column_name(*self),
    {
        match self {
            Column::Id => "id",
            Column::Source => "source",
            Column::Company => "company",
            Column::JobTitle => "job_title",
            Column::ApplicationDate => "application_date",
            Column::TimeInvestment => "time_investment",
            Column::HumanResponse => "human_response",
            Column::HumanResponseDate => "human_response_date",
            Column::ApplicationWebsite => "application_website",
            Column::Notes => "notes",
        }
    }
}

/// One field of a job application with its new value, for a partial update.
#[derive(Clone, Debug, PartialEq, Eq)]
pub enum JobApplicationField {
    /// Names the application to update.
    Id(i32),
    Source(String),
    Company(String),
    JobTitle(String),
    ApplicationDate(Date),
    /// `None` clears the stored value.
    TimeInvestment(Option<i64>),
    HumanResponse(HumanResponse),
    /// `None` clears the stored value.
    HumanResponseDate(Option<Date>),
    /// `None` clears the stored value.
    ApplicationWebsite(Option<String>),
    /// `None` clears the stored value.
    Notes(Option<String>),
}

/// The mathematical value of a field entry.
pub enum FieldValue {
    Id(i32),
    Source(Seq<char>),
    Company(Seq<char>),
    JobTitle(Seq<char>),
    ApplicationDate(Date),
    TimeInvestment(Option<i64>),
    HumanResponse(HumanResponse),
    HumanResponseDate(Option<Date>),
    ApplicationWebsite(Option<Seq<char>>),
    Notes(Option<Seq<char>>),
}

impl View for JobApplicationField {
    type V = FieldValue;

    open spec fn view(&self) -> FieldValue {
        match self {
            JobApplicationField::Id(i) => FieldValue::Id(*i),
            JobApplicationField::Source(s) => FieldValue::Source(s@),
            JobApplicationField::Company(s) => FieldValue::Company(s@),
            JobApplicationField::JobTitle(s) => FieldValue::JobTitle(s@),
            JobApplicationField::ApplicationDate(d) => FieldValue::ApplicationDate(*d),
            JobApplicationField::TimeInvestment(t) => FieldValue::TimeInvestment(*t),
            JobApplicationField::HumanResponse(h) => FieldValue::HumanResponse(*h),
            JobApplicationField::HumanResponseDate(d) => FieldValue::HumanResponseDate(*d),
            JobApplicationField::ApplicationWebsite(s) => FieldValue::ApplicationWebsite(
                opt_text(*s),
            ),
            JobApplicationField::Notes(s) => FieldValue::Notes(opt_text(*s)),
        }
    }
}

pub open spec fn field_column(f: FieldValue) -> Column {
    match f {
        FieldValue::Id(_) => Column::Id,
        FieldValue::Source(_) => Column::Source,
        FieldValue::Company(_) => Column::Company,
        FieldValue::JobTitle(_) => Column::JobTitle,
        FieldValue::ApplicationDate(_) => Column::ApplicationDate,
        FieldValue::TimeInvestment(_) => Column::TimeInvestment,
        FieldValue::HumanResponse(_) => Column::HumanResponse,
        FieldValue::HumanResponseDate(_) => Column::HumanResponseDate,
        FieldValue::ApplicationWebsite(_) => Column::ApplicationWebsite,
        FieldValue::Notes(_) => Column::Notes,
    }
}

/// The dates a field carries are days of the calendar.
pub open spec fn field_valid(f: FieldValue) -> bool {
    match f {
        FieldValue::ApplicationDate(d) => d.is_valid(),
        FieldValue::HumanResponseDate(o) => opt_date_valid(o),
        _ => true,
    }
}

/// The record with one field set to the entry's value; an identifier entry
/// changes nothing.
pub open spec fn with_field(r: ApplicationRecord, f: FieldValue) -> ApplicationRecord {
    match f {
        FieldValue::Id(_) => r,
        FieldValue::Source(s) => ApplicationRecord { source: s, ..r },
        FieldValue::Company(s) => ApplicationRecord { company: s, ..r },
        FieldValue::JobTitle(s) => ApplicationRecord { job_title: s, ..r },
        FieldValue::ApplicationDate(d) => ApplicationRecord { application_date: d, ..r },
        FieldValue::TimeInvestment(t) => ApplicationRecord { time_investment: t, ..r },
        FieldValue::HumanResponse(h) => ApplicationRecord { human_response: h, ..r },
        FieldValue::HumanResponseDate(d) => ApplicationRecord { human_response_date: d, ..r },
        FieldValue::ApplicationWebsite(s) => ApplicationRecord { application_website: s, ..r },
        FieldValue::Notes(s) => ApplicationRecord { notes: s, ..r },
    }
}

/// The record with each entry applied in order, so that a later entry for a
/// field wins over an earlier one.
pub open spec fn with_fields(r: ApplicationRecord, fs: Seq<FieldValue>) -> ApplicationRecord
    decreases fs.len(),
{
    if fs.len() == 0 {
        r
    } else {
        with_field(with_fields(r, fs.drop_last()), fs.last())
    }
}

impl JobApplicationField {
    /// The column this entry names.
    pub fn column(&self) -> (r: Column)
        ensures
            r == field_column(self@),
    {
        match self {
            JobApplicationField::Id(_) => Column::Id,
            JobApplicationField::Source(_) => Column::Source,
            JobApplicationField::Company(_) => Column::Company,
            JobApplicationField::JobTitle(_) => Column::JobTitle,
            JobApplicationField::ApplicationDate(_) => Column::ApplicationDate,
            JobApplicationField::TimeInvestment(_) => Column::TimeInvestment,
            JobApplicationField::HumanResponse(_) => Column::HumanResponse,
            JobApplicationField::HumanResponseDate(_) => Column::HumanResponseDate,
            JobApplicationField::ApplicationWebsite(_) => Column::ApplicationWebsite,
            JobApplicationField::Notes(_) => Column::Notes,
        }
    }

    /// The name of the column this entry names.
    pub fn name(&self) -> (r: &'static str)
        ensures
            r@ == column_name(field_column(self@)),
    {
        self.column().name()
    }
}

/// An ordered list of field entries: a request to change some fields of one
/// application.
#[derive(Clone, Debug, PartialEq, Eq)]
pub struct PartialJobApplication(pub Vec<JobApplicationField>);

impl View for PartialJobApplication {
    type V = Seq<FieldValue>;

    open spec fn view(&self) -> Seq<FieldValue> {
        Seq::new(self.0@.len(), |i: int| self.0@[i]@)
    }
}

} // verus!
