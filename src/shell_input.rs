//! Readers for the answers that the shell asks for while it creates or
//! edits an application.
use vstd::prelude::*;

use crate::date::Date;
use crate::job_application_model::HumanResponse;
use crate::shell_option::{decimal_value, is_i32_text, parse_i32};
use crate::text::str_equals;

verus! {

/// Whether `s` starts with one of two characters.
pub open spec fn starts_with_either(s: Seq<char>, a: char, b: char) -> bool {
    s.len() > 0 && (s[0] == a || s[0] == b)
}

/// The response that an answer picks: `r` or `R` first for a rejection, `i`
/// or `I` first for an interview request, nothing for no reply yet.
pub open spec fn response_choice(s: Seq<char>) -> Option<HumanResponse> {
    if starts_with_either(s, 'r', 'R') {
        Some(HumanResponse::Rejection)
    } else if starts_with_either(s, 'i', 'I') {
        Some(HumanResponse::InterviewRequest)
    } else if s.len() == 0 {
        Some(HumanResponse::NoResponse)
    } else {
        None
    }
}

fn starts_with_either_exec(s: &str, a: char, b: char) -> (r: bool)
    ensures
        r == starts_with_either(s@, a, b),
{
    if s.unicode_len() == 0 {
        false
    } else {
        let c = s.get_char(0);
        c == a || c == b
    }
}

/// Reads which human response came; anything else is "Unknown response".
pub fn parse_response(s: &str) -> (r: Result<HumanResponse, String>)
    ensures
        r is Ok <==> response_choice(s@) is Some,
        r is Ok ==> r->Ok_0 == response_choice(s@)->Some_0,
        r is Err ==> r->Err_0@ == "Unknown response"@,
{
    if starts_with_either_exec(s, 'r', 'R') {
        Ok(HumanResponse::Rejection)
    } else if starts_with_either_exec(s, 'i', 'I') {
        Ok(HumanResponse::InterviewRequest)
    } else if s.unicode_len() == 0 {
        Ok(HumanResponse::NoResponse)
    } else {
        Err(String::from_str("Unknown response"))
    }
}

/// Reads a change of human response: `remove` clears it, nothing keeps it,
/// and otherwise as `parse_response`.
pub fn parse_response_change(s: &str) -> (r: Result<Option<HumanResponse>, String>)
    ensures
        s@ == "remove"@ ==> r == Ok::<Option<HumanResponse>, String>(
            Some(HumanResponse::NoResponse),
        ),
        s@ != "remove"@ && s@.len() == 0 ==> r == Ok::<Option<HumanResponse>, String>(None),
        s@ != "remove"@ && s@.len() > 0 ==> (r is Ok <==> response_choice(s@) is Some),
        s@ != "remove"@ && s@.len() > 0 && r is Ok ==> r->Ok_0 == Some(
            response_choice(s@)->Some_0,
        ),
{
    if str_equals(s, "remove") {
        Ok(Some(HumanResponse::NoResponse))
    } else if s.unicode_len() == 0 {
        Ok(None)
    } else {
        match parse_response(s) {
            Ok(h) => Ok(Some(h)),
            Err(m) => Err(m),
        }
    }
}

/// The position of the first `:`, if any.
pub open spec fn find_colon(s: Seq<char>, from: int) -> Option<int>
    decreases s.len() - from,
{
    if from >= s.len() || from < 0 {
        None
    } else if s[from] == ':' {
        Some(from)
    } else {
        find_colon(s, from + 1)
    }
}

proof fn lemma_find_colon_skip(s: Seq<char>, from: int, to: int)
    requires
        0 <= from <= to <= s.len(),
        forall|k: int| from <= k < to ==> s[k] != ':',
    ensures
        find_colon(s, from) == find_colon(s, to),
    decreases to - from,
{
    if from < to {
        lemma_find_colon_skip(s, from + 1, to);
    }
}

/// The seconds that a `minutes:seconds` answer names, where both parts are
/// integers.
pub open spec fn minutes_seconds(s: Seq<char>) -> Option<i64> {
    match find_colon(s, 0) {
        Some(i) => if is_i32_text(s.take(i)) && is_i32_text(s.skip(i + 1)) {
            Some((60 * decimal_value(s.take(i)) + decimal_value(s.skip(i + 1))) as i64)
        } else {
            None
        },
        None => None,
    }
}

/// Reads a time given as `minutes:seconds`, in seconds; an empty answer
/// means unknown.
pub fn parse_time_investment(s: &str) -> (r: Result<Option<i64>, String>)
    ensures
        s@.len() == 0 ==> r == Ok::<Option<i64>, String>(None),
        s@.len() > 0 ==> (r is Ok <==> minutes_seconds(s@) is Some),
        s@.len() > 0 && r is Ok ==> r->Ok_0 == Some(minutes_seconds(s@)->Some_0),
        s@.len() > 0 && find_colon(s@, 0) is None ==> r is Err && r->Err_0@ == "No colon found"@,
{
    let n = s.unicode_len();
    if n == 0 {
        return Ok(None);
    }
    let mut i: usize = 0;
    while i < n
        invariant
            n == s@.len(),
            i <= n,
            forall|k: int| 0 <= k < i ==> s@[k] != ':',
        decreases n - i,
    {
        if s.get_char(i) == ':' {
            proof {
                lemma_find_colon_skip(s@, 0, i as int);
            }
            let minutes_text = s.substring_char(0, i);
            let seconds_text = s.substring_char(i + 1, n);
            proof {
                assert(minutes_text@ =~= s@.take(i as int));
                assert(seconds_text@ =~= s@.skip(i + 1));
            }
            let minutes = parse_i32(minutes_text)?;
            let seconds = parse_i32(seconds_text)?;
            return Ok(Some(60 * (minutes as i64) + seconds as i64));
        }
        i = i + 1;
    }
    proof {
        lemma_find_colon_skip(s@, 0, n as int);
    }
    Err(String::from_str("No colon found"))
}

/// The name of what the time crate's `Date::parse` gives for a text in the
/// form `[month repr:numerical]/[day]/[year]`: the date, where the text is
/// one.
pub uninterp spec fn us_date_of(s: Seq<char>) -> Option<Date>;

/// Relies on time::format_description::parse and time::Date::parse, reading
/// month/day/year; the date it gives is a valid one, and a failure's text is
/// the `Display` of the parse error.
#[verifier::external_body]
fn parse_us_date(s: &str) -> (r: Result<Date, String>)
    ensures
        r is Ok <==> us_date_of(s@) is Some,
        r is Ok ==> r->Ok_0 == us_date_of(s@)->Some_0 && r->Ok_0.is_valid(),
{
    let format = time::format_description::parse("[month repr:numerical]/[day]/[year]")
        .map_err(|e| e.to_string())?;
    let d = time::Date::parse(s, &format).map_err(|e| e.to_string())?;
    Ok(Date { year: d.year(), month: d.month() as u8, day: d.day() })
}

/// Reads a date given as month/day/year; an empty answer means `today`.
pub fn parse_date(s: &str, today: Date) -> (r: Result<Date, String>)
    ensures
        s@.len() == 0 ==> r == Ok::<Date, String>(today),
        s@.len() > 0 ==> (r is Ok <==> us_date_of(s@) is Some),
        s@.len() > 0 && r is Ok ==> r->Ok_0 == us_date_of(s@)->Some_0,
{
    if s.unicode_len() == 0 {
        Ok(today)
    } else {
        parse_us_date(s)
    }
}

/// Reads a date given as month/day/year; an empty answer means none.
pub fn parse_date_optional(s: &str) -> (r: Result<Option<Date>, String>)
    ensures
        s@.len() == 0 ==> r == Ok::<Option<Date>, String>(None),
        s@.len() > 0 ==> (r is Ok <==> us_date_of(s@) is Some),
        s@.len() > 0 && r is Ok ==> r->Ok_0 == Some(us_date_of(s@)->Some_0) && r->Ok_0->Some_0.is_valid(),
{
    if s.unicode_len() == 0 {
        Ok(None)
    } else {
        match parse_us_date(s) {
            Ok(d) => Ok(Some(d)),
            Err(m) => Err(m),
        }
    }
}

} // verus!
