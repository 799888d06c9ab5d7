//! Calendar dates without a time of day, and the text form in which the
//! database stores them (`YYYY-MM-DD`, with a leading `-` before a year below
//! zero).
use vstd::prelude::*;

use crate::text::{digit_char, digit_str, digit_value, is_digit};

verus! {

/// The earliest year a date may hold.
pub const MIN_YEAR: i32 = -9999;

/// The latest year a date may hold.
pub const MAX_YEAR: i32 = 9999;

/// A date of the proleptic Gregorian calendar.
#[derive(Clone, Copy, Debug, PartialEq, Eq, Structural)]
pub struct Date {
    pub year: i32,
    /// 1 for January through 12 for December.
    pub month: u8,
    /// Day of the month, starting at 1.
    pub day: u8,
}

/// The year, month and day do not name a day of the calendar.
#[derive(Clone, Copy, Debug, PartialEq, Eq, Structural)]
pub struct InvalidDate;

pub open spec fn abs(y: int) -> int {
    if y < 0 {
        -y
    } else {
        y
    }
}

pub open spec fn is_leap_year(y: int) -> bool {
    abs(y) % 4 == 0 && (abs(y) % 100 != 0 || abs(y) % 400 == 0)
}

pub open spec fn days_in_month(y: int, m: int) -> int {
    if m == 2 {
        if is_leap_year(y) {
            29
        } else {
            28
        }
    } else if m == 4 || m == 6 || m == 9 || m == 11 {
        30
    } else {
        31
    }
}

pub open spec fn is_valid_date(y: int, m: int, d: int) -> bool {
    MIN_YEAR <= y <= MAX_YEAR && 1 <= m <= 12 && 1 <= d <= days_in_month(y, m)
}

impl Date {
    pub open spec fn is_valid(self) -> bool {
        is_valid_date(self.year as int, self.month as int, self.day as int)
    }

    /// The date with the given year, month (1 to 12) and day of the month.
    pub fn from_calendar_date(year: i32, month: u8, day: u8) -> (r: Result<Date, InvalidDate>)
        ensures
            r is Ok <==> is_valid_date(year as int, month as int, day as int),
            r is Ok ==> r->Ok_0 == (Date { year, month, day }),
    {
        if year < MIN_YEAR || year > MAX_YEAR || month < 1 || month > 12 || day < 1 {
            return Err(InvalidDate);
        }
        if day > days_in_month_exec(year, month) {
            return Err(InvalidDate);
        }
        Ok(Date { year, month, day })
    }
}

fn is_leap_year_exec(year: i32) -> (r: bool)
    requires
        MIN_YEAR <= year <= MAX_YEAR,
    ensures
        r == is_leap_year(year as int),
{
    let a: i32 = if year < 0 {
        -year
    } else {
        year
    };
    a % 4 == 0 && (a % 100 != 0 || a % 400 == 0)
}

fn days_in_month_exec(year: i32, month: u8) -> (r: u8)
    requires
        MIN_YEAR <= year <= MAX_YEAR,
    ensures
        r as int == days_in_month(year as int, month as int),
{
    if month == 2 {
        if is_leap_year_exec(year) {
            29
        } else {
            28
        }
    } else if month == 4 || month == 6 || month == 9 || month == 11 {
        30
    } else {
        31
    }
}

pub open spec fn two_digits(n: int) -> Seq<char> {
    seq![digit_char(n / 10), digit_char(n % 10)]
}

pub open spec fn four_digits(n: int) -> Seq<char> {
    seq![digit_char(n / 1000), digit_char(n / 100 % 10), digit_char(n / 10 % 10), digit_char(n % 10)]
}

/// The stored text of a date.
pub open spec fn date_text(d: Date) -> Seq<char> {
    let y = d.year as int;
    let year_text = if y < 0 {
        seq!['-'] + four_digits(-y)
    } else {
        four_digits(y)
    };
    year_text + seq!['-'] + two_digits(d.month as int) + seq!['-'] + two_digits(d.day as int)
}

pub open spec fn digits_at(s: Seq<char>, start: int, count: int) -> bool {
    forall|i: int| start <= i < start + count ==> #[trigger] is_digit(s[i])
}

pub open spec fn value2(s: Seq<char>, at: int) -> int {
    10 * digit_value(s[at]) + digit_value(s[at + 1])
}

pub open spec fn value4(s: Seq<char>, at: int) -> int {
    1000 * digit_value(s[at]) + 100 * digit_value(s[at + 1]) + 10 * digit_value(s[at + 2])
        + digit_value(s[at + 3])
}

/// Whether `s` has the shape of a stored date, starting after `o` sign characters.
pub open spec fn has_date_shape(s: Seq<char>, o: int) -> bool {
    &&& s.len() == 10 + o
    &&& digits_at(s, o, 4)
    &&& s[o + 4] == '-'
    &&& digits_at(s, o + 5, 2)
    &&& s[o + 7] == '-'
    &&& digits_at(s, o + 8, 2)
}

/// The date that a stored text denotes, if any.
pub open spec fn parse_date_text(s: Seq<char>) -> Option<Date> {
    let negative = s.len() == 11 && s[0] == '-';
    let o: int = if negative {
        1
    } else {
        0
    };
    if has_date_shape(s, o) {
        let y = if negative {
            -value4(s, o)
        } else {
            value4(s, o)
        };
        let m = value2(s, o + 5);
        let d = value2(s, o + 8);
        if is_valid_date(y, m, d) {
            Some(Date { year: y as i32, month: m as u8, day: d as u8 })
        } else {
            None
        }
    } else {
        None
    }
}

proof fn lemma_four_digits(n: int)
    requires
        0 <= n < 10000,
    ensures
        digits_at(four_digits(n), 0, 4),
        value4(four_digits(n), 0) == n,
{
    let s = four_digits(n);
    crate::text::lemma_digit_round_trip(n / 1000);
    crate::text::lemma_digit_round_trip(n / 100 % 10);
    crate::text::lemma_digit_round_trip(n / 10 % 10);
    crate::text::lemma_digit_round_trip(n % 10);
    assert(1000 * (n / 1000) + 100 * (n / 100 % 10) + 10 * (n / 10 % 10) + n % 10 == n)
        by (nonlinear_arith)
        requires
            0 <= n < 10000,
    ;
}

proof fn lemma_two_digits(n: int)
    requires
        0 <= n < 100,
    ensures
        digits_at(two_digits(n), 0, 2),
        value2(two_digits(n), 0) == n,
{
    crate::text::lemma_digit_round_trip(n / 10);
    crate::text::lemma_digit_round_trip(n % 10);
}

/// Reading back the stored text of a valid date gives that date.
pub proof fn lemma_date_text_round_trip(d: Date)
    requires
        d.is_valid(),
    ensures
        parse_date_text(date_text(d)) == Some(d),
{
    let y = d.year as int;
    let s = date_text(d);
    let a = abs(y);
    let o: int = if y < 0 {
        1
    } else {
        0
    };
    lemma_four_digits(a);
    lemma_two_digits(d.month as int);
    lemma_two_digits(d.day as int);
    let ys = four_digits(a);
    let ms = two_digits(d.month as int);
    let ds = two_digits(d.day as int);
    assert forall|i: int| o <= i < o + 4 implies #[trigger] is_digit(s[i]) by {
        assert(s[i] == ys[i - o]);
    }
    assert forall|i: int| o + 5 <= i < o + 7 implies #[trigger] is_digit(s[i]) by {
        assert(s[i] == ms[i - o - 5]);
    }
    assert forall|i: int| o + 8 <= i < o + 10 implies #[trigger] is_digit(s[i]) by {
        assert(s[i] == ds[i - o - 8]);
    }
    assert(value4(s, o) == value4(ys, 0));
    assert(value2(s, o + 5) == value2(ms, 0));
    assert(value2(s, o + 8) == value2(ds, 0));
    if y >= 0 {
        assert(!(s.len() == 11 && s[0] == '-'));
    }
}

fn push_two_digits(out: &mut String, n: u8)
    requires
        n < 100,
    ensures
        final(out)@ == old(out)@ + two_digits(n as int),
{
    out.append(digit_str(n / 10));
    out.append(digit_str(n % 10));
    assert(final(out)@ =~= old(out)@ + two_digits(n as int));
}

fn push_four_digits(out: &mut String, n: u16)
    requires
        n < 10000,
    ensures
        final(out)@ == old(out)@ + four_digits(n as int),
{
    out.append(digit_str((n / 1000) as u8));
    out.append(digit_str((n / 100 % 10) as u8));
    out.append(digit_str((n / 10 % 10) as u8));
    out.append(digit_str((n % 10) as u8));
    assert(final(out)@ =~= old(out)@ + four_digits(n as int));
}

impl Date {
    /// The text in which the database stores this date.
    pub fn to_text(&self) -> (r: String)
        requires
            self.is_valid(),
        ensures
            r@ == date_text(*self),
    {
        let mut out = String::new();
        let y = self.year;
        if y < 0 {
            out.append("-");
            proof {
                reveal_strlit("-");
            }
            push_four_digits(&mut out, (-y) as u16);
        } else {
            push_four_digits(&mut out, y as u16);
        }
        out.append("-");
        push_two_digits(&mut out, self.month);
        out.append("-");
        push_two_digits(&mut out, self.day);
        proof {
            reveal_strlit("-");
        }
        assert(out@ =~= date_text(*self));
        out
    }

    /// The date that a stored text denotes; `None` where the text is not a
    /// valid date in the stored form.
    pub fn parse_text(s: &str) -> (r: Option<Date>)
        ensures
            r == parse_date_text(s@),
    {
        let n = s.unicode_len();
        let negative = n == 11 && s.get_char(0) == '-';
        let o: usize = if negative {
            1
        } else {
            0
        };
        if n != 10 + o {
            return None;
        }
        let y0 = digit_at(s, o);
        let y1 = digit_at(s, o + 1);
        let y2 = digit_at(s, o + 2);
        let y3 = digit_at(s, o + 3);
        let m0 = digit_at(s, o + 5);
        let m1 = digit_at(s, o + 6);
        let d0 = digit_at(s, o + 8);
        let d1 = digit_at(s, o + 9);
        let dash1 = s.get_char(o + 4) == '-';
        let dash2 = s.get_char(o + 7) == '-';
        match (y0, y1, y2, y3, m0, m1, d0, d1) {
            (Some(y0), Some(y1), Some(y2), Some(y3), Some(m0), Some(m1), Some(d0), Some(d1)) => {
                proof {
                    assert(digits_at(s@, o as int, 4));
                    assert(digits_at(s@, o + 5, 2));
                    assert(digits_at(s@, o + 8, 2));
                }
                if !dash1 || !dash2 {
                    return None;
                }
                let v: i32 = 1000 * (y0 as i32) + 100 * (y1 as i32) + 10 * (y2 as i32) + (
                y3 as i32);
                let year = if negative {
                    -v
                } else {
                    v
                };
                let month = 10 * m0 + m1;
                let day = 10 * d0 + d1;
                match Date::from_calendar_date(year, month, day) {
                    Ok(d) => Some(d),
                    Err(_) => None,
                }
            },
            _ => {
                proof {
                    assert(!has_date_shape(s@, o as int));
                }
                None
            },
        }
    }
}

/// The value of the digit at position `i` of `s`, if it is one.
fn digit_at(s: &str, i: usize) -> (r: Option<u8>)
    requires
        i < s@.len(),
    ensures
        r is Some <==> is_digit(s@[i as int]),
        r is Some ==> r->Some_0 as int == digit_value(s@[i as int]) && r->Some_0 < 10,
{
    let c = s.get_char(i);
    if '0' <= c && c <= '9' {
        Some(((c as u32) - ('0' as u32)) as u8)
    } else {
        None
    }
}

/// The name of what the time crate's `Date::to_julian_day` returns for a
/// date: its Julian day number.
pub uninterp spec fn julian_day_of(d: Date) -> int;

/// Relies on time::Date::from_calendar_date, which accepts every valid date
/// in years -9999 to 9999, and on Date::to_julian_day, whose result depends
/// on the date alone.
#[verifier::external_body]
fn julian_day(d: Date) -> (r: i32)
    requires
        d.is_valid(),
    ensures
        r as int == julian_day_of(d),
{
    let month = time::Month::try_from(d.month).unwrap();
    time::Date::from_calendar_date(d.year, month, d.day).unwrap().to_julian_day()
}

/// The number of days from `from` to `to`, negative where `to` comes first:
/// the difference of their Julian day numbers, as the time crate subtracts
/// dates.
pub fn days_between(from: Date, to: Date) -> (r: i64)
    requires
        from.is_valid(),
        to.is_valid(),
    ensures
        r as int == julian_day_of(to) - julian_day_of(from),
{
    (julian_day(to) as i64) - (julian_day(from) as i64)
}

/// Relies on time::OffsetDateTime::now_utc and OffsetDateTime::date: today's
/// date in UTC, which the time crate keeps valid and within years -9999 to 9999.
#[verifier::external_body]
pub(crate) fn today_utc() -> (r: Date)
    ensures
        r.is_valid(),
{
    let d = time::OffsetDateTime::now_utc().date();
    Date { year: d.year(), month: d.month() as u8, day: d.day() }
}

} // verus!
