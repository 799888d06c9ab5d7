//! The text in which the front ends show an application: one cell per
//! column, dates as month/day/year and times as minutes:seconds.
use vstd::prelude::*;

use crate::date::{days_between, julian_day_of, two_digits, Date};
use crate::job_application_model::{label_of, opt_text, JobApplication};
use crate::text::{digit_char, digit_str};

verus! {

/// The decimal digits of a natural number, without leading zeros.
pub open spec fn nat_text(n: nat) -> Seq<char>
    decreases n,
{
    if n < 10 {
        seq![digit_char(n as int)]
    } else {
        nat_text(n / 10) + seq![digit_char((n % 10) as int)]
    }
}

/// An integer in decimal, with a `-` before a negative one.
pub open spec fn int_text(i: int) -> Seq<char> {
    if i < 0 {
        seq!['-'] + nat_text((-i) as nat)
    } else {
        nat_text(i as nat)
    }
}

/// An integer in decimal, padded with a zero to two characters.
pub open spec fn padded_text(i: int) -> Seq<char> {
    if 0 <= i < 10 {
        seq!['0'] + int_text(i)
    } else {
        int_text(i)
    }
}

/// The quotient of a division that rounds toward zero.
pub open spec fn trunc_div(a: int, b: int) -> int {
    if a >= 0 {
        a / b
    } else {
        -((-a) / b)
    }
}

/// A date as month/day/year, the month and day in two digits.
pub open spec fn date_cell(d: Date) -> Seq<char> {
    two_digits(d.month as int) + seq!['/'] + two_digits(d.day as int) + seq!['/'] + int_text(
        d.year as int,
    )
}

/// Seconds as whole minutes, a colon, and the seconds left over, each padded
/// to two characters.
pub open spec fn time_cell(t: int) -> Seq<char> {
    let m = trunc_div(t, 60);
    padded_text(m) + seq![':'] + padded_text(t - 60 * m)
}

/// Text with every double quote doubled, for a quoted CSV field.
pub open spec fn csv_escaped(s: Seq<char>) -> Seq<char>
    decreases s.len(),
{
    if s.len() == 0 {
        Seq::empty()
    } else {
        csv_escaped(s.drop_last()) + if s.last() == '"' {
            seq!['"', '"']
        } else {
            seq![s.last()]
        }
    }
}

fn push_nat(out: &mut String, n: u64)
    ensures
        final(out)@ == old(out)@ + nat_text(n as nat),
    decreases n,
{
    if n >= 10 {
        push_nat(out, n / 10);
    }
    out.append(digit_str((n % 10) as u8));
    proof {
        if n < 10 {
            assert(n % 10 == n);
        }
    }
    assert(final(out)@ =~= old(out)@ + nat_text(n as nat));
}

fn push_int(out: &mut String, i: i64)
    ensures
        final(out)@ == old(out)@ + int_text(i as int),
{
    if i < 0 {
        out.append("-");
        proof {
            reveal_strlit("-");
        }
        let magnitude: u64 = ((-(i + 1)) as u64) + 1;
        push_nat(out, magnitude);
        assert(final(out)@ =~= old(out)@ + int_text(i as int));
    } else {
        push_nat(out, i as u64);
    }
}

fn push_padded(out: &mut String, i: i64)
    ensures
        final(out)@ == old(out)@ + padded_text(i as int),
{
    if 0 <= i && i < 10 {
        out.append("0");
        proof {
            reveal_strlit("0");
        }
        push_int(out, i);
        assert(final(out)@ =~= old(out)@ + padded_text(i as int));
    } else {
        push_int(out, i);
    }
}

/// An integer in decimal.
pub fn int_to_text(i: i64) -> (r: String)
    ensures
        r@ == int_text(i as int),
{
    let mut out = String::new();
    push_int(&mut out, i);
    assert(out@ =~= int_text(i as int));
    out
}

/// A date as month/day/year.
pub fn format_date(d: Date) -> (r: String)
    requires
        d.month < 100,
        d.day < 100,
    ensures
        r@ == date_cell(d),
{
    let mut out = String::new();
    out.append(digit_str(d.month / 10));
    out.append(digit_str(d.month % 10));
    out.append("/");
    out.append(digit_str(d.day / 10));
    out.append(digit_str(d.day % 10));
    out.append("/");
    push_int(&mut out, d.year as i64);
    proof {
        reveal_strlit("/");
    }
    assert(out@ =~= date_cell(d));
    out
}

/// Seconds as minutes:seconds.
pub fn format_time(t: i64) -> (r: String)
    ensures
        r@ == time_cell(t as int),
{
    let magnitude: u64 = if t < 0 {
        ((-(t + 1)) as u64) + 1
    } else {
        t as u64
    };
    let whole: u64 = magnitude / 60;
    let rest: u64 = magnitude % 60;
    let minutes: i64 = if t < 0 {
        -(whole as i64)
    } else {
        whole as i64
    };
    let seconds: i64 = if t < 0 {
        -(rest as i64)
    } else {
        rest as i64
    };
    assert(minutes == trunc_div(t as int, 60));
    assert(seconds == t - 60 * minutes);
    let mut out = String::new();
    push_padded(&mut out, minutes);
    out.append(":");
    push_padded(&mut out, seconds);
    proof {
        reveal_strlit(":");
    }
    assert(out@ =~= time_cell(t as int));
    out
}

/// Text with every double quote doubled.
pub fn csv_escape(s: &str) -> (r: String)
    ensures
        r@ == csv_escaped(s@),
{
    let n = s.unicode_len();
    let mut out = String::new();
    let mut i: usize = 0;
    while i < n
        invariant
            n == s@.len(),
            i <= n,
            out@ == csv_escaped(s@.take(i as int)),
        decreases n - i,
    {
        let ghost before = out@;
        let c = s.get_char(i);
        if c == '"' {
            out.append("\"\"");
            proof {
                reveal_strlit("\"\"");
            }
        } else {
            out.append(s.substring_char(i, i + 1));
        }
        proof {
            let t = s@.take(i + 1);
            assert(t.drop_last() =~= s@.take(i as int));
            assert(t.last() == c);
            if c == '"' {
                assert(out@ =~= before + seq!['"', '"']);
            } else {
                assert(out@ =~= before + seq![c]);
            }
        }
        i = i + 1;
    }
    assert(s@.take(n as int) =~= s@);
    out
}

/// The cells of an application's row, in column order: id, source,
/// company, job title, application date, time taken, human response,
/// response date, days to respond, website, notes. Absent values are empty.
pub open spec fn row_cells(a: JobApplication) -> Seq<Seq<char>> {
    seq![
        int_text(a.id as int),
        a.source@,
        a.company@,
        a.job_title@,
        date_cell(a.application_date),
        match a.time_investment {
            Some(t) => time_cell(t as int),
            None => Seq::empty(),
        },
        label_of(a.human_response),
        match a.human_response_date {
            Some(d) => date_cell(d),
            None => Seq::empty(),
        },
        match a.human_response_date {
            Some(d) => int_text(julian_day_of(d) - julian_day_of(a.application_date)),
            None => Seq::empty(),
        },
        match opt_text(a.application_website) {
            Some(s) => s,
            None => Seq::empty(),
        },
        match opt_text(a.notes) {
            Some(s) => s,
            None => Seq::empty(),
        },
    ]
}

fn text_or_empty(o: &Option<String>) -> (r: String)
    ensures
        r@ == match opt_text(*o) {
            Some(s) => s,
            None => Seq::empty(),
        },
{
    match o {
        Some(s) => s.clone(),
        None => String::new(),
    }
}

/// The cells in which the front ends show an application.
pub fn job_application_into_row(a: &JobApplication) -> (r: Vec<String>)
    requires
        a@.is_valid(),
    ensures
        r@.len() == 11,
        forall|i: int| 0 <= i < 11 ==> (#[trigger] r@[i])@ == row_cells(*a)[i],
{
    let mut cells: Vec<String> = Vec::new();
    cells.push(int_to_text(a.id as i64));
    cells.push(a.source.clone());
    cells.push(a.company.clone());
    cells.push(a.job_title.clone());
    cells.push(format_date(a.application_date));
    cells.push(
        match a.time_investment {
            Some(t) => format_time(t),
            None => String::new(),
        },
    );
    cells.push(String::from_str(a.human_response.label()));
    cells.push(
        match a.human_response_date {
            Some(d) => format_date(d),
            None => String::new(),
        },
    );
    cells.push(
        match a.human_response_date {
            Some(d) => int_to_text(days_between(a.application_date, d)),
            None => String::new(),
        },
    );
    cells.push(text_or_empty(&a.application_website));
    cells.push(text_or_empty(&a.notes));
    cells
}

} // verus!
