use vstd::prelude::*;
use vstd::string::StringExecFns;
use chrono::{Datelike, Timelike};

verus! {

/// A sampled wall-clock time, reduced to the components the clock button
/// displays. `weekday` counts days from Sunday (0 = Sunday .. 6 = Saturday).
#[derive(Clone, Copy, PartialEq, Eq, Structural, Debug)]
pub struct ClockTime {
    pub hour: u8,
    pub minute: u8,
    pub weekday: u8,
    pub day: u8,
    pub month: u8,
}

/// The ranges every sampled wall-clock time satisfies.
pub open spec fn clock_time_valid(t: ClockTime) -> bool {
    &&& t.hour < 24
    &&& t.minute < 60
    &&& t.weekday < 7
    &&& 1 <= t.day <= 31
    &&& 1 <= t.month <= 12
}

/// Relies on chrono::Local::now and chrono's Timelike, Datelike and Weekday
/// accessors: hour is 0..=23, minute 0..=59, num_days_from_sunday 0..=6,
/// day 1..=31 and month 1..=12. The sample depends on the wall clock, so
/// nothing beyond those ranges holds of it.
#[verifier::external_body]
pub(crate) fn local_now() -> (t: ClockTime)
    ensures
        clock_time_valid(t),
{
    let now = chrono::Local::now();
    ClockTime {
        hour: now.hour() as u8,
        minute: now.minute() as u8,
        weekday: now.weekday().num_days_from_sunday() as u8,
        day: now.day() as u8,
        month: now.month() as u8,
    }
}

pub open spec fn digit_char(d: int) -> char {
    if d == 0 {
        '0'
    } else if d == 1 {
        '1'
    } else if d == 2 {
        '2'
    } else if d == 3 {
        '3'
    } else if d == 4 {
        '4'
    } else if d == 5 {
        '5'
    } else if d == 6 {
        '6'
    } else if d == 7 {
        '7'
    } else if d == 8 {
        '8'
    } else {
        '9'
    }
}

/// Two-digit zero-padded decimal, as in the hour and minute fields.
pub open spec fn two_digit_str(n: int) -> Seq<char> {
    seq![digit_char(n / 10), digit_char(n % 10)]
}

/// Unpadded decimal of a value below 100, as in the day-of-month and
/// twelve-hour fields (space-padded by the formatter, then trimmed).
pub open spec fn unpadded_str(n: int) -> Seq<char> {
    if n < 10 {
        seq![digit_char(n)]
    } else {
        two_digit_str(n)
    }
}

/// The hour in the 12-hour style: 12 for 0 and 12, else the hour modulo 12.
pub open spec fn hour12(hour: int) -> int {
    if hour % 12 == 0 {
        12
    } else {
        hour % 12
    }
}

pub open spec fn am_pm_abbr(hour: int) -> Seq<char> {
    if hour < 12 {
        "AM"@
    } else {
        "PM"@
    }
}

pub open spec fn weekday_abbr(w: int) -> Seq<char> {
    if w == 0 {
        "Sun"@
    } else if w == 1 {
        "Mon"@
    } else if w == 2 {
        "Tue"@
    } else if w == 3 {
        "Wed"@
    } else if w == 4 {
        "Thu"@
    } else if w == 5 {
        "Fri"@
    } else {
        "Sat"@
    }
}

pub open spec fn month_abbr(m: int) -> Seq<char> {
    if m == 1 {
        "Jan"@
    } else if m == 2 {
        "Feb"@
    } else if m == 3 {
        "Mar"@
    } else if m == 4 {
        "Apr"@
    } else if m == 5 {
        "May"@
    } else if m == 6 {
        "Jun"@
    } else if m == 7 {
        "Jul"@
    } else if m == 8 {
        "Aug"@
    } else if m == 9 {
        "Sep"@
    } else if m == 10 {
        "Oct"@
    } else if m == 11 {
        "Nov"@
    } else {
        "Dec"@
    }
}

/// The clock button's text for one sampled time: style 0 is the 12-hour form
/// "H:MM AM    Wkd D Mon", style 1 the 24-hour form "HH:MM    Wkd D Mon", and
/// any other style renders empty.
pub open spec fn clock_text(style: int, t: ClockTime) -> Seq<char> {
    if style == 0 {
        unpadded_str(hour12(t.hour as int)) + ":"@ + two_digit_str(t.minute as int) + " "@
            + am_pm_abbr(t.hour as int) + "    "@ + weekday_abbr(t.weekday as int) + " "@
            + unpadded_str(t.day as int) + " "@ + month_abbr(t.month as int)
    } else if style == 1 {
        two_digit_str(t.hour as int) + ":"@ + two_digit_str(t.minute as int) + "    "@
            + weekday_abbr(t.weekday as int) + " "@ + unpadded_str(t.day as int) + " "@
            + month_abbr(t.month as int)
    } else {
        Seq::empty()
    }
}

fn digit_str(d: u8) -> (r: &'static str)
    requires
        d < 10,
    ensures
        r@ == seq![digit_char(d as int)],
{
    if d == 0 {
        proof {
            reveal_strlit("0");
            assert("0"@ =~= seq![digit_char(d as int)]);
        }
        "0"
    } else if d == 1 {
        proof {
            reveal_strlit("1");
            assert("1"@ =~= seq![digit_char(d as int)]);
        }
        "1"
    } else if d == 2 {
        proof {
            reveal_strlit("2");
            assert("2"@ =~= seq![digit_char(d as int)]);
        }
        "2"
    } else if d == 3 {
        proof {
            reveal_strlit("3");
            assert("3"@ =~= seq![digit_char(d as int)]);
        }
        "3"
    } else if d == 4 {
        proof {
            reveal_strlit("4");
            assert("4"@ =~= seq![digit_char(d as int)]);
        }
        "4"
    } else if d == 5 {
        proof {
            reveal_strlit("5");
            assert("5"@ =~= seq![digit_char(d as int)]);
        }
        "5"
    } else if d == 6 {
        proof {
            reveal_strlit("6");
            assert("6"@ =~= seq![digit_char(d as int)]);
        }
        "6"
    } else if d == 7 {
        proof {
            reveal_strlit("7");
            assert("7"@ =~= seq![digit_char(d as int)]);
        }
        "7"
    } else if d == 8 {
        proof {
            reveal_strlit("8");
            assert("8"@ =~= seq![digit_char(d as int)]);
        }
        "8"
    } else {
        proof {
            reveal_strlit("9");
            assert("9"@ =~= seq![digit_char(d as int)]);
        }
        "9"
    }
}

fn push_two_digits(out: &mut String, n: u8)
    requires
        n < 100,
    ensures
        final(out)@ == old(out)@ + two_digit_str(n as int),
{
    let tens = digit_str(n / 10);
    let ones = digit_str(n % 10);
    out.append(tens);
    out.append(ones);
    proof {
        assert(out@ =~= old(out)@ + two_digit_str(n as int));
    }
}

fn push_unpadded(out: &mut String, n: u8)
    requires
        n < 100,
    ensures
        final(out)@ == old(out)@ + unpadded_str(n as int),
{
    if n < 10 {
        let d = digit_str(n);
        out.append(d);
        proof {
            assert(out@ =~= old(out)@ + unpadded_str(n as int));
        }
    } else {
        push_two_digits(out, n);
    }
}

fn hour12_of(hour: u8) -> (r: u8)
    requires
        hour < 24,
    ensures
        r as int == hour12(hour as int),
{
    let m = hour % 12;
    if m == 0 {
        12
    } else {
        m
    }
}

fn am_pm_str(hour: u8) -> (r: &'static str)
    ensures
        r@ == am_pm_abbr(hour as int),
{
    if hour < 12 {
        "AM"
    } else {
        "PM"
    }
}

fn weekday_str(w: u8) -> (r: &'static str)
    requires
        w < 7,
    ensures
        r@ == weekday_abbr(w as int),
{
    if w == 0 {
        "Sun"
    } else if w == 1 {
        "Mon"
    } else if w == 2 {
        "Tue"
    } else if w == 3 {
        "Wed"
    } else if w == 4 {
        "Thu"
    } else if w == 5 {
        "Fri"
    } else {
        "Sat"
    }
}

fn month_str(m: u8) -> (r: &'static str)
    requires
        1 <= m <= 12,
    ensures
        r@ == month_abbr(m as int),
{
    if m == 1 {
        "Jan"
    } else if m == 2 {
        "Feb"
    } else if m == 3 {
        "Mar"
    } else if m == 4 {
        "Apr"
    } else if m == 5 {
        "May"
    } else if m == 6 {
        "Jun"
    } else if m == 7 {
        "Jul"
    } else if m == 8 {
        "Aug"
    } else if m == 9 {
        "Sep"
    } else if m == 10 {
        "Oct"
    } else if m == 11 {
        "Nov"
    } else {
        "Dec"
    }
}

/// The clock button's displayed text for a sampled wall-clock time. Total for
/// every valid time, in both the 12- and the 24-hour style.
pub fn format_clock_text(style: u16, t: ClockTime) -> (r: String)
    requires
        clock_time_valid(t),
    ensures
        r@ == clock_text(style as int, t),
{
    let mut out = String::new();
    if style == 0 {
        push_unpadded(&mut out, hour12_of(t.hour));
        out.append(":");
        push_two_digits(&mut out, t.minute);
        out.append(" ");
        out.append(am_pm_str(t.hour));
        out.append("    ");
        out.append(weekday_str(t.weekday));
        out.append(" ");
        push_unpadded(&mut out, t.day);
        out.append(" ");
        out.append(month_str(t.month));
        proof {
            assert(out@ =~= clock_text(style as int, t));
        }
    } else if style == 1 {
        push_two_digits(&mut out, t.hour);
        out.append(":");
        push_two_digits(&mut out, t.minute);
        out.append("    ");
        out.append(weekday_str(t.weekday));
        out.append(" ");
        push_unpadded(&mut out, t.day);
        out.append(" ");
        out.append(month_str(t.month));
        proof {
            assert(out@ =~= clock_text(style as int, t));
        }
    }
    out
}

} // verus!
