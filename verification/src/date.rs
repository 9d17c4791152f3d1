//! Calendar dates: a plain year-month-day value with proleptic Gregorian
//! validity, read from `YYYY-MM-DD` text and rendered as `DD-MM-YYYY`.

use crate::digits::digit_char;
use crate::digits::digit_str;
use crate::digits::digit_val;
use crate::digits::digit_value;
use crate::digits::is_digit;
use crate::digits::is_digit_char;
use vstd::prelude::*;
use vstd::string::StrSliceExecFns;
use vstd::string::StringExecFns;

verus! {

/// A calendar date. Years run from 0 through 9999, the range that four-digit
/// date text can carry.
#[derive(Clone, Copy, PartialEq, Eq, Structural, Debug)]
pub struct Date {
    pub year: u16,
    pub month: u8,
    pub day: u8,
}

/// A leap year under the Gregorian rule: divisible by four, except century
/// years, which must be divisible by four hundred.
pub open spec fn is_leap_year(y: int) -> bool {
    y % 4 == 0 && (y % 100 != 0 || y % 400 == 0)
}

/// How many days the given month of the given year has.
pub open spec fn days_in_month(y: int, m: int) -> int {
    if m == 2 {
        if is_leap_year(y) {
            29
        } else {
            28
        }
    } else if m == 4 || m == 6 || m == 9 || m == 11 {
        30
    } else {
        31
    }
}

/// A well-formed year-month-day triple: the year fits four digits, the month
/// exists, and the day exists in that month of that year.
pub open spec fn valid_date(y: int, m: int, d: int) -> bool {
    0 <= y <= 9999 && 1 <= m <= 12 && 1 <= d <= days_in_month(y, m)
}

impl Date {
    /// The date is a real calendar date.
    pub open spec fn wf(self) -> bool {
        valid_date(self.year as int, self.month as int, self.day as int)
    }

    /// Builds a date from a year-month-day triple, succeeding exactly when
    /// the triple is a real calendar date.
    pub fn new(year: u16, month: u8, day: u8) -> (r: Option<Date>)
        ensures
            valid_date(year as int, month as int, day as int) ==> r == Some(
                Date { year, month, day },
            ),
            !valid_date(year as int, month as int, day as int) ==> r is None,
            r matches Some(d) ==> d.wf(),
    {
        if year <= 9999 && 1 <= month && month <= 12 && 1 <= day && day
            <= days_in_month_exec(year, month) {
            Some(Date { year, month, day })
        } else {
            None
        }
    }
}

/// How many days the given month of the given year has.
pub fn days_in_month_exec(year: u16, month: u8) -> (r: u8)
    requires
        1 <= month <= 12,
    ensures
        r == days_in_month(year as int, month as int),
{
    if month == 2 {
        if year % 4 == 0 && (year % 100 != 0 || year % 400 == 0) {
            29
        } else {
            28
        }
    } else if month == 4 || month == 6 || month == 9 || month == 11 {
        30
    } else {
        31
    }
}

/// What reading date text yields: a date exactly when the text is ten
/// characters of the shape `YYYY-MM-DD` — four digits, a dash, two digits, a
/// dash, two digits — naming a real calendar date; nothing otherwise.
pub open spec fn spec_parse_ymd(s: Seq<char>) -> Option<Date> {
    if s.len() == 10 && is_digit(s[0]) && is_digit(s[1]) && is_digit(s[2]) && is_digit(s[3])
        && s[4] == '-' && is_digit(s[5]) && is_digit(s[6]) && s[7] == '-' && is_digit(s[8])
        && is_digit(s[9]) {
        let y = digit_val(s[0]) * 1000 + digit_val(s[1]) * 100 + digit_val(s[2]) * 10 + digit_val(
            s[3],
        );
        let m = digit_val(s[5]) * 10 + digit_val(s[6]);
        let d = digit_val(s[8]) * 10 + digit_val(s[9]);
        if valid_date(y, m, d) {
            Some(Date { year: y as u16, month: m as u8, day: d as u8 })
        } else {
            None
        }
    } else {
        None
    }
}

/// Reads a date from text in the `YYYY-MM-DD` shape. Any other shape, and any
/// triple that is not a real calendar date, yields nothing.
pub fn parse_ymd(s: &str) -> (r: Option<Date>)
    ensures
        r == spec_parse_ymd(s@),
{
    let n = s.unicode_len();
    if n != 10 {
        return None;
    }
    let c0 = s.get_char(0);
    let c1 = s.get_char(1);
    let c2 = s.get_char(2);
    let c3 = s.get_char(3);
    let c4 = s.get_char(4);
    let c5 = s.get_char(5);
    let c6 = s.get_char(6);
    let c7 = s.get_char(7);
    let c8 = s.get_char(8);
    let c9 = s.get_char(9);
    if !(is_digit_char(c0) && is_digit_char(c1) && is_digit_char(c2) && is_digit_char(c3) && c4
        == '-' && is_digit_char(c5) && is_digit_char(c6) && c7 == '-' && is_digit_char(c8)
        && is_digit_char(c9)) {
        return None;
    }
    let y: u32 = digit_value(c0) * 1000 + digit_value(c1) * 100 + digit_value(c2) * 10
        + digit_value(c3);
    let m: u32 = digit_value(c5) * 10 + digit_value(c6);
    let d: u32 = digit_value(c8) * 10 + digit_value(c9);
    Date::new(y as u16, m as u8, d as u8)
}

/// The `DD-MM-YYYY` rendering of a date: zero-padded day, month, and
/// four-digit year, separated by dashes.
pub open spec fn spec_format_dmy(date: Date) -> Seq<char> {
    seq![
        digit_char(date.day as int / 10),
        digit_char(date.day as int % 10),
        '-',
        digit_char(date.month as int / 10),
        digit_char(date.month as int % 10),
        '-',
        digit_char(date.year as int / 1000),
        digit_char((date.year as int / 100) % 10),
        digit_char((date.year as int / 10) % 10),
        digit_char(date.year as int % 10),
    ]
}

/// Renders a date as `DD-MM-YYYY`.
pub fn format_dmy(date: &Date) -> (r: String)
    requires
        date.wf(),
    ensures
        r@ == spec_format_dmy(*date),
{
    proof {
        reveal_strlit("-");
    }
    let mut s = String::from_str(digit_str(date.day / 10));
    s.append(digit_str(date.day % 10));
    s.append("-");
    s.append(digit_str(date.month / 10));
    s.append(digit_str(date.month % 10));
    s.append("-");
    s.append(digit_str((date.year / 1000) as u8));
    s.append(digit_str(((date.year / 100) % 10) as u8));
    s.append(digit_str(((date.year / 10) % 10) as u8));
    s.append(digit_str((date.year % 10) as u8));
    proof {
        assert(s@ =~= spec_format_dmy(*date));
    }
    s
}

} // verus!
