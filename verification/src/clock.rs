//! The wall clock, read through `chrono`: a Unix timestamp and the current
//! calendar date. Both depend on the moment of the call, so nothing relates
//! one reading to another.

use crate::date::Date;
use chrono::Datelike;
use vstd::prelude::*;

verus! {

/// Relies on `chrono::Utc::now`: one reading of the system clock, handed out
/// as the Unix timestamp in seconds together with the year, month and day of
/// the current UTC date. `chrono` documents the month as 1 through 12 and the
/// day of month as 1 through 31; the timestamp and the year can be anything
/// the clock says.
#[verifier::external_body]
pub(crate) fn now_parts() -> (r: (i64, i32, u32, u32))
    ensures
        1 <= r.2 <= 12,
        1 <= r.3 <= 31,
{
    let now = chrono::Utc::now();
    let date = now.date_naive();
    (now.timestamp(), date.year(), date.month(), date.day())
}

/// The current UTC calendar date, when it lies in the four-digit year range
/// that [`Date`] carries; the result is then a real calendar date. Nothing
/// more can be said of a clock reading.
pub fn current_date() -> (r: Option<Date>)
    ensures
        r matches Some(d) ==> d.wf(),
{
    let (_, y, m, d) = now_parts();
    if 0 <= y && y <= 9999 {
        Date::new(y as u16, m as u8, d as u8)
    } else {
        None
    }
}

} // verus!
