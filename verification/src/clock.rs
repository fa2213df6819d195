//! The wall clock, reduced to plain values.

use vstd::prelude::*;
use crate::caltime::{days_in_month, CalendarDate, TimeOfDay};
use crate::caltime::{spec_parse_compact_date, parse_compact_date};
use chrono::{Datelike, Timelike};

verus! {

/// Relies on `chrono::Local::now` for the wall-clock moment. A
/// `chrono::NaiveDate` is valid by construction: its month lies in 1..=12
/// and its day exists in that month of that year, under the same Gregorian
/// leap rule this crate states; a `chrono::NaiveTime` counts fewer than
/// 86400 seconds from midnight.
#[verifier::external_body]
fn wall_clock_parts() -> (r: (i32, u32, u32, u32))
    ensures
        1 <= r.1 <= 12,
        1 <= r.2,
        1 <= r.0 && r.0 <= 9999 ==> r.2 <= days_in_month(r.0 as int, r.1 as int),
        r.3 < 86400,
{
    let now = chrono::Local::now();
    let date = now.date_naive();
    let time = now.time();
    (date.year(), date.month(), date.day(), time.num_seconds_from_midnight())
}

/// The current local date and time of day. A clock that stands outside the
/// four-digit years is pinned to the nearest representable date.
pub fn local_now() -> (r: (CalendarDate, TimeOfDay))
    ensures
        r.0.wf(),
        r.1.wf(),
{
    let (y, mo, d, secs) = wall_clock_parts();
    let date = if y < 1 {
        CalendarDate { year: 1, month: 1, day: 1 }
    } else if y > 9999 {
        CalendarDate { year: 9999, month: 12, day: 31 }
    } else {
        CalendarDate { year: y as u32, month: mo, day: d }
    };
    (date, TimeOfDay { seconds: secs })
}

/// The date an acquisition run works against: the date the caller provided
/// as `YYYYMMDD`, or today when none was given.
pub fn get_default_date(provided: &Option<String>) -> (d: CalendarDate)
    requires
        provided matches Some(p) ==> spec_parse_compact_date(p@) is Some,
    ensures
        provided matches Some(p) ==> Some(d) == spec_parse_compact_date(p@),
        d.wf(),
{
    match provided {
        Some(p) => {
            match parse_compact_date(p.as_str()) {
                Some(d) => d,
                None => vstd::pervasive::unreached(),
            }
        },
        None => {
            let (today, _) = local_now();
            today
        },
    }
}

} // verus!
