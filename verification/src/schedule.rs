//! The schedule calculator: when the first acquisition attempt should run.

use vstd::prelude::*;
use crate::caltime::{spec_add_days, add_days, CalendarDate, TimeOfDay};

verus! {

/// How long to wait, in seconds, until `start_time` next occurs. When the
/// start time has already passed today (or is this very second) the wait
/// rolls over to the same time tomorrow. The result is never negative and
/// never more than one day.
pub fn delay_until_start(now: TimeOfDay, start_time: TimeOfDay) -> (d: u32)
    requires
        now.wf(),
        start_time.wf(),
    ensures
        start_time.seconds > now.seconds ==> d == start_time.seconds - now.seconds,
        start_time.seconds <= now.seconds ==> d == 86400 - now.seconds + start_time.seconds,
        0 < d <= 86400,
{
    if start_time.seconds > now.seconds {
        start_time.seconds - now.seconds
    } else {
        86400 - now.seconds + start_time.seconds
    }
}

/// The date a reservation really targets: the base date moved forward by
/// the optional day offset. Nothing comes back only when the offset runs
/// past the last representable day.
pub fn effective_date(base: CalendarDate, day_offset: Option<u8>) -> (r: Option<CalendarDate>)
    requires
        base.wf(),
    ensures
        day_offset is None ==> r == Some(base),
        day_offset matches Some(n) ==> r == spec_add_days(base, n as nat),
        r matches Some(e) ==> e.wf(),
{
    match day_offset {
        None => Some(base),
        Some(n) => add_days(base, n),
    }
}

} // verus!
