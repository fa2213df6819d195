//! Plain-value calendar dates and times of day, with the parsers for the
//! textual forms the reservation service and the command line use.

use vstd::prelude::*;

verus! {

/// A time of day, counted in whole seconds since midnight.
#[derive(Clone, Copy, Debug, PartialEq, Eq, Structural)]
pub struct TimeOfDay {
    pub seconds: u32,
}

impl TimeOfDay {
    /// A time of day lies strictly inside one calendar day.
    pub open spec fn wf(self) -> bool {
        self.seconds < 86400
    }

    /// Builds a time of day from an hour and a minute.
    pub fn from_hm(hour: u32, minute: u32) -> (t: TimeOfDay)
        requires
            hour < 24,
            minute < 60,
        ensures
            t.seconds == hour * 3600 + minute * 60,
            t.wf(),
    {
        TimeOfDay { seconds: hour * 3600 + minute * 60 }
    }
}

/// Whether a character is an ASCII decimal digit.
pub open spec fn is_digit(c: char) -> bool {
    '0' <= c && c <= '9'
}

/// The numeric value of an ASCII decimal digit.
pub open spec fn digit_val(c: char) -> int {
    c as int - '0' as int
}

/// What parsing a target time written as `HH:MM` yields: the time of day,
/// or nothing when the text is not of that shape or out of range.
pub open spec fn spec_parse_time_hm(s: Seq<char>) -> Option<TimeOfDay> {
    if s.len() == 5 && is_digit(s[0]) && is_digit(s[1]) && s[2] == ':' && is_digit(s[3])
        && is_digit(s[4]) {
        let h = digit_val(s[0]) * 10 + digit_val(s[1]);
        let m = digit_val(s[3]) * 10 + digit_val(s[4]);
        if h <= 23 && m <= 59 {
            Some(TimeOfDay { seconds: (h * 3600 + m * 60) as u32 })
        } else {
            None
        }
    } else {
        None
    }
}

/// Reads the numeric value of an ASCII digit character.
fn digit_val_exec(c: char) -> (v: u32)
    requires
        is_digit(c),
    ensures
        v == digit_val(c),
        v <= 9,
{
    c as u32 - '0' as u32
}

/// Whether a character is an ASCII decimal digit.
fn is_digit_exec(c: char) -> (r: bool)
    ensures
        r == is_digit(c),
{
    '0' <= c && c <= '9'
}

/// A calendar date of the proleptic Gregorian calendar, within the four-digit
/// years the service's wire format can carry.
#[derive(Clone, Copy, Debug, PartialEq, Eq, Structural)]
pub struct CalendarDate {
    pub year: u32,
    pub month: u32,
    pub day: u32,
}

/// The Gregorian leap-year rule.
pub open spec fn is_leap_year(y: int) -> bool {
    (y % 4 == 0 && y % 100 != 0) || y % 400 == 0
}

/// How many days the given month of the given year has.
pub open spec fn days_in_month(y: int, m: int) -> int {
    if m == 2 {
        if is_leap_year(y) {
            29
        } else {
            28
        }
    } else if m == 4 || m == 6 || m == 9 || m == 11 {
        30
    } else {
        31
    }
}

impl CalendarDate {
    /// A real date: month and day exist in that year, and the year fits the
    /// four-digit wire format.
    pub open spec fn wf(self) -> bool {
        &&& 1 <= self.year <= 9999
        &&& 1 <= self.month <= 12
        &&& 1 <= self.day <= days_in_month(self.year as int, self.month as int)
    }
}

/// The Gregorian leap-year rule.
pub fn is_leap_year_exec(y: u32) -> (r: bool)
    ensures
        r == is_leap_year(y as int),
{
    (y % 4 == 0 && y % 100 != 0) || y % 400 == 0
}

/// How many days the given month of the given year has.
pub fn days_in_month_exec(y: u32, m: u32) -> (d: u32)
    ensures
        d == days_in_month(y as int, m as int),
{
    if m == 2 {
        if is_leap_year_exec(y) {
            29
        } else {
            28
        }
    } else if m == 4 || m == 6 || m == 9 || m == 11 {
        30
    } else {
        31
    }
}

/// A date together with a time of day, as one reservation slot carries it.
#[derive(Clone, Copy, Debug, PartialEq, Eq, Structural)]
pub struct SlotDateTime {
    pub date: CalendarDate,
    pub time: TimeOfDay,
}

impl SlotDateTime {
    pub open spec fn wf(self) -> bool {
        self.date.wf() && self.time.wf()
    }
}

/// The numeric value of a run of ASCII digits, most significant first.
pub open spec fn digits_val(s: Seq<char>, from: int, to: int) -> int
    decreases to - from,
{
    if from >= to {
        0
    } else {
        digits_val(s, from, to - 1) * 10 + digit_val(s[to - 1])
    }
}

/// Whether every character of `s` in `[from, to)` is an ASCII digit.
pub open spec fn all_digits(s: Seq<char>, from: int, to: int) -> bool {
    forall|i: int| from <= i < to ==> is_digit(s[i])
}

/// What parsing a slot's start stamp `YYYY-MM-DD HH:MM:SS` yields: the date
/// and time of day, or nothing when the text is not of that exact shape or
/// names no real date or time.
pub open spec fn spec_parse_datetime(s: Seq<char>) -> Option<SlotDateTime> {
    if s.len() == 19 && all_digits(s, 0, 4) && s[4] == '-' && all_digits(s, 5, 7) && s[7] == '-'
        && all_digits(s, 8, 10) && s[10] == ' ' && all_digits(s, 11, 13) && s[13] == ':'
        && all_digits(s, 14, 16) && s[16] == ':' && all_digits(s, 17, 19) {
        let y = digits_val(s, 0, 4);
        let mo = digits_val(s, 5, 7);
        let d = digits_val(s, 8, 10);
        let h = digits_val(s, 11, 13);
        let mi = digits_val(s, 14, 16);
        let se = digits_val(s, 17, 19);
        if 1 <= y && 1 <= mo <= 12 && 1 <= d <= days_in_month(y, mo) && h <= 23 && mi <= 59
            && se <= 59 {
            Some(
                SlotDateTime {
                    date: CalendarDate { year: y as u32, month: mo as u32, day: d as u32 },
                    time: TimeOfDay { seconds: (h * 3600 + mi * 60 + se) as u32 },
                },
            )
        } else {
            None
        }
    } else {
        None
    }
}

/// What parsing a command-line date written as `YYYYMMDD` yields: the date,
/// or nothing when the text is not eight digits or names no real date.
pub open spec fn spec_parse_compact_date(s: Seq<char>) -> Option<CalendarDate> {
    if s.len() == 8 && all_digits(s, 0, 8) {
        let y = digits_val(s, 0, 4);
        let mo = digits_val(s, 4, 6);
        let d = digits_val(s, 6, 8);
        if 1 <= y && 1 <= mo <= 12 && 1 <= d <= days_in_month(y, mo) {
            Some(CalendarDate { year: y as u32, month: mo as u32, day: d as u32 })
        } else {
            None
        }
    } else {
        None
    }
}

/// A run of at most four digits names a value below ten thousand.
proof fn lemma_digits_val_bound(s: Seq<char>, from: int, to: int)
    requires
        from <= to,
        all_digits(s, from, to),
    ensures
        0 <= digits_val(s, from, to),
        to - from <= 4 ==> digits_val(s, from, to) < 10000,
        to - from <= 3 ==> digits_val(s, from, to) < 1000,
        to - from <= 2 ==> digits_val(s, from, to) < 100,
        to - from <= 1 ==> digits_val(s, from, to) < 10,
    decreases to - from,
{
    if from < to {
        lemma_digits_val_bound(s, from, to - 1);
        assert(is_digit(s[to - 1]));
        assert(0 <= digit_val(s[to - 1]) <= 9);
    }
}

/// Reads a fixed-width run of digits out of a string.
fn read_digits(s: &str, from: usize, to: usize) -> (r: Option<u32>)
    requires
        from <= to <= s@.len(),
        to - from <= 4,
    ensures
        r matches Some(v) ==> all_digits(s@, from as int, to as int) && v == digits_val(
            s@,
            from as int,
            to as int,
        ) && v < 10000,
        r is None ==> !all_digits(s@, from as int, to as int),
{
    let mut i: usize = from;
    let mut acc: u32 = 0;
    while i < to
        invariant
            from <= i <= to <= s@.len(),
            to - from <= 4,
            all_digits(s@, from as int, i as int),
            acc == digits_val(s@, from as int, i as int),
        decreases to - i,
    {
        let c = s.get_char(i);
        if !is_digit_exec(c) {
            assert(!all_digits(s@, from as int, to as int));
            return None;
        }
        proof {
            lemma_digits_val_bound(s@, from as int, i as int);
            assert(digits_val(s@, from as int, i + 1) == digits_val(s@, from as int, i as int)
                * 10 + digit_val(s@[i as int]));
        }
        acc = acc * 10 + digit_val_exec(c);
        i += 1;
    }
    proof {
        lemma_digits_val_bound(s@, from as int, to as int);
    }
    Some(acc)
}

/// Parses a target time written as `HH:MM`.
pub fn parse_time_hm(s: &str) -> (r: Option<TimeOfDay>)
    ensures
        r == spec_parse_time_hm(s@),
        r matches Some(t) ==> t.wf(),
{
    if s.unicode_len() != 5 {
        return None;
    }
    let c0 = s.get_char(0);
    let c1 = s.get_char(1);
    let c2 = s.get_char(2);
    let c3 = s.get_char(3);
    let c4 = s.get_char(4);
    if !(is_digit_exec(c0) && is_digit_exec(c1) && c2 == ':' && is_digit_exec(c3)
        && is_digit_exec(c4)) {
        return None;
    }
    let h = digit_val_exec(c0) * 10 + digit_val_exec(c1);
    let m = digit_val_exec(c3) * 10 + digit_val_exec(c4);
    if h <= 23 && m <= 59 {
        Some(TimeOfDay { seconds: h * 3600 + m * 60 })
    } else {
        None
    }
}

/// Parses a slot's start stamp written as `YYYY-MM-DD HH:MM:SS`.
pub fn parse_datetime(s: &str) -> (r: Option<SlotDateTime>)
    ensures
        r == spec_parse_datetime(s@),
        r matches Some(dt) ==> dt.wf(),
{
    if s.unicode_len() != 19 {
        return None;
    }
    if s.get_char(4) != '-' || s.get_char(7) != '-' || s.get_char(10) != ' ' || s.get_char(13)
        != ':' || s.get_char(16) != ':' {
        return None;
    }
    let y = match read_digits(s, 0, 4) {
        Some(v) => v,
        None => { return None },
    };
    let mo = match read_digits(s, 5, 7) {
        Some(v) => v,
        None => { return None },
    };
    let d = match read_digits(s, 8, 10) {
        Some(v) => v,
        None => { return None },
    };
    let h = match read_digits(s, 11, 13) {
        Some(v) => v,
        None => { return None },
    };
    let mi = match read_digits(s, 14, 16) {
        Some(v) => v,
        None => { return None },
    };
    let se = match read_digits(s, 17, 19) {
        Some(v) => v,
        None => { return None },
    };
    if 1 <= y && 1 <= mo && mo <= 12 && 1 <= d && d <= days_in_month_exec(y, mo) && h <= 23 && mi
        <= 59 && se <= 59 {
        Some(
            SlotDateTime {
                date: CalendarDate { year: y, month: mo, day: d },
                time: TimeOfDay { seconds: h * 3600 + mi * 60 + se },
            },
        )
    } else {
        None
    }
}

/// Parses a command-line date written as `YYYYMMDD`.
pub fn parse_compact_date(s: &str) -> (r: Option<CalendarDate>)
    ensures
        r == spec_parse_compact_date(s@),
        r matches Some(d) ==> d.wf(),
{
    if s.unicode_len() != 8 {
        return None;
    }
    let y = match read_digits(s, 0, 4) {
        Some(v) => v,
        None => { return None },
    };
    let mo = match read_digits(s, 4, 6) {
        Some(v) => v,
        None => { return None },
    };
    let d = match read_digits(s, 6, 8) {
        Some(v) => v,
        None => { return None },
    };
    if 1 <= y && 1 <= mo && mo <= 12 && 1 <= d && d <= days_in_month_exec(y, mo) {
        Some(CalendarDate { year: y, month: mo, day: d })
    } else {
        None
    }
}

/// The day after a date, or nothing past the last representable day.
pub open spec fn spec_next_day(d: CalendarDate) -> Option<CalendarDate> {
    if d.day < days_in_month(d.year as int, d.month as int) {
        Some(CalendarDate { year: d.year, month: d.month, day: (d.day + 1) as u32 })
    } else if d.month < 12 {
        Some(CalendarDate { year: d.year, month: (d.month + 1) as u32, day: 1 })
    } else if d.year < 9999 {
        Some(CalendarDate { year: (d.year + 1) as u32, month: 1, day: 1 })
    } else {
        None
    }
}

/// The date `n` days after `d`, or nothing when that runs past the last
/// representable day.
pub open spec fn spec_add_days(d: CalendarDate, n: nat) -> Option<CalendarDate>
    decreases n,
{
    if n == 0 {
        Some(d)
    } else {
        match spec_next_day(d) {
            Some(e) => spec_add_days(e, (n - 1) as nat),
            None => None,
        }
    }
}

/// The day after a date.
pub fn next_day(d: CalendarDate) -> (r: Option<CalendarDate>)
    requires
        d.wf(),
    ensures
        r == spec_next_day(d),
        r matches Some(e) ==> e.wf(),
{
    if d.day < days_in_month_exec(d.year, d.month) {
        Some(CalendarDate { year: d.year, month: d.month, day: d.day + 1 })
    } else if d.month < 12 {
        Some(CalendarDate { year: d.year, month: d.month + 1, day: 1 })
    } else if d.year < 9999 {
        Some(CalendarDate { year: d.year + 1, month: 1, day: 1 })
    } else {
        None
    }
}

/// The date `n` days after `d`.
pub fn add_days(d: CalendarDate, n: u8) -> (r: Option<CalendarDate>)
    requires
        d.wf(),
    ensures
        r == spec_add_days(d, n as nat),
        r matches Some(e) ==> e.wf(),
{
    let mut cur = d;
    let mut i: u8 = 0;
    while i < n
        invariant
            i <= n,
            cur.wf(),
            spec_add_days(d, n as nat) == spec_add_days(cur, (n - i) as nat),
        decreases n - i,
    {
        match next_day(cur) {
            Some(e) => {
                cur = e;
            },
            None => {
                return None;
            },
        }
        i += 1;
    }
    Some(cur)
}

} // verus!
