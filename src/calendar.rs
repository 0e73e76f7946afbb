use chrono::{Datelike, Timelike};
use vstd::prelude::*;

verus! {

/// The smallest year a calendar date may hold.
pub const MIN_YEAR: i32 = -262143;

/// The largest year a calendar date may hold.
pub const MAX_YEAR: i32 = 262142;

/// A day of the proleptic Gregorian calendar.
#[derive(Clone, Copy, Debug, PartialEq, Eq, Structural)]
pub struct CalendarDate {
    pub year: i32,
    pub month: u32,
    pub day: u32,
}

/// A calendar date with a time of day, read as UTC.
#[derive(Clone, Copy, Debug, PartialEq, Eq, Structural)]
pub struct UtcDateTime {
    pub date: CalendarDate,
    pub hour: u32,
    pub minute: u32,
    pub second: u32,
}

pub open spec fn is_leap_year(y: int) -> bool {
    (y % 4 == 0 && y % 100 != 0) || y % 400 == 0
}

pub open spec fn days_in_month(y: int, m: int) -> int {
    if m == 2 {
        if is_leap_year(y) { 29 } else { 28 }
    } else if m == 4 || m == 6 || m == 9 || m == 11 {
        30
    } else {
        31
    }
}

impl CalendarDate {
    /// The date exists in the calendar and lies within the supported years.
    pub open spec fn wf(&self) -> bool {
        &&& MIN_YEAR <= self.year <= MAX_YEAR
        &&& 1 <= self.month <= 12
        &&& 1 <= self.day <= days_in_month(self.year as int, self.month as int)
    }

    /// The same date at the given time of day; `None` when the hour, minute
    /// or second is out of range (no leap second is accepted here).
    pub fn and_hms_opt(&self, hour: u32, minute: u32, second: u32) -> (r: Option<UtcDateTime>)
        ensures
            r == (if hour < 24 && minute < 60 && second < 60 {
                Some(UtcDateTime { date: *self, hour, minute, second })
            } else {
                None::<UtcDateTime>
            }),
    {
        if hour < 24 && minute < 60 && second < 60 {
            Some(UtcDateTime { date: *self, hour, minute, second })
        } else {
            None
        }
    }
}

impl UtcDateTime {
    pub open spec fn wf(&self) -> bool {
        &&& self.date.wf()
        &&& self.hour < 24
        &&& self.minute < 60
        &&& self.second < 60
    }
}

pub open spec fn digit_char(d: int) -> char {
    seq!['0', '1', '2', '3', '4', '5', '6', '7', '8', '9'][d]
}

/// The decimal digits of `n`, most significant first, without leading zeros.
pub open spec fn decimal(n: nat) -> Seq<char>
    decreases n,
{
    if n < 10 {
        seq![digit_char(n as int)]
    } else {
        decimal(n / 10).push(digit_char((n % 10) as int))
    }
}

/// The decimal digits of `n`, padded on the left with zeros to at least `width`.
pub open spec fn zero_padded(n: nat, width: nat) -> Seq<char> {
    let ds = decimal(n);
    if ds.len() >= width {
        ds
    } else {
        Seq::new((width - ds.len()) as nat, |i: int| '0') + ds
    }
}

/// Years 0 to 9999 take four digits; any other year takes an explicit sign
/// followed by at least four digits.
pub open spec fn year_text(y: int) -> Seq<char> {
    if 0 <= y <= 9999 {
        zero_padded(y as nat, 4)
    } else if y < 0 {
        seq!['-'] + zero_padded((-y) as nat, 4)
    } else {
        seq!['+'] + zero_padded(y as nat, 4)
    }
}

/// `YYYY-MM-DD`.
pub open spec fn date_text(y: int, m: int, d: int) -> Seq<char> {
    year_text(y) + seq!['-'] + zero_padded(m as nat, 2) + seq!['-'] + zero_padded(d as nat, 2)
}

/// `YYYY-MM-DD HH:MM:SS UTC`.
pub open spec fn timestamp_text(t: UtcDateTime) -> Seq<char> {
    date_text(t.date.year as int, t.date.month as int, t.date.day as int) + seq![' ']
        + zero_padded(t.hour as nat, 2) + seq![':'] + zero_padded(t.minute as nat, 2) + seq![':']
        + zero_padded(t.second as nat, 2) + seq![' ', 'U', 'T', 'C']
}

/// What chrono's `NaiveDate::parse_from_str(text, fmt)` yields, as
/// (year, month, day), or `None` where it reports an error.
pub uninterp spec fn date_parsed_from(text: Seq<char>, fmt: Seq<char>) -> Option<(int, int, int)>;

/// Relies on `chrono::NaiveDate::parse_from_str`: it reads a date from `text`
/// by the strftime-style format `fmt`, and a date it yields lies in the
/// range `NaiveDate::MIN..=NaiveDate::MAX` and exists in the calendar.
#[verifier::external_body]
pub(crate) fn parse_calendar_date(text: &str, fmt: &str) -> (r: Option<CalendarDate>)
    ensures
        r matches Some(d) ==> d.wf() && date_parsed_from(text@, fmt@) == Some(
            (d.year as int, d.month as int, d.day as int),
        ),
        r is None ==> date_parsed_from(text@, fmt@) is None,
{
    match chrono::NaiveDate::parse_from_str(text, fmt) {
        Ok(d) => Some(CalendarDate { year: d.year(), month: d.month(), day: d.day() }),
        Err(_) => None,
    }
}

/// Relies on the `Display` impl of `chrono::DateTime<chrono::Utc>`: the
/// naive date (`NaiveDate`'s `Debug`: four-digit year, or sign and at least
/// four digits outside 0..=9999, then two-digit month and day), a space, the
/// time `HH:MM:SS` (no fraction when the nanoseconds are zero), a space and
/// `UTC`. The date and time are handed over by `from_ymd_opt` and
/// `and_hms_opt`, which accept every well-formed value.
#[verifier::external_body]
pub(crate) fn to_utc_string(t: &UtcDateTime) -> (r: String)
    requires
        t.wf(),
    ensures
        r@ == timestamp_text(*t),
{
    let d = chrono::NaiveDate::from_ymd_opt(t.date.year, t.date.month, t.date.day).unwrap();
    let n = d.and_hms_opt(t.hour, t.minute, t.second).unwrap();
    chrono::DateTime::<chrono::Utc>::from_naive_utc_and_offset(n, chrono::Utc).to_string()
}

/// Relies on `chrono::Utc::now`: the current time from the system clock. Its
/// date lies in `NaiveDate`'s range, and `Timelike` gives an hour in 0..=23,
/// a minute in 0..=59 and a second in 0..=59; the fraction of a second is
/// not read.
#[verifier::external_body]
pub(crate) fn utc_now() -> (r: UtcDateTime)
    ensures
        r.wf(),
{
    let t = chrono::Utc::now();
    UtcDateTime {
        date: CalendarDate { year: t.year(), month: t.month(), day: t.day() },
        hour: t.hour(),
        minute: t.minute(),
        second: t.second(),
    }
}

} // verus!
