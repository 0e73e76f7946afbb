use crate::calendar::{
    date_parsed_from, parse_calendar_date, timestamp_text, to_utc_string, utc_now, CalendarDate,
    UtcDateTime,
};
use vstd::prelude::*;

verus! {

/// The layout a date is read in: two-digit month, two-digit day, four-digit year.
pub const DATE_FORMAT: &'static str = "%m-%d-%Y";

pub open spec fn date_format() -> Seq<char> {
    seq!['%', 'm', '-', '%', 'd', '-', '%', 'Y']
}

pub open spec fn parse_error_message() -> Seq<char> {
    seq![
        'U', 'n', 'a', 'b', 'l', 'e', ' ', 't', 'o', ' ', 'p', 'a', 'r', 's', 'e', ' ', 'f', 'r',
        'o', 'm', ' ', 's', 't', 'r', 'i', 'n', 'g',
    ]
}

/// A `Result` of strings seen as a `Result` of character sequences.
pub open spec fn text_result(r: Result<String, String>) -> Result<Seq<char>, Seq<char>> {
    match r {
        Ok(s) => Ok(s@),
        Err(e) => Err(e@),
    }
}

/// The date at midnight, as UTC.
pub open spec fn midnight_of(d: CalendarDate) -> UtcDateTime {
    UtcDateTime { date: d, hour: 0, minute: 0, second: 0 }
}

/// The normalized text of a date that was parsed (or failed to parse).
pub open spec fn normalized_parsed(parsed: Option<CalendarDate>) -> Result<Seq<char>, Seq<char>> {
    match parsed {
        None => Err(parse_error_message()),
        Some(d) => Ok(timestamp_text(midnight_of(d))),
    }
}

/// The normalized text of a raw date string read as `MM-DD-YYYY`.
pub open spec fn normalized_date(text: Seq<char>) -> Result<Seq<char>, Seq<char>> {
    match date_parsed_from(text, date_format()) {
        None => Err(parse_error_message()),
        Some((y, m, d)) => Ok(
            timestamp_text(
                midnight_of(CalendarDate { year: y as i32, month: m as u32, day: d as u32 }),
            ),
        ),
    }
}

/// Renders the outcome of parsing a date: the date at midnight UTC as
/// `YYYY-MM-DD 00:00:00 UTC`, or the parse error.
pub fn utc_string_from_parsed(parsed: Option<CalendarDate>) -> (r: Result<String, String>)
    requires
        parsed matches Some(d) ==> d.wf(),
    ensures
        text_result(r) == normalized_parsed(parsed),
{
    match parsed {
        None => {
            proof {
                reveal_strlit("Unable to parse from string");
            }
            let e = "Unable to parse from string".to_owned();
            assert(e@ =~= parse_error_message());
            Err(e)
        },
        Some(d) => match d.and_hms_opt(0, 0, 0) {
            Some(t) => Ok(to_utc_string(&t)),
            // midnight is always a valid time of day, so this arm is never taken
            None => Err("Unable to convert to UTC".to_owned()),
        },
    }
}

/// Reads `date_arg` strictly as `MM-DD-YYYY` and renders it as the UTC
/// timestamp of that day's midnight.
pub fn convert_date_to_utc_string(date_arg: String) -> (r: Result<String, String>)
    ensures
        text_result(r) == normalized_date(date_arg@),
{
    proof {
        reveal_strlit("%m-%d-%Y");
    }
    assert(DATE_FORMAT@ =~= date_format());
    let parsed = parse_calendar_date(date_arg.as_str(), DATE_FORMAT);
    proof {
        if let Some(d) = parsed {
            let (y, m, dd) = date_parsed_from(date_arg@, date_format())->Some_0;
            assert(CalendarDate { year: y as i32, month: m as u32, day: dd as u32 } == d);
        }
    }
    utc_string_from_parsed(parsed)
}

/// The current time, to the whole second, as `YYYY-MM-DD HH:MM:SS UTC`.
pub fn now() -> (r: String)
    ensures
        exists|t: UtcDateTime| t.wf() && r@ == #[trigger] timestamp_text(t),
{
    let t = utc_now();
    to_utc_string(&t)
}

/// Resolves a date field: a given date is normalized; an absent one becomes
/// the value of `now_fn` when `default_date` is set, and the empty string
/// otherwise.
pub fn parse_date<F: Fn() -> String>(date: Option<String>, default_date: bool, now_fn: F) -> (r:
    Result<String, String>)
    requires
        date is None && default_date ==> now_fn.requires(()),
    ensures
        date matches Some(d) ==> text_result(r) == normalized_date(d@),
        date is None && default_date ==> (r matches Ok(s) && now_fn.ensures((), s)),
        date is None && !default_date ==> (r matches Ok(s) && s@ == Seq::<char>::empty()),
{
    match date {
        Some(d) => convert_date_to_utc_string(d),
        None => {
            if default_date {
                Ok(now_fn())
            } else {
                Ok(String::new())
            }
        },
    }
}

} // verus!
