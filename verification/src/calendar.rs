//! Dates and times of day.
use crate::fixed;
use crate::numerals;
use crate::state::Timestamp;
use crate::text;
use vstd::prelude::*;

verus! {

/// A calendar date of the `chrono` crate.
#[verifier::external_type_specification]
#[verifier::external_body]
pub struct ExNaiveDate(chrono::NaiveDate);

/// A date with a time of day of the `chrono` crate.
#[verifier::external_type_specification]
#[verifier::external_body]
pub struct ExNaiveDateTime(chrono::NaiveDateTime);

/// Whether `year` has a 29th of February.
pub open spec fn leap(year: int) -> bool {
    year % 4 == 0 && (year % 100 != 0 || year % 400 == 0)
}

/// The number of days of a month.
pub open spec fn days_in_month(year: int, month: int) -> int {
    if month == 2 {
        if leap(year) {
            29
        } else {
            28
        }
    } else if month == 4 || month == 6 || month == 9 || month == 11 {
        30
    } else {
        31
    }
}

/// Whether the calendar has the day, among the years that `chrono` represents.
pub open spec fn day_exists(year: int, month: int, day: int) -> bool {
    &&& -262143 <= year <= 262142
    &&& 1 <= month <= 12
    &&& 1 <= day <= days_in_month(year, month)
}

/// Whether the clock has the time.
pub open spec fn time_exists(hour: int, minute: int, second: int) -> bool {
    hour < 24 && minute < 60 && second < 60
}

/// `chrono::NaiveDate::from_ymd_opt` gives a date exactly where the calendar day
/// exists and its year is in the range of the type. Which date it gives is left
/// unsaid: only its presence is used.
pub assume_specification[ chrono::NaiveDate::from_ymd_opt ](
    year: i32,
    month: u32,
    day: u32,
) -> (r: Option<chrono::NaiveDate>)
    ensures
        r is Some <==> day_exists(year as int, month as int, day as int),
;

/// `chrono::NaiveDate::and_hms_opt` gives a date with a time exactly where hour,
/// minute and second are in range; it takes no leap second. Which moment it gives
/// is left unsaid: only its presence is used.
pub assume_specification[ chrono::NaiveDate::and_hms_opt ](
    date: &chrono::NaiveDate,
    hour: u32,
    min: u32,
    sec: u32,
) -> (r: Option<chrono::NaiveDateTime>)
    ensures
        r is Some <==> time_exists(hour as int, min as int, sec as int),
;

/// The moment with the given fields, at the start of its second, if there is one.
pub fn moment(year: i32, month: u32, day: u32, hour: u32, minute: u32, second: u32) -> (r: Option<
    Timestamp,
>)
    ensures
        r == (if day_exists(year as int, month as int, day as int) && time_exists(
            hour as int,
            minute as int,
            second as int,
        ) {
            Some(Timestamp { year, month, day, hour, minute, second, nanosecond: 0 })
        } else {
            None
        }),
{
    match chrono::NaiveDate::from_ymd_opt(year, month, day) {
        Some(date) => match date.and_hms_opt(hour, minute, second) {
            Some(_) => Some(Timestamp { year, month, day, hour, minute, second, nanosecond: 0 }),
            None => None,
        },
        None => None,
    }
}

/// Whether the calendar and the clock have the moment. A leap second follows the last
/// second of a minute.
pub open spec fn exists_moment(t: Timestamp) -> bool {
    &&& day_exists(t.year as int, t.month as int, t.day as int)
    &&& time_exists(t.hour as int, t.minute as int, t.second as int)
    &&& t.nanosecond < 1_000_000_000 || (t.nanosecond < 2_000_000_000 && t.second == 59)
}

/// A year: four digits, and outside of them a sign before at least four.
pub open spec fn year_text(year: int) -> Seq<char> {
    let m = fixed::magnitude(year);
    let digits = if m <= 9999 {
        numerals::padded(m, 4)
    } else {
        text::decimal(m as nat)
    };
    if 0 <= year <= 9999 {
        digits
    } else if year < 0 {
        "-"@ + digits
    } else {
        "+"@ + digits
    }
}

/// A time of day as hours, minutes and seconds with colons.
pub open spec fn time_text(hour: int, minute: int, second: int) -> Seq<char> {
    numerals::padded(hour, 2) + ":"@ + numerals::padded(minute, 2) + ":"@ + numerals::padded(
        second,
        2,
    )
}

/// A moment as year, month and day with dashes, then `separator` and the time to the
/// second; a leap second counts as the sixtieth.
pub open spec fn separated_text(t: Timestamp, separator: Seq<char>) -> Seq<char> {
    year_text(t.year as int) + "-"@ + numerals::padded(t.month as int, 2) + "-"@ + numerals::padded(
        t.day as int,
        2,
    ) + separator + time_text(
        t.hour as int,
        t.minute as int,
        t.second + t.nanosecond as int / 1_000_000_000,
    )
}

/// The fraction of a second in three, six or nine digits, as few as show it; nothing
/// for none.
pub open spec fn fraction_text(nanosecond: int) -> Seq<char> {
    if nanosecond == 0 {
        Seq::empty()
    } else if nanosecond % 1_000_000 == 0 {
        "."@ + numerals::padded(nanosecond / 1_000_000, 3)
    } else if nanosecond % 1_000 == 0 {
        "."@ + numerals::padded(nanosecond / 1_000, 6)
    } else {
        "."@ + numerals::padded(nanosecond, 9)
    }
}

/// A moment as date, letter T and time to the second.
pub open spec fn moment_text(t: Timestamp) -> Seq<char> {
    separated_text(t, "T"@)
}

/// A moment as date, space and time with its fraction.
pub open spec fn moment_display(t: Timestamp) -> Seq<char> {
    separated_text(t, " "@) + fraction_text(t.nanosecond as int % 1_000_000_000)
}

/// `chrono::NaiveDateTime::format`, by the format of date, letter T and time, which
/// leaves the fraction of the second out.
#[verifier::external_body]
pub(crate) fn format_moment(t: &Timestamp) -> (r: String)
    requires
        exists_moment(*t),
    ensures
        r@ == moment_text(*t),
{
    let date = chrono::NaiveDate::from_ymd_opt(t.year, t.month, t.day).unwrap();
    let at = date.and_hms_nano_opt(t.hour, t.minute, t.second, t.nanosecond).unwrap();
    at.format("%Y-%m-%dT%H:%M:%S").to_string()
}

/// `chrono::NaiveDateTime` in its `Display` form: date, space and time, with the
/// fraction of the second in three, six or nine digits where there is one.
#[verifier::external_body]
pub(crate) fn display_moment(t: &Timestamp) -> (r: String)
    requires
        exists_moment(*t),
    ensures
        r@ == moment_display(*t),
{
    let date = chrono::NaiveDate::from_ymd_opt(t.year, t.month, t.day).unwrap();
    let at = date.and_hms_nano_opt(t.hour, t.minute, t.second, t.nanosecond).unwrap();
    at.to_string()
}

/// Whether the clock has the time of day.
pub open spec fn on_clock(t: ClockTime) -> bool {
    t.hour < 24 && t.minute < 60
}

/// `chrono::NaiveTime` in its `Display` form: hours, minutes and seconds with
/// colons, the time being one of whole seconds.
#[verifier::external_body]
pub(crate) fn display_time(t: ClockTime) -> (r: String)
    requires
        on_clock(t),
    ensures
        r@ == time_text(t.hour as int, t.minute as int, 0),
{
    chrono::NaiveTime::from_hms_opt(t.hour, t.minute, 0).unwrap().to_string()
}

/// What `chrono` reads from `s` by the format `format`: an hour and a minute.
pub uninterp spec fn parsed_time(s: Seq<char>, format: Seq<char>) -> Option<(u32, u32)>;

/// `chrono::NaiveTime::parse_from_str` reads a time of day. The result depends on
/// the two strings alone and has an hour below 24 and a minute below 60. What it
/// reads from which string is left to the name.
#[verifier::external_body]
fn parse_time(s: &str, format: &str) -> (r: Option<(u32, u32)>)
    ensures
        r == parsed_time(s@, format@),
        r matches Some(t) ==> t.0 < 24 && t.1 < 60,
{
    match chrono::NaiveTime::parse_from_str(s, format) {
        Ok(t) => Some((chrono::Timelike::hour(&t), chrono::Timelike::minute(&t))),
        Err(_) => None,
    }
}

/// A time of day to the minute.
#[derive(Clone, Copy, Debug, PartialEq, Eq, Structural)]
pub struct ClockTime {
    pub hour: u32,
    pub minute: u32,
}

/// The time of day that `s` writes as hours, colon, minutes.
pub open spec fn clock_time(s: Seq<char>) -> Option<ClockTime> {
    match parsed_time(s, "%H:%M"@) {
        Some(t) => Some(ClockTime { hour: t.0, minute: t.1 }),
        None => None,
    }
}

/// The time of day that `s` writes as hours, colon, minutes.
pub fn parse_clock_time(s: &str) -> (r: Option<ClockTime>)
    ensures
        r == clock_time(s@),
        r matches Some(t) ==> on_clock(t),
{
    match parse_time(s, "%H:%M") {
        Some(t) => Some(ClockTime { hour: t.0, minute: t.1 }),
        None => None,
    }
}

/// Minutes since midnight.
pub open spec fn minutes_of(t: ClockTime) -> int {
    t.hour * 60 + t.minute
}

/// Whether `a` is earlier in the day than `b`.
pub fn earlier(a: ClockTime, b: ClockTime) -> (r: bool)
    requires
        a.minute < 60,
        b.minute < 60,
    ensures
        r == (minutes_of(a) < minutes_of(b)),
{
    a.hour < b.hour || (a.hour == b.hour && a.minute < b.minute)
}

/// Whether the clock of the moment `now` has reached `t` on its day.
pub open spec fn reached(now: Timestamp, t: ClockTime) -> bool {
    now.hour > t.hour || (now.hour == t.hour && now.minute >= t.minute)
}

/// Whether the clock of the moment `now` has reached `t` on its day.
pub fn has_reached(now: &Timestamp, t: ClockTime) -> (r: bool)
    ensures
        r == reached(*now, t),
{
    now.hour > t.hour || (now.hour == t.hour && now.minute >= t.minute)
}

} // verus!
