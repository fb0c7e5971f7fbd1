//! What the calendar and the clock promise.
use crate::calendar;
use crate::calendar::ClockTime;
use crate::numerals;
use crate::state::Timestamp;
use crate::text;
use vstd::prelude::*;

verus! {

/// Law: the days of the months. February has a 29th day in every fourth year, but not
/// in a full century unless it is a fourth one.
pub proof fn law_days(year: int, month: int, day: int)
    requires
        -262143 <= year <= 262142,
    ensures
        calendar::day_exists(year, month, day) ==> 1 <= month <= 12 && 1 <= day <= 31,
        1 <= month <= 12 && 1 <= day <= 28 ==> calendar::day_exists(year, month, day),
        calendar::day_exists(year, 2, 29) <==> year % 400 == 0 || (year % 4 == 0 && year % 100
            != 0),
        !calendar::day_exists(year, 2, 30),
        month == 4 || month == 6 || month == 9 || month == 11 ==> calendar::day_exists(
            year,
            month,
            30,
        ) && !calendar::day_exists(year, month, 31),
        month == 1 || month == 3 || month == 5 || month == 7 || month == 8 || month == 10 || month
            == 12 ==> calendar::day_exists(year, month, 31),
{
}

/// Law: the times of the clock.
pub proof fn law_times(hour: u32, minute: u32, second: u32)
    ensures
        calendar::time_exists(hour as int, minute as int, second as int) <==> hour <= 23 && minute
            <= 59 && second <= 59,
{
}

/// Law: a moment made of its fields has them, and is there exactly when its day and its
/// time are.
pub proof fn law_moment(
    year: i32,
    month: u32,
    day: u32,
    hour: u32,
    minute: u32,
    second: u32,
    r: Option<Timestamp>,
)
    requires
        call_ensures(calendar::moment, (year, month, day, hour, minute, second), r),
    ensures
        r is Some <==> calendar::day_exists(year as int, month as int, day as int) && hour <= 23
            && minute <= 59 && second <= 59,
        r matches Some(t) ==> t.year == year && t.month == month && t.day == day && t.hour == hour
            && t.minute == minute && t.second == second && t.nanosecond == 0,
{
}

/// Law: the clock has reached a time of day once as many minutes have passed since
/// midnight.
pub proof fn law_reached(now: Timestamp, t: ClockTime, r: bool)
    requires
        now.minute <= 59,
        t.minute <= 59,
        call_ensures(calendar::has_reached, (&now, t), r),
    ensures
        r <==> now.hour * 60 + now.minute >= t.hour * 60 + t.minute,
{
}

/// Law: an earlier time of day has fewer minutes before it.
pub proof fn law_earlier(a: ClockTime, b: ClockTime, r: bool)
    requires
        a.minute <= 59,
        b.minute <= 59,
        call_ensures(calendar::earlier, (a, b), r),
    ensures
        r <==> a.hour * 60 + a.minute < b.hour * 60 + b.minute,
        calendar::minutes_of(a) == a.hour * 60 + a.minute,
{
}

/// Two digits.
pub open spec fn pair(n: int) -> Seq<char> {
    seq![text::digit(n / 10), text::digit(n % 10)]
}

/// Two digits of a number.
proof fn lemma_pair(n: int)
    requires
        0 <= n <= 99,
    ensures
        numerals::padded(n, 2) == pair(n),
{
    reveal_with_fuel(numerals::padded, 3);
    assert(numerals::padded(n, 2) =~= pair(n));
}

/// Law: a time in text: hours, minutes and seconds in two digits each, with colons.
pub proof fn law_time_text(hour: int, minute: int, second: int)
    requires
        0 <= hour <= 99,
        0 <= minute <= 99,
        0 <= second <= 99,
    ensures
        calendar::time_text(hour, minute, second) == pair(hour) + ":"@ + pair(minute) + ":"@ + pair(
            second,
        ),
        text::digit(0) == '0',
        text::digit(9) == '9',
{
    lemma_pair(hour);
    lemma_pair(minute);
    lemma_pair(second);
}

/// Law: a moment in text: year, month and day with dashes, the letter T, and the time.
/// Its display has a space instead and adds the fraction of the second.
pub proof fn law_moment_text(t: Timestamp)
    requires
        0 <= t.year <= 9999,
        t.month <= 12,
        t.day <= 31,
        t.hour <= 23,
        t.minute <= 59,
        t.second <= 59,
        t.nanosecond < 1_000_000_000,
    ensures
        calendar::moment_text(t) == numerals::padded(t.year as int, 4) + "-"@ + pair(
            t.month as int,
        ) + "-"@ + pair(t.day as int) + "T"@ + calendar::time_text(
            t.hour as int,
            t.minute as int,
            t.second as int,
        ),
        t.nanosecond == 0 ==> calendar::moment_display(t) == numerals::padded(t.year as int, 4)
            + "-"@ + pair(t.month as int) + "-"@ + pair(t.day as int) + " "@ + calendar::time_text(
            t.hour as int,
            t.minute as int,
            t.second as int,
        ),
{
    lemma_pair(t.month as int);
    lemma_pair(t.day as int);
    assert(t.nanosecond as int / 1_000_000_000 == 0);
    if t.nanosecond == 0 {
        let s = calendar::separated_text(t, " "@);
        assert(s + Seq::empty() =~= s);
    }
}

/// Law: the fraction of a second in three, six or nine digits.
pub proof fn law_fraction_text(n: int)
    requires
        0 < n < 1_000,
    ensures
        calendar::fraction_text(0) == Seq::<char>::empty(),
        calendar::fraction_text(n * 1_000_000) == "."@ + numerals::padded(n, 3),
        n % 1_000 != 0 ==> calendar::fraction_text(n * 1_000) == "."@ + numerals::padded(n, 6),
        calendar::fraction_text(n) == "."@ + numerals::padded(n, 9),
{
    assert((n * 1_000_000) % 1_000_000 == 0 && (n * 1_000_000) / 1_000_000 == n);
    assert((n * 1_000) % 1_000 == 0 && (n * 1_000) / 1_000 == n);
    assert((n * 1_000) % 1_000_000 == n * 1_000);
    assert(n % 1_000 == n && n % 1_000_000 == n);
}

/// Law: a moment is there where its day and its time are, with a fraction of its second; a
/// leap second follows the last second of a minute.
pub proof fn law_moments(t: Timestamp)
    ensures
        calendar::exists_moment(t) <==> calendar::day_exists(
            t.year as int,
            t.month as int,
            t.day as int,
        ) && t.hour <= 23 && t.minute <= 59 && t.second <= 59 && (t.nanosecond <= 999_999_999 || (
        t.second == 59 && t.nanosecond <= 1_999_999_999)),
{
}

/// Law: a year in text: four digits, and a sign where it is outside of them.
pub proof fn law_year_text(year: int)
    ensures
        0 <= year <= 9999 ==> calendar::year_text(year) == numerals::padded(year, 4),
        -9999 <= year < 0 ==> calendar::year_text(year) == "-"@ + numerals::padded(-year, 4),
        year > 9999 ==> calendar::year_text(year) == "+"@ + text::decimal(year as nat),
        year < -9999 ==> calendar::year_text(year) == "-"@ + text::decimal((-year) as nat),
{
}

} // verus!
