//! Spans of time and calendar labels.

use vstd::prelude::*;
use vstd::string::*;

use crate::text;
use crate::time;
use crate::time::Duration;

verus! {

/// A span keeps the time it was made from.
pub proof fn spans_keep_their_time(n: u64, secs: Duration, millis: Duration, whole: u64, nanos: u128)
    requires
        call_ensures(Duration::from_secs, (n,), secs),
        call_ensures(Duration::from_millis, (n,), millis),
        call_ensures(Duration::as_secs, (&secs,), whole),
        call_ensures(Duration::as_nanos, (&secs,), nanos),
    ensures
        secs.secs == n,
        secs.nanos == 0,
        whole == n,
        nanos == n * 1_000_000_000,
        millis.secs * 1000 + millis.nanos / 1_000_000 == n,
        millis.nanos < 1_000_000_000,
{
}

/// A calendar label counts days, hours and minutes from the epoch: the day is the calendar
/// day that many days after it, and the rest of the day is the time.
pub proof fn calendar_labels_count_from_the_epoch(
    secs: u64,
    label: String,
    year: int,
    month: int,
    day: int,
    hour: nat,
    minute: nat,
)
    requires
        call_ensures(time::utc_label, (secs,), label),
        time::is_calendar_day(year, month, day),
        hour < 24,
        minute < 60,
        time::day_number(year, month, day) * 86_400 + hour * 3600 + minute * 60 <= secs
            < time::day_number(year, month, day) * 86_400 + hour * 3600 + minute * 60 + 60,
    ensures
        label@ == time::year_text(year as i32) + "-"@ + text::two_digits(month as nat) + "-"@
            + text::two_digits(day as nat) + " "@ + text::two_digits(hour) + ":"@
            + text::two_digits(minute),
{
    let days = time::day_number(year, month, day);
    assert(secs / 86_400 == days && (secs / 3600) % 24 == hour && (secs / 60) % 60 == minute)
        by (nonlinear_arith)
        requires
            hour < 24,
            minute < 60,
            days * 86_400 + hour * 3600 + minute * 60 <= secs,
            secs < days * 86_400 + hour * 3600 + minute * 60 + 60,
    ;
    time::lemma_civil_date(year, month, day);
    assert(month as u32 as nat == month as nat);
}

/// A year is written in four characters at least.
pub proof fn years_are_written_in_four_characters(year: i32)
    requires
        1000 <= year <= 9999,
    ensures
        time::year_text(year) == text::decimal(year as nat),
{
    assert(text::decimal(year as nat).len() == 4) by {
        reveal_with_fuel(text::decimal, 5);
    }
}

/// The months have their lengths, February one day more in leap years, and every fourth
/// year is one but for the centuries that four hundred does not divide.
pub proof fn months_have_their_lengths(year: int, month: int)
    requires
        1 <= month <= 12,
    ensures
        month == 1 || month == 3 || month == 5 || month == 7 || month == 8 || month == 10 || month
            == 12 ==> time::is_calendar_day(year, month, 31) && !time::is_calendar_day(
            year,
            month,
            32,
        ),
        month == 4 || month == 6 || month == 9 || month == 11 ==> time::is_calendar_day(
            year,
            month,
            30,
        ) && !time::is_calendar_day(year, month, 31),
        month == 2 ==> time::is_calendar_day(year, month, 28) && !time::is_calendar_day(
            year,
            month,
            30,
        ),
        time::is_calendar_day(year, 2, 29) <==> (year % 4 == 0 && year % 100 != 0) || year % 400
            == 0,
{
    if year % 400 == 0 {
        assert(year == 4 * (100 * (year / 400)));
    }
}

/// The days are counted one by one from the first of January 1970: the next day of a month
/// has the next number, and so has the first day of the next month.
pub proof fn days_are_counted_one_by_one(year: int, month: int, day: int)
    requires
        1 <= month <= 12,
    ensures
        time::day_number(1970, 1, 1) == 0,
        time::day_number(year, month, day + 1) == time::day_number(year, month, day) + 1,
        month < 12 ==> time::day_number(year, month + 1, 1) == time::day_number(
            year,
            month,
            time::days_in_month(year, month),
        ) + 1,
{
    reveal_with_fuel(time::days_before_month, 2);
}

/// A clock that cannot be read counts as the epoch; any other is labelled by its seconds.
pub proof fn unreadable_clocks_read_as_the_epoch(now: Option<Duration>, label: String, zero: String)
    requires
        call_ensures(time::clock_label, (now,), label),
        call_ensures(time::utc_label, (0,), zero),
    ensures
        now is None ==> label@ == zero@,
        now matches Some(span) ==> label@ == time::utc_text(span.secs),
{
}

} // verus!
