//! Spans of time, the wall clock, and the proleptic Gregorian calendar.

use vstd::prelude::*;
use vstd::string::*;

use crate::text;
use crate::text::{decimal_text, padded_start, two_digit_text};

verus! {

/// A span of time: whole seconds plus nanoseconds.
#[derive(Debug, Clone, Copy, PartialEq, Eq, Structural)]
pub struct Duration {
    pub secs: u64,
    pub nanos: u32,
}

/// Nanoseconds in a second.
pub const NANOS_PER_SEC: u32 = 1_000_000_000;

impl Duration {
    /// The span in nanoseconds.
    pub open spec fn total_nanos(self) -> nat {
        (self.secs * 1_000_000_000 + self.nanos) as nat
    }

    /// A span of whole seconds.
    pub fn from_secs(secs: u64) -> (span: Duration)
        ensures
            span == (Duration { secs, nanos: 0 }),
            span.total_nanos() == secs * 1_000_000_000,
    {
        Duration { secs, nanos: 0 }
    }

    /// A span of whole milliseconds.
    pub fn from_millis(millis: u64) -> (span: Duration)
        ensures
            span.total_nanos() == millis * 1_000_000,
            span.nanos < NANOS_PER_SEC,
    {
        Duration { secs: millis / 1000, nanos: (millis % 1000) as u32 * 1_000_000 }
    }

    /// Whole seconds in the span.
    pub fn as_secs(&self) -> (secs: u64)
        ensures
            secs == self.secs,
    {
        self.secs
    }

    /// The span in nanoseconds.
    pub fn as_nanos(&self) -> (nanos: u128)
        ensures
            nanos == self.total_nanos(),
    {
        self.secs as u128 * 1_000_000_000 + self.nanos as u128
    }
}

impl DeepView for Duration {
    type V = Duration;

    open spec fn deep_view(&self) -> Duration {
        *self
    }
}

/// `std`'s `SystemTime::elapsed` on the Unix epoch: the wall clock as whole
/// seconds and nanoseconds since 1970, or `None` when the clock stands before it.
/// The reading differs from call to call; only the range of its second part holds
/// of every outcome.
#[verifier::external_body]
fn elapsed_since_epoch() -> (now: Option<(u64, u32)>)
    ensures
        now matches Some(reading) ==> reading.1 < NANOS_PER_SEC,
{
    std::time::UNIX_EPOCH.elapsed().ok().map(|d| (d.as_secs(), d.subsec_nanos()))
}

/// The wall clock as the time since 1970-01-01 00:00 UTC. `None` when the clock
/// stands before that.
pub fn since_epoch() -> (now: Option<Duration>)
    ensures
        now matches Some(span) ==> span.nanos < NANOS_PER_SEC,
{
    match elapsed_since_epoch() {
        Some((secs, nanos)) => Some(Duration { secs, nanos }),
        None => None,
    }
}

/// Whether `year` has a 29th of February.
pub open spec fn is_leap_year(year: int) -> bool {
    year % 4 == 0 && (year % 100 != 0 || year % 400 == 0)
}

/// Days in `month` (1 to 12) of `year`.
pub open spec fn days_in_month(year: int, month: int) -> int {
    if month == 2 {
        if is_leap_year(year) {
            29
        } else {
            28
        }
    } else if month == 4 || month == 6 || month == 9 || month == 11 {
        30
    } else {
        31
    }
}

/// Days from the first of January to the first of `month` in the same year.
pub open spec fn days_before_month(year: int, month: int) -> int
    decreases month,
{
    if month <= 1 {
        0
    } else {
        days_before_month(year, month - 1) + days_in_month(year, month - 1)
    }
}

/// Days from 0001-01-01 to the first of January of `year`.
pub open spec fn days_before_year(year: int) -> int {
    365 * (year - 1) + (year - 1) / 4 - (year - 1) / 100 + (year - 1) / 400
}

/// Whether the three numbers name a day of the calendar.
pub open spec fn is_calendar_day(year: int, month: int, day: int) -> bool {
    1 <= month <= 12 && 1 <= day <= days_in_month(year, month)
}

/// Days from 1970-01-01 to the given day.
pub open spec fn day_number(year: int, month: int, day: int) -> int {
    days_before_year(year) - days_before_year(1970) + days_before_month(year, month) + day - 1
}

proof fn lemma_multiples(y: int, n: int)
    requires
        n == 4 || n == 100 || n == 400,
    ensures
        y / n - (y - 1) / n == if y % n == 0 {
            1int
        } else {
            0int
        },
{
}

proof fn lemma_leap_chain(y: int)
    ensures
        y % 400 == 0 ==> y % 100 == 0,
        y % 100 == 0 ==> y % 4 == 0,
{
    if y % 400 == 0 {
        assert(y == 100 * (4 * (y / 400)));
    }
    if y % 100 == 0 {
        assert(y == 4 * (25 * (y / 100)));
    }
}

/// A year is 365 days long, a leap year 366.
pub proof fn year_lengths(year: int)
    ensures
        days_before_year(year + 1) - days_before_year(year) == if is_leap_year(year) {
            366int
        } else {
            365int
        },
        days_before_month(year, 13) == days_before_year(year + 1) - days_before_year(year),
{
    lemma_multiples(year, 4);
    lemma_multiples(year, 100);
    lemma_multiples(year, 400);
    lemma_leap_chain(year);
    lemma_months_sum(year);
}

proof fn lemma_months_sum(year: int)
    ensures
        days_before_month(year, 13) == if is_leap_year(year) {
            366int
        } else {
            365int
        },
{
    reveal_with_fuel(days_before_month, 14);
}

/// The day after the last of December is the first of January of the next year.
pub proof fn new_year_follows_december(year: int)
    ensures
        day_number(year + 1, 1, 1) == day_number(year, 12, 31) + 1,
{
    year_lengths(year);
    reveal_with_fuel(days_before_month, 14);
}

/// A later year starts no earlier than the one before it ends.
proof fn lemma_years_are_ordered(earlier: int, later: int)
    requires
        earlier < later,
    ensures
        days_before_year(earlier + 1) <= days_before_year(later),
{
    let a = earlier;
    let b = later - 1;
    assert(b / 4 >= a / 4);
    assert(b / 400 >= a / 400);
    assert(b / 100 - a / 100 <= b - a) by {
        assert(b == 100 * (b / 100) + b % 100);
        assert(a == 100 * (a / 100) + a % 100);
    }
}

proof fn lemma_day_within_year(year: int, month: int, day: int)
    requires
        is_calendar_day(year, month, day),
    ensures
        0 <= days_before_month(year, month) + day - 1 < days_before_month(year, 13),
{
    reveal_with_fuel(days_before_month, 14);
}

proof fn lemma_months_are_ordered(year: int, earlier: int, later: int)
    requires
        1 <= earlier < later <= 12,
    ensures
        days_before_month(year, earlier) + days_in_month(year, earlier) <= days_before_month(
            year,
            later,
        ),
    decreases later,
{
    if earlier < later - 1 {
        lemma_months_are_ordered(year, earlier, later - 1);
    }
}

/// No two days of the calendar have the same day number.
pub proof fn day_numbers_are_unique(y1: int, m1: int, d1: int, y2: int, m2: int, d2: int)
    requires
        is_calendar_day(y1, m1, d1),
        is_calendar_day(y2, m2, d2),
        day_number(y1, m1, d1) == day_number(y2, m2, d2),
    ensures
        y1 == y2 && m1 == m2 && d1 == d2,
{
    lemma_day_within_year(y1, m1, d1);
    lemma_day_within_year(y2, m2, d2);
    year_lengths(y1);
    year_lengths(y2);
    if y1 < y2 {
        lemma_years_are_ordered(y1, y2);
    } else if y2 < y1 {
        lemma_years_are_ordered(y2, y1);
    } else if m1 < m2 {
        lemma_months_are_ordered(y1, m1, m2);
    } else if m2 < m1 {
        lemma_months_are_ordered(y1, m2, m1);
    }
}

/// The day of the calendar `days` days after 1970-01-01, as year, month, day.
pub open spec fn civil_date(days: int) -> (int, int, int) {
    choose|date: (int, int, int)|
        is_calendar_day(date.0, date.1, date.2) && #[trigger] day_number(date.0, date.1, date.2)
            == days
}

pub proof fn lemma_civil_date(year: int, month: int, day: int)
    requires
        is_calendar_day(year, month, day),
    ensures
        civil_date(day_number(year, month, day)) == (year, month, day),
{
    let date = (year, month, day);
    let days = day_number(date.0, date.1, date.2);
    assert(is_calendar_day(date.0, date.1, date.2));
    let found = civil_date(days);
    day_numbers_are_unique(found.0, found.1, found.2, year, month, day);
}

/// Year `y` counted from the first of March, from its place in the 400-year era.
proof fn lemma_march_year(era: int, century: int, quad: int, yoq: int, y: int)
    requires
        0 <= century <= 3,
        0 <= quad <= 24,
        0 <= yoq <= 3,
        y == era * 400 + century * 100 + quad * 4 + yoq,
    ensures
        days_before_year(y + 1) == 365 * y + era * 97 + century * 24 + quad,
        is_leap_year(y + 1) <==> yoq == 3 && (quad < 24 || century == 3),
{
    assert(y / 4 == era * 100 + century * 25 + quad);
    assert(y / 100 == era * 4 + century);
    assert(y / 400 == era);
    let next = y + 1;
    assert(next % 4 == 0 <==> yoq == 3);
    assert(next % 100 == 0 <==> yoq == 3 && quad == 24);
    assert(next % 400 == 0 <==> yoq == 3 && quad == 24 && century == 3);
}

/// The month and day of day `doy` of a year counted from the first of March.
proof fn lemma_march_month(y: int, doy: int, mp: int, m: int, d: int, year: int)
    requires
        0 <= doy <= 365,
        doy == 365 ==> is_leap_year(y + 1),
        mp == (5 * doy + 2) / 153,
        d == doy - (153 * mp + 2) / 5 + 1,
        m == if mp < 10 {
            mp + 3
        } else {
            mp - 9
        },
        year == if m <= 2 {
            y + 1
        } else {
            y
        },
    ensures
        is_calendar_day(year, m, d),
        days_before_year(year) + days_before_month(year, m) + d - 1 == days_before_year(y + 1) + doy
            - 306,
{
    year_lengths(y);
    reveal_with_fuel(days_before_month, 14);
    assert(0 <= mp <= 11);
    assert(153 * mp <= 5 * doy + 2 < 153 * mp + 153);
}

/// Splits a day count into 400-year eras and the day within the era.
fn split_era(z: i64) -> (split: (i64, i64))
    ensures
        z == split.0 * 146_097 + split.1,
        0 <= split.1 < 146_097,
        -63_133_000_000_000 <= split.0 <= 63_133_000_000_000,
{
    if z >= 0 {
        (z / 146_097, z % 146_097)
    } else {
        let before: i64 = -(z + 1);
        (-1 - before / 146_097, 146_096 - before % 146_097)
    }
}

/// Splits the day within a 400-year era into century, four-year group, year of
/// the group, and day of the year.
fn split_year(doe: i64) -> (split: (i64, i64, i64, i64))
    requires
        0 <= doe < 146_097,
    ensures
        0 <= split.0 <= 3,
        0 <= split.1 <= 24,
        0 <= split.2 <= 3,
        0 <= split.3 <= 365,
        split.3 == 365 ==> split.2 == 3 && (split.1 < 24 || split.0 == 3),
        doe == split.0 * 36_524 + split.1 * 1461 + split.2 * 365 + split.3,
{
    let century: i64 = if doe / 36_524 < 3 {
        doe / 36_524
    } else {
        3
    };
    let doc: i64 = doe - century * 36_524;
    assert(0 <= doc <= 36_524);
    assert(doc == 36_524 ==> century == 3);
    let quad: i64 = doc / 1461;
    let doq: i64 = doc - quad * 1461;
    assert(0 <= doq <= 1460);
    assert(quad == 24 && doq == 1460 ==> doc == 36_524);
    let yoq: i64 = if doq / 365 < 3 {
        doq / 365
    } else {
        3
    };
    (century, quad, yoq, doq - yoq * 365)
}

/// The calendar day `days` days after 1970-01-01, as year, month and day. The
/// year is handed out as 32 bits.
pub fn days_to_ymd(days: i64) -> (ymd: (i32, u32, u32))
    requires
        days <= i64::MAX - 719_468,
    ensures
        ymd.0 == civil_date(days as int).0 as i32,
        ymd.1 == civil_date(days as int).1,
        ymd.2 == civil_date(days as int).2,
        is_calendar_day(civil_date(days as int).0, ymd.1 as int, ymd.2 as int),
        day_number(civil_date(days as int).0, ymd.1 as int, ymd.2 as int) == days,
{
    // Count from 0000-03-01, so that a leap day is the last day of its year.
    let z: i64 = days + 719_468;
    let (era, doe) = split_era(z);
    let (century, quad, yoq, doy) = split_year(doe);
    let y: i64 = era * 400 + century * 100 + quad * 4 + yoq;
    let mp: i64 = (5 * doy + 2) / 153;
    let d: i64 = doy - (153 * mp + 2) / 5 + 1;
    let m: i64 = if mp < 10 {
        mp + 3
    } else {
        mp - 9
    };
    let year: i64 = if m <= 2 {
        y + 1
    } else {
        y
    };
    proof {
        lemma_march_year(era as int, century as int, quad as int, yoq as int, y as int);
        lemma_march_month(y as int, doy as int, mp as int, m as int, d as int, year as int);
        assert(days_before_year(1970) == 719_162);
        assert(day_number(year as int, m as int, d as int) == days);
        lemma_civil_date(year as int, m as int, d as int);
    }
    (year as i32, m as u32, d as u32)
}

/// A year in at least four characters, zero-filled behind the sign.
pub open spec fn year_text(year: i32) -> Seq<char> {
    if year < 0 {
        seq!['-'] + text::pad_start(text::decimal((-year) as nat), 3, '0')
    } else {
        text::pad_start(text::decimal(year as nat), 4, '0')
    }
}

fn year_label(year: i32) -> (text: String)
    ensures
        text@ == year_text(year),
{
    if year < 0 {
        let magnitude: u64 = (-(year as i64)) as u64;
        let mut text = String::new();
        text.push('-');
        assert(text@ =~= seq!['-']);
        text.append(padded_start(decimal_text(magnitude).as_str(), 3, '0').as_str());
        text
    } else {
        padded_start(decimal_text(year as u64).as_str(), 4, '0')
    }
}

/// `YYYY-MM-DD HH:MM`.
pub open spec fn minute_text(year: i32, month: u32, day: u32, hour: nat, minute: nat) -> Seq<char> {
    year_text(year) + "-"@ + text::two_digits(month as nat) + "-"@ + text::two_digits(day as nat) + " "@
        + text::two_digits(hour) + ":"@ + text::two_digits(minute)
}

/// The UTC time `secs` seconds after the epoch as `YYYY-MM-DD HH:MM`.
pub open spec fn utc_text(secs: u64) -> Seq<char> {
    let date = civil_date((secs / 86_400) as int);
    minute_text(
        date.0 as i32,
        date.1 as u32,
        date.2 as u32,
        ((secs / 3600) % 24) as nat,
        ((secs / 60) % 60) as nat,
    )
}

/// The UTC time `secs` seconds after the epoch as `YYYY-MM-DD HH:MM`.
pub fn utc_label(secs: u64) -> (text: String)
    ensures
        text@ == utc_text(secs),
{
    let days: i64 = (secs / 86_400) as i64;
    let (year, month, day) = days_to_ymd(days);
    let mut text = year_label(year);
    text.append("-");
    text.append(two_digit_text(month as u64).as_str());
    text.append("-");
    text.append(two_digit_text(day as u64).as_str());
    text.append(" ");
    text.append(two_digit_text((secs / 3600) % 24).as_str());
    text.append(":");
    text.append(two_digit_text((secs / 60) % 60).as_str());
    text
}

/// The seconds that a clock reading counts as; an unreadable clock is the epoch.
pub open spec fn clock_secs(now: Option<Duration>) -> u64 {
    match now {
        Some(span) => span.secs,
        None => 0,
    }
}

/// The minute-precise UTC label of a clock reading.
pub fn clock_label(now: Option<Duration>) -> (text: String)
    ensures
        text@ == utc_text(clock_secs(now)),
{
    match now {
        Some(span) => utc_label(span.secs),
        None => utc_label(0),
    }
}

/// Cheap timestamp label for generated names: the current UTC time as
/// `YYYY-MM-DD HH:MM`.
pub fn chrono_like_now_label() -> (text: String)
    ensures
        exists|secs: u64| text@ == #[trigger] utc_text(secs),
{
    let now = since_epoch();
    let text = clock_label(now);
    assert(text@ == utc_text(clock_secs(now)));
    text
}

} // verus!
