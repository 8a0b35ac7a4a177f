//! How lengths of time read: clock times, runtimes, and Jellyfin's ticks.

use vstd::prelude::*;

use crate::text;
use crate::text::{concat2, concat3, concat4, decimal_text, two_digit_text};
use crate::time::Duration;

verus! {

/// Jellyfin counts time in ticks of 100 ns.
pub const TICKS_PER_SECOND: i64 = 10_000_000;

/// `m:ss`, or `h:mm:ss` once past an hour.
pub open spec fn clock_text(secs: nat) -> Seq<char> {
    let h = secs / 3600;
    let m = (secs % 3600) / 60;
    let s = secs % 60;
    if h > 0 {
        text::decimal(h) + ":"@ + text::two_digits(m) + ":"@ + text::two_digits(s)
    } else {
        text::decimal(m) + ":"@ + text::two_digits(s)
    }
}

/// `m:ss`, or `h:mm:ss` once past an hour.
pub fn clock(secs: u64) -> (label: String)
    ensures
        label@ == clock_text(secs as nat),
{
    let h: u64 = secs / 3600;
    let m: u64 = (secs % 3600) / 60;
    let s: u64 = secs % 60;
    if h > 0 {
        let mut label = concat4(
            decimal_text(h).as_str(),
            ":",
            two_digit_text(m).as_str(),
            ":",
        );
        label.append(two_digit_text(s).as_str());
        label
    } else {
        concat3(decimal_text(m).as_str(), ":", two_digit_text(s).as_str())
    }
}

/// `m:ss`, or `h:mm:ss` once past an hour.
pub fn format_time(d: Duration) -> (label: String)
    ensures
        label@ == clock_text(d.secs as nat),
{
    clock(d.as_secs())
}

/// Whole seconds in a positive number of ticks.
pub open spec fn tick_secs(ticks: i64) -> nat {
    (ticks / TICKS_PER_SECOND) as nat
}

/// A track's length as the tracklist shows it.
pub open spec fn track_length(ticks: i64) -> Option<Seq<char>> {
    if ticks > 0 {
        Some(clock_text(tick_secs(ticks)))
    } else {
        None
    }
}

/// Jellyfin `RunTimeTicks` → `m:ss` (or `h:mm:ss` past an hour). Used for the
/// `Length` column in the music tracklist.
pub fn format_track_length(ticks: i64) -> (label: Option<String>)
    ensures
        label.deep_view() == track_length(ticks),
{
    if ticks <= 0 {
        return None;
    }
    Some(clock((ticks / TICKS_PER_SECOND) as u64))
}

/// A chapter's start as its row shows it.
pub open spec fn chapter_timestamp(ticks: i64) -> Seq<char> {
    if ticks > 0 {
        clock_text(tick_secs(ticks))
    } else {
        clock_text(0)
    }
}

/// Convert Jellyfin ticks to `h:mm:ss` / `m:ss` for chapter rows.
pub fn format_chapter_timestamp(ticks: i64) -> (label: String)
    ensures
        label@ == chapter_timestamp(ticks),
{
    if ticks > 0 {
        clock((ticks / TICKS_PER_SECOND) as u64)
    } else {
        clock(0)
    }
}

/// `1h 56m` / `42m`.
pub open spec fn runtime_text(ticks: i64) -> Option<Seq<char>> {
    let minutes = tick_secs(ticks) / 60;
    if ticks <= 0 {
        None
    } else if minutes >= 60 {
        Some(text::decimal(minutes / 60) + "h "@ + text::decimal(minutes % 60) + "m"@)
    } else {
        Some(text::decimal(minutes) + "m"@)
    }
}

/// Jellyfin `RunTimeTicks` (100 ns units) → a short `1h 56m` / `42m` string.
/// Used by the info pane.
pub fn format_runtime(ticks: i64) -> (label: Option<String>)
    ensures
        label.deep_view() == runtime_text(ticks),
{
    if ticks <= 0 {
        return None;
    }
    let minutes: u64 = (ticks / TICKS_PER_SECOND / 60) as u64;
    assert(minutes == tick_secs(ticks) / 60);
    if minutes >= 60 {
        Some(
            concat4(
                decimal_text(minutes / 60).as_str(),
                "h ",
                decimal_text(minutes % 60).as_str(),
                "m",
            ),
        )
    } else {
        Some(concat2(decimal_text(minutes).as_str(), "m"))
    }
}

/// `1h 05m` / `42m`.
pub open spec fn duration_text(ticks: Option<i64>) -> Option<Seq<char>> {
    match ticks {
        Some(known) => {
            let minutes = tick_secs(known) / 60;
            if known <= 0 {
                None
            } else if minutes >= 60 {
                Some(text::decimal(minutes / 60) + "h "@ + text::two_digits(minutes % 60) + "m"@)
            } else {
                Some(text::decimal(minutes) + "m"@)
            }
        },
        None => None,
    }
}

/// Jellyfin `RunTimeTicks` → `1h 05m` / `42m`, as the Home tiles show it.
pub fn format_duration(ticks: Option<i64>) -> (label: Option<String>)
    ensures
        label.deep_view() == duration_text(ticks),
{
    let known: i64 = match ticks {
        Some(known) => known,
        None => {
            return None;
        },
    };
    if known <= 0 {
        return None;
    }
    let minutes: u64 = (known / TICKS_PER_SECOND) as u64 / 60;
    if minutes >= 60 {
        Some(
            concat4(
                decimal_text(minutes / 60).as_str(),
                "h ",
                two_digit_text(minutes % 60).as_str(),
                "m",
            ),
        )
    } else {
        Some(concat2(decimal_text(minutes).as_str(), "m"))
    }
}

/// Jellyfin `RunTimeTicks` (100 ns units) → a span of time, if positive.
pub fn ticks_to_duration(ticks: i64) -> (span: Option<Duration>)
    ensures
        ticks <= 0 <==> span is None,
        span matches Some(known) ==> known.total_nanos() == ticks * 100 && known.nanos
            < 1_000_000_000,
{
    if ticks <= 0 {
        return None;
    }
    let secs: u64 = (ticks / TICKS_PER_SECOND) as u64;
    let nanos: u32 = (ticks % TICKS_PER_SECOND) as u32 * 100;
    Some(Duration { secs, nanos })
}

/// The ticks in a span of time, of those that fit.
pub open spec fn span_ticks(span: Duration) -> int {
    span.total_nanos() as int / 100
}

/// Reading ticks off a span that was made from ticks gives them back.
pub proof fn ticks_round_trip(ticks: i64, span: Duration)
    requires
        ticks > 0,
        span.total_nanos() == ticks * 100,
    ensures
        span_ticks(span) == ticks,
{
}

} // verus!
