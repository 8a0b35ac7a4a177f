//! How times read, and what the now-playing bar says.

use vstd::prelude::*;
use vstd::string::*;

use crate::text;
use crate::time::Duration;
use crate::ui::app::types::{MediaKind, NowPlaying, NowPlayingModel};
use crate::ui::durations;
use crate::ui::now_playing;

verus! {

/// A time reads as hours, minutes and seconds that add up to it, the hours left out where
/// there are none.
pub proof fn clock_times_add_up(secs: u64, label: String, h: nat, m: nat, s: nat)
    requires
        call_ensures(durations::clock, (secs,), label),
        secs == h * 3600 + m * 60 + s,
        m < 60,
        s < 60,
    ensures
        h > 0 ==> label@ == text::decimal(h) + ":"@ + text::two_digits(m) + ":"@
            + text::two_digits(s),
        h == 0 ==> label@ == text::decimal(m) + ":"@ + text::two_digits(s),
{
    assert(secs / 3600 == h && (secs % 3600) / 60 == m && secs % 60 == s) by (nonlinear_arith)
        requires
            secs == h * 3600 + m * 60 + s,
            m < 60,
            s < 60,
    ;
}

/// Track lengths, chapter starts and plain times read alike: ten million ticks are a
/// second, and a broken second is dropped.
pub proof fn ticks_read_as_seconds(
    ticks: i64,
    secs: u64,
    length: Option<String>,
    start: String,
    time: String,
    span: Duration,
)
    requires
        call_ensures(durations::format_track_length, (ticks,), length),
        call_ensures(durations::format_chapter_timestamp, (ticks,), start),
        call_ensures(durations::format_time, (span,), time),
        span.secs == secs,
        0 < ticks,
        secs * 10_000_000 <= ticks < (secs + 1) * 10_000_000,
    ensures
        length.deep_view() == Some(start@),
        start@ == time@,
{
    assert(ticks / 10_000_000 == secs as int) by (nonlinear_arith)
        requires
            0 < ticks,
            secs * 10_000_000 <= ticks,
            ticks < (secs + 1) * 10_000_000,
    ;
}

/// Nothing is said of a length that is not positive, and a chapter there starts at zero.
pub proof fn lengths_are_positive(
    ticks: i64,
    length: Option<String>,
    runtime: Option<String>,
    duration: Option<String>,
    span: Option<Duration>,
    start: String,
    zero: String,
)
    requires
        call_ensures(durations::format_track_length, (ticks,), length),
        call_ensures(durations::format_runtime, (ticks,), runtime),
        call_ensures(durations::format_duration, (Some(ticks),), duration),
        call_ensures(durations::ticks_to_duration, (ticks,), span),
        call_ensures(durations::format_chapter_timestamp, (ticks,), start),
        call_ensures(durations::clock, (0,), zero),
    ensures
        ticks <= 0 <==> length is None,
        ticks <= 0 <==> runtime is None,
        ticks <= 0 <==> duration is None,
        ticks <= 0 <==> span is None,
        ticks <= 0 ==> start@ == zero@,
        span matches Some(known) ==> known.secs * 10_000_000 + known.nanos / 100 == ticks,
{
    assert(length is None <==> length.deep_view() is None);
    assert(runtime is None <==> runtime.deep_view() is None);
    assert(duration is None <==> duration.deep_view() is None);
}

/// A runtime reads as hours and minutes that add up to it; a tile fills the minutes to two
/// digits.
pub proof fn runtimes_add_up(
    ticks: i64,
    runtime: Option<String>,
    duration: Option<String>,
    h: nat,
    m: nat,
)
    requires
        call_ensures(durations::format_runtime, (ticks,), runtime),
        call_ensures(durations::format_duration, (Some(ticks),), duration),
        0 < ticks,
        m < 60,
        (h * 60 + m) * 600_000_000 <= ticks < (h * 60 + m + 1) * 600_000_000,
    ensures
        h > 0 ==> runtime.deep_view() == Some(
            text::decimal(h) + "h "@ + text::decimal(m) + "m"@,
        ),
        h == 0 ==> runtime.deep_view() == Some(text::decimal(m) + "m"@),
        h > 0 ==> duration.deep_view() == Some(
            text::decimal(h) + "h "@ + text::two_digits(m) + "m"@,
        ),
        h == 0 ==> duration.deep_view() == Some(text::decimal(m) + "m"@),
{
    let minutes = (ticks / 10_000_000) / 60;
    assert(minutes == h * 60 + m) by (nonlinear_arith)
        requires
            0 < ticks,
            minutes == (ticks / 10_000_000) / 60,
            (h * 60 + m) * 600_000_000 <= ticks,
            ticks < (h * 60 + m + 1) * 600_000_000,
    ;
    assert((h * 60 + m) / 60 == h && (h * 60 + m) % 60 == m) by (nonlinear_arith)
        requires
            m < 60,
    ;
    assert(durations::tick_secs(ticks) / 60 == h * 60 + m);
}

// ---------------------------------------------------------------------------
// The bar

/// The bar shows the elapsed and the total time, and dashes where the total is unknown.
pub proof fn the_bar_shows_elapsed_and_total(
    np: NowPlaying,
    times: String,
    elapsed: String,
    total: String,
)
    requires
        call_ensures(now_playing::format_times, (&np,), times),
        call_ensures(durations::format_time, (np.position,), elapsed),
        np.duration is Some ==> call_ensures(durations::format_time, (np.duration->0,), total),
    ensures
        np.duration is None ==> times@ == elapsed@ + " / --:--"@,
        np.duration is Some && np.duration->0.secs > 0 ==> times@ == elapsed@ + " / "@ + total@,
{
    assert(np@.duration == np.duration && np@.position == np.position);
}

/// A paused track is shown as paused; a video never is.
pub proof fn the_icon_shows_the_pause(np: NowPlayingModel)
    ensures
        np.kind != MediaKind::Video && np.paused ==> np.marker() == "⏸"@,
        np.kind == MediaKind::Video || !np.paused ==> np.marker() == "▶"@,
        np.title_spans().len() == 2,
        np.title_spans()[0].text == np.marker() + "   "@,
        np.title_spans()[1].text == np.title,
{
}

/// The second line names artist and album as far as they are known, and the subtitle
/// where neither is, or where no track plays.
pub proof fn the_second_line_names_artist_and_album(np: NowPlayingModel)
    ensures
        ({
            let artist = np.artist is Some && np.artist->0.len() > 0;
            let album = np.album is Some && np.album->0.len() > 0;
            let track = np.kind == MediaKind::Audio;
            &&& track && artist && album ==> np.second_line() == Some(
                np.artist->0 + " · "@ + np.album->0,
            )
            &&& track && artist && !album ==> np.second_line() == np.artist
            &&& track && !artist && album ==> np.second_line() == np.album
            &&& !track || (!artist && !album) ==> np.second_line() == np.subtitle
        }),
{
}

/// The bar says whether a track plays and how loud; a video plays in mpv.
pub proof fn the_bar_says_how_loud(np: NowPlaying, state: String)
    requires
        call_ensures(now_playing::state_text, (&np,), state),
    ensures
        np.kind == MediaKind::Video ==> state@ == "playing in mpv"@,
        np.kind != MediaKind::Video && np.volume is None ==> state@ == if np.paused {
            "paused"@
        } else {
            "playing"@
        },
        np.kind != MediaKind::Video && np.volume is Some ==> state@ == (if np.paused {
            "paused"@
        } else {
            "playing"@
        }) + " · vol "@ + text::decimal(np.volume->0 as nat) + "%"@,
{
    assert(np@.kind == np.kind && np@.paused == np.paused && np@.volume == np.volume);
}

/// The format summary is shown as it is known.
pub proof fn the_format_is_shown_as_known(np: NowPlaying, summary: String)
    requires
        call_ensures(now_playing::format_summary_text, (&np,), summary),
    ensures
        np.format_summary matches Some(known) ==> summary@ == known@,
        np.format_summary is None ==> summary@.len() == 0,
{
    reveal_strlit("");
    assert(np@.format_summary == np.format_summary.deep_view());
}

/// The cover is square and never takes more than half of the bar.
pub proof fn the_cover_takes_half_at_most(width: u16, height: u16, columns: u16)
    requires
        call_ensures(now_playing::cover_width, (width, height), columns),
        height <= u16::MAX / 2,
    ensures
        columns * 2 <= width,
        columns <= 2 * height,
        4 * height + 1 < width ==> columns == 2 * height,
        columns < 2 * height ==> columns == width / 2,
{
}

} // verus!
