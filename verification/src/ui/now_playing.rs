//! The now-playing bar: a fixed-height strip above the status bar. It's always
//! present (an idle placeholder when nothing plays) so the rest of the UI never
//! shifts when playback starts or stops. While playing it shows the cover, the
//! title / artist / album, a progress gauge, the times, an audio format summary, and
//! a play/pause icon.

use vstd::prelude::*;

use super::app::types::{MediaKind, NowPlaying, NowPlayingModel};
use super::durations;
use super::durations::format_time;
use super::lines;
use super::lines::{span, Span, SpanModel, Tone};
use crate::sequences::push_deep;
use crate::text;
use crate::text::{concat2, concat3, concat4, decimal_text};

verus! {

impl NowPlayingModel {
    /// The play/pause icon.
    pub open spec fn marker(self) -> Seq<char> {
        if self.kind != MediaKind::Video && self.paused {
            "⏸"@
        } else {
            "▶"@
        }
    }

    /// Icon and title.
    pub open spec fn title_spans(self) -> Seq<SpanModel> {
        seq![
            lines::styled(Tone::FocusedBorder, self.marker() + "   "@),
            lines::styled(Tone::PlayingTitle, self.title),
        ]
    }

    /// `"Artist · Album"`, or whichever side is there.
    pub open spec fn artist_album(self) -> Option<Seq<char>> {
        let artist = self.artist matches Some(a) && a.len() > 0;
        let album = self.album matches Some(b) && b.len() > 0;
        if artist && album {
            Some(self.artist->0 + " · "@ + self.album->0)
        } else if artist {
            self.artist
        } else if album {
            self.album
        } else {
            None
        }
    }

    /// The second line.
    pub open spec fn second_line(self) -> Option<Seq<char>> {
        if self.kind == MediaKind::Audio && self.artist_album() is Some {
            self.artist_album()
        } else {
            self.subtitle
        }
    }

    /// Elapsed and total time.
    pub open spec fn times(self) -> Seq<char> {
        let elapsed = durations::clock_text(self.position.secs as nat);
        match self.duration {
            Some(total) => if total.total_nanos() > 0 {
                elapsed + " / "@ + durations::clock_text(total.secs as nat)
            } else {
                elapsed + " / --:--"@
            },
            None => elapsed + " / --:--"@,
        }
    }

    /// The audio format.
    pub open spec fn summary(self) -> Seq<char> {
        match self.format_summary {
            Some(known) => known,
            None => ""@,
        }
    }

    /// Playing or paused, and the volume.
    pub open spec fn state(self) -> Seq<char> {
        if self.kind == MediaKind::Video {
            "playing in mpv"@
        } else {
            let state = if self.paused {
                "paused"@
            } else {
                "playing"@
            };
            match self.volume {
                Some(v) => state + " · vol "@ + text::decimal(v as nat) + "%"@,
                None => state,
            }
        }
    }
}

/// The play/pause icon and the title.
pub fn title_line(np: &NowPlaying) -> (spans: Vec<Span>)
    ensures
        spans.deep_view() == np@.title_spans(),
{
    let marker = if np.kind != MediaKind::Video && np.paused {
        "⏸"
    } else {
        "▶"
    };
    let mut spans: Vec<Span> = Vec::new();
    push_deep(&mut spans, span(Tone::FocusedBorder, concat2(marker, "   ").as_str()));
    push_deep(&mut spans, span(Tone::PlayingTitle, np.title.as_str()));
    assert(spans.deep_view() =~= np@.title_spans());
    spans
}

/// `m:ss / m:ss` when the duration is known; `m:ss / --:--` otherwise.
/// The seek bar carries the percent label, so it isn't duplicated here.
pub fn format_times(np: &NowPlaying) -> (times: String)
    ensures
        times@ == np@.times(),
{
    let elapsed = format_time(np.position);
    if let Some(total) = np.duration {
        if total.as_nanos() > 0 {
            return concat3(elapsed.as_str(), " / ", format_time(total).as_str());
        }
    }
    concat2(elapsed.as_str(), " / --:--")
}

fn non_empty(value: &Option<String>) -> (full: bool)
    ensures
        full == (value.deep_view() matches Some(words) && words.len() > 0),
{
    match value {
        Some(words) => !words.as_str().is_empty(),
        None => false,
    }
}

/// `"Artist · Album"`, falling back to whichever side is present (or `None`).
pub fn artist_album_text(np: &NowPlaying) -> (words: Option<String>)
    ensures
        words.deep_view() == np@.artist_album(),
{
    if non_empty(&np.artist) {
        if let Some(artist) = &np.artist {
            if non_empty(&np.album) {
                if let Some(album) = &np.album {
                    return Some(concat3(artist.as_str(), " · ", album.as_str()));
                }
            }
        }
        return np.artist.clone();
    }
    if non_empty(&np.album) {
        return np.album.clone();
    }
    None
}

/// The second line: artist and album of a track, the subtitle of anything else and of
/// a track that has neither.
pub fn second_line(np: &NowPlaying) -> (words: Option<String>)
    ensures
        words.deep_view() == np@.second_line(),
{
    if np.kind == MediaKind::Audio {
        if let Some(words) = artist_album_text(np) {
            return Some(words);
        }
    }
    np.subtitle.clone()
}

/// The audio format.
pub fn format_summary_text(np: &NowPlaying) -> (summary: String)
    ensures
        summary@ == np@.summary(),
{
    match &np.format_summary {
        Some(known) => known.clone(),
        None => "".to_owned(),
    }
}

/// Playing or paused, and the volume.
pub fn state_text(np: &NowPlaying) -> (state: String)
    ensures
        state@ == np@.state(),
{
    if np.kind == MediaKind::Video {
        return "playing in mpv".to_owned();
    }
    let state = if np.paused {
        "paused"
    } else {
        "playing"
    };
    match np.volume {
        Some(v) => concat4(state, " · vol ", decimal_text(v as u64).as_str(), "%"),
        None => state.to_owned(),
    }
}

/// Columns reserved for the cover: twice the bar's inner height, so that the image
/// stays square in cells about twice as high as wide, but no more than half of the
/// bar.
pub fn cover_width(width: u16, height: u16) -> (columns: u16)
    requires
        height <= u16::MAX / 2,
    ensures
        columns == (if 2 * height < width / 2 {
            2 * height
        } else {
            (width / 2) as int
        }),
{
    let square: u16 = height * 2;
    if square < width / 2 {
        square
    } else {
        width / 2
    }
}

/// What the bar says while nothing plays. The bar itself is always there.
pub fn idle_text(playing: Option<&NowPlaying>) -> (words: Option<&'static str>)
    ensures
        words is Some <==> playing is None,
        words matches Some(shown) ==> shown@ == "Nothing playing"@,
{
    match playing {
        Some(_) => None,
        None => Some("Nothing playing"),
    }
}

} // verus!
