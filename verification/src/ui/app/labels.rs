//! Labels that the menus and the status bar show.

use vstd::prelude::*;
use vstd::string::*;

use super::types::{Item, ItemModel, SleepTimer};
use crate::config::EqPreset;
use crate::text;
use crate::text::{concat2, decimal_text, is_text, signed_decimal_text, two_digit_text};
use crate::video::TrackChoice;

verus! {

/// A number of seconds as `Hh MMm`, `Mm SSs` or `Ss`.
pub open spec fn remaining_text(secs: u64) -> Seq<char> {
    let h = (secs / 3600) as nat;
    let m = ((secs % 3600) / 60) as nat;
    let s = (secs % 60) as nat;
    if h > 0 {
        text::decimal(h) + "h "@ + text::two_digits(m) + "m"@
    } else if m > 0 {
        text::decimal(m) + "m "@ + text::two_digits(s) + "s"@
    } else {
        text::decimal(s) + "s"@
    }
}

/// Render a remaining-seconds count as `Hh Mm` / `Mm Ss` / `Ss`.
pub fn format_remaining(secs: u64) -> (label: String)
    ensures
        label@ == remaining_text(secs),
{
    let h: u64 = secs / 3600;
    let m: u64 = (secs % 3600) / 60;
    let s: u64 = secs % 60;
    if h > 0 {
        let mut label = decimal_text(h);
        label.append("h ");
        label.append(two_digit_text(m).as_str());
        label.append("m");
        label
    } else if m > 0 {
        let mut label = decimal_text(m);
        label.append("m ");
        label.append(two_digit_text(s).as_str());
        label.append("s");
        label
    } else {
        let mut label = decimal_text(s);
        label.append("s");
        label
    }
}

/// The sleep-timer entry of the item menu.
pub open spec fn sleep_menu_text(state: SleepTimer, remaining: Option<u64>) -> Seq<char> {
    match state {
        SleepTimer::Off => "Sleep timer: Off"@,
        SleepTimer::EndOfTrack => "Sleep timer: End of track"@,
        other => match remaining {
            Some(secs) => "Sleep timer: "@ + other.text() + " ("@ + remaining_text(secs)
                + " left)"@,
            None => "Sleep timer: "@ + other.text(),
        },
    }
}

/// Label for the sleep-timer entry in the item menu: shows remaining time when
/// armed, "End of track" with the EOT mode, or just "Off".
pub fn sleep_timer_menu_label(state: SleepTimer, remaining: Option<u64>) -> (label: String)
    ensures
        label@ == sleep_menu_text(state, remaining),
{
    match state {
        SleepTimer::Off => "Sleep timer: Off".to_owned(),
        SleepTimer::EndOfTrack => "Sleep timer: End of track".to_owned(),
        other => {
            let mut label = "Sleep timer: ".to_owned();
            label.append(other.label());
            if let Some(secs) = remaining {
                label.append(" (");
                label.append(format_remaining(secs).as_str());
                label.append(" left)");
            }
            label
        },
    }
}

/// "on" or "off".
pub open spec fn on_off_text(b: bool) -> Seq<char> {
    if b {
        "on"@
    } else {
        "off"@
    }
}

/// "on" or "off".
pub fn on_off(b: bool) -> (label: &'static str)
    ensures
        label@ == on_off_text(b),
{
    if b {
        "on"
    } else {
        "off"
    }
}

/// An EQ preset's name.
pub open spec fn eq_text(preset: EqPreset) -> Seq<char> {
    match preset {
        EqPreset::Flat => "Flat"@,
        EqPreset::BassBoost => "Bass boost"@,
        EqPreset::Vocal => "Vocal"@,
        EqPreset::TrebleBoost => "Treble boost"@,
        EqPreset::Custom => "Custom"@,
    }
}

/// An EQ preset's name.
pub fn eq_preset_label(preset: EqPreset) -> (label: &'static str)
    ensures
        label@ == eq_text(preset),
{
    match preset {
        EqPreset::Flat => "Flat",
        EqPreset::BassBoost => "Bass boost",
        EqPreset::Vocal => "Vocal",
        EqPreset::TrebleBoost => "Treble boost",
        EqPreset::Custom => "Custom",
    }
}

/// The preset after the given one. A custom curve is left for good.
pub open spec fn eq_after(preset: EqPreset) -> EqPreset {
    match preset {
        EqPreset::Flat => EqPreset::BassBoost,
        EqPreset::BassBoost => EqPreset::Vocal,
        EqPreset::Vocal => EqPreset::TrebleBoost,
        EqPreset::TrebleBoost => EqPreset::Flat,
        EqPreset::Custom => EqPreset::Flat,
    }
}

/// The preset after the given one.
pub fn cycle_eq_preset(preset: EqPreset) -> (next: EqPreset)
    ensures
        next == eq_after(preset),
{
    match preset {
        EqPreset::Flat => EqPreset::BassBoost,
        EqPreset::BassBoost => EqPreset::Vocal,
        EqPreset::Vocal => EqPreset::TrebleBoost,
        EqPreset::TrebleBoost => EqPreset::Flat,
        EqPreset::Custom => EqPreset::Flat,
    }
}

/// Cycling the EQ walks the four built-in presets round and round; a custom curve
/// is never reached by cycling.
pub proof fn eq_cycle_has_period_four(preset: EqPreset)
    ensures
        preset != EqPreset::Custom ==> eq_after(eq_after(eq_after(eq_after(preset)))) == preset,
        eq_after(preset) != EqPreset::Custom,
{
}

/// A track choice in the item menu's summary line.
pub open spec fn choice_text(choice: TrackChoice) -> Seq<char> {
    match choice {
        TrackChoice::Auto => "Auto"@,
        TrackChoice::Off => "Off"@,
        TrackChoice::Pick(n) => "#"@ + text::signed_decimal(n as int),
    }
}

/// Short label for a `TrackChoice`, used by the item-menu summary line.
pub fn track_choice_label(choice: TrackChoice) -> (label: String)
    ensures
        label@ == choice_text(choice),
{
    match choice {
        TrackChoice::Auto => "Auto".to_owned(),
        TrackChoice::Off => "Off".to_owned(),
        TrackChoice::Pick(n) => concat2("#", signed_decimal_text(n as i64).as_str()),
    }
}

/// A name, or a stand-in where there is none.
pub open spec fn name_or(name: Option<Seq<char>>, fallback: Seq<char>) -> Seq<char> {
    match name {
        Some(given) => if given.len() > 0 {
            given
        } else {
            fallback
        },
        None => fallback,
    }
}

/// A name, or a stand-in where there is none.
pub(crate) fn name_or_else<'a>(name: &'a Option<String>, fallback: &'a str) -> (chosen: &'a str)
    ensures
        chosen@ == name_or(name.deep_view(), fallback@),
{
    match name {
        Some(given) => if given.as_str().is_empty() {
            fallback
        } else {
            given.as_str()
        },
        None => fallback,
    }
}

/// The "Go to artist" entry for an item.
pub open spec fn artist_entry(item: ItemModel) -> Option<Seq<char>> {
    if item.kind == Some("MusicArtist"@) {
        None
    } else {
        match item.primary_artist_id {
            Some(id) => if id.len() == 0 {
                None
            } else {
                Some("Go to artist: "@ + name_or(item.primary_artist_name, "artist"@))
            },
            None => None,
        }
    }
}

/// Menu label for the "Go to artist" action — `None` when the item has no
/// known primary artist id. Shown on tracks and albums (`MusicAlbum`); a
/// `MusicArtist` is itself the artist, so the action is hidden.
pub fn go_to_artist_label(item: &Item) -> (label: Option<String>)
    ensures
        label.deep_view() == artist_entry(item@),
{
    if is_text(text::as_slice(&item.kind), "MusicArtist") {
        return None;
    }
    match &item.primary_artist_id {
        Some(id) => if id.as_str().is_empty() {
            None
        } else {
            let name = name_or_else(&item.primary_artist_name, "artist");
            Some(concat2("Go to artist: ", name))
        },
        None => None,
    }
}

/// The "Go to album" entry for an item.
pub open spec fn album_entry(item: ItemModel) -> Option<Seq<char>> {
    match item.album_id {
        Some(id) => if id.len() == 0 {
            None
        } else {
            Some("Go to album: "@ + name_or(item.album_name, "album"@))
        },
        None => None,
    }
}

/// Menu label for the "Go to album" action — `None` unless the item has a
/// parent album id (i.e. an `Audio` track).
pub fn go_to_album_label(item: &Item) -> (label: Option<String>)
    ensures
        label.deep_view() == album_entry(item@),
{
    match &item.album_id {
        Some(id) => if id.as_str().is_empty() {
            None
        } else {
            let name = name_or_else(&item.album_name, "album");
            Some(concat2("Go to album: ", name))
        },
        None => None,
    }
}

/// The level title for a search.
pub open spec fn search_title(scope: Seq<char>, query: Seq<char>) -> Seq<char> {
    if scope.len() == 0 {
        "Search: "@ + query
    } else {
        "Search · "@ + scope + ": "@ + query
    }
}

/// Format the level title for an in-flight or completed search. The scope
/// label (current section name, e.g. "Albums") is included when non-empty so
/// the user can see the search is narrowed; section "All" yields the bare
/// "Search: …" form.
pub fn search_level_title(scope_label: &str, query: &str) -> (title: String)
    ensures
        title@ == search_title(scope_label@, query@),
{
    if scope_label.is_empty() {
        concat2("Search: ", query)
    } else {
        text::concat4("Search · ", scope_label, ": ", query)
    }
}

} // verus!
