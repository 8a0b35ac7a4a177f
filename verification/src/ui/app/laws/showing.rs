//! What the menus, pickers and labels read.

use vstd::prelude::*;
use vstd::string::*;

use crate::config::EqPreset;
use crate::text;
use crate::ui::app::labels;
use crate::ui::app::state::AppModel;
use crate::ui::app::types::{
    LibraryPickerModel, MediaKind, PlaylistPickerModel, PopupMenu, RepeatMode, SleepTimer,
    VideoTrackKind, VideoTrackPickerModel,
};
use crate::video::TrackChoice;

verus! {

// ---------------------------------------------------------------------------
// Pickers

/// The library picker shows one line per library with its mark and its name, and
/// highlights the selected one.
pub proof fn the_library_picker_reads_as_its_entries(picker: LibraryPickerModel)
    ensures
        ({
            let shown = picker.shown();
            &&& picker.loading ==> shown.1 == seq!["Loading…"@] && shown.2 == 0
            &&& !picker.loading && picker.entries.len() == 0 ==> shown.1 == seq![
                "No libraries on server"@,
            ] && shown.2 == 0
            &&& !picker.loading && picker.entries.len() > 0 ==> {
                &&& shown.1.len() == picker.entries.len()
                &&& shown.2 == picker.selected
                &&& forall|i: int|
                    0 <= i < picker.entries.len() ==> #[trigger] shown.1[i] == (
                    if picker.entries[i].2 {
                        "[x] "@
                    } else {
                        "[ ] "@
                    }) + picker.entries[i].1
            }
        }),
{
}

/// The track picker is titled by its kind, shows one line per track, and highlights the
/// selected one.
pub proof fn the_track_picker_reads_as_its_entries(picker: VideoTrackPickerModel)
    ensures
        ({
            let shown = picker.shown();
            &&& picker.kind == VideoTrackKind::Audio ==> shown.0 == "Audio track"@
            &&& picker.kind == VideoTrackKind::Subtitle ==> shown.0 == "Subtitles"@
            &&& picker.entries is None ==> shown.1 == seq!["Loading…"@] && shown.2 == 0
            &&& picker.entries is Some && picker.entries->0.len() == 0 ==> shown.1 == seq![
                "No tracks reported by server"@,
            ] && shown.2 == 0
            &&& picker.entries is Some && picker.entries->0.len() > 0 ==> {
                &&& shown.1.len() == picker.entries->0.len()
                &&& shown.2 == picker.selected
                &&& forall|i: int|
                    0 <= i < shown.1.len() ==> #[trigger] shown.1[i] == picker.entries->0[i].label
            }
        }),
{
}

/// The playlist picker shows one line per playlist and highlights the selected one.
pub proof fn the_playlist_picker_reads_as_its_entries(picker: PlaylistPickerModel)
    ensures
        ({
            let shown = picker.shown();
            &&& picker.entries is None ==> shown.1 == seq!["Loading…"@] && shown.2 == 0
            &&& picker.entries is Some && picker.entries->0.len() == 0 ==> shown.1 == seq![
                "No playlists on server"@,
            ] && shown.2 == 0
            &&& picker.entries is Some && picker.entries->0.len() > 0 ==> {
                &&& shown.1.len() == picker.entries->0.len()
                &&& shown.2 == picker.selected
                &&& forall|i: int|
                    0 <= i < shown.1.len() ==> #[trigger] shown.1[i] == picker.entries->0[i].1
            }
        }),
{
}

/// An open menu shows the labels of its own entries, in order, and highlights its row.
pub proof fn a_menu_shows_its_own_entries(app: AppModel)
    ensures
        app.popup is None ==> app.popup_shown() is None,
        app.popup matches Some(PopupMenu::Item(row)) ==> {
            &&& app.popup_shown() matches Some(shown)
            &&& shown.0 == "Actions"@
            &&& shown.2 == row
            &&& shown.1.len() == app.item_menu().len()
            &&& forall|i: int|
                0 <= i < shown.1.len() ==> #[trigger] shown.1[i] == app.item_menu()[i].0
        },
        app.popup matches Some(PopupMenu::Client(row)) ==> {
            &&& app.popup_shown() matches Some(shown)
            &&& shown.0 == "Client settings"@
            &&& shown.2 == row
            &&& shown.1.len() == app.client_menu().len()
            &&& forall|i: int|
                0 <= i < shown.1.len() ==> #[trigger] shown.1[i] == app.client_menu()[i].0
        },
        app.popup matches Some(PopupMenu::SleepTimer(row)) ==> {
            &&& app.popup_shown() matches Some(shown)
            &&& shown.0 == "Sleep timer"@
            &&& shown.2 == row
            &&& shown.1.len() == app.sleep_menu().len()
            &&& forall|i: int|
                0 <= i < shown.1.len() ==> #[trigger] shown.1[i] == app.sleep_menu()[i].0
        },
{
}

// ---------------------------------------------------------------------------
// Labels

/// The time left reads as hours and minutes, minutes and seconds, or seconds, and the
/// numbers add up to it.
pub proof fn the_time_left_adds_up(secs: u64, h: nat, m: nat, s: nat)
    requires
        secs == h * 3600 + m * 60 + s,
        m < 60,
        s < 60,
    ensures
        h > 0 ==> labels::remaining_text(secs) == text::decimal(h) + "h "@ + text::two_digits(m)
            + "m"@,
        h == 0 && m > 0 ==> labels::remaining_text(secs) == text::decimal(m) + "m "@
            + text::two_digits(s) + "s"@,
        h == 0 && m == 0 ==> labels::remaining_text(secs) == text::decimal(s) + "s"@,
{
    assert(secs / 3600 == h && (secs % 3600) / 60 == m && secs % 60 == s) by (nonlinear_arith)
        requires
            secs == h * 3600 + m * 60 + s,
            m < 60,
            s < 60,
    ;
}

/// The labels that code asks for are the ones the laws speak of.
pub proof fn labels_read_as_they_should(
    choice: TrackChoice,
    choice_label: String,
    preset: EqPreset,
    preset_label: &'static str,
    on: bool,
    switch: &'static str,
    mode: RepeatMode,
    mode_label: &'static str,
)
    requires
        call_ensures(labels::track_choice_label, (choice,), choice_label),
        call_ensures(labels::eq_preset_label, (preset,), preset_label),
        call_ensures(labels::on_off, (on,), switch),
        call_ensures(RepeatMode::label, (mode,), mode_label),
    ensures
        choice is Auto ==> choice_label@ == "Auto"@,
        choice is Off ==> choice_label@ == "Off"@,
        choice matches TrackChoice::Pick(n) ==> choice_label@ == "#"@ + text::signed_decimal(
            n as int,
        ),
        preset == EqPreset::Flat ==> preset_label@ == "Flat"@,
        preset == EqPreset::BassBoost ==> preset_label@ == "Bass boost"@,
        preset == EqPreset::Vocal ==> preset_label@ == "Vocal"@,
        preset == EqPreset::TrebleBoost ==> preset_label@ == "Treble boost"@,
        preset == EqPreset::Custom ==> preset_label@ == "Custom"@,
        on ==> switch@ == "on"@,
        !on ==> switch@ == "off"@,
        mode == RepeatMode::Off ==> mode_label@ == "Off"@,
        mode == RepeatMode::All ==> mode_label@ == "All"@,
        mode == RepeatMode::One ==> mode_label@ == "One"@,
{
}

/// The sleep choices are named by their minutes.
pub proof fn sleep_choices_are_named_by_their_minutes(choice: SleepTimer, label: &'static str)
    requires
        call_ensures(SleepTimer::label, (choice,), label),
    ensures
        choice == SleepTimer::Off ==> label@ == "Off"@,
        choice == SleepTimer::In5 ==> label@ == "5 min"@,
        choice == SleepTimer::In10 ==> label@ == "10 min"@,
        choice == SleepTimer::In15 ==> label@ == "15 min"@,
        choice == SleepTimer::In20 ==> label@ == "20 min"@,
        choice == SleepTimer::In30 ==> label@ == "30 min"@,
        choice == SleepTimer::In45 ==> label@ == "45 min"@,
{
}

/// Kinds that play as video or audio are told apart by name, and nothing else plays.
pub proof fn kinds_are_told_apart_by_name(kind: Option<&str>, media: MediaKind)
    requires
        call_ensures(MediaKind::classify, (kind,), media),
    ensures
        ({
            let named = |name: Seq<char>| kind is Some && kind->0@ == name;
            let video = named("Movie"@) || named("Episode"@) || named("Video"@) || named(
                "MusicVideo"@,
            ) || named("Trailer"@);
            let audio = named("Audio"@) || named("AudioBook"@);
            &&& video ==> media == MediaKind::Video
            &&& audio && !video ==> media == MediaKind::Audio
            &&& !video && !audio ==> media == MediaKind::Other
        }),
{
    assert(kind.deep_view() == match kind {
        Some(name) => Some(name@),
        None => None,
    });
}

// ---------------------------------------------------------------------------
// The path

/// The path names the opened folders from the outermost to the innermost: one more folder
/// is one more name behind an arrow.
pub proof fn the_path_names_the_open_folders(app: AppModel, path: Seq<char>)
    requires
        app.stack.len() > 0,
        path == (AppModel { stack: app.stack.drop_last(), ..app }).path(),
    ensures
        app.stack.len() == 1 ==> app.path() == app.stack[0].title,
        app.stack.len() > 1 ==> app.path() == path + " › "@ + app.stack.last().title,
{
    let titles = app.stack.map_values(|level: crate::ui::app::types::LevelModel| level.title);
    let outer = app.stack.drop_last().map_values(
        |level: crate::ui::app::types::LevelModel| level.title,
    );
    assert(titles =~= outer.push(app.stack.last().title));
    text::lemma_joined_push(outer, app.stack.last().title, " › "@);
}

} // verus!
