//! The pickers: what is highlighted is what is chosen.

use vstd::prelude::*;
use vstd::string::*;

use crate::sequences;
use crate::ui::app::pickers;
use crate::ui::app::state::AppModel;
use crate::ui::app::types::{
    IntentModel, LibraryPickerModel, MediaKind, PlaylistPickerModel, TrackEntryModel,
    VideoTrackKind, VideoTrackPickerModel, VideoTrackSelectionModel,
};
use crate::ui::keymap::KeyCode;

verus! {

// ---------------------------------------------------------------------------
// Visible libraries

/// The picker opens empty and asks the server for every library.
pub proof fn the_library_picker_asks_for_the_libraries(app: AppModel)
    ensures
        ({
            let after = app.library_picker_opened();
            &&& after.library_picker matches Some(picker)
            &&& picker.loading
            &&& picker.entries.len() == 0
            &&& after.pending == app.pending.push(IntentModel::LoadAllLibraryMeta)
            &&& after == (AppModel {
                library_picker: after.library_picker,
                pending: after.pending,
                ..app
            })
        }),
{
}

/// The libraries that come in are all listed, from the first on, where the picker is
/// still open.
pub proof fn listed_libraries_reach_the_picker(
    app: AppModel,
    entries: Seq<(Seq<char>, Seq<char>, bool)>,
)
    ensures
        app.library_picker is None ==> app.library_entries_arrived(entries) == app,
        app.library_picker is Some ==> {
            let after = app.library_entries_arrived(entries);
            &&& after.library_picker matches Some(picker)
            &&& picker.entries == entries
            &&& picker.selected == 0
            &&& !picker.loading
            &&& after == (AppModel { library_picker: after.library_picker, ..app })
        },
{
}

/// Space flips the mark of the highlighted library and of no other.
pub proof fn space_flips_the_highlighted_library(app: AppModel)
    requires
        app.library_picker is Some,
        !app.library_picker->0.loading,
        app.library_picker->0.selected < app.library_picker->0.entries.len(),
    ensures
        ({
            let before = app.library_picker->0;
            let after = app.library_picker_key(KeyCode::Char(' '));
            &&& after.library_picker matches Some(picker)
            &&& picker.selected == before.selected
            &&& !picker.loading
            &&& picker.entries.len() == before.entries.len()
            &&& forall|i: int|
                0 <= i < before.entries.len() ==> {
                    &&& (#[trigger] picker.entries[i]).0 == before.entries[i].0
                    &&& picker.entries[i].1 == before.entries[i].1
                    &&& picker.entries[i].2 == if i == before.selected {
                        !before.entries[i].2
                    } else {
                        before.entries[i].2
                    }
                }
            &&& after == (AppModel { library_picker: after.library_picker, ..app })
        }),
{
}

/// Up and Down move the highlight by one library and stop at the ends; no mark changes.
pub proof fn the_library_highlight_moves_by_one(app: AppModel)
    requires
        app.library_picker is Some,
        !app.library_picker->0.loading,
        app.library_picker->0.selected < app.library_picker->0.entries.len() <= usize::MAX,
    ensures
        ({
            let before = app.library_picker->0;
            let down = app.library_picker_key(KeyCode::Down).library_picker->0;
            let up = app.library_picker_key(KeyCode::Up).library_picker->0;
            &&& app.library_picker_key(KeyCode::Down).library_picker is Some
            &&& app.library_picker_key(KeyCode::Up).library_picker is Some
            &&& before.selected + 1 < before.entries.len() ==> down.selected == before.selected + 1
            &&& before.selected + 1 == before.entries.len() ==> down.selected == before.selected
            &&& before.selected > 0 ==> up.selected == before.selected - 1
            &&& before.selected == 0 ==> up.selected == 0
            &&& down == (LibraryPickerModel { selected: down.selected, ..before })
            &&& up == (LibraryPickerModel { selected: up.selected, ..before })
        }),
{
}

/// What is saved is exactly what is marked, in the listed order.
pub proof fn marked_libraries_are_saved(
    entries: Seq<(Seq<char>, Seq<char>, bool)>,
    next: (Seq<char>, Seq<char>, bool),
)
    ensures
        pickers::visible_ids(Seq::empty()).len() == 0,
        next.2 ==> pickers::visible_ids(entries.push(next)) == pickers::visible_ids(entries).push(
            next.0,
        ),
        !next.2 ==> pickers::visible_ids(entries.push(next)) == pickers::visible_ids(entries),
{
    sequences::lemma_filter_empty(pickers::marked_visible());
    sequences::lemma_filter_push(entries, next, pickers::marked_visible());
    if next.2 {
        assert(pickers::visible_ids(entries.push(next)) =~= pickers::visible_ids(entries).push(
            next.0,
        ));
    }
}

/// Enter closes the picker and saves the marked libraries; Escape closes it and saves
/// nothing.
pub proof fn enter_saves_and_escape_does_not(app: AppModel)
    requires
        app.library_picker is Some,
        !app.library_picker->0.loading,
        app.library_picker->0.entries.len() > 0,
    ensures
        app.library_picker_key(KeyCode::Enter).library_picker is None,
        app.library_picker_key(KeyCode::Enter).pending == app.pending.push(
            IntentModel::SaveVisibleLibraries(
                pickers::visible_ids(app.library_picker->0.entries),
            ),
        ),
        app.library_picker_key(KeyCode::Esc) == (AppModel { library_picker: None, ..app }),
{
}

// ---------------------------------------------------------------------------
// Playlists

/// The picker opens for the focused item and asks for the playlists.
pub proof fn the_playlist_picker_is_for_the_focused_item(app: AppModel)
    ensures
        app.current_item() is None ==> app.playlist_picker_opened() == app,
        app.current_item() matches Some(item) ==> {
            let after = app.playlist_picker_opened();
            &&& after.playlist_picker matches Some(picker)
            &&& picker.target_item_id == item.id
            &&& picker.target_item_name == item.name
            &&& picker.entries is None
            &&& after.pending == app.pending.push(
                IntentModel::LoadPlaylists { target_item_id: item.id },
            )
        },
{
}

/// The playlists that come in are all listed, for the item the picker was opened for.
pub proof fn listed_playlists_reach_the_picker(app: AppModel, entries: Seq<(Seq<char>, Seq<char>)>)
    ensures
        app.playlist_picker is None ==> app.playlist_entries_arrived(entries) == app,
        app.playlist_picker matches Some(before) ==> {
            let after = app.playlist_entries_arrived(entries);
            &&& after.playlist_picker matches Some(picker)
            &&& picker.entries == Some(entries)
            &&& picker.selected == 0
            &&& picker.target_item_id == before.target_item_id
            &&& picker.target_item_name == before.target_item_name
        },
{
}

/// Enter adds the item the picker was opened for to the highlighted playlist.
pub proof fn the_item_goes_to_the_highlighted_playlist(app: AppModel)
    requires
        app.playlist_picker is Some,
        app.playlist_picker->0.entries is Some,
        app.playlist_picker->0.selected < app.playlist_picker->0.entries->0.len(),
    ensures
        ({
            let picker = app.playlist_picker->0;
            let playlist = picker.entries->0[picker.selected as int];
            let after = app.playlist_picker_key(KeyCode::Enter);
            &&& after.playlist_picker is None
            &&& after.pending == app.pending.push(
                IntentModel::AddToPlaylist {
                    playlist_id: playlist.0,
                    item_id: picker.target_item_id,
                },
            )
            &&& after == (AppModel {
                playlist_picker: None,
                pending: after.pending,
                status_message: after.status_message,
                ..app
            })
            &&& app.playlist_picker_key(KeyCode::Esc) == (AppModel { playlist_picker: None, ..app })
        }),
{
}

/// Up and Down move the highlight by one playlist and stop at the ends.
pub proof fn the_playlist_highlight_moves_by_one(app: AppModel)
    requires
        app.playlist_picker is Some,
        app.playlist_picker->0.entries is Some,
        app.playlist_picker->0.selected < app.playlist_picker->0.entries->0.len() <= usize::MAX,
    ensures
        ({
            let before = app.playlist_picker->0;
            let len = before.entries->0.len();
            let down = app.playlist_picker_key(KeyCode::Down).playlist_picker->0;
            let up = app.playlist_picker_key(KeyCode::Up).playlist_picker->0;
            &&& app.playlist_picker_key(KeyCode::Down).playlist_picker is Some
            &&& app.playlist_picker_key(KeyCode::Up).playlist_picker is Some
            &&& before.selected + 1 < len ==> down.selected == before.selected + 1
            &&& before.selected + 1 == len ==> down.selected == before.selected
            &&& before.selected > 0 ==> up.selected == before.selected - 1
            &&& before.selected == 0 ==> up.selected == 0
            &&& down == (PlaylistPickerModel { selected: down.selected, ..before })
            &&& up == (PlaylistPickerModel { selected: up.selected, ..before })
        }),
{
}

// ---------------------------------------------------------------------------
// Tracks

/// The picker opens for the focused video alone, and asks for its tracks of that kind.
pub proof fn the_track_picker_is_for_the_focused_video(app: AppModel, kind: VideoTrackKind)
    ensures
        app.current_item() is None ==> app.track_picker_opened(kind) == app,
        app.current_item() matches Some(item) ==> {
            let after = app.track_picker_opened(kind);
            &&& item.media() != MediaKind::Video ==> after == app
            &&& item.media() == MediaKind::Video ==> {
                &&& after.video_track_picker matches Some(picker)
                &&& picker.item_id == item.id
                &&& picker.item_name == item.name
                &&& picker.kind == kind
                &&& picker.entries is None
                &&& after.pending == app.pending.push(
                    IntentModel::LoadVideoTracks { item_id: item.id, kind },
                )
            }
        },
{
}

/// The tracks that come in are all listed, for the video and the kind the picker was
/// opened for.
pub proof fn listed_tracks_reach_the_picker(app: AppModel, entries: Seq<TrackEntryModel>)
    ensures
        app.video_track_picker is None ==> app.track_entries_arrived(entries) == app,
        app.video_track_picker matches Some(before) ==> {
            let after = app.track_entries_arrived(entries);
            &&& after.video_track_picker matches Some(picker)
            &&& picker.entries == Some(entries)
            &&& picker.selected == 0
            &&& picker.item_id == before.item_id
            &&& picker.item_name == before.item_name
            &&& picker.kind == before.kind
        },
{
}

/// Enter picks the highlighted track for the video: only the choice of that kind, and of
/// that video, changes.
pub proof fn the_highlighted_track_is_picked(app: AppModel)
    requires
        app.video_track_picker is Some,
        app.video_track_picker->0.entries is Some,
        app.video_track_picker->0.selected < app.video_track_picker->0.entries->0.len(),
    ensures
        ({
            let picker = app.video_track_picker->0;
            let entry = picker.entries->0[picker.selected as int];
            let before = app.selection_for(picker.item_id);
            let after = app.track_picker_key(KeyCode::Enter);
            let now = after.video_track_selections[picker.item_id];
            &&& after.video_track_picker is None
            &&& after.video_track_selections.dom().contains(picker.item_id)
            &&& picker.kind == VideoTrackKind::Audio ==> now == (VideoTrackSelectionModel {
                audio: entry.choice,
                ..before
            })
            &&& picker.kind == VideoTrackKind::Subtitle ==> now == (VideoTrackSelectionModel {
                subtitle: entry.choice,
                ..before
            })
            &&& after.video_track_selections.remove(picker.item_id)
                == app.video_track_selections.remove(picker.item_id)
            &&& after.pending == app.pending
            &&& app.track_picker_key(KeyCode::Esc) == (AppModel { video_track_picker: None, ..app })
        }),
{
    let picker = app.video_track_picker->0;
    let after = app.track_picker_key(KeyCode::Enter);
    assert(after.video_track_selections.remove(picker.item_id)
        =~= app.video_track_selections.remove(picker.item_id));
}

/// Up and Down move the highlight by one track and stop at the ends.
pub proof fn the_track_highlight_moves_by_one(app: AppModel)
    requires
        app.video_track_picker is Some,
        app.video_track_picker->0.entries is Some,
        app.video_track_picker->0.selected < app.video_track_picker->0.entries->0.len()
            <= usize::MAX,
    ensures
        ({
            let before = app.video_track_picker->0;
            let len = before.entries->0.len();
            let down = app.track_picker_key(KeyCode::Down).video_track_picker->0;
            let up = app.track_picker_key(KeyCode::Up).video_track_picker->0;
            &&& app.track_picker_key(KeyCode::Down).video_track_picker is Some
            &&& app.track_picker_key(KeyCode::Up).video_track_picker is Some
            &&& before.selected + 1 < len ==> down.selected == before.selected + 1
            &&& before.selected + 1 == len ==> down.selected == before.selected
            &&& before.selected > 0 ==> up.selected == before.selected - 1
            &&& before.selected == 0 ==> up.selected == 0
            &&& down == (VideoTrackPickerModel { selected: down.selected, ..before })
            &&& up == (VideoTrackPickerModel { selected: up.selected, ..before })
        }),
{
}

/// While a picker is still being filled only Escape does anything, and an empty one is
/// closed by Enter too.
pub proof fn unfilled_pickers_only_close(app: AppModel, code: KeyCode)
    ensures
        app.library_picker is Some && app.library_picker->0.loading && code != KeyCode::Esc
            ==> app.library_picker_key(code) == app,
        app.library_picker is Some ==> app.library_picker_key(KeyCode::Esc) == (AppModel {
            library_picker: None,
            ..app
        }),
        app.playlist_picker is Some && app.playlist_picker->0.entries is None && code
            != KeyCode::Esc ==> app.playlist_picker_key(code) == app,
        app.playlist_picker is Some ==> app.playlist_picker_key(KeyCode::Esc) == (AppModel {
            playlist_picker: None,
            ..app
        }),
        app.video_track_picker is Some && app.video_track_picker->0.entries is None && code
            != KeyCode::Esc ==> app.track_picker_key(code) == app,
        app.video_track_picker is Some ==> app.track_picker_key(KeyCode::Esc) == (AppModel {
            video_track_picker: None,
            ..app
        }),
        app.library_picker is Some && !app.library_picker->0.loading
            && app.library_picker->0.entries.len() == 0 ==> app.library_picker_key(KeyCode::Enter)
            == (AppModel { library_picker: None, ..app }),
        app.playlist_picker is Some && app.playlist_picker->0.entries is Some
            && app.playlist_picker->0.entries->0.len() == 0 ==> app.playlist_picker_key(
            KeyCode::Enter,
        ) == (AppModel { playlist_picker: None, ..app }),
        app.video_track_picker is Some && app.video_track_picker->0.entries is Some
            && app.video_track_picker->0.entries->0.len() == 0 ==> app.track_picker_key(
            KeyCode::Enter,
        ) == (AppModel { video_track_picker: None, ..app }),
{
}

// ---------------------------------------------------------------------------
// Themes

/// The picker opens on the active theme, and on the first where the active one is not
/// among them.
pub proof fn the_theme_picker_opens_on_the_active_theme(app: AppModel)
    requires
        app.available_themes.len() <= usize::MAX,
    ensures
        app.available_themes.len() == 0 ==> app.theme_picker_opened() == app,
        app.available_themes.len() > 0 ==> {
            let after = app.theme_picker_opened();
            &&& after.theme_picker matches Some(row)
            &&& row < app.available_themes.len()
            &&& app.available_themes.contains(app.theme) ==> app.available_themes[row as int]
                == app.theme
            &&& !app.available_themes.contains(app.theme) ==> row == 0
            &&& after == (AppModel { theme_picker: after.theme_picker, ..app })
        },
{
    let p = pickers::is_named(app.theme);
    sequences::lemma_first_index(app.available_themes, p);
    if app.available_themes.contains(app.theme) {
        let i = choose|i: int|
            0 <= i < app.available_themes.len() && app.available_themes[i] == app.theme;
        assert(p(app.available_themes[i]));
    }
}

/// Enter asks for the highlighted theme; Escape keeps the active one; Up and Down move by
/// one and stop at the ends.
pub proof fn the_highlighted_theme_is_chosen(app: AppModel, row: usize)
    requires
        app.theme_picker == Some(row),
        row < app.available_themes.len() <= usize::MAX,
    ensures
        app.theme_key(KeyCode::Enter).theme_picker is None,
        app.theme_key(KeyCode::Enter).pending == app.pending.push(
            IntentModel::SetTheme(app.available_themes[row as int]),
        ),
        app.theme_key(KeyCode::Esc) == (AppModel { theme_picker: None, ..app }),
        app.theme_key(KeyCode::Down) == (AppModel {
            theme_picker: app.theme_key(KeyCode::Down).theme_picker,
            ..app
        }),
        app.theme_key(KeyCode::Up) == (AppModel {
            theme_picker: app.theme_key(KeyCode::Up).theme_picker,
            ..app
        }),
        row + 1 < app.available_themes.len() ==> app.theme_key(KeyCode::Down).theme_picker == Some(
            (row + 1) as usize,
        ),
        row + 1 == app.available_themes.len() ==> app.theme_key(KeyCode::Down).theme_picker == Some(
            row,
        ),
        row > 0 ==> app.theme_key(KeyCode::Up).theme_picker == Some((row - 1) as usize),
        row == 0 ==> app.theme_key(KeyCode::Up).theme_picker == Some(0usize),
{
}

} // verus!
