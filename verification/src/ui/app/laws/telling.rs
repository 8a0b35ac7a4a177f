//! The notes: what the user is told of what was done.

use vstd::prelude::*;
use vstd::string::*;

use crate::time;
use crate::time::Duration;
use crate::ui::app::labels;
use crate::ui::app::state;
use crate::ui::app::state::AppModel;
use crate::ui::app::types::{
    ClientMenuAction, IntentModel, ItemMenuAction, LibraryModel, MediaKind, VideoTrackKind,
};
use crate::ui::browse::BrowseResultModel;
use crate::ui::keymap::KeyCode;

verus! {

/// A note or an error changes nothing but what the user is told.
pub proof fn telling_changes_nothing_else(app: AppModel, message: Seq<char>)
    ensures
        app.noted(message) == (AppModel { status_message: Some(message), ..app }),
        app.failed(message) == (AppModel { error: Some(message), error_copied: false, ..app }),
{
}

/// The note names the item that an entry was chosen for.
pub proof fn notes_name_the_item(app: AppModel, now: Option<Duration>)
    requires
        app.current_item() is Some,
    ensures
        ({
            let item = app.current_item()->0;
            let queued = item.media() == MediaKind::Audio && app.queue.len() > 0;
            &&& app.item_action(ItemMenuAction::InstantMix, now).status_message == Some(
                "Instant mix: "@ + item.name,
            )
            &&& app.item_action(ItemMenuAction::Dislike, now).status_message == Some(
                "Disliked: "@ + item.name,
            )
            &&& queued ==> app.item_action(ItemMenuAction::PlayNext, now).status_message == Some(
                "Play next: "@ + item.name,
            )
            &&& queued ==> app.item_action(ItemMenuAction::AddToQueue, now).status_message == Some(
                "Added to queue: "@ + item.name,
            )
            &&& item.media() != MediaKind::Audio ==> app.item_action(
                ItemMenuAction::PlayNext,
                now,
            ).status_message == Some("Only audio items can be queued."@)
        }),
{
    reveal(AppModel::item_action);
}

/// The note names what is browsed, tuned in to or watched, and says where there is nothing
/// to go by.
pub proof fn notes_name_what_is_browsed(app: AppModel, now: Option<Duration>)
    requires
        app.library_selected < app.libraries.len(),
        app.current_item() is Some,
        app.shown_detail() is Some,
    ensures
        ({
            let detail = app.shown_detail()->0;
            let genre = app.item_action(ItemMenuAction::BrowseByGenre, now);
            let radio = app.item_action(ItemMenuAction::GenreRadio, now);
            let trailer = app.item_action(ItemMenuAction::WatchTrailer, now);
            &&& detail.genres.len() > 0 ==> genre.status_message == Some(
                "Browsing by genre: "@ + detail.genres[0],
            )
            &&& detail.genres.len() > 0 ==> radio.status_message == Some(
                "Genre radio: "@ + detail.genres[0],
            )
            &&& detail.genres.len() == 0 ==> genre.status_message == Some(
                "No genre on this item."@,
            ) && radio.status_message == Some("No genre on this item."@)
            &&& detail.trailer_urls.len() > 0 ==> trailer.status_message == Some(
                "Trailer: "@ + app.current_item()->0.name,
            )
            &&& detail.trailer_urls.len() == 0 ==> trailer.status_message == Some(
                "No trailer available for this item."@,
            )
        }),
{
    reveal(AppModel::item_action);
}

/// A queue is saved under a name with the time in it, and an empty one is not.
pub proof fn saved_queues_are_named_by_the_time(app: AppModel, now: Duration)
    ensures
        ({
            let after = app.item_action(ItemMenuAction::SaveQueueAsPlaylist, Some(now));
            let name = "aquafin queue · "@ + time::utc_text(now.secs);
            &&& app.queue.len() == 0 ==> after.status_message == Some("Queue is empty."@)
            &&& app.queue.len() > 0 ==> {
                &&& after.pending.last() is CreatePlaylist
                &&& after.pending.last()->CreatePlaylist_name == name
                &&& after.status_message == Some("Saving queue as \""@ + name + "\"…"@)
            }
        }),
{
    reveal(AppModel::item_action);
}

/// An album or an artist without a known name is opened under a common one.
pub proof fn nameless_folders_get_a_common_title(app: AppModel, now: Option<Duration>)
    requires
        app.current_item() is Some,
    ensures
        ({
            let item = app.current_item()->0;
            let album = app.item_action(ItemMenuAction::GoToAlbum, now);
            let artist = app.item_action(ItemMenuAction::GoToArtist, now);
            &&& item.album_id is Some && item.album_name is None ==> album.stack.last().title
                == "Album"@
            &&& item.primary_artist_id is Some && (item.primary_artist_name is None
                || item.primary_artist_name->0.len() == 0) ==> artist.stack.last().title
                == "Artist"@
            &&& item.album_id is None ==> album.status_message == Some("No album on this item."@)
            &&& item.primary_artist_id is None ==> artist.status_message == Some(
                "No artist on this item."@,
            )
        }),
{
    reveal(AppModel::item_action);
}

/// An opened album is known as an album, and an opened artist as an artist, so that what
/// belongs to them is fetched.
pub proof fn opened_folders_know_their_kind(app: AppModel, now: Option<Duration>)
    requires
        app.current_item() is Some,
    ensures
        ({
            let item = app.current_item()->0;
            let album = app.item_action(ItemMenuAction::GoToAlbum, now);
            let artist = app.item_action(ItemMenuAction::GoToArtist, now);
            &&& item.album_id is Some ==> {
                &&& album.stack.last().parent_item is Some
                &&& album.stack.last().parent_item->0.kind == Some("MusicAlbum"@)
                &&& album.stack.last().parent_item->0.is_folder
            }
            &&& item.primary_artist_id is Some ==> {
                &&& artist.stack.last().parent_item is Some
                &&& artist.stack.last().parent_item->0.kind == Some("MusicArtist"@)
                &&& artist.stack.last().parent_item->0.is_folder
            }
        }),
{
    reveal(AppModel::item_action);
}

/// The client menu says which way a switch went.
pub proof fn notes_say_which_way_a_switch_went(app: AppModel)
    ensures
        ({
            let on_off = |on: bool| if on {
                "on"@
            } else {
                "off"@
            };
            &&& app.client_action(ClientMenuAction::ToggleGapless).status_message == Some(
                "Gapless audio: "@ + on_off(!app.gapless),
            )
            &&& app.client_action(ClientMenuAction::ToggleNormalization).status_message == Some(
                "Volume normalization: "@ + on_off(!app.normalization),
            )
            &&& app.client_action(ClientMenuAction::CycleEqPreset).status_message == Some(
                "EQ: "@ + labels::eq_text(
                    app.client_action(ClientMenuAction::CycleEqPreset).eq_preset,
                ),
            )
            &&& app.client_action(ClientMenuAction::SyncNow).status_message == Some(
                "Syncing with server…"@,
            )
        }),
{
    reveal(AppModel::client_action);
}

/// The filter entries say what is shown now.
pub proof fn notes_say_what_is_filtered(app: AppModel)
    requires
        app.library_selected < app.libraries.len(),
    ensures
        ({
            let before = app.filters_for(app.libraries[app.library_selected as int].id);
            let unplayed = app.client_action(ClientMenuAction::ToggleUnplayed);
            &&& before.only_unplayed() ==> unplayed.status_message == Some("Showing all"@)
            &&& !before.only_unplayed() ==> unplayed.status_message == Some(
                "Showing only unplayed"@,
            )
            &&& app.client_action(ClientMenuAction::ClearFilters).status_message == Some(
                "Filters cleared"@,
            )
        }),
{
    reveal(AppModel::client_action);
}

/// A picked track and a filled playlist are named in the note.
pub proof fn notes_name_what_was_picked(app: AppModel)
    ensures
        app.video_track_picker is Some && app.video_track_picker->0.entries is Some
            && app.video_track_picker->0.selected < app.video_track_picker->0.entries->0.len() ==> {
            let picker = app.video_track_picker->0;
            let entry = picker.entries->0[picker.selected as int];
            app.track_picker_key(KeyCode::Enter).status_message == Some(
                (if picker.kind == VideoTrackKind::Audio {
                    "Audio"@
                } else {
                    "Subtitles"@
                }) + " → "@ + entry.label + " ("@ + picker.item_name + ")"@,
            )
        },
        app.playlist_picker is Some && app.playlist_picker->0.entries is Some
            && app.playlist_picker->0.selected < app.playlist_picker->0.entries->0.len() ==> {
            let picker = app.playlist_picker->0;
            let playlist = picker.entries->0[picker.selected as int];
            app.playlist_picker_key(KeyCode::Enter).status_message == Some(
                "Added “"@ + picker.target_item_name + "” → "@ + playlist.1,
            )
        },
        app.library_picker is Some && !app.library_picker->0.loading
            && app.library_picker->0.entries.len() > 0 ==> app.library_picker_key(
            KeyCode::Enter,
        ).status_message == Some("Saving libraries…"@),
{
}

/// A finished sync and a request for details are noted.
pub proof fn syncs_and_details_are_noted(
    app: AppModel,
    libraries: Seq<LibraryModel>,
    item_id: Seq<char>,
    kind: Option<Seq<char>>,
)
    ensures
        app.result_applied(BrowseResultModel::Libraries(libraries)).status_message == Some(
            "Sync complete"@,
        ),
        app.routed(IntentModel::LoadCurrentDetail { item_id, kind }).status_message == Some(
            "Loading info…"@,
        ),
{
}

/// Without a server the client starts on three libraries of its own, by name.
pub proof fn the_demo_has_three_libraries()
    ensures
        ({
            let demo = state::demo_libraries();
            &&& demo.len() == 3
            &&& demo[0].name == "Movies"@ && demo[0].collection_type == Some("movies"@)
            &&& demo[1].name == "TV"@ && demo[1].collection_type == Some("tvshows"@)
            &&& demo[2].name == "Music"@ && demo[2].collection_type == Some("music"@)
            &&& demo[0].items.len() == 5 && demo[1].items.len() == 4 && demo[2].items.len() == 3
        }),
{
}

/// A flipped mark is named with the item and with what it is now.
pub proof fn notes_say_what_a_mark_is_now(app: AppModel)
    requires
        app.focused_level() is Some,
        app.focused_level()->0.selected_item() is Some,
    ensures
        ({
            let item = app.focused_level()->0.selected_item()->0;
            &&& item.is_favorite ==> app.favorite_toggled().status_message == Some(
                "Unfavorited: "@ + item.name,
            )
            &&& !item.is_favorite ==> app.favorite_toggled().status_message == Some(
                "Favorited: "@ + item.name,
            )
            &&& item.is_played ==> app.played_toggled().status_message == Some(
                "Marked unplayed: "@ + item.name,
            )
            &&& !item.is_played ==> app.played_toggled().status_message == Some(
                "Marked played: "@ + item.name,
            )
        }),
{
}

/// The note after the repeat key names the mode that is on now.
pub proof fn notes_name_the_repeat_mode(app: AppModel)
    ensures
        app.repeat_cycled().status_message == Some(
            "Repeat: "@ + app.repeat_cycled().repeat_mode.text(),
        ),
{
}

} // verus!
