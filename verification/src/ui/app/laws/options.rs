//! The pre-play options: what is picked there is what plays.

use vstd::prelude::*;

use crate::sequences;
use crate::ui::app::media_options;
use crate::ui::app::state::{App, AppModel};
use crate::ui::app::types::{
    IntentModel, ItemDetailModel, ItemModel, MediaKind, MediaOptionsCursor, MediaOptionsModel,
    MediaVersionModel, Pane, TrackEntryModel, VideoTrackSelectionModel,
};
use crate::ui::keymap::KeyCode;
use crate::video::{TrackChoice, VideoOptions};

verus! {

/// A view with the cursor on another row.
pub open spec fn on_row(view: MediaOptionsModel, cursor: MediaOptionsCursor) -> MediaOptionsModel {
    MediaOptionsModel { cursor, ..view }
}

/// Enter with the cursor of the open view on a row.
pub open spec fn entered(app: AppModel, cursor: MediaOptionsCursor) -> AppModel {
    (AppModel {
        media_options_view: Some(on_row(app.media_options_view->0, cursor)),
        ..app
    }).options_key(KeyCode::Enter)
}

/// Whether an app shows fetched options.
pub open spec fn shows_options(app: AppModel) -> bool {
    app.media_options_view is Some && !app.media_options_view->0.loading
}

// ---------------------------------------------------------------------------
// What is picked is what plays

/// Enter on a version and then on Play: the source remembered for the item is that
/// version's, whichever of the versions it was.
pub proof fn a_picked_version_is_played(app: AppModel, n: usize)
    requires
        shows_options(app),
        n < app.media_options_view->0.versions.len(),
    ensures
        ({
            let view = app.media_options_view->0;
            let after = entered(
                entered(app, MediaOptionsCursor::Version(n)),
                MediaOptionsCursor::Play,
            );
            &&& after.video_track_selections.dom().contains(view.item_id)
            &&& after.video_track_selections[view.item_id].media_source_id == Some(
                view.versions[n as int].source_id,
            )
            &&& after.selection_for(view.item_id).media_source_id == Some(
                view.versions[n as int].source_id,
            )
        }),
{
}

/// Enter on an audio track and then on Play: the audio choice remembered for the item
/// is that track's.
pub proof fn a_picked_audio_track_is_played(app: AppModel, n: usize)
    requires
        shows_options(app),
        n < app.media_options_view->0.audio_entries.len(),
    ensures
        ({
            let view = app.media_options_view->0;
            let after = entered(
                entered(app, MediaOptionsCursor::Audio(n)),
                MediaOptionsCursor::Play,
            );
            &&& after.video_track_selections.dom().contains(view.item_id)
            &&& after.video_track_selections[view.item_id].audio
                == view.audio_entries[n as int].choice
            &&& after.selection_for(view.item_id).audio == view.audio_entries[n as int].choice
        }),
{
}

/// Enter on a subtitle and then on Play: the subtitle choice remembered for the item is
/// that one.
pub proof fn a_picked_subtitle_is_played(app: AppModel, n: usize)
    requires
        shows_options(app),
        n < app.media_options_view->0.subtitle_entries.len(),
    ensures
        ({
            let view = app.media_options_view->0;
            let after = entered(
                entered(app, MediaOptionsCursor::Subtitle(n)),
                MediaOptionsCursor::Play,
            );
            &&& after.video_track_selections.dom().contains(view.item_id)
            &&& after.video_track_selections[view.item_id].subtitle
                == view.subtitle_entries[n as int].choice
            &&& after.selection_for(view.item_id).subtitle == view.subtitle_entries[n as int].choice
        }),
{
}

/// The three picks are independent: whatever the order, a later pick of another kind
/// takes nothing of an earlier one back.
pub proof fn picks_of_different_kinds_add_up(app: AppModel, v: usize, a: usize, s: usize)
    requires
        shows_options(app),
        v < app.media_options_view->0.versions.len(),
        a < app.media_options_view->0.audio_entries.len(),
        s < app.media_options_view->0.subtitle_entries.len(),
    ensures
        ({
            let view = app.media_options_view->0;
            let picked = VideoTrackSelectionModel {
                audio: view.audio_entries[a as int].choice,
                subtitle: view.subtitle_entries[s as int].choice,
                media_source_id: Some(view.versions[v as int].source_id),
            };
            let one = entered(
                entered(
                    entered(app, MediaOptionsCursor::Version(v)),
                    MediaOptionsCursor::Audio(a),
                ),
                MediaOptionsCursor::Subtitle(s),
            );
            let other = entered(
                entered(
                    entered(app, MediaOptionsCursor::Subtitle(s)),
                    MediaOptionsCursor::Audio(a),
                ),
                MediaOptionsCursor::Version(v),
            );
            &&& entered(one, MediaOptionsCursor::Play).video_track_selections
                == app.video_track_selections.insert(view.item_id, picked)
            &&& entered(other, MediaOptionsCursor::Play).video_track_selections
                == app.video_track_selections.insert(view.item_id, picked)
        }),
{
}

/// Picking a version, a track or a subtitle stays in the view: nothing is launched,
/// nothing remembered yet, and the lists stay.
pub proof fn picking_stays_in_the_view(app: AppModel, cursor: MediaOptionsCursor)
    requires
        shows_options(app),
        cursor is Version || cursor is Audio || cursor is Subtitle,
    ensures
        ({
            let view = app.media_options_view->0;
            let after = entered(app, cursor);
            let shown = after.media_options_view->0;
            &&& after.media_options_view is Some
            &&& shown == (MediaOptionsModel {
                cursor,
                selected_version: shown.selected_version,
                selected_audio: shown.selected_audio,
                selected_subtitle: shown.selected_subtitle,
                ..view
            })
            &&& after == (AppModel { media_options_view: after.media_options_view, ..app })
        }),
{
}

/// Play leaves the view and launches its item from the start; the other items' choices
/// stay as they were.
pub proof fn play_launches_the_item(app: AppModel)
    requires
        shows_options(app),
    ensures
        ({
            let view = app.media_options_view->0;
            let after = entered(app, MediaOptionsCursor::Play);
            &&& after.media_options_view is None
            &&& after.focus == Pane::LibraryItems
            &&& after.pending.len() == app.pending.len() + 1
            &&& after.pending.drop_last() == app.pending
            &&& after.pending.last() matches IntentModel::Play { item, media, start_ticks }
            &&& item.id == view.item_id
            &&& item.name == view.item_name
            &&& item.media() == MediaKind::Video
            &&& !item.is_folder
            &&& media == MediaKind::Video
            &&& start_ticks is None
            &&& after.video_track_selections.remove(view.item_id)
                == app.video_track_selections.remove(view.item_id)
            &&& after == (AppModel {
                media_options_view: None,
                focus: Pane::LibraryItems,
                pending: after.pending,
                video_track_selections: after.video_track_selections,
                ..app
            })
        }),
{
    let view = app.media_options_view->0;
    let after = entered(app, MediaOptionsCursor::Play);
    assert(after.pending.drop_last() =~= app.pending);
    assert(after.video_track_selections.remove(view.item_id)
        =~= app.video_track_selections.remove(view.item_id));
    reveal_strlit("Movie");
    reveal_strlit("Video");
    reveal_strlit("Audio");
}

/// Enter on a chapter launches the item where that chapter starts, with the same
/// choices that Play would remember.
pub proof fn a_chapter_starts_where_it_begins(app: AppModel, n: usize)
    requires
        shows_options(app),
        n < app.media_options_view->0.chapters.len(),
    ensures
        ({
            let view = app.media_options_view->0;
            let after = entered(app, MediaOptionsCursor::Chapter(n));
            let plain = entered(app, MediaOptionsCursor::Play);
            &&& after.pending.last() == (IntentModel::Play {
                item: plain.pending.last()->Play_item,
                media: MediaKind::Video,
                start_ticks: Some(view.chapters[n as int].start_position_ticks),
            })
            &&& after.pending.drop_last() == app.pending
            &&& after == (AppModel { pending: after.pending, ..plain })
        }),
{
    let after = entered(app, MediaOptionsCursor::Chapter(n));
    assert(after.pending.drop_last() =~= app.pending);
}

/// Enter on the trailer row asks for the first trailer and stays in the view.
pub proof fn the_trailer_row_plays_the_first_trailer(app: AppModel)
    requires
        shows_options(app),
        app.media_options_view->0.trailer_urls.len() > 0,
    ensures
        ({
            let view = app.media_options_view->0;
            let after = entered(app, MediaOptionsCursor::WatchTrailer);
            &&& after.media_options_view == Some(on_row(view, MediaOptionsCursor::WatchTrailer))
            &&& after.pending == app.pending.push(
                IntentModel::WatchTrailer { url: view.trailer_urls[0], title: view.item_name },
            )
            &&& after.video_track_selections == app.video_track_selections
            &&& after.focus == app.focus
        }),
{
}

// ---------------------------------------------------------------------------
// Opening and filling

/// Opening a video's options shows an empty view for that video, and asks the server
/// for its detail and its options.
pub proof fn opened_options_belong_to_the_item(app: AppModel, item: ItemModel)
    ensures
        ({
            let after = app.options_opened(item);
            &&& after.media_options_view matches Some(view)
            &&& view.item_id == item.id
            &&& view.item_name == item.name
            &&& view.loading
            &&& after.focus == Pane::Content
            &&& after.revealed_item_id == Some(item.id)
            &&& after.pending == app.pending.push(
                IntentModel::LoadCurrentDetail { item_id: item.id, kind: item.kind },
            ).push(IntentModel::LoadMediaOptions { item_id: item.id })
            &&& after.video_track_selections == app.video_track_selections
            &&& after.queue == app.queue
        }),
{
}

/// Fetched options reach the view of their own item and no other.
pub proof fn options_reach_their_item(
    app: AppModel,
    id: Seq<char>,
    versions: Seq<MediaVersionModel>,
    audio: Seq<TrackEntryModel>,
    subtitles: Seq<TrackEntryModel>,
)
    ensures
        ({
            let after = app.options_filled(id, versions, audio, subtitles);
            &&& app.media_options_view is None ==> after == app
            &&& app.media_options_view is Some && app.media_options_view->0.item_id != id ==> after
                == app
            &&& app.media_options_view is Some && app.media_options_view->0.item_id == id ==> {
                let shown = after.media_options_view->0;
                &&& after.media_options_view is Some
                &&& shown.item_id == id
                &&& shown.item_name == app.media_options_view->0.item_name
                &&& !shown.loading
                &&& shown.versions == versions
                &&& shown.audio_entries == audio
                &&& shown.subtitle_entries == subtitles
                &&& shown.trailer_urls == app.media_options_view->0.trailer_urls
                &&& shown.chapters == app.media_options_view->0.chapters
                &&& after == (AppModel { media_options_view: after.media_options_view, ..app })
            }
        }),
{
}

/// A choice made before is picked again when the options come up once more: playing
/// without another pick remembers the very same version and tracks, as far as the
/// server still lists them.
pub proof fn remembered_choices_come_back(
    app: AppModel,
    id: Seq<char>,
    versions: Seq<MediaVersionModel>,
    audio: Seq<TrackEntryModel>,
    subtitles: Seq<TrackEntryModel>,
)
    requires
        app.media_options_view is Some,
        app.media_options_view->0.item_id == id,
        app.video_track_selections.dom().contains(id),
        versions.len() <= usize::MAX,
        audio.len() <= usize::MAX,
        subtitles.len() <= usize::MAX,
    ensures
        ({
            let before = app.video_track_selections[id];
            let after = entered(
                app.options_filled(id, versions, audio, subtitles),
                MediaOptionsCursor::Play,
            );
            let now = after.video_track_selections[id];
            &&& (exists|i: int|
                0 <= i < versions.len() && Some((#[trigger] versions[i]).source_id)
                    == before.media_source_id) ==> now.media_source_id == before.media_source_id
            &&& (exists|i: int|
                0 <= i < audio.len() && (#[trigger] audio[i]).choice == before.audio)
                ==> now.audio == before.audio
            &&& (exists|i: int|
                0 <= i < subtitles.len() && (#[trigger] subtitles[i]).choice == before.subtitle)
                ==> now.subtitle == before.subtitle
        }),
{
    let before = app.video_track_selections[id];
    if before.media_source_id is Some {
        let p = media_options::version_has_source(before.media_source_id->0);
        sequences::lemma_first_index(versions, p);
        if exists|i: int|
            0 <= i < versions.len() && Some((#[trigger] versions[i]).source_id)
                == before.media_source_id {
            let i = choose|i: int|
                0 <= i < versions.len() && Some((#[trigger] versions[i]).source_id)
                    == before.media_source_id;
            assert(p(versions[i]));
        }
    }
    let q = media_options::entry_has_choice(before.audio);
    sequences::lemma_first_index(audio, q);
    if exists|i: int| 0 <= i < audio.len() && (#[trigger] audio[i]).choice == before.audio {
        let i = choose|i: int|
            0 <= i < audio.len() && (#[trigger] audio[i]).choice == before.audio;
        assert(q(audio[i]));
    }
    let r = media_options::entry_has_choice(before.subtitle);
    sequences::lemma_first_index(subtitles, r);
    if exists|i: int|
        0 <= i < subtitles.len() && (#[trigger] subtitles[i]).choice == before.subtitle {
        let i = choose|i: int|
            0 <= i < subtitles.len() && (#[trigger] subtitles[i]).choice == before.subtitle;
        assert(r(subtitles[i]));
    }
}

/// A video whose options were never used starts on the first of each list.
pub proof fn fresh_options_start_on_the_first(
    app: AppModel,
    id: Seq<char>,
    versions: Seq<MediaVersionModel>,
    audio: Seq<TrackEntryModel>,
    subtitles: Seq<TrackEntryModel>,
)
    requires
        app.media_options_view is Some,
        app.media_options_view->0.item_id == id,
        !app.video_track_selections.dom().contains(id),
    ensures
        ({
            let after = entered(
                app.options_filled(id, versions, audio, subtitles),
                MediaOptionsCursor::Play,
            );
            let now = after.video_track_selections[id];
            &&& now.media_source_id == if versions.len() > 0 {
                Some(versions[0].source_id)
            } else {
                None
            }
            &&& now.audio == if audio.len() > 0 {
                audio[0].choice
            } else {
                TrackChoice::Auto
            }
            &&& now.subtitle == if subtitles.len() > 0 {
                subtitles[0].choice
            } else {
                TrackChoice::Auto
            }
        }),
{
}

/// The cursor of filled options stands on what is already picked: on the version where
/// there is a choice of versions, else on the audio track, else on Play.
pub proof fn filled_options_point_at_the_pick(
    view: MediaOptionsModel,
    stored: Option<VideoTrackSelectionModel>,
    versions: Seq<MediaVersionModel>,
    audio: Seq<TrackEntryModel>,
    subtitles: Seq<TrackEntryModel>,
)
    ensures
        ({
            let shown = view.filled(stored, versions, audio, subtitles);
            &&& versions.len() > 1 ==> shown.cursor == MediaOptionsCursor::Version(
                shown.selected_version,
            )
            &&& versions.len() <= 1 && audio.len() > 0 ==> shown.cursor
                == MediaOptionsCursor::Audio(shown.selected_audio)
            &&& versions.len() <= 1 && audio.len() == 0 ==> shown.cursor
                == MediaOptionsCursor::Play
        }),
{
}

/// Trailers and chapters are those of the shown item's detail; another item's detail
/// changes nothing.
pub proof fn trailers_and_chapters_are_the_items(
    view: MediaOptionsModel,
    id: Seq<char>,
    detail: ItemDetailModel,
)
    ensures
        view.item_id == id ==> {
            let after = view.detail_mirrored(id, detail);
            &&& after.trailer_urls == detail.trailer_urls
            &&& after.chapters == detail.chapters
            &&& after == (MediaOptionsModel {
                trailer_urls: after.trailer_urls,
                chapters: after.chapters,
                ..view
            })
        },
        view.item_id != id ==> view.detail_mirrored(id, detail) == view,
{
}

// ---------------------------------------------------------------------------
// The cursor

/// How many rows stand above a row: the versions come first, then the audio tracks, the
/// subtitles, Play, the trailer where there is one, and the chapters.
pub open spec fn rows_above(view: MediaOptionsModel, row: MediaOptionsCursor) -> int {
    let audio = view.versions.len() as int;
    let subtitles = audio + view.audio_entries.len();
    let play = subtitles + view.subtitle_entries.len();
    match row {
        MediaOptionsCursor::Version(n) => n as int,
        MediaOptionsCursor::Audio(n) => audio + n,
        MediaOptionsCursor::Subtitle(n) => subtitles + n,
        MediaOptionsCursor::Play => play,
        MediaOptionsCursor::WatchTrailer => play + 1,
        MediaOptionsCursor::Chapter(n) => if view.trailer_urls.len() > 0 {
            play + 2 + n
        } else {
            play + 1 + n
        },
    }
}

/// Whether a row is there.
pub open spec fn has_row(view: MediaOptionsModel, row: MediaOptionsCursor) -> bool {
    match row {
        MediaOptionsCursor::Version(n) => n < view.versions.len(),
        MediaOptionsCursor::Audio(n) => n < view.audio_entries.len(),
        MediaOptionsCursor::Subtitle(n) => n < view.subtitle_entries.len(),
        MediaOptionsCursor::Play => true,
        MediaOptionsCursor::WatchTrailer => view.trailer_urls.len() > 0,
        MediaOptionsCursor::Chapter(n) => n < view.chapters.len(),
    }
}

/// How many rows there are.
pub open spec fn row_count(view: MediaOptionsModel) -> int {
    let trailer: int = if view.trailer_urls.len() > 0 {
        1
    } else {
        0
    };
    view.versions.len() + view.audio_entries.len() + view.subtitle_entries.len() + 1 + trailer
        + view.chapters.len()
}

proof fn lemma_rows(view: MediaOptionsModel)
    requires
        view.versions.len() <= usize::MAX,
        view.audio_entries.len() <= usize::MAX,
        view.subtitle_entries.len() <= usize::MAX,
        view.chapters.len() <= usize::MAX,
    ensures
        view.positions().len() == row_count(view),
        forall|row: MediaOptionsCursor|
            #[trigger] has_row(view, row) ==> 0 <= rows_above(view, row) < row_count(view)
                && view.positions()[rows_above(view, row)] == row,
        forall|i: int|
            0 <= i < view.positions().len() ==> has_row(view, #[trigger] view.positions()[i])
                && rows_above(view, view.positions()[i]) == i,
{
}

/// Down goes to the row below and Up to the row above, through versions, audio tracks,
/// subtitles, Play, trailer and chapters; the last row and the first one stay. Nothing
/// is picked by moving.
pub proof fn the_options_cursor_moves_by_one_row(app: AppModel)
    requires
        shows_options(app),
        has_row(app.media_options_view->0, app.media_options_view->0.cursor),
        app.media_options_view->0.versions.len() <= usize::MAX,
        app.media_options_view->0.audio_entries.len() <= usize::MAX,
        app.media_options_view->0.subtitle_entries.len() <= usize::MAX,
        app.media_options_view->0.chapters.len() <= usize::MAX,
    ensures
        ({
            let view = app.media_options_view->0;
            let place = rows_above(view, view.cursor);
            let down = app.options_key(KeyCode::Down);
            let up = app.options_key(KeyCode::Up);
            let below = down.media_options_view->0;
            let above = up.media_options_view->0;
            &&& down.media_options_view is Some && up.media_options_view is Some
            &&& has_row(view, below.cursor) && has_row(view, above.cursor)
            &&& place + 1 < row_count(view) ==> rows_above(view, below.cursor) == place + 1
            &&& place + 1 == row_count(view) ==> below.cursor == view.cursor
            &&& place > 0 ==> rows_above(view, above.cursor) == place - 1
            &&& place == 0 ==> above.cursor == view.cursor
            &&& below == on_row(view, below.cursor)
            &&& above == on_row(view, above.cursor)
            &&& down == (AppModel { media_options_view: down.media_options_view, ..app })
            &&& up == (AppModel { media_options_view: up.media_options_view, ..app })
        }),
{
    let view = app.media_options_view->0;
    lemma_rows(view);
    media_options::lemma_places_are_unique(view, view.cursor);
    assert(view.positions()[rows_above(view, view.cursor)] == view.cursor);
}

/// Escape and Backspace go back to the items without launching or remembering anything;
/// while the options are still on their way only Escape does anything.
pub proof fn leaving_the_options_plays_nothing(app: AppModel, code: KeyCode)
    requires
        app.media_options_view is Some,
    ensures
        ({
            let left = AppModel { media_options_view: None, focus: Pane::LibraryItems, ..app };
            &&& app.options_key(KeyCode::Esc) == left
            &&& !app.media_options_view->0.loading ==> app.options_key(KeyCode::Backspace) == left
            &&& app.media_options_view->0.loading && code != KeyCode::Esc ==> app.options_key(code)
                == app
            &&& app.options_key(KeyCode::Char('q')) == app
        }),
{
}

/// A video nobody picked tracks for leaves them to the player.
pub proof fn unpicked_videos_are_left_to_the_player(app: AppModel, id: Seq<char>)
    requires
        !app.video_track_selections.dom().contains(id),
    ensures
        app.selection_for(id).audio == TrackChoice::Auto,
        app.selection_for(id).subtitle == TrackChoice::Auto,
        app.selection_for(id).media_source_id is None,
{
}

/// The player is launched with the tracks that were picked for the video.
pub proof fn the_player_gets_the_picked_tracks(app: App, id: &str, options: VideoOptions)
    requires
        call_ensures(App::video_options_for, (&app, id), options),
        app@.video_track_selections.dom().contains(id@),
    ensures
        options.audio == Some(app@.video_track_selections[id@].audio),
        options.subtitle == Some(app@.video_track_selections[id@].subtitle),
        options.start_secs is None,
        options.extra_args@.len() == 0,
{
    assert(options@.extra_args.len() == options.extra_args@.len());
}

/// The stream that is asked for is the version that was picked for the video.
pub proof fn the_picked_version_is_streamed(app: App, id: &str, source: Option<String>)
    requires
        call_ensures(App::video_media_source_for, (&app, id), source),
        app@.video_track_selections.dom().contains(id@),
    ensures
        source.deep_view() == app@.video_track_selections[id@].media_source_id,
{
}

} // verus!
