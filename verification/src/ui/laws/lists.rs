//! The list panes: each row shows its own item, and the cursor is where it should be.

use vstd::prelude::*;
use vstd::string::*;

use crate::sequences;
use crate::text;
use crate::ui::app::types::{
    ItemModel, Level, LevelModel, Library, MediaKind, MediaOptionsCursor, MediaOptionsModel,
    MediaOptionsViewState,
};
use crate::ui::durations;
use crate::ui::lines::Tone;
use crate::ui::panes::content;
use crate::ui::panes::content::ContentBodyModel;
use crate::ui::panes::decor;
use crate::ui::panes::library_items;
use crate::ui::panes::library_items::ListBodyModel;
use crate::ui::panes::list;
use crate::ui::panes::sidebar;

verus! {

// ---------------------------------------------------------------------------
// Rows

/// A row shows the item's heart, a glyph and the item's name, in that order.
pub proof fn a_row_shows_heart_glyph_and_name(item: ItemModel)
    ensures
        ({
            let row = decor::item_row(item);
            &&& row.len() == 3
            &&& item.is_favorite ==> row[0].text == "♥ "@
            &&& !item.is_favorite ==> row[0].text.len() == 0
            &&& row[1].text == decor::decor_of(item).glyph + " "@
            &&& row[2].text == item.name
            &&& row[1].tone == decor::decor_of(item).glyph_tone
            &&& row[2].tone == decor::decor_of(item).name_tone
        }),
{
    reveal_strlit("");
}

/// The rows are those of the items, in order.
pub proof fn rows_follow_the_items(items: Seq<ItemModel>, i: int)
    requires
        0 <= i < items.len(),
    ensures
        decor::item_rows(items).len() == items.len(),
        decor::item_rows(items)[i] == decor::item_row(items[i]),
{
}

/// Tracks get a note and videos a triangle; other folders open with an arrow, and what
/// neither plays nor opens gets a dot.
pub proof fn glyphs_tell_kinds_apart(item: ItemModel)
    ensures
        ({
            let decor = decor::decor_of(item);
            let kind = item.kind;
            &&& kind == Some("Audio"@) || kind == Some("AudioBook"@) ==> decor.glyph == "♪"@
                && decor.glyph_tone == Tone::Progress
            &&& item.media() == MediaKind::Video ==> decor.glyph == "▶"@ && decor.glyph_tone
                == Tone::Progress
            &&& kind is None && item.is_folder ==> decor.glyph == "›"@ && decor.glyph_tone
                == Tone::Folder
            &&& kind is None && !item.is_folder ==> decor.glyph == "·"@ && decor.glyph_tone
                == Tone::Muted
        }),
{
    lemma_kind_names();
}

/// Containers get the glyph of their kind.
pub proof fn containers_get_their_glyph(item: ItemModel)
    ensures
        ({
            let decor = decor::decor_of(item);
            &&& item.kind == Some("MusicAlbum"@) ==> decor.glyph == "▣"@
            &&& item.kind == Some("MusicArtist"@) ==> decor.glyph == "♫"@
            &&& item.kind == Some("Playlist"@) ==> decor.glyph == "≡"@
            &&& item.kind == Some("Series"@) ==> decor.glyph == "❒"@
            &&& item.kind == Some("Season"@) ==> decor.glyph == "❍"@
            &&& (item.kind == Some("MusicAlbum"@) || item.kind == Some("MusicArtist"@) || item.kind
                == Some("Playlist"@) || item.kind == Some("Series"@) || item.kind == Some(
                "Season"@,
            )) ==> decor.glyph_tone == Tone::Folder
        }),
{
    lemma_kind_names();
}

/// The names of the kinds differ.
proof fn lemma_kind_names()
    ensures
        "Audio"@.len() == 5,
        "AudioBook"@.len() == 9,
        "Movie"@.len() == 5,
        "Episode"@.len() == 7,
        "Video"@.len() == 5,
        "MusicVideo"@.len() == 10,
        "Trailer"@.len() == 7,
        "MusicAlbum"@.len() == 10,
        "MusicArtist"@.len() == 11,
        "Playlist"@.len() == 8,
        "Series"@.len() == 6,
        "Season"@.len() == 6,
        "Audio"@ != "Movie"@ && "Audio"@ != "Video"@ && "MusicVideo"@ != "MusicAlbum"@ && "Series"@
            != "Season"@,
{
    reveal_strlit("Audio");
    reveal_strlit("AudioBook");
    reveal_strlit("Movie");
    reveal_strlit("Episode");
    reveal_strlit("Video");
    reveal_strlit("MusicVideo");
    reveal_strlit("Trailer");
    reveal_strlit("MusicAlbum");
    reveal_strlit("MusicArtist");
    reveal_strlit("Playlist");
    reveal_strlit("Series");
    reveal_strlit("Season");
    assert("Audio"@[0] != "Movie"@[0]);
    assert("Audio"@[0] != "Video"@[0]);
    assert("MusicVideo"@[5] != "MusicAlbum"@[5]);
    assert("Series"@[2] != "Season"@[2]);
}

// ---------------------------------------------------------------------------
// The items pane

/// The pane shows the rows of its list with the cursor where the list has it; while the
/// list is on its way or empty, it says so.
pub proof fn the_items_pane_shows_its_list(level: LevelModel)
    ensures
        level.loading ==> level.list_body() == ListBodyModel::Message("Loading…"@),
        !level.loading && level.items.len() == 0 ==> level.list_body() == ListBodyModel::Message(
            "Empty."@,
        ),
        !level.loading && level.items.len() > 0 ==> level.list_body() == ListBodyModel::Rows(
            decor::item_rows(level.items),
            level.selected,
        ),
        library_items::items_body(Some(level)) == level.list_body(),
        library_items::items_body(None) == ListBodyModel::Message("No library."@),
{
}

/// The pane's title is the path with the number of items behind it, once they are there.
pub proof fn the_items_pane_counts_its_items(
    level: Level,
    path: &str,
    title: String,
)
    requires
        call_ensures(library_items::title, (Some(&level), path), title),
        path@.len() > 0,
    ensures
        !level.loading && level.items@.len() > 0 ==> title@ == " "@ + path@ + (" ("@
            + text::decimal(level.items@.len()) + ")"@) + " "@,
        level.loading || level.items@.len() == 0 ==> title@ == " "@ + path@ + " "@,
{
    reveal_strlit("");
    assert(Some(&level).deep_view() == Some(level@));
    assert(level@.items.len() == level.items@.len());
    assert(level@.loading == level.loading);
    assert(" "@ + path@ + ""@ + " "@ =~= " "@ + path@ + " "@);
}

/// The sidebar lists the libraries by name, in order.
pub proof fn the_sidebar_lists_the_libraries(libraries: Vec<Library>, names: Vec<String>, i: int)
    requires
        call_ensures(sidebar::rows, (&libraries,), names),
        0 <= i < libraries@.len(),
    ensures
        names@.len() == libraries@.len(),
        names@[i]@ == libraries@[i].name@,
{
    assert(names.deep_view().len() == names@.len());
    assert(libraries.deep_view().len() == libraries@.len());
    assert(names.deep_view()[i] == names@[i]@);
    assert(libraries.deep_view()[i] == libraries@[i]@);
}

/// A marked list shows a mark in front of exactly the marked items, and an arrow behind
/// those that open.
pub proof fn marks_stand_in_front_of_the_marked(items: Seq<ItemModel>, marks: Seq<usize>, i: int)
    requires
        0 <= i < items.len(),
    ensures
        ({
            let rows = list::marked_rows(items, marks);
            let marked = marks.contains(i as usize);
            &&& rows.len() == items.len()
            &&& marked ==> rows[i][0].text == "● "@ + items[i].name
            &&& !marked ==> rows[i][0].text == "  "@ + items[i].name
            &&& items[i].is_folder ==> rows[i].len() == 2 && rows[i][1].text == "  ›"@
            &&& !items[i].is_folder ==> rows[i].len() == 1
        }),
{
}

/// A marked list shows its level's items with the cursor where the level has it.
pub proof fn a_marked_list_shows_its_level(level: LevelModel, marks: Seq<usize>)
    ensures
        level.loading ==> list::marked_body(Some(level), marks) == ListBodyModel::Message(
            "Loading…"@,
        ),
        !level.loading && level.items.len() == 0 ==> list::marked_body(Some(level), marks)
            == ListBodyModel::Message("Empty."@),
        !level.loading && level.items.len() > 0 ==> list::marked_body(Some(level), marks)
            == ListBodyModel::Rows(list::marked_rows(level.items, marks), level.selected),
        list::marked_body(None, marks) == ListBodyModel::Message("No library."@),
{
}

// ---------------------------------------------------------------------------
// The middle pane

/// A list of tracks is a tracklist, any other list plain rows, each with the cursor where
/// the folder has it.
pub proof fn the_middle_pane_shows_the_folder(level: LevelModel)
    requires
        !level.loading,
        level.items.len() > 0,
    ensures
        ({
            let tracks = forall|i: int|
                0 <= i < level.items.len() ==> (#[trigger] level.items[i]).media()
                    == MediaKind::Audio;
            let body = content::content_body(Some(level));
            &&& tracks ==> body == ContentBodyModel::Tracks(
                content::track_rows(level.items),
                level.selected,
            )
            &&& !tracks ==> body == ContentBodyModel::Rows(
                decor::item_rows(level.items),
                level.selected,
            )
        }),
{
}

/// A folder that is on its way or empty says so, and without a folder the pane asks for
/// one.
pub proof fn the_middle_pane_says_what_is_missing(level: LevelModel)
    ensures
        level.loading ==> content::content_body(Some(level)) == ContentBodyModel::Message(
            "Loading…"@,
        ),
        !level.loading && level.items.len() == 0 ==> content::content_body(Some(level))
            == ContentBodyModel::Message("Empty."@),
        content::content_body(None) is Message,
{
}

/// A track's row shows its number, or its place where it has none, its name, its plays,
/// its heart and its length.
pub proof fn a_track_row_shows_the_track(items: Seq<ItemModel>, i: int)
    requires
        0 <= i < items.len(),
    ensures
        ({
            let row = content::track_rows(items)[i];
            let track = items[i];
            &&& content::track_rows(items).len() == items.len()
            &&& row.title == track.name
            &&& track.track_number matches Some(n) ==> row.number == text::pad_start(
                text::signed_decimal(n as int),
                3,
                ' ',
            )
            &&& track.track_number is None ==> row.number == text::pad_start(
                text::decimal((i + 1) as nat),
                3,
                ' ',
            )
            &&& track.play_count > 0 ==> row.plays == text::decimal(track.play_count as nat)
            &&& track.play_count <= 0 ==> row.plays == "—"@
            &&& track.is_favorite ==> row.favorite == "♥"@
            &&& !track.is_favorite ==> row.favorite == " "@
            &&& track.run_time_ticks is Some && track.run_time_ticks->0 > 0 ==> row.length
                == durations::clock_text((track.run_time_ticks->0 / 10_000_000) as nat)
            &&& track.run_time_ticks is None || track.run_time_ticks->0 <= 0 ==> row.length == "—"@
        }),
{
}

// ---------------------------------------------------------------------------
// The play options

/// Every choice is listed with its label, behind a filled mark where it is the selected
/// one and an empty one elsewhere.
pub proof fn the_selected_choice_is_marked(labels: Seq<Seq<char>>, selected: usize, i: int)
    requires
        0 <= i < labels.len() <= usize::MAX,
    ensures
        ({
            let audio = content::choice_rows(content::ChoiceList::Audio, labels, selected);
            let subtitles = content::choice_rows(content::ChoiceList::Subtitles, labels, selected);
            let versions = content::choice_rows(content::ChoiceList::Versions, labels, selected);
            &&& audio.len() == labels.len()
            &&& i == selected ==> audio[i].text == "  "@ + "●"@ + "  "@ + labels[i]
            &&& i != selected ==> audio[i].text == "  "@ + "○"@ + "  "@ + labels[i]
            &&& audio[i].cursor == Some(MediaOptionsCursor::Audio(i as usize))
            &&& subtitles[i].cursor == Some(MediaOptionsCursor::Subtitle(i as usize))
            &&& versions[i].cursor == Some(MediaOptionsCursor::Version(i as usize))
            &&& subtitles[i].text == audio[i].text && versions[i].text == audio[i].text
        }),
{
}

/// The options list the audio tracks, the subtitles and Play under their headings, and
/// the versions first where there is a choice.
pub proof fn the_options_list_everything_in_order(view: MediaOptionsModel)
    ensures
        ({
            let rows = view.rows();
            let versions: int = if view.versions.len() > 1 {
                1 + view.versions.len() as int
            } else {
                0
            };
            let audio = view.audio_entries.len() as int;
            let subtitles = view.subtitle_entries.len() as int;
            let play = versions + 1 + audio + 1 + subtitles + 1;
            &&& view.versions.len() > 1 ==> rows[0].text == "Version"@ && rows[0].cursor is None
            &&& rows[versions].text == "Audio"@ && rows[versions].cursor is None
            &&& rows[versions + 1 + audio].text == "Subtitles"@ && rows[versions + 1
                + audio].cursor is None
            &&& rows[play].text == "  ▶  Play"@ && rows[play].cursor == Some(
                MediaOptionsCursor::Play,
            )
            &&& view.trailer_urls.len() > 0 ==> rows[play + 1].text == "  ▶  Watch trailer"@
                && rows[play + 1].cursor == Some(MediaOptionsCursor::WatchTrailer)
            &&& forall|i: int|
                0 <= i < audio ==> (#[trigger] rows[versions + 1 + i]).cursor == Some(
                    MediaOptionsCursor::Audio(i as usize),
                )
            &&& forall|i: int|
                0 <= i < subtitles ==> (#[trigger] rows[versions + 1 + audio + 1 + i]).cursor
                    == Some(MediaOptionsCursor::Subtitle(i as usize))
        }),
{
    lemma_option_rows(view);
}

proof fn lemma_option_rows(view: MediaOptionsModel)
    ensures
        ({
            let rows = view.rows();
            let versions: int = if view.versions.len() > 1 {
                1 + view.versions.len() as int
            } else {
                0
            };
            let audio = view.audio_entries.len() as int;
            let subtitles = view.subtitle_entries.len() as int;
            &&& forall|i: int|
                0 <= i < audio ==> #[trigger] rows[versions + 1 + i] == content::choice_rows(
                    content::ChoiceList::Audio,
                    content::track_labels(view.audio_entries),
                    view.selected_audio,
                )[i]
            &&& forall|i: int|
                0 <= i < subtitles ==> #[trigger] rows[versions + 1 + audio + 1 + i]
                    == content::choice_rows(
                    content::ChoiceList::Subtitles,
                    content::track_labels(view.subtitle_entries),
                    view.selected_subtitle,
                )[i]
        }),
{
}

/// A chapter's row shows where it starts and its name.
pub proof fn chapters_show_start_and_name(view: MediaOptionsModel, i: int)
    requires
        0 <= i < view.chapters.len() <= usize::MAX,
    ensures
        ({
            let rows = view.rows();
            let row = rows[rows.len() - view.chapters.len() + i];
            &&& row.cursor == Some(MediaOptionsCursor::Chapter(i as usize))
            &&& row.text == "  ▶  "@ + durations::chapter_timestamp(
                view.chapters[i].start_position_ticks,
            ) + "  "@ + view.chapters[i].name
        }),
{
}

/// The highlight stands on the row of the cursor.
pub proof fn the_highlight_follows_the_cursor(view: MediaOptionsModel, row: int)
    requires
        view.positions().contains(view.cursor),
        view.highlighted() == Some(row),
    ensures
        0 <= row < view.rows().len(),
        view.rows()[row].cursor == Some(view.cursor),
{
    let p = crate::ui::app::media_options::is_position(view.cursor);
    sequences::lemma_first_index(view.positions(), p);
    let k = choose|k: int| 0 <= k < view.positions().len() && view.positions()[k] == view.cursor;
    assert(p(view.positions()[k]));
    assert(view.shown_cursor() == view.cursor);
    sequences::lemma_first_index(view.rows(), content::stands_at(view.cursor));
}

/// The middle pane is titled by its folder, with the number of items once they are there.
pub proof fn the_middle_pane_is_titled_by_its_folder(level: LevelModel)
    ensures
        !level.loading && level.items.len() > 0 ==> content::content_title(Some(level)) == " "@
            + level.title + (" ("@ + text::decimal(level.items.len()) + ")"@) + " "@,
        level.loading || level.items.len() == 0 ==> content::content_title(Some(level)) == " "@
            + level.title + " "@,
        content::content_title(None) == " Content "@,
{
    reveal_strlit("");
    assert(" "@ + level.title + ""@ + " "@ =~= " "@ + level.title + " "@);
}

/// The play options and the marked list are titled by what they show.
pub proof fn lists_are_titled_by_what_they_show(
    view: MediaOptionsViewState,
    options: String,
    path: &str,
    marked: String,
)
    requires
        call_ensures(content::media_options_title, (&view,), options),
        call_ensures(list::title, (path,), marked),
    ensures
        options@ == " "@ + view.item_name@ + " — Play options "@,
        path@.len() == 0 ==> marked@ == " Items "@,
        path@.len() > 0 ==> marked@ == " "@ + path@ + " "@,
{
    assert(view@.item_name == view.item_name@);
}

} // verus!
