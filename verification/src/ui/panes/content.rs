//! Content pane (middle column): reserved for actual content — a drilled-in
//! album's tracks, a series' episodes, a playlist's songs, etc. — and for a video's
//! play options.

use vstd::prelude::*;

use super::decor;
use super::decor::rows_of;
use crate::sequences;
use crate::sequences::push_deep;
use crate::text;
use crate::text::{concat3, concat4, decimal_text, padded_start, signed_decimal_text};

use crate::ui::app::media_options::{cursor_place_in, options_cursor_positions};
use crate::ui::app::types::{
    Chapter, ChapterModel, Item, ItemModel, Level, LevelModel, MediaKind, MediaOptionsCursor,
    MediaOptionsModel, MediaOptionsViewState, MediaVersion, MediaVersionModel, TrackEntryModel,
    TrackPickerEntry,
};
use crate::ui::durations;
use crate::ui::durations::{format_chapter_timestamp, format_track_length};
use crate::ui::lines::{Span, SpanModel, Tone};

verus! {

/// Columns of the tracklist's track numbers.
pub const NUMBER_WIDTH: usize = 3;

/// One row of the music tracklist.
#[derive(Debug)]
pub struct TrackRow {
    pub number: String,
    pub title: String,
    pub plays: String,
    pub favorite: &'static str,
    pub length: String,
}

/// The contents of a [`TrackRow`].
#[verifier::ext_equal]
pub struct TrackRowModel {
    pub number: Seq<char>,
    pub title: Seq<char>,
    pub plays: Seq<char>,
    pub favorite: Seq<char>,
    pub length: Seq<char>,
}

impl View for TrackRow {
    type V = TrackRowModel;

    open spec fn view(&self) -> TrackRowModel {
        TrackRowModel {
            number: self.number@,
            title: self.title@,
            plays: self.plays@,
            favorite: self.favorite@,
            length: self.length@,
        }
    }
}

impl DeepView for TrackRow {
    type V = TrackRowModel;

    open spec fn deep_view(&self) -> TrackRowModel {
        self@
    }
}

/// What the pane shows below its title.
#[derive(Debug)]
pub enum ContentBody {
    /// One muted line in place of a list.
    Message(&'static str),
    /// The rows and the selected one.
    Rows(Vec<Vec<Span>>, usize),
    /// A music tracklist and the selected track.
    Tracks(Vec<TrackRow>, usize),
}

/// The contents of a [`ContentBody`].
#[verifier::ext_equal]
pub enum ContentBodyModel {
    Message(Seq<char>),
    Rows(Seq<Seq<SpanModel>>, usize),
    Tracks(Seq<TrackRowModel>, usize),
}

impl View for ContentBody {
    type V = ContentBodyModel;

    open spec fn view(&self) -> ContentBodyModel {
        match self {
            ContentBody::Message(text) => ContentBodyModel::Message(text@),
            ContentBody::Rows(rows, selected) => ContentBodyModel::Rows(rows.deep_view(), *selected),
            ContentBody::Tracks(rows, selected) => ContentBodyModel::Tracks(
                rows.deep_view(),
                *selected,
            ),
        }
    }
}

/// Whether a list is made of tracks only.
pub open spec fn all_audio(items: Seq<ItemModel>) -> bool {
    items.len() > 0 && forall|i: int|
        0 <= i < items.len() ==> (#[trigger] items[i]).media() == MediaKind::Audio
}

/// The tracklist's row for the item at `i`.
pub open spec fn track_row(item: ItemModel, i: int) -> TrackRowModel {
    TrackRowModel {
        number: text::pad_start(
            match item.track_number {
                Some(n) => text::signed_decimal(n as int),
                None => text::decimal((i + 1) as nat),
            },
            NUMBER_WIDTH as nat,
            ' ',
        ),
        title: item.name,
        plays: if item.play_count > 0 {
            text::decimal(item.play_count as nat)
        } else {
            "—"@
        },
        favorite: if item.is_favorite {
            "♥"@
        } else {
            " "@
        },
        length: match item.run_time_ticks {
            Some(ticks) => match durations::track_length(ticks) {
                Some(known) => known,
                None => "—"@,
            },
            None => "—"@,
        },
    }
}

/// The tracklist.
pub open spec fn track_rows(items: Seq<ItemModel>) -> Seq<TrackRowModel> {
    Seq::new(items.len(), |i: int| track_row(items[i], i))
}

/// The pane's title.
pub open spec fn content_title(drilled: Option<LevelModel>) -> Seq<char> {
    match drilled {
        Some(level) => " "@ + level.title + level.count_suffix() + " "@,
        None => " Content "@,
    }
}

/// What the pane shows.
pub open spec fn content_body(drilled: Option<LevelModel>) -> ContentBodyModel {
    match drilled {
        Some(level) => if level.loading {
            ContentBodyModel::Message("Loading…"@)
        } else if level.items.len() == 0 {
            ContentBodyModel::Message("Empty."@)
        } else if all_audio(level.items) {
            ContentBodyModel::Tracks(track_rows(level.items), level.selected)
        } else {
            ContentBodyModel::Rows(decor::item_rows(level.items), level.selected)
        },
        None => ContentBodyModel::Message(
            "Select an album, playlist, or series, then press Enter to view its contents."@,
        ),
    }
}

/// Whether a list is made of tracks only.
pub fn is_all_audio(items: &Vec<Item>) -> (all: bool)
    ensures
        all == all_audio(items.deep_view()),
{
    if items.len() == 0 {
        return false;
    }
    let ghost models = items.deep_view();
    let mut i: usize = 0;
    while i < items.len()
        invariant
            i <= items@.len(),
            models == items.deep_view(),
            forall|j: int| 0 <= j < i ==> (#[trigger] models[j]).media() == MediaKind::Audio,
        decreases items@.len() - i,
    {
        if items[i].media() != MediaKind::Audio {
            assert(models[i as int].media() != MediaKind::Audio);
            return false;
        }
        i = i + 1;
    }
    true
}

fn track_row_of(item: &Item, i: usize) -> (row: TrackRow)
    requires
        i < usize::MAX,
    ensures
        row@ == track_row(item@, i as int),
{
    let number = match item.track_number {
        Some(n) => signed_decimal_text(n as i64),
        None => decimal_text((i + 1) as u64),
    };
    TrackRow {
        number: padded_start(number.as_str(), NUMBER_WIDTH, ' '),
        title: item.name.clone(),
        plays: if item.play_count > 0 {
            decimal_text(item.play_count as u64)
        } else {
            "—".to_owned()
        },
        favorite: if item.is_favorite {
            "♥"
        } else {
            " "
        },
        length: match item.run_time_ticks {
            Some(ticks) => match format_track_length(ticks) {
                Some(known) => known,
                None => "—".to_owned(),
            },
            None => "—".to_owned(),
        },
    }
}

/// The drilled-in level as a music tracklist: number, title, play count, favorite
/// marker, length.
pub fn track_table(items: &Vec<Item>) -> (rows: Vec<TrackRow>)
    ensures
        rows.deep_view() == track_rows(items.deep_view()),
{
    let ghost goal = track_rows(items.deep_view());
    let mut rows: Vec<TrackRow> = Vec::new();
    let mut i: usize = 0;
    while i < items.len()
        invariant
            i <= items@.len(),
            goal == track_rows(items.deep_view()),
            rows.deep_view() =~= goal.take(i as int),
        decreases items@.len() - i,
    {
        push_deep(&mut rows, track_row_of(&items[i], i));
        proof {
            sequences::lemma_take_push(goal, i as int);
        }
        i = i + 1;
    }
    proof {
        sequences::lemma_take_all(goal);
    }
    rows
}

/// The title of the content pane.
pub fn title(drilled: Option<&Level>) -> (text: String)
    ensures
        text@ == content_title(drilled.deep_view()),
{
    match drilled {
        Some(level) => concat4(" ", level.title.as_str(), level.count_suffix().as_str(), " "),
        None => " Content ".to_owned(),
    }
}

/// What the content pane shows. Music tracks get a multi-column tracklist;
/// everything else stays a list.
pub fn body(drilled: Option<&Level>) -> (body: ContentBody)
    ensures
        body@ == content_body(drilled.deep_view()),
{
    match drilled {
        Some(level) => if level.loading {
            ContentBody::Message("Loading…")
        } else if level.items.len() == 0 {
            ContentBody::Message("Empty.")
        } else if is_all_audio(&level.items) {
            ContentBody::Tracks(track_table(&level.items), level.selected)
        } else {
            ContentBody::Rows(rows_of(&level.items), level.selected)
        },
        None => ContentBody::Message(
            "Select an album, playlist, or series, then press Enter to view its contents.",
        ),
    }
}

/// One row of the play options: its text, and what the cursor can select there.
#[derive(Debug)]
pub struct OptionRow {
    pub tone: Tone,
    pub text: String,
    pub cursor: Option<MediaOptionsCursor>,
}

/// The contents of an [`OptionRow`].
#[verifier::ext_equal]
pub struct OptionRowModel {
    pub tone: Tone,
    pub text: Seq<char>,
    pub cursor: Option<MediaOptionsCursor>,
}

impl View for OptionRow {
    type V = OptionRowModel;

    open spec fn view(&self) -> OptionRowModel {
        OptionRowModel { tone: self.tone, text: self.text@, cursor: self.cursor }
    }
}

impl DeepView for OptionRow {
    type V = OptionRowModel;

    open spec fn deep_view(&self) -> OptionRowModel {
        self@
    }
}

/// A row that the cursor skips.
pub open spec fn heading_row(tone: Tone, title: Seq<char>) -> OptionRowModel {
    OptionRowModel { tone, text: title, cursor: None }
}

/// A row that the cursor can stand on.
pub open spec fn cursor_row(
    tone: Tone,
    text: Seq<char>,
    cursor: MediaOptionsCursor,
) -> OptionRowModel {
    OptionRowModel { tone, text, cursor: Some(cursor) }
}

/// A choice with its radio mark.
pub open spec fn choice_label(chosen: bool, label: Seq<char>) -> Seq<char> {
    "  "@ + (if chosen {
        "●"@
    } else {
        "○"@
    }) + "  "@ + label
}

/// Which of the three lists of choices a row belongs to.
#[derive(Debug, Clone, Copy, PartialEq, Eq, Structural)]
pub enum ChoiceList {
    Versions,
    Audio,
    Subtitles,
}

impl ChoiceList {
    /// The cursor position of choice `i`.
    pub open spec fn position(self, i: usize) -> MediaOptionsCursor {
        match self {
            ChoiceList::Versions => MediaOptionsCursor::Version(i),
            ChoiceList::Audio => MediaOptionsCursor::Audio(i),
            ChoiceList::Subtitles => MediaOptionsCursor::Subtitle(i),
        }
    }

    fn position_of(self, i: usize) -> (cursor: MediaOptionsCursor)
        ensures
            cursor == self.position(i),
    {
        match self {
            ChoiceList::Versions => MediaOptionsCursor::Version(i),
            ChoiceList::Audio => MediaOptionsCursor::Audio(i),
            ChoiceList::Subtitles => MediaOptionsCursor::Subtitle(i),
        }
    }
}

/// The rows of a list of choices.
pub open spec fn choice_rows(
    list: ChoiceList,
    labels: Seq<Seq<char>>,
    selected: usize,
) -> Seq<OptionRowModel> {
    Seq::new(
        labels.len(),
        |i: int|
            cursor_row(
                Tone::ListItem,
                choice_label(i == selected, labels[i]),
                list.position(i as usize),
            ),
    )
}

/// The row of chapter `i`.
pub open spec fn chapter_row(chapter: ChapterModel, i: usize) -> OptionRowModel {
    cursor_row(
        Tone::ListItem,
        "  ▶  "@ + durations::chapter_timestamp(chapter.start_position_ticks) + "  "@
            + chapter.name,
        MediaOptionsCursor::Chapter(i),
    )
}

/// The rows of the chapters.
pub open spec fn chapter_rows(chapters: Seq<ChapterModel>) -> Seq<OptionRowModel> {
    Seq::new(chapters.len(), |i: int| chapter_row(chapters[i], i as usize))
}

/// The labels of the versions.
pub open spec fn version_labels(versions: Seq<MediaVersionModel>) -> Seq<Seq<char>> {
    versions.map_values(|version: MediaVersionModel| version.label)
}

/// The labels of the tracks.
pub open spec fn track_labels(entries: Seq<TrackEntryModel>) -> Seq<Seq<char>> {
    entries.map_values(|entry: TrackEntryModel| entry.label)
}

/// Whether a row is the one at a cursor position.
pub open spec fn stands_at(cursor: MediaOptionsCursor) -> spec_fn(OptionRowModel) -> bool {
    |row: OptionRowModel| row.cursor == Some(cursor)
}

impl MediaOptionsModel {
    /// The rows of the play options.
    pub open spec fn rows(self) -> Seq<OptionRowModel> {
        (if self.versions.len() > 1 {
            seq![heading_row(Tone::Header, "Version"@)] + choice_rows(
                ChoiceList::Versions,
                version_labels(self.versions),
                self.selected_version,
            )
        } else {
            Seq::empty()
        }) + seq![heading_row(Tone::Header, "Audio"@)] + choice_rows(
            ChoiceList::Audio,
            track_labels(self.audio_entries),
            self.selected_audio,
        ) + seq![heading_row(Tone::Header, "Subtitles"@)] + choice_rows(
            ChoiceList::Subtitles,
            track_labels(self.subtitle_entries),
            self.selected_subtitle,
        ) + seq![
            heading_row(Tone::ListItem, ""@),
            cursor_row(Tone::Header, "  ▶  Play"@, MediaOptionsCursor::Play),
        ] + (if self.trailer_urls.len() > 0 {
            seq![
                cursor_row(
                    Tone::Header,
                    "  ▶  Watch trailer"@,
                    MediaOptionsCursor::WatchTrailer,
                ),
            ]
        } else {
            Seq::empty()
        }) + (if self.chapters.len() > 0 {
            seq![heading_row(Tone::ListItem, ""@), heading_row(Tone::Header, "Chapters"@)]
                + chapter_rows(self.chapters)
        } else {
            Seq::empty()
        })
    }

    /// The cursor position that the highlight follows: the cursor itself, or the
    /// first one when it is not among the selectable rows.
    pub open spec fn shown_cursor(self) -> MediaOptionsCursor {
        self.positions()[self.cursor_place()]
    }

    /// The highlighted row.
    pub open spec fn highlighted(self) -> Option<int> {
        sequences::first_index(self.rows(), stands_at(self.shown_cursor()))
    }
}

fn add_row(
    rows: &mut Vec<OptionRow>,
    tone: Tone,
    text: &str,
    cursor: Option<MediaOptionsCursor>,
)
    ensures
        final(rows).deep_view() == old(rows).deep_view() + seq![
            (OptionRowModel { tone, text: text@, cursor }),
        ],
{
    push_deep(rows, OptionRow { tone, text: text.to_owned(), cursor });
    assert(rows.deep_view() =~= old(rows).deep_view() + seq![
        (OptionRowModel { tone, text: text@, cursor }),
    ]);
}

fn add_choices(rows: &mut Vec<OptionRow>, list: ChoiceList, labels: &Vec<String>, selected: usize)
    ensures
        final(rows).deep_view() == old(rows).deep_view() + choice_rows(
            list,
            labels.deep_view(),
            selected,
        ),
{
    let ghost goal = choice_rows(list, labels.deep_view(), selected);
    let ghost before = rows.deep_view();
    let mut i: usize = 0;
    while i < labels.len()
        invariant
            i <= labels@.len(),
            goal == choice_rows(list, labels.deep_view(), selected),
            rows.deep_view() =~= before + goal.take(i as int),
        decreases labels@.len() - i,
    {
        let mark = if i == selected {
            "●"
        } else {
            "○"
        };
        let text = concat4("  ", mark, "  ", labels[i].as_str());
        push_deep(
            rows,
            OptionRow { tone: Tone::ListItem, text, cursor: Some(list.position_of(i)) },
        );
        proof {
            sequences::lemma_take_push(goal, i as int);
        }
        i = i + 1;
    }
    proof {
        sequences::lemma_take_all(goal);
    }
}

fn add_chapters(rows: &mut Vec<OptionRow>, chapters: &Vec<Chapter>)
    ensures
        final(rows).deep_view() == old(rows).deep_view() + chapter_rows(chapters.deep_view()),
{
    let ghost goal = chapter_rows(chapters.deep_view());
    let ghost before = rows.deep_view();
    let mut i: usize = 0;
    while i < chapters.len()
        invariant
            i <= chapters@.len(),
            goal == chapter_rows(chapters.deep_view()),
            rows.deep_view() =~= before + goal.take(i as int),
        decreases chapters@.len() - i,
    {
        let stamp = format_chapter_timestamp(chapters[i].start_position_ticks);
        let text = concat4("  ▶  ", stamp.as_str(), "  ", chapters[i].name.as_str());
        push_deep(
            rows,
            OptionRow {
                tone: Tone::ListItem,
                text,
                cursor: Some(MediaOptionsCursor::Chapter(i)),
            },
        );
        proof {
            sequences::lemma_take_push(goal, i as int);
        }
        i = i + 1;
    }
    proof {
        sequences::lemma_take_all(goal);
    }
}

fn labels_of_versions(versions: &Vec<MediaVersion>) -> (labels: Vec<String>)
    ensures
        labels.deep_view() == version_labels(versions.deep_view()),
{
    let ghost goal = version_labels(versions.deep_view());
    let mut labels: Vec<String> = Vec::new();
    let mut i: usize = 0;
    while i < versions.len()
        invariant
            i <= versions@.len(),
            goal == version_labels(versions.deep_view()),
            labels.deep_view() =~= goal.take(i as int),
        decreases versions@.len() - i,
    {
        push_deep(&mut labels, versions[i].label.clone());
        proof {
            sequences::lemma_take_push(goal, i as int);
        }
        i = i + 1;
    }
    proof {
        sequences::lemma_take_all(goal);
    }
    labels
}

fn labels_of_tracks(entries: &Vec<TrackPickerEntry>) -> (labels: Vec<String>)
    ensures
        labels.deep_view() == track_labels(entries.deep_view()),
{
    let ghost goal = track_labels(entries.deep_view());
    let mut labels: Vec<String> = Vec::new();
    let mut i: usize = 0;
    while i < entries.len()
        invariant
            i <= entries@.len(),
            goal == track_labels(entries.deep_view()),
            labels.deep_view() =~= goal.take(i as int),
        decreases entries@.len() - i,
    {
        push_deep(&mut labels, entries[i].label.clone());
        proof {
            sequences::lemma_take_push(goal, i as int);
        }
        i = i + 1;
    }
    proof {
        sequences::lemma_take_all(goal);
    }
    labels
}

/// The title of the play options.
pub fn media_options_title(view: &MediaOptionsViewState) -> (title: String)
    ensures
        title@ == " "@ + view@.item_name + " — Play options "@,
{
    concat3(" ", view.item_name.as_str(), " — Play options ")
}

/// Pre-play media options for a video item: version + audio + subtitles +
/// Play. The version list is only shown when there's more than one.
pub fn media_options_rows(view: &MediaOptionsViewState) -> (rows: Vec<OptionRow>)
    ensures
        rows.deep_view() == view@.rows(),
{
    let mut rows: Vec<OptionRow> = Vec::new();
    if view.versions.len() > 1 {
        add_row(&mut rows, Tone::Header, "Version", None);
        let labels = labels_of_versions(&view.versions);
        add_choices(&mut rows, ChoiceList::Versions, &labels, view.selected_version);
    }
    let ghost versions = rows.deep_view();
    assert(versions =~= (if view@.versions.len() > 1 {
        seq![heading_row(Tone::Header, "Version"@)] + choice_rows(
            ChoiceList::Versions,
            version_labels(view@.versions),
            view@.selected_version,
        )
    } else {
        Seq::empty()
    }));
    add_row(&mut rows, Tone::Header, "Audio", None);
    let audio = labels_of_tracks(&view.audio_entries);
    add_choices(&mut rows, ChoiceList::Audio, &audio, view.selected_audio);
    add_row(&mut rows, Tone::Header, "Subtitles", None);
    let subtitles = labels_of_tracks(&view.subtitle_entries);
    add_choices(&mut rows, ChoiceList::Subtitles, &subtitles, view.selected_subtitle);
    add_row(&mut rows, Tone::ListItem, "", None);
    add_row(&mut rows, Tone::Header, "  ▶  Play", Some(MediaOptionsCursor::Play));
    if view.trailer_urls.len() > 0 {
        add_row(
            &mut rows,
            Tone::Header,
            "  ▶  Watch trailer",
            Some(MediaOptionsCursor::WatchTrailer),
        );
    }
    if view.chapters.len() > 0 {
        add_row(&mut rows, Tone::ListItem, "", None);
        add_row(&mut rows, Tone::Header, "Chapters", None);
        add_chapters(&mut rows, &view.chapters);
    }
    assert(rows.deep_view() =~= view@.rows());
    rows
}

/// The row that the play options highlight, if the cursor stands on one.
pub fn media_options_highlight(view: &MediaOptionsViewState) -> (row: Option<usize>)
    ensures
        match row {
            Some(i) => view@.highlighted() == Some(i as int) && i < view@.rows().len(),
            None => view@.highlighted() is None,
        },
{
    let positions = options_cursor_positions(view);
    let place: usize = cursor_place_in(&positions, view.cursor);
    let cursor = positions[place];
    let rows = media_options_rows(view);
    let ghost models = rows.deep_view();
    let ghost p = stands_at(cursor);
    let mut i: usize = 0;
    while i < rows.len()
        invariant
            i <= rows@.len(),
            models == rows.deep_view(),
            models == view@.rows(),
            p == stands_at(cursor),
            cursor == view@.shown_cursor(),
            forall|j: int| 0 <= j < i ==> !p(#[trigger] models[j]),
        decreases rows@.len() - i,
    {
        if rows[i].cursor == Some(cursor) {
            proof {
                sequences::lemma_first_index_found(models, p, i as int);
            }
            return Some(i);
        }
        i = i + 1;
    }
    proof {
        sequences::lemma_first_index_missing(models, p);
    }
    None
}

} // verus!
