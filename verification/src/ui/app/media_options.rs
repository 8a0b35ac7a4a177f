//! The pre-play options of a video: versions, tracks, trailer and chapters.

use vstd::prelude::*;

use super::state;
use super::state::{App, AppModel};
use super::types::{
    ContextTopView, Intent, IntentModel, Item, ItemDetail, ItemDetailModel, ItemModel, MediaKind, MediaOptionsCursor,
    MediaOptionsModel, MediaOptionsViewState, MediaVersion, MediaVersionModel, Pane,
    TrackEntryModel, TrackPickerEntry, VideoTrackSelection, VideoTrackSelectionModel,
};
use crate::sequences;
use crate::sequences::copy_texts;
use crate::text::{concat2, same_text};
use crate::ui::keymap::{KeyCode, KeyEvent};
use crate::video::{TrackChoice, VideoOptions, VideoOptionsModel};

verus! {

impl MediaOptionsModel {
    /// The options of an item while they are being fetched.
    pub open spec fn awaiting(item: ItemModel) -> MediaOptionsModel {
        MediaOptionsModel {
            item_id: item.id,
            item_name: item.name,
            loading: true,
            versions: Seq::empty(),
            audio_entries: Seq::empty(),
            subtitle_entries: Seq::empty(),
            selected_version: 0,
            selected_audio: 0,
            selected_subtitle: 0,
            cursor: MediaOptionsCursor::Play,
            trailer_urls: Seq::empty(),
            chapters: Seq::empty(),
        }
    }
}

impl MediaOptionsModel {
    /// With trailers and chapters taken over from the detail of the same item.
    pub open spec fn detail_mirrored(
        self,
        id: Seq<char>,
        detail: ItemDetailModel,
    ) -> MediaOptionsModel {
        if self.item_id == id {
            MediaOptionsModel {
                trailer_urls: detail.trailer_urls,
                chapters: detail.chapters,
                ..self
            }
        } else {
            self
        }
    }
}

impl MediaOptionsViewState {
    /// Take trailers and chapters over from the detail of the same item.
    pub fn mirror_detail(&mut self, item_id: &str, detail: &ItemDetail)
        ensures
            final(self)@ == old(self)@.detail_mirrored(item_id@, detail@),
    {
        if same_text(self.item_id.as_str(), item_id) {
            self.trailer_urls = copy_texts(&detail.trailer_urls);
            let chapters = detail.chapters.clone();
            assert(chapters.deep_view() =~= detail.chapters.deep_view());
            self.chapters = chapters;
        }
    }
}

/// Whether a version has the given source id.
pub open spec fn version_has_source(id: Seq<char>) -> spec_fn(MediaVersionModel) -> bool {
    |version: MediaVersionModel| version.source_id == id
}

/// Whether a track entry stands for the given choice.
pub open spec fn entry_has_choice(choice: TrackChoice) -> spec_fn(TrackEntryModel) -> bool {
    |entry: TrackEntryModel| entry.choice == choice
}

/// Whether a cursor position is the given one.
pub open spec fn is_position(cursor: MediaOptionsCursor) -> spec_fn(MediaOptionsCursor) -> bool {
    |position: MediaOptionsCursor| position == cursor
}

/// A found index, or the first one.
pub open spec fn index_or_first(found: Option<int>) -> usize {
    match found {
        Some(i) => i as usize,
        None => 0,
    }
}

/// The choice of the entry at `selected`; mpv's own without one.
pub open spec fn choice_at(entries: Seq<TrackEntryModel>, selected: usize) -> TrackChoice {
    if selected < entries.len() {
        entries[selected as int].choice
    } else {
        TrackChoice::Auto
    }
}

impl MediaOptionsModel {
    /// The selectable rows, in render order.
    pub open spec fn positions(self) -> Seq<MediaOptionsCursor> {
        Seq::new(self.versions.len(), |i: int| MediaOptionsCursor::Version(i as usize)) + Seq::new(
            self.audio_entries.len(),
            |i: int| MediaOptionsCursor::Audio(i as usize),
        ) + Seq::new(
            self.subtitle_entries.len(),
            |i: int| MediaOptionsCursor::Subtitle(i as usize),
        ) + seq![MediaOptionsCursor::Play] + (if self.trailer_urls.len() > 0 {
            seq![MediaOptionsCursor::WatchTrailer]
        } else {
            Seq::empty()
        }) + Seq::new(self.chapters.len(), |i: int| MediaOptionsCursor::Chapter(i as usize))
    }

    /// Where the cursor stands among the selectable rows; on the first one when it
    /// is not among them.
    pub open spec fn cursor_place(self) -> int {
        match sequences::first_index(self.positions(), is_position(self.cursor)) {
            Some(i) => i,
            None => 0,
        }
    }

    /// The cursor `delta` rows further on, stopping at the ends.
    pub open spec fn cursor_moved(self, delta: int) -> MediaOptionsCursor {
        let next = self.cursor_place() + delta;
        let last = self.positions().len() - 1;
        self.positions()[if next < 0 {
            0
        } else if next > last {
            last
        } else {
            next
        }]
    }

    /// With the fetched lists, on the choices made last time.
    pub open spec fn filled(
        self,
        stored: Option<VideoTrackSelectionModel>,
        versions: Seq<MediaVersionModel>,
        audio_entries: Seq<TrackEntryModel>,
        subtitle_entries: Seq<TrackEntryModel>,
    ) -> MediaOptionsModel {
        let selected_version = match stored {
            Some(selection) => match selection.media_source_id {
                Some(id) => index_or_first(
                    sequences::first_index(versions, version_has_source(id)),
                ),
                None => 0,
            },
            None => 0,
        };
        let selected_audio = match stored {
            Some(selection) => index_or_first(
                sequences::first_index(audio_entries, entry_has_choice(selection.audio)),
            ),
            None => 0,
        };
        let selected_subtitle = match stored {
            Some(selection) => index_or_first(
                sequences::first_index(subtitle_entries, entry_has_choice(selection.subtitle)),
            ),
            None => 0,
        };
        MediaOptionsModel {
            versions,
            audio_entries,
            subtitle_entries,
            selected_version,
            selected_audio,
            selected_subtitle,
            loading: false,
            cursor: if versions.len() > 1 {
                MediaOptionsCursor::Version(selected_version)
            } else if audio_entries.len() > 0 {
                MediaOptionsCursor::Audio(selected_audio)
            } else {
                MediaOptionsCursor::Play
            },
            ..self
        }
    }

    /// The tracks and the version picked.
    pub open spec fn selection(self) -> VideoTrackSelectionModel {
        VideoTrackSelectionModel {
            audio: choice_at(self.audio_entries, self.selected_audio),
            subtitle: choice_at(self.subtitle_entries, self.selected_subtitle),
            media_source_id: if self.selected_version < self.versions.len() {
                Some(self.versions[self.selected_version as int].source_id)
            } else {
                None
            },
        }
    }

    /// Where chapter `n` starts; at the beginning without one.
    pub open spec fn chapter_start(self, n: usize) -> i64 {
        if n < self.chapters.len() {
            self.chapters[n as int].start_position_ticks
        } else {
            0
        }
    }
}

impl AppModel {
    /// After a video's versions and tracks came in.
    pub open spec fn options_filled(
        self,
        item_id: Seq<char>,
        versions: Seq<MediaVersionModel>,
        audio_entries: Seq<TrackEntryModel>,
        subtitle_entries: Seq<TrackEntryModel>,
    ) -> AppModel {
        match self.media_options_view {
            Some(view) => if view.item_id == item_id {
                AppModel {
                    media_options_view: Some(
                        view.filled(
                            state::lookup(self.video_track_selections, item_id),
                            versions,
                            audio_entries,
                            subtitle_entries,
                        ),
                    ),
                    ..self
                }
            } else {
                self
            },
            None => self,
        }
    }

    /// With the options left for the items list.
    pub open spec fn options_left(self) -> AppModel {
        AppModel { media_options_view: None, focus: Pane::LibraryItems, ..self }
    }

    /// With the video launched on the picked options.
    pub open spec fn options_played(
        self,
        view: MediaOptionsModel,
        start_ticks: Option<i64>,
    ) -> AppModel {
        AppModel {
            video_track_selections: self.video_track_selections.insert(
                view.item_id,
                view.selection(),
            ),
            ..self.options_left()
        }.queued(
            IntentModel::Play {
                item: ItemModel {
                    id: view.item_id,
                    name: view.item_name,
                    kind: Some("Movie"@),
                    ..ItemModel::blank()
                },
                media: MediaKind::Video,
                start_ticks,
            },
        )
    }

    /// With another options view in place of the open one.
    pub open spec fn with_options(self, view: MediaOptionsModel) -> AppModel {
        AppModel { media_options_view: Some(view), ..self }
    }

    /// After Enter on the options cursor.
    pub open spec fn options_committed(self) -> AppModel {
        match self.media_options_view {
            Some(view) => match view.cursor {
                MediaOptionsCursor::Version(n) => self.with_options(
                    MediaOptionsModel { selected_version: n, ..view },
                ),
                MediaOptionsCursor::Audio(n) => self.with_options(
                    MediaOptionsModel { selected_audio: n, ..view },
                ),
                MediaOptionsCursor::Subtitle(n) => self.with_options(
                    MediaOptionsModel { selected_subtitle: n, ..view },
                ),
                MediaOptionsCursor::Chapter(n) => self.options_played(
                    view,
                    Some(view.chapter_start(n)),
                ),
                MediaOptionsCursor::Play => self.options_played(view, None),
                MediaOptionsCursor::WatchTrailer => if view.trailer_urls.len() > 0 {
                    self.noted("Trailer: "@ + view.item_name).queued(
                        IntentModel::WatchTrailer {
                            url: view.trailer_urls[0],
                            title: view.item_name,
                        },
                    )
                } else {
                    self
                },
            },
            None => self,
        }
    }

    /// After a key while the options view owns the input.
    pub open spec fn options_key(self, code: KeyCode) -> AppModel {
        match self.media_options_view {
            Some(view) => if view.loading {
                if code == KeyCode::Esc {
                    self.options_left()
                } else {
                    self
                }
            } else {
                match code {
                    KeyCode::Esc => self.options_left(),
                    KeyCode::Backspace => self.options_left(),
                    KeyCode::Up => self.with_options(
                        MediaOptionsModel { cursor: view.cursor_moved(-1), ..view },
                    ),
                    KeyCode::Down => self.with_options(
                        MediaOptionsModel { cursor: view.cursor_moved(1), ..view },
                    ),
                    KeyCode::Enter => self.options_committed(),
                    _ => self,
                }
            },
            None => self,
        }
    }

    /// The tracks picked for a video.
    pub open spec fn selection_for(self, item_id: Seq<char>) -> VideoTrackSelectionModel {
        match state::lookup(self.video_track_selections, item_id) {
            Some(selection) => selection,
            None => VideoTrackSelectionModel::auto(),
        }
    }

    /// With a video's options on display and being fetched.
    pub open spec fn options_opened(self, item: ItemModel) -> AppModel {
        AppModel {
            media_options_view: Some(MediaOptionsModel::awaiting(item)),
            focus: Pane::Content,
            ..self.revealing(item.id).viewing(ContextTopView::Info).queued(
                IntentModel::LoadCurrentDetail { item_id: item.id, kind: item.kind },
            )
        }.queued(IntentModel::LoadMediaOptions { item_id: item.id })
    }
}

/// Linearised list of selectable rows in the media-options view, in render
/// order. Used for keyboard navigation.
pub fn options_cursor_positions(view: &MediaOptionsViewState) -> (positions: Vec<
    MediaOptionsCursor,
>)
    ensures
        positions@ == view@.positions(),
{
    let mut positions: Vec<MediaOptionsCursor> = Vec::new();
    let mut i: usize = 0;
    let ghost versions = Seq::new(
        view.versions@.len(),
        |i: int| MediaOptionsCursor::Version(i as usize),
    );
    while i < view.versions.len()
        invariant
            i <= view.versions@.len(),
            versions == Seq::new(
                view.versions@.len(),
                |i: int| MediaOptionsCursor::Version(i as usize),
            ),
            positions@ =~= versions.take(i as int),
        decreases view.versions@.len() - i,
    {
        positions.push(MediaOptionsCursor::Version(i));
        i = i + 1;
    }
    assert(positions@ =~= versions);
    let ghost audio = Seq::new(
        view.audio_entries@.len(),
        |i: int| MediaOptionsCursor::Audio(i as usize),
    );
    i = 0;
    while i < view.audio_entries.len()
        invariant
            i <= view.audio_entries@.len(),
            audio == Seq::new(
                view.audio_entries@.len(),
                |i: int| MediaOptionsCursor::Audio(i as usize),
            ),
            positions@ =~= versions + audio.take(i as int),
        decreases view.audio_entries@.len() - i,
    {
        positions.push(MediaOptionsCursor::Audio(i));
        i = i + 1;
    }
    assert(positions@ =~= versions + audio);
    let ghost subtitles = Seq::new(
        view.subtitle_entries@.len(),
        |i: int| MediaOptionsCursor::Subtitle(i as usize),
    );
    i = 0;
    while i < view.subtitle_entries.len()
        invariant
            i <= view.subtitle_entries@.len(),
            subtitles == Seq::new(
                view.subtitle_entries@.len(),
                |i: int| MediaOptionsCursor::Subtitle(i as usize),
            ),
            positions@ =~= versions + audio + subtitles.take(i as int),
        decreases view.subtitle_entries@.len() - i,
    {
        positions.push(MediaOptionsCursor::Subtitle(i));
        i = i + 1;
    }
    assert(positions@ =~= versions + audio + subtitles);
    positions.push(MediaOptionsCursor::Play);
    if view.trailer_urls.len() > 0 {
        positions.push(MediaOptionsCursor::WatchTrailer);
    }
    let ghost head = positions@;
    let ghost chapters = Seq::new(
        view.chapters@.len(),
        |i: int| MediaOptionsCursor::Chapter(i as usize),
    );
    i = 0;
    while i < view.chapters.len()
        invariant
            i <= view.chapters@.len(),
            chapters == Seq::new(
                view.chapters@.len(),
                |i: int| MediaOptionsCursor::Chapter(i as usize),
            ),
            positions@ =~= head + chapters.take(i as int),
        decreases view.chapters@.len() - i,
    {
        positions.push(MediaOptionsCursor::Chapter(i));
        i = i + 1;
    }
    assert(positions@ =~= view@.positions());
    positions
}

/// The place of the cursor among `positions`; the first row when it is not among
/// them.
pub(crate) fn cursor_place_in(
    positions: &Vec<MediaOptionsCursor>,
    cursor: MediaOptionsCursor,
) -> (place: usize)
    ensures
        place == (match sequences::first_index(positions@, is_position(cursor)) {
            Some(i) => i,
            None => 0,
        }),
        positions@.len() > 0 ==> place < positions@.len(),
{
    let ghost p = is_position(cursor);
    let mut i: usize = 0;
    while i < positions.len()
        invariant
            i <= positions@.len(),
            p == is_position(cursor),
            forall|j: int| 0 <= j < i ==> !p(#[trigger] positions@[j]),
        decreases positions@.len() - i,
    {
        if positions[i] == cursor {
            proof {
                sequences::lemma_first_index_found(positions@, p, i as int);
            }
            return i;
        }
        i = i + 1;
    }
    proof {
        sequences::lemma_first_index_missing(positions@, p);
    }
    0
}

/// Move the media-options cursor `delta` rows up (negative) or down (positive),
/// skipping non-selectable rows and clamping at the ends.
pub fn move_options_cursor(view: &MediaOptionsViewState, delta: i32) -> (cursor: MediaOptionsCursor)
    ensures
        cursor == view@.cursor_moved(delta as int),
{
    let positions = options_cursor_positions(view);
    let len: usize = positions.len();
    let place: usize = cursor_place_in(&positions, view.cursor);
    let next: usize = if delta < 0 {
        let step: u64 = (-(delta as i64)) as u64;
        if step > place as u64 {
            0
        } else {
            place - step as usize
        }
    } else {
        let room: usize = len - 1 - place;
        if delta as u64 > room as u64 {
            len - 1
        } else {
            place + delta as usize
        }
    };
    positions[next]
}

fn version_position(versions: &Vec<MediaVersion>, id: &str) -> (index: usize)
    ensures
        index == index_or_first(
            sequences::first_index(versions.deep_view(), version_has_source(id@)),
        ),
{
    let ghost p = version_has_source(id@);
    let ghost models = versions.deep_view();
    let mut i: usize = 0;
    while i < versions.len()
        invariant
            i <= versions@.len(),
            models == versions.deep_view(),
            p == version_has_source(id@),
            forall|j: int| 0 <= j < i ==> !p(#[trigger] models[j]),
        decreases versions@.len() - i,
    {
        if same_text(versions[i].source_id.as_str(), id) {
            proof {
                sequences::lemma_first_index_found(models, p, i as int);
            }
            return i;
        }
        i = i + 1;
    }
    proof {
        sequences::lemma_first_index_missing(models, p);
    }
    0
}

fn choice_position(entries: &Vec<TrackPickerEntry>, choice: TrackChoice) -> (index: usize)
    ensures
        index == index_or_first(
            sequences::first_index(entries.deep_view(), entry_has_choice(choice)),
        ),
{
    let ghost p = entry_has_choice(choice);
    let ghost models = entries.deep_view();
    let mut i: usize = 0;
    while i < entries.len()
        invariant
            i <= entries@.len(),
            models == entries.deep_view(),
            p == entry_has_choice(choice),
            forall|j: int| 0 <= j < i ==> !p(#[trigger] models[j]),
        decreases entries@.len() - i,
    {
        if entries[i].choice == choice {
            proof {
                sequences::lemma_first_index_found(models, p, i as int);
            }
            return i;
        }
        i = i + 1;
    }
    proof {
        sequences::lemma_first_index_missing(models, p);
    }
    0
}

fn entry_choice(entries: &Vec<TrackPickerEntry>, selected: usize) -> (choice: TrackChoice)
    ensures
        choice == choice_at(entries.deep_view(), selected),
{
    if selected < entries.len() {
        entries[selected].choice
    } else {
        TrackChoice::Auto
    }
}

impl MediaOptionsViewState {
    /// The tracks and the version picked.
    pub fn selection(&self) -> (selection: VideoTrackSelection)
        ensures
            selection@ == self@.selection(),
    {
        VideoTrackSelection {
            audio: entry_choice(&self.audio_entries, self.selected_audio),
            subtitle: entry_choice(&self.subtitle_entries, self.selected_subtitle),
            media_source_id: if self.selected_version < self.versions.len() {
                Some(self.versions[self.selected_version].source_id.clone())
            } else {
                None
            },
        }
    }

    /// Take the fetched lists in, on the choices made last time.
    pub fn fill(
        &mut self,
        stored: Option<&VideoTrackSelection>,
        versions: Vec<MediaVersion>,
        audio_entries: Vec<TrackPickerEntry>,
        subtitle_entries: Vec<TrackPickerEntry>,
    )
        ensures
            final(self)@ == old(self)@.filled(
                stored.deep_view(),
                versions.deep_view(),
                audio_entries.deep_view(),
                subtitle_entries.deep_view(),
            ),
    {
        self.selected_version = match stored {
            Some(selection) => match &selection.media_source_id {
                Some(id) => version_position(&versions, id.as_str()),
                None => 0,
            },
            None => 0,
        };
        self.selected_audio = match stored {
            Some(selection) => choice_position(&audio_entries, selection.audio),
            None => 0,
        };
        self.selected_subtitle = match stored {
            Some(selection) => choice_position(&subtitle_entries, selection.subtitle),
            None => 0,
        };
        self.cursor = if versions.len() > 1 {
            MediaOptionsCursor::Version(self.selected_version)
        } else if audio_entries.len() > 0 {
            MediaOptionsCursor::Audio(self.selected_audio)
        } else {
            MediaOptionsCursor::Play
        };
        self.versions = versions;
        self.audio_entries = audio_entries;
        self.subtitle_entries = subtitle_entries;
        self.loading = false;
    }
}

impl App {
    /// Reveal the item (so the info pane fetches) and open the pre-play
    /// content pane with the version + track lists. The lists are populated
    /// async via `Intent::LoadMediaOptions`.
    pub fn open_media_options_view(&mut self, item: Item)
        ensures
            final(self)@ == old(self)@.options_opened(item@),
    {
        self.reveal_item(item.id.clone());
        self.set_context_view(ContextTopView::Info);
        self.queue_intent(
            Intent::LoadCurrentDetail { item_id: item.id.clone(), kind: item.kind.clone() },
        );
        let view = MediaOptionsViewState {
            item_id: item.id.clone(),
            item_name: item.name.clone(),
            loading: true,
            versions: Vec::new(),
            audio_entries: Vec::new(),
            subtitle_entries: Vec::new(),
            selected_version: 0,
            selected_audio: 0,
            selected_subtitle: 0,
            cursor: MediaOptionsCursor::Play,
            trailer_urls: Vec::new(),
            chapters: Vec::new(),
        };
        assert(view@ =~~= MediaOptionsModel::awaiting(item@));
        self.media_options_view = Some(view);
        self.focus = Pane::Content;
        self.queue_intent(Intent::LoadMediaOptions { item_id: item.id });
    }

    /// Renderer accessor.
    pub fn media_options_view(&self) -> (view: Option<&MediaOptionsViewState>)
        ensures
            view.deep_view() == self@.media_options_view,
    {
        self.media_options_view.as_ref()
    }

    /// Fill the media-options view with the freshly-fetched lists. Preserves
    /// any prior per-item selection so reopening the view remembers choices.
    pub fn set_media_options_view_data(
        &mut self,
        item_id: &str,
        versions: Vec<MediaVersion>,
        audio_entries: Vec<TrackPickerEntry>,
        subtitle_entries: Vec<TrackPickerEntry>,
    )
        ensures
            final(self)@ == old(self)@.options_filled(
                item_id@,
                versions.deep_view(),
                audio_entries.deep_view(),
                subtitle_entries.deep_view(),
            ),
    {
        let stored = self.video_track_selections.get(item_id);
        assert(stored.deep_view() == state::lookup(self@.video_track_selections, item_id@));
        if let Some(view) = self.media_options_view.as_mut() {
            if same_text(view.item_id.as_str(), item_id) {
                view.fill(stored, versions, audio_entries, subtitle_entries);
            }
        }
    }

    /// Drop the media-options view (e.g. on Back).
    pub fn close_media_options_view(&mut self)
        ensures
            final(self)@ == (AppModel { media_options_view: None, ..old(self)@ }),
    {
        self.media_options_view = None;
    }

    fn leave_media_options(&mut self)
        ensures
            final(self)@ == old(self)@.options_left(),
    {
        self.media_options_view = None;
        self.focus = Pane::LibraryItems;
    }

    /// Remember the picked options, leave the view and launch the video.
    fn play_with_options(
        &mut self,
        item_id: String,
        item_name: String,
        selection: VideoTrackSelection,
        start_ticks: Option<i64>,
    )
        ensures
            final(self)@ == (AppModel {
                video_track_selections: old(self)@.video_track_selections.insert(
                    item_id@,
                    selection@,
                ),
                ..old(self)@.options_left()
            }).queued(
                IntentModel::Play {
                    item: ItemModel {
                        id: item_id@,
                        name: item_name@,
                        kind: Some("Movie"@),
                        ..ItemModel::blank()
                    },
                    media: MediaKind::Video,
                    start_ticks,
                },
            ),
    {
        self.video_track_selections.insert(item_id.clone(), selection);
        assert(self.video_track_selections.deep_view()
            =~= old(self)@.video_track_selections.insert(item_id@, selection@));
        self.leave_media_options();
        let item = Item {
            id: item_id,
            name: item_name,
            kind: Some("Movie".to_owned()),
            ..Item::default()
        };
        self.queue_intent(Intent::Play { item, media: MediaKind::Video, start_ticks });
    }

    /// Make the row under the options cursor the selected one of its list.
    fn select_option_row(&mut self)
        ensures
            final(self)@ == match old(self)@.media_options_view {
                Some(view) => match view.cursor {
                    MediaOptionsCursor::Version(n) => old(self)@.with_options(
                        MediaOptionsModel { selected_version: n, ..view },
                    ),
                    MediaOptionsCursor::Audio(n) => old(self)@.with_options(
                        MediaOptionsModel { selected_audio: n, ..view },
                    ),
                    MediaOptionsCursor::Subtitle(n) => old(self)@.with_options(
                        MediaOptionsModel { selected_subtitle: n, ..view },
                    ),
                    _ => old(self)@,
                },
                None => old(self)@,
            },
    {
        if let Some(view) = self.media_options_view.as_mut() {
            match view.cursor {
                MediaOptionsCursor::Version(n) => {
                    view.selected_version = n;
                },
                MediaOptionsCursor::Audio(n) => {
                    view.selected_audio = n;
                },
                MediaOptionsCursor::Subtitle(n) => {
                    view.selected_subtitle = n;
                },
                _ => {},
            }
        }
    }

    /// Launch the video of the open options view on the picked options.
    fn launch_options(&mut self, start_ticks: Option<i64>)
        ensures
            final(self)@ == match old(self)@.media_options_view {
                Some(view) => old(self)@.options_played(view, start_ticks),
                None => old(self)@,
            },
    {
        let (item_id, item_name, selection) = match &self.media_options_view {
            Some(view) => (view.item_id.clone(), view.item_name.clone(), view.selection()),
            None => {
                return ;
            },
        };
        self.play_with_options(item_id, item_name, selection, start_ticks);
    }

    /// Play the first trailer of the open options view.
    fn play_options_trailer(&mut self)
        ensures
            final(self)@ == match old(self)@.media_options_view {
                Some(view) => if view.trailer_urls.len() > 0 {
                    old(self)@.noted("Trailer: "@ + view.item_name).queued(
                        IntentModel::WatchTrailer {
                            url: view.trailer_urls[0],
                            title: view.item_name,
                        },
                    )
                } else {
                    old(self)@
                },
                None => old(self)@,
            },
    {
        let (url, title) = match &self.media_options_view {
            Some(view) => {
                if view.trailer_urls.len() == 0 {
                    return ;
                }
                (view.trailer_urls[0].clone(), view.item_name.clone())
            },
            None => {
                return ;
            },
        };
        let note = concat2("Trailer: ", title.as_str());
        self.set_status(note.as_str());
        self.queue_intent(Intent::WatchTrailer { url, title });
    }

    /// Enter on the media-options cursor: a version, audio or subtitle row selects
    /// that row; Play and a chapter launch the video with the picked options; the
    /// trailer row plays the trailer.
    pub fn commit_media_options_cursor(&mut self)
        ensures
            final(self)@ == old(self)@.options_committed(),
    {
        let (cursor, start) = match &self.media_options_view {
            Some(view) => {
                let start: i64 = match view.cursor {
                    MediaOptionsCursor::Chapter(n) => if n < view.chapters.len() {
                        view.chapters[n].start_position_ticks
                    } else {
                        0
                    },
                    _ => 0,
                };
                (view.cursor, start)
            },
            None => {
                return ;
            },
        };
        match cursor {
            MediaOptionsCursor::Version(_) | MediaOptionsCursor::Audio(_)
            | MediaOptionsCursor::Subtitle(_) => self.select_option_row(),
            MediaOptionsCursor::Chapter(_) => self.launch_options(Some(start)),
            MediaOptionsCursor::Play => self.launch_options(None),
            MediaOptionsCursor::WatchTrailer => self.play_options_trailer(),
        }
    }

    fn move_media_options_cursor(&mut self, delta: i32)
        ensures
            final(self)@ == match old(self)@.media_options_view {
                Some(view) => old(self)@.with_options(
                    MediaOptionsModel { cursor: view.cursor_moved(delta as int), ..view },
                ),
                None => old(self)@,
            },
    {
        if let Some(view) = self.media_options_view.as_mut() {
            let cursor = move_options_cursor(view, delta);
            view.cursor = cursor;
        }
    }

    /// A key while the media-options view owns the input.
    pub fn handle_media_options_key(&mut self, key: KeyEvent)
        ensures
            final(self)@ == old(self)@.options_key(key.code),
    {
        let loading = match &self.media_options_view {
            Some(view) => view.loading,
            None => {
                return ;
            },
        };
        if loading {
            if key.code == KeyCode::Esc {
                self.leave_media_options();
            }
            return ;
        }
        match key.code {
            KeyCode::Esc | KeyCode::Backspace => self.leave_media_options(),
            KeyCode::Up => self.move_media_options_cursor(-1),
            KeyCode::Down => self.move_media_options_cursor(1),
            KeyCode::Enter => self.commit_media_options_cursor(),
            _ => {},
        }
    }

    /// The launch options for a video: the tracks picked for it, everything else
    /// left to mpv.
    pub fn video_options_for(&self, item_id: &str) -> (options: VideoOptions)
        ensures
            options@ == (VideoOptionsModel {
                audio: Some(self@.selection_for(item_id@).audio),
                subtitle: Some(self@.selection_for(item_id@).subtitle),
                start_secs: None,
                extra_args: Seq::empty(),
            }),
    {
        let (audio, subtitle) = match self.video_track_selections.get(item_id) {
            Some(selection) => (selection.audio, selection.subtitle),
            None => (TrackChoice::Auto, TrackChoice::Auto),
        };
        let options = VideoOptions {
            audio: Some(audio),
            subtitle: Some(subtitle),
            start_secs: None,
            extra_args: Vec::new(),
        };
        assert(options@.extra_args =~= Seq::empty());
        options
    }

    /// The chosen alternate media-source id for `item_id`, when one was
    /// picked in the media-options view. `None` ⇒ use Jellyfin's default.
    pub fn video_media_source_for(&self, item_id: &str) -> (source: Option<String>)
        ensures
            source.deep_view() == self@.selection_for(item_id@).media_source_id,
    {
        match self.video_track_selections.get(item_id) {
            Some(selection) => selection.media_source_id.clone(),
            None => None,
        }
    }
}

/// The options cursor always sits on a selectable row after it was moved, and the
/// Play row is always there.
pub proof fn moved_cursor_is_selectable(view: MediaOptionsModel, delta: int)
    ensures
        view.positions().contains(view.cursor_moved(delta)),
        view.positions().contains(MediaOptionsCursor::Play),
{
    sequences::lemma_first_index(view.positions(), is_position(view.cursor));
    let before = view.versions.len() + view.audio_entries.len() + view.subtitle_entries.len();
    assert(view.positions()[before as int] == MediaOptionsCursor::Play);
}

/// No row of the options view comes up twice, so moving down and up again from a
/// row with rows on both sides comes back to it.
pub proof fn cursor_steps_are_inverse(view: MediaOptionsModel)
    requires
        view.versions.len() <= usize::MAX,
        view.audio_entries.len() <= usize::MAX,
        view.subtitle_entries.len() <= usize::MAX,
        view.chapters.len() <= usize::MAX,
        view.positions().contains(view.cursor),
    ensures
        view.cursor_place() + 1 < view.positions().len() ==> (MediaOptionsModel {
            cursor: view.cursor_moved(1),
            ..view
        }).cursor_moved(-1) == view.cursor,
        view.cursor_place() > 0 ==> (MediaOptionsModel {
            cursor: view.cursor_moved(-1),
            ..view
        }).cursor_moved(1) == view.cursor,
{
    let down = MediaOptionsModel { cursor: view.cursor_moved(1), ..view };
    let up = MediaOptionsModel { cursor: view.cursor_moved(-1), ..view };
    lemma_places_are_unique(view, view.cursor);
    lemma_places_are_unique(view, down.cursor);
    lemma_places_are_unique(view, up.cursor);
    moved_cursor_is_selectable(view, 1);
    moved_cursor_is_selectable(view, -1);
    assert(down.positions() == view.positions());
    assert(up.positions() == view.positions());
}

pub proof fn lemma_places_are_unique(view: MediaOptionsModel, cursor: MediaOptionsCursor)
    requires
        view.versions.len() <= usize::MAX,
        view.audio_entries.len() <= usize::MAX,
        view.subtitle_entries.len() <= usize::MAX,
        view.chapters.len() <= usize::MAX,
    ensures
        view.positions().contains(cursor) ==> sequences::first_index(
            view.positions(),
            is_position(cursor),
        ) is Some,
        forall|i: int|
            0 <= i < view.positions().len() && #[trigger] view.positions()[i] == cursor
                ==> sequences::first_index(view.positions(), is_position(cursor)) == Some(i),
{
    let positions = view.positions();
    sequences::lemma_first_index(positions, is_position(cursor));
    assert forall|i: int, j: int| 0 <= i < j < positions.len() implies positions[i]
        != positions[j] by {
        let a = view.versions.len() as int;
        let b = a + view.audio_entries.len();
        let c = b + view.subtitle_entries.len();
        let d = c + 1 + (if view.trailer_urls.len() > 0 {
            1int
        } else {
            0int
        });
        if j < a {
            assert(positions[i] == MediaOptionsCursor::Version(i as usize));
            assert(positions[j] == MediaOptionsCursor::Version(j as usize));
        } else if j < b {
            assert(positions[j] == MediaOptionsCursor::Audio((j - a) as usize));
            if i >= a {
                assert(positions[i] == MediaOptionsCursor::Audio((i - a) as usize));
            }
        } else if j < c {
            assert(positions[j] == MediaOptionsCursor::Subtitle((j - b) as usize));
            if i >= b {
                assert(positions[i] == MediaOptionsCursor::Subtitle((i - b) as usize));
            }
        } else if j >= d {
            assert(positions[j] == MediaOptionsCursor::Chapter((j - d) as usize));
            if i >= d {
                assert(positions[i] == MediaOptionsCursor::Chapter((i - d) as usize));
            }
        }
    }
}

/// What Play records for a video is what its next launch and its next options view
/// are given.
pub proof fn played_options_are_remembered(app: AppModel, view: MediaOptionsModel)
    ensures
        app.options_played(view, None).selection_for(view.item_id) == view.selection(),
{
}

} // verus!
