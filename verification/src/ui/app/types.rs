//! The data the client works on: library items and what is known of them, the
//! overlays' state, and the side effects a key press can ask for. Each type that
//! holds text or lists comes with the model its contracts speak of.

use vstd::prelude::*;

use crate::config::{EqPreset, RepeatModePref};
use crate::sequences::copy_texts;
use crate::string_map::StringMap;
use crate::text::{is_text};
use crate::time::Duration;
use crate::video::TrackChoice;

verus! {

/// Which pane the user is interacting with. The top bar owns library selection
/// (1-9) + search; the four content panes (library items, sections, content,
/// context) take focus for navigation.
#[derive(Debug, Clone, Copy, PartialEq, Eq, Structural)]
pub enum Pane {
    TopBar,
    /// Home view (welcome strip + carousels + library tiles). Takes over the
    /// full main area; when focused, navigation hands off to the home
    /// pane's row/column cursor.
    Home,
    /// Global search view: own input + flat result list across every library.
    /// Opened via `g s`. Like Home, takes over the full main area.
    GlobalSearch,
    LibraryItems,
    LibrarySections,
    Content,
    ContextTop,
    ContextBottom,
}

impl DeepView for Pane {
    type V = Pane;

    open spec fn deep_view(&self) -> Pane {
        *self
    }
}

/// A library item (movie, episode, album, …) with the fields the detail pane shows.
#[derive(Debug, PartialEq)]
pub struct Item {
    pub id: String,
    pub name: String,
    pub overview: Option<String>,
    pub production_year: Option<i32>,
    /// Length in 100 ns ticks.
    pub run_time_ticks: Option<i64>,
    pub kind: Option<String>,
    pub primary_image_tag: Option<String>,
    /// A container (series, season, album, artist, …) the user can drill into,
    /// as opposed to a playable leaf.
    pub is_folder: bool,
    pub is_favorite: bool,
    pub is_played: bool,
    /// Per-track normalization in dB, when the server carries it, as the bit
    /// pattern of a single-precision float.
    pub normalization_gain_bits: Option<u32>,
    /// Parent album id (set on `Audio` tracks). Drives the "Go to album" menu jump.
    pub album_id: Option<String>,
    /// Album display name (paired with `album_id`).
    pub album_name: Option<String>,
    /// Primary artist reference for the "Go to artist" menu jump. Prefers the
    /// album-artist on tracks/albums and falls back to the first track artist.
    pub primary_artist_id: Option<String>,
    pub primary_artist_name: Option<String>,
    /// Position on the album, when the server carries it.
    pub track_number: Option<i32>,
    /// How often the user has played the item.
    pub play_count: i64,
}

/// The contents of an [`Item`].
#[verifier::ext_equal]
pub struct ItemModel {
    pub id: Seq<char>,
    pub name: Seq<char>,
    pub overview: Option<Seq<char>>,
    pub production_year: Option<i32>,
    pub run_time_ticks: Option<i64>,
    pub kind: Option<Seq<char>>,
    pub primary_image_tag: Option<Seq<char>>,
    pub is_folder: bool,
    pub is_favorite: bool,
    pub is_played: bool,
    pub normalization_gain_bits: Option<u32>,
    pub album_id: Option<Seq<char>>,
    pub album_name: Option<Seq<char>>,
    pub primary_artist_id: Option<Seq<char>>,
    pub primary_artist_name: Option<Seq<char>>,
    pub track_number: Option<i32>,
    pub play_count: i64,
}

impl View for Item {
    type V = ItemModel;

    open spec fn view(&self) -> ItemModel {
        ItemModel {
            id: self.id@,
            name: self.name@,
            overview: self.overview.deep_view(),
            production_year: self.production_year,
            run_time_ticks: self.run_time_ticks,
            kind: self.kind.deep_view(),
            primary_image_tag: self.primary_image_tag.deep_view(),
            is_folder: self.is_folder,
            is_favorite: self.is_favorite,
            is_played: self.is_played,
            normalization_gain_bits: self.normalization_gain_bits,
            album_id: self.album_id.deep_view(),
            album_name: self.album_name.deep_view(),
            primary_artist_id: self.primary_artist_id.deep_view(),
            primary_artist_name: self.primary_artist_name.deep_view(),
            track_number: self.track_number,
            play_count: self.play_count,
        }
    }
}

impl DeepView for Item {
    type V = ItemModel;

    open spec fn deep_view(&self) -> ItemModel {
        self@
    }
}

impl Clone for Item {
    fn clone(&self) -> (copy: Item)
        ensures
            copy == *self,
    {
        Item {
            id: self.id.clone(),
            name: self.name.clone(),
            overview: self.overview.clone(),
            production_year: self.production_year,
            run_time_ticks: self.run_time_ticks,
            kind: self.kind.clone(),
            primary_image_tag: self.primary_image_tag.clone(),
            is_folder: self.is_folder,
            is_favorite: self.is_favorite,
            is_played: self.is_played,
            normalization_gain_bits: self.normalization_gain_bits,
            album_id: self.album_id.clone(),
            album_name: self.album_name.clone(),
            primary_artist_id: self.primary_artist_id.clone(),
            primary_artist_name: self.primary_artist_name.clone(),
            track_number: self.track_number,
            play_count: self.play_count,
        }
    }
}

impl ItemModel {
    /// An item with nothing known of it.
    pub open spec fn blank() -> ItemModel {
        ItemModel {
            id: Seq::empty(),
            name: Seq::empty(),
            overview: None,
            production_year: None,
            run_time_ticks: None,
            kind: None,
            primary_image_tag: None,
            is_folder: false,
            is_favorite: false,
            is_played: false,
            normalization_gain_bits: None,
            album_id: None,
            album_name: None,
            primary_artist_id: None,
            primary_artist_name: None,
            track_number: None,
            play_count: 0,
        }
    }
}

impl Default for Item {
    fn default() -> (value: Item)
        ensures
            value@ == ItemModel::blank(),
    {
        let value = Item {
            id: String::new(),
            name: String::new(),
            overview: None,
            production_year: None,
            run_time_ticks: None,
            kind: None,
            primary_image_tag: None,
            is_folder: false,
            is_favorite: false,
            is_played: false,
            normalization_gain_bits: None,
            album_id: None,
            album_name: None,
            primary_artist_id: None,
            primary_artist_name: None,
            track_number: None,
            play_count: 0,
        };
        assert(value@ =~~= ItemModel::blank());
        value
    }
}

impl Item {
    /// A title-only item, for demo/mock data and tests.
    pub fn demo(name: &str) -> (item: Item)
        ensures
            item@ == (ItemModel { name: name@, ..ItemModel::blank() }),
    {
        Item { name: name.to_owned(), ..Item::default() }
    }
}

/// How an item plays back: video opens in mpv, audio plays in-app, everything
/// else (folders, series, …) isn't directly playable.
#[derive(Debug, Clone, Copy, PartialEq, Eq, Structural)]
pub enum MediaKind {
    Video,
    Audio,
    Other,
}

impl DeepView for MediaKind {
    type V = MediaKind;

    open spec fn deep_view(&self) -> MediaKind {
        *self
    }
}

/// The media kind of a Jellyfin item `Type`.
pub open spec fn kind_of(kind: Option<Seq<char>>) -> MediaKind {
    if kind == Some("Movie"@) || kind == Some("Episode"@) || kind == Some("Video"@) || kind == Some(
        "MusicVideo"@,
    ) || kind == Some("Trailer"@) {
        MediaKind::Video
    } else if kind == Some("Audio"@) || kind == Some("AudioBook"@) {
        MediaKind::Audio
    } else {
        MediaKind::Other
    }
}

impl MediaKind {
    /// Classify from a Jellyfin item `Type`.
    pub fn classify(kind: Option<&str>) -> (media: MediaKind)
        ensures
            media == kind_of(kind.deep_view()),
    {
        if is_text(kind, "Movie") || is_text(kind, "Episode") || is_text(kind, "Video") || is_text(
            kind,
            "MusicVideo",
        ) || is_text(kind, "Trailer") {
            MediaKind::Video
        } else if is_text(kind, "Audio") || is_text(kind, "AudioBook") {
            MediaKind::Audio
        } else {
            MediaKind::Other
        }
    }
}

impl ItemModel {
    /// How the item plays back.
    pub open spec fn media(self) -> MediaKind {
        kind_of(self.kind)
    }
}

impl Item {
    /// How the item plays back.
    pub fn media(&self) -> (media: MediaKind)
        ensures
            media == self@.media(),
    {
        match &self.kind {
            Some(kind) => MediaKind::classify(Some(kind.as_str())),
            None => MediaKind::classify(None),
        }
    }
}

/// Kind of a Home dashboard row. Drives which icon + accent + activation
/// semantics the renderer uses for each row.
#[derive(Debug, Clone, Copy, PartialEq, Eq, Structural)]
pub enum HomeRowKind {
    Resume,
    NextUp,
    Libraries,
    Recent,
}

impl DeepView for HomeRowKind {
    type V = HomeRowKind;

    open spec fn deep_view(&self) -> HomeRowKind {
        *self
    }
}

/// One horizontal row on the Home dashboard. `library_id` is set on
/// `Recent` rows that belong to one library; the other rows span every library.
#[derive(Debug, Clone)]
pub struct HomeRow {
    pub kind: HomeRowKind,
    pub title: String,
    pub library_id: Option<String>,
    pub items: Vec<Item>,
}

/// The contents of a [`HomeRow`].
#[verifier::ext_equal]
pub struct HomeRowModel {
    pub kind: HomeRowKind,
    pub title: Seq<char>,
    pub library_id: Option<Seq<char>>,
    pub items: Seq<ItemModel>,
}

impl View for HomeRow {
    type V = HomeRowModel;

    open spec fn view(&self) -> HomeRowModel {
        HomeRowModel {
            kind: self.kind,
            title: self.title@,
            library_id: self.library_id.deep_view(),
            items: self.items.deep_view(),
        }
    }
}

impl DeepView for HomeRow {
    type V = HomeRowModel;

    open spec fn deep_view(&self) -> HomeRowModel {
        self@
    }
}

/// What Home knows of one library.
#[derive(Debug, Clone)]
pub struct HomeLibrarySummary {
    pub id: String,
    pub name: String,
    pub collection_type: Option<String>,
    pub item_count: i64,
    pub recent: Vec<Item>,
}

/// The contents of a [`HomeLibrarySummary`].
#[verifier::ext_equal]
pub struct HomeLibraryModel {
    pub id: Seq<char>,
    pub name: Seq<char>,
    pub collection_type: Option<Seq<char>>,
    pub item_count: i64,
    pub recent: Seq<ItemModel>,
}

impl View for HomeLibrarySummary {
    type V = HomeLibraryModel;

    open spec fn view(&self) -> HomeLibraryModel {
        HomeLibraryModel {
            id: self.id@,
            name: self.name@,
            collection_type: self.collection_type.deep_view(),
            item_count: self.item_count,
            recent: self.recent.deep_view(),
        }
    }
}

impl DeepView for HomeLibrarySummary {
    type V = HomeLibraryModel;

    open spec fn deep_view(&self) -> HomeLibraryModel {
        self@
    }
}

/// Server-fetched dashboard payload that drives the Home view.
#[derive(Debug, Clone)]
pub struct HomeData {
    pub resume: Vec<Item>,
    pub next_up: Vec<Item>,
    /// One summary per visible library, in the same order as `App::libraries`.
    pub recent_per_library: Vec<HomeLibrarySummary>,
    /// Latest items across every library. Drives the "Latest" row.
    pub latest_global: Vec<Item>,
    /// True until the first fetch lands (lets the renderer show a "Loading…"
    /// placeholder instead of "Empty").
    pub loading: bool,
}

/// The contents of a [`HomeData`].
#[verifier::ext_equal]
pub struct HomeDataModel {
    pub resume: Seq<ItemModel>,
    pub next_up: Seq<ItemModel>,
    pub recent_per_library: Seq<HomeLibraryModel>,
    pub latest_global: Seq<ItemModel>,
    pub loading: bool,
}

impl View for HomeData {
    type V = HomeDataModel;

    open spec fn view(&self) -> HomeDataModel {
        HomeDataModel {
            resume: self.resume.deep_view(),
            next_up: self.next_up.deep_view(),
            recent_per_library: self.recent_per_library.deep_view(),
            latest_global: self.latest_global.deep_view(),
            loading: self.loading,
        }
    }
}

impl DeepView for HomeData {
    type V = HomeDataModel;

    open spec fn deep_view(&self) -> HomeDataModel {
        self@
    }
}

impl HomeDataModel {
    /// A dashboard with nothing on it.
    pub open spec fn empty() -> HomeDataModel {
        HomeDataModel {
            resume: Seq::empty(),
            next_up: Seq::empty(),
            recent_per_library: Seq::empty(),
            latest_global: Seq::empty(),
            loading: false,
        }
    }
}

impl Default for HomeData {
    fn default() -> (value: HomeData)
        ensures
            value@ == HomeDataModel::empty(),
    {
        let value = HomeData {
            resume: Vec::new(),
            next_up: Vec::new(),
            recent_per_library: Vec::new(),
            latest_global: Vec::new(),
            loading: false,
        };
        assert(value@ =~~= HomeDataModel::empty());
        value
    }
}

/// Cursor on the Home dashboard. `row` indexes into the dashboard's row list
/// (skipping any row that's empty); `col` indexes into that row's items.
#[derive(Debug, Clone, Copy, PartialEq, Eq, Structural)]
pub struct HomeCursor {
    pub row: usize,
    pub col: usize,
}

impl Default for HomeCursor {
    fn default() -> (cursor: HomeCursor)
        ensures
            cursor == (HomeCursor { row: 0, col: 0 }),
    {
        HomeCursor { row: 0, col: 0 }
    }
}

/// Global search view state: in-progress query + the most recent results.
/// `input_focused` drives whether typing edits the query or moves the result
/// cursor (Up from the first row returns focus to the input).
#[derive(Debug, Clone)]
pub struct GlobalSearchState {
    pub query: String,
    pub results: Vec<Item>,
    pub loading: bool,
    pub selected: usize,
    pub input_focused: bool,
    /// Set once the user has submitted at least one query so the renderer can
    /// distinguish "no results yet" from "no matches".
    pub submitted: bool,
}

/// The contents of a [`GlobalSearchState`].
#[verifier::ext_equal]
pub struct GlobalSearchModel {
    pub query: Seq<char>,
    pub results: Seq<ItemModel>,
    pub loading: bool,
    pub selected: usize,
    pub input_focused: bool,
    pub submitted: bool,
}

impl View for GlobalSearchState {
    type V = GlobalSearchModel;

    open spec fn view(&self) -> GlobalSearchModel {
        GlobalSearchModel {
            query: self.query@,
            results: self.results.deep_view(),
            loading: self.loading,
            selected: self.selected,
            input_focused: self.input_focused,
            submitted: self.submitted,
        }
    }
}

impl DeepView for GlobalSearchState {
    type V = GlobalSearchModel;

    open spec fn deep_view(&self) -> GlobalSearchModel {
        self@
    }
}

impl GlobalSearchModel {
    /// Nothing typed, nothing found.
    pub open spec fn blank() -> GlobalSearchModel {
        GlobalSearchModel {
            query: Seq::empty(),
            results: Seq::empty(),
            loading: false,
            selected: 0,
            input_focused: false,
            submitted: false,
        }
    }
}

impl Default for GlobalSearchState {
    fn default() -> (value: GlobalSearchState)
        ensures
            value@ == GlobalSearchModel::blank(),
    {
        let value = GlobalSearchState {
            query: String::new(),
            results: Vec::new(),
            loading: false,
            selected: 0,
            input_focused: false,
            submitted: false,
        };
        assert(value@ =~~= GlobalSearchModel::blank());
        value
    }
}

/// A side effect requested by the user that the event loop performs (handling
/// the key itself stays pure and I/O-free). Drained each tick via
/// [`crate::ui::app::App::take_intents`].
#[derive(Debug, Clone, PartialEq)]
pub enum Intent {
    /// Play this item (already classified as Video or Audio). `start_ticks`
    /// optionally overrides the start position (used for "play from chapter N").
    Play { item: Item, media: MediaKind, start_ticks: Option<i64> },
    /// Load and drill into a folder's children (the loading level is already
    /// pushed; the loader fills it by `id`).
    OpenFolder { id: String, title: String },
    /// Apply a theme by name (loaded by the event loop).
    SetTheme(String),
    TogglePause,
    Stop,
    VolumeUp,
    VolumeDown,
    SeekForward,
    SeekBackward,
    /// Tell the server about a favorite-state change. The app already flipped
    /// the local item optimistically; this carries the desired remote state.
    SetFavorite { item_id: String, favorite: bool },
    /// Tell the server about a played-state change (mirrors `SetFavorite`).
    SetPlayed { item_id: String, played: bool },
    /// Apply a sleep-timer choice (arms an absolute deadline or end-of-track stop).
    SetSleepTimer(SleepTimer),
    /// Build a queue of audio items matching `genre` inside `library_id` and
    /// start playing. Handled by the browser.
    GenreRadio { library_id: String, genre: String },
    /// Create a server-side playlist named `name` carrying `item_ids`.
    CreatePlaylist { name: String, item_ids: Vec<String> },
    /// Toggle gapless audio (persisted + applied at the playback controller).
    SetGapless(bool),
    /// Toggle ReplayGain normalization (persisted + applied to the audio engine).
    SetNormalization(bool),
    /// Pick an EQ preset (persisted + applied to the audio engine).
    SetEqPreset(EqPreset),
    /// Refetch the library root level with this section's filter (Enter on a
    /// section). The library's drill stack is reset to a loading root level.
    ApplySection { library_id: String, section: Section, extras: SectionFilters },
    /// Run a search query (Enter inside the search input). `item_types` scopes
    /// the search to the active section's Jellyfin item types (empty = search
    /// every type, i.e. section "All"). `scope_label` is the section name
    /// surfaced in the level title (empty for "All").
    Search { query: String, item_types: Vec<String>, scope_label: String },
    /// User-requested queue navigation.
    QueueNext,
    QueuePrev,
    /// Persist queue prefs (repeat mode + shuffle) to disk.
    SaveAudioPrefs { repeat_mode: RepeatMode, shuffle: bool },
    /// Persist the user's latest volume choice to disk.
    SaveVolume(u8),
    /// Persist the per-library last-active section map to disk.
    SaveSectionMemory(StringMap<String>),
    /// Persist the id of the library the user just switched to.
    SaveLastLibrary(String),
    /// Persist the (capped) recent-search-query list.
    SaveSearchHistory(Vec<String>),
    /// Fetch detail (cast, lyrics, children, siblings) for the named item.
    LoadCurrentDetail { item_id: String, kind: Option<String> },
    /// Re-fetch libraries + their top-level items from the server.
    SyncLibraries,
    /// Fetch every library the server exposes (not just the visible subset) so
    /// the visible-library picker can render its checklist.
    LoadAllLibraryMeta,
    /// Persist the chosen visible-library set + re-sync.
    SaveVisibleLibraries(Vec<String>),
    /// Fetch the user's playlists for the playlist picker; `target_item_id`
    /// rides along so the result knows which item the user wants to add.
    LoadPlaylists { target_item_id: String },
    /// Append `item_id` to `playlist_id`.
    AddToPlaylist { playlist_id: String, item_id: String },
    /// Replace the queue with an Instant Mix seeded from `item` and play it.
    InstantMix { item: Item },
    /// Record a dislike.
    Dislike { item_id: String },
    /// Resolve `item_id` to its web URL and copy it to the system clipboard.
    /// `item_name` is shown in the status message.
    CopyItemUrl { item_id: String, item_name: String },
    /// Play `item`, which is already at `app.queue_index` in `app.queue` —
    /// used by Instant Mix so the controller doesn't rebuild the queue from
    /// the active level.
    PlayQueueCurrent { item: Item },
    /// Fetch audio + subtitle stream lists for the video item, then populate
    /// the matching picker overlay.
    LoadVideoTracks { item_id: String, kind: VideoTrackKind },
    /// Fetch versions + audio + subtitle streams for the media-options view
    /// (pre-play config rendered in the content pane).
    LoadMediaOptions { item_id: String },
    /// Launch mpv on an external trailer URL.
    WatchTrailer { url: String, title: String },
    /// Fetch the Home dashboard payload (resume + next-up + per-library
    /// recents). Driven on startup and on manual sync.
    LoadHome,
    /// Run a server-wide search across every library (the `g s` view). The
    /// scoped, library-only search uses `Intent::Search` instead.
    GlobalSearch { query: String },
    /// Copy the log directory to the system clipboard; the outcome comes back
    /// through [`crate::ui::app::App::set_error_copied`].
    CopyLogLocation,
}

/// The contents of an [`Intent`].
#[verifier::ext_equal]
pub enum IntentModel {
    Play { item: ItemModel, media: MediaKind, start_ticks: Option<i64> },
    OpenFolder { id: Seq<char>, title: Seq<char> },
    SetTheme(Seq<char>),
    TogglePause,
    Stop,
    VolumeUp,
    VolumeDown,
    SeekForward,
    SeekBackward,
    SetFavorite { item_id: Seq<char>, favorite: bool },
    SetPlayed { item_id: Seq<char>, played: bool },
    SetSleepTimer(SleepTimer),
    GenreRadio { library_id: Seq<char>, genre: Seq<char> },
    CreatePlaylist { name: Seq<char>, item_ids: Seq<Seq<char>> },
    SetGapless(bool),
    SetNormalization(bool),
    SetEqPreset(EqPreset),
    ApplySection { library_id: Seq<char>, section: SectionModel, extras: SectionFiltersModel },
    Search { query: Seq<char>, item_types: Seq<Seq<char>>, scope_label: Seq<char> },
    QueueNext,
    QueuePrev,
    SaveAudioPrefs { repeat_mode: RepeatMode, shuffle: bool },
    SaveVolume(u8),
    SaveSectionMemory(Map<Seq<char>, Seq<char>>),
    SaveLastLibrary(Seq<char>),
    SaveSearchHistory(Seq<Seq<char>>),
    LoadCurrentDetail { item_id: Seq<char>, kind: Option<Seq<char>> },
    SyncLibraries,
    LoadAllLibraryMeta,
    SaveVisibleLibraries(Seq<Seq<char>>),
    LoadPlaylists { target_item_id: Seq<char> },
    AddToPlaylist { playlist_id: Seq<char>, item_id: Seq<char> },
    InstantMix { item: ItemModel },
    Dislike { item_id: Seq<char> },
    CopyItemUrl { item_id: Seq<char>, item_name: Seq<char> },
    PlayQueueCurrent { item: ItemModel },
    LoadVideoTracks { item_id: Seq<char>, kind: VideoTrackKind },
    LoadMediaOptions { item_id: Seq<char> },
    WatchTrailer { url: Seq<char>, title: Seq<char> },
    LoadHome,
    GlobalSearch { query: Seq<char> },
    CopyLogLocation,
}

impl View for Intent {
    type V = IntentModel;

    open spec fn view(&self) -> IntentModel {
        match self {
            Intent::Play { item, media, start_ticks } => IntentModel::Play {
                item: item@,
                media: *media,
                start_ticks: *start_ticks,
            },
            Intent::OpenFolder { id, title } => IntentModel::OpenFolder {
                id: id@,
                title: title@,
            },
            Intent::SetTheme(value) => IntentModel::SetTheme(value@),
            Intent::TogglePause => IntentModel::TogglePause,
            Intent::Stop => IntentModel::Stop,
            Intent::VolumeUp => IntentModel::VolumeUp,
            Intent::VolumeDown => IntentModel::VolumeDown,
            Intent::SeekForward => IntentModel::SeekForward,
            Intent::SeekBackward => IntentModel::SeekBackward,
            Intent::SetFavorite { item_id, favorite } => IntentModel::SetFavorite {
                item_id: item_id@,
                favorite: *favorite,
            },
            Intent::SetPlayed { item_id, played } => IntentModel::SetPlayed {
                item_id: item_id@,
                played: *played,
            },
            Intent::SetSleepTimer(value) => IntentModel::SetSleepTimer(*value),
            Intent::GenreRadio { library_id, genre } => IntentModel::GenreRadio {
                library_id: library_id@,
                genre: genre@,
            },
            Intent::CreatePlaylist { name, item_ids } => IntentModel::CreatePlaylist {
                name: name@,
                item_ids: item_ids.deep_view(),
            },
            Intent::SetGapless(value) => IntentModel::SetGapless(*value),
            Intent::SetNormalization(value) => IntentModel::SetNormalization(*value),
            Intent::SetEqPreset(value) => IntentModel::SetEqPreset(*value),
            Intent::ApplySection { library_id, section, extras } => IntentModel::ApplySection {
                library_id: library_id@,
                section: section@,
                extras: extras@,
            },
            Intent::Search { query, item_types, scope_label } => IntentModel::Search {
                query: query@,
                item_types: item_types.deep_view(),
                scope_label: scope_label@,
            },
            Intent::QueueNext => IntentModel::QueueNext,
            Intent::QueuePrev => IntentModel::QueuePrev,
            Intent::SaveAudioPrefs { repeat_mode, shuffle } => IntentModel::SaveAudioPrefs {
                repeat_mode: *repeat_mode,
                shuffle: *shuffle,
            },
            Intent::SaveVolume(value) => IntentModel::SaveVolume(*value),
            Intent::SaveSectionMemory(value) => IntentModel::SaveSectionMemory(value.deep_view()),
            Intent::SaveLastLibrary(value) => IntentModel::SaveLastLibrary(value@),
            Intent::SaveSearchHistory(value) => IntentModel::SaveSearchHistory(value.deep_view()),
            Intent::LoadCurrentDetail { item_id, kind } => IntentModel::LoadCurrentDetail {
                item_id: item_id@,
                kind: kind.deep_view(),
            },
            Intent::SyncLibraries => IntentModel::SyncLibraries,
            Intent::LoadAllLibraryMeta => IntentModel::LoadAllLibraryMeta,
            Intent::SaveVisibleLibraries(value) => IntentModel::SaveVisibleLibraries(value.deep_view()),
            Intent::LoadPlaylists { target_item_id } => IntentModel::LoadPlaylists {
                target_item_id: target_item_id@,
            },
            Intent::AddToPlaylist { playlist_id, item_id } => IntentModel::AddToPlaylist {
                playlist_id: playlist_id@,
                item_id: item_id@,
            },
            Intent::InstantMix { item } => IntentModel::InstantMix {
                item: item@,
            },
            Intent::Dislike { item_id } => IntentModel::Dislike {
                item_id: item_id@,
            },
            Intent::CopyItemUrl { item_id, item_name } => IntentModel::CopyItemUrl {
                item_id: item_id@,
                item_name: item_name@,
            },
            Intent::PlayQueueCurrent { item } => IntentModel::PlayQueueCurrent {
                item: item@,
            },
            Intent::LoadVideoTracks { item_id, kind } => IntentModel::LoadVideoTracks {
                item_id: item_id@,
                kind: *kind,
            },
            Intent::LoadMediaOptions { item_id } => IntentModel::LoadMediaOptions {
                item_id: item_id@,
            },
            Intent::WatchTrailer { url, title } => IntentModel::WatchTrailer {
                url: url@,
                title: title@,
            },
            Intent::LoadHome => IntentModel::LoadHome,
            Intent::GlobalSearch { query } => IntentModel::GlobalSearch {
                query: query@,
            },
            Intent::CopyLogLocation => IntentModel::CopyLogLocation,
        }
    }
}

impl DeepView for Intent {
    type V = IntentModel;

    open spec fn deep_view(&self) -> IntentModel {
        self@
    }
}

/// Which popup menu, if any, is open, with the highlighted entry.
#[derive(Debug, Clone, Copy, PartialEq, Eq, Structural)]
pub enum PopupMenu {
    /// Item options for the focused list item (key: `p`).
    Item(usize),
    /// Client settings (key: `Shift+P`).
    Client(usize),
    /// Sleep-timer preset picker (opened from the item menu).
    SleepTimer(usize),
}

/// Entries in the per-item actions popup. The popup is built dynamically per
/// item so audio-only / folder-only actions stay out of the list.
#[derive(Debug, Clone, Copy, PartialEq, Eq, Structural)]
pub enum ItemMenuAction {
    LoadInfo,
    ShowLyrics,
    Play,
    ToggleFavorite,
    TogglePlayed,
    OpenSleepTimerPicker,
    BrowseByGenre,
    BrowseByPerson,
    /// Drill into the parent album of the focused track.
    GoToAlbum,
    /// Drill into the primary artist of the focused track or album.
    GoToArtist,
    PlayNext,
    AddToQueue,
    SaveQueueAsPlaylist,
    GenreRadio,
    WatchTrailer,
    AddToPlaylist,
    InstantMix,
    Dislike,
    ToggleShuffle,
    CycleRepeat,
    AudioTrack,
    Subtitles,
    CopyUrl,
}

impl DeepView for ItemMenuAction {
    type V = ItemMenuAction;

    open spec fn deep_view(&self) -> ItemMenuAction {
        *self
    }
}

/// Which video track stream the picker is listing.
#[derive(Debug, Clone, Copy, PartialEq, Eq, Structural)]
pub enum VideoTrackKind {
    Audio,
    Subtitle,
}

/// One entry shown in the video track picker.
#[derive(Debug)]
pub struct TrackPickerEntry {
    pub label: String,
    pub choice: TrackChoice,
}

/// The contents of a [`TrackPickerEntry`].
#[verifier::ext_equal]
pub struct TrackEntryModel {
    pub label: Seq<char>,
    pub choice: TrackChoice,
}

impl View for TrackPickerEntry {
    type V = TrackEntryModel;

    open spec fn view(&self) -> TrackEntryModel {
        TrackEntryModel {
            label: self.label@,
            choice: self.choice,
        }
    }
}

impl DeepView for TrackPickerEntry {
    type V = TrackEntryModel;

    open spec fn deep_view(&self) -> TrackEntryModel {
        self@
    }
}

impl Clone for TrackPickerEntry {
    fn clone(&self) -> (copy: TrackPickerEntry)
        ensures
            copy == *self,
    {
        TrackPickerEntry {
            label: self.label.clone(),
            choice: self.choice,
        }
    }
}

/// State for the video audio / subtitle picker overlay.
#[derive(Debug, Clone)]
pub struct VideoTrackPickerState {
    pub item_id: String,
    pub item_name: String,
    pub kind: VideoTrackKind,
    /// `None` while the fetch is in flight.
    pub entries: Option<Vec<TrackPickerEntry>>,
    pub selected: usize,
}

/// The contents of a [`VideoTrackPickerState`].
#[verifier::ext_equal]
pub struct VideoTrackPickerModel {
    pub item_id: Seq<char>,
    pub item_name: Seq<char>,
    pub kind: VideoTrackKind,
    pub entries: Option<Seq<TrackEntryModel>>,
    pub selected: usize,
}

impl View for VideoTrackPickerState {
    type V = VideoTrackPickerModel;

    open spec fn view(&self) -> VideoTrackPickerModel {
        VideoTrackPickerModel {
            item_id: self.item_id@,
            item_name: self.item_name@,
            kind: self.kind,
            entries: self.entries.deep_view(),
            selected: self.selected,
        }
    }
}

impl DeepView for VideoTrackPickerState {
    type V = VideoTrackPickerModel;

    open spec fn deep_view(&self) -> VideoTrackPickerModel {
        self@
    }
}

/// Per-item audio + subtitle selection persisted across play presses.
#[derive(Debug)]
pub struct VideoTrackSelection {
    pub audio: TrackChoice,
    pub subtitle: TrackChoice,
    /// Jellyfin `MediaSourceId` (`None` ⇒ default = item id).
    pub media_source_id: Option<String>,
}

/// The contents of a [`VideoTrackSelection`].
#[verifier::ext_equal]
pub struct VideoTrackSelectionModel {
    pub audio: TrackChoice,
    pub subtitle: TrackChoice,
    pub media_source_id: Option<Seq<char>>,
}

impl View for VideoTrackSelection {
    type V = VideoTrackSelectionModel;

    open spec fn view(&self) -> VideoTrackSelectionModel {
        VideoTrackSelectionModel {
            audio: self.audio,
            subtitle: self.subtitle,
            media_source_id: self.media_source_id.deep_view(),
        }
    }
}

impl DeepView for VideoTrackSelection {
    type V = VideoTrackSelectionModel;

    open spec fn deep_view(&self) -> VideoTrackSelectionModel {
        self@
    }
}

impl Clone for VideoTrackSelection {
    fn clone(&self) -> (copy: VideoTrackSelection)
        ensures
            copy == *self,
    {
        VideoTrackSelection {
            audio: self.audio,
            subtitle: self.subtitle,
            media_source_id: self.media_source_id.clone(),
        }
    }
}

impl VideoTrackSelectionModel {
    /// Everything left to mpv and the server.
    pub open spec fn auto() -> VideoTrackSelectionModel {
        VideoTrackSelectionModel {
            audio: TrackChoice::Auto,
            subtitle: TrackChoice::Auto,
            media_source_id: None,
        }
    }
}

impl Default for VideoTrackSelection {
    fn default() -> (value: VideoTrackSelection)
        ensures
            value@ == VideoTrackSelectionModel::auto(),
    {
        let value = VideoTrackSelection {
            audio: TrackChoice::Auto,
            subtitle: TrackChoice::Auto,
            media_source_id: None,
        };
        assert(value@ =~~= VideoTrackSelectionModel::auto());
        value
    }
}

/// One playable version exposed by Jellyfin (multiple per item for files like
/// `Movie (1080p)` + `Movie (4K)`).
#[derive(Debug, Clone)]
pub struct MediaVersion {
    pub source_id: String,
    pub label: String,
}

/// The contents of a [`MediaVersion`].
#[verifier::ext_equal]
pub struct MediaVersionModel {
    pub source_id: Seq<char>,
    pub label: Seq<char>,
}

impl View for MediaVersion {
    type V = MediaVersionModel;

    open spec fn view(&self) -> MediaVersionModel {
        MediaVersionModel {
            source_id: self.source_id@,
            label: self.label@,
        }
    }
}

impl DeepView for MediaVersion {
    type V = MediaVersionModel;

    open spec fn deep_view(&self) -> MediaVersionModel {
        self@
    }
}

/// Cursor position inside the media-options view, used so Enter on the right
/// row commits the right selection.
#[derive(Debug, Clone, Copy, PartialEq, Eq, Structural)]
pub enum MediaOptionsCursor {
    Version(usize),
    Audio(usize),
    Subtitle(usize),
    Chapter(usize),
    Play,
    WatchTrailer,
}

/// State for the content-pane media-options view (versions + audio + subs +
/// Play). Populated by `Intent::LoadMediaOptions`.
#[derive(Debug, Clone)]
pub struct MediaOptionsViewState {
    pub item_id: String,
    pub item_name: String,
    pub loading: bool,
    pub versions: Vec<MediaVersion>,
    pub audio_entries: Vec<TrackPickerEntry>,
    pub subtitle_entries: Vec<TrackPickerEntry>,
    pub selected_version: usize,
    pub selected_audio: usize,
    pub selected_subtitle: usize,
    pub cursor: MediaOptionsCursor,
    /// External trailer URLs (mirrored from `ItemDetail.trailer_urls` once the
    /// detail fetch lands). Watch trailer row is shown when non-empty.
    pub trailer_urls: Vec<String>,
    /// Chapter markers (mirrored from `ItemDetail.chapters`). Pressing Enter on
    /// a chapter row launches mpv with `--start=<seconds>`.
    pub chapters: Vec<Chapter>,
}

/// The contents of a [`MediaOptionsViewState`].
#[verifier::ext_equal]
pub struct MediaOptionsModel {
    pub item_id: Seq<char>,
    pub item_name: Seq<char>,
    pub loading: bool,
    pub versions: Seq<MediaVersionModel>,
    pub audio_entries: Seq<TrackEntryModel>,
    pub subtitle_entries: Seq<TrackEntryModel>,
    pub selected_version: usize,
    pub selected_audio: usize,
    pub selected_subtitle: usize,
    pub cursor: MediaOptionsCursor,
    pub trailer_urls: Seq<Seq<char>>,
    pub chapters: Seq<ChapterModel>,
}

impl View for MediaOptionsViewState {
    type V = MediaOptionsModel;

    open spec fn view(&self) -> MediaOptionsModel {
        MediaOptionsModel {
            item_id: self.item_id@,
            item_name: self.item_name@,
            loading: self.loading,
            versions: self.versions.deep_view(),
            audio_entries: self.audio_entries.deep_view(),
            subtitle_entries: self.subtitle_entries.deep_view(),
            selected_version: self.selected_version,
            selected_audio: self.selected_audio,
            selected_subtitle: self.selected_subtitle,
            cursor: self.cursor,
            trailer_urls: self.trailer_urls.deep_view(),
            chapters: self.chapters.deep_view(),
        }
    }
}

impl DeepView for MediaOptionsViewState {
    type V = MediaOptionsModel;

    open spec fn deep_view(&self) -> MediaOptionsModel {
        self@
    }
}

/// Which view the music top-right context pane is rendering.
#[derive(Debug, Clone, Copy, PartialEq, Eq, Structural)]
pub enum ContextTopView {
    Lyrics,
    /// Item info: cover, description, contents list (artist's albums, etc).
    Info,
}

impl Default for ContextTopView {
    fn default() -> (value: ContextTopView)
        ensures
            value == ContextTopView::Lyrics,
    {
        ContextTopView::Lyrics
    }
}

/// Entries in the client-settings popup.
#[derive(Debug, Clone, Copy, PartialEq, Eq, Structural)]
pub enum ClientMenuAction {
    Themes,
    SyncNow,
    VisibleLibraries,
    ToggleGapless,
    ToggleNormalization,
    CycleEqPreset,
    ShowMpvArgs,
    CycleSort,
    ToggleUnplayed,
    ClearFilters,
    Quit,
}

impl DeepView for ClientMenuAction {
    type V = ClientMenuAction;

    open spec fn deep_view(&self) -> ClientMenuAction {
        *self
    }
}

/// State for the visible-library picker overlay. `entries` is the full set of
/// libraries exposed by the server (id, name, currently visible); the user
/// toggles entries with Space and confirms with Enter.
#[derive(Debug, Clone)]
pub struct LibraryPickerState {
    pub entries: Vec<(String, String, bool)>,
    pub selected: usize,
    pub loading: bool,
}

/// The contents of a [`LibraryPickerState`].
#[verifier::ext_equal]
pub struct LibraryPickerModel {
    pub entries: Seq<(Seq<char>, Seq<char>, bool)>,
    pub selected: usize,
    pub loading: bool,
}

impl View for LibraryPickerState {
    type V = LibraryPickerModel;

    open spec fn view(&self) -> LibraryPickerModel {
        LibraryPickerModel {
            entries: self.entries.deep_view(),
            selected: self.selected,
            loading: self.loading,
        }
    }
}

impl DeepView for LibraryPickerState {
    type V = LibraryPickerModel;

    open spec fn deep_view(&self) -> LibraryPickerModel {
        self@
    }
}

/// State for the playlist picker overlay (item-options → Add to playlist).
/// `entries = None` while the async fetch is in flight.
#[derive(Debug, Clone)]
pub struct PlaylistPickerState {
    pub target_item_id: String,
    pub target_item_name: String,
    pub entries: Option<Vec<(String, String)>>,
    pub selected: usize,
}

/// The contents of a [`PlaylistPickerState`].
#[verifier::ext_equal]
pub struct PlaylistPickerModel {
    pub target_item_id: Seq<char>,
    pub target_item_name: Seq<char>,
    pub entries: Option<Seq<(Seq<char>, Seq<char>)>>,
    pub selected: usize,
}

impl View for PlaylistPickerState {
    type V = PlaylistPickerModel;

    open spec fn view(&self) -> PlaylistPickerModel {
        PlaylistPickerModel {
            target_item_id: self.target_item_id@,
            target_item_name: self.target_item_name@,
            entries: self.entries.deep_view(),
            selected: self.selected,
        }
    }
}

impl DeepView for PlaylistPickerState {
    type V = PlaylistPickerModel;

    open spec fn deep_view(&self) -> PlaylistPickerModel {
        self@
    }
}

/// Display-only snapshot of the active playback, written by the event loop each
/// tick and read by the now-playing renderer.
#[derive(Debug, Clone)]
pub struct NowPlaying {
    /// Item id of what's playing, so the cover can be fetched/shown.
    pub item_id: String,
    pub kind: MediaKind,
    pub title: String,
    pub subtitle: Option<String>,
    pub artist: Option<String>,
    pub album: Option<String>,
    /// Codec / bitrate summary of the stream, when known.
    pub format_summary: Option<String>,
    pub position: Duration,
    pub duration: Option<Duration>,
    pub paused: bool,
    /// Audio only; mpv owns its own volume.
    pub volume: Option<u8>,
}

/// The contents of a [`NowPlaying`].
#[verifier::ext_equal]
pub struct NowPlayingModel {
    pub item_id: Seq<char>,
    pub kind: MediaKind,
    pub title: Seq<char>,
    pub subtitle: Option<Seq<char>>,
    pub artist: Option<Seq<char>>,
    pub album: Option<Seq<char>>,
    pub format_summary: Option<Seq<char>>,
    pub position: Duration,
    pub duration: Option<Duration>,
    pub paused: bool,
    pub volume: Option<u8>,
}

impl View for NowPlaying {
    type V = NowPlayingModel;

    open spec fn view(&self) -> NowPlayingModel {
        NowPlayingModel {
            item_id: self.item_id@,
            kind: self.kind,
            title: self.title@,
            subtitle: self.subtitle.deep_view(),
            artist: self.artist.deep_view(),
            album: self.album.deep_view(),
            format_summary: self.format_summary.deep_view(),
            position: self.position,
            duration: self.duration,
            paused: self.paused,
            volume: self.volume,
        }
    }
}

impl DeepView for NowPlaying {
    type V = NowPlayingModel;

    open spec fn deep_view(&self) -> NowPlayingModel {
        self@
    }
}

/// A library (top-bar chip) and its top-level items.
#[derive(Debug, Clone)]
pub struct Library {
    /// Jellyfin view id (used as the parent id of its top-level items).
    pub id: String,
    pub name: String,
    /// Jellyfin `CollectionType` (e.g. `music`, `movies`, `tvshows`). Drives the
    /// right column's context (lyrics+queue vs cast+credits vs episodes+seasons).
    pub collection_type: Option<String>,
    pub items: Vec<Item>,
}

/// The contents of a [`Library`].
#[verifier::ext_equal]
pub struct LibraryModel {
    pub id: Seq<char>,
    pub name: Seq<char>,
    pub collection_type: Option<Seq<char>>,
    pub items: Seq<ItemModel>,
}

impl View for Library {
    type V = LibraryModel;

    open spec fn view(&self) -> LibraryModel {
        LibraryModel {
            id: self.id@,
            name: self.name@,
            collection_type: self.collection_type.deep_view(),
            items: self.items.deep_view(),
        }
    }
}

impl DeepView for Library {
    type V = LibraryModel;

    open spec fn deep_view(&self) -> LibraryModel {
        self@
    }
}

/// A sub-view of a library — e.g. for music: Albums, Album Artists, Songs.
/// Drives the items query that fills the library_items pane.
#[derive(Debug, PartialEq, Eq)]
pub struct Section {
    pub name: String,
    /// `includeItemTypes` filter (empty = top-level items, no type filter).
    pub item_types: Vec<String>,
    /// `sortBy` keys; defaults to SortName when empty.
    pub sort_by: Vec<String>,
}

/// The contents of a [`Section`].
#[verifier::ext_equal]
pub struct SectionModel {
    pub name: Seq<char>,
    pub item_types: Seq<Seq<char>>,
    pub sort_by: Seq<Seq<char>>,
}

impl View for Section {
    type V = SectionModel;

    open spec fn view(&self) -> SectionModel {
        SectionModel {
            name: self.name@,
            item_types: self.item_types.deep_view(),
            sort_by: self.sort_by.deep_view(),
        }
    }
}

impl DeepView for Section {
    type V = SectionModel;

    open spec fn deep_view(&self) -> SectionModel {
        self@
    }
}

impl Clone for Section {
    fn clone(&self) -> (copy: Section)
        ensures
            copy@ == self@,
    {
        let copy = Section {
            name: self.name.clone(),
            item_types: copy_texts(&self.item_types),
            sort_by: copy_texts(&self.sort_by),
        };
        assert(copy@ =~~= self@);
        copy
    }
}

/// Runtime filter + sort overrides applied on top of a [`Section`]. Empty
/// fields are no-ops; set fields merge into the items query.
#[derive(Debug, PartialEq, Eq)]
pub struct SectionFilters {
    pub genres: Vec<String>,
    pub person_ids: Vec<String>,
    pub years: Vec<i32>,
    pub studio_ids: Vec<String>,
    pub tags: Vec<String>,
    /// Jellyfin `Filters` (e.g. `IsUnplayed`, `IsFavorite`).
    pub filters: Vec<String>,
    /// When set, overrides the section's `sort_by` order.
    pub sort_override: Option<Vec<String>>,
}

/// The contents of a [`SectionFilters`].
#[verifier::ext_equal]
pub struct SectionFiltersModel {
    pub genres: Seq<Seq<char>>,
    pub person_ids: Seq<Seq<char>>,
    pub years: Seq<i32>,
    pub studio_ids: Seq<Seq<char>>,
    pub tags: Seq<Seq<char>>,
    pub filters: Seq<Seq<char>>,
    pub sort_override: Option<Seq<Seq<char>>>,
}

impl View for SectionFilters {
    type V = SectionFiltersModel;

    open spec fn view(&self) -> SectionFiltersModel {
        SectionFiltersModel {
            genres: self.genres.deep_view(),
            person_ids: self.person_ids.deep_view(),
            years: self.years.deep_view(),
            studio_ids: self.studio_ids.deep_view(),
            tags: self.tags.deep_view(),
            filters: self.filters.deep_view(),
            sort_override: self.sort_override.deep_view(),
        }
    }
}

impl DeepView for SectionFilters {
    type V = SectionFiltersModel;

    open spec fn deep_view(&self) -> SectionFiltersModel {
        self@
    }
}

impl SectionFiltersModel {
    /// No filter and no override.
    pub open spec fn none() -> SectionFiltersModel {
        SectionFiltersModel {
            genres: Seq::empty(),
            person_ids: Seq::empty(),
            years: Seq::empty(),
            studio_ids: Seq::empty(),
            tags: Seq::empty(),
            filters: Seq::empty(),
            sort_override: None,
        }
    }
}

impl Default for SectionFilters {
    fn default() -> (value: SectionFilters)
        ensures
            value@ == SectionFiltersModel::none(),
    {
        let value = SectionFilters {
            genres: Vec::new(),
            person_ids: Vec::new(),
            years: Vec::new(),
            studio_ids: Vec::new(),
            tags: Vec::new(),
            filters: Vec::new(),
            sort_override: None,
        };
        assert(value@ =~~= SectionFiltersModel::none());
        value
    }
}

impl Clone for SectionFilters {
    fn clone(&self) -> (copy: SectionFilters)
        ensures
            copy@ == self@,
    {
        let sort_override = match &self.sort_override {
            Some(keys) => Some(copy_texts(keys)),
            None => None,
        };
        let copy = SectionFilters {
            genres: copy_texts(&self.genres),
            person_ids: copy_texts(&self.person_ids),
            years: self.years.clone(),
            studio_ids: copy_texts(&self.studio_ids),
            tags: copy_texts(&self.tags),
            filters: copy_texts(&self.filters),
            sort_override,
        };
        assert(copy@ =~~= self@);
        copy
    }
}

/// Cast / crew member shown in the right-column context pane for movies/tv.
#[derive(Debug, Clone)]
pub struct Person {
    /// Jellyfin person id (used to filter items via `personIds=`).
    pub id: Option<String>,
    pub name: String,
    /// e.g. `Neo`, `Director`, `Writer`. May be empty.
    pub role: Option<String>,
    /// Jellyfin `Type` (`Actor`, `Director`, `Writer`, `GuestStar`, …).
    pub kind: Option<String>,
}

/// The contents of a [`Person`].
#[verifier::ext_equal]
pub struct PersonModel {
    pub id: Option<Seq<char>>,
    pub name: Seq<char>,
    pub role: Option<Seq<char>>,
    pub kind: Option<Seq<char>>,
}

impl View for Person {
    type V = PersonModel;

    open spec fn view(&self) -> PersonModel {
        PersonModel {
            id: self.id.deep_view(),
            name: self.name@,
            role: self.role.deep_view(),
            kind: self.kind.deep_view(),
        }
    }
}

impl DeepView for Person {
    type V = PersonModel;

    open spec fn deep_view(&self) -> PersonModel {
        self@
    }
}

impl PersonModel {
    /// Nobody in particular.
    pub open spec fn blank() -> PersonModel {
        PersonModel {
            id: None,
            name: Seq::empty(),
            role: None,
            kind: None,
        }
    }
}

impl Default for Person {
    fn default() -> (value: Person)
        ensures
            value@ == PersonModel::blank(),
    {
        let value = Person {
            id: None,
            name: String::new(),
            role: None,
            kind: None,
        };
        assert(value@ =~~= PersonModel::blank());
        value
    }
}

/// Sleep timer choice. Picked from the item-menu entry's overlay.
#[derive(Debug, Clone, Copy, PartialEq, Eq, Structural)]
pub enum SleepTimer {
    Off,
    In5,
    In10,
    In15,
    In20,
    In30,
    In45,
    In60,
    In90,
    In120,
    /// Stop after the current track finishes (audio) or current item ends (video).
    EndOfTrack,
}

impl DeepView for SleepTimer {
    type V = SleepTimer;

    open spec fn deep_view(&self) -> SleepTimer {
        *self
    }
}

impl Default for SleepTimer {
    fn default() -> (value: SleepTimer)
        ensures
            value == SleepTimer::Off,
    {
        SleepTimer::Off
    }
}

/// All sleep-timer choices in picker-display order. `Off` first so it doubles as
/// "Cancel" when the timer is already armed.
pub open spec fn sleep_presets() -> Seq<SleepTimer> {
    seq![
        SleepTimer::Off,
        SleepTimer::In5,
        SleepTimer::In10,
        SleepTimer::In15,
        SleepTimer::In20,
        SleepTimer::In30,
        SleepTimer::In45,
        SleepTimer::In60,
        SleepTimer::In90,
        SleepTimer::In120,
        SleepTimer::EndOfTrack,
    ]
}

impl SleepTimer {
    /// All choices in picker-display order.
    pub fn presets() -> (presets: Vec<SleepTimer>)
        ensures
            presets@ == sleep_presets(),
    {
        let presets: Vec<SleepTimer> = vec![
            SleepTimer::Off,
            SleepTimer::In5,
            SleepTimer::In10,
            SleepTimer::In15,
            SleepTimer::In20,
            SleepTimer::In30,
            SleepTimer::In45,
            SleepTimer::In60,
            SleepTimer::In90,
            SleepTimer::In120,
            SleepTimer::EndOfTrack,
        ];
        assert(presets@ =~= sleep_presets());
        presets
    }

    /// The choice as the menus name it.
    pub open spec fn text(self) -> Seq<char> {
        match self {
            SleepTimer::Off => "Off"@,
            SleepTimer::In5 => "5 min"@,
            SleepTimer::In10 => "10 min"@,
            SleepTimer::In15 => "15 min"@,
            SleepTimer::In20 => "20 min"@,
            SleepTimer::In30 => "30 min"@,
            SleepTimer::In45 => "45 min"@,
            SleepTimer::In60 => "1 hour"@,
            SleepTimer::In90 => "1h 30m"@,
            SleepTimer::In120 => "2 hours"@,
            SleepTimer::EndOfTrack => "End of track"@,
        }
    }

    /// The choice as the menus name it.
    pub fn label(self) -> (label: &'static str)
        ensures
            label@ == self.text(),
    {
        match self {
            SleepTimer::Off => "Off",
            SleepTimer::In5 => "5 min",
            SleepTimer::In10 => "10 min",
            SleepTimer::In15 => "15 min",
            SleepTimer::In20 => "20 min",
            SleepTimer::In30 => "30 min",
            SleepTimer::In45 => "45 min",
            SleepTimer::In60 => "1 hour",
            SleepTimer::In90 => "1h 30m",
            SleepTimer::In120 => "2 hours",
            SleepTimer::EndOfTrack => "End of track",
        }
    }

    /// Minutes until an absolute-time choice runs out.
    pub open spec fn minutes(self) -> Option<u64> {
        match self {
            SleepTimer::Off => None,
            SleepTimer::In5 => Some(5),
            SleepTimer::In10 => Some(10),
            SleepTimer::In15 => Some(15),
            SleepTimer::In20 => Some(20),
            SleepTimer::In30 => Some(30),
            SleepTimer::In45 => Some(45),
            SleepTimer::In60 => Some(60),
            SleepTimer::In90 => Some(90),
            SleepTimer::In120 => Some(120),
            SleepTimer::EndOfTrack => None,
        }
    }

    /// `Some(duration)` for absolute-time choices, `None` for Off / EndOfTrack.
    pub fn duration(self) -> (duration: Option<Duration>)
        ensures
            duration == match self.minutes() {
                Some(minutes) => Some(Duration { secs: (minutes * 60) as u64, nanos: 0 }),
                None => None,
            },
    {
        let minutes: u64 = match self {
            SleepTimer::In5 => 5,
            SleepTimer::In10 => 10,
            SleepTimer::In15 => 15,
            SleepTimer::In20 => 20,
            SleepTimer::In30 => 30,
            SleepTimer::In45 => 45,
            SleepTimer::In60 => 60,
            SleepTimer::In90 => 90,
            SleepTimer::In120 => 120,
            SleepTimer::Off | SleepTimer::EndOfTrack => {
                return None;
            },
        };
        Some(Duration::from_secs(minutes * 60))
    }
}

/// Every sleep-timer choice is in the picker, exactly once.
pub proof fn presets_cover_every_choice(choice: SleepTimer)
    ensures
        sleep_presets().contains(choice),
        sleep_presets().no_duplicates(),
{
    let presets = sleep_presets();
    let index = match choice {
        SleepTimer::Off => 0int,
        SleepTimer::In5 => 1int,
        SleepTimer::In10 => 2int,
        SleepTimer::In15 => 3int,
        SleepTimer::In20 => 4int,
        SleepTimer::In30 => 5int,
        SleepTimer::In45 => 6int,
        SleepTimer::In60 => 7int,
        SleepTimer::In90 => 8int,
        SleepTimer::In120 => 9int,
        SleepTimer::EndOfTrack => 10int,
    };
    assert(presets[index] == choice);
}

/// Queue repeat mode.
#[derive(Debug, Clone, Copy, PartialEq, Eq, Structural)]
pub enum RepeatMode {
    /// Stop after the last track.
    Off,
    /// Loop the entire queue back to the start.
    All,
    /// Loop the current track forever.
    One,
}

impl Default for RepeatMode {
    fn default() -> (value: RepeatMode)
        ensures
            value == RepeatMode::Off,
    {
        RepeatMode::Off
    }
}

impl RepeatMode {
    /// The mode after this one: Off → All → One → Off.
    pub open spec fn next(self) -> RepeatMode {
        match self {
            RepeatMode::Off => RepeatMode::All,
            RepeatMode::All => RepeatMode::One,
            RepeatMode::One => RepeatMode::Off,
        }
    }

    /// `r` cycles Off → All → One → Off.
    pub fn cycle(self) -> (next: RepeatMode)
        ensures
            next == self.next(),
    {
        match self {
            RepeatMode::Off => RepeatMode::All,
            RepeatMode::All => RepeatMode::One,
            RepeatMode::One => RepeatMode::Off,
        }
    }

    /// The mode as the menus name it.
    pub open spec fn text(self) -> Seq<char> {
        match self {
            RepeatMode::Off => "Off"@,
            RepeatMode::All => "All"@,
            RepeatMode::One => "One"@,
        }
    }

    /// The mode as the menus name it.
    pub fn label(self) -> (label: &'static str)
        ensures
            label@ == self.text(),
    {
        match self {
            RepeatMode::Off => "Off",
            RepeatMode::All => "All",
            RepeatMode::One => "One",
        }
    }

    /// The mode in the config file's terms.
    pub open spec fn as_pref(self) -> RepeatModePref {
        match self {
            RepeatMode::Off => RepeatModePref::Off,
            RepeatMode::All => RepeatModePref::All,
            RepeatMode::One => RepeatModePref::One,
        }
    }

    /// The mode that a config file names.
    pub open spec fn of_pref(pref: RepeatModePref) -> RepeatMode {
        match pref {
            RepeatModePref::Off => RepeatMode::Off,
            RepeatModePref::All => RepeatMode::All,
            RepeatModePref::One => RepeatMode::One,
        }
    }
}

impl From<RepeatModePref> for RepeatMode {
    fn from(pref: RepeatModePref) -> (mode: RepeatMode) {
        match pref {
            RepeatModePref::Off => RepeatMode::Off,
            RepeatModePref::All => RepeatMode::All,
            RepeatModePref::One => RepeatMode::One,
        }
    }
}

impl vstd::std_specs::convert::FromSpecImpl<RepeatModePref> for RepeatMode {
    open spec fn obeys_from_spec() -> bool {
        true
    }

    open spec fn from_spec(pref: RepeatModePref) -> RepeatMode {
        RepeatMode::of_pref(pref)
    }
}

impl From<RepeatMode> for RepeatModePref {
    fn from(mode: RepeatMode) -> (pref: RepeatModePref) {
        match mode {
            RepeatMode::Off => RepeatModePref::Off,
            RepeatMode::All => RepeatModePref::All,
            RepeatMode::One => RepeatModePref::One,
        }
    }
}

impl vstd::std_specs::convert::FromSpecImpl<RepeatMode> for RepeatModePref {
    open spec fn obeys_from_spec() -> bool {
        true
    }

    open spec fn from_spec(mode: RepeatMode) -> RepeatModePref {
        mode.as_pref()
    }
}

/// A repeat mode written to the config file and read back is the same mode, and
/// the other way round.
pub proof fn repeat_mode_pref_round_trips(mode: RepeatMode, pref: RepeatModePref)
    ensures
        RepeatMode::of_pref(mode.as_pref()) == mode,
        RepeatMode::of_pref(pref).as_pref() == pref,
{
}

/// Three presses of the repeat key come back to where they started, and no
/// fewer do.
pub proof fn repeat_cycle_has_period_three(mode: RepeatMode)
    ensures
        mode.next() != mode,
        mode.next().next() != mode,
        mode.next().next().next() == mode,
{
}

/// One line of lyrics, optionally timestamped for synced display.
#[derive(Debug, Clone)]
pub struct LyricLine {
    pub text: String,
    /// Start time in 100 ns ticks; absent on plain-text lyrics.
    pub start_ticks: Option<i64>,
}

/// The contents of a [`LyricLine`].
#[verifier::ext_equal]
pub struct LyricLineModel {
    pub text: Seq<char>,
    pub start_ticks: Option<i64>,
}

impl View for LyricLine {
    type V = LyricLineModel;

    open spec fn view(&self) -> LyricLineModel {
        LyricLineModel {
            text: self.text@,
            start_ticks: self.start_ticks,
        }
    }
}

impl DeepView for LyricLine {
    type V = LyricLineModel;

    open spec fn deep_view(&self) -> LyricLineModel {
        self@
    }
}

impl LyricLineModel {
    /// A silent line.
    pub open spec fn blank() -> LyricLineModel {
        LyricLineModel {
            text: Seq::empty(),
            start_ticks: None,
        }
    }
}

impl Default for LyricLine {
    fn default() -> (value: LyricLine)
        ensures
            value@ == LyricLineModel::blank(),
    {
        let value = LyricLine {
            text: String::new(),
            start_ticks: None,
        };
        assert(value@ =~~= LyricLineModel::blank());
        value
    }
}

/// Fetched detail for the currently-selected item.
#[derive(Debug, Clone)]
pub struct ItemDetail {
    /// The selected item's own description — re-fetched so the info pane has one
    /// even when the level row was sparse.
    pub overview: Option<String>,
    /// Cast and crew (movies + tv).
    pub cast: Vec<Person>,
    pub genres: Vec<String>,
    /// Lyrics lines (audio items only). `None` means none fetched yet,
    /// `Some(empty)` means the server has no lyrics for this track.
    pub lyrics: Option<Vec<LyricLine>>,
    /// Immediate children of the selected item (TV series → seasons; season →
    /// episodes; etc). Empty for non-container items.
    pub children: Vec<Item>,
    /// Siblings of the selected item — items sharing its parent. Used so the
    /// TV context can show season-mates from a focused episode.
    pub siblings: Vec<Item>,
    /// Albums credited to this artist (MusicArtist items only).
    pub artist_albums: Vec<Item>,
    /// Albums the artist contributes to but isn't the primary album-artist of.
    pub appears_on: Vec<Item>,
    /// External trailer URLs (YouTube etc.) for the item.
    pub trailer_urls: Vec<String>,
    /// Chapter markers. Empty when the server returned none.
    pub chapters: Vec<Chapter>,
}

/// The contents of an [`ItemDetail`].
#[verifier::ext_equal]
pub struct ItemDetailModel {
    pub overview: Option<Seq<char>>,
    pub cast: Seq<PersonModel>,
    pub genres: Seq<Seq<char>>,
    pub lyrics: Option<Seq<LyricLineModel>>,
    pub children: Seq<ItemModel>,
    pub siblings: Seq<ItemModel>,
    pub artist_albums: Seq<ItemModel>,
    pub appears_on: Seq<ItemModel>,
    pub trailer_urls: Seq<Seq<char>>,
    pub chapters: Seq<ChapterModel>,
}

impl View for ItemDetail {
    type V = ItemDetailModel;

    open spec fn view(&self) -> ItemDetailModel {
        ItemDetailModel {
            overview: self.overview.deep_view(),
            cast: self.cast.deep_view(),
            genres: self.genres.deep_view(),
            lyrics: self.lyrics.deep_view(),
            children: self.children.deep_view(),
            siblings: self.siblings.deep_view(),
            artist_albums: self.artist_albums.deep_view(),
            appears_on: self.appears_on.deep_view(),
            trailer_urls: self.trailer_urls.deep_view(),
            chapters: self.chapters.deep_view(),
        }
    }
}

impl DeepView for ItemDetail {
    type V = ItemDetailModel;

    open spec fn deep_view(&self) -> ItemDetailModel {
        self@
    }
}

impl ItemDetailModel {
    /// Nothing fetched.
    pub open spec fn empty() -> ItemDetailModel {
        ItemDetailModel {
            overview: None,
            cast: Seq::empty(),
            genres: Seq::empty(),
            lyrics: None,
            children: Seq::empty(),
            siblings: Seq::empty(),
            artist_albums: Seq::empty(),
            appears_on: Seq::empty(),
            trailer_urls: Seq::empty(),
            chapters: Seq::empty(),
        }
    }
}

impl Default for ItemDetail {
    fn default() -> (value: ItemDetail)
        ensures
            value@ == ItemDetailModel::empty(),
    {
        let value = ItemDetail {
            overview: None,
            cast: Vec::new(),
            genres: Vec::new(),
            lyrics: None,
            children: Vec::new(),
            siblings: Vec::new(),
            artist_albums: Vec::new(),
            appears_on: Vec::new(),
            trailer_urls: Vec::new(),
            chapters: Vec::new(),
        };
        assert(value@ =~~= ItemDetailModel::empty());
        value
    }
}

/// One chapter marker on a video item (name + position into the file).
#[derive(Debug, PartialEq, Eq)]
pub struct Chapter {
    pub name: String,
    /// 100 ns Jellyfin ticks into the item.
    pub start_position_ticks: i64,
}

/// The contents of a [`Chapter`].
#[verifier::ext_equal]
pub struct ChapterModel {
    pub name: Seq<char>,
    pub start_position_ticks: i64,
}

impl View for Chapter {
    type V = ChapterModel;

    open spec fn view(&self) -> ChapterModel {
        ChapterModel {
            name: self.name@,
            start_position_ticks: self.start_position_ticks,
        }
    }
}

impl DeepView for Chapter {
    type V = ChapterModel;

    open spec fn deep_view(&self) -> ChapterModel {
        self@
    }
}

impl Clone for Chapter {
    fn clone(&self) -> (copy: Chapter)
        ensures
            copy == *self,
    {
        Chapter {
            name: self.name.clone(),
            start_position_ticks: self.start_position_ticks,
        }
    }
}

impl ChapterModel {
    /// An unnamed marker at the start.
    pub open spec fn blank() -> ChapterModel {
        ChapterModel {
            name: Seq::empty(),
            start_position_ticks: 0,
        }
    }
}

impl Default for Chapter {
    fn default() -> (value: Chapter)
        ensures
            value@ == ChapterModel::blank(),
    {
        let value = Chapter {
            name: String::new(),
            start_position_ticks: 0,
        };
        assert(value@ =~~= ChapterModel::blank());
        value
    }
}

/// One level of the list pane's drill-down stack. The bottom level holds the
/// selected library's top-level items; deeper levels hold a folder's children.
#[derive(Debug, Clone)]
pub struct Level {
    /// Breadcrumb label (library or folder name).
    pub title: String,
    /// Id of the folder/library whose children these are. Identifies the level
    /// when an async children-load completes.
    pub parent_id: String,
    pub items: Vec<Item>,
    pub selected: usize,
    /// Children are still being fetched.
    pub loading: bool,
    /// The item the user drilled into to open this level (the album, artist,
    /// series, …). Used so the info pane can render the parent while the
    /// children are still loading. `None` for the library root.
    pub parent_item: Option<Item>,
    /// `false` on a freshly drilled level: the user hasn't moved the cursor
    /// yet, so the info pane should stay on `parent_item` even after the
    /// children have loaded. The first Up/Down/Top/Bottom flips this to
    /// `true` so subsequent renders follow the selected child.
    pub cursor_engaged: bool,
}

/// The contents of a [`Level`].
#[verifier::ext_equal]
pub struct LevelModel {
    pub title: Seq<char>,
    pub parent_id: Seq<char>,
    pub items: Seq<ItemModel>,
    pub selected: usize,
    pub loading: bool,
    pub parent_item: Option<ItemModel>,
    pub cursor_engaged: bool,
}

impl View for Level {
    type V = LevelModel;

    open spec fn view(&self) -> LevelModel {
        LevelModel {
            title: self.title@,
            parent_id: self.parent_id@,
            items: self.items.deep_view(),
            selected: self.selected,
            loading: self.loading,
            parent_item: self.parent_item.deep_view(),
            cursor_engaged: self.cursor_engaged,
        }
    }
}

impl DeepView for Level {
    type V = LevelModel;

    open spec fn deep_view(&self) -> LevelModel {
        self@
    }
}

impl LevelModel {
    /// A level with its items at hand and the cursor on the first one.
    pub open spec fn ready(
        title: Seq<char>,
        parent_id: Seq<char>,
        items: Seq<ItemModel>,
    ) -> LevelModel {
        LevelModel {
            title,
            parent_id,
            items,
            selected: 0,
            loading: false,
            parent_item: None,
            cursor_engaged: true,
        }
    }

    /// A root level whose items are still being fetched.
    pub open spec fn awaiting(title: Seq<char>, parent_id: Seq<char>) -> LevelModel {
        LevelModel { loading: true, ..LevelModel::ready(title, parent_id, Seq::empty()) }
    }

    /// The item under the cursor.
    pub open spec fn selected_item(self) -> Option<ItemModel> {
        if self.selected < self.items.len() {
            Some(self.items[self.selected as int])
        } else {
            None
        }
    }
}

impl Level {
    /// A ready-to-show level (used for library roots and for filled folders).
    pub fn ready(title: String, parent_id: String, items: Vec<Item>) -> (level: Level)
        ensures
            level@ == LevelModel::ready(title@, parent_id@, items.deep_view()),
    {
        Level {
            title,
            parent_id,
            items,
            selected: 0,
            loading: false,
            parent_item: None,
            cursor_engaged: true,
        }
    }

    /// A root level whose items are still being fetched.
    pub fn awaiting(title: String, parent_id: String) -> (level: Level)
        ensures
            level@ =~~= LevelModel::awaiting(title@, parent_id@),
    {
        Level {
            title,
            parent_id,
            items: Vec::new(),
            selected: 0,
            loading: true,
            parent_item: None,
            cursor_engaged: true,
        }
    }

    /// The item under the cursor.
    pub fn selected_item(&self) -> (item: Option<&Item>)
        ensures
            item.deep_view() == self@.selected_item(),
    {
        if self.selected < self.items.len() {
            Some(&self.items[self.selected])
        } else {
            None
        }
    }
}

} // verus!
