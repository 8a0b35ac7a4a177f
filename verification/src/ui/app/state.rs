//! The application state, what can be read off it, and how it starts out.

use vstd::prelude::*;
use vstd::string::*;

use super::sections;
use super::sections::sections_for;
use super::types::{
    ContextTopView, GlobalSearchModel, GlobalSearchState, HomeCursor, HomeData, HomeDataModel,
    Intent, IntentModel, Item, ItemDetail, ItemDetailModel, ItemModel, Level, LevelModel, Library,
    LibraryModel, LibraryPickerModel, LibraryPickerState, MediaOptionsModel, MediaOptionsViewState,
    NowPlaying, NowPlayingModel, Pane, PlaylistPickerModel, PlaylistPickerState, PopupMenu,
    RepeatMode, Section, SectionFilters, SectionFiltersModel, SectionModel, SleepTimer,
    VideoTrackPickerModel, VideoTrackPickerState, VideoTrackSelection, VideoTrackSelectionModel,
};
use crate::config::EqPreset;
use crate::sequences;
use crate::sequences::push_deep;
use crate::string_map::StringMap;
use crate::text;
use crate::text::{as_slice, same_text};
use crate::theme::Theme;
use crate::ui::keymap;
use crate::ui::keymap::{Binding, Keymap};

verus! {

/// All TUI state. Pure: every operation on it is a state transition with no I/O;
/// what has to happen outside is queued as an [`Intent`].
#[derive(Debug)]
pub struct App {
    pub focus: Pane,
    pub libraries: Vec<Library>,
    /// Index of the active library (selected via the top bar's 1-9 keys).
    pub library_selected: usize,
    /// Active section index within the current library's section list.
    /// Reset to 0 (the "All" section) on library change.
    pub section_selected: usize,
    /// The list pane's drill-down stack. Never empty while a library exists:
    /// `stack[0]` is the selected library's top-level items.
    pub stack: Vec<Level>,
    /// `Some` when the search input is focused; the string is the in-progress
    /// query. Cleared on Esc or when the user navigates away.
    pub search_query: Option<String>,
    /// Fetched detail for one item, with that item's id, so the renderer never
    /// shows stale cast/lyrics.
    pub current_detail: Option<(String, ItemDetail)>,
    /// Audio play queue. Populated on Audio Play with the sibling audio items
    /// from the active level; advanced when the engine reports the current
    /// track finished.
    pub queue: Vec<Item>,
    /// Index of the currently-playing track within `queue`, or `None` when no
    /// audio is playing.
    pub queue_index: Option<usize>,
    pub repeat_mode: RepeatMode,
    /// Current sleep-timer choice; the playback controller arms a real deadline
    /// when this changes.
    pub sleep_timer: SleepTimer,
    /// Seconds left on the timed sleep choice. Written each tick by the playback
    /// controller and shown in the sleep-timer entry/picker. `None` for Off and
    /// for `EndOfTrack` (which has no fixed deadline).
    pub sleep_remaining_secs: Option<u64>,
    /// Per-library runtime filter/sort overrides (cleared by toggling them off
    /// in the client menu). Merged into the items query on each `ApplySection`.
    pub section_filters: StringMap<SectionFilters>,
    /// Gapless audio toggle (mirrors `config.audio.gapless`).
    pub gapless: bool,
    /// ReplayGain normalization toggle (mirrors `config.audio.normalization`).
    pub normalization: bool,
    /// Current EQ preset (mirrors `config.audio.eq.preset`; `Flat` == disabled).
    pub eq_preset: EqPreset,
    /// Number of custom mpv args from `config.video.mpv_args`. Display-only
    /// here — editing happens by hand in `config.toml`.
    pub mpv_arg_count: usize,
    /// True when shuffle is on. The queue list is reordered in place each time
    /// shuffle flips on (so the auto-advance pointer follows the new order).
    pub shuffle: bool,
    /// Last-active section *name* per library id. Stored by name rather than
    /// index so a change to the section lists won't strand users on a stale
    /// slot. Persists to disk via `Intent::SaveSectionMemory`.
    pub section_memory: StringMap<String>,
    /// Recent search queries (most recent first). Up/Down inside the search
    /// input cycles through them so the user can re-run a recent search.
    pub search_history: Vec<String>,
    /// Index of the in-history query currently surfaced in the search input,
    /// or `None` when the user is typing fresh.
    pub search_history_cursor: Option<usize>,
    pub show_help: bool,
    pub should_quit: bool,
    /// Display snapshot of current playback; set by the event loop, read by render.
    pub now_playing: Option<NowPlaying>,
    /// The active color theme.
    pub theme: Theme,
    /// Selectable theme names, for the runtime picker.
    pub available_themes: Vec<String>,
    /// When the theme picker is open, the highlighted index into `available_themes`.
    pub theme_picker: Option<usize>,
    /// Currently-open popup menu (item options or client settings), if any.
    pub popup: Option<PopupMenu>,
    /// True while the user has pressed `g` and the next keystroke should be
    /// resolved by the go-to menu instead of the normal keymap.
    pub awaiting_go_to: bool,
    /// Visible-library picker overlay (Client settings → Visible libraries…).
    pub library_picker: Option<LibraryPickerState>,
    /// Playlist picker overlay (Item options → Add to playlist).
    pub playlist_picker: Option<PlaylistPickerState>,
    /// Video audio / subtitle track picker overlay.
    pub video_track_picker: Option<VideoTrackPickerState>,
    /// Per-item video track selections; consumed on Play.
    pub video_track_selections: StringMap<VideoTrackSelection>,
    /// Pre-play media-options view rendered in the content pane for video
    /// items (versions + audio + subtitles + Play).
    pub media_options_view: Option<MediaOptionsViewState>,
    /// Id of the item whose details are on display. While `None`, the middle
    /// pane shows a placeholder instead of cover + title + description.
    pub revealed_item_id: Option<String>,
    /// Which view the music top-right pane renders (info or lyrics). Toggled
    /// from the item-options popup.
    pub context_view: ContextTopView,
    /// Vertical scroll offset (in rows) for the right-top context pane when
    /// it overflows. Reset on selection change or view switch.
    pub context_top_scroll: u16,
    /// Vertical scroll offset (in rows) for the right-bottom context pane
    /// (queue / credits / seasons).
    pub context_bottom_scroll: u16,
    /// Transient one-liner in the status bar (e.g. "Not playable"); cleared on the
    /// next key press.
    pub status_message: Option<String>,
    /// Side effects queued by key handling for the loop to perform.
    pub pending: Vec<Intent>,
    /// Message of the error modal, while it is open.
    pub error: Option<String>,
    /// Whether the log location was copied while the error modal was open.
    pub error_copied: bool,
    pub keymap: Keymap,
    /// Home dashboard payload (resume + next-up + recents per library).
    pub home: HomeData,
    /// Row/col cursor on Home. Lives separately from `focus` so leaving and
    /// returning to Home preserves the user's spot.
    pub home_cursor: HomeCursor,
    /// Global search view state. Lives here so the query + last results
    /// survive leaving and re-entering the view.
    pub global_search: GlobalSearchState,
}

/// The contents of an [`App`].
pub struct AppModel {
    pub focus: Pane,
    pub libraries: Seq<LibraryModel>,
    pub library_selected: usize,
    pub section_selected: usize,
    pub stack: Seq<LevelModel>,
    pub search_query: Option<Seq<char>>,
    pub current_detail: Option<(Seq<char>, ItemDetailModel)>,
    pub queue: Seq<ItemModel>,
    pub queue_index: Option<usize>,
    pub repeat_mode: RepeatMode,
    pub sleep_timer: SleepTimer,
    pub sleep_remaining_secs: Option<u64>,
    pub section_filters: Map<Seq<char>, SectionFiltersModel>,
    pub gapless: bool,
    pub normalization: bool,
    pub eq_preset: EqPreset,
    pub mpv_arg_count: usize,
    pub shuffle: bool,
    pub section_memory: Map<Seq<char>, Seq<char>>,
    pub search_history: Seq<Seq<char>>,
    pub search_history_cursor: Option<usize>,
    pub show_help: bool,
    pub should_quit: bool,
    pub now_playing: Option<NowPlayingModel>,
    pub theme: Seq<char>,
    pub available_themes: Seq<Seq<char>>,
    pub theme_picker: Option<usize>,
    pub popup: Option<PopupMenu>,
    pub awaiting_go_to: bool,
    pub library_picker: Option<LibraryPickerModel>,
    pub playlist_picker: Option<PlaylistPickerModel>,
    pub video_track_picker: Option<VideoTrackPickerModel>,
    pub video_track_selections: Map<Seq<char>, VideoTrackSelectionModel>,
    pub media_options_view: Option<MediaOptionsModel>,
    pub revealed_item_id: Option<Seq<char>>,
    pub context_view: ContextTopView,
    pub context_top_scroll: u16,
    pub context_bottom_scroll: u16,
    pub status_message: Option<Seq<char>>,
    pub pending: Seq<IntentModel>,
    pub error: Option<Seq<char>>,
    pub error_copied: bool,
    pub keymap: Seq<Binding>,
    pub home: HomeDataModel,
    pub home_cursor: HomeCursor,
    pub global_search: GlobalSearchModel,
}

impl View for App {
    type V = AppModel;

    open spec fn view(&self) -> AppModel {
        AppModel {
            focus: self.focus,
            libraries: self.libraries.deep_view(),
            library_selected: self.library_selected,
            section_selected: self.section_selected,
            stack: self.stack.deep_view(),
            search_query: self.search_query.deep_view(),
            current_detail: self.current_detail.deep_view(),
            queue: self.queue.deep_view(),
            queue_index: self.queue_index,
            repeat_mode: self.repeat_mode,
            sleep_timer: self.sleep_timer,
            sleep_remaining_secs: self.sleep_remaining_secs,
            section_filters: self.section_filters.deep_view(),
            gapless: self.gapless,
            normalization: self.normalization,
            eq_preset: self.eq_preset,
            mpv_arg_count: self.mpv_arg_count,
            shuffle: self.shuffle,
            section_memory: self.section_memory.deep_view(),
            search_history: self.search_history.deep_view(),
            search_history_cursor: self.search_history_cursor,
            show_help: self.show_help,
            should_quit: self.should_quit,
            now_playing: self.now_playing.deep_view(),
            theme: self.theme@,
            available_themes: self.available_themes.deep_view(),
            theme_picker: self.theme_picker,
            popup: self.popup,
            awaiting_go_to: self.awaiting_go_to,
            library_picker: self.library_picker.deep_view(),
            playlist_picker: self.playlist_picker.deep_view(),
            video_track_picker: self.video_track_picker.deep_view(),
            video_track_selections: self.video_track_selections.deep_view(),
            media_options_view: self.media_options_view.deep_view(),
            revealed_item_id: self.revealed_item_id.deep_view(),
            context_view: self.context_view,
            context_top_scroll: self.context_top_scroll,
            context_bottom_scroll: self.context_bottom_scroll,
            status_message: self.status_message.deep_view(),
            pending: self.pending.deep_view(),
            error: self.error.deep_view(),
            error_copied: self.error_copied,
            keymap: self.keymap@,
            home: self.home@,
            home_cursor: self.home_cursor,
            global_search: self.global_search@,
        }
    }
}

/// Whether a library has the given id.
pub open spec fn library_has_id(id: Seq<char>) -> spec_fn(LibraryModel) -> bool {
    |library: LibraryModel| library.id == id
}

/// Whether a section has the given name.
pub open spec fn section_has_name(name: Seq<char>) -> spec_fn(SectionModel) -> bool {
    |section: SectionModel| section.name == name
}

/// The list pane's stack for a library: its top-level items, or nothing at all
/// without a library.
pub open spec fn root_levels(library: Option<LibraryModel>) -> Seq<LevelModel> {
    match library {
        Some(lib) => seq![LevelModel::ready(lib.name, lib.id, lib.items)],
        None => Seq::empty(),
    }
}

/// Where a library of the given kind stands when the named section was active
/// last: on that section, or on the first one if it has none of that name.
pub open spec fn section_index(
    collection_type: Option<Seq<char>>,
    remembered: Option<Seq<char>>,
) -> usize {
    match remembered {
        Some(name) => match sequences::first_index(
            sections::sections_of(collection_type),
            section_has_name(name),
        ) {
            Some(i) => i as usize,
            None => 0,
        },
        None => 0,
    }
}

/// What a map holds under a key.
pub open spec fn lookup<V>(map: Map<Seq<char>, V>, key: Seq<char>) -> Option<V> {
    if map.dom().contains(key) {
        Some(map[key])
    } else {
        None
    }
}

impl AppModel {
    /// The state right after start-up on the given libraries.
    pub open spec fn started(libraries: Seq<LibraryModel>) -> AppModel {
        AppModel {
            focus: Pane::LibraryItems,
            libraries,
            library_selected: 0,
            section_selected: 0,
            stack: root_levels(
                if libraries.len() > 0 {
                    Some(libraries[0])
                } else {
                    None
                },
            ),
            search_query: None,
            current_detail: None,
            queue: Seq::empty(),
            queue_index: None,
            repeat_mode: RepeatMode::Off,
            sleep_timer: SleepTimer::Off,
            sleep_remaining_secs: None,
            section_filters: Map::empty(),
            gapless: false,
            normalization: false,
            eq_preset: EqPreset::Flat,
            mpv_arg_count: 0,
            shuffle: false,
            section_memory: Map::empty(),
            search_history: Seq::empty(),
            search_history_cursor: None,
            show_help: false,
            should_quit: false,
            now_playing: None,
            theme: "default"@,
            available_themes: Seq::empty(),
            theme_picker: None,
            popup: None,
            awaiting_go_to: false,
            library_picker: None,
            playlist_picker: None,
            video_track_picker: None,
            video_track_selections: Map::empty(),
            media_options_view: None,
            revealed_item_id: None,
            context_view: ContextTopView::Lyrics,
            context_top_scroll: 0,
            context_bottom_scroll: 0,
            status_message: None,
            pending: Seq::empty(),
            error: None,
            error_copied: false,
            keymap: keymap::default_bindings(),
            home: HomeDataModel::empty(),
            home_cursor: HomeCursor { row: 0, col: 0 },
            global_search: GlobalSearchModel {
                input_focused: true,
                ..GlobalSearchModel::blank()
            },
        }
    }

    /// With one more side effect asked for.
    pub open spec fn queued(self, intent: IntentModel) -> AppModel {
        AppModel { pending: self.pending.push(intent), ..self }
    }

    /// With a transient note in the status bar.
    pub open spec fn noted(self, message: Seq<char>) -> AppModel {
        AppModel { status_message: Some(message), ..self }
    }

    /// The active library.
    pub open spec fn current_library(self) -> Option<LibraryModel> {
        if self.library_selected < self.libraries.len() {
            Some(self.libraries[self.library_selected as int])
        } else {
            None
        }
    }

    /// The active library's collection type.
    pub open spec fn collection_type(self) -> Option<Seq<char>> {
        match self.current_library() {
            Some(library) => library.collection_type,
            None => None,
        }
    }

    /// Where a library with the given id stands in the list.
    pub open spec fn library_position(self, id: Seq<char>) -> Option<usize> {
        match sequences::first_index(self.libraries, library_has_id(id)) {
            Some(i) => Some(i as usize),
            None => None,
        }
    }

    /// The sections of the active library.
    pub open spec fn sections(self) -> Seq<SectionModel> {
        sections::sections_of(self.collection_type())
    }

    /// The focused section of the active library.
    pub open spec fn current_section(self) -> Option<SectionModel> {
        if self.section_selected < self.sections().len() {
            Some(self.sections()[self.section_selected as int])
        } else {
            None
        }
    }

    /// The bottom of the drill stack: the library root.
    pub open spec fn root_level(self) -> Option<LevelModel> {
        if self.stack.len() > 0 {
            Some(self.stack[0])
        } else {
            None
        }
    }

    /// The top of the drill stack.
    pub open spec fn current_level(self) -> Option<LevelModel> {
        if self.stack.len() > 0 {
            Some(self.stack.last())
        } else {
            None
        }
    }

    /// Whether the list pane shows a folder's children.
    pub open spec fn is_drilled(self) -> bool {
        self.stack.len() > 1
    }

    /// The folder level on display, if the user has opened one.
    pub open spec fn drilled_level(self) -> Option<LevelModel> {
        if self.is_drilled() {
            Some(self.stack.last())
        } else {
            None
        }
    }

    /// The level that the focused pane works on.
    pub open spec fn focused_level(self) -> Option<LevelModel> {
        if self.focus == Pane::LibraryItems {
            self.root_level()
        } else {
            self.current_level()
        }
    }

    /// The item the user is engaging with. A level whose cursor has not been moved
    /// yet stands for the folder it was opened from.
    pub open spec fn current_item(self) -> Option<ItemModel> {
        match self.focused_level() {
            Some(level) => if !level.cursor_engaged && level.parent_item is Some {
                level.parent_item
            } else if level.selected_item() is Some {
                level.selected_item()
            } else {
                level.parent_item
            },
            None => None,
        }
    }

    /// The drill path within the library.
    pub open spec fn path(self) -> Seq<char> {
        text::joined(self.stack.map_values(|level: LevelModel| level.title), " › "@)
    }

    /// The fetched detail, if it is about the current item.
    pub open spec fn shown_detail(self) -> Option<ItemDetailModel> {
        match (self.current_item(), self.current_detail) {
            (Some(item), Some((id, detail))) => if id == item.id {
                Some(detail)
            } else {
                None
            },
            _ => None,
        }
    }

    /// Whether the current item's details are on display.
    pub open spec fn current_item_revealed(self) -> bool {
        match (self.current_item(), self.revealed_item_id) {
            (Some(item), Some(id)) => item.id == id,
            _ => false,
        }
    }

    /// Back at the root of the active library, on its remembered section.
    pub open spec fn library_reset(self) -> AppModel {
        AppModel {
            stack: root_levels(self.current_library()),
            section_selected: match self.current_library() {
                Some(library) => section_index(
                    library.collection_type,
                    lookup(self.section_memory, library.id),
                ),
                None => 0,
            },
            ..self
        }
    }

    /// With library `index` active, from its root.
    pub open spec fn on_library(self, index: usize) -> AppModel {
        AppModel { library_selected: index, ..self }.library_reset()
    }
}

/// The demo libraries that the client starts on without a server.
pub open spec fn demo_libraries() -> Seq<LibraryModel> {
    seq![
        LibraryModel {
            id: "movies"@,
            name: "Movies"@,
            collection_type: Some("movies"@),
            items: demo_items(
                seq![
                    "The Matrix"@,
                    "Inception"@,
                    "Blade Runner 2049"@,
                    "Arrival"@,
                    "Dune"@,
                ],
            ),
        },
        LibraryModel {
            id: "tv"@,
            name: "TV"@,
            collection_type: Some("tvshows"@),
            items: demo_items(seq!["Severance"@, "The Bear"@, "Andor"@, "Breaking Bad"@]),
        },
        LibraryModel {
            id: "music"@,
            name: "Music"@,
            collection_type: Some("music"@),
            items: demo_items(
                seq![
                    "Discovery — Daft Punk"@,
                    "In Rainbows — Radiohead"@,
                    "Random Access Memories"@,
                ],
            ),
        },
    ]
}

/// Title-only items.
pub open spec fn demo_items(names: Seq<Seq<char>>) -> Seq<ItemModel> {
    names.map_values(|name: Seq<char>| ItemModel { name, ..ItemModel::blank() })
}

/// The list pane's stack for a library.
fn root_stack(library: Option<&Library>) -> (stack: Vec<Level>)
    ensures
        stack.deep_view() == root_levels(library.deep_view()),
{
    let mut stack: Vec<Level> = Vec::new();
    if let Some(lib) = library {
        let items = lib.items.clone();
        assert(items.deep_view() =~= lib.items.deep_view());
        push_deep(&mut stack, Level::ready(lib.name.clone(), lib.id.clone(), items));
    }
    assert(stack.deep_view() =~= root_levels(library.deep_view()));
    stack
}

/// The index of the section called `name`, for a library of the given kind.
fn section_position(collection_type: Option<&str>, name: &str) -> (index: usize)
    ensures
        index == section_index(collection_type.deep_view(), Some(name@)),
{
    let sections = sections_for(collection_type);
    let ghost p = section_has_name(name@);
    let ghost models = sections.deep_view();
    let mut i: usize = 0;
    while i < sections.len()
        invariant
            i <= sections@.len(),
            models == sections.deep_view(),
            models == sections::sections_of(collection_type.deep_view()),
            p == section_has_name(name@),
            forall|j: int| 0 <= j < i ==> !p(#[trigger] models[j]),
        decreases sections@.len() - i,
    {
        if same_text(sections[i].name.as_str(), name) {
            proof {
                sequences::lemma_first_index_found(models, p, i as int);
            }
            return i;
        }
        i = i + 1;
    }
    proof {
        sequences::lemma_first_index_missing(models, p);
    }
    0
}

impl App {
    /// Demo/mock data; used by tests and as a fallback. Real data comes via
    /// [`App::with_libraries`].
    pub fn new() -> (app: App)
        ensures
            app@ == AppModel::started(demo_libraries()),
    {
        let movies = Library {
            id: "movies".to_owned(),
            name: "Movies".to_owned(),
            collection_type: Some("movies".to_owned()),
            items: vec![
                Item::demo("The Matrix"),
                Item::demo("Inception"),
                Item::demo("Blade Runner 2049"),
                Item::demo("Arrival"),
                Item::demo("Dune"),
            ],
        };
        let tv = Library {
            id: "tv".to_owned(),
            name: "TV".to_owned(),
            collection_type: Some("tvshows".to_owned()),
            items: vec![
                Item::demo("Severance"),
                Item::demo("The Bear"),
                Item::demo("Andor"),
                Item::demo("Breaking Bad"),
            ],
        };
        let music = Library {
            id: "music".to_owned(),
            name: "Music".to_owned(),
            collection_type: Some("music".to_owned()),
            items: vec![
                Item::demo("Discovery — Daft Punk"),
                Item::demo("In Rainbows — Radiohead"),
                Item::demo("Random Access Memories"),
            ],
        };
        let libraries: Vec<Library> = vec![movies, tv, music];
        assert(libraries.deep_view() =~= demo_libraries()) by {
            let demo = demo_libraries();
            assert(movies@ =~~= demo[0]);
            assert(tv@ =~~= demo[1]);
            assert(music@ =~~= demo[2]);
        }
        App::with_libraries(libraries)
    }

    /// A freshly started client on the given libraries.
    pub fn with_libraries(libraries: Vec<Library>) -> (app: App)
        ensures
            app@ == AppModel::started(libraries.deep_view()),
    {
        let stack = root_stack(
            if libraries.len() > 0 {
                Some(&libraries[0])
            } else {
                None
            },
        );
        let app = App {
            focus: Pane::LibraryItems,
            libraries,
            library_selected: 0,
            section_selected: 0,
            stack,
            search_query: None,
            current_detail: None,
            queue: Vec::new(),
            queue_index: None,
            repeat_mode: RepeatMode::Off,
            sleep_timer: SleepTimer::Off,
            sleep_remaining_secs: None,
            section_filters: StringMap::new(),
            gapless: false,
            normalization: false,
            eq_preset: EqPreset::Flat,
            mpv_arg_count: 0,
            shuffle: false,
            section_memory: StringMap::new(),
            search_history: Vec::new(),
            search_history_cursor: None,
            show_help: false,
            should_quit: false,
            now_playing: None,
            theme: Theme::default(),
            available_themes: Vec::new(),
            theme_picker: None,
            popup: None,
            awaiting_go_to: false,
            library_picker: None,
            playlist_picker: None,
            video_track_picker: None,
            video_track_selections: StringMap::new(),
            media_options_view: None,
            revealed_item_id: None,
            context_view: ContextTopView::Lyrics,
            context_top_scroll: 0,
            context_bottom_scroll: 0,
            status_message: None,
            pending: Vec::new(),
            error: None,
            error_copied: false,
            keymap: Keymap::default(),
            home: HomeData::default(),
            home_cursor: HomeCursor::default(),
            global_search: GlobalSearchState {
                input_focused: true,
                ..GlobalSearchState::default()
            },
        };
        proof {
            let start = AppModel::started(libraries.deep_view());
            assert(app@.queue =~= start.queue);
            assert(app@.section_filters =~= start.section_filters);
            assert(app@.section_memory =~= start.section_memory);
            assert(app@.search_history =~= start.search_history);
            assert(app@.available_themes =~= start.available_themes);
            assert(app@.video_track_selections =~= start.video_track_selections);
            assert(app@.pending =~= start.pending);
        }
        app
    }

    /// The active library.
    pub fn current_library(&self) -> (library: Option<&Library>)
        ensures
            library.deep_view() == self@.current_library(),
    {
        if self.library_selected < self.libraries.len() {
            Some(&self.libraries[self.library_selected])
        } else {
            None
        }
    }

    /// The active library's collection type.
    pub fn collection_type(&self) -> (collection_type: Option<&str>)
        ensures
            collection_type.deep_view() == self@.collection_type(),
    {
        match self.current_library() {
            Some(library) => as_slice(&library.collection_type),
            None => None,
        }
    }

    /// Where the library with the given id stands in the list.
    pub fn library_position(&self, id: &str) -> (position: Option<usize>)
        ensures
            position == self@.library_position(id@),
            position matches Some(i) ==> i < self.libraries@.len(),
    {
        let ghost p = library_has_id(id@);
        let ghost models = self@.libraries;
        let mut i: usize = 0;
        while i < self.libraries.len()
            invariant
                i <= self.libraries@.len(),
                models == self.libraries.deep_view(),
                p == library_has_id(id@),
                forall|j: int| 0 <= j < i ==> !p(#[trigger] models[j]),
            decreases self.libraries@.len() - i,
        {
            if same_text(self.libraries[i].id.as_str(), id) {
                proof {
                    sequences::lemma_first_index_found(models, p, i as int);
                }
                return Some(i);
            }
            i = i + 1;
        }
        proof {
            sequences::lemma_first_index_missing(models, p);
        }
        None
    }

    /// The active list level (top of the drill stack).
    pub fn current_level(&self) -> (level: Option<&Level>)
        ensures
            level.deep_view() == self@.current_level(),
    {
        self.stack.last()
    }

    /// The library root level (bottom of the drill stack). Shown in the left
    /// items pane so the album/playlist/series list stays visible while the
    /// middle pane drills into a folder.
    pub fn root_level(&self) -> (level: Option<&Level>)
        ensures
            level.deep_view() == self@.root_level(),
    {
        self.stack.first()
    }

    /// The deepest drilled level — the middle pane's list when the user has
    /// opened a folder. `None` while at the library root.
    pub fn drilled_level(&self) -> (level: Option<&Level>)
        ensures
            level.deep_view() == self@.drilled_level(),
    {
        if self.is_drilled() {
            self.stack.last()
        } else {
            None
        }
    }

    /// Whether the list pane is showing a folder's children (vs. a library root).
    pub fn is_drilled(&self) -> (drilled: bool)
        ensures
            drilled == self@.is_drilled(),
    {
        self.stack.len() > 1
    }

    /// Item the user is currently engaging with: the focused row in whichever
    /// pane holds focus. When focus is on the items list (top-left), this is
    /// the library root selection — so drilling into a Series leaves
    /// `current_item` on the Series itself, and the info pane keeps rendering
    /// it. When focus is on the Content pane, this walks into the drilled
    /// level instead — falling back to the level's `parent_item` while its
    /// children are still loading so the info pane never goes blank.
    pub fn current_item(&self) -> (item: Option<&Item>)
        ensures
            item.deep_view() == self@.current_item(),
    {
        let level = if self.focus == Pane::LibraryItems {
            self.root_level()
        } else {
            self.current_level()
        };
        match level {
            None => None,
            Some(level) => {
                if !level.cursor_engaged && level.parent_item.is_some() {
                    return level.parent_item.as_ref();
                }
                match level.selected_item() {
                    Some(item) => Some(item),
                    None => level.parent_item.as_ref(),
                }
            },
        }
    }

    /// Breadcrumb of the current drill path within the library (e.g.
    /// "Breaking Bad › Season 1").
    pub fn breadcrumb(&self) -> (path: String)
        ensures
            path@ == self@.path(),
    {
        let ghost titles = self@.stack.map_values(|level: LevelModel| level.title);
        let mut path = String::new();
        let mut i: usize = 0;
        assert(titles.take(0) =~= Seq::empty());
        while i < self.stack.len()
            invariant
                i <= self.stack@.len(),
                titles == self@.stack.map_values(|level: LevelModel| level.title),
                path@ == text::joined(titles.take(i as int), " › "@),
            decreases self.stack@.len() - i,
        {
            if i > 0 {
                path.append(" › ");
            }
            path.append(self.stack[i].title.as_str());
            proof {
                sequences::lemma_take_push(titles, i as int);
                text::lemma_joined_push(titles.take(i as int), titles[i as int], " › "@);
                assert(Seq::<char>::empty() + titles[i as int] =~= titles[i as int]);
            }
            i = i + 1;
        }
        proof {
            sequences::lemma_take_all(titles);
        }
        path
    }

    /// Sections defined for the active library kind.
    pub fn current_sections(&self) -> (sections: Vec<Section>)
        ensures
            sections.deep_view() == self@.sections(),
    {
        sections_for(self.collection_type())
    }

    /// Currently-focused section (within the active library).
    pub fn current_section(&self) -> (section: Option<Section>)
        ensures
            section.deep_view() == self@.current_section(),
    {
        let sections = self.current_sections();
        if self.section_selected < sections.len() {
            Some(sections[self.section_selected].clone())
        } else {
            None
        }
    }

    /// Detail for the current item, if it has been fetched and is still
    /// current (the item id matches).
    pub fn current_detail(&self) -> (detail: Option<&ItemDetail>)
        ensures
            detail.deep_view() == self@.shown_detail(),
    {
        match (self.current_item(), &self.current_detail) {
            (Some(item), Some(entry)) => {
                if same_text(entry.0.as_str(), item.id.as_str()) {
                    Some(&entry.1)
                } else {
                    None
                }
            },
            _ => None,
        }
    }

    /// True when the focused item has been explicitly revealed. Drives the middle
    /// pane (cover + title + description) and the cover request gate.
    pub fn current_item_revealed(&self) -> (revealed: bool)
        ensures
            revealed == self@.current_item_revealed(),
    {
        match (self.current_item(), &self.revealed_item_id) {
            (Some(item), Some(id)) => same_text(item.id.as_str(), id.as_str()),
            _ => false,
        }
    }

    /// Rebuild the stack for the currently-selected library (called whenever the
    /// library selection changes; drilling state is intentionally reset).
    /// Restores any remembered section for the new library, so that flicking
    /// back with 1-9 doesn't drop the user at "All" every time.
    pub(crate) fn reset_stack_for_library(&mut self)
        ensures
            final(self)@ == old(self)@.library_reset(),
    {
        let stack = root_stack(self.current_library());
        let section: usize = match self.current_library() {
            Some(library) => match self.section_memory.get(library.id.as_str()) {
                Some(name) => section_position(as_slice(&library.collection_type), name.as_str()),
                None => 0,
            },
            None => 0,
        };
        self.stack = stack;
        self.section_selected = section;
        assert(self@ == old(self)@.library_reset());
    }

    /// Push a side-effect onto the pending queue. Used by collaborators that need
    /// to schedule follow-up work back through the main intent loop.
    pub fn queue_intent(&mut self, intent: Intent)
        ensures
            final(self)@ == old(self)@.queued(intent@),
    {
        push_deep(&mut self.pending, intent);
    }

    /// Set the transient status-bar note (used by the loop for playback feedback).
    pub fn set_status(&mut self, message: &str)
        ensures
            final(self)@ == old(self)@.noted(message@),
    {
        self.status_message = Some(message.to_owned());
    }

    /// Drain the queued side effects for the event loop to perform.
    pub fn take_intents(&mut self) -> (intents: Vec<Intent>)
        ensures
            intents.deep_view() == old(self)@.pending,
            final(self)@ == (AppModel { pending: Seq::empty(), ..old(self)@ }),
    {
        let mut intents: Vec<Intent> = Vec::new();
        std::mem::swap(&mut self.pending, &mut intents);
        assert(self.pending.deep_view() =~= Seq::empty());
        intents
    }
}

} // verus!
