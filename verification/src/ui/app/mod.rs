//! Application state: pure transitions from key presses and fetched payloads.

pub mod actions;
pub mod home;
pub mod intents;
pub mod invariants;
pub mod keys;
pub mod labels;
pub mod laws;
pub mod media_options;
pub mod menus;
pub mod navigation;
pub mod pickers;
pub mod queue;
pub mod search;
pub mod sections;
pub mod setup;
pub mod state;
pub mod types;

pub use self::types::{
    Chapter, ChapterModel, ClientMenuAction, ContextTopView,
    GlobalSearchModel, GlobalSearchState, HomeCursor, HomeData, HomeDataModel, HomeLibraryModel,
    HomeLibrarySummary, HomeRow, HomeRowKind, HomeRowModel, Intent, IntentModel, Item, ItemDetail,
    ItemDetailModel, ItemMenuAction, ItemModel, Level, LevelModel, Library, LibraryModel,
    LibraryPickerModel, LibraryPickerState, LyricLine, LyricLineModel, MediaKind,
    MediaOptionsCursor, MediaOptionsModel, MediaOptionsViewState, MediaVersion, MediaVersionModel,
    NowPlaying, NowPlayingModel, Pane, Person, PersonModel, PlaylistPickerModel,
    PlaylistPickerState, PopupMenu, RepeatMode, Section, SectionFilters, SectionFiltersModel,
    SectionModel, SleepTimer, TrackEntryModel, TrackPickerEntry, VideoTrackKind,
    VideoTrackPickerModel, VideoTrackPickerState, VideoTrackSelection, VideoTrackSelectionModel,
};
pub use self::labels::search_level_title;
pub use self::media_options::options_cursor_positions;
pub use self::sections::sections_for;
pub use self::state::{App, AppModel};
