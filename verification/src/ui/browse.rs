//! On-demand library queries: folder drilling, section filters, and search.
//!
//! What each query asks for, what its answer is turned into, and how a finished
//! fetch fills the client. The requests themselves run elsewhere; the UI thread
//! never blocks.

use vstd::prelude::*;

use super::app::home::copy_items;
use super::app::labels;
use super::app::labels::search_level_title;
use super::app::queue;
use super::app::state::{App, AppModel};
use super::app::types::{
    HomeData, HomeDataModel, HomeLibraryModel, HomeLibrarySummary, Intent, IntentModel, Item,
    ItemModel, Library, LibraryModel, MediaKind, MediaVersion, MediaVersionModel, Section,
    SectionFilters, SectionFiltersModel, SectionModel, TrackEntryModel, TrackPickerEntry,
    VideoTrackKind,
};
use crate::sequences;
use crate::sequences::{copy_texts, push_deep};
use crate::text;
use crate::text::{
    as_slice, concat2, concat3, concat4, is_text, join_texts, same_text, signed_decimal_text,
};
use crate::video::TrackChoice;

verus! {

/// What an items request asks the server for. Empty fields are left out of it.
#[derive(Debug)]
pub struct ItemsQuery {
    pub parent_id: Option<String>,
    pub search_term: Option<String>,
    pub recursive: Option<bool>,
    pub include_item_types: Vec<String>,
    pub sort_by: Vec<String>,
    pub fields: Vec<String>,
    pub limit: Option<i32>,
    pub genres: Vec<String>,
    pub person_ids: Vec<String>,
    pub studio_ids: Vec<String>,
    pub years: Vec<i32>,
    pub tags: Vec<String>,
    pub filters: Vec<String>,
    pub artist_ids: Vec<String>,
    pub album_artist_ids: Vec<String>,
}

/// The contents of an [`ItemsQuery`].
#[verifier::ext_equal]
pub struct QueryModel {
    pub parent_id: Option<Seq<char>>,
    pub search_term: Option<Seq<char>>,
    pub recursive: Option<bool>,
    pub include_item_types: Seq<Seq<char>>,
    pub sort_by: Seq<Seq<char>>,
    pub fields: Seq<Seq<char>>,
    pub limit: Option<i32>,
    pub genres: Seq<Seq<char>>,
    pub person_ids: Seq<Seq<char>>,
    pub studio_ids: Seq<Seq<char>>,
    pub years: Seq<i32>,
    pub tags: Seq<Seq<char>>,
    pub filters: Seq<Seq<char>>,
    pub artist_ids: Seq<Seq<char>>,
    pub album_artist_ids: Seq<Seq<char>>,
}

impl View for ItemsQuery {
    type V = QueryModel;

    open spec fn view(&self) -> QueryModel {
        QueryModel {
            parent_id: self.parent_id.deep_view(),
            search_term: self.search_term.deep_view(),
            recursive: self.recursive,
            include_item_types: self.include_item_types.deep_view(),
            sort_by: self.sort_by.deep_view(),
            fields: self.fields.deep_view(),
            limit: self.limit,
            genres: self.genres.deep_view(),
            person_ids: self.person_ids.deep_view(),
            studio_ids: self.studio_ids.deep_view(),
            years: self.years.deep_view(),
            tags: self.tags.deep_view(),
            filters: self.filters.deep_view(),
            artist_ids: self.artist_ids.deep_view(),
            album_artist_ids: self.album_artist_ids.deep_view(),
        }
    }
}

impl DeepView for ItemsQuery {
    type V = QueryModel;

    open spec fn deep_view(&self) -> QueryModel {
        self@
    }
}

impl QueryModel {
    /// No restriction at all.
    pub open spec fn anything() -> QueryModel {
        QueryModel {
            parent_id: None,
            search_term: None,
            recursive: None,
            include_item_types: Seq::empty(),
            sort_by: Seq::empty(),
            fields: Seq::empty(),
            limit: None,
            genres: Seq::empty(),
            person_ids: Seq::empty(),
            studio_ids: Seq::empty(),
            years: Seq::empty(),
            tags: Seq::empty(),
            filters: Seq::empty(),
            artist_ids: Seq::empty(),
            album_artist_ids: Seq::empty(),
        }
    }
}

impl Default for ItemsQuery {
    fn default() -> (value: ItemsQuery)
        ensures
            value@ == QueryModel::anything(),
    {
        let value = ItemsQuery {
            parent_id: None,
            search_term: None,
            recursive: None,
            include_item_types: Vec::new(),
            sort_by: Vec::new(),
            fields: Vec::new(),
            limit: None,
            genres: Vec::new(),
            person_ids: Vec::new(),
            studio_ids: Vec::new(),
            years: Vec::new(),
            tags: Vec::new(),
            filters: Vec::new(),
            artist_ids: Vec::new(),
            album_artist_ids: Vec::new(),
        };
        assert(value@ =~~= QueryModel::anything());
        value
    }
}

/// One stream of a media source, as the server describes it.
#[derive(Debug, Clone)]
pub struct MediaStream {
    /// `Video`, `Audio`, `Subtitle`, …
    pub type_: Option<String>,
    /// Index within the source, over all types.
    pub index: i32,
    pub codec: Option<String>,
    pub language: Option<String>,
    pub title: Option<String>,
    pub display_title: Option<String>,
    pub channel_layout: Option<String>,
    pub is_default: Option<bool>,
    pub is_forced: Option<bool>,
}

/// The contents of a [`MediaStream`].
#[verifier::ext_equal]
pub struct StreamModel {
    pub type_: Option<Seq<char>>,
    pub index: i32,
    pub codec: Option<Seq<char>>,
    pub language: Option<Seq<char>>,
    pub title: Option<Seq<char>>,
    pub display_title: Option<Seq<char>>,
    pub channel_layout: Option<Seq<char>>,
    pub is_default: Option<bool>,
    pub is_forced: Option<bool>,
}

impl View for MediaStream {
    type V = StreamModel;

    open spec fn view(&self) -> StreamModel {
        StreamModel {
            type_: self.type_.deep_view(),
            index: self.index,
            codec: self.codec.deep_view(),
            language: self.language.deep_view(),
            title: self.title.deep_view(),
            display_title: self.display_title.deep_view(),
            channel_layout: self.channel_layout.deep_view(),
            is_default: self.is_default,
            is_forced: self.is_forced,
        }
    }
}

impl DeepView for MediaStream {
    type V = StreamModel;

    open spec fn deep_view(&self) -> StreamModel {
        self@
    }
}

impl StreamModel {
    /// Nothing known.
    pub open spec fn unknown() -> StreamModel {
        StreamModel {
            type_: None,
            index: 0,
            codec: None,
            language: None,
            title: None,
            display_title: None,
            channel_layout: None,
            is_default: None,
            is_forced: None,
        }
    }
}

impl Default for MediaStream {
    fn default() -> (value: MediaStream)
        ensures
            value@ == StreamModel::unknown(),
    {
        let value = MediaStream {
            type_: None,
            index: 0,
            codec: None,
            language: None,
            title: None,
            display_title: None,
            channel_layout: None,
            is_default: None,
            is_forced: None,
        };
        assert(value@ =~~= StreamModel::unknown());
        value
    }
}

/// One playable version of an item, as the server describes it.
#[derive(Debug)]
pub struct MediaSource {
    pub id: Option<String>,
    pub name: Option<String>,
    pub container: Option<String>,
    /// The file size, ready to be shown.
    pub size_label: Option<String>,
    pub media_streams: Vec<MediaStream>,
}

/// The contents of a [`MediaSource`].
#[verifier::ext_equal]
pub struct SourceModel {
    pub id: Option<Seq<char>>,
    pub name: Option<Seq<char>>,
    pub container: Option<Seq<char>>,
    pub size_label: Option<Seq<char>>,
    pub media_streams: Seq<StreamModel>,
}

impl View for MediaSource {
    type V = SourceModel;

    open spec fn view(&self) -> SourceModel {
        SourceModel {
            id: self.id.deep_view(),
            name: self.name.deep_view(),
            container: self.container.deep_view(),
            size_label: self.size_label.deep_view(),
            media_streams: self.media_streams.deep_view(),
        }
    }
}

impl DeepView for MediaSource {
    type V = SourceModel;

    open spec fn deep_view(&self) -> SourceModel {
        self@
    }
}

/// One match of a server-wide search.
#[derive(Debug, Clone)]
pub struct SearchHint {
    pub item_id: Option<String>,
    pub id: Option<String>,
    pub name: Option<String>,
    pub type_: Option<String>,
}

/// The contents of a [`SearchHint`].
#[verifier::ext_equal]
pub struct HintModel {
    pub item_id: Option<Seq<char>>,
    pub id: Option<Seq<char>>,
    pub name: Option<Seq<char>>,
    pub type_: Option<Seq<char>>,
}

impl View for SearchHint {
    type V = HintModel;

    open spec fn view(&self) -> HintModel {
        HintModel {
            item_id: self.item_id.deep_view(),
            id: self.id.deep_view(),
            name: self.name.deep_view(),
            type_: self.type_.deep_view(),
        }
    }
}

impl DeepView for SearchHint {
    type V = HintModel;

    open spec fn deep_view(&self) -> HintModel {
        self@
    }
}

impl HintModel {
    /// Nothing known.
    pub open spec fn unknown() -> HintModel {
        HintModel {
            item_id: None,
            id: None,
            name: None,
            type_: None,
        }
    }
}

impl Default for SearchHint {
    fn default() -> (value: SearchHint)
        ensures
            value@ == HintModel::unknown(),
    {
        let value = SearchHint {
            item_id: None,
            id: None,
            name: None,
            type_: None,
        };
        assert(value@ =~~= HintModel::unknown());
        value
    }
}

/// A library as the server lists it.
#[derive(Debug, Clone)]
pub struct UserView {
    pub id: String,
    pub name: Option<String>,
    pub collection_type: Option<String>,
}

/// The contents of a [`UserView`].
#[verifier::ext_equal]
pub struct UserViewModel {
    pub id: Seq<char>,
    pub name: Option<Seq<char>>,
    pub collection_type: Option<Seq<char>>,
}

impl View for UserView {
    type V = UserViewModel;

    open spec fn view(&self) -> UserViewModel {
        UserViewModel {
            id: self.id@,
            name: self.name.deep_view(),
            collection_type: self.collection_type.deep_view(),
        }
    }
}

impl DeepView for UserView {
    type V = UserViewModel;

    open spec fn deep_view(&self) -> UserViewModel {
        self@
    }
}

/// What came back for one library of the dashboard.
#[derive(Debug)]
pub struct LibraryFetch {
    pub id: String,
    pub name: String,
    pub collection_type: Option<String>,
    /// The latest items; `None` if the request failed.
    pub recent: Option<Vec<Item>>,
    /// The library's size; `None` if the request failed.
    pub item_count: Option<i64>,
}

/// The contents of a [`LibraryFetch`].
#[verifier::ext_equal]
pub struct LibraryFetchModel {
    pub id: Seq<char>,
    pub name: Seq<char>,
    pub collection_type: Option<Seq<char>>,
    pub recent: Option<Seq<ItemModel>>,
    pub item_count: Option<i64>,
}

impl View for LibraryFetch {
    type V = LibraryFetchModel;

    open spec fn view(&self) -> LibraryFetchModel {
        LibraryFetchModel {
            id: self.id@,
            name: self.name@,
            collection_type: self.collection_type.deep_view(),
            recent: self.recent.deep_view(),
            item_count: self.item_count,
        }
    }
}

impl DeepView for LibraryFetch {
    type V = LibraryFetchModel;

    open spec fn deep_view(&self) -> LibraryFetchModel {
        self@
    }
}

/// What came back for the dashboard. A request that failed left `None`.
#[derive(Debug)]
pub struct HomeFetch {
    pub resume: Option<Vec<Item>>,
    pub next_up: Option<Vec<Item>>,
    pub latest: Option<Vec<Item>>,
    pub libraries: Vec<LibraryFetch>,
}

/// The contents of a [`HomeFetch`].
#[verifier::ext_equal]
pub struct HomeFetchModel {
    pub resume: Option<Seq<ItemModel>>,
    pub next_up: Option<Seq<ItemModel>>,
    pub latest: Option<Seq<ItemModel>>,
    pub libraries: Seq<LibraryFetchModel>,
}

impl View for HomeFetch {
    type V = HomeFetchModel;

    open spec fn view(&self) -> HomeFetchModel {
        HomeFetchModel {
            resume: self.resume.deep_view(),
            next_up: self.next_up.deep_view(),
            latest: self.latest.deep_view(),
            libraries: self.libraries.deep_view(),
        }
    }
}

impl DeepView for HomeFetch {
    type V = HomeFetchModel;

    open spec fn deep_view(&self) -> HomeFetchModel {
        self@
    }
}

/// Result of a fetch, tagged so the client knows what to fill.
#[derive(Debug)]
pub enum BrowseResult {
    Folder { id: String, items: Vec<Item> },
    Section { library_id: String, title: String, items: Vec<Item> },
    Search { library_id: String, query: String, scope_label: String, items: Vec<Item> },
    /// Server-wide search results — fed into the global-search view.
    GlobalSearch { query: String, items: Vec<Item> },
    Failed { id: String, message: String },
    /// The refreshed (already-filtered) library list.
    Libraries(Vec<Library>),
    /// Server-side library list for the visible-libraries picker; each entry
    /// is (id, name, currently-visible?).
    LibraryMeta(Vec<(String, String, bool)>),
    /// The user's playlists, fetched for the playlist picker.
    Playlists(Vec<(String, String)>),
    /// Mix tracks; they are queued and the first one is played.
    InstantMix(Vec<Item>),
    /// Audio / subtitle tracks for the open video track picker.
    VideoTracks(Vec<TrackPickerEntry>),
    /// Versions + audio + subtitle entries for the media-options view.
    MediaOptions { item_id: String, versions: Vec<MediaVersion>, audio_entries: Vec<TrackPickerEntry>, subtitle_entries: Vec<TrackPickerEntry> },
    /// Server action finished — show this as a status-bar note.
    Status(String),
    /// Server action failed — surface via the error modal.
    Error(String),
    /// Home dashboard payload (resume + next-up + recents per library).
    Home(HomeData),
}

/// The contents of a [`BrowseResult`].
#[verifier::ext_equal]
pub enum BrowseResultModel {
    Folder { id: Seq<char>, items: Seq<ItemModel> },
    Section { library_id: Seq<char>, title: Seq<char>, items: Seq<ItemModel> },
    Search { library_id: Seq<char>, query: Seq<char>, scope_label: Seq<char>, items: Seq<ItemModel> },
    GlobalSearch { query: Seq<char>, items: Seq<ItemModel> },
    Failed { id: Seq<char>, message: Seq<char> },
    Libraries(Seq<LibraryModel>),
    LibraryMeta(Seq<(Seq<char>, Seq<char>, bool)>),
    Playlists(Seq<(Seq<char>, Seq<char>)>),
    InstantMix(Seq<ItemModel>),
    VideoTracks(Seq<TrackEntryModel>),
    MediaOptions { item_id: Seq<char>, versions: Seq<MediaVersionModel>, audio_entries: Seq<TrackEntryModel>, subtitle_entries: Seq<TrackEntryModel> },
    Status(Seq<char>),
    Error(Seq<char>),
    Home(HomeDataModel),
}

impl View for BrowseResult {
    type V = BrowseResultModel;

    open spec fn view(&self) -> BrowseResultModel {
        match self {
            BrowseResult::Folder { id, items } => BrowseResultModel::Folder {
                id: id@,
                items: items.deep_view(),
            },
            BrowseResult::Section { library_id, title, items } => BrowseResultModel::Section {
                library_id: library_id@,
                title: title@,
                items: items.deep_view(),
            },
            BrowseResult::Search { library_id, query, scope_label, items } => BrowseResultModel::Search {
                library_id: library_id@,
                query: query@,
                scope_label: scope_label@,
                items: items.deep_view(),
            },
            BrowseResult::GlobalSearch { query, items } => BrowseResultModel::GlobalSearch {
                query: query@,
                items: items.deep_view(),
            },
            BrowseResult::Failed { id, message } => BrowseResultModel::Failed {
                id: id@,
                message: message@,
            },
            BrowseResult::Libraries(value) => BrowseResultModel::Libraries(value.deep_view()),
            BrowseResult::LibraryMeta(value) => BrowseResultModel::LibraryMeta(value.deep_view()),
            BrowseResult::Playlists(value) => BrowseResultModel::Playlists(value.deep_view()),
            BrowseResult::InstantMix(value) => BrowseResultModel::InstantMix(value.deep_view()),
            BrowseResult::VideoTracks(value) => BrowseResultModel::VideoTracks(value.deep_view()),
            BrowseResult::MediaOptions { item_id, versions, audio_entries, subtitle_entries } => BrowseResultModel::MediaOptions {
                item_id: item_id@,
                versions: versions.deep_view(),
                audio_entries: audio_entries.deep_view(),
                subtitle_entries: subtitle_entries.deep_view(),
            },
            BrowseResult::Status(value) => BrowseResultModel::Status(value@),
            BrowseResult::Error(value) => BrowseResultModel::Error(value@),
            BrowseResult::Home(value) => BrowseResultModel::Home(value@),
        }
    }
}

impl DeepView for BrowseResult {
    type V = BrowseResultModel;

    open spec fn deep_view(&self) -> BrowseResultModel {
        self@
    }
}

fn one_text(value: &str) -> (list: Vec<String>)
    ensures
        list.deep_view() == seq![value@],
{
    let mut list: Vec<String> = Vec::new();
    push_deep(&mut list, value.to_owned());
    assert(list.deep_view() =~= seq![value@]);
    list
}

// ---------------------------------------------------------------------------
// Queries

/// The order that keeps episodes and album tracks in sequence; the name is the
/// sensible fallback for seasons/albums.
pub open spec fn index_order() -> Seq<Seq<char>> {
    seq!["ParentIndexNumber"@, "IndexNumber"@, "SortName"@]
}

pub(crate) fn index_sort() -> (keys: Vec<String>)
    ensures
        keys.deep_view() == index_order(),
{
    let mut keys: Vec<String> = Vec::new();
    push_deep(&mut keys, "ParentIndexNumber".to_owned());
    push_deep(&mut keys, "IndexNumber".to_owned());
    push_deep(&mut keys, "SortName".to_owned());
    assert(keys.deep_view() =~= index_order());
    keys
}

impl QueryModel {
    /// The children of a folder.
    pub open spec fn folder(id: Seq<char>) -> QueryModel {
        QueryModel {
            parent_id: Some(id),
            fields: seq!["Overview"@],
            sort_by: index_order(),
            limit: Some(500),
            ..QueryModel::anything()
        }
    }

    /// The items of a section.
    pub open spec fn section(
        library_id: Seq<char>,
        section: SectionModel,
        extras: SectionFiltersModel,
    ) -> QueryModel {
        QueryModel {
            parent_id: Some(library_id),
            include_item_types: section.item_types,
            sort_by: match extras.sort_override {
                Some(keys) => keys,
                None => section.sort_by,
            },
            recursive: Some(section.item_types.len() > 0 || extras.narrows()),
            fields: seq!["Overview"@],
            limit: Some(500),
            genres: extras.genres,
            person_ids: extras.person_ids,
            studio_ids: extras.studio_ids,
            years: extras.years,
            tags: extras.tags,
            filters: extras.filters,
            ..QueryModel::anything()
        }
    }

    /// A search inside a library.
    pub open spec fn search(
        library_id: Seq<char>,
        query: Seq<char>,
        item_types: Seq<Seq<char>>,
    ) -> QueryModel {
        QueryModel {
            parent_id: Some(library_id),
            search_term: Some(query),
            include_item_types: item_types,
            recursive: Some(true),
            sort_by: seq!["SortName"@],
            fields: seq!["Overview"@],
            limit: Some(200),
            ..QueryModel::anything()
        }
    }

    /// The user's playlists.
    pub open spec fn playlists() -> QueryModel {
        QueryModel {
            include_item_types: seq!["Playlist"@],
            recursive: Some(true),
            sort_by: seq!["SortName"@],
            limit: Some(500),
            ..QueryModel::anything()
        }
    }

    /// A random batch of a genre's tracks.
    pub open spec fn genre_radio(library_id: Seq<char>, genre: Seq<char>) -> QueryModel {
        QueryModel {
            parent_id: Some(library_id),
            include_item_types: seq!["Audio"@],
            genres: seq![genre],
            sort_by: seq!["Random"@],
            recursive: Some(true),
            limit: Some(50),
            fields: seq!["Overview"@],
            ..QueryModel::anything()
        }
    }

    /// The latest items of the whole server.
    pub open spec fn latest() -> QueryModel {
        QueryModel {
            recursive: Some(true),
            sort_by: seq!["DateCreated"@],
            limit: Some(20),
            include_item_types: seq!["Movie"@, "Series"@, "MusicAlbum"@],
            fields: seq!["Overview"@],
            ..QueryModel::anything()
        }
    }

    /// One item of a library, for the total count that comes with it.
    pub open spec fn count(library_id: Seq<char>) -> QueryModel {
        QueryModel {
            parent_id: Some(library_id),
            recursive: Some(true),
            limit: Some(1),
            ..QueryModel::anything()
        }
    }

    /// A library's top-level items.
    pub open spec fn library(library_id: Seq<char>) -> QueryModel {
        QueryModel {
            parent_id: Some(library_id),
            limit: Some(200),
            fields: seq!["Overview"@],
            ..QueryModel::anything()
        }
    }
}

impl SectionFiltersModel {
    /// Whether a filter forces a wider (recursive) search, even on sections that
    /// would otherwise only show the immediate root level.
    pub open spec fn narrows(self) -> bool {
        self.genres.len() > 0 || self.person_ids.len() > 0 || self.studio_ids.len() > 0
            || self.years.len() > 0 || self.tags.len() > 0 || self.filters.len() > 0
    }
}

impl SectionFilters {
    /// Whether a filter forces a wider (recursive) search, even on sections that
    /// would otherwise only show the immediate root level.
    pub fn narrows(&self) -> (narrows: bool)
        ensures
            narrows == self@.narrows(),
    {
        self.genres.len() > 0 || self.person_ids.len() > 0 || self.studio_ids.len() > 0
            || self.years.len() > 0 || self.tags.len() > 0 || self.filters.len() > 0
    }
}

/// What is asked for when a folder is opened.
pub fn folder_query(id: &str) -> (query: ItemsQuery)
    ensures
        query@ == QueryModel::folder(id@),
{
    let mut query = ItemsQuery::default();
    query.parent_id = Some(id.to_owned());
    query.fields = one_text("Overview");
    query.sort_by = index_sort();
    query.limit = Some(500);
    query
}

/// What is asked for when a section is applied.
pub fn section_query(library_id: &str, section: &Section, extras: &SectionFilters) -> (query:
    ItemsQuery)
    ensures
        query@ == QueryModel::section(library_id@, section@, extras@),
{
    let wider = section.item_types.len() > 0 || extras.narrows();
    let kept = extras.clone();
    let mut query = ItemsQuery::default();
    query.parent_id = Some(library_id.to_owned());
    query.include_item_types = copy_texts(&section.item_types);
    query.sort_by = match kept.sort_override {
        Some(keys) => keys,
        None => copy_texts(&section.sort_by),
    };
    query.recursive = Some(wider);
    query.fields = one_text("Overview");
    query.limit = Some(500);
    query.genres = kept.genres;
    query.person_ids = kept.person_ids;
    query.studio_ids = kept.studio_ids;
    query.years = kept.years;
    query.tags = kept.tags;
    query.filters = kept.filters;
    query
}

/// What is asked for by a library-scoped search: results stay within the library and
/// the section's item types.
pub fn search_query(library_id: &str, query: &str, item_types: &Vec<String>) -> (wanted: ItemsQuery)
    ensures
        wanted@ == QueryModel::search(library_id@, query@, item_types.deep_view()),
{
    let mut wanted = ItemsQuery::default();
    wanted.parent_id = Some(library_id.to_owned());
    wanted.search_term = Some(query.to_owned());
    wanted.include_item_types = copy_texts(item_types);
    wanted.recursive = Some(true);
    wanted.sort_by = one_text("SortName");
    wanted.fields = one_text("Overview");
    wanted.limit = Some(200);
    wanted
}

/// What is asked for by the Add-to-playlist picker.
pub fn playlists_query() -> (query: ItemsQuery)
    ensures
        query@ == QueryModel::playlists(),
{
    let mut query = ItemsQuery::default();
    query.include_item_types = one_text("Playlist");
    query.recursive = Some(true);
    query.sort_by = one_text("SortName");
    query.limit = Some(500);
    query
}

/// What is asked for by a genre radio.
pub fn genre_radio_query(library_id: &str, genre: &str) -> (query: ItemsQuery)
    ensures
        query@ == QueryModel::genre_radio(library_id@, genre@),
{
    let mut query = ItemsQuery::default();
    query.parent_id = Some(library_id.to_owned());
    query.include_item_types = one_text("Audio");
    query.genres = one_text(genre);
    query.sort_by = one_text("Random");
    query.recursive = Some(true);
    query.limit = Some(50);
    query.fields = one_text("Overview");
    query
}

/// What is asked for by the dashboard's row of latest items.
pub fn latest_query() -> (query: ItemsQuery)
    ensures
        query@ == QueryModel::latest(),
{
    let mut types: Vec<String> = Vec::new();
    push_deep(&mut types, "Movie".to_owned());
    push_deep(&mut types, "Series".to_owned());
    push_deep(&mut types, "MusicAlbum".to_owned());
    assert(types.deep_view() =~= seq!["Movie"@, "Series"@, "MusicAlbum"@]);
    let mut query = ItemsQuery::default();
    query.recursive = Some(true);
    query.sort_by = one_text("DateCreated");
    query.limit = Some(20);
    query.include_item_types = types;
    query.fields = one_text("Overview");
    query
}

/// What is asked for to learn a library's size without pulling every item.
pub fn count_query(library_id: &str) -> (query: ItemsQuery)
    ensures
        query@ == QueryModel::count(library_id@),
{
    let mut query = ItemsQuery::default();
    query.parent_id = Some(library_id.to_owned());
    query.recursive = Some(true);
    query.limit = Some(1);
    query
}

/// What is asked for to list a library's top-level items.
pub fn library_query(library_id: &str) -> (query: ItemsQuery)
    ensures
        query@ == QueryModel::library(library_id@),
{
    let mut query = ItemsQuery::default();
    query.parent_id = Some(library_id.to_owned());
    query.limit = Some(200);
    query.fields = one_text("Overview");
    query
}

// ---------------------------------------------------------------------------
// Answers

/// A text that may be missing or empty.
pub open spec fn filled(value: Option<Seq<char>>) -> Seq<Seq<char>> {
    match value {
        Some(words) => if words.len() > 0 {
            seq![words]
        } else {
            Seq::empty()
        },
        None => Seq::empty(),
    }
}

fn push_filled(parts: &mut Vec<String>, value: Option<&str>)
    ensures
        final(parts).deep_view() == old(parts).deep_view() + filled(value.deep_view()),
{
    if let Some(words) = value {
        if !words.is_empty() {
            push_deep(parts, words.to_owned());
        }
    }
    assert(parts.deep_view() =~= old(parts).deep_view() + filled(value.deep_view()));
}

/// Whether a stream is of the given type.
pub open spec fn is_stream(kind: Seq<char>) -> spec_fn(StreamModel) -> bool {
    |stream: StreamModel| stream.type_ == Some(kind)
}

/// How a track with a name of its own is listed.
pub open spec fn titled_track(stream: StreamModel, index: int) -> Seq<char> {
    "#"@ + text::signed_decimal(index) + "  "@ + stream.display_title->0 + (if stream.is_default
        == Some(true) {
        "  (default)"@
    } else {
        ""@
    }) + (if stream.is_forced == Some(true) {
        "  (forced)"@
    } else {
        ""@
    })
}

/// What is known of a track without a name of its own.
pub open spec fn track_parts(stream: StreamModel) -> Seq<Seq<char>> {
    let known = filled(stream.language) + filled(stream.title) + filled(stream.codec) + filled(
        stream.channel_layout,
    );
    if known.len() == 0 {
        seq!["Unnamed track"@]
    } else {
        known
    }
}

/// How a track is listed.
pub open spec fn track_label(stream: StreamModel, index: int) -> Seq<char> {
    if stream.display_title matches Some(display) && display.len() > 0 {
        titled_track(stream, index)
    } else {
        text::joined(
            seq!["#"@ + text::signed_decimal(index)] + track_parts(stream),
            "  ·  "@,
        )
    }
}

/// Compose a one-line description of `stream`, falling back to whatever
/// fields the server provides.
pub fn format_track_label(stream: &MediaStream, mpv_index: i32) -> (label: String)
    ensures
        label@ == track_label(stream@, mpv_index as int),
{
    let number = concat2("#", signed_decimal_text(mpv_index as i64).as_str());
    if let Some(display) = &stream.display_title {
        if !display.as_str().is_empty() {
            let mut label = concat3(number.as_str(), "  ", display.as_str());
            label.append(
                if stream.is_default == Some(true) {
                    "  (default)"
                } else {
                    ""
                },
            );
            label.append(
                if stream.is_forced == Some(true) {
                    "  (forced)"
                } else {
                    ""
                },
            );
            return label;
        }
    }
    let mut parts: Vec<String> = Vec::new();
    push_deep(&mut parts, number);
    push_filled(&mut parts, as_slice(&stream.language));
    push_filled(&mut parts, as_slice(&stream.title));
    push_filled(&mut parts, as_slice(&stream.codec));
    push_filled(&mut parts, as_slice(&stream.channel_layout));
    assert(parts.deep_view().len() == parts@.len());
    if parts.len() == 1 {
        push_deep(&mut parts, "Unnamed track".to_owned());
    }
    assert(parts.deep_view() =~= seq!["#"@ + text::signed_decimal(mpv_index as int)] + track_parts(
        stream@,
    ));
    join_texts(&parts, "  ·  ")
}

/// The stream type that a picker lists.
pub open spec fn stream_kind(kind: VideoTrackKind) -> Seq<char> {
    match kind {
        VideoTrackKind::Audio => "Audio"@,
        VideoTrackKind::Subtitle => "Subtitle"@,
    }
}

/// The entries that a picker lists before any track.
pub open spec fn fixed_entries(kind: VideoTrackKind) -> Seq<TrackEntryModel> {
    let auto = TrackEntryModel { label: "Auto (server default)"@, choice: TrackChoice::Auto };
    match kind {
        VideoTrackKind::Audio => seq![auto],
        VideoTrackKind::Subtitle => seq![
            auto,
            TrackEntryModel { label: "Off"@, choice: TrackChoice::Off },
        ],
    }
}

/// The entry of the track that mpv counts as `index`.
pub open spec fn track_entry(stream: StreamModel, index: int) -> TrackEntryModel {
    TrackEntryModel {
        label: track_label(stream, index),
        choice: TrackChoice::Pick(index as i32),
    }
}

/// The entries of the tracks, counted from one.
pub open spec fn numbered_entries(tracks: Seq<StreamModel>) -> Seq<TrackEntryModel> {
    Seq::new(tracks.len(), |i: int| track_entry(tracks[i], i + 1))
}

/// The entries of a picker: the fixed ones, then the streams of its type.
pub open spec fn track_entries(streams: Seq<StreamModel>, kind: VideoTrackKind) -> Seq<
    TrackEntryModel,
> {
    fixed_entries(kind) + numbered_entries(streams.filter(is_stream(stream_kind(kind))))
}

proof fn lemma_filter_take(items: Seq<StreamModel>, n: int, p: spec_fn(StreamModel) -> bool)
    requires
        0 <= n <= items.len(),
    ensures
        items.take(n).filter(p).len() <= items.filter(p).len(),
    decreases items.len() - n,
{
    if n == items.len() {
        sequences::lemma_take_all(items);
    } else {
        lemma_filter_take(items, n + 1, p);
        sequences::lemma_take_push(items, n);
        sequences::lemma_filter_push(items.take(n), items[n], p);
    }
}

/// Whether the streams of one type can be counted.
pub open spec fn tracks_countable(streams: Seq<StreamModel>, kind: VideoTrackKind) -> bool {
    streams.filter(is_stream(stream_kind(kind))).len() <= i32::MAX
}

/// Walk the source's stream list, build a picker entry list for `kind`.
/// `Auto` is always first; `Off` is included for subtitles. mpv's per-type
/// 1-based index is derived here so the caller can ignore Jellyfin's absolute
/// indices.
pub fn build_track_entries(streams: &Vec<MediaStream>, kind: VideoTrackKind) -> (entries: Vec<
    TrackPickerEntry,
>)
    requires
        tracks_countable(streams.deep_view(), kind),
    ensures
        entries.deep_view() == track_entries(streams.deep_view(), kind),
{
    let wanted = match kind {
        VideoTrackKind::Audio => "Audio",
        VideoTrackKind::Subtitle => "Subtitle",
    };
    let ghost p = is_stream(wanted@);
    let ghost models = streams.deep_view();
    let mut entries: Vec<TrackPickerEntry> = Vec::new();
    push_deep(
        &mut entries,
        TrackPickerEntry {
            label: "Auto (server default)".to_owned(),
            choice: TrackChoice::Auto,
        },
    );
    if kind == VideoTrackKind::Subtitle {
        push_deep(
            &mut entries,
            TrackPickerEntry { label: "Off".to_owned(), choice: TrackChoice::Off },
        );
    }
    let ghost fixed = entries.deep_view();
    assert(fixed =~= fixed_entries(kind));
    let mut counter: i32 = 0;
    let mut i: usize = 0;
    proof {
        sequences::lemma_filter_empty(p);
        assert(models.take(0) =~= Seq::empty());
        assert(fixed =~= fixed + numbered_entries(models.take(0).filter(p)));
    }
    while i < streams.len()
        invariant
            i <= streams@.len(),
            models.filter(p).len() <= i32::MAX,
            models == streams.deep_view(),
            p == is_stream(wanted@),
            0 <= counter,
            counter == models.take(i as int).filter(p).len(),
            entries.deep_view() =~= fixed + numbered_entries(models.take(i as int).filter(p)),
        decreases streams@.len() - i,
    {
        proof {
            sequences::lemma_take_push(models, i as int);
            sequences::lemma_filter_push(models.take(i as int), models[i as int], p);
            assert(streams@[i as int]@ == models[i as int]);
            lemma_filter_take(models, i + 1, p);
        }
        if is_text(as_slice(&streams[i].type_), wanted) {
            counter = counter + 1;
            push_deep(
                &mut entries,
                TrackPickerEntry {
                    label: format_track_label(&streams[i], counter),
                    choice: TrackChoice::Pick(counter),
                },
            );
        }
        assert(entries.deep_view() =~= fixed + numbered_entries(models.take(i + 1).filter(p)));
        i = i + 1;
    }
    proof {
        sequences::lemma_take_all(models);
    }
    entries
}

/// The codec of the first video stream.
pub open spec fn video_codec(streams: Seq<StreamModel>) -> Option<Seq<char>> {
    match sequences::first_index(streams, is_stream("Video"@)) {
        Some(i) => streams[i].codec,
        None => None,
    }
}

/// What is known of a version.
pub open spec fn version_parts(source: SourceModel) -> Seq<Seq<char>> {
    let known = filled(source.name) + (match source.container {
        Some(container) => if container.len() > 0 {
            seq![text::uppercase(container)]
        } else {
            Seq::empty()
        },
        None => Seq::empty(),
    }) + filled(video_codec(source.media_streams)) + (match source.size_label {
        Some(size) => seq![size],
        None => Seq::empty(),
    });
    if known.len() == 0 {
        seq!["Default"@]
    } else {
        known
    }
}

fn first_video_codec(streams: &Vec<MediaStream>) -> (codec: Option<&str>)
    ensures
        codec.deep_view() == video_codec(streams.deep_view()),
{
    let ghost p = is_stream("Video"@);
    let ghost models = streams.deep_view();
    let mut i: usize = 0;
    while i < streams.len()
        invariant
            i <= streams@.len(),
            models == streams.deep_view(),
            p == is_stream("Video"@),
            forall|j: int| 0 <= j < i ==> !p(#[trigger] models[j]),
        decreases streams@.len() - i,
    {
        if is_text(as_slice(&streams[i].type_), "Video") {
            proof {
                sequences::lemma_first_index_found(models, p, i as int);
            }
            return as_slice(&streams[i].codec);
        }
        i = i + 1;
    }
    proof {
        sequences::lemma_first_index_missing(models, p);
    }
    None
}

/// Compose a one-line label for a media source (used by the version list).
pub fn format_version_label(source: &MediaSource) -> (label: String)
    ensures
        label@ == text::joined(version_parts(source@), "  ·  "@),
{
    let mut parts: Vec<String> = Vec::new();
    push_filled(&mut parts, as_slice(&source.name));
    if let Some(container) = &source.container {
        if !container.as_str().is_empty() {
            push_deep(&mut parts, container.as_str().to_uppercase());
        }
    }
    push_filled(&mut parts, first_video_codec(&source.media_streams));
    if let Some(size) = &source.size_label {
        push_deep(&mut parts, size.clone());
    }
    assert(parts.deep_view().len() == parts@.len());
    if parts.len() == 0 {
        push_deep(&mut parts, "Default".to_owned());
    }
    assert(parts.deep_view() =~= version_parts(source@));
    join_texts(&parts, "  ·  ")
}

/// Whether a source can be asked for by id.
pub open spec fn has_source_id() -> spec_fn(SourceModel) -> bool {
    |source: SourceModel| source.id is Some
}

/// The versions that can be asked for by id.
pub open spec fn versions_of(sources: Seq<SourceModel>) -> Seq<MediaVersionModel> {
    sources.filter(has_source_id()).map_values(
        |source: SourceModel|
            MediaVersionModel {
                source_id: source.id->0,
                label: text::joined(version_parts(source), "  ·  "@),
            },
    )
}

fn list_versions(sources: &Vec<MediaSource>) -> (versions: Vec<MediaVersion>)
    ensures
        versions.deep_view() == versions_of(sources.deep_view()),
{
    let ghost p = has_source_id();
    let ghost models = sources.deep_view();
    let mut versions: Vec<MediaVersion> = Vec::new();
    proof {
        sequences::lemma_filter_empty(p);
        assert(models.take(0) =~= Seq::empty());
        assert(versions.deep_view() =~= versions_of(models.take(0)));
    }
    let mut i: usize = 0;
    while i < sources.len()
        invariant
            i <= sources@.len(),
            models == sources.deep_view(),
            p == has_source_id(),
            versions.deep_view() =~= versions_of(models.take(i as int)),
        decreases sources@.len() - i,
    {
        proof {
            sequences::lemma_take_push(models, i as int);
            sequences::lemma_filter_push(models.take(i as int), models[i as int], p);
            assert(sources@[i as int]@ == models[i as int]);
        }
        if let Some(id) = &sources[i].id {
            push_deep(
                &mut versions,
                MediaVersion { source_id: id.clone(), label: format_version_label(&sources[i]) },
            );
        }
        assert(versions.deep_view() =~= versions_of(models.take(i + 1)));
        i = i + 1;
    }
    proof {
        sequences::lemma_take_all(models);
    }
    versions
}

/// The item of a search hint.
pub open spec fn hint_item(hint: HintModel) -> Option<ItemModel> {
    let id = if hint.item_id is Some {
        hint.item_id
    } else {
        hint.id
    };
    match id {
        Some(known) => Some(
            ItemModel {
                id: known,
                name: match hint.name {
                    Some(name) => name,
                    None => "(untitled)"@,
                },
                kind: hint.type_,
                ..ItemModel::blank()
            },
        ),
        None => None,
    }
}

/// Convert a search hint into an item. Hints without any id are dropped (nothing
/// playable / drillable to point at).
pub fn item_from_hint(hint: SearchHint) -> (item: Option<Item>)
    ensures
        item.deep_view() == hint_item(hint@),
{
    let id = match hint.item_id {
        Some(id) => id,
        None => match hint.id {
            Some(id) => id,
            None => {
                return None;
            },
        },
    };
    let mut item = Item::default();
    item.id = id;
    item.name = match hint.name {
        Some(name) => name,
        None => "(untitled)".to_owned(),
    };
    item.kind = hint.type_;
    Some(item)
}

/// Whether a hint points anywhere.
pub open spec fn points_somewhere() -> spec_fn(HintModel) -> bool {
    |hint: HintModel| hint_item(hint) is Some
}

/// The items of those hints that point anywhere.
pub open spec fn hint_items(hints: Seq<HintModel>) -> Seq<ItemModel> {
    hints.filter(points_somewhere()).map_values(|hint: HintModel| hint_item(hint)->0)
}

/// The items of those hints that point anywhere.
pub fn items_from_hints(hints: &Vec<SearchHint>) -> (items: Vec<Item>)
    ensures
        items.deep_view() == hint_items(hints.deep_view()),
{
    let ghost p = points_somewhere();
    let ghost models = hints.deep_view();
    let mut items: Vec<Item> = Vec::new();
    proof {
        sequences::lemma_filter_empty(p);
        assert(models.take(0) =~= Seq::empty());
        assert(items.deep_view() =~= hint_items(models.take(0)));
    }
    let mut i: usize = 0;
    while i < hints.len()
        invariant
            i <= hints@.len(),
            models == hints.deep_view(),
            p == points_somewhere(),
            items.deep_view() =~= hint_items(models.take(i as int)),
        decreases hints@.len() - i,
    {
        proof {
            sequences::lemma_take_push(models, i as int);
            sequences::lemma_filter_push(models.take(i as int), models[i as int], p);
        }
        let hint = SearchHint {
            item_id: hints[i].item_id.clone(),
            id: hints[i].id.clone(),
            name: hints[i].name.clone(),
            type_: hints[i].type_.clone(),
        };
        assert(hint@ =~= models[i as int]);
        if let Some(item) = item_from_hint(hint) {
            push_deep(&mut items, item);
        }
        assert(items.deep_view() =~= hint_items(models.take(i + 1)));
        i = i + 1;
    }
    proof {
        sequences::lemma_take_all(models);
    }
    items
}

/// A name, or what stands for a missing one.
pub open spec fn named(name: Option<Seq<char>>, fallback: Seq<char>) -> Seq<char> {
    match name {
        Some(known) => known,
        None => fallback,
    }
}

fn name_of(name: &Option<String>, fallback: &str) -> (shown: String)
    ensures
        shown@ == named(name.deep_view(), fallback@),
{
    match name {
        Some(known) => known.clone(),
        None => fallback.to_owned(),
    }
}

/// Whether a library is visible; all are without a list.
pub open spec fn is_visible(id: Seq<char>, visible: Option<Seq<Seq<char>>>) -> bool {
    match visible {
        Some(ids) => ids.contains(id),
        None => true,
    }
}

/// The picker's entry of a library.
pub open spec fn meta_entry(view: UserViewModel, visible: Option<Seq<Seq<char>>>) -> (
    Seq<char>,
    Seq<char>,
    bool,
) {
    (view.id, named(view.name, "(library)"@), is_visible(view.id, visible))
}

fn listed(id: &str, visible: &Option<Vec<String>>) -> (shown: bool)
    ensures
        shown == is_visible(id@, visible.deep_view()),
{
    let ids = match visible {
        Some(ids) => ids,
        None => {
            return true;
        },
    };
    let ghost models = ids.deep_view();
    let mut i: usize = 0;
    while i < ids.len()
        invariant
            i <= ids@.len(),
            models == ids.deep_view(),
            visible.deep_view() == Some(models),
            forall|j: int| 0 <= j < i ==> #[trigger] models[j] != id@,
        decreases ids@.len() - i,
    {
        if same_text(ids[i].as_str(), id) {
            assert(models[i as int] == id@);
            return true;
        }
        i = i + 1;
    }
    false
}

/// The picker's entries: every library of the server, with what is visible now.
pub fn library_meta(views: &Vec<UserView>, visible: &Option<Vec<String>>) -> (entries: Vec<
    (String, String, bool),
>)
    ensures
        entries.deep_view() == views.deep_view().map_values(
            |view: UserViewModel| meta_entry(view, visible.deep_view()),
        ),
{
    let ghost goal = views.deep_view().map_values(
        |view: UserViewModel| meta_entry(view, visible.deep_view()),
    );
    let mut entries: Vec<(String, String, bool)> = Vec::new();
    let mut i: usize = 0;
    while i < views.len()
        invariant
            i <= views@.len(),
            goal == views.deep_view().map_values(
                |view: UserViewModel| meta_entry(view, visible.deep_view()),
            ),
            entries.deep_view() =~= goal.take(i as int),
        decreases views@.len() - i,
    {
        let on = listed(views[i].id.as_str(), visible);
        push_deep(
            &mut entries,
            (views[i].id.clone(), name_of(&views[i].name, "(library)"), on),
        );
        proof {
            sequences::lemma_take_push(goal, i as int);
        }
        i = i + 1;
    }
    proof {
        sequences::lemma_take_all(goal);
    }
    entries
}

/// The picker's entries of playlists that may lack a name.
pub fn playlist_entries(playlists: &Vec<(String, Option<String>)>) -> (entries: Vec<
    (String, String),
>)
    ensures
        entries.deep_view() == playlists.deep_view().map_values(
            |playlist: (Seq<char>, Option<Seq<char>>)|
                (playlist.0, named(playlist.1, "(playlist)"@)),
        ),
{
    let ghost goal = playlists.deep_view().map_values(
        |playlist: (Seq<char>, Option<Seq<char>>)|
            (playlist.0, named(playlist.1, "(playlist)"@)),
    );
    let mut entries: Vec<(String, String)> = Vec::new();
    let mut i: usize = 0;
    while i < playlists.len()
        invariant
            i <= playlists@.len(),
            goal == playlists.deep_view().map_values(
                |playlist: (Seq<char>, Option<Seq<char>>)|
                    (playlist.0, named(playlist.1, "(playlist)"@)),
            ),
            entries.deep_view() =~= goal.take(i as int),
        decreases playlists@.len() - i,
    {
        push_deep(
            &mut entries,
            (playlists[i].0.clone(), name_of(&playlists[i].1, "(playlist)")),
        );
        proof {
            sequences::lemma_take_push(goal, i as int);
        }
        i = i + 1;
    }
    proof {
        sequences::lemma_take_all(goal);
    }
    entries
}

/// A library with its top-level items.
pub open spec fn library_with(view: UserViewModel, items: Seq<ItemModel>) -> LibraryModel {
    LibraryModel {
        id: view.id,
        name: named(view.name, "(library)"@),
        collection_type: view.collection_type,
        items,
    }
}

/// A library with its top-level items.
pub fn library_from(view: UserView, items: Vec<Item>) -> (library: Library)
    ensures
        library@ == library_with(view@, items.deep_view()),
{
    Library {
        id: view.id,
        name: match view.name {
            Some(name) => name,
            None => "(library)".to_owned(),
        },
        collection_type: view.collection_type,
        items,
    }
}

fn audio_only(items: &Vec<Item>) -> (tracks: Vec<Item>)
    ensures
        tracks.deep_view() == items.deep_view().filter(queue::is_audio()),
{
    let ghost p = queue::is_audio();
    let ghost models = items.deep_view();
    let mut tracks: Vec<Item> = Vec::new();
    proof {
        sequences::lemma_filter_empty(p);
        assert(models.take(0) =~= Seq::empty());
        assert(tracks.deep_view() =~= models.take(0).filter(p));
    }
    let mut i: usize = 0;
    while i < items.len()
        invariant
            i <= items@.len(),
            models == items.deep_view(),
            p == queue::is_audio(),
            tracks.deep_view() =~= models.take(i as int).filter(p),
        decreases items@.len() - i,
    {
        proof {
            sequences::lemma_take_push(models, i as int);
            sequences::lemma_filter_push(models.take(i as int), models[i as int], p);
        }
        if items[i].media() == MediaKind::Audio {
            push_deep(&mut tracks, items[i].clone());
        }
        i = i + 1;
    }
    proof {
        sequences::lemma_take_all(models);
    }
    tracks
}

// ---------------------------------------------------------------------------
// Results

/// The tracks of a mix, or a message if there are none.
pub open spec fn mix_of(items: Seq<ItemModel>, empty: Seq<char>) -> BrowseResultModel {
    let tracks = items.filter(queue::is_audio());
    if tracks.len() == 0 {
        BrowseResultModel::Error(empty)
    } else {
        BrowseResultModel::InstantMix(tracks)
    }
}

fn mix_result(items: &Vec<Item>, empty: &str) -> (result: BrowseResult)
    ensures
        result@ == mix_of(items.deep_view(), empty@),
{
    let tracks = audio_only(items);
    assert(tracks.deep_view().len() == tracks@.len());
    if tracks.len() == 0 {
        BrowseResult::Error(empty.to_owned())
    } else {
        BrowseResult::InstantMix(tracks)
    }
}

/// The answer to opening a folder.
pub fn folder_result(id: String, answer: Result<Vec<Item>, String>) -> (result: BrowseResult)
    ensures
        result@ == (match answer {
            Ok(items) => BrowseResultModel::Folder { id: id@, items: items.deep_view() },
            Err(e) => BrowseResultModel::Failed {
                id: id@,
                message: "Couldn't open folder: "@ + e@,
            },
        }),
{
    match answer {
        Ok(items) => BrowseResult::Folder { id, items },
        Err(e) => BrowseResult::Failed {
            id,
            message: concat2("Couldn't open folder: ", e.as_str()),
        },
    }
}

/// The answer to applying a section.
pub fn section_result(
    library_id: String,
    library_name: &str,
    section_name: &str,
    answer: Result<Vec<Item>, String>,
) -> (result: BrowseResult)
    ensures
        result@ == (match answer {
            Ok(items) => BrowseResultModel::Section {
                library_id: library_id@,
                title: library_name@ + " · "@ + section_name@,
                items: items.deep_view(),
            },
            Err(e) => BrowseResultModel::Failed {
                id: library_id@,
                message: "Couldn't load section: "@ + e@,
            },
        }),
{
    match answer {
        Ok(items) => BrowseResult::Section {
            library_id,
            title: concat3(library_name, " · ", section_name),
            items,
        },
        Err(e) => BrowseResult::Failed {
            id: library_id,
            message: concat2("Couldn't load section: ", e.as_str()),
        },
    }
}

/// The answer to a library-scoped search.
pub fn search_result(
    library_id: String,
    query: String,
    scope_label: String,
    answer: Result<Vec<Item>, String>,
) -> (result: BrowseResult)
    ensures
        result@ == (match answer {
            Ok(items) => BrowseResultModel::Search {
                library_id: library_id@,
                query: query@,
                scope_label: scope_label@,
                items: items.deep_view(),
            },
            Err(e) => BrowseResultModel::Failed {
                id: library_id@,
                message: "Couldn't search: "@ + e@,
            },
        }),
{
    match answer {
        Ok(items) => BrowseResult::Search { library_id, query, scope_label, items },
        Err(e) => BrowseResult::Failed {
            id: library_id,
            message: concat2("Couldn't search: ", e.as_str()),
        },
    }
}

/// The answer to a server-wide search.
pub fn global_search_result(query: String, answer: Result<Vec<SearchHint>, String>) -> (result:
    BrowseResult)
    ensures
        result@ == (match answer {
            Ok(hints) => BrowseResultModel::GlobalSearch {
                query: query@,
                items: hint_items(hints.deep_view()),
            },
            Err(e) => BrowseResultModel::Error("Search failed: "@ + e@),
        }),
{
    match answer {
        Ok(hints) => BrowseResult::GlobalSearch { query, items: items_from_hints(&hints) },
        Err(e) => BrowseResult::Error(concat2("Search failed: ", e.as_str())),
    }
}

/// The answer to a sync.
pub fn libraries_result(answer: Result<Vec<Library>, String>) -> (result: BrowseResult)
    ensures
        result@ == (match answer {
            Ok(libraries) => BrowseResultModel::Libraries(libraries.deep_view()),
            Err(e) => BrowseResultModel::Error("Sync failed: "@ + e@),
        }),
{
    match answer {
        Ok(libraries) => BrowseResult::Libraries(libraries),
        Err(e) => BrowseResult::Error(concat2("Sync failed: ", e.as_str())),
    }
}

/// The answer to listing the server's libraries for the picker.
pub fn library_meta_result(
    visible: &Option<Vec<String>>,
    answer: Result<Vec<UserView>, String>,
) -> (result: BrowseResult)
    ensures
        result@ == (match answer {
            Ok(views) => BrowseResultModel::LibraryMeta(
                views.deep_view().map_values(
                    |view: UserViewModel| meta_entry(view, visible.deep_view()),
                ),
            ),
            Err(e) => BrowseResultModel::Error("Couldn't fetch libraries: "@ + e@),
        }),
{
    match answer {
        Ok(views) => BrowseResult::LibraryMeta(library_meta(&views, visible)),
        Err(e) => BrowseResult::Error(concat2("Couldn't fetch libraries: ", e.as_str())),
    }
}

/// The answer to listing the user's playlists.
pub fn playlists_result(answer: Result<Vec<(String, Option<String>)>, String>) -> (result:
    BrowseResult)
    ensures
        result@ == (match answer {
            Ok(playlists) => BrowseResultModel::Playlists(
                playlists.deep_view().map_values(
                    |playlist: (Seq<char>, Option<Seq<char>>)|
                        (playlist.0, named(playlist.1, "(playlist)"@)),
                ),
            ),
            Err(e) => BrowseResultModel::Error("Couldn't fetch playlists: "@ + e@),
        }),
{
    match answer {
        Ok(playlists) => BrowseResult::Playlists(playlist_entries(&playlists)),
        Err(e) => BrowseResult::Error(concat2("Couldn't fetch playlists: ", e.as_str())),
    }
}

/// The answer to adding an item to a playlist.
pub fn add_to_playlist_result(answer: Result<(), String>) -> (result: BrowseResult)
    ensures
        result@ == (match answer {
            Ok(_) => BrowseResultModel::Status("Added to playlist"@),
            Err(e) => BrowseResultModel::Error("Add to playlist failed: "@ + e@),
        }),
{
    match answer {
        Ok(_) => BrowseResult::Status("Added to playlist".to_owned()),
        Err(e) => BrowseResult::Error(concat2("Add to playlist failed: ", e.as_str())),
    }
}

/// The answer to a genre radio.
pub fn genre_radio_result(answer: Result<Vec<Item>, String>) -> (result: BrowseResult)
    ensures
        result@ == (match answer {
            Ok(items) => mix_of(items.deep_view(), "Genre radio returned no tracks"@),
            Err(e) => BrowseResultModel::Error("Genre radio failed: "@ + e@),
        }),
{
    match answer {
        Ok(items) => mix_result(&items, "Genre radio returned no tracks"),
        Err(e) => BrowseResult::Error(concat2("Genre radio failed: ", e.as_str())),
    }
}

/// The answer to an instant mix.
pub fn instant_mix_result(answer: Result<Vec<Item>, String>) -> (result: BrowseResult)
    ensures
        result@ == (match answer {
            Ok(items) => mix_of(items.deep_view(), "Instant mix returned no playable tracks"@),
            Err(e) => BrowseResultModel::Error("Instant mix failed: "@ + e@),
        }),
{
    match answer {
        Ok(items) => mix_result(&items, "Instant mix returned no playable tracks"),
        Err(e) => BrowseResult::Error(concat2("Instant mix failed: ", e.as_str())),
    }
}

/// The answer to creating a playlist.
pub fn create_playlist_result(name: &str, answer: Result<String, String>) -> (result: BrowseResult)
    ensures
        result@ == (match answer {
            Ok(id) => BrowseResultModel::Status(
                "Saved as playlist \""@ + name@ + "\" ("@ + id@ + ")"@,
            ),
            Err(e) => BrowseResultModel::Error("Couldn't save playlist: "@ + e@),
        }),
{
    match answer {
        Ok(id) => {
            let mut message = concat4("Saved as playlist \"", name, "\" (", id.as_str());
            message.append(")");
            BrowseResult::Status(message)
        },
        Err(e) => BrowseResult::Error(concat2("Couldn't save playlist: ", e.as_str())),
    }
}

/// The streams of the first source.
pub open spec fn first_streams(sources: Seq<SourceModel>) -> Seq<StreamModel> {
    if sources.len() > 0 {
        sources[0].media_streams
    } else {
        Seq::empty()
    }
}

/// Whether the first source's streams of one type can be counted.
pub open spec fn streams_countable(sources: Seq<SourceModel>, kind: VideoTrackKind) -> bool {
    tracks_countable(first_streams(sources), kind)
}

fn entries_of_first(sources: &Vec<MediaSource>, kind: VideoTrackKind) -> (entries: Vec<
    TrackPickerEntry,
>)
    requires
        streams_countable(sources.deep_view(), kind),
    ensures
        entries.deep_view() == track_entries(first_streams(sources.deep_view()), kind),
{
    if sources.len() > 0 {
        assert(sources.deep_view()[0] == sources@[0]@);
        build_track_entries(&sources[0].media_streams, kind)
    } else {
        let none: Vec<MediaStream> = Vec::new();
        assert(none.deep_view() =~= Seq::empty());
        proof {
            sequences::lemma_filter_empty(is_stream(stream_kind(kind)));
        }
        build_track_entries(&none, kind)
    }
}

/// The answer to a request for a video's play options.
pub fn media_options_result(item_id: String, answer: Result<Vec<MediaSource>, String>) -> (result:
    BrowseResult)
    requires
        answer matches Ok(sources) ==> streams_countable(
            sources.deep_view(),
            VideoTrackKind::Audio,
        ) && streams_countable(sources.deep_view(), VideoTrackKind::Subtitle),
    ensures
        result@ == (match answer {
            Ok(sources) => BrowseResultModel::MediaOptions {
                item_id: item_id@,
                versions: versions_of(sources.deep_view()),
                audio_entries: track_entries(
                    first_streams(sources.deep_view()),
                    VideoTrackKind::Audio,
                ),
                subtitle_entries: track_entries(
                    first_streams(sources.deep_view()),
                    VideoTrackKind::Subtitle,
                ),
            },
            Err(e) => BrowseResultModel::Error("Couldn't load playback info: "@ + e@),
        }),
{
    match answer {
        Ok(sources) => BrowseResult::MediaOptions {
            item_id,
            versions: list_versions(&sources),
            audio_entries: entries_of_first(&sources, VideoTrackKind::Audio),
            subtitle_entries: entries_of_first(&sources, VideoTrackKind::Subtitle),
        },
        Err(e) => BrowseResult::Error(concat2("Couldn't load playback info: ", e.as_str())),
    }
}

/// The answer to a request for a video's tracks.
pub fn video_tracks_result(kind: VideoTrackKind, answer: Result<Vec<MediaSource>, String>) -> (
result: BrowseResult)
    requires
        answer matches Ok(sources) ==> streams_countable(sources.deep_view(), kind),
    ensures
        result@ == (match answer {
            Ok(sources) => BrowseResultModel::VideoTracks(
                track_entries(first_streams(sources.deep_view()), kind),
            ),
            Err(e) => BrowseResultModel::Error("Couldn't load tracks: "@ + e@),
        }),
{
    match answer {
        Ok(sources) => BrowseResult::VideoTracks(entries_of_first(&sources, kind)),
        Err(e) => BrowseResult::Error(concat2("Couldn't load tracks: ", e.as_str())),
    }
}

/// The answer to recording a dislike: only a failure is worth a word.
pub fn dislike_result(answer: Result<(), String>) -> (result: Option<BrowseResult>)
    ensures
        result.deep_view() == (match answer {
            Ok(_) => None,
            Err(e) => Some(BrowseResultModel::Error("Dislike failed: "@ + e@)),
        }),
{
    match answer {
        Ok(_) => None,
        Err(e) => Some(BrowseResult::Error(concat2("Dislike failed: ", e.as_str()))),
    }
}

/// The outcome of copying an item's web address.
pub fn copy_url_result(item_name: &str, copied: bool) -> (result: BrowseResult)
    ensures
        result@ == (if copied {
            BrowseResultModel::Status("Copied URL: "@ + item_name@)
        } else {
            BrowseResultModel::Error("Couldn't write OSC 52 clipboard sequence"@)
        }),
{
    if copied {
        BrowseResult::Status(concat2("Copied URL: ", item_name))
    } else {
        BrowseResult::Error("Couldn't write OSC 52 clipboard sequence".to_owned())
    }
}

// ---------------------------------------------------------------------------
// Home

/// A fetched list, or none if the request failed.
pub open spec fn or_none(items: Option<Seq<ItemModel>>) -> Seq<ItemModel> {
    match items {
        Some(known) => known,
        None => Seq::empty(),
    }
}

/// What the dashboard knows of a library.
pub open spec fn summary_of(fetch: LibraryFetchModel) -> HomeLibraryModel {
    HomeLibraryModel {
        id: fetch.id,
        name: fetch.name,
        collection_type: fetch.collection_type,
        item_count: match fetch.item_count {
            Some(count) => count,
            None => 0,
        },
        recent: or_none(fetch.recent),
    }
}

/// The dashboard of what came back.
pub open spec fn home_of(fetch: HomeFetchModel) -> HomeDataModel {
    HomeDataModel {
        resume: or_none(fetch.resume),
        next_up: or_none(fetch.next_up),
        recent_per_library: fetch.libraries.map_values(
            |library: LibraryFetchModel| summary_of(library),
        ),
        latest_global: or_none(fetch.latest),
        loading: false,
    }
}

fn items_or_none(items: Option<Vec<Item>>) -> (known: Vec<Item>)
    ensures
        known.deep_view() == or_none(items.deep_view()),
{
    match items {
        Some(known) => known,
        None => {
            let known: Vec<Item> = Vec::new();
            assert(known.deep_view() =~= Seq::empty());
            known
        },
    }
}

fn summary_from(fetch: &LibraryFetch) -> (summary: HomeLibrarySummary)
    ensures
        summary@ == summary_of(fetch@),
{
    let recent = match &fetch.recent {
        Some(items) => copy_items(items),
        None => {
            let none: Vec<Item> = Vec::new();
            assert(none.deep_view() =~= Seq::empty());
            none
        },
    };
    HomeLibrarySummary {
        id: fetch.id.clone(),
        name: fetch.name.clone(),
        collection_type: fetch.collection_type.clone(),
        item_count: match fetch.item_count {
            Some(count) => count,
            None => 0,
        },
        recent,
    }
}

/// The dashboard of what came back: each section degrades to empty where its request
/// failed, so a single endpoint failing doesn't blank Home.
pub fn home_result(fetch: HomeFetch) -> (result: BrowseResult)
    ensures
        result@ == BrowseResultModel::Home(home_of(fetch@)),
{
    let ghost goal = fetch@.libraries.map_values(|library: LibraryFetchModel| summary_of(library));
    let mut summaries: Vec<HomeLibrarySummary> = Vec::new();
    let mut i: usize = 0;
    while i < fetch.libraries.len()
        invariant
            i <= fetch.libraries@.len(),
            goal == fetch@.libraries.map_values(
                |library: LibraryFetchModel| summary_of(library),
            ),
            summaries.deep_view() =~= goal.take(i as int),
        decreases fetch.libraries@.len() - i,
    {
        push_deep(&mut summaries, summary_from(&fetch.libraries[i]));
        proof {
            sequences::lemma_take_push(goal, i as int);
        }
        i = i + 1;
    }
    proof {
        sequences::lemma_take_all(goal);
    }
    BrowseResult::Home(
        HomeData {
            resume: items_or_none(fetch.resume),
            next_up: items_or_none(fetch.next_up),
            recent_per_library: summaries,
            latest_global: items_or_none(fetch.latest),
            loading: false,
        },
    )
}

// ---------------------------------------------------------------------------
// Delivery

impl BrowseResultModel {
    /// Whether a mix has a track to start with.
    pub open spec fn playable(self) -> bool {
        self matches BrowseResultModel::InstantMix(items) ==> items.len() > 0
    }
}

impl AppModel {
    /// After a mix came in: it is the queue, and its first track is played.
    pub open spec fn mix_started(self, items: Seq<ItemModel>) -> AppModel {
        self.with_queue(items, 0).queued(IntentModel::PlayQueueCurrent { item: items[0] })
    }

    /// After a finished fetch was delivered.
    pub open spec fn result_applied(self, result: BrowseResultModel) -> AppModel {
        match result {
            BrowseResultModel::Folder { id, items } => self.level_filled(id, items),
            BrowseResultModel::Section { library_id, title, items } => self.root_filled(
                library_id,
                title,
                items,
            ),
            BrowseResultModel::Search { library_id, query, scope_label, items } => self.root_filled(
                library_id,
                labels::search_title(scope_label, query),
                items,
            ),
            BrowseResultModel::GlobalSearch { query, items } => self.global_results_arrived(
                query,
                items,
            ),
            BrowseResultModel::Failed { id, message } => self.loading_dropped(id).failed(message),
            BrowseResultModel::Libraries(libraries) => self.libraries_replaced(libraries),
            BrowseResultModel::LibraryMeta(entries) => self.library_entries_arrived(entries),
            BrowseResultModel::Playlists(entries) => self.playlist_entries_arrived(entries),
            BrowseResultModel::InstantMix(items) => self.mix_started(items),
            BrowseResultModel::VideoTracks(entries) => self.track_entries_arrived(entries),
            BrowseResultModel::MediaOptions {
                item_id,
                versions,
                audio_entries,
                subtitle_entries,
            } => self.options_filled(item_id, versions, audio_entries, subtitle_entries),
            BrowseResultModel::Status(message) => self.noted(message),
            BrowseResultModel::Error(message) => self.failed(message),
            BrowseResultModel::Home(data) => self.home_filled(data),
        }
    }
}

impl App {
    fn start_mix(&mut self, items: Vec<Item>)
        requires
            items@.len() > 0,
        ensures
            final(self)@ == old(self)@.mix_started(items.deep_view()),
    {
        let first = items[0].clone();
        assert(first@ == items.deep_view()[0]);
        self.set_play_queue(items, 0);
        self.queue_intent(Intent::PlayQueueCurrent { item: first });
    }

    fn fail_level(&mut self, id: &str, message: &str)
        ensures
            final(self)@ == old(self)@.loading_dropped(id@).failed(message@),
    {
        self.drop_loading_level(id);
        self.show_error(message);
    }

    /// Deliver a completed fetch into the client.
    pub fn apply_result(&mut self, result: BrowseResult)
        requires
            result@.playable(),
        ensures
            final(self)@ == old(self)@.result_applied(result@),
    {
        match result {
            BrowseResult::Folder { id, items } => self.fill_level(id.as_str(), items),
            BrowseResult::Section { library_id, title, items } => self.apply_root_items(
                library_id.as_str(),
                title,
                items,
            ),
            BrowseResult::Search { library_id, query, scope_label, items } => {
                let title = search_level_title(scope_label.as_str(), query.as_str());
                self.apply_root_items(library_id.as_str(), title, items)
            },
            BrowseResult::GlobalSearch { query, items } => self.set_global_search_results(
                query.as_str(),
                items,
            ),
            BrowseResult::Failed { id, message } => self.fail_level(id.as_str(), message.as_str()),
            BrowseResult::Libraries(libraries) => self.replace_libraries(libraries),
            BrowseResult::LibraryMeta(entries) => self.set_library_picker_entries(entries),
            BrowseResult::Playlists(entries) => self.set_playlist_picker_entries(entries),
            BrowseResult::InstantMix(items) => self.start_mix(items),
            BrowseResult::VideoTracks(entries) => self.set_video_track_picker_entries(entries),
            BrowseResult::MediaOptions { item_id, versions, audio_entries, subtitle_entries } => {
                self.set_media_options_view_data(
                    item_id.as_str(),
                    versions,
                    audio_entries,
                    subtitle_entries,
                )
            },
            BrowseResult::Status(message) => self.set_status(message.as_str()),
            BrowseResult::Error(message) => self.show_error(message.as_str()),
            BrowseResult::Home(data) => self.set_home_data(data),
        }
    }
}

/// Every mix that is handed on has a track to start with.
pub proof fn mixes_are_playable(items: Seq<ItemModel>, empty: Seq<char>)
    ensures
        mix_of(items, empty).playable(),
{
}

/// mpv's track numbers count the streams of one type from one, in stream order, and
/// skip none.
pub proof fn track_numbers_have_no_gaps(streams: Seq<StreamModel>, kind: VideoTrackKind, i: int)
    requires
        0 <= i < track_entries(streams, kind).len() - fixed_entries(kind).len(),
        streams.len() <= i32::MAX,
    ensures
        track_entries(streams, kind)[fixed_entries(kind).len() + i].choice == TrackChoice::Pick(
            (i + 1) as i32,
        ),
        track_entries(streams, kind).len() == fixed_entries(kind).len() + streams.filter(
            is_stream(stream_kind(kind)),
        ).len(),
{
}

/// A section that lists no item types only widens to subfolders when a filter asks
/// for it.
pub proof fn plain_sections_list_direct_children(
    library_id: Seq<char>,
    section: SectionModel,
    extras: SectionFiltersModel,
)
    requires
        section.item_types.len() == 0,
    ensures
        QueryModel::section(library_id, section, extras).recursive == Some(extras.narrows()),
{
}

/// The answer to a folder request fills the level that waits for it, unless the user
/// has left it.
pub proof fn answers_for_left_folders_are_dropped(
    model: AppModel,
    id: Seq<char>,
    items: Seq<ItemModel>,
)
    requires
        forall|i: int|
            0 <= i < model.stack.len() ==> !super::app::navigation::awaits(id)(
                #[trigger] model.stack[i],
            ),
    ensures
        model.result_applied(BrowseResultModel::Folder { id, items }) == model,
{
    sequences::lemma_first_index_missing(model.stack, super::app::navigation::awaits(id));
}

} // verus!
