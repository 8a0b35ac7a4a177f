//! The decisions of the event loop: when a selection is worth a fetch, and where
//! each queued intent goes.

use vstd::prelude::*;

use super::app::state;
use super::app::state::{App, AppModel};
use super::app::types::{
    Intent, IntentModel, Item, ItemModel, LibraryModel, Section, SectionFilters,
    SectionFiltersModel, SectionModel, VideoTrackKind,
};
use crate::config::{EqPreset, Setting, SettingModel};
use crate::sequences;
use crate::sequences::{copy_texts, push_deep};
use crate::text::{concat4, same_text};

verus! {

/// Frames a selection has to be steady for before anything is fetched for it.
pub const STABLE_TICKS: u8 = 2;

/// One thing that the event loop has to do, or hand on.
#[derive(Debug)]
pub enum Command {
    /// Fetch a folder's children.
    OpenFolder { id: String },
    /// Fetch a library's root level with a section filter.
    ApplySection { library_id: String, library_name: String, section: Section, extras: SectionFilters },
    /// Search inside one library.
    Search { library_id: String, query: String, item_types: Vec<String>, scope_label: String },
    /// Load a theme by name, and keep it as the chosen one.
    LoadTheme(String),
    /// Write one setting to the config file.
    Persist(Setting),
    /// Tell the audio engine.
    SetGapless(bool),
    /// Tell the audio engine.
    SetNormalization(bool),
    /// Tell the audio engine.
    SetEqPreset(EqPreset),
    /// Fetch an item's detail.
    RequestDetail { item_id: String, kind: Option<String> },
    /// Refetch the libraries: the named ones, or those that the config file
    /// calls visible.
    SyncLibraries(Option<Vec<String>>),
    /// Fetch the server's library list for the picker.
    LoadLibraryMeta,
    /// Fetch the user's playlists.
    LoadPlaylists,
    AddToPlaylist { playlist_id: String, item_id: String },
    InstantMix { item: Item },
    GenreRadio { library_id: String, genre: String },
    CreatePlaylist { name: String, item_ids: Vec<String> },
    Dislike { item_id: String },
    CopyItemUrl { item_id: String, item_name: String },
    LoadVideoTracks { item_id: String, kind: VideoTrackKind },
    LoadMediaOptions { item_id: String },
    /// Fetch the Home dashboard for these libraries: id, name, collection type.
    LoadHome(Vec<(String, String, Option<String>)>),
    GlobalSearch { query: String },
    /// Copy the log directory to the clipboard.
    CopyLogLocation,
    /// Hand an intent to the playback controller.
    Play(Intent),
}

/// The contents of a [`Command`].
#[verifier::ext_equal]
pub enum CommandModel {
    OpenFolder { id: Seq<char> },
    ApplySection { library_id: Seq<char>, library_name: Seq<char>, section: SectionModel, extras: SectionFiltersModel },
    Search { library_id: Seq<char>, query: Seq<char>, item_types: Seq<Seq<char>>, scope_label: Seq<char> },
    LoadTheme(Seq<char>),
    Persist(SettingModel),
    SetGapless(bool),
    SetNormalization(bool),
    SetEqPreset(EqPreset),
    RequestDetail { item_id: Seq<char>, kind: Option<Seq<char>> },
    SyncLibraries(Option<Seq<Seq<char>>>),
    LoadLibraryMeta,
    LoadPlaylists,
    AddToPlaylist { playlist_id: Seq<char>, item_id: Seq<char> },
    InstantMix { item: ItemModel },
    GenreRadio { library_id: Seq<char>, genre: Seq<char> },
    CreatePlaylist { name: Seq<char>, item_ids: Seq<Seq<char>> },
    Dislike { item_id: Seq<char> },
    CopyItemUrl { item_id: Seq<char>, item_name: Seq<char> },
    LoadVideoTracks { item_id: Seq<char>, kind: VideoTrackKind },
    LoadMediaOptions { item_id: Seq<char> },
    LoadHome(Seq<(Seq<char>, Seq<char>, Option<Seq<char>>)>),
    GlobalSearch { query: Seq<char> },
    CopyLogLocation,
    Play(IntentModel),
}

impl View for Command {
    type V = CommandModel;

    open spec fn view(&self) -> CommandModel {
        match self {
            Command::OpenFolder { id } => CommandModel::OpenFolder {
                id: id@,
            },
            Command::ApplySection { library_id, library_name, section, extras } => CommandModel::ApplySection {
                library_id: library_id@,
                library_name: library_name@,
                section: section@,
                extras: extras@,
            },
            Command::Search { library_id, query, item_types, scope_label } => CommandModel::Search {
                library_id: library_id@,
                query: query@,
                item_types: item_types.deep_view(),
                scope_label: scope_label@,
            },
            Command::LoadTheme(value) => CommandModel::LoadTheme(value@),
            Command::Persist(value) => CommandModel::Persist(value@),
            Command::SetGapless(value) => CommandModel::SetGapless(*value),
            Command::SetNormalization(value) => CommandModel::SetNormalization(*value),
            Command::SetEqPreset(value) => CommandModel::SetEqPreset(*value),
            Command::RequestDetail { item_id, kind } => CommandModel::RequestDetail {
                item_id: item_id@,
                kind: kind.deep_view(),
            },
            Command::SyncLibraries(value) => CommandModel::SyncLibraries(value.deep_view()),
            Command::LoadLibraryMeta => CommandModel::LoadLibraryMeta,
            Command::LoadPlaylists => CommandModel::LoadPlaylists,
            Command::AddToPlaylist { playlist_id, item_id } => CommandModel::AddToPlaylist {
                playlist_id: playlist_id@,
                item_id: item_id@,
            },
            Command::InstantMix { item } => CommandModel::InstantMix {
                item: item@,
            },
            Command::GenreRadio { library_id, genre } => CommandModel::GenreRadio {
                library_id: library_id@,
                genre: genre@,
            },
            Command::CreatePlaylist { name, item_ids } => CommandModel::CreatePlaylist {
                name: name@,
                item_ids: item_ids.deep_view(),
            },
            Command::Dislike { item_id } => CommandModel::Dislike {
                item_id: item_id@,
            },
            Command::CopyItemUrl { item_id, item_name } => CommandModel::CopyItemUrl {
                item_id: item_id@,
                item_name: item_name@,
            },
            Command::LoadVideoTracks { item_id, kind } => CommandModel::LoadVideoTracks {
                item_id: item_id@,
                kind: *kind,
            },
            Command::LoadMediaOptions { item_id } => CommandModel::LoadMediaOptions {
                item_id: item_id@,
            },
            Command::LoadHome(value) => CommandModel::LoadHome(value.deep_view()),
            Command::GlobalSearch { query } => CommandModel::GlobalSearch {
                query: query@,
            },
            Command::CopyLogLocation => CommandModel::CopyLogLocation,
            Command::Play(value) => CommandModel::Play(value@),
        }
    }
}

impl DeepView for Command {
    type V = CommandModel;

    open spec fn deep_view(&self) -> CommandModel {
        self@
    }
}

/// What one frame of the event loop has to fetch.
#[derive(Debug)]
pub struct FramePlan {
    /// The item whose detail is wanted, with its kind.
    pub detail: Option<(String, Option<String>)>,
    /// The item whose cover is wanted.
    pub cover: Option<String>,
    /// The playing item, whose cover is always wanted.
    pub playing_cover: Option<String>,
}

/// The contents of a [`FramePlan`].
#[verifier::ext_equal]
pub struct FramePlanModel {
    pub detail: Option<(Seq<char>, Option<Seq<char>>)>,
    pub cover: Option<Seq<char>>,
    pub playing_cover: Option<Seq<char>>,
}

impl View for FramePlan {
    type V = FramePlanModel;

    open spec fn view(&self) -> FramePlanModel {
        FramePlanModel {
            detail: self.detail.deep_view(),
            cover: self.cover.deep_view(),
            playing_cover: self.playing_cover.deep_view(),
        }
    }
}

impl DeepView for FramePlan {
    type V = FramePlanModel;

    open spec fn deep_view(&self) -> FramePlanModel {
        self@
    }
}

/// Cover + detail fetches wait for a stable selection so rapid scrolling
/// doesn't queue a request per item the user blew past. The wait ends once the
/// selection has been steady for [`STABLE_TICKS`] frames.
#[derive(Debug)]
pub struct SelectionWatch {
    /// The selection of the last frame.
    pub last_item_id: Option<String>,
    /// How many frames it has been the same.
    pub stable_ticks: u8,
}

/// The contents of a [`SelectionWatch`].
#[verifier::ext_equal]
pub struct WatchModel {
    pub last_item_id: Option<Seq<char>>,
    pub stable_ticks: u8,
}

impl View for SelectionWatch {
    type V = WatchModel;

    open spec fn view(&self) -> WatchModel {
        WatchModel {
            last_item_id: self.last_item_id.deep_view(),
            stable_ticks: self.stable_ticks,
        }
    }
}

impl DeepView for SelectionWatch {
    type V = WatchModel;

    open spec fn deep_view(&self) -> WatchModel {
        self@
    }
}

impl AppModel {
    /// The id of the current item.
    pub open spec fn current_id(self) -> Option<Seq<char>> {
        match self.current_item() {
            Some(item) => Some(item.id),
            None => None,
        }
    }

    /// The name of the library with the given id; empty without one.
    pub open spec fn library_name(self, id: Seq<char>) -> Seq<char> {
        match self.library_position(id) {
            Some(i) => self.libraries[i as int].name,
            None => Seq::empty(),
        }
    }

    /// Id, name and collection type of every library.
    pub open spec fn library_refs(self) -> Seq<(Seq<char>, Seq<char>, Option<Seq<char>>)> {
        self.libraries.map_values(
            |library: LibraryModel| (library.id, library.name, library.collection_type),
        )
    }

    /// With another item's details about to come.
    pub open spec fn detail_loading(self, item_id: Seq<char>) -> AppModel {
        self.revealing(item_id).noted("Loading info…"@)
    }

    /// What an intent asks the event loop to do.
    pub open spec fn commands_for(self, intent: IntentModel) -> Seq<CommandModel> {
        match intent {
            IntentModel::OpenFolder { id, .. } => seq![CommandModel::OpenFolder { id }],
            IntentModel::ApplySection { library_id, section, extras } => seq![
                CommandModel::ApplySection {
                    library_id,
                    library_name: self.library_name(library_id),
                    section,
                    extras,
                },
            ],
            IntentModel::Search { query, item_types, scope_label } => match self.current_library() {
                Some(library) => if library.id.len() > 0 {
                    seq![
                        CommandModel::Search {
                            library_id: library.id,
                            query,
                            item_types,
                            scope_label,
                        },
                    ]
                } else {
                    Seq::empty()
                },
                None => Seq::empty(),
            },
            IntentModel::SetTheme(name) => seq![CommandModel::LoadTheme(name)],
            IntentModel::SaveAudioPrefs { repeat_mode, shuffle } => seq![
                CommandModel::Persist(SettingModel::AudioPrefs { repeat_mode, shuffle }),
            ],
            IntentModel::SetGapless(on) => seq![
                CommandModel::Persist(SettingModel::Gapless(on)),
                CommandModel::SetGapless(on),
            ],
            IntentModel::SetNormalization(on) => seq![
                CommandModel::Persist(SettingModel::Normalization(on)),
                CommandModel::SetNormalization(on),
            ],
            IntentModel::SetEqPreset(preset) => seq![
                CommandModel::Persist(SettingModel::EqPreset(preset)),
                CommandModel::SetEqPreset(preset),
            ],
            IntentModel::SaveVolume(volume) => seq![
                CommandModel::Persist(SettingModel::Volume(volume)),
            ],
            IntentModel::SaveSectionMemory(memory) => seq![
                CommandModel::Persist(SettingModel::SectionMemory(memory)),
            ],
            IntentModel::SaveLastLibrary(id) => seq![
                CommandModel::Persist(SettingModel::LastLibrary(id)),
            ],
            IntentModel::SaveSearchHistory(history) => seq![
                CommandModel::Persist(SettingModel::SearchHistory(history)),
            ],
            IntentModel::LoadCurrentDetail { item_id, kind } => seq![
                CommandModel::RequestDetail { item_id, kind },
            ],
            IntentModel::SyncLibraries => seq![CommandModel::SyncLibraries(None)],
            IntentModel::LoadAllLibraryMeta => seq![CommandModel::LoadLibraryMeta],
            IntentModel::SaveVisibleLibraries(ids) => seq![
                CommandModel::Persist(SettingModel::VisibleLibraries(ids)),
                CommandModel::SyncLibraries(Some(ids)),
            ],
            IntentModel::LoadPlaylists { .. } => seq![CommandModel::LoadPlaylists],
            IntentModel::AddToPlaylist { playlist_id, item_id } => seq![
                CommandModel::AddToPlaylist { playlist_id, item_id },
            ],
            IntentModel::InstantMix { item } => seq![CommandModel::InstantMix { item }],
            IntentModel::GenreRadio { library_id, genre } => seq![
                CommandModel::GenreRadio { library_id, genre },
            ],
            IntentModel::CreatePlaylist { name, item_ids } => seq![
                CommandModel::CreatePlaylist { name, item_ids },
            ],
            IntentModel::Dislike { item_id } => seq![CommandModel::Dislike { item_id }],
            IntentModel::CopyItemUrl { item_id, item_name } => seq![
                CommandModel::CopyItemUrl { item_id, item_name },
            ],
            IntentModel::LoadVideoTracks { item_id, kind } => seq![
                CommandModel::LoadVideoTracks { item_id, kind },
            ],
            IntentModel::LoadMediaOptions { item_id } => seq![
                CommandModel::LoadMediaOptions { item_id },
            ],
            IntentModel::LoadHome => seq![CommandModel::LoadHome(self.library_refs())],
            IntentModel::GlobalSearch { query } => seq![CommandModel::GlobalSearch { query }],
            IntentModel::CopyLogLocation => seq![CommandModel::CopyLogLocation],
            _ => seq![CommandModel::Play(intent)],
        }
    }

    /// After an intent was routed: asking for a detail also shows that item.
    pub open spec fn routed(self, intent: IntentModel) -> AppModel {
        match intent {
            IntentModel::LoadCurrentDetail { item_id, .. } => self.detail_loading(item_id),
            _ => self,
        }
    }

    /// After a frame noticed that the selection moved: the new item is shown, and
    /// what belonged to the old one only is dropped.
    pub open spec fn selection_followed(self) -> AppModel {
        match self.current_id() {
            Some(id) => self.revealing(id).selection_left(),
            None => self.selection_left(),
        }
    }
}

impl WatchModel {
    /// Before the first frame.
    pub open spec fn fresh() -> WatchModel {
        WatchModel { last_item_id: None, stable_ticks: 0 }
    }

    /// After a frame with the given selection.
    pub open spec fn seen(self, current_id: Option<Seq<char>>) -> WatchModel {
        if current_id == self.last_item_id {
            WatchModel {
                stable_ticks: if self.stable_ticks == u8::MAX {
                    u8::MAX
                } else {
                    (self.stable_ticks + 1) as u8
                },
                ..self
            }
        } else {
            WatchModel { last_item_id: current_id, stable_ticks: 0 }
        }
    }

    /// Whether the selection has been steady for long enough.
    pub open spec fn settled(self) -> bool {
        self.stable_ticks >= STABLE_TICKS
    }

    /// What the client looks like after a frame.
    pub open spec fn followed(self, app: AppModel) -> AppModel {
        if app.current_id() == self.last_item_id {
            app
        } else {
            app.selection_followed()
        }
    }
}

/// What a frame fetches, while the selection is settled, or not yet.
pub open spec fn frame_plan(app: AppModel, is_settled: bool) -> FramePlanModel {
    FramePlanModel {
        detail: match app.current_item() {
            Some(item) => if is_settled {
                Some((item.id, item.kind))
            } else {
                None
            },
            None => None,
        },
        cover: match app.current_item() {
            Some(item) => if is_settled && item.primary_image_tag is Some
                && app.current_item_revealed() {
                Some(item.id)
            } else {
                None
            },
            None => None,
        },
        playing_cover: match app.now_playing {
            Some(playing) => Some(playing.item_id),
            None => None,
        },
    }
}

fn same_id(a: &Option<String>, b: &Option<String>) -> (same: bool)
    ensures
        same == (a.deep_view() == b.deep_view()),
{
    match (a, b) {
        (Some(x), Some(y)) => same_text(x.as_str(), y.as_str()),
        (None, None) => true,
        _ => false,
    }
}

/// One command only.
fn only(command: Command) -> (commands: Vec<Command>)
    ensures
        commands.deep_view() == seq![command@],
{
    let mut commands: Vec<Command> = Vec::new();
    push_deep(&mut commands, command);
    assert(commands.deep_view() =~= seq![command@]);
    commands
}

/// Two commands, in this order.
fn both(first: Command, second: Command) -> (commands: Vec<Command>)
    ensures
        commands.deep_view() == seq![first@, second@],
{
    let mut commands: Vec<Command> = Vec::new();
    push_deep(&mut commands, first);
    push_deep(&mut commands, second);
    assert(commands.deep_view() =~= seq![first@, second@]);
    commands
}

fn saving(setting: Setting) -> (commands: Vec<Command>)
    ensures
        commands.deep_view() == seq![CommandModel::Persist(setting@)],
{
    only(Command::Persist(setting))
}

impl App {
    fn current_id(&self) -> (id: Option<String>)
        ensures
            id.deep_view() == self@.current_id(),
    {
        match self.current_item() {
            Some(item) => Some(item.id.clone()),
            None => None,
        }
    }

    fn library_name(&self, id: &str) -> (name: String)
        ensures
            name@ == self@.library_name(id@),
    {
        match self.library_position(id) {
            Some(i) => {
                proof {
                    sequences::lemma_first_index(self@.libraries, state::library_has_id(id@));
                }
                self.libraries[i].name.clone()
            },
            None => {
                let name = String::new();
                assert(name@ =~= Seq::empty());
                name
            },
        }
    }

    fn library_refs(&self) -> (refs: Vec<(String, String, Option<String>)>)
        ensures
            refs.deep_view() == self@.library_refs(),
    {
        let ghost goal = self@.library_refs();
        let mut refs: Vec<(String, String, Option<String>)> = Vec::new();
        let mut i: usize = 0;
        while i < self.libraries.len()
            invariant
                i <= self.libraries@.len(),
                goal == self@.library_refs(),
                refs.deep_view() =~= goal.take(i as int),
            decreases self.libraries@.len() - i,
        {
            let library = &self.libraries[i];
            push_deep(
                &mut refs,
                (library.id.clone(), library.name.clone(), library.collection_type.clone()),
            );
            proof {
                sequences::lemma_take_push(goal, i as int);
            }
            i = i + 1;
        }
        proof {
            sequences::lemma_take_all(goal);
        }
        refs
    }

    /// Show the item whose details are about to come.
    pub fn note_detail_loading(&mut self, item_id: String)
        ensures
            final(self)@ == old(self)@.detail_loading(item_id@),
    {
        self.reveal_item(item_id);
        self.set_status("Loading info…");
    }

    /// Surface that a theme could not be loaded.
    pub fn theme_failed(&mut self, name: &str, reason: &str)
        ensures
            final(self)@ == old(self)@.failed(
                "Couldn't load theme \""@ + name@ + "\": "@ + reason@,
            ),
    {
        let message = concat4("Couldn't load theme \"", name, "\": ", reason);
        self.show_error(message.as_str());
    }

    fn route_search(&self, query: String, item_types: Vec<String>, scope_label: String) -> (commands:
        Vec<Command>)
        ensures
            commands.deep_view() == self@.commands_for(
                IntentModel::Search {
                    query: query@,
                    item_types: item_types.deep_view(),
                    scope_label: scope_label@,
                },
            ),
    {
        if let Some(library) = self.current_library() {
            if !library.id.as_str().is_empty() {
                return only(
                    Command::Search {
                        library_id: library.id.clone(),
                        query,
                        item_types,
                        scope_label,
                    },
                );
            }
        }
        let commands: Vec<Command> = Vec::new();
        assert(commands.deep_view() =~= Seq::empty());
        commands
    }

    /// Decide where one queued intent goes. Folder drilling and the other queries
    /// go to the browser, settings to the config file, everything else to the
    /// playback controller.
    pub fn route(&mut self, intent: Intent) -> (commands: Vec<Command>)
        ensures
            commands.deep_view() == old(self)@.commands_for(intent@),
            final(self)@ == old(self)@.routed(intent@),
    {
        match intent {
            Intent::OpenFolder { id, title: _ } => only(Command::OpenFolder { id }),
            Intent::ApplySection { library_id, section, extras } => {
                let library_name = self.library_name(library_id.as_str());
                only(Command::ApplySection { library_id, library_name, section, extras })
            },
            Intent::Search { query, item_types, scope_label } => self.route_search(
                query,
                item_types,
                scope_label,
            ),
            Intent::SetTheme(name) => only(Command::LoadTheme(name)),
            Intent::SaveAudioPrefs { repeat_mode, shuffle } => saving(
                Setting::AudioPrefs { repeat_mode, shuffle },
            ),
            Intent::SetGapless(on) => both(
                Command::Persist(Setting::Gapless(on)),
                Command::SetGapless(on),
            ),
            Intent::SetNormalization(on) => both(
                Command::Persist(Setting::Normalization(on)),
                Command::SetNormalization(on),
            ),
            Intent::SetEqPreset(preset) => both(
                Command::Persist(Setting::EqPreset(preset)),
                Command::SetEqPreset(preset),
            ),
            Intent::SaveVolume(volume) => saving(Setting::Volume(volume)),
            Intent::SaveSectionMemory(memory) => saving(Setting::SectionMemory(memory)),
            Intent::SaveLastLibrary(id) => saving(Setting::LastLibrary(id)),
            Intent::SaveSearchHistory(history) => saving(Setting::SearchHistory(history)),
            Intent::LoadCurrentDetail { item_id, kind } => {
                self.note_detail_loading(item_id.clone());
                only(Command::RequestDetail { item_id, kind })
            },
            Intent::SyncLibraries => only(Command::SyncLibraries(None)),
            Intent::LoadAllLibraryMeta => only(Command::LoadLibraryMeta),
            Intent::SaveVisibleLibraries(ids) => {
                let kept = copy_texts(&ids);
                both(
                    Command::Persist(Setting::VisibleLibraries(kept)),
                    Command::SyncLibraries(Some(ids)),
                )
            },
            Intent::LoadPlaylists { target_item_id: _ } => only(Command::LoadPlaylists),
            Intent::AddToPlaylist { playlist_id, item_id } => only(
                Command::AddToPlaylist { playlist_id, item_id },
            ),
            Intent::InstantMix { item } => only(Command::InstantMix { item }),
            Intent::GenreRadio { library_id, genre } => only(
                Command::GenreRadio { library_id, genre },
            ),
            Intent::CreatePlaylist { name, item_ids } => only(
                Command::CreatePlaylist { name, item_ids },
            ),
            Intent::Dislike { item_id } => only(Command::Dislike { item_id }),
            Intent::CopyItemUrl { item_id, item_name } => only(
                Command::CopyItemUrl { item_id, item_name },
            ),
            Intent::LoadVideoTracks { item_id, kind } => only(
                Command::LoadVideoTracks { item_id, kind },
            ),
            Intent::LoadMediaOptions { item_id } => only(Command::LoadMediaOptions { item_id }),
            Intent::LoadHome => only(Command::LoadHome(self.library_refs())),
            Intent::GlobalSearch { query } => only(Command::GlobalSearch { query }),
            Intent::CopyLogLocation => only(Command::CopyLogLocation),
            other => only(Command::Play(other)),
        }
    }

    fn follow_selection(&mut self)
        ensures
            final(self)@ == old(self)@.selection_followed(),
    {
        if let Some(id) = self.current_id() {
            self.reveal_item(id);
        }
        self.reset_context_scroll_for_selection_change();
    }

    fn plan_frame(&self, is_settled: bool) -> (plan: FramePlan)
        ensures
            plan@ == frame_plan(self@, is_settled),
    {
        let revealed = self.current_item_revealed();
        FramePlan {
            detail: match self.current_item() {
                Some(item) => if is_settled {
                    Some((item.id.clone(), item.kind.clone()))
                } else {
                    None
                },
                None => None,
            },
            cover: match self.current_item() {
                Some(item) => if is_settled && item.primary_image_tag.is_some() && revealed {
                    Some(item.id.clone())
                } else {
                    None
                },
                None => None,
            },
            playing_cover: match &self.now_playing {
                Some(playing) => Some(playing.item_id.clone()),
                None => None,
            },
        }
    }
}

impl SelectionWatch {
    /// The watch before the first frame.
    pub fn new() -> (watch: SelectionWatch)
        ensures
            watch@ == WatchModel::fresh(),
    {
        SelectionWatch { last_item_id: None, stable_ticks: 0 }
    }

    fn see(&mut self, current_id: Option<String>)
        ensures
            final(self)@ == old(self)@.seen(current_id.deep_view()),
    {
        if same_id(&current_id, &self.last_item_id) {
            if self.stable_ticks < u8::MAX {
                self.stable_ticks = self.stable_ticks + 1;
            }
        } else {
            self.last_item_id = current_id;
            self.stable_ticks = 0;
        }
    }

    /// Run one frame: follow the selection if it moved, and say what to fetch.
    pub fn frame(&mut self, app: &mut App) -> (plan: FramePlan)
        ensures
            final(self)@ == old(self)@.seen(old(app)@.current_id()),
            final(app)@ == old(self)@.followed(old(app)@),
            plan@ == frame_plan(
                old(self)@.followed(old(app)@),
                old(self)@.seen(old(app)@.current_id()).settled(),
            ),
    {
        let current_id = app.current_id();
        let moved = !same_id(&current_id, &self.last_item_id);
        self.see(current_id);
        if moved {
            app.follow_selection();
        }
        app.plan_frame(self.stable_ticks >= STABLE_TICKS)
    }
}

impl Default for SelectionWatch {
    fn default() -> (watch: SelectionWatch)
        ensures
            watch@ == WatchModel::fresh(),
    {
        SelectionWatch::new()
    }
}

/// A selection that just moved is not worth a fetch yet; only the playing item's
/// cover is always wanted.
pub proof fn a_moved_selection_fetches_nothing(watch: WatchModel, app: AppModel)
    requires
        app.current_id() != watch.last_item_id,
    ensures
        frame_plan(watch.followed(app), watch.seen(app.current_id()).settled()).detail is None,
        frame_plan(watch.followed(app), watch.seen(app.current_id()).settled()).cover is None,
{
}

/// The selection is settled with the third frame in a row that shows the same selection, and
/// stays open from there on.
pub proof fn a_steady_selection_is_settled(watch: WatchModel, id: Option<Seq<char>>)
    requires
        watch.last_item_id != id,
    ensures
        !watch.seen(id).settled(),
        !watch.seen(id).seen(id).settled(),
        watch.seen(id).seen(id).seen(id).settled(),
        forall|later: WatchModel| #[trigger]
            later.settled() && later.last_item_id == id ==> later.seen(id).settled(),
{
}

/// Following the selection twice is following it once: the second frame finds it
/// where the first left it.
pub proof fn a_followed_selection_is_not_followed_again(watch: WatchModel, app: AppModel)
    ensures
        watch.seen(app.current_id()).followed(watch.followed(app)) == watch.followed(app),
{
    assert(watch.followed(app).current_item() == app.current_item());
}

/// Every intent that plays or steers playback goes to the playback controller,
/// unchanged.
pub proof fn playback_intents_reach_playback(app: AppModel, intent: IntentModel)
    requires
        intent is Play || intent is PlayQueueCurrent || intent is TogglePause || intent is Stop
            || intent is VolumeUp || intent is VolumeDown || intent is SeekForward
            || intent is SeekBackward || intent is QueueNext || intent is QueuePrev
            || intent is SetFavorite || intent is SetPlayed || intent is SetSleepTimer
            || intent is WatchTrailer,
    ensures
        app.commands_for(intent) == seq![CommandModel::Play(intent)],
        app.routed(intent) == app,
{
}

} // verus!
