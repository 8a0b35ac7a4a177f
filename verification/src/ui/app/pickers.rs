//! The picker overlays: visible libraries, playlists, video tracks, themes.

use vstd::prelude::*;
use vstd::string::*;

use super::state::{App, AppModel};
use super::types::{
    Intent, IntentModel, Library, LibraryModel, LibraryPickerModel, LibraryPickerState, MediaKind,
    PlaylistPickerModel, PlaylistPickerState, TrackEntryModel, TrackPickerEntry, VideoTrackKind,
    VideoTrackPickerModel, VideoTrackPickerState, VideoTrackSelection, VideoTrackSelectionModel,
};
use crate::sequences;
use crate::sequences::push_deep;
use crate::text::{concat4, same_text};
use crate::ui::keymap::{KeyCode, KeyEvent};

verus! {

/// The row above, if there is one.
pub open spec fn row_above(selected: usize) -> usize {
    if selected > 0 {
        (selected - 1) as usize
    } else {
        0
    }
}

/// The row below, stopping at the last one.
pub open spec fn row_below(selected: usize, len: nat) -> usize {
    if selected + 1 < len {
        (selected + 1) as usize
    } else {
        (len - 1) as usize
    }
}

fn above(selected: usize) -> (row: usize)
    ensures
        row == row_above(selected),
{
    if selected > 0 {
        selected - 1
    } else {
        0
    }
}

fn below(selected: usize, len: usize) -> (row: usize)
    requires
        len > 0,
    ensures
        row == row_below(selected, len as nat),
{
    if selected < len - 1 {
        selected + 1
    } else {
        len - 1
    }
}

/// Whether a library is marked visible.
pub open spec fn marked_visible() -> spec_fn((Seq<char>, Seq<char>, bool)) -> bool {
    |entry: (Seq<char>, Seq<char>, bool)| entry.2
}

/// The ids of the libraries marked visible.
pub open spec fn visible_ids(entries: Seq<(Seq<char>, Seq<char>, bool)>) -> Seq<Seq<char>> {
    entries.filter(marked_visible()).map_values(|entry: (Seq<char>, Seq<char>, bool)| entry.0)
}

/// Whether a text is the given one.
pub open spec fn is_named(name: Seq<char>) -> spec_fn(Seq<char>) -> bool {
    |candidate: Seq<char>| candidate == name
}

impl LibraryPickerModel {
    /// Whether the highlighted row is one of the rows, as far as there are any.
    pub open spec fn valid(self) -> bool {
        !self.loading && self.entries.len() > 0 ==> self.selected < self.entries.len()
    }

    /// After a key that moves or toggles.
    pub open spec fn edited(self, code: KeyCode) -> LibraryPickerModel {
        match code {
            KeyCode::Up => LibraryPickerModel { selected: row_above(self.selected), ..self },
            KeyCode::Down => LibraryPickerModel {
                selected: row_below(self.selected, self.entries.len()),
                ..self
            },
            KeyCode::Char(' ') => {
                let entry = self.entries[self.selected as int];
                LibraryPickerModel {
                    entries: self.entries.update(
                        self.selected as int,
                        (entry.0, entry.1, !entry.2),
                    ),
                    ..self
                }
            },
            _ => self,
        }
    }
}

impl PlaylistPickerModel {
    /// Whether the highlighted row is one of the rows, as far as there are any.
    pub open spec fn valid(self) -> bool {
        self.entries matches Some(entries) ==> entries.len() > 0 ==> self.selected < entries.len()
    }
}

impl VideoTrackPickerModel {
    /// Whether the highlighted row is one of the rows, as far as there are any.
    pub open spec fn valid(self) -> bool {
        self.entries matches Some(entries) ==> entries.len() > 0 ==> self.selected < entries.len()
    }
}

/// A track kind in a status note.
pub open spec fn track_kind_text(kind: VideoTrackKind) -> Seq<char> {
    match kind {
        VideoTrackKind::Audio => "Audio"@,
        VideoTrackKind::Subtitle => "Subtitles"@,
    }
}

impl VideoTrackSelectionModel {
    /// With one track picked.
    pub open spec fn with_choice(
        self,
        kind: VideoTrackKind,
        entry: TrackEntryModel,
    ) -> VideoTrackSelectionModel {
        match kind {
            VideoTrackKind::Audio => VideoTrackSelectionModel { audio: entry.choice, ..self },
            VideoTrackKind::Subtitle => VideoTrackSelectionModel { subtitle: entry.choice, ..self },
        }
    }
}

impl AppModel {
    /// Whether the overlays' highlighted rows are rows of theirs.
    pub open spec fn pickers_valid(self) -> bool {
        &&& self.library_picker matches Some(picker) ==> picker.valid()
        &&& self.playlist_picker matches Some(picker) ==> picker.valid()
        &&& self.video_track_picker matches Some(picker) ==> picker.valid()
    }

    /// With the visible-library picker open and being filled.
    pub open spec fn library_picker_opened(self) -> AppModel {
        AppModel {
            library_picker: Some(
                LibraryPickerModel { entries: Seq::empty(), selected: 0, loading: true },
            ),
            ..self
        }.queued(IntentModel::LoadAllLibraryMeta)
    }

    /// With the track picker open for the focused video and being filled.
    pub open spec fn track_picker_opened(self, kind: VideoTrackKind) -> AppModel {
        match self.current_item() {
            Some(item) => if item.media() == MediaKind::Video {
                AppModel {
                    video_track_picker: Some(
                        VideoTrackPickerModel {
                            item_id: item.id,
                            item_name: item.name,
                            kind,
                            entries: None,
                            selected: 0,
                        },
                    ),
                    ..self
                }.queued(IntentModel::LoadVideoTracks { item_id: item.id, kind })
            } else {
                self
            },
            None => self,
        }
    }

    /// With the playlist picker open for the focused item and being filled.
    pub open spec fn playlist_picker_opened(self) -> AppModel {
        match self.current_item() {
            Some(item) => AppModel {
                playlist_picker: Some(
                    PlaylistPickerModel {
                        target_item_id: item.id,
                        target_item_name: item.name,
                        entries: None,
                        selected: 0,
                    },
                ),
                ..self
            }.queued(IntentModel::LoadPlaylists { target_item_id: item.id }),
            None => self,
        }
    }

    /// With the theme picker open on the active theme, if there are themes.
    pub open spec fn theme_picker_opened(self) -> AppModel {
        if self.available_themes.len() == 0 {
            self
        } else {
            AppModel {
                theme_picker: Some(
                    match sequences::first_index(self.available_themes, is_named(self.theme)) {
                        Some(i) => i as usize,
                        None => 0,
                    },
                ),
                ..self
            }
        }
    }

    /// After a key in the theme picker.
    pub open spec fn theme_key(self, code: KeyCode) -> AppModel {
        match self.theme_picker {
            Some(selected) => match code {
                KeyCode::Up => AppModel { theme_picker: Some(row_above(selected)), ..self },
                KeyCode::Down => AppModel {
                    theme_picker: Some(
                        if self.available_themes.len() > 0 {
                            row_below(selected, self.available_themes.len())
                        } else {
                            0
                        },
                    ),
                    ..self
                },
                KeyCode::Enter => if selected < self.available_themes.len() {
                    AppModel { theme_picker: None, ..self }.queued(
                        IntentModel::SetTheme(self.available_themes[selected as int]),
                    )
                } else {
                    AppModel { theme_picker: None, ..self }
                },
                KeyCode::Esc => AppModel { theme_picker: None, ..self },
                _ => self,
            },
            None => self,
        }
    }

    /// After the server's libraries came in for the picker.
    pub open spec fn library_entries_arrived(
        self,
        entries: Seq<(Seq<char>, Seq<char>, bool)>,
    ) -> AppModel {
        match self.library_picker {
            Some(_) => AppModel {
                library_picker: Some(LibraryPickerModel { entries, selected: 0, loading: false }),
                ..self
            },
            None => self,
        }
    }

    /// After the user's playlists came in for the picker.
    pub open spec fn playlist_entries_arrived(self, entries: Seq<(Seq<char>, Seq<char>)>) -> AppModel {
        match self.playlist_picker {
            Some(picker) => AppModel {
                playlist_picker: Some(
                    PlaylistPickerModel { entries: Some(entries), selected: 0, ..picker },
                ),
                ..self
            },
            None => self,
        }
    }

    /// After a video's tracks came in for the picker.
    pub open spec fn track_entries_arrived(self, entries: Seq<TrackEntryModel>) -> AppModel {
        match self.video_track_picker {
            Some(picker) => AppModel {
                video_track_picker: Some(
                    VideoTrackPickerModel { entries: Some(entries), selected: 0, ..picker },
                ),
                ..self
            },
            None => self,
        }
    }

    /// After a sync brought another set of libraries.
    pub open spec fn libraries_replaced(self, libraries: Seq<LibraryModel>) -> AppModel {
        let replaced = AppModel { libraries, ..self };
        replaced.on_library(
            match self.current_library() {
                Some(previous) => match replaced.library_position(previous.id) {
                    Some(index) => index,
                    None => 0,
                },
                None => 0,
            },
        ).noted("Sync complete"@)
    }

    /// After a key in the visible-library picker.
    pub open spec fn library_picker_key(self, code: KeyCode) -> AppModel {
        let closed = AppModel { library_picker: None, ..self };
        match self.library_picker {
            Some(picker) => if picker.loading {
                if code == KeyCode::Esc {
                    closed
                } else {
                    self
                }
            } else if picker.entries.len() == 0 {
                if code == KeyCode::Esc || code == KeyCode::Enter {
                    closed
                } else {
                    self
                }
            } else if code == KeyCode::Esc {
                closed
            } else if code == KeyCode::Enter {
                closed.noted("Saving libraries…"@).queued(
                    IntentModel::SaveVisibleLibraries(visible_ids(picker.entries)),
                )
            } else {
                AppModel { library_picker: Some(picker.edited(code)), ..self }
            },
            None => self,
        }
    }

    /// After a key in the playlist picker.
    pub open spec fn playlist_picker_key(self, code: KeyCode) -> AppModel {
        let closed = AppModel { playlist_picker: None, ..self };
        match self.playlist_picker {
            Some(picker) => match picker.entries {
                None => if code == KeyCode::Esc {
                    closed
                } else {
                    self
                },
                Some(entries) => if entries.len() == 0 {
                    if code == KeyCode::Esc || code == KeyCode::Enter {
                        closed
                    } else {
                        self
                    }
                } else {
                    match code {
                        KeyCode::Esc => closed,
                        KeyCode::Up => AppModel {
                            playlist_picker: Some(
                                PlaylistPickerModel {
                                    selected: row_above(picker.selected),
                                    ..picker
                                },
                            ),
                            ..self
                        },
                        KeyCode::Down => AppModel {
                            playlist_picker: Some(
                                PlaylistPickerModel {
                                    selected: row_below(picker.selected, entries.len()),
                                    ..picker
                                },
                            ),
                            ..self
                        },
                        KeyCode::Enter => {
                            let playlist = entries[picker.selected as int];
                            closed.noted(
                                "Added “"@ + picker.target_item_name + "” → "@ + playlist.1,
                            ).queued(
                                IntentModel::AddToPlaylist {
                                    playlist_id: playlist.0,
                                    item_id: picker.target_item_id,
                                },
                            )
                        },
                        _ => self,
                    }
                },
            },
            None => self,
        }
    }

    /// With one track of a video picked.
    pub open spec fn track_picked(
        self,
        picker: VideoTrackPickerModel,
        entry: TrackEntryModel,
    ) -> AppModel {
        AppModel {
            video_track_picker: None,
            video_track_selections: self.video_track_selections.insert(
                picker.item_id,
                self.selection_for(picker.item_id).with_choice(picker.kind, entry),
            ),
            ..self
        }.noted(
            track_kind_text(picker.kind) + " → "@ + entry.label + " ("@ + picker.item_name + ")"@,
        )
    }

    /// After a key in the video track picker.
    pub open spec fn track_picker_key(self, code: KeyCode) -> AppModel {
        let closed = AppModel { video_track_picker: None, ..self };
        match self.video_track_picker {
            Some(picker) => match picker.entries {
                None => if code == KeyCode::Esc {
                    closed
                } else {
                    self
                },
                Some(entries) => if entries.len() == 0 {
                    if code == KeyCode::Esc || code == KeyCode::Enter {
                        closed
                    } else {
                        self
                    }
                } else {
                    match code {
                        KeyCode::Esc => closed,
                        KeyCode::Up => AppModel {
                            video_track_picker: Some(
                                VideoTrackPickerModel {
                                    selected: row_above(picker.selected),
                                    ..picker
                                },
                            ),
                            ..self
                        },
                        KeyCode::Down => AppModel {
                            video_track_picker: Some(
                                VideoTrackPickerModel {
                                    selected: row_below(picker.selected, entries.len()),
                                    ..picker
                                },
                            ),
                            ..self
                        },
                        KeyCode::Enter => self.track_picked(
                            picker,
                            entries[picker.selected as int],
                        ),
                        _ => self,
                    }
                },
            },
            None => self,
        }
    }
}

proof fn lemma_visible_push(
    entries: Seq<(Seq<char>, Seq<char>, bool)>,
    entry: (Seq<char>, Seq<char>, bool),
)
    ensures
        visible_ids(entries.push(entry)) == if entry.2 {
            visible_ids(entries).push(entry.0)
        } else {
            visible_ids(entries)
        },
{
    sequences::lemma_filter_push(entries, entry, marked_visible());
    assert(visible_ids(entries.push(entry)) =~= if entry.2 {
        visible_ids(entries).push(entry.0)
    } else {
        visible_ids(entries)
    });
}

impl LibraryPickerState {
    /// The ids of the libraries marked visible.
    pub fn visible_ids(&self) -> (ids: Vec<String>)
        ensures
            ids.deep_view() == visible_ids(self@.entries),
    {
        let ghost models = self@.entries;
        let mut ids: Vec<String> = Vec::new();
        let mut i: usize = 0;
        proof {
            sequences::lemma_filter_empty(marked_visible());
            assert(models.take(0) =~= Seq::empty());
            assert(visible_ids(models.take(0)) =~= Seq::empty());
            assert(ids.deep_view() =~= Seq::empty());
        }
        while i < self.entries.len()
            invariant
                i <= self.entries@.len(),
                models == self.entries.deep_view(),
                ids.deep_view() == visible_ids(models.take(i as int)),
            decreases self.entries@.len() - i,
        {
            proof {
                sequences::lemma_take_push(models, i as int);
                lemma_visible_push(models.take(i as int), models[i as int]);
            }
            if self.entries[i].2 {
                push_deep(&mut ids, self.entries[i].0.clone());
            }
            i = i + 1;
        }
        proof {
            sequences::lemma_take_all(models);
        }
        ids
    }

    /// A key that moves or toggles.
    pub fn edit(&mut self, code: KeyCode)
        requires
            old(self)@.valid(),
            !old(self)@.loading,
            old(self)@.entries.len() > 0,
        ensures
            final(self)@ == old(self)@.edited(code),
    {
        match code {
            KeyCode::Up => {
                self.selected = above(self.selected);
            },
            KeyCode::Down => {
                self.selected = below(self.selected, self.entries.len());
            },
            KeyCode::Char(' ') => {
                let row: usize = self.selected;
                let shown = self.entries[row].2;
                self.entries[row].2 = !shown;
                assert(self.entries.deep_view() =~= old(self)@.edited(code).entries);
            },
            _ => {},
        }
    }
}

impl App {
    /// Open the visible-library picker. Entries are filled async via
    /// `Intent::LoadAllLibraryMeta`.
    pub fn open_library_picker(&mut self)
        ensures
            final(self)@ == old(self)@.library_picker_opened(),
    {
        let picker = LibraryPickerState { entries: Vec::new(), selected: 0, loading: true };
        assert(picker@.entries =~= Seq::empty());
        self.library_picker = Some(picker);
        self.queue_intent(Intent::LoadAllLibraryMeta);
    }

    /// Open the audio / subtitle track picker for the focused video item.
    pub fn open_video_track_picker(&mut self, kind: VideoTrackKind)
        ensures
            final(self)@ == old(self)@.track_picker_opened(kind),
    {
        let (item_id, item_name) = match self.current_item() {
            Some(item) => {
                if item.media() != MediaKind::Video {
                    return ;
                }
                (item.id.clone(), item.name.clone())
            },
            None => {
                return ;
            },
        };
        self.video_track_picker = Some(
            VideoTrackPickerState {
                item_id: item_id.clone(),
                item_name,
                kind,
                entries: None,
                selected: 0,
            },
        );
        self.queue_intent(Intent::LoadVideoTracks { item_id, kind });
    }

    /// Open the playlist picker for the focused item. Entries are filled async via
    /// `Intent::LoadPlaylists`.
    pub fn open_playlist_picker(&mut self)
        ensures
            final(self)@ == old(self)@.playlist_picker_opened(),
    {
        let (item_id, item_name) = match self.current_item() {
            Some(item) => (item.id.clone(), item.name.clone()),
            None => {
                return ;
            },
        };
        self.playlist_picker = Some(
            PlaylistPickerState {
                target_item_id: item_id.clone(),
                target_item_name: item_name,
                entries: None,
                selected: 0,
            },
        );
        self.queue_intent(Intent::LoadPlaylists { target_item_id: item_id });
    }

    /// Open the theme picker on the currently-active theme.
    pub fn open_theme_picker(&mut self)
        ensures
            final(self)@ == old(self)@.theme_picker_opened(),
    {
        if self.available_themes.len() == 0 {
            return ;
        }
        let ghost p = is_named(self.theme@);
        let ghost models = self.available_themes.deep_view();
        let mut i: usize = 0;
        while i < self.available_themes.len() && !same_text(
            self.available_themes[i].as_str(),
            self.theme.name(),
        )
            invariant
                i <= self.available_themes@.len(),
                self@ == old(self)@,
                models == self.available_themes.deep_view(),
                p == is_named(self.theme@),
                forall|j: int| 0 <= j < i ==> !p(#[trigger] models[j]),
            decreases self.available_themes@.len() - i,
        {
            i = i + 1;
        }
        let found: usize = if i < self.available_themes.len() {
            proof {
                sequences::lemma_first_index_found(models, p, i as int);
            }
            i
        } else {
            proof {
                sequences::lemma_first_index_missing(models, p);
            }
            0
        };
        self.theme_picker = Some(found);
    }

    /// Picker overlay state for the renderer: the names and the highlighted index.
    pub fn theme_picker(&self) -> (picker: Option<(&[String], usize)>)
        ensures
            match picker {
                Some((names, selected)) => self@.theme_picker == Some(selected)
                    && names@.map_values(|name: String| name@) == self@.available_themes,
                None => self@.theme_picker is None,
            },
    {
        match self.theme_picker {
            Some(selected) => {
                let names = self.available_themes.as_slice();
                assert(names@.map_values(|name: String| name@) =~= self@.available_themes);
                Some((names, selected))
            },
            None => None,
        }
    }

    fn set_theme_picker(&mut self, picker: Option<usize>)
        ensures
            final(self)@ == (AppModel { theme_picker: picker, ..old(self)@ }),
    {
        self.theme_picker = picker;
    }

    fn close_library_picker(&mut self)
        ensures
            final(self)@ == (AppModel { library_picker: None, ..old(self)@ }),
    {
        self.library_picker = None;
    }

    fn edit_library_picker(&mut self, code: KeyCode)
        requires
            old(self)@.library_picker is Some,
            old(self)@.library_picker->0.valid(),
            !old(self)@.library_picker->0.loading,
            old(self)@.library_picker->0.entries.len() > 0,
        ensures
            final(self)@ == (AppModel {
                library_picker: Some(old(self)@.library_picker->0.edited(code)),
                ..old(self)@
            }),
    {
        if let Some(picker) = self.library_picker.as_mut() {
            picker.edit(code);
        }
    }

    fn close_playlist_picker(&mut self)
        ensures
            final(self)@ == (AppModel { playlist_picker: None, ..old(self)@ }),
    {
        self.playlist_picker = None;
    }

    fn select_playlist_row(&mut self, selected: usize)
        requires
            old(self)@.playlist_picker is Some,
        ensures
            final(self)@ == (AppModel {
                playlist_picker: Some(
                    PlaylistPickerModel { selected, ..old(self)@.playlist_picker->0 },
                ),
                ..old(self)@
            }),
    {
        if let Some(picker) = self.playlist_picker.as_mut() {
            picker.selected = selected;
        }
    }

    fn close_track_picker(&mut self)
        ensures
            final(self)@ == (AppModel { video_track_picker: None, ..old(self)@ }),
    {
        self.video_track_picker = None;
    }

    fn select_track_row(&mut self, selected: usize)
        requires
            old(self)@.video_track_picker is Some,
        ensures
            final(self)@ == (AppModel {
                video_track_picker: Some(
                    VideoTrackPickerModel { selected, ..old(self)@.video_track_picker->0 },
                ),
                ..old(self)@
            }),
    {
        if let Some(picker) = self.video_track_picker.as_mut() {
            picker.selected = selected;
        }
    }

    /// Save the libraries marked visible and close the picker.
    fn save_visible_libraries(&mut self, visible: Vec<String>)
        ensures
            final(self)@ == (AppModel { library_picker: None, ..old(self)@ }).noted(
                "Saving libraries…"@,
            ).queued(IntentModel::SaveVisibleLibraries(visible.deep_view())),
    {
        self.close_library_picker();
        self.set_status("Saving libraries…");
        self.queue_intent(Intent::SaveVisibleLibraries(visible));
    }

    /// Add an item to the picked playlist and close the picker.
    fn add_to_playlist(
        &mut self,
        playlist_id: String,
        playlist_name: String,
        item_id: String,
        item_name: String,
    )
        ensures
            final(self)@ == (AppModel { playlist_picker: None, ..old(self)@ }).noted(
                "Added “"@ + item_name@ + "” → "@ + playlist_name@,
            ).queued(
                IntentModel::AddToPlaylist { playlist_id: playlist_id@, item_id: item_id@ },
            ),
    {
        self.close_playlist_picker();
        let note = concat4("Added “", item_name.as_str(), "” → ", playlist_name.as_str());
        self.set_status(note.as_str());
        self.queue_intent(Intent::AddToPlaylist { playlist_id, item_id });
    }

    /// A key while the theme picker is open.
    pub fn handle_theme_picker_key(&mut self, key: KeyEvent)
        ensures
            final(self)@ == old(self)@.theme_key(key.code),
    {
        let selected: usize = match self.theme_picker {
            Some(selected) => selected,
            None => {
                return ;
            },
        };
        let len: usize = self.available_themes.len();
        match key.code {
            KeyCode::Up => self.set_theme_picker(Some(above(selected))),
            KeyCode::Down => self.set_theme_picker(
                Some(
                    if len > 0 {
                        below(selected, len)
                    } else {
                        0
                    },
                ),
            ),
            KeyCode::Enter => {
                if selected < len {
                    let name = self.available_themes[selected].clone();
                    self.set_theme_picker(None);
                    self.queue_intent(Intent::SetTheme(name));
                } else {
                    self.set_theme_picker(None);
                }
            },
            KeyCode::Esc => self.set_theme_picker(None),
            _ => {},
        }
    }

    /// Picker accessor for the renderer.
    pub fn video_track_picker(&self) -> (picker: Option<&VideoTrackPickerState>)
        ensures
            picker.deep_view() == self@.video_track_picker,
    {
        self.video_track_picker.as_ref()
    }

    /// Picker accessor for the renderer.
    pub fn library_picker(&self) -> (picker: Option<&LibraryPickerState>)
        ensures
            picker.deep_view() == self@.library_picker,
    {
        self.library_picker.as_ref()
    }

    /// Picker accessor for the renderer.
    pub fn playlist_picker(&self) -> (picker: Option<&PlaylistPickerState>)
        ensures
            picker.deep_view() == self@.playlist_picker,
    {
        self.playlist_picker.as_ref()
    }

    /// Populate the open video track picker (called by the loop on response).
    pub fn set_video_track_picker_entries(&mut self, entries: Vec<TrackPickerEntry>)
        ensures
            final(self)@ == old(self)@.track_entries_arrived(entries.deep_view()),
    {
        if let Some(picker) = self.video_track_picker.as_mut() {
            picker.entries = Some(entries);
            picker.selected = 0;
        }
    }

    /// Populate the open library picker with the server's full library list,
    /// marking each entry's current visibility.
    pub fn set_library_picker_entries(&mut self, entries: Vec<(String, String, bool)>)
        ensures
            final(self)@ == old(self)@.library_entries_arrived(entries.deep_view()),
    {
        if let Some(picker) = self.library_picker.as_mut() {
            picker.entries = entries;
            picker.loading = false;
            picker.selected = 0;
        }
    }

    /// Populate the open playlist picker with the user's playlists.
    pub fn set_playlist_picker_entries(&mut self, entries: Vec<(String, String)>)
        ensures
            final(self)@ == old(self)@.playlist_entries_arrived(entries.deep_view()),
    {
        if let Some(picker) = self.playlist_picker.as_mut() {
            picker.entries = Some(entries);
            picker.selected = 0;
        }
    }

    /// Replace `libraries` after a sync. Resets the drill stack to the active
    /// library's root; falls back to library 0 if the previous selection's id
    /// no longer exists.
    pub fn replace_libraries(&mut self, libraries: Vec<Library>)
        ensures
            final(self)@ == old(self)@.libraries_replaced(libraries.deep_view()),
    {
        let previous = match self.current_library() {
            Some(library) => Some(library.id.clone()),
            None => None,
        };
        self.libraries = libraries;
        self.library_selected = match previous {
            Some(id) => match self.library_position(id.as_str()) {
                Some(index) => index,
                None => 0,
            },
            None => 0,
        };
        self.reset_stack_for_library();
        self.set_status("Sync complete");
    }

    /// A key while the visible-library picker is open.
    pub fn handle_library_picker_key(&mut self, key: KeyEvent)
        requires
            old(self)@.library_picker matches Some(picker) ==> picker.valid(),
        ensures
            final(self)@ == old(self)@.library_picker_key(key.code),
    {
        let (loading, len) = match &self.library_picker {
            Some(picker) => (picker.loading, picker.entries.len()),
            None => {
                return ;
            },
        };
        if loading {
            if key.code == KeyCode::Esc {
                self.close_library_picker();
            }
        } else if len == 0 {
            if key.code == KeyCode::Esc || key.code == KeyCode::Enter {
                self.close_library_picker();
            }
        } else if key.code == KeyCode::Esc {
            self.close_library_picker();
        } else if key.code == KeyCode::Enter {
            let visible = match &self.library_picker {
                Some(picker) => picker.visible_ids(),
                None => Vec::new(),
            };
            self.save_visible_libraries(visible);
        } else {
            self.edit_library_picker(key.code);
        }
    }

    /// Record the picked track for its video.
    fn record_track_choice(
        &mut self,
        item_id: String,
        item_name: String,
        kind: VideoTrackKind,
        entry: TrackPickerEntry,
    )
        ensures
            final(self)@ == old(self)@.track_picked(
                (VideoTrackPickerModel {
                    item_id: item_id@,
                    item_name: item_name@,
                    kind,
                    entries: None,
                    selected: 0,
                }),
                entry@,
            ),
    {
        self.video_track_picker = None;
        let mut selection = match self.video_track_selections.get(item_id.as_str()) {
            Some(selection) => selection.clone(),
            None => VideoTrackSelection::default(),
        };
        match kind {
            VideoTrackKind::Audio => {
                selection.audio = entry.choice;
            },
            VideoTrackKind::Subtitle => {
                selection.subtitle = entry.choice;
            },
        }
        self.video_track_selections.insert(item_id, selection);
        assert(self.video_track_selections.deep_view()
            =~= old(self)@.video_track_selections.insert(
            item_id@,
            old(self)@.selection_for(item_id@).with_choice(kind, entry@),
        ));
        let mut note = concat4(
            match kind {
                VideoTrackKind::Audio => "Audio",
                VideoTrackKind::Subtitle => "Subtitles",
            },
            " → ",
            entry.label.as_str(),
            " (",
        );
        note.append(item_name.as_str());
        note.append(")");
        self.set_status(note.as_str());
    }

    /// A key while the video track picker is open.
    pub fn handle_video_track_picker_key(&mut self, key: KeyEvent)
        requires
            old(self)@.video_track_picker matches Some(picker) ==> picker.valid(),
        ensures
            final(self)@ == old(self)@.track_picker_key(key.code),
    {
        let (rows, selected) = match &self.video_track_picker {
            Some(picker) => (
                match &picker.entries {
                    Some(entries) => Some(entries.len()),
                    None => None,
                },
                picker.selected,
            ),
            None => {
                return ;
            },
        };
        let len: usize = match rows {
            Some(len) => len,
            None => {
                if key.code == KeyCode::Esc {
                    self.close_track_picker();
                }
                return ;
            },
        };
        if len == 0 {
            if key.code == KeyCode::Esc || key.code == KeyCode::Enter {
                self.close_track_picker();
            }
            return ;
        }
        match key.code {
            KeyCode::Esc => self.close_track_picker(),
            KeyCode::Up => self.select_track_row(above(selected)),
            KeyCode::Down => self.select_track_row(below(selected, len)),
            KeyCode::Enter => {
                let picked = match &self.video_track_picker {
                    Some(picker) => match &picker.entries {
                        Some(entries) => Some(
                            (
                                picker.item_id.clone(),
                                picker.item_name.clone(),
                                picker.kind,
                                entries[selected].clone(),
                            ),
                        ),
                        None => None,
                    },
                    None => None,
                };
                if let Some((item_id, item_name, kind, entry)) = picked {
                    self.record_track_choice(item_id, item_name, kind, entry);
                }
            },
            _ => {},
        }
    }

    /// A key while the playlist picker is open.
    pub fn handle_playlist_picker_key(&mut self, key: KeyEvent)
        requires
            old(self)@.playlist_picker matches Some(picker) ==> picker.valid(),
        ensures
            final(self)@ == old(self)@.playlist_picker_key(key.code),
    {
        let (rows, selected) = match &self.playlist_picker {
            Some(picker) => (
                match &picker.entries {
                    Some(entries) => Some(entries.len()),
                    None => None,
                },
                picker.selected,
            ),
            None => {
                return ;
            },
        };
        let len: usize = match rows {
            Some(len) => len,
            None => {
                if key.code == KeyCode::Esc {
                    self.close_playlist_picker();
                }
                return ;
            },
        };
        if len == 0 {
            if key.code == KeyCode::Esc || key.code == KeyCode::Enter {
                self.close_playlist_picker();
            }
            return ;
        }
        match key.code {
            KeyCode::Esc => self.close_playlist_picker(),
            KeyCode::Up => self.select_playlist_row(above(selected)),
            KeyCode::Down => self.select_playlist_row(below(selected, len)),
            KeyCode::Enter => {
                let picked = match &self.playlist_picker {
                    Some(picker) => match &picker.entries {
                        Some(entries) => Some(
                            (
                                entries[selected].0.clone(),
                                entries[selected].1.clone(),
                                picker.target_item_id.clone(),
                                picker.target_item_name.clone(),
                            ),
                        ),
                        None => None,
                    },
                    None => None,
                };
                if let Some((playlist_id, playlist_name, item_id, item_name)) = picked {
                    self.add_to_playlist(playlist_id, playlist_name, item_id, item_name);
                }
            },
            _ => {},
        }
    }
}

/// Marking a library twice leaves the picker as it was.
pub proof fn toggling_a_library_twice_restores_it(picker: LibraryPickerModel)
    requires
        picker.selected < picker.entries.len(),
    ensures
        picker.edited(KeyCode::Char(' ')).edited(KeyCode::Char(' ')) == picker,
{
    assert(picker.edited(KeyCode::Char(' ')).edited(KeyCode::Char(' ')).entries
        =~= picker.entries);
}

/// The track picked for a video is the one its next launch plays.
pub proof fn picked_track_is_played(
    app: AppModel,
    picker: VideoTrackPickerModel,
    entry: TrackEntryModel,
)
    ensures
        app.track_picked(picker, entry).selection_for(picker.item_id) == app.selection_for(
            picker.item_id,
        ).with_choice(picker.kind, entry),
{
}

} // verus!
