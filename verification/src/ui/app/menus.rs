//! What the popup menus and pickers list.

use vstd::prelude::*;
use vstd::string::*;

use super::labels;
use super::labels::{
    eq_preset_label, format_remaining, go_to_album_label, go_to_artist_label, on_off,
    sleep_timer_menu_label, track_choice_label,
};
use super::sections;
use super::state::{App, AppModel};
use super::types;
use super::types::{
    ClientMenuAction, ItemDetail, ItemDetailModel, ItemMenuAction, ItemModel, LibraryPickerModel,
    LibraryPickerState, MediaKind, PersonModel, PlaylistPickerModel, PlaylistPickerState, PopupMenu,
    SectionFilters, SectionFiltersModel, SleepTimer, VideoTrackKind, VideoTrackPickerModel,
    VideoTrackPickerState, VideoTrackSelection,
};
use crate::sequences;
use crate::sequences::push_deep;
use crate::text;
use crate::text::{concat2, decimal_text, same_text};

verus! {

/// A menu entry, if it is shown.
pub open spec fn entry_if<A>(show: bool, label: Seq<char>, action: A) -> Seq<(Seq<char>, A)> {
    if show {
        seq![(label, action)]
    } else {
        Seq::empty()
    }
}

/// A menu entry, if it has a label.
pub open spec fn entry_of<A>(label: Option<Seq<char>>, action: A) -> Seq<(Seq<char>, A)> {
    match label {
        Some(shown) => seq![(shown, action)],
        None => Seq::empty(),
    }
}

/// Whether a person can be browsed by and shown: they have an id and a name.
pub open spec fn is_browsable() -> spec_fn(PersonModel) -> bool {
    |person: PersonModel| person.id is Some && person.name.len() > 0
}

/// Whether a text is the unplayed filter.
pub open spec fn is_unplayed() -> spec_fn(Seq<char>) -> bool {
    |filter: Seq<char>| filter == "IsUnplayed"@
}

/// The first genre of an item.
pub open spec fn first_genre(detail: Option<ItemDetailModel>) -> Option<Seq<char>> {
    match detail {
        Some(known) => if known.genres.len() > 0 {
            Some(known.genres[0])
        } else {
            None
        },
        None => None,
    }
}

/// The first trailer of an item.
pub open spec fn first_trailer(detail: Option<ItemDetailModel>) -> Option<Seq<char>> {
    match detail {
        Some(known) => if known.trailer_urls.len() > 0 {
            Some(known.trailer_urls[0])
        } else {
            None
        },
        None => None,
    }
}

/// The name of the first person that can be browsed by.
pub open spec fn first_browsable(detail: Option<ItemDetailModel>) -> Option<Seq<char>> {
    match detail {
        Some(known) => match sequences::first_index(known.cast, is_browsable()) {
            Some(i) => Some(known.cast[i].name),
            None => None,
        },
        None => None,
    }
}

/// `prefix` in front of a text, if there is one.
pub open spec fn prefixed(prefix: Seq<char>, rest: Option<Seq<char>>) -> Option<Seq<char>> {
    match rest {
        Some(shown) => Some(prefix + shown),
        None => None,
    }
}

impl SectionFiltersModel {
    /// The runtime sort order's name.
    pub open spec fn sort_name(self) -> Seq<char> {
        match sections::first_key(self.sort_override) {
            Some(key) => key,
            None => "Section default"@,
        }
    }

    /// Whether only unplayed items are listed.
    pub open spec fn only_unplayed(self) -> bool {
        sequences::first_index(self.filters, is_unplayed()) is Some
    }

    /// Whether anything is filtered or sorted otherwise.
    pub open spec fn any_active(self) -> bool {
        self.genres.len() > 0 || self.person_ids.len() > 0 || self.studio_ids.len() > 0
            || self.years.len() > 0 || self.tags.len() > 0 || self.filters.len() > 0
            || self.sort_override is Some
    }
}

impl AppModel {
    /// The entries of the per-item popup for one item.
    pub open spec fn item_menu_for(self, item: ItemModel) -> Seq<(Seq<char>, ItemMenuAction)> {
        let audio = item.media() == MediaKind::Audio;
        let video = item.media() == MediaKind::Video;
        let playable = !item.is_folder && (audio || video);
        let detail = self.shown_detail();
        let selection = self.selection_for(item.id);
        Seq::<(Seq<char>, ItemMenuAction)>::empty() + entry_if(
            audio,
            "Show lyrics"@,
            ItemMenuAction::ShowLyrics,
        ) + entry_if(
            true,
            if audio {
                "Show info"@
            } else {
                "Load info"@
            },
            ItemMenuAction::LoadInfo,
        ) + entry_if(playable, "Play"@, ItemMenuAction::Play) + entry_if(
            true,
            if item.is_favorite {
                "Remove from favorites"@
            } else {
                "Add to favorites"@
            },
            ItemMenuAction::ToggleFavorite,
        ) + entry_if(
            playable,
            if item.is_played {
                "Mark unplayed"@
            } else {
                "Mark played"@
            },
            ItemMenuAction::TogglePlayed,
        ) + entry_of(
            prefixed("Browse by genre: "@, first_genre(detail)),
            ItemMenuAction::BrowseByGenre,
        ) + entry_of(
            prefixed("Browse by person: "@, first_browsable(detail)),
            ItemMenuAction::BrowseByPerson,
        ) + entry_of(labels::artist_entry(item), ItemMenuAction::GoToArtist) + entry_of(
            labels::album_entry(item),
            ItemMenuAction::GoToAlbum,
        ) + entry_if(true, "Add to playlist…"@, ItemMenuAction::AddToPlaylist) + entry_if(
            audio,
            "Play next"@,
            ItemMenuAction::PlayNext,
        ) + entry_if(audio, "Add to queue"@, ItemMenuAction::AddToQueue) + entry_if(
            audio,
            "Instant mix"@,
            ItemMenuAction::InstantMix,
        ) + entry_if(audio, "Genre radio"@, ItemMenuAction::GenreRadio) + entry_if(
            audio,
            "Save queue as playlist…"@,
            ItemMenuAction::SaveQueueAsPlaylist,
        ) + entry_if(audio, "Dislike track"@, ItemMenuAction::Dislike) + entry_if(
            first_trailer(detail) is Some,
            "Watch trailer"@,
            ItemMenuAction::WatchTrailer,
        ) + entry_if(
            video,
            "Audio track: "@ + labels::choice_text(selection.audio),
            ItemMenuAction::AudioTrack,
        ) + entry_if(
            video,
            "Subtitles: "@ + labels::choice_text(selection.subtitle),
            ItemMenuAction::Subtitles,
        ) + entry_if(
            true,
            "Shuffle: "@ + labels::on_off_text(self.shuffle),
            ItemMenuAction::ToggleShuffle,
        ) + entry_if(true, "Repeat: "@ + self.repeat_mode.text(), ItemMenuAction::CycleRepeat)
            + entry_if(
            true,
            labels::sleep_menu_text(self.sleep_timer, self.sleep_remaining_secs),
            ItemMenuAction::OpenSleepTimerPicker,
        ) + entry_if(true, "Copy URL to clipboard"@, ItemMenuAction::CopyUrl)
    }

    /// The entries of the per-item popup.
    pub open spec fn item_menu(self) -> Seq<(Seq<char>, ItemMenuAction)> {
        match self.current_item() {
            Some(item) => self.item_menu_for(item),
            None => Seq::empty(),
        }
    }

    /// The runtime filters of the active library.
    pub open spec fn current_filters(self) -> SectionFiltersModel {
        match self.current_library() {
            Some(library) => self.filters_for(library.id),
            None => SectionFiltersModel::none(),
        }
    }

    /// The entries of the client-settings popup.
    pub open spec fn client_menu(self) -> Seq<(Seq<char>, ClientMenuAction)> {
        let filters = self.current_filters();
        seq![
            ("Theme…"@, ClientMenuAction::Themes),
            ("Sync with server now"@, ClientMenuAction::SyncNow),
            ("Visible libraries…"@, ClientMenuAction::VisibleLibraries),
            ("Sort by: "@ + filters.sort_name(), ClientMenuAction::CycleSort),
            (
                "Show only unplayed: "@ + labels::on_off_text(filters.only_unplayed()),
                ClientMenuAction::ToggleUnplayed,
            ),
            (
                if filters.any_active() {
                    "Clear filters (active)"@
                } else {
                    "Clear filters (none)"@
                },
                ClientMenuAction::ClearFilters,
            ),
            (
                "Gapless audio: "@ + labels::on_off_text(self.gapless),
                ClientMenuAction::ToggleGapless,
            ),
            (
                "Volume normalization: "@ + labels::on_off_text(self.normalization),
                ClientMenuAction::ToggleNormalization,
            ),
            ("EQ: "@ + labels::eq_text(self.eq_preset), ClientMenuAction::CycleEqPreset),
            (
                "Custom mpv args: "@ + text::decimal(self.mpv_arg_count as nat),
                ClientMenuAction::ShowMpvArgs,
            ),
            ("Quit"@, ClientMenuAction::Quit),
        ]
    }

    /// How the sleep-timer overlay names a choice.
    pub open spec fn preset_text(self, preset: SleepTimer) -> Seq<char> {
        let name = if preset == SleepTimer::Off && self.sleep_timer != SleepTimer::Off {
            "Cancel timer"@
        } else {
            preset.text()
        };
        if preset == self.sleep_timer {
            match self.sleep_remaining_secs {
                Some(secs) => name + "  · "@ + labels::remaining_text(secs) + " left"@,
                None => if preset != SleepTimer::Off {
                    name + "  · active"@
                } else {
                    name
                },
            }
        } else {
            name
        }
    }

    /// The entries of the sleep-timer overlay.
    pub open spec fn sleep_menu(self) -> Seq<(Seq<char>, SleepTimer)> {
        types::sleep_presets().map_values(|preset: SleepTimer| (self.preset_text(preset), preset))
    }

    /// The title, the labels and the highlighted entry of the open popup.
    pub open spec fn popup_shown(self) -> Option<(Seq<char>, Seq<Seq<char>>, usize)> {
        match self.popup {
            Some(PopupMenu::Item(selected)) => Some(
                ("Actions"@, menu_labels(self.item_menu()), selected),
            ),
            Some(PopupMenu::Client(selected)) => Some(
                ("Client settings"@, menu_labels(self.client_menu()), selected),
            ),
            Some(PopupMenu::SleepTimer(selected)) => Some(
                ("Sleep timer"@, menu_labels(self.sleep_menu()), selected),
            ),
            None => None,
        }
    }
}

/// The labels of a menu.
pub open spec fn menu_labels<A>(menu: Seq<(Seq<char>, A)>) -> Seq<Seq<char>> {
    menu.map_values(|entry: (Seq<char>, A)| entry.0)
}

fn add_entry<A: DeepView>(entries: &mut Vec<(String, A)>, show: bool, label: String, action: A)
    ensures
        final(entries).deep_view() == old(entries).deep_view() + entry_if(
            show,
            label@,
            action.deep_view(),
        ),
{
    if show {
        push_deep(entries, (label, action));
    }
    assert(entries.deep_view() =~= old(entries).deep_view() + entry_if(
        show,
        label@,
        action.deep_view(),
    ));
}

fn add_optional<A: DeepView>(entries: &mut Vec<(String, A)>, label: Option<String>, action: A)
    ensures
        final(entries).deep_view() == old(entries).deep_view() + entry_of(
            label.deep_view(),
            action.deep_view(),
        ),
{
    if let Some(label) = label {
        push_deep(entries, (label, action));
    }
    assert(entries.deep_view() =~= old(entries).deep_view() + entry_of(
        label.deep_view(),
        action.deep_view(),
    ));
}

fn labels_of<A: DeepView>(entries: Vec<(String, A)>) -> (shown: Vec<String>)
    ensures
        shown.deep_view() == menu_labels(entries.deep_view()),
{
    let ghost goal = menu_labels(entries.deep_view());
    let mut shown: Vec<String> = Vec::new();
    let mut i: usize = 0;
    while i < entries.len()
        invariant
            i <= entries@.len(),
            goal == menu_labels(entries.deep_view()),
            shown.deep_view() =~= goal.take(i as int),
        decreases entries@.len() - i,
    {
        push_deep(&mut shown, entries[i].0.clone());
        proof {
            sequences::lemma_take_push(goal, i as int);
        }
        i = i + 1;
    }
    proof {
        sequences::lemma_take_all(goal);
    }
    shown
}

/// The first genre of an item.
pub(crate) fn first_genre_of(detail: Option<&ItemDetail>) -> (genre: Option<String>)
    ensures
        genre.deep_view() == first_genre(detail.deep_view()),
{
    match detail {
        Some(known) => if known.genres.len() > 0 {
            Some(known.genres[0].clone())
        } else {
            None
        },
        None => None,
    }
}

/// The first trailer of an item.
pub(crate) fn first_trailer_of(detail: Option<&ItemDetail>) -> (url: Option<String>)
    ensures
        url.deep_view() == first_trailer(detail.deep_view()),
{
    match detail {
        Some(known) => if known.trailer_urls.len() > 0 {
            Some(known.trailer_urls[0].clone())
        } else {
            None
        },
        None => None,
    }
}

fn first_browsable_of(detail: Option<&ItemDetail>) -> (name: Option<String>)
    ensures
        name.deep_view() == first_browsable(detail.deep_view()),
{
    let known = match detail {
        Some(known) => known,
        None => {
            return None;
        },
    };
    let ghost p = is_browsable();
    let ghost models = known.cast.deep_view();
    let mut i: usize = 0;
    while i < known.cast.len()
        invariant
            i <= known.cast@.len(),
            models == known.cast.deep_view(),
            detail.deep_view() == Some(known@),
            p == is_browsable(),
            forall|j: int| 0 <= j < i ==> !p(#[trigger] models[j]),
        decreases known.cast@.len() - i,
    {
        if known.cast[i].id.is_some() && !known.cast[i].name.as_str().is_empty() {
            proof {
                sequences::lemma_first_index_found(models, p, i as int);
            }
            return Some(known.cast[i].name.clone());
        }
        i = i + 1;
    }
    proof {
        sequences::lemma_first_index_missing(models, p);
    }
    None
}

fn prefixed_text(prefix: &str, rest: Option<String>) -> (label: Option<String>)
    ensures
        label.deep_view() == prefixed(prefix@, rest.deep_view()),
{
    match rest {
        Some(shown) => Some(concat2(prefix, shown.as_str())),
        None => None,
    }
}

impl SectionFilters {
    /// The runtime sort order's name.
    pub fn sort_name(&self) -> (name: String)
        ensures
            name@ == self@.sort_name(),
    {
        match &self.sort_override {
            Some(keys) => if keys.len() > 0 {
                keys[0].clone()
            } else {
                "Section default".to_owned()
            },
            None => "Section default".to_owned(),
        }
    }

    /// Where the unplayed filter stands, if it is set.
    pub fn unplayed_position(&self) -> (position: Option<usize>)
        ensures
            match position {
                Some(i) => sequences::first_index(self@.filters, is_unplayed()) == Some(i as int)
                    && i < self@.filters.len(),
                None => sequences::first_index(self@.filters, is_unplayed()) is None,
            },
    {
        let ghost p = is_unplayed();
        let ghost models = self@.filters;
        let mut i: usize = 0;
        while i < self.filters.len()
            invariant
                i <= self.filters@.len(),
                models == self.filters.deep_view(),
                p == is_unplayed(),
                forall|j: int| 0 <= j < i ==> !p(#[trigger] models[j]),
            decreases self.filters@.len() - i,
        {
            if same_text(self.filters[i].as_str(), "IsUnplayed") {
                proof {
                    sequences::lemma_first_index_found(models, p, i as int);
                }
                return Some(i);
            }
            i = i + 1;
        }
        proof {
            sequences::lemma_first_index_missing(models, p);
        }
        None
    }

    /// Whether anything is filtered or sorted otherwise.
    pub fn any_active(&self) -> (active: bool)
        ensures
            active == self@.any_active(),
    {
        self.genres.len() > 0 || self.person_ids.len() > 0 || self.studio_ids.len() > 0
            || self.years.len() > 0 || self.tags.len() > 0 || self.filters.len() > 0
            || self.sort_override.is_some()
    }
}

impl App {
    /// The tracks picked for a video.
    pub(crate) fn selection_for(&self, item_id: &str) -> (selection: VideoTrackSelection)
        ensures
            selection@ == self@.selection_for(item_id@),
    {
        match self.video_track_selections.get(item_id) {
            Some(selection) => selection.clone(),
            None => VideoTrackSelection::default(),
        }
    }

    /// The runtime filters of a library.
    pub(crate) fn filters_for(&self, library_id: &str) -> (filters: SectionFilters)
        ensures
            filters@ == self@.filters_for(library_id@),
    {
        match self.section_filters.get(library_id) {
            Some(filters) => filters.clone(),
            None => SectionFilters::default(),
        }
    }

    /// The runtime filters of the active library.
    pub(crate) fn current_filters(&self) -> (filters: SectionFilters)
        ensures
            filters@ == self@.current_filters(),
    {
        match self.current_library() {
            Some(library) => self.filters_for(library.id.as_str()),
            None => SectionFilters::default(),
        }
    }

    /// Entries shown in the per-item popup. Built from the focused item so the
    /// list reflects what's actually possible (e.g. Play is hidden on folders).
    pub fn item_menu_entries(&self) -> (entries: Vec<(String, ItemMenuAction)>)
        ensures
            entries.deep_view() == self@.item_menu(),
    {
        let mut entries: Vec<(String, ItemMenuAction)> = Vec::new();
        assert(entries.deep_view() =~= Seq::empty());
        let item = match self.current_item() {
            Some(item) => item,
            None => {
                return entries;
            },
        };
        let detail = self.current_detail();
        let audio = item.media() == MediaKind::Audio;
        let video = item.media() == MediaKind::Video;
        let playable = !item.is_folder && (audio || video);
        // Both view entries are present for audio so the user can always pick
        // either lyrics or info; each entry switches the context pane to its
        // view and fetches the data it needs.
        add_entry(&mut entries, audio, "Show lyrics".to_owned(), ItemMenuAction::ShowLyrics);
        add_entry(
            &mut entries,
            true,
            if audio {
                "Show info".to_owned()
            } else {
                "Load info".to_owned()
            },
            ItemMenuAction::LoadInfo,
        );
        add_entry(&mut entries, playable, "Play".to_owned(), ItemMenuAction::Play);
        add_entry(
            &mut entries,
            true,
            if item.is_favorite {
                "Remove from favorites".to_owned()
            } else {
                "Add to favorites".to_owned()
            },
            ItemMenuAction::ToggleFavorite,
        );
        add_entry(
            &mut entries,
            playable,
            if item.is_played {
                "Mark unplayed".to_owned()
            } else {
                "Mark played".to_owned()
            },
            ItemMenuAction::TogglePlayed,
        );
        add_optional(
            &mut entries,
            prefixed_text("Browse by genre: ", first_genre_of(detail)),
            ItemMenuAction::BrowseByGenre,
        );
        add_optional(
            &mut entries,
            prefixed_text("Browse by person: ", first_browsable_of(detail)),
            ItemMenuAction::BrowseByPerson,
        );
        add_optional(&mut entries, go_to_artist_label(item), ItemMenuAction::GoToArtist);
        add_optional(&mut entries, go_to_album_label(item), ItemMenuAction::GoToAlbum);
        add_entry(
            &mut entries,
            true,
            "Add to playlist…".to_owned(),
            ItemMenuAction::AddToPlaylist,
        );
        add_entry(&mut entries, audio, "Play next".to_owned(), ItemMenuAction::PlayNext);
        add_entry(&mut entries, audio, "Add to queue".to_owned(), ItemMenuAction::AddToQueue);
        add_entry(&mut entries, audio, "Instant mix".to_owned(), ItemMenuAction::InstantMix);
        add_entry(&mut entries, audio, "Genre radio".to_owned(), ItemMenuAction::GenreRadio);
        add_entry(
            &mut entries,
            audio,
            "Save queue as playlist…".to_owned(),
            ItemMenuAction::SaveQueueAsPlaylist,
        );
        add_entry(&mut entries, audio, "Dislike track".to_owned(), ItemMenuAction::Dislike);
        add_entry(
            &mut entries,
            first_trailer_of(detail).is_some(),
            "Watch trailer".to_owned(),
            ItemMenuAction::WatchTrailer,
        );
        let selection = self.selection_for(item.id.as_str());
        add_entry(
            &mut entries,
            video,
            concat2("Audio track: ", track_choice_label(selection.audio).as_str()),
            ItemMenuAction::AudioTrack,
        );
        add_entry(
            &mut entries,
            video,
            concat2("Subtitles: ", track_choice_label(selection.subtitle).as_str()),
            ItemMenuAction::Subtitles,
        );
        add_entry(
            &mut entries,
            true,
            concat2("Shuffle: ", on_off(self.shuffle)),
            ItemMenuAction::ToggleShuffle,
        );
        add_entry(
            &mut entries,
            true,
            concat2("Repeat: ", self.repeat_mode.label()),
            ItemMenuAction::CycleRepeat,
        );
        add_entry(
            &mut entries,
            true,
            sleep_timer_menu_label(self.sleep_timer, self.sleep_remaining_secs),
            ItemMenuAction::OpenSleepTimerPicker,
        );
        add_entry(
            &mut entries,
            true,
            "Copy URL to clipboard".to_owned(),
            ItemMenuAction::CopyUrl,
        );
        entries
    }

    /// Entries shown in the client-settings popup. Labels carry the current
    /// state so the user can see what they'd be toggling.
    pub fn client_menu_entries(&self) -> (entries: Vec<(String, ClientMenuAction)>)
        ensures
            entries.deep_view() == self@.client_menu(),
    {
        let filters = self.current_filters();
        let unplayed = filters.unplayed_position().is_some();
        let mut entries: Vec<(String, ClientMenuAction)> = Vec::new();
        push_deep(&mut entries, ("Theme…".to_owned(), ClientMenuAction::Themes));
        push_deep(
            &mut entries,
            ("Sync with server now".to_owned(), ClientMenuAction::SyncNow),
        );
        push_deep(
            &mut entries,
            ("Visible libraries…".to_owned(), ClientMenuAction::VisibleLibraries),
        );
        push_deep(
            &mut entries,
            (
                concat2("Sort by: ", filters.sort_name().as_str()),
                ClientMenuAction::CycleSort,
            ),
        );
        push_deep(
            &mut entries,
            (
                concat2("Show only unplayed: ", on_off(unplayed)),
                ClientMenuAction::ToggleUnplayed,
            ),
        );
        push_deep(
            &mut entries,
            (
                if filters.any_active() {
                    "Clear filters (active)".to_owned()
                } else {
                    "Clear filters (none)".to_owned()
                },
                ClientMenuAction::ClearFilters,
            ),
        );
        push_deep(
            &mut entries,
            (concat2("Gapless audio: ", on_off(self.gapless)), ClientMenuAction::ToggleGapless),
        );
        push_deep(
            &mut entries,
            (
                concat2("Volume normalization: ", on_off(self.normalization)),
                ClientMenuAction::ToggleNormalization,
            ),
        );
        push_deep(
            &mut entries,
            (
                concat2("EQ: ", eq_preset_label(self.eq_preset)),
                ClientMenuAction::CycleEqPreset,
            ),
        );
        push_deep(
            &mut entries,
            (
                concat2("Custom mpv args: ", decimal_text(self.mpv_arg_count as u64).as_str()),
                ClientMenuAction::ShowMpvArgs,
            ),
        );
        push_deep(&mut entries, ("Quit".to_owned(), ClientMenuAction::Quit));
        assert(entries.deep_view() =~= self@.client_menu());
        entries
    }

    fn preset_label(&self, preset: SleepTimer) -> (label: String)
        ensures
            label@ == self@.preset_text(preset),
    {
        let mut label = if preset == SleepTimer::Off && self.sleep_timer != SleepTimer::Off {
            "Cancel timer".to_owned()
        } else {
            preset.label().to_owned()
        };
        if preset == self.sleep_timer {
            if let Some(secs) = self.sleep_remaining_secs {
                label.append("  · ");
                label.append(format_remaining(secs).as_str());
                label.append(" left");
            } else if preset != SleepTimer::Off {
                label.append("  · active");
            }
        }
        label
    }

    /// Entries of the sleep-timer overlay. `Off` reads "Cancel timer" while a timer
    /// is armed; the active choice shows what is left of it.
    pub fn sleep_timer_entries(&self) -> (entries: Vec<(String, SleepTimer)>)
        ensures
            entries.deep_view() == self@.sleep_menu(),
    {
        let presets = SleepTimer::presets();
        let ghost goal = self@.sleep_menu();
        let mut entries: Vec<(String, SleepTimer)> = Vec::new();
        let mut i: usize = 0;
        while i < presets.len()
            invariant
                i <= presets@.len(),
                presets@ == types::sleep_presets(),
                goal == self@.sleep_menu(),
                entries.deep_view() =~= goal.take(i as int),
            decreases presets@.len() - i,
        {
            push_deep(&mut entries, (self.preset_label(presets[i]), presets[i]));
            proof {
                sequences::lemma_take_push(goal, i as int);
            }
            i = i + 1;
        }
        proof {
            sequences::lemma_take_all(goal);
        }
        entries
    }

    /// Popup state for the renderer: which menu is open and which entry is highlighted.
    pub fn popup_menu(&self) -> (popup: Option<(&'static str, Vec<String>, usize)>)
        ensures
            popup.deep_view() == self@.popup_shown(),
    {
        match self.popup {
            Some(PopupMenu::Item(selected)) => {
                let entries = labels_of(self.item_menu_entries());
                Some(("Actions", entries, selected))
            },
            Some(PopupMenu::Client(selected)) => {
                let entries = labels_of(self.client_menu_entries());
                Some(("Client settings", entries, selected))
            },
            Some(PopupMenu::SleepTimer(selected)) => {
                let entries = labels_of(self.sleep_timer_entries());
                Some(("Sleep timer", entries, selected))
            },
            None => None,
        }
    }
}

/// One line only.
pub open spec fn single_row(row: Seq<char>) -> Seq<Seq<char>> {
    seq![row]
}

fn single(row: &str) -> (rows: Vec<String>)
    ensures
        rows.deep_view() == single_row(row@),
{
    let mut rows: Vec<String> = Vec::new();
    push_deep(&mut rows, row.to_owned());
    assert(rows.deep_view() =~= single_row(row@));
    rows
}

/// A library in the visible-library picker.
pub open spec fn library_row(entry: (Seq<char>, Seq<char>, bool)) -> Seq<char> {
    (if entry.2 {
        "[x] "@
    } else {
        "[ ] "@
    }) + entry.1
}

impl LibraryPickerModel {
    /// The picker as a popup: title, rows, highlighted row.
    pub open spec fn shown(self) -> (Seq<char>, Seq<Seq<char>>, usize) {
        if self.loading {
            (
                "Visible libraries — Space toggle, Enter save, Esc cancel"@,
                single_row("Loading…"@),
                0,
            )
        } else if self.entries.len() == 0 {
            ("Visible libraries"@, single_row("No libraries on server"@), 0)
        } else {
            (
                "Visible libraries — Space toggle, Enter save, Esc cancel"@,
                self.entries.map_values(|entry: (Seq<char>, Seq<char>, bool)| library_row(entry)),
                self.selected,
            )
        }
    }
}

/// Materialise the visible-library picker into the (title, entries, selected)
/// shape of a popup menu.
pub fn render_library_picker_data(picker: &LibraryPickerState) -> (shown: (
    &'static str,
    Vec<String>,
    usize,
))
    ensures
        shown.deep_view() == picker@.shown(),
{
    if picker.loading {
        return (
            "Visible libraries — Space toggle, Enter save, Esc cancel",
            single("Loading…"),
            0,
        );
    }
    if picker.entries.len() == 0 {
        return ("Visible libraries", single("No libraries on server"), 0);
    }
    let ghost goal = picker@.entries.map_values(
        |entry: (Seq<char>, Seq<char>, bool)| library_row(entry),
    );
    let mut rows: Vec<String> = Vec::new();
    let mut i: usize = 0;
    while i < picker.entries.len()
        invariant
            i <= picker.entries@.len(),
            goal == picker@.entries.map_values(
                |entry: (Seq<char>, Seq<char>, bool)| library_row(entry),
            ),
            rows.deep_view() =~= goal.take(i as int),
        decreases picker.entries@.len() - i,
    {
        let mark = if picker.entries[i].2 {
            "[x] "
        } else {
            "[ ] "
        };
        push_deep(&mut rows, concat2(mark, picker.entries[i].1.as_str()));
        proof {
            sequences::lemma_take_push(goal, i as int);
        }
        i = i + 1;
    }
    proof {
        sequences::lemma_take_all(goal);
    }
    ("Visible libraries — Space toggle, Enter save, Esc cancel", rows, picker.selected)
}

impl VideoTrackPickerModel {
    /// The picker as a popup: title, rows, highlighted row.
    pub open spec fn shown(self) -> (Seq<char>, Seq<Seq<char>>, usize) {
        let title = match self.kind {
            VideoTrackKind::Audio => "Audio track"@,
            VideoTrackKind::Subtitle => "Subtitles"@,
        };
        match self.entries {
            None => (title, single_row("Loading…"@), 0),
            Some(entries) => if entries.len() == 0 {
                (title, single_row("No tracks reported by server"@), 0)
            } else {
                (
                    title,
                    entries.map_values(|entry: types::TrackEntryModel| entry.label),
                    self.selected,
                )
            },
        }
    }
}

/// Materialise the video track picker into the shape of a popup menu.
pub fn render_video_track_picker_data(picker: &VideoTrackPickerState) -> (shown: (
    &'static str,
    Vec<String>,
    usize,
))
    ensures
        shown.deep_view() == picker@.shown(),
{
    let title = match picker.kind {
        VideoTrackKind::Audio => "Audio track",
        VideoTrackKind::Subtitle => "Subtitles",
    };
    match &picker.entries {
        None => (title, single("Loading…"), 0),
        Some(entries) => {
            if entries.len() == 0 {
                return (title, single("No tracks reported by server"), 0);
            }
            let ghost goal = entries.deep_view().map_values(
                |entry: types::TrackEntryModel| entry.label,
            );
            let mut rows: Vec<String> = Vec::new();
            let mut i: usize = 0;
            while i < entries.len()
                invariant
                    i <= entries@.len(),
                    goal == entries.deep_view().map_values(
                        |entry: types::TrackEntryModel| entry.label,
                    ),
                    rows.deep_view() =~= goal.take(i as int),
                decreases entries@.len() - i,
            {
                push_deep(&mut rows, entries[i].label.clone());
                proof {
                    sequences::lemma_take_push(goal, i as int);
                }
                i = i + 1;
            }
            proof {
                sequences::lemma_take_all(goal);
            }
            (title, rows, picker.selected)
        },
    }
}

impl PlaylistPickerModel {
    /// The picker as a popup: title, rows, highlighted row.
    pub open spec fn shown(self) -> (Seq<char>, Seq<Seq<char>>, usize) {
        match self.entries {
            None => ("Add to playlist"@, single_row("Loading…"@), 0),
            Some(entries) => if entries.len() == 0 {
                ("Add to playlist"@, single_row("No playlists on server"@), 0)
            } else {
                (
                    "Add to playlist"@,
                    entries.map_values(|entry: (Seq<char>, Seq<char>)| entry.1),
                    self.selected,
                )
            },
        }
    }
}

/// Materialise the playlist picker into the (title, entries, selected) shape of a
/// popup menu.
pub fn render_playlist_picker_data(picker: &PlaylistPickerState) -> (shown: (
    &'static str,
    Vec<String>,
    usize,
))
    ensures
        shown.deep_view() == picker@.shown(),
{
    match &picker.entries {
        None => ("Add to playlist", single("Loading…"), 0),
        Some(entries) => {
            if entries.len() == 0 {
                return ("Add to playlist", single("No playlists on server"), 0);
            }
            let ghost goal = entries.deep_view().map_values(
                |entry: (Seq<char>, Seq<char>)| entry.1,
            );
            let mut rows: Vec<String> = Vec::new();
            let mut i: usize = 0;
            while i < entries.len()
                invariant
                    i <= entries@.len(),
                    goal == entries.deep_view().map_values(
                        |entry: (Seq<char>, Seq<char>)| entry.1,
                    ),
                    rows.deep_view() =~= goal.take(i as int),
                decreases entries@.len() - i,
            {
                push_deep(&mut rows, entries[i].1.clone());
                proof {
                    sequences::lemma_take_push(goal, i as int);
                }
                i = i + 1;
            }
            proof {
                sequences::lemma_take_all(goal);
            }
            ("Add to playlist", rows, picker.selected)
        },
    }
}

} // verus!
