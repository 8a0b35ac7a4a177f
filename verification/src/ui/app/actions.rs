//! What the popup menus' entries do, and the keys that drive the menus.

use vstd::prelude::*;
use vstd::string::*;

use super::labels;
use super::labels::{cycle_eq_preset, eq_preset_label, name_or_else, on_off};
use super::menus;
use super::menus::{first_genre_of, first_trailer_of};
use super::navigation::copied;
use super::pickers;
use super::queue;
use super::queue::shuffle_seed;
use super::sections;
use super::sections::next_sort_override;
use super::state::{App, AppModel};
use super::types::{
    ClientMenuAction, ContextTopView, Intent, IntentModel, Item, ItemDetail, ItemDetailModel,
    ItemMenuAction, ItemModel, MediaKind, PersonModel, PopupMenu, SectionFilters,
    SectionFiltersModel, SleepTimer, VideoTrackKind,
};
use crate::config::EqPreset;
use crate::sequences;
use crate::sequences::push_deep;
use crate::text;
use crate::text::{concat2, concat3, decimal_text};
use crate::time;
use crate::time::{clock_label, Duration};
use crate::ui::keymap::{KeyCode, KeyEvent};

verus! {

/// Whether a person can be browsed by.
pub open spec fn has_id() -> spec_fn(PersonModel) -> bool {
    |person: PersonModel| person.id is Some
}

/// Id and name of the first person that can be browsed by.
pub open spec fn first_person(detail: Option<ItemDetailModel>) -> Option<(Seq<char>, Seq<char>)> {
    match detail {
        Some(known) => match sequences::first_index(known.cast, has_id()) {
            Some(i) => match known.cast[i].id {
                Some(id) => Some((id, known.cast[i].name)),
                None => None,
            },
            None => None,
        },
        None => None,
    }
}

/// The name a saved queue gets.
pub open spec fn saved_queue_name(now: Option<Duration>) -> Seq<char> {
    "aquafin queue · "@ + time::utc_text(time::clock_secs(now))
}

/// The ids of a list of items.
pub open spec fn ids_of(items: Seq<ItemModel>) -> Seq<Seq<char>> {
    items.map_values(|item: ItemModel| item.id)
}

/// A folder known by id, name and kind only.
pub open spec fn folder_stub(id: Seq<char>, name: Seq<char>, kind: Seq<char>) -> ItemModel {
    ItemModel { id, name, kind: Some(kind), is_folder: true, ..ItemModel::blank() }
}

impl SectionFiltersModel {
    /// With the next sort order.
    pub open spec fn sort_cycled(self) -> SectionFiltersModel {
        SectionFiltersModel { sort_override: sections::sort_after(self.sort_override), ..self }
    }

    /// With the unplayed filter switched.
    pub open spec fn unplayed_toggled(self) -> SectionFiltersModel {
        match sequences::first_index(self.filters, menus::is_unplayed()) {
            Some(i) => SectionFiltersModel { filters: self.filters.remove(i), ..self },
            None => SectionFiltersModel { filters: self.filters.push("IsUnplayed"@), ..self },
        }
    }
}

impl AppModel {
    /// With the runtime filters of one library set.
    pub open spec fn with_filters(
        self,
        library_id: Seq<char>,
        filters: SectionFiltersModel,
    ) -> AppModel {
        AppModel { section_filters: self.section_filters.insert(library_id, filters), ..self }
    }

    /// With the sort order of the active library cycled.
    pub open spec fn sort_cycled(self) -> AppModel {
        match self.current_library() {
            Some(library) => {
                let filters = self.filters_for(library.id).sort_cycled();
                self.with_filters(library.id, filters).noted(
                    "Sort by: "@ + filters.sort_name(),
                ).section_applied(self.section_selected)
            },
            None => self,
        }
    }

    /// With the unplayed filter of the active library switched.
    pub open spec fn unplayed_toggled(self) -> AppModel {
        match self.current_library() {
            Some(library) => {
                let filters = self.filters_for(library.id);
                self.with_filters(library.id, filters.unplayed_toggled()).noted(
                    if filters.only_unplayed() {
                        "Showing all"@
                    } else {
                        "Showing only unplayed"@
                    },
                ).section_applied(self.section_selected)
            },
            None => self,
        }
    }

    /// With the filters of the active library dropped.
    pub open spec fn filters_cleared(self) -> AppModel {
        match self.current_library() {
            Some(library) => AppModel {
                section_filters: self.section_filters.remove(library.id),
                ..self
            }.noted("Filters cleared"@).section_applied(self.section_selected),
            None => self,
        }
    }

    /// With the active library's first section filtered as given.
    pub open spec fn browsing(
        self,
        library_id: Seq<char>,
        filters: SectionFiltersModel,
        note: Seq<char>,
    ) -> AppModel {
        AppModel { section_selected: 0, ..self.with_filters(library_id, filters) }.noted(
            note,
        ).section_applied(0)
    }

    /// With the active library filtered by the shown item's first genre.
    pub open spec fn genre_browsed(self) -> AppModel {
        match self.current_library() {
            Some(library) => match menus::first_genre(self.shown_detail()) {
                Some(genre) => self.browsing(
                    library.id,
                    SectionFiltersModel { genres: seq![genre], ..self.filters_for(library.id) },
                    "Browsing by genre: "@ + genre,
                ),
                None => self.noted("No genre on this item."@),
            },
            None => self,
        }
    }

    /// With the active library filtered by the shown item's first person.
    pub open spec fn person_browsed(self) -> AppModel {
        match self.current_library() {
            Some(library) => match first_person(self.shown_detail()) {
                Some((id, name)) => self.browsing(
                    library.id,
                    SectionFiltersModel { person_ids: seq![id], ..self.filters_for(library.id) },
                    "Browsing by person: "@ + name,
                ),
                None => self.noted("No person on this item."@),
            },
            None => self,
        }
    }

    /// With the focused track put into the queue, or started if there is no queue.
    pub open spec fn track_queued(self, play_next: bool) -> AppModel {
        match self.current_item() {
            Some(item) => if item.media() != MediaKind::Audio {
                self.noted("Only audio items can be queued."@)
            } else if self.queue.len() == 0 {
                self.queued(
                    IntentModel::Play { item, media: MediaKind::Audio, start_ticks: None },
                )
            } else {
                self.noted(
                    if play_next {
                        "Play next: "@ + item.name
                    } else {
                        "Added to queue: "@ + item.name
                    },
                ).enqueued(item, play_next)
            },
            None => self,
        }
    }

    /// With a radio of the shown item's first genre asked for.
    pub open spec fn radio_started(self) -> AppModel {
        match self.current_library() {
            Some(library) => match menus::first_genre(self.shown_detail()) {
                Some(genre) => self.noted("Genre radio: "@ + genre).queued(
                    IntentModel::GenreRadio { library_id: library.id, genre },
                ),
                None => self.noted("No genre on this item."@),
            },
            None => self,
        }
    }

    /// With a playlist of the queue asked for.
    pub open spec fn queue_saved(self, now: Option<Duration>) -> AppModel {
        if self.queue.len() == 0 {
            self.noted("Queue is empty."@)
        } else {
            let name = saved_queue_name(now);
            self.noted("Saving queue as \""@ + name + "\"…"@).queued(
                IntentModel::CreatePlaylist { name, item_ids: ids_of(self.queue) },
            )
        }
    }

    /// With the shown item's first trailer asked for.
    pub open spec fn trailer_asked(self) -> AppModel {
        match self.current_item() {
            Some(item) => match menus::first_trailer(self.shown_detail()) {
                Some(url) => self.noted("Trailer: "@ + item.name).queued(
                    IntentModel::WatchTrailer { url, title: item.name },
                ),
                None => self.noted("No trailer available for this item."@),
            },
            None => self,
        }
    }

    /// With the focused track's album opened.
    pub open spec fn album_opened(self) -> AppModel {
        match self.current_item() {
            Some(item) => match item.album_id {
                Some(id) => self.drilled_into(
                    folder_stub(
                        id,
                        match item.album_name {
                            Some(name) => name,
                            None => "Album"@,
                        },
                        "MusicAlbum"@,
                    ),
                ),
                None => self.noted("No album on this item."@),
            },
            None => self,
        }
    }

    /// With the focused item's primary artist opened.
    pub open spec fn artist_opened(self) -> AppModel {
        match self.current_item() {
            Some(item) => match item.primary_artist_id {
                Some(id) => self.drilled_into(
                    folder_stub(
                        id,
                        labels::name_or(item.primary_artist_name, "Artist"@),
                        "MusicArtist"@,
                    ),
                ),
                None => self.noted("No artist on this item."@),
            },
            None => self,
        }
    }

    /// With the current item's detail asked for.
    pub open spec fn detail_asked(self) -> AppModel {
        match self.current_item() {
            Some(item) => self.queued(
                IntentModel::LoadCurrentDetail { item_id: item.id, kind: item.kind },
            ),
            None => self,
        }
    }

    /// With the current item's info on display and its detail asked for.
    pub open spec fn info_asked(self) -> AppModel {
        match self.current_item() {
            Some(item) => self.viewing(ContextTopView::Info).queued(
                IntentModel::LoadCurrentDetail { item_id: item.id, kind: item.kind },
            ),
            None => self,
        }
    }

    /// With an instant mix around the current item asked for.
    pub open spec fn mix_asked(self) -> AppModel {
        match self.current_item() {
            Some(item) => self.noted("Instant mix: "@ + item.name).queued(
                IntentModel::InstantMix { item },
            ),
            None => self,
        }
    }

    /// With a dislike of the current item recorded.
    pub open spec fn disliked(self) -> AppModel {
        match self.current_item() {
            Some(item) => self.noted("Disliked: "@ + item.name).queued(
                IntentModel::Dislike { item_id: item.id },
            ),
            None => self,
        }
    }

    /// With the current item's web address asked for.
    pub open spec fn url_asked(self) -> AppModel {
        match self.current_item() {
            Some(item) => self.queued(
                IntentModel::CopyItemUrl { item_id: item.id, item_name: item.name },
            ),
            None => self,
        }
    }

    /// After an entry of the per-item menu, `now` being the time.
    #[verifier::opaque]
    pub open spec fn item_action(self, action: ItemMenuAction, now: Option<Duration>) -> AppModel {
        match action {
            ItemMenuAction::LoadInfo => self.info_asked(),
            ItemMenuAction::ShowLyrics => self.viewing(ContextTopView::Lyrics).detail_asked(),
            ItemMenuAction::Play => self.activated(),
            ItemMenuAction::ToggleFavorite => self.favorite_toggled(),
            ItemMenuAction::TogglePlayed => self.played_toggled(),
            ItemMenuAction::BrowseByGenre => self.genre_browsed(),
            ItemMenuAction::BrowseByPerson => self.person_browsed(),
            ItemMenuAction::GoToAlbum => self.album_opened(),
            ItemMenuAction::GoToArtist => self.artist_opened(),
            ItemMenuAction::PlayNext => self.track_queued(true),
            ItemMenuAction::AddToQueue => self.track_queued(false),
            ItemMenuAction::GenreRadio => self.radio_started(),
            ItemMenuAction::SaveQueueAsPlaylist => self.queue_saved(now),
            ItemMenuAction::WatchTrailer => self.trailer_asked(),
            ItemMenuAction::AddToPlaylist => self.playlist_picker_opened(),
            ItemMenuAction::InstantMix => self.mix_asked(),
            ItemMenuAction::Dislike => self.disliked(),
            ItemMenuAction::AudioTrack => self.track_picker_opened(VideoTrackKind::Audio),
            ItemMenuAction::Subtitles => self.track_picker_opened(VideoTrackKind::Subtitle),
            ItemMenuAction::ToggleShuffle => self.shuffle_toggled(queue::seed_of(now)),
            ItemMenuAction::CycleRepeat => self.repeat_cycled(),
            ItemMenuAction::OpenSleepTimerPicker => self.sleep_picker_open(),
            ItemMenuAction::CopyUrl => self.url_asked(),
        }
    }

    /// With gapless audio switched.
    pub open spec fn gapless_toggled(self) -> AppModel {
        AppModel { gapless: !self.gapless, ..self }.noted(
            "Gapless audio: "@ + labels::on_off_text(!self.gapless),
        ).queued(IntentModel::SetGapless(!self.gapless))
    }

    /// With volume normalization switched.
    pub open spec fn normalization_toggled(self) -> AppModel {
        AppModel { normalization: !self.normalization, ..self }.noted(
            "Volume normalization: "@ + labels::on_off_text(!self.normalization),
        ).queued(IntentModel::SetNormalization(!self.normalization))
    }

    /// With the next equalizer preset.
    pub open spec fn eq_cycled(self) -> AppModel {
        let next = labels::eq_after(self.eq_preset);
        AppModel { eq_preset: next, ..self }.noted("EQ: "@ + labels::eq_text(next)).queued(
            IntentModel::SetEqPreset(next),
        )
    }

    /// After an entry of the client-settings menu.
    #[verifier::opaque]
    pub open spec fn client_action(self, action: ClientMenuAction) -> AppModel {
        match action {
            ClientMenuAction::Themes => self.theme_picker_opened(),
            ClientMenuAction::SyncNow => self.noted("Syncing with server…"@).queued(
                IntentModel::SyncLibraries,
            ),
            ClientMenuAction::VisibleLibraries => self.library_picker_opened(),
            ClientMenuAction::ToggleGapless => self.gapless_toggled(),
            ClientMenuAction::ToggleNormalization => self.normalization_toggled(),
            ClientMenuAction::CycleEqPreset => self.eq_cycled(),
            ClientMenuAction::ShowMpvArgs => self.noted(
                "Custom mpv args: "@ + text::decimal(self.mpv_arg_count as nat)
                    + " (edit [video] mpv_args in config.toml)"@,
            ),
            ClientMenuAction::CycleSort => self.sort_cycled(),
            ClientMenuAction::ToggleUnplayed => self.unplayed_toggled(),
            ClientMenuAction::ClearFilters => self.filters_cleared(),
            ClientMenuAction::Quit => AppModel { should_quit: true, ..self },
        }
    }

    /// With the given popup open, or none.
    pub open spec fn with_popup(self, popup: Option<PopupMenu>) -> AppModel {
        AppModel { popup, ..self }
    }

    /// With the per-item menu open, if there is an item.
    pub open spec fn item_menu_opened(self) -> AppModel {
        match self.current_item() {
            Some(_) => self.with_popup(Some(PopupMenu::Item(0))),
            None => self,
        }
    }

    /// How many entries the open popup has.
    #[verifier::opaque]
    pub open spec fn popup_len(self, popup: PopupMenu) -> nat {
        match popup {
            PopupMenu::Item(_) => self.item_menu().len(),
            PopupMenu::Client(_) => self.client_menu().len(),
            PopupMenu::SleepTimer(_) => self.sleep_menu().len(),
        }
    }

    /// After the highlighted entry of a popup was chosen, the popup being closed.
    #[verifier::opaque]
    pub open spec fn popup_chosen(
        self,
        popup: PopupMenu,
        row: int,
        now: Option<Duration>,
    ) -> AppModel {
        let closed = self.with_popup(None);
        match popup {
            PopupMenu::Item(_) => closed.item_action(closed.item_menu()[row].1, now),
            PopupMenu::Client(_) => closed.client_action(closed.client_menu()[row].1),
            PopupMenu::SleepTimer(_) => closed.sleep_picked(closed.sleep_menu()[row].1),
        }
    }

    /// After a key in the open popup, `now` being the time.
    pub open spec fn popup_key(self, code: KeyCode, now: Option<Duration>) -> AppModel {
        match self.popup {
            Some(popup) => {
                let len = self.popup_len(popup);
                let row = if popup.row() < len {
                    popup.row()
                } else {
                    (len - 1) as usize
                };
                if len == 0 {
                    self.with_popup(None)
                } else {
                    match code {
                        KeyCode::Esc => self.with_popup(None),
                        KeyCode::Up => self.with_popup(
                            Some(popup.at_row(pickers::row_above(row))),
                        ),
                        KeyCode::Down => self.with_popup(
                            Some(popup.at_row(pickers::row_below(row, len))),
                        ),
                        KeyCode::Enter => self.popup_chosen(popup, row as int, now),
                        _ => self,
                    }
                }
            },
            None => self,
        }
    }
}

impl PopupMenu {
    /// The highlighted row.
    pub open spec fn row(self) -> usize {
        match self {
            PopupMenu::Item(row) => row,
            PopupMenu::Client(row) => row,
            PopupMenu::SleepTimer(row) => row,
        }
    }

    /// The same menu with another row highlighted.
    pub open spec fn at_row(self, row: usize) -> PopupMenu {
        match self {
            PopupMenu::Item(_) => PopupMenu::Item(row),
            PopupMenu::Client(_) => PopupMenu::Client(row),
            PopupMenu::SleepTimer(_) => PopupMenu::SleepTimer(row),
        }
    }

    /// The same menu with another row highlighted.
    pub fn with_row(self, row: usize) -> (menu: PopupMenu)
        ensures
            menu == self.at_row(row),
    {
        match self {
            PopupMenu::Item(_) => PopupMenu::Item(row),
            PopupMenu::Client(_) => PopupMenu::Client(row),
            PopupMenu::SleepTimer(_) => PopupMenu::SleepTimer(row),
        }
    }
}

fn first_person_of(detail: Option<&ItemDetail>) -> (person: Option<(String, String)>)
    ensures
        person.deep_view() == first_person(detail.deep_view()),
{
    let known = match detail {
        Some(known) => known,
        None => {
            return None;
        },
    };
    let ghost p = has_id();
    let ghost models = known.cast.deep_view();
    let mut i: usize = 0;
    while i < known.cast.len()
        invariant
            i <= known.cast@.len(),
            models == known.cast.deep_view(),
            detail.deep_view() == Some(known@),
            p == has_id(),
            forall|j: int| 0 <= j < i ==> !p(#[trigger] models[j]),
        decreases known.cast@.len() - i,
    {
        if let Some(id) = &known.cast[i].id {
            proof {
                sequences::lemma_first_index_found(models, p, i as int);
            }
            return Some((id.clone(), known.cast[i].name.clone()));
        }
        i = i + 1;
    }
    proof {
        sequences::lemma_first_index_missing(models, p);
    }
    None
}

fn single_text(value: String) -> (list: Vec<String>)
    ensures
        list.deep_view() == seq![value@],
{
    let mut list: Vec<String> = Vec::new();
    push_deep(&mut list, value);
    assert(list.deep_view() =~= seq![value@]);
    list
}

fn folder_item(id: String, name: &str, kind: &str) -> (item: Item)
    ensures
        item@ == folder_stub(id@, name@, kind@),
{
    let mut item = Item::default();
    item.id = id;
    item.name = name.to_owned();
    item.kind = Some(kind.to_owned());
    item.is_folder = true;
    item
}

impl SectionFilters {
    fn cycle_sort(&mut self)
        ensures
            final(self)@ == old(self)@.sort_cycled(),
    {
        self.sort_override = next_sort_override(&self.sort_override);
    }

    fn toggle_unplayed(&mut self)
        ensures
            final(self)@ == old(self)@.unplayed_toggled(),
    {
        match self.unplayed_position() {
            Some(i) => {
                self.filters.remove(i);
                assert(self.filters.deep_view() =~= old(self).filters.deep_view().remove(i as int));
            },
            None => {
                push_deep(&mut self.filters, "IsUnplayed".to_owned());
            },
        }
    }
}

impl App {
    fn set_filters(&mut self, library_id: String, filters: SectionFilters)
        ensures
            final(self)@ == old(self)@.with_filters(library_id@, filters@),
    {
        self.section_filters.insert(library_id, filters);
        assert(self.section_filters.deep_view() =~= old(self)@.section_filters.insert(
            library_id@,
            filters@,
        ));
    }

    fn drop_filters(&mut self, library_id: &str)
        ensures
            final(self)@ == (AppModel {
                section_filters: old(self)@.section_filters.remove(library_id@),
                ..old(self)@
            }),
    {
        self.section_filters.remove(library_id);
        assert(self.section_filters.deep_view() =~= old(self)@.section_filters.remove(library_id@));
    }

    fn select_first_section(&mut self)
        ensures
            final(self)@ == (AppModel { section_selected: 0, ..old(self)@ }),
    {
        self.section_selected = 0;
    }

    fn current_library_id(&self) -> (id: Option<String>)
        ensures
            match id {
                Some(found) => self@.current_library() is Some && found@
                    == self@.current_library()->0.id,
                None => self@.current_library() is None,
            },
    {
        match self.current_library() {
            Some(library) => Some(library.id.clone()),
            None => None,
        }
    }

    /// Sort the active library by the next order and list it again.
    pub fn cycle_section_sort(&mut self)
        ensures
            final(self)@ == old(self)@.sort_cycled(),
    {
        let library_id = match self.current_library_id() {
            Some(id) => id,
            None => {
                return;
            },
        };
        let mut filters = self.filters_for(library_id.as_str());
        filters.cycle_sort();
        let note = concat2("Sort by: ", filters.sort_name().as_str());
        self.set_filters(library_id, filters);
        self.set_status(note.as_str());
        self.reapply_current_section();
    }

    /// List only what is unplayed, or everything again.
    pub fn toggle_section_unplayed(&mut self)
        ensures
            final(self)@ == old(self)@.unplayed_toggled(),
    {
        let library_id = match self.current_library_id() {
            Some(id) => id,
            None => {
                return;
            },
        };
        let mut filters = self.filters_for(library_id.as_str());
        let was_unplayed = filters.unplayed_position().is_some();
        filters.toggle_unplayed();
        self.set_filters(library_id, filters);
        self.set_status(
            if was_unplayed {
                "Showing all"
            } else {
                "Showing only unplayed"
            },
        );
        self.reapply_current_section();
    }

    /// Drop every runtime filter of the active library and list it again.
    pub fn clear_section_filters(&mut self)
        ensures
            final(self)@ == old(self)@.filters_cleared(),
    {
        let library_id = match self.current_library_id() {
            Some(id) => id,
            None => {
                return;
            },
        };
        self.drop_filters(library_id.as_str());
        self.set_status("Filters cleared");
        self.reapply_current_section();
    }

    /// Fire the active library's current section again, picking up whatever
    /// runtime extras live in `section_filters[library_id]`.
    fn reapply_current_section(&mut self)
        ensures
            final(self)@ == old(self)@.section_applied(old(self)@.section_selected),
    {
        self.apply_section(self.section_selected);
    }

    fn browse_filtered(&mut self, library_id: String, filters: SectionFilters, note: &str)
        ensures
            final(self)@ == old(self)@.browsing(library_id@, filters@, note@),
    {
        self.set_filters(library_id, filters);
        self.select_first_section();
        self.set_status(note);
        self.reapply_current_section();
    }

    /// Use the first genre of the shown detail as a filter on the active
    /// library, then re-apply the "All" section.
    pub fn browse_by_first_genre(&mut self)
        ensures
            final(self)@ == old(self)@.genre_browsed(),
    {
        let library_id = match self.current_library_id() {
            Some(id) => id,
            None => {
                return;
            },
        };
        let genre = match first_genre_of(self.current_detail()) {
            Some(genre) => genre,
            None => {
                self.set_status("No genre on this item.");
                return;
            },
        };
        let mut filters = self.filters_for(library_id.as_str());
        let note = concat2("Browsing by genre: ", genre.as_str());
        filters.genres = single_text(genre);
        self.browse_filtered(library_id, filters, note.as_str());
    }

    /// Use the first cast member id of the shown detail as a filter.
    pub fn browse_by_first_person(&mut self)
        ensures
            final(self)@ == old(self)@.person_browsed(),
    {
        let library_id = match self.current_library_id() {
            Some(id) => id,
            None => {
                return;
            },
        };
        let (person_id, person_name) = match first_person_of(self.current_detail()) {
            Some(person) => person,
            None => {
                self.set_status("No person on this item.");
                return;
            },
        };
        let mut filters = self.filters_for(library_id.as_str());
        filters.person_ids = single_text(person_id);
        let note = concat2("Browsing by person: ", person_name.as_str());
        self.browse_filtered(library_id, filters, note.as_str());
    }

    /// Insert the focused audio item into the queue (play-next or append).
    pub fn play_next_or_append(&mut self, play_next: bool)
        ensures
            final(self)@ == old(self)@.track_queued(play_next),
    {
        let item = match copied(self.current_item()) {
            Some(item) => item,
            None => {
                return;
            },
        };
        if item.media() != MediaKind::Audio {
            self.set_status("Only audio items can be queued.");
            return;
        }
        if self.queue.len() == 0 {
            self.queue_intent(Intent::Play { item, media: MediaKind::Audio, start_ticks: None });
            return;
        }
        let note = if play_next {
            concat2("Play next: ", item.name.as_str())
        } else {
            concat2("Added to queue: ", item.name.as_str())
        };
        self.set_status(note.as_str());
        self.enqueue(item, play_next);
    }

    /// Start a "genre radio": queue items with the first genre of the shown
    /// detail and play.
    pub fn start_genre_radio(&mut self)
        ensures
            final(self)@ == old(self)@.radio_started(),
    {
        let library_id = match self.current_library_id() {
            Some(id) => id,
            None => {
                return;
            },
        };
        let genre = match first_genre_of(self.current_detail()) {
            Some(genre) => genre,
            None => {
                self.set_status("No genre on this item.");
                return;
            },
        };
        let note = concat2("Genre radio: ", genre.as_str());
        self.set_status(note.as_str());
        self.queue_intent(Intent::GenreRadio { library_id, genre });
    }

    fn queue_ids(&self) -> (ids: Vec<String>)
        ensures
            ids.deep_view() == ids_of(self@.queue),
    {
        let ghost goal = ids_of(self@.queue);
        let mut ids: Vec<String> = Vec::new();
        let mut i: usize = 0;
        while i < self.queue.len()
            invariant
                i <= self.queue@.len(),
                goal == ids_of(self@.queue),
                ids.deep_view() =~= goal.take(i as int),
            decreases self.queue@.len() - i,
        {
            push_deep(&mut ids, self.queue[i].id.clone());
            proof {
                sequences::lemma_take_push(goal, i as int);
            }
            i = i + 1;
        }
        proof {
            sequences::lemma_take_all(goal);
        }
        ids
    }

    /// Snapshot the queue and ask for a server-side playlist of it, named after
    /// the time `now`.
    pub fn save_queue_as_playlist(&mut self, now: Option<Duration>)
        ensures
            final(self)@ == old(self)@.queue_saved(now),
    {
        if self.queue.len() == 0 {
            self.set_status("Queue is empty.");
            return;
        }
        let name = concat2("aquafin queue · ", clock_label(now).as_str());
        let item_ids = self.queue_ids();
        let note = concat3("Saving queue as \"", name.as_str(), "\"…");
        self.set_status(note.as_str());
        self.queue_intent(Intent::CreatePlaylist { name, item_ids });
    }

    /// Launch mpv on the first trailer URL of the current item's detail.
    pub fn watch_first_trailer(&mut self)
        ensures
            final(self)@ == old(self)@.trailer_asked(),
    {
        let item = match copied(self.current_item()) {
            Some(item) => item,
            None => {
                return;
            },
        };
        match first_trailer_of(self.current_detail()) {
            Some(url) => {
                let note = concat2("Trailer: ", item.name.as_str());
                self.set_status(note.as_str());
                self.queue_intent(Intent::WatchTrailer { url, title: item.name });
            },
            None => {
                self.set_status("No trailer available for this item.");
            },
        }
    }

    /// Drill into the focused item's parent album (track → album view).
    pub fn go_to_album(&mut self)
        ensures
            final(self)@ == old(self)@.album_opened(),
    {
        let item = match copied(self.current_item()) {
            Some(item) => item,
            None => {
                return;
            },
        };
        let album_id = match item.album_id {
            Some(id) => id,
            None => {
                self.set_status("No album on this item.");
                return;
            },
        };
        let album = match item.album_name {
            Some(name) => folder_item(album_id, name.as_str(), "MusicAlbum"),
            None => folder_item(album_id, "Album", "MusicAlbum"),
        };
        self.drill_into(&album);
    }

    /// Drill into the focused item's primary artist (track/album → artist view).
    pub fn go_to_artist(&mut self)
        ensures
            final(self)@ == old(self)@.artist_opened(),
    {
        let item = match copied(self.current_item()) {
            Some(item) => item,
            None => {
                return;
            },
        };
        let artist_id = match item.primary_artist_id {
            Some(id) => id,
            None => {
                self.set_status("No artist on this item.");
                return;
            },
        };
        let name = name_or_else(&item.primary_artist_name, "Artist");
        let artist = folder_item(artist_id, name, "MusicArtist");
        self.drill_into(&artist);
    }

    fn ask_for_detail(&mut self)
        ensures
            final(self)@ == old(self)@.detail_asked(),
    {
        if let Some(item) = copied(self.current_item()) {
            self.queue_intent(Intent::LoadCurrentDetail { item_id: item.id, kind: item.kind });
        }
    }

    fn ask_for_info(&mut self)
        ensures
            final(self)@ == old(self)@.info_asked(),
    {
        if let Some(item) = copied(self.current_item()) {
            self.set_context_view(ContextTopView::Info);
            self.queue_intent(Intent::LoadCurrentDetail { item_id: item.id, kind: item.kind });
        }
    }

    fn ask_for_mix(&mut self)
        ensures
            final(self)@ == old(self)@.mix_asked(),
    {
        if let Some(item) = copied(self.current_item()) {
            let note = concat2("Instant mix: ", item.name.as_str());
            self.set_status(note.as_str());
            self.queue_intent(Intent::InstantMix { item });
        }
    }

    fn dislike(&mut self)
        ensures
            final(self)@ == old(self)@.disliked(),
    {
        if let Some(item) = copied(self.current_item()) {
            let note = concat2("Disliked: ", item.name.as_str());
            self.set_status(note.as_str());
            self.queue_intent(Intent::Dislike { item_id: item.id });
        }
    }

    fn ask_for_url(&mut self)
        ensures
            final(self)@ == old(self)@.url_asked(),
    {
        if let Some(item) = copied(self.current_item()) {
            self.queue_intent(Intent::CopyItemUrl { item_id: item.id, item_name: item.name });
        }
    }

    /// Do what an entry of the per-item menu says, `now` being the time.
    pub fn activate_item_action(&mut self, action: ItemMenuAction, now: Option<Duration>)
        requires
            old(self)@.shuffle_ready(),
        ensures
            final(self)@ == old(self)@.item_action(action, now),
    {
        proof {
            reveal(AppModel::item_action);
        }
        match action {
            ItemMenuAction::LoadInfo => self.ask_for_info(),
            ItemMenuAction::ShowLyrics => {
                self.set_context_view(ContextTopView::Lyrics);
                // Lyrics still need the lyric body to be fetched; reuse the
                // detail intent so the loop drives the request.
                self.ask_for_detail();
            },
            ItemMenuAction::Play => self.activate(),
            ItemMenuAction::ToggleFavorite => self.toggle_favorite(),
            ItemMenuAction::TogglePlayed => self.toggle_played(),
            ItemMenuAction::BrowseByGenre => self.browse_by_first_genre(),
            ItemMenuAction::BrowseByPerson => self.browse_by_first_person(),
            ItemMenuAction::GoToAlbum => self.go_to_album(),
            ItemMenuAction::GoToArtist => self.go_to_artist(),
            ItemMenuAction::PlayNext => self.play_next_or_append(true),
            ItemMenuAction::AddToQueue => self.play_next_or_append(false),
            ItemMenuAction::GenreRadio => self.start_genre_radio(),
            ItemMenuAction::SaveQueueAsPlaylist => self.save_queue_as_playlist(now),
            ItemMenuAction::WatchTrailer => self.watch_first_trailer(),
            ItemMenuAction::AddToPlaylist => self.open_playlist_picker(),
            ItemMenuAction::InstantMix => self.ask_for_mix(),
            ItemMenuAction::Dislike => self.dislike(),
            ItemMenuAction::AudioTrack => self.open_video_track_picker(VideoTrackKind::Audio),
            ItemMenuAction::Subtitles => self.open_video_track_picker(VideoTrackKind::Subtitle),
            ItemMenuAction::ToggleShuffle => self.toggle_shuffle_seeded(shuffle_seed(now)),
            ItemMenuAction::CycleRepeat => self.cycle_repeat(),
            ItemMenuAction::OpenSleepTimerPicker => self.open_sleep_timer_picker(),
            ItemMenuAction::CopyUrl => self.ask_for_url(),
        }
    }

    fn set_gapless(&mut self, on: bool)
        ensures
            final(self)@ == (AppModel { gapless: on, ..old(self)@ }),
    {
        self.gapless = on;
    }

    fn set_normalization(&mut self, on: bool)
        ensures
            final(self)@ == (AppModel { normalization: on, ..old(self)@ }),
    {
        self.normalization = on;
    }

    fn set_eq_preset(&mut self, preset: EqPreset)
        ensures
            final(self)@ == (AppModel { eq_preset: preset, ..old(self)@ }),
    {
        self.eq_preset = preset;
    }

    /// Leave the client after this key.
    pub(crate) fn quit(&mut self)
        ensures
            final(self)@ == (AppModel { should_quit: true, ..old(self)@ }),
    {
        self.should_quit = true;
    }

    fn toggle_gapless(&mut self)
        ensures
            final(self)@ == old(self)@.gapless_toggled(),
    {
        let on = !self.gapless;
        self.set_gapless(on);
        let note = concat2("Gapless audio: ", on_off(on));
        self.set_status(note.as_str());
        self.queue_intent(Intent::SetGapless(on));
    }

    fn toggle_normalization(&mut self)
        ensures
            final(self)@ == old(self)@.normalization_toggled(),
    {
        let on = !self.normalization;
        self.set_normalization(on);
        let note = concat2("Volume normalization: ", on_off(on));
        self.set_status(note.as_str());
        self.queue_intent(Intent::SetNormalization(on));
    }

    fn cycle_equalizer(&mut self)
        ensures
            final(self)@ == old(self)@.eq_cycled(),
    {
        let next = cycle_eq_preset(self.eq_preset);
        self.set_eq_preset(next);
        let note = concat2("EQ: ", eq_preset_label(next));
        self.set_status(note.as_str());
        self.queue_intent(Intent::SetEqPreset(next));
    }

    /// Do what an entry of the client-settings menu says.
    pub fn activate_client_action(&mut self, action: ClientMenuAction)
        ensures
            final(self)@ == old(self)@.client_action(action),
    {
        proof {
            reveal(AppModel::client_action);
        }
        match action {
            ClientMenuAction::Themes => self.open_theme_picker(),
            ClientMenuAction::SyncNow => {
                self.set_status("Syncing with server…");
                self.queue_intent(Intent::SyncLibraries);
            },
            ClientMenuAction::VisibleLibraries => self.open_library_picker(),
            ClientMenuAction::ToggleGapless => self.toggle_gapless(),
            ClientMenuAction::ToggleNormalization => self.toggle_normalization(),
            ClientMenuAction::CycleEqPreset => self.cycle_equalizer(),
            ClientMenuAction::ShowMpvArgs => {
                let count = decimal_text(self.mpv_arg_count as u64);
                let note = concat3(
                    "Custom mpv args: ",
                    count.as_str(),
                    " (edit [video] mpv_args in config.toml)",
                );
                self.set_status(note.as_str());
            },
            ClientMenuAction::CycleSort => self.cycle_section_sort(),
            ClientMenuAction::ToggleUnplayed => self.toggle_section_unplayed(),
            ClientMenuAction::ClearFilters => self.clear_section_filters(),
            ClientMenuAction::Quit => self.quit(),
        }
    }

    fn set_popup(&mut self, popup: Option<PopupMenu>)
        ensures
            final(self)@ == old(self)@.with_popup(popup),
    {
        self.popup = popup;
    }

    /// Open the per-item menu, if there is an item.
    pub fn open_item_menu(&mut self)
        ensures
            final(self)@ == old(self)@.item_menu_opened(),
    {
        if self.current_item().is_some() {
            self.set_popup(Some(PopupMenu::Item(0)));
        }
    }

    /// Open the client-settings menu.
    pub fn open_client_menu(&mut self)
        ensures
            final(self)@ == old(self)@.with_popup(Some(PopupMenu::Client(0))),
    {
        self.set_popup(Some(PopupMenu::Client(0)));
    }

    fn popup_len(&self, popup: PopupMenu) -> (len: usize)
        ensures
            len == self@.popup_len(popup),
    {
        proof {
            reveal(AppModel::popup_len);
        }
        match popup {
            PopupMenu::Item(_) => {
                let entries = self.item_menu_entries();
                assert(entries.deep_view().len() == entries@.len());
                entries.len()
            },
            PopupMenu::Client(_) => {
                let entries = self.client_menu_entries();
                assert(entries.deep_view().len() == entries@.len());
                entries.len()
            },
            PopupMenu::SleepTimer(_) => {
                let entries = self.sleep_timer_entries();
                assert(entries.deep_view().len() == entries@.len());
                entries.len()
            },
        }
    }

    fn item_entry(&self, row: usize) -> (action: ItemMenuAction)
        requires
            row < self@.item_menu().len(),
        ensures
            action == self@.item_menu()[row as int].1,
    {
        let entries = self.item_menu_entries();
        assert(entries.deep_view()[row as int] == (entries@[row as int].0@, entries@[row as int].1));
        entries[row].1
    }

    fn client_entry(&self, row: usize) -> (action: ClientMenuAction)
        requires
            row < self@.client_menu().len(),
        ensures
            action == self@.client_menu()[row as int].1,
    {
        let entries = self.client_menu_entries();
        assert(entries.deep_view()[row as int] == (entries@[row as int].0@, entries@[row as int].1));
        entries[row].1
    }

    fn sleep_entry(&self, row: usize) -> (choice: SleepTimer)
        requires
            row < self@.sleep_menu().len(),
        ensures
            choice == self@.sleep_menu()[row as int].1,
    {
        let entries = self.sleep_timer_entries();
        assert(entries.deep_view()[row as int] == (entries@[row as int].0@, entries@[row as int].1));
        entries[row].1
    }

    /// A menu's length does not depend on whether it is open.
    proof fn lemma_popup_len(model: AppModel, popup: PopupMenu)
        ensures
            model.with_popup(None).popup_len(popup) == model.popup_len(popup),
    {
        reveal(AppModel::popup_len);
        let closed = model.with_popup(None);
        assert(closed.current_item() == model.current_item());
        assert(closed.shown_detail() == model.shown_detail());
        assert(closed.current_filters() == model.current_filters());
        match model.current_item() {
            Some(item) => {
                assert(closed.selection_for(item.id) == model.selection_for(item.id));
                assert(closed.item_menu_for(item) == model.item_menu_for(item));
            },
            None => {},
        }
    }

    fn choose_popup_entry(&mut self, popup: PopupMenu, row: usize, now: Option<Duration>)
        requires
            old(self)@.shuffle_ready(),
            row < old(self)@.popup_len(popup),
        ensures
            final(self)@ == old(self)@.popup_chosen(popup, row as int, now),
    {
        proof {
            Self::lemma_popup_len(self@, popup);
            reveal(AppModel::popup_len);
            reveal(AppModel::popup_chosen);
        }
        self.set_popup(None);
        match popup {
            PopupMenu::Item(_) => {
                let action = self.item_entry(row);
                self.activate_item_action(action, now);
            },
            PopupMenu::Client(_) => {
                let action = self.client_entry(row);
                self.activate_client_action(action);
            },
            PopupMenu::SleepTimer(_) => {
                let choice = self.sleep_entry(row);
                self.pick_sleep_timer(choice);
            },
        }
    }

    /// Route key input while a popup menu is open.
    pub fn handle_popup_key(&mut self, key: KeyEvent, now: Option<Duration>)
        requires
            old(self)@.shuffle_ready(),
        ensures
            final(self)@ == old(self)@.popup_key(key.code, now),
    {
        let popup = match self.popup {
            Some(popup) => popup,
            None => {
                return;
            },
        };
        let len: usize = self.popup_len(popup);
        if len == 0 {
            self.set_popup(None);
            return;
        }
        let selected: usize = match popup {
            PopupMenu::Item(i) => i,
            PopupMenu::Client(i) => i,
            PopupMenu::SleepTimer(i) => i,
        };
        let row: usize = if selected < len {
            selected
        } else {
            len - 1
        };
        match key.code {
            KeyCode::Esc => self.set_popup(None),
            KeyCode::Up => self.set_popup(
                Some(
                    popup.with_row(
                        if row == 0 {
                            0
                        } else {
                            row - 1
                        },
                    ),
                ),
            ),
            KeyCode::Down => self.set_popup(
                Some(
                    popup.with_row(
                        if row + 1 < len {
                            row + 1
                        } else {
                            len - 1
                        },
                    ),
                ),
            ),
            KeyCode::Enter => self.choose_popup_entry(popup, row, now),
            _ => {},
        }
    }
}

} // verus!
