//! What every operation keeps: cursors stay in range, and the list pane never
//! loses its root while there is a library.

use vstd::prelude::*;

use super::keys;
use super::navigation;
use super::queue;
use super::state;
use super::state::AppModel;
use super::types::{
    ClientMenuAction, ContextTopView, HomeDataModel, HomeRowKind, IntentModel, ItemDetailModel,
    ItemMenuAction, ItemModel, LibraryModel, Pane, PopupMenu, TrackEntryModel, VideoTrackKind,
};
use crate::sequences;
use crate::time::Duration;
use crate::ui::keymap::{Action, KeyCode, KeyEvent, KeyEventKind};

verus! {

impl AppModel {
    /// Whether the play queue's position is one of the queue.
    pub open spec fn queue_in_range(self) -> bool {
        self.queue_index matches Some(i) ==> i < self.queue.len()
    }

    /// Whether the active library is one of the libraries and the list pane has a
    /// root level, as far as there are libraries.
    pub open spec fn library_in_range(self) -> bool {
        self.libraries.len() > 0 ==> self.library_selected < self.libraries.len()
            && self.stack.len() > 0
    }

    /// Whether the Home cursor stands on a row, or where the first one would be.
    pub open spec fn home_row_in_range(self) -> bool {
        self.home_cursor.row == 0 || self.home_cursor.row < self.home_rows().len()
    }

    /// Whether every cursor is in range.
    pub open spec fn wf(self) -> bool {
        &&& self.pickers_valid()
        &&& self.queue_in_range()
        &&& self.library_in_range()
        &&& self.home_row_in_range()
    }

    /// Whether nothing that `wf` speaks of differs, except that the list pane may
    /// have another stack with a root.
    pub open spec fn stands_as(self, other: AppModel) -> bool {
        &&& self.libraries == other.libraries
        &&& self.library_selected == other.library_selected
        &&& other.stack.len() > 0 ==> self.stack.len() > 0
        &&& self.queue == other.queue
        &&& self.queue_index == other.queue_index
        &&& self.library_picker == other.library_picker
        &&& self.playlist_picker == other.playlist_picker
        &&& self.video_track_picker == other.video_track_picker
        &&& self.home.resume == other.home.resume
        &&& self.home.next_up == other.home.next_up
        &&& self.home.latest_global == other.home.latest_global
        &&& self.home.recent_per_library == other.home.recent_per_library
        &&& self.home_cursor == other.home_cursor
    }
}

pub(crate) proof fn lemma_same_rows(a: AppModel, b: AppModel)
    requires
        a.libraries == b.libraries,
        a.home.resume == b.home.resume,
        a.home.next_up == b.home.next_up,
        a.home.latest_global == b.home.latest_global,
        a.home.recent_per_library == b.home.recent_per_library,
    ensures
        a.home_rows() == b.home_rows(),
{
    assert(a.library_tiles() =~= b.library_tiles());
}

pub(crate) proof fn lemma_stands(a: AppModel, b: AppModel)
    requires
        a.wf(),
        b.stands_as(a),
    ensures
        b.wf(),
{
    lemma_same_rows(a, b);
}

/// A client starts out with every cursor in range.
pub proof fn a_started_client_is_well_formed(libraries: Seq<LibraryModel>)
    ensures
        AppModel::started(libraries).wf(),
{
}

/// A client with every cursor in range can handle every key.
pub proof fn a_well_formed_client_takes_every_key(model: AppModel)
    requires
        model.wf(),
    ensures
        model.key_ready(),
{
}

proof fn lemma_opened(model: AppModel, item: ItemModel)
    ensures
        model.opened(item).stands_as(model),
{
}

proof fn lemma_opened_from_view(model: AppModel, item: ItemModel)
    ensures
        model.opened_from_view(item).stands_as(model),
{
    lemma_opened(model, item);
    lemma_opened(AppModel { focus: Pane::LibraryItems, ..model }, item);
}

proof fn lemma_section_applied(model: AppModel, index: usize)
    ensures
        model.section_applied(index).stands_as(model),
{
}

proof fn lemma_activated(model: AppModel)
    ensures
        model.activated().stands_as(model),
{
    let ready = model.ready_to_activate();
    assert(ready.stands_as(model));
    if model.focus == Pane::LibrarySections {
        lemma_section_applied(model, model.section_selected);
    } else {
        match model.activation_target() {
            Some(item) => {
                lemma_opened(ready, item);
            },
            None => {},
        }
    }
}

proof fn lemma_filters(model: AppModel)
    ensures
        model.sort_cycled().stands_as(model),
        model.unplayed_toggled().stands_as(model),
        model.filters_cleared().stands_as(model),
{
}

proof fn lemma_browsed(model: AppModel)
    ensures
        model.genre_browsed().stands_as(model),
        model.person_browsed().stands_as(model),
{
}

proof fn lemma_folders(model: AppModel)
    ensures
        model.album_opened().stands_as(model),
        model.artist_opened().stands_as(model),
{
}

proof fn lemma_marks(model: AppModel)
    ensures
        model.favorite_toggled().stands_as(model),
        model.played_toggled().stands_as(model),
{
}

proof fn lemma_asked(model: AppModel)
    ensures
        model.info_asked().stands_as(model),
        model.detail_asked().stands_as(model),
        model.mix_asked().stands_as(model),
        model.disliked().stands_as(model),
        model.url_asked().stands_as(model),
        model.radio_started().stands_as(model),
        model.trailer_asked().stands_as(model),
{
}

proof fn lemma_moves(model: AppModel)
    ensures
        model.focus != Pane::Home ==> model.cursor_raised().stands_as(model),
        model.focus != Pane::Home ==> model.cursor_lowered().stands_as(model),
        model.cursor_at_top().stands_as(model),
        model.cursor_at_bottom().stands_as(model),
        model.went_back().stands_as(model),
{
}

proof fn lemma_shuffle(model: AppModel, seed: u64)
    requires
        model.wf(),
    ensures
        model.shuffle_toggled(seed).wf(),
{
    let after = model.shuffle_toggled(seed);
    lemma_same_rows(model, after);
    if !model.shuffle && model.queue.len() > 0 {
        let current = match model.queue_index {
            Some(i) => i as int,
            None => 0,
        };
        let rest = queue::shuffled(model.queue.remove(current), seed);
        assert(after.queue == rest.insert(0, model.queue[current]));
        assert(after.queue.len() > 0);
    }
}

proof fn lemma_track_queued(model: AppModel, play_next: bool)
    requires
        model.wf(),
    ensures
        model.track_queued(play_next).wf(),
{
    let after = model.track_queued(play_next);
    lemma_same_rows(model, after);
    assert(after.queue.len() >= model.queue.len());
}

proof fn lemma_pickers_opened(model: AppModel)
    requires
        model.wf(),
    ensures
        model.library_picker_opened().wf(),
        model.playlist_picker_opened().wf(),
        model.track_picker_opened(VideoTrackKind::Audio).wf(),
        model.track_picker_opened(VideoTrackKind::Subtitle).wf(),
{
    lemma_same_rows(model, model.library_picker_opened());
    lemma_same_rows(model, model.playlist_picker_opened());
    lemma_same_rows(model, model.track_picker_opened(VideoTrackKind::Audio));
    lemma_same_rows(model, model.track_picker_opened(VideoTrackKind::Subtitle));
}

proof fn lemma_item_action(model: AppModel, action: ItemMenuAction, now: Option<Duration>)
    requires
        model.wf(),
    ensures
        model.item_action(action, now).wf(),
{
    reveal(AppModel::item_action);
    let after = model.item_action(action, now);
    match action {
        ItemMenuAction::PlayNext => lemma_track_queued(model, true),
        ItemMenuAction::AddToQueue => lemma_track_queued(model, false),
        ItemMenuAction::ToggleShuffle => lemma_shuffle(model, queue::seed_of(now)),
        ItemMenuAction::AddToPlaylist => lemma_pickers_opened(model),
        ItemMenuAction::AudioTrack => lemma_pickers_opened(model),
        ItemMenuAction::Subtitles => lemma_pickers_opened(model),
        _ => {
            lemma_plain_item_action(model, action, now);
            lemma_stands(model, after);
        },
    }
}

proof fn lemma_plain_item_action(model: AppModel, action: ItemMenuAction, now: Option<Duration>)
    requires
        action != ItemMenuAction::PlayNext,
        action != ItemMenuAction::AddToQueue,
        action != ItemMenuAction::ToggleShuffle,
        action != ItemMenuAction::AddToPlaylist,
        action != ItemMenuAction::AudioTrack,
        action != ItemMenuAction::Subtitles,
    ensures
        model.item_action(action, now).stands_as(model),
{
    reveal(AppModel::item_action);
    match action {
        ItemMenuAction::Play => lemma_activated(model),
        ItemMenuAction::BrowseByGenre => lemma_browsed(model),
        ItemMenuAction::BrowseByPerson => lemma_browsed(model),
        ItemMenuAction::ToggleFavorite => lemma_marks(model),
        ItemMenuAction::TogglePlayed => lemma_marks(model),
        ItemMenuAction::GoToAlbum => lemma_folders(model),
        ItemMenuAction::GoToArtist => lemma_folders(model),
        ItemMenuAction::LoadInfo => lemma_asked(model),
        ItemMenuAction::ShowLyrics => lemma_asked(model.viewing(ContextTopView::Lyrics)),
        ItemMenuAction::InstantMix => lemma_asked(model),
        ItemMenuAction::Dislike => lemma_asked(model),
        ItemMenuAction::CopyUrl => lemma_asked(model),
        ItemMenuAction::GenreRadio => lemma_asked(model),
        ItemMenuAction::WatchTrailer => lemma_asked(model),
        _ => {},
    }
}

proof fn lemma_client_action(model: AppModel, action: ClientMenuAction)
    requires
        model.wf(),
    ensures
        model.client_action(action).wf(),
{
    reveal(AppModel::client_action);
    let after = model.client_action(action);
    match action {
        ClientMenuAction::VisibleLibraries => lemma_pickers_opened(model),
        ClientMenuAction::CycleSort => {
            lemma_filters(model);
            lemma_stands(model, after);
        },
        ClientMenuAction::ToggleUnplayed => {
            lemma_filters(model);
            lemma_stands(model, after);
        },
        ClientMenuAction::ClearFilters => {
            lemma_filters(model);
            lemma_stands(model, after);
        },
        _ => {
            lemma_stands(model, after);
        },
    }
}

proof fn lemma_popup_chosen(model: AppModel, popup: PopupMenu, row: int, now: Option<Duration>)
    requires
        model.wf(),
    ensures
        model.popup_chosen(popup, row, now).wf(),
{
    reveal(AppModel::popup_chosen);
    let closed = model.with_popup(None);
    lemma_stands(model, closed);
    match popup {
        PopupMenu::Item(_) => {
            lemma_item_action(closed, closed.item_menu()[row].1, now);
        },
        PopupMenu::Client(_) => {
            lemma_client_action(closed, closed.client_menu()[row].1);
        },
        PopupMenu::SleepTimer(_) => {
            lemma_stands(closed, closed.sleep_picked(closed.sleep_menu()[row].1));
        },
    }
}

proof fn lemma_popup_key(model: AppModel, code: KeyCode, now: Option<Duration>)
    requires
        model.wf(),
    ensures
        model.popup_key(code, now).wf(),
{
    let after = model.popup_key(code, now);
    match model.popup {
        Some(popup) => {
            let len = model.popup_len(popup);
            if len > 0 && code == KeyCode::Enter {
                let row = if popup.row() < len {
                    popup.row()
                } else {
                    (len - 1) as usize
                };
                lemma_popup_chosen(model, popup, row as int, now);
            } else {
                lemma_stands(model, after);
            }
        },
        None => {},
    }
}

proof fn lemma_on_library(model: AppModel, index: usize)
    requires
        model.wf(),
        model.libraries.len() > 0 ==> index < model.libraries.len(),
    ensures
        model.on_library(index).wf(),
{
    lemma_same_rows(model, model.on_library(index));
}

proof fn lemma_library_chosen(model: AppModel, index: usize)
    requires
        model.wf(),
    ensures
        model.library_chosen(index).wf(),
{
    if index < model.libraries.len() && index != model.library_selected {
        lemma_on_library(model, index);
        lemma_stands(model.on_library(index), model.library_chosen(index));
    }
}

proof fn lemma_home_activated(model: AppModel)
    requires
        model.wf(),
    ensures
        model.home_activated().wf(),
{
    let after = model.home_activated();
    match model.home_focused() {
        Some((kind, _, item)) => {
            if kind == HomeRowKind::Libraries {
                match model.library_position(item.id) {
                    Some(index) => {
                        sequences::lemma_first_index(
                            model.libraries,
                            state::library_has_id(item.id),
                        );
                        lemma_on_library(model, index);
                        lemma_stands(model.on_library(index), after);
                    },
                    None => {},
                }
            } else {
                lemma_opened_from_view(model, item);
                lemma_stands(model, after);
            }
        },
        None => {},
    }
}

proof fn lemma_home_moved(model: AppModel, delta: int)
    requires
        model.wf(),
    ensures
        model.home_row_moved(delta).wf(),
        model.home_col_moved(delta).wf(),
        model.home_at_top().wf(),
        model.home_at_bottom().wf(),
{
    lemma_same_rows(model, model.home_row_moved(delta));
    lemma_same_rows(model, model.home_col_moved(delta));
    lemma_same_rows(model, model.home_at_top());
    lemma_same_rows(model, model.home_at_bottom());
}

proof fn lemma_home_action(model: AppModel, action: Action)
    requires
        model.wf(),
    ensures
        model.home_action(action).wf(),
{
    reveal(AppModel::home_action);
    match action {
        Action::Play => lemma_home_activated(model),
        Action::Up => lemma_home_moved(model, -1),
        Action::Left => lemma_home_moved(model, -1),
        Action::Down => lemma_home_moved(model, 1),
        Action::Right => lemma_home_moved(model, 1),
        Action::Top => lemma_home_moved(model, 1),
        Action::Bottom => lemma_home_moved(model, 1),
        Action::Back => lemma_stands(model, model.focused_on(Pane::TopBar)),
        _ => {},
    }
}

proof fn lemma_focus(model: AppModel)
    ensures
        model.focused_next().stands_as(model),
        model.focused_previous().stands_as(model),
{
}

proof fn lemma_menus(model: AppModel)
    ensures
        model.repeat_cycled().stands_as(model),
        model.theme_picker_opened().stands_as(model),
        model.item_menu_opened().stands_as(model),
        model.with_popup(Some(PopupMenu::Client(0))).stands_as(model),
{
}

proof fn lemma_switches(model: AppModel, delta: int, intent: IntentModel)
    ensures
        model.context_scrolled(delta).stands_as(model),
        model.queued(intent).stands_as(model),
        model.with_help(true).stands_as(model),
        model.with_go_to(true).stands_as(model),
        (AppModel { should_quit: true, ..model }).stands_as(model),
{
}

proof fn lemma_plain_pane_action(model: AppModel, action: Action, now: Option<Duration>)
    requires
        action != Action::QueueShuffle,
        model.focus == Pane::Home ==> action != Action::Up && action != Action::Down,
    ensures
        model.pane_action(action, now).stands_as(model),
{
    reveal(AppModel::pane_action);
    match action {
        Action::Right => lemma_activated(model),
        Action::Play => lemma_activated(model),
        Action::Up => lemma_moves(model),
        Action::Down => lemma_moves(model),
        Action::Top => lemma_moves(model),
        Action::Bottom => lemma_moves(model),
        Action::Left => lemma_moves(model),
        Action::Back => lemma_moves(model),
        Action::Favorite => lemma_marks(model),
        Action::FocusNext => lemma_focus(model),
        Action::FocusPrev => lemma_focus(model),
        Action::QueueRepeat => lemma_menus(model),
        Action::Themes => lemma_menus(model),
        Action::ItemMenu => lemma_menus(model),
        Action::ClientMenu => lemma_menus(model),
        Action::InfoScrollUp => lemma_switches(model, -3, IntentModel::Stop),
        Action::InfoScrollDown => lemma_switches(model, 3, IntentModel::Stop),
        Action::PlayPause => lemma_switches(model, 0, IntentModel::TogglePause),
        Action::Stop => lemma_switches(model, 0, IntentModel::Stop),
        Action::VolumeUp => lemma_switches(model, 0, IntentModel::VolumeUp),
        Action::VolumeDown => lemma_switches(model, 0, IntentModel::VolumeDown),
        Action::SeekForward => lemma_switches(model, 0, IntentModel::SeekForward),
        Action::SeekBackward => lemma_switches(model, 0, IntentModel::SeekBackward),
        Action::QueueNext => lemma_switches(model, 0, IntentModel::QueueNext),
        Action::QueuePrev => lemma_switches(model, 0, IntentModel::QueuePrev),
        _ => lemma_switches(model, 0, IntentModel::Stop),
    }
}

proof fn lemma_pane_action(model: AppModel, action: Action, now: Option<Duration>)
    requires
        model.wf(),
    ensures
        model.pane_action(action, now).wf(),
{
    if action == Action::QueueShuffle {
        reveal(AppModel::pane_action);
        lemma_shuffle(model, queue::seed_of(now));
    } else if model.focus == Pane::Home && (action == Action::Up || action == Action::Down) {
        reveal(AppModel::pane_action);
        lemma_home_moved(model, 1);
        lemma_home_moved(model, -1);
    } else {
        lemma_plain_pane_action(model, action, now);
        lemma_stands(model, model.pane_action(action, now));
    }
}

proof fn lemma_free_key(model: AppModel, key: KeyEvent, now: Option<Duration>)
    requires
        model.wf(),
    ensures
        model.free_key(key, now).wf(),
{
    reveal(AppModel::free_key);
    let after = model.free_key(key, now);
    let unnoted = model.unnoted();
    lemma_stands(model, unnoted);
    if key.modifiers.none_held() && key.code == KeyCode::Char('/') {
        lemma_stands(model, after);
    } else if key.modifiers.none_held() && key.code is Char && keys::library_digit(
        key.code->Char_0,
    ) is Some {
        let index = keys::library_digit(key.code->Char_0)->0;
        lemma_library_chosen(unnoted, index);
        if index < model.libraries.len() {
            lemma_stands(unnoted.library_chosen(index), after);
        }
    } else {
        match model.action_of(key) {
            Some(action) => {
                if model.home_takes(action) {
                    lemma_home_action(unnoted, action);
                } else {
                    lemma_pane_action(unnoted, action, now);
                }
            },
            None => {},
        }
    }
}

proof fn lemma_library_picker_key(model: AppModel, code: KeyCode)
    requires
        model.wf(),
    ensures
        model.library_picker_key(code).wf(),
{
    lemma_same_rows(model, model.library_picker_key(code));
}

proof fn lemma_playlist_picker_key(model: AppModel, code: KeyCode)
    requires
        model.wf(),
    ensures
        model.playlist_picker_key(code).wf(),
{
    lemma_same_rows(model, model.playlist_picker_key(code));
}

proof fn lemma_track_picker_key(model: AppModel, code: KeyCode)
    requires
        model.wf(),
    ensures
        model.track_picker_key(code).wf(),
{
    lemma_same_rows(model, model.track_picker_key(code));
}

proof fn lemma_options_key(model: AppModel, code: KeyCode)
    ensures
        model.options_key(code).stands_as(model),
{
}

proof fn lemma_search_key(model: AppModel, key: KeyEvent)
    ensures
        model.search_key(key).stands_as(model),
{
}

proof fn lemma_global_search_key(model: AppModel, key: KeyEvent)
    ensures
        model.global_search_key(key).stands_as(model),
{
    let search = model.global_search;
    if key.code == KeyCode::Enter && !search.input_focused && search.selected
        < search.results.len() {
        lemma_opened_from_view(model, search.results[search.selected as int]);
    }
}

proof fn lemma_captured_key(model: AppModel, key: KeyEvent, now: Option<Duration>)
    requires
        model.wf(),
    ensures
        model.captured_key(key, now).wf(),
{
    reveal(AppModel::captured_key);
    let after = model.captured_key(key, now);
    if model.library_picker is Some {
        lemma_library_picker_key(model, key.code);
    } else if model.playlist_picker is Some {
        lemma_playlist_picker_key(model, key.code);
    } else if model.video_track_picker is Some {
        lemma_track_picker_key(model, key.code);
    } else if model.media_options_view is Some && model.focus == Pane::Content {
        lemma_options_key(model, key.code);
        lemma_stands(model, after);
    } else if model.popup is Some {
        lemma_popup_key(model, key.code, now);
    } else if model.focus == Pane::GlobalSearch {
        lemma_global_search_key(model, key);
        lemma_stands(model, after);
    } else if model.theme_picker is Some {
        lemma_stands(model, model.theme_key(key.code));
    } else if model.show_help {
        lemma_stands(model, model.with_help(false));
    } else if model.search_query is Some {
        lemma_search_key(model, key);
        lemma_stands(model, after);
    } else {
        lemma_free_key(model, key, now);
    }
}

proof fn lemma_go_to_key(model: AppModel, code: KeyCode)
    requires
        model.wf(),
    ensures
        model.go_to_key(code).wf(),
{
    let ended = model.with_go_to(false);
    lemma_stands(model, ended);
    let closed = ended.overlays_closed();
    lemma_same_rows(ended, closed);
    let after = model.go_to_key(code);
    if keys::is_go_to_target(code) {
        assert(closed.wf());
        lemma_stands(closed, after);
    } else {
        lemma_stands(ended, after);
    }
}

/// Every key leaves every cursor in range.
pub proof fn keys_keep_the_client_well_formed(model: AppModel, key: KeyEvent, now: Option<Duration>)
    requires
        model.wf(),
    ensures
        model.on_key(key, now).wf(),
{
    if key.kind == KeyEventKind::Release {
    } else if model.error is Some {
        lemma_stands(model, model.error_key(key.code));
    } else if model.awaiting_go_to {
        lemma_go_to_key(model, key.code);
    } else if model.begins_go_to(key) {
        lemma_stands(model, model.with_go_to(true));
    } else {
        lemma_captured_key(model, key, now);
    }
}

proof fn lemma_last_with_id(items: Seq<ItemModel>, id: Seq<char>)
    requires
        items.len() > 0,
        items.len() <= usize::MAX,
    ensures
        queue::last_with_id(items, id) < items.len(),
    decreases items.len(),
{
    reveal_with_fuel(queue::last_with_id, 2);
    if items.drop_last().len() > 0 {
        lemma_last_with_id(items.drop_last(), id);
    }
}

/// Replacing, building, extending, walking and clearing the play queue leave every
/// cursor in range.
pub proof fn queue_changes_keep_the_client_well_formed(
    model: AppModel,
    items: Seq<ItemModel>,
    start: usize,
    item: ItemModel,
    play_next: bool,
)
    requires
        model.wf(),
        items.len() <= usize::MAX,
        model.queue.len() <= usize::MAX,
        model.current_level() matches Some(level) ==> level.items.len() <= usize::MAX,
    ensures
        model.with_queue(items, start).wf(),
        model.queue_built(item).wf(),
        model.enqueued(item, play_next).wf(),
        model.at_index(model.next_index()).wf(),
        model.at_index(model.previous_index()).wf(),
        (AppModel { queue: Seq::empty(), queue_index: None, ..model }).wf(),
{
    lemma_same_rows(model, model.with_queue(items, start));
    lemma_same_rows(model, model.enqueued(item, play_next));
    lemma_same_rows(model, model.at_index(model.next_index()));
    lemma_same_rows(model, model.at_index(model.previous_index()));
    lemma_same_rows(model, (AppModel { queue: Seq::empty(), queue_index: None, ..model }));
    lemma_queue_built(model, item);
}

proof fn lemma_queue_built(model: AppModel, item: ItemModel)
    requires
        model.wf(),
        model.current_level() matches Some(level) ==> level.items.len() <= usize::MAX,
    ensures
        model.queue_built(item).wf(),
{
    lemma_same_rows(model, model.queue_built(item));
    match model.current_level() {
        Some(level) => {
            let audio = level.items.filter(queue::is_audio());
            level.items.lemma_filter_len(queue::is_audio());
            if audio.len() > 0 {
                lemma_last_with_id(audio, item.id);
            }
        },
        None => {},
    }
}

/// What the server sends for the list pane leaves every cursor in range.
pub proof fn fetched_lists_keep_the_client_well_formed(
    model: AppModel,
    id: Seq<char>,
    title: Seq<char>,
    items: Seq<ItemModel>,
    detail: ItemDetailModel,
)
    requires
        model.wf(),
    ensures
        model.level_filled(id, items).wf(),
        model.root_filled(id, title, items).wf(),
        model.loading_dropped(id).wf(),
        model.detail_arrived(id, detail).wf(),
        model.detail_cleared().wf(),
        model.global_results_arrived(id, items).wf(),
{
    sequences::lemma_first_index(model.stack, navigation::awaits(id));
    lemma_stands(model, model.level_filled(id, items));
    lemma_stands(model, model.root_filled(id, title, items));
    lemma_stands(model, model.loading_dropped(id));
    lemma_stands(model, model.detail_arrived(id, detail));
    lemma_stands(model, model.detail_cleared());
    lemma_stands(model, model.global_results_arrived(id, items));
}

/// What the server sends for an overlay leaves every cursor in range.
pub proof fn fetched_choices_keep_the_client_well_formed(
    model: AppModel,
    libraries: Seq<(Seq<char>, Seq<char>, bool)>,
    playlists: Seq<(Seq<char>, Seq<char>)>,
    tracks: Seq<TrackEntryModel>,
)
    requires
        model.wf(),
    ensures
        model.library_entries_arrived(libraries).wf(),
        model.playlist_entries_arrived(playlists).wf(),
        model.track_entries_arrived(tracks).wf(),
{
    lemma_same_rows(model, model.library_entries_arrived(libraries));
    lemma_same_rows(model, model.playlist_entries_arrived(playlists));
    lemma_same_rows(model, model.track_entries_arrived(tracks));
}

/// A fetched dashboard leaves every cursor in range.
pub proof fn a_fetched_dashboard_keeps_the_client_well_formed(
    model: AppModel,
    data: HomeDataModel,
)
    requires
        model.wf(),
    ensures
        model.home_filled(data).wf(),
{
    let filled = AppModel { home: HomeDataModel { loading: false, ..data }, ..model };
    lemma_same_rows(filled, model.home_filled(data));
}

/// A sync leaves every cursor in range, unless it takes the last library away.
pub proof fn a_sync_keeps_the_client_well_formed(model: AppModel, libraries: Seq<LibraryModel>)
    requires
        model.wf(),
        libraries.len() <= usize::MAX,
        libraries.len() > 0 || model.libraries.len() == 0,
    ensures
        model.libraries_replaced(libraries).wf(),
{
    let replaced = AppModel { libraries, ..model };
    let after = model.libraries_replaced(libraries);
    lemma_same_rows(replaced, after);
    assert(replaced.home_rows().len() >= model.home_rows().len());
    match model.current_library() {
        Some(previous) => {
            sequences::lemma_first_index(libraries, state::library_has_id(previous.id));
        },
        None => {},
    }
}

} // verus!
