//! What key presses do to the queued side effects: they are added to, never dropped.

use vstd::prelude::*;

use super::keys;
use super::queue;
use super::state::AppModel;
use super::types::{
    ClientMenuAction, ContextTopView, HomeRowKind, IntentModel, ItemMenuAction, ItemModel, Pane,
    PopupMenu, VideoTrackKind,
};
use crate::time::Duration;
use crate::ui::keymap::{Action, KeyCode, KeyEvent, KeyEventKind};

verus! {

impl AppModel {
    /// Whether every side effect that `before` had queued is still queued, in the
    /// same place.
    pub open spec fn keeps_intents(self, before: AppModel) -> bool {
        &&& before.pending.len() <= self.pending.len()
        &&& forall|i: int|
            0 <= i < before.pending.len() ==> #[trigger] self.pending[i] == before.pending[i]
    }
}

proof fn lemma_opened(model: AppModel, item: ItemModel)
    ensures
        model.opened(item).keeps_intents(model),
{
}

proof fn lemma_opened_from_view(model: AppModel, item: ItemModel)
    ensures
        model.opened_from_view(item).keeps_intents(model),
{
    lemma_opened(model, item);
    lemma_opened(AppModel { focus: Pane::LibraryItems, ..model }, item);
}

proof fn lemma_section_applied(model: AppModel, index: usize)
    ensures
        model.section_applied(index).keeps_intents(model),
{
}

proof fn lemma_activated(model: AppModel)
    ensures
        model.activated().keeps_intents(model),
{
    let ready = model.ready_to_activate();
    assert(ready.keeps_intents(model));
    if model.focus == Pane::LibrarySections {
        lemma_section_applied(model, model.section_selected);
    } else {
        match model.activation_target() {
            Some(item) => {
                lemma_opened(ready, item);
            },
            None => {},
        }
    }
}

proof fn lemma_filters(model: AppModel)
    ensures
        model.sort_cycled().keeps_intents(model),
        model.unplayed_toggled().keeps_intents(model),
        model.filters_cleared().keeps_intents(model),
{
}

proof fn lemma_genre_browsed(model: AppModel)
    ensures
        model.genre_browsed().keeps_intents(model),
{
}

proof fn lemma_person_browsed(model: AppModel)
    ensures
        model.person_browsed().keeps_intents(model),
{
}

proof fn lemma_folders(model: AppModel)
    ensures
        model.album_opened().keeps_intents(model),
        model.artist_opened().keeps_intents(model),
{
}

proof fn lemma_marks(model: AppModel)
    ensures
        model.favorite_toggled().keeps_intents(model),
        model.played_toggled().keeps_intents(model),
{
}

proof fn lemma_asked(model: AppModel)
    ensures
        model.info_asked().keeps_intents(model),
        model.detail_asked().keeps_intents(model),
        model.mix_asked().keeps_intents(model),
        model.disliked().keeps_intents(model),
        model.url_asked().keeps_intents(model),
        model.radio_started().keeps_intents(model),
        model.trailer_asked().keeps_intents(model),
{
}

proof fn lemma_moves(model: AppModel)
    ensures
        model.cursor_raised().keeps_intents(model),
        model.cursor_lowered().keeps_intents(model),
        model.cursor_at_top().keeps_intents(model),
        model.cursor_at_bottom().keeps_intents(model),
        model.went_back().keeps_intents(model),
{
}

proof fn lemma_queue_actions(model: AppModel, seed: u64)
    ensures
        model.shuffle_toggled(seed).keeps_intents(model),
        model.track_queued(true).keeps_intents(model),
        model.track_queued(false).keeps_intents(model),
{
}

proof fn lemma_pickers_opened(model: AppModel)
    ensures
        model.library_picker_opened().keeps_intents(model),
        model.playlist_picker_opened().keeps_intents(model),
        model.track_picker_opened(VideoTrackKind::Audio).keeps_intents(model),
        model.track_picker_opened(VideoTrackKind::Subtitle).keeps_intents(model),
{
}

proof fn lemma_item_action(model: AppModel, action: ItemMenuAction, now: Option<Duration>)
    ensures
        model.item_action(action, now).keeps_intents(model),
{
    reveal(AppModel::item_action);
    match action {
        ItemMenuAction::PlayNext => lemma_queue_actions(model, 0),
        ItemMenuAction::AddToQueue => lemma_queue_actions(model, 0),
        ItemMenuAction::ToggleShuffle => lemma_queue_actions(model, queue::seed_of(now)),
        ItemMenuAction::AddToPlaylist => lemma_pickers_opened(model),
        ItemMenuAction::AudioTrack => lemma_pickers_opened(model),
        ItemMenuAction::Subtitles => lemma_pickers_opened(model),
        ItemMenuAction::Play => lemma_activated(model),
        ItemMenuAction::BrowseByGenre => lemma_genre_browsed(model),
        ItemMenuAction::BrowseByPerson => lemma_person_browsed(model),
        ItemMenuAction::ToggleFavorite => lemma_marks(model),
        ItemMenuAction::TogglePlayed => lemma_marks(model),
        ItemMenuAction::GoToAlbum => lemma_folders(model),
        ItemMenuAction::GoToArtist => lemma_folders(model),
        ItemMenuAction::LoadInfo => lemma_asked(model),
        ItemMenuAction::ShowLyrics => lemma_asked(model.viewing(ContextTopView::Lyrics)),
        ItemMenuAction::InstantMix => lemma_asked(model),
        ItemMenuAction::Dislike => lemma_asked(model),
        ItemMenuAction::CopyUrl => lemma_asked(model),
        ItemMenuAction::GenreRadio => lemma_asked(model),
        ItemMenuAction::WatchTrailer => lemma_asked(model),
        _ => {},
    }
}

proof fn lemma_client_action(model: AppModel, action: ClientMenuAction)
    ensures
        model.client_action(action).keeps_intents(model),
{
    reveal(AppModel::client_action);
    match action {
        ClientMenuAction::VisibleLibraries => lemma_pickers_opened(model),
        ClientMenuAction::CycleSort => lemma_filters(model),
        ClientMenuAction::ToggleUnplayed => lemma_filters(model),
        ClientMenuAction::ClearFilters => lemma_filters(model),
        _ => {},
    }
}

proof fn lemma_popup_chosen(model: AppModel, popup: PopupMenu, row: int, now: Option<Duration>)
    ensures
        model.popup_chosen(popup, row, now).keeps_intents(model),
{
    reveal(AppModel::popup_chosen);
    let closed = model.with_popup(None);
    match popup {
        PopupMenu::Item(_) => {
            lemma_item_action(closed, closed.item_menu()[row].1, now);
        },
        PopupMenu::Client(_) => {
            lemma_client_action(closed, closed.client_menu()[row].1);
        },
        PopupMenu::SleepTimer(_) => {},
    }
}

proof fn lemma_popup_key(model: AppModel, code: KeyCode, now: Option<Duration>)
    ensures
        model.popup_key(code, now).keeps_intents(model),
{
    match model.popup {
        Some(popup) => {
            let len = model.popup_len(popup);
            if len > 0 && code == KeyCode::Enter {
                let row = if popup.row() < len {
                    popup.row()
                } else {
                    (len - 1) as usize
                };
                lemma_popup_chosen(model, popup, row as int, now);
            }
        },
        None => {},
    }
}

proof fn lemma_home_activated(model: AppModel)
    ensures
        model.home_activated().keeps_intents(model),
{
    match model.home_focused() {
        Some((kind, _, item)) => {
            if kind != HomeRowKind::Libraries {
                lemma_opened_from_view(model, item);
            }
        },
        None => {},
    }
}

proof fn lemma_home_action(model: AppModel, action: Action)
    ensures
        model.home_action(action).keeps_intents(model),
{
    reveal(AppModel::home_action);
    if action == Action::Play {
        lemma_home_activated(model);
    }
}

proof fn lemma_focus(model: AppModel)
    ensures
        model.focused_next().keeps_intents(model),
        model.focused_previous().keeps_intents(model),
{
}

proof fn lemma_menus(model: AppModel)
    ensures
        model.repeat_cycled().keeps_intents(model),
        model.theme_picker_opened().keeps_intents(model),
        model.item_menu_opened().keeps_intents(model),
        model.with_popup(Some(PopupMenu::Client(0))).keeps_intents(model),
{
}

proof fn lemma_switches(model: AppModel, delta: int, intent: IntentModel)
    ensures
        model.context_scrolled(delta).keeps_intents(model),
        model.queued(intent).keeps_intents(model),
        model.with_help(true).keeps_intents(model),
        model.with_go_to(true).keeps_intents(model),
        (AppModel { should_quit: true, ..model }).keeps_intents(model),
{
}

proof fn lemma_pane_action(model: AppModel, action: Action, now: Option<Duration>)
    ensures
        model.pane_action(action, now).keeps_intents(model),
{
    reveal(AppModel::pane_action);
    match action {
        Action::QueueShuffle => lemma_queue_actions(model, queue::seed_of(now)),
        Action::Right => lemma_activated(model),
        Action::Play => lemma_activated(model),
        Action::Up => lemma_moves(model),
        Action::Down => lemma_moves(model),
        Action::Top => lemma_moves(model),
        Action::Bottom => lemma_moves(model),
        Action::Left => lemma_moves(model),
        Action::Back => lemma_moves(model),
        Action::Favorite => lemma_marks(model),
        Action::FocusNext => lemma_focus(model),
        Action::FocusPrev => lemma_focus(model),
        Action::QueueRepeat => lemma_menus(model),
        Action::Themes => lemma_menus(model),
        Action::ItemMenu => lemma_menus(model),
        Action::ClientMenu => lemma_menus(model),
        Action::InfoScrollUp => lemma_switches(model, -3, IntentModel::Stop),
        Action::InfoScrollDown => lemma_switches(model, 3, IntentModel::Stop),
        Action::PlayPause => lemma_switches(model, 0, IntentModel::TogglePause),
        Action::Stop => lemma_switches(model, 0, IntentModel::Stop),
        Action::VolumeUp => lemma_switches(model, 0, IntentModel::VolumeUp),
        Action::VolumeDown => lemma_switches(model, 0, IntentModel::VolumeDown),
        Action::SeekForward => lemma_switches(model, 0, IntentModel::SeekForward),
        Action::SeekBackward => lemma_switches(model, 0, IntentModel::SeekBackward),
        Action::QueueNext => lemma_switches(model, 0, IntentModel::QueueNext),
        Action::QueuePrev => lemma_switches(model, 0, IntentModel::QueuePrev),
        _ => lemma_switches(model, 0, IntentModel::Stop),
    }
}

proof fn lemma_free_key(model: AppModel, key: KeyEvent, now: Option<Duration>)
    ensures
        model.free_key(key, now).keeps_intents(model),
{
    reveal(AppModel::free_key);
    let unnoted = model.unnoted();
    if key.modifiers.none_held() && key.code == KeyCode::Char('/') {
    } else if key.modifiers.none_held() && key.code is Char && keys::library_digit(
        key.code->Char_0,
    ) is Some {
        let index = keys::library_digit(key.code->Char_0)->0;
        assert(unnoted.library_chosen(index).keeps_intents(unnoted));
    } else {
        match model.action_of(key) {
            Some(action) => {
                if model.home_takes(action) {
                    lemma_home_action(unnoted, action);
                } else {
                    lemma_pane_action(unnoted, action, now);
                }
            },
            None => {},
        }
    }
}

proof fn lemma_picker_keys(model: AppModel, code: KeyCode)
    ensures
        model.library_picker_key(code).keeps_intents(model),
        model.playlist_picker_key(code).keeps_intents(model),
        model.track_picker_key(code).keeps_intents(model),
        model.theme_key(code).keeps_intents(model),
{
}

proof fn lemma_options_key(model: AppModel, code: KeyCode)
    ensures
        model.options_key(code).keeps_intents(model),
{
}

proof fn lemma_search_key(model: AppModel, key: KeyEvent)
    ensures
        model.search_key(key).keeps_intents(model),
{
}

proof fn lemma_global_search_key(model: AppModel, key: KeyEvent)
    ensures
        model.global_search_key(key).keeps_intents(model),
{
    let search = model.global_search;
    if key.code == KeyCode::Enter && !search.input_focused && search.selected
        < search.results.len() {
        lemma_opened_from_view(model, search.results[search.selected as int]);
    }
}

proof fn lemma_captured_key(model: AppModel, key: KeyEvent, now: Option<Duration>)
    ensures
        model.captured_key(key, now).keeps_intents(model),
{
    reveal(AppModel::captured_key);
    if model.library_picker is Some || model.playlist_picker is Some || model.video_track_picker
        is Some {
        lemma_picker_keys(model, key.code);
    } else if model.media_options_view is Some && model.focus == Pane::Content {
        lemma_options_key(model, key.code);
    } else if model.popup is Some {
        lemma_popup_key(model, key.code, now);
    } else if model.focus == Pane::GlobalSearch {
        lemma_global_search_key(model, key);
    } else if model.theme_picker is Some {
        lemma_picker_keys(model, key.code);
    } else if model.show_help {
    } else if model.search_query is Some {
        lemma_search_key(model, key);
    } else {
        lemma_free_key(model, key, now);
    }
}

/// A key press only ever adds to the queued side effects: none is dropped, changed or
/// overtaken before the event loop takes them.
pub proof fn keys_keep_the_queued_intents(model: AppModel, key: KeyEvent, now: Option<Duration>)
    ensures
        model.on_key(key, now).keeps_intents(model),
{
    if key.kind == KeyEventKind::Release {
    } else if model.error is Some {
    } else if model.awaiting_go_to {
        assert(model.go_to_key(key.code).keeps_intents(model));
    } else if model.begins_go_to(key) {
    } else {
        lemma_captured_key(model, key, now);
    }
}

} // verus!
