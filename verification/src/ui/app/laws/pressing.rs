//! Keys: which action a key stands for, and who takes it.

use vstd::prelude::*;

use crate::time::Duration;
use crate::ui::app::queue;
use crate::ui::app::state::AppModel;
use crate::ui::app::types::{ContextTopView, IntentModel, Pane, PopupMenu};
use crate::ui::keymap;
use crate::ui::keymap::{Action, Binding, KeyCode, KeyEvent, KeyEventKind, KeyModifiers};

verus! {

// ---------------------------------------------------------------------------
// The keymap

/// The first binding that a key triggers decides its action.
pub proof fn the_first_binding_counts(bindings: Seq<Binding>, key: KeyEvent, i: int)
    requires
        0 <= i < bindings.len(),
        bindings[i].triggered_by(key),
        forall|j: int| 0 <= j < i ==> !(#[trigger] bindings[j]).triggered_by(key),
    ensures
        keymap::bound_action(bindings, key) == Some(bindings[i].action),
    decreases i,
{
    if i > 0 {
        let rest = bindings.drop_first();
        assert(!bindings[0].triggered_by(key));
        assert forall|j: int| 0 <= j < i - 1 implies !(#[trigger] rest[j]).triggered_by(key) by {
            assert(rest[j] == bindings[j + 1]);
        }
        the_first_binding_counts(rest, key, i - 1);
    }
}

/// A key that triggers no binding stands for nothing.
pub proof fn unbound_keys_do_nothing(bindings: Seq<Binding>, key: KeyEvent)
    requires
        forall|j: int| 0 <= j < bindings.len() ==> !(#[trigger] bindings[j]).triggered_by(key),
    ensures
        keymap::bound_action(bindings, key) is None,
    decreases bindings.len(),
{
    if bindings.len() > 0 {
        let rest = bindings.drop_first();
        assert(!bindings[0].triggered_by(key));
        assert forall|j: int| 0 <= j < rest.len() implies !(#[trigger] rest[j]).triggered_by(
            key,
        ) by {
            assert(rest[j] == bindings[j + 1]);
        }
        unbound_keys_do_nothing(rest, key);
    }
}

/// A binding is triggered by its own key with exactly its own Control and Alt; Shift is
/// part of the character and makes no difference.
pub proof fn shift_makes_no_difference(binding: Binding, key: KeyEvent, shift: bool)
    ensures
        ({
            let shifted = KeyEvent {
                modifiers: KeyModifiers { shift, ..key.modifiers },
                ..key
            };
            &&& binding.triggered_by(key) == binding.triggered_by(shifted)
            &&& binding.triggered_by(key) ==> binding.code == key.code && binding.control
                == key.modifiers.control && binding.alt == key.modifiers.alt
            &&& binding.code == key.code && binding.control == key.modifiers.control && binding.alt
                == key.modifiers.alt ==> binding.triggered_by(key)
        }),
{
}

/// Without a configuration every action has its key, held without Control and Alt.
pub proof fn every_action_has_its_default_key(key: KeyEvent)
    requires
        !key.modifiers.control,
        !key.modifiers.alt,
    ensures
        key.code == KeyCode::Char('q') ==> keymap::bound_action(keymap::default_bindings(), key)
            == Some(Action::Quit),
        key.code == KeyCode::Up ==> keymap::bound_action(keymap::default_bindings(), key)
            == Some(Action::Up),
        key.code == KeyCode::Down ==> keymap::bound_action(keymap::default_bindings(), key)
            == Some(Action::Down),
        key.code == KeyCode::Left ==> keymap::bound_action(keymap::default_bindings(), key)
            == Some(Action::Left),
        key.code == KeyCode::Right ==> keymap::bound_action(keymap::default_bindings(), key)
            == Some(Action::Right),
        key.code == KeyCode::Tab ==> keymap::bound_action(keymap::default_bindings(), key)
            == Some(Action::FocusNext),
        key.code == KeyCode::BackTab ==> keymap::bound_action(keymap::default_bindings(), key)
            == Some(Action::FocusPrev),
        key.code == KeyCode::Home ==> keymap::bound_action(keymap::default_bindings(), key)
            == Some(Action::Top),
        key.code == KeyCode::End ==> keymap::bound_action(keymap::default_bindings(), key)
            == Some(Action::Bottom),
        key.code == KeyCode::Enter ==> keymap::bound_action(keymap::default_bindings(), key)
            == Some(Action::Play),
        key.code == KeyCode::Backspace ==> keymap::bound_action(keymap::default_bindings(), key)
            == Some(Action::Back),
        key.code == KeyCode::Char(' ') ==> keymap::bound_action(keymap::default_bindings(), key)
            == Some(Action::PlayPause),
        key.code == KeyCode::Char('s') ==> keymap::bound_action(keymap::default_bindings(), key)
            == Some(Action::Stop),
        key.code == KeyCode::Char('+') ==> keymap::bound_action(keymap::default_bindings(), key)
            == Some(Action::VolumeUp),
        key.code == KeyCode::Char('-') ==> keymap::bound_action(keymap::default_bindings(), key)
            == Some(Action::VolumeDown),
        key.code == KeyCode::Char('>') ==> keymap::bound_action(keymap::default_bindings(), key)
            == Some(Action::SeekForward),
        key.code == KeyCode::Char('<') ==> keymap::bound_action(keymap::default_bindings(), key)
            == Some(Action::SeekBackward),
        key.code == KeyCode::Char('n') ==> keymap::bound_action(keymap::default_bindings(), key)
            == Some(Action::QueueNext),
        key.code == KeyCode::Char('b') ==> keymap::bound_action(keymap::default_bindings(), key)
            == Some(Action::QueuePrev),
        key.code == KeyCode::Char('z') ==> keymap::bound_action(keymap::default_bindings(), key)
            == Some(Action::QueueShuffle),
        key.code == KeyCode::Char('r') ==> keymap::bound_action(keymap::default_bindings(), key)
            == Some(Action::QueueRepeat),
        key.code == KeyCode::Char('f') ==> keymap::bound_action(keymap::default_bindings(), key)
            == Some(Action::Favorite),
        key.code == KeyCode::Char('t') ==> keymap::bound_action(keymap::default_bindings(), key)
            == Some(Action::Themes),
        key.code == KeyCode::Char('p') ==> keymap::bound_action(keymap::default_bindings(), key)
            == Some(Action::ItemMenu),
        key.code == KeyCode::Char('P') ==> keymap::bound_action(keymap::default_bindings(), key)
            == Some(Action::ClientMenu),
        key.code == KeyCode::PageUp ==> keymap::bound_action(keymap::default_bindings(), key)
            == Some(Action::InfoScrollUp),
        key.code == KeyCode::PageDown ==> keymap::bound_action(keymap::default_bindings(), key)
            == Some(Action::InfoScrollDown),
        key.code == KeyCode::F(1) ==> keymap::bound_action(keymap::default_bindings(), key)
            == Some(Action::Help),
        key.code == KeyCode::Char('g') ==> keymap::bound_action(keymap::default_bindings(), key)
            == Some(Action::GoTo),
        key.code == KeyCode::Esc ==> keymap::bound_action(keymap::default_bindings(), key)
            == Some(Action::Cancel),
{
    if key.code == KeyCode::Char('q') {
        the_first_binding_counts(keymap::default_bindings(), key, 0);
    }
    if key.code == KeyCode::Up {
        the_first_binding_counts(keymap::default_bindings(), key, 1);
    }
    if key.code == KeyCode::Down {
        the_first_binding_counts(keymap::default_bindings(), key, 2);
    }
    if key.code == KeyCode::Left {
        the_first_binding_counts(keymap::default_bindings(), key, 3);
    }
    if key.code == KeyCode::Right {
        the_first_binding_counts(keymap::default_bindings(), key, 4);
    }
    if key.code == KeyCode::Tab {
        the_first_binding_counts(keymap::default_bindings(), key, 5);
    }
    if key.code == KeyCode::BackTab {
        the_first_binding_counts(keymap::default_bindings(), key, 6);
    }
    if key.code == KeyCode::Home {
        the_first_binding_counts(keymap::default_bindings(), key, 7);
    }
    if key.code == KeyCode::End {
        the_first_binding_counts(keymap::default_bindings(), key, 8);
    }
    if key.code == KeyCode::Enter {
        the_first_binding_counts(keymap::default_bindings(), key, 9);
    }
    if key.code == KeyCode::Backspace {
        the_first_binding_counts(keymap::default_bindings(), key, 10);
    }
    if key.code == KeyCode::Char(' ') {
        the_first_binding_counts(keymap::default_bindings(), key, 11);
    }
    if key.code == KeyCode::Char('s') {
        the_first_binding_counts(keymap::default_bindings(), key, 12);
    }
    if key.code == KeyCode::Char('+') {
        the_first_binding_counts(keymap::default_bindings(), key, 13);
    }
    if key.code == KeyCode::Char('-') {
        the_first_binding_counts(keymap::default_bindings(), key, 14);
    }
    if key.code == KeyCode::Char('>') {
        the_first_binding_counts(keymap::default_bindings(), key, 15);
    }
    if key.code == KeyCode::Char('<') {
        the_first_binding_counts(keymap::default_bindings(), key, 16);
    }
    if key.code == KeyCode::Char('n') {
        the_first_binding_counts(keymap::default_bindings(), key, 17);
    }
    if key.code == KeyCode::Char('b') {
        the_first_binding_counts(keymap::default_bindings(), key, 18);
    }
    if key.code == KeyCode::Char('z') {
        the_first_binding_counts(keymap::default_bindings(), key, 19);
    }
    if key.code == KeyCode::Char('r') {
        the_first_binding_counts(keymap::default_bindings(), key, 20);
    }
    if key.code == KeyCode::Char('f') {
        the_first_binding_counts(keymap::default_bindings(), key, 21);
    }
    if key.code == KeyCode::Char('t') {
        the_first_binding_counts(keymap::default_bindings(), key, 22);
    }
    if key.code == KeyCode::Char('p') {
        the_first_binding_counts(keymap::default_bindings(), key, 23);
    }
    if key.code == KeyCode::Char('P') {
        the_first_binding_counts(keymap::default_bindings(), key, 24);
    }
    if key.code == KeyCode::PageUp {
        the_first_binding_counts(keymap::default_bindings(), key, 25);
    }
    if key.code == KeyCode::PageDown {
        the_first_binding_counts(keymap::default_bindings(), key, 26);
    }
    if key.code == KeyCode::F(1) {
        the_first_binding_counts(keymap::default_bindings(), key, 27);
    }
    if key.code == KeyCode::Char('g') {
        the_first_binding_counts(keymap::default_bindings(), key, 28);
    }
    if key.code == KeyCode::Esc {
        the_first_binding_counts(keymap::default_bindings(), key, 29);
    }
}

// ---------------------------------------------------------------------------
// What the actions do

/// The playback keys each ask for their own step, and for nothing else.
pub proof fn playback_keys_ask_for_their_step(app: AppModel, now: Option<Duration>)
    ensures
        app.pane_action(Action::PlayPause, now) == app.queued(IntentModel::TogglePause),
        app.pane_action(Action::Stop, now) == app.queued(IntentModel::Stop),
        app.pane_action(Action::VolumeUp, now) == app.queued(IntentModel::VolumeUp),
        app.pane_action(Action::VolumeDown, now) == app.queued(IntentModel::VolumeDown),
        app.pane_action(Action::SeekForward, now) == app.queued(IntentModel::SeekForward),
        app.pane_action(Action::SeekBackward, now) == app.queued(IntentModel::SeekBackward),
        app.pane_action(Action::QueueNext, now) == app.queued(IntentModel::QueueNext),
        app.pane_action(Action::QueuePrev, now) == app.queued(IntentModel::QueuePrev),
        app.pane_action(Action::QueueShuffle, now) == app.shuffle_toggled(queue::seed_of(now)),
        app.pane_action(Action::QueueRepeat, now) == app.repeat_cycled(),
        app.queued(IntentModel::Stop).pending == app.pending.push(IntentModel::Stop),
{
    reveal(AppModel::pane_action);
}

/// The walking keys walk: Up and Down by a row, Home and End to the ends, Tab and its
/// opposite from pane to pane, Enter and Right in, Backspace and Left out.
pub proof fn walking_keys_walk(app: AppModel, now: Option<Duration>)
    ensures
        app.pane_action(Action::Up, now) == app.cursor_raised(),
        app.pane_action(Action::Down, now) == app.cursor_lowered(),
        app.pane_action(Action::Top, now) == app.cursor_at_top(),
        app.pane_action(Action::Bottom, now) == app.cursor_at_bottom(),
        app.pane_action(Action::FocusNext, now) == app.focused_next(),
        app.pane_action(Action::FocusPrev, now) == app.focused_previous(),
        app.pane_action(Action::Play, now) == app.activated(),
        app.pane_action(Action::Right, now) == app.activated(),
        app.pane_action(Action::Back, now) == app.went_back(),
        app.pane_action(Action::Left, now) == app.went_back(),
        app.pane_action(Action::InfoScrollDown, now) == app.context_scrolled(3),
        app.pane_action(Action::InfoScrollUp, now) == app.context_scrolled(-3),
{
    reveal(AppModel::pane_action);
}

/// The other keys open what they are named for; Escape on the panes does nothing.
pub proof fn menu_keys_open_their_menu(app: AppModel, now: Option<Duration>)
    ensures
        app.pane_action(Action::Quit, now) == (AppModel { should_quit: true, ..app }),
        app.pane_action(Action::Help, now) == (AppModel { show_help: true, ..app }),
        app.pane_action(Action::GoTo, now) == (AppModel { awaiting_go_to: true, ..app }),
        app.pane_action(Action::ClientMenu, now) == (AppModel {
            popup: Some(PopupMenu::Client(0)),
            ..app
        }),
        app.pane_action(Action::ItemMenu, now) == app.item_menu_opened(),
        app.pane_action(Action::Themes, now) == app.theme_picker_opened(),
        app.pane_action(Action::Favorite, now) == app.favorite_toggled(),
        app.pane_action(Action::Cancel, now) == app,
{
    reveal(AppModel::pane_action);
}

/// While Home has the focus the arrows walk its tiles, Enter opens the tile and Backspace
/// goes to the top bar; every other action is the same there as anywhere.
pub proof fn home_takes_the_walking_keys(app: AppModel, action: Action)
    ensures
        app.home_action(Action::Up) == app.home_row_moved(-1),
        app.home_action(Action::Down) == app.home_row_moved(1),
        app.home_action(Action::Left) == app.home_col_moved(-1),
        app.home_action(Action::Right) == app.home_col_moved(1),
        app.home_action(Action::Top) == app.home_at_top(),
        app.home_action(Action::Bottom) == app.home_at_bottom(),
        app.home_action(Action::Play) == app.home_activated(),
        app.home_action(Action::Back) == (AppModel { focus: Pane::TopBar, ..app }),
        app.home_takes(action) <==> app.focus == Pane::Home && (action == Action::Up || action
            == Action::Down || action == Action::Left || action == Action::Right || action
            == Action::Top || action == Action::Bottom || action == Action::Play || action
            == Action::Back),
{
    reveal(AppModel::home_action);
}

// ---------------------------------------------------------------------------
// Who takes a key

/// Whether nothing lies over the panes and no input takes text.
pub open spec fn panes_are_free(app: AppModel) -> bool {
    &&& app.error is None
    &&& !app.awaiting_go_to
    &&& app.library_picker is None
    &&& app.playlist_picker is None
    &&& app.video_track_picker is None
    &&& app.media_options_view is None || app.focus != Pane::Content
    &&& app.popup is None
    &&& app.focus != Pane::GlobalSearch
    &&& app.theme_picker is None
    &&& !app.show_help
    &&& app.search_query is None
}

/// Over free panes a bound key does what it is bound to, after the note in the status bar
/// is gone.
pub proof fn bound_keys_act_on_the_panes(
    app: AppModel,
    key: KeyEvent,
    now: Option<Duration>,
    action: Action,
)
    requires
        panes_are_free(app),
        key.kind != KeyEventKind::Release,
        keymap::bound_action(app.keymap, key) == Some(action),
        action != Action::GoTo,
        !(key.modifiers.none_held() && key.code is Char && (key.code->Char_0 == '/' || '1'
            <= key.code->Char_0 <= '9')),
    ensures
        ({
            let clean = AppModel { status_message: None, ..app };
            &&& clean.home_takes(action) ==> app.on_key(key, now) == clean.home_action(action)
            &&& !clean.home_takes(action) ==> app.on_key(key, now) == clean.pane_action(action, now)
        }),
{
    reveal(AppModel::captured_key);
    reveal(AppModel::free_key);
}

/// A key that is bound to nothing changes nothing.
pub proof fn unbound_keys_change_nothing(app: AppModel, key: KeyEvent, now: Option<Duration>)
    requires
        panes_are_free(app),
        keymap::bound_action(app.keymap, key) is None,
        !(key.modifiers.none_held() && key.code is Char && (key.code->Char_0 == '/' || '1'
            <= key.code->Char_0 <= '9')),
    ensures
        app.on_key(key, now) == app,
{
    reveal(AppModel::captured_key);
    reveal(AppModel::free_key);
}

/// The slash opens an empty search input in the top bar.
pub proof fn the_slash_opens_the_search(app: AppModel, key: KeyEvent, now: Option<Duration>)
    requires
        panes_are_free(app),
        key.kind != KeyEventKind::Release,
        key.modifiers.none_held(),
        key.code == KeyCode::Char('/'),
        keymap::bound_action(app.keymap, key) != Some(Action::GoTo),
    ensures
        app.on_key(key, now) == (AppModel {
            search_query: Some(Seq::empty()),
            focus: Pane::TopBar,
            status_message: None,
            ..app
        }),
{
    reveal(AppModel::captured_key);
    reveal(AppModel::free_key);
}

/// A digit goes to the library with that number, counted from one; a number past the last
/// library does nothing.
pub proof fn digits_choose_the_library(app: AppModel, key: KeyEvent, now: Option<Duration>, n: int)
    requires
        panes_are_free(app),
        key.kind != KeyEventKind::Release,
        key.modifiers.none_held(),
        key.code is Char,
        1 <= n <= 9,
        key.code->Char_0 as int == '0' as int + n,
        keymap::bound_action(app.keymap, key) != Some(Action::GoTo),
    ensures
        ({
            let after = app.on_key(key, now);
            &&& n > app.libraries.len() ==> after == app
            &&& n <= app.libraries.len() ==> after.library_selected == n - 1
            &&& n <= app.libraries.len() && app.focus == Pane::Home ==> after.focus
                == Pane::LibraryItems
        }),
{
    reveal(AppModel::captured_key);
    reveal(AppModel::free_key);
}

/// A key goes to the topmost overlay alone: pickers first, then the options, the menu,
/// the global search, the themes, and the search input last.
pub proof fn the_topmost_overlay_takes_the_key(app: AppModel, key: KeyEvent, now: Option<Duration>)
    requires
        app.error is None,
        !app.awaiting_go_to,
        key.kind != KeyEventKind::Release,
        keymap::bound_action(app.keymap, key) != Some(Action::GoTo),
    ensures
        ({
            let after = app.on_key(key, now);
            let options = app.media_options_view is Some && app.focus == Pane::Content;
            &&& app.library_picker is Some ==> after == app.library_picker_key(key.code)
            &&& app.library_picker is None ==> {
                &&& app.playlist_picker is Some ==> after == app.playlist_picker_key(key.code)
                &&& app.playlist_picker is None ==> {
                    &&& app.video_track_picker is Some ==> after == app.track_picker_key(key.code)
                    &&& app.video_track_picker is None ==> {
                        &&& options ==> after == app.options_key(key.code)
                        &&& !options ==> {
                            &&& app.popup is Some ==> after == app.popup_key(key.code, now)
                            &&& app.popup is None ==> {
                                &&& app.focus == Pane::GlobalSearch ==> after
                                    == app.global_search_key(key)
                                &&& app.focus != Pane::GlobalSearch ==> {
                                    &&& app.theme_picker is Some ==> after == app.theme_key(
                                        key.code,
                                    )
                                    &&& app.theme_picker is None && app.show_help ==> after
                                        == (AppModel { show_help: false, ..app })
                                    &&& app.theme_picker is None && !app.show_help
                                        && app.search_query is Some ==> after == app.search_key(key)
                                }
                            }
                        }
                    }
                }
            }
        }),
{
    reveal(AppModel::captured_key);
}

// ---------------------------------------------------------------------------
// The go-to chord

/// The second key of the chord goes where it says: top bar, items, search, content, info,
/// lyrics, queue or Home.
pub proof fn the_chord_goes_where_it_says(app: AppModel, key: KeyEvent, now: Option<Duration>)
    requires
        app.error is None,
        app.awaiting_go_to,
        key.kind != KeyEventKind::Release,
    ensures
        ({
            let after = app.on_key(key, now);
            &&& key.code == KeyCode::Char('t') ==> after.focus == Pane::TopBar
            &&& key.code == KeyCode::Char('i') ==> after.focus == Pane::LibraryItems
            &&& key.code == KeyCode::Char('s') ==> after.focus == Pane::GlobalSearch
            &&& key.code == KeyCode::Char('c') ==> after.focus == Pane::Content
            &&& key.code == KeyCode::Char('n') ==> after.focus == Pane::ContextTop
                && after.context_view == ContextTopView::Info
            &&& key.code == KeyCode::Char('l') ==> after.focus == Pane::ContextTop
                && after.context_view == ContextTopView::Lyrics
            &&& key.code == KeyCode::Char('q') ==> after.focus == Pane::ContextBottom
            &&& key.code == KeyCode::Char('h') ==> after.focus == Pane::Home && after.pending
                == app.pending.push(IntentModel::LoadHome)
            &&& key.code != KeyCode::Char('h') ==> after.pending == app.pending
            &&& after.stack == app.stack
            &&& after.queue == app.queue
            &&& after.library_selected == app.library_selected
        }),
{
}

/// The go-to key begins the chord wherever no text is being typed.
pub proof fn the_go_to_key_begins_the_chord(app: AppModel, key: KeyEvent, now: Option<Duration>)
    requires
        panes_are_free(app),
        key.kind != KeyEventKind::Release,
        keymap::bound_action(app.keymap, key) == Some(Action::GoTo),
    ensures
        app.on_key(key, now) == (AppModel { awaiting_go_to: true, ..app }),
{
}

} // verus!
