//! Where a key press goes: the overlay that captures it, the go-to chord, or the
//! keymap.

use vstd::prelude::*;

use super::queue;
use super::queue::shuffle_seed;
use super::state::{App, AppModel};
use super::types::{ContextTopView, Intent, IntentModel, Pane};
use crate::time;
use crate::time::Duration;
use crate::ui::keymap;
use crate::ui::keymap::{Action, KeyCode, KeyEvent, KeyEventKind};

verus! {

/// Rows that one scroll key moves a context pane by.
pub const SCROLL_STEP: i32 = 3;

/// The library that a digit key stands for, counted from zero.
pub open spec fn library_digit(c: char) -> Option<usize> {
    if '1' <= c && c <= '9' {
        Some((c as int - '1' as int) as usize)
    } else {
        None
    }
}

fn digit_position(c: char) -> (index: Option<usize>)
    ensures
        index == library_digit(c),
{
    if '1' <= c && c <= '9' {
        Some((c as u32 - '1' as u32) as usize)
    } else {
        None
    }
}

/// Whether the second key of the go-to chord names a place to go to.
pub open spec fn is_go_to_target(code: KeyCode) -> bool {
    code == KeyCode::Char('t') || code == KeyCode::Char('i') || code == KeyCode::Char('s') || code
        == KeyCode::Char('c') || code == KeyCode::Char('n') || code == KeyCode::Char('l') || code
        == KeyCode::Char('q') || code == KeyCode::Char('h')
}

fn names_go_to_target(code: KeyCode) -> (target: bool)
    ensures
        target == is_go_to_target(code),
{
    match code {
        KeyCode::Char(c) => c == 't' || c == 'i' || c == 's' || c == 'c' || c == 'n' || c == 'l'
            || c == 'q' || c == 'h',
        _ => false,
    }
}

impl AppModel {
    /// What the keymap says of a key.
    pub open spec fn action_of(self, key: KeyEvent) -> Option<Action> {
        keymap::bound_action(self.keymap, key)
    }

    /// Whether every key can be handled: the overlays' cursors and the play
    /// queue's position are in range, and so is the Home cursor while Home has the
    /// focus.
    pub open spec fn key_ready(self) -> bool {
        &&& self.pickers_valid()
        &&& self.shuffle_ready()
        &&& self.focus == Pane::Home ==> self.home_cursor_valid()
    }

    /// With the focus on another pane.
    pub open spec fn focused_on(self, pane: Pane) -> AppModel {
        AppModel { focus: pane, ..self }
    }

    /// With the go-to chord begun, or over.
    pub open spec fn with_go_to(self, awaiting: bool) -> AppModel {
        AppModel { awaiting_go_to: awaiting, ..self }
    }

    /// With the help overlay open, or closed.
    pub open spec fn with_help(self, shown: bool) -> AppModel {
        AppModel { show_help: shown, ..self }
    }

    /// Without a note in the status bar.
    pub open spec fn unnoted(self) -> AppModel {
        AppModel { status_message: None, ..self }
    }

    /// After a key while the error modal is open.
    pub open spec fn error_key(self, code: KeyCode) -> AppModel {
        match code {
            KeyCode::Enter | KeyCode::Esc => AppModel { error: None, error_copied: false, ..self },
            KeyCode::Char('y') => self.queued(IntentModel::CopyLogLocation),
            _ => self,
        }
    }

    /// After the second key of the go-to chord.
    pub open spec fn go_to_key(self, code: KeyCode) -> AppModel {
        let ended = self.with_go_to(false);
        let target = if is_go_to_target(code) {
            ended.overlays_closed()
        } else {
            ended
        };
        match code {
            KeyCode::Char('t') => target.focused_on(Pane::TopBar),
            KeyCode::Char('i') => target.focused_on(Pane::LibraryItems),
            KeyCode::Char('s') => target.global_search_entered(),
            KeyCode::Char('c') => target.focused_on(Pane::Content),
            KeyCode::Char('n') => target.focused_on(Pane::ContextTop).viewing(ContextTopView::Info),
            KeyCode::Char('l') => target.focused_on(Pane::ContextTop).viewing(
                ContextTopView::Lyrics,
            ),
            KeyCode::Char('q') => target.focused_on(Pane::ContextBottom),
            KeyCode::Char('h') => target.home_entered(),
            KeyCode::Char('?') => target.with_help(true),
            _ => target,
        }
    }

    /// With the search input of the top bar open and empty.
    pub open spec fn search_opened(self) -> AppModel {
        AppModel {
            search_query: Some(Seq::empty()),
            focus: Pane::TopBar,
            status_message: None,
            ..self
        }
    }

    /// After the digit key of library `index`.
    pub open spec fn digit_pressed(self, index: usize) -> AppModel {
        if index < self.libraries.len() {
            let chosen = self.unnoted().library_chosen(index);
            if self.focus == Pane::Home {
                chosen.focused_on(Pane::LibraryItems)
            } else {
                chosen
            }
        } else {
            self
        }
    }

    /// Whether Home takes an action for itself while it has the focus.
    pub open spec fn home_takes(self, action: Action) -> bool {
        self.focus == Pane::Home && (action == Action::Up || action == Action::Down || action
            == Action::Left || action == Action::Right || action == Action::Top || action
            == Action::Bottom || action == Action::Play || action == Action::Back)
    }

    /// After an action that Home takes for itself.
    #[verifier::opaque]
    pub open spec fn home_action(self, action: Action) -> AppModel {
        match action {
            Action::Up => self.home_row_moved(-1),
            Action::Down => self.home_row_moved(1),
            Action::Left => self.home_col_moved(-1),
            Action::Right => self.home_col_moved(1),
            Action::Top => self.home_at_top(),
            Action::Bottom => self.home_at_bottom(),
            Action::Play => self.home_activated(),
            Action::Back => self.focused_on(Pane::TopBar),
            _ => self,
        }
    }

    /// After any other action, `now` being the time.
    #[verifier::opaque]
    pub open spec fn pane_action(self, action: Action, now: Option<Duration>) -> AppModel {
        match action {
            Action::Quit => AppModel { should_quit: true, ..self },
            Action::Up => self.cursor_raised(),
            Action::Down => self.cursor_lowered(),
            Action::Left => self.went_back(),
            Action::Right => self.activated(),
            Action::FocusNext => self.focused_next(),
            Action::FocusPrev => self.focused_previous(),
            Action::Top => self.cursor_at_top(),
            Action::Bottom => self.cursor_at_bottom(),
            Action::Play => self.activated(),
            Action::Back => self.went_back(),
            Action::PlayPause => self.queued(IntentModel::TogglePause),
            Action::Stop => self.queued(IntentModel::Stop),
            Action::VolumeUp => self.queued(IntentModel::VolumeUp),
            Action::VolumeDown => self.queued(IntentModel::VolumeDown),
            Action::SeekForward => self.queued(IntentModel::SeekForward),
            Action::SeekBackward => self.queued(IntentModel::SeekBackward),
            Action::QueueNext => self.queued(IntentModel::QueueNext),
            Action::QueuePrev => self.queued(IntentModel::QueuePrev),
            Action::QueueShuffle => self.shuffle_toggled(queue::seed_of(now)),
            Action::QueueRepeat => self.repeat_cycled(),
            Action::Favorite => self.favorite_toggled(),
            Action::Themes => self.theme_picker_opened(),
            Action::ItemMenu => self.item_menu_opened(),
            Action::ClientMenu => self.with_popup(Some(super::types::PopupMenu::Client(0))),
            Action::InfoScrollUp => self.context_scrolled(-3),
            Action::InfoScrollDown => self.context_scrolled(3),
            Action::Help => self.with_help(true),
            Action::GoTo => self.with_go_to(true),
            Action::Cancel => self,
        }
    }

    /// After a key that no overlay captured, `now` being the time.
    #[verifier::opaque]
    pub open spec fn free_key(self, key: KeyEvent, now: Option<Duration>) -> AppModel {
        if key.modifiers.none_held() && key.code == KeyCode::Char('/') {
            self.search_opened()
        } else if key.modifiers.none_held() && key.code is Char && library_digit(key.code->Char_0) is Some {
            self.digit_pressed(library_digit(key.code->Char_0)->0)
        } else {
            match self.action_of(key) {
                Some(action) => if self.home_takes(action) {
                    self.unnoted().home_action(action)
                } else {
                    self.unnoted().pane_action(action, now)
                },
                None => self,
            }
        }
    }

    /// After a key that goes to the topmost overlay, or on to the panes, `now`
    /// being the time.
    #[verifier::opaque]
    pub open spec fn captured_key(self, key: KeyEvent, now: Option<Duration>) -> AppModel {
        if self.library_picker is Some {
            self.library_picker_key(key.code)
        } else if self.playlist_picker is Some {
            self.playlist_picker_key(key.code)
        } else if self.video_track_picker is Some {
            self.track_picker_key(key.code)
        } else if self.media_options_view is Some && self.focus == Pane::Content {
            self.options_key(key.code)
        } else if self.popup is Some {
            self.popup_key(key.code, now)
        } else if self.focus == Pane::GlobalSearch {
            self.global_search_key(key)
        } else if self.theme_picker is Some {
            self.theme_key(key.code)
        } else if self.show_help {
            self.with_help(false)
        } else if self.search_query is Some {
            self.search_key(key)
        } else {
            self.free_key(key, now)
        }
    }

    /// Whether typed characters go into a search input.
    pub open spec fn takes_text(self) -> bool {
        self.search_query is Some || (self.focus == Pane::GlobalSearch
            && self.global_search.input_focused)
    }

    /// Whether the help overlay is what takes the next key.
    pub open spec fn help_takes_keys(self) -> bool {
        &&& self.show_help
        &&& self.library_picker is None
        &&& self.playlist_picker is None
        &&& self.video_track_picker is None
        &&& self.media_options_view is None || self.focus != Pane::Content
        &&& self.popup is None
        &&& self.focus != Pane::GlobalSearch
        &&& self.theme_picker is None
    }

    /// Whether a key begins the go-to chord.
    pub open spec fn begins_go_to(self, key: KeyEvent) -> bool {
        !self.takes_text() && !self.help_takes_keys() && self.action_of(key) == Some(Action::GoTo)
    }

    /// After a key event, `now` being the time.
    pub open spec fn on_key(self, key: KeyEvent, now: Option<Duration>) -> AppModel {
        if key.kind == KeyEventKind::Release {
            self
        } else if self.error is Some {
            self.error_key(key.code)
        } else if self.awaiting_go_to {
            self.go_to_key(key.code)
        } else if self.begins_go_to(key) {
            self.with_go_to(true)
        } else {
            self.captured_key(key, now)
        }
    }
}

impl App {
    fn set_focus(&mut self, pane: Pane)
        ensures
            final(self)@ == old(self)@.focused_on(pane),
    {
        self.focus = pane;
    }

    fn set_awaiting_go_to(&mut self, awaiting: bool)
        ensures
            final(self)@ == old(self)@.with_go_to(awaiting),
    {
        self.awaiting_go_to = awaiting;
    }

    fn set_help(&mut self, shown: bool)
        ensures
            final(self)@ == old(self)@.with_help(shown),
    {
        self.show_help = shown;
    }

    fn clear_status(&mut self)
        ensures
            final(self)@ == old(self)@.unnoted(),
    {
        self.status_message = None;
    }

    fn dismiss_error(&mut self)
        ensures
            final(self)@ == (AppModel { error: None, error_copied: false, ..old(self)@ }),
    {
        self.error = None;
        self.error_copied = false;
    }

    fn open_search(&mut self)
        ensures
            final(self)@ == old(self)@.search_opened(),
    {
        self.search_query = Some(String::new());
        self.focus = Pane::TopBar;
        self.status_message = None;
    }

    /// Accessor for the renderer: `true` while the go-to cheatsheet should be
    /// shown in the status row.
    pub fn awaiting_go_to(&self) -> (awaiting: bool)
        ensures
            awaiting == self@.awaiting_go_to,
    {
        self.awaiting_go_to
    }

    fn handle_error_key(&mut self, key: KeyEvent)
        ensures
            final(self)@ == old(self)@.error_key(key.code),
    {
        match key.code {
            KeyCode::Enter => self.dismiss_error(),
            KeyCode::Esc => self.dismiss_error(),
            KeyCode::Char('y') => self.queue_intent(Intent::CopyLogLocation),
            _ => {},
        }
    }

    /// Resolve the second keystroke of the go-to chord into a focus / view
    /// change. Esc cancels the chord; any unhandled key just clears the flag.
    pub fn resolve_go_to(&mut self, key: KeyEvent)
        ensures
            final(self)@ == old(self)@.go_to_key(key.code),
    {
        self.set_awaiting_go_to(false);
        // Any concrete go-to target dismisses overlays that might cover the
        // destination pane (popup menus, pickers, theme picker, the
        // media-options view, the help overlay).
        if names_go_to_target(key.code) {
            self.close_overlays();
        }
        match key.code {
            KeyCode::Char('t') => self.set_focus(Pane::TopBar),
            KeyCode::Char('i') => self.set_focus(Pane::LibraryItems),
            KeyCode::Char('s') => self.enter_global_search(),
            KeyCode::Char('c') => self.set_focus(Pane::Content),
            KeyCode::Char('n') => {
                self.set_focus(Pane::ContextTop);
                self.set_context_view(ContextTopView::Info);
            },
            KeyCode::Char('l') => {
                self.set_focus(Pane::ContextTop);
                self.set_context_view(ContextTopView::Lyrics);
            },
            KeyCode::Char('q') => self.set_focus(Pane::ContextBottom),
            KeyCode::Char('h') => self.enter_home(),
            KeyCode::Char('?') => self.set_help(true),
            _ => {},
        }
    }

    /// Top-bar library switch: digit 1..9 picks library N. From Home, the digit
    /// also drops focus into the chosen library.
    fn press_digit(&mut self, index: usize)
        ensures
            final(self)@ == old(self)@.digit_pressed(index),
    {
        if index < self.libraries.len() {
            self.clear_status();
            let came_from_home = self.focus == Pane::Home;
            self.select_library(index);
            if came_from_home {
                self.set_focus(Pane::LibraryItems);
            }
        }
    }

    fn home_takes(&self, action: Action) -> (takes: bool)
        ensures
            takes == self@.home_takes(action),
    {
        self.focus == Pane::Home && (action == Action::Up || action == Action::Down || action
            == Action::Left || action == Action::Right || action == Action::Top || action
            == Action::Bottom || action == Action::Play || action == Action::Back)
    }

    /// Home dashboard owns navigation while focused.
    fn handle_home_action(&mut self, action: Action)
        requires
            old(self)@.home_cursor_valid(),
        ensures
            final(self)@ == old(self)@.home_action(action),
    {
        proof {
            reveal(AppModel::home_action);
        }
        match action {
            Action::Up => self.move_home_row(-1),
            Action::Down => self.move_home_row(1),
            Action::Left => self.move_home_col(-1),
            Action::Right => self.move_home_col(1),
            Action::Top => self.home_top(),
            Action::Bottom => self.home_bottom(),
            Action::Play => self.activate_home(),
            Action::Back => self.set_focus(Pane::TopBar),
            _ => {},
        }
    }

    fn handle_pane_action(&mut self, action: Action, now: Option<Duration>)
        requires
            old(self)@.shuffle_ready(),
        ensures
            final(self)@ == old(self)@.pane_action(action, now),
    {
        proof {
            reveal(AppModel::pane_action);
        }
        match action {
            Action::Quit => self.quit(),
            Action::Up => self.cursor_up(),
            Action::Down => self.cursor_down(),
            Action::Left => self.go_back(),
            Action::Right => self.activate(),
            Action::FocusNext => self.focus_next(),
            Action::FocusPrev => self.focus_prev(),
            Action::Top => self.go_top(),
            Action::Bottom => self.go_bottom(),
            Action::Play => self.activate(),
            Action::Back => self.go_back(),
            Action::PlayPause => self.queue_intent(Intent::TogglePause),
            Action::Stop => self.queue_intent(Intent::Stop),
            Action::VolumeUp => self.queue_intent(Intent::VolumeUp),
            Action::VolumeDown => self.queue_intent(Intent::VolumeDown),
            Action::SeekForward => self.queue_intent(Intent::SeekForward),
            Action::SeekBackward => self.queue_intent(Intent::SeekBackward),
            Action::QueueNext => self.queue_intent(Intent::QueueNext),
            Action::QueuePrev => self.queue_intent(Intent::QueuePrev),
            Action::QueueShuffle => self.toggle_shuffle_seeded(shuffle_seed(now)),
            Action::QueueRepeat => self.cycle_repeat(),
            Action::Favorite => self.toggle_favorite(),
            Action::Themes => self.open_theme_picker(),
            Action::ItemMenu => self.open_item_menu(),
            Action::ClientMenu => self.open_client_menu(),
            Action::InfoScrollUp => self.scroll_focused_context(-SCROLL_STEP),
            Action::InfoScrollDown => self.scroll_focused_context(SCROLL_STEP),
            Action::Help => self.set_help(true),
            Action::GoTo => self.set_awaiting_go_to(true),
            Action::Cancel => {},
        }
    }

    proof fn lemma_unnoted(model: AppModel)
        ensures
            model.unnoted().shuffle_ready() == model.shuffle_ready(),
            model.unnoted().home_cursor_valid() == model.home_cursor_valid(),
    {
        assert(model.unnoted().library_tiles() =~= model.library_tiles());
    }

    /// A key that no overlay captured.
    fn handle_free_key(&mut self, key: KeyEvent, now: Option<Duration>)
        requires
            old(self)@.key_ready(),
        ensures
            final(self)@ == old(self)@.free_key(key, now),
    {
        proof {
            reveal(AppModel::free_key);
            Self::lemma_unnoted(self@);
        }
        if key.modifiers.is_empty() {
            if let KeyCode::Char(c) = key.code {
                // Open the search input. '/' is the conventional opener; the
                // search field lives on the top bar.
                if c == '/' {
                    self.open_search();
                    return;
                }
                if let Some(index) = digit_position(c) {
                    self.press_digit(index);
                    return;
                }
            }
        }
        if let Some(action) = self.keymap.action_for(key) {
            let at_home = self.home_takes(action);
            // A new keypress clears any transient status note from the last one.
            self.clear_status();
            if at_home {
                self.handle_home_action(action);
            } else {
                self.handle_pane_action(action, now);
            }
        }
    }

    /// Whether typed characters go into a search input.
    fn takes_text(&self) -> (typing: bool)
        ensures
            typing == self@.takes_text(),
    {
        self.search_query.is_some() || (self.focus == Pane::GlobalSearch
            && self.global_search.input_focused)
    }

    /// Whether the help overlay is what takes the next key.
    fn help_takes_keys(&self) -> (takes: bool)
        ensures
            takes == self@.help_takes_keys(),
    {
        self.show_help && self.library_picker.is_none() && self.playlist_picker.is_none()
            && self.video_track_picker.is_none() && (self.media_options_view.is_none()
            || self.focus != Pane::Content) && self.popup.is_none() && self.focus
            != Pane::GlobalSearch && self.theme_picker.is_none()
    }

    /// A key that goes to the topmost overlay, or on to the panes.
    fn handle_captured_key(&mut self, key: KeyEvent, now: Option<Duration>)
        requires
            old(self)@.key_ready(),
        ensures
            final(self)@ == old(self)@.captured_key(key, now),
    {
        proof {
            reveal(AppModel::captured_key);
        }
        // Pickers (visibility / playlist / video tracks) sit above the popup
        // menu and capture input until closed.
        if self.library_picker.is_some() {
            self.handle_library_picker_key(key);
        } else if self.playlist_picker.is_some() {
            self.handle_playlist_picker_key(key);
        } else if self.video_track_picker.is_some() {
            self.handle_video_track_picker_key(key);
        } else if self.media_options_view.is_some() && self.focus == Pane::Content {
            // Media-options view captures input while the Content pane is focused.
            self.handle_media_options_key(key);
        } else if self.popup.is_some() {
            // Any open popup menu captures input until closed.
            self.handle_popup_key(key, now);
        } else if self.focus == Pane::GlobalSearch {
            // Global search owns input while focused (own query buffer + result
            // list). Esc leaves; Enter submits or activates a result.
            self.handle_global_search_key(key);
        } else if self.theme_picker.is_some() {
            self.handle_theme_picker_key(key);
        } else if self.show_help {
            // Any key dismisses the help overlay.
            self.set_help(false);
        } else if self.search_query.is_some() {
            // Search input mode owns every key until Esc/Enter.
            self.handle_search_key(key);
        } else {
            self.handle_free_key(key, now);
        }
    }

    /// Handle a key event that came in at `now`, the time since the epoch.
    pub fn handle_key_at(&mut self, key: KeyEvent, now: Option<Duration>)
        requires
            old(self)@.key_ready(),
        ensures
            final(self)@ == old(self)@.on_key(key, now),
    {
        if key.kind == KeyEventKind::Release {
            return;
        }
        // The error modal captures input until dismissed.
        if self.error.is_some() {
            self.handle_error_key(key);
            return;
        }
        // The go-to prefix captures the very next key. Esc cancels.
        if self.awaiting_go_to {
            self.resolve_go_to(key);
            return;
        }
        // Go-to trigger fires from anywhere except a search input (where it
        // would be eaten as a literal character) and the help overlay (which
        // any key dismisses). Overlays it competes with are closed when
        // `resolve_go_to` applies a target.
        if !self.takes_text() && !self.help_takes_keys() {
            if let Some(Action::GoTo) = self.keymap.action_for(key) {
                self.set_awaiting_go_to(true);
                return;
            }
        }
        self.handle_captured_key(key, now);
    }

    /// Handle a key event that comes in right now. The time only names a saved
    /// queue and seeds a shuffle.
    pub fn handle_key(&mut self, key: KeyEvent)
        requires
            old(self)@.key_ready(),
        ensures
            exists|now: Option<Duration>| final(self)@ == #[trigger] old(self)@.on_key(key, now),
    {
        let now = time::since_epoch();
        self.handle_key_at(key, now);
    }
}

/// Letting go of a key changes nothing.
pub proof fn key_releases_are_ignored(model: AppModel, key: KeyEvent, now: Option<Duration>)
    requires
        key.kind == KeyEventKind::Release,
    ensures
        model.on_key(key, now) == model,
{
}

/// While the error modal is open, the only keys that do anything are those that
/// dismiss it and the one that copies the log location.
pub proof fn the_error_modal_swallows_keys(model: AppModel, key: KeyEvent, now: Option<Duration>)
    requires
        model.error is Some,
        key.kind != KeyEventKind::Release,
    ensures
        key.code == KeyCode::Enter || key.code == KeyCode::Esc ==> model.on_key(key, now)
            == (AppModel { error: None, error_copied: false, ..model }),
        key.code == KeyCode::Char('y') ==> model.on_key(key, now) == model.queued(
            IntentModel::CopyLogLocation,
        ),
        key.code != KeyCode::Enter && key.code != KeyCode::Esc && key.code != KeyCode::Char('y')
            ==> model.on_key(key, now) == model,
{
}

/// The go-to prefix captures exactly one key: the chord is over after it, whatever
/// it was.
pub proof fn the_go_to_chord_takes_one_key(model: AppModel, key: KeyEvent, now: Option<Duration>)
    requires
        model.error is None,
        model.awaiting_go_to,
        key.kind != KeyEventKind::Release,
    ensures
        !model.on_key(key, now).awaiting_go_to,
{
}

/// A key that names no place to go to leaves everything but the chord as it was,
/// and the overlays open. `?` also opens the help.
pub proof fn other_keys_cancel_the_go_to_chord(
    model: AppModel,
    key: KeyEvent,
    now: Option<Duration>,
)
    requires
        model.error is None,
        model.awaiting_go_to,
        key.kind != KeyEventKind::Release,
        !is_go_to_target(key.code),
    ensures
        model.on_key(key, now) == model.with_go_to(false).with_help(
            model.show_help || key.code == KeyCode::Char('?'),
        ),
{
}

/// Going somewhere by the chord closes every overlay.
pub proof fn going_somewhere_closes_the_overlays(
    model: AppModel,
    key: KeyEvent,
    now: Option<Duration>,
)
    requires
        model.error is None,
        model.awaiting_go_to,
        key.kind != KeyEventKind::Release,
        is_go_to_target(key.code),
    ensures
        ({
            let after = model.on_key(key, now);
            after.popup is None && after.library_picker is None && after.playlist_picker is None
                && after.video_track_picker is None && after.media_options_view is None
                && after.theme_picker is None && !after.show_help
        }),
{
}

/// Any key closes the help overlay and does nothing else.
pub proof fn any_key_closes_the_help(model: AppModel, key: KeyEvent, now: Option<Duration>)
    requires
        key.kind != KeyEventKind::Release,
        model.error is None,
        !model.awaiting_go_to,
        model.help_takes_keys(),
    ensures
        model.on_key(key, now) == model.with_help(false),
{
    reveal(AppModel::captured_key);
}

/// While a search input takes text, the go-to key is typed like any other.
pub proof fn typing_never_begins_the_go_to_chord(
    model: AppModel,
    key: KeyEvent,
    now: Option<Duration>,
)
    requires
        key.kind != KeyEventKind::Release,
        model.error is None,
        !model.awaiting_go_to,
        model.takes_text(),
    ensures
        model.on_key(key, now) == model.captured_key(key, now),
{
}

/// Outside the popup menus only the shuffle key looks at the clock: every other key
/// does the same at any time.
pub proof fn keys_outside_the_menu_ignore_the_time(
    model: AppModel,
    key: KeyEvent,
    now: Option<Duration>,
    later: Option<Duration>,
)
    requires
        model.popup is None,
        model.action_of(key) != Some(Action::QueueShuffle),
    ensures
        model.on_key(key, now) == model.on_key(key, later),
{
    reveal(AppModel::captured_key);
    reveal(AppModel::free_key);
    reveal(AppModel::pane_action);
}

} // verus!
