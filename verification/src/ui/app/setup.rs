//! How a client is set up from the configuration, and the small accessors that
//! the renderer reads.

use vstd::prelude::*;

use super::state::{App, AppModel};
use super::types::{ContextTopView, RepeatMode};
use crate::config::EqPreset;
use crate::string_map::StringMap;
use crate::theme::Theme;
use crate::ui::keymap::Keymap;

verus! {

impl AppModel {
    /// With the library of the given id active, or the first one if there is none
    /// of that id.
    pub open spec fn last_library_restored(self, id: Option<Seq<char>>) -> AppModel {
        match id {
            Some(wanted) => match self.library_position(wanted) {
                Some(index) => self.on_library(index),
                None => if self.library_selected == 0 {
                    self
                } else {
                    self.on_library(0)
                },
            },
            None => self,
        }
    }

    /// With the error modal open on a message.
    pub open spec fn failed(self, message: Seq<char>) -> AppModel {
        AppModel { error: Some(message), error_copied: false, ..self }
    }
}

impl Default for App {
    fn default() -> (app: App)
        ensures
            app@ == AppModel::started(super::state::demo_libraries()),
    {
        App::new()
    }
}

impl App {
    /// Replace the keymap (built from config at startup).
    pub fn with_keymap(self, keymap: Keymap) -> (app: App)
        ensures
            app@ == (AppModel { keymap: keymap@, ..self@ }),
    {
        let mut app = self;
        app.keymap = keymap;
        app
    }

    /// Set the active theme (startup, from config, or a runtime switch).
    pub fn with_theme(self, theme: Theme) -> (app: App)
        ensures
            app@ == (AppModel { theme: theme@, ..self@ }),
    {
        let mut app = self;
        app.theme = theme;
        app
    }

    /// Switch the active theme.
    pub fn set_theme(&mut self, theme: Theme)
        ensures
            final(self)@ == (AppModel { theme: theme@, ..old(self)@ }),
    {
        self.theme = theme;
    }

    /// Provide the selectable theme names (built-ins + user themes).
    pub fn with_available_themes(self, names: Vec<String>) -> (app: App)
        ensures
            app@ == (AppModel { available_themes: names.deep_view(), ..self@ }),
    {
        let mut app = self;
        app.available_themes = names;
        app
    }

    /// Wire the persisted audio-feature toggles (gapless / normalization /
    /// EQ preset) and the mpv-args count so the client menu reflects them.
    pub fn with_audio_features(
        self,
        gapless: bool,
        normalization: bool,
        eq_preset: EqPreset,
        mpv_arg_count: usize,
    ) -> (app: App)
        ensures
            app@ == (AppModel { gapless, normalization, eq_preset, mpv_arg_count, ..self@ }),
    {
        let mut app = self;
        app.gapless = gapless;
        app.normalization = normalization;
        app.eq_preset = eq_preset;
        app.mpv_arg_count = mpv_arg_count;
        app
    }

    /// Seed the queue mode + shuffle from persisted config.
    pub fn with_audio_prefs(self, repeat_mode: RepeatMode, shuffle: bool) -> (app: App)
        ensures
            app@ == (AppModel { repeat_mode, shuffle, ..self@ }),
    {
        let mut app = self;
        app.repeat_mode = repeat_mode;
        app.shuffle = shuffle;
        app
    }

    /// Seed the per-library section memory from persisted config, and restore the
    /// active library's remembered section so the first render matches it.
    pub fn with_section_memory(self, memory: StringMap<String>) -> (app: App)
        ensures
            app@ == (AppModel { section_memory: memory.deep_view(), ..self@ }).library_reset(),
    {
        let mut app = self;
        app.section_memory = memory;
        app.reset_stack_for_library();
        app
    }

    fn enter_library(&mut self, index: usize)
        ensures
            final(self)@ == old(self)@.on_library(index),
    {
        self.library_selected = index;
        self.reset_stack_for_library();
    }

    /// Focus the library by Jellyfin id (used at startup to restore the
    /// previously-active library). Falls back to the first library if the id
    /// no longer exists.
    pub fn with_last_library(self, id: Option<String>) -> (app: App)
        ensures
            app@ == self@.last_library_restored(id.deep_view()),
    {
        let mut app = self;
        if let Some(id) = id {
            match app.library_position(id.as_str()) {
                Some(index) => app.enter_library(index),
                None => {
                    if app.library_selected != 0 {
                        app.enter_library(0);
                    }
                },
            }
        }
        app
    }

    /// Seed the in-app recent-search list from persisted config.
    pub fn with_search_history(self, history: Vec<String>) -> (app: App)
        ensures
            app@ == (AppModel { search_history: history.deep_view(), ..self@ }),
    {
        let mut app = self;
        app.search_history = history;
        app
    }

    /// Surface an error to the user via the modal overlay.
    pub fn show_error(&mut self, message: &str)
        ensures
            final(self)@ == old(self)@.failed(message@),
    {
        self.error = Some(message.to_owned());
        self.error_copied = false;
    }

    /// Record whether the log location made it to the clipboard.
    pub fn set_error_copied(&mut self, copied: bool)
        ensures
            final(self)@ == (AppModel { error_copied: copied, ..old(self)@ }),
    {
        self.error_copied = copied;
    }

    /// Which view the top-right pane renders.
    pub fn context_view(&self) -> (view: ContextTopView)
        ensures
            view == self@.context_view,
    {
        self.context_view
    }

    /// Rows the top-right pane is scrolled by.
    pub fn context_top_scroll(&self) -> (rows: u16)
        ensures
            rows == self@.context_top_scroll,
    {
        self.context_top_scroll
    }

    /// Rows the bottom-right pane is scrolled by.
    pub fn context_bottom_scroll(&self) -> (rows: u16)
        ensures
            rows == self@.context_bottom_scroll,
    {
        self.context_bottom_scroll
    }
}

/// Restoring a library that is gone lands on the first one.
pub proof fn a_missing_library_falls_back_to_the_first(model: AppModel, id: Seq<char>)
    requires
        model.library_position(id) is None,
    ensures
        model.last_library_restored(Some(id)).library_selected == 0,
{
}

} // verus!
