//! What the screen shows as a whole: which view fills it, which overlay lies on top,
//! and what the status row says.

use vstd::prelude::*;

use super::app::menus::{
    render_library_picker_data, render_playlist_picker_data, render_video_track_picker_data,
};
use super::app::state::{App, AppModel};
use super::app::types::Pane;
use crate::sequences::copy_texts;
use crate::text::{concat3, concat4};

verus! {

/// Which view fills the screen between top bar and now-playing bar.
#[derive(Debug, Clone, Copy, PartialEq, Eq, Structural)]
pub enum MainView {
    /// The global search takes over the whole band.
    GlobalSearch,
    /// Home takes over the whole band.
    Home,
    /// The library panes, with a video's play options in the middle one.
    PlayOptions,
    /// The library panes.
    Library,
}

impl AppModel {
    /// Which view fills the screen.
    pub open spec fn main_view(self) -> MainView {
        if self.focus == Pane::GlobalSearch {
            MainView::GlobalSearch
        } else if self.focus == Pane::Home {
            MainView::Home
        } else if self.media_options_view is Some {
            MainView::PlayOptions
        } else {
            MainView::Library
        }
    }

    /// The title of the library items pane's level.
    pub open spec fn root_title(self) -> Seq<char> {
        match self.root_level() {
            Some(level) => level.title,
            None => ""@,
        }
    }
}

impl App {
    /// Which view fills the screen.
    pub fn main_view(&self) -> (view: MainView)
        ensures
            view == self@.main_view(),
    {
        if self.is_on_global_search() {
            MainView::GlobalSearch
        } else if self.is_on_home() {
            MainView::Home
        } else if self.media_options_view.is_some() {
            MainView::PlayOptions
        } else {
            MainView::Library
        }
    }

    /// The title of the library items pane's level.
    pub fn root_title(&self) -> (title: String)
        ensures
            title@ == self@.root_title(),
    {
        match self.root_level() {
            Some(level) => level.title.clone(),
            None => "".to_owned(),
        }
    }
}

// ---------------------------------------------------------------------------
// Overlays

/// What lies on top of the screen.
#[derive(Debug)]
pub enum Overlay {
    Nothing,
    /// The error modal, and whether the log location was copied.
    Error(String, bool),
    /// The theme picker: names and highlighted one.
    Themes(Vec<String>, usize),
    /// A popup: title, entries, highlighted one.
    Menu(&'static str, Vec<String>, usize),
    /// The key overview.
    Help,
}

/// The contents of an [`Overlay`].
#[verifier::ext_equal]
pub enum OverlayModel {
    Nothing,
    Error(Seq<char>, bool),
    Themes(Seq<Seq<char>>, usize),
    Menu(Seq<char>, Seq<Seq<char>>, usize),
    Help,
}

impl View for Overlay {
    type V = OverlayModel;

    open spec fn view(&self) -> OverlayModel {
        match self {
            Overlay::Nothing => OverlayModel::Nothing,
            Overlay::Error(message, copied) => OverlayModel::Error(message@, *copied),
            Overlay::Themes(names, selected) => OverlayModel::Themes(names.deep_view(), *selected),
            Overlay::Menu(title, entries, selected) => OverlayModel::Menu(
                title@,
                entries.deep_view(),
                *selected,
            ),
            Overlay::Help => OverlayModel::Help,
        }
    }
}

impl AppModel {
    /// What lies on top of the screen: the error modal before anything else, then
    /// the pickers, then the popup menus, then the help.
    pub open spec fn overlay(self) -> OverlayModel {
        if self.error is Some {
            OverlayModel::Error(self.error->0, self.error_copied)
        } else if self.theme_picker is Some {
            OverlayModel::Themes(self.available_themes, self.theme_picker->0)
        } else if self.library_picker is Some {
            let shown = self.library_picker->0.shown();
            OverlayModel::Menu(shown.0, shown.1, shown.2)
        } else if self.playlist_picker is Some {
            let shown = self.playlist_picker->0.shown();
            OverlayModel::Menu(shown.0, shown.1, shown.2)
        } else if self.video_track_picker is Some {
            let shown = self.video_track_picker->0.shown();
            OverlayModel::Menu(shown.0, shown.1, shown.2)
        } else if self.popup is Some {
            let shown = self.popup_shown()->0;
            OverlayModel::Menu(shown.0, shown.1, shown.2)
        } else if self.show_help {
            OverlayModel::Help
        } else {
            OverlayModel::Nothing
        }
    }
}

impl App {
    /// What lies on top of the screen. Shared by every view, so that a popup opened
    /// from Home or Search still shows.
    pub fn overlay(&self) -> (overlay: Overlay)
        ensures
            overlay@ == self@.overlay(),
    {
        if let Some(message) = &self.error {
            return Overlay::Error(message.clone(), self.error_copied);
        }
        if let Some(selected) = self.theme_picker {
            return Overlay::Themes(copy_texts(&self.available_themes), selected);
        }
        if let Some(picker) = &self.library_picker {
            let (title, entries, selected) = render_library_picker_data(picker);
            return Overlay::Menu(title, entries, selected);
        }
        if let Some(picker) = &self.playlist_picker {
            let (title, entries, selected) = render_playlist_picker_data(picker);
            return Overlay::Menu(title, entries, selected);
        }
        if let Some(picker) = &self.video_track_picker {
            let (title, entries, selected) = render_video_track_picker_data(picker);
            return Overlay::Menu(title, entries, selected);
        }
        if let Some((title, entries, selected)) = self.popup_menu() {
            return Overlay::Menu(title, entries, selected);
        }
        if self.show_help {
            Overlay::Help
        } else {
            Overlay::Nothing
        }
    }
}

/// The title of a popup menu.
pub fn menu_title(title: &str) -> (text: String)
    ensures
        text@ == " "@ + title@ + " — Enter selects, Esc cancels "@,
{
    concat3(" ", title, " — Enter selects, Esc cancels ")
}

/// The entry that a popup menu highlights: one that is there.
pub fn menu_highlight(selected: usize, entry_count: usize) -> (row: usize)
    ensures
        row == (if selected < entry_count {
            selected as int
        } else if entry_count == 0 {
            0
        } else {
            entry_count - 1
        }),
{
    if selected < entry_count {
        selected
    } else if entry_count == 0 {
        0
    } else {
        entry_count - 1
    }
}

// ---------------------------------------------------------------------------
// Status row

/// What the status row says.
#[derive(Debug)]
pub struct StatusLine {
    pub left: String,
    /// The key hint on the right; none while the go-to chord is on.
    pub hint: Option<&'static str>,
}

/// The contents of a [`StatusLine`].
#[verifier::ext_equal]
pub struct StatusModel {
    pub left: Seq<char>,
    pub hint: Option<Seq<char>>,
}

impl View for StatusLine {
    type V = StatusModel;

    open spec fn view(&self) -> StatusModel {
        StatusModel { left: self.left@, hint: self.hint.deep_view() }
    }
}

/// How the status row names a pane.
pub open spec fn pane_name_of(pane: Pane) -> Seq<char> {
    match pane {
        Pane::TopBar => "Libraries"@,
        Pane::LibraryItems => "Items"@,
        Pane::LibrarySections => "Sections"@,
        Pane::Content => "Details"@,
        Pane::ContextTop => "Context"@,
        Pane::ContextBottom => "Queue"@,
        Pane::Home => "Home"@,
        Pane::GlobalSearch => "Search"@,
    }
}

/// How the status row names a pane.
pub fn pane_name(pane: Pane) -> (name: &'static str)
    ensures
        name@ == pane_name_of(pane),
{
    match pane {
        Pane::TopBar => "Libraries",
        Pane::LibraryItems => "Items",
        Pane::LibrarySections => "Sections",
        Pane::Content => "Details",
        Pane::ContextTop => "Context",
        Pane::ContextBottom => "Queue",
        Pane::Home => "Home",
        Pane::GlobalSearch => "Search",
    }
}

impl AppModel {
    /// Where the user is, in the status row.
    pub open spec fn whereabouts(self) -> Seq<char> {
        match self.focus {
            Pane::Home => " Home  ·  dashboard "@,
            Pane::GlobalSearch => if self.global_search.query.len() == 0 {
                " Search  ·  global "@
            } else {
                " Search  ·  global  ·  \""@ + self.global_search.query + "\" "@
            },
            _ => " "@ + pane_name_of(self.focus) + "  ·  "@ + self.path() + "  ·  "@ + (
            match self.current_item() {
                Some(item) => item.name,
                None => "-"@,
            }) + " "@,
        }
    }

    /// What the status row says. A transient note takes over the left side.
    pub open spec fn status(self) -> StatusModel {
        if self.awaiting_go_to {
            StatusModel {
                left:
                    " Go to: h Home · s Search · t Top · i Items · c Content · n Info · l Lyrics · q Queue · ? Help · Esc cancel "@,
                hint: None,
            }
        } else {
            StatusModel {
                left: match self.status_message {
                    Some(message) => " "@ + message + " "@,
                    None => self.whereabouts(),
                },
                hint: Some(" Enter open/play · Bksp back · g go to · F1 help · q quit "@),
            }
        }
    }
}

impl App {
    fn whereabouts(&self) -> (text: String)
        ensures
            text@ == self@.whereabouts(),
    {
        match self.focus {
            Pane::Home => " Home  ·  dashboard ".to_owned(),
            Pane::GlobalSearch => if self.global_search.query.as_str().is_empty() {
                " Search  ·  global ".to_owned()
            } else {
                concat3(
                    " Search  ·  global  ·  \"",
                    self.global_search.query.as_str(),
                    "\" ",
                )
            },
            _ => {
                let item = match self.current_item() {
                    Some(item) => item.name.as_str(),
                    None => "-",
                };
                let mut text = concat4(
                    " ",
                    pane_name(self.focus),
                    "  ·  ",
                    self.breadcrumb().as_str(),
                );
                text.append("  ·  ");
                text.append(item);
                text.append(" ");
                text
            },
        }
    }

    /// What the status row says.
    pub fn status_line(&self) -> (status: StatusLine)
        ensures
            status@ == self@.status(),
    {
        if self.awaiting_go_to {
            return StatusLine {
                left:
                    " Go to: h Home · s Search · t Top · i Items · c Content · n Info · l Lyrics · q Queue · ? Help · Esc cancel ".to_owned(),
                hint: None,
            };
        }
        let left = match &self.status_message {
            Some(message) => concat3(" ", message.as_str(), " "),
            None => self.whereabouts(),
        };
        StatusLine {
            left,
            hint: Some(" Enter open/play · Bksp back · g go to · F1 help · q quit "),
        }
    }
}

/// The error modal hides every other overlay.
pub proof fn errors_lie_on_top(model: AppModel)
    requires
        model.error is Some,
    ensures
        model.overlay() == OverlayModel::Error(model.error->0, model.error_copied),
{
}

/// The status row always carries the key hint, except while the go-to chord is on.
pub proof fn only_the_go_to_chord_hides_the_hint(model: AppModel)
    ensures
        model.status().hint is None <==> model.awaiting_go_to,
{
}

} // verus!
