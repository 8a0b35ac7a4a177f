//! What fills the screen, what lies on top of it, and what the status row says.

use vstd::prelude::*;
use vstd::string::*;

use crate::ui::app::state::App;
use crate::ui::app::types::Pane;
use crate::ui::screen;
use crate::ui::screen::{MainView, Overlay, OverlayModel, StatusLine};

verus! {

/// Search and Home fill the screen while they have the focus; otherwise the library does,
/// with a video's options where they are open.
pub proof fn the_focus_decides_the_view(app: App, view: MainView)
    requires
        call_ensures(App::main_view, (&app,), view),
    ensures
        app@.focus == Pane::GlobalSearch ==> view == MainView::GlobalSearch,
        app@.focus == Pane::Home ==> view == MainView::Home,
        app@.focus != Pane::GlobalSearch && app@.focus != Pane::Home ==> view == (
        if app@.media_options_view is Some {
            MainView::PlayOptions
        } else {
            MainView::Library
        }),
{
}

/// The items pane is titled by the outermost list.
pub proof fn the_items_pane_is_titled_by_its_list(app: App, title: String)
    requires
        call_ensures(App::root_title, (&app,), title),
    ensures
        app@.stack.len() > 0 ==> title@ == app@.stack[0].title,
        app@.stack.len() == 0 ==> title@.len() == 0,
{
    reveal_strlit("");
}

/// One overlay lies on top at a time: the error, the themes, the pickers, the menus, the
/// help, in that order, and each shows its own content.
pub proof fn one_overlay_lies_on_top(app: App, overlay: Overlay)
    requires
        call_ensures(App::overlay, (&app,), overlay),
    ensures
        ({
            let model = app@;
            let free = model.error is None && model.theme_picker is None;
            let unpicked = free && model.library_picker is None && model.playlist_picker is None
                && model.video_track_picker is None;
            &&& model.error matches Some(message) ==> overlay@ == OverlayModel::Error(
                message,
                model.error_copied,
            )
            &&& model.error is None && model.theme_picker is Some ==> overlay@
                == OverlayModel::Themes(model.available_themes, model.theme_picker->0)
            &&& free && model.library_picker is Some ==> overlay@ == OverlayModel::Menu(
                model.library_picker->0.shown().0,
                model.library_picker->0.shown().1,
                model.library_picker->0.shown().2,
            )
            &&& free && model.library_picker is None && model.playlist_picker is Some ==> overlay@
                == OverlayModel::Menu(
                model.playlist_picker->0.shown().0,
                model.playlist_picker->0.shown().1,
                model.playlist_picker->0.shown().2,
            )
            &&& free && model.library_picker is None && model.playlist_picker is None
                && model.video_track_picker is Some ==> overlay@ == OverlayModel::Menu(
                model.video_track_picker->0.shown().0,
                model.video_track_picker->0.shown().1,
                model.video_track_picker->0.shown().2,
            )
            &&& unpicked && model.popup is Some ==> {
                &&& model.popup_shown() matches Some((title, entries, row))
                &&& overlay@ == OverlayModel::Menu(title, entries, row)
            }
            &&& unpicked && model.popup is None && model.show_help ==> overlay@ is Help
            &&& unpicked && model.popup is None && !model.show_help ==> overlay@ is Nothing
        }),
{
}

/// The highlighted entry of a menu is one that is there, and the selected one as long as
/// it is.
pub proof fn the_highlight_stays_in_the_menu(selected: usize, count: usize, row: usize)
    requires
        call_ensures(screen::menu_highlight, (selected, count), row),
    ensures
        count > 0 ==> row < count,
        selected < count ==> row == selected,
        count > 0 && selected >= count ==> row == count - 1,
        count == 0 ==> row == 0,
{
}

/// Each pane has a name of its own in the status row.
pub proof fn panes_are_named(pane: Pane, name: &'static str)
    requires
        call_ensures(screen::pane_name, (pane,), name),
    ensures
        pane == Pane::TopBar ==> name@ == "Libraries"@,
        pane == Pane::LibraryItems ==> name@ == "Items"@,
        pane == Pane::LibrarySections ==> name@ == "Sections"@,
        pane == Pane::Content ==> name@ == "Details"@,
        pane == Pane::ContextTop ==> name@ == "Context"@,
        pane == Pane::ContextBottom ==> name@ == "Queue"@,
        pane == Pane::Home ==> name@ == "Home"@,
        pane == Pane::GlobalSearch ==> name@ == "Search"@,
{
}

/// The status row says where the go-to chord can go while it is on, else the latest note,
/// else where the user is: the pane, the path and the item.
pub proof fn the_status_row_says_where_the_user_is(app: App, status: StatusLine)
    requires
        call_ensures(App::status_line, (&app,), status),
    ensures
        ({
            let model = app@;
            let plain = !model.awaiting_go_to && model.status_message is None;
            &&& status.hint is None <==> model.awaiting_go_to
            &&& !model.awaiting_go_to && model.status_message is Some ==> status.left@ == " "@
                + model.status_message->0 + " "@
            &&& plain && model.focus == Pane::Home ==> status.left@ == " Home  ·  dashboard "@
            &&& plain && model.focus == Pane::GlobalSearch && model.global_search.query.len() > 0
                ==> status.left@ == " Search  ·  global  ·  \""@ + model.global_search.query
                + "\" "@
            &&& plain && model.focus == Pane::GlobalSearch && model.global_search.query.len() == 0
                ==> status.left@ == " Search  ·  global "@
            &&& plain && model.focus != Pane::Home && model.focus != Pane::GlobalSearch
                ==> status.left@ == " "@ + screen::pane_name_of(model.focus) + "  ·  "@
                + model.path() + "  ·  "@ + (if model.current_item() is Some {
                model.current_item()->0.name
            } else {
                "-"@
            }) + " "@
        }),
{
    assert(status@.left == status.left@);
    assert(status@.hint is None <==> status.hint is None);
}

} // verus!
