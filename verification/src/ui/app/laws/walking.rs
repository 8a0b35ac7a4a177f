//! Walking lists, levels and panes: one key, one step.

use vstd::prelude::*;

use crate::sequences;
use crate::ui::app::navigation;
use crate::ui::app::navigation::CursorMove;
use crate::ui::app::state::AppModel;
use crate::ui::app::types::{ContextTopView, ItemDetailModel, LevelModel, Pane};

verus! {

// ---------------------------------------------------------------------------
// One level

/// Up ends one row higher and Down one row lower, and both stop at the ends.
pub proof fn the_cursor_moves_by_one_row(level: LevelModel)
    ensures
        level.selected > 0 ==> level.moved(CursorMove::Up).selected == level.selected - 1,
        level.selected == 0 ==> level.moved(CursorMove::Up).selected == 0,
        level.selected + 1 < level.items.len() && level.selected < usize::MAX ==> level.moved(
            CursorMove::Down,
        ).selected == level.selected + 1,
        level.selected + 1 >= level.items.len() ==> level.moved(CursorMove::Down).selected
            == level.selected,
{
}

/// Down and Up undo each other, from any row with a row to go to.
pub proof fn down_and_up_undo_each_other(level: LevelModel)
    requires
        level.items.len() <= usize::MAX,
        level.selected < level.items.len(),
    ensures
        level.selected + 1 < level.items.len() ==> level.moved(CursorMove::Down).moved(
            CursorMove::Up,
        ) == level,
        level.selected > 0 ==> level.moved(CursorMove::Up).moved(CursorMove::Down) == level,
{
}

/// The jumps end on the outermost rows: nothing lies above the one, nothing below the
/// other.
pub proof fn jumps_reach_the_ends(level: LevelModel, row: int)
    requires
        level.items.len() <= usize::MAX,
        0 <= row < level.items.len(),
    ensures
        level.moved(CursorMove::Top).selected <= row <= level.moved(CursorMove::Bottom).selected,
        level.moved(CursorMove::Bottom).selected < level.items.len(),
{
}

/// Moving the cursor changes the cursor's row and nothing else of a level.
pub proof fn moving_keeps_the_list(level: LevelModel, step: CursorMove)
    ensures
        ({
            let after = level.moved(step);
            &&& after.items == level.items
            &&& after.title == level.title
            &&& after.parent_id == level.parent_id
            &&& after.parent_item == level.parent_item
            &&& after.loading == level.loading
            &&& after.cursor_engaged == level.cursor_engaged
        }),
{
}

/// A level after a movement was made `times` times.
pub open spec fn repeated(level: LevelModel, step: CursorMove, times: nat) -> LevelModel
    decreases times,
{
    if times == 0 {
        level
    } else {
        repeated(level, step, (times - 1) as nat).moved(step)
    }
}

/// From the top, so many presses of Down end on the row of that number: no row is
/// skipped, and the last one is reached.
pub proof fn down_visits_every_row(level: LevelModel, row: nat)
    requires
        level.items.len() <= usize::MAX,
        row < level.items.len(),
    ensures
        repeated(level.moved(CursorMove::Top), CursorMove::Down, row).selected == row,
        repeated(level.moved(CursorMove::Top), CursorMove::Down, row).items == level.items,
    decreases row,
{
    if row > 0 {
        down_visits_every_row(level, (row - 1) as nat);
        the_cursor_moves_by_one_row(
            repeated(level.moved(CursorMove::Top), CursorMove::Down, (row - 1) as nat),
        );
        moving_keeps_the_list(
            repeated(level.moved(CursorMove::Top), CursorMove::Down, (row - 1) as nat),
            CursorMove::Down,
        );
    }
}

/// From the bottom, so many presses of Up end that many rows above the last one.
pub proof fn up_visits_every_row(level: LevelModel, steps: nat)
    requires
        level.items.len() <= usize::MAX,
        steps < level.items.len(),
    ensures
        repeated(level.moved(CursorMove::Bottom), CursorMove::Up, steps).selected
            == level.items.len() - 1 - steps,
    decreases steps,
{
    if steps > 0 {
        up_visits_every_row(level, (steps - 1) as nat);
        the_cursor_moves_by_one_row(
            repeated(level.moved(CursorMove::Bottom), CursorMove::Up, (steps - 1) as nat),
        );
    }
}

/// The item under the cursor is the one in the cursor's row.
pub proof fn the_row_decides_the_item(level: LevelModel)
    ensures
        level.selected < level.items.len() ==> level.selected_item() == Some(
            level.items[level.selected as int],
        ),
        level.selected >= level.items.len() ==> level.selected_item() is None,
{
}

// ---------------------------------------------------------------------------
// The focused pane

/// In the items pane Up and Down move the root list's cursor by one row and touch
/// nothing else.
pub proof fn the_items_pane_walks_the_root(app: AppModel)
    requires
        app.focus == Pane::LibraryItems,
        app.stack.len() > 0,
        app.stack[0].items.len() <= usize::MAX,
    ensures
        ({
            let root = app.stack[0];
            let down = app.cursor_lowered();
            let up = app.cursor_raised();
            &&& down.stack.len() == app.stack.len() && up.stack.len() == app.stack.len()
            &&& root.selected + 1 < root.items.len() ==> down.stack[0].selected == root.selected + 1
            &&& root.selected + 1 >= root.items.len() ==> down.stack[0].selected == root.selected
            &&& root.selected > 0 ==> up.stack[0].selected == root.selected - 1
            &&& root.selected == 0 ==> up.stack[0].selected == 0
            &&& down.stack[0].items == root.items && up.stack[0].items == root.items
            &&& app.cursor_at_top().stack[0].selected == 0
            &&& root.items.len() > 0 ==> app.cursor_at_bottom().stack[0].selected
                == root.items.len() - 1
            &&& forall|depth: int|
                0 < depth < app.stack.len() ==> #[trigger] down.stack[depth] == app.stack[depth]
                    && up.stack[depth] == app.stack[depth]
            &&& down == (AppModel { stack: down.stack, ..app })
            &&& up == (AppModel { stack: up.stack, ..app })
        }),
{
}

/// In the middle pane Up and Down move the opened folder's cursor by one row, which
/// then counts as used, and touch nothing else.
pub proof fn the_middle_pane_walks_the_folder(app: AppModel)
    requires
        app.focus == Pane::Content,
        app.stack.len() > 1,
        app.stack.last().items.len() <= usize::MAX,
    ensures
        ({
            let folder = app.stack.last();
            let down = app.cursor_lowered();
            let up = app.cursor_raised();
            &&& down.stack.len() == app.stack.len() && up.stack.len() == app.stack.len()
            &&& folder.selected + 1 < folder.items.len() ==> down.stack.last().selected
                == folder.selected + 1
            &&& folder.selected + 1 >= folder.items.len() ==> down.stack.last().selected
                == folder.selected
            &&& folder.selected > 0 ==> up.stack.last().selected == folder.selected - 1
            &&& folder.selected == 0 ==> up.stack.last().selected == 0
            &&& down.stack.last().items == folder.items && up.stack.last().items == folder.items
            &&& down.stack.last().cursor_engaged && up.stack.last().cursor_engaged
            &&& app.cursor_at_top().stack.last().selected == 0
            &&& folder.items.len() > 0 ==> app.cursor_at_bottom().stack.last().selected
                == folder.items.len() - 1
            &&& forall|depth: int|
                0 <= depth < app.stack.len() - 1 ==> #[trigger] down.stack[depth]
                    == app.stack[depth] && up.stack[depth] == app.stack[depth]
            &&& down == (AppModel { stack: down.stack, ..app })
            &&& up == (AppModel { stack: up.stack, ..app })
        }),
{
}

/// In the sections pane Up and Down move to the neighbouring section and touch nothing
/// else.
pub proof fn the_sections_pane_walks_the_sections(app: AppModel)
    requires
        app.focus == Pane::LibrarySections,
        app.section_selected < app.sections().len(),
        app.sections().len() <= usize::MAX,
    ensures
        app.section_selected + 1 < app.sections().len() ==> app.cursor_lowered() == (AppModel {
            section_selected: (app.section_selected + 1) as usize,
            ..app
        }),
        app.section_selected + 1 == app.sections().len() ==> app.cursor_lowered() == app,
        app.section_selected > 0 ==> app.cursor_raised() == (AppModel {
            section_selected: (app.section_selected - 1) as usize,
            ..app
        }),
        app.section_selected == 0 ==> app.cursor_raised() == app,
        app.cursor_at_top().section_selected == 0,
        app.cursor_at_bottom().section_selected == app.sections().len() - 1,
{
}

/// In a context pane Down scrolls that pane by one row and Up scrolls back.
pub proof fn the_context_panes_scroll(app: AppModel)
    ensures
        app.focus == Pane::ContextTop && app.context_top_scroll < u16::MAX ==> {
            &&& app.cursor_lowered() == (AppModel {
                context_top_scroll: (app.context_top_scroll + 1) as u16,
                ..app
            })
            &&& app.cursor_lowered().cursor_raised() == app
        },
        app.focus == Pane::ContextBottom && app.context_bottom_scroll < u16::MAX ==> {
            &&& app.cursor_lowered() == (AppModel {
                context_bottom_scroll: (app.context_bottom_scroll + 1) as u16,
                ..app
            })
            &&& app.cursor_lowered().cursor_raised() == app
        },
        app.focus == Pane::ContextTop && app.context_top_scroll == 0 ==> app.cursor_raised() == app,
        app.focus == Pane::ContextBottom && app.context_bottom_scroll == 0 ==> app.cursor_raised()
            == app,
        app.focus == Pane::TopBar || app.focus == Pane::GlobalSearch ==> app.cursor_lowered() == app
            && app.cursor_raised() == app,
{
}

/// Scrolling moves by exactly the step asked for, as long as the offset can be counted,
/// and never above the first row.
pub proof fn scrolling_moves_by_the_step(scroll: u16, delta: int)
    ensures
        0 <= scroll + delta <= u16::MAX ==> navigation::scrolled_by(scroll, delta) == scroll + delta,
        scroll + delta < 0 ==> navigation::scrolled_by(scroll, delta) == 0,
{
}

/// The scroll keys scroll the bottom context pane while it is focused, and the top one
/// from anywhere else.
pub proof fn scrolling_picks_the_pane(app: AppModel, delta: int)
    ensures
        app.focus == Pane::ContextBottom && 0 <= app.context_bottom_scroll + delta <= u16::MAX
            ==> app.context_scrolled(delta) == (AppModel {
            context_bottom_scroll: (app.context_bottom_scroll + delta) as u16,
            ..app
        }),
        app.focus != Pane::ContextBottom && 0 <= app.context_top_scroll + delta <= u16::MAX
            ==> app.context_scrolled(delta) == (AppModel {
            context_top_scroll: (app.context_top_scroll + delta) as u16,
            ..app
        }),
{
}

// ---------------------------------------------------------------------------
// Panes

/// Tab goes from left to right: bar, items, sections, content.
pub proof fn tab_goes_from_left_to_right(app: AppModel)
    ensures
        app.focus == Pane::TopBar ==> app.focused_next().focus == Pane::LibraryItems,
        app.focus == Pane::LibraryItems ==> app.focused_next().focus == Pane::LibrarySections,
        app.focus == Pane::LibrarySections ==> app.focused_next().focus == Pane::Content,
        app.focus == Pane::Content ==> app.focused_previous().focus == Pane::LibrarySections,
        app.focus == Pane::LibrarySections ==> app.focused_previous().focus == Pane::LibraryItems,
        app.focus == Pane::LibraryItems ==> app.focused_previous().focus == Pane::TopBar,
        app.focus == Pane::Home || app.focus == Pane::GlobalSearch ==> app.focused_next().focus
            == Pane::TopBar,
        app.focused_next() == (AppModel { focus: app.focused_next().focus, ..app }),
        app.focused_previous() == (AppModel { focus: app.focused_previous().focus, ..app }),
{
    lemma_place(app);
}

proof fn lemma_place(app: AppModel)
    ensures
        ({
            let cycle = app.pane_cycle();
            &&& 4 <= cycle.len() <= 6
            &&& cycle[0] == Pane::TopBar
            &&& cycle[1] == Pane::LibraryItems
            &&& cycle[2] == Pane::LibrarySections
            &&& cycle[3] == Pane::Content
            &&& cycle.len() == 5 ==> cycle[4] == Pane::ContextTop || cycle[4] == Pane::ContextBottom
            &&& cycle.len() == 6 ==> cycle[4] == Pane::ContextTop && cycle[5]
                == Pane::ContextBottom
            &&& match sequences::first_index(cycle, navigation::is_pane(app.focus)) {
                Some(i) => 0 <= i < cycle.len() && cycle[i] == app.focus && forall|j: int|
                    0 <= j < i ==> #[trigger] cycle[j] != app.focus,
                None => forall|j: int| 0 <= j < cycle.len() ==> #[trigger] cycle[j] != app.focus,
            }
        }),
{
    let p = navigation::is_pane(app.focus);
    let cycle = app.pane_cycle();
    sequences::lemma_first_index(cycle, p);
    match sequences::first_index(cycle, p) {
        Some(i) => {
            assert forall|j: int| 0 <= j < i implies #[trigger] cycle[j] != app.focus by {
                assert(!p(cycle[j]));
            }
        },
        None => {
            assert forall|j: int| 0 <= j < cycle.len() implies #[trigger] cycle[j] != app.focus by {
                assert(!p(cycle[j]));
            }
        },
    }
}

/// Past the middle pane Tab reaches the context panes that have something to show, the
/// top one first, and then comes round to the bar.
pub proof fn tab_reaches_the_context_panes_with_content(app: AppModel)
    ensures
        app.focus == Pane::Content && app.context_top_active() ==> app.focused_next().focus
            == Pane::ContextTop,
        app.focus == Pane::Content && !app.context_top_active() && app.context_bottom_active()
            ==> app.focused_next().focus == Pane::ContextBottom,
        app.focus == Pane::Content && !app.context_top_active() && !app.context_bottom_active()
            ==> app.focused_next().focus == Pane::TopBar,
        app.focus == Pane::ContextTop && app.context_top_active() && app.context_bottom_active()
            ==> app.focused_next().focus == Pane::ContextBottom,
        app.focus == Pane::ContextBottom && app.context_bottom_active() ==> app.focused_next().focus
            == Pane::TopBar,
        app.focus == Pane::TopBar && app.context_bottom_active() ==> app.focused_previous().focus
            == Pane::ContextBottom,
        app.focus == Pane::TopBar && app.context_top_active() && !app.context_bottom_active()
            ==> app.focused_previous().focus == Pane::ContextTop,
        app.focus == Pane::TopBar && !app.context_top_active() && !app.context_bottom_active()
            ==> app.focused_previous().focus == Pane::Content,
        app.focus == Pane::Home || app.focus == Pane::GlobalSearch ==> app.focused_previous().focus
            == (AppModel { focus: Pane::TopBar, ..app }).focused_previous().focus,
        app.focus == Pane::ContextTop && app.context_top_active()
            ==> app.focused_previous().focus == Pane::Content,
{
    lemma_place(app);
    lemma_place(AppModel { focus: Pane::TopBar, ..app });
}

/// A music library has a top context pane, and a bottom one as soon as something is
/// queued; films and shows have both once the current item is revealed; other
/// libraries have neither.
pub proof fn context_panes_follow_the_library(app: AppModel)
    requires
        app.library_selected < app.libraries.len(),
    ensures
        ({
            let kind = app.libraries[app.library_selected as int].collection_type;
            let revealed = app.current_item() is Some && app.revealed_item_id == Some(
                app.current_item()->0.id,
            );
            &&& kind == Some("music"@) ==> app.context_top_active()
            &&& kind == Some("music"@) ==> (app.context_bottom_active() <==> app.queue.len() > 0)
            &&& (kind == Some("movies"@) || kind == Some("tvshows"@)) && kind != Some("music"@) ==> (
            app.context_top_active() <==> revealed) && (app.context_bottom_active() <==> revealed)
            &&& kind is None ==> !app.context_top_active() && !app.context_bottom_active()
        }),
{
}

// ---------------------------------------------------------------------------
// What is current

/// With the items pane focused the root list's selection is current, whatever folder is
/// open; from elsewhere the innermost level decides.
pub proof fn the_focus_decides_what_is_current(app: AppModel)
    requires
        app.stack.len() > 0,
    ensures
        ({
            let level = if app.focus == Pane::LibraryItems {
                app.stack[0]
            } else {
                app.stack.last()
            };
            &&& level.cursor_engaged && level.selected < level.items.len() ==> app.current_item()
                == Some(level.items[level.selected as int])
            &&& !level.cursor_engaged && level.parent_item is Some ==> app.current_item()
                == level.parent_item
            &&& level.selected >= level.items.len() ==> app.current_item() == level.parent_item
            &&& app.root_level() == Some(app.stack[0])
            &&& app.current_level() == Some(app.stack.last())
            &&& app.drilled_level() == (if app.stack.len() > 1 {
                Some(app.stack.last())
            } else {
                None
            })
        }),
{
}

/// A detail is shown only for the item that it was fetched for.
pub proof fn a_detail_belongs_to_its_item(app: AppModel)
    ensures
        app.shown_detail() matches Some(detail) ==> app.current_item() is Some
            && app.current_detail == Some((app.current_item()->0.id, detail)),
        app.current_detail matches Some((id, detail)) ==> (app.current_item() is Some
            && app.current_item()->0.id == id ==> app.shown_detail() == Some(detail)),
{
}

/// An item counts as revealed exactly while it is current and its id was revealed.
pub proof fn revealing_is_by_id(app: AppModel, id: Seq<char>)
    ensures
        app.revealing(id).current_item_revealed() <==> app.current_item() is Some
            && app.current_item()->0.id == id,
        app.revealing(id) == (AppModel { revealed_item_id: Some(id), ..app }),
        app.detail_cleared().current_detail is None,
        !app.detail_cleared().current_item_revealed(),
        app.detail_cleared().context_view == ContextTopView::Lyrics,
        app.detail_cleared().context_top_scroll == 0,
        app.detail_cleared().context_bottom_scroll == 0,
        app.detail_cleared().media_options_view is None,
        app.selection_left().context_top_scroll == 0,
        app.selection_left().context_bottom_scroll == 0,
        app.selection_left().media_options_view is None,
        app.selection_left().current_detail == app.current_detail,
        app.selection_left().revealed_item_id == app.revealed_item_id,
        app.selection_left().stack == app.stack,
        app.detail_cleared().stack == app.stack,
{
}

/// Switching the context view shows it from its top; staying on it keeps the place.
pub proof fn another_view_starts_at_its_top(app: AppModel, view: ContextTopView)
    ensures
        app.viewing(view).context_view == view,
        app.context_view != view ==> app.viewing(view).context_top_scroll == 0,
        app.context_view == view ==> app.viewing(view) == app,
        app.viewing(view).context_bottom_scroll == app.context_bottom_scroll,
        app.viewing(view).stack == app.stack,
        app.viewing(view).focus == app.focus,
{
}

/// A fetched detail is kept for its item and reaches an open options view of the same
/// item; it changes nothing else.
pub proof fn a_detail_reaches_its_item(app: AppModel, id: Seq<char>, detail: ItemDetailModel)
    ensures
        ({
            let after = app.detail_arrived(id, detail);
            &&& app.current_item() is Some && app.current_item()->0.id == id
                ==> after.current_detail == Some((id, detail))
            &&& !(app.current_item() is Some && app.current_item()->0.id == id)
                ==> after.current_detail == app.current_detail
            &&& app.media_options_view is Some && app.media_options_view->0.item_id == id ==> {
                &&& after.media_options_view is Some
                &&& after.media_options_view->0.trailer_urls == detail.trailer_urls
                &&& after.media_options_view->0.chapters == detail.chapters
                &&& after.media_options_view->0.versions == app.media_options_view->0.versions
                &&& after.media_options_view->0.cursor == app.media_options_view->0.cursor
            }
            &&& app.media_options_view is Some && app.media_options_view->0.item_id != id
                ==> after.media_options_view == app.media_options_view
            &&& app.media_options_view is None ==> after.media_options_view is None
            &&& after == (AppModel {
                current_detail: after.current_detail,
                media_options_view: after.media_options_view,
                ..app
            })
        }),
{
}

} // verus!
