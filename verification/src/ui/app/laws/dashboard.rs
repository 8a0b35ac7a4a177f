//! The Home dashboard: its rows, its cursor, and what Enter opens.

use vstd::prelude::*;
use vstd::string::*;

use crate::sequences;
use crate::ui::app::home;
use crate::ui::app::state;
use crate::ui::app::state::AppModel;
use crate::ui::app::types::{
    HomeCursor, HomeDataModel, HomeLibraryModel, HomeRowKind, HomeRowModel, IntentModel, Pane,
};

verus! {

// ---------------------------------------------------------------------------
// Rows

/// How many rows a list takes: none while it is empty.
pub open spec fn rows_for(count: nat) -> int {
    if count > 0 {
        1
    } else {
        0
    }
}

/// Home shows what is being watched, what comes next, what is new, and the libraries, in
/// that order, each as one row with all its items and none where the list is empty.
pub proof fn home_rows_follow_the_lists(app: AppModel)
    ensures
        ({
            let rows = app.home_rows();
            let next_up = rows_for(app.home.resume.len());
            let latest = next_up + rows_for(app.home.next_up.len());
            let libraries = latest + rows_for(app.home.latest_global.len());
            let recent = libraries + rows_for(app.libraries.len());
            &&& app.home.resume.len() > 0 ==> rows[0] == (HomeRowModel {
                kind: HomeRowKind::Resume,
                title: "Continue"@,
                library_id: None,
                items: app.home.resume,
            })
            &&& app.home.next_up.len() > 0 ==> rows[next_up] == (HomeRowModel {
                kind: HomeRowKind::NextUp,
                title: "Next Up"@,
                library_id: None,
                items: app.home.next_up,
            })
            &&& app.home.latest_global.len() > 0 ==> rows[latest] == (HomeRowModel {
                kind: HomeRowKind::Recent,
                title: "Latest"@,
                library_id: None,
                items: app.home.latest_global,
            })
            &&& app.libraries.len() > 0 ==> {
                &&& rows[libraries].kind == HomeRowKind::Libraries
                &&& rows[libraries].title == "Libraries"@
                &&& rows[libraries].items.len() == app.libraries.len()
            }
            &&& rows.len() == recent + home::recent_rows(app.home.recent_per_library).len()
            &&& rows.skip(recent) == home::recent_rows(app.home.recent_per_library)
        }),
{
    let rows = app.home_rows();
    let recent = rows_for(app.home.resume.len()) + rows_for(app.home.next_up.len()) + rows_for(
        app.home.latest_global.len(),
    ) + rows_for(app.libraries.len());
    assert(rows.skip(recent) =~= home::recent_rows(app.home.recent_per_library));
}

/// Every library with recent items has a row of its own with exactly those items, in the
/// libraries' order; one without has none.
pub proof fn recent_items_are_shown_by_library(
    summaries: Seq<HomeLibraryModel>,
    next: HomeLibraryModel,
)
    ensures
        home::recent_rows(Seq::empty()).len() == 0,
        next.recent.len() == 0 ==> home::recent_rows(summaries.push(next)) == home::recent_rows(
            summaries,
        ),
        next.recent.len() > 0 ==> home::recent_rows(summaries.push(next)) == home::recent_rows(
            summaries,
        ).push(
            HomeRowModel {
                kind: HomeRowKind::Recent,
                title: "New in "@ + next.name,
                library_id: Some(next.id),
                items: next.recent,
            },
        ),
{
    sequences::lemma_filter_empty(home::has_recent());
    sequences::lemma_filter_push(summaries, next, home::has_recent());
    if next.recent.len() > 0 {
        assert(home::recent_rows(summaries.push(next)) =~= home::recent_rows(summaries).push(
            home::recent_row(next),
        ));
    }
}

/// A library's tile stands for that library: its id, name and type, and the cover of its
/// newest item.
pub proof fn a_tile_stands_for_its_library(app: AppModel, i: int, k: int)
    requires
        0 <= i < app.libraries.len(),
    ensures
        ({
            let tile = app.library_tiles()[i];
            let library = app.libraries[i];
            let summaries = app.home.recent_per_library;
            &&& tile.id == library.id
            &&& tile.name == library.name
            &&& tile.kind == library.collection_type
            &&& tile.is_folder
            &&& (0 <= k < summaries.len() && summaries[k].id == library.id && (forall|j: int|
                0 <= j < k ==> (#[trigger] summaries[j]).id != library.id)) ==> {
                &&& summaries[k].recent.len() > 0 ==> tile.primary_image_tag
                    == summaries[k].recent[0].primary_image_tag
                &&& summaries[k].recent.len() == 0 ==> tile.primary_image_tag is None
            }
            &&& (forall|j: int| 0 <= j < summaries.len() ==> (#[trigger] summaries[j]).id
                != library.id) ==> tile.primary_image_tag is None
        }),
{
    let library = app.libraries[i];
    let summaries = app.home.recent_per_library;
    let p = home::summary_has_id(library.id);
    if 0 <= k < summaries.len() && summaries[k].id == library.id && (forall|j: int|
        0 <= j < k ==> (#[trigger] summaries[j]).id != library.id) {
        sequences::lemma_first_index_found(summaries, p, k);
    }
    if forall|j: int| 0 <= j < summaries.len() ==> (#[trigger] summaries[j]).id != library.id {
        sequences::lemma_first_index_missing(summaries, p);
    }
}

// ---------------------------------------------------------------------------
// The cursor

/// Down goes to the row below and Up to the row above; the last row and the first stay.
/// The column is kept as far as the new row reaches.
pub proof fn the_home_cursor_moves_by_one_row(app: AppModel)
    requires
        app.home_cursor.row < app.home_rows().len() <= usize::MAX,
    ensures
        ({
            let rows = app.home_rows();
            let row = app.home_cursor.row;
            let down = app.home_row_moved(1);
            let up = app.home_row_moved(-1);
            &&& row + 1 < rows.len() ==> down.home_cursor.row == row + 1
            &&& row + 1 == rows.len() ==> down.home_cursor.row == row
            &&& row > 0 ==> up.home_cursor.row == row - 1
            &&& row == 0 ==> up.home_cursor.row == row
            &&& app.home_cursor.col < rows[down.home_cursor.row as int].items.len()
                ==> down.home_cursor.col == app.home_cursor.col
            &&& app.home_cursor.col < rows[up.home_cursor.row as int].items.len()
                ==> up.home_cursor.col == app.home_cursor.col
            &&& 0 < rows[down.home_cursor.row as int].items.len() <= app.home_cursor.col
                ==> down.home_cursor.col + 1 == rows[down.home_cursor.row as int].items.len()
            &&& 0 < rows[up.home_cursor.row as int].items.len() <= app.home_cursor.col
                ==> up.home_cursor.col + 1 == rows[up.home_cursor.row as int].items.len()
            &&& down == (AppModel { home_cursor: down.home_cursor, ..app })
            &&& up == (AppModel { home_cursor: up.home_cursor, ..app })
        }),
{
}

/// Right goes to the next tile of the row and Left to the previous one; the ends stay.
pub proof fn the_home_cursor_moves_by_one_tile(app: AppModel)
    requires
        app.home_cursor.row < app.home_rows().len(),
        app.home_cursor.col < app.home_rows()[app.home_cursor.row as int].items.len(),
        app.home_rows()[app.home_cursor.row as int].items.len() <= usize::MAX,
    ensures
        ({
            let len = app.home_rows()[app.home_cursor.row as int].items.len();
            let col = app.home_cursor.col;
            let right = app.home_col_moved(1);
            let left = app.home_col_moved(-1);
            &&& col + 1 < len ==> right.home_cursor.col == col + 1
            &&& col + 1 == len ==> right.home_cursor.col == col
            &&& col > 0 ==> left.home_cursor.col == col - 1
            &&& col == 0 ==> left.home_cursor.col == col
            &&& right.home_cursor.row == app.home_cursor.row
            &&& left.home_cursor.row == app.home_cursor.row
            &&& right == (AppModel { home_cursor: right.home_cursor, ..app })
            &&& left == (AppModel { home_cursor: left.home_cursor, ..app })
        }),
{
}

/// Right and then Left comes back to the same tile.
pub proof fn tile_steps_are_inverse(app: AppModel)
    requires
        app.home_cursor.row < app.home_rows().len(),
        app.home_cursor.col + 1 < app.home_rows()[app.home_cursor.row as int].items.len()
            <= usize::MAX,
    ensures
        app.home_col_moved(1).home_col_moved(-1) == app,
{
    assert(app.home_col_moved(1).home_rows() == app.home_rows());
}

/// The jumps go to the first and the last tile of the row the cursor is in.
pub proof fn home_jumps_stay_in_the_row(app: AppModel)
    requires
        app.home_cursor.row < app.home_rows().len(),
        0 < app.home_rows()[app.home_cursor.row as int].items.len() <= usize::MAX,
    ensures
        app.home_at_top() == (AppModel {
            home_cursor: HomeCursor { row: app.home_cursor.row, col: 0 },
            ..app
        }),
        app.home_at_bottom().home_cursor.row == app.home_cursor.row,
        app.home_at_bottom().home_cursor.col + 1
            == app.home_rows()[app.home_cursor.row as int].items.len(),
        app.home_at_bottom() == (AppModel { home_cursor: app.home_at_bottom().home_cursor, ..app }),
{
}

/// New data leaves the cursor on its tile as long as that tile is there.
pub proof fn new_data_keeps_the_tile(app: AppModel, data: HomeDataModel)
    ensures
        ({
            let after = app.home_filled(data);
            let rows = after.home_rows();
            &&& after.home.resume == data.resume
            &&& after.home.next_up == data.next_up
            &&& after.home.latest_global == data.latest_global
            &&& after.home.recent_per_library == data.recent_per_library
            &&& !after.home.loading
            &&& (app.home_cursor.row < rows.len() && app.home_cursor.col
                < rows[app.home_cursor.row as int].items.len()) ==> after.home_cursor
                == app.home_cursor
            &&& app.home_cursor.row >= rows.len() ==> after.home_cursor == (HomeCursor {
                row: 0,
                col: 0,
            })
            &&& app.home_cursor.row < rows.len() ==> after.home_cursor.row == app.home_cursor.row
            &&& app.home_cursor.row < rows.len() && 0
                < rows[app.home_cursor.row as int].items.len() <= app.home_cursor.col
                ==> after.home_cursor.col + 1 == rows[app.home_cursor.row as int].items.len()
            &&& after == (AppModel { home: after.home, home_cursor: after.home_cursor, ..app })
        }),
{
    let filled = AppModel { home: HomeDataModel { loading: false, ..data }, ..app };
    assert(app.home_filled(data).home_rows() == filled.home_rows());
}

/// The focused tile is the one under the cursor.
pub proof fn the_cursor_decides_the_tile(app: AppModel)
    ensures
        ({
            let rows = app.home_rows();
            let row = rows[app.home_cursor.row as int];
            let inside = app.home_cursor.row < rows.len() && app.home_cursor.col
                < row.items.len();
            &&& inside ==> app.home_focused() == Some(
                (row.kind, row.library_id, row.items[app.home_cursor.col as int]),
            )
            &&& !inside ==> app.home_focused() is None
        }),
{
}

// ---------------------------------------------------------------------------
// Enter

/// Enter on a library's tile goes to that library and remembers it.
pub proof fn enter_on_a_library_goes_there(app: AppModel, i: int)
    requires
        app.home_cursor.row < app.home_rows().len(),
        app.home_rows()[app.home_cursor.row as int].kind == HomeRowKind::Libraries,
        app.home_cursor.col < app.home_rows()[app.home_cursor.row as int].items.len(),
        0 <= i < app.libraries.len() <= usize::MAX,
        app.libraries[i].id
            == app.home_rows()[app.home_cursor.row as int].items[app.home_cursor.col as int].id,
        forall|j: int|
            0 <= j < i ==> (#[trigger] app.libraries[j]).id != app.libraries[i].id,
    ensures
        ({
            let after = app.home_activated();
            &&& after.library_selected == i
            &&& after.focus == Pane::LibraryItems
            &&& after.pending.last() == IntentModel::SaveLastLibrary(app.libraries[i].id)
            &&& after.libraries == app.libraries
            &&& after.queue == app.queue
        }),
{
    sequences::lemma_first_index_found(
        app.libraries,
        state::library_has_id(app.libraries[i].id),
        i,
    );
}

/// Enter on any other tile opens that very item.
pub proof fn enter_on_a_tile_opens_its_item(app: AppModel)
    requires
        app.home_cursor.row < app.home_rows().len(),
        app.home_rows()[app.home_cursor.row as int].kind != HomeRowKind::Libraries,
        app.home_cursor.col < app.home_rows()[app.home_cursor.row as int].items.len(),
    ensures
        app.home_activated() == app.opened_from_view(
            app.home_rows()[app.home_cursor.row as int].items[app.home_cursor.col as int],
        ),
{
}

/// Going Home closes every overlay, keeps what is shown there, and asks for it anew.
pub proof fn going_home_refreshes_it(app: AppModel)
    ensures
        ({
            let after = app.home_entered();
            &&& after.focus == Pane::Home
            &&& after.home.loading
            &&& after.home == (HomeDataModel { loading: true, ..app.home })
            &&& after.home_cursor == app.home_cursor
            &&& after.pending == app.pending.push(IntentModel::LoadHome)
            &&& after.popup is None && after.theme_picker is None && after.library_picker is None
            &&& after.playlist_picker is None && after.video_track_picker is None
            &&& after.media_options_view is None && !after.show_help
            &&& after.stack == app.stack
            &&& after.queue == app.queue
        }),
{
}

} // verus!
