//! The Home dashboard: its rows, its cursor, and what Enter on a tile does.

use vstd::prelude::*;

use super::state::{App, AppModel};
use super::types::{
    HomeCursor, HomeData, HomeDataModel, HomeLibraryModel, HomeLibrarySummary, HomeRow,
    HomeRowKind, HomeRowModel, Intent, IntentModel, Item, ItemModel, Library, LibraryModel, Pane,
};
use crate::sequences;
use crate::sequences::push_deep;
use crate::text::{concat2, same_text};

verus! {

/// Whether a summary is about the given library.
pub open spec fn summary_has_id(id: Seq<char>) -> spec_fn(HomeLibraryModel) -> bool {
    |summary: HomeLibraryModel| summary.id == id
}

/// Whether a summary lists recent items.
pub open spec fn has_recent() -> spec_fn(HomeLibraryModel) -> bool {
    |summary: HomeLibraryModel| summary.recent.len() > 0
}

/// A library's recent items as a row.
pub open spec fn recent_row(summary: HomeLibraryModel) -> HomeRowModel {
    HomeRowModel {
        kind: HomeRowKind::Recent,
        title: "New in "@ + summary.name,
        library_id: Some(summary.id),
        items: summary.recent,
    }
}

/// The rows of the libraries that have recent items.
pub open spec fn recent_rows(summaries: Seq<HomeLibraryModel>) -> Seq<HomeRowModel> {
    summaries.filter(has_recent()).map_values(|summary: HomeLibraryModel| recent_row(summary))
}

/// A row that spans every library, unless it would be empty.
pub open spec fn wide_row(kind: HomeRowKind, title: Seq<char>, items: Seq<ItemModel>) -> Seq<
    HomeRowModel,
> {
    if items.len() > 0 {
        seq![HomeRowModel { kind, title, library_id: None, items }]
    } else {
        Seq::empty()
    }
}

/// The cover that stands for a library: that of its most recent item.
pub open spec fn library_cover(summaries: Seq<HomeLibraryModel>, id: Seq<char>) -> Option<
    Seq<char>,
> {
    match sequences::first_index(summaries, summary_has_id(id)) {
        Some(i) => if summaries[i].recent.len() > 0 {
            summaries[i].recent[0].primary_image_tag
        } else {
            None
        },
        None => None,
    }
}

/// A library as a tile. The collection type rides along as the item's kind, so
/// that the renderer can pick a per-library glyph.
pub open spec fn library_tile(
    library: LibraryModel,
    summaries: Seq<HomeLibraryModel>,
) -> ItemModel {
    ItemModel {
        id: library.id,
        name: library.name,
        is_folder: true,
        kind: library.collection_type,
        primary_image_tag: library_cover(summaries, library.id),
        ..ItemModel::blank()
    }
}

/// `place + delta`, kept within `0..len`.
pub open spec fn clamped(place: int, delta: int, len: int) -> int {
    if place + delta < 0 {
        0
    } else if place + delta > len - 1 {
        len - 1
    } else {
        place + delta
    }
}

impl AppModel {
    /// Every library as a tile.
    pub open spec fn library_tiles(self) -> Seq<ItemModel> {
        self.libraries.map_values(
            |library: LibraryModel| library_tile(library, self.home.recent_per_library),
        )
    }

    /// The visible Home rows. Rows with no items are dropped.
    pub open spec fn home_rows(self) -> Seq<HomeRowModel> {
        wide_row(HomeRowKind::Resume, "Continue"@, self.home.resume) + wide_row(
            HomeRowKind::NextUp,
            "Next Up"@,
            self.home.next_up,
        ) + wide_row(HomeRowKind::Recent, "Latest"@, self.home.latest_global) + wide_row(
            HomeRowKind::Libraries,
            "Libraries"@,
            self.library_tiles(),
        ) + recent_rows(self.home.recent_per_library)
    }

    /// Whether the Home cursor stands on a row, as far as there are rows.
    pub open spec fn home_cursor_valid(self) -> bool {
        self.home_rows().len() == 0 || self.home_cursor.row < self.home_rows().len()
    }

    /// With a fetched dashboard. A cursor that is left without a row goes back to
    /// the start; one that is left without a tile goes to the row's last one.
    pub open spec fn home_filled(self, data: HomeDataModel) -> AppModel {
        let filled = AppModel { home: HomeDataModel { loading: false, ..data }, ..self };
        let rows = filled.home_rows();
        let cursor = self.home_cursor;
        AppModel {
            home_cursor: if cursor.row >= rows.len() {
                HomeCursor { row: 0, col: 0 }
            } else if cursor.col >= rows[cursor.row as int].items.len() {
                HomeCursor {
                    row: cursor.row,
                    col: if rows[cursor.row as int].items.len() > 0 {
                        (rows[cursor.row as int].items.len() - 1) as usize
                    } else {
                        0
                    },
                }
            } else {
                cursor
            },
            ..filled
        }
    }

    /// With the Home cursor moved to another row, its column within that row. A step
    /// of 0 leaves it where it is.
    pub open spec fn home_row_moved(self, delta: int) -> AppModel {
        let rows = self.home_rows();
        if rows.len() == 0 || delta == 0 {
            self
        } else {
            let row = clamped(self.home_cursor.row as int, delta, rows.len() as int);
            let last = if rows[row].items.len() > 0 {
                rows[row].items.len() - 1
            } else {
                0
            };
            AppModel {
                home_cursor: HomeCursor {
                    row: row as usize,
                    col: if self.home_cursor.col > last {
                        last as usize
                    } else {
                        self.home_cursor.col
                    },
                },
                ..self
            }
        }
    }

    /// With the Home cursor moved within its row. A step of 0 leaves it where it is.
    pub open spec fn home_col_moved(self, delta: int) -> AppModel {
        let rows = self.home_rows();
        if rows.len() == 0 || delta == 0 || rows[self.home_cursor.row as int].items.len() == 0 {
            self
        } else {
            let len = rows[self.home_cursor.row as int].items.len();
            AppModel {
                home_cursor: HomeCursor {
                    row: self.home_cursor.row,
                    col: clamped(self.home_cursor.col as int, delta, len as int) as usize,
                },
                ..self
            }
        }
    }

    /// With the Home cursor on the first tile of its row.
    pub open spec fn home_at_top(self) -> AppModel {
        if self.home_rows().len() == 0 {
            self
        } else {
            AppModel { home_cursor: HomeCursor { row: self.home_cursor.row, col: 0 }, ..self }
        }
    }

    /// With the Home cursor on the last tile of its row.
    pub open spec fn home_at_bottom(self) -> AppModel {
        let rows = self.home_rows();
        if self.home_cursor.row < rows.len() && rows[self.home_cursor.row as int].items.len() > 0 {
            AppModel {
                home_cursor: HomeCursor {
                    row: self.home_cursor.row,
                    col: (rows[self.home_cursor.row as int].items.len() - 1) as usize,
                },
                ..self
            }
        } else {
            self
        }
    }

    /// The focused Home tile, with its row's kind and library.
    pub open spec fn home_focused(self) -> Option<(HomeRowKind, Option<Seq<char>>, ItemModel)> {
        let rows = self.home_rows();
        if self.home_cursor.row < rows.len() {
            let row = rows[self.home_cursor.row as int];
            if self.home_cursor.col < row.items.len() {
                Some((row.kind, row.library_id, row.items[self.home_cursor.col as int]))
            } else {
                None
            }
        } else {
            None
        }
    }

    /// After Enter on a Home tile.
    pub open spec fn home_activated(self) -> AppModel {
        match self.home_focused() {
            Some((kind, _, item)) => match kind {
                HomeRowKind::Libraries => match self.library_position(item.id) {
                    Some(index) => AppModel {
                        focus: Pane::LibraryItems,
                        ..self.on_library(index)
                    }.queued(IntentModel::SaveLastLibrary(self.libraries[index as int].id)),
                    None => self,
                },
                _ => self.opened_from_view(item),
            },
            None => self,
        }
    }

    /// Without any overlay.
    pub open spec fn overlays_closed(self) -> AppModel {
        AppModel {
            popup: None,
            library_picker: None,
            playlist_picker: None,
            video_track_picker: None,
            media_options_view: None,
            theme_picker: None,
            show_help: false,
            ..self
        }
    }

    /// On Home, with a fetch of its payload asked for.
    pub open spec fn home_entered(self) -> AppModel {
        AppModel {
            focus: Pane::Home,
            home: HomeDataModel { loading: true, ..self.home },
            ..self.overlays_closed()
        }.queued(IntentModel::LoadHome)
    }
}

/// A copy of a list of items.
pub(crate) fn copy_items(items: &Vec<Item>) -> (copy: Vec<Item>)
    ensures
        copy@ == items@,
        copy.deep_view() == items.deep_view(),
{
    let copy = items.clone();
    assert(copy@ =~= items@);
    copy
}

fn push_wide_row(rows: &mut Vec<HomeRow>, kind: HomeRowKind, title: &str, items: Vec<Item>)
    ensures
        final(rows).deep_view() == old(rows).deep_view() + wide_row(
            kind,
            title@,
            items.deep_view(),
        ),
{
    if items.len() > 0 {
        push_deep(rows, HomeRow { kind, title: title.to_owned(), library_id: None, items });
    }
    assert(rows.deep_view() =~= old(rows).deep_view() + wide_row(kind, title@, items.deep_view()));
}

fn cover_of(summaries: &Vec<HomeLibrarySummary>, id: &str) -> (cover: Option<String>)
    ensures
        cover.deep_view() == library_cover(summaries.deep_view(), id@),
{
    let ghost p = summary_has_id(id@);
    let ghost models = summaries.deep_view();
    let mut i: usize = 0;
    while i < summaries.len()
        invariant
            i <= summaries@.len(),
            models == summaries.deep_view(),
            p == summary_has_id(id@),
            forall|j: int| 0 <= j < i ==> !p(#[trigger] models[j]),
        decreases summaries@.len() - i,
    {
        if same_text(summaries[i].id.as_str(), id) {
            proof {
                sequences::lemma_first_index_found(models, p, i as int);
            }
            if summaries[i].recent.len() > 0 {
                return summaries[i].recent[0].primary_image_tag.clone();
            }
            return None;
        }
        i = i + 1;
    }
    proof {
        sequences::lemma_first_index_missing(models, p);
    }
    None
}

fn tile_of(library: &Library, summaries: &Vec<HomeLibrarySummary>) -> (tile: Item)
    ensures
        tile@ == library_tile(library@, summaries.deep_view()),
{
    Item {
        id: library.id.clone(),
        name: library.name.clone(),
        is_folder: true,
        kind: library.collection_type.clone(),
        primary_image_tag: cover_of(summaries, library.id.as_str()),
        ..Item::default()
    }
}

proof fn lemma_recent_rows_push(summaries: Seq<HomeLibraryModel>, summary: HomeLibraryModel)
    ensures
        recent_rows(summaries.push(summary)) == if summary.recent.len() > 0 {
            recent_rows(summaries).push(recent_row(summary))
        } else {
            recent_rows(summaries)
        },
{
    sequences::lemma_filter_push(summaries, summary, has_recent());
    assert(recent_rows(summaries.push(summary)) =~= if summary.recent.len() > 0 {
        recent_rows(summaries).push(recent_row(summary))
    } else {
        recent_rows(summaries)
    });
}

/// `place + delta`, kept within `0..len`.
pub(crate) fn clamp_step(place: usize, delta: i32, len: usize) -> (next: usize)
    requires
        len > 0,
    ensures
        next == clamped(place as int, delta as int, len as int),
{
    let step: u64 = if delta < 0 {
        (-(delta as i64)) as u64
    } else {
        delta as u64
    };
    if delta < 0 {
        let kept: usize = if step > place as u64 {
            0
        } else {
            place - step as usize
        };
        if kept > len - 1 {
            len - 1
        } else {
            kept
        }
    } else if place >= len || step > (len - 1 - place) as u64 {
        len - 1
    } else {
        place + step as usize
    }
}

impl App {
    /// Every library as a tile: each one appears whether or not we have any
    /// "recent" art.
    fn library_tiles(&self) -> (tiles: Vec<Item>)
        ensures
            tiles.deep_view() == self@.library_tiles(),
    {
        let ghost goal = self@.library_tiles();
        let mut tiles: Vec<Item> = Vec::new();
        let mut i: usize = 0;
        while i < self.libraries.len()
            invariant
                i <= self.libraries@.len(),
                goal == self@.library_tiles(),
                tiles.deep_view() =~= goal.take(i as int),
            decreases self.libraries@.len() - i,
        {
            push_deep(&mut tiles, tile_of(&self.libraries[i], &self.home.recent_per_library));
            proof {
                sequences::lemma_take_push(goal, i as int);
            }
            i = i + 1;
        }
        proof {
            sequences::lemma_take_all(goal);
        }
        tiles
    }

    /// Build the visible Home rows. Rows with no items are dropped so the
    /// cursor can never land on emptiness. `Libraries` is shown whenever there is
    /// a library, so the user has a non-empty target on a fresh install.
    pub fn home_rows(&self) -> (rows: Vec<HomeRow>)
        ensures
            rows.deep_view() == self@.home_rows(),
    {
        let mut rows: Vec<HomeRow> = Vec::new();
        assert(rows.deep_view() =~= Seq::empty());
        push_wide_row(&mut rows, HomeRowKind::Resume, "Continue", copy_items(&self.home.resume));
        push_wide_row(&mut rows, HomeRowKind::NextUp, "Next Up", copy_items(&self.home.next_up));
        push_wide_row(
            &mut rows,
            HomeRowKind::Recent,
            "Latest",
            copy_items(&self.home.latest_global),
        );
        push_wide_row(&mut rows, HomeRowKind::Libraries, "Libraries", self.library_tiles());
        let ghost head = rows.deep_view();
        let ghost models = self.home.recent_per_library.deep_view();
        let mut i: usize = 0;
        proof {
            sequences::lemma_filter_empty(has_recent());
            assert(models.take(0) =~= Seq::empty());
            assert(head + recent_rows(models.take(0)) =~= head);
        }
        while i < self.home.recent_per_library.len()
            invariant
                i <= self.home.recent_per_library@.len(),
                models == self.home.recent_per_library.deep_view(),
                rows.deep_view() == head + recent_rows(models.take(i as int)),
            decreases self.home.recent_per_library@.len() - i,
        {
            let summary = &self.home.recent_per_library[i];
            proof {
                sequences::lemma_take_push(models, i as int);
                lemma_recent_rows_push(models.take(i as int), models[i as int]);
            }
            if summary.recent.len() > 0 {
                let row = HomeRow {
                    kind: HomeRowKind::Recent,
                    title: concat2("New in ", summary.name.as_str()),
                    library_id: Some(summary.id.clone()),
                    items: copy_items(&summary.recent),
                };
                let ghost before = rows.deep_view();
                push_deep(&mut rows, row);
                assert(rows.deep_view() =~= head + recent_rows(models.take(i + 1)));
            }
            i = i + 1;
        }
        proof {
            sequences::lemma_take_all(models);
            assert(head =~= Seq::<HomeRowModel>::empty() + wide_row(
                HomeRowKind::Resume,
                "Continue"@,
                self@.home.resume,
            ) + wide_row(HomeRowKind::NextUp, "Next Up"@, self@.home.next_up) + wide_row(
                HomeRowKind::Recent,
                "Latest"@,
                self@.home.latest_global,
            ) + wide_row(HomeRowKind::Libraries, "Libraries"@, self@.library_tiles()));
            assert(rows.deep_view() =~= self@.home_rows());
        }
        rows
    }

    /// Replace the home payload (called when the fetch completes).
    pub fn set_home_data(&mut self, data: HomeData)
        ensures
            final(self)@ == old(self)@.home_filled(data@),
    {
        self.home = data;
        self.home.loading = false;
        let rows = self.home_rows();
        if self.home_cursor.row >= rows.len() {
            self.home_cursor = HomeCursor { row: 0, col: 0 };
        } else {
            let len: usize = rows[self.home_cursor.row].items.len();
            if self.home_cursor.col >= len {
                self.home_cursor.col = if len > 0 {
                    len - 1
                } else {
                    0
                };
            }
        }
    }

    /// Whether the Home cursor stands on a row, as far as there are rows. A sync
    /// that leaves no library can take the cursor's row away.
    pub fn home_cursor_valid(&self) -> (valid: bool)
        ensures
            valid == self@.home_cursor_valid(),
    {
        let rows = self.home_rows();
        rows.len() == 0 || self.home_cursor.row < rows.len()
    }

    /// Move the Home cursor to another row.
    pub fn move_home_row(&mut self, delta: i32)
        ensures
            final(self)@ == old(self)@.home_row_moved(delta as int),
    {
        let rows = self.home_rows();
        if rows.len() == 0 || delta == 0 {
            return ;
        }
        let row: usize = clamp_step(self.home_cursor.row, delta, rows.len());
        let len: usize = rows[row].items.len();
        let last: usize = if len > 0 {
            len - 1
        } else {
            0
        };
        let col: usize = if self.home_cursor.col > last {
            last
        } else {
            self.home_cursor.col
        };
        self.home_cursor = HomeCursor { row, col };
    }

    /// Move the Home cursor within its row.
    pub fn move_home_col(&mut self, delta: i32)
        requires
            delta != 0 ==> old(self)@.home_cursor_valid(),
        ensures
            final(self)@ == old(self)@.home_col_moved(delta as int),
    {
        let rows = self.home_rows();
        if rows.len() == 0 || delta == 0 {
            return ;
        }
        let len: usize = rows[self.home_cursor.row].items.len();
        if len == 0 {
            return ;
        }
        let col: usize = clamp_step(self.home_cursor.col, delta, len);
        self.home_cursor.col = col;
    }

    /// The first tile of the row.
    pub fn home_top(&mut self)
        ensures
            final(self)@ == old(self)@.home_at_top(),
    {
        if self.home_rows().len() > 0 {
            self.home_cursor.col = 0;
        }
    }

    /// The last tile of the row.
    pub fn home_bottom(&mut self)
        ensures
            final(self)@ == old(self)@.home_at_bottom(),
    {
        let rows = self.home_rows();
        if self.home_cursor.row < rows.len() {
            let len: usize = rows[self.home_cursor.row].items.len();
            if len > 0 {
                self.home_cursor.col = len - 1;
            }
        }
    }

    /// Resolve the focused Home tile. Returns `(row_kind, library_id, item)`.
    pub fn home_focused(&self) -> (tile: Option<(HomeRowKind, Option<String>, Item)>)
        ensures
            tile.deep_view() == self@.home_focused(),
    {
        let rows = self.home_rows();
        if self.home_cursor.row >= rows.len() {
            return None;
        }
        let row = &rows[self.home_cursor.row];
        if self.home_cursor.col >= row.items.len() {
            return None;
        }
        Some((row.kind, row.library_id.clone(), row.items[self.home_cursor.col].clone()))
    }

    /// Enter on a Home tile: library tiles jump to that library (and leave
    /// Home), other tiles play / drill the item.
    pub fn activate_home(&mut self)
        ensures
            final(self)@ == old(self)@.home_activated(),
    {
        match self.home_focused() {
            None => {},
            Some((kind, _, item)) => {
                if kind == HomeRowKind::Libraries {
                    if let Some(index) = self.library_position(item.id.as_str()) {
                        self.library_selected = index;
                        self.reset_stack_for_library();
                        self.focus = Pane::LibraryItems;
                        let id = self.libraries[index].id.clone();
                        self.queue_intent(Intent::SaveLastLibrary(id));
                    }
                } else {
                    self.open_item_from_view(item);
                }
            },
        }
    }

    /// Close every overlay.
    pub fn close_overlays(&mut self)
        ensures
            final(self)@ == old(self)@.overlays_closed(),
    {
        self.popup = None;
        self.library_picker = None;
        self.playlist_picker = None;
        self.video_track_picker = None;
        self.media_options_view = None;
        self.theme_picker = None;
        self.show_help = false;
    }

    /// Focus the Home dashboard. Used at startup and when `g h` is pressed.
    /// Also kicks a `LoadHome` so the loop refreshes the payload.
    pub fn enter_home(&mut self)
        ensures
            final(self)@ == old(self)@.home_entered(),
    {
        self.focus = Pane::Home;
        self.close_overlays();
        self.home.loading = true;
        self.queue_intent(Intent::LoadHome);
    }

    /// Start the app on Home and queue the first dashboard fetch.
    pub fn with_home_start(self) -> (app: App)
        ensures
            app@ == (AppModel {
                focus: Pane::Home,
                home: HomeDataModel { loading: true, ..self@.home },
                ..self@
            }).queued(IntentModel::LoadHome),
    {
        let mut app = self;
        app.focus = Pane::Home;
        app.home.loading = true;
        app.queue_intent(Intent::LoadHome);
        app
    }

    /// Whether Home is on display.
    pub fn is_on_home(&self) -> (on_home: bool)
        ensures
            on_home == (self@.focus == Pane::Home),
    {
        self.focus == Pane::Home
    }

    /// The dashboard payload.
    pub fn home_data(&self) -> (data: &HomeData)
        ensures
            data@ == self@.home,
    {
        &self.home
    }

    /// The Home cursor.
    pub fn home_cursor(&self) -> (cursor: HomeCursor)
        ensures
            cursor == self@.home_cursor,
    {
        self.home_cursor
    }
}

/// Every Home row has a tile on it, so the cursor never lands on emptiness.
pub proof fn home_rows_are_never_empty(app: AppModel, row: int)
    requires
        0 <= row < app.home_rows().len(),
    ensures
        app.home_rows()[row].items.len() > 0,
{
    let summaries = app.home.recent_per_library;
    let recent = summaries.filter(has_recent());
    summaries.filter_lemma(has_recent());
    let head = wide_row(HomeRowKind::Resume, "Continue"@, app.home.resume) + wide_row(
        HomeRowKind::NextUp,
        "Next Up"@,
        app.home.next_up,
    ) + wide_row(HomeRowKind::Recent, "Latest"@, app.home.latest_global) + wide_row(
        HomeRowKind::Libraries,
        "Libraries"@,
        app.library_tiles(),
    );
    assert(app.home_rows() =~= head + recent_rows(summaries));
    if row >= head.len() {
        let place = row - head.len();
        assert(app.home_rows()[row] == recent_row(recent[place]));
        assert(has_recent()(recent[place]));
    }
}

/// As long as there is a library, Home has a row.
pub proof fn home_shows_the_libraries(app: AppModel)
    requires
        app.libraries.len() > 0,
    ensures
        exists|row: int|
            0 <= row < app.home_rows().len() && #[trigger] app.home_rows()[row].kind
                == HomeRowKind::Libraries,
{
    let before = wide_row(HomeRowKind::Resume, "Continue"@, app.home.resume) + wide_row(
        HomeRowKind::NextUp,
        "Next Up"@,
        app.home.next_up,
    ) + wide_row(HomeRowKind::Recent, "Latest"@, app.home.latest_global);
    assert(app.home_rows()[before.len() as int].kind == HomeRowKind::Libraries);
}

/// After a fetched dashboard came in, and after every movement of the Home cursor,
/// the cursor stands on a tile, if there is one at all.
pub proof fn home_cursor_stays_on_a_tile(app: AppModel, data: HomeDataModel, delta: int)
    requires
        app.home_rows().len() <= usize::MAX,
        forall|row: int|
            0 <= row < app.home_rows().len() ==> (#[trigger] app.home_rows()[row]).items.len()
                <= usize::MAX,
        app.home_filled(data).home_rows().len() <= usize::MAX,
        forall|row: int|
            0 <= row < app.home_filled(data).home_rows().len() ==> (
            #[trigger] app.home_filled(data).home_rows()[row]).items.len() <= usize::MAX,
    ensures
        app.home_filled(data).home_rows().len() > 0 ==> app.home_filled(data).home_focused() is Some,
        app.home_rows().len() > 0 && delta != 0 ==> app.home_row_moved(delta).home_focused() is Some,
        app.home_rows().len() > 0 && delta != 0 && app.home_cursor_valid() ==> app.home_col_moved(
            delta,
        ).home_focused() is Some,
{
    let filled = app.home_filled(data);
    assert(filled.home_rows() == AppModel {
        home: HomeDataModel { loading: false, ..data },
        ..app
    }.home_rows());
    if filled.home_rows().len() > 0 {
        home_rows_are_never_empty(filled, filled.home_cursor.row as int);
    }
    if app.home_rows().len() > 0 && delta != 0 {
        let moved = app.home_row_moved(delta);
        assert(moved.home_rows() == app.home_rows());
        home_rows_are_never_empty(app, moved.home_cursor.row as int);
        if app.home_cursor_valid() {
            let shifted = app.home_col_moved(delta);
            assert(shifted.home_rows() == app.home_rows());
            home_rows_are_never_empty(app, app.home_cursor.row as int);
        }
    }
}

} // verus!
