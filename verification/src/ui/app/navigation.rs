//! Moving through libraries, levels and panes, and opening what is selected.

use vstd::prelude::*;

use super::sections;
use super::sections::sections_for;
use super::state;
use super::state::{App, AppModel};
use super::types::{
    ContextTopView, Intent, IntentModel, Item, ItemDetail, ItemDetailModel, ItemModel, Level,
    LevelModel, MediaKind, Pane, SectionFilters, SectionFiltersModel,
};
use crate::sequences;
use crate::sequences::push_deep;
use crate::text::{as_slice, concat2, concat3, is_text, same_text};

verus! {

impl LevelModel {
    /// The cursor one row down, if there is one.
    pub open spec fn moved_down(self) -> LevelModel {
        if self.selected + 1 < self.items.len() {
            LevelModel { selected: (self.selected + 1) as usize, ..self }
        } else {
            self
        }
    }

    /// The cursor one row up, if there is one.
    pub open spec fn moved_up(self) -> LevelModel {
        LevelModel {
            selected: if self.selected > 0 {
                (self.selected - 1) as usize
            } else {
                0
            },
            ..self
        }
    }

    /// The cursor on the first row.
    pub open spec fn at_top(self) -> LevelModel {
        LevelModel { selected: 0, ..self }
    }

    /// The cursor on the last row.
    pub open spec fn at_bottom(self) -> LevelModel {
        LevelModel {
            selected: if self.items.len() > 0 {
                (self.items.len() - 1) as usize
            } else {
                0
            },
            ..self
        }
    }

    /// The cursor has been used: the level stands for its selected item.
    pub open spec fn engaged(self) -> LevelModel {
        LevelModel { cursor_engaged: true, ..self }
    }
}

/// A cursor movement within a level.
#[derive(Debug, Clone, Copy, PartialEq, Eq, Structural)]
pub enum CursorMove {
    Down,
    Up,
    Top,
    Bottom,
}

impl LevelModel {
    /// After a cursor movement.
    pub open spec fn moved(self, step: CursorMove) -> LevelModel {
        match step {
            CursorMove::Down => self.moved_down(),
            CursorMove::Up => self.moved_up(),
            CursorMove::Top => self.at_top(),
            CursorMove::Bottom => self.at_bottom(),
        }
    }
}

impl Level {
    /// Move the cursor.
    pub fn move_cursor(&mut self, step: CursorMove)
        ensures
            final(self)@ == old(self)@.moved(step),
    {
        let len: usize = self.items.len();
        match step {
            CursorMove::Down => {
                if len > 0 && self.selected < len - 1 {
                    self.selected = self.selected + 1;
                }
            },
            CursorMove::Up => {
                if self.selected > 0 {
                    self.selected = self.selected - 1;
                }
            },
            CursorMove::Top => {
                self.selected = 0;
            },
            CursorMove::Bottom => {
                self.selected = if len > 0 {
                    len - 1
                } else {
                    0
                };
            },
        }
    }
}

/// A scroll offset moved by `delta` rows. It stops at the top; past the largest
/// offset it starts over.
pub open spec fn scrolled_by(scroll: u16, delta: int) -> u16 {
    if scroll + delta < 0 {
        0
    } else {
        ((scroll + delta) % 0x1_0000) as u16
    }
}

/// The items with the favorite state of one id set.
pub open spec fn with_favorite(items: Seq<ItemModel>, id: Seq<char>, favorite: bool) -> Seq<
    ItemModel,
> {
    items.map_values(
        |item: ItemModel|
            if item.id == id {
                ItemModel { is_favorite: favorite, ..item }
            } else {
                item
            },
    )
}

/// The items with the played state of one id set.
pub open spec fn with_played(items: Seq<ItemModel>, id: Seq<char>, played: bool) -> Seq<ItemModel> {
    items.map_values(
        |item: ItemModel|
            if item.id == id {
                ItemModel { is_played: played, ..item }
            } else {
                item
            },
    )
}

/// Whether a level waits for the children of `id`.
pub open spec fn awaits(id: Seq<char>) -> spec_fn(LevelModel) -> bool {
    |level: LevelModel| level.loading && level.parent_id == id
}

/// Whether a pane is the given one.
pub open spec fn is_pane(pane: Pane) -> spec_fn(Pane) -> bool {
    |candidate: Pane| candidate == pane
}

/// The pane after `focus` in the cycle; the first one from outside the cycle.
pub open spec fn pane_after(cycle: Seq<Pane>, focus: Pane) -> Pane {
    match sequences::first_index(cycle, is_pane(focus)) {
        Some(i) => if i + 1 < cycle.len() {
            cycle[i + 1]
        } else {
            cycle[0]
        },
        None => cycle[0],
    }
}

/// The pane before `focus` in the cycle; the last one from outside the cycle.
pub open spec fn pane_before(cycle: Seq<Pane>, focus: Pane) -> Pane {
    match sequences::first_index(cycle, is_pane(focus)) {
        Some(i) => if i > 0 {
            cycle[i - 1]
        } else {
            cycle.last()
        },
        None => cycle.last(),
    }
}

impl AppModel {
    /// With another root level.
    pub open spec fn with_root(self, level: LevelModel) -> AppModel {
        AppModel { stack: self.stack.update(0, level), ..self }
    }

    /// With another level on top of the stack.
    pub open spec fn with_top(self, level: LevelModel) -> AppModel {
        AppModel { stack: self.stack.update(self.stack.len() - 1, level), ..self }
    }

    /// With one item's details on display.
    pub open spec fn revealing(self, id: Seq<char>) -> AppModel {
        AppModel { revealed_item_id: Some(id), ..self }
    }

    /// With the music context pane on the given view, from its top if that changes.
    pub open spec fn viewing(self, view: ContextTopView) -> AppModel {
        if self.context_view == view {
            self
        } else {
            AppModel { context_view: view, context_top_scroll: 0, ..self }
        }
    }

    /// Without what belongs to a selection the user has left.
    pub open spec fn selection_left(self) -> AppModel {
        AppModel {
            context_top_scroll: 0,
            context_bottom_scroll: 0,
            media_options_view: None,
            ..self
        }
    }

    /// Without any detail.
    pub open spec fn detail_cleared(self) -> AppModel {
        AppModel {
            current_detail: None,
            revealed_item_id: None,
            context_view: ContextTopView::Lyrics,
            ..self.selection_left()
        }
    }

    /// After the detail of an item came in.
    pub open spec fn detail_arrived(self, id: Seq<char>, detail: ItemDetailModel) -> AppModel {
        let mirrored = AppModel {
            media_options_view: match self.media_options_view {
                Some(view) => Some(view.detail_mirrored(id, detail)),
                None => None,
            },
            ..self
        };
        match self.current_item() {
            Some(item) => if item.id == id {
                AppModel { current_detail: Some((id, detail)), ..mirrored }
            } else {
                mirrored
            },
            None => mirrored,
        }
    }

    /// The scroll offset of the focused context pane; of the top one if neither is
    /// focused.
    pub open spec fn focused_scroll(self) -> u16 {
        if self.focus == Pane::ContextBottom {
            self.context_bottom_scroll
        } else {
            self.context_top_scroll
        }
    }

    /// With the focused context pane scrolled; the top one if neither is focused.
    pub open spec fn context_scrolled(self, delta: int) -> AppModel {
        if self.focus == Pane::ContextBottom {
            AppModel {
                context_bottom_scroll: scrolled_by(self.context_bottom_scroll, delta),
                ..self
            }
        } else {
            AppModel { context_top_scroll: scrolled_by(self.context_top_scroll, delta), ..self }
        }
    }

    /// After the children of folder `id` came in.
    pub open spec fn level_filled(self, id: Seq<char>, items: Seq<ItemModel>) -> AppModel {
        match sequences::first_index(self.stack, awaits(id)) {
            Some(i) => AppModel {
                stack: self.stack.update(
                    i,
                    LevelModel { items, selected: 0, loading: false, ..self.stack[i] },
                ),
                ..self
            },
            None => self,
        }
    }

    /// After the root items of a library came in.
    pub open spec fn root_filled(
        self,
        library_id: Seq<char>,
        title: Seq<char>,
        items: Seq<ItemModel>,
    ) -> AppModel {
        match self.root_level() {
            Some(root) => if root.parent_id == library_id {
                AppModel {
                    stack: seq![
                        LevelModel { title, items, selected: 0, loading: false, ..root },
                    ],
                    ..self
                }
            } else {
                self
            },
            None => self,
        }
    }

    /// After fetching the children of folder `id` failed.
    pub open spec fn loading_dropped(self, id: Seq<char>) -> AppModel {
        if self.is_drilled() && self.stack.last().loading && self.stack.last().parent_id == id {
            AppModel { stack: self.stack.drop_last(), ..self }
        } else {
            self
        }
    }

    /// The runtime filters of a library.
    pub open spec fn filters_for(self, library_id: Seq<char>) -> SectionFiltersModel {
        match state::lookup(self.section_filters, library_id) {
            Some(filters) => filters,
            None => SectionFiltersModel::none(),
        }
    }

    /// With section `index` of the active library being fetched.
    pub open spec fn section_applied(self, index: usize) -> AppModel {
        match self.current_library() {
            Some(library) => {
                let list = sections::sections_of(library.collection_type);
                if index < list.len() {
                    let section = list[index as int];
                    let memory = self.section_memory.insert(library.id, section.name);
                    AppModel {
                        section_selected: index,
                        section_memory: memory,
                        stack: seq![
                            LevelModel::awaiting(
                                library.name + " · "@ + section.name,
                                library.id,
                            ),
                        ],
                        ..self
                    }.queued(
                        IntentModel::ApplySection {
                            library_id: library.id,
                            section,
                            extras: self.filters_for(library.id),
                        },
                    ).queued(IntentModel::SaveSectionMemory(memory))
                } else {
                    self
                }
            },
            None => self,
        }
    }

    /// With a folder opened: a loading level for it on top, its children and its
    /// detail asked for, and the focus on the middle pane.
    pub open spec fn drilled_into(self, item: ItemModel) -> AppModel {
        AppModel {
            stack: self.stack.push(
                LevelModel {
                    title: item.name,
                    parent_id: item.id,
                    items: Seq::empty(),
                    selected: 0,
                    loading: true,
                    parent_item: Some(item),
                    cursor_engaged: false,
                },
            ),
            focus: Pane::Content,
            ..self
        }.revealing(item.id).viewing(ContextTopView::Info).queued(
            IntentModel::LoadCurrentDetail { item_id: item.id, kind: item.kind },
        ).queued(IntentModel::OpenFolder { id: item.id, title: item.name })
    }

    /// One level up, or from a library root to the top bar.
    pub open spec fn went_back(self) -> AppModel {
        if self.is_drilled() {
            let popped = AppModel { stack: self.stack.drop_last(), ..self };
            if !popped.is_drilled() && self.focus == Pane::Content {
                AppModel { focus: Pane::LibraryItems, ..popped }
            } else {
                popped
            }
        } else {
            AppModel { focus: Pane::TopBar, ..self }
        }
    }

    /// With library `index` active and that choice about to be saved, unless it is
    /// the active one already or there is none.
    pub open spec fn library_chosen(self, index: usize) -> AppModel {
        if index < self.libraries.len() && index != self.library_selected {
            self.on_library(index).queued(
                IntentModel::SaveLastLibrary(self.libraries[index as int].id),
            )
        } else {
            self
        }
    }

    /// After Down in the focused pane.
    pub open spec fn cursor_lowered(self) -> AppModel {
        match self.focus {
            Pane::LibraryItems => if self.stack.len() > 0 {
                self.with_root(self.stack[0].moved_down())
            } else {
                self
            },
            Pane::Content => if self.is_drilled() {
                self.with_top(self.stack.last().engaged().moved_down())
            } else {
                self
            },
            Pane::LibrarySections => if self.section_selected + 1 < self.sections().len() {
                AppModel { section_selected: (self.section_selected + 1) as usize, ..self }
            } else {
                self
            },
            Pane::ContextTop => self.context_scrolled(1),
            Pane::ContextBottom => self.context_scrolled(1),
            Pane::Home => self.home_row_moved(1),
            _ => self,
        }
    }

    /// After Up in the focused pane.
    pub open spec fn cursor_raised(self) -> AppModel {
        match self.focus {
            Pane::LibraryItems => if self.stack.len() > 0 {
                self.with_root(self.stack[0].moved_up())
            } else {
                self
            },
            Pane::Content => if self.is_drilled() {
                self.with_top(self.stack.last().engaged().moved_up())
            } else {
                self
            },
            Pane::LibrarySections => AppModel {
                section_selected: if self.section_selected > 0 {
                    (self.section_selected - 1) as usize
                } else {
                    0
                },
                ..self
            },
            Pane::ContextTop => self.context_scrolled(-1),
            Pane::ContextBottom => self.context_scrolled(-1),
            Pane::Home => self.home_row_moved(-1),
            _ => self,
        }
    }

    /// After jumping to the first row.
    pub open spec fn cursor_at_top(self) -> AppModel {
        match self.focus {
            Pane::LibraryItems => if self.stack.len() > 0 {
                self.with_root(self.stack[0].at_top())
            } else {
                self
            },
            Pane::Content => if self.is_drilled() {
                self.with_top(self.stack.last().engaged().at_top())
            } else {
                self
            },
            Pane::LibrarySections => AppModel { section_selected: 0, ..self },
            _ => self,
        }
    }

    /// After jumping to the last row.
    pub open spec fn cursor_at_bottom(self) -> AppModel {
        match self.focus {
            Pane::LibraryItems => if self.stack.len() > 0 {
                self.with_root(self.stack[0].at_bottom())
            } else {
                self
            },
            Pane::Content => if self.is_drilled() {
                self.with_top(self.stack.last().engaged().at_bottom())
            } else {
                self
            },
            Pane::LibrarySections => AppModel {
                section_selected: (self.sections().len() - 1) as usize,
                ..self
            },
            _ => self,
        }
    }

    /// Whether the top context pane has something to show.
    pub open spec fn context_top_active(self) -> bool {
        if self.collection_type() == Some("music"@) {
            true
        } else if self.collection_type() == Some("movies"@) || self.collection_type() == Some(
            "tvshows"@,
        ) {
            self.current_item_revealed()
        } else {
            false
        }
    }

    /// Whether the bottom context pane has something to show.
    pub open spec fn context_bottom_active(self) -> bool {
        if self.collection_type() == Some("music"@) {
            self.queue.len() > 0
        } else if self.collection_type() == Some("movies"@) || self.collection_type() == Some(
            "tvshows"@,
        ) {
            self.current_item_revealed()
        } else {
            false
        }
    }

    /// The panes that Tab walks, left to right.
    pub open spec fn pane_cycle(self) -> Seq<Pane> {
        seq![Pane::TopBar, Pane::LibraryItems, Pane::LibrarySections, Pane::Content] + (
        if self.context_top_active() {
            seq![Pane::ContextTop]
        } else {
            Seq::empty()
        }) + (if self.context_bottom_active() {
            seq![Pane::ContextBottom]
        } else {
            Seq::empty()
        })
    }

    /// With the focus one pane on.
    pub open spec fn focused_next(self) -> AppModel {
        AppModel { focus: pane_after(self.pane_cycle(), self.focus), ..self }
    }

    /// With the focus one pane back.
    pub open spec fn focused_previous(self) -> AppModel {
        AppModel { focus: pane_before(self.pane_cycle(), self.focus), ..self }
    }

    /// The position in the stack of the level that the focused pane works on.
    pub open spec fn focused_depth(self) -> int {
        if self.focus == Pane::LibraryItems {
            0
        } else {
            self.stack.len() - 1
        }
    }

    /// With another level in place of the one that the focused pane works on.
    pub open spec fn with_focused(self, level: LevelModel) -> AppModel {
        AppModel { stack: self.stack.update(self.focused_depth(), level), ..self }
    }

    /// With the favorite state of the focused item flipped and the server told.
    pub open spec fn favorite_toggled(self) -> AppModel {
        match self.focused_level() {
            Some(level) => match level.selected_item() {
                Some(item) => {
                    let favorite = !item.is_favorite;
                    self.with_focused(
                        LevelModel {
                            items: level.items.update(
                                level.selected as int,
                                ItemModel { is_favorite: favorite, ..item },
                            ),
                            ..level
                        },
                    ).noted(
                        if favorite {
                            "Favorited: "@ + item.name
                        } else {
                            "Unfavorited: "@ + item.name
                        },
                    ).queued(IntentModel::SetFavorite { item_id: item.id, favorite })
                },
                None => self,
            },
            None => self,
        }
    }

    /// With the played state of the focused item flipped and the server told.
    pub open spec fn played_toggled(self) -> AppModel {
        match self.focused_level() {
            Some(level) => match level.selected_item() {
                Some(item) => {
                    let played = !item.is_played;
                    self.with_focused(
                        LevelModel {
                            items: level.items.update(
                                level.selected as int,
                                ItemModel { is_played: played, ..item },
                            ),
                            ..level
                        },
                    ).noted(
                        if played {
                            "Marked played: "@ + item.name
                        } else {
                            "Marked unplayed: "@ + item.name
                        },
                    ).queued(IntentModel::SetPlayed { item_id: item.id, played })
                },
                None => self,
            },
            None => self,
        }
    }

    /// With the favorite state of one id set in every level.
    pub open spec fn favorite_set(self, id: Seq<char>, favorite: bool) -> AppModel {
        AppModel {
            stack: self.stack.map_values(
                |level: LevelModel|
                    LevelModel { items: with_favorite(level.items, id, favorite), ..level },
            ),
            ..self
        }
    }

    /// With the played state of one id set in every level.
    pub open spec fn played_set(self, id: Seq<char>, played: bool) -> AppModel {
        AppModel {
            stack: self.stack.map_values(
                |level: LevelModel|
                    LevelModel { items: with_played(level.items, id, played), ..level },
            ),
            ..self
        }
    }

    /// With an item opened: a folder drilled into, a video's options shown, audio
    /// played, or a note that it can't be played.
    pub open spec fn opened(self, item: ItemModel) -> AppModel {
        if item.is_folder {
            self.drilled_into(item)
        } else {
            match item.media() {
                MediaKind::Video => self.options_opened(item),
                MediaKind::Audio => self.queued(
                    IntentModel::Play { item, media: MediaKind::Audio, start_ticks: None },
                ),
                MediaKind::Other => self.noted("Not playable: "@ + item.name),
            }
        }
    }

    /// With an item opened from a full-screen view, which is left for the library
    /// unless the item can't be played.
    pub open spec fn opened_from_view(self, item: ItemModel) -> AppModel {
        if item.is_folder || item.media() != MediaKind::Other {
            AppModel { focus: Pane::LibraryItems, ..self }.opened(item)
        } else {
            self.opened(item)
        }
    }

    /// The state that Enter acts on: from the root pane a drilled folder is closed
    /// first; in the middle pane the cursor counts as used.
    pub open spec fn ready_to_activate(self) -> AppModel {
        if self.focus == Pane::LibraryItems && self.is_drilled() {
            AppModel { stack: self.stack.take(1), ..self }
        } else if self.focus == Pane::Content && self.is_drilled() {
            self.with_top(self.stack.last().engaged())
        } else {
            self
        }
    }

    /// The item that Enter acts on.
    pub open spec fn activation_target(self) -> Option<ItemModel> {
        if self.focus == Pane::LibraryItems {
            match self.root_level() {
                Some(root) => root.selected_item(),
                None => None,
            }
        } else if self.focus == Pane::Content && self.is_drilled() {
            self.stack.last().selected_item()
        } else {
            self.current_item()
        }
    }

    /// After Enter on the focused pane.
    pub open spec fn activated(self) -> AppModel {
        if self.focus == Pane::LibrarySections {
            self.section_applied(self.section_selected)
        } else {
            match self.activation_target() {
                Some(item) => self.ready_to_activate().opened(item),
                None => self.ready_to_activate(),
            }
        }
    }
}

/// A copy of an item that may be there.
pub(crate) fn copied(item: Option<&Item>) -> (copy: Option<Item>)
    ensures
        copy.deep_view() == item.deep_view(),
{
    match item {
        Some(item) => Some(item.clone()),
        None => None,
    }
}

fn scroll_by(scroll: u16, delta: i32) -> (moved: u16)
    requires
        scroll + delta <= i32::MAX,
    ensures
        moved == scrolled_by(scroll, delta as int),
{
    let next: i32 = scroll as i32 + delta;
    if next < 0 {
        0
    } else {
        (next % 0x1_0000) as u16
    }
}

fn set_favorite_of(items: &mut Vec<Item>, id: &str, favorite: bool)
    ensures
        final(items).deep_view() == with_favorite(old(items).deep_view(), id@, favorite),
{
    let ghost before = items.deep_view();
    let ghost goal = with_favorite(before, id@, favorite);
    let mut i: usize = 0;
    while i < items.len()
        invariant
            i <= items@.len(),
            items@.len() == before.len(),
            goal == with_favorite(before, id@, favorite),
            forall|j: int| 0 <= j < i ==> (#[trigger] items@[j])@ == goal[j],
            forall|j: int| i <= j < before.len() ==> (#[trigger] items@[j])@ == before[j],
        decreases items@.len() - i,
    {
        if same_text(items[i].id.as_str(), id) {
            items[i].is_favorite = favorite;
        }
        i = i + 1;
    }
    assert(items.deep_view() =~= goal);
}

fn set_played_of(items: &mut Vec<Item>, id: &str, played: bool)
    ensures
        final(items).deep_view() == with_played(old(items).deep_view(), id@, played),
{
    let ghost before = items.deep_view();
    let ghost goal = with_played(before, id@, played);
    let mut i: usize = 0;
    while i < items.len()
        invariant
            i <= items@.len(),
            items@.len() == before.len(),
            goal == with_played(before, id@, played),
            forall|j: int| 0 <= j < i ==> (#[trigger] items@[j])@ == goal[j],
            forall|j: int| i <= j < before.len() ==> (#[trigger] items@[j])@ == before[j],
        decreases items@.len() - i,
    {
        if same_text(items[i].id.as_str(), id) {
            items[i].is_played = played;
        }
        i = i + 1;
    }
    assert(items.deep_view() =~= goal);
}

impl App {
    /// Put `item_id`'s details on display.
    pub fn reveal_item(&mut self, item_id: String)
        ensures
            final(self)@ == old(self)@.revealing(item_id@),
    {
        self.revealed_item_id = Some(item_id);
    }

    /// Switch the music context pane between lyrics and info.
    pub fn set_context_view(&mut self, view: ContextTopView)
        ensures
            final(self)@ == old(self)@.viewing(view),
    {
        if self.context_view != view {
            self.context_view = view;
            self.context_top_scroll = 0;
        }
    }

    /// Reset the per-selection transient state (scroll offsets, the open
    /// media-options view) without dropping cached detail. Called by the run
    /// loop when the user moves to a different item, so the info pane keeps
    /// its content but the right pane scrolls back to the top.
    pub fn reset_context_scroll_for_selection_change(&mut self)
        ensures
            final(self)@ == old(self)@.selection_left(),
    {
        self.context_top_scroll = 0;
        self.context_bottom_scroll = 0;
        self.media_options_view = None;
    }

    /// Drop any cached detail. Also drops the "revealed" flag so the middle pane
    /// goes back to its placeholder, resets the context-pane scroll, and snaps the
    /// music context back to lyrics.
    pub fn clear_current_detail(&mut self)
        ensures
            final(self)@ == old(self)@.detail_cleared(),
    {
        self.current_detail = None;
        self.revealed_item_id = None;
        self.context_view = ContextTopView::Lyrics;
        self.reset_context_scroll_for_selection_change();
    }

    /// Store fetched detail for `item_id` (ignored if the selection has moved
    /// on since the request was queued). Trailers and chapters also reach an open
    /// media-options view of the same item.
    pub fn set_current_detail(&mut self, item_id: &str, detail: ItemDetail)
        ensures
            final(self)@ == old(self)@.detail_arrived(item_id@, detail@),
    {
        let is_current = match self.current_item() {
            Some(item) => same_text(item.id.as_str(), item_id),
            None => false,
        };
        if let Some(view) = self.media_options_view.as_mut() {
            view.mirror_detail(item_id, &detail);
        }
        if is_current {
            self.current_detail = Some((item_id.to_owned(), detail));
        }
    }

    /// Scroll the focused context pane (top or bottom). Falls back to the top
    /// pane when neither has focus so PgUp/PgDn always do something useful.
    pub fn scroll_focused_context(&mut self, delta: i32)
        requires
            old(self)@.focused_scroll() + delta <= i32::MAX,
        ensures
            final(self)@ == old(self)@.context_scrolled(delta as int),
    {
        if self.focus == Pane::ContextBottom {
            self.context_bottom_scroll = scroll_by(self.context_bottom_scroll, delta);
        } else {
            self.context_top_scroll = scroll_by(self.context_top_scroll, delta);
        }
    }

    /// Fill the loading level whose `parent_id` matches `id` with fetched items.
    /// Ignored if the user has already navigated away from it.
    pub fn fill_level(&mut self, id: &str, items: Vec<Item>)
        ensures
            final(self)@ == old(self)@.level_filled(id@, items.deep_view()),
    {
        let ghost p = awaits(id@);
        let ghost models = self@.stack;
        let mut i: usize = 0;
        while i < self.stack.len()
            invariant
                i <= self.stack@.len(),
                self@ == old(self)@,
                models == self.stack.deep_view(),
                models == old(self)@.stack,
                p == awaits(id@),
                forall|j: int| 0 <= j < i ==> !p(#[trigger] models[j]),
            decreases self.stack@.len() - i,
        {
            if self.stack[i].loading && same_text(self.stack[i].parent_id.as_str(), id) {
                proof {
                    sequences::lemma_first_index_found(models, p, i as int);
                }
                self.stack[i].items = items;
                self.stack[i].selected = 0;
                self.stack[i].loading = false;
                assert(self.stack.deep_view() =~= old(self)@.level_filled(id@, items.deep_view()).stack);
                return ;
            }
            i = i + 1;
        }
        proof {
            sequences::lemma_first_index_missing(models, p);
        }
    }

    /// Replace the active library's root level items with `items` (used after both
    /// section and search fetches complete). Drilled folders are closed.
    pub fn apply_root_items(&mut self, library_id: &str, title: String, items: Vec<Item>)
        ensures
            final(self)@ == old(self)@.root_filled(library_id@, title@, items.deep_view()),
    {
        if self.stack.len() > 0 && same_text(self.stack[0].parent_id.as_str(), library_id) {
            self.stack[0].title = title;
            self.stack[0].items = items;
            self.stack[0].selected = 0;
            self.stack[0].loading = false;
            self.stack.truncate(1);
            assert(self.stack.deep_view() =~= old(self)@.root_filled(library_id@, title@, items.deep_view()).stack);
        }
    }

    /// Close the top level.
    fn pop_level(&mut self)
        requires
            old(self)@.stack.len() > 0,
        ensures
            final(self)@ == (AppModel { stack: old(self)@.stack.drop_last(), ..old(self)@ }),
    {
        let n: usize = self.stack.len();
        self.stack.truncate(n - 1);
        assert(self.stack.deep_view() =~= old(self)@.stack.drop_last());
    }

    /// Drop a loading level (e.g. its fetch failed), if it's still on top.
    pub fn drop_loading_level(&mut self, id: &str)
        ensures
            final(self)@ == old(self)@.loading_dropped(id@),
    {
        let n: usize = self.stack.len();
        if n > 1 && self.stack[n - 1].loading && same_text(
            self.stack[n - 1].parent_id.as_str(),
            id,
        ) {
            self.pop_level();
        }
    }

    /// Mark the root level loading and queue a section-filtered refetch.
    pub fn apply_section(&mut self, index: usize)
        ensures
            final(self)@ == old(self)@.section_applied(index),
    {
        let (library_id, library_name, list) = match self.current_library() {
            Some(library) => (
                library.id.clone(),
                library.name.clone(),
                sections_for(as_slice(&library.collection_type)),
            ),
            None => {
                return ;
            },
        };
        if index >= list.len() {
            return ;
        }
        let section = list[index].clone();
        let extras = match self.section_filters.get(library_id.as_str()) {
            Some(filters) => filters.clone(),
            None => SectionFilters::default(),
        };
        assert(extras@ == self@.filters_for(library_id@));
        self.section_selected = index;
        self.section_memory.insert(library_id.clone(), section.name.clone());
        let title = concat3(library_name.as_str(), " · ", section.name.as_str());
        let mut stack: Vec<Level> = Vec::new();
        push_deep(&mut stack, Level::awaiting(title, library_id.clone()));
        self.stack = stack;
        let memory = self.section_memory.clone();
        proof {
            let library = old(self)@.current_library()->0;
            let marked = AppModel {
                section_selected: index,
                section_memory: old(self)@.section_memory.insert(library.id, section@.name),
                stack: seq![
                    LevelModel::awaiting(library.name + " · "@ + section@.name, library.id),
                ],
                ..old(self)@
            };
            assert(self.section_memory.deep_view() =~= marked.section_memory);
            assert(self.stack.deep_view() =~= marked.stack);
            assert(self@ == marked);
        }
        self.queue_intent(Intent::ApplySection { library_id, section, extras });
        self.queue_intent(Intent::SaveSectionMemory(memory));
    }

    /// Push a loading level for `item`, queue the fetch of its children, and
    /// move focus to the middle pane where the children will render. Also
    /// reveals the item so the right-top info pane auto-fetches.
    ///
    /// Focus always shifts to the Content pane so Up/Down + Right walk the
    /// just-opened folder's children without a second keystroke.
    pub fn drill_into(&mut self, item: &Item)
        ensures
            final(self)@ == old(self)@.drilled_into(item@),
    {
        let level = Level {
            title: item.name.clone(),
            parent_id: item.id.clone(),
            items: Vec::new(),
            selected: 0,
            loading: true,
            parent_item: Some(item.clone()),
            cursor_engaged: false,
        };
        assert(level@ =~~= (LevelModel {
            title: item@.name,
            parent_id: item@.id,
            items: Seq::empty(),
            selected: 0,
            loading: true,
            parent_item: Some(item@),
            cursor_engaged: false,
        }));
        push_deep(&mut self.stack, level);
        self.focus = Pane::Content;
        self.reveal_item(item.id.clone());
        self.set_context_view(ContextTopView::Info);
        self.queue_intent(
            Intent::LoadCurrentDetail { item_id: item.id.clone(), kind: item.kind.clone() },
        );
        self.queue_intent(Intent::OpenFolder { id: item.id.clone(), title: item.name.clone() });
    }

    /// Go up one drill level; at a library root, drop focus to the top bar.
    /// Popping the last drilled level while the middle pane has focus returns
    /// focus to the left items pane so the user lands back on the parent list.
    pub fn go_back(&mut self)
        ensures
            final(self)@ == old(self)@.went_back(),
    {
        let n: usize = self.stack.len();
        if n > 1 {
            self.pop_level();
            if n == 2 && self.focus == Pane::Content {
                self.focus = Pane::LibraryItems;
            }
        } else {
            self.focus = Pane::TopBar;
        }
    }

    /// Switch to library at `index` (top-bar 1-9 keys). No-op when out of range.
    pub fn select_library(&mut self, index: usize)
        ensures
            final(self)@ == old(self)@.library_chosen(index),
    {
        if index < self.libraries.len() && index != self.library_selected {
            self.library_selected = index;
            self.reset_stack_for_library();
            let id = self.libraries[index].id.clone();
            self.queue_intent(Intent::SaveLastLibrary(id));
        }
    }

    /// Move the cursor of the library root.
    fn move_in_root(&mut self, step: CursorMove)
        ensures
            final(self)@ == if old(self)@.stack.len() > 0 {
                old(self)@.with_root(old(self)@.stack[0].moved(step))
            } else {
                old(self)@
            },
    {
        if self.stack.len() > 0 {
            self.stack[0].move_cursor(step);
            assert(self.stack.deep_view() =~= old(self)@.stack.update(
                0,
                old(self)@.stack[0].moved(step),
            ));
        }
    }

    /// Move the cursor of the drilled level, which from now on stands for its
    /// selected item.
    fn move_in_drilled(&mut self, step: CursorMove)
        ensures
            final(self)@ == if old(self)@.is_drilled() {
                old(self)@.with_top(old(self)@.stack.last().engaged().moved(step))
            } else {
                old(self)@
            },
    {
        let n: usize = self.stack.len();
        if n > 1 {
            self.stack[n - 1].cursor_engaged = true;
            self.stack[n - 1].move_cursor(step);
            assert(self.stack.deep_view() =~= old(self)@.stack.update(
                n - 1,
                old(self)@.stack.last().engaged().moved(step),
            ));
        }
    }

    /// Down, in the focused pane.
    pub fn cursor_down(&mut self)
        ensures
            final(self)@ == old(self)@.cursor_lowered(),
    {
        match self.focus {
            Pane::LibraryItems => self.move_in_root(CursorMove::Down),
            Pane::Content => self.move_in_drilled(CursorMove::Down),
            Pane::LibrarySections => {
                let len: usize = self.current_sections().len();
                if len > 0 && self.section_selected < len - 1 {
                    self.section_selected = self.section_selected + 1;
                }
            },
            Pane::ContextTop | Pane::ContextBottom => self.scroll_focused_context(1),
            Pane::Home => self.move_home_row(1),
            Pane::TopBar | Pane::GlobalSearch => {},
        }
    }

    /// Up, in the focused pane.
    pub fn cursor_up(&mut self)
        ensures
            final(self)@ == old(self)@.cursor_raised(),
    {
        match self.focus {
            Pane::LibraryItems => self.move_in_root(CursorMove::Up),
            Pane::Content => self.move_in_drilled(CursorMove::Up),
            Pane::LibrarySections => {
                if self.section_selected > 0 {
                    self.section_selected = self.section_selected - 1;
                }
            },
            Pane::ContextTop | Pane::ContextBottom => self.scroll_focused_context(-1),
            Pane::Home => self.move_home_row(-1),
            Pane::TopBar | Pane::GlobalSearch => {},
        }
    }

    /// Jump to the first row of the focused list.
    pub fn go_top(&mut self)
        ensures
            final(self)@ == old(self)@.cursor_at_top(),
    {
        match self.focus {
            Pane::LibraryItems => self.move_in_root(CursorMove::Top),
            Pane::Content => self.move_in_drilled(CursorMove::Top),
            Pane::LibrarySections => {
                self.section_selected = 0;
            },
            _ => {},
        }
    }

    /// Jump to the last row of the focused list.
    pub fn go_bottom(&mut self)
        ensures
            final(self)@ == old(self)@.cursor_at_bottom(),
    {
        match self.focus {
            Pane::LibraryItems => self.move_in_root(CursorMove::Bottom),
            Pane::Content => self.move_in_drilled(CursorMove::Bottom),
            Pane::LibrarySections => {
                let sections = self.current_sections();
                proof {
                    sections::first_section_is_all(self@.collection_type());
                }
                self.section_selected = sections.len() - 1;
            },
            _ => {},
        }
    }

    /// True when the top context pane has real content to show — used by
    /// `pane_cycle` so Tab skips empty placeholders.
    pub fn is_context_top_active(&self) -> (active: bool)
        ensures
            active == self@.context_top_active(),
    {
        let collection = self.collection_type();
        if is_text(collection, "music") {
            true
        } else if is_text(collection, "movies") || is_text(collection, "tvshows") {
            self.current_item_revealed()
        } else {
            false
        }
    }

    /// True when the bottom context pane has real content to show.
    pub fn is_context_bottom_active(&self) -> (active: bool)
        ensures
            active == self@.context_bottom_active(),
    {
        let collection = self.collection_type();
        if is_text(collection, "music") {
            self.queue.len() > 0
        } else if is_text(collection, "movies") || is_text(collection, "tvshows") {
            self.current_item_revealed()
        } else {
            false
        }
    }

    /// Panes participating in Tab / Shift+Tab cycling, in left-to-right order.
    /// Context panes are filtered out when they would render an empty
    /// placeholder, so Tab never lands on a dead pane. Home and GlobalSearch
    /// are full-screen views and intentionally not part of the cycle.
    pub fn pane_cycle(&self) -> (cycle: Vec<Pane>)
        ensures
            cycle@ == self@.pane_cycle(),
    {
        let mut cycle: Vec<Pane> = vec![
            Pane::TopBar,
            Pane::LibraryItems,
            Pane::LibrarySections,
            Pane::Content,
        ];
        if self.is_context_top_active() {
            cycle.push(Pane::ContextTop);
        }
        if self.is_context_bottom_active() {
            cycle.push(Pane::ContextBottom);
        }
        assert(cycle@ =~= self@.pane_cycle());
        cycle
    }

    /// Where the focused pane stands in the cycle.
    fn cycle_position(&self, cycle: &Vec<Pane>) -> (position: Option<usize>)
        ensures
            match position {
                Some(i) => sequences::first_index(cycle@, is_pane(self@.focus)) == Some(i as int)
                    && i < cycle@.len(),
                None => sequences::first_index(cycle@, is_pane(self@.focus)) is None,
            },
    {
        let ghost p = is_pane(self.focus);
        let mut i: usize = 0;
        while i < cycle.len()
            invariant
                i <= cycle@.len(),
                p == is_pane(self.focus),
                forall|j: int| 0 <= j < i ==> !p(#[trigger] cycle@[j]),
            decreases cycle@.len() - i,
        {
            if cycle[i] == self.focus {
                proof {
                    sequences::lemma_first_index_found(cycle@, p, i as int);
                }
                return Some(i);
            }
            i = i + 1;
        }
        proof {
            sequences::lemma_first_index_missing(cycle@, p);
        }
        None
    }

    /// Cycle focus to the next pane (Tab). Wraps around to the first pane.
    pub fn focus_next(&mut self)
        ensures
            final(self)@ == old(self)@.focused_next(),
    {
        let cycle = self.pane_cycle();
        let next = match self.cycle_position(&cycle) {
            Some(i) => if i + 1 < cycle.len() {
                cycle[i + 1]
            } else {
                cycle[0]
            },
            None => cycle[0],
        };
        self.focus = next;
    }

    /// Cycle focus to the previous pane (Shift+Tab). Wraps around to the last pane.
    pub fn focus_prev(&mut self)
        ensures
            final(self)@ == old(self)@.focused_previous(),
    {
        let cycle = self.pane_cycle();
        let previous = match self.cycle_position(&cycle) {
            Some(i) => if i > 0 {
                cycle[i - 1]
            } else {
                cycle[cycle.len() - 1]
            },
            None => cycle[cycle.len() - 1],
        };
        self.focus = previous;
    }

    /// Where the focused item stands: the level's position in the stack, and the row
    /// under its cursor. `None` if there is no item.
    fn focused_row(&self) -> (place: Option<(usize, usize)>)
        ensures
            match place {
                Some((depth, row)) => {
                    &&& depth == self@.focused_depth()
                    &&& self@.stack.len() > 0
                    &&& row == self@.stack[depth as int].selected
                    &&& row < self@.stack[depth as int].items.len()
                },
                None => self@.stack.len() == 0 || self@.focused_level()->0.selected_item() is None,
            },
    {
        if self.stack.len() == 0 {
            return None;
        }
        let depth: usize = if self.focus == Pane::LibraryItems {
            0
        } else {
            self.stack.len() - 1
        };
        let row: usize = self.stack[depth].selected;
        if row < self.stack[depth].items.len() {
            Some((depth, row))
        } else {
            None
        }
    }

    /// Replace the item at `row` of the level at `depth`, which the focused pane
    /// works on.
    fn put_item(&mut self, depth: usize, row: usize, item: Item)
        requires
            old(self)@.stack.len() > 0,
            depth == old(self)@.focused_depth(),
            row < old(self)@.stack[depth as int].items.len(),
        ensures
            final(self)@ == old(self)@.with_focused(
                LevelModel {
                    items: old(self)@.stack[depth as int].items.update(row as int, item@),
                    ..old(self)@.stack[depth as int]
                },
            ),
    {
        self.stack[depth].items[row] = item;
        proof {
            let level = old(self)@.stack[depth as int];
            let items = level.items.update(row as int, item@);
            assert(self.stack@[depth as int].items.deep_view() =~= items);
            assert(self.stack.deep_view() =~= old(self)@.stack.update(
                depth as int,
                LevelModel { items, ..level },
            ));
        }
    }

    /// Flip the focused item's favorite state and queue a server update.
    pub fn toggle_favorite(&mut self)
        ensures
            final(self)@ == old(self)@.favorite_toggled(),
    {
        let (depth, row): (usize, usize) = match self.focused_row() {
            Some(place) => place,
            None => {
                return ;
            },
        };
        let mut item = self.stack[depth].items[row].clone();
        let favorite = !item.is_favorite;
        item.is_favorite = favorite;
        let item_id = item.id.clone();
        let note = concat2(
            if favorite {
                "Favorited: "
            } else {
                "Unfavorited: "
            },
            item.name.as_str(),
        );
        self.put_item(depth, row, item);
        self.set_status(note.as_str());
        self.queue_intent(Intent::SetFavorite { item_id, favorite });
    }

    /// Revert an optimistic favorite toggle when the server call fails.
    pub fn revert_favorite(&mut self, item_id: &str, favorite: bool)
        ensures
            final(self)@ == old(self)@.favorite_set(item_id@, favorite),
    {
        let ghost before = self@.stack;
        let ghost goal = old(self)@.favorite_set(item_id@, favorite).stack;
        let mut i: usize = 0;
        while i < self.stack.len()
            invariant
                i <= self.stack@.len(),
                self.stack@.len() == before.len(),
                before == old(self)@.stack,
                goal == old(self)@.favorite_set(item_id@, favorite).stack,
                self@ == (AppModel { stack: self@.stack, ..old(self)@ }),
                forall|j: int| 0 <= j < i ==> (#[trigger] self.stack@[j])@ == goal[j],
                forall|j: int| i <= j < before.len() ==> (#[trigger] self.stack@[j])@ == before[j],
            decreases self.stack@.len() - i,
        {
            set_favorite_of(&mut self.stack[i].items, item_id, favorite);
            i = i + 1;
        }
        assert(self@.stack =~= goal);
    }

    /// Flip the focused item's played state and queue a server update.
    pub fn toggle_played(&mut self)
        ensures
            final(self)@ == old(self)@.played_toggled(),
    {
        let (depth, row): (usize, usize) = match self.focused_row() {
            Some(place) => place,
            None => {
                return ;
            },
        };
        let mut item = self.stack[depth].items[row].clone();
        let played = !item.is_played;
        item.is_played = played;
        let item_id = item.id.clone();
        let note = concat2(
            if played {
                "Marked played: "
            } else {
                "Marked unplayed: "
            },
            item.name.as_str(),
        );
        self.put_item(depth, row, item);
        self.set_status(note.as_str());
        self.queue_intent(Intent::SetPlayed { item_id, played });
    }

    /// Revert an optimistic played toggle when the server call fails.
    pub fn revert_played(&mut self, item_id: &str, played: bool)
        ensures
            final(self)@ == old(self)@.played_set(item_id@, played),
    {
        let ghost before = self@.stack;
        let ghost goal = old(self)@.played_set(item_id@, played).stack;
        let mut i: usize = 0;
        while i < self.stack.len()
            invariant
                i <= self.stack@.len(),
                self.stack@.len() == before.len(),
                before == old(self)@.stack,
                goal == old(self)@.played_set(item_id@, played).stack,
                self@ == (AppModel { stack: self@.stack, ..old(self)@ }),
                forall|j: int| 0 <= j < i ==> (#[trigger] self.stack@[j])@ == goal[j],
                forall|j: int| i <= j < before.len() ==> (#[trigger] self.stack@[j])@ == before[j],
            decreases self.stack@.len() - i,
        {
            set_played_of(&mut self.stack[i].items, item_id, played);
            i = i + 1;
        }
        assert(self@.stack =~= goal);
    }

    /// Open an item: drill into a folder, show a video's options, play audio, or
    /// report that it can't be played.
    pub fn open_item(&mut self, item: Item)
        ensures
            final(self)@ == old(self)@.opened(item@),
    {
        if item.is_folder {
            self.drill_into(&item);
            return ;
        }
        match item.media() {
            MediaKind::Video => self.open_media_options_view(item),
            MediaKind::Audio => self.queue_intent(
                Intent::Play { item, media: MediaKind::Audio, start_ticks: None },
            ),
            MediaKind::Other => {
                let note = concat2("Not playable: ", item.name.as_str());
                self.set_status(note.as_str());
            },
        }
    }

    /// Open an item from a full-screen view, leaving the view for the library.
    pub fn open_item_from_view(&mut self, item: Item)
        ensures
            final(self)@ == old(self)@.opened_from_view(item@),
    {
        if item.is_folder || item.media() != MediaKind::Other {
            self.focus = Pane::LibraryItems;
        }
        self.open_item(item);
    }

    /// Make the state ready for Enter and pick the item that Enter acts on.
    fn activation_item(&mut self) -> (item: Option<Item>)
        ensures
            final(self)@ == old(self)@.ready_to_activate(),
            item.deep_view() == old(self)@.activation_target(),
    {
        let n: usize = self.stack.len();
        if self.focus == Pane::LibraryItems {
            // Enter on the root pane while drilled replaces the drilled stack, so
            // opening a new album/playlist swaps the middle pane to its contents
            // instead of pushing yet another level.
            if n > 1 {
                self.stack.truncate(1);
                assert(self.stack.deep_view() =~= old(self)@.stack.take(1));
            }
            match self.stack.first() {
                Some(root) => copied(root.selected_item()),
                None => None,
            }
        } else if self.focus == Pane::Content && n > 1 {
            // The *child* the cursor sits on, not the parent that the level stands
            // for while its cursor is unused.
            self.stack[n - 1].cursor_engaged = true;
            assert(self.stack.deep_view() =~= old(self)@.stack.update(
                n - 1,
                old(self)@.stack.last().engaged(),
            ));
            copied(self.stack[n - 1].selected_item())
        } else {
            copied(self.current_item())
        }
    }

    /// Enter on the focused pane: apply a section, drill into a folder, play a
    /// leaf, or report that the item can't be played.
    pub fn activate(&mut self)
        ensures
            final(self)@ == old(self)@.activated(),
    {
        if self.focus == Pane::LibrarySections {
            self.apply_section(self.section_selected);
            return ;
        }
        if let Some(item) = self.activation_item() {
            self.open_item(item);
        }
    }
}

/// Tab and Shift+Tab undo each other, from any pane of the cycle.
pub proof fn pane_steps_are_inverse(app: AppModel)
    requires
        app.pane_cycle().contains(app.focus),
    ensures
        pane_before(app.pane_cycle(), pane_after(app.pane_cycle(), app.focus)) == app.focus,
        pane_after(app.pane_cycle(), pane_before(app.pane_cycle(), app.focus)) == app.focus,
{
    let cycle = app.pane_cycle();
    lemma_cycle_positions(app, app.focus);
    lemma_cycle_positions(app, pane_after(cycle, app.focus));
    lemma_cycle_positions(app, pane_before(cycle, app.focus));
}

proof fn lemma_cycle_positions(app: AppModel, pane: Pane)
    ensures
        ({
            let cycle = app.pane_cycle();
            cycle.contains(pane) ==> sequences::first_index(cycle, is_pane(pane)) is Some && {
                let i = sequences::first_index(cycle, is_pane(pane))->0;
                0 <= i < cycle.len() && cycle[i] == pane && forall|j: int|
                    0 <= j < cycle.len() && cycle[j] == pane ==> j == i
            }
        }),
{
    sequences::lemma_first_index(app.pane_cycle(), is_pane(pane));
}

/// Tab and Shift+Tab only ever land on a pane of the cycle, so never on a dead
/// placeholder.
pub proof fn focus_steps_land_in_the_cycle(app: AppModel)
    ensures
        app.pane_cycle().contains(app.focused_next().focus),
        app.pane_cycle().contains(app.focused_previous().focus),
{
    let cycle = app.pane_cycle();
    sequences::lemma_first_index(cycle, is_pane(app.focus));
    assert(cycle[0] == Pane::TopBar);
}

/// Flipping the favorite state twice restores every level.
pub proof fn favorite_toggle_is_an_involution(app: AppModel)
    ensures
        app.favorite_toggled().favorite_toggled().stack =~~= app.stack,
{
}

/// Flipping the played state twice restores every level.
pub proof fn played_toggle_is_an_involution(app: AppModel)
    ensures
        app.played_toggled().played_toggled().stack =~~= app.stack,
{
}

/// Flipping a mark leaves every level as it was but the one that the focused pane
/// works on.
pub proof fn marks_stay_in_the_focused_level(app: AppModel, depth: int)
    requires
        0 <= depth < app.stack.len(),
        depth != app.focused_depth(),
    ensures
        app.favorite_toggled().stack[depth] == app.stack[depth],
        app.played_toggled().stack[depth] == app.stack[depth],
{
}

/// When the server refuses an optimistic favorite change, setting the old state
/// again undoes it: the library looks as before, if every copy of the item agreed.
pub proof fn revert_undoes_a_favorite_toggle(app: AppModel)
    requires
        app.focused_level() is Some,
        app.focused_level()->0.selected_item() is Some,
        forall|i: int, j: int|
            0 <= i < app.stack.len() && 0 <= j < app.stack[i].items.len() && (
            #[trigger] app.stack[i].items[j]).id == app.focused_level()->0.selected_item()->0.id
                ==> app.stack[i].items[j].is_favorite
                == app.focused_level()->0.selected_item()->0.is_favorite,
    ensures
        ({
            let item = app.focused_level()->0.selected_item()->0;
            app.favorite_toggled().favorite_set(item.id, item.is_favorite).stack =~~= app.stack
        }),
{
    let item = app.focused_level()->0.selected_item()->0;
    let reverted = app.favorite_toggled().favorite_set(item.id, item.is_favorite).stack;
    assert forall|i: int| 0 <= i < app.stack.len() implies reverted[i] == app.stack[i] by {
        assert(reverted[i].items =~= app.stack[i].items);
    }
}

/// When the server refuses an optimistic played change, setting the old state
/// again undoes it: the library looks as before, if every copy of the item agreed.
pub proof fn revert_undoes_a_played_toggle(app: AppModel)
    requires
        app.focused_level() is Some,
        app.focused_level()->0.selected_item() is Some,
        forall|i: int, j: int|
            0 <= i < app.stack.len() && 0 <= j < app.stack[i].items.len() && (
            #[trigger] app.stack[i].items[j]).id == app.focused_level()->0.selected_item()->0.id
                ==> app.stack[i].items[j].is_played
                == app.focused_level()->0.selected_item()->0.is_played,
    ensures
        ({
            let item = app.focused_level()->0.selected_item()->0;
            app.played_toggled().played_set(item.id, item.is_played).stack =~~= app.stack
        }),
{
    let item = app.focused_level()->0.selected_item()->0;
    let reverted = app.played_toggled().played_set(item.id, item.is_played).stack;
    assert forall|i: int| 0 <= i < app.stack.len() implies reverted[i] == app.stack[i] by {
        assert(reverted[i].items =~= app.stack[i].items);
    }
}

/// Going back right after drilling in restores the stack and leaves the user on
/// the parent list.
pub proof fn back_undoes_a_drill(app: AppModel, item: ItemModel)
    requires
        app.stack.len() > 0,
    ensures
        app.drilled_into(item).went_back().stack == app.stack,
        app.stack.len() == 1 ==> app.drilled_into(item).went_back().focus == Pane::LibraryItems,
{
    assert(app.drilled_into(item).went_back().stack =~= app.stack);
}

/// A freshly drilled level stands for the folder it was opened from, even after
/// its children have come in.
pub proof fn drilled_level_stands_for_its_parent(
    app: AppModel,
    item: ItemModel,
    children: Seq<ItemModel>,
)
    requires
        sequences::first_index(app.stack, awaits(item.id)) is None,
    ensures
        app.drilled_into(item).current_item() == Some(item),
        app.drilled_into(item).current_item_revealed(),
        app.drilled_into(item).level_filled(item.id, children).current_item() == Some(item),
        app.drilled_into(item).level_filled(item.id, children).current_level()->0.items == children,
{
    let drilled = app.drilled_into(item);
    let p = awaits(item.id);
    sequences::lemma_first_index(app.stack, p);
    let top = app.stack.len() as int;
    assert forall|j: int| 0 <= j < top implies !p(#[trigger] drilled.stack[j]) by {
        assert(drilled.stack[j] == app.stack[j]);
    }
    sequences::lemma_first_index_found(drilled.stack, p, top);
}

/// A detail that comes in for another item than the current one is not shown.
pub proof fn stale_detail_is_ignored(app: AppModel, id: Seq<char>, detail: ItemDetailModel)
    requires
        app.current_item() matches Some(item) ==> item.id != id,
    ensures
        app.detail_arrived(id, detail).current_detail == app.current_detail,
        app.detail_arrived(id, detail).shown_detail() == app.shown_detail(),
{
}

/// A detail that comes in for the current item is shown.
pub proof fn current_detail_is_shown(app: AppModel, detail: ItemDetailModel)
    requires
        app.current_item() is Some,
    ensures
        app.detail_arrived(app.current_item()->0.id, detail).shown_detail() == Some(detail),
{
}

} // verus!
