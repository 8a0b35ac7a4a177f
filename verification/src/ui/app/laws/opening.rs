//! Opening and leaving: folders, libraries, sections, and what Enter does.

use vstd::prelude::*;

use crate::sequences;
use crate::ui::app::navigation;
use crate::ui::app::sections;
use crate::ui::app::state::AppModel;
use crate::ui::app::types::{ContextTopView, IntentModel, ItemModel, MediaKind, Pane};

verus! {

// ---------------------------------------------------------------------------
// Folders

/// Drilling in puts one empty, loading level on top that stands for the folder, asks
/// the server for the folder's detail and its children, and goes to the middle pane.
/// The levels below stay.
pub proof fn drilling_in_opens_the_folder(app: AppModel, item: ItemModel)
    ensures
        ({
            let after = app.drilled_into(item);
            let top = after.stack.last();
            &&& after.stack.len() == app.stack.len() + 1
            &&& forall|depth: int|
                0 <= depth < app.stack.len() ==> #[trigger] after.stack[depth] == app.stack[depth]
            &&& top.parent_id == item.id
            &&& top.title == item.name
            &&& top.parent_item == Some(item)
            &&& top.items.len() == 0
            &&& top.selected == 0
            &&& top.loading
            &&& !top.cursor_engaged
            &&& after.focus == Pane::Content
            &&& after.revealed_item_id == Some(item.id)
            &&& after.context_view == ContextTopView::Info
            &&& after.pending.len() == app.pending.len() + 2
            &&& after.pending.take(app.pending.len() as int) == app.pending
            &&& after.pending[app.pending.len() as int] == (IntentModel::LoadCurrentDetail {
                item_id: item.id,
                kind: item.kind,
            })
            &&& after.pending.last() == (IntentModel::OpenFolder { id: item.id, title: item.name })
            &&& after.queue == app.queue
            &&& after.libraries == app.libraries
            &&& after.library_selected == app.library_selected
        }),
{
    assert(app.drilled_into(item).pending.take(app.pending.len() as int) =~= app.pending);
}

/// Going back takes exactly the innermost folder away; from a library's root it goes to
/// the top bar and takes nothing away.
pub proof fn going_back_leaves_one_level(app: AppModel)
    ensures
        ({
            let after = app.went_back();
            &&& app.stack.len() > 1 ==> {
                &&& after.stack.len() == app.stack.len() - 1
                &&& forall|depth: int|
                    0 <= depth < after.stack.len() ==> #[trigger] after.stack[depth]
                        == app.stack[depth]
            }
            &&& app.stack.len() == 2 && app.focus == Pane::Content ==> after.focus
                == Pane::LibraryItems
            &&& app.stack.len() > 2 || (app.stack.len() == 2 && app.focus != Pane::Content)
                ==> after.focus == app.focus
            &&& app.stack.len() <= 1 ==> after.focus == Pane::TopBar && after.stack == app.stack
            &&& after == (AppModel { stack: after.stack, focus: after.focus, ..app })
        }),
{
}

/// A folder's children fill the first level that waits for them, from its first row, and
/// no other level.
pub proof fn children_fill_the_level_that_waits(
    app: AppModel,
    id: Seq<char>,
    items: Seq<ItemModel>,
    depth: int,
)
    requires
        0 <= depth < app.stack.len(),
        app.stack[depth].loading,
        app.stack[depth].parent_id == id,
        forall|j: int|
            0 <= j < depth ==> !((#[trigger] app.stack[j]).loading && app.stack[j].parent_id == id),
    ensures
        ({
            let after = app.level_filled(id, items);
            &&& after.stack.len() == app.stack.len()
            &&& after.stack[depth].items == items
            &&& after.stack[depth].selected == 0
            &&& !after.stack[depth].loading
            &&& after.stack[depth].parent_id == id
            &&& after.stack[depth].title == app.stack[depth].title
            &&& after.stack[depth].parent_item == app.stack[depth].parent_item
            &&& after.stack[depth].cursor_engaged == app.stack[depth].cursor_engaged
            &&& forall|j: int|
                0 <= j < app.stack.len() && j != depth ==> #[trigger] after.stack[j] == app.stack[j]
            &&& after == (AppModel { stack: after.stack, ..app })
        }),
{
    let p = navigation::awaits(id);
    assert forall|j: int| 0 <= j < depth implies !p(#[trigger] app.stack[j]) by {}
    sequences::lemma_first_index_found(app.stack, p, depth);
}

/// Children that no level waits for change nothing.
pub proof fn unexpected_children_are_dropped(
    app: AppModel,
    id: Seq<char>,
    items: Seq<ItemModel>,
)
    requires
        forall|j: int|
            0 <= j < app.stack.len() ==> !((#[trigger] app.stack[j]).loading
                && app.stack[j].parent_id == id),
    ensures
        app.level_filled(id, items) == app,
{
    let p = navigation::awaits(id);
    assert forall|j: int| 0 <= j < app.stack.len() implies !p(#[trigger] app.stack[j]) by {}
    sequences::lemma_first_index_missing(app.stack, p);
}

/// A fetched root list replaces the list of its own library only, closes every open
/// folder and starts at its first row.
pub proof fn a_root_list_fills_its_library(
    app: AppModel,
    library_id: Seq<char>,
    title: Seq<char>,
    items: Seq<ItemModel>,
)
    ensures
        ({
            let after = app.root_filled(library_id, title, items);
            &&& app.stack.len() > 0 && app.stack[0].parent_id == library_id ==> {
                &&& after.stack.len() == 1
                &&& after.stack[0].items == items
                &&& after.stack[0].title == title
                &&& after.stack[0].selected == 0
                &&& !after.stack[0].loading
                &&& after.stack[0].parent_id == library_id
            }
            &&& app.stack.len() == 0 || app.stack[0].parent_id != library_id ==> after == app
            &&& after == (AppModel { stack: after.stack, ..app })
        }),
{
}

/// A folder that could not be fetched is closed, unless the user has left it or it has
/// been filled. A library's root is never closed.
pub proof fn a_failed_folder_is_closed(app: AppModel, id: Seq<char>)
    ensures
        ({
            let after = app.loading_dropped(id);
            let waits = app.stack.len() > 1 && app.stack.last().loading && app.stack.last().parent_id
                == id;
            &&& waits ==> after.stack.len() == app.stack.len() - 1 && forall|depth: int|
                0 <= depth < after.stack.len() ==> #[trigger] after.stack[depth] == app.stack[depth]
            &&& !waits ==> after == app
            &&& after == (AppModel { stack: after.stack, ..app })
        }),
{
}

// ---------------------------------------------------------------------------
// Libraries and sections

/// Choosing another library shows its own items from its root and saves the choice;
/// choosing the active one, or one that is not there, changes nothing.
pub proof fn choosing_a_library_shows_its_items(app: AppModel, index: usize)
    ensures
        ({
            let after = app.library_chosen(index);
            &&& index < app.libraries.len() && index != app.library_selected ==> {
                &&& after.library_selected == index
                &&& after.stack.len() == 1
                &&& after.stack[0].items == app.libraries[index as int].items
                &&& after.stack[0].parent_id == app.libraries[index as int].id
                &&& after.stack[0].title == app.libraries[index as int].name
                &&& after.stack[0].selected == 0
                &&& !after.stack[0].loading
                &&& after.pending == app.pending.push(
                    IntentModel::SaveLastLibrary(app.libraries[index as int].id),
                )
                &&& after.libraries == app.libraries
                &&& after.focus == app.focus
                &&& after.queue == app.queue
            }
            &&& index >= app.libraries.len() || index == app.library_selected ==> after == app
        }),
{
}

/// Back in a library, the section that was active there last is selected again; without
/// one, or if it is gone, the first.
pub proof fn a_library_remembers_its_section(app: AppModel, index: usize, place: int)
    requires
        index < app.libraries.len(),
        0 <= place < sections::sections_of(app.libraries[index as int].collection_type).len(),
        app.section_memory.dom().contains(app.libraries[index as int].id),
        ({
            let list = sections::sections_of(app.libraries[index as int].collection_type);
            &&& list[place].name == app.section_memory[app.libraries[index as int].id]
            &&& forall|j: int| 0 <= j < place ==> (#[trigger] list[j]).name != list[place].name
        }),
    ensures
        app.on_library(index).section_selected == place,
{
    let list = sections::sections_of(app.libraries[index as int].collection_type);
    let p = crate::ui::app::state::section_has_name(list[place].name);
    assert forall|j: int| 0 <= j < place implies !p(#[trigger] list[j]) by {}
    sequences::lemma_first_index_found(list, p, place);
}

/// A library that remembers no section starts on the first one.
pub proof fn a_fresh_library_starts_on_its_first_section(app: AppModel, index: usize)
    requires
        index < app.libraries.len(),
        !app.section_memory.dom().contains(app.libraries[index as int].id),
    ensures
        app.on_library(index).section_selected == 0,
{
}

/// Applying a section empties the list until the answer comes, remembers the section for
/// this library, and asks the server for this library, this section and the filters that
/// were set for this library.
pub proof fn applying_a_section_asks_for_it(app: AppModel, index: usize)
    requires
        app.library_selected < app.libraries.len(),
        index < sections::sections_of(
            app.libraries[app.library_selected as int].collection_type,
        ).len(),
    ensures
        ({
            let library = app.libraries[app.library_selected as int];
            let section = sections::sections_of(library.collection_type)[index as int];
            let after = app.section_applied(index);
            &&& after.section_selected == index
            &&& after.stack.len() == 1
            &&& after.stack[0].loading
            &&& after.stack[0].items.len() == 0
            &&& after.stack[0].parent_id == library.id
            &&& after.section_memory.dom().contains(library.id)
            &&& after.section_memory[library.id] == section.name
            &&& forall|other: Seq<char>|
                other != library.id ==> (#[trigger] after.section_memory.dom().contains(other)
                    <==> app.section_memory.dom().contains(other)) && (
                app.section_memory.dom().contains(other) ==> after.section_memory[other]
                    == app.section_memory[other])
            &&& after.pending.len() == app.pending.len() + 2
            &&& after.pending[app.pending.len() as int] matches IntentModel::ApplySection {
                library_id,
                section: asked,
                extras,
            }
            &&& library_id == library.id
            &&& asked == section
            &&& app.section_filters.dom().contains(library.id) ==> extras
                == app.section_filters[library.id]
            &&& !app.section_filters.dom().contains(library.id) ==> extras.genres.len() == 0
                && extras.person_ids.len() == 0 && extras.studio_ids.len() == 0
                && extras.years.len() == 0 && extras.tags.len() == 0 && extras.filters.len() == 0
                && extras.sort_override is None
            &&& after.pending.last() == IntentModel::SaveSectionMemory(after.section_memory)
            &&& after.focus == app.focus
            &&& after.section_filters == app.section_filters
        }),
{
}

/// A section that is not there is not applied.
pub proof fn missing_sections_are_not_applied(app: AppModel, index: usize)
    ensures
        app.library_selected >= app.libraries.len() ==> app.section_applied(index) == app,
        index >= app.sections().len() ==> app.section_applied(index) == app,
{
}

/// The answer to a section request fills the list that waits for it.
pub proof fn a_section_answer_fills_the_list(
    app: AppModel,
    index: usize,
    title: Seq<char>,
    items: Seq<ItemModel>,
)
    requires
        app.library_selected < app.libraries.len(),
        index < sections::sections_of(
            app.libraries[app.library_selected as int].collection_type,
        ).len(),
    ensures
        ({
            let library = app.libraries[app.library_selected as int];
            let after = app.section_applied(index).root_filled(library.id, title, items);
            after.stack.len() == 1 && after.stack[0].items == items && !after.stack[0].loading
        }),
{
}

// ---------------------------------------------------------------------------
// Enter

/// A folder opens as a folder, a video as its options, a track plays at once, and
/// anything else is refused with a note.
pub proof fn opening_goes_by_the_kind(app: AppModel, item: ItemModel)
    ensures
        ({
            let after = app.opened(item);
            &&& item.is_folder ==> after.stack.len() == app.stack.len() + 1
                && after.stack.last().parent_id == item.id && after.pending.last() == (
            IntentModel::OpenFolder { id: item.id, title: item.name })
            &&& !item.is_folder && item.media() == MediaKind::Audio ==> after == (AppModel {
                pending: app.pending.push(
                    IntentModel::Play { item, media: MediaKind::Audio, start_ticks: None },
                ),
                ..app
            })
            &&& !item.is_folder && item.media() == MediaKind::Video ==> {
                &&& after.media_options_view is Some
                &&& after.media_options_view->0.item_id == item.id
                &&& after.media_options_view->0.item_name == item.name
                &&& after.media_options_view->0.loading
                &&& after.focus == Pane::Content
                &&& after.revealed_item_id == Some(item.id)
                &&& after.stack == app.stack
                &&& after.pending.len() == app.pending.len() + 2
                &&& after.pending[app.pending.len() as int] == (IntentModel::LoadCurrentDetail {
                    item_id: item.id,
                    kind: item.kind,
                })
                &&& after.pending.last() == (IntentModel::LoadMediaOptions { item_id: item.id })
            }
            &&& !item.is_folder && item.media() == MediaKind::Other ==> after == (AppModel {
                status_message: Some("Not playable: "@ + item.name),
                ..app
            })
        }),
{
}

/// Films, episodes and clips play as video, tracks and audio books as audio, and what
/// has no kind does not play.
pub proof fn kinds_decide_how_items_play(item: ItemModel)
    ensures
        item.kind == Some("Movie"@) || item.kind == Some("Episode"@) || item.kind == Some("Video"@)
            || item.kind == Some("MusicVideo"@) || item.kind == Some("Trailer"@) ==> item.media()
            == MediaKind::Video,
        item.kind == Some("Audio"@) || item.kind == Some("AudioBook"@) ==> item.media()
            == MediaKind::Audio,
        item.kind is None ==> item.media() == MediaKind::Other,
        item.media() == MediaKind::Audio ==> item.kind == Some("Audio"@) || item.kind == Some(
            "AudioBook"@,
        ),
        item.media() == MediaKind::Video ==> item.kind == Some("Movie"@) || item.kind == Some(
            "Episode"@,
        ) || item.kind == Some("Video"@) || item.kind == Some("MusicVideo"@) || item.kind == Some(
            "Trailer"@,
        ),
{
    reveal_strlit("Movie");
    reveal_strlit("Episode");
    reveal_strlit("Video");
    reveal_strlit("MusicVideo");
    reveal_strlit("Trailer");
    reveal_strlit("Audio");
    reveal_strlit("AudioBook");
    assert("Audio"@[0] == 'A' && "AudioBook"@[0] == 'A');
    assert("Movie"@[0] == 'M' && "Episode"@[0] == 'E' && "Video"@[0] == 'V');
    assert("MusicVideo"@[0] == 'M' && "Trailer"@[0] == 'T');
}

/// Enter in the items pane opens the root list's selected item, in place of a folder that
/// was open.
pub proof fn enter_opens_the_selected_root_item(app: AppModel)
    requires
        app.focus == Pane::LibraryItems,
        app.stack.len() > 0,
        app.stack[0].selected < app.stack[0].items.len(),
    ensures
        ({
            let item = app.stack[0].items[app.stack[0].selected as int];
            let after = app.activated();
            &&& item.is_folder ==> {
                &&& after.stack.len() == 2
                &&& after.stack[0] == app.stack[0]
                &&& after.stack[1].parent_id == item.id
                &&& after.stack[1].parent_item == Some(item)
                &&& after.pending.last() == (IntentModel::OpenFolder {
                    id: item.id,
                    title: item.name,
                })
            }
            &&& !item.is_folder ==> after.stack.len() == 1 && after.stack[0] == app.stack[0]
            &&& !item.is_folder && item.media() == MediaKind::Audio ==> after.pending
                == app.pending.push(
                IntentModel::Play { item, media: MediaKind::Audio, start_ticks: None },
            )
            &&& !item.is_folder && item.media() == MediaKind::Video
                ==> after.media_options_view is Some && after.media_options_view->0.item_id
                == item.id
        }),
{
    let taken = app.ready_to_activate();
    assert(taken.stack.len() == 1);
    assert(taken.stack[0] == app.stack[0]);
}

/// Enter in an opened folder opens the child under the cursor, not the folder again.
pub proof fn enter_opens_the_selected_child(app: AppModel)
    requires
        app.focus == Pane::Content,
        app.stack.len() > 1,
        app.stack.last().selected < app.stack.last().items.len(),
    ensures
        ({
            let folder = app.stack.last();
            let item = folder.items[folder.selected as int];
            let after = app.activated();
            &&& item.is_folder ==> after.stack.len() == app.stack.len() + 1
                && after.stack.last().parent_id == item.id && after.stack.last().parent_item
                == Some(item)
            &&& !item.is_folder && item.media() == MediaKind::Audio ==> after.pending
                == app.pending.push(
                IntentModel::Play { item, media: MediaKind::Audio, start_ticks: None },
            )
            &&& !item.is_folder && item.media() == MediaKind::Video
                ==> after.media_options_view is Some && after.media_options_view->0.item_id
                == item.id
            &&& after.stack[app.stack.len() - 1].cursor_engaged
            &&& after.stack[app.stack.len() - 1].selected == folder.selected
            &&& forall|depth: int|
                0 <= depth < app.stack.len() - 1 ==> #[trigger] after.stack[depth]
                    == app.stack[depth]
        }),
{
}

/// Enter on an empty list opens nothing.
pub proof fn enter_on_nothing_opens_nothing(app: AppModel)
    requires
        app.focus == Pane::LibraryItems || (app.focus == Pane::Content && app.stack.len() > 1),
        app.focus == Pane::LibraryItems && app.stack.len() > 0 ==> app.stack[0].selected
            >= app.stack[0].items.len(),
        app.focus == Pane::Content ==> app.stack.last().selected >= app.stack.last().items.len(),
    ensures
        app.activated().pending == app.pending,
        app.activated().media_options_view == app.media_options_view,
        app.activated().stack.len() <= app.stack.len(),
{
}

/// Enter in the sections pane applies the selected section.
pub proof fn enter_applies_the_selected_section(app: AppModel)
    requires
        app.focus == Pane::LibrarySections,
        app.library_selected < app.libraries.len(),
        app.section_selected < app.sections().len(),
    ensures
        ({
            let after = app.activated();
            &&& after.section_selected == app.section_selected
            &&& after.pending[app.pending.len() as int] matches IntentModel::ApplySection {
                library_id,
                section,
                ..
            }
            &&& library_id == app.libraries[app.library_selected as int].id
            &&& section == app.sections()[app.section_selected as int]
        }),
{
}

/// An item that can be opened leaves a full-screen view for the library; one that can't
/// be played leaves the user where they are.
pub proof fn opening_from_a_view_leaves_it(app: AppModel, item: ItemModel)
    ensures
        ({
            let after = app.opened_from_view(item);
            &&& item.is_folder ==> after.focus == Pane::Content && after.stack.last().parent_id
                == item.id
            &&& !item.is_folder && item.media() == MediaKind::Audio ==> after.focus
                == Pane::LibraryItems && after.pending == app.pending.push(
                IntentModel::Play { item, media: MediaKind::Audio, start_ticks: None },
            )
            &&& !item.is_folder && item.media() == MediaKind::Video ==> after.focus == Pane::Content
                && after.media_options_view is Some && after.media_options_view->0.item_id
                == item.id
            &&& !item.is_folder && item.media() == MediaKind::Other ==> after.focus == app.focus
                && after.pending == app.pending
        }),
{
}

// ---------------------------------------------------------------------------
// Marks

/// Flipping the favorite mark flips it on the selected item of the focused level alone
/// and tells the server the new state of that item.
pub proof fn the_favorite_mark_is_flipped_and_told(app: AppModel)
    requires
        app.stack.len() > 0,
        ({
            let depth = if app.focus == Pane::LibraryItems {
                0
            } else {
                app.stack.len() - 1
            };
            app.stack[depth].selected < app.stack[depth].items.len()
        }),
    ensures
        ({
            let depth = if app.focus == Pane::LibraryItems {
                0
            } else {
                app.stack.len() - 1
            };
            let row = app.stack[depth].selected as int;
            let item = app.stack[depth].items[row];
            let after = app.favorite_toggled();
            &&& after.stack.len() == app.stack.len()
            &&& after.stack[depth].items.len() == app.stack[depth].items.len()
            &&& after.stack[depth].items[row].is_favorite == !item.is_favorite
            &&& after.stack[depth].items[row].is_played == item.is_played
            &&& after.stack[depth].items[row].id == item.id
            &&& after.stack[depth].items[row].name == item.name
            &&& after.stack[depth].selected == app.stack[depth].selected
            &&& forall|other: int|
                0 <= other < app.stack[depth].items.len() && other != row
                    ==> #[trigger] after.stack[depth].items[other] == app.stack[depth].items[other]
            &&& after.pending == app.pending.push(
                IntentModel::SetFavorite { item_id: item.id, favorite: !item.is_favorite },
            )
            &&& after == (AppModel {
                stack: after.stack,
                status_message: after.status_message,
                pending: after.pending,
                ..app
            })
        }),
{
}

/// Flipping the played mark flips it on the selected item of the focused level alone and
/// tells the server the new state of that item.
pub proof fn the_played_mark_is_flipped_and_told(app: AppModel)
    requires
        app.stack.len() > 0,
        ({
            let depth = if app.focus == Pane::LibraryItems {
                0
            } else {
                app.stack.len() - 1
            };
            app.stack[depth].selected < app.stack[depth].items.len()
        }),
    ensures
        ({
            let depth = if app.focus == Pane::LibraryItems {
                0
            } else {
                app.stack.len() - 1
            };
            let row = app.stack[depth].selected as int;
            let item = app.stack[depth].items[row];
            let after = app.played_toggled();
            &&& after.stack.len() == app.stack.len()
            &&& after.stack[depth].items.len() == app.stack[depth].items.len()
            &&& after.stack[depth].items[row].is_played == !item.is_played
            &&& after.stack[depth].items[row].is_favorite == item.is_favorite
            &&& after.stack[depth].items[row].id == item.id
            &&& after.stack[depth].items[row].name == item.name
            &&& after.stack[depth].selected == app.stack[depth].selected
            &&& forall|other: int|
                0 <= other < app.stack[depth].items.len() && other != row
                    ==> #[trigger] after.stack[depth].items[other] == app.stack[depth].items[other]
            &&& after.pending == app.pending.push(
                IntentModel::SetPlayed { item_id: item.id, played: !item.is_played },
            )
            &&& after == (AppModel {
                stack: after.stack,
                status_message: after.status_message,
                pending: after.pending,
                ..app
            })
        }),
{
}

/// Setting a favorite mark reaches every copy of the item in every level, and no other
/// item and no other mark.
pub proof fn a_set_favorite_reaches_every_copy(
    app: AppModel,
    id: Seq<char>,
    favorite: bool,
    depth: int,
    row: int,
)
    requires
        0 <= depth < app.stack.len(),
        0 <= row < app.stack[depth].items.len(),
    ensures
        ({
            let before = app.stack[depth].items[row];
            let after = app.favorite_set(id, favorite).stack[depth].items[row];
            &&& before.id == id ==> after.is_favorite == favorite && after.is_played
                == before.is_played && after.id == before.id && after.name == before.name
            &&& before.id != id ==> after == before
            &&& app.favorite_set(id, favorite).stack.len() == app.stack.len()
            &&& app.favorite_set(id, favorite).stack[depth].items.len()
                == app.stack[depth].items.len()
            &&& app.favorite_set(id, favorite).stack[depth].selected == app.stack[depth].selected
            &&& app.favorite_set(id, favorite).pending == app.pending
        }),
{
}

/// Setting a played mark reaches every copy of the item in every level, and no other item
/// and no other mark.
pub proof fn a_set_played_reaches_every_copy(
    app: AppModel,
    id: Seq<char>,
    played: bool,
    depth: int,
    row: int,
)
    requires
        0 <= depth < app.stack.len(),
        0 <= row < app.stack[depth].items.len(),
    ensures
        ({
            let before = app.stack[depth].items[row];
            let after = app.played_set(id, played).stack[depth].items[row];
            &&& before.id == id ==> after.is_played == played && after.is_favorite
                == before.is_favorite && after.id == before.id && after.name == before.name
            &&& before.id != id ==> after == before
            &&& app.played_set(id, played).stack.len() == app.stack.len()
            &&& app.played_set(id, played).stack[depth].items.len() == app.stack[depth].items.len()
            &&& app.played_set(id, played).stack[depth].selected == app.stack[depth].selected
            &&& app.played_set(id, played).pending == app.pending
        }),
{
}

} // verus!
