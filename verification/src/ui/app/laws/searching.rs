//! The search inputs: what is typed, remembered and asked for.

use vstd::prelude::*;
use vstd::string::*;

use crate::sequences;
use crate::text;
use crate::ui::app::search;
use crate::ui::app::state::AppModel;
use crate::ui::app::types::{GlobalSearchModel, IntentModel, ItemModel, Pane};
use crate::ui::keymap::{KeyCode, KeyEvent};

verus! {

// ---------------------------------------------------------------------------
// The search input of a library

/// Typing adds the character at the end, Backspace takes the last one away, and neither
/// asks the server for anything.
pub proof fn typing_edits_the_end(app: AppModel, key: KeyEvent)
    requires
        app.search_query is Some,
    ensures
        ({
            let before = app.search_query->0;
            let after = app.search_key(key);
            &&& key.code is Char && !key.modifiers.control ==> {
                &&& after.search_query is Some
                &&& after.search_query->0.len() == before.len() + 1
                &&& after.search_query->0.last() == key.code->Char_0
                &&& after.search_query->0.drop_last() == before
                &&& after == (AppModel {
                    search_query: after.search_query,
                    search_history_cursor: None,
                    ..app
                })
            }
            &&& key.code is Char && key.modifiers.control ==> after == app
            &&& key.code == KeyCode::Backspace ==> {
                &&& after.search_query is Some
                &&& before.len() > 0 ==> after.search_query->0 == before.drop_last()
                &&& before.len() == 0 ==> after.search_query->0.len() == 0
                &&& after == (AppModel {
                    search_query: after.search_query,
                    search_history_cursor: None,
                    ..app
                })
            }
        }),
{
    let before = app.search_query->0;
    if key.code is Char {
        assert(before.push(key.code->Char_0).drop_last() =~= before);
    }
}

/// Escape drops the query and searches for nothing.
pub proof fn escape_drops_the_query(app: AppModel, key: KeyEvent)
    requires
        app.search_query is Some,
        key.code == KeyCode::Esc,
    ensures
        app.search_key(key) == (AppModel {
            search_query: None,
            search_history_cursor: None,
            focus: Pane::LibraryItems,
            ..app
        }),
{
}

/// Enter searches the active library for what was typed, without the blanks around it,
/// and remembers those words as the newest search.
pub proof fn enter_searches_for_what_was_typed(app: AppModel, key: KeyEvent)
    requires
        app.search_query is Some,
        key.code == KeyCode::Enter,
        text::trimmed(app.search_query->0).len() > 0,
        app.library_selected < app.libraries.len(),
    ensures
        ({
            let words = text::trimmed(app.search_query->0);
            let after = app.search_key(key);
            &&& after.search_query is None
            &&& after.search_history_cursor is None
            &&& after.focus == Pane::LibraryItems
            &&& after.search_history.len() > 0
            &&& after.search_history[0] == words
            &&& after.pending.len() == app.pending.len() + 2
            &&& after.pending[app.pending.len() as int] == IntentModel::SaveSearchHistory(
                after.search_history,
            )
            &&& after.pending.last() matches IntentModel::Search { query, .. }
            &&& query == words
            &&& after.pending.take(app.pending.len() as int) == app.pending
            &&& after.queue == app.queue
        }),
{
    let after = app.search_key(key);
    assert(after.pending.take(app.pending.len() as int) =~= app.pending);
}

/// Enter on blanks only closes the input.
pub proof fn blanks_are_not_searched_for(app: AppModel, key: KeyEvent)
    requires
        app.search_query is Some,
        key.code == KeyCode::Enter,
        text::trimmed(app.search_query->0).len() == 0,
    ensures
        app.search_key(key).search_query is None,
        app.search_key(key).pending == app.pending,
        app.search_key(key).search_history == app.search_history,
        app.search_key(key).stack == app.stack,
{
}

/// A search is narrowed to the active section: its item types, and its name in the title
/// where it has types.
pub proof fn a_search_is_narrowed_to_the_section(app: AppModel, words: Seq<char>)
    requires
        app.library_selected < app.libraries.len(),
        app.current_section() is Some,
    ensures
        ({
            let section = app.current_section()->0;
            let after = app.search_started(words);
            let level = after.stack[0];
            &&& after.stack.len() == 1
            &&& after.pending.last() matches IntentModel::Search { query, item_types, scope_label }
            &&& query == words
            &&& item_types == section.item_types
            &&& section.item_types.len() > 0 ==> scope_label == section.name
            &&& section.item_types.len() == 0 ==> scope_label.len() == 0
            &&& section.item_types.len() > 0 && section.name.len() > 0 ==> level.title
                == "Search · "@ + section.name + ": "@ + words
            &&& section.item_types.len() == 0 ==> level.title == "Search: "@ + words
            &&& level.parent_id == app.libraries[app.library_selected as int].id
            &&& level.loading
            &&& after == (AppModel { stack: after.stack, pending: after.pending, ..app })
        }),
{
}

// ---------------------------------------------------------------------------
// The history

/// A remembered search comes first, and only once; no other search is lost before the
/// limit, and the others keep their order.
pub proof fn the_newest_search_comes_first(history: Seq<Seq<char>>, words: Seq<char>)
    ensures
        ({
            let after = search::history_with(history, words);
            &&& after.len() > 0
            &&& after[0] == words
            &&& forall|i: int| 0 < i < after.len() ==> #[trigger] after[i] != words
            &&& forall|i: int|
                0 < i < after.len() ==> history.contains(#[trigger] after[i])
            &&& after.len() <= 20
        }),
{
    let others = history.filter(search::differs_from(words));
    let after = search::history_with(history, words);
    assert forall|i: int| 0 < i < after.len() implies #[trigger] after[i] != words
        && history.contains(after[i]) by {
        assert(after[i] == others[i - 1]);
        history.lemma_filter_pred(search::differs_from(words), i - 1);
        history.lemma_filter_contains_rev(search::differs_from(words), others[i - 1]);
    }
}

/// A new search pushes the others one place down as long as there is room.
pub proof fn a_new_search_pushes_the_others_down(history: Seq<Seq<char>>, words: Seq<char>, i: int)
    requires
        !history.contains(words),
        0 <= i < history.len(),
        i + 1 < 20,
    ensures
        search::history_with(history, words).len() > i + 1,
        search::history_with(history, words)[i + 1] == history[i],
{
    lemma_nothing_left_out(history, words);
}

proof fn lemma_nothing_left_out(history: Seq<Seq<char>>, words: Seq<char>)
    requires
        !history.contains(words),
    ensures
        history.filter(search::differs_from(words)) == history,
    decreases history.len(),
{
    let p = search::differs_from(words);
    if history.len() == 0 {
        sequences::lemma_filter_empty(p);
        assert(history =~= Seq::empty());
    } else {
        let rest = history.drop_last();
        assert(!rest.contains(words)) by {
            if rest.contains(words) {
                let i = choose|i: int| 0 <= i < rest.len() && rest[i] == words;
                assert(history[i] == words);
            }
        }
        assert(history.last() != words) by {
            assert(history[history.len() - 1] == history.last());
        }
        lemma_nothing_left_out(rest, words);
        sequences::lemma_filter_push(rest, history.last(), p);
        assert(rest.push(history.last()) =~= history);
    }
}

/// Up walks to older searches one by one and stops at the oldest.
pub proof fn up_shows_older_searches(app: AppModel, key: KeyEvent)
    requires
        app.search_query is Some,
        app.search_history.len() > 0,
        app.search_history.len() <= usize::MAX,
        key.code == KeyCode::Up,
    ensures
        ({
            let after = app.search_key(key);
            let cursor = after.search_history_cursor;
            &&& app.search_history_cursor is None ==> cursor == Some(0usize)
            &&& app.search_history_cursor matches Some(at) ==> {
                &&& at + 1 < app.search_history.len() ==> cursor == Some((at + 1) as usize)
                &&& at + 1 >= app.search_history.len() ==> cursor == Some(
                    (app.search_history.len() - 1) as usize,
                )
            }
            &&& after.search_query == Some(app.search_history[cursor->0 as int])
            &&& after.search_history == app.search_history
            &&& after.pending == app.pending
        }),
{
}

/// Down walks back to newer searches one by one, and past the newest to a blank input.
pub proof fn down_shows_newer_searches(app: AppModel, key: KeyEvent)
    requires
        app.search_query is Some,
        app.search_history.len() > 0,
        app.search_history_cursor matches Some(at) ==> at < app.search_history.len(),
        key.code == KeyCode::Down,
    ensures
        ({
            let after = app.search_key(key);
            &&& app.search_history_cursor is None ==> after == app
            &&& app.search_history_cursor == Some(0usize) ==> {
                &&& after.search_history_cursor is None
                &&& after.search_query == Some(Seq::<char>::empty())
            }
            &&& app.search_history_cursor is Some && app.search_history_cursor->0 > 0 ==> {
                &&& after.search_history_cursor == Some((app.search_history_cursor->0 - 1) as usize)
                &&& after.search_query == Some(
                    app.search_history[app.search_history_cursor->0 - 1],
                )
            }
            &&& after.pending == app.pending
        }),
{
}

// ---------------------------------------------------------------------------
// The global search

/// Going to the global search shows its input, keeps the query and closes whatever lay on
/// top.
pub proof fn the_global_search_opens_on_its_input(app: AppModel)
    ensures
        ({
            let after = app.global_search_entered();
            &&& after.focus == Pane::GlobalSearch
            &&& after.global_search.input_focused
            &&& after.global_search.query == app.global_search.query
            &&& after.global_search.results == app.global_search.results
            &&& after.global_search.selected == app.global_search.selected
            &&& after.popup is None && after.theme_picker is None && after.library_picker is None
            &&& after.playlist_picker is None && after.video_track_picker is None
            &&& after.media_options_view is None && !after.show_help
            &&& after.pending == app.pending
            &&& after.stack == app.stack
        }),
{
}

/// Enter in the input asks the whole server for what was typed, without the blanks around
/// it, and waits; blanks alone ask for nothing.
pub proof fn enter_asks_the_whole_server(app: AppModel, key: KeyEvent)
    requires
        key.code == KeyCode::Enter,
        app.global_search.input_focused,
    ensures
        ({
            let words = text::trimmed(app.global_search.query);
            let after = app.global_search_key(key);
            &&& words.len() == 0 ==> after == app
            &&& words.len() > 0 ==> {
                &&& after.pending == app.pending.push(IntentModel::GlobalSearch { query: words })
                &&& after.global_search.loading
                &&& after.global_search.results.len() == 0
                &&& after.global_search.query == app.global_search.query
                &&& after.focus == app.focus
            }
        }),
{
}

/// Enter on a result opens that very result.
pub proof fn enter_opens_the_selected_result(app: AppModel, key: KeyEvent)
    requires
        key.code == KeyCode::Enter,
        !app.global_search.input_focused,
    ensures
        app.global_search.selected < app.global_search.results.len() ==> app.global_search_key(key)
            == app.opened_from_view(
            app.global_search.results[app.global_search.selected as int],
        ),
        app.global_search.selected >= app.global_search.results.len() ==> app.global_search_key(key)
            == app,
{
}

/// Escape leaves the global search for the items, or for Home where there is no library;
/// the search itself stays as it was.
pub proof fn escape_leaves_the_global_search(app: AppModel, key: KeyEvent)
    requires
        key.code == KeyCode::Esc,
    ensures
        app.libraries.len() > 0 ==> app.global_search_key(key) == (AppModel {
            focus: Pane::LibraryItems,
            ..app
        }),
        app.libraries.len() == 0 ==> app.global_search_key(key) == (AppModel {
            focus: Pane::Home,
            ..app
        }),
{
}

/// Down goes from the input to the results and on to the next one, Up to the previous one
/// and from the first back to the input; the ends stay.
pub proof fn arrows_walk_the_results(view: GlobalSearchModel, down: KeyEvent, up: KeyEvent)
    requires
        down.code == KeyCode::Down,
        up.code == KeyCode::Up,
        view.results.len() <= usize::MAX,
    ensures
        view.input_focused ==> {
            &&& view.results.len() > 0 ==> view.edited(down) == (GlobalSearchModel {
                input_focused: false,
                ..view
            })
            &&& view.results.len() == 0 ==> view.edited(down) == view
            &&& view.edited(up) == view
        },
        !view.input_focused ==> {
            &&& view.selected + 1 < view.results.len() ==> view.edited(down).selected
                == view.selected + 1
            &&& view.selected + 1 >= view.results.len() ==> view.edited(down) == view
            &&& view.selected > 0 ==> view.edited(up).selected == view.selected - 1
                && !view.edited(up).input_focused
            &&& view.selected == 0 ==> view.edited(up).input_focused && view.edited(up).selected
                == 0
        },
        view.edited(down).query == view.query && view.edited(up).query == view.query,
        view.edited(down).results == view.results && view.edited(up).results == view.results,
{
}

/// Down and Up undo each other on the results.
pub proof fn result_steps_are_inverse(view: GlobalSearchModel, down: KeyEvent, up: KeyEvent)
    requires
        down.code == KeyCode::Down,
        up.code == KeyCode::Up,
        !view.input_focused,
        view.selected + 1 < view.results.len(),
        view.results.len() <= usize::MAX,
    ensures
        view.edited(down).edited(up) == view,
{
}

/// Tab goes back and forth between the input and the results.
pub proof fn tab_switches_between_input_and_results(view: GlobalSearchModel, tab: KeyEvent)
    requires
        tab.code == KeyCode::Tab,
    ensures
        view.edited(tab).input_focused == !view.input_focused,
        view.edited(tab).edited(tab) == view,
        view.edited(tab) == (GlobalSearchModel {
            input_focused: view.edited(tab).input_focused,
            ..view
        }),
{
}

/// Typed characters go to the end of the query while the input has the focus, and nowhere
/// else.
pub proof fn typing_reaches_the_focused_input_only(view: GlobalSearchModel, key: KeyEvent)
    requires
        key.code is Char || key.code == KeyCode::Backspace,
    ensures
        ({
            let after = view.edited(key);
            &&& !view.input_focused ==> after == view
            &&& after == (GlobalSearchModel { query: after.query, ..view })
            &&& view.input_focused && key.code is Char && !key.modifiers.control ==> after.query
                == view.query.push(key.code->Char_0)
            &&& view.input_focused && key.code is Char && key.modifiers.control ==> after == view
            &&& view.input_focused && key.code == KeyCode::Backspace && view.query.len() > 0
                ==> after.query == view.query.drop_last()
            &&& view.query.len() == 0 && key.code == KeyCode::Backspace ==> after == view
        }),
{
}

/// Results are shown where they answer the query as it stands: all of them, from the first
/// on, and the list gets the focus where there is something in it.
pub proof fn results_answer_the_query(
    view: GlobalSearchModel,
    words: Seq<char>,
    results: Seq<ItemModel>,
)
    ensures
        ({
            let after = view.results_taken(words, results);
            &&& words != text::trimmed(view.query) ==> after == view
            &&& words == text::trimmed(view.query) ==> {
                &&& after.results == results
                &&& after.selected == 0
                &&& !after.loading
                &&& after.submitted
                &&& results.len() > 0 ==> !after.input_focused
                &&& results.len() == 0 ==> after.input_focused == view.input_focused
                &&& after.query == view.query
            }
        }),
{
}

} // verus!
