//! Searching: the library-scoped search input with its history, and the global
//! search view.

use vstd::prelude::*;
use vstd::string::*;

use super::labels;
use super::labels::search_level_title;
use super::state::{App, AppModel};
use super::types::{
    GlobalSearchModel, GlobalSearchState, Intent, IntentModel, Item, ItemModel, Level, LevelModel,
    Pane,
};
use crate::sequences;
use crate::sequences::{copy_texts, push_deep};
use crate::text;
use crate::text::{same_text, trim};
use crate::ui::app::home;
use crate::ui::keymap::{KeyCode, KeyEvent};

verus! {

/// How many recent searches are kept.
pub const SEARCH_HISTORY_LIMIT: usize = 20;

/// Whether a text differs from the given one.
pub open spec fn differs_from(query: Seq<char>) -> spec_fn(Seq<char>) -> bool {
    |other: Seq<char>| other != query
}

/// The history with `query` at its front, once, and cut to its limit.
pub open spec fn history_with(history: Seq<Seq<char>>, query: Seq<char>) -> Seq<Seq<char>> {
    let all = seq![query] + history.filter(differs_from(query));
    if all.len() > SEARCH_HISTORY_LIMIT {
        all.take(SEARCH_HISTORY_LIMIT as int)
    } else {
        all
    }
}

/// A text without its last character.
pub open spec fn without_last(query: Seq<char>) -> Seq<char> {
    if query.len() > 0 {
        query.drop_last()
    } else {
        query
    }
}

impl AppModel {
    /// With a query remembered and the history about to be saved.
    pub open spec fn search_remembered(self, query: Seq<char>) -> AppModel {
        let history = history_with(self.search_history, query);
        AppModel { search_history: history, ..self }.queued(IntentModel::SaveSearchHistory(history))
    }

    /// With a search under way in the active library, narrowed to the active
    /// section's item types.
    pub open spec fn search_started(self, query: Seq<char>) -> AppModel {
        match self.current_library() {
            Some(library) => {
                let item_types = match self.current_section() {
                    Some(section) => section.item_types,
                    None => Seq::empty(),
                };
                let scope_label = match self.current_section() {
                    Some(section) => if section.item_types.len() > 0 {
                        section.name
                    } else {
                        Seq::empty()
                    },
                    None => Seq::empty(),
                };
                AppModel {
                    stack: seq![
                        LevelModel::awaiting(
                            labels::search_title(scope_label, query),
                            library.id,
                        ),
                    ],
                    ..self
                }.queued(IntentModel::Search { query, item_types, scope_label })
            },
            None => self,
        }
    }

    /// With the search input showing an older (positive) or newer (negative)
    /// recent query; past the newest one it is blank.
    pub open spec fn history_cycled(self, delta: int) -> AppModel {
        if self.search_history.len() == 0 {
            self
        } else {
            let last = self.search_history.len() - 1;
            match self.search_history_cursor {
                Some(cursor) => {
                    let next = if cursor + delta < -1 {
                        -1
                    } else if cursor + delta > last {
                        last
                    } else {
                        cursor + delta
                    };
                    self.history_at(next)
                },
                None => if delta > 0 {
                    self.history_at(0)
                } else {
                    self
                },
            }
        }
    }

    /// With the search input showing the recent query at `place`; blank before the
    /// first.
    pub open spec fn history_at(self, place: int) -> AppModel {
        if place < 0 {
            AppModel {
                search_history_cursor: None,
                search_query: Some(Seq::empty()),
                ..self
            }
        } else {
            AppModel {
                search_history_cursor: Some(place as usize),
                search_query: Some(self.search_history[place]),
                ..self
            }
        }
    }

    /// With the search input closed.
    pub open spec fn search_closed(self) -> AppModel {
        AppModel {
            search_query: None,
            search_history_cursor: None,
            focus: Pane::LibraryItems,
            ..self
        }
    }

    /// After a key while the search input is open.
    pub open spec fn search_key(self, key: KeyEvent) -> AppModel {
        match self.search_query {
            Some(query) => match key.code {
                KeyCode::Esc => self.search_closed(),
                KeyCode::Enter => {
                    let wanted = text::trimmed(query);
                    if wanted.len() > 0 {
                        self.search_closed().search_remembered(wanted).search_started(wanted)
                    } else {
                        self.search_closed()
                    }
                },
                KeyCode::Backspace => AppModel {
                    search_query: Some(without_last(query)),
                    search_history_cursor: None,
                    ..self
                },
                KeyCode::Up => self.history_cycled(1),
                KeyCode::Down => self.history_cycled(-1),
                KeyCode::Char(c) => if key.modifiers.control {
                    self
                } else {
                    AppModel {
                        search_query: Some(query.push(c)),
                        search_history_cursor: None,
                        ..self
                    }
                },
                _ => self,
            },
            None => self,
        }
    }

    /// With another global-search state.
    pub open spec fn searching(self, search: GlobalSearchModel) -> AppModel {
        AppModel { global_search: search, ..self }
    }

    /// In the global search view, ready to type.
    pub open spec fn global_search_entered(self) -> AppModel {
        AppModel {
            focus: Pane::GlobalSearch,
            global_search: GlobalSearchModel { input_focused: true, ..self.global_search },
            status_message: None,
            ..self.overlays_closed()
        }
    }

    /// After global search results came in. Those of an outdated query are dropped.
    pub open spec fn global_results_arrived(
        self,
        query: Seq<char>,
        results: Seq<ItemModel>,
    ) -> AppModel {
        self.searching(self.global_search.results_taken(query, results))
    }

    /// With the typed query on its way to the server, unless it is blank.
    pub open spec fn global_search_submitted(self) -> AppModel {
        let wanted = text::trimmed(self.global_search.query);
        if wanted.len() > 0 {
            self.searching(
                GlobalSearchModel { loading: true, results: Seq::empty(), ..self.global_search },
            ).queued(IntentModel::GlobalSearch { query: wanted })
        } else {
            self
        }
    }

    /// After a key in the global search view.
    pub open spec fn global_search_key(self, key: KeyEvent) -> AppModel {
        let search = self.global_search;
        match key.code {
            KeyCode::Esc => AppModel {
                focus: if self.libraries.len() == 0 {
                    Pane::Home
                } else {
                    Pane::LibraryItems
                },
                ..self
            },
            KeyCode::Enter => if search.input_focused {
                self.global_search_submitted()
            } else if search.selected < search.results.len() {
                self.opened_from_view(search.results[search.selected as int])
            } else {
                self
            },
            _ => self.searching(search.edited(key)),
        }
    }
}

impl GlobalSearchModel {
    /// After results came in. Those of an outdated query are dropped.
    pub open spec fn results_taken(
        self,
        query: Seq<char>,
        results: Seq<ItemModel>,
    ) -> GlobalSearchModel {
        if text::trimmed(self.query) == query {
            GlobalSearchModel {
                results,
                loading: false,
                submitted: true,
                selected: 0,
                input_focused: self.input_focused && results.len() == 0,
                ..self
            }
        } else {
            self
        }
    }

    /// After a key that types, or moves within the view.
    pub open spec fn edited(self, key: KeyEvent) -> GlobalSearchModel {
        match key.code {
            KeyCode::Up => if self.input_focused {
                self
            } else if self.selected == 0 {
                GlobalSearchModel { input_focused: true, ..self }
            } else {
                GlobalSearchModel { selected: (self.selected - 1) as usize, ..self }
            },
            KeyCode::Down => if self.input_focused {
                GlobalSearchModel { input_focused: self.results.len() == 0, ..self }
            } else if self.selected + 1 < self.results.len() {
                GlobalSearchModel { selected: (self.selected + 1) as usize, ..self }
            } else {
                self
            },
            KeyCode::Tab => GlobalSearchModel { input_focused: !self.input_focused, ..self },
            KeyCode::Backspace => if self.input_focused {
                GlobalSearchModel { query: without_last(self.query), ..self }
            } else {
                self
            },
            KeyCode::Char(c) => if self.input_focused && !key.modifiers.control {
                GlobalSearchModel { query: self.query.push(c), ..self }
            } else {
                self
            },
            _ => self,
        }
    }
}

impl GlobalSearchState {
    /// Take results in, unless the query has changed since.
    pub fn take_results(&mut self, query: &str, results: Vec<Item>)
        ensures
            final(self)@ == old(self)@.results_taken(query@, results.deep_view()),
    {
        if !same_text(trim(self.query.as_str()), query) {
            return ;
        }
        // After results land, drop focus into the list so Up/Down navigate.
        if results.len() > 0 {
            self.input_focused = false;
        }
        self.results = results;
        self.loading = false;
        self.submitted = true;
        self.selected = 0;
    }

    /// A key that types, or moves within the view.
    pub fn edit(&mut self, key: KeyEvent)
        ensures
            final(self)@ == old(self)@.edited(key),
    {
        match key.code {
            KeyCode::Up => {
                if !self.input_focused {
                    if self.selected == 0 {
                        self.input_focused = true;
                    } else {
                        self.selected = self.selected - 1;
                    }
                }
            },
            KeyCode::Down => {
                let len: usize = self.results.len();
                if self.input_focused {
                    self.input_focused = len == 0;
                } else if len > 0 && self.selected < len - 1 {
                    self.selected = self.selected + 1;
                }
            },
            KeyCode::Tab => {
                self.input_focused = !self.input_focused;
            },
            KeyCode::Backspace => {
                if self.input_focused {
                    self.query.pop();
                }
            },
            KeyCode::Char(c) => {
                if self.input_focused && !key.modifiers.control {
                    self.query.push(c);
                }
            },
            _ => {},
        }
    }
}

fn remove_query(history: &Vec<String>, query: &str) -> (kept: Vec<String>)
    ensures
        kept.deep_view() == history.deep_view().filter(differs_from(query@)),
{
    let ghost p = differs_from(query@);
    let ghost models = history.deep_view();
    let mut kept: Vec<String> = Vec::new();
    let mut i: usize = 0;
    proof {
        sequences::lemma_filter_empty(p);
        assert(models.take(0) =~= Seq::empty());
        assert(kept.deep_view() =~= Seq::empty());
    }
    while i < history.len()
        invariant
            i <= history@.len(),
            models == history.deep_view(),
            p == differs_from(query@),
            kept.deep_view() == models.take(i as int).filter(p),
        decreases history@.len() - i,
    {
        proof {
            sequences::lemma_take_push(models, i as int);
            sequences::lemma_filter_push(models.take(i as int), models[i as int], p);
        }
        if !same_text(history[i].as_str(), query) {
            push_deep(&mut kept, history[i].clone());
        }
        i = i + 1;
    }
    proof {
        sequences::lemma_take_all(models);
    }
    kept
}

impl App {
    /// Push `query` to the front of `search_history`, dedup, cap at 20, and
    /// queue a save so the new list survives restart.
    pub fn remember_search(&mut self, query: &str)
        ensures
            final(self)@ == old(self)@.search_remembered(query@),
    {
        let mut history = remove_query(&self.search_history, query);
        let ghost kept = history.deep_view();
        history.insert(0, query.to_owned());
        assert(history.deep_view() =~= seq![query@] + kept);
        let ghost all = history.deep_view();
        history.truncate(SEARCH_HISTORY_LIMIT);
        assert(history.deep_view() =~= history_with(old(self)@.search_history, query@));
        let saved = copy_texts(&history);
        self.search_history = history;
        self.queue_intent(Intent::SaveSearchHistory(saved));
    }

    /// Push a loading root level and queue the search fetch. The active
    /// section narrows the search to its item types — section "All" (empty
    /// `item_types`) searches every type in the library.
    pub fn start_search(&mut self, query: String)
        ensures
            final(self)@ == old(self)@.search_started(query@),
    {
        let library_id = match self.current_library() {
            Some(library) => library.id.clone(),
            None => {
                return ;
            },
        };
        let section = self.current_section();
        let (item_types, scope_label) = match &section {
            Some(section) => (
                copy_texts(&section.item_types),
                if section.item_types.len() > 0 {
                    section.name.clone()
                } else {
                    String::new()
                },
            ),
            None => (Vec::new(), String::new()),
        };
        assert(item_types.deep_view() =~= match old(self)@.current_section() {
            Some(section) => section.item_types,
            None => Seq::empty(),
        });
        let title = search_level_title(scope_label.as_str(), query.as_str());
        let mut stack: Vec<Level> = Vec::new();
        push_deep(&mut stack, Level::awaiting(title, library_id));
        assert(stack.deep_view() =~= seq![
            LevelModel::awaiting(
                labels::search_title(scope_label@, query@),
                old(self)@.current_library()->0.id,
            ),
        ]);
        self.stack = stack;
        self.queue_intent(Intent::Search { query, item_types, scope_label });
    }

    /// Show the recent query at `place` in the search input.
    fn show_history(&mut self, place: usize)
        requires
            place < old(self)@.search_history.len(),
        ensures
            final(self)@ == old(self)@.history_at(place as int),
    {
        let query = self.search_history[place].clone();
        self.search_history_cursor = Some(place);
        self.search_query = Some(query);
    }

    /// Move through `search_history` in the direction `delta` (positive = older,
    /// negative = newer) and rewrite the search input to match.
    pub fn cycle_search_history(&mut self, delta: i32)
        ensures
            final(self)@ == old(self)@.history_cycled(delta as int),
    {
        let len: usize = self.search_history.len();
        if len == 0 {
            return ;
        }
        match self.search_history_cursor {
            Some(cursor) => {
                if delta < 0 && (-(delta as i64)) as u64 > cursor as u64 {
                    self.search_history_cursor = None;
                    self.search_query = Some(String::new());
                } else {
                    let place: usize = home::clamp_step(cursor, delta, len);
                    self.show_history(place);
                }
            },
            None => {
                if delta > 0 {
                    self.show_history(0);
                }
            },
        }
    }

    fn close_search(&mut self)
        ensures
            final(self)@ == old(self)@.search_closed(),
    {
        self.search_query = None;
        self.search_history_cursor = None;
        self.focus = Pane::LibraryItems;
    }

    /// Handle a keystroke while the search input is focused.
    pub fn handle_search_key(&mut self, key: KeyEvent)
        ensures
            final(self)@ == old(self)@.search_key(key),
    {
        let mut query = match &self.search_query {
            Some(query) => query.clone(),
            None => {
                return ;
            },
        };
        match key.code {
            KeyCode::Esc => self.close_search(),
            KeyCode::Enter => {
                let wanted = trim(query.as_str()).to_owned();
                self.close_search();
                if !wanted.as_str().is_empty() {
                    self.remember_search(wanted.as_str());
                    self.start_search(wanted);
                }
            },
            KeyCode::Backspace => {
                query.pop();
                self.search_query = Some(query);
                self.search_history_cursor = None;
            },
            // Up/Down walk the recent-search list. Newest is index 0.
            KeyCode::Up => self.cycle_search_history(1),
            KeyCode::Down => self.cycle_search_history(-1),
            KeyCode::Char(c) => {
                if !key.modifiers.control {
                    query.push(c);
                    self.search_query = Some(query);
                    self.search_history_cursor = None;
                }
            },
            _ => {},
        }
    }

    /// Open the global search view. Lifts every overlay; the input regains
    /// focus so the user can type immediately.
    pub fn enter_global_search(&mut self)
        ensures
            final(self)@ == old(self)@.global_search_entered(),
    {
        self.focus = Pane::GlobalSearch;
        self.close_overlays();
        self.global_search.input_focused = true;
        self.status_message = None;
    }

    /// Whether the global search view is on display.
    pub fn is_on_global_search(&self) -> (on_search: bool)
        ensures
            on_search == (self@.focus == Pane::GlobalSearch),
    {
        self.focus == Pane::GlobalSearch
    }

    /// The global search view's state.
    pub fn global_search_state(&self) -> (search: &GlobalSearchState)
        ensures
            search@ == self@.global_search,
    {
        &self.global_search
    }

    /// Populate the global-search result list (called on completion). Results for
    /// a query that has changed since are dropped.
    pub fn set_global_search_results(&mut self, query: &str, results: Vec<Item>)
        ensures
            final(self)@ == old(self)@.global_results_arrived(query@, results.deep_view()),
    {
        self.global_search.take_results(query, results);
    }

    /// Send the typed query to the server, unless it is blank.
    pub fn submit_global_search(&mut self)
        ensures
            final(self)@ == old(self)@.global_search_submitted(),
    {
        let wanted = trim(self.global_search.query.as_str()).to_owned();
        if wanted.as_str().is_empty() {
            return ;
        }
        self.global_search.loading = true;
        self.global_search.results = Vec::new();
        assert(self.global_search.results.deep_view() =~= Seq::empty());
        self.queue_intent(Intent::GlobalSearch { query: wanted });
    }

    /// Handle a keystroke in the global search view.
    pub fn handle_global_search_key(&mut self, key: KeyEvent)
        ensures
            final(self)@ == old(self)@.global_search_key(key),
    {
        match key.code {
            KeyCode::Esc => {
                // Leave the view; return to Home unless there is a library, in
                // which case fall back to the items pane.
                self.focus = if self.libraries.len() == 0 {
                    Pane::Home
                } else {
                    Pane::LibraryItems
                };
            },
            KeyCode::Enter => {
                if self.global_search.input_focused {
                    self.submit_global_search();
                } else if self.global_search.selected < self.global_search.results.len() {
                    let item =
                        self.global_search.results[self.global_search.selected].clone();
                    self.open_item_from_view(item);
                }
            },
            _ => self.global_search.edit(key),
        }
    }
}

/// A submitted query leads the history, comes up there only once, and the history
/// keeps its limit.
pub proof fn history_is_deduplicated_and_capped(history: Seq<Seq<char>>, query: Seq<char>)
    ensures
        history_with(history, query).len() <= SEARCH_HISTORY_LIMIT,
        history_with(history, query)[0] == query,
        forall|i: int|
            0 < i < history_with(history, query).len() ==> #[trigger] history_with(
                history,
                query,
            )[i] != query,
{
    let kept = history.filter(differs_from(query));
    history.filter_lemma(differs_from(query));
    let all = seq![query] + kept;
    assert forall|i: int| 0 < i < history_with(history, query).len() implies #[trigger] history_with(
        history,
        query,
    )[i] != query by {
        assert(history_with(history, query)[i] == kept[i - 1]);
        assert(differs_from(query)(kept[i - 1]));
    }
}

/// Submitting the query that leads a deduplicated history again changes nothing.
pub proof fn resubmitting_keeps_the_history(history: Seq<Seq<char>>, query: Seq<char>)
    ensures
        history_with(history_with(history, query), query) == history_with(history, query),
{
    let once = history_with(history, query);
    let p = differs_from(query);
    history_is_deduplicated_and_capped(history, query);
    let rest = once.skip(1);
    assert(once =~= seq![query] + rest);
    assert(once.filter(p) =~= rest) by {
        lemma_filter_keeps_all(rest, p);
        assert(seq![query].filter(p) =~= Seq::<Seq<char>>::empty()) by {
            sequences::lemma_filter_empty(p);
            sequences::lemma_filter_push(Seq::<Seq<char>>::empty(), query, p);
            assert(Seq::<Seq<char>>::empty().push(query) =~= seq![query]);
        }
        Seq::filter_distributes_over_add(seq![query], rest, p);
    }
    assert(history_with(once, query) =~= once);
}

proof fn lemma_filter_keeps_all(s: Seq<Seq<char>>, p: spec_fn(Seq<char>) -> bool)
    requires
        forall|i: int| 0 <= i < s.len() ==> p(#[trigger] s[i]),
    ensures
        s.filter(p) == s,
    decreases s.len(),
{
    reveal(Seq::filter);
    if s.len() > 0 {
        lemma_filter_keeps_all(s.drop_last(), p);
        assert(s.drop_last().push(s.last()) =~= s);
        assert(s.filter(p) =~= s);
    }
}

/// Typing a character and deleting it again leaves the query as it was.
pub proof fn backspace_undoes_typing(query: Seq<char>, c: char)
    ensures
        without_last(query.push(c)) == query,
{
    assert(without_last(query.push(c)) =~= query);
}

/// Results of an outdated global search never replace the current ones.
pub proof fn outdated_results_are_dropped(
    app: AppModel,
    query: Seq<char>,
    results: Seq<ItemModel>,
)
    requires
        text::trimmed(app.global_search.query) != query,
    ensures
        app.global_results_arrived(query, results) == app,
{
}

/// The query that a global search is sent with is the one its results are taken
/// in for, as long as nothing is typed in between.
pub proof fn submitted_results_are_taken_in(app: AppModel, results: Seq<ItemModel>)
    requires
        text::trimmed(app.global_search.query).len() > 0,
    ensures
        ({
            let sent = app.global_search_submitted();
            let query = text::trimmed(app.global_search.query);
            sent.pending.last() == (IntentModel::GlobalSearch { query })
                && sent.global_results_arrived(query, results).global_search.results == results
        }),
{
}

} // verus!
