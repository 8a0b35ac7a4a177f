//! Global search view: own query input + flat result list across every
//! library. Takes over the full main band when focused. The companion `/`
//! shortcut runs a library-scoped search; this view is reached via `g s`.

use vstd::prelude::*;

use crate::sequences;
use crate::sequences::push_deep;
use crate::text::{as_slice, concat2, is_text};
use crate::ui::app::types::{GlobalSearchModel, GlobalSearchState, Item, ItemModel};
use crate::ui::lines;
use crate::ui::lines::{span, Span, SpanModel, Tone};

verus! {

/// Whether the view has room to draw anything.
pub fn fits(width: u16, height: u16) -> (fits: bool)
    ensures
        fits == (width >= 8 && height >= 4),
{
    width >= 8 && height >= 4
}

/// The heading.
pub open spec fn header_spans() -> Seq<SpanModel> {
    seq![
        lines::styled(Tone::AccentBold, "⌕  "@),
        lines::styled(Tone::HeaderBold, "Global search"@),
        lines::styled(Tone::Muted, "   across every library"@),
    ]
}

/// The query, with a cursor while it is being typed.
pub open spec fn input_spans(search: GlobalSearchModel, view_focused: bool) -> Seq<SpanModel> {
    seq![
        lines::styled(Tone::Muted, "  search › "@),
        lines::styled(
            if search.input_focused && view_focused {
                Tone::Header
            } else {
                Tone::ListItem
            },
            search.query,
        ),
    ] + (if search.input_focused {
        seq![lines::styled(Tone::AccentBold, "█"@)]
    } else {
        Seq::empty()
    })
}

/// What the keys do right now.
pub open spec fn hint_of(search: GlobalSearchModel) -> Seq<char> {
    if search.loading {
        "  Searching…"@
    } else if search.input_focused {
        "  Enter to search · ↓ into results · Tab to toggle focus · Esc to leave"@
    } else {
        "  ↑/↓ move · Enter open/play · ↑ at top returns to input · Esc to leave"@
    }
}

/// What stands in place of results.
pub open spec fn no_results_of(search: GlobalSearchModel) -> Seq<char> {
    if search.loading {
        "  …"@
    } else if search.submitted {
        "  No matches for that query."@
    } else if search.query.len() == 0 {
        "  Start typing, then press Enter."@
    } else {
        "  Press Enter to search."@
    }
}

/// The glyph of a kind of result.
pub open spec fn result_glyph(kind: Seq<char>) -> Seq<char> {
    if kind == "Movie"@ {
        "▣"@
    } else if kind == "Series"@ || kind == "Episode"@ || kind == "Season"@ {
        "◫"@
    } else if kind == "Audio"@ || kind == "MusicAlbum"@ || kind == "MusicArtist"@ || kind
        == "Playlist"@ {
        "♪"@
    } else if kind == "Book"@ || kind == "AudioBook"@ {
        "▤"@
    } else if kind == "Photo"@ || kind == "PhotoAlbum"@ {
        "▦"@
    } else {
        "▢"@
    }
}

/// The kind a result shows.
pub open spec fn kind_label(item: ItemModel) -> Seq<char> {
    match item.kind {
        Some(kind) => kind,
        None => ""@,
    }
}

/// The row of a result.
pub open spec fn result_row(item: ItemModel, on_row: bool, view_focused: bool) -> Seq<SpanModel> {
    seq![
        lines::styled(
            Tone::AccentBold,
            if on_row {
                " ▶ "@
            } else {
                "   "@
            },
        ),
        lines::styled(Tone::Muted, result_glyph(kind_label(item)) + "  "@),
        lines::styled(
            if on_row && view_focused {
                Tone::Selected
            } else if on_row {
                Tone::SelectedUnfocused
            } else {
                Tone::ListItem
            },
            item.name,
        ),
        lines::styled(Tone::Muted, "   ·  "@ + kind_label(item)),
    ]
}

impl GlobalSearchModel {
    /// The selected result, as far as there are results.
    pub open spec fn shown_selection(self) -> int {
        if self.selected < self.results.len() {
            self.selected as int
        } else {
            self.results.len() - 1
        }
    }

    /// The first result on display in `height` rows: the selected one stays in view;
    /// the list stays at its top while the query is being typed.
    pub open spec fn first_shown(self, height: int) -> int {
        if self.input_focused || height == 0 || self.shown_selection() + 1 <= height {
            0
        } else {
            self.shown_selection() + 1 - height
        }
    }

    /// How many results are on display in `height` rows.
    pub open spec fn shown_count(self, height: int) -> int {
        let left = self.results.len() - self.first_shown(height);
        if left < height {
            left
        } else {
            height
        }
    }

    /// The rows on display.
    pub open spec fn result_rows(self, height: int, view_focused: bool) -> Seq<Seq<SpanModel>> {
        let first = self.first_shown(height);
        Seq::new(
            self.shown_count(height) as nat,
            |k: int|
                result_row(
                    self.results[first + k],
                    !self.input_focused && first + k == self.shown_selection(),
                    view_focused,
                ),
        )
    }
}

/// The view's heading.
pub fn header_line() -> (spans: Vec<Span>)
    ensures
        spans.deep_view() == header_spans(),
{
    let mut spans: Vec<Span> = Vec::new();
    push_deep(&mut spans, span(Tone::AccentBold, "⌕  "));
    push_deep(&mut spans, span(Tone::HeaderBold, "Global search"));
    push_deep(&mut spans, span(Tone::Muted, "   across every library"));
    assert(spans.deep_view() =~= header_spans());
    spans
}

/// The query, with a cursor while it is being typed.
pub fn input_line(search: &GlobalSearchState, view_focused: bool) -> (spans: Vec<Span>)
    ensures
        spans.deep_view() == input_spans(search@, view_focused),
{
    let typed = if search.input_focused && view_focused {
        Tone::Header
    } else {
        Tone::ListItem
    };
    let mut spans: Vec<Span> = Vec::new();
    push_deep(&mut spans, span(Tone::Muted, "  search › "));
    push_deep(&mut spans, span(typed, search.query.as_str()));
    if search.input_focused {
        push_deep(&mut spans, span(Tone::AccentBold, "█"));
    }
    assert(spans.deep_view() =~= input_spans(search@, view_focused));
    spans
}

/// What the keys do right now.
pub fn hint(search: &GlobalSearchState) -> (text: &'static str)
    ensures
        text@ == hint_of(search@),
{
    if search.loading {
        "  Searching…"
    } else if search.input_focused {
        "  Enter to search · ↓ into results · Tab to toggle focus · Esc to leave"
    } else {
        "  ↑/↓ move · Enter open/play · ↑ at top returns to input · Esc to leave"
    }
}

/// What stands in place of results.
pub fn no_results(search: &GlobalSearchState) -> (text: &'static str)
    ensures
        text@ == no_results_of(search@),
{
    if search.loading {
        "  …"
    } else if search.submitted {
        "  No matches for that query."
    } else if search.query.as_str().is_empty() {
        "  Start typing, then press Enter."
    } else {
        "  Press Enter to search."
    }
}

/// The glyph of a kind of result.
pub fn glyph_for(kind: &str) -> (glyph: &'static str)
    ensures
        glyph@ == result_glyph(kind@),
{
    let shown = Some(kind);
    if is_text(shown, "Movie") {
        "▣"
    } else if is_text(shown, "Series") || is_text(shown, "Episode") || is_text(shown, "Season") {
        "◫"
    } else if is_text(shown, "Audio") || is_text(shown, "MusicAlbum") || is_text(
        shown,
        "MusicArtist",
    ) || is_text(shown, "Playlist") {
        "♪"
    } else if is_text(shown, "Book") || is_text(shown, "AudioBook") {
        "▤"
    } else if is_text(shown, "Photo") || is_text(shown, "PhotoAlbum") {
        "▦"
    } else {
        "▢"
    }
}

fn row_of(item: &Item, on_row: bool, view_focused: bool) -> (spans: Vec<Span>)
    ensures
        spans.deep_view() == result_row(item@, on_row, view_focused),
{
    let kind = match as_slice(&item.kind) {
        Some(kind) => kind,
        None => "",
    };
    let prefix = if on_row {
        " ▶ "
    } else {
        "   "
    };
    let title = if on_row && view_focused {
        Tone::Selected
    } else if on_row {
        Tone::SelectedUnfocused
    } else {
        Tone::ListItem
    };
    let mut spans: Vec<Span> = Vec::new();
    push_deep(&mut spans, span(Tone::AccentBold, prefix));
    push_deep(&mut spans, span(Tone::Muted, concat2(glyph_for(kind), "  ").as_str()));
    push_deep(&mut spans, span(title, item.name.as_str()));
    push_deep(&mut spans, span(Tone::Muted, concat2("   ·  ", kind).as_str()));
    assert(spans.deep_view() =~= result_row(item@, on_row, view_focused));
    spans
}

/// The results on display in `height` rows. The list scrolls so the selected row
/// stays in view; it is pinned to the top while focus is on the input.
pub fn result_rows(search: &GlobalSearchState, height: u16, view_focused: bool) -> (rows: Vec<
    Vec<Span>,
>)
    requires
        search@.results.len() > 0,
    ensures
        rows.deep_view() == search@.result_rows(height as int, view_focused),
{
    let total: usize = search.results.len();
    let visible: usize = height as usize;
    let selected: usize = if search.selected < total {
        search.selected
    } else {
        total - 1
    };
    let first: usize = if search.input_focused || visible == 0 || selected < visible {
        0
    } else {
        selected + 1 - visible
    };
    let count: usize = if total - first < visible {
        total - first
    } else {
        visible
    };
    let ghost goal = search@.result_rows(height as int, view_focused);
    assert(first == search@.first_shown(height as int));
    assert(count == search@.shown_count(height as int));
    let mut rows: Vec<Vec<Span>> = Vec::new();
    let mut k: usize = 0;
    while k < count
        invariant
            k <= count,
            first + count <= total,
            total == search.results@.len(),
            selected < total,
            first == search@.first_shown(height as int),
            count == search@.shown_count(height as int),
            selected == search@.shown_selection(),
            goal == search@.result_rows(height as int, view_focused),
            rows.deep_view() =~= goal.take(k as int),
        decreases count - k,
    {
        let on_row = !search.input_focused && first + k == selected;
        push_deep(&mut rows, row_of(&search.results[first + k], on_row, view_focused));
        proof {
            sequences::lemma_take_push(goal, k as int);
        }
        k = k + 1;
    }
    proof {
        sequences::lemma_take_all(goal);
    }
    rows
}

/// The selected result is on display, unless the query is being typed.
pub proof fn the_selected_result_is_in_view(search: GlobalSearchModel, height: int)
    requires
        search.results.len() > 0,
        height > 0,
        !search.input_focused,
    ensures
        search.first_shown(height) <= search.shown_selection() < search.first_shown(height)
            + search.shown_count(height),
{
}

} // verus!
