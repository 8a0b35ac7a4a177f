//! Main list pane: the active drill level's items, with selection markers and a
//! breadcrumb title. Folders are flagged so it's clear which entries open.

use vstd::prelude::*;

use super::library_items::{ListBody, ListBodyModel};
use crate::sequences;
use crate::sequences::push_deep;
use crate::text::{concat2, concat3};
use crate::ui::app::types::{Item, ItemModel, Level, LevelModel};
use crate::ui::lines;
use crate::ui::lines::{span, Span, SpanModel, Tone};

verus! {

/// The pane's title.
pub fn title(breadcrumb: &str) -> (text: String)
    ensures
        text@ == (if breadcrumb@.len() == 0 {
            " Items "@
        } else {
            " "@ + breadcrumb@ + " "@
        }),
{
    if breadcrumb.is_empty() {
        " Items ".to_owned()
    } else {
        concat3(" ", breadcrumb, " ")
    }
}

/// The row of an item: a mark if it is marked, an arrow if it opens.
pub open spec fn marked_row(item: ItemModel, marked: bool) -> Seq<SpanModel> {
    seq![
        lines::styled(
            Tone::Plain,
            (if marked {
                "● "@
            } else {
                "  "@
            }) + item.name,
        ),
    ] + (if item.is_folder {
        seq![lines::styled(Tone::Muted, "  ›"@)]
    } else {
        Seq::empty()
    })
}

/// The rows of a list of items, some of them marked.
pub open spec fn marked_rows(items: Seq<ItemModel>, marks: Seq<usize>) -> Seq<Seq<SpanModel>> {
    Seq::new(items.len(), |i: int| marked_row(items[i], marks.contains(i as usize)))
}

/// What the pane shows of a level.
pub open spec fn marked_body(level: Option<LevelModel>, marks: Seq<usize>) -> ListBodyModel {
    match level {
        Some(shown) => if shown.loading {
            ListBodyModel::Message("Loading…"@)
        } else if shown.items.len() == 0 {
            ListBodyModel::Message("Empty."@)
        } else {
            ListBodyModel::Rows(marked_rows(shown.items, marks), shown.selected)
        },
        None => ListBodyModel::Message("No library."@),
    }
}

fn is_marked(marks: &Vec<usize>, index: usize) -> (marked: bool)
    ensures
        marked == marks@.contains(index),
{
    let mut i: usize = 0;
    while i < marks.len()
        invariant
            i <= marks@.len(),
            forall|j: int| 0 <= j < i ==> marks@[j] != index,
        decreases marks@.len() - i,
    {
        if marks[i] == index {
            return true;
        }
        i = i + 1;
    }
    false
}

fn row_of(item: &Item, marked: bool) -> (spans: Vec<Span>)
    ensures
        spans.deep_view() == marked_row(item@, marked),
{
    let marker = if marked {
        "● "
    } else {
        "  "
    };
    let mut spans: Vec<Span> = Vec::new();
    push_deep(&mut spans, span(Tone::Plain, concat2(marker, item.name.as_str()).as_str()));
    // A trailing arrow signals an item you can drill into.
    if item.is_folder {
        push_deep(&mut spans, span(Tone::Muted, "  ›"));
    }
    assert(spans.deep_view() =~= marked_row(item@, marked));
    spans
}

/// What the list pane shows of a level whose `marks` are marked.
pub fn body(level: Option<&Level>, marks: &Vec<usize>) -> (body: ListBody)
    ensures
        body@ == marked_body(level.deep_view(), marks@),
{
    let shown = match level {
        Some(shown) => shown,
        None => {
            return ListBody::Message("No library.");
        },
    };
    if shown.loading {
        return ListBody::Message("Loading…");
    }
    if shown.items.len() == 0 {
        return ListBody::Message("Empty.");
    }
    let ghost goal = marked_rows(shown@.items, marks@);
    let mut rows: Vec<Vec<Span>> = Vec::new();
    let mut i: usize = 0;
    while i < shown.items.len()
        invariant
            i <= shown.items@.len(),
            goal == marked_rows(shown@.items, marks@),
            rows.deep_view() =~= goal.take(i as int),
        decreases shown.items@.len() - i,
    {
        let marked = is_marked(marks, i);
        push_deep(&mut rows, row_of(&shown.items[i], marked));
        proof {
            sequences::lemma_take_push(goal, i as int);
        }
        i = i + 1;
    }
    proof {
        sequences::lemma_take_all(goal);
    }
    ListBody::Rows(rows, shown.selected)
}

} // verus!
