//! Library items pane (left column, top 2/3): the active drill level's items,
//! with kind glyphs and a breadcrumb title.

use vstd::prelude::*;

use super::decor;
use super::decor::rows_of;
use crate::text;
use crate::text::{concat3, decimal_text};
use crate::ui::app::types::{Level, LevelModel};
use crate::ui::lines::{Span, SpanModel};

verus! {

/// What a list pane shows below its title.
#[derive(Debug)]
pub enum ListBody {
    /// One muted line in place of a list.
    Message(&'static str),
    /// The rows and the selected one.
    Rows(Vec<Vec<Span>>, usize),
}

/// The contents of a [`ListBody`].
#[verifier::ext_equal]
pub enum ListBodyModel {
    Message(Seq<char>),
    Rows(Seq<Seq<SpanModel>>, usize),
}

impl View for ListBody {
    type V = ListBodyModel;

    open spec fn view(&self) -> ListBodyModel {
        match self {
            ListBody::Message(text) => ListBodyModel::Message(text@),
            ListBody::Rows(rows, selected) => ListBodyModel::Rows(rows.deep_view(), *selected),
        }
    }
}

impl LevelModel {
    /// The item count behind a title, once there is something to count.
    pub open spec fn count_suffix(self) -> Seq<char> {
        if !self.loading && self.items.len() > 0 {
            " ("@ + text::decimal(self.items.len()) + ")"@
        } else {
            ""@
        }
    }

    /// What a level shows as a list.
    pub open spec fn list_body(self) -> ListBodyModel {
        if self.loading {
            ListBodyModel::Message("Loading…"@)
        } else if self.items.len() == 0 {
            ListBodyModel::Message("Empty."@)
        } else {
            ListBodyModel::Rows(decor::item_rows(self.items), self.selected)
        }
    }
}

/// The pane's title: the breadcrumb and the item count.
pub open spec fn items_title(level: Option<LevelModel>, breadcrumb: Seq<char>) -> Seq<char> {
    let suffix = match level {
        Some(shown) => shown.count_suffix(),
        None => ""@,
    };
    if breadcrumb.len() == 0 {
        " Items"@ + suffix + " "@
    } else {
        " "@ + breadcrumb + suffix + " "@
    }
}

/// What the pane shows.
pub open spec fn items_body(level: Option<LevelModel>) -> ListBodyModel {
    match level {
        Some(shown) => shown.list_body(),
        None => ListBodyModel::Message("No library."@),
    }
}

impl Level {
    /// The item count behind a title, once there is something to count, so the user
    /// knows how many entries the list has.
    pub fn count_suffix(&self) -> (suffix: String)
        ensures
            suffix@ == self@.count_suffix(),
    {
        if !self.loading && self.items.len() > 0 {
            concat3(" (", decimal_text(self.items.len() as u64).as_str(), ")")
        } else {
            "".to_owned()
        }
    }

    /// What the level shows as a list.
    pub fn list_body(&self) -> (body: ListBody)
        ensures
            body@ == self@.list_body(),
    {
        if self.loading {
            ListBody::Message("Loading…")
        } else if self.items.len() == 0 {
            ListBody::Message("Empty.")
        } else {
            ListBody::Rows(rows_of(&self.items), self.selected)
        }
    }
}

/// The title of the library items pane.
pub fn title(level: Option<&Level>, breadcrumb: &str) -> (text: String)
    ensures
        text@ == items_title(level.deep_view(), breadcrumb@),
{
    let suffix = match level {
        Some(shown) => shown.count_suffix(),
        None => "".to_owned(),
    };
    if breadcrumb.is_empty() {
        concat3(" Items", suffix.as_str(), " ")
    } else {
        let mut text = concat3(" ", breadcrumb, suffix.as_str());
        text.append(" ");
        text
    }
}

/// What the library items pane shows.
pub fn body(level: Option<&Level>) -> (body: ListBody)
    ensures
        body@ == items_body(level.deep_view()),
{
    match level {
        Some(shown) => shown.list_body(),
        None => ListBody::Message("No library."),
    }
}

} // verus!
