//! Lines of text in the theme's tones: what a pane shows, before it is drawn.

use vstd::prelude::*;

use crate::sequences::push_deep;

verus! {

/// The role a piece of text plays; the theme gives each its colors.
#[derive(Debug, Clone, Copy, PartialEq, Eq, Structural)]
pub enum Tone {
    /// No styling of its own.
    Plain,
    /// An ordinary list entry.
    ListItem,
    /// An ordinary list entry in italics.
    ListItemItalic,
    /// Headings and containers.
    Header,
    /// Headings in bold.
    HeaderBold,
    /// Headings in italics.
    HeaderItalic,
    /// Secondary text.
    Muted,
    /// Secondary text, dimmed further.
    Dim,
    /// The accent color.
    Accent,
    /// The accent color in bold.
    AccentBold,
    /// The progress bar's color.
    Progress,
    /// The color of things that open.
    Folder,
    /// The selected entry of a pane with the focus.
    Selected,
    /// The selected entry of a pane without the focus.
    SelectedUnfocused,
    /// The border of a pane with the focus.
    FocusedBorder,
    /// The now-playing bar's title.
    PlayingTitle,
    /// The now-playing bar's second line.
    PlayingSubtitle,
    /// The now-playing bar's small print.
    PlayingMeta,
}

impl DeepView for Tone {
    type V = Tone;

    open spec fn deep_view(&self) -> Tone {
        *self
    }
}

/// A piece of text in one tone.
#[derive(Debug, Clone)]
pub struct Span {
    pub tone: Tone,
    pub text: String,
}

/// The contents of a [`Span`].
#[verifier::ext_equal]
pub struct SpanModel {
    pub tone: Tone,
    pub text: Seq<char>,
}

impl View for Span {
    type V = SpanModel;

    open spec fn view(&self) -> SpanModel {
        SpanModel { tone: self.tone, text: self.text@ }
    }
}

impl DeepView for Span {
    type V = SpanModel;

    open spec fn deep_view(&self) -> SpanModel {
        self@
    }
}

/// A piece of text in one tone.
pub open spec fn styled(tone: Tone, text: Seq<char>) -> SpanModel {
    SpanModel { tone, text }
}

/// A line of one piece.
pub open spec fn line_of(tone: Tone, text: Seq<char>) -> Seq<SpanModel> {
    seq![styled(tone, text)]
}

/// A piece of text in one tone.
pub(crate) fn span(tone: Tone, text: &str) -> (piece: Span)
    ensures
        piece@ == styled(tone, text@),
{
    Span { tone, text: text.to_owned() }
}

/// A line of one piece.
pub(crate) fn line(tone: Tone, text: &str) -> (pieces: Vec<Span>)
    ensures
        pieces.deep_view() == line_of(tone, text@),
{
    let mut pieces: Vec<Span> = Vec::new();
    push_deep(&mut pieces, span(tone, text));
    assert(pieces.deep_view() =~= line_of(tone, text@));
    pieces
}

/// One line, if it is shown.
pub open spec fn line_if(show: bool, tone: Tone, text: Seq<char>) -> Seq<Seq<SpanModel>> {
    if show {
        seq![line_of(tone, text)]
    } else {
        Seq::empty()
    }
}

/// Adds a line of one piece.
pub(crate) fn add_line(lines: &mut Vec<Vec<Span>>, tone: Tone, text: &str)
    ensures
        final(lines).deep_view() == old(lines).deep_view().push(line_of(tone, text@)),
{
    push_deep(lines, line(tone, text));
}

/// A list of lines with a single one.
pub(crate) fn one_line(tone: Tone, text: &str) -> (lines: Vec<Vec<Span>>)
    ensures
        lines.deep_view() == seq![line_of(tone, text@)],
{
    let mut lines: Vec<Vec<Span>> = Vec::new();
    add_line(&mut lines, tone, text);
    assert(lines.deep_view() =~= seq![line_of(tone, text@)]);
    lines
}

} // verus!
