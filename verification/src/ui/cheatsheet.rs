//! The key overview: the active bindings, grouped by context.

use vstd::prelude::*;

use super::keymap::{Action, Binding, KeyCode, Keymap};
use super::lines;
use super::lines::{line, span, Span, SpanModel, Tone};
use crate::sequences;
use crate::sequences::push_deep;
use crate::text;
use crate::text::{concat2, concat3, decimal_text};

verus! {

/// Columns of the key names in the key overview.
pub const KEY_COLUMN: usize = 14;

/// One binding of the key overview.
#[derive(Debug)]
pub struct KeyHelp {
    pub keys: String,
    pub desc: String,
}

/// The contents of a [`KeyHelp`].
#[verifier::ext_equal]
pub struct KeyHelpModel {
    pub keys: Seq<char>,
    pub desc: Seq<char>,
}

impl View for KeyHelp {
    type V = KeyHelpModel;

    open spec fn view(&self) -> KeyHelpModel {
        KeyHelpModel { keys: self.keys@, desc: self.desc@ }
    }
}

impl DeepView for KeyHelp {
    type V = KeyHelpModel;

    open spec fn deep_view(&self) -> KeyHelpModel {
        self@
    }
}

/// Bindings of one context.
#[derive(Debug)]
pub struct KeyGroup {
    pub title: String,
    pub bindings: Vec<KeyHelp>,
}

/// The contents of a [`KeyGroup`].
#[verifier::ext_equal]
pub struct KeyGroupModel {
    pub title: Seq<char>,
    pub bindings: Seq<KeyHelpModel>,
}

impl View for KeyGroup {
    type V = KeyGroupModel;

    open spec fn view(&self) -> KeyGroupModel {
        KeyGroupModel { title: self.title@, bindings: self.bindings.deep_view() }
    }
}

impl DeepView for KeyGroup {
    type V = KeyGroupModel;

    open spec fn deep_view(&self) -> KeyGroupModel {
        self@
    }
}

/// A text left-aligned in a field of `width` characters.
pub open spec fn pad_end(s: Seq<char>, width: nat) -> Seq<char> {
    if s.len() >= width {
        s
    } else {
        s + text::repeated(' ', (width - s.len()) as nat)
    }
}

fn padded_end(s: &str, width: usize) -> (padded: String)
    ensures
        padded@ == pad_end(s@, width as nat),
{
    let len: usize = s.unicode_len();
    let mut padded = s.to_owned();
    if len >= width {
        return padded;
    }
    let mut i: usize = 0;
    assert(padded@ =~= s@ + text::repeated(' ', 0));
    while i < width - len
        invariant
            i <= width - len,
            len == s@.len(),
            len < width,
            padded@ == s@ + text::repeated(' ', i as nat),
        decreases width - len - i,
    {
        padded.push(' ');
        i = i + 1;
        assert(padded@ =~= s@ + text::repeated(' ', i as nat));
    }
    padded
}

/// The line of one binding.
pub open spec fn binding_row(binding: KeyHelpModel) -> Seq<SpanModel> {
    seq![
        lines::styled(Tone::AccentBold, "  "@ + pad_end(binding.keys, KEY_COLUMN as nat)),
        lines::styled(Tone::Plain, binding.desc),
    ]
}

/// The lines of one group: its title, its bindings, an empty line.
pub open spec fn group_rows(group: KeyGroupModel) -> Seq<Seq<SpanModel>> {
    seq![lines::line_of(Tone::HeaderBold, group.title)] + group.bindings.map_values(
        |binding: KeyHelpModel| binding_row(binding),
    ) + seq![lines::line_of(Tone::Plain, ""@)]
}

/// The lines of the key overview.
pub open spec fn overview_rows(groups: Seq<KeyGroupModel>) -> Seq<Seq<SpanModel>>
    decreases groups.len(),
{
    if groups.len() == 0 {
        Seq::empty()
    } else {
        overview_rows(groups.drop_last()) + group_rows(groups.last())
    }
}

fn binding_line(binding: &KeyHelp) -> (spans: Vec<Span>)
    ensures
        spans.deep_view() == binding_row(binding@),
{
    let keys = concat2("  ", padded_end(binding.keys.as_str(), KEY_COLUMN).as_str());
    let mut spans: Vec<Span> = Vec::new();
    push_deep(&mut spans, span(Tone::AccentBold, keys.as_str()));
    push_deep(&mut spans, span(Tone::Plain, binding.desc.as_str()));
    assert(spans.deep_view() =~= binding_row(binding@));
    spans
}

fn push_group(rows: &mut Vec<Vec<Span>>, group: &KeyGroup)
    ensures
        final(rows).deep_view() == old(rows).deep_view() + group_rows(group@),
{
    let ghost before = rows.deep_view();
    push_deep(rows, line(Tone::HeaderBold, group.title.as_str()));
    let ghost head = rows.deep_view();
    let ghost goal = group@.bindings.map_values(|binding: KeyHelpModel| binding_row(binding));
    let mut i: usize = 0;
    while i < group.bindings.len()
        invariant
            i <= group.bindings@.len(),
            goal == group@.bindings.map_values(|binding: KeyHelpModel| binding_row(binding)),
            rows.deep_view() =~= head + goal.take(i as int),
        decreases group.bindings@.len() - i,
    {
        push_deep(rows, binding_line(&group.bindings[i]));
        proof {
            sequences::lemma_take_push(goal, i as int);
        }
        i = i + 1;
    }
    proof {
        sequences::lemma_take_all(goal);
    }
    push_deep(rows, line(Tone::Plain, ""));
    assert(rows.deep_view() =~= before + group_rows(group@));
}

/// The lines of the key overview: the active bindings, grouped by context.
pub fn cheatsheet_lines(groups: &Vec<KeyGroup>) -> (rows: Vec<Vec<Span>>)
    ensures
        rows.deep_view() == overview_rows(groups.deep_view()),
{
    let ghost models = groups.deep_view();
    let mut rows: Vec<Vec<Span>> = Vec::new();
    assert(rows.deep_view() =~= overview_rows(models.take(0)));
    let mut i: usize = 0;
    while i < groups.len()
        invariant
            i <= groups@.len(),
            models == groups.deep_view(),
            rows.deep_view() == overview_rows(models.take(i as int)),
        decreases groups@.len() - i,
    {
        push_group(&mut rows, &groups[i]);
        proof {
            sequences::lemma_take_push(models, i as int);
            assert(models.take(i + 1).drop_last() =~= models.take(i as int));
        }
        i = i + 1;
    }
    proof {
        sequences::lemma_take_all(models);
    }
    rows
}

/// The title of the key overview.
pub fn overview_title() -> (title: &'static str)
    ensures
        title@ == " Keybindings — press any key to close "@,
{
    " Keybindings — press any key to close "
}

// ---------------------------------------------------------------------------
// What the bindings are called

/// The contexts that bindings are grouped by.
#[derive(Debug, Clone, Copy, PartialEq, Eq, Structural)]
pub enum KeyContext {
    Navigation,
    Playback,
    Queue,
    Library,
    General,
}

/// The context that an action belongs to.
pub open spec fn context_of(action: Action) -> KeyContext {
    match action {
        Action::Up
        | Action::Down
        | Action::Left
        | Action::Right
        | Action::FocusNext
        | Action::FocusPrev
        | Action::Top
        | Action::Bottom
        | Action::Back
        | Action::GoTo
        | Action::InfoScrollUp
        | Action::InfoScrollDown => KeyContext::Navigation,
        Action::Play
        | Action::PlayPause
        | Action::Stop
        | Action::VolumeUp
        | Action::VolumeDown
        | Action::SeekForward
        | Action::SeekBackward => KeyContext::Playback,
        Action::QueueNext
        | Action::QueuePrev
        | Action::QueueShuffle
        | Action::QueueRepeat => KeyContext::Queue,
        Action::Favorite
        | Action::ItemMenu => KeyContext::Library,
        Action::ClientMenu
        | Action::Themes
        | Action::Help
        | Action::Cancel
        | Action::Quit => KeyContext::General,
    }
}

fn context(action: Action) -> (context: KeyContext)
    ensures
        context == context_of(action),
{
    match action {
        Action::Up
        | Action::Down
        | Action::Left
        | Action::Right
        | Action::FocusNext
        | Action::FocusPrev
        | Action::Top
        | Action::Bottom
        | Action::Back
        | Action::GoTo
        | Action::InfoScrollUp
        | Action::InfoScrollDown => KeyContext::Navigation,
        Action::Play
        | Action::PlayPause
        | Action::Stop
        | Action::VolumeUp
        | Action::VolumeDown
        | Action::SeekForward
        | Action::SeekBackward => KeyContext::Playback,
        Action::QueueNext
        | Action::QueuePrev
        | Action::QueueShuffle
        | Action::QueueRepeat => KeyContext::Queue,
        Action::Favorite
        | Action::ItemMenu => KeyContext::Library,
        Action::ClientMenu
        | Action::Themes
        | Action::Help
        | Action::Cancel
        | Action::Quit => KeyContext::General,
    }
}

/// What the key overview says of an action.
pub open spec fn described_as(action: Action) -> Seq<char> {
    match action {
        Action::Up => "Move up"@,
        Action::Down => "Move down"@,
        Action::Left => "Back"@,
        Action::Right => "Open or play"@,
        Action::FocusNext => "Next pane"@,
        Action::FocusPrev => "Previous pane"@,
        Action::Top => "Jump to top"@,
        Action::Bottom => "Jump to bottom"@,
        Action::Back => "Back"@,
        Action::GoTo => "Go to…"@,
        Action::InfoScrollUp => "Scroll info up"@,
        Action::InfoScrollDown => "Scroll info down"@,
        Action::Play => "Open or play"@,
        Action::PlayPause => "Play or pause"@,
        Action::Stop => "Stop"@,
        Action::VolumeUp => "Volume up"@,
        Action::VolumeDown => "Volume down"@,
        Action::SeekForward => "Seek forward"@,
        Action::SeekBackward => "Seek backward"@,
        Action::QueueNext => "Next track"@,
        Action::QueuePrev => "Previous track"@,
        Action::QueueShuffle => "Toggle shuffle"@,
        Action::QueueRepeat => "Cycle repeat mode"@,
        Action::Favorite => "Toggle favorite"@,
        Action::ItemMenu => "Item menu"@,
        Action::ClientMenu => "Client settings"@,
        Action::Themes => "Theme picker"@,
        Action::Help => "Key overview"@,
        Action::Cancel => "Cancel"@,
        Action::Quit => "Quit"@,
    }
}

fn describe_action(action: Action) -> (desc: &'static str)
    ensures
        desc@ == described_as(action),
{
    match action {
        Action::Up => "Move up",
        Action::Down => "Move down",
        Action::Left => "Back",
        Action::Right => "Open or play",
        Action::FocusNext => "Next pane",
        Action::FocusPrev => "Previous pane",
        Action::Top => "Jump to top",
        Action::Bottom => "Jump to bottom",
        Action::Back => "Back",
        Action::GoTo => "Go to…",
        Action::InfoScrollUp => "Scroll info up",
        Action::InfoScrollDown => "Scroll info down",
        Action::Play => "Open or play",
        Action::PlayPause => "Play or pause",
        Action::Stop => "Stop",
        Action::VolumeUp => "Volume up",
        Action::VolumeDown => "Volume down",
        Action::SeekForward => "Seek forward",
        Action::SeekBackward => "Seek backward",
        Action::QueueNext => "Next track",
        Action::QueuePrev => "Previous track",
        Action::QueueShuffle => "Toggle shuffle",
        Action::QueueRepeat => "Cycle repeat mode",
        Action::Favorite => "Toggle favorite",
        Action::ItemMenu => "Item menu",
        Action::ClientMenu => "Client settings",
        Action::Themes => "Theme picker",
        Action::Help => "Key overview",
        Action::Cancel => "Cancel",
        Action::Quit => "Quit",
    }
}

/// The title of a group.
pub open spec fn context_title(context: KeyContext) -> Seq<char> {
    match context {
        KeyContext::Navigation => "Navigation"@,
        KeyContext::Playback => "Playback"@,
        KeyContext::Queue => "Queue"@,
        KeyContext::Library => "Library"@,
        KeyContext::General => "General"@,
    }
}

fn title_of(context: KeyContext) -> (title: &'static str)
    ensures
        title@ == context_title(context),
{
    match context {
        KeyContext::Navigation => "Navigation",
        KeyContext::Playback => "Playback",
        KeyContext::Queue => "Queue",
        KeyContext::Library => "Library",
        KeyContext::General => "General",
    }
}

/// The name of a key.
pub open spec fn code_name_of(code: KeyCode) -> Seq<char> {
    match code {
        KeyCode::Char(c) => if c == ' ' {
            "Space"@
        } else {
            seq![c]
        },
        KeyCode::F(n) => "F"@ + text::decimal(n as nat),
        KeyCode::Backspace => "Backspace"@,
        KeyCode::Enter => "Enter"@,
        KeyCode::Left => "Left"@,
        KeyCode::Right => "Right"@,
        KeyCode::Up => "Up"@,
        KeyCode::Down => "Down"@,
        KeyCode::Home => "Home"@,
        KeyCode::End => "End"@,
        KeyCode::PageUp => "PgUp"@,
        KeyCode::PageDown => "PgDn"@,
        KeyCode::Tab => "Tab"@,
        KeyCode::BackTab => "Shift+Tab"@,
        KeyCode::Delete => "Del"@,
        KeyCode::Insert => "Ins"@,
        KeyCode::Null => "Null"@,
        KeyCode::Esc => "Esc"@,
        KeyCode::Other => "?"@,
    }
}

fn code_name(code: KeyCode) -> (name: String)
    ensures
        name@ == code_name_of(code),
{
    match code {
        KeyCode::Char(c) => if c == ' ' {
            "Space".to_owned()
        } else {
            let mut name = String::new();
            name.push(c);
            assert(name@ =~= seq![c]);
            name
        },
        KeyCode::F(n) => concat2("F", decimal_text(n as u64).as_str()),
        KeyCode::Backspace => "Backspace".to_owned(),
        KeyCode::Enter => "Enter".to_owned(),
        KeyCode::Left => "Left".to_owned(),
        KeyCode::Right => "Right".to_owned(),
        KeyCode::Up => "Up".to_owned(),
        KeyCode::Down => "Down".to_owned(),
        KeyCode::Home => "Home".to_owned(),
        KeyCode::End => "End".to_owned(),
        KeyCode::PageUp => "PgUp".to_owned(),
        KeyCode::PageDown => "PgDn".to_owned(),
        KeyCode::Tab => "Tab".to_owned(),
        KeyCode::BackTab => "Shift+Tab".to_owned(),
        KeyCode::Delete => "Del".to_owned(),
        KeyCode::Insert => "Ins".to_owned(),
        KeyCode::Null => "Null".to_owned(),
        KeyCode::Esc => "Esc".to_owned(),
        KeyCode::Other => "?".to_owned(),
    }
}

/// The name of a binding's key, with the modifiers that have to be held.
pub open spec fn keys_of(binding: Binding) -> Seq<char> {
    (if binding.control {
        "Ctrl+"@
    } else {
        ""@
    }) + (if binding.alt {
        "Alt+"@
    } else {
        ""@
    }) + code_name_of(binding.code)
}

/// How the key overview shows a binding.
pub open spec fn help_of(binding: Binding) -> KeyHelpModel {
    KeyHelpModel { keys: keys_of(binding), desc: described_as(binding.action) }
}

fn help(binding: Binding) -> (row: KeyHelp)
    ensures
        row@ == help_of(binding),
{
    let control = if binding.control {
        "Ctrl+"
    } else {
        ""
    };
    let alt = if binding.alt {
        "Alt+"
    } else {
        ""
    };
    KeyHelp {
        keys: concat3(control, alt, code_name(binding.code).as_str()),
        desc: describe_action(binding.action).to_owned(),
    }
}

/// The bindings of one context, in the order of the keymap.
pub open spec fn group_of(bindings: Seq<Binding>, context: KeyContext) -> KeyGroupModel {
    KeyGroupModel {
        title: context_title(context),
        bindings: bindings.filter(|b: Binding| context_of(b.action) == context).map_values(
            |b: Binding| help_of(b),
        ),
    }
}

/// The keys of the top bar, which cannot be bound otherwise.
pub open spec fn top_bar_group() -> KeyGroupModel {
    KeyGroupModel {
        title: "Top bar"@,
        bindings: seq![
            KeyHelpModel { keys: "1 – 9"@, desc: "Switch library"@ },
            KeyHelpModel { keys: "/"@, desc: "Open search"@ },
        ],
    }
}

/// The groups of the key overview.
pub open spec fn groups_of(bindings: Seq<Binding>) -> Seq<KeyGroupModel> {
    seq![
        group_of(bindings, KeyContext::Navigation),
        group_of(bindings, KeyContext::Playback),
        group_of(bindings, KeyContext::Queue),
        group_of(bindings, KeyContext::Library),
        group_of(bindings, KeyContext::General),
        top_bar_group(),
    ]
}

impl Keymap {
    fn group(&self, wanted: KeyContext) -> (group: KeyGroup)
        ensures
            group@ == group_of(self@, wanted),
    {
        let ghost p = |b: Binding| context_of(b.action) == wanted;
        let ghost f = |b: Binding| help_of(b);
        let mut bindings: Vec<KeyHelp> = Vec::new();
        let mut i: usize = 0;
        proof {
            sequences::lemma_filter_empty(p);
            assert(self@.take(0) =~= Seq::<Binding>::empty());
            assert(bindings.deep_view() =~= self@.take(0).filter(p).map_values(f));
        }
        while i < self.bindings.len()
            invariant
                i <= self.bindings@.len(),
                self@ == self.bindings@,
                p == (|b: Binding| context_of(b.action) == wanted),
                f == (|b: Binding| help_of(b)),
                bindings.deep_view() == self@.take(i as int).filter(p).map_values(f),
            decreases self.bindings@.len() - i,
        {
            let binding = self.bindings[i];
            proof {
                sequences::lemma_take_push(self@, i as int);
                sequences::lemma_filter_push(self@.take(i as int), binding, p);
            }
            let ghost before = self@.take(i as int).filter(p);
            if context(binding.action) == wanted {
                push_deep(&mut bindings, help(binding));
                assert(before.push(binding).map_values(f) =~= before.map_values(f).push(
                    help_of(binding),
                ));
            }
            i = i + 1;
        }
        proof {
            sequences::lemma_take_all(self@);
        }
        KeyGroup { title: title_of(wanted).to_owned(), bindings }
    }

    /// The active bindings, grouped by context, for the key overview.
    pub fn describe(&self) -> (groups: Vec<KeyGroup>)
        ensures
            groups.deep_view() == groups_of(self@),
    {
        let mut top_bar: Vec<KeyHelp> = Vec::new();
        push_deep(
            &mut top_bar,
            KeyHelp { keys: "1 – 9".to_owned(), desc: "Switch library".to_owned() },
        );
        push_deep(&mut top_bar, KeyHelp { keys: "/".to_owned(), desc: "Open search".to_owned() });
        let mut groups: Vec<KeyGroup> = Vec::new();
        push_deep(&mut groups, self.group(KeyContext::Navigation));
        push_deep(&mut groups, self.group(KeyContext::Playback));
        push_deep(&mut groups, self.group(KeyContext::Queue));
        push_deep(&mut groups, self.group(KeyContext::Library));
        push_deep(&mut groups, self.group(KeyContext::General));
        push_deep(&mut groups, KeyGroup { title: "Top bar".to_owned(), bindings: top_bar });
        assert(groups.deep_view()[5].bindings =~= top_bar_group().bindings);
        assert(groups.deep_view() =~= groups_of(self@));
        groups
    }
}

/// Every binding is listed in the key overview, whatever it was rebound to.
pub proof fn every_binding_is_listed(bindings: Seq<Binding>, i: int)
    requires
        0 <= i < bindings.len(),
    ensures
        exists|g: int, row: int|
            0 <= g < groups_of(bindings).len() && 0 <= row < groups_of(
                bindings,
            )[g].bindings.len() && #[trigger] groups_of(bindings)[g].bindings[row] == help_of(
                bindings[i],
            ),
{
    let context = context_of(bindings[i].action);
    let p = |b: Binding| context_of(b.action) == context;
    let g: int = match context {
        KeyContext::Navigation => 0,
        KeyContext::Playback => 1,
        KeyContext::Queue => 2,
        KeyContext::Library => 3,
        KeyContext::General => 4,
    };
    bindings.filter_lemma(p);
    assert(bindings.filter(p).contains(bindings[i]));
    let row = choose|row: int|
        0 <= row < bindings.filter(p).len() && bindings.filter(p)[row] == bindings[i];
    assert(groups_of(bindings)[g] == group_of(bindings, context));
    assert(groups_of(bindings)[g].bindings[row] == help_of(bindings[i]));
}

} // verus!
