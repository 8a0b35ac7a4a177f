//! Key presses and the actions they are bound to.

use vstd::prelude::*;

verus! {

/// The key of a key event.
#[derive(Debug, Clone, Copy, PartialEq, Eq, Structural)]
pub enum KeyCode {
    Backspace,
    Enter,
    Left,
    Right,
    Up,
    Down,
    Home,
    End,
    PageUp,
    PageDown,
    Tab,
    BackTab,
    Delete,
    Insert,
    F(u8),
    Char(char),
    Null,
    Esc,
    /// A key that means nothing here (media keys, lock keys, …).
    Other,
}

/// Modifier keys held during a key event.
#[derive(Debug, Clone, Copy, PartialEq, Eq, Structural)]
pub struct KeyModifiers {
    pub shift: bool,
    pub control: bool,
    pub alt: bool,
    /// Super, hyper or meta.
    pub other: bool,
}

impl KeyModifiers {
    /// Whether no modifier is held.
    pub open spec fn none_held(self) -> bool {
        !self.shift && !self.control && !self.alt && !self.other
    }

    /// No modifier.
    pub fn empty() -> (modifiers: KeyModifiers)
        ensures
            modifiers.none_held(),
    {
        KeyModifiers { shift: false, control: false, alt: false, other: false }
    }

    /// Shift alone.
    pub fn shift() -> (modifiers: KeyModifiers)
        ensures
            modifiers == (KeyModifiers { shift: true, control: false, alt: false, other: false }),
    {
        KeyModifiers { shift: true, control: false, alt: false, other: false }
    }

    /// Control alone.
    pub fn control() -> (modifiers: KeyModifiers)
        ensures
            modifiers == (KeyModifiers { shift: false, control: true, alt: false, other: false }),
    {
        KeyModifiers { shift: false, control: true, alt: false, other: false }
    }

    /// Whether no modifier is held.
    pub fn is_empty(self) -> (none: bool)
        ensures
            none == self.none_held(),
    {
        !self.shift && !self.control && !self.alt && !self.other
    }
}

/// Whether a key went down, repeats, or was let go.
#[derive(Debug, Clone, Copy, PartialEq, Eq, Structural)]
pub enum KeyEventKind {
    Press,
    Repeat,
    Release,
}

/// One key event.
#[derive(Debug, Clone, Copy, PartialEq, Eq, Structural)]
pub struct KeyEvent {
    pub code: KeyCode,
    pub modifiers: KeyModifiers,
    pub kind: KeyEventKind,
}

impl KeyEvent {
    /// A press of `code` with `modifiers` held.
    pub fn new(code: KeyCode, modifiers: KeyModifiers) -> (event: KeyEvent)
        ensures
            event == (KeyEvent { code, modifiers, kind: KeyEventKind::Press }),
    {
        KeyEvent { code, modifiers, kind: KeyEventKind::Press }
    }
}

/// What a key can be bound to.
#[derive(Debug, Clone, Copy, PartialEq, Eq, Structural)]
pub enum Action {
    Quit,
    Up,
    Down,
    Left,
    Right,
    FocusNext,
    FocusPrev,
    Top,
    Bottom,
    Play,
    Back,
    PlayPause,
    Stop,
    VolumeUp,
    VolumeDown,
    SeekForward,
    SeekBackward,
    QueueNext,
    QueuePrev,
    QueueShuffle,
    QueueRepeat,
    Favorite,
    Themes,
    ItemMenu,
    ClientMenu,
    InfoScrollUp,
    InfoScrollDown,
    Help,
    GoTo,
    Cancel,
}

/// One key and the action it triggers.
#[derive(Debug, Clone, Copy, PartialEq, Eq, Structural)]
pub struct Binding {
    pub code: KeyCode,
    /// Whether Control has to be held.
    pub control: bool,
    /// Whether Alt has to be held.
    pub alt: bool,
    pub action: Action,
}

impl Binding {
    /// Whether a key event triggers the binding. Shift is not looked at: it is
    /// part of the character that arrives.
    pub open spec fn triggered_by(self, key: KeyEvent) -> bool {
        self.code == key.code && self.control == key.modifiers.control && self.alt
            == key.modifiers.alt
    }

    fn matches(&self, key: KeyEvent) -> (triggered: bool)
        ensures
            triggered == self.triggered_by(key),
    {
        self.code == key.code && self.control == key.modifiers.control && self.alt
            == key.modifiers.alt
    }

    /// `code` without modifiers, bound to `action`.
    pub fn plain(code: KeyCode, action: Action) -> (binding: Binding)
        ensures
            binding == (Binding { code, control: false, alt: false, action }),
    {
        Binding { code, control: false, alt: false, action }
    }
}

/// The active key bindings. The first binding that a key triggers counts.
#[derive(Debug)]
pub struct Keymap {
    pub bindings: Vec<Binding>,
}

/// The action that the first triggered binding carries.
pub open spec fn bound_action(bindings: Seq<Binding>, key: KeyEvent) -> Option<Action>
    decreases bindings.len(),
{
    if bindings.len() == 0 {
        None
    } else if bindings[0].triggered_by(key) {
        Some(bindings[0].action)
    } else {
        bound_action(bindings.drop_first(), key)
    }
}

/// A binding of `code` without modifiers.
pub open spec fn plain_binding(code: KeyCode, action: Action) -> Binding {
    Binding { code, control: false, alt: false, action }
}

/// The bindings in force when the user configured none.
pub open spec fn default_bindings() -> Seq<Binding> {
    seq![
        plain_binding(KeyCode::Char('q'), Action::Quit),
        plain_binding(KeyCode::Up, Action::Up),
        plain_binding(KeyCode::Down, Action::Down),
        plain_binding(KeyCode::Left, Action::Left),
        plain_binding(KeyCode::Right, Action::Right),
        plain_binding(KeyCode::Tab, Action::FocusNext),
        plain_binding(KeyCode::BackTab, Action::FocusPrev),
        plain_binding(KeyCode::Home, Action::Top),
        plain_binding(KeyCode::End, Action::Bottom),
        plain_binding(KeyCode::Enter, Action::Play),
        plain_binding(KeyCode::Backspace, Action::Back),
        plain_binding(KeyCode::Char(' '), Action::PlayPause),
        plain_binding(KeyCode::Char('s'), Action::Stop),
        plain_binding(KeyCode::Char('+'), Action::VolumeUp),
        plain_binding(KeyCode::Char('-'), Action::VolumeDown),
        plain_binding(KeyCode::Char('>'), Action::SeekForward),
        plain_binding(KeyCode::Char('<'), Action::SeekBackward),
        plain_binding(KeyCode::Char('n'), Action::QueueNext),
        plain_binding(KeyCode::Char('b'), Action::QueuePrev),
        plain_binding(KeyCode::Char('z'), Action::QueueShuffle),
        plain_binding(KeyCode::Char('r'), Action::QueueRepeat),
        plain_binding(KeyCode::Char('f'), Action::Favorite),
        plain_binding(KeyCode::Char('t'), Action::Themes),
        plain_binding(KeyCode::Char('p'), Action::ItemMenu),
        plain_binding(KeyCode::Char('P'), Action::ClientMenu),
        plain_binding(KeyCode::PageUp, Action::InfoScrollUp),
        plain_binding(KeyCode::PageDown, Action::InfoScrollDown),
        plain_binding(KeyCode::F(1), Action::Help),
        plain_binding(KeyCode::Char('g'), Action::GoTo),
        plain_binding(KeyCode::Esc, Action::Cancel),
    ]
}

impl View for Keymap {
    type V = Seq<Binding>;

    open spec fn view(&self) -> Seq<Binding> {
        self.bindings@
    }
}

impl Default for Keymap {
    fn default() -> (keymap: Keymap)
        ensures
            keymap@ == default_bindings(),
    {
        let bindings: Vec<Binding> = vec![
            Binding::plain(KeyCode::Char('q'), Action::Quit),
            Binding::plain(KeyCode::Up, Action::Up),
            Binding::plain(KeyCode::Down, Action::Down),
            Binding::plain(KeyCode::Left, Action::Left),
            Binding::plain(KeyCode::Right, Action::Right),
            Binding::plain(KeyCode::Tab, Action::FocusNext),
            Binding::plain(KeyCode::BackTab, Action::FocusPrev),
            Binding::plain(KeyCode::Home, Action::Top),
            Binding::plain(KeyCode::End, Action::Bottom),
            Binding::plain(KeyCode::Enter, Action::Play),
            Binding::plain(KeyCode::Backspace, Action::Back),
            Binding::plain(KeyCode::Char(' '), Action::PlayPause),
            Binding::plain(KeyCode::Char('s'), Action::Stop),
            Binding::plain(KeyCode::Char('+'), Action::VolumeUp),
            Binding::plain(KeyCode::Char('-'), Action::VolumeDown),
            Binding::plain(KeyCode::Char('>'), Action::SeekForward),
            Binding::plain(KeyCode::Char('<'), Action::SeekBackward),
            Binding::plain(KeyCode::Char('n'), Action::QueueNext),
            Binding::plain(KeyCode::Char('b'), Action::QueuePrev),
            Binding::plain(KeyCode::Char('z'), Action::QueueShuffle),
            Binding::plain(KeyCode::Char('r'), Action::QueueRepeat),
            Binding::plain(KeyCode::Char('f'), Action::Favorite),
            Binding::plain(KeyCode::Char('t'), Action::Themes),
            Binding::plain(KeyCode::Char('p'), Action::ItemMenu),
            Binding::plain(KeyCode::Char('P'), Action::ClientMenu),
            Binding::plain(KeyCode::PageUp, Action::InfoScrollUp),
            Binding::plain(KeyCode::PageDown, Action::InfoScrollDown),
            Binding::plain(KeyCode::F(1), Action::Help),
            Binding::plain(KeyCode::Char('g'), Action::GoTo),
            Binding::plain(KeyCode::Esc, Action::Cancel),
        ];
        assert(bindings@ =~= default_bindings());
        Keymap { bindings }
    }
}

impl Keymap {
    /// The action bound to `key`, if any.
    pub fn action_for(&self, key: KeyEvent) -> (action: Option<Action>)
        ensures
            action == bound_action(self@, key),
    {
        let mut i: usize = 0;
        assert(self.bindings@.skip(0) =~= self.bindings@);
        while i < self.bindings.len()
            invariant
                i <= self.bindings@.len(),
                bound_action(self@, key) == bound_action(self.bindings@.skip(i as int), key),
            decreases self.bindings@.len() - i,
        {
            let ghost rest = self.bindings@.skip(i as int);
            assert(rest[0] == self.bindings@[i as int]);
            if self.bindings[i].matches(key) {
                return Some(self.bindings[i].action);
            }
            assert(rest.drop_first() =~= self.bindings@.skip(i + 1));
            i = i + 1;
        }
        None
    }
}

} // verus!
