//! The active color theme, as far as decisions depend on it: its name. The
//! palette behind the name belongs to the renderer.

use vstd::prelude::*;

verus! {

/// A color theme, identified by name.
#[derive(Debug, Clone, PartialEq, Eq)]
pub struct Theme {
    pub name: String,
}

impl View for Theme {
    type V = Seq<char>;

    open spec fn view(&self) -> Seq<char> {
        self.name@
    }
}

impl Theme {
    /// The theme called `name`.
    pub fn named(name: &str) -> (theme: Theme)
        ensures
            theme@ == name@,
    {
        Theme { name: name.to_owned() }
    }

    /// The theme's name.
    pub fn name(&self) -> (name: &str)
        ensures
            name@ == self@,
    {
        self.name.as_str()
    }
}

impl Default for Theme {
    fn default() -> (theme: Theme)
        ensures
            theme@ == "default"@,
    {
        Theme::named("default")
    }
}

} // verus!
