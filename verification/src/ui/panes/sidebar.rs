//! Sidebar pane: the list of libraries.

use vstd::prelude::*;

use crate::sequences;
use crate::sequences::push_deep;
use crate::ui::app::types::{Library, LibraryModel};

verus! {

/// The names of the libraries, one row each.
pub fn rows(libraries: &Vec<Library>) -> (names: Vec<String>)
    ensures
        names.deep_view() == libraries.deep_view().map_values(
            |library: LibraryModel| library.name,
        ),
{
    let ghost goal = libraries.deep_view().map_values(|library: LibraryModel| library.name);
    let mut names: Vec<String> = Vec::new();
    let mut i: usize = 0;
    while i < libraries.len()
        invariant
            i <= libraries@.len(),
            goal == libraries.deep_view().map_values(|library: LibraryModel| library.name),
            names.deep_view() =~= goal.take(i as int),
        decreases libraries@.len() - i,
    {
        push_deep(&mut names, libraries[i].name.clone());
        proof {
            sequences::lemma_take_push(goal, i as int);
        }
        i = i + 1;
    }
    proof {
        sequences::lemma_take_all(goal);
    }
    names
}

} // verus!
