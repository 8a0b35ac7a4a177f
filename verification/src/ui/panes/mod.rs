//! What the content panes show: titles, lines and selection, ready to be drawn.

pub mod content;
pub mod context_pane;
pub mod decor;
pub mod global_search;
pub mod home;
pub mod library_items;
pub mod list;
pub mod sidebar;

pub use self::decor::{item_kind_decor, ItemKindDecor};
