//! aquafin: the verified core of a terminal client for a Jellyfin media server.
//!
//! Everything the client decides lives here as total state transitions and pure
//! functions over plain values: what a key press does, which side effects it asks
//! for, what a fetched payload changes, and what every pane has to show. Terminal,
//! network, process and file work belongs to the application around this crate.

pub mod cli;
pub mod config;
pub mod laws;
pub mod sequences;
pub mod string_map;
pub mod text;
pub mod theme;
pub mod time;
pub mod ui;
pub mod video;
