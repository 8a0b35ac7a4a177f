//! The terminal user interface: state, transitions, and what the panes show.

pub mod app;
pub mod browse;
pub mod cheatsheet;
pub mod details;
pub mod durations;
pub mod images;
pub mod keymap;
pub mod laws;
pub mod layout;
pub mod lines;
pub mod now_playing;
pub mod panes;
pub mod playback;
pub mod run;
pub mod screen;
pub mod upkeep;
