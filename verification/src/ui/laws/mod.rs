//! What holds of the requests, the answers and the players, whatever the inputs.

pub mod answers;
pub mod clocks;
pub mod contexts;
pub mod facts;
pub mod frames;
pub mod layouts;
pub mod lists;
pub mod pictures;
pub mod players;
pub mod requests;
pub mod screens;
pub mod tiles;
