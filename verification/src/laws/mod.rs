//! What holds of texts, settings and launches, whatever the inputs.

pub mod launching;
pub mod settings;
pub mod texts;
pub mod times;
