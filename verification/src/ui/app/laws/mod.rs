//! What holds of the client across its operations: how two of them relate, what each
//! one leaves alone, and what the user gets to see of them.

pub mod acting;
pub mod choosing;
pub mod dashboard;
pub mod doing;
pub mod opening;
pub mod options;
pub mod playing;
pub mod pressing;
pub mod searching;
pub mod sectioning;
pub mod showing;
pub mod starting;
pub mod telling;
pub mod walking;
