//! What the frontend hands the core: parsed user input commands and the
//! events they turn into.

pub mod ui_event;
pub mod ui_input_command;
