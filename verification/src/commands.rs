//! Commands into the core, and how they are dispatched.

pub mod command;
pub mod handler;
pub mod responder;
