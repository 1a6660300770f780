//! The verifiable part of the evaluation harness: collecting what an agent
//! reported, and judging a diff against expected changes.

pub mod logging_responder;
pub mod patch;
