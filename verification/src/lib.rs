//! Orchestration core for an autonomous coding-agent harness.
//!
//! The library manages chat sessions that each drive an agent inside an
//! isolated workspace: it dispatches commands, finds or starts sessions,
//! prepares a per-session git branch, and coordinates stop / retry /
//! cancellation.  Everything observable is stated in contracts and verified;
//! the surrounding I/O (terminal, processes, network) lives outside.

pub mod agent;
pub mod chat_message;
pub mod commands;
pub mod config;
pub mod evaluations;
pub mod executor;
pub mod frontend;
pub mod git;
pub mod indexing;
pub mod patch_file;
pub mod replace_lines;
pub mod repository;
pub mod text;
pub mod tools;
pub mod util;
