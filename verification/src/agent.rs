//! The per-session agent machinery: the running agent handle, the session
//! registry entries, the git workspace setup, and the naming helpers.

pub mod commit_and_push;
pub mod git_agent_environment;
pub mod running_agent;
pub mod session;
pub mod util;
