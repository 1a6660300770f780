//! Git and GitHub helpers the workspace setup leans on.

pub mod github;
