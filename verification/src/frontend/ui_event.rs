//! Events the frontend reacts to.

use vstd::prelude::*;

verus! {

/// An event for the frontend's own loop.
#[derive(Clone, Debug, PartialEq, Eq, Structural)]
pub enum UIEvent {
    /// A tick to trigger periodic updates.
    Tick,
    /// Start a new chat.
    NewChat,
    /// Switch to the next chat.
    NextChat,
    /// Delete the current chat.
    DeleteChat,
    /// Copy the last agent message.
    CopyLastMessage,
    /// Show the built-in help.
    Help,
    /// Show the agent's changes in the chat.
    DiffShow,
    /// Pull the agent's changes into a branch.
    DiffPull,
    /// Quit the frontend.
    Quit,
}

} // verus!
