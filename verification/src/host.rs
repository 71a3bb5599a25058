//! What the host's window manager reports back.
//!
//! The host looks windows up by label, focuses, closes and builds them, and
//! delivers events. Where it fails it gives a message of its own, which is
//! passed on as it is.

use vstd::prelude::*;

verus! {

/// The host's report on a request addressed to one window.
#[derive(Debug, PartialEq, Eq)]
pub enum WindowReply {
    /// The host has no window under the label; nothing was done.
    NotFound,
    /// The host found the window and did what was asked.
    Done,
    /// The host found the window and failed; this is its message.
    Failed(String),
}

/// The host's report on the opening of a new window.
#[derive(Debug, PartialEq, Eq)]
pub enum OpenReply {
    /// The window was built and focused.
    Opened,
    /// The window could not be built; this is the host's message.
    BuildFailed(String),
    /// The window was built and could not be focused; this is the host's
    /// message.
    FocusFailed(String),
}

} // verus!
