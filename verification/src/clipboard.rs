//! What the clipboard watcher does with a notification.
//!
//! The watcher runs on a thread of its own and holds no claim on the
//! coordinator: at each notification it finds out whether the coordinator
//! still exists. The functions here decide from what it found.

use vstd::prelude::*;

verus! {

/// Whether the watcher goes on listening after a notification.
#[derive(Debug, Clone, Copy, PartialEq, Eq, Structural)]
pub enum Listening {
    /// Wait for the next notification.
    Next,
    /// Leave the listening loop.
    Stop,
}

/// What a change of the clipboard leads to.
#[derive(Debug, PartialEq, Eq)]
pub struct Reaction {
    /// The text to speak, if any is to be spoken.
    pub speech: Option<String>,
    /// Whether the watcher goes on listening.
    pub listening: Listening,
}

/// Decides what a change of the clipboard leads to.
///
/// `text` is what the clipboard holds as text, `None` where it could not be
/// read as text; `coordinator_alive` says whether the coordinator still
/// exists. The text is spoken only if it was read and the coordinator
/// exists; otherwise the notification is skipped. Either way the watcher
/// goes on listening, and so it does whatever becomes of the speech.
pub fn on_clipboard_change(text: Option<String>, coordinator_alive: bool) -> (reaction: Reaction)
    ensures
        reaction.listening == Listening::Next,
        reaction.speech == if coordinator_alive {
            text
        } else {
            None
        },
{
    let speech = if coordinator_alive {
        text
    } else {
        None
    };
    Reaction { speech, listening: Listening::Next }
}

/// Decides what an error of the listener itself leads to: a notification
/// may have been missed, and the watcher goes on listening.
pub fn on_clipboard_error() -> (listening: Listening)
    ensures
        listening == Listening::Next,
{
    Listening::Next
}

} // verus!
