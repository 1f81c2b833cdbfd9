//! The watchdog: fed while the tasks make progress, it restarts the pico when they stop, or
//! on request.
use vstd::prelude::*;

verus! {

/// What the watchdog task receives.
#[derive(Debug, PartialEq, Eq, Structural, Clone, Copy)]
pub enum Message {
    /// A task made progress.
    Notified,
    /// Restart the pico.
    Restart,
}

/// What the watchdog task does.
#[derive(Debug, PartialEq, Eq, Structural, Clone, Copy)]
pub enum Reaction {
    /// Feed the watchdog for another timeout.
    Feed,
    /// Reset the pico at once.
    Reset,
}

/// Decides what the watchdog does with a message: progress feeds it, a restart request
/// resets the pico.
pub fn react(message: Message) -> (reaction: Reaction)
    ensures
        message == Message::Notified ==> reaction == Reaction::Feed,
        message == Message::Restart ==> reaction == Reaction::Reset,
{
    match message {
        Message::Notified => Reaction::Feed,
        Message::Restart => Reaction::Reset,
    }
}

} // verus!
