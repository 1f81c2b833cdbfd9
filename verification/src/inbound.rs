//! The inbound task: it answers pings and carries out the commands it receives directly.
use vstd::prelude::*;
use crate::messages::{Command, Content, Diagnostics, Info};

verus! {

/// What the inbound task does with a command.
#[derive(Debug, PartialEq, Eq, Structural, Clone, Copy)]
pub enum Reaction {
    /// Answer with a pong.
    Pong,
    /// Set a digital output.
    SetDigitalOut { pin: u8, value: bool },
    /// Note the command and do nothing.
    Ignore,
}

/// What the inbound task does with each command.
pub open spec fn reaction_to(command: Command) -> Reaction {
    match command {
        Command::Ping => Reaction::Pong,
        Command::SetDO { pin, value } => Reaction::SetDigitalOut { pin, value },
        _ => Reaction::Ignore,
    }
}

/// Decides what to do with a command.
pub fn react(command: &Command) -> (reaction: Reaction)
    ensures
        reaction == reaction_to(*command),
{
    match command {
        Command::Ping => Reaction::Pong,
        Command::SetDO { pin, value } => Reaction::SetDigitalOut { pin: *pin, value: *value },
        _ => Reaction::Ignore,
    }
}

/// Whether a received datagram may hold a command: an empty one holds none.
pub fn holds_command(received: usize) -> (holds: bool)
    ensures
        holds == (received != 0),
{
    received != 0
}

/// The answer to a ping received at `now_us`.
pub fn ping_pong(now_us: u64) -> (info: Info)
    ensures
        info == (Info {
            content: Content::Pong,
            diagnostics: Diagnostics {
                timestamp_us: now_us,
                execution_us: 0,
                jitter_in_us: 0,
                period_in_us: 0,
            },
        }),
{
    Info {
        content: Content::Pong,
        diagnostics: Diagnostics {
            timestamp_us: now_us,
            execution_us: 0,
            jitter_in_us: 0,
            period_in_us: 0,
        },
    }
}

/// The inbound task answers a ping with a pong, sets a digital output to the pin and value
/// that a command names, and only notes every other command.
pub proof fn lemma_inbound_reactions(command: Command)
    ensures
        command is Ping ==> reaction_to(command) == Reaction::Pong,
        command matches Command::SetDO { pin, value } ==> reaction_to(command)
            == (Reaction::SetDigitalOut { pin, value }),
        !(command is Ping) && !(command is SetDO) ==> reaction_to(command) == Reaction::Ignore,
{
}

} // verus!
