//! The dispatcher: it hands each command to the task that carries it out.
use vstd::prelude::*;
use crate::bang_bang;
use crate::display;
use crate::messages::Command;
use crate::sequencer;

verus! {

/// The task that carries out a command, and what it receives.
#[derive(Debug)]
pub enum Route {
    /// Answered by the inbound task itself; the dispatcher only notes it.
    Inbound,
    /// Restart the pico through the watchdog.
    Restart,
    /// Set a digital output.
    DigitalOut { pin: u8, value: bool },
    /// Set an analog output.
    AnalogOut { pin: u8, value: u8 },
    /// An event of the bang bang controller.
    BangBang(bang_bang::Event),
    /// A request to the display.
    Display(display::Request),
    /// A request to the sequencer.
    Sequencer(sequencer::Request),
}

/// Where each command goes.
pub open spec fn route_of(command: Command) -> Route {
    match command {
        Command::Ping | Command::Subscribe => Route::Inbound,
        Command::Restart => Route::Restart,
        Command::SetDO { pin, value } => Route::DigitalOut { pin, value },
        Command::SetAO { pin, value } => Route::AnalogOut { pin, value },
        Command::BangBangStart => Route::BangBang(bang_bang::Event::Start),
        Command::BangBangStop => Route::BangBang(bang_bang::Event::Stop),
        Command::BangBangInput { pin } => Route::BangBang(bang_bang::Event::SetInput { pin }),
        Command::BangBangOutput { pin } => Route::BangBang(bang_bang::Event::SetOutput { pin }),
        Command::BangBangLowerLimit { value } => Route::BangBang(
            bang_bang::Event::SetLowerLimit { value },
        ),
        Command::BangBangUpperLimit { value } => Route::BangBang(
            bang_bang::Event::SetUpperLimit { value },
        ),
        Command::BangBangShow => Route::BangBang(bang_bang::Event::Show),
        Command::BangBangHide => Route::BangBang(bang_bang::Event::Hide),
        Command::RemovePage => Route::Display(display::Request::RemovePage),
        Command::AddPage => Route::Display(display::Request::AddPage),
        Command::ClearDisplay => Route::Display(display::Request::Clear),
        Command::AddLine { label, value } => Route::Display(
            display::Request::AddLine { label, value },
        ),
        Command::StartSequence { sequence_id } => Route::Sequencer(
            sequencer::Request::Start { sequence_id },
        ),
        Command::StopSequence => Route::Sequencer(sequencer::Request::Stop),
    }
}

/// Decides where a command goes.
pub fn route(command: Command) -> (route: Route)
    ensures
        route == route_of(command),
{
    match command {
        Command::Ping => Route::Inbound,
        Command::Restart => Route::Restart,
        Command::Subscribe => Route::Inbound,
        Command::SetDO { pin, value } => Route::DigitalOut { pin, value },
        Command::SetAO { pin, value } => Route::AnalogOut { pin, value },
        Command::BangBangStart => Route::BangBang(bang_bang::Event::Start),
        Command::BangBangStop => Route::BangBang(bang_bang::Event::Stop),
        Command::BangBangInput { pin } => Route::BangBang(bang_bang::Event::SetInput { pin }),
        Command::BangBangOutput { pin } => Route::BangBang(bang_bang::Event::SetOutput { pin }),
        Command::BangBangLowerLimit { value } => Route::BangBang(
            bang_bang::Event::SetLowerLimit { value },
        ),
        Command::BangBangUpperLimit { value } => Route::BangBang(
            bang_bang::Event::SetUpperLimit { value },
        ),
        Command::BangBangShow => Route::BangBang(bang_bang::Event::Show),
        Command::BangBangHide => Route::BangBang(bang_bang::Event::Hide),
        Command::RemovePage => Route::Display(display::Request::RemovePage),
        Command::AddPage => Route::Display(display::Request::AddPage),
        Command::ClearDisplay => Route::Display(display::Request::Clear),
        Command::AddLine { label, value } => Route::Display(
            display::Request::AddLine { label, value },
        ),
        Command::StartSequence { sequence_id } => Route::Sequencer(
            sequencer::Request::Start { sequence_id },
        ),
        Command::StopSequence => Route::Sequencer(sequencer::Request::Stop),
    }
}

/// The bang bang commands reach the controller as the event of the same name, and no other
/// command does.
pub proof fn lemma_controller_commands(command: Command)
    ensures
        route_of(command) is BangBang <==> (command is BangBangStart || command is BangBangStop
            || command is BangBangInput || command is BangBangOutput
            || command is BangBangLowerLimit || command is BangBangUpperLimit
            || command is BangBangShow || command is BangBangHide),
{
}

/// Routing passes each command's fields through unchanged to the task that carries it out:
/// a digital or analog output gets the command's pin and value, the controller the pin or
/// limit, the display the label and value, the sequencer the sequence; a restart goes to the
/// watchdog, and a ping or subscription stays with the inbound task.
pub proof fn lemma_routes_keep_fields(command: Command)
    ensures
        command is Ping || command is Subscribe ==> route_of(command) is Inbound,
        command is Restart ==> route_of(command) is Restart,
        command matches Command::SetDO { pin, value } ==> route_of(command) == (Route::DigitalOut {
            pin,
            value,
        }),
        command matches Command::SetAO { pin, value } ==> route_of(command) == (Route::AnalogOut {
            pin,
            value,
        }),
        command is BangBangStart ==> route_of(command) == Route::BangBang(bang_bang::Event::Start),
        command is BangBangStop ==> route_of(command) == Route::BangBang(bang_bang::Event::Stop),
        command matches Command::BangBangInput { pin } ==> route_of(command) == Route::BangBang(
            bang_bang::Event::SetInput { pin },
        ),
        command matches Command::BangBangOutput { pin } ==> route_of(command) == Route::BangBang(
            bang_bang::Event::SetOutput { pin },
        ),
        command matches Command::BangBangLowerLimit { value } ==> route_of(command)
            == Route::BangBang(bang_bang::Event::SetLowerLimit { value }),
        command matches Command::BangBangUpperLimit { value } ==> route_of(command)
            == Route::BangBang(bang_bang::Event::SetUpperLimit { value }),
        command is BangBangShow ==> route_of(command) == Route::BangBang(bang_bang::Event::Show),
        command is BangBangHide ==> route_of(command) == Route::BangBang(bang_bang::Event::Hide),
        command is ClearDisplay ==> route_of(command) == Route::Display(display::Request::Clear),
        command matches Command::AddLine { label, value } ==> route_of(command) == Route::Display(
            display::Request::AddLine { label, value },
        ),
        command is AddPage ==> route_of(command) == Route::Display(display::Request::AddPage),
        command is RemovePage ==> route_of(command) == Route::Display(
            display::Request::RemovePage,
        ),
        command matches Command::StartSequence { sequence_id } ==> route_of(command)
            == Route::Sequencer(sequencer::Request::Start { sequence_id }),
        command is StopSequence ==> route_of(command) == Route::Sequencer(sequencer::Request::Stop),
{
}

} // verus!
