//! The words with which the observer logs what the pico reports.
use vstd::prelude::*;
use crate::messages::Mode;

verus! {

/// The word for a digital level.
pub fn get_level(level: bool) -> (text: &'static str)
    ensures
        level ==> text@ == "on"@,
        !level ==> text@ == "off"@,
{
    match level {
        false => "off",
        true => "on",
    }
}

/// The word for a mode of the bang bang controller.
pub fn get_mode(mode: Mode) -> (text: &'static str)
    ensures
        mode == Mode::Off ==> text@ == "off"@,
        mode == Mode::Running ==> text@ == "running"@,
        mode == Mode::Waiting ==> text@ == "waiting"@,
{
    match mode {
        Mode::Off => "off",
        Mode::Running => "running",
        Mode::Waiting => "waiting",
    }
}

} // verus!
