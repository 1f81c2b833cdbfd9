//! The tools on the host that command and observe the pico.
use vstd::prelude::*;

pub mod instruction;
pub mod instruct;
pub mod logger;
pub mod network;
pub mod observe;

verus! {

/// How to tell the tools where the pico is.
pub const PICO_ADDRESS_USAGE: &'static str = "
Set environment variable PICO_ADDRESS to the address and port
of your pico. By default: PICO_ADDRESS=192.168.7.1:1234";

} // verus!
