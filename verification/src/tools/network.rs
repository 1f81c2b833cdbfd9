//! The datagram buffer of the tools, and where they find the pico.
use vstd::prelude::*;
use vstd::string::StringExecFns;
use crate::messages::PICO_ADDRESS_DEFAULT;

verus! {

/// The size of a datagram buffer, in bytes.
pub const BUFFER_SIZE: usize = 1024;

/// A datagram buffer.
pub struct Buffer(pub [u8; 1024]);

impl Buffer {
    /// A buffer of zero bytes.
    pub fn new() -> (buffer: Self)
        ensures
            forall|i: int| 0 <= i < BUFFER_SIZE ==> buffer.0@[i] == 0,
    {
        Buffer([0; 1024])
    }
}

impl Default for Buffer {
    fn default() -> (buffer: Self)
        ensures
            forall|i: int| 0 <= i < BUFFER_SIZE ==> buffer.0@[i] == 0,
    {
        Self::new()
    }
}

/// The pico's address: the value of the environment variable, if it is set, and the default
/// address otherwise.
pub fn get_pico_address(variable: Option<String>) -> (address: String)
    ensures
        variable matches Some(value) ==> address@ == value@,
        variable is None ==> address@ == PICO_ADDRESS_DEFAULT@,
{
    match variable {
        Some(value) => value,
        None => String::from_str(PICO_ADDRESS_DEFAULT),
    }
}

} // verus!
