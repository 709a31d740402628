//! The shared capability contract of the input backends.

pub mod dtm_reader;
pub mod process_reader;
pub mod sa2_reader;
pub mod serial_reader;

use vstd::prelude::*;

use crate::controller_state::ControllerState;
use crate::error::Error;

verus! {

/// One input backend: produce the next controller state, blocking as needed.
///
/// The trait is implemented by the unverified I/O shells around the verified
/// sources of this crate; each shell owns its resource exclusively and is
/// driven by a single acquisition loop, so the method is never called
/// concurrently with itself.
pub trait InputReader {
    fn read_next_input(&mut self) -> Result<ControllerState, Error>;
}

} // verus!
