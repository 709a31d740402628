//! Input acquisition core for a game-controller display.
//!
//! The library normalizes three input backends (replay playback, a serial
//! bit-protocol, and polled remote-process sampling) into one stream of
//! [`controller_state::ControllerState`] values, and hands each new state
//! from the acquisition thread to a renderer through a verified shared slot.

pub mod acquisition;
pub mod configuration;
pub mod controller_state;
pub mod error;
pub mod input_reader;

pub use controller_state::ControllerState;
