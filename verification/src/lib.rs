//! Register access for the WM8904 audio codec over a two-wire serial bus.

pub mod driver;
pub mod register;
pub mod sim;
pub mod transport;
pub mod wire;

pub use driver::{SequencerState, DEVICE_ADDRESS, WM8904};
pub use register::Register;
pub use sim::{Fault, RegisterFile};
pub use transport::Transport;
