//! Crisis hedging: the escalation levels of the doomsday state machine.

pub mod doomsday_state_machine;

pub use doomsday_state_machine::DoomsdayState;
