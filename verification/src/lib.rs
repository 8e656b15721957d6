//! Control logic of a motorised door: a door state machine, the pulley driver
//! that winds the door up and down, and the tasks that feed them.
//!
//! None of it waits. A task asks the library what to wait for, waits, and hands
//! back what it saw. The tasks meet in [`signals::Signals`].

pub mod clock;
pub mod door;
pub mod door_laws;
pub mod network;
pub mod overcurrent;
pub mod pulley;
pub mod pulley_laws;
pub mod signals;
pub mod switch;
pub mod system;
