//! A terminal alarm clock, verified.
//!
//! The library holds everything the clock decides: the time model and its
//! `HH:MM:SS` parsing and formatting, the alarm state machine that renders
//! each tick, and the scheduler logic that dispatches timer and keyboard
//! events until a quit key stops the run. The surrounding binary only wires
//! these decisions to a real terminal, a real timer and a real keyboard.

pub mod time;
pub mod display;
pub mod clock;
pub mod scheduler;
