//! A Pomodoro session clock: a countdown that alternates between focus and
//! break periods and counts the focus periods that ran to completion.
//!
//! The clock is a state machine. [`state::ClockState`] is its mathematical
//! model and [`clock::SessionClock`] the executable clock that refines it.
//! [`display`] writes what a clock shows, and [`laws`] holds the properties
//! that are proved of the model.

pub mod phase;
pub mod state;
pub mod clock;
pub mod display;
pub mod laws;

pub use clock::{SessionClock, Snapshot, TICK_SECONDS};
pub use phase::{duration, Phase, BREAK_SECONDS, FOCUS_SECONDS};
