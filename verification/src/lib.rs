//! Clock-divider engine for a tempo-driven pulse generator.
//!
//! A master tempo in beats per minute fixes the length of a musical bar in
//! timer ticks. Up to four output channels each divide the bar by a small
//! rational prescaler and toggle a rectangular output at the resulting
//! interval. A finite state machine interprets button presses as mode
//! changes, and a controller ties tempo, tick counter, channels and display
//! value together, one polling iteration at a time.
//!
//! Everything here is pure computation over plain values; reading pins,
//! painting the display and the timer interrupt itself live outside the
//! library and hand values in and out.

pub mod controller;
pub mod cv_output;
pub mod state_machine;
pub mod time;
