//! A Pomodoro-style interval timer: alternating work and rest phases with
//! pause/resume, duration adjustment, and reset.
//!
//! The core is a value-type state machine over a monotonic clock. Every
//! time-dependent operation takes the current monotonic reading (in
//! milliseconds) as an argument, so the whole state machine is a pure,
//! verified function of "now"; the host reads the clock, forwards commands,
//! and renders the countdown.

pub mod laws;
pub mod render;
pub mod timer;

pub use timer::IntervalTimer;
pub use timer::Phase;
