//! A countdown timer: the duration is resolved into seconds, counted off one
//! tick at a time while watching for a cancellation, and on expiry a desktop
//! notification and an alarm may follow.
//!
//! - `clock`: the `HH:MM:SS` text of a count of seconds.
//! - `config`: the user's settings, the total duration, and the completion steps.
//! - `countdown`: the tick-by-tick state machine, with its laws.
//! - `display`: what each tick puts on standard output, and quiet mode.
pub mod clock;
pub mod config;
pub mod countdown;
pub mod display;
