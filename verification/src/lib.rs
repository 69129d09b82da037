//! A break timer's core: it decides from pointer movement, key presses and
//! the passing of time whether the user is working or on a break.
//!
//! Each tick the caller samples pointer and keys. The activity detector
//! turns the samples into one signal, whether the user is active, and the
//! state machine moves on by that signal and the reading of the clock. The
//! caller draws the overlay while a break is on and may notify the user of
//! the events.

pub mod activity;
pub mod app;
mod clock;
pub mod color_settings;
pub mod countdown;
pub mod history;
pub mod state;
pub mod thresholds;
pub mod time;
