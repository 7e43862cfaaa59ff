//! Verified core of a desktop clock utility.
//!
//! The library models the time-tracking state of the application: a stopwatch,
//! a one-shot countdown timer, and a list of alarms, all advanced by periodic
//! wall-clock ticks and mutated by discrete user commands.  Every state
//! transition is an immediate, pure update; side effects are represented as
//! [`tracker::NotificationRequest`] values that the host event loop drains and
//! delivers (OS toast, sound) on its own.

pub mod clock;
pub mod config;
pub mod laws;
pub mod time;
pub mod tracker;
