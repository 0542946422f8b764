//! A work/rest interval timer library: a pomodoro-style scheduler that
//! alternates timed work and rest periods and records the measured length of
//! each completed cycle to a per-day history log.
//!
//! The scheduling state machine, the calendar-day gating of the history log,
//! and the storage record round trip are all specified by contracts and
//! verified; reading the clock, files, and dialogs is left to the embedding
//! program.

pub mod config;
pub mod control;
pub mod date;
pub mod history;
pub mod runtime;
pub mod time;
