//! Speak-and-wait coordination for a host speech and media subsystem.
//!
//! A call synthesizes text, builds a playable source, registers a one-time
//! playback-ended handler before it starts playback, waits for the end of
//! playback, and unwinds whatever it acquired, on success and on failure alike.
//! `coordinator` decides each step, `signal` carries the playback-ended
//! notification out of the host's callback, `error` names the failures and
//! turns outcomes into caller-facing responses, and `laws` proves what holds of
//! every run of a call.

pub mod coordinator;
pub mod error;
pub mod laws;
pub mod signal;
