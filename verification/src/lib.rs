//! Verified core of a small keyboard-driven sprite scene: a single "cat"
//! entity that moves inside a fixed window and plays a looping frame
//! animation while triggered.
//!
//! The library holds the two pieces of logic the scene needs, free of any
//! engine type so that both can be verified:
//!
//! - [`movement`]: turns the held-key set and the elapsed frame time into a
//!   new position, clamped to the window's interior, and keeps the
//!   horizontal-flip flag in step with the last horizontal key.
//! - [`animation`]: a timer-driven frame stepper; on trigger it starts from
//!   a fresh countdown, each expiry advances the frame index by one, and on
//!   the last frame it rewinds to the first and stops.
//!
//! All quantities are fixed-point integers: positions in microunits
//! (one world unit is 1_000_000 microunits) and durations in microseconds.
//! The host program converts at its edge.

pub mod animation;
pub mod movement;
