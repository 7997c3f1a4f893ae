//! Core logic of a three-channel RGB indicator driven by a knob and two
//! buttons: quantization of raw analog samples into discrete brightness
//! levels, derivation of software-PWM tick timing from a live frame rate,
//! the input task's per-iteration decision rules, and the lock-protected
//! shared state the two long-lived tasks communicate through.

use vstd::prelude::*;

pub mod knob;
pub mod rgb;
pub mod shared;
pub mod text;
pub mod ui;

verus! {

/// Number of discrete brightness levels per channel; valid levels are
/// `0 ..= LEVELS - 1`.
pub const LEVELS: u32 = 16;

/// Smallest frame rate the input task ever publishes: a knob level of 0 maps
/// to this floor, which keeps the PWM tick-time denominator nonzero.
pub const FRAME_RATE_MIN: u64 = 10;

/// Largest frame rate the input task ever publishes: the mapping of the top
/// knob level, `(LEVELS - 1) * 10 + 10`.
pub const FRAME_RATE_MAX: u64 = 160;

/// Frame rate both shared state and the input task's shadow start from.
pub const DEFAULT_FRAME_RATE: u64 = 100;

} // verus!
