//! Controller for a dimmable light fixture driven by hardware PWM.
//!
//! The library holds the reconciliation core: the bulb state model with
//! rate-limited brightness transitions, the daily sunrise schedule with its
//! start/cancel state machine, command parsing, and the per-tick merge of the
//! competing brightness intents into one hardware write value.

use vstd::prelude::*;

pub mod bulb;
pub mod schedule;
pub mod command;
pub mod controller;
pub mod clock;

verus! {

/// Full-scale PWM duty value: brightness values range over
/// `[MIN_BRIGHTNESS, MAX_BRIGHTNESS]`.
pub const MAX_BRIGHTNESS: u32 = 1000000;

/// Lower end of the brightness range.
pub const MIN_BRIGHTNESS: u32 = 0;

/// Interval of the reconciliation loop, in milliseconds.
pub const TICK_MILLIS: u32 = 50;

/// Largest brightness change allowed in one tick: the tick interval in
/// seconds, halved, as a fraction of the full range, so at full rate the
/// bulb traverses its whole range in two seconds of ticking. With a 50 ms
/// tick this is one fortieth of `MAX_BRIGHTNESS`.
pub const MAX_STEP: u32 = MAX_BRIGHTNESS / 2000 * TICK_MILLIS;

} // verus!
