//! The bulb state model and the rate-limited brightness ramp.

use vstd::prelude::*;
use crate::{MAX_BRIGHTNESS, MAX_STEP};

verus! {

/// Logical on/off state of the bulb, independent of the brightness value:
/// a bulb can be `On` while still ramping up from 0.
#[derive(Clone, Copy, PartialEq, Eq, Structural, Debug)]
pub enum Status {
    Off,
    On,
}

/// The bulb's state: the brightness last written to hardware, the desired
/// steady-state brightness, and the logical on/off status.
#[derive(Clone, Copy, PartialEq, Eq, Structural, Debug)]
pub struct Bulb {
    pub current_brightness: u32,
    pub target_brightness: u32,
    pub current_status: Status,
}

/// One rate-limited ramp step: moves `current` toward `target` by at most
/// `MAX_STEP`, never overshooting. The downward branch is the saturating
/// form: the step never wraps below zero, and never passes the target.
pub open spec fn ramp_toward(current: u32, target: u32) -> u32 {
    if target > current {
        if current + MAX_STEP <= target {
            (current + MAX_STEP) as u32
        } else {
            target
        }
    } else {
        if target + MAX_STEP <= current {
            (current - MAX_STEP) as u32
        } else {
            target
        }
    }
}

/// `current` after `n` ramp steps toward `target`.
pub open spec fn ramp_iter(current: u32, target: u32, n: nat) -> u32
    decreases n,
{
    if n == 0 {
        current
    } else {
        ramp_iter(ramp_toward(current, target), target, (n - 1) as nat)
    }
}

/// Distance between two brightness values.
pub open spec fn dist(a: u32, b: u32) -> nat {
    if a >= b {
        (a - b) as nat
    } else {
        (b - a) as nat
    }
}

/// One ramp step never overshoots: the new value lies between the old value
/// and the target, and the distance to the target shrinks by `MAX_STEP`, or
/// the target is reached.
pub proof fn lemma_ramp_step(current: u32, target: u32)
    ensures
        current <= target ==> current <= ramp_toward(current, target) <= target,
        target <= current ==> target <= ramp_toward(current, target) <= current,
        dist(ramp_toward(current, target), current) <= MAX_STEP,
        dist(ramp_toward(current, target), target) == if dist(current, target) >= MAX_STEP {
            (dist(current, target) - MAX_STEP) as nat
        } else {
            0
        },
{
}

/// Never overshoot, never oscillate: after any number of ramp steps the
/// brightness still lies between the starting value and the target.
pub proof fn lemma_ramp_never_overshoots(current: u32, target: u32, n: nat)
    ensures
        current <= target ==> current <= ramp_iter(current, target, n) <= target,
        target <= current ==> target <= ramp_iter(current, target, n) <= current,
    decreases n,
{
    if n > 0 {
        lemma_ramp_step(current, target);
        lemma_ramp_never_overshoots(ramp_toward(current, target), target, (n - 1) as nat);
    }
}

/// Repeated ramp steps converge: once `n` steps of `MAX_STEP` cover the
/// distance to the target, the iterate equals the target exactly.
pub proof fn lemma_ramp_converges(current: u32, target: u32, n: nat)
    requires
        n * MAX_STEP >= dist(current, target),
    ensures
        ramp_iter(current, target, n) == target,
    decreases n,
{
    if n == 0 {
        assert(n * MAX_STEP == 0) by (nonlinear_arith)
            requires
                n == 0,
        ;
        assert(dist(current, target) == 0);
    } else {
        lemma_ramp_step(current, target);
        assert(((n - 1) as nat) * MAX_STEP == n * MAX_STEP - MAX_STEP) by (nonlinear_arith)
            requires
                n >= 1,
        ;
        let stepped = ramp_toward(current, target);
        lemma_ramp_converges(stepped, target, (n - 1) as nat);
        assert(ramp_iter(current, target, n) == ramp_iter(stepped, target, (n - 1) as nat));
    }
}

/// Once at the target the ramp holds it there.
pub proof fn lemma_ramp_stable(target: u32, n: nat)
    ensures
        ramp_iter(target, target, n) == target,
{
    lemma_ramp_converges(target, target, n);
}

/// Convergence is bounded: from any in-range start, any in-range target is
/// reached within `MAX_BRIGHTNESS / MAX_STEP` ticks (the full range divides
/// evenly into steps) and held from then on.
pub proof fn lemma_ramp_bounded(current: u32, target: u32, n: nat)
    requires
        current <= MAX_BRIGHTNESS,
        target <= MAX_BRIGHTNESS,
        n >= MAX_BRIGHTNESS / MAX_STEP,
    ensures
        ramp_iter(current, target, n) == target,
{
    assert(n * MAX_STEP >= MAX_BRIGHTNESS) by (nonlinear_arith)
        requires
            n >= MAX_BRIGHTNESS / MAX_STEP,
            MAX_STEP == 25000,
            MAX_BRIGHTNESS == 1000000,
    ;
    assert(dist(current, target) <= MAX_BRIGHTNESS);
    lemma_ramp_converges(current, target, n);
}

impl Bulb {
    /// Both brightness fields stay within the full-scale range.
    pub open spec fn wf(self) -> bool {
        self.current_brightness <= MAX_BRIGHTNESS && self.target_brightness <= MAX_BRIGHTNESS
    }

    /// A fresh bulb: dark and off.
    pub fn new() -> (b: Bulb)
        ensures
            b.wf(),
            b.current_brightness == 0,
            b.target_brightness == 0,
            b.current_status == Status::Off,
    {
        Bulb { current_brightness: 0, target_brightness: 0, current_status: Status::Off }
    }

    /// One rate-limited step of `current_brightness` toward
    /// `target_brightness`, returning the value to hand to the PWM actuator.
    /// The change is bounded by `MAX_STEP`, the result stays in
    /// `[0, MAX_BRIGHTNESS]`, and the step never overshoots the target.
    pub fn set_bulb_brightness(&mut self, target_brightness: u32) -> (written: u32)
        requires
            old(self).wf(),
            target_brightness <= MAX_BRIGHTNESS,
        ensures
            final(self).wf(),
            final(self).current_brightness == ramp_toward(
                old(self).current_brightness,
                target_brightness,
            ),
            final(self).target_brightness == old(self).target_brightness,
            final(self).current_status == old(self).current_status,
            written == final(self).current_brightness,
            dist(final(self).current_brightness, old(self).current_brightness) <= MAX_STEP,
            dist(final(self).current_brightness, target_brightness) <= dist(
                old(self).current_brightness,
                target_brightness,
            ),
    {
        let current_brightness = self.current_brightness;
        let mut brightness = target_brightness;
        if target_brightness > current_brightness {
            let stepped = current_brightness + MAX_STEP;
            brightness = if stepped <= target_brightness {
                stepped
            } else {
                target_brightness
            };
        } else if target_brightness < current_brightness {
            if MAX_STEP > current_brightness {
                // The saturating step lands at 0, below the target, so the
                // target itself is the closest admissible value.
                brightness = target_brightness;
            } else {
                let stepped = current_brightness - MAX_STEP;
                brightness = if stepped >= target_brightness {
                    stepped
                } else {
                    target_brightness
                };
            }
        }
        self.current_brightness = brightness;
        brightness
    }

    /// One rate-limited step toward darkness.
    pub fn turn_off_bulb(&mut self) -> (written: u32)
        requires
            old(self).wf(),
        ensures
            final(self).wf(),
            final(self).current_brightness == ramp_toward(old(self).current_brightness, 0),
            final(self).target_brightness == old(self).target_brightness,
            final(self).current_status == old(self).current_status,
            written == final(self).current_brightness,
    {
        self.set_bulb_brightness(0)
    }
}

} // verus!
