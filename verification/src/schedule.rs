//! The daily sunrise-simulation window and its linear brightness ramp.

use vstd::prelude::*;
use crate::MAX_BRIGHTNESS;

verus! {

/// A fixed daily time window starting at `hour:minute` and lasting
/// `duration` minutes, plus whether the schedule currently owns the bulb's
/// target brightness. Times are wall-clock seconds of day; the window recurs
/// every day.
#[derive(Clone, Copy, PartialEq, Eq, Structural, Debug)]
pub struct Schedule {
    pub hour: u32,
    pub minute: u32,
    pub duration: u32,
    pub running: bool,
}

impl Schedule {
    /// The window start is a wall-clock time of day and the window is not
    /// empty (the ramp divides by the duration).
    pub open spec fn wf(self) -> bool {
        self.hour < 24 && self.minute < 60 && self.duration >= 1
    }

    /// Window start, in seconds of day.
    pub open spec fn start_seconds(self) -> int {
        self.hour * 3600 + self.minute * 60
    }

    /// Window length, in seconds.
    pub open spec fn duration_seconds(self) -> int {
        self.duration * 60
    }

    /// Window end, in seconds of day.
    pub open spec fn end_seconds(self) -> int {
        self.start_seconds() + self.duration_seconds()
    }

    /// A fresh schedule with the given window, not running.
    pub fn new(hour: u32, minute: u32, duration: u32) -> (s: Schedule)
        requires
            hour < 24,
            minute < 60,
            duration >= 1,
        ensures
            s.wf(),
            s.hour == hour,
            s.minute == minute,
            s.duration == duration,
            !s.running,
    {
        Schedule { hour, minute, duration, running: false }
    }

    /// The window contains `now`, inclusive at both ends.
    pub open spec fn spec_should_run(self, now_seconds: u32) -> bool {
        self.start_seconds() <= now_seconds <= self.end_seconds()
    }

    /// True iff `now_seconds` lies within `[start, start + duration]`,
    /// inclusive of both bounds; false immediately outside.
    pub fn should_run(&self, now_seconds: u32) -> (r: bool)
        requires
            self.wf(),
        ensures
            r == self.spec_should_run(now_seconds),
    {
        let start: u64 = (self.hour as u64) * 3600 + (self.minute as u64) * 60;
        let end: u64 = start + (self.duration as u64) * 60;
        let now: u64 = now_seconds as u64;
        start <= now && now <= end
    }

    /// The schedule's brightness at `now`: a linear ramp from 0 at the window
    /// start to `MAX_BRIGHTNESS` at the window end, clamped into
    /// `[0, MAX_BRIGHTNESS]`. The elapsed time is taken before dividing by
    /// the duration.
    pub open spec fn spec_target_for(self, now_seconds: u32) -> u32 {
        if now_seconds <= self.start_seconds() {
            0
        } else {
            let raw = MAX_BRIGHTNESS * (now_seconds - self.start_seconds())
                / self.duration_seconds();
            if raw >= MAX_BRIGHTNESS {
                MAX_BRIGHTNESS
            } else {
                raw as u32
            }
        }
    }

    /// Brightness of the linear sunrise ramp at `now_seconds`, clamped into
    /// `[0, MAX_BRIGHTNESS]`.
    pub fn calc_brightness(&self, now_seconds: u32) -> (b: u32)
        requires
            self.wf(),
        ensures
            b == self.spec_target_for(now_seconds),
            b <= MAX_BRIGHTNESS,
    {
        let start: u64 = (self.hour as u64) * 3600 + (self.minute as u64) * 60;
        let now: u64 = now_seconds as u64;
        if now <= start {
            0
        } else {
            let elapsed: u64 = now - start;
            assert((MAX_BRIGHTNESS as u64) * elapsed <= 1000000u64 * 0xFFFF_FFFFu64)
                by (nonlinear_arith)
                requires
                    elapsed <= 0xFFFF_FFFF,
            ;
            let raw: u64 = (MAX_BRIGHTNESS as u64) * elapsed / ((self.duration as u64) * 60);
            if raw >= MAX_BRIGHTNESS as u64 {
                MAX_BRIGHTNESS
            } else {
                raw as u32
            }
        }
    }
}

/// The ramp's endpoints: at the window start the schedule asks for darkness,
/// at the window end for full brightness.
pub proof fn lemma_target_for_endpoints(s: Schedule)
    requires
        s.wf(),
        s.end_seconds() <= u32::MAX,
    ensures
        s.spec_target_for(s.start_seconds() as u32) == 0,
        s.spec_target_for(s.end_seconds() as u32) == MAX_BRIGHTNESS,
{
    let dur = s.duration_seconds();
    assert(MAX_BRIGHTNESS * dur / dur == MAX_BRIGHTNESS) by (nonlinear_arith)
        requires
            dur >= 60,
    ;
}

} // verus!
