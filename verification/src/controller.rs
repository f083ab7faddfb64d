//! The reconciliation core: the schedule's start/cancel state machine and
//! the per-tick merge of external commands, schedule intent and the
//! rate-limited ramp into one hardware write value.

use vstd::prelude::*;
use crate::{MAX_BRIGHTNESS, MAX_STEP};
use crate::bulb::{Bulb, Status, ramp_toward, ramp_iter, lemma_ramp_bounded};
use crate::schedule::Schedule;
use crate::command::{Command, Echo, spec_apply_all, spec_echoes_of};

verus! {

/// The state the reconciliation loop owns: the bulb and the schedule.
#[derive(Clone, Copy, PartialEq, Eq, Structural, Debug)]
pub struct Controller {
    pub bulb: Bulb,
    pub schedule: Schedule,
}

/// What one tick hands back to the loop's edge: the echoes to publish, in
/// order, and the brightness to write to the PWM actuator, if the ramp
/// moved.
pub struct TickOutput {
    pub echoes: Vec<Echo>,
    pub write: Option<u32>,
}

/// One evaluation of the schedule state machine on the entry state:
/// - outside the window the schedule never runs;
/// - in the window, bulb off and not running: the run starts, forcing the
///   bulb on with target 0 as the ramp-up starting point;
/// - in the window, bulb off but running: an external off cancelled the run;
///   the status stays off and the target is forced to 0;
/// - in the window, bulb on and running: the target follows the linear
///   sunrise ramp, re-evaluated every tick;
/// - in the window, bulb on for other reasons: the schedule does not
///   re-trigger.
pub open spec fn spec_schedule_step(s: Schedule, b: Bulb, now_seconds: u32) -> (
    Schedule,
    Bulb,
    Seq<Echo>,
) {
    if !s.spec_should_run(now_seconds) {
        (Schedule { running: false, ..s }, b, Seq::<Echo>::empty())
    } else if b.current_status == Status::Off && !s.running {
        (
            Schedule { running: true, ..s },
            Bulb { current_status: Status::On, target_brightness: 0, ..b },
            seq![Echo::Status(Status::On), Echo::Brightness(0)],
        )
    } else if b.current_status == Status::Off && s.running {
        (
            Schedule { running: false, ..s },
            Bulb { target_brightness: 0, ..b },
            seq![Echo::Status(Status::Off)],
        )
    } else if s.running {
        let t = s.spec_target_for(now_seconds);
        (s, Bulb { target_brightness: t, ..b }, seq![Echo::Brightness(t)])
    } else {
        (s, b, Seq::<Echo>::empty())
    }
}

/// The brightness the ramp actually heads for: off forces darkness,
/// whatever the stored target says.
pub open spec fn spec_effective_target(b: Bulb) -> u32 {
    if b.current_status == Status::Off {
        0
    } else {
        b.target_brightness
    }
}

/// The bulb after one rate-limited ramp step toward its effective target.
pub open spec fn spec_ramp_result(b: Bulb) -> Bulb {
    Bulb {
        current_brightness: ramp_toward(b.current_brightness, spec_effective_target(b)),
        ..b
    }
}

/// The hardware write of one tick: the stepped brightness when the ramp
/// moved, nothing when the bulb already sits at its effective target.
pub open spec fn spec_ramp_write(b: Bulb) -> Option<u32> {
    if b.current_brightness == spec_effective_target(b) {
        None
    } else {
        Some(spec_ramp_result(b).current_brightness)
    }
}

/// One whole tick on the entry state: the first drained batch, the schedule
/// evaluation, the second drained batch, then one ramp step.
pub open spec fn spec_tick(
    s: Schedule,
    b: Bulb,
    first: Seq<Command>,
    now_seconds: u32,
    second: Seq<Command>,
) -> (Schedule, Bulb, Seq<Echo>, Option<u32>) {
    let b1 = spec_apply_all(b, first);
    let (s2, b2, e2) = spec_schedule_step(s, b1, now_seconds);
    let b3 = spec_apply_all(b2, second);
    (
        s2,
        spec_ramp_result(b3),
        spec_echoes_of(first) + e2 + spec_echoes_of(second),
        spec_ramp_write(b3),
    )
}

impl Controller {
    pub open spec fn wf(self) -> bool {
        self.bulb.wf() && self.schedule.wf()
    }

    /// A fresh controller: a dark, off bulb and a not-yet-running schedule
    /// with the given daily window.
    pub fn new(hour: u32, minute: u32, duration: u32) -> (c: Controller)
        requires
            hour < 24,
            minute < 60,
            duration >= 1,
        ensures
            c.wf(),
            c.bulb == (Bulb {
                current_brightness: 0,
                target_brightness: 0,
                current_status: Status::Off,
            }),
            c.schedule == (Schedule { hour, minute, duration, running: false }),
    {
        Controller { bulb: Bulb::new(), schedule: Schedule::new(hour, minute, duration) }
    }

    /// Runs the schedule state machine once, as `spec_schedule_step` says,
    /// returning the echoes the transition produces.
    pub fn evaluate_schedule(&mut self, now_seconds: u32) -> (es: Vec<Echo>)
        requires
            old(self).wf(),
        ensures
            final(self).wf(),
            ({
                let (s2, b2, e2) = spec_schedule_step(
                    old(self).schedule,
                    old(self).bulb,
                    now_seconds,
                );
                final(self).schedule == s2 && final(self).bulb == b2 && es@ == e2
            }),
    {
        let mut es: Vec<Echo> = Vec::new();
        let should = self.schedule.should_run(now_seconds);
        if !should {
            self.schedule.running = false;
        } else {
            match self.bulb.current_status {
                Status::Off => {
                    if !self.schedule.running {
                        self.schedule.running = true;
                        self.bulb.current_status = Status::On;
                        self.bulb.target_brightness = 0;
                        es.push(Echo::Status(Status::On));
                        es.push(Echo::Brightness(0));
                        proof {
                            assert(es@ =~= seq![Echo::Status(Status::On), Echo::Brightness(0)]);
                        }
                    } else {
                        self.schedule.running = false;
                        self.bulb.target_brightness = 0;
                        es.push(Echo::Status(Status::Off));
                        proof {
                            assert(es@ =~= seq![Echo::Status(Status::Off)]);
                        }
                    }
                },
                Status::On => {
                    if self.schedule.running {
                        let t = self.schedule.calc_brightness(now_seconds);
                        self.bulb.target_brightness = t;
                        es.push(Echo::Brightness(t));
                        proof {
                            assert(es@ =~= seq![
                                Echo::Brightness(
                                    self.schedule.spec_target_for(now_seconds),
                                ),
                            ]);
                        }
                    }
                },
            }
        }
        es
    }

    /// One rate-limited ramp step toward the effective target (0 while the
    /// bulb is off). Returns the brightness to write to hardware, or nothing
    /// when the bulb already sits at its effective target.
    pub fn ramp_step(&mut self) -> (w: Option<u32>)
        requires
            old(self).wf(),
        ensures
            final(self).wf(),
            final(self).schedule == old(self).schedule,
            final(self).bulb == spec_ramp_result(old(self).bulb),
            w == spec_ramp_write(old(self).bulb),
    {
        let eff = match self.bulb.current_status {
            Status::Off => 0,
            Status::On => self.bulb.target_brightness,
        };
        if self.bulb.current_brightness != eff {
            let written = self.bulb.set_bulb_brightness(eff);
            Some(written)
        } else {
            None
        }
    }

    /// One whole tick: applies the first drained batch, evaluates the
    /// schedule, applies the second drained batch, then makes one ramp step.
    /// Echoes come back in that order; the write is the stepped brightness,
    /// if the ramp moved.
    pub fn tick(
        &mut self,
        first: &Vec<Command>,
        now_seconds: u32,
        second: &Vec<Command>,
    ) -> (out: TickOutput)
        requires
            old(self).wf(),
        ensures
            final(self).wf(),
            ({
                let (s2, b2, es, w) = spec_tick(
                    old(self).schedule,
                    old(self).bulb,
                    first@,
                    now_seconds,
                    second@,
                );
                final(self).schedule == s2 && final(self).bulb == b2 && out.echoes@ == es
                    && out.write == w
            }),
    {
        let mut echoes = self.bulb.apply_commands(first);
        let mut from_schedule = self.evaluate_schedule(now_seconds);
        echoes.append(&mut from_schedule);
        let mut from_second = self.bulb.apply_commands(second);
        echoes.append(&mut from_second);
        let write = self.ramp_step();
        proof {
            let (s2, b2, es, w) = spec_tick(
                old(self).schedule,
                old(self).bulb,
                first@,
                now_seconds,
                second@,
            );
            assert(echoes@ =~= es);
        }
        TickOutput { echoes, write }
    }
}

/// Cancellation: while the schedule is running inside its window and an
/// external command has turned the bulb off, the next evaluation stops the
/// run, leaves the status off and forces the target to 0, so the ramp heads
/// to darkness and reaches it within the bounded number of ticks.
pub proof fn lemma_schedule_cancellation(s: Schedule, b: Bulb, now_seconds: u32, n: nat)
    requires
        b.wf(),
        s.running,
        b.current_status == Status::Off,
        s.spec_should_run(now_seconds),
        n >= MAX_BRIGHTNESS / MAX_STEP,
    ensures
        ({
            let (s2, b2, e2) = spec_schedule_step(s, b, now_seconds);
            !s2.running && b2.current_status == Status::Off && b2.target_brightness == 0
                && spec_effective_target(b2) == 0 && ramp_iter(b2.current_brightness, 0, n) == 0
        }),
{
    let (s2, b2, e2) = spec_schedule_step(s, b, now_seconds);
    lemma_ramp_bounded(b2.current_brightness, 0, n);
}

/// Re-entry after a cancellation: with the bulb off and the schedule not
/// running, an in-window evaluation starts the run afresh: the bulb is
/// forced on and the ramp restarts from target 0.
pub proof fn lemma_schedule_restart(s: Schedule, b: Bulb, now_seconds: u32)
    requires
        !s.running,
        b.current_status == Status::Off,
        s.spec_should_run(now_seconds),
    ensures
        ({
            let (s2, b2, e2) = spec_schedule_step(s, b, now_seconds);
            s2.running && b2.current_status == Status::On && b2.target_brightness == 0
        }),
{
}

} // verus!
