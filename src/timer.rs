use std::time::Duration;

use vstd::prelude::*;

verus! {

/// Longest step, in microseconds, by which a repeating timer is advanced at
/// once: the engine counts the periods that a step completes in 32 bits.
pub const MAX_STEP: u64 = 4_294_967_295;

/// The period, accumulated time, finished flag and count of completed
/// periods of a running timer after `delta` more microseconds: a repeating
/// one keeps the remainder of the time that ran past its expiries, a one-shot
/// one stops at its period.
pub open spec fn advanced(duration: nat, elapsed: nat, repeating: bool, delta: nat) -> (
    nat,
    bool,
    nat,
) {
    let e: int = elapsed as int + delta as int;
    if e >= duration {
        if repeating {
            ((e % (duration as int)) as nat, true, (e / (duration as int)) as nat)
        } else {
            (duration, true, 1)
        }
    } else {
        (e as nat, false, 0)
    }
}

/// Relies on `bevy::core::Timer::tick` (bevy_core 0.7) on a fresh timer of
/// the given period whose accumulated time is set with `set_elapsed`: the
/// stopwatch adds `delta`; on reaching the period a repeating timer counts
/// the completed periods (as a `u32`, hence the bound) and keeps the rest, a
/// one-shot timer stops at its period. A repeating timer with a zero period
/// would divide by zero.
#[verifier::external_body]
fn engine_tick(duration: u64, elapsed: u64, repeating: bool, delta: u64) -> (r: (u64, bool, u32))
    requires
        repeating ==> duration > 0,
        repeating ==> (elapsed + delta) / (duration as int) <= u32::MAX,
    ensures
        (r.0 as nat, r.1, r.2 as nat) == advanced(
            duration as nat,
            elapsed as nat,
            repeating,
            delta as nat,
        ),
{
    let mut t = bevy::core::Timer::new(Duration::from_micros(duration), repeating);
    t.set_elapsed(Duration::from_micros(elapsed));
    t.tick(Duration::from_micros(delta));
    (t.elapsed().as_micros() as u64, t.finished(), t.times_finished())
}

proof fn lemma_step_fits(elapsed: int, duration: int, delta: int)
    requires
        0 <= elapsed <= duration,
        duration >= 1,
        0 <= delta < MAX_STEP,
    ensures
        (elapsed + delta) / duration <= u32::MAX,
{
    assert((elapsed + delta) / duration <= (elapsed + delta)) by (nonlinear_arith)
        requires
            elapsed + delta >= 0,
            duration >= 1,
    ;
    if elapsed + delta >= duration {
        assert((elapsed + delta) / duration <= 1 + delta) by (nonlinear_arith)
            requires
                0 <= elapsed <= duration,
                duration >= 1,
                delta >= 0,
        ;
    } else {
        assert((elapsed + delta) / duration == 0) by (nonlinear_arith)
            requires
                0 <= elapsed + delta < duration,
        ;
    }
}

/// What a timer holds: its period, the time accumulated towards the next
/// expiry, whether it restarts on expiry, whether it has finished, and how
/// many periods the last tick completed. All durations are microseconds.
pub struct TimerView {
    pub duration: nat,
    pub elapsed: nat,
    pub repeating: bool,
    pub finished: bool,
    pub times_finished: nat,
}

/// The state of a timer after it has been advanced by `delta` microseconds.
/// A finished one-shot timer stays where it is; a repeating one keeps the
/// remainder of the time that ran past its expiries.
pub open spec fn ticked(t: TimerView, delta: nat) -> TimerView {
    if !t.repeating && t.finished {
        TimerView { times_finished: 0, ..t }
    } else {
        let e: int = t.elapsed + delta as int;
        if e >= t.duration {
            if t.repeating {
                TimerView {
                    elapsed: (e % (t.duration as int)) as nat,
                    finished: true,
                    times_finished: (e / (t.duration as int)) as nat,
                    ..t
                }
            } else {
                TimerView { elapsed: t.duration, finished: true, times_finished: 1, ..t }
            }
        } else {
            TimerView { elapsed: e as nat, finished: false, times_finished: 0, ..t }
        }
    }
}

/// A countdown that is advanced by the time elapsed in each frame; the
/// engine's timer does the advancing.
#[derive(Clone, Copy)]
pub struct Timer {
    duration: u64,
    elapsed: u64,
    repeating: bool,
    finished: bool,
    times_finished: u128,
}

impl View for Timer {
    type V = TimerView;

    closed spec fn view(&self) -> TimerView {
        TimerView {
            duration: self.duration as nat,
            elapsed: self.elapsed as nat,
            repeating: self.repeating,
            finished: self.finished,
            times_finished: self.times_finished as nat,
        }
    }
}

impl Timer {
    /// Well-formed: the accumulated time never passes the period, and a
    /// repeating timer has a positive period.
    pub open spec fn wf(&self) -> bool {
        &&& self@.elapsed <= self@.duration
        &&& (self@.repeating ==> self@.duration > 0)
    }

    /// A fresh timer with the given period in microseconds.
    pub fn new(duration: u64, repeating: bool) -> (r: Timer)
        requires
            repeating ==> duration > 0,
        ensures
            r.wf(),
            r@ == (TimerView {
                duration: duration as nat,
                elapsed: 0,
                repeating,
                finished: false,
                times_finished: 0,
            }),
    {
        Timer { duration, elapsed: 0, repeating, finished: false, times_finished: 0 }
    }

    /// Advances the timer by `delta` microseconds.
    pub fn tick(&mut self, delta: u64)
        requires
            old(self).wf(),
            old(self)@.repeating ==> delta < MAX_STEP,
        ensures
            final(self).wf(),
            final(self)@ == ticked(old(self)@, delta as nat),
    {
        if !self.repeating && self.finished {
            self.times_finished = 0;
            return;
        }
        proof {
            if self.repeating {
                lemma_step_fits(self.elapsed as int, self.duration as int, delta as int);
            }
        }
        let (elapsed, finished, times) = engine_tick(self.duration, self.elapsed, self.repeating, delta);
        proof {
            if self.repeating && finished {
                let e = self.elapsed + delta;
                assert(e % (self.duration as int) < self.duration) by (nonlinear_arith)
                    requires
                        self.duration > 0,
                        e >= 0,
                ;
            }
        }
        self.elapsed = elapsed;
        self.finished = finished;
        self.times_finished = times as u128;
    }

    /// The timer has reached its period at some point (one-shot) or in the
    /// last tick (repeating).
    pub fn finished(&self) -> (r: bool)
        ensures
            r == self@.finished,
    {
        self.finished
    }

    /// The last tick completed at least one period.
    pub fn just_finished(&self) -> (r: bool)
        ensures
            r == (self@.times_finished > 0),
    {
        self.times_finished > 0
    }

    /// Time accumulated towards the next expiry, in microseconds.
    pub fn elapsed(&self) -> (r: u64)
        ensures
            r == self@.elapsed,
    {
        self.elapsed
    }

    /// The period, in microseconds.
    pub fn duration(&self) -> (r: u64)
        ensures
            r == self@.duration,
    {
        self.duration
    }
}

} // verus!
