use vstd::arithmetic::div_mod::{lemma_fundamental_div_mod, lemma_fundamental_div_mod_converse_mod};
use vstd::prelude::*;

verus! {

/// Whether a timer fires once and then stays finished, or resets and
/// restarts each time its countdown completes.
#[derive(Clone, Copy, Debug, PartialEq, Eq, Structural)]
pub enum TimerMode {
    Once,
    Repeating,
}

/// A countdown clock, advanced once per simulation tick by the elapsed frame
/// duration. Time is measured in whole milliseconds. `fired` records whether
/// a completion happened during the most recent tick ("just finished").
#[derive(Clone, Copy, Debug)]
pub struct Timer {
    pub period_ms: u64,
    pub elapsed_ms: u64,
    pub mode: TimerMode,
    pub fired: bool,
}

impl Timer {
    /// The period is positive and small enough that one wrapped tick cannot
    /// overflow, and the elapsed time never exceeds one period (staying
    /// strictly below it for a repeating timer, which wraps on completion).
    pub open spec fn wf(self) -> bool {
        &&& 1 <= self.period_ms <= u64::MAX / 2
        &&& self.elapsed_ms <= self.period_ms
        &&& self.mode == TimerMode::Repeating ==> self.elapsed_ms < self.period_ms
    }

    /// A one-shot timer is finished once its countdown has completed; a
    /// repeating timer counts as finished exactly on the ticks where a
    /// completion happened.
    pub open spec fn spec_finished(self) -> bool {
        match self.mode {
            TimerMode::Once => self.elapsed_ms == self.period_ms,
            TimerMode::Repeating => self.fired,
        }
    }

    pub open spec fn spec_just_finished(self) -> bool {
        self.fired
    }

    /// The timer after one tick of `delta_ms`: a one-shot timer accumulates
    /// elapsed time up to its period and fires on the tick that reaches it; a
    /// repeating timer wraps its elapsed time modulo the period and fires on
    /// any tick that crosses it.
    pub open spec fn spec_tick(self, delta_ms: u64) -> Timer {
        let total = self.elapsed_ms + delta_ms;
        match self.mode {
            TimerMode::Once => (Timer {
                elapsed_ms: if total >= self.period_ms { self.period_ms } else { total as u64 },
                fired: self.elapsed_ms < self.period_ms && total >= self.period_ms,
                ..self
            }),
            TimerMode::Repeating => (Timer {
                elapsed_ms: (total % (self.period_ms as int)) as u64,
                fired: total >= self.period_ms,
                ..self
            }),
        }
    }

    pub fn new_once(period_ms: u64) -> (t: Timer)
        requires
            1 <= period_ms <= u64::MAX / 2,
        ensures
            t.wf(),
            t == (Timer { period_ms, elapsed_ms: 0, mode: TimerMode::Once, fired: false }),
    {
        Timer { period_ms, elapsed_ms: 0, mode: TimerMode::Once, fired: false }
    }

    pub fn new_repeating(period_ms: u64) -> (t: Timer)
        requires
            1 <= period_ms <= u64::MAX / 2,
        ensures
            t.wf(),
            t == (Timer { period_ms, elapsed_ms: 0, mode: TimerMode::Repeating, fired: false }),
    {
        Timer { period_ms, elapsed_ms: 0, mode: TimerMode::Repeating, fired: false }
    }

    pub fn just_finished(&self) -> (r: bool)
        ensures
            r == self.spec_just_finished(),
    {
        self.fired
    }

    pub fn finished(&self) -> (r: bool)
        ensures
            r == self.spec_finished(),
    {
        match self.mode {
            TimerMode::Once => self.elapsed_ms == self.period_ms,
            TimerMode::Repeating => self.fired,
        }
    }

    /// Advance the countdown by the elapsed frame duration.
    pub fn tick(&mut self, delta_ms: u64)
        requires
            old(self).wf(),
        ensures
            final(self).wf(),
            *final(self) == old(self).spec_tick(delta_ms),
    {
        let remaining = self.period_ms - self.elapsed_ms;
        match self.mode {
            TimerMode::Once => {
                if delta_ms >= remaining {
                    self.fired = self.elapsed_ms < self.period_ms;
                    self.elapsed_ms = self.period_ms;
                } else {
                    self.elapsed_ms = self.elapsed_ms + delta_ms;
                    self.fired = false;
                }
            },
            TimerMode::Repeating => {
                self.fired = delta_ms >= remaining;
                let wrapped = delta_ms % self.period_ms;
                let total = self.elapsed_ms + wrapped;
                proof {
                    let p = self.period_ms as int;
                    let e = self.elapsed_ms as int;
                    let d = delta_ms as int;
                    lemma_fundamental_div_mod(d, p);
                    if e + d % p < p {
                        lemma_fundamental_div_mod_converse_mod(e + d, p, d / p, e + d % p);
                    } else {
                        assert((d / p + 1) * p == (d / p) * p + p) by (nonlinear_arith);
                        lemma_fundamental_div_mod_converse_mod(e + d, p, d / p + 1, e + d % p - p);
                    }
                }
                if total >= self.period_ms {
                    self.elapsed_ms = total - self.period_ms;
                } else {
                    self.elapsed_ms = total;
                }
            },
        }
    }
}

/// The total of a sequence of tick durations, as an unbounded integer.
pub open spec fn sum_ms(ds: Seq<u64>) -> int
    decreases ds.len(),
{
    if ds.len() == 0 {
        0
    } else {
        sum_ms(ds.drop_last()) + ds.last()
    }
}

/// The timer after being ticked by each duration of `ds` in order.
pub open spec fn tick_all(t: Timer, ds: Seq<u64>) -> Timer
    decreases ds.len(),
{
    if ds.len() == 0 {
        t
    } else {
        tick_all(t, ds.drop_last()).spec_tick(ds.last())
    }
}

/// A fresh one-shot timer's progress depends only on the total elapsed time,
/// not on how that total is split into ticks: after any sequence of ticks it
/// is finished if and only if their durations sum to at least its period.
pub proof fn lemma_once_timer_threshold(t: Timer, ds: Seq<u64>)
    requires
        t.wf(),
        t.mode == TimerMode::Once,
        t.elapsed_ms == 0,
    ensures
        tick_all(t, ds).wf(),
        tick_all(t, ds).mode == TimerMode::Once,
        tick_all(t, ds).period_ms == t.period_ms,
        tick_all(t, ds).elapsed_ms
            == if sum_ms(ds) >= t.period_ms { t.period_ms as int } else { sum_ms(ds) },
        tick_all(t, ds).spec_finished() <==> sum_ms(ds) >= t.period_ms,
    decreases ds.len(),
{
    if ds.len() > 0 {
        lemma_once_timer_threshold(t, ds.drop_last());
    }
}

} // verus!
