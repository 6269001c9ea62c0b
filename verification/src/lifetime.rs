use crate::timer::{Timer, TimerMode};
use vstd::prelude::*;

verus! {

/// Lifetime component: a strictly one-shot countdown attached to a transient
/// entity at creation. When the countdown completes, the owning entity is
/// removed from the world within the same tick; the timer is never reset.
#[derive(Clone, Copy, Debug)]
pub struct Lifetime {
    pub timer: Timer,
}

impl Lifetime {
    /// The countdown is one-shot; a repeating timer would resurrect the
    /// entity's deadline after it passed.
    pub open spec fn wf(self) -> bool {
        &&& self.timer.wf()
        &&& self.timer.mode == TimerMode::Once
    }

    pub fn new(duration_ms: u64) -> (l: Lifetime)
        requires
            1 <= duration_ms <= u64::MAX / 2,
        ensures
            l.wf(),
            l.timer == (Timer {
                period_ms: duration_ms,
                elapsed_ms: 0,
                mode: TimerMode::Once,
                fired: false,
            }),
    {
        Lifetime { timer: Timer::new_once(duration_ms) }
    }
}

} // verus!
