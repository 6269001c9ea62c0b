use crate::timer::{Timer, TimerMode};
use vstd::prelude::*;

verus! {

/// Period of a tower's shooting countdown: one second.
pub const TOWER_SHOT_PERIOD_MS: u64 = 1000;

/// Tower component: a repeating shooting countdown. Each completion is an
/// occasion to spawn one short-lived projectile (when shooting is enabled),
/// after which the repeating timer restarts on its own.
#[derive(Clone, Copy, Debug)]
pub struct Tower {
    pub shooting_timer: Timer,
}

impl Tower {
    /// The shooting countdown always repeats with the fixed one-second period.
    pub open spec fn wf(self) -> bool {
        &&& self.shooting_timer.wf()
        &&& self.shooting_timer.mode == TimerMode::Repeating
        &&& self.shooting_timer.period_ms == TOWER_SHOT_PERIOD_MS
    }

    pub fn new() -> (t: Tower)
        ensures
            t.wf(),
            t.shooting_timer == (Timer {
                period_ms: TOWER_SHOT_PERIOD_MS,
                elapsed_ms: 0,
                mode: TimerMode::Repeating,
                fired: false,
            }),
    {
        Tower { shooting_timer: Timer::new_repeating(TOWER_SHOT_PERIOD_MS) }
    }
}

} // verus!
