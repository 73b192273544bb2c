//! Blink task.
//!
//! A two-state machine {On, Off} owning one LED line. Each scheduling turn
//! after the first toggles the line and suspends for a fixed half-period;
//! the first turn only arms the task, so the line shows its initial level
//! for one full half-period before the first toggle. The task never
//! terminates.

use vstd::prelude::*;

use crate::level::{flipped, Line};

verus! {

/// The blink state machine and the line it exclusively owns.
pub struct BlinkTask {
    pub led: Line,
    /// Suspension between toggles: half of the blink period.
    pub half_period_ms: u64,
    /// Whether the task has had its first scheduling turn.
    pub started: bool,
    /// How many toggles have been driven (saturating at the counter's top).
    pub toggles: u64,
}

/// One scheduling turn of the blink task.
pub open spec fn blink_step_model(t: BlinkTask) -> BlinkTask {
    if !t.started {
        BlinkTask { led: t.led, half_period_ms: t.half_period_ms, started: true, toggles: t.toggles }
    } else {
        BlinkTask {
            led: Line { level: flipped(t.led.level) },
            half_period_ms: t.half_period_ms,
            started: true,
            toggles: if t.toggles == u64::MAX {
                u64::MAX
            } else {
                (t.toggles + 1) as u64
            },
        }
    }
}

/// `n` scheduling turns of the blink task.
pub open spec fn blink_run(t: BlinkTask, n: nat) -> BlinkTask
    decreases n,
{
    if n == 0 {
        t
    } else {
        blink_step_model(blink_run(t, (n - 1) as nat))
    }
}

impl BlinkTask {
    /// Take ownership of the LED line; the first toggle comes one
    /// half-period after the task first runs.
    pub fn new(led: Line, half_period_ms: u64) -> (r: BlinkTask)
        ensures
            r.led == led,
            r.half_period_ms == half_period_ms,
            !r.started,
            r.toggles == 0,
    {
        BlinkTask { led, half_period_ms, started: false, toggles: 0 }
    }

    /// One scheduling turn: toggle the line (once armed) and report how long
    /// to suspend until the next turn.
    pub fn step(&mut self) -> (d: u64)
        ensures
            *final(self) == blink_step_model(*old(self)),
            d == old(self).half_period_ms,
    {
        if !self.started {
            self.started = true;
        } else {
            self.led.toggle();
            if self.toggles < u64::MAX {
                self.toggles = self.toggles + 1;
            }
        }
        self.half_period_ms
    }
}

/// A running (armed) blink task toggles its line exactly once per turn, and
/// each turn is one half-period suspension: after `n` further turns — that
/// is, after `n` half-periods of elapsed time — the toggle count has grown
/// by exactly `n`, with no missed or duplicate toggles, and the line level
/// is the initial level exactly when `n` is even.
pub proof fn lemma_blink_toggle_count(t: BlinkTask, n: nat)
    requires
        t.started,
        t.toggles + n <= u64::MAX,
    ensures
        blink_run(t, n).started,
        blink_run(t, n).half_period_ms == t.half_period_ms,
        blink_run(t, n).toggles == t.toggles + n,
        blink_run(t, n).led.level == if n % 2 == 0 {
            t.led.level
        } else {
            flipped(t.led.level)
        },
    decreases n,
{
    if n > 0 {
        lemma_blink_toggle_count(t, (n - 1) as nat);
    }
}

} // verus!
