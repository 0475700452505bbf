//! The settlement scheduler's state: an endless alternation of waiting and
//! running one pass.
//!
//! The scheduler wakes on a fixed wall-clock interval, runs one settlement
//! pass, and goes back to waiting — whether the pass succeeded or failed. A
//! failed pass is counted and the next tick retries from scratch; there is no
//! terminal state, so no failure ever stops the loop.

use vstd::prelude::*;

verus! {

/// What the scheduler is doing.
#[derive(Clone, Copy, Debug, PartialEq, Eq, Structural)]
pub enum SchedulerPhase {
    /// Waiting for the next tick.
    Idle,
    /// Running one settlement pass.
    Processing,
}

/// The scheduler's state: its phase and how many passes ran and failed.
#[derive(Clone, Copy, Debug, PartialEq, Eq, Structural)]
pub struct Scheduler {
    pub phase: SchedulerPhase,
    pub passes_run: u64,
    pub passes_failed: u64,
}

impl Scheduler {
    /// A scheduler that has not ticked yet.
    pub fn new() -> (s: Scheduler)
        ensures
            s.phase is Idle,
            s.passes_run == 0,
            s.passes_failed == 0,
    {
        Scheduler { phase: SchedulerPhase::Idle, passes_run: 0, passes_failed: 0 }
    }

    /// A tick fired: start one pass.
    pub fn begin_pass(&mut self)
        requires
            old(self).phase is Idle,
            old(self).passes_run < u64::MAX,
        ensures
            final(self).phase is Processing,
            final(self).passes_run == old(self).passes_run + 1,
            final(self).passes_failed == old(self).passes_failed,
    {
        self.phase = SchedulerPhase::Processing;
        self.passes_run = self.passes_run + 1;
    }

    /// The pass ended. The scheduler goes back to waiting unconditionally: a
    /// failed pass is logged and counted, never fatal to the loop.
    pub fn finish_pass(&mut self, failed: bool)
        requires
            old(self).phase is Processing,
            old(self).passes_failed < u64::MAX,
        ensures
            final(self).phase is Idle,
            final(self).passes_run == old(self).passes_run,
            final(self).passes_failed == old(self).passes_failed + (if failed { 1int } else { 0int }),
    {
        self.phase = SchedulerPhase::Idle;
        if failed {
            self.passes_failed = self.passes_failed + 1;
        }
    }
}

} // verus!
