//! The task-progress primitive: elapsed versus required time for
//! time-gated tasks such as building and harvesting.

use vstd::prelude::*;

verus! {

/// Elapsed versus required duration of a time-gated task, in milliseconds.
/// The elapsed time accumulates every tick the owning state stays active
/// and is never reset except by entering the owning state fresh.
#[derive(Clone, Copy, Debug, PartialEq, Eq, Structural)]
pub struct TaskProgress {
    pub time_needed: u64,
    pub time_elapsed: u64,
}

impl TaskProgress {
    /// The task has accumulated at least the required duration.
    pub open spec fn spec_complete(self) -> bool {
        self.time_elapsed >= self.time_needed
    }

    /// Fresh progress toward a task of the given duration.
    pub fn new(time_needed: u64) -> (r: TaskProgress)
        ensures
            r == (TaskProgress { time_needed, time_elapsed: 0 }),
    {
        TaskProgress { time_needed, time_elapsed: 0 }
    }

    /// The same task after `dt_ms` more milliseconds of work.
    pub fn advanced(self, dt_ms: u64) -> (r: TaskProgress)
        requires
            self.time_elapsed + dt_ms <= u64::MAX,
        ensures
            r.time_needed == self.time_needed,
            r.time_elapsed == self.time_elapsed + dt_ms,
    {
        TaskProgress { time_needed: self.time_needed, time_elapsed: self.time_elapsed + dt_ms }
    }

    /// Whether the required duration has been reached.
    pub fn is_complete(&self) -> (r: bool)
        ensures
            r == self.spec_complete(),
    {
        self.time_elapsed >= self.time_needed
    }
}

} // verus!
