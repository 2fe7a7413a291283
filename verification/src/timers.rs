//! Recurring jobs, think "cron": callbacks scheduled to run every so
//! often. The runtime that drives them lives outside this crate; here is
//! the schedule itself.

use vstd::prelude::*;

verus! {

/// Callback invoked by a timer. Implemented by the application; the
/// schedule only records and orders the invocations.
pub trait TimerCallback {
    /// Invokes this callback.
    fn call(&mut self);
}

/// The setup struct of the timers module. There is nothing to set up.
#[derive(Debug, Default)]
pub struct TimersSetup {}

/// The timers module's state before other modules ran. There is none.
pub struct TimersPreInit {}

/// One scheduled job: a callback key and the seconds between runs.
pub struct TimerEntry {
    /// The callback's registry key.
    pub callback: u64,
    /// Seconds between two runs; never zero.
    pub every: u64,
    /// When the next run is due, in seconds.
    pub due_at: i64,
}

/// The schedule of recurring jobs.
pub struct TimersState {
    /// The scheduled jobs, in registration order.
    pub entries: Vec<TimerEntry>,
}

impl TimersState {
    /// An empty schedule.
    pub fn new() -> (state: TimersState)
        ensures
            state.entries@.len() == 0,
    {
        TimersState { entries: Vec::new() }
    }

    /// Schedules a callback to run every `every` seconds, first at
    /// `now + every`.
    pub fn schedule_every(&mut self, callback: u64, every: u64, now: i64)
        requires
            every >= 1,
            now >= 0,
            now + every <= i64::MAX,
        ensures
            final(self).entries@.len() == old(self).entries@.len() + 1,
            final(self).entries@.subrange(0, old(self).entries@.len() as int) == old(
                self,
            ).entries@,
            final(self).entries@.last().callback == callback,
            final(self).entries@.last().every == every,
            final(self).entries@.last().due_at == now + every,
    {
        let ghost before = self.entries@;
        self.entries.push(
            TimerEntry { callback: callback, every: every, due_at: now + (every as i64) },
        );
        proof {
            assert(self.entries@.subrange(0, before.len() as int) =~= before);
        }
    }

    /// When the next job is due: the smallest due time over the
    /// schedule, or nothing for an empty schedule.
    pub fn next_time(&self) -> (r: Option<i64>)
        ensures
            r is Some <==> self.entries@.len() > 0,
            r matches Some(due) ==> (exists|i: int|
                0 <= i < self.entries@.len() && self.entries@[i].due_at == due) && (forall|i: int|
                0 <= i < self.entries@.len() ==> #[trigger] self.entries@[i].due_at >= due),
    {
        let n = self.entries.len();
        if n == 0 {
            return None;
        }
        let mut best: i64 = self.entries[0].due_at;
        let mut i: usize = 1;
        while i < n
            invariant
                n == self.entries@.len(),
                1 <= i <= n,
                exists|j: int| 0 <= j < i && self.entries@[j].due_at == best,
                forall|j: int| 0 <= j < i ==> #[trigger] self.entries@[j].due_at >= best,
            decreases n - i,
        {
            if self.entries[i].due_at < best {
                best = self.entries[i].due_at;
            }
            i = i + 1;
        }
        Some(best)
    }
}

} // verus!
