//! The handle holder: exclusive owner of at most one registration handle.

use vstd::prelude::*;
use crate::sched::Scheduler;

verus! {

/// The sentinel handle: "no registration". It doubles as the external
/// scheduler's failure signal.
pub const NULL_POLLER: u64 = 0;

/// Owns zero or one live registration handles and guarantees their release.
///
/// The handle is opaque: a resource token recognized only by the external
/// scheduler, never inspected here beyond comparison with the sentinel.
#[derive(Debug)]
pub struct PollTask {
    /// Handle of the live registration, or `NULL_POLLER` when none is held.
    pub poller: u64,
}

impl PollTask {
    /// Holds no registration.
    pub open spec fn is_empty(self) -> bool {
        self.poller == NULL_POLLER
    }

    /// The scheduler's registration table after this holder's release pass:
    /// unchanged for an empty holder, the held handle removed otherwise.
    pub open spec fn released_table(self, table: Map<u64, (u64, u64)>) -> Map<u64, (u64, u64)> {
        if self.is_empty() {
            table
        } else {
            table.remove(self.poller)
        }
    }

    /// The scheduler's deregistration log after this holder's release pass:
    /// unchanged for an empty holder, the held handle appended otherwise.
    pub open spec fn released_log(self, log: Seq<u64>) -> Seq<u64> {
        if self.is_empty() {
            log
        } else {
            log.push(self.poller)
        }
    }

    /// The release path, run by the holder's owner on destruction and safe to
    /// run defensively before that: if a handle is held, ask the scheduler to
    /// deregister it, then reset to the sentinel; a no-op on an empty holder.
    ///
    /// The caller owes the scheduler-side half of the holder's invariant: a
    /// non-sentinel handle is a live registration of `sched`.
    pub fn deregister_and_clear<S: Scheduler>(&mut self, sched: &mut S)
        requires
            old(sched).wf(),
            !old(self).is_empty() ==> old(sched).registered().contains_key(old(self).poller),
        ensures
            final(sched).wf(),
            final(self).is_empty(),
            final(sched).registered() == old(self).released_table(old(sched).registered()),
            final(sched).dereg_log() == old(self).released_log(old(sched).dereg_log()),
            final(sched).reg_log() == old(sched).reg_log(),
    {
        if self.poller != NULL_POLLER {
            sched.deregister(&mut self.poller);
        }
    }
}

/// An empty holder's release pass touches the scheduler in no way: neither
/// its registration table nor its deregistration log moves. In particular a
/// freshly default-constructed holder, which carries the sentinel, performs
/// no scheduler call on destruction.
pub proof fn lemma_empty_release_noop(h: PollTask, table: Map<u64, (u64, u64)>, log: Seq<u64>)
    requires
        h.is_empty(),
    ensures
        h.released_table(table) == table,
        h.released_log(log) == log,
{
}

/// Deregistration is idempotent: one release pass leaves the holder at the
/// sentinel (see `deregister_and_clear`), and the pass of any holder at the
/// sentinel — `cleared` here — changes neither the registration table nor the
/// deregistration log, whatever the first pass did. No handle is released
/// twice.
pub proof fn lemma_release_idempotent(
    h: PollTask,
    cleared: PollTask,
    table: Map<u64, (u64, u64)>,
    log: Seq<u64>,
)
    requires
        cleared.is_empty(),
    ensures
        cleared.released_table(h.released_table(table)) == h.released_table(table),
        cleared.released_log(h.released_log(log)) == h.released_log(log),
{
}

impl Default for PollTask {
    /// A fresh holder carries the sentinel.
    fn default() -> (t: Self)
        ensures
            t.is_empty(),
    {
        PollTask { poller: NULL_POLLER }
    }
}

} // verus!
