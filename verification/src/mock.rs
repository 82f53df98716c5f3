//! An in-process stand-in for the external scheduler, plus a minimal
//! registration context. Both are verified against the same interfaces the
//! real collaborator is reached through, and both expose plain state so a
//! test harness can script outcomes and observe every call.

use vstd::prelude::*;
use crate::handle::NULL_POLLER;
use crate::handle::PollTask;
use crate::registration::SetPoller;
use crate::sched::Scheduler;

verus! {

/// A scriptable scheduler: it grants `next_handle` to the next registration
/// attempt — or fails every attempt while `next_handle` is the sentinel —
/// and records each call it receives.
pub struct MockScheduler {
    /// Handle granted to the next successful attempt, then advanced by one.
    /// The sentinel makes every attempt fail.
    pub next_handle: u64,
    /// Every registration attempt received: (poll callback token, interval).
    pub reg_calls: Vec<(u64, u64)>,
    /// Every handle passed to `deregister`, in call order.
    pub dereg_calls: Vec<u64>,
    /// Model of the registration table.
    pub table: Ghost<Map<u64, (u64, u64)>>,
}

impl MockScheduler {
    /// A mock with an empty table that will grant `first_handle` first.
    /// Passing the sentinel makes every registration attempt fail.
    pub fn new(first_handle: u64) -> (s: MockScheduler)
        ensures
            s.wf(),
            s.next_handle == first_handle,
            s.registered() == Map::<u64, (u64, u64)>::empty(),
            s.reg_log() == Seq::<(u64, u64)>::empty(),
            s.dereg_log() == Seq::<u64>::empty(),
    {
        MockScheduler {
            next_handle: first_handle,
            reg_calls: Vec::new(),
            dereg_calls: Vec::new(),
            table: Ghost(Map::empty()),
        }
    }
}

impl Scheduler for MockScheduler {
    open spec fn registered(&self) -> Map<u64, (u64, u64)> {
        self.table@
    }

    open spec fn reg_log(&self) -> Seq<(u64, u64)> {
        self.reg_calls@
    }

    open spec fn dereg_log(&self) -> Seq<u64> {
        self.dereg_calls@
    }

    /// Handles are granted in increasing order, so everything in the table
    /// lies below the next grant — which is therefore fresh.
    open spec fn wf(&self) -> bool {
        self.next_handle == NULL_POLLER || (forall|k: u64|
            #[trigger] self.table@.contains_key(k) ==> k < self.next_handle)
    }

    // Beyond the Scheduler contract, the mock answers exactly as scripted:
    // it fails when and only when `next_handle` is the sentinel, and what it
    // grants is `next_handle` itself.
    fn register(&mut self, poll_fn: u64, interval: u64) -> (h: u64)
        ensures
            h == NULL_POLLER <==> old(self).next_handle == NULL_POLLER,
            h != NULL_POLLER ==> h == old(self).next_handle,
    {
        self.reg_calls.push((poll_fn, interval));
        if self.next_handle == NULL_POLLER {
            return NULL_POLLER;
        }
        let h = self.next_handle;
        // Once the handle space is exhausted, further attempts fail.
        self.next_handle = if h == u64::MAX {
            NULL_POLLER
        } else {
            h + 1
        };
        self.table = Ghost(self.table@.insert(h, (poll_fn, interval)));
        h
    }

    fn deregister(&mut self, h: &mut u64) {
        self.dereg_calls.push(*h);
        self.table = Ghost(self.table@.remove(*h));
        *h = NULL_POLLER;
    }
}

/// The smallest context a caller can register: nothing but the embedded
/// handle holder required by the capability.
pub struct PollContext {
    /// The embedded handle holder.
    pub task: PollTask,
}

impl PollContext {
    /// A context whose holder is empty, ready for registration.
    pub fn new() -> (c: PollContext)
        ensures
            c.task.is_empty(),
            c.inner_poller() == NULL_POLLER,
    {
        PollContext { task: PollTask::default() }
    }
}

impl SetPoller for PollContext {
    open spec fn inner_poller(&self) -> u64 {
        self.task.poller
    }

    fn set_inner_poller(&mut self, p: u64) {
        self.task.poller = p;
    }
}

} // verus!
