//! The external scheduler, seen as an injected collaborator.

use vstd::prelude::*;
use crate::handle::NULL_POLLER;

verus! {

/// Interface of the external run-to-completion event loop.
///
/// The loop itself is owned elsewhere; this unit only registers and
/// deregisters periodic pollers with it, always from the loop's own
/// execution context. Three pieces of its bookkeeping are modelled:
/// `registered`, its table of live registrations; `reg_log`, the
/// registration attempts it has received; and `dereg_log`, the handles it
/// has been asked to release — the two logs in call order.
pub trait Scheduler {
    /// Live registrations: handle to (poll callback token, interval).
    spec fn registered(&self) -> Map<u64, (u64, u64)>;

    /// Every registration attempt received so far, successful or not:
    /// (poll callback token, interval), in call order.
    spec fn reg_log(&self) -> Seq<(u64, u64)>;

    /// Every handle deregistered so far, in call order.
    spec fn dereg_log(&self) -> Seq<u64>;

    /// Bookkeeping invariant the scheduler maintains between calls.
    spec fn wf(&self) -> bool;

    /// One registration attempt: run `poll_fn` every `interval` scheduler
    /// units (a hint, passed through uninterpreted). Returns a fresh
    /// non-sentinel handle on success and `NULL_POLLER` on failure; which of
    /// the two happens is the scheduler's decision alone. Never deregisters
    /// anything.
    fn register(&mut self, poll_fn: u64, interval: u64) -> (h: u64)
        requires
            old(self).wf(),
        ensures
            final(self).wf(),
            final(self).reg_log() == old(self).reg_log().push((poll_fn, interval)),
            final(self).dereg_log() == old(self).dereg_log(),
            h != NULL_POLLER ==> (!old(self).registered().contains_key(h)
                && final(self).registered()
                    == old(self).registered().insert(h, (poll_fn, interval))),
            h == NULL_POLLER ==> final(self).registered() == old(self).registered(),
    ;

    /// Release the live registration `*h` and null the handle out through the
    /// mutable reference. Infallible; callable only once per live handle.
    fn deregister(&mut self, h: &mut u64)
        requires
            old(self).wf(),
            *old(h) != NULL_POLLER,
            old(self).registered().contains_key(*old(h)),
        ensures
            final(self).wf(),
            *final(h) == NULL_POLLER,
            final(self).registered() == old(self).registered().remove(*old(h)),
            final(self).reg_log() == old(self).reg_log(),
            final(self).dereg_log() == old(self).dereg_log().push(*old(h)),
    ;
}

} // verus!
