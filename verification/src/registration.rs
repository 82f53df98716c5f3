//! The registration entry point: one attempt against the external scheduler,
//! with ownership of the context transferred to whichever side ends up
//! owning it.

use vstd::prelude::*;
use crate::handle::NULL_POLLER;
use crate::handle::PollTask;
use crate::sched::Scheduler;

verus! {

broadcast use vstd::string::to_string_from_display_ensures_for_str;

/// Capability a registration context must offer: accept the opaque handle a
/// successful registration produced and store it — in the embedded
/// `PollTask` — for later deregistration.
pub trait SetPoller {
    /// The handle the context currently stores.
    spec fn inner_poller(&self) -> u64;

    /// Store `p` as the held handle.
    fn set_inner_poller(&mut self, p: u64)
        ensures
            final(self).inner_poller() == p,
    ;
}

/// The single failure this unit produces: the external scheduler answered a
/// registration attempt with the invalid sentinel. Carries a human-readable
/// description.
#[derive(Debug, PartialEq, Eq)]
pub enum Error {
    RegistrationFailed(String),
}

/// What a registration attempt returns for each possible scheduler answer:
/// the sentinel is the failure signal, anything else is the granted handle.
pub fn registration_outcome(h: u64) -> (r: Result<u64, Error>)
    ensures
        h == NULL_POLLER <==> r matches Err(_),
        r matches Ok(g) ==> g == h,
        r matches Err(e) ==> (e matches Error::RegistrationFailed(m)
            && m@ == "failed to create poller"@),
{
    if h == NULL_POLLER {
        Err(Error::RegistrationFailed("failed to create poller".to_string()))
    } else {
        Ok(h)
    }
}

/// One registration attempt of `poll_fn`, to be run by `sched` every
/// `interval` scheduler units with `ctx` as its argument.
///
/// On success the context — its holder now carrying the fresh handle the
/// scheduler granted — is handed onward to whichever entity parks it for the
/// scheduler's lifetime; the caller must keep it alive until its release
/// pass runs. On failure the context is destroyed here, the caller never
/// sees a handle, and the scheduler's table is left exactly as it was.
///
/// Either way the scheduler receives exactly one registration attempt,
/// carrying `poll_fn` and `interval` verbatim — failure is not retried —
/// and nothing is ever deregistered by a registration attempt.
///
/// The context must not already hold a live handle: registering twice into
/// the same context is a caller error.
pub fn register_poller<T: SetPoller, S: Scheduler>(
    sched: &mut S,
    poll_fn: u64,
    ctx: Box<T>,
    interval: u64,
) -> (r: Result<Box<T>, Error>)
    requires
        old(sched).wf(),
        ctx.inner_poller() == NULL_POLLER,
    ensures
        final(sched).wf(),
        final(sched).reg_log() == old(sched).reg_log().push((poll_fn, interval)),
        final(sched).dereg_log() == old(sched).dereg_log(),
        match r {
            Ok(c) => {
                &&& c.inner_poller() != NULL_POLLER
                &&& !old(sched).registered().contains_key(c.inner_poller())
                &&& final(sched).registered() == old(sched).registered().insert(
                    c.inner_poller(),
                    (poll_fn, interval),
                )
            },
            Err(e) => {
                &&& final(sched).registered() == old(sched).registered()
                &&& (e matches Error::RegistrationFailed(m) && m@ == "failed to create poller"@)
            },
        },
{
    let answer = sched.register(poll_fn, interval);

    match registration_outcome(answer) {
        Err(e) => {
            // The context goes out of scope here: destroyed, no leak, and
            // the caller never sees the handle slot.
            Err(e)
        },
        Ok(handle) => {
            let mut ctx = ctx;
            ctx.set_inner_poller(handle);
            Ok(ctx)
        },
    }
}

/// Round trip: a successful registration puts a fresh handle into the
/// scheduler's table, and the release pass of the holder carrying that
/// handle returns the table to its prior state and logs the handle exactly
/// once.
pub proof fn lemma_register_then_release(
    h: u64,
    entry: (u64, u64),
    table: Map<u64, (u64, u64)>,
    log: Seq<u64>,
)
    requires
        h != NULL_POLLER,
        !table.contains_key(h),
    ensures
        (PollTask { poller: h }).released_table(table.insert(h, entry)) == table,
        (PollTask { poller: h }).released_log(log) == log.push(h),
{
    assert(table.insert(h, entry).remove(h) =~= table);
}

} // verus!
