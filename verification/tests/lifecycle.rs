use poller::handle::PollTask;
use poller::mock::MockScheduler;
use poller::mock::PollContext;
use poller::registration::register_poller;
use poller::registration::registration_outcome;
use poller::registration::Error;
use poller::registration::SetPoller;

#[test]
fn default_holder_is_empty() {
    let t = PollTask::default();
    assert_eq!(t.poller, 0);
}

#[test]
fn empty_holder_release_performs_no_scheduler_call() {
    let mut sched = MockScheduler::new(9);
    let mut t = PollTask::default();
    t.deregister_and_clear(&mut sched);
    assert!(sched.dereg_calls.is_empty());
    assert_eq!(t.poller, 0);
}

#[test]
fn capability_stores_the_handle() {
    let mut c = PollContext::new();
    assert_eq!(c.task.poller, 0);
    c.set_inner_poller(42);
    assert_eq!(c.task.poller, 42);
}

#[test]
fn sentinel_answer_is_the_failure_signal() {
    match registration_outcome(0) {
        Err(Error::RegistrationFailed(m)) => assert_eq!(m, "failed to create poller"),
        Ok(_) => panic!("the sentinel must be rejected"),
    }
    assert_eq!(registration_outcome(9), Ok(9));
}

#[test]
fn successful_registration_round_trip() {
    let mut sched = MockScheduler::new(7);
    let ctx = Box::new(PollContext::new());
    let r = register_poller(&mut sched, 5, ctx, 1000);
    let mut c = r.expect("registration should succeed");
    assert_eq!(c.task.poller, 7);
    assert_eq!(sched.reg_calls, vec![(5, 1000)]);
    assert!(sched.dereg_calls.is_empty());
    c.task.deregister_and_clear(&mut sched);
    assert_eq!(sched.dereg_calls, vec![7]);
    assert_eq!(c.task.poller, 0);
}

#[test]
fn failed_registration_reports_and_deregisters_nothing() {
    let mut sched = MockScheduler::new(0);
    let ctx = Box::new(PollContext::new());
    let r = register_poller(&mut sched, 5, ctx, 1000);
    match r {
        Err(Error::RegistrationFailed(m)) => assert_eq!(m, "failed to create poller"),
        Ok(_) => panic!("registration should fail"),
    }
    assert_eq!(sched.reg_calls, vec![(5, 1000)]);
    assert!(sched.dereg_calls.is_empty());
}

#[test]
fn deregistration_is_idempotent() {
    let mut sched = MockScheduler::new(3);
    let ctx = Box::new(PollContext::new());
    let mut c = register_poller(&mut sched, 1, ctx, 50).expect("registration should succeed");
    c.task.deregister_and_clear(&mut sched);
    assert_eq!(sched.dereg_calls, vec![3]);
    assert_eq!(c.task.poller, 0);
    c.task.deregister_and_clear(&mut sched);
    assert_eq!(sched.dereg_calls, vec![3]);
    assert_eq!(c.task.poller, 0);
}

#[test]
fn successive_registrations_get_distinct_handles() {
    let mut sched = MockScheduler::new(10);
    let a = register_poller(&mut sched, 1, Box::new(PollContext::new()), 100)
        .expect("first registration should succeed");
    let b = register_poller(&mut sched, 2, Box::new(PollContext::new()), 200)
        .expect("second registration should succeed");
    assert_eq!(a.task.poller, 10);
    assert_eq!(b.task.poller, 11);
    assert_eq!(sched.reg_calls, vec![(1, 100), (2, 200)]);
}

#[test]
fn handle_space_exhaustion_turns_into_failure() {
    let mut sched = MockScheduler::new(u64::MAX);
    let a = register_poller(&mut sched, 1, Box::new(PollContext::new()), 10)
        .expect("the last handle can still be granted");
    assert_eq!(a.task.poller, u64::MAX);
    let b = register_poller(&mut sched, 2, Box::new(PollContext::new()), 10);
    assert!(b.is_err());
}
