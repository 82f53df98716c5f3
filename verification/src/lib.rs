//! Lifecycle protocol for periodic pollers driven by an external
//! run-to-completion scheduler.
//!
//! The crate owns the registration/ownership protocol only: a handle holder
//! that releases its registration exactly once, and a registration entry
//! point that hands a caller-supplied context to the scheduler on success and
//! destroys it on failure. The scheduler itself is a collaborator, reached
//! through the [`sched::Scheduler`] interface.

pub mod handle;
pub mod mock;
pub mod registration;
pub mod sched;
