//! Graceful-shutdown coordination for a desktop application.
//!
//! A backend process that is asked to quit first tells its user interface to
//! clean up, then waits for the interface to acknowledge, and exits anyway
//! when the acknowledgment does not arrive in time. This crate holds the
//! decisions of that protocol; emitting events, sleeping and ending the
//! process are left to the caller.

pub mod coordinator;
pub mod history;
pub mod shutdown_state;
pub mod watchdog;
