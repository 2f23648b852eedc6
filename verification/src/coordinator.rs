//! The shutdown coordinator: what a trigger and an acknowledgment lead to.
//!
//! A trigger (a "quit" menu item, a request to close the window) either starts
//! the shutdown sequence or is absorbed because one is already running. The
//! coordinator decides; its caller emits the event, registers the listener,
//! runs the watchdog and ends the process.

use vstd::prelude::*;
use crate::shutdown_state::ShutdownState;
use crate::watchdog::{Watchdog, EXIT_CODE};

verus! {

/// Name of the event that asks the interface to clean up.
pub const REQUEST_QUIT_EVENT: &'static str = "app:request-quit";

/// Name of the event by which the interface reports that its cleanup is done.
pub const SHUTDOWN_COMPLETE_EVENT: &'static str = "app:shutdown-complete";

/// What the caller is to do for a trigger that started the shutdown sequence.
pub struct ShutdownPlan {
    /// Event to emit to the interface, without payload and without waiting.
    pub notify: &'static str,
    /// Event to subscribe to, for one delivery only.
    pub listen_once: &'static str,
    /// Watchdog to run beside the subscription, in a context of its own.
    pub watchdog: Watchdog,
}

/// Handles one shutdown trigger.
///
/// The first trigger on a state starts the sequence and returns the plan for
/// it. Every later trigger is absorbed: nothing is returned, so no second
/// listener and no second watchdog come to be.
pub fn initiate_shutdown(state: &mut ShutdownState) -> (plan: Option<ShutdownPlan>)
    ensures
        final(state)@ == old(state)@.begin(),
        plan.is_some() == old(state)@.accepts(),
        plan matches Some(p) ==> {
            &&& p.notify@ == REQUEST_QUIT_EVENT@
            &&& p.listen_once@ == SHUTDOWN_COMPLETE_EVENT@
            &&& p.watchdog.polls() == 0
        },
{
    if !state.try_begin_shutdown() {
        return None;
    }
    Some(
        ShutdownPlan {
            notify: REQUEST_QUIT_EVENT,
            listen_once: SHUTDOWN_COMPLETE_EVENT,
            watchdog: Watchdog::new(),
        },
    )
}

/// Handles the interface's report that its cleanup is done: records the
/// acknowledgment and returns the exit code with which the caller is to end
/// the process, whatever the state held before.
pub fn on_shutdown_complete(state: &mut ShutdownState) -> (code: i32)
    ensures
        final(state)@ == old(state)@.ack(),
        code == EXIT_CODE,
{
    state.mark_acked();
    EXIT_CODE
}

} // verus!
