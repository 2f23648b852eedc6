//! The watchdog: a bounded wait for the interface's acknowledgment.
//!
//! The watchdog looks at the shutdown state at a fixed interval. It stops as
//! soon as it sees the acknowledgment, and asks for the process to be ended
//! once it has waited through its whole budget without seeing one. It only
//! decides: the caller sleeps and ends the process.

use vstd::prelude::*;
use crate::shutdown_state::ShutdownState;

verus! {

/// Milliseconds between two looks at the acknowledgment flag.
pub const POLL_INTERVAL_MS: u64 = 200;

/// Number of looks after which the watchdog gives up waiting.
pub const MAX_POLLS: u32 = 40;

/// Milliseconds after which an unanswered shutdown is forced.
pub const DEADLINE_MS: u64 = 8000;

/// Exit code of the process, on the acknowledged and on the forced path.
pub const EXIT_CODE: i32 = 0;

/// What the caller of the watchdog is to do next.
#[derive(Clone, Copy, Debug, PartialEq, Eq, Structural)]
pub enum WatchdogAction {
    /// The acknowledgment has been seen: stop polling and leave the process
    /// to whoever received the acknowledgment.
    Stop,
    /// No acknowledgment yet: sleep for `millis` milliseconds, then tick again.
    Sleep { millis: u64 },
    /// The budget is spent: end the process with exit code `code`.
    ForceExit { code: i32 },
}

/// What a watchdog that has slept `polls` times does when the acknowledgment
/// flag reads `acked`. At the end of its budget it no longer looks at the flag.
pub open spec fn next_action(polls: nat, acked: bool) -> WatchdogAction {
    if polls >= MAX_POLLS {
        WatchdogAction::ForceExit { code: EXIT_CODE }
    } else if acked {
        WatchdogAction::Stop
    } else {
        WatchdogAction::Sleep { millis: POLL_INTERVAL_MS }
    }
}

/// The number of sleeps a watchdog has asked for after one more tick.
pub open spec fn polls_after(polls: nat, acked: bool) -> nat {
    if next_action(polls, acked) is Sleep {
        polls + 1
    } else {
        polls
    }
}

/// The number of sleeps a new watchdog has asked for after a run of ticks,
/// where `seen[i]` is what the acknowledgment flag read at tick `i`.
pub open spec fn polls_after_all(seen: Seq<bool>) -> nat
    decreases seen.len(),
{
    if seen.len() == 0 {
        0
    } else {
        polls_after(polls_after_all(seen.drop_last()), seen.last())
    }
}

/// What a new watchdog answers at tick `i` of a run of ticks.
pub open spec fn action_at(seen: Seq<bool>, i: int) -> WatchdogAction {
    next_action(polls_after_all(seen.take(i)), seen[i])
}

/// The watchdog of one shutdown sequence.
pub struct Watchdog {
    polls: u32,
}

impl Watchdog {
    #[verifier::type_invariant]
    spec fn within_budget(self) -> bool {
        self.polls <= MAX_POLLS
    }

    /// The number of sleeps this watchdog has asked for.
    pub closed spec fn polls(self) -> nat {
        self.polls as nat
    }

    /// The time this watchdog has asked its caller to sleep, in milliseconds.
    pub open spec fn slept_ms(self) -> nat {
        self.polls() * POLL_INTERVAL_MS as nat
    }

    /// A watchdog that has not waited yet.
    pub fn new() -> (watchdog: Self)
        ensures
            watchdog.polls() == 0,
    {
        Watchdog { polls: 0 }
    }

    /// The number of sleeps asked for so far; never more than the budget.
    pub fn polls_done(&self) -> (polls: u32)
        ensures
            polls == self.polls(),
            polls <= MAX_POLLS,
    {
        proof {
            use_type_invariant(self);
        }
        self.polls
    }

    /// The time slept so far, in milliseconds; never more than the deadline.
    pub fn elapsed_ms(&self) -> (millis: u64)
        ensures
            millis == self.slept_ms(),
            millis <= DEADLINE_MS,
    {
        proof {
            use_type_invariant(self);
        }
        let polls: u64 = self.polls as u64;
        polls * POLL_INTERVAL_MS
    }

    /// One step of the watchdog: looks at the acknowledgment flag of `state`
    /// and says what to do next. Asking for a sleep uses up one poll of the
    /// budget; the other two answers leave the watchdog as it was.
    pub fn tick(&mut self, state: &ShutdownState) -> (action: WatchdogAction)
        ensures
            action == next_action(old(self).polls(), state@.acked),
            final(self).polls() == polls_after(old(self).polls(), state@.acked),
    {
        if self.polls >= MAX_POLLS {
            WatchdogAction::ForceExit { code: EXIT_CODE }
        } else if state.is_acked() {
            WatchdogAction::Stop
        } else {
            self.polls = self.polls + 1;
            WatchdogAction::Sleep { millis: POLL_INTERVAL_MS }
        }
    }
}

/// The wait is bounded: whatever the acknowledgment flag reads at each tick,
/// a watchdog never asks for more sleeps than its budget, so never for more
/// sleep than the deadline.
pub proof fn lemma_wait_is_bounded(seen: Seq<bool>)
    ensures
        polls_after_all(seen) <= MAX_POLLS,
        polls_after_all(seen) * POLL_INTERVAL_MS <= DEADLINE_MS,
    decreases seen.len(),
{
    if seen.len() > 0 {
        lemma_wait_is_bounded(seen.drop_last());
    }
}

/// What a watchdog that never sees the acknowledgment answers at tick `i`:
/// a sleep of the poll interval while its budget lasts, then the forced exit.
pub open spec fn unanswered_action(i: int) -> WatchdogAction {
    if i < MAX_POLLS {
        WatchdogAction::Sleep { millis: POLL_INTERVAL_MS }
    } else {
        WatchdogAction::ForceExit { code: EXIT_CODE }
    }
}

/// An unanswered shutdown is forced at the deadline, not before and not
/// after. While the acknowledgment flag reads `false` at every tick, the
/// watchdog asks for one sleep of the poll interval at each of the first
/// `MAX_POLLS` ticks, which add up to the deadline, and for the end of the
/// process at every later tick.
pub proof fn lemma_unanswered_is_forced_at_deadline(seen: Seq<bool>)
    requires
        forall|i: int| 0 <= i < seen.len() ==> !seen[i],
    ensures
        polls_after_all(seen) == if seen.len() <= MAX_POLLS { seen.len() } else { MAX_POLLS as nat },
        forall|i: int| 0 <= i < seen.len() ==> #[trigger] action_at(seen, i) == unanswered_action(i),
        MAX_POLLS * POLL_INTERVAL_MS == DEADLINE_MS,
    decreases seen.len(),
{
    if seen.len() > 0 {
        let earlier = seen.drop_last();
        lemma_unanswered_is_forced_at_deadline(earlier);
        assert forall|i: int| 0 <= i < seen.len() implies #[trigger] action_at(seen, i)
            == unanswered_action(i) by {
            if i < seen.len() - 1 {
                assert(seen.take(i) =~= earlier.take(i));
                assert(action_at(earlier, i) == action_at(seen, i));
            } else {
                assert(seen.take(i) =~= earlier);
            }
        }
    }
}

/// A watchdog that sees the acknowledgment before its budget is spent stops
/// without asking for the end of the process.
pub proof fn lemma_acknowledged_watchdog_stops(seen: Seq<bool>, i: int)
    requires
        0 <= i < seen.len(),
        i < MAX_POLLS,
        seen[i],
    ensures
        action_at(seen, i) == WatchdogAction::Stop,
{
    lemma_polls_at_most_ticks(seen.take(i));
}

/// A watchdog has asked for at most one sleep per tick.
pub proof fn lemma_polls_at_most_ticks(seen: Seq<bool>)
    ensures
        polls_after_all(seen) <= seen.len(),
    decreases seen.len(),
{
    if seen.len() > 0 {
        lemma_polls_at_most_ticks(seen.drop_last());
    }
}

} // verus!
