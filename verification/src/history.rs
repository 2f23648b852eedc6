//! Histories of calls on one shutdown state, and what holds of every history.
//!
//! Calls that contexts make concurrently on a shared state take effect one at
//! a time, in some order. A history is such an order; the statements below
//! hold of each of them, so they hold however the calls interleave.

use vstd::prelude::*;
use crate::shutdown_state::Flags;

verus! {

/// One call on a shutdown state.
pub enum Call {
    /// `try_begin_shutdown`
    TryBegin,
    /// `mark_acked`
    MarkAcked,
    /// `is_acked`
    IsAcked,
}

impl Flags {
    /// The flags after one call.
    pub open spec fn after(self, call: Call) -> Flags {
        match call {
            Call::TryBegin => self.begin(),
            Call::MarkAcked => self.ack(),
            Call::IsAcked => self,
        }
    }

    /// The flags after a history of calls, made in the order of the sequence.
    pub open spec fn after_all(self, calls: Seq<Call>) -> Flags
        decreases calls.len(),
    {
        if calls.len() == 0 {
            self
        } else {
            self.after_all(calls.drop_last()).after(calls.last())
        }
    }
}

/// Whether the history holds an attempt to begin shutdown.
pub open spec fn has_try_begin(calls: Seq<Call>) -> bool {
    exists|j: int| 0 <= j < calls.len() && #[trigger] calls[j] == Call::TryBegin
}

/// Whether call `i` of the history is an attempt to begin shutdown that
/// returns `true`, when the history starts from the flags `start`.
pub open spec fn begins(start: Flags, calls: Seq<Call>, i: int) -> bool {
    &&& 0 <= i < calls.len()
    &&& calls[i] == Call::TryBegin
    &&& start.after_all(calls.take(i)).accepts()
}

/// Whether `is_acked` would return `true` before call `i` of the history
/// (after the whole history, for `i == calls.len()`).
pub open spec fn acked_at(start: Flags, calls: Seq<Call>, i: int) -> bool {
    start.after_all(calls.take(i)).acked
}

/// A sequence has been started after a history exactly if it had been
/// started before, or the history holds an attempt to begin.
pub proof fn lemma_started_after(start: Flags, calls: Seq<Call>)
    ensures
        start.after_all(calls).started == (start.started || has_try_begin(calls)),
    decreases calls.len(),
{
    if calls.len() > 0 {
        let earlier = calls.drop_last();
        lemma_started_after(start, earlier);
        if has_try_begin(earlier) {
            let j = choose|j: int| 0 <= j < earlier.len() && #[trigger] earlier[j] == Call::TryBegin;
            assert(calls[j] == Call::TryBegin);
        }
        if has_try_begin(calls) && calls.last() != Call::TryBegin {
            let j = choose|j: int| 0 <= j < calls.len() && #[trigger] calls[j] == Call::TryBegin;
            assert(earlier[j] == Call::TryBegin);
        }
        if calls.last() == Call::TryBegin {
            assert(calls[calls.len() - 1] == Call::TryBegin);
        }
    }
}

/// The index of the earliest attempt to begin shutdown in a history that
/// holds one.
pub proof fn lemma_earliest_try_begin(calls: Seq<Call>) -> (k: int)
    requires
        has_try_begin(calls),
    ensures
        0 <= k < calls.len(),
        calls[k] == Call::TryBegin,
        !has_try_begin(calls.take(k)),
    decreases calls.len(),
{
    let earlier = calls.drop_last();
    if has_try_begin(earlier) {
        let k = lemma_earliest_try_begin(earlier);
        assert(earlier.take(k) =~= calls.take(k));
        k
    } else {
        let j = choose|j: int| 0 <= j < calls.len() && #[trigger] calls[j] == Call::TryBegin;
        if j < calls.len() - 1 {
            assert(earlier[j] == Call::TryBegin);
        }
        assert(calls.take(calls.len() - 1) =~= earlier);
        calls.len() - 1
    }
}

/// Exactly one attempt begins the shutdown sequence.
///
/// Take a state on which no sequence has been started, and any history of
/// calls on it that holds at least one `try_begin_shutdown`. Then exactly one
/// of these attempts returns `true`, the earliest, and every other one
/// returns `false`. The index of the one that returns `true` is the result.
pub proof fn lemma_exactly_one_begins(start: Flags, calls: Seq<Call>) -> (winner: int)
    requires
        !start.started,
        has_try_begin(calls),
    ensures
        0 <= winner < calls.len(),
        forall|i: int| begins(start, calls, i) <==> i == winner,
{
    let winner = lemma_earliest_try_begin(calls);
    lemma_started_after(start, calls.take(winner));
    assert forall|i: int| begins(start, calls, i) implies i == winner by {
        lemma_started_after(start, calls.take(i));
        if i > winner {
            assert(calls.take(i)[winner] == Call::TryBegin);
        }
        if i < winner {
            assert(calls.take(winner)[i] == Call::TryBegin);
        }
    }
    winner
}

/// A history of `n` attempts to begin shutdown and nothing else.
pub open spec fn attempts(n: nat) -> Seq<Call> {
    Seq::new(n, |j: int| Call::TryBegin)
}

/// Of `n` attempts to begin shutdown on a fresh state, the first returns
/// `true` and the other `n - 1` return `false`.
pub proof fn lemma_only_first_of_n_begins(n: nat)
    requires
        n >= 1,
    ensures
        forall|i: int| #[trigger] begins(Flags::fresh(), attempts(n), i) <==> i == 0,
{
    let calls = attempts(n);
    assert(calls[0] == Call::TryBegin);
    lemma_exactly_one_begins(Flags::fresh(), calls);
    assert(calls.take(0) =~= Seq::<Call>::empty());
    assert(begins(Flags::fresh(), calls, 0));
}

/// An acknowledgment is kept.
///
/// Take a state whose acknowledgment has been recorded, and any history of
/// calls on it. If the shutdown sequence had been started when the history
/// begins, or the history holds no attempt to begin, then `is_acked` returns
/// `true` at every point of the history. (An acknowledgment recorded before
/// the sequence was started is discarded by the attempt that starts it.)
pub proof fn lemma_ack_is_kept(start: Flags, calls: Seq<Call>)
    requires
        start.acked,
        start.started || !has_try_begin(calls),
    ensures
        forall|i: int| 0 <= i <= calls.len() ==> acked_at(start, calls, i),
    decreases calls.len(),
{
    if calls.len() > 0 {
        let earlier = calls.drop_last();
        if has_try_begin(earlier) {
            let j = choose|j: int| 0 <= j < earlier.len() && #[trigger] earlier[j] == Call::TryBegin;
            assert(calls[j] == Call::TryBegin);
        }
        lemma_ack_is_kept(start, earlier);
        lemma_started_after(start, earlier);
        assert forall|i: int| 0 <= i <= calls.len() implies acked_at(start, calls, i) by {
            if i < calls.len() {
                assert(calls.take(i) =~= earlier.take(i));
                assert(acked_at(start, earlier, i));
            } else {
                assert(calls.take(i) =~= calls);
                assert(earlier.take(earlier.len() as int) =~= earlier);
                assert(acked_at(start, earlier, earlier.len() as int));
                if calls.last() == Call::TryBegin {
                    assert(calls[calls.len() - 1] == Call::TryBegin);
                }
            }
        }
    } else {
        assert(calls.take(0) =~= calls);
    }
}

/// The attempt that starts the sequence leaves the state unacknowledged,
/// whatever its acknowledgment flag held before: a flag set before the
/// sequence began cannot stand for the cleanup of this sequence.
pub proof fn lemma_first_begin_clears_ack(before: Flags)
    requires
        before.accepts(),
    ensures
        before.begin().started,
        !before.begin().acked,
{
}

/// A fresh state is unacknowledged, and an attempt to begin shutdown on it
/// returns `true`.
pub proof fn lemma_fresh_state()
    ensures
        !Flags::fresh().acked,
        Flags::fresh().accepts(),
{
}

} // verus!
