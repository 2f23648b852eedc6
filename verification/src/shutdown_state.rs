//! The shutdown state machine: a guard that lets exactly one trigger start the
//! shutdown sequence, and a flag that records the interface's acknowledgment.

use vstd::prelude::*;

verus! {

/// The two flags of a shutdown sequence, as a mathematical value.
pub struct Flags {
    /// A shutdown sequence has been accepted.
    pub started: bool,
    /// The interface has confirmed that its cleanup is done.
    pub acked: bool,
}

impl Flags {
    /// The flags of a process in which nothing has asked for shutdown yet.
    pub open spec fn fresh() -> Flags {
        Flags { started: false, acked: false }
    }

    /// Whether an attempt to begin shutdown made now is the first one.
    pub open spec fn accepts(self) -> bool {
        !self.started
    }

    /// The flags after an attempt to begin shutdown. The first attempt
    /// discards an acknowledgment left over from before the sequence began;
    /// a later attempt changes nothing.
    pub open spec fn begin(self) -> Flags {
        Flags { started: true, acked: self.started && self.acked }
    }

    /// The flags after the interface's acknowledgment has been recorded.
    pub open spec fn ack(self) -> Flags {
        Flags { started: self.started, acked: true }
    }
}

/// Shutdown state of one process.
///
/// The methods that change the flags take `&mut self`: each call is one
/// indivisible step, and contexts that share a state do so behind a lock.
pub struct ShutdownState {
    shutdown_started: bool,
    shutdown_acked: bool,
}

impl View for ShutdownState {
    type V = Flags;

    closed spec fn view(&self) -> Flags {
        Flags { started: self.shutdown_started, acked: self.shutdown_acked }
    }
}

impl ShutdownState {
    /// A state with both flags clear.
    pub fn new() -> (state: Self)
        ensures
            state@ == Flags::fresh(),
    {
        ShutdownState { shutdown_started: false, shutdown_acked: false }
    }

    /// Tries to enter the shutdown sequence. Returns `true` to the first
    /// caller and `false` to every later one. The first call also clears the
    /// acknowledgment flag.
    pub fn try_begin_shutdown(&mut self) -> (first: bool)
        ensures
            first == old(self)@.accepts(),
            final(self)@ == old(self)@.begin(),
            first ==> !final(self)@.acked,
            !first ==> final(self)@ == old(self)@,
    {
        if self.shutdown_started {
            return false;
        }
        self.shutdown_started = true;
        self.shutdown_acked = false;
        true
    }

    /// Records that the interface has finished its cleanup.
    pub fn mark_acked(&mut self)
        ensures
            final(self)@ == old(self)@.ack(),
    {
        self.shutdown_acked = true;
    }

    /// Whether the acknowledgment has been recorded.
    pub fn is_acked(&self) -> (acked: bool)
        ensures
            acked == self@.acked,
    {
        self.shutdown_acked
    }
}

impl Default for ShutdownState {
    fn default() -> (state: Self)
        ensures
            state@ == Flags::fresh(),
    {
        ShutdownState::new()
    }
}

} // verus!
