//! Waiting for messages: the receiver's count is checked, and between checks
//! the waiter pauses until the time allowed has passed.
use vstd::prelude::*;

verus! {

/// A wait for at least `wanted` messages within `timeout` nanoseconds.
#[derive(Clone, Copy, Debug, PartialEq, Eq, Structural)]
pub struct MessageWait {
    pub wanted: usize,
    pub timeout: u128,
}

/// What a waiter does after a check.
#[derive(Clone, Copy, Debug, PartialEq, Eq, Structural)]
pub enum WaitStep {
    /// Enough messages arrived.
    Done,
    /// Pause (250 ms) and check again.
    Pause,
    /// The time ran out before enough messages arrived.
    TimedOut,
}

impl MessageWait {
    pub fn new(wanted: usize, timeout: u128) -> (r: Self)
        ensures
            r.wanted == wanted,
            r.timeout == timeout,
    {
        MessageWait { wanted, timeout }
    }

    /// The pause between checks, in milliseconds.
    pub fn pause_millis(&self) -> (r: u64)
        ensures
            r == 250,
    {
        250
    }

    /// A check of the count before the time is looked at: done once enough
    /// messages arrived, else pause.
    pub fn check(&self, count: usize) -> (r: WaitStep)
        ensures
            count >= self.wanted ==> r == WaitStep::Done,
            count < self.wanted ==> r == WaitStep::Pause,
    {
        if count >= self.wanted {
            WaitStep::Done
        } else {
            WaitStep::Pause
        }
    }

    /// After a pause, `elapsed` nanoseconds since the start: the wait times
    /// out once more than the time allowed has passed, else checks again.
    pub fn after_pause(&self, elapsed: u128) -> (r: WaitStep)
        ensures
            elapsed > self.timeout ==> r == WaitStep::TimedOut,
            elapsed <= self.timeout ==> r == WaitStep::Pause,
    {
        if elapsed > self.timeout {
            WaitStep::TimedOut
        } else {
            WaitStep::Pause
        }
    }
}

} // verus!
