//! Bounded polling: the decisions of a wait loop that polls a condition
//! until it holds, fails, or the poll budget is spent.

use vstd::prelude::*;

verus! {

/// What a wait loop does next.
#[derive(Clone, Copy, Debug, PartialEq, Eq, Structural)]
pub enum WaitStep<E> {
    /// Poll again.
    Poll,
    /// The condition holds: the wait succeeds.
    Done,
    /// The poll reported an error: the wait fails with it.
    Failed(E),
    /// The budget is spent: the wait times out.
    TimedOut,
}

/// The decision after a poll of a wait without a budget.
pub open spec fn spec_unbounded_step<E>(poll: Result<bool, E>) -> WaitStep<E> {
    match poll {
        Ok(true) => WaitStep::Done,
        Ok(false) => WaitStep::Poll,
        Err(e) => WaitStep::Failed(e),
    }
}

/// Takes one poll of a wait without a budget: done succeeds, an error
/// fails, and otherwise the loop polls again.
pub fn unbounded_step<E>(poll: Result<bool, E>) -> (r: WaitStep<E>)
    ensures
        r == spec_unbounded_step(poll),
{
    match poll {
        Ok(true) => WaitStep::Done,
        Ok(false) => WaitStep::Poll,
        Err(e) => WaitStep::Failed(e),
    }
}

/// The budget of a bounded wait.
#[derive(Clone, Copy, Debug, PartialEq, Eq, Structural)]
pub struct PollWait {
    /// Units of budget left.
    pub remaining: u32,
}

impl PollWait {
    /// A wait with a budget of `timeout`.
    pub fn new(timeout: u32) -> (r: Self)
        ensures
            r.remaining == timeout,
    {
        PollWait { remaining: timeout }
    }

    /// The decision before the first poll of a wait that allows at most
    /// `timeout` polls: with no budget it times out without polling.
    pub fn start<E>(&self) -> (r: WaitStep<E>)
        ensures
            self.remaining == 0 ==> r == WaitStep::<E>::TimedOut,
            self.remaining > 0 ==> r == WaitStep::<E>::Poll,
    {
        if self.remaining == 0 {
            WaitStep::TimedOut
        } else {
            WaitStep::Poll
        }
    }

    /// The decision after one of at most `timeout` polls: done succeeds, an
    /// error fails, and otherwise the poll uses up one unit of budget and
    /// the wait times out once none is left.
    pub fn after_poll<E>(&mut self, poll: Result<bool, E>) -> (r: WaitStep<E>)
        ensures
            poll == Ok::<bool, E>(true) ==> r == WaitStep::<E>::Done && *final(self) == *old(self),
            poll matches Err(e) ==> r == WaitStep::<E>::Failed(e) && *final(self) == *old(self),
            poll == Ok::<bool, E>(false) ==> final(self).remaining == (if old(self).remaining
                > 0 {
                old(self).remaining - 1
            } else {
                0
            }) && (r == if final(self).remaining == 0 {
                WaitStep::<E>::TimedOut
            } else {
                WaitStep::<E>::Poll
            }),
    {
        match poll {
            Ok(true) => WaitStep::Done,
            Err(e) => WaitStep::Failed(e),
            Ok(false) => {
                if self.remaining > 0 {
                    self.remaining = self.remaining - 1;
                }
                if self.remaining == 0 {
                    WaitStep::TimedOut
                } else {
                    WaitStep::Poll
                }
            },
        }
    }

    /// The decision after a readiness check of a wait that checks once and
    /// then retries at most `timeout` times: ready succeeds, with no retry
    /// left the wait times out, and otherwise one retry is used up.
    pub fn after_check<E>(&mut self, ready: bool) -> (r: WaitStep<E>)
        ensures
            ready ==> r == WaitStep::<E>::Done && *final(self) == *old(self),
            !ready && old(self).remaining == 0 ==> r == WaitStep::<E>::TimedOut && *final(self)
                == *old(self),
            !ready && old(self).remaining > 0 ==> r == WaitStep::<E>::Poll && final(self).remaining
                == old(self).remaining - 1,
    {
        if ready {
            WaitStep::Done
        } else if self.remaining == 0 {
            WaitStep::TimedOut
        } else {
            self.remaining = self.remaining - 1;
            WaitStep::Poll
        }
    }
}

} // verus!
