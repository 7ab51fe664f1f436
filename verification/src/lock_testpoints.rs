//! The protocol of syncpoints, at which tests stop the runtime to reproduce races: the flags that
//! a syncpoint shares with the waiter a test makes for it.
//!
//! The embedding keeps the flags behind a lock shared by the syncpoint and its waiter, and
//! polls them while it waits.
use vstd::prelude::*;

verus! {

/// The flags a syncpoint shares with its waiter: whether the runtime has reached the syncpoint,
/// and whether it may go on past it.
#[derive(Copy, Clone, Debug, PartialEq, Eq, Structural)]
pub struct SyncFlags {
    pub arrived: bool,
    pub proceed: bool,
}

impl SyncFlags {
    /// A syncpoint nobody waits at: not reached, and free to go on.
    pub fn new() -> (r: Self)
        ensures
            r == (SyncFlags { arrived: false, proceed: true }),
    {
        SyncFlags { arrived: false, proceed: true }
    }

    /// A test waits at the syncpoint: the runtime must stop there until the waiter resumes it.
    pub fn wait_at(&mut self)
        ensures
            *final(self) == (SyncFlags { proceed: false, ..*old(self) }),
    {
        self.proceed = false;
    }

    /// The runtime reaches the syncpoint; it goes on once `may_proceed` says so.
    pub fn arrive(&mut self)
        ensures
            *final(self) == (SyncFlags { arrived: true, ..*old(self) }),
    {
        self.arrived = true;
    }

    /// May the runtime go on past the syncpoint?
    pub fn may_proceed(&self) -> (r: bool)
        ensures
            r == self.proceed,
    {
        self.proceed
    }

    /// Has the runtime reached the syncpoint? The waiter pauses until it has.
    pub fn has_arrived(&self) -> (r: bool)
        ensures
            r == self.arrived,
    {
        self.arrived
    }

    /// The waiter lets the runtime go on.
    pub fn resume(&mut self)
        ensures
            *final(self) == (SyncFlags { proceed: true, ..*old(self) }),
    {
        self.proceed = true;
    }
}

/// Once a test waits at a syncpoint, the runtime that reaches it stops there until the waiter
/// resumes it, and then goes on.
pub proof fn lemma_wait_blocks_until_resumed(f: SyncFlags)
    ensures
        !(SyncFlags { arrived: true, ..SyncFlags { proceed: false, ..f } }).proceed,
        (SyncFlags { proceed: true, ..SyncFlags { arrived: true, ..SyncFlags { proceed: false, ..f } } }).proceed,
{
}

/// A waiter resumed before its syncpoint is reached behaves as if the test had never waited at
/// the syncpoint.
pub proof fn lemma_resume_before_reached(f: SyncFlags)
    requires
        f.proceed,
    ensures
        (SyncFlags { proceed: true, ..SyncFlags { proceed: false, ..f } }) == f,
{
}

} // verus!
