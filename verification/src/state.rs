//! The states of an instance.
use vstd::prelude::*;

use crate::dynval::DynKind;
use crate::instance::{FaultDetails, TerminationDetails, YieldedVal};

verus! {

/// The signal that raised a fault: its number, and the address it accessed, if any.
#[derive(Copy, Clone, Debug)]
pub struct FaultSignal {
    pub signo: i32,
    pub addr: usize,
}

/// The representation of an instance's state machine.
#[allow(inconsistent_fields)]
pub enum State {
    /// The instance is freshly created, but needs to run the start section before running other
    /// entrypoints.
    NotStarted,
    /// The instance is ready to run.
    Ready,
    /// The instance is running; `async_context` tells whether it runs in an async context.
    Running { async_context: bool },
    /// The instance has faulted, potentially fatally.
    Faulted { details: FaultDetails, siginfo: FaultSignal },
    /// The instance is in the process of terminating.
    Terminating { details: TerminationDetails },
    /// The instance has terminated, and must be reset before running again.
    Terminated,
    /// The instance is in the process of yielding a value, and expects to be resumed with a
    /// value of kind `expecting`.
    Yielding { val: YieldedVal, expecting: DynKind },
    /// The instance has yielded, and expects to be resumed with a value of kind `expecting`.
    Yielded { expecting: DynKind },
    /// The instance has reached an instruction-count bound.
    BoundExpired,
    /// A placeholder state used while a new state is constructed by moving values out of the old
    /// one.
    Transitioning,
}

impl State {
    pub fn is_not_started(&self) -> (r: bool)
        ensures
            r == self is NotStarted,
    {
        match self {
            State::NotStarted => true,
            _ => false,
        }
    }

    pub fn is_ready(&self) -> (r: bool)
        ensures
            r == self is Ready,
    {
        match self {
            State::Ready => true,
            _ => false,
        }
    }

    pub fn is_running(&self) -> (r: bool)
        ensures
            r == self is Running,
    {
        match self {
            State::Running { .. } => true,
            _ => false,
        }
    }

    pub fn is_faulted(&self) -> (r: bool)
        ensures
            r == self is Faulted,
    {
        match self {
            State::Faulted { .. } => true,
            _ => false,
        }
    }

    pub open spec fn is_fatal_spec(self) -> bool {
        match self {
            State::Faulted { details, .. } => details.fatal,
            _ => false,
        }
    }

    /// Has the instance faulted fatally?
    pub fn is_fatal(&self) -> (r: bool)
        ensures
            r == self.is_fatal_spec(),
    {
        match self {
            State::Faulted { details, .. } => details.fatal,
            _ => false,
        }
    }

    pub fn is_terminated(&self) -> (r: bool)
        ensures
            r == self is Terminated,
    {
        match self {
            State::Terminated => true,
            _ => false,
        }
    }

    pub fn is_yielded(&self) -> (r: bool)
        ensures
            r == self is Yielded,
    {
        match self {
            State::Yielded { .. } => true,
            _ => false,
        }
    }

    pub fn is_yielding(&self) -> (r: bool)
        ensures
            r == self is Yielding,
    {
        match self {
            State::Yielding { .. } => true,
            _ => false,
        }
    }

    pub fn is_bound_expired(&self) -> (r: bool)
        ensures
            r == self is BoundExpired,
    {
        match self {
            State::BoundExpired => true,
            _ => false,
        }
    }
}

} // verus!
