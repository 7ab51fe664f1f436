//! Instances run by an async executor: the decisions of the run loop that lets a guest block on a
//! future, and the values that pass between the guest and the executor on the way.
//!
//! The loop itself belongs to the embedder, since it awaits: it asks `run_async_next` what to run,
//! runs it, and asks `run_async_after` what the result means, until that says to return.
use vstd::prelude::*;

use crate::dynval::{DynKind, DynVal, DynValue};
use crate::error::Error;
use crate::instance::{Instance, InternalRunResult, RunResult};
use crate::state::State;
use crate::val::UntypedRetVal;

verus! {

/// The mark a guest yields when it blocks on a future. The future itself stays with the executor,
/// which awaits it and resumes the guest with its output.
#[derive(Copy, Clone, Debug, PartialEq, Eq, Structural)]
pub struct YieldedFuture;

/// The output of an awaited future, on its way back to the guest that blocked on it.
#[derive(Debug)]
pub struct ResumeVal {
    val: Box<DynVal>,
}

impl ResumeVal {
    pub closed spec fn val_spec(&self) -> DynVal {
        *self.val
    }

    /// Wrap the output `val` of a future.
    pub fn new<A: DynValue>(val: A) -> (r: Self)
        ensures
            r.val_spec() == val.to_dyn_spec(),
    {
        ResumeVal { val: Box::new(val.into_dyn()) }
    }

    /// The wrapped output, as the type `R` the guest blocked for; it must be of that type.
    pub fn into_val<R: DynValue>(self) -> (r: R)
        requires
            self.val_spec().kind_spec() == R::dyn_kind(),
        ensures
            r.to_dyn_spec() == self.val_spec(),
    {
        R::from_dyn(*self.val).unwrap()
    }
}

impl DynValue for YieldedFuture {
    open spec fn dyn_kind() -> DynKind {
        DynKind::Future
    }

    open spec fn to_dyn_spec(self) -> DynVal {
        DynVal::Future(self)
    }

    proof fn lemma_to_dyn(a: Self, b: Self) {
    }

    fn kind() -> (k: DynKind) {
        DynKind::Future
    }

    fn into_dyn(self) -> (d: DynVal) {
        DynVal::Future(self)
    }

    fn from_dyn(d: DynVal) -> (r: Result<Self, DynVal>) {
        match d {
            DynVal::Future(x) => Ok(x),
            other => Err(other),
        }
    }

    fn ref_from_dyn(d: &DynVal) -> (r: Option<&Self>) {
        match d {
            DynVal::Future(x) => Some(x),
            _ => None,
        }
    }
}

impl DynValue for ResumeVal {
    open spec fn dyn_kind() -> DynKind {
        DynKind::Resume
    }

    open spec fn to_dyn_spec(self) -> DynVal {
        DynVal::Resume(self)
    }

    proof fn lemma_to_dyn(a: Self, b: Self) {
    }

    fn kind() -> (k: DynKind) {
        DynKind::Resume
    }

    fn into_dyn(self) -> (d: DynVal) {
        DynVal::Resume(self)
    }

    fn from_dyn(d: DynVal) -> (r: Result<Self, DynVal>) {
        match d {
            DynVal::Resume(x) => Ok(x),
            other => Err(other),
        }
    }

    fn ref_from_dyn(d: &DynVal) -> (r: Option<&Self>) {
        match d {
            DynVal::Resume(x) => Some(x),
            _ => None,
        }
    }
}

/// What the async run loop runs next.
#[derive(Debug)]
pub enum AsyncRun {
    /// Resume the yielded guest with the output of the future it blocked on.
    ResumeWithVal(ResumeVal),
    /// Resume the guest that reached its instruction bound, bounded by this many instructions.
    ResumeBounded(u64),
    /// Call the function the loop was started with.
    Call,
}

/// What the async run loop does once a run has ended.
#[derive(Debug)]
pub enum AsyncAfterRun {
    /// Return the function's result.
    Return(UntypedRetVal),
    /// Await the future the guest blocked on, keep its output, and run again.
    AwaitFuture,
    /// Yield to the executor once, and run again.
    YieldNow,
}

/// The error of a run that yields anything but a future.
pub open spec fn async_yield_refusal() -> Error {
    Error::Unsupported("cannot yield anything besides a future in Instance::run_async")
}

/// The error of starting the async run loop on a yielded instance.
pub open spec fn async_yielded_refusal() -> Error {
    Error::Unsupported("cannot run_async a yielded instance")
}

/// The async run loop may not start on a yielded instance.
pub fn run_async_allowed(inst: &Instance) -> (r: Result<(), Error>)
    ensures
        inst.state_spec() is Yielded ==> r == Err::<(), Error>(async_yielded_refusal()),
        !(inst.state_spec() is Yielded) ==> r is Ok,
{
    if inst.is_yielded() {
        return Err(Error::Unsupported("cannot run_async a yielded instance"));
    }
    Ok(())
}

/// What the async run loop runs next: a yielded guest is resumed with the output the loop kept
/// for it (it must have kept one), a guest at its instruction bound is resumed bounded by
/// `runtime_bound` (there must be one), and otherwise the function is called.
pub fn run_async_next(
    inst: &Instance,
    resume_val: &mut Option<ResumeVal>,
    runtime_bound: Option<u64>,
) -> (r: AsyncRun)
    requires
        inst.state_spec() is Yielded ==> *old(resume_val) is Some,
        inst.state_spec() is BoundExpired ==> runtime_bound is Some,
    ensures
        inst.state_spec() is Yielded ==> (r matches AsyncRun::ResumeWithVal(v) && Some(v) == *old(
            resume_val,
        )) && *final(resume_val) is None,
        !(inst.state_spec() is Yielded) && inst.state_spec() is BoundExpired ==> (r matches AsyncRun::ResumeBounded(
            b,
        ) && runtime_bound == Some(b)) && *final(resume_val) == *old(resume_val),
        !(inst.state_spec() is Yielded) && !(inst.state_spec() is BoundExpired) ==> r is Call
            && *final(resume_val) == *old(resume_val),
{
    if inst.is_yielded() {
        match resume_val.take() {
            Some(v) => AsyncRun::ResumeWithVal(v),
            None => {
                assert(false);
                AsyncRun::Call
            },
        }
    } else if inst.is_bound_expired() {
        match runtime_bound {
            Some(b) => AsyncRun::ResumeBounded(b),
            None => {
                assert(false);
                AsyncRun::Call
            },
        }
    } else {
        AsyncRun::Call
    }
}

/// What the async run loop does with the result of a run: a returned function's result is
/// returned, a yielded future is awaited, an expired instruction bound yields to the executor, and
/// any other yielded value is an error.
pub fn run_async_after(result: InternalRunResult) -> (r: Result<AsyncAfterRun, Error>)
    ensures
        result matches InternalRunResult::Normal(RunResult::Returned(v)) ==> (r matches Ok(
            AsyncAfterRun::Return(w),
        ) && w == v),
        result matches InternalRunResult::Normal(RunResult::Yielded(yv)) ==> (if yv.val_spec().kind_spec()
            == DynKind::Future {
            r matches Ok(AsyncAfterRun::AwaitFuture)
        } else {
            r == Err::<AsyncAfterRun, Error>(async_yield_refusal())
        }),
        result is BoundExpired ==> (r matches Ok(AsyncAfterRun::YieldNow)),
{
    match result {
        InternalRunResult::Normal(RunResult::Returned(rval)) => Ok(AsyncAfterRun::Return(rval)),
        InternalRunResult::Normal(RunResult::Yielded(yval)) => {
            if yval.is::<YieldedFuture>() {
                Ok(AsyncAfterRun::AwaitFuture)
            } else {
                Err(
                    Error::Unsupported(
                        "cannot yield anything besides a future in Instance::run_async",
                    ),
                )
            }
        },
        InternalRunResult::BoundExpired => Ok(AsyncAfterRun::YieldNow),
    }
}

impl Instance {
    /// Whether the async run of the start function must run it now: the instance must not have
    /// started (`Error::StartAlreadyRun` otherwise), and then it runs exactly when there is a start
    /// function.
    pub fn async_start_needed(&self, has_start_func: bool) -> (r: Result<bool, Error>)
        ensures
            !(self.state_spec() is NotStarted) ==> r == Err::<bool, Error>(Error::StartAlreadyRun),
            self.state_spec() is NotStarted ==> r == Ok::<bool, Error>(has_start_func),
    {
        if !self.is_not_started() {
            return Err(Error::StartAlreadyRun);
        }
        Ok(has_start_func)
    }

    /// The output of the future the guest blocked on, taken from the value it was resumed with,
    /// as the type `R` the guest blocked for; the async run loop must have resumed it with that
    /// output.
    pub fn block_on_output<R: DynValue>(&mut self) -> (r: R)
        requires
            old(self).resumed_val_spec() matches Some(DynVal::Resume(rv)) && rv.val_spec().kind_spec()
                == R::dyn_kind(),
        ensures
            old(self).resumed_val_spec() matches Some(DynVal::Resume(rv)) && r.to_dyn_spec()
                == rv.val_spec(),
            final(self).resumed_val_spec() is None,
            final(self).state_spec() == old(self).state_spec(),
            final(self).alloc_spec() == old(self).alloc_spec(),
    {
        self.take_resumed_val::<ResumeVal>().unwrap().into_val::<R>()
    }
}

/// A guest that blocks on a future gets the future's output: once the async run loop has resumed
/// it with the output `out`, the guest reads back `out` as the type it blocked for.
pub proof fn lemma_block_on_delivers_output<R: DynValue>(out: R, rv: ResumeVal, read: R)
    requires
        rv.val_spec() == out.to_dyn_spec(),
        read.to_dyn_spec() == rv.val_spec(),
    ensures
        read == out,
{
    R::lemma_to_dyn(read, out);
}

} // verus!
