//! Instances: the results of running them, the data they share with guest code, and the state
//! machine that decides whether and how an instance may run, yield, be resumed, fault or
//! terminate.
use vstd::prelude::*;

use crate::dynval::{DynKind, DynVal, DynValue, EmptyYieldVal, Trap};
use crate::allocation::{
    expanded, page_align_up, sigstack_size_failure, validate_sigstack_size, AddrLocation, Alloc,
    BuildProfile, RegionMemory, WASM_PAGE_SIZE,
};
use crate::error::Error;
use crate::module::{FunctionHandle, HeapSpec};
use crate::state::State;
use crate::val::{Val, ValueType};
use crate::val::UntypedRetVal;
use crate::module::AddrDetails;
use crate::trapcode::TrapCode;
use crate::execution::{
    enter_guest_spec, terminate_spec, Domain, GuestEntry, KillError, KillState, KillSuccess,
};
use crate::signals::{
    alarm_outcome, disable_termination_for_host, fault_outcome, guest_signal_outcome, GuestSignal,
};

verus! {

/// Information about a runtime fault.
///
/// Runtime faults are raised implicitly by signal handlers that return `SignalBehavior::Default`
/// in response to signals arising while a guest is running.
#[derive(Clone, Debug)]
pub struct FaultDetails {
    /// If true, the instance's fatal handler will be called.
    pub fatal: bool,
    /// Information about the type of fault that occurred.
    pub trapcode: Option<TrapCode>,
    /// The instruction pointer where the fault occurred.
    pub rip_addr: usize,
    /// Extra information about the instruction pointer's location, if available.
    pub rip_addr_details: Option<AddrDetails>,
}

/// Information about a terminated guest.
#[derive(Debug)]
pub enum TerminationDetails {
    /// Returned when a signal handler terminates the instance.
    Signal,
    /// Returned when an embedder context of a type that is not present is requested.
    CtxNotFound,
    /// Returned when the value a yielded instance is resumed with is not of the expected type.
    YieldTypeMismatch,
    /// Returned when dynamic borrowing rules of the heap, globals or contexts are violated.
    BorrowError(&'static str),
    /// Calls to terminating hostcalls provide a payload for use by the embedder, along with the
    /// name of its type.
    Provided { provided_type: &'static str, provided: DynVal },
    /// The instance was terminated by its `KillSwitch`.
    Remote,
    /// A panic other than one used by the runtime itself occurred during a hostcall; this carries
    /// its message.
    OtherPanic(String),
    /// The instance blocked on a future while not running in an async context.
    BlockOnNeedsAsync,
}

impl TerminationDetails {
    /// Termination details carrying a value provided by a hostcall.
    pub fn provide<A: DynValue>(details: A) -> (r: Self)
        ensures
            r matches TerminationDetails::Provided { provided_type, provided } && provided
                == details.to_dyn_spec() && provided_type == A::dyn_kind().rust_type_spec(),
    {
        TerminationDetails::Provided { provided_type: A::kind().rust_type(), provided: details.into_dyn() }
    }

    /// The value provided by a terminating hostcall, if any.
    pub fn provided_details(&self) -> (r: Option<&DynVal>)
        ensures
            r is Some <==> self is Provided,
            r matches Some(v) ==> self matches TerminationDetails::Provided { provided, .. } && *v
                == provided,
    {
        match self {
            TerminationDetails::Provided { provided, .. } => Some(provided),
            _ => None,
        }
    }

    /// The exit code the guest exited with, if these details carry a `Trap::I32Exit`.
    pub fn as_exitcode(&self) -> (r: Option<u32>)
        ensures
            r == (match self {
                TerminationDetails::Provided { provided: DynVal::Trap(Trap::I32Exit(code)), .. } => Some(
                    code as u32,
                ),
                _ => None,
            }),
    {
        match self {
            TerminationDetails::Provided { provided, .. } => match provided {
                DynVal::Trap(Trap::I32Exit(code)) => Some(*code as u32),
                _ => None,
            },
            _ => None,
        }
    }
}


/// Do the two strings hold the same characters?
fn str_eq(a: &str, b: &str) -> (r: bool)
    ensures
        r == (a@ == b@),
{
    let x = a.as_bytes();
    let y = b.as_bytes();
    proof {
        vstd::utf8::encode_utf8_decode_utf8(a@);
        vstd::utf8::encode_utf8_decode_utf8(b@);
    }
    if x.len() != y.len() {
        return false;
    }
    let mut i: usize = 0;
    while i < x.len()
        invariant
            0 <= i <= x@.len(),
            x@.len() == y@.len(),
            x@ == vstd::utf8::encode_utf8(a@),
            y@ == vstd::utf8::encode_utf8(b@),
            forall|j: int| 0 <= j < i ==> x@[j] == y@[j],
        decreases x@.len() - i,
    {
        if x[i] != y[i] {
            return false;
        }
        i = i + 1;
    }
    assert(x@ =~= y@);
    true
}

/// Two termination details are equal when they have the same reason and, for a borrow error, the
/// same message. Values provided by hostcalls, remote terminations and panics are never equal.
impl PartialEq for TerminationDetails {
    fn eq(&self, rhs: &TerminationDetails) -> (r: bool) {
        match (self, rhs) {
            (TerminationDetails::Signal, TerminationDetails::Signal) => true,
            (TerminationDetails::BorrowError(m1), TerminationDetails::BorrowError(m2)) => str_eq(
                m1,
                m2,
            ),
            (TerminationDetails::CtxNotFound, TerminationDetails::CtxNotFound) => true,
            (TerminationDetails::BlockOnNeedsAsync, TerminationDetails::BlockOnNeedsAsync) => true,
            _ => false,
        }
    }
}

impl vstd::std_specs::cmp::PartialEqSpecImpl for TerminationDetails {
    open spec fn obeys_eq_spec() -> bool {
        true
    }

    open spec fn eq_spec(&self, rhs: &TerminationDetails) -> bool {
        match (*self, *rhs) {
            (TerminationDetails::Signal, TerminationDetails::Signal) => true,
            (TerminationDetails::BorrowError(m1), TerminationDetails::BorrowError(m2)) => m1@ == m2@,
            (TerminationDetails::CtxNotFound, TerminationDetails::CtxNotFound) => true,
            (TerminationDetails::BlockOnNeedsAsync, TerminationDetails::BlockOnNeedsAsync) => true,
            _ => false,
        }
    }
}

/// The value yielded by an instance and returned to the host.
#[derive(Debug)]
pub struct YieldedVal {
    val: DynVal,
}

impl YieldedVal {
    pub closed spec fn val_spec(&self) -> DynVal {
        self.val
    }

    pub fn new<A: DynValue>(val: A) -> (r: Self)
        ensures
            r.val_spec() == val.to_dyn_spec(),
    {
        YieldedVal { val: val.into_dyn() }
    }

    /// Returns `true` if the guest yielded a value of type `A`.
    pub fn is<A: DynValue>(&self) -> (r: bool)
        ensures
            r == (self.val_spec().kind_spec() == A::dyn_kind()),
    {
        self.val.is::<A>()
    }

    /// Returns `true` if the guest yielded without a value.
    pub fn is_none(&self) -> (r: bool)
        ensures
            r == (self.val_spec().kind_spec() == DynKind::Empty),
    {
        self.is::<EmptyYieldVal>()
    }

    /// Returns `true` if the guest yielded with a value.
    pub fn is_some(&self) -> (r: bool)
        ensures
            r == (self.val_spec().kind_spec() != DynKind::Empty),
    {
        !self.is_none()
    }

    /// Attempt to downcast the yielded value to a concrete type, returning the original
    /// `YieldedVal` if unsuccessful.
    pub fn downcast<A: DynValue>(self) -> (r: Result<Box<A>, YieldedVal>)
        ensures
            r is Ok <==> self.val_spec().kind_spec() == A::dyn_kind(),
            r matches Ok(v) ==> (*v).to_dyn_spec() == self.val_spec(),
            r matches Err(y) ==> y.val_spec() == self.val_spec(),
    {
        match A::from_dyn(self.val) {
            Ok(v) => Ok(Box::new(v)),
            Err(val) => Err(YieldedVal { val }),
        }
    }

    /// A reference to the yielded value if it is of type `A`.
    pub fn downcast_ref<A: DynValue>(&self) -> (r: Option<&A>)
        ensures
            r is Some <==> self.val_spec().kind_spec() == A::dyn_kind(),
            r matches Some(v) ==> v.to_dyn_spec() == self.val_spec(),
    {
        self.val.downcast_ref::<A>()
    }
}

/// The result of running or resuming an instance.
#[derive(Debug)]
pub enum RunResult {
    /// The instance returned with a value.
    Returned(UntypedRetVal),
    /// The instance yielded, potentially with a value.
    Yielded(YieldedVal),
}

impl RunResult {
    /// The return value, or `Error::InstanceNotReturned` if the instance yielded.
    pub fn returned(self) -> (r: Result<UntypedRetVal, Error>)
        ensures
            self matches RunResult::Returned(rv) ==> r == Ok::<UntypedRetVal, Error>(rv),
            self is Yielded ==> r == Err::<UntypedRetVal, Error>(Error::InstanceNotReturned),
    {
        match self {
            RunResult::Returned(rv) => Ok(rv),
            RunResult::Yielded(_) => Err(Error::InstanceNotReturned),
        }
    }

    /// A reference to the return value, or `Error::InstanceNotReturned` if the instance yielded.
    pub fn returned_ref(&self) -> (r: Result<&UntypedRetVal, Error>)
        ensures
            self matches RunResult::Returned(rv) ==> r matches Ok(v) && *v == rv,
            self is Yielded ==> r matches Err(Error::InstanceNotReturned),
    {
        match self {
            RunResult::Returned(rv) => Ok(rv),
            RunResult::Yielded(_) => Err(Error::InstanceNotReturned),
        }
    }

    /// Returns `true` if the instance returned a value.
    pub fn is_returned(&self) -> (r: bool)
        ensures
            r == self is Returned,
    {
        self.returned_ref().is_ok()
    }

    /// Unwraps a run result into a return value; the instance must have returned.
    pub fn expect_returned(self, msg: &str) -> (r: UntypedRetVal)
        requires
            self is Returned,
        ensures
            self matches RunResult::Returned(rv) && r == rv,
    {
        match self {
            RunResult::Returned(rv) => rv,
            RunResult::Yielded(_) => {
                assert(false);
                UntypedRetVal::default()
            },
        }
    }

    /// Unwraps a run result into a return value; the instance must have returned.
    pub fn unwrap_returned(self) -> (r: UntypedRetVal)
        requires
            self is Returned,
        ensures
            self matches RunResult::Returned(rv) && r == rv,
    {
        self.expect_returned("")
    }

    /// The yielded value, or `Error::InstanceNotYielded` if the instance returned.
    pub fn yielded(self) -> (r: Result<YieldedVal, Error>)
        ensures
            self matches RunResult::Yielded(yv) ==> r == Ok::<YieldedVal, Error>(yv),
            self is Returned ==> r == Err::<YieldedVal, Error>(Error::InstanceNotYielded),
    {
        match self {
            RunResult::Returned(_) => Err(Error::InstanceNotYielded),
            RunResult::Yielded(yv) => Ok(yv),
        }
    }

    /// A reference to the yielded value, or `Error::InstanceNotYielded` if the instance returned.
    pub fn yielded_ref(&self) -> (r: Result<&YieldedVal, Error>)
        ensures
            self matches RunResult::Yielded(yv) ==> r matches Ok(v) && *v == yv,
            self is Returned ==> r matches Err(Error::InstanceNotYielded),
    {
        match self {
            RunResult::Returned(_) => Err(Error::InstanceNotYielded),
            RunResult::Yielded(yv) => Ok(yv),
        }
    }

    /// Returns `true` if the instance yielded.
    pub fn is_yielded(&self) -> (r: bool)
        ensures
            r == self is Yielded,
    {
        self.yielded_ref().is_ok()
    }

    /// Returns `true` if the instance can be resumed: it has yielded.
    pub fn can_resume(&self) -> (r: bool)
        ensures
            r == self is Yielded,
    {
        self.is_yielded()
    }

    /// Returns `true` if the instance has yielded a value of type `A`.
    pub fn has_yielded<A: DynValue>(&self) -> (r: bool)
        ensures
            r == (self matches RunResult::Yielded(yv) && yv.val_spec().kind_spec() == A::dyn_kind()),
    {
        match self {
            RunResult::Yielded(yv) => yv.is::<A>(),
            _ => false,
        }
    }

    /// Unwraps a run result into a yielded value; the instance must have yielded.
    pub fn expect_yielded(self, msg: &str) -> (r: YieldedVal)
        requires
            self is Yielded,
        ensures
            self matches RunResult::Yielded(yv) && r == yv,
    {
        match self {
            RunResult::Yielded(yv) => yv,
            RunResult::Returned(_) => {
                assert(false);
                YieldedVal::new(EmptyYieldVal)
            },
        }
    }

    /// Unwraps a run result into a yielded value; the instance must have yielded.
    pub fn unwrap_yielded(self) -> (r: YieldedVal)
        requires
            self is Yielded,
        ensures
            self matches RunResult::Yielded(yv) && r == yv,
    {
        self.expect_yielded("")
    }
}


/// An "internal" run result: either a `RunResult`, or the expiration of an instruction bound.
#[derive(Debug)]
pub enum InternalRunResult {
    Normal(RunResult),
    BoundExpired,
}

impl InternalRunResult {
    /// The run result; the instance must not have reached an instruction bound.
    pub fn unwrap(self) -> (r: RunResult)
        requires
            self is Normal,
        ensures
            self matches InternalRunResult::Normal(rr) && r == rr,
    {
        match self {
            InternalRunResult::Normal(result) => result,
            InternalRunResult::BoundExpired => {
                assert(false);
                RunResult::Returned(UntypedRetVal::default())
            },
        }
    }
}

/// A run result as an internal one: a normal result.
impl From<RunResult> for InternalRunResult {
    fn from(result: RunResult) -> (r: InternalRunResult) {
        InternalRunResult::Normal(result)
    }
}

impl vstd::std_specs::convert::FromSpecImpl<RunResult> for InternalRunResult {
    open spec fn obeys_from_spec() -> bool {
        true
    }

    open spec fn from_spec(result: RunResult) -> InternalRunResult {
        InternalRunResult::Normal(result)
    }
}

/// The data an instance shares with its compiled guest code: the address of the globals, the
/// instruction counter (the sum of `instruction_count_bound` and `instruction_count_adj`, in
/// wrapping arithmetic; the guest yields when `instruction_count_adj` crosses zero), and the stack
/// limit that hostcalls check against.
#[derive(Copy, Clone, Debug)]
pub struct InstanceRuntimeData {
    pub globals_ptr: usize,
    pub instruction_count_bound: i64,
    pub instruction_count_adj: i64,
    pub stack_limit: u64,
}

impl InstanceRuntimeData {
    /// The instructions executed so far.
    pub open spec fn instruction_count_spec(self) -> i64 {
        vstd::wrapping::i64_specs::wrapping_add(self.instruction_count_bound, self.instruction_count_adj)
    }

    pub fn instruction_count(&self) -> (r: i64)
        ensures
            r == self.instruction_count_spec(),
    {
        self.instruction_count_bound.wrapping_add(self.instruction_count_adj)
    }

    /// Set the total instruction count and bound.
    pub fn set_instruction_count_and_bound(&mut self, instruction_count: u64, bound: u64)
        requires
            instruction_count <= i64::MAX,
            bound <= i64::MAX,
        ensures
            final(self).instruction_count_bound == bound,
            final(self).instruction_count_adj == instruction_count - bound,
            final(self).globals_ptr == old(self).globals_ptr,
            final(self).stack_limit == old(self).stack_limit,
    {
        let instruction_count = instruction_count as i64;
        let bound = bound as i64;
        self.instruction_count_bound = bound;
        self.instruction_count_adj = instruction_count - bound;
    }

    /// Set the instruction bound to be `delta` above the current count (unbounded when `delta`
    /// is `None`).
    pub fn set_instruction_bound_delta(&mut self, delta: Option<u64>)
        requires
            delta matches Some(d) ==> d <= i64::MAX,
        ensures
            ({
                let d: i64 = match delta {
                    Some(d) => d as i64,
                    None => i64::MAX,
                };
                &&& final(self).instruction_count_adj == -d
                &&& final(self).instruction_count_bound == vstd::wrapping::i64_specs::wrapping_add(
                    old(self).instruction_count_spec(),
                    d,
                )
            }),
            final(self).globals_ptr == old(self).globals_ptr,
            final(self).stack_limit == old(self).stack_limit,
    {
        let sum = self.instruction_count_adj.wrapping_add(self.instruction_count_bound);
        let delta: i64 = match delta {
            Some(d) => d as i64,
            None => i64::MAX,
        };
        self.instruction_count_bound = sum.wrapping_add(delta);
        self.instruction_count_adj = -delta;
    }
}

/// Setting the instruction count and bound sets the count.
pub proof fn lemma_count_and_bound_sets_count(d: InstanceRuntimeData, count: u64, bound: u64)
    requires
        count <= i64::MAX,
        bound <= i64::MAX,
        d.instruction_count_bound == bound,
        d.instruction_count_adj == count - bound,
    ensures
        d.instruction_count_spec() == count,
{
}

/// Moving the instruction bound leaves the instruction count unchanged.
pub proof fn lemma_bound_delta_keeps_count(before: InstanceRuntimeData, after: InstanceRuntimeData, d: i64)
    requires
        0 <= d,
        after.instruction_count_adj == -d,
        after.instruction_count_bound == vstd::wrapping::i64_specs::wrapping_add(
            before.instruction_count_spec(),
            d,
        ),
    ensures
        after.instruction_count_spec() == before.instruction_count_spec(),
{
}


/// What running an instance with signals on takes.
#[derive(Copy, Clone, Debug, PartialEq, Eq, Structural)]
pub struct SignalSetup {
    /// Set up the instance's signal stack for the running thread, and restore the thread's own
    /// afterwards.
    pub install_sigstack: bool,
    /// The instance uses the runtime's signal handler while it runs: it counts as one of its users.
    pub use_handler: bool,
}

/// The part of an instance the runtime's decisions read and change: its state machine, the
/// bookkeeping of its memory, its entrypoint, the value it is resumed with, and the data it
/// shares with guest code.
pub struct Instance {
    state: State,
    alloc: Alloc,
    entrypoint: Option<FunctionHandle>,
    resumed_val: Option<DynVal>,
    implicits: InstanceRuntimeData,
    ensure_signal_handler_installed: bool,
    ensure_sigstack_installed: bool,
}

/// A state from which an instance may be run: ready, starting with the start function, or
/// non-fatally faulted.
pub open spec fn may_run(state: State, is_start_func: bool) -> bool {
    ||| state is Ready
    ||| (state is NotStarted && is_start_func)
    ||| (state is Faulted && !state.is_fatal_spec())
}

/// The arguments match the parameter types of a function's signature.
pub open spec fn args_match(params: Seq<ValueType>, args: Seq<Val>) -> bool {
    &&& params.len() == args.len()
    &&& forall|i: int| 0 <= i < params.len() ==> params[i] == #[trigger] args[i].value_type_spec()
}

/// The error refusing to run `func`, if any.
pub open spec fn run_refusal(
    state: State,
    func: FunctionHandle,
    params: Seq<ValueType>,
    args: Seq<Val>,
) -> Option<Error> {
    if state is NotStarted && !func.is_start_func {
        Some(Error::InstanceNeedsStart)
    } else if !may_run(state, func.is_start_func) {
        Some(Error::InvalidArgument("instance must be ready, starting, or non-fatally faulted"))
    } else if func.ptr == 0 {
        Some(
            Error::InvalidArgument(
                "entrypoint function cannot be null; this is probably a malformed module",
            ),
        )
    } else if params.len() != args.len() {
        Some(
            Error::InvalidArgument(
                "entrypoint function signature mismatch (number of arguments is incorrect)",
            ),
        )
    } else if !args_match(params, args) {
        Some(Error::InvalidArgument("entrypoint function signature mismatch"))
    } else {
        None
    }
}

/// What the host does once control comes back from the guest.
#[derive(Debug)]
pub struct SwapOutcome {
    /// The result to report.
    pub result: Result<InternalRunResult, Error>,
    /// The instance returned or faulted, so outstanding kill switches must be invalidated. A
    /// yielded instance or one that reached its bound keeps its kill state, and so does a
    /// terminated one, which stays not terminable until it is reset.
    pub reset_kill_state: bool,
    /// The instance faulted fatally: its fatal handlers must run.
    pub fatal: bool,
}

impl Instance {
    pub closed spec fn state_spec(&self) -> State {
        self.state
    }

    pub closed spec fn alloc_spec(&self) -> Alloc {
        self.alloc
    }

    pub closed spec fn entrypoint_spec(&self) -> Option<FunctionHandle> {
        self.entrypoint
    }

    pub closed spec fn resumed_val_spec(&self) -> Option<DynVal> {
        self.resumed_val
    }

    pub closed spec fn implicits_spec(&self) -> InstanceRuntimeData {
        self.implicits
    }

    pub closed spec fn signal_handler_ensured(&self) -> bool {
        self.ensure_signal_handler_installed
    }

    pub closed spec fn sigstack_ensured(&self) -> bool {
        self.ensure_sigstack_installed
    }

    /// A new instance backed by `alloc`: ready, with no instructions counted, its globals pointer
    /// at the slot's globals, and its hostcall stack limit `hostcall_reservation` bytes above the
    /// bottom of the stack.
    pub fn new(alloc: Alloc) -> (r: Self)
        requires
            alloc.wf(),
            alloc.slot->0.stack + alloc.slot->0.limits.hostcall_reservation <= u64::MAX,
        ensures
            r.state_spec() is Ready,
            r.alloc_spec() == alloc,
            r.entrypoint_spec() is None,
            r.resumed_val_spec() is None,
            r.implicits_spec().globals_ptr == alloc.slot->0.globals,
            r.implicits_spec().instruction_count_spec() == 0,
            r.implicits_spec().stack_limit == alloc.slot->0.stack
                + alloc.slot->0.limits.hostcall_reservation,
            r.signal_handler_ensured(),
            r.sigstack_ensured(),
    {
        let globals_ptr = alloc.slot().globals;
        let mut inst = Instance {
            state: State::Ready,
            alloc,
            entrypoint: None,
            resumed_val: None,
            implicits: InstanceRuntimeData {
                globals_ptr,
                instruction_count_bound: 0,
                instruction_count_adj: 0,
                stack_limit: 0,
            },
            ensure_signal_handler_installed: true,
            ensure_sigstack_installed: true,
        };
        inst.implicits.set_instruction_count_and_bound(0, 0);
        inst.set_hostcall_stack_reservation();
        inst
    }

    pub fn state(&self) -> (r: &State)
        ensures
            *r == self.state_spec(),
    {
        &self.state
    }

    pub fn allocation(&self) -> (r: &Alloc)
        ensures
            *r == self.alloc_spec(),
    {
        &self.alloc
    }

    pub fn implicits(&self) -> (r: &InstanceRuntimeData)
        ensures
            *r == self.implicits_spec(),
    {
        &self.implicits
    }

    pub fn is_not_started(&self) -> (r: bool)
        ensures
            r == self.state_spec() is NotStarted,
    {
        self.state.is_not_started()
    }

    pub fn is_ready(&self) -> (r: bool)
        ensures
            r == self.state_spec() is Ready,
    {
        self.state.is_ready()
    }

    pub fn is_yielded(&self) -> (r: bool)
        ensures
            r == self.state_spec() is Yielded,
    {
        self.state.is_yielded()
    }

    pub fn is_bound_expired(&self) -> (r: bool)
        ensures
            r == self.state_spec() is BoundExpired,
    {
        self.state.is_bound_expired()
    }

    pub fn is_faulted(&self) -> (r: bool)
        ensures
            r == self.state_spec() is Faulted,
    {
        self.state.is_faulted()
    }

    pub fn is_terminated(&self) -> (r: bool)
        ensures
            r == self.state_spec() is Terminated,
    {
        self.state.is_terminated()
    }

    /// Set whether the runtime's signal handler is installed when running this instance.
    pub fn ensure_signal_handler_installed(&mut self, ensure: bool)
        ensures
            final(self).signal_handler_ensured() == ensure,
            final(self).sigstack_ensured() == old(self).sigstack_ensured(),
            final(self).state_spec() == old(self).state_spec(),
            final(self).alloc_spec() == old(self).alloc_spec(),
    {
        self.ensure_signal_handler_installed = ensure;
    }

    /// Set whether an alternate signal stack is installed while running this instance.
    pub fn ensure_sigstack_installed(&mut self, ensure: bool)
        ensures
            final(self).sigstack_ensured() == ensure,
            final(self).signal_handler_ensured() == old(self).signal_handler_ensured(),
            final(self).state_spec() == old(self).state_spec(),
            final(self).alloc_spec() == old(self).alloc_spec(),
    {
        self.ensure_sigstack_installed = ensure;
    }

    pub fn signal_handler_installation_ensured(&self) -> (r: bool)
        ensures
            r == self.signal_handler_ensured(),
    {
        self.ensure_signal_handler_installed
    }

    pub fn sigstack_installation_ensured(&self) -> (r: bool)
        ensures
            r == self.sigstack_ensured(),
    {
        self.ensure_sigstack_installed
    }

    /// The instructions executed so far, if the module counts them.
    pub fn get_instruction_count(&self, instrumented: bool) -> (r: Option<u64>)
        ensures
            r == (if instrumented {
                Some(self.implicits_spec().instruction_count_spec() as u64)
            } else {
                None
            }),
    {
        if instrumented {
            let sum = self.implicits.instruction_count();
            return Some(sum as u64);
        }
        None
    }

    /// Set the total instruction count and bound.
    pub fn set_instruction_count_and_bound(&mut self, instruction_count: u64, bound: u64)
        requires
            instruction_count <= i64::MAX,
            bound <= i64::MAX,
        ensures
            final(self).implicits_spec().instruction_count_spec() == instruction_count,
            final(self).implicits_spec().instruction_count_bound == bound,
            final(self).state_spec() == old(self).state_spec(),
            final(self).alloc_spec() == old(self).alloc_spec(),
    {
        self.implicits.set_instruction_count_and_bound(instruction_count, bound);
    }

    /// Set the instruction bound to be `delta` above the current count (unbounded when `delta`
    /// is `None`); a bound-yield triggers when the bound is crossed.
    pub fn set_instruction_bound_delta(&mut self, delta: Option<u64>)
        requires
            delta matches Some(d) ==> d <= i64::MAX,
        ensures
            final(self).implicits_spec().instruction_count_spec()
                == old(self).implicits_spec().instruction_count_spec(),
            final(self).implicits_spec().instruction_count_adj == -(match delta {
                Some(d) => d as i64,
                None => i64::MAX,
            }),
            final(self).state_spec() == old(self).state_spec(),
            final(self).alloc_spec() == old(self).alloc_spec(),
            final(self).entrypoint_spec() == old(self).entrypoint_spec(),
            final(self).resumed_val_spec() == old(self).resumed_val_spec(),
    {
        let ghost before = self.implicits;
        self.implicits.set_instruction_bound_delta(delta);
        proof {
            let d: i64 = match delta {
                Some(d) => d as i64,
                None => i64::MAX,
            };
            lemma_bound_delta_keeps_count(before, self.implicits, d);
        }
    }

    /// Place the hostcall stack limit `hostcall_reservation` bytes above the lowest address of the
    /// stack: the stack grows down towards it.
    pub fn set_hostcall_stack_reservation(&mut self)
        requires
            old(self).alloc_spec().slot is Some,
            old(self).alloc_spec().slot->0.stack + old(self).alloc_spec().slot->0.limits.hostcall_reservation
                <= u64::MAX,
        ensures
            final(self).implicits_spec().stack_limit == old(self).alloc_spec().slot->0.stack
                + old(self).alloc_spec().slot->0.limits.hostcall_reservation,
            final(self).implicits_spec().instruction_count_bound
                == old(self).implicits_spec().instruction_count_bound,
            final(self).implicits_spec().instruction_count_adj
                == old(self).implicits_spec().instruction_count_adj,
            final(self).implicits_spec().globals_ptr == old(self).implicits_spec().globals_ptr,
            final(self).state_spec() == old(self).state_spec(),
            final(self).alloc_spec() == old(self).alloc_spec(),
            final(self).entrypoint_spec() == old(self).entrypoint_spec(),
            final(self).resumed_val_spec() == old(self).resumed_val_spec(),
            final(self).signal_handler_ensured() == old(self).signal_handler_ensured(),
            final(self).sigstack_ensured() == old(self).sigstack_ensured(),
    {
        let slot = self.alloc.slot();
        let reservation = slot.limits.hostcall_reservation;
        self.implicits.stack_limit = slot.stack as u64 + reservation as u64;
    }

    /// Does the range of `len` bytes at `ptr` overlap the memory that backs the instance's
    /// accessible heap?
    pub fn check_heap(&self, ptr: usize, len: usize) -> (r: bool)
        requires
            self.alloc_spec().wf(),
            ptr + len <= usize::MAX,
        ensures
            r == ({
                let heap_start = self.alloc_spec().slot->0.heap;
                let heap_end = heap_start + self.alloc_spec().heap_accessible_size;
                ptr < heap_end && heap_start < ptr + len
            }),
    {
        let heap_start = self.alloc.slot().heap;
        let heap_end = heap_start + self.alloc.heap_len();
        ptr < heap_end && heap_start < ptr + len
    }
}


fn clone_string(s: &Option<String>) -> (r: Option<String>)
    ensures
        r == *s,
{
    match s {
        Some(x) => Some(x.clone()),
        None => None,
    }
}

fn clone_addr_details(d: &Option<AddrDetails>) -> (r: Option<AddrDetails>)
    ensures
        r == *d,
{
    match d {
        Some(x) => Some(
            AddrDetails {
                in_module_code: x.in_module_code,
                file_name: clone_string(&x.file_name),
                sym_name: clone_string(&x.sym_name),
            },
        ),
        None => None,
    }
}

fn clone_fault_details(d: &FaultDetails) -> (r: FaultDetails)
    ensures
        r == *d,
{
    FaultDetails {
        fatal: d.fatal,
        trapcode: d.trapcode,
        rip_addr: d.rip_addr,
        rip_addr_details: clone_addr_details(&d.rip_addr_details),
    }
}

/// The state, result and follow-up actions once control comes back from the guest, which left
/// the instance in state `st`.
pub open spec fn swap_outcome_spec(
    st: State,
    retval: UntypedRetVal,
    fault_addr_details: Option<AddrDetails>,
) -> (State, SwapOutcome) {
    let reset = !(st is Yielding || st is BoundExpired || st is Terminating);
    match st {
        State::Running { .. } => (
            State::Ready,
            SwapOutcome {
                result: Ok(InternalRunResult::Normal(RunResult::Returned(retval))),
                reset_kill_state: reset,
                fatal: false,
            },
        ),
        State::Terminating { details } => (
            State::Terminated,
            SwapOutcome {
                result: Err(Error::RuntimeTerminated(details)),
                reset_kill_state: reset,
                fatal: false,
            },
        ),
        State::Yielding { val, expecting } => (
            State::Yielded { expecting },
            SwapOutcome {
                result: Ok(InternalRunResult::Normal(RunResult::Yielded(val))),
                reset_kill_state: reset,
                fatal: false,
            },
        ),
        State::Faulted { details, siginfo } => {
            let d = FaultDetails { rip_addr_details: fault_addr_details, ..details };
            (
                State::Faulted { details: d, siginfo },
                SwapOutcome {
                    result: Err(Error::RuntimeFault(d)),
                    reset_kill_state: reset,
                    fatal: d.fatal,
                },
            )
        },
        State::BoundExpired => (
            State::BoundExpired,
            SwapOutcome {
                result: Ok(InternalRunResult::BoundExpired),
                reset_kill_state: reset,
                fatal: false,
            },
        ),
        _ => (
            State::Transitioning,
            SwapOutcome {
                result: Err(Error::InternalError("impossible state found in `swap_and_return()`")),
                reset_kill_state: reset,
                fatal: false,
            },
        ),
    }
}

impl Instance {
    /// Check that `func` may be run with `args`, given the parameter types `params` of its
    /// signature, and prepare the instance to run it within `inst_count_bound` instructions.
    pub fn prepare_run_func(
        &mut self,
        func: FunctionHandle,
        params: &[ValueType],
        args: &[Val],
        inst_count_bound: Option<u64>,
    ) -> (r: Result<(), Error>)
        requires
            inst_count_bound matches Some(d) ==> d <= i64::MAX,
        ensures
            final(self).state_spec() == old(self).state_spec(),
            final(self).alloc_spec() == old(self).alloc_spec(),
            final(self).resumed_val_spec() == old(self).resumed_val_spec(),
            final(self).implicits_spec().instruction_count_spec()
                == old(self).implicits_spec().instruction_count_spec(),
            run_refusal(old(self).state_spec(), func, params@, args@) matches Some(e) ==> r == Err::<
                (),
                Error,
            >(e) && final(self).entrypoint_spec() == old(self).entrypoint_spec(),
            run_refusal(old(self).state_spec(), func, params@, args@) is None ==> r is Ok
                && final(self).entrypoint_spec() == Some(func)
                && final(self).implicits_spec().instruction_count_adj == -(match inst_count_bound {
                Some(d) => d as i64,
                None => i64::MAX,
            }),
    {
        let needs_start = self.state.is_not_started() && !func.is_start_func;
        if needs_start {
            return Err(Error::InstanceNeedsStart);
        }
        let is_ready = self.state.is_ready();
        let is_starting = self.state.is_not_started() && func.is_start_func;
        let is_non_fatally_faulted = self.state.is_faulted() && !self.state.is_fatal();
        if !(is_ready || is_starting || is_non_fatally_faulted) {
            return Err(
                Error::InvalidArgument("instance must be ready, starting, or non-fatally faulted"),
            );
        }
        if func.ptr == 0 {
            return Err(
                Error::InvalidArgument(
                    "entrypoint function cannot be null; this is probably a malformed module",
                ),
            );
        }
        if params.len() != args.len() {
            return Err(
                Error::InvalidArgument(
                    "entrypoint function signature mismatch (number of arguments is incorrect)",
                ),
            );
        }
        let mut i: usize = 0;
        while i < params.len()
            invariant
                params@.len() == args@.len(),
                0 <= i <= params@.len(),
                !(self.state is NotStarted && !func.is_start_func),
                may_run(self.state, func.is_start_func),
                func.ptr != 0,
                forall|j: int| 0 <= j < i ==> params@[j] == #[trigger] args@[j].value_type_spec(),
            decreases params@.len() - i,
        {
            if params[i] != args[i].value_type() {
                assert(params@[i as int] != args@[i as int].value_type_spec());
                return Err(Error::InvalidArgument("entrypoint function signature mismatch"));
            }
            i = i + 1;
        }
        self.entrypoint = Some(func);
        self.set_instruction_bound_delta(inst_count_bound);
        Ok(())
    }

    /// What running the instance with signals on takes: whether its own signal stack is set up
    /// for the thread (it must then be large enough for the runtime's signal handler in a build of
    /// the given profile), and whether it uses the runtime's signal handler.
    pub fn signal_setup(&self, profile: BuildProfile) -> (r: Result<SignalSetup, Error>)
        requires
            self.alloc_spec().slot is Some,
        ensures
            ({
                let size = self.alloc_spec().slot->0.limits.signal_stack_size;
                if self.sigstack_ensured() && sigstack_size_failure(size, profile) is Some {
                    r == Err::<SignalSetup, Error>(
                        Error::InvalidArgument(sigstack_size_failure(size, profile)->0),
                    )
                } else {
                    r == Ok::<SignalSetup, Error>(
                        SignalSetup {
                            install_sigstack: self.sigstack_ensured(),
                            use_handler: self.signal_handler_ensured(),
                        },
                    )
                }
            }),
    {
        if self.ensure_sigstack_installed {
            let size = self.alloc.slot().limits.signal_stack_size;
            match validate_sigstack_size(size, profile) {
                Ok(()) => {},
                Err(e) => {
                    return Err(e);
                },
            }
        }
        Ok(
            SignalSetup {
                install_sigstack: self.ensure_sigstack_installed,
                use_handler: self.ensure_signal_handler_installed,
            },
        )
    }

    /// Record the outcome of a signal caught while the guest runs: the instance's new state, or
    /// `None` when the guest just continues. Returns whether to switch to the host. Before that
    /// switch, termination is disabled so that no kill switch fires in host code, and an alarm
    /// already on its way is ignored from then on.
    pub fn record_signal_outcome(&mut self, kill_state: &mut KillState, outcome: Option<State>) -> (r:
        bool)
        requires
            !old(kill_state).terminable_spec() ==> !old(kill_state).ignore_alarm_spec(),
        ensures
            r == outcome is Some,
            outcome matches Some(st) ==> {
                &&& final(self).state_spec() == st
                &&& !final(kill_state).terminable_spec()
                &&& final(kill_state).ignore_alarm_spec() == (old(kill_state).ignore_alarm_spec()
                    || !old(kill_state).terminable_spec())
                &&& final(kill_state).domain_spec() == old(kill_state).domain_spec()
                &&& final(kill_state).thread_spec() == old(kill_state).thread_spec()
                &&& final(kill_state).generation_spec() == old(kill_state).generation_spec()
            },
            outcome is None ==> final(self).state_spec() == old(self).state_spec(),
            outcome is None ==> *final(kill_state) == *old(kill_state),
            final(self).alloc_spec() == old(self).alloc_spec(),
            final(self).entrypoint_spec() == old(self).entrypoint_spec(),
            final(self).resumed_val_spec() == old(self).resumed_val_spec(),
            final(self).implicits_spec() == old(self).implicits_spec(),
    {
        match outcome {
            Some(st) => {
                self.state = st;
                let _silenced = disable_termination_for_host(kill_state);
                true
            },
            None => false,
        }
    }

    /// Handle a signal caught while the guest runs: decide the instance's new state from the
    /// signal, the kill state's alarm and where the faulting address falls in the instance's
    /// memory, and record it as `record_signal_outcome` does. Returns whether to switch to the
    /// host.
    pub fn handle_guest_signal(&mut self, kill_state: &mut KillState, signal: GuestSignal) -> (r:
        bool)
        requires
            old(self).alloc_spec().wf(),
            !old(kill_state).terminable_spec() ==> !old(kill_state).ignore_alarm_spec(),
        ensures
            ({
                let fault_addr = match signal {
                    GuestSignal::Fault { siginfo, .. } => siginfo.addr as int,
                    GuestSignal::Alarm => 0,
                };
                let location = old(self).alloc_spec().slot->0.locate(
                    old(self).alloc_spec().heap_accessible_size as int,
                    fault_addr,
                );
                let outcome = guest_signal_outcome(
                    signal,
                    !old(kill_state).ignore_alarm_spec(),
                    location,
                );
                &&& r == outcome is Some
                &&& outcome matches Some(st) ==> {
                    &&& final(self).state_spec() == st
                    &&& !final(kill_state).terminable_spec()
                    &&& final(kill_state).ignore_alarm_spec() == (
                    old(kill_state).ignore_alarm_spec() || !old(kill_state).terminable_spec())
                    &&& final(kill_state).domain_spec() == old(kill_state).domain_spec()
                    &&& final(kill_state).thread_spec() == old(kill_state).thread_spec()
                    &&& final(kill_state).generation_spec() == old(kill_state).generation_spec()
                }
                &&& outcome is None ==> final(self).state_spec() == old(self).state_spec()
                    && *final(kill_state) == *old(kill_state)
            }),
            final(self).alloc_spec() == old(self).alloc_spec(),
            final(self).entrypoint_spec() == old(self).entrypoint_spec(),
            final(self).resumed_val_spec() == old(self).resumed_val_spec(),
            final(self).implicits_spec() == old(self).implicits_spec(),
    {
        let outcome = match signal {
            GuestSignal::Alarm => alarm_outcome(kill_state.alarm_active()),
            GuestSignal::Fault { behavior, trapcode, rip_addr, siginfo } => {
                let location = self.alloc.addr_location(siginfo.addr);
                fault_outcome(behavior, trapcode, rip_addr, siginfo, location)
            },
        };
        self.record_signal_outcome(kill_state, outcome)
    }

    /// Enter the guest region at the start of a run: an instance that is pending starts running
    /// guest code; one that a kill switch cancelled before it began is terminated remotely instead,
    /// and goes straight back to the host without running any guest code.
    pub fn enter_guest_region(&mut self, kill_state: &mut KillState) -> (r: GuestEntry)
        requires
            old(kill_state).domain_spec() == Domain::Pending || old(kill_state).domain_spec()
                == Domain::Cancelled,
        ensures
            (final(kill_state).domain_spec(), r) == enter_guest_spec(old(kill_state).domain_spec()),
            r == GuestEntry::Terminate ==> final(self).state_spec() == (State::Terminating {
                details: TerminationDetails::Remote,
            }),
            r == GuestEntry::Run ==> final(self).state_spec() == old(self).state_spec(),
            final(kill_state).terminable_spec() == old(kill_state).terminable_spec(),
            final(kill_state).thread_spec() == old(kill_state).thread_spec(),
            final(kill_state).ignore_alarm_spec() == old(kill_state).ignore_alarm_spec(),
            final(kill_state).generation_spec() == old(kill_state).generation_spec(),
            final(self).alloc_spec() == old(self).alloc_spec(),
            final(self).entrypoint_spec() == old(self).entrypoint_spec(),
            final(self).resumed_val_spec() == old(self).resumed_val_spec(),
            final(self).implicits_spec() == old(self).implicits_spec(),
    {
        let entry = kill_state.enter_guest();
        match entry {
            GuestEntry::Run => {},
            GuestEntry::Terminate => {
                self.state = State::Terminating { details: TerminationDetails::Remote };
            },
        }
        entry
    }

    /// Mark the instance as running, just before switching to the guest.
    pub fn begin_swap(&mut self, async_context: bool)
        ensures
            final(self).state_spec() == (State::Running { async_context }),
            final(self).alloc_spec() == old(self).alloc_spec(),
            final(self).entrypoint_spec() == old(self).entrypoint_spec(),
            final(self).resumed_val_spec() == old(self).resumed_val_spec(),
            final(self).implicits_spec() == old(self).implicits_spec(),
    {
        self.state = State::Running { async_context };
    }

    /// Setting up or tearing down the switch to the guest failed: an instance that is still
    /// running never entered the guest, and goes back to where it was.
    pub fn abandon_swap(&mut self)
        requires
            old(self).entrypoint_spec() is Some,
        ensures
            old(self).state_spec() is Running ==> final(self).state_spec() == (if old(
                self,
            ).entrypoint_spec()->0.is_start_func {
                State::NotStarted
            } else {
                State::Ready
            }),
            !(old(self).state_spec() is Running) ==> final(self).state_spec() == old(
                self,
            ).state_spec(),
            final(self).alloc_spec() == old(self).alloc_spec(),
            final(self).entrypoint_spec() == old(self).entrypoint_spec(),
            final(self).implicits_spec() == old(self).implicits_spec(),
    {
        if self.state.is_running() {
            let is_start_func = match &self.entrypoint {
                Some(f) => f.is_start_func,
                None => false,
            };
            if is_start_func {
                self.state = State::NotStarted;
            } else {
                self.state = State::Ready;
            }
        }
    }

    /// Extract the result once control comes back from the guest: a returning instance becomes
    /// ready, a yielding one yielded, a terminating one terminated; a faulted one keeps its fault,
    /// completed with the details of the faulting address.
    pub fn finish_swap(
        &mut self,
        retval: UntypedRetVal,
        fault_addr_details: Option<AddrDetails>,
    ) -> (r: SwapOutcome)
        ensures
            (final(self).state_spec(), r) == swap_outcome_spec(
                old(self).state_spec(),
                retval,
                fault_addr_details,
            ),
            final(self).alloc_spec() == old(self).alloc_spec(),
            final(self).entrypoint_spec() == old(self).entrypoint_spec(),
            final(self).resumed_val_spec() == old(self).resumed_val_spec(),
            final(self).implicits_spec() == old(self).implicits_spec(),
    {
        let mut st = State::Transitioning;
        std::mem::swap(&mut st, &mut self.state);
        let reset_kill_state = !(st.is_yielding() || st.is_bound_expired() || matches!(
            st,
            State::Terminating { .. }
        ));
        match st {
            State::Running { .. } => {
                self.state = State::Ready;
                SwapOutcome {
                    result: Ok(InternalRunResult::Normal(RunResult::Returned(retval))),
                    reset_kill_state,
                    fatal: false,
                }
            },
            State::Terminating { details } => {
                self.state = State::Terminated;
                SwapOutcome {
                    result: Err(Error::RuntimeTerminated(details)),
                    reset_kill_state,
                    fatal: false,
                }
            },
            State::Yielding { val, expecting } => {
                self.state = State::Yielded { expecting };
                SwapOutcome {
                    result: Ok(InternalRunResult::Normal(RunResult::Yielded(val))),
                    reset_kill_state,
                    fatal: false,
                }
            },
            State::Faulted { details, siginfo } => {
                let mut details = details;
                details.rip_addr_details = fault_addr_details;
                let fatal = details.fatal;
                self.state = State::Faulted { details: clone_fault_details(&details), siginfo };
                SwapOutcome { result: Err(Error::RuntimeFault(details)), reset_kill_state, fatal }
            },
            State::BoundExpired => {
                self.state = State::BoundExpired;
                SwapOutcome {
                    result: Ok(InternalRunResult::BoundExpired),
                    reset_kill_state,
                    fatal: false,
                }
            },
            _ => SwapOutcome {
                result: Err(Error::InternalError("impossible state found in `swap_and_return()`")),
                reset_kill_state,
                fatal: false,
            },
        }
    }

    /// The error refusing to resume the instance with a value of kind `kind`, if any.
    pub open spec fn resume_refusal(&self, kind: DynKind) -> Option<Error> {
        match self.state_spec() {
            State::Yielded { expecting } => if expecting != kind {
                Some(
                    Error::InvalidArgument(
                        "type mismatch between yielded instance expected value and resumed value",
                    ),
                )
            } else {
                None
            },
            _ => Some(Error::InvalidArgument("can only resume a yielded instance")),
        }
    }

    /// Check that the instance may be resumed with `val`, hand `val` to the guest, and bound the
    /// resumed execution by `max_insn_count` instructions.
    pub fn prepare_resume_with_val<A: DynValue>(&mut self, val: A, max_insn_count: Option<u64>) -> (r:
        Result<(), Error>)
        requires
            max_insn_count matches Some(d) ==> d <= i64::MAX,
        ensures
            final(self).state_spec() == old(self).state_spec(),
            final(self).alloc_spec() == old(self).alloc_spec(),
            final(self).entrypoint_spec() == old(self).entrypoint_spec(),
            final(self).implicits_spec().instruction_count_spec()
                == old(self).implicits_spec().instruction_count_spec(),
            old(self).resume_refusal(A::dyn_kind()) matches Some(e) ==> r == Err::<(), Error>(e)
                && final(self).resumed_val_spec() == old(self).resumed_val_spec(),
            old(self).resume_refusal(A::dyn_kind()) is None ==> r is Ok
                && final(self).resumed_val_spec() == Some(val.to_dyn_spec())
                && final(self).implicits_spec().instruction_count_adj == -(match max_insn_count {
                Some(d) => d as i64,
                None => i64::MAX,
            }),
    {
        match &self.state {
            State::Yielded { expecting } => {
                if *expecting != A::kind() {
                    return Err(
                        Error::InvalidArgument(
                            "type mismatch between yielded instance expected value and resumed value",
                        ),
                    );
                }
            },
            _ => {
                return Err(Error::InvalidArgument("can only resume a yielded instance"));
            },
        }
        self.resumed_val = Some(val.into_dyn());
        self.set_instruction_bound_delta(max_insn_count);
        Ok(())
    }

    /// Check that the instance reached an instruction bound, and bound its resumed execution by
    /// `max_insn_count` instructions.
    pub fn prepare_resume_bounded(&mut self, max_insn_count: u64) -> (r: Result<(), Error>)
        requires
            max_insn_count <= i64::MAX,
        ensures
            r is Ok <==> old(self).state_spec() is BoundExpired,
            r is Err ==> r == Err::<(), Error>(
                Error::InvalidArgument(
                    "can only call resume_bounded() on an instance that hit an instruction bound",
                ),
            ),
            final(self).state_spec() == old(self).state_spec(),
            final(self).implicits_spec().instruction_count_spec()
                == old(self).implicits_spec().instruction_count_spec(),
            r is Ok ==> final(self).implicits_spec().instruction_count_adj == -(
            max_insn_count as i64),
    {
        if !self.state.is_bound_expired() {
            return Err(
                Error::InvalidArgument(
                    "can only call resume_bounded() on an instance that hit an instruction bound",
                ),
            );
        }
        self.set_instruction_bound_delta(Some(max_insn_count));
        Ok(())
    }

    /// Whether the start function must be run now: there is one, and it has not run since the
    /// instance was created or reset; `Error::StartAlreadyRun` if it has.
    pub fn start_needed(&self, has_start_func: bool) -> (r: Result<bool, Error>)
        ensures
            !has_start_func ==> r == Ok::<bool, Error>(false),
            has_start_func && self.state_spec() is NotStarted ==> r == Ok::<bool, Error>(true),
            has_start_func && !(self.state_spec() is NotStarted) ==> r == Err::<bool, Error>(
                Error::StartAlreadyRun,
            ),
    {
        if has_start_func {
            if !self.is_not_started() {
                return Err(Error::StartAlreadyRun);
            }
            return Ok(true);
        }
        Ok(false)
    }

    /// Finish resetting the instance once the region has answered the reset of its heap
    /// (`heap_result`): the globals of the instance (`globals`) take the initial values of the
    /// module's globals (`module_globals`, by index), the instance must then run its start
    /// function, if the module has one, before anything else, and its kill state is renewed, so
    /// that every kill switch issued before the reset is invalid.
    ///
    /// A failed heap reset, or a module that imports globals, leaves the instance, its globals and
    /// its kill state as they were; imports are found before any global is written.
    pub fn finish_reset(
        &mut self,
        heap_result: Result<(), Error>,
        has_start_func: bool,
        has_global_imports: bool,
        module_globals: &[i64],
        globals: &mut Vec<i64>,
        kill_state: &mut KillState,
    ) -> (r: Result<(), Error>)
        requires
            module_globals@.len() <= old(globals)@.len(),
        ensures
            heap_result matches Err(e) ==> r == Err::<(), Error>(e),
            heap_result is Ok && has_global_imports ==> r == Err::<(), Error>(
                Error::Unsupported("global imports are unsupported"),
            ),
            heap_result is Ok && !has_global_imports ==> {
                &&& r is Ok
                &&& final(globals)@ == module_globals@ + old(globals)@.skip(
                    module_globals@.len() as int,
                )
                &&& final(self).state_spec() == (if has_start_func {
                    State::NotStarted
                } else {
                    State::Ready
                })
                &&& final(kill_state).terminable_spec()
                &&& final(kill_state).domain_spec() == Domain::Pending
                &&& final(kill_state).thread_spec() is None
                &&& !final(kill_state).ignore_alarm_spec()
                &&& final(kill_state).generation_spec() != old(kill_state).generation_spec()
            },
            r is Err ==> {
                &&& final(self).state_spec() == old(self).state_spec()
                &&& final(globals)@ == old(globals)@
                &&& *final(kill_state) == *old(kill_state)
            },
            final(self).alloc_spec() == old(self).alloc_spec(),
            final(self).entrypoint_spec() == old(self).entrypoint_spec(),
            final(self).resumed_val_spec() == old(self).resumed_val_spec(),
            final(self).implicits_spec() == old(self).implicits_spec(),
    {
        match heap_result {
            Ok(()) => {},
            Err(e) => {
                return Err(e);
            },
        }
        if has_global_imports {
            return Err(Error::Unsupported("global imports are unsupported"));
        }
        let n = module_globals.len();
        let mut i: usize = 0;
        while i < n
            invariant
                n == module_globals@.len(),
                i <= n,
                globals@.len() == old(globals)@.len(),
                n <= globals@.len(),
                forall|j: int| 0 <= j < i ==> globals@[j] == module_globals@[j],
                forall|j: int| i <= j < globals@.len() ==> globals@[j] == old(globals)@[j],
            decreases n - i,
        {
            globals.set(i, module_globals[i]);
            i = i + 1;
        }
        assert(globals@ =~= module_globals@ + old(globals)@.skip(n as int));
        if has_start_func {
            self.state = State::NotStarted;
        } else {
            self.state = State::Ready;
        }
        kill_state.renew();
        Ok(())
    }

    /// Reset the instance's heap to the `initial_size` bytes of its module, through `region`, and
    /// then its globals, state and kill state as `finish_reset` describes.
    pub fn reset<R: RegionMemory>(
        &mut self,
        initial_size: usize,
        has_start_func: bool,
        has_global_imports: bool,
        module_globals: &[i64],
        globals: &mut Vec<i64>,
        kill_state: &mut KillState,
        region: &R,
    ) -> (r: Result<(), Error>)
        requires
            old(self).alloc_spec().wf(),
            initial_size <= old(self).alloc_spec().slot->0.limits.heap_address_space_size,
            module_globals@.len() <= old(globals)@.len(),
        ensures
            final(self).alloc_spec().wf(),
            final(self).alloc_spec().slot == old(self).alloc_spec().slot,
            r is Ok ==> {
                &&& !has_global_imports
                &&& final(self).alloc_spec().heap_accessible_size == initial_size
                &&& final(globals)@ == module_globals@ + old(globals)@.skip(
                    module_globals@.len() as int,
                )
                &&& final(self).state_spec() == (if has_start_func {
                    State::NotStarted
                } else {
                    State::Ready
                })
                &&& final(kill_state).terminable_spec()
                &&& final(kill_state).domain_spec() == Domain::Pending
                &&& final(kill_state).thread_spec() is None
                &&& !final(kill_state).ignore_alarm_spec()
                &&& final(kill_state).generation_spec() != old(kill_state).generation_spec()
            },
            r is Err ==> {
                &&& final(self).state_spec() == old(self).state_spec()
                &&& final(globals)@ == old(globals)@
                &&& *final(kill_state) == *old(kill_state)
            },
            has_global_imports ==> r is Err,
            r is Err && !has_global_imports ==> final(self).alloc_spec() == old(self).alloc_spec(),
            final(self).entrypoint_spec() == old(self).entrypoint_spec(),
            final(self).resumed_val_spec() == old(self).resumed_val_spec(),
            final(self).implicits_spec() == old(self).implicits_spec(),
    {
        let heap_result = self.alloc.reset_heap(initial_size, region);
        self.finish_reset(
            heap_result,
            has_start_func,
            has_global_imports,
            module_globals,
            globals,
            kill_state,
        )
    }

    /// Grow the guest memory by `additional_pages` WebAssembly pages; on success, returns the
    /// number of pages before the call.
    pub fn grow_memory<R: RegionMemory>(
        &mut self,
        additional_pages: u32,
        heap_spec: Option<HeapSpec>,
        region: &R,
    ) -> (r: Result<u32, Error>)
        requires
            old(self).alloc_spec().wf(),
        ensures
            final(self).alloc_spec().wf(),
            final(self).state_spec() == old(self).state_spec(),
            final(self).alloc_spec().slot == old(self).alloc_spec().slot,
            additional_pages * WASM_PAGE_SIZE > u32::MAX ==> r == Err::<u32, Error>(
                Error::InternalError("additional pages larger than wasm address space"),
            ),
            r matches Ok(n) ==> {
                &&& n == (old(self).alloc_spec().heap_accessible_size as u32) / WASM_PAGE_SIZE
                &&& additional_pages == 0 || (final(self).alloc_spec().heap_accessible_size as int,
                final(self).alloc_spec().heap_inaccessible_size as int) == expanded(
                    old(self).alloc_spec(),
                    page_align_up(additional_pages * WASM_PAGE_SIZE),
                )
            },
            additional_pages != 0 && additional_pages * WASM_PAGE_SIZE <= u32::MAX ==> (old(
                self,
            ).alloc_spec().expansion_refusal((additional_pages * WASM_PAGE_SIZE) as u32, heap_spec)
                matches Some(e) ==> r == Err::<u32, Error>(e)),
            r is Err ==> final(self).alloc_spec().heap_accessible_size == old(
                self,
            ).alloc_spec().heap_accessible_size,
    {
        let additional_bytes = match additional_pages.checked_mul(WASM_PAGE_SIZE) {
            Some(b) => b,
            None => {
                return Err(Error::InternalError("additional pages larger than wasm address space"));
            },
        };
        assert(additional_bytes == additional_pages * WASM_PAGE_SIZE);
        assert(additional_pages == 0 || additional_pages * 65536 >= 65536) by (nonlinear_arith);
        let orig_len = match self.alloc.expand_heap(additional_bytes, heap_spec, region) {
            Ok(n) => n,
            Err(e) => {
                return Err(e);
            },
        };

        Ok(orig_len / WASM_PAGE_SIZE)
    }

    /// Grow the guest memory by `additional_pages` WebAssembly pages on behalf of a hostcall.
    ///
    /// `limiter_allows` is the verdict of the instance's memory limiter on the growth from and to
    /// the sizes `memory_growth_request` gives, or `None` when the instance has no limiter. The sizes
    /// are checked first, then the verdict, then the growth is attempted. The embedding reports
    /// each error this returns to the instance's memory limiter, when it has one.
    pub fn grow_memory_from_hostcall<R: RegionMemory>(
        &mut self,
        additional_pages: u32,
        limiter_allows: Option<bool>,
        heap_spec: Option<HeapSpec>,
        region: &R,
    ) -> (r: Result<u32, Error>)
        requires
            old(self).alloc_spec().wf(),
        ensures
            final(self).alloc_spec().wf(),
            final(self).state_spec() == old(self).state_spec(),
            final(self).alloc_spec().slot == old(self).alloc_spec().slot,
            additional_pages * WASM_PAGE_SIZE > u32::MAX ==> r == Err::<u32, Error>(
                Error::InternalError("additional pages larger than wasm address space"),
            ),
            additional_pages * WASM_PAGE_SIZE <= u32::MAX && old(self).alloc_spec().heap_accessible_size
                + additional_pages * WASM_PAGE_SIZE > usize::MAX ==> r == Err::<u32, Error>(
                Error::InternalError("desired bytes overflow"),
            ),
            additional_pages * WASM_PAGE_SIZE <= u32::MAX && old(self).alloc_spec().heap_accessible_size
                + additional_pages * WASM_PAGE_SIZE <= usize::MAX && limiter_allows == Some(false)
                ==> r == Err::<u32, Error>(Error::InternalError("memory limiter denied growth")),
            r matches Ok(n) ==> {
                &&& limiter_allows != Some(false)
                &&& n == (old(self).alloc_spec().heap_accessible_size as u32) / WASM_PAGE_SIZE
                &&& additional_pages == 0 || (final(self).alloc_spec().heap_accessible_size as int,
                final(self).alloc_spec().heap_inaccessible_size as int) == expanded(
                    old(self).alloc_spec(),
                    page_align_up(additional_pages * WASM_PAGE_SIZE),
                )
            },
            additional_pages != 0 && additional_pages * WASM_PAGE_SIZE <= u32::MAX && old(
                self,
            ).alloc_spec().heap_accessible_size + additional_pages * WASM_PAGE_SIZE <= usize::MAX
                && limiter_allows != Some(false) ==> (old(self).alloc_spec().expansion_refusal(
                (additional_pages * WASM_PAGE_SIZE) as u32,
                heap_spec,
            ) matches Some(e) ==> r == Err::<u32, Error>(e)),
            r is Err ==> final(self).alloc_spec().heap_accessible_size == old(
                self,
            ).alloc_spec().heap_accessible_size,
    {
        match self.memory_growth_request(additional_pages) {
            Ok(_) => {},
            Err(e) => {
                return Err(e);
            },
        }
        if let Some(false) = limiter_allows {
            return Err(Error::InternalError("memory limiter denied growth"));
        }
        self.grow_memory(additional_pages, heap_spec, region)
    }

    /// The current and desired sizes of the heap, in bytes, for growing it by `additional_pages`
    /// WebAssembly pages.
    pub fn memory_growth_request(&self, additional_pages: u32) -> (r: Result<(usize, usize), Error>)
        ensures
            additional_pages * WASM_PAGE_SIZE > u32::MAX ==> r == Err::<(usize, usize), Error>(
                Error::InternalError("additional pages larger than wasm address space"),
            ),
            additional_pages * WASM_PAGE_SIZE <= u32::MAX && self.alloc_spec().heap_accessible_size
                + additional_pages * WASM_PAGE_SIZE > usize::MAX ==> r == Err::<
                (usize, usize),
                Error,
            >(Error::InternalError("desired bytes overflow")),
            r matches Ok((current, desired)) ==> current == self.alloc_spec().heap_accessible_size
                && desired == current + additional_pages * WASM_PAGE_SIZE,
            additional_pages * WASM_PAGE_SIZE <= u32::MAX && self.alloc_spec().heap_accessible_size
                + additional_pages * WASM_PAGE_SIZE <= usize::MAX ==> r is Ok,
    {
        let current_bytes = self.alloc.heap_len();
        let additional_bytes = match additional_pages.checked_mul(WASM_PAGE_SIZE) {
            Some(b) => b as usize,
            None => {
                return Err(Error::InternalError("additional pages larger than wasm address space"));
            },
        };
        let desired_bytes = match additional_bytes.checked_add(current_bytes) {
            Some(d) => d,
            None => {
                return Err(Error::InternalError("desired bytes overflow"));
            },
        };
        Ok((current_bytes, desired_bytes))
    }

    /// Take the value the instance was resumed with, if it is of type `R`; a value of another
    /// type is left in place.
    pub fn take_resumed_val<R: DynValue>(&mut self) -> (r: Option<R>)
        ensures
            final(self).state_spec() == old(self).state_spec(),
            final(self).alloc_spec() == old(self).alloc_spec(),
            old(self).resumed_val_spec() is Some && old(self).resumed_val_spec()->0.kind_spec()
                == R::dyn_kind() ==> (r matches Some(v) && v.to_dyn_spec() == old(
                self,
            ).resumed_val_spec()->0) && final(self).resumed_val_spec() is None,
            !(old(self).resumed_val_spec() matches Some(d) && d.kind_spec() == R::dyn_kind()) ==> r
                is None && final(self).resumed_val_spec() == old(self).resumed_val_spec(),
    {
        match self.resumed_val.take() {
            Some(val) => match R::from_dyn(val) {
                Ok(v) => Some(v),
                Err(val) => {
                    self.resumed_val = Some(val);
                    None
                },
            },
            None => None,
        }
    }

    /// Take the value the instance was resumed with, which the guest expects to be of type `R`;
    /// otherwise the guest must terminate with `TerminationDetails::YieldTypeMismatch`.
    pub fn take_expected_resumed_val<R: DynValue>(&mut self) -> (r: Result<R, TerminationDetails>)
        ensures
            final(self).state_spec() == old(self).state_spec(),
            final(self).alloc_spec() == old(self).alloc_spec(),
            old(self).resumed_val_spec() matches Some(d) && d.kind_spec() == R::dyn_kind() ==> (r matches Ok(
                v,
            ) && v.to_dyn_spec() == old(self).resumed_val_spec()->0) && final(self).resumed_val_spec() is None,
            !(old(self).resumed_val_spec() matches Some(d) && d.kind_spec() == R::dyn_kind()) ==> (r matches Err(
                TerminationDetails::YieldTypeMismatch,
            )) && final(self).resumed_val_spec() == old(self).resumed_val_spec(),
    {
        match self.take_resumed_val::<R>() {
            Some(v) => Ok(v),
            None => Err(TerminationDetails::YieldTypeMismatch),
        }
    }

    /// Suspend the instance: it yields `val` to the host and expects to be resumed with a value of
    /// type `R`, or, at the expiration of an instruction bound, it only reports the bound.
    pub fn yield_impl<A: DynValue, R: DynValue>(&mut self, val: A, is_bound_expiration: bool)
        ensures
            is_bound_expiration ==> final(self).state_spec() is BoundExpired,
            !is_bound_expiration ==> (final(self).state_spec() matches State::Yielding {
                val: yv,
                expecting,
            } && yv.val_spec() == val.to_dyn_spec() && expecting == R::dyn_kind()),
            final(self).alloc_spec() == old(self).alloc_spec(),
            final(self).resumed_val_spec() == old(self).resumed_val_spec(),
            final(self).implicits_spec() == old(self).implicits_spec(),
    {
        if is_bound_expiration {
            self.state = State::BoundExpired;
        } else {
            self.state = State::Yielding { val: YieldedVal::new(val), expecting: R::kind() };
        }
    }

    /// Whether the running instance may block on a future: only in an async context; otherwise it
    /// must terminate with `TerminationDetails::BlockOnNeedsAsync`.
    pub fn block_on_allowed(&self) -> (r: Result<(), TerminationDetails>)
        requires
            self.state_spec() is Running,
        ensures
            self.state_spec() matches State::Running { async_context } && (async_context <==> r is Ok),
            r is Err ==> r matches Err(TerminationDetails::BlockOnNeedsAsync),
    {
        match &self.state {
            State::Running { async_context } => {
                if !*async_context {
                    return Err(TerminationDetails::BlockOnNeedsAsync);
                }
                Ok(())
            },
            _ => {
                assert(false);
                Ok(())
            },
        }
    }
}

/// A value the host resumes a yielded instance with reaches the guest unchanged: once the instance
/// has been resumed with `val`, taking the resumed value as the type it expects gives `val` back.
pub proof fn lemma_resume_delivers_value<A: DynValue>(val: A, taken: A)
    requires
        taken.to_dyn_spec() == val.to_dyn_spec(),
    ensures
        taken == val,
{
    A::lemma_to_dyn(taken, val);
}

/// A value a hostcall provides when it terminates the instance reaches the embedder unchanged:
/// reading the provided details as the type they were provided as gives the value back.
pub proof fn lemma_provided_value_roundtrip<A: DynValue>(provided: A, read: A)
    requires
        read.to_dyn_spec() == provided.to_dyn_spec(),
    ensures
        read == provided,
{
    A::lemma_to_dyn(read, provided);
}

/// A value the guest yields reaches the host unchanged: the instance's state holds it until the
/// host extracts the run result, and downcasting the yielded value to the type it was yielded as
/// gives it back.
pub proof fn lemma_yield_delivers_value<A: DynValue>(
    yielded: A,
    st: State,
    retval: UntypedRetVal,
    details: Option<AddrDetails>,
    read: A,
)
    requires
        st matches State::Yielding { val, .. } && val.val_spec() == yielded.to_dyn_spec(),
        swap_outcome_spec(st, retval, details).1.result matches Ok(
            InternalRunResult::Normal(RunResult::Yielded(yv)),
        ) && read.to_dyn_spec() == yv.val_spec(),
    ensures
        read == yielded,
        !swap_outcome_spec(st, retval, details).1.reset_kill_state,
        swap_outcome_spec(st, retval, details).0 is Yielded,
{
    A::lemma_to_dyn(read, yielded);
}

/// A remotely terminated instance cannot be terminated again: the kill switch that signalled the
/// guest took the terminable flag, the alarm it sent terminates the instance, and the host keeps
/// that kill state when the run ends, so a later kill switch finds the instance not terminable.
pub proof fn lemma_remote_termination_is_final(
    domain: Domain,
    scheduled: bool,
    retval: UntypedRetVal,
    details: Option<AddrDetails>,
    fault_location: AddrLocation,
)
    requires
        terminate_spec(true, domain, scheduled).result == Ok::<KillSuccess, KillError>(
            KillSuccess::Signalled,
        ),
    ensures
        guest_signal_outcome(GuestSignal::Alarm, true, fault_location) == Some(
            State::Terminating { details: TerminationDetails::Remote },
        ),
        swap_outcome_spec(
            State::Terminating { details: TerminationDetails::Remote },
            retval,
            details,
        ).0 == State::Terminated,
        !swap_outcome_spec(
            State::Terminating { details: TerminationDetails::Remote },
            retval,
            details,
        ).1.reset_kill_state,
        terminate_spec(false, terminate_spec(true, domain, scheduled).domain, scheduled).result
            == Err::<KillSuccess, KillError>(KillError::NotTerminable),
{
}

/// An instance cancelled before it began is terminated remotely without running guest code: the
/// kill switch reports `Cancelled`, entering the guest region terminates the instance instead, and
/// the run ends with `RuntimeTerminated(Remote)`, leaving the instance terminated.
pub proof fn lemma_cancelled_run_terminates(
    scheduled: bool,
    retval: UntypedRetVal,
    details: Option<AddrDetails>,
)
    ensures
        terminate_spec(true, Domain::Pending, scheduled).result == Ok::<KillSuccess, KillError>(
            KillSuccess::Cancelled,
        ),
        enter_guest_spec(terminate_spec(true, Domain::Pending, scheduled).domain).1
            == GuestEntry::Terminate,
        swap_outcome_spec(
            State::Terminating { details: TerminationDetails::Remote },
            retval,
            details,
        ).1.result matches Err(Error::RuntimeTerminated(TerminationDetails::Remote)),
        swap_outcome_spec(
            State::Terminating { details: TerminationDetails::Remote },
            retval,
            details,
        ).0 == State::Terminated,
{
}

/// An exported function of the guest whose parameters are `i64`, `i32`, `f32` and `f64` accepts
/// arguments of those widths: a ready instance may run a non-null function with these parameters
/// on a 64-bit integer, a 32-bit integer and two floats, whatever their values.
pub proof fn lemma_arguments_of_matching_width_run(
    func: FunctionHandle,
    a: i64,
    b: i32,
    c: u32,
    d: u64,
)
    requires
        func.ptr != 0,
    ensures
        run_refusal(
            State::Ready,
            func,
            seq![ValueType::I64, ValueType::I32, ValueType::F32, ValueType::F64],
            seq![Val::I64(a), Val::I32(b), Val::F32(c), Val::F64(d)],
        ) is None,
        run_refusal(State::Ready, func, seq![ValueType::I64], seq![Val::I64(a)]) is None,
        run_refusal(State::Ready, func, seq![ValueType::I32], seq![Val::I64(a)]) == Some(
            Error::InvalidArgument("entrypoint function signature mismatch"),
        ),
{
    assert(args_match(
        seq![ValueType::I64, ValueType::I32, ValueType::F32, ValueType::F64],
        seq![Val::I64(a), Val::I32(b), Val::F32(c), Val::F64(d)],
    ));
    assert(args_match(seq![ValueType::I64], seq![Val::I64(a)]));
    assert(!args_match(seq![ValueType::I32], seq![Val::I64(a)])) by {
        assert(seq![Val::I64(a)][0].value_type_spec() == ValueType::I64);
    }
}

} // verus!
