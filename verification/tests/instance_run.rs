use lucet_runtime_internals::allocation::{Alloc, Limits, RegionMemory, Slot};
use lucet_runtime_internals::dynval::{DynKind, DynVal, EmptyYieldVal, Trap};
use lucet_runtime_internals::error::Error;
use lucet_runtime_internals::execution::{Domain, GuestEntry, KillError, KillState, KillSuccess};
use lucet_runtime_internals::future::{
    run_async_after, run_async_allowed, run_async_next, AsyncAfterRun, AsyncRun, ResumeVal,
    YieldedFuture,
};
use lucet_runtime_internals::instance::{
    Instance, InternalRunResult, RunResult, TerminationDetails, YieldedVal,
};
use lucet_runtime_internals::module::{AddrDetails, FunctionHandle, HeapSpec};
use lucet_runtime_internals::region::uffd_slot_layout;
use lucet_runtime_internals::signals::{
    alarm_outcome, fault_outcome, GuestSignal, SignalBehavior, SIGSEGV,
};
use lucet_runtime_internals::state::{FaultSignal, State};
use lucet_runtime_internals::allocation::{AddrLocation, BuildProfile};
use lucet_runtime_internals::trapcode::TrapCode;
use lucet_runtime_internals::val::{UntypedRetVal, Val, ValueType};

const PAGE: usize = 4096;

struct NoopRegion;

impl RegionMemory for NoopRegion {
    fn expand_heap(&self, _slot: &Slot, _start: u32, _len: u32) -> Result<(), Error> {
        Ok(())
    }
    fn reset_heap(&self, _slot: &Slot, _accessible: usize, _initial: usize) -> Result<(), Error> {
        Ok(())
    }
}

fn limits() -> Limits {
    Limits {
        heap_memory_size: 4 * 65536,
        heap_address_space_size: 8 * 65536,
        stack_size: 16 * PAGE,
        hostcall_reservation: 2 * PAGE,
        globals_size: PAGE,
        signal_stack_size: 3 * PAGE,
    }
}

fn instance() -> Instance {
    let l = limits();
    let alloc = Alloc {
        heap_accessible_size: 0,
        heap_inaccessible_size: l.heap_address_space_size,
        heap_memory_size_limit: l.heap_memory_size,
        slot: Some(uffd_slot_layout(0x100_0000, 0, &l)),
        invalid_pages: Vec::new(),
    };
    Instance::new(alloc)
}

fn func(is_start_func: bool) -> FunctionHandle {
    FunctionHandle { ptr: 0xdead_0000, id: 3, is_start_func }
}

fn spec() -> HeapSpec {
    HeapSpec {
        reserved_size: 8 * 65536,
        guard_size: 0,
        initial_size: 65536,
        max_size: 4 * 65536,
        max_size_valid: 1,
    }
}

#[test]
fn new_instance_is_ready() {
    let inst = instance();
    assert!(inst.is_ready());
    assert!(!inst.is_not_started());
    assert!(inst.signal_handler_installation_ensured());
    assert!(inst.sigstack_installation_ensured());
    let slot = *inst.allocation().slot();
    assert_eq!(inst.implicits().globals_ptr, slot.globals);
    assert_eq!(inst.implicits().stack_limit, (slot.stack + 2 * PAGE) as u64);
    assert_eq!(inst.get_instruction_count(true), Some(0));
    assert_eq!(inst.get_instruction_count(false), None);
}

#[test]
fn run_refusals() {
    let mut inst = instance();
    let params = [ValueType::I32, ValueType::I64];
    let null = FunctionHandle { ptr: 0, id: 0, is_start_func: false };
    assert!(matches!(
        inst.prepare_run_func(null, &params, &[Val::I32(1), Val::U64(2)], None),
        Err(Error::InvalidArgument(
            "entrypoint function cannot be null; this is probably a malformed module"
        ))
    ));
    assert!(matches!(
        inst.prepare_run_func(func(false), &params, &[Val::I32(1)], None),
        Err(Error::InvalidArgument(
            "entrypoint function signature mismatch (number of arguments is incorrect)"
        ))
    ));
    assert!(matches!(
        inst.prepare_run_func(func(false), &params, &[Val::I32(1), Val::F64(0)], None),
        Err(Error::InvalidArgument("entrypoint function signature mismatch"))
    ));
    assert!(inst
        .prepare_run_func(func(false), &params, &[Val::U8(1), Val::USize(2)], Some(1000))
        .is_ok());
}

#[test]
fn start_function_must_run_first() {
    let mut inst = instance();
    inst.reset(65536, true, false, &[], &mut Vec::new(), &mut KillState::new(), &NoopRegion).unwrap();
    assert!(inst.is_not_started());
    assert_eq!(inst.allocation().heap_len(), 65536);
    assert!(matches!(
        inst.prepare_run_func(func(false), &[], &[], None),
        Err(Error::InstanceNeedsStart)
    ));
    assert_eq!(inst.start_needed(true).unwrap(), true);
    assert_eq!(inst.start_needed(false).unwrap(), false);
    assert_eq!(inst.async_start_needed(true).unwrap(), true);
    assert!(inst.prepare_run_func(func(true), &[], &[], None).is_ok());
    inst.begin_swap(false);
    let out = inst.finish_swap(UntypedRetVal::new(0, 0), None);
    assert!(out.result.is_ok());
    assert!(inst.is_ready());
    assert!(matches!(inst.start_needed(true), Err(Error::StartAlreadyRun)));
    assert!(matches!(inst.async_start_needed(false), Err(Error::StartAlreadyRun)));
    assert!(matches!(
        inst.reset(0, false, true, &[], &mut Vec::new(), &mut KillState::new(), &NoopRegion),
        Err(Error::Unsupported("global imports are unsupported"))
    ));
}

#[test]
fn abandoned_start_goes_back_to_not_started() {
    let mut inst = instance();
    inst.reset(0, true, false, &[], &mut Vec::new(), &mut KillState::new(), &NoopRegion).unwrap();
    inst.prepare_run_func(func(true), &[], &[], None).unwrap();
    inst.begin_swap(false);
    inst.abandon_swap();
    assert!(inst.is_not_started());
}

#[test]
fn returning_run() {
    let mut inst = instance();
    inst.prepare_run_func(func(false), &[], &[], None).unwrap();
    inst.begin_swap(false);
    assert!(inst.state().is_running());
    let out = inst.finish_swap(UntypedRetVal::new(42, 0), None);
    assert!(out.reset_kill_state);
    assert!(!out.fatal);
    match out.result {
        Ok(InternalRunResult::Normal(RunResult::Returned(rv))) => assert_eq!(rv.gp(), 42),
        other => panic!("unexpected {:?}", other),
    }
    assert!(inst.is_ready());
}

#[test]
fn yield_and_resume() {
    let mut inst = instance();
    inst.prepare_run_func(func(false), &[], &[], None).unwrap();
    inst.begin_swap(false);
    inst.yield_impl::<u64, String>(99, false);
    let out = inst.finish_swap(UntypedRetVal::default(), None);
    assert!(!out.reset_kill_state);
    let yielded = out.result.unwrap().unwrap().unwrap_yielded();
    assert_eq!(*yielded.downcast::<u64>().unwrap(), 99);
    assert!(inst.is_yielded());
    assert!(matches!(
        inst.prepare_resume_with_val(5u32, None),
        Err(Error::InvalidArgument(
            "type mismatch between yielded instance expected value and resumed value"
        ))
    ));
    inst.prepare_resume_with_val(String::from("back"), Some(10)).unwrap();
    assert_eq!(inst.implicits().instruction_count_adj, -10);
    assert_eq!(inst.take_resumed_val::<u64>(), None);
    assert_eq!(inst.take_resumed_val::<String>(), Some(String::from("back")));
    assert_eq!(inst.take_resumed_val::<String>(), None);
}

#[test]
fn resuming_requires_a_yielded_instance() {
    let mut inst = instance();
    assert!(matches!(
        inst.prepare_resume_with_val(EmptyYieldVal, None),
        Err(Error::InvalidArgument("can only resume a yielded instance"))
    ));
    assert!(matches!(
        inst.prepare_resume_bounded(10),
        Err(Error::InvalidArgument(
            "can only call resume_bounded() on an instance that hit an instruction bound"
        ))
    ));
}

#[test]
fn bound_expiration() {
    let mut inst = instance();
    inst.prepare_run_func(func(false), &[], &[], Some(100)).unwrap();
    inst.begin_swap(false);
    inst.set_instruction_count_and_bound(100, 100);
    inst.yield_impl::<EmptyYieldVal, EmptyYieldVal>(EmptyYieldVal, true);
    let out = inst.finish_swap(UntypedRetVal::default(), None);
    assert!(matches!(out.result, Ok(InternalRunResult::BoundExpired)));
    assert!(!out.reset_kill_state);
    assert!(inst.is_bound_expired());
    inst.prepare_resume_bounded(50).unwrap();
    assert_eq!(inst.get_instruction_count(true), Some(100));
    assert_eq!(inst.implicits().instruction_count_adj, -50);
}

#[test]
fn instruction_bound_delta_keeps_count() {
    let mut inst = instance();
    inst.set_instruction_count_and_bound(1234, 2000);
    assert_eq!(inst.get_instruction_count(true), Some(1234));
    inst.set_instruction_bound_delta(Some(10));
    assert_eq!(inst.get_instruction_count(true), Some(1234));
    inst.set_instruction_bound_delta(None);
    assert_eq!(inst.get_instruction_count(true), Some(1234));
    assert_eq!(inst.implicits().instruction_count_adj, -i64::MAX);
}

#[test]
fn faulting_run() {
    let mut inst = instance();
    let mut ks = KillState::new();
    inst.prepare_run_func(func(false), &[], &[], None).unwrap();
    inst.begin_swap(false);
    let siginfo = FaultSignal { signo: SIGSEGV, addr: 0 };
    let outcome = fault_outcome(
        SignalBehavior::Default,
        Some(TrapCode::HeapOutOfBounds),
        0x5555,
        siginfo,
        AddrLocation::InaccessibleHeap,
    );
    assert!(inst.record_signal_outcome(&mut ks, outcome));
    assert!(!ks.is_terminable());
    let details = AddrDetails {
        in_module_code: true,
        file_name: Some(String::from("guest.so")),
        sym_name: None,
    };
    let out = inst.finish_swap(UntypedRetVal::default(), Some(details));
    assert!(!out.fatal);
    assert!(out.reset_kill_state);
    match out.result {
        Err(Error::RuntimeFault(d)) => {
            assert_eq!(d.trapcode, Some(TrapCode::HeapOutOfBounds));
            assert_eq!(d.rip_addr, 0x5555);
            assert_eq!(d.rip_addr_details.unwrap().file_name.as_deref(), Some("guest.so"));
        }
        other => panic!("unexpected {:?}", other),
    }
    assert!(inst.is_faulted());
    assert!(!inst.state().is_fatal());
    // a non-fatally faulted instance may run again
    assert!(inst.prepare_run_func(func(false), &[], &[], None).is_ok());
}

#[test]
fn continued_signal_changes_nothing() {
    let mut inst = instance();
    let mut ks = KillState::new();
    inst.begin_swap(false);
    let outcome = fault_outcome(
        SignalBehavior::Continue,
        None,
        0,
        FaultSignal { signo: SIGSEGV, addr: 0 },
        AddrLocation::Unknown,
    );
    assert!(!inst.record_signal_outcome(&mut ks, outcome));
    assert!(inst.state().is_running());
    assert!(ks.is_terminable());
}

#[test]
fn remotely_terminated_run() {
    let mut inst = instance();
    let mut ks = KillState::new();
    inst.prepare_run_func(func(false), &[], &[], None).unwrap();
    inst.begin_swap(false);
    ks.schedule(7);
    assert_eq!(ks.enter_guest(), GuestEntry::Run);
    // the kill switch takes the terminable flag and sends the alarm
    let step = ks.terminate();
    assert_eq!(step.result, Ok(KillSuccess::Signalled));
    assert!(step.signal_thread);
    let outcome = alarm_outcome(ks.alarm_active());
    assert!(inst.record_signal_outcome(&mut ks, outcome));
    let out = inst.finish_swap(UntypedRetVal::default(), None);
    assert!(matches!(
        out.result,
        Err(Error::RuntimeTerminated(TerminationDetails::Remote))
    ));
    assert!(inst.is_terminated());
    // the kill state is kept, so a later kill switch finds the instance not terminable
    assert!(!out.reset_kill_state);
    assert_eq!(ks.terminate().result, Err(KillError::NotTerminable));
    assert!(matches!(
        inst.prepare_run_func(func(false), &[], &[], None),
        Err(Error::InvalidArgument("instance must be ready, starting, or non-fatally faulted"))
    ));
}

#[test]
fn growing_memory() {
    let mut inst = instance();
    inst.reset(65536, false, false, &[], &mut Vec::new(), &mut KillState::new(), &NoopRegion).unwrap();
    assert_eq!(inst.memory_growth_request(2).unwrap(), (65536, 3 * 65536));
    assert_eq!(inst.grow_memory(1, Some(spec()), &NoopRegion).unwrap(), 1);
    assert_eq!(inst.allocation().heap_len(), 2 * 65536);
    assert!(matches!(
        inst.grow_memory_from_hostcall(1, Some(false), Some(spec()), &NoopRegion),
        Err(Error::InternalError("memory limiter denied growth"))
    ));
    assert_eq!(
        inst.grow_memory_from_hostcall(1, Some(true), Some(spec()), &NoopRegion).unwrap(),
        2
    );
    assert_eq!(inst.grow_memory_from_hostcall(0, None, Some(spec()), &NoopRegion).unwrap(), 3);
    assert!(matches!(
        inst.grow_memory_from_hostcall(2, None, Some(spec()), &NoopRegion),
        Err(Error::LimitsExceeded("expansion would exceed module-specified heap limit"))
    ));
    assert!(matches!(
        inst.grow_memory(65536, Some(spec()), &NoopRegion),
        Err(Error::InternalError("additional pages larger than wasm address space"))
    ));
    assert_eq!(inst.allocation().heap_len(), 3 * 65536);
}

#[test]
fn heap_checks() {
    let mut inst = instance();
    inst.reset(65536, false, false, &[], &mut Vec::new(), &mut KillState::new(), &NoopRegion).unwrap();
    let heap = inst.allocation().slot().heap;
    assert!(inst.check_heap(heap, 65536));
    assert!(inst.check_heap(heap, 65537));
    assert!(inst.check_heap(heap + 65535, 1));
    // a range that straddles the start of the heap overlaps it
    assert!(inst.check_heap(heap - 1, 2));
    assert!(!inst.check_heap(heap - 1, 1));
    assert!(!inst.check_heap(heap + 65536, 16));
    assert!(!inst.check_heap(heap, 0));
    assert!(inst.check_heap(heap + 1, 0));
}

#[test]
fn block_on_needs_async_context() {
    let mut inst = instance();
    inst.begin_swap(false);
    assert!(matches!(
        inst.block_on_allowed(),
        Err(TerminationDetails::BlockOnNeedsAsync)
    ));
    inst.begin_swap(true);
    assert!(inst.block_on_allowed().is_ok());
}

#[test]
fn async_run_loop_decisions() {
    let mut inst = instance();
    assert!(run_async_allowed(&inst).is_ok());
    let mut kept: Option<ResumeVal> = None;
    assert!(matches!(run_async_next(&inst, &mut kept, None), AsyncRun::Call));

    // the guest blocks on a future
    inst.prepare_run_func(func(false), &[], &[], None).unwrap();
    inst.begin_swap(true);
    inst.yield_impl::<YieldedFuture, ResumeVal>(YieldedFuture, false);
    let out = inst.finish_swap(UntypedRetVal::default(), None);
    assert!(matches!(
        run_async_after(out.result.unwrap()),
        Ok(AsyncAfterRun::AwaitFuture)
    ));
    assert!(matches!(
        run_async_allowed(&inst),
        Err(Error::Unsupported("cannot run_async a yielded instance"))
    ));

    // the executor awaited it: its output goes back to the guest
    kept = Some(ResumeVal::new(String::from("ready")));
    let next = run_async_next(&inst, &mut kept, None);
    assert!(kept.is_none());
    let rv = match next {
        AsyncRun::ResumeWithVal(rv) => rv,
        other => panic!("unexpected {:?}", other),
    };
    inst.prepare_resume_with_val(rv, None).unwrap();
    inst.begin_swap(true);
    assert_eq!(inst.block_on_output::<String>(), "ready");

    // bound expiration yields to the executor, then resumes bounded
    inst.yield_impl::<EmptyYieldVal, EmptyYieldVal>(EmptyYieldVal, true);
    let out = inst.finish_swap(UntypedRetVal::default(), None);
    assert!(matches!(run_async_after(out.result.unwrap()), Ok(AsyncAfterRun::YieldNow)));
    assert!(matches!(
        run_async_next(&inst, &mut kept, Some(77)),
        AsyncRun::ResumeBounded(77)
    ));
}

#[test]
fn async_run_loop_outcomes() {
    let r = run_async_after(InternalRunResult::Normal(RunResult::Returned(UntypedRetVal::new(
        5, 0,
    ))));
    match r {
        Ok(AsyncAfterRun::Return(v)) => assert_eq!(v.gp(), 5),
        other => panic!("unexpected {:?}", other),
    }
    assert!(matches!(
        run_async_after(InternalRunResult::Normal(RunResult::Yielded(YieldedVal::new(1u8)))),
        Err(Error::Unsupported(
            "cannot yield anything besides a future in Instance::run_async"
        ))
    ));
}

#[test]
fn termination_details_equality() {
    assert_eq!(TerminationDetails::Signal, TerminationDetails::Signal);
    assert_eq!(
        TerminationDetails::BorrowError("heap"),
        TerminationDetails::BorrowError("heap")
    );
    assert_ne!(
        TerminationDetails::BorrowError("heap"),
        TerminationDetails::BorrowError("globals")
    );
    assert_ne!(TerminationDetails::Remote, TerminationDetails::Remote);
    assert_ne!(TerminationDetails::provide(1u8), TerminationDetails::provide(1u8));
    assert_ne!(TerminationDetails::Signal, TerminationDetails::CtxNotFound);
}

#[test]
fn dyn_kinds() {
    let yv = YieldedVal::new(YieldedFuture);
    assert!(yv.is::<YieldedFuture>());
    assert!(!yv.is::<ResumeVal>());
    let _ = DynKind::Future;
}

#[test]
fn signal_setup_checks_the_signal_stack() {
    let mut inst = instance();
    // the slot's signal stack is 12KiB, enough for both profiles
    let setup = inst.signal_setup(BuildProfile::Debug).unwrap();
    assert!(setup.install_sigstack && setup.use_handler);
    inst.ensure_signal_handler_installed(false);
    let setup = inst.signal_setup(BuildProfile::Release).unwrap();
    assert!(setup.install_sigstack && !setup.use_handler);

    let l = limits().with_signal_stack_size(8192);
    let alloc = Alloc {
        heap_accessible_size: 0,
        heap_inaccessible_size: l.heap_address_space_size,
        heap_memory_size_limit: l.heap_memory_size,
        slot: Some(uffd_slot_layout(0x100_0000, 0, &l)),
        invalid_pages: Vec::new(),
    };
    let mut small = Instance::new(alloc);
    assert!(small.signal_setup(BuildProfile::Release).is_ok());
    assert!(matches!(
        small.signal_setup(BuildProfile::Debug),
        Err(Error::InvalidArgument("signal stack size must be at least 12KiB for debug builds"))
    ));
    // without its own signal stack, the instance's size is not checked
    small.ensure_sigstack_installed(false);
    let setup = small.signal_setup(BuildProfile::Debug).unwrap();
    assert!(!setup.install_sigstack && setup.use_handler);
}

#[test]
fn resumed_value_of_unexpected_type_is_a_mismatch() {
    let mut inst = instance();
    inst.prepare_run_func(func(false), &[], &[], None).unwrap();
    inst.begin_swap(false);
    inst.yield_impl::<EmptyYieldVal, u32>(EmptyYieldVal, false);
    inst.finish_swap(UntypedRetVal::default(), None);
    inst.prepare_resume_with_val(7u32, None).unwrap();
    assert!(matches!(
        inst.take_expected_resumed_val::<u64>(),
        Err(TerminationDetails::YieldTypeMismatch)
    ));
    assert_eq!(inst.take_expected_resumed_val::<u32>().unwrap(), 7);
    assert!(matches!(
        inst.take_expected_resumed_val::<u32>(),
        Err(TerminationDetails::YieldTypeMismatch)
    ));
}

struct FailingRegion;

impl RegionMemory for FailingRegion {
    fn expand_heap(&self, _slot: &Slot, _start: u32, _len: u32) -> Result<(), Error> {
        Err(Error::InternalError("mprotect failed"))
    }
    fn reset_heap(&self, _slot: &Slot, _accessible: usize, _initial: usize) -> Result<(), Error> {
        Err(Error::InternalError("madvise failed"))
    }
}

#[test]
fn reset_rewrites_globals_and_kill_state() {
    let mut inst = instance();
    let mut globals = vec![7i64, 8, 9, 10];
    let mut ks = KillState::new();
    ks.schedule(3);
    assert_eq!(ks.enter_guest(), GuestEntry::Run);
    assert_eq!(ks.terminate().result, Ok(KillSuccess::Signalled));
    inst.reset(65536, false, false, &[1, -2], &mut globals, &mut ks, &NoopRegion).unwrap();
    assert_eq!(globals, vec![1, -2, 9, 10]);
    assert!(inst.is_ready());
    assert_eq!(inst.allocation().heap_len(), 65536);
    assert!(ks.is_terminable());
    assert_eq!(ks.execution_domain(), Domain::Pending);
    assert_eq!(ks.thread_id(), None);
    assert!(ks.alarm_active());
}

#[test]
fn failed_heap_reset_changes_nothing() {
    let mut inst = instance();
    let mut globals = vec![5i64];
    let mut ks = KillState::new();
    ks.disable_termination();
    assert!(matches!(
        inst.reset(65536, true, false, &[1], &mut globals, &mut ks, &FailingRegion),
        Err(Error::InternalError("madvise failed"))
    ));
    assert_eq!(globals, vec![5]);
    assert!(!ks.is_terminable());
    assert_eq!(inst.allocation().heap_len(), 0);
    assert!(!inst.is_not_started());
}

#[test]
fn finish_reset_reports_each_outcome() {
    let mut inst = instance();
    let mut globals = vec![0i64; 3];
    let mut ks = KillState::new();
    assert!(matches!(
        inst.finish_reset(Err(Error::InternalError("x")), false, false, &[4], &mut globals, &mut ks),
        Err(Error::InternalError("x"))
    ));
    assert_eq!(globals, vec![0, 0, 0]);
    assert!(matches!(
        inst.finish_reset(Ok(()), false, true, &[4], &mut globals, &mut ks),
        Err(Error::Unsupported("global imports are unsupported"))
    ));
    assert_eq!(globals, vec![0, 0, 0]);
    inst.finish_reset(Ok(()), true, false, &[4, 5, 6], &mut globals, &mut ks).unwrap();
    assert_eq!(globals, vec![4, 5, 6]);
    assert!(inst.is_not_started());
}

#[test]
fn growth_fails_when_the_region_cannot_back_it() {
    let mut inst = instance();
    inst.reset(65536, false, false, &[], &mut Vec::new(), &mut KillState::new(), &NoopRegion).unwrap();
    assert!(matches!(
        inst.grow_memory(1, Some(spec()), &FailingRegion),
        Err(Error::InternalError("mprotect failed"))
    ));
    assert_eq!(inst.allocation().heap_len(), 65536);
    assert_eq!(inst.grow_memory(1, Some(spec()), &NoopRegion).unwrap(), 1);
    assert_eq!(inst.allocation().heap_len(), 2 * 65536);
}

#[test]
fn guest_signals_decide_the_state() {
    // a fault in the inaccessible heap at a known trap site is not fatal
    let mut inst = instance();
    let mut ks = KillState::new();
    inst.begin_swap(false);
    let heap = inst.allocation().slot().heap;
    let sig = GuestSignal::Fault {
        behavior: SignalBehavior::Default,
        trapcode: Some(TrapCode::HeapOutOfBounds),
        rip_addr: 0x40,
        siginfo: FaultSignal { signo: SIGSEGV, addr: heap + 16 },
    };
    assert!(inst.handle_guest_signal(&mut ks, sig));
    assert!(inst.is_faulted());
    assert!(!inst.state().is_fatal());
    assert!(!ks.is_terminable());

    // a fault far outside the instance's memory is fatal
    let mut inst = instance();
    let mut ks = KillState::new();
    inst.begin_swap(false);
    let sig = GuestSignal::Fault {
        behavior: SignalBehavior::Default,
        trapcode: Some(TrapCode::HeapOutOfBounds),
        rip_addr: 0x40,
        siginfo: FaultSignal { signo: SIGSEGV, addr: 8 },
    };
    assert!(inst.handle_guest_signal(&mut ks, sig));
    assert!(inst.state().is_fatal());

    // a fault the signal handler lets continue changes nothing
    let mut inst = instance();
    let mut ks = KillState::new();
    inst.begin_swap(false);
    let sig = GuestSignal::Fault {
        behavior: SignalBehavior::Continue,
        trapcode: None,
        rip_addr: 0,
        siginfo: FaultSignal { signo: SIGSEGV, addr: 8 },
    };
    assert!(!inst.handle_guest_signal(&mut ks, sig));
    assert!(inst.state().is_running());
    assert!(ks.is_terminable());

    // an alarm terminates the instance, unless alarms are ignored
    let mut inst = instance();
    let mut ks = KillState::new();
    inst.begin_swap(false);
    assert!(inst.handle_guest_signal(&mut ks, GuestSignal::Alarm));
    assert!(matches!(
        inst.state(),
        State::Terminating { details: TerminationDetails::Remote }
    ));
    let mut inst = instance();
    let mut ks = KillState::new();
    ks.silence_alarm();
    inst.begin_swap(false);
    assert!(!inst.handle_guest_signal(&mut ks, GuestSignal::Alarm));
    assert!(inst.state().is_running());
}

fn provided_type_of(details: TerminationDetails) -> &'static str {
    match details {
        TerminationDetails::Provided { provided_type, .. } => provided_type,
        other => panic!("unexpected {:?}", other),
    }
}

#[test]
fn provided_details_name_their_type() {
    // the names are those the compiler gives the types
    match TerminationDetails::provide(7u32) {
        TerminationDetails::Provided { provided_type, provided } => {
            assert_eq!(provided_type, "u32");
            assert!(matches!(provided, DynVal::U32(7)));
        }
        other => panic!("unexpected {:?}", other),
    }
    assert_eq!(
        provided_type_of(TerminationDetails::provide(String::from("x"))),
        "alloc::string::String"
    );
    assert_eq!(
        provided_type_of(TerminationDetails::provide(vec![1u8])),
        "alloc::vec::Vec<u8>"
    );
    assert_eq!(
        provided_type_of(TerminationDetails::provide(EmptyYieldVal)),
        "lucet_runtime_internals::dynval::EmptyYieldVal"
    );
    assert_eq!(
        provided_type_of(TerminationDetails::provide(Trap::I32Exit(3))),
        "lucet_runtime_internals::dynval::Trap"
    );
    assert_eq!(provided_type_of(TerminationDetails::provide(true)), "bool");
    assert_eq!(provided_type_of(TerminationDetails::provide(1u8)), "u8");
    assert_eq!(provided_type_of(TerminationDetails::provide(1u64)), "u64");
    assert_eq!(provided_type_of(TerminationDetails::provide(1i32)), "i32");
    assert_eq!(provided_type_of(TerminationDetails::provide(1i64)), "i64");
    assert_eq!(provided_type_of(TerminationDetails::provide(1usize)), "usize");
    assert_eq!(DynKind::Future.rust_type(), "lucet_runtime_internals::future::YieldedFuture");
    assert_eq!(DynKind::Resume.rust_type(), "lucet_runtime_internals::future::ResumeVal");
}

#[test]
fn cancelled_run_is_terminated_remotely() {
    let mut inst = instance();
    let mut ks = KillState::new();
    let switch = ks.kill_switch();
    assert_eq!(switch.terminate(&mut ks).result, Ok(KillSuccess::Cancelled));
    assert_eq!(ks.kill_switch().terminate(&mut ks).result, Err(KillError::NotTerminable));
    inst.prepare_run_func(func(false), &[], &[], None).unwrap();
    inst.begin_swap(false);
    assert_eq!(inst.enter_guest_region(&mut ks), GuestEntry::Terminate);
    let out = inst.finish_swap(UntypedRetVal::default(), None);
    assert!(matches!(
        out.result,
        Err(Error::RuntimeTerminated(TerminationDetails::Remote))
    ));
    assert!(inst.is_terminated());
}

#[test]
fn pending_run_enters_the_guest() {
    let mut inst = instance();
    let mut ks = KillState::new();
    inst.prepare_run_func(func(false), &[], &[], None).unwrap();
    inst.begin_swap(false);
    assert_eq!(inst.enter_guest_region(&mut ks), GuestEntry::Run);
    assert_eq!(ks.execution_domain(), Domain::Guest);
    assert!(inst.state().is_running());
}

#[test]
fn reset_invalidates_earlier_kill_switches() {
    let mut inst = instance();
    let mut ks = KillState::new();
    let before = ks.kill_switch();
    inst.reset(65536, false, false, &[], &mut Vec::new(), &mut ks, &NoopRegion).unwrap();
    let step = before.terminate(&mut ks);
    assert_eq!(step.result, Err(KillError::Invalid));
    assert!(ks.is_terminable());
    assert_eq!(ks.execution_domain(), Domain::Pending);
    // a switch taken after the reset reaches the instance
    assert_eq!(ks.kill_switch().terminate(&mut ks).result, Ok(KillSuccess::Cancelled));
}

#[test]
fn finished_run_invalidates_earlier_kill_switches() {
    let mut inst = instance();
    let mut ks = KillState::new();
    let before = ks.kill_switch();
    inst.prepare_run_func(func(false), &[], &[], None).unwrap();
    inst.begin_swap(false);
    let out = inst.finish_swap(UntypedRetVal::new(1, 0), None);
    assert!(out.reset_kill_state);
    ks.renew();
    assert_eq!(before.terminate(&mut ks).result, Err(KillError::Invalid));
    assert_eq!(ks.kill_switch().terminate(&mut ks).result, Ok(KillSuccess::Cancelled));
}
