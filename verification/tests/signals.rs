use lucet_runtime_internals::allocation::AddrLocation;
use lucet_runtime_internals::execution::KillState;
use lucet_runtime_internals::instance::TerminationDetails;
use lucet_runtime_internals::signals::{
    alarm_outcome, disable_termination_for_host, fault_outcome, install_lucet_signal_handler,
    remove_lucet_signal_handler, signal_handler_none, HandlerAction, SignalBehavior,
    SignalHandlerUsers, SIGBUS, SIGSEGV,
};
use lucet_runtime_internals::state::{FaultSignal, State};
use lucet_runtime_internals::trapcode::TrapCode;

#[test]
fn first_user_installs_and_last_restores() {
    let mut users = SignalHandlerUsers::new();
    assert!(!users.is_installed());
    assert_eq!(users.increment(), HandlerAction::Install);
    assert_eq!(users.increment(), HandlerAction::Keep);
    assert!(users.is_installed());
    assert_eq!(users.decrement(), HandlerAction::Keep);
    assert_eq!(users.decrement(), HandlerAction::Restore);
    assert!(!users.is_installed());
}

#[test]
fn manual_installation_is_idempotent() {
    let mut users = SignalHandlerUsers::new();
    assert_eq!(install_lucet_signal_handler(&mut users), HandlerAction::Install);
    assert_eq!(install_lucet_signal_handler(&mut users), HandlerAction::Keep);
    assert!(users.is_installed());
    assert_eq!(remove_lucet_signal_handler(&mut users), HandlerAction::Restore);
    assert!(!users.is_installed());
}

#[test]
fn removal_without_installation_has_no_effect() {
    let mut users = SignalHandlerUsers::new();
    assert_eq!(remove_lucet_signal_handler(&mut users), HandlerAction::Keep);
    assert!(!users.is_installed());
    users.increment();
    assert_eq!(remove_lucet_signal_handler(&mut users), HandlerAction::Keep);
    assert!(users.is_installed());
}

#[test]
fn manual_installation_keeps_handler_past_running_instances() {
    let mut users = SignalHandlerUsers::new();
    assert_eq!(users.increment(), HandlerAction::Install);
    assert_eq!(install_lucet_signal_handler(&mut users), HandlerAction::Keep);
    assert_eq!(users.decrement(), HandlerAction::Keep);
    assert!(users.is_installed());
    assert_eq!(remove_lucet_signal_handler(&mut users), HandlerAction::Restore);
}

#[test]
fn default_signal_handler() {
    assert_eq!(signal_handler_none(), SignalBehavior::Default);
}

#[test]
fn alarms_terminate_unless_ignored() {
    assert!(matches!(
        alarm_outcome(true),
        Some(State::Terminating { details: TerminationDetails::Remote })
    ));
    assert!(alarm_outcome(false).is_none());
}

fn segv_at(addr: usize) -> FaultSignal {
    FaultSignal { signo: SIGSEGV, addr }
}

#[test]
fn fault_outcomes_by_behavior() {
    assert!(fault_outcome(
        SignalBehavior::Continue,
        Some(TrapCode::HeapOutOfBounds),
        0x10,
        segv_at(0),
        AddrLocation::InaccessibleHeap
    )
    .is_none());
    assert!(matches!(
        fault_outcome(
            SignalBehavior::Terminate,
            None,
            0x10,
            segv_at(0),
            AddrLocation::Unknown
        ),
        Some(State::Terminating { details: TerminationDetails::Signal })
    ));
}

fn fatal_of(trapcode: Option<TrapCode>, sig: FaultSignal, loc: AddrLocation) -> bool {
    match fault_outcome(SignalBehavior::Default, trapcode, 0x4242, sig, loc) {
        Some(State::Faulted { details, siginfo }) => {
            assert_eq!(details.rip_addr, 0x4242);
            assert_eq!(details.trapcode, trapcode);
            assert!(details.rip_addr_details.is_none());
            assert_eq!(siginfo.signo, sig.signo);
            details.fatal
        }
        _ => panic!("default behavior records a fault"),
    }
}

#[test]
fn fault_fatality() {
    let hob = Some(TrapCode::HeapOutOfBounds);
    assert!(!fatal_of(hob, segv_at(1), AddrLocation::InaccessibleHeap));
    assert!(!fatal_of(hob, segv_at(1), AddrLocation::StackGuard));
    // an unknown trap site is always fatal
    assert!(fatal_of(None, segv_at(1), AddrLocation::InaccessibleHeap));
    // memory faults outside the instance, or in the signal stack guard, are fatal
    assert!(fatal_of(hob, segv_at(1), AddrLocation::Unknown));
    assert!(fatal_of(hob, FaultSignal { signo: SIGBUS, addr: 1 }, AddrLocation::SigStackGuard));
    // other signals at such addresses are not
    assert!(!fatal_of(hob, FaultSignal { signo: 4, addr: 1 }, AddrLocation::Unknown));
}

#[test]
fn switching_to_host_disables_termination() {
    let mut ks = KillState::new();
    assert!(!disable_termination_for_host(&mut ks));
    assert!(!ks.is_terminable());
    assert!(ks.alarm_active());

    // a kill switch already took the flag: its alarm must be ignored
    let mut ks = KillState::new();
    ks.disable_termination();
    assert!(disable_termination_for_host(&mut ks));
    assert!(!ks.alarm_active());
}
