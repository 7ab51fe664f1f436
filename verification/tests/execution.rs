use lucet_runtime_internals::execution::{
    begin_hostcall_step, deschedule_step, end_hostcall_step, enter_guest_step, exit_guest_step,
    terminate_step, Domain, GuestEntry, GuestExit, KillError, KillState, KillSuccess,
};
use lucet_runtime_internals::instance::TerminationDetails;

#[test]
fn fresh_kill_state() {
    let ks = KillState::new();
    assert!(ks.is_terminable());
    assert_eq!(ks.execution_domain(), Domain::Pending);
    assert!(ks.alarm_active());
}

#[test]
fn terminating_guest_code_signals_its_thread() {
    let mut ks = KillState::new();
    ks.schedule(17);
    assert_eq!(ks.enter_guest(), GuestEntry::Run);
    assert_eq!(ks.execution_domain(), Domain::Guest);
    let step = ks.terminate();
    assert_eq!(step.result, Ok(KillSuccess::Signalled));
    assert!(step.signal_thread);
    assert_eq!(ks.execution_domain(), Domain::Terminated);
    assert!(!ks.is_terminable());
}

#[test]
fn second_termination_is_refused() {
    let mut ks = KillState::new();
    ks.schedule(1);
    ks.enter_guest();
    assert!(ks.terminate().result.is_ok());
    let again = ks.terminate();
    assert_eq!(again.result, Err(KillError::NotTerminable));
    assert!(!again.signal_thread);
    assert_eq!(ks.execution_domain(), Domain::Terminated);
}

#[test]
fn termination_during_hostcall_waits_for_its_end() {
    let mut ks = KillState::new();
    ks.schedule(3);
    ks.enter_guest();
    ks.begin_hostcall();
    assert_eq!(ks.execution_domain(), Domain::Hostcall);
    let step = ks.terminate();
    assert_eq!(step.result, Ok(KillSuccess::Pending));
    assert!(!step.signal_thread);
    assert!(matches!(ks.end_hostcall(), Some(TerminationDetails::Remote)));
    assert_eq!(ks.execution_domain(), Domain::Terminated);
}

#[test]
fn hostcall_without_termination_returns_to_guest() {
    let mut ks = KillState::new();
    ks.schedule(3);
    ks.enter_guest();
    ks.begin_hostcall();
    assert!(ks.end_hostcall().is_none());
    assert_eq!(ks.execution_domain(), Domain::Guest);
    assert!(ks.is_terminable());
}

#[test]
fn cancel_before_start() {
    let mut ks = KillState::new();
    let step = ks.terminate();
    assert_eq!(step.result, Ok(KillSuccess::Cancelled));
    assert_eq!(ks.execution_domain(), Domain::Cancelled);
    assert_eq!(ks.enter_guest(), GuestEntry::Terminate);
    assert_eq!(ks.execution_domain(), Domain::Cancelled);
}

#[test]
fn descheduling_a_guest_marks_it_terminated() {
    let mut ks = KillState::new();
    ks.schedule(9);
    ks.enter_guest();
    ks.deschedule();
    assert_eq!(ks.execution_domain(), Domain::Terminated);
    let mut pending = KillState::new();
    pending.deschedule();
    assert_eq!(pending.execution_domain(), Domain::Pending);
}

#[test]
fn alarms_can_be_silenced_once() {
    let mut ks = KillState::new();
    assert!(!ks.silence_alarm());
    assert!(!ks.alarm_active());
    assert!(ks.silence_alarm());
}

#[test]
fn termination_flag_toggles() {
    let mut ks = KillState::new();
    assert!(ks.disable_termination());
    assert!(!ks.disable_termination());
    ks.enable_termination();
    assert!(ks.is_terminable());
}

#[test]
fn step_functions() {
    assert_eq!(begin_hostcall_step(Domain::Guest), Domain::Hostcall);
    assert!(matches!(end_hostcall_step(Domain::Hostcall), (Domain::Guest, None)));
    assert!(matches!(
        end_hostcall_step(Domain::Terminated),
        (Domain::Terminated, Some(TerminationDetails::Remote))
    ));
    assert_eq!(deschedule_step(Domain::Hostcall), Domain::Hostcall);
    assert_eq!(enter_guest_step(Domain::Pending), (Domain::Guest, GuestEntry::Run));
    assert_eq!(exit_guest_step(true, Domain::Guest), GuestExit::Exit);
    assert_eq!(exit_guest_step(false, Domain::Terminated), GuestExit::AwaitAlarm);
    let step = terminate_step(false, Domain::Guest, true);
    assert_eq!(step.result, Err(KillError::NotTerminable));
    assert_eq!(step.domain, Domain::Guest);
    let step = terminate_step(true, Domain::Cancelled, false);
    assert_eq!(step.result, Err(KillError::NotTerminable));
}

#[test]
fn stopping_a_hostcall_leaves_the_instance_terminated() {
    let mut ks = KillState::new();
    ks.schedule(9);
    assert_eq!(ks.enter_guest(), GuestEntry::Run);
    ks.begin_hostcall();
    let step = ks.terminate();
    assert_eq!(step.result, Ok(KillSuccess::Pending));
    assert_eq!(ks.execution_domain(), Domain::Terminated);
    assert!(!ks.is_terminable());
    assert_eq!(ks.terminate().result, Err(KillError::NotTerminable));
}

#[test]
fn renewal_starts_a_new_generation() {
    let mut ks = KillState::new();
    assert_eq!(ks.generation(), 0);
    let old = ks.kill_switch();
    ks.disable_termination();
    ks.renew();
    assert_eq!(ks.generation(), 1);
    assert!(ks.is_terminable());
    let step = old.terminate(&mut ks);
    assert_eq!(step.result, Err(KillError::Invalid));
    assert!(!step.signal_thread);
    assert!(ks.is_terminable());
    assert_eq!(ks.kill_switch().generation(), 1);
}
