//! Decisions of the runtime's signal handling: how many users need the signal handler installed,
//! and what a signal caught while a guest runs does to the instance.
use vstd::prelude::*;

use crate::allocation::AddrLocation;
use crate::execution::KillState;
use crate::instance::{FaultDetails, TerminationDetails};
use crate::state::{FaultSignal, State};
use crate::trapcode::TrapCode;

verus! {

/// The number of `SIGBUS` on Linux.
pub const SIGBUS: i32 = 7;

/// The number of `SIGSEGV` on Linux.
pub const SIGSEGV: i32 = 11;

/// The outcome of a handled signal, as chosen by an instance's signal handler.
#[derive(Copy, Clone, Debug, PartialEq, Eq, Structural)]
pub enum SignalBehavior {
    /// Use default behavior, which switches back to the host with the fault recorded.
    Default,
    /// Override default behavior and cause the instance to continue.
    Continue,
    /// Override default behavior and cause the instance to terminate.
    Terminate,
}

/// The signal handler that always chooses the default behavior.
pub fn signal_handler_none() -> (r: SignalBehavior)
    ensures
        r == SignalBehavior::Default,
{
    SignalBehavior::Default
}

/// What to do with the process's signal handlers.
#[derive(Copy, Clone, Debug, PartialEq, Eq, Structural)]
pub enum HandlerAction {
    /// Leave the handlers as they are.
    Keep,
    /// Install the runtime's handlers, saving the host's.
    Install,
    /// Restore the host's handlers.
    Restore,
}

/// Who needs the runtime's signal handler: the running instances that ensure it is installed, plus
/// one for a manual installation. The handler is installed while the count is positive.
pub struct SignalHandlerUsers {
    count: usize,
    manually_installed: bool,
}

impl SignalHandlerUsers {
    pub closed spec fn count_spec(&self) -> nat {
        self.count as nat
    }

    pub closed spec fn manual_spec(&self) -> bool {
        self.manually_installed
    }

    /// Nobody needs the handler, and it is not installed.
    pub fn new() -> (r: Self)
        ensures
            r.count_spec() == 0,
            !r.manual_spec(),
    {
        SignalHandlerUsers { count: 0, manually_installed: false }
    }

    /// The number of users of the handler.
    pub fn count(&self) -> (r: usize)
        ensures
            r == self.count_spec(),
    {
        self.count
    }

    /// Was the handler installed manually, and not removed since?
    pub fn is_manually_installed(&self) -> (r: bool)
        ensures
            r == self.manual_spec(),
    {
        self.manually_installed
    }

    /// Is the runtime's handler installed?
    pub fn is_installed(&self) -> (r: bool)
        ensures
            r == (self.count_spec() > 0),
    {
        self.count > 0
    }

    /// One more user needs the handler; the first one installs it.
    pub fn increment(&mut self) -> (r: HandlerAction)
        requires
            old(self).count_spec() < usize::MAX,
        ensures
            final(self).count_spec() == old(self).count_spec() + 1,
            final(self).manual_spec() == old(self).manual_spec(),
            r == (if old(self).count_spec() == 0 {
                HandlerAction::Install
            } else {
                HandlerAction::Keep
            }),
    {
        self.count = self.count + 1;
        if self.count == 1 {
            HandlerAction::Install
        } else {
            HandlerAction::Keep
        }
    }

    /// One user no longer needs the handler; the last one restores the host's handlers. Some user
    /// must need the handler.
    pub fn decrement(&mut self) -> (r: HandlerAction)
        requires
            old(self).count_spec() > 0,
        ensures
            final(self).count_spec() == old(self).count_spec() - 1,
            final(self).manual_spec() == old(self).manual_spec(),
            r == (if old(self).count_spec() == 1 {
                HandlerAction::Restore
            } else {
                HandlerAction::Keep
            }),
    {
        self.count = self.count - 1;
        if self.count == 0 {
            HandlerAction::Restore
        } else {
            HandlerAction::Keep
        }
    }
}

/// Install the runtime's signal handler for the process on behalf of `users`; calling it more than
/// once without removing the handler in between has no additional effect. The action says what to
/// do with the process's handlers.
pub fn install_lucet_signal_handler(users: &mut SignalHandlerUsers) -> (r: HandlerAction)
    requires
        old(users).count_spec() < usize::MAX,
    ensures
        (final(users).count_spec(), final(users).manual_spec(), r) == install_spec(
            old(users).count_spec(),
            old(users).manual_spec(),
        ),
{
    if !users.manually_installed {
        let action = users.increment();
        users.manually_installed = true;
        action
    } else {
        HandlerAction::Keep
    }
}

/// Remove a manual installation of the runtime's signal handler from `users`; without one, this
/// has no effect. The action says what to do with the process's handlers.
pub fn remove_lucet_signal_handler(users: &mut SignalHandlerUsers) -> (r: HandlerAction)
    requires
        old(users).manual_spec() ==> old(users).count_spec() > 0,
    ensures
        (final(users).count_spec(), final(users).manual_spec(), r) == remove_spec(
            old(users).count_spec(),
            old(users).manual_spec(),
        ),
{
    if users.manually_installed {
        let action = users.decrement();
        users.manually_installed = false;
        action
    } else {
        HandlerAction::Keep
    }
}

/// The users of the handler and the action after a manual installation.
pub open spec fn install_spec(count: nat, manual: bool) -> (nat, bool, HandlerAction) {
    if manual {
        (count, true, HandlerAction::Keep)
    } else {
        (count + 1, true, if count == 0 {
            HandlerAction::Install
        } else {
            HandlerAction::Keep
        })
    }
}

/// The users of the handler and the action after a manual removal.
pub open spec fn remove_spec(count: nat, manual: bool) -> (nat, bool, HandlerAction) {
    if !manual {
        (count, false, HandlerAction::Keep)
    } else {
        ((count - 1) as nat, false, if count == 1 {
            HandlerAction::Restore
        } else {
            HandlerAction::Keep
        })
    }
}

/// Manually installing the signal handler and then removing it leaves the users of the handler as
/// they were; the handler is installed, then restored, exactly when nobody else needs it.
pub proof fn lemma_install_remove_roundtrip(count: nat)
    ensures
        ({
            let (c1, m1, a1) = install_spec(count, false);
            let (c2, m2, a2) = remove_spec(c1, m1);
            &&& c2 == count
            &&& !m2
            &&& (a1 == HandlerAction::Install <==> count == 0)
            &&& (a2 == HandlerAction::Restore <==> count == 0)
        }),
{
}

/// Removing a manual installation that was not made has no effect.
pub proof fn lemma_remove_without_install(count: nat)
    ensures
        remove_spec(count, false) == (count, false, HandlerAction::Keep),
{
}

/// Installing the signal handler manually a second time has no effect.
pub proof fn lemma_install_idempotent(count: nat, manual: bool)
    ensures
        ({
            let (c1, m1, _a1) = install_spec(count, manual);
            install_spec(c1, m1) == (c1, m1, HandlerAction::Keep)
        }),
{
}

/// The state an instance is put in by `SIGALRM`, or `None` if the instance continues: an alarm
/// from a kill switch terminates the instance unless alarms are ignored.
pub fn alarm_outcome(alarm_active: bool) -> (r: Option<State>)
    ensures
        alarm_active ==> r matches Some(State::Terminating { details: TerminationDetails::Remote }),
        !alarm_active ==> r is None,
{
    if alarm_active {
        Some(State::Terminating { details: TerminationDetails::Remote })
    } else {
        None
    }
}

/// A fault is fatal when it is not at a known trap site, or when it is a memory fault at an address
/// where faults are fatal.
pub open spec fn fault_is_fatal(
    trapcode: Option<TrapCode>,
    siginfo: FaultSignal,
    fault_location: AddrLocation,
) -> bool {
    trapcode is None || ((siginfo.signo == SIGSEGV || siginfo.signo == SIGBUS) && (fault_location
        == AddrLocation::SigStackGuard || fault_location == AddrLocation::Unknown))
}

/// The state an instance is put in by a fault signal, given the behavior its signal handler
/// chose, or `None` if the instance continues.
///
/// `trapcode` is the trap at the faulting instruction `rip_addr`, and `fault_location` where in the
/// instance's memory the faulting address falls.
pub fn fault_outcome(
    behavior: SignalBehavior,
    trapcode: Option<TrapCode>,
    rip_addr: usize,
    siginfo: FaultSignal,
    fault_location: AddrLocation,
) -> (r: Option<State>)
    ensures
        behavior == SignalBehavior::Continue ==> r is None,
        behavior == SignalBehavior::Terminate ==> r matches Some(
            State::Terminating { details: TerminationDetails::Signal },
        ),
        behavior == SignalBehavior::Default ==> r == Some(
            State::Faulted {
                details: FaultDetails {
                    fatal: fault_is_fatal(trapcode, siginfo, fault_location),
                    trapcode,
                    rip_addr,
                    rip_addr_details: None,
                },
                siginfo,
            },
        ),
{
    match behavior {
        SignalBehavior::Continue => None,
        SignalBehavior::Terminate => Some(State::Terminating { details: TerminationDetails::Signal }),
        SignalBehavior::Default => {
            let unknown_fault = trapcode.is_none();
            let outside_guard = (siginfo.signo == SIGSEGV || siginfo.signo == SIGBUS)
                && fault_location.is_fault_fatal();
            Some(
                State::Faulted {
                    details: FaultDetails {
                        fatal: unknown_fault || outside_guard,
                        trapcode,
                        rip_addr,
                        rip_addr_details: None,
                    },
                    siginfo,
                },
            )
        },
    }
}

/// A signal caught on the thread that runs a guest, as the runtime's signal handler sees it.
#[derive(Copy, Clone, Debug)]
pub enum GuestSignal {
    /// `SIGALRM`, sent by a kill switch.
    Alarm,
    /// A fault signal (`SIGBUS`, `SIGSEGV`, `SIGILL` or `SIGFPE`) at the instruction `rip_addr`,
    /// where the module has the trap `trapcode`, and which the instance's signal handler answered
    /// with `behavior`.
    Fault { behavior: SignalBehavior, trapcode: Option<TrapCode>, rip_addr: usize, siginfo: FaultSignal },
}

/// The state a guest signal puts the instance in, or `None` if the guest continues, when alarms
/// are active (`alarm_active`) and the faulting address of a fault signal falls at
/// `fault_location` in the instance's memory.
pub open spec fn guest_signal_outcome(
    signal: GuestSignal,
    alarm_active: bool,
    fault_location: AddrLocation,
) -> Option<State> {
    match signal {
        GuestSignal::Alarm => if alarm_active {
            Some(State::Terminating { details: TerminationDetails::Remote })
        } else {
            None
        },
        GuestSignal::Fault { behavior, trapcode, rip_addr, siginfo } => match behavior {
            SignalBehavior::Continue => None,
            SignalBehavior::Terminate => Some(
                State::Terminating { details: TerminationDetails::Signal },
            ),
            SignalBehavior::Default => Some(
                State::Faulted {
                    details: FaultDetails {
                        fatal: fault_is_fatal(trapcode, siginfo, fault_location),
                        trapcode,
                        rip_addr,
                        rip_addr_details: None,
                    },
                    siginfo,
                },
            ),
        },
    }
}

/// Before a signal handler switches back to the host, stop kill switches from firing in host code.
///
/// If a kill switch already took the terminable flag, its alarm is on its way; it must now be
/// ignored. Returns whether the alarm was silenced.
pub fn disable_termination_for_host(kill_state: &mut KillState) -> (r: bool)
    requires
        !old(kill_state).terminable_spec() ==> !old(kill_state).ignore_alarm_spec(),
    ensures
        r == !old(kill_state).terminable_spec(),
        !final(kill_state).terminable_spec(),
        final(kill_state).ignore_alarm_spec() == (old(kill_state).ignore_alarm_spec() || r),
        final(kill_state).domain_spec() == old(kill_state).domain_spec(),
        final(kill_state).thread_spec() == old(kill_state).thread_spec(),
        final(kill_state).generation_spec() == old(kill_state).generation_spec(),
{
    let can_terminate = kill_state.disable_termination();
    if !can_terminate {
        let _ignored = kill_state.silence_alarm();
        true
    } else {
        false
    }
}

} // verus!
