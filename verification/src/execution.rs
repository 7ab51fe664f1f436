//! The kill-switch protocol of an instance.
//!
//! An instance's execution domain tells a `KillSwitch` how it may stop the instance: guest code
//! can be interrupted by a signal, a hostcall must instead be told to terminate when it returns,
//! and an instance that has not started can be cancelled. The `terminable` flag is taken by
//! whoever stops the instance first, so that it is stopped at most once.
//!
//! The functions here decide each transition of that protocol from plain values; the embedding
//! performs them under its locks, and sends the signals they call for.
use vstd::prelude::*;

use crate::instance::TerminationDetails;

verus! {

/// Instance execution domains.
#[derive(Copy, Clone, Debug, PartialEq, Eq, Structural)]
pub enum Domain {
    /// The instance is not currently running.
    Pending,
    /// The instance is executing guest code.
    Guest,
    /// The instance is executing host code.
    Hostcall,
    /// The instance has been signalled to terminate while running code.
    Terminated,
    /// The instance has been cancelled before it began running code.
    Cancelled,
}

/// A successful attempt to terminate an instance.
#[derive(Copy, Clone, Debug, PartialEq, Eq, Structural)]
pub enum KillSuccess {
    /// A `SIGALRM` was sent to the instance.
    Signalled,
    /// The guest is in a hostcall and cannot currently be signalled to terminate safely; it
    /// terminates when the hostcall completes.
    Pending,
    /// The instance was terminated before it started running.
    Cancelled,
}

/// A failed attempt to terminate an instance.
#[derive(Copy, Clone, Debug, PartialEq, Eq, Structural)]
pub enum KillError {
    /// The instance cannot be terminated: it has already been terminated, by another kill switch
    /// or in some other manner.
    NotTerminable,
    /// The associated instance is no longer valid.
    Invalid,
}

/// What a kill switch does to the instance, and what it reports.
#[derive(Copy, Clone, Debug)]
pub struct TerminateStep {
    /// The execution domain after the attempt.
    pub domain: Domain,
    /// Send `SIGALRM` to the thread running the guest, and wait until it is descheduled.
    pub signal_thread: bool,
    /// The result reported to the caller.
    pub result: Result<KillSuccess, KillError>,
}

/// What to do on entering a guest region.
#[derive(Copy, Clone, Debug, PartialEq, Eq, Structural)]
pub enum GuestEntry {
    /// Run the guest code.
    Run,
    /// The instance was cancelled before it began: terminate it instead.
    Terminate,
}

/// What to do on exiting a guest region.
#[derive(Copy, Clone, Debug, PartialEq, Eq, Structural)]
pub enum GuestExit {
    /// The guest finished normally.
    Exit,
    /// A kill switch has taken the terminable flag, so its alarm is on its way: wait for it.
    AwaitAlarm,
}

pub open spec fn terminate_spec(terminable: bool, domain: Domain, scheduled: bool) -> TerminateStep {
    if !terminable {
        TerminateStep { domain, signal_thread: false, result: Err(KillError::NotTerminable) }
    } else {
        match domain {
            Domain::Guest => TerminateStep {
                domain: Domain::Terminated,
                signal_thread: true,
                result: Ok(KillSuccess::Signalled),
            },
            Domain::Hostcall => TerminateStep {
                domain: Domain::Terminated,
                signal_thread: false,
                result: Ok(KillSuccess::Pending),
            },
            Domain::Pending => TerminateStep {
                domain: Domain::Cancelled,
                signal_thread: false,
                result: Ok(KillSuccess::Cancelled),
            },
            _ => TerminateStep { domain, signal_thread: false, result: Err(KillError::NotTerminable) },
        }
    }
}

/// Decide an attempt to terminate an instance, given whether the attempt took the terminable
/// flag (`terminable`, which the attempt clears either way), the execution domain, and whether a
/// thread is running the instance.
///
/// Guest code is stopped by signalling its thread; a hostcall is marked to terminate when it
/// returns; an instance that has not started is cancelled; an instance that was already stopped
/// cannot be terminated again.
pub fn terminate_step(terminable: bool, domain: Domain, scheduled: bool) -> (r: TerminateStep)
    requires
        terminable && domain == Domain::Guest ==> scheduled,
    ensures
        r == terminate_spec(terminable, domain, scheduled),
{
    if !terminable {
        return TerminateStep { domain, signal_thread: false, result: Err(KillError::NotTerminable) };
    }
    match domain {
        Domain::Guest => TerminateStep {
            domain: Domain::Terminated,
            signal_thread: true,
            result: Ok(KillSuccess::Signalled),
        },
        Domain::Hostcall => TerminateStep {
            domain: Domain::Terminated,
            signal_thread: false,
            result: Ok(KillSuccess::Pending),
        },
        Domain::Pending => TerminateStep {
            domain: Domain::Cancelled,
            signal_thread: false,
            result: Ok(KillSuccess::Cancelled),
        },
        Domain::Cancelled | Domain::Terminated => TerminateStep {
            domain,
            signal_thread: false,
            result: Err(KillError::NotTerminable),
        },
    }
}

/// The domain on entering a hostcall, which is only entered from guest code.
pub fn begin_hostcall_step(domain: Domain) -> (r: Domain)
    requires
        domain == Domain::Guest,
    ensures
        r == Domain::Hostcall,
{
    Domain::Hostcall
}

pub open spec fn end_hostcall_spec(domain: Domain) -> (Domain, Option<TerminationDetails>) {
    if domain == Domain::Hostcall {
        (Domain::Guest, None)
    } else {
        (domain, Some(TerminationDetails::Remote))
    }
}

/// The domain on exiting a hostcall, and the termination the instance must now undergo if it was
/// terminated during the hostcall.
pub fn end_hostcall_step(domain: Domain) -> (r: (Domain, Option<TerminationDetails>))
    requires
        domain == Domain::Hostcall || domain == Domain::Terminated,
    ensures
        r == end_hostcall_spec(domain),
{
    match domain {
        Domain::Hostcall => (Domain::Guest, None),
        _ => (domain, Some(TerminationDetails::Remote)),
    }
}

pub open spec fn deschedule_spec(domain: Domain) -> Domain {
    if domain == Domain::Guest {
        Domain::Terminated
    } else {
        domain
    }
}

/// The domain when the instance's thread is descheduled: a guest that stops running is marked
/// terminated, so that no kill switch signals the thread later; other domains are kept.
pub fn deschedule_step(domain: Domain) -> (r: Domain)
    ensures
        r == deschedule_spec(domain),
{
    match domain {
        Domain::Guest => Domain::Terminated,
        _ => domain,
    }
}

pub open spec fn enter_guest_spec(domain: Domain) -> (Domain, GuestEntry) {
    if domain == Domain::Pending {
        (Domain::Guest, GuestEntry::Run)
    } else {
        (domain, GuestEntry::Terminate)
    }
}

/// The domain and action on entering a guest region, which happens only from an instance that is
/// pending, or was cancelled before it began.
pub fn enter_guest_step(domain: Domain) -> (r: (Domain, GuestEntry))
    requires
        domain == Domain::Pending || domain == Domain::Cancelled,
    ensures
        r == enter_guest_spec(domain),
{
    match domain {
        Domain::Pending => (Domain::Guest, GuestEntry::Run),
        _ => (domain, GuestEntry::Terminate),
    }
}

/// The action on exiting a guest region, given whether exiting took the terminable flag.
pub fn exit_guest_step(terminable: bool, domain: Domain) -> (r: GuestExit)
    requires
        terminable ==> domain == Domain::Guest,
    ensures
        r == (if terminable {
            GuestExit::Exit
        } else {
            GuestExit::AwaitAlarm
        }),
{
    if !terminable {
        GuestExit::AwaitAlarm
    } else {
        GuestExit::Exit
    }
}

/// All the instance state a kill switch needs to determine if and how to stop the instance.
///
/// The kill state is renewed whenever the instance finishes a run or is reset; each renewal starts
/// a new generation, and kill switches issued for an earlier generation no longer reach it.
pub struct KillState {
    terminable: bool,
    execution_domain: Domain,
    thread_id: Option<u64>,
    ignore_alarm: bool,
    generation: u64,
}

impl KillState {
    pub closed spec fn terminable_spec(&self) -> bool {
        self.terminable
    }

    pub closed spec fn domain_spec(&self) -> Domain {
        self.execution_domain
    }

    pub closed spec fn thread_spec(&self) -> Option<u64> {
        self.thread_id
    }

    pub closed spec fn ignore_alarm_spec(&self) -> bool {
        self.ignore_alarm
    }

    pub closed spec fn generation_spec(&self) -> u64 {
        self.generation
    }

    /// A fresh kill state: terminable, pending, not running on any thread, alarms active.
    pub fn new() -> (r: Self)
        ensures
            r.terminable_spec(),
            r.domain_spec() == Domain::Pending,
            r.thread_spec() is None,
            !r.ignore_alarm_spec(),
            r.generation_spec() == 0,
    {
        KillState {
            terminable: true,
            execution_domain: Domain::Pending,
            thread_id: None,
            ignore_alarm: false,
            generation: 0,
        }
    }

    /// Renew the kill state, as when the instance finishes a run or is reset: it is terminable,
    /// pending, not running on any thread and its alarms are active, and it starts a generation
    /// other than the one before, so that no kill switch issued before reaches it.
    pub fn renew(&mut self)
        ensures
            final(self).terminable_spec(),
            final(self).domain_spec() == Domain::Pending,
            final(self).thread_spec() is None,
            !final(self).ignore_alarm_spec(),
            final(self).generation_spec() != old(self).generation_spec(),
    {
        let next = if self.generation == u64::MAX {
            0
        } else {
            self.generation + 1
        };
        *self = KillState {
            terminable: true,
            execution_domain: Domain::Pending,
            thread_id: None,
            ignore_alarm: false,
            generation: next,
        };
    }

    /// The generation of the kill state.
    pub fn generation(&self) -> (r: u64)
        ensures
            r == self.generation_spec(),
    {
        self.generation
    }

    /// A kill switch for the current generation of the kill state.
    pub fn kill_switch(&self) -> (r: KillSwitch)
        ensures
            r.generation_spec() == self.generation_spec(),
    {
        KillSwitch { generation: self.generation }
    }

    pub fn is_terminable(&self) -> (r: bool)
        ensures
            r == self.terminable_spec(),
    {
        self.terminable
    }

    pub fn execution_domain(&self) -> (r: Domain)
        ensures
            r == self.domain_spec(),
    {
        self.execution_domain
    }

    /// The thread that runs the instance, if any.
    pub fn thread_id(&self) -> (r: Option<u64>)
        ensures
            r == self.thread_spec(),
    {
        self.thread_id
    }

    pub fn enable_termination(&mut self)
        ensures
            final(self).terminable_spec(),
            final(self).domain_spec() == old(self).domain_spec(),
            final(self).thread_spec() == old(self).thread_spec(),
            final(self).ignore_alarm_spec() == old(self).ignore_alarm_spec(),
            final(self).generation_spec() == old(self).generation_spec(),
    {
        self.terminable = true;
    }

    /// Clear the terminable flag, returning whether it was set.
    pub fn disable_termination(&mut self) -> (r: bool)
        ensures
            r == old(self).terminable_spec(),
            !final(self).terminable_spec(),
            final(self).domain_spec() == old(self).domain_spec(),
            final(self).thread_spec() == old(self).thread_spec(),
            final(self).ignore_alarm_spec() == old(self).ignore_alarm_spec(),
            final(self).generation_spec() == old(self).generation_spec(),
    {
        let was = self.terminable;
        self.terminable = false;
        was
    }

    /// Ignore any alarm directed at the instance from now on, returning whether alarms were
    /// already ignored.
    pub fn silence_alarm(&mut self) -> (r: bool)
        ensures
            r == old(self).ignore_alarm_spec(),
            final(self).ignore_alarm_spec(),
            final(self).terminable_spec() == old(self).terminable_spec(),
            final(self).domain_spec() == old(self).domain_spec(),
            final(self).thread_spec() == old(self).thread_spec(),
            final(self).generation_spec() == old(self).generation_spec(),
    {
        let was = self.ignore_alarm;
        self.ignore_alarm = true;
        was
    }

    pub fn alarm_active(&self) -> (r: bool)
        ensures
            r == !self.ignore_alarm_spec(),
    {
        !self.ignore_alarm
    }

    /// Mark the instance as executing a hostcall. The instance must be executing guest code.
    pub fn begin_hostcall(&mut self)
        requires
            old(self).domain_spec() == Domain::Guest,
        ensures
            final(self).domain_spec() == Domain::Hostcall,
            final(self).terminable_spec() == old(self).terminable_spec(),
            final(self).thread_spec() == old(self).thread_spec(),
            final(self).ignore_alarm_spec() == old(self).ignore_alarm_spec(),
            final(self).generation_spec() == old(self).generation_spec(),
    {
        self.execution_domain = begin_hostcall_step(self.execution_domain);
    }

    /// Mark the instance as done with its hostcall, returning the termination it must undergo if
    /// it was terminated during the hostcall.
    pub fn end_hostcall(&mut self) -> (r: Option<TerminationDetails>)
        requires
            old(self).domain_spec() == Domain::Hostcall || old(self).domain_spec()
                == Domain::Terminated,
        ensures
            (final(self).domain_spec(), r) == end_hostcall_spec(old(self).domain_spec()),
            final(self).terminable_spec() == old(self).terminable_spec(),
            final(self).thread_spec() == old(self).thread_spec(),
            final(self).ignore_alarm_spec() == old(self).ignore_alarm_spec(),
            final(self).generation_spec() == old(self).generation_spec(),
    {
        let (d, r) = end_hostcall_step(self.execution_domain);
        self.execution_domain = d;
        r
    }

    /// Record the thread that runs the instance.
    pub fn schedule(&mut self, tid: u64)
        ensures
            final(self).thread_spec() == Some(tid),
            final(self).terminable_spec() == old(self).terminable_spec(),
            final(self).domain_spec() == old(self).domain_spec(),
            final(self).ignore_alarm_spec() == old(self).ignore_alarm_spec(),
            final(self).generation_spec() == old(self).generation_spec(),
    {
        self.thread_id = Some(tid);
    }

    /// Record that no thread runs the instance any more.
    pub fn deschedule(&mut self)
        ensures
            final(self).thread_spec() is None,
            final(self).domain_spec() == deschedule_spec(old(self).domain_spec()),
            final(self).terminable_spec() == old(self).terminable_spec(),
            final(self).ignore_alarm_spec() == old(self).ignore_alarm_spec(),
            final(self).generation_spec() == old(self).generation_spec(),
    {
        self.thread_id = None;
        self.execution_domain = deschedule_step(self.execution_domain);
    }

    /// Enter a guest region; the instance must be pending or cancelled.
    pub fn enter_guest(&mut self) -> (r: GuestEntry)
        requires
            old(self).domain_spec() == Domain::Pending || old(self).domain_spec()
                == Domain::Cancelled,
        ensures
            (final(self).domain_spec(), r) == enter_guest_spec(old(self).domain_spec()),
            final(self).terminable_spec() == old(self).terminable_spec(),
            final(self).thread_spec() == old(self).thread_spec(),
            final(self).ignore_alarm_spec() == old(self).ignore_alarm_spec(),
            final(self).generation_spec() == old(self).generation_spec(),
    {
        let (d, r) = enter_guest_step(self.execution_domain);
        self.execution_domain = d;
        r
    }

    /// Attempt to terminate the instance; when the step calls for signalling the guest's thread,
    /// the caller signals it.
    pub fn terminate(&mut self) -> (r: TerminateStep)
        requires
            old(self).terminable_spec() && old(self).domain_spec() == Domain::Guest
                ==> old(self).thread_spec() is Some,
        ensures
            r == terminate_spec(
                old(self).terminable_spec(),
                old(self).domain_spec(),
                old(self).thread_spec() is Some,
            ),
            final(self).domain_spec() == r.domain,
            !final(self).terminable_spec(),
            final(self).thread_spec() == old(self).thread_spec(),
            final(self).ignore_alarm_spec() == old(self).ignore_alarm_spec(),
            final(self).generation_spec() == old(self).generation_spec(),
    {
        let terminable = self.disable_termination();
        let step = terminate_step(terminable, self.execution_domain, self.thread_id.is_some());
        self.execution_domain = step.domain;
        step
    }
}

/// A handle that can terminate an instance, while the instance's kill state is of the generation
/// the handle was issued for.
#[derive(Copy, Clone, Debug)]
pub struct KillSwitch {
    generation: u64,
}

/// What an attempt through a kill switch does: one issued for an earlier generation of the kill
/// state is invalid and changes nothing; otherwise the attempt is made on the kill state.
pub open spec fn switch_terminate_spec(switch: KillSwitch, kill_state: KillState) -> TerminateStep {
    if switch.generation_spec() != kill_state.generation_spec() {
        TerminateStep {
            domain: kill_state.domain_spec(),
            signal_thread: false,
            result: Err(KillError::Invalid),
        }
    } else {
        terminate_spec(
            kill_state.terminable_spec(),
            kill_state.domain_spec(),
            kill_state.thread_spec() is Some,
        )
    }
}

impl KillSwitch {
    pub closed spec fn generation_spec(&self) -> u64 {
        self.generation
    }

    /// The generation of the kill state this switch was issued for.
    pub fn generation(&self) -> (r: u64)
        ensures
            r == self.generation_spec(),
    {
        self.generation
    }

    /// Attempt to terminate the instance whose kill state is `kill_state`; when the step calls for
    /// signalling the guest's thread, the caller signals it.
    pub fn terminate(&self, kill_state: &mut KillState) -> (r: TerminateStep)
        requires
            self.generation_spec() == old(kill_state).generation_spec() && old(
                kill_state,
            ).terminable_spec() && old(kill_state).domain_spec() == Domain::Guest ==> old(
                kill_state,
            ).thread_spec() is Some,
        ensures
            r == switch_terminate_spec(*self, *old(kill_state)),
            self.generation_spec() != old(kill_state).generation_spec() ==> *final(kill_state)
                == *old(kill_state),
            self.generation_spec() == old(kill_state).generation_spec() ==> {
                &&& final(kill_state).domain_spec() == r.domain
                &&& !final(kill_state).terminable_spec()
                &&& final(kill_state).thread_spec() == old(kill_state).thread_spec()
                &&& final(kill_state).ignore_alarm_spec() == old(kill_state).ignore_alarm_spec()
                &&& final(kill_state).generation_spec() == old(kill_state).generation_spec()
            },
    {
        if self.generation != kill_state.generation {
            return TerminateStep {
                domain: kill_state.execution_domain,
                signal_thread: false,
                result: Err(KillError::Invalid),
            };
        }
        kill_state.terminate()
    }
}

/// A kill switch issued before the kill state was renewed (by a finished run or a reset) is
/// invalid: terminating through it fails with `Invalid` and changes nothing.
pub proof fn lemma_renewal_invalidates_switches(
    switch: KillSwitch,
    before: KillState,
    after: KillState,
)
    requires
        switch.generation_spec() == before.generation_spec(),
        after.generation_spec() != before.generation_spec(),
    ensures
        switch_terminate_spec(switch, after).result == Err::<KillSuccess, KillError>(
            KillError::Invalid,
        ),
        !switch_terminate_spec(switch, after).signal_thread,
{
}

/// Once an instance has been stopped, no kill switch can terminate it again.
pub proof fn lemma_terminate_at_most_once(domain: Domain, scheduled: bool)
    ensures
        terminate_spec(false, domain, scheduled).result == Err::<KillSuccess, KillError>(
            KillError::NotTerminable,
        ),
        terminate_spec(false, domain, scheduled).domain == domain,
        !terminate_spec(false, domain, scheduled).signal_thread,
{
}

/// A hostcall that nobody terminates returns to guest code and carries on.
pub proof fn lemma_hostcall_roundtrip()
    ensures
        end_hostcall_spec(Domain::Hostcall) == (Domain::Guest, None::<TerminationDetails>),
{
}

/// Terminating an instance during a hostcall succeeds as pending, and the instance is terminated
/// remotely when the hostcall returns.
pub proof fn lemma_terminate_during_hostcall(scheduled: bool)
    ensures
        terminate_spec(true, Domain::Hostcall, scheduled).result == Ok::<KillSuccess, KillError>(
            KillSuccess::Pending,
        ),
        end_hostcall_spec(terminate_spec(true, Domain::Hostcall, scheduled).domain).1 matches Some(
            TerminationDetails::Remote,
        ),
{
}

/// Terminating an instance that has not started cancels it, and it is terminated instead of
/// entering the guest.
pub proof fn lemma_cancel_before_start(scheduled: bool)
    ensures
        terminate_spec(true, Domain::Pending, scheduled).result == Ok::<KillSuccess, KillError>(
            KillSuccess::Cancelled,
        ),
        enter_guest_spec(terminate_spec(true, Domain::Pending, scheduled).domain).1
            == GuestEntry::Terminate,
{
}

/// Terminating guest code signals the guest's thread, and leaves the instance terminated.
pub proof fn lemma_terminate_guest()
    ensures
        terminate_spec(true, Domain::Guest, true) == (TerminateStep {
            domain: Domain::Terminated,
            signal_thread: true,
            result: Ok(KillSuccess::Signalled),
        }),
{
}

/// While an instance runs guest code or a hostcall, a kill switch that stops it leaves it in the
/// `Terminated` domain (and `KillState::terminate` leaves it not terminable), so every later
/// attempt fails with `NotTerminable`.
pub proof fn lemma_stopping_a_run_terminates(domain: Domain, scheduled: bool)
    requires
        domain == Domain::Guest || domain == Domain::Hostcall,
    ensures
        terminate_spec(true, domain, scheduled).domain == Domain::Terminated,
        terminate_spec(true, domain, scheduled).result is Ok,
        terminate_spec(false, Domain::Terminated, scheduled).result == Err::<KillSuccess, KillError>(
            KillError::NotTerminable,
        ),
{
}

} // verus!
