//! The lifecycle of the one backend process an application run owns.
//!
//! The supervisor is a state machine. The caller reports each thing that
//! happened as a [`SupervisorEvent`]; [`Supervisor::step`] moves the machine
//! and answers with the [`Directive`] to carry out. Events that do not fit the
//! current phase change nothing and ask for nothing.

use vstd::prelude::*;
use crate::bridge::{Notification, NotificationView};
use crate::health::{health_request_of, HealthRequest, HealthRequestView, ProbeOutcome};
use crate::prober::REQUEST_TIMEOUT_SECS;
use crate::text::completion;

verus! {

/// How the backend comes to run.
#[derive(Clone, Copy, Debug, PartialEq, Eq, Structural)]
pub enum LaunchMode {
    /// The application starts the backend itself and waits for it.
    ManagedLaunch,
    /// The backend is started by someone else; the application only looks
    /// for it, once.
    ExternalLaunch,
}

/// Where the startup sequence stands.
#[derive(Clone, Copy, Debug, PartialEq, Eq, Structural)]
pub enum Phase {
    Idle,
    Launching,
    Probing,
    Ready,
    LaunchFailed,
    NotDetected,
}

/// What the handle slot holds.
#[derive(Clone, Copy, Debug, PartialEq, Eq, Structural)]
pub enum HandleState {
    /// No process was ever stored.
    NotStarted,
    /// A started process is stored, and its termination was not asked for.
    Running,
    /// The stored process was given up to be killed and reaped; the slot is
    /// clear.
    Terminated,
}

/// Something that happened, as reported by the caller.
#[derive(Debug, PartialEq, Eq)]
pub enum SupervisorEvent {
    /// The application has started.
    Startup,
    /// The launch attempt ended: the process runs, or the diagnostic why not.
    LaunchCompleted(Result<(), String>),
    /// The readiness loop ended: ready, or the diagnostic why not.
    ReadinessResolved(Result<(), String>),
    /// The single health request of an external launch ended.
    ProbeAnswered(ProbeOutcome),
    /// The application was asked to exit, and the lock on the handle slot
    /// was or was not acquired.
    ExitRequested { lock_acquired: bool },
}

/// [`SupervisorEvent`] over mathematical strings.
pub enum SupervisorEventView {
    Startup,
    LaunchCompleted(Result<(), Seq<char>>),
    ReadinessResolved(Result<(), Seq<char>>),
    ProbeAnswered(ProbeOutcome),
    ExitRequested { lock_acquired: bool },
}

impl View for SupervisorEvent {
    type V = SupervisorEventView;

    open spec fn view(&self) -> SupervisorEventView {
        match self {
            SupervisorEvent::Startup => SupervisorEventView::Startup,
            SupervisorEvent::LaunchCompleted(result) => SupervisorEventView::LaunchCompleted(
                completion(*result),
            ),
            SupervisorEvent::ReadinessResolved(result) => SupervisorEventView::ReadinessResolved(
                completion(*result),
            ),
            SupervisorEvent::ProbeAnswered(outcome) => SupervisorEventView::ProbeAnswered(
                *outcome,
            ),
            SupervisorEvent::ExitRequested { lock_acquired } => SupervisorEventView::ExitRequested {
                lock_acquired: *lock_acquired,
            },
        }
    }
}

/// What the caller is to do after an event.
#[derive(Debug, PartialEq, Eq)]
pub enum Directive {
    /// Locate and start the backend, then report `LaunchCompleted`.
    LaunchBackend,
    /// Keep the started process in the handle slot, run the readiness loop,
    /// then report `ReadinessResolved`.
    AwaitReadiness,
    /// Send this one request, then report `ProbeAnswered`.
    ProbeOnce(HealthRequest),
    /// Deliver this notification to the user interface, best effort.
    Notify(Notification),
    /// Kill the stored process, wait until it is reaped, and clear the slot.
    TerminateBackend,
    /// Nothing to do.
    Nothing,
}

/// [`Directive`] over mathematical strings.
pub enum DirectiveView {
    LaunchBackend,
    AwaitReadiness,
    ProbeOnce(HealthRequestView),
    Notify(NotificationView),
    TerminateBackend,
    Nothing,
}

impl View for Directive {
    type V = DirectiveView;

    open spec fn view(&self) -> DirectiveView {
        match self {
            Directive::LaunchBackend => DirectiveView::LaunchBackend,
            Directive::AwaitReadiness => DirectiveView::AwaitReadiness,
            Directive::ProbeOnce(request) => DirectiveView::ProbeOnce(request@),
            Directive::Notify(notification) => DirectiveView::Notify(notification@),
            Directive::TerminateBackend => DirectiveView::TerminateBackend,
            Directive::Nothing => DirectiveView::Nothing,
        }
    }
}

impl Clone for Directive {
    fn clone(&self) -> (copy: Directive)
        ensures
            copy@ == self@,
    {
        match self {
            Directive::LaunchBackend => Directive::LaunchBackend,
            Directive::AwaitReadiness => Directive::AwaitReadiness,
            Directive::ProbeOnce(request) => Directive::ProbeOnce(request.clone()),
            Directive::Notify(notification) => Directive::Notify(notification.clone()),
            Directive::TerminateBackend => Directive::TerminateBackend,
            Directive::Nothing => Directive::Nothing,
        }
    }
}

/// The diagnostic sent when an external launch finds no backend.
pub open spec fn not_detected_text() -> Seq<char> {
    "Backend not running. Start it manually: cd backend && python run_server.py"@
}

/// The diagnostic sent when an external launch finds no backend.
pub fn not_detected_message() -> (text: String)
    ensures
        text@ == not_detected_text(),
{
    "Backend not running. Start it manually: cd backend && python run_server.py".to_owned()
}

/// The supervisor's whole state.
#[derive(Clone, Copy, Debug, PartialEq, Eq, Structural)]
pub struct Supervisor {
    pub mode: LaunchMode,
    pub phase: Phase,
    pub handle: HandleState,
}

impl Phase {
    /// The startup sequence has ended, one way or the other.
    pub open spec fn settled(self) -> bool {
        self == Phase::Ready || self == Phase::LaunchFailed || self == Phase::NotDetected
    }
}

impl Supervisor {
    /// The state before anything has happened.
    pub open spec fn initial(mode: LaunchMode) -> Supervisor {
        Supervisor { mode, phase: Phase::Idle, handle: HandleState::NotStarted }
    }

    /// What holds of every state that can be reached from
    /// [`Supervisor::initial`].
    ///
    /// A managed launch stores a handle exactly when launching succeeded, and
    /// never ends as `NotDetected`. An external launch never launches, so it
    /// never stores a handle and never ends as `LaunchFailed`.
    pub open spec fn wf(self) -> bool {
        match self.mode {
            LaunchMode::ManagedLaunch => {
                &&& self.phase != Phase::NotDetected
                &&& self.phase == Phase::Idle || self.phase == Phase::Launching
                    ==> self.handle == HandleState::NotStarted
                &&& self.phase == Phase::Probing || self.phase == Phase::Ready
                    ==> self.handle != HandleState::NotStarted
            },
            LaunchMode::ExternalLaunch => {
                &&& self.phase != Phase::Launching
                &&& self.phase != Phase::LaunchFailed
                &&& self.handle == HandleState::NotStarted
            },
        }
    }

    /// The state after `event`.
    pub open spec fn next(self, event: SupervisorEventView) -> Supervisor {
        match event {
            SupervisorEventView::Startup => {
                if self.phase == Phase::Idle {
                    match self.mode {
                        LaunchMode::ManagedLaunch => Supervisor { phase: Phase::Launching, ..self },
                        LaunchMode::ExternalLaunch => Supervisor { phase: Phase::Probing, ..self },
                    }
                } else {
                    self
                }
            },
            SupervisorEventView::LaunchCompleted(result) => {
                if self.phase == Phase::Launching {
                    match result {
                        Ok(()) => Supervisor {
                            phase: Phase::Probing,
                            handle: HandleState::Running,
                            ..self
                        },
                        Err(_) => Supervisor { phase: Phase::LaunchFailed, ..self },
                    }
                } else {
                    self
                }
            },
            SupervisorEventView::ReadinessResolved(result) => {
                if self.phase == Phase::Probing && self.mode == LaunchMode::ManagedLaunch {
                    match result {
                        Ok(()) => Supervisor { phase: Phase::Ready, ..self },
                        Err(_) => Supervisor { phase: Phase::LaunchFailed, ..self },
                    }
                } else {
                    self
                }
            },
            SupervisorEventView::ProbeAnswered(outcome) => {
                if self.phase == Phase::Probing && self.mode == LaunchMode::ExternalLaunch {
                    if outcome.ready() {
                        Supervisor { phase: Phase::Ready, ..self }
                    } else {
                        Supervisor { phase: Phase::NotDetected, ..self }
                    }
                } else {
                    self
                }
            },
            SupervisorEventView::ExitRequested { lock_acquired } => {
                if lock_acquired && self.handle == HandleState::Running {
                    Supervisor { handle: HandleState::Terminated, ..self }
                } else {
                    self
                }
            },
        }
    }

    /// What `event` asks the caller to do.
    pub open spec fn directive(self, event: SupervisorEventView) -> DirectiveView {
        match event {
            SupervisorEventView::Startup => {
                if self.phase == Phase::Idle {
                    match self.mode {
                        LaunchMode::ManagedLaunch => DirectiveView::LaunchBackend,
                        LaunchMode::ExternalLaunch => DirectiveView::ProbeOnce(
                            health_request_of(REQUEST_TIMEOUT_SECS),
                        ),
                    }
                } else {
                    DirectiveView::Nothing
                }
            },
            SupervisorEventView::LaunchCompleted(result) => {
                if self.phase == Phase::Launching {
                    match result {
                        Ok(()) => DirectiveView::AwaitReadiness,
                        Err(text) => DirectiveView::Notify(NotificationView::BackendError(text)),
                    }
                } else {
                    DirectiveView::Nothing
                }
            },
            SupervisorEventView::ReadinessResolved(result) => {
                if self.phase == Phase::Probing && self.mode == LaunchMode::ManagedLaunch {
                    match result {
                        Ok(()) => DirectiveView::Notify(NotificationView::BackendReady),
                        Err(text) => DirectiveView::Notify(NotificationView::BackendError(text)),
                    }
                } else {
                    DirectiveView::Nothing
                }
            },
            SupervisorEventView::ProbeAnswered(outcome) => {
                if self.phase == Phase::Probing && self.mode == LaunchMode::ExternalLaunch {
                    if outcome.ready() {
                        DirectiveView::Notify(NotificationView::BackendReady)
                    } else {
                        DirectiveView::Notify(
                            NotificationView::BackendError(not_detected_text()),
                        )
                    }
                } else {
                    DirectiveView::Nothing
                }
            },
            SupervisorEventView::ExitRequested { lock_acquired } => {
                if lock_acquired && self.handle == HandleState::Running {
                    DirectiveView::TerminateBackend
                } else {
                    DirectiveView::Nothing
                }
            },
        }
    }

    /// The state after a sequence of events, taken in order.
    pub open spec fn after(self, events: Seq<SupervisorEventView>) -> Supervisor
        decreases events.len(),
    {
        if events.len() == 0 {
            self
        } else {
            self.next(events[0]).after(events.drop_first())
        }
    }

    /// The notifications asked for while taking a sequence of events, in
    /// order.
    pub open spec fn notifications(self, events: Seq<SupervisorEventView>) -> Seq<
        NotificationView,
    >
        decreases events.len(),
    {
        if events.len() == 0 {
            Seq::empty()
        } else {
            let later = self.next(events[0]).notifications(events.drop_first());
            match self.directive(events[0]) {
                DirectiveView::Notify(notification) => seq![notification] + later,
                _ => later,
            }
        }
    }

    /// How often `wanted` is asked for while taking a sequence of events.
    pub open spec fn times_asked(
        self,
        events: Seq<SupervisorEventView>,
        wanted: DirectiveView,
    ) -> nat
        decreases events.len(),
    {
        if events.len() == 0 {
            0
        } else {
            let now: nat = if self.directive(events[0]) == wanted {
                1
            } else {
                0
            };
            now + self.next(events[0]).times_asked(events.drop_first(), wanted)
        }
    }

    /// A supervisor for a run that has not started yet.
    pub fn new(mode: LaunchMode) -> (supervisor: Supervisor)
        ensures
            supervisor == Supervisor::initial(mode),
            supervisor.wf(),
    {
        Supervisor { mode, phase: Phase::Idle, handle: HandleState::NotStarted }
    }

    /// Takes one event: moves to the next state and says what to do.
    pub fn step(&mut self, event: SupervisorEvent) -> (directive: Directive)
        ensures
            *final(self) == old(self).next(event@),
            directive@ == old(self).directive(event@),
            old(self).wf() ==> final(self).wf(),
    {
        match event {
            SupervisorEvent::Startup => {
                if self.phase == Phase::Idle {
                    match self.mode {
                        LaunchMode::ManagedLaunch => {
                            self.phase = Phase::Launching;
                            Directive::LaunchBackend
                        },
                        LaunchMode::ExternalLaunch => {
                            self.phase = Phase::Probing;
                            Directive::ProbeOnce(
                                HealthRequest::with_timeout(REQUEST_TIMEOUT_SECS),
                            )
                        },
                    }
                } else {
                    Directive::Nothing
                }
            },
            SupervisorEvent::LaunchCompleted(result) => {
                if self.phase == Phase::Launching {
                    match result {
                        Ok(()) => {
                            self.phase = Phase::Probing;
                            self.handle = HandleState::Running;
                            Directive::AwaitReadiness
                        },
                        Err(text) => {
                            self.phase = Phase::LaunchFailed;
                            Directive::Notify(Notification::BackendError(text))
                        },
                    }
                } else {
                    Directive::Nothing
                }
            },
            SupervisorEvent::ReadinessResolved(result) => {
                if self.phase == Phase::Probing && self.mode == LaunchMode::ManagedLaunch {
                    match result {
                        Ok(()) => {
                            self.phase = Phase::Ready;
                            Directive::Notify(Notification::BackendReady)
                        },
                        Err(text) => {
                            self.phase = Phase::LaunchFailed;
                            Directive::Notify(Notification::BackendError(text))
                        },
                    }
                } else {
                    Directive::Nothing
                }
            },
            SupervisorEvent::ProbeAnswered(outcome) => {
                if self.phase == Phase::Probing && self.mode == LaunchMode::ExternalLaunch {
                    if outcome.is_ready() {
                        self.phase = Phase::Ready;
                        Directive::Notify(Notification::BackendReady)
                    } else {
                        self.phase = Phase::NotDetected;
                        Directive::Notify(Notification::BackendError(not_detected_message()))
                    }
                } else {
                    Directive::Nothing
                }
            },
            SupervisorEvent::ExitRequested { lock_acquired } => {
                if lock_acquired && self.handle == HandleState::Running {
                    self.handle = HandleState::Terminated;
                    Directive::TerminateBackend
                } else {
                    Directive::Nothing
                }
            },
        }
    }
}

/// Every event leads from a consistent state to a consistent state.
pub proof fn lemma_next_keeps_wf(state: Supervisor, event: SupervisorEventView)
    requires
        state.wf(),
    ensures
        state.next(event).wf(),
{
}

/// A notification is asked for exactly when the startup sequence settles:
/// the event takes a phase that was not settled to one that is.
pub proof fn lemma_notify_iff_settling(state: Supervisor, event: SupervisorEventView)
    ensures
        state.directive(event) is Notify <==> !state.phase.settled() && state.next(
            event,
        ).phase.settled(),
        state.phase.settled() ==> state.next(event).phase == state.phase,
{
}

/// A notification follows the end of what it reports on: it is asked for only
/// when a launch attempt has failed, the readiness loop has ended, or the one
/// health request of an external launch has been answered, and an error
/// carries the diagnostic that was reported.
pub proof fn lemma_notification_follows_completion(state: Supervisor, event: SupervisorEventView)
    requires
        state.directive(event) is Notify,
    ensures
        match event {
            SupervisorEventView::LaunchCompleted(result) => result matches Err(text)
                && state.directive(event) == DirectiveView::Notify(
                NotificationView::BackendError(text),
            ),
            SupervisorEventView::ReadinessResolved(result) => state.directive(event)
                == DirectiveView::Notify(
                match result {
                    Ok(_) => NotificationView::BackendReady,
                    Err(text) => NotificationView::BackendError(text),
                },
            ),
            SupervisorEventView::ProbeAnswered(outcome) => state.directive(event)
                == DirectiveView::Notify(
                if outcome.ready() {
                    NotificationView::BackendReady
                } else {
                    NotificationView::BackendError(not_detected_text())
                },
            ),
            _ => false,
        },
{
}

/// From a settled phase no notification is asked for any more; from any other
/// phase, at most one.
pub proof fn lemma_notifications_bound(state: Supervisor, events: Seq<SupervisorEventView>)
    ensures
        state.notifications(events).len() <= 1,
        state.phase.settled() ==> state.notifications(events).len() == 0,
    decreases events.len(),
{
    if events.len() > 0 {
        lemma_notify_iff_settling(state, events[0]);
        lemma_notifications_bound(state.next(events[0]), events.drop_first());
    }
}

/// Whatever happens during one application run, at most one notification is
/// sent: `backend-ready` and `backend-error` exclude each other.
pub proof fn lemma_at_most_one_notification(mode: LaunchMode, events: Seq<SupervisorEventView>)
    ensures
        Supervisor::initial(mode).notifications(events).len() <= 1,
{
    lemma_notifications_bound(Supervisor::initial(mode), events);
}

/// The backend is launched only out of `Idle`, and `Idle` is never come back
/// to: from any state a launch is asked for at most once, and never once the
/// run has started.
pub proof fn lemma_launches_bound(state: Supervisor, events: Seq<SupervisorEventView>)
    ensures
        state.times_asked(events, DirectiveView::LaunchBackend) <= 1,
        state.phase != Phase::Idle || state.mode == LaunchMode::ExternalLaunch
            ==> state.times_asked(events, DirectiveView::LaunchBackend) == 0,
    decreases events.len(),
{
    if events.len() > 0 {
        lemma_launches_bound(state.next(events[0]), events.drop_first());
    }
}

/// A process is handed over for keeping only out of `Launching`, which is
/// passed through at most once.
pub proof fn lemma_stores_bound(state: Supervisor, events: Seq<SupervisorEventView>)
    ensures
        state.times_asked(events, DirectiveView::AwaitReadiness) <= 1,
        state.phase != Phase::Idle && state.phase != Phase::Launching ==> state.times_asked(
            events,
            DirectiveView::AwaitReadiness,
        ) == 0,
        state.phase == Phase::Idle && state.mode == LaunchMode::ExternalLaunch
            ==> state.times_asked(events, DirectiveView::AwaitReadiness) == 0,
    decreases events.len(),
{
    if events.len() > 0 {
        lemma_stores_bound(state.next(events[0]), events.drop_first());
    }
}

/// A stored process is terminated at most once, and nothing is terminated
/// where nothing can be stored any more.
pub proof fn lemma_terminations_bound(state: Supervisor, events: Seq<SupervisorEventView>)
    requires
        state.wf(),
    ensures
        state.times_asked(events, DirectiveView::TerminateBackend) <= 1,
        state.handle != HandleState::Running && state.phase != Phase::Idle && state.phase
            != Phase::Launching ==> state.times_asked(events, DirectiveView::TerminateBackend)
            == 0,
    decreases events.len(),
{
    if events.len() > 0 {
        lemma_next_keeps_wf(state, events[0]);
        lemma_terminations_bound(state.next(events[0]), events.drop_first());
    }
}

/// During one application run there is at most one backend process: it is
/// launched at most once, stored at most once and terminated at most once,
/// whatever is reported and in whatever order. An external launch never
/// launches, stores or terminates anything.
pub proof fn lemma_single_process(mode: LaunchMode, events: Seq<SupervisorEventView>)
    ensures
        ({
            let start = Supervisor::initial(mode);
            &&& start.times_asked(events, DirectiveView::LaunchBackend) <= 1
            &&& start.times_asked(events, DirectiveView::AwaitReadiness) <= 1
            &&& start.times_asked(events, DirectiveView::TerminateBackend) <= 1
            &&& mode == LaunchMode::ExternalLaunch ==> {
                &&& start.times_asked(events, DirectiveView::LaunchBackend) == 0
                &&& start.times_asked(events, DirectiveView::AwaitReadiness) == 0
                &&& start.times_asked(events, DirectiveView::TerminateBackend) == 0
                &&& start.after(events).handle == HandleState::NotStarted
            }
        }),
{
    let start = Supervisor::initial(mode);
    lemma_launches_bound(start, events);
    lemma_stores_bound(start, events);
    lemma_terminations_bound(start, events);
    if mode == LaunchMode::ExternalLaunch {
        lemma_external_stores_nothing(start, events);
    }
}

/// An external launch never stores or terminates a process.
pub proof fn lemma_external_stores_nothing(state: Supervisor, events: Seq<SupervisorEventView>)
    requires
        state.wf(),
        state.mode == LaunchMode::ExternalLaunch,
    ensures
        state.after(events).handle == HandleState::NotStarted,
        state.times_asked(events, DirectiveView::TerminateBackend) == 0,
    decreases events.len(),
{
    if events.len() > 0 {
        lemma_next_keeps_wf(state, events[0]);
        lemma_external_stores_nothing(state.next(events[0]), events.drop_first());
    }
}

/// The handle slot is written in two places only: a launch that succeeds
/// while launching stores a process, and an exit request that got the lock
/// clears it. No probe result and no readiness result touches the slot.
pub proof fn lemma_handle_frame(state: Supervisor, event: SupervisorEventView)
    ensures
        state.next(event).handle != state.handle ==> {
            ||| event matches SupervisorEventView::LaunchCompleted(Ok(_)) && state.phase
                == Phase::Launching
            ||| event matches SupervisorEventView::ExitRequested { lock_acquired: true }
        },
        event is ProbeAnswered || event is ReadinessResolved ==> state.next(event).handle
            == state.handle,
{
}

/// An exit request that got the lock leaves no process running. If one was
/// stored, the caller is told to terminate it and the slot becomes
/// `Terminated`; if none was, nothing is asked for and nothing changes.
pub proof fn lemma_exit_terminates(state: Supervisor)
    ensures
        ({
            let exit = SupervisorEventView::ExitRequested { lock_acquired: true };
            &&& state.next(exit).handle != HandleState::Running
            &&& state.handle == HandleState::Running ==> state.directive(exit)
                == DirectiveView::TerminateBackend && state.next(exit).handle
                == HandleState::Terminated
            &&& state.handle != HandleState::Running ==> state.directive(exit)
                == DirectiveView::Nothing && state.next(exit) == state
        }),
{
}

/// An exit request that did not get the lock is abandoned: nothing is asked
/// for and nothing changes.
pub proof fn lemma_exit_without_lock_is_abandoned(state: Supervisor)
    ensures
        ({
            let exit = SupervisorEventView::ExitRequested { lock_acquired: false };
            &&& state.directive(exit) == DirectiveView::Nothing
            &&& state.next(exit) == state
        }),
{
}

/// Once the stored process was terminated, no later event brings a running
/// process back.
pub proof fn lemma_terminated_is_final(state: Supervisor, events: Seq<SupervisorEventView>)
    requires
        state.wf(),
        state.handle == HandleState::Terminated,
    ensures
        state.after(events).handle == HandleState::Terminated,
        state.after(events).wf(),
    decreases events.len(),
{
    if events.len() > 0 {
        lemma_next_keeps_wf(state, events[0]);
        lemma_terminated_is_final(state.next(events[0]), events.drop_first());
    }
}

} // verus!
