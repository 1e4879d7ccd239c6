//! The startup sequence as a whole: what the user interface is told, given
//! how the launch went and what the health endpoint answered.

use vstd::prelude::*;
use crate::bridge::NotificationView;
use crate::health::ProbeOutcome;
use crate::launcher::{lemma_missing_executable_fails, LaunchEventView, LauncherView};
use crate::locator::{not_found_text, Platform};
use crate::prober::{
    lemma_never_ready_times_out,
    lemma_some_ready_within_budget,
    none_ready_before,
    some_ready_before,
    timeout_text,
    ReadinessProber,
    MAX_ATTEMPTS,
    RETRY_BUDGET_SECS,
};
use crate::supervisor::{
    not_detected_text,
    HandleState,
    LaunchMode,
    Phase,
    Supervisor,
    SupervisorEventView,
};

verus! {

/// What the supervisor is told during a managed launch: that the application
/// started, how the launch attempt ended, and, if the backend was started and
/// the readiness loop has come to an end over `outcomes`, how that ended.
pub open spec fn managed_events(
    launch: Result<(), Seq<char>>,
    outcomes: Seq<ProbeOutcome>,
) -> Seq<SupervisorEventView> {
    let launched = seq![SupervisorEventView::Startup, SupervisorEventView::LaunchCompleted(launch)];
    match (launch, ReadinessProber::after_outcomes(outcomes).verdict()) {
        (Ok(_), Some(verdict)) => launched.push(SupervisorEventView::ReadinessResolved(verdict)),
        _ => launched,
    }
}

/// What the supervisor is told during an external launch: that the
/// application started, and what the one health request came to.
pub open spec fn external_events(outcome: ProbeOutcome) -> Seq<SupervisorEventView> {
    seq![SupervisorEventView::Startup, SupervisorEventView::ProbeAnswered(outcome)]
}

/// Unfolds the notifications of a run of three events.
proof fn lemma_three_events(state: Supervisor, events: Seq<SupervisorEventView>)
    requires
        events.len() == 3,
    ensures
        state.after(events) == state.next(events[0]).next(events[1]).next(events[2]),
        state.notifications(events) == state.notifications(seq![events[0]]) + state.next(
            events[0],
        ).notifications(seq![events[1]]) + state.next(events[0]).next(events[1]).notifications(
            seq![events[2]],
        ),
{
    reveal_with_fuel(Supervisor::after, 4);
    reveal_with_fuel(Supervisor::notifications, 4);
    let second = events.drop_first();
    let third = second.drop_first();
    assert(second[0] == events[1]);
    assert(third[0] == events[2]);
    assert(third.drop_first().len() == 0);
    assert(seq![events[0]].drop_first().len() == 0);
    assert(seq![events[1]].drop_first().len() == 0);
    assert(seq![events[2]].drop_first().len() == 0);
    assert(state.notifications(events) =~= state.notifications(seq![events[0]]) + state.next(
        events[0],
    ).notifications(seq![events[1]]) + state.next(events[0]).next(events[1]).notifications(
        seq![events[2]],
    ));
}

/// Unfolds the notifications of a run of two events.
proof fn lemma_two_events(state: Supervisor, events: Seq<SupervisorEventView>)
    requires
        events.len() == 2,
    ensures
        state.after(events) == state.next(events[0]).next(events[1]),
        state.notifications(events) == state.notifications(seq![events[0]]) + state.next(
            events[0],
        ).notifications(seq![events[1]]),
{
    reveal_with_fuel(Supervisor::after, 3);
    reveal_with_fuel(Supervisor::notifications, 3);
    let second = events.drop_first();
    assert(second[0] == events[1]);
    assert(second.drop_first().len() == 0);
    assert(seq![events[0]].drop_first().len() == 0);
    assert(seq![events[1]].drop_first().len() == 0);
    assert(state.notifications(events) =~= state.notifications(seq![events[0]]) + state.next(
        events[0],
    ).notifications(seq![events[1]]));
}

/// A launch that succeeds, followed by a health endpoint that answers with a
/// success status within the retry budget, sends `backend-ready` once and
/// `backend-error` never. The backend's process is then stored and running.
pub proof fn lemma_ready_backend_is_announced(outcomes: Seq<ProbeOutcome>)
    requires
        some_ready_before(outcomes, MAX_ATTEMPTS as int),
    ensures
        ({
            let start = Supervisor::initial(LaunchMode::ManagedLaunch);
            let events = managed_events(Ok(()), outcomes);
            &&& start.notifications(events) == seq![NotificationView::BackendReady]
            &&& start.after(events).phase == Phase::Ready
            &&& start.after(events).handle == HandleState::Running
        }),
{
    lemma_some_ready_within_budget(outcomes);
    let start = Supervisor::initial(LaunchMode::ManagedLaunch);
    let events = managed_events(Ok(()), outcomes);
    lemma_three_events(start, events);
    reveal_with_fuel(Supervisor::notifications, 2);
    assert(start.notifications(events) =~= seq![NotificationView::BackendReady]);
}

/// A launch that succeeds, followed by a health endpoint that answers none of
/// the [`MAX_ATTEMPTS`] requests with a success status, sends `backend-error`
/// once, with the timeout diagnostic, and `backend-ready` never. By then the
/// readiness loop has paused for [`RETRY_BUDGET_SECS`] seconds in all.
pub proof fn lemma_unready_backend_is_reported(outcomes: Seq<ProbeOutcome>)
    requires
        outcomes.len() >= MAX_ATTEMPTS,
        none_ready_before(outcomes, MAX_ATTEMPTS as int),
    ensures
        ({
            let start = Supervisor::initial(LaunchMode::ManagedLaunch);
            let events = managed_events(Ok(()), outcomes);
            &&& start.notifications(events) == seq![NotificationView::BackendError(timeout_text())]
            &&& start.after(events).phase == Phase::LaunchFailed
            &&& ReadinessProber::paused_ms(outcomes) == RETRY_BUDGET_SECS * 1000
        }),
{
    lemma_never_ready_times_out(outcomes);
    let start = Supervisor::initial(LaunchMode::ManagedLaunch);
    let events = managed_events(Ok(()), outcomes);
    lemma_three_events(start, events);
    reveal_with_fuel(Supervisor::notifications, 2);
    assert(start.notifications(events) =~= seq![NotificationView::BackendError(timeout_text())]);
}

/// A launch that fails sends `backend-error` once, with the launch
/// diagnostic; no readiness loop is run and no process is stored.
pub proof fn lemma_failed_launch_is_reported(cause: Seq<char>, outcomes: Seq<ProbeOutcome>)
    ensures
        ({
            let start = Supervisor::initial(LaunchMode::ManagedLaunch);
            let events = managed_events(Err(cause), outcomes);
            &&& start.notifications(events) == seq![NotificationView::BackendError(cause)]
            &&& start.after(events).phase == Phase::LaunchFailed
            &&& start.after(events).handle == HandleState::NotStarted
        }),
{
    let start = Supervisor::initial(LaunchMode::ManagedLaunch);
    let events = managed_events(Err(cause), outcomes);
    lemma_two_events(start, events);
    reveal_with_fuel(Supervisor::notifications, 2);
    assert(start.notifications(events) =~= seq![NotificationView::BackendError(cause)]);
}

/// If the executable is not on disk, the user interface is sent the
/// diagnostic that names the expected path, and no process is stored.
pub proof fn lemma_missing_executable_is_reported(
    platform: Platform,
    resource_dir: Seq<char>,
    outcomes: Seq<ProbeOutcome>,
)
    ensures
        ({
            let attempt = LauncherView::initial(platform).next(
                LaunchEventView::ResourceDirResolved(Ok(resource_dir)),
            ).next(LaunchEventView::ExecutableChecked { exists: false });
            let start = Supervisor::initial(LaunchMode::ManagedLaunch);
            let diagnostic = not_found_text(platform.backend_exe_path(resource_dir));
            &&& attempt.verdict() == Some(Err::<(), Seq<char>>(diagnostic))
            &&& start.notifications(managed_events(Err(diagnostic), outcomes))
                == seq![NotificationView::BackendError(diagnostic)]
            &&& start.after(managed_events(Err(diagnostic), outcomes)).handle
                == HandleState::NotStarted
        }),
{
    lemma_missing_executable_fails(platform, resource_dir, Seq::empty());
    lemma_failed_launch_is_reported(
        not_found_text(platform.backend_exe_path(resource_dir)),
        outcomes,
    );
}

/// An external launch sends one notification after its one health request:
/// `backend-ready` if the request found the backend ready, `backend-error`
/// with the hint to start it if not. It never stores a process.
pub proof fn lemma_external_launch_is_announced(outcome: ProbeOutcome)
    ensures
        ({
            let start = Supervisor::initial(LaunchMode::ExternalLaunch);
            let events = external_events(outcome);
            &&& outcome.ready() ==> start.notifications(events)
                == seq![NotificationView::BackendReady] && start.after(events).phase
                == Phase::Ready
            &&& !outcome.ready() ==> start.notifications(events)
                == seq![NotificationView::BackendError(not_detected_text())] && start.after(
                events,
            ).phase == Phase::NotDetected
            &&& start.after(events).handle == HandleState::NotStarted
        }),
{
    let start = Supervisor::initial(LaunchMode::ExternalLaunch);
    let events = external_events(outcome);
    lemma_two_events(start, events);
    reveal_with_fuel(Supervisor::notifications, 2);
    if outcome.ready() {
        assert(start.notifications(events) =~= seq![NotificationView::BackendReady]);
    } else {
        assert(start.notifications(events) =~= seq![
            NotificationView::BackendError(not_detected_text()),
        ]);
    }
}

} // verus!
