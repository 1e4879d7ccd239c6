use backend_supervisor::bridge::{Notification, ERROR_EVENT, READY_EVENT};
use backend_supervisor::health::{HealthRequest, ProbeOutcome};
use backend_supervisor::supervisor::{
    not_detected_message, Directive, HandleState, LaunchMode, Phase, Supervisor, SupervisorEvent,
};

fn probe_once() -> Directive {
    Directive::ProbeOnce(HealthRequest {
        url: "http://127.0.0.1:8000/health".to_string(),
        timeout_secs: 2,
    })
}

fn error(text: &str) -> Directive {
    Directive::Notify(Notification::BackendError(text.to_string()))
}

fn ready() -> Directive {
    Directive::Notify(Notification::BackendReady)
}

/// Every event there is, up to the texts carried.
fn all_events() -> Vec<SupervisorEvent> {
    vec![
        SupervisorEvent::Startup,
        SupervisorEvent::LaunchCompleted(Ok(())),
        SupervisorEvent::LaunchCompleted(Err("launch".to_string())),
        SupervisorEvent::ReadinessResolved(Ok(())),
        SupervisorEvent::ReadinessResolved(Err("probe".to_string())),
        SupervisorEvent::ProbeAnswered(ProbeOutcome::Status(200)),
        SupervisorEvent::ProbeAnswered(ProbeOutcome::Status(500)),
        SupervisorEvent::ProbeAnswered(ProbeOutcome::Unreachable),
        SupervisorEvent::ExitRequested { lock_acquired: true },
        SupervisorEvent::ExitRequested { lock_acquired: false },
    ]
}

/// Takes the events numbered by the digits of `code` in base ten, and gives
/// the directives asked for.
fn run_coded(mode: LaunchMode, mut code: u32, length: u32) -> (Supervisor, Vec<Directive>) {
    let mut supervisor = Supervisor::new(mode);
    let mut asked = Vec::new();
    for _ in 0..length {
        let event = all_events().swap_remove((code % 10) as usize);
        code /= 10;
        asked.push(supervisor.step(event));
    }
    (supervisor, asked)
}

#[test]
fn a_new_supervisor_is_idle_and_holds_nothing() {
    for mode in [LaunchMode::ManagedLaunch, LaunchMode::ExternalLaunch] {
        assert_eq!(
            Supervisor::new(mode),
            Supervisor { mode, phase: Phase::Idle, handle: HandleState::NotStarted }
        );
    }
}

#[test]
fn managed_launch_that_becomes_ready() {
    let mut supervisor = Supervisor::new(LaunchMode::ManagedLaunch);
    assert_eq!(supervisor.step(SupervisorEvent::Startup), Directive::LaunchBackend);
    assert_eq!(supervisor.phase, Phase::Launching);
    assert_eq!(supervisor.handle, HandleState::NotStarted);
    assert_eq!(
        supervisor.step(SupervisorEvent::LaunchCompleted(Ok(()))),
        Directive::AwaitReadiness
    );
    assert_eq!(supervisor.phase, Phase::Probing);
    assert_eq!(supervisor.handle, HandleState::Running);
    assert_eq!(supervisor.step(SupervisorEvent::ReadinessResolved(Ok(()))), ready());
    assert_eq!(supervisor.phase, Phase::Ready);
    assert_eq!(supervisor.handle, HandleState::Running);
}

#[test]
fn managed_launch_that_times_out() {
    let mut supervisor = Supervisor::new(LaunchMode::ManagedLaunch);
    supervisor.step(SupervisorEvent::Startup);
    supervisor.step(SupervisorEvent::LaunchCompleted(Ok(())));
    let text = "Backend did not become ready within 30 seconds";
    assert_eq!(
        supervisor.step(SupervisorEvent::ReadinessResolved(Err(text.to_string()))),
        error(text)
    );
    assert_eq!(supervisor.phase, Phase::LaunchFailed);
    assert_eq!(supervisor.handle, HandleState::Running);
}

#[test]
fn managed_launch_that_fails_to_start() {
    let mut supervisor = Supervisor::new(LaunchMode::ManagedLaunch);
    supervisor.step(SupervisorEvent::Startup);
    let text = "Backend executable not found at /res/backend/invoice_processor";
    assert_eq!(
        supervisor.step(SupervisorEvent::LaunchCompleted(Err(text.to_string()))),
        error(text)
    );
    assert_eq!(supervisor.phase, Phase::LaunchFailed);
    assert_eq!(supervisor.handle, HandleState::NotStarted);
    assert_eq!(supervisor.step(SupervisorEvent::ReadinessResolved(Ok(()))), Directive::Nothing);
    assert_eq!(supervisor.phase, Phase::LaunchFailed);
}

#[test]
fn external_launch_that_finds_the_backend() {
    let mut supervisor = Supervisor::new(LaunchMode::ExternalLaunch);
    assert_eq!(supervisor.step(SupervisorEvent::Startup), probe_once());
    assert_eq!(supervisor.phase, Phase::Probing);
    assert_eq!(
        supervisor.step(SupervisorEvent::ProbeAnswered(ProbeOutcome::Status(200))),
        ready()
    );
    assert_eq!(supervisor.phase, Phase::Ready);
    assert_eq!(supervisor.handle, HandleState::NotStarted);
}

#[test]
fn external_launch_that_finds_nothing() {
    for outcome in [ProbeOutcome::Unreachable, ProbeOutcome::Status(500), ProbeOutcome::Status(404)]
    {
        let mut supervisor = Supervisor::new(LaunchMode::ExternalLaunch);
        supervisor.step(SupervisorEvent::Startup);
        assert_eq!(
            supervisor.step(SupervisorEvent::ProbeAnswered(outcome)),
            error("Backend not running. Start it manually: cd backend && python run_server.py")
        );
        assert_eq!(supervisor.phase, Phase::NotDetected);
        assert_eq!(supervisor.handle, HandleState::NotStarted);
    }
}

#[test]
fn not_detected_message_text() {
    assert_eq!(
        not_detected_message(),
        "Backend not running. Start it manually: cd backend && python run_server.py"
    );
}

#[test]
fn external_launch_probes_once_only() {
    let mut supervisor = Supervisor::new(LaunchMode::ExternalLaunch);
    supervisor.step(SupervisorEvent::Startup);
    supervisor.step(SupervisorEvent::ProbeAnswered(ProbeOutcome::Unreachable));
    assert_eq!(
        supervisor.step(SupervisorEvent::ProbeAnswered(ProbeOutcome::Status(200))),
        Directive::Nothing
    );
    assert_eq!(supervisor.phase, Phase::NotDetected);
}

#[test]
fn each_mode_ignores_the_other_modes_results() {
    let mut managed = Supervisor::new(LaunchMode::ManagedLaunch);
    managed.step(SupervisorEvent::Startup);
    managed.step(SupervisorEvent::LaunchCompleted(Ok(())));
    assert_eq!(
        managed.step(SupervisorEvent::ProbeAnswered(ProbeOutcome::Status(200))),
        Directive::Nothing
    );
    assert_eq!(managed.phase, Phase::Probing);

    let mut external = Supervisor::new(LaunchMode::ExternalLaunch);
    external.step(SupervisorEvent::Startup);
    assert_eq!(external.step(SupervisorEvent::ReadinessResolved(Ok(()))), Directive::Nothing);
    assert_eq!(external.step(SupervisorEvent::LaunchCompleted(Ok(()))), Directive::Nothing);
    assert_eq!(external.phase, Phase::Probing);
    assert_eq!(external.handle, HandleState::NotStarted);
}

#[test]
fn exit_terminates_the_stored_process() {
    let mut supervisor = Supervisor::new(LaunchMode::ManagedLaunch);
    supervisor.step(SupervisorEvent::Startup);
    supervisor.step(SupervisorEvent::LaunchCompleted(Ok(())));
    supervisor.step(SupervisorEvent::ReadinessResolved(Ok(())));
    assert_eq!(
        supervisor.step(SupervisorEvent::ExitRequested { lock_acquired: true }),
        Directive::TerminateBackend
    );
    assert_eq!(supervisor.handle, HandleState::Terminated);
    assert_eq!(supervisor.phase, Phase::Ready);
}

#[test]
fn exit_while_probing_terminates_the_stored_process() {
    let mut supervisor = Supervisor::new(LaunchMode::ManagedLaunch);
    supervisor.step(SupervisorEvent::Startup);
    supervisor.step(SupervisorEvent::LaunchCompleted(Ok(())));
    assert_eq!(
        supervisor.step(SupervisorEvent::ExitRequested { lock_acquired: true }),
        Directive::TerminateBackend
    );
    assert_eq!(supervisor.handle, HandleState::Terminated);
}

#[test]
fn exit_with_nothing_stored_does_nothing() {
    for mode in [LaunchMode::ManagedLaunch, LaunchMode::ExternalLaunch] {
        let mut supervisor = Supervisor::new(mode);
        assert_eq!(
            supervisor.step(SupervisorEvent::ExitRequested { lock_acquired: true }),
            Directive::Nothing
        );
        assert_eq!(supervisor, Supervisor::new(mode));
    }
    let mut failed = Supervisor::new(LaunchMode::ManagedLaunch);
    failed.step(SupervisorEvent::Startup);
    failed.step(SupervisorEvent::LaunchCompleted(Err("no".to_string())));
    assert_eq!(
        failed.step(SupervisorEvent::ExitRequested { lock_acquired: true }),
        Directive::Nothing
    );
    assert_eq!(failed.handle, HandleState::NotStarted);
}

#[test]
fn exit_without_the_lock_is_abandoned() {
    let mut supervisor = Supervisor::new(LaunchMode::ManagedLaunch);
    supervisor.step(SupervisorEvent::Startup);
    supervisor.step(SupervisorEvent::LaunchCompleted(Ok(())));
    let before = supervisor;
    assert_eq!(
        supervisor.step(SupervisorEvent::ExitRequested { lock_acquired: false }),
        Directive::Nothing
    );
    assert_eq!(supervisor, before);
    assert_eq!(supervisor.handle, HandleState::Running);
}

#[test]
fn a_second_exit_terminates_nothing() {
    let mut supervisor = Supervisor::new(LaunchMode::ManagedLaunch);
    supervisor.step(SupervisorEvent::Startup);
    supervisor.step(SupervisorEvent::LaunchCompleted(Ok(())));
    supervisor.step(SupervisorEvent::ExitRequested { lock_acquired: true });
    assert_eq!(
        supervisor.step(SupervisorEvent::ExitRequested { lock_acquired: true }),
        Directive::Nothing
    );
    assert_eq!(supervisor.handle, HandleState::Terminated);
}

#[test]
fn readiness_is_still_announced_after_an_exit_request() {
    let mut supervisor = Supervisor::new(LaunchMode::ManagedLaunch);
    supervisor.step(SupervisorEvent::Startup);
    supervisor.step(SupervisorEvent::LaunchCompleted(Ok(())));
    supervisor.step(SupervisorEvent::ExitRequested { lock_acquired: true });
    assert_eq!(supervisor.step(SupervisorEvent::ReadinessResolved(Ok(()))), ready());
    assert_eq!(supervisor.handle, HandleState::Terminated);
}

#[test]
fn startup_counts_once() {
    let mut supervisor = Supervisor::new(LaunchMode::ManagedLaunch);
    assert_eq!(supervisor.step(SupervisorEvent::Startup), Directive::LaunchBackend);
    assert_eq!(supervisor.step(SupervisorEvent::Startup), Directive::Nothing);
    assert_eq!(supervisor.phase, Phase::Launching);
}

#[test]
fn results_before_startup_are_ignored() {
    for mode in [LaunchMode::ManagedLaunch, LaunchMode::ExternalLaunch] {
        for event in all_events().into_iter().skip(1) {
            let mut supervisor = Supervisor::new(mode);
            assert_eq!(supervisor.step(event), Directive::Nothing);
            assert_eq!(supervisor, Supervisor::new(mode));
        }
    }
}

#[test]
fn at_most_one_notification_whatever_happens() {
    for mode in [LaunchMode::ManagedLaunch, LaunchMode::ExternalLaunch] {
        for code in 0..100_000u32 {
            let (_, asked) = run_coded(mode, code, 5);
            let sent = asked.iter().filter(|d| matches!(d, Directive::Notify(_))).count();
            assert!(sent <= 1, "{:?} sends {} notifications on {}", mode, sent, code);
        }
    }
}

#[test]
fn at_most_one_process_whatever_happens() {
    for mode in [LaunchMode::ManagedLaunch, LaunchMode::ExternalLaunch] {
        for code in 0..100_000u32 {
            let (last, asked) = run_coded(mode, code, 5);
            let count = |wanted: &Directive| asked.iter().filter(|d| *d == wanted).count();
            assert!(count(&Directive::LaunchBackend) <= 1);
            assert!(count(&Directive::AwaitReadiness) <= 1);
            assert!(count(&Directive::TerminateBackend) <= 1);
            if mode == LaunchMode::ExternalLaunch {
                assert_eq!(count(&Directive::LaunchBackend), 0);
                assert_eq!(count(&Directive::TerminateBackend), 0);
                assert_eq!(last.handle, HandleState::NotStarted);
            }
        }
    }
}

#[test]
fn probe_results_never_touch_the_handle() {
    for mode in [LaunchMode::ManagedLaunch, LaunchMode::ExternalLaunch] {
        for code in 0..10_000u32 {
            let (before, _) = run_coded(mode, code, 4);
            for event in all_events().into_iter().skip(3).take(5) {
                let mut after = before;
                after.step(event);
                assert_eq!(after.handle, before.handle);
            }
        }
    }
}

#[test]
fn no_process_runs_after_an_exit_with_the_lock() {
    for code in 0..10_000u32 {
        let (mut supervisor, _) = run_coded(LaunchMode::ManagedLaunch, code, 4);
        let stored = supervisor.handle == HandleState::Running;
        let asked = supervisor.step(SupervisorEvent::ExitRequested { lock_acquired: true });
        assert_ne!(supervisor.handle, HandleState::Running);
        assert_eq!(asked == Directive::TerminateBackend, stored);
    }
}

#[test]
fn notification_names_and_payloads() {
    assert_eq!(READY_EVENT, "backend-ready");
    assert_eq!(ERROR_EVENT, "backend-error");
    assert_eq!(Notification::BackendReady.event_name(), "backend-ready");
    assert_eq!(Notification::BackendReady.payload(), None);
    let failed = Notification::BackendError("Failed to spawn backend: denied".to_string());
    assert_eq!(failed.event_name(), "backend-error");
    assert_eq!(failed.payload(), Some("Failed to spawn backend: denied"));
}

#[test]
fn copies_of_notifications_and_directives_are_equal() {
    let failed = Notification::BackendError("x".to_string());
    assert_eq!(failed.clone(), failed);
    assert_eq!(Notification::BackendReady.clone(), Notification::BackendReady);
    for directive in [
        Directive::LaunchBackend,
        Directive::AwaitReadiness,
        probe_once(),
        ready(),
        error("y"),
        Directive::TerminateBackend,
        Directive::Nothing,
    ] {
        assert_eq!(directive.clone(), directive);
    }
}
