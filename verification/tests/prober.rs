use backend_supervisor::health::{HealthRequest, ProbeOutcome};
use backend_supervisor::prober::{
    timeout_message, ProbeAction, ProbeEvent, ProbePhase, ReadinessProber, MAX_ATTEMPTS,
    REQUEST_TIMEOUT_SECS, RETRY_BUDGET_SECS, RETRY_DELAY_MS,
};

fn probe_request() -> HealthRequest {
    HealthRequest { url: "http://127.0.0.1:8000/health".to_string(), timeout_secs: 2 }
}

/// Runs the loop against an endpoint that answers the request numbered `n`
/// (from 1) with `endpoint(n)`. Gives the result, the requests made and the
/// milliseconds paused.
fn run_loop(endpoint: impl Fn(u32) -> ProbeOutcome) -> (Result<(), String>, u32, u64) {
    let mut prober = ReadinessProber::new();
    let mut requests = 0u32;
    let mut paused = 0u64;
    for _ in 0..1000 {
        match prober.pending() {
            ProbeAction::Request(request) => {
                assert_eq!(request, probe_request());
                requests += 1;
                prober.step(ProbeEvent::Answered(endpoint(requests)));
            }
            ProbeAction::Sleep { millis } => {
                paused += millis;
                prober.step(ProbeEvent::Slept);
            }
            ProbeAction::Finish(result) => return (result, requests, paused),
        }
    }
    panic!("the loop did not end");
}

#[test]
fn loop_constants() {
    assert_eq!(MAX_ATTEMPTS, 60);
    assert_eq!(RETRY_DELAY_MS, 500);
    assert_eq!(REQUEST_TIMEOUT_SECS, 2);
    assert_eq!(RETRY_BUDGET_SECS, 30);
    assert_eq!(MAX_ATTEMPTS as u64 * RETRY_DELAY_MS, RETRY_BUDGET_SECS * 1000);
}

#[test]
fn timeout_message_names_the_budget() {
    assert_eq!(timeout_message(), "Backend did not become ready within 30 seconds");
}

#[test]
fn a_new_loop_asks_for_a_request() {
    let prober = ReadinessProber::new();
    assert_eq!(prober, ReadinessProber { attempt: 1, phase: ProbePhase::Requesting });
    assert_eq!(prober.pending(), ProbeAction::Request(probe_request()));
}

#[test]
fn ready_at_the_first_request() {
    let (result, requests, paused) = run_loop(|_| ProbeOutcome::Status(200));
    assert_eq!(result, Ok(()));
    assert_eq!(requests, 1);
    assert_eq!(paused, 0);
}

#[test]
fn ready_at_the_third_request() {
    let (result, requests, paused) = run_loop(|n| match n {
        1 => ProbeOutcome::Unreachable,
        2 => ProbeOutcome::Status(503),
        _ => ProbeOutcome::Status(204),
    });
    assert_eq!(result, Ok(()));
    assert_eq!(requests, 3);
    assert_eq!(paused, 1000);
}

#[test]
fn ready_at_the_last_request() {
    let (result, requests, paused) =
        run_loop(|n| if n == 60 { ProbeOutcome::Status(200) } else { ProbeOutcome::Unreachable });
    assert_eq!(result, Ok(()));
    assert_eq!(requests, 60);
    assert_eq!(paused, 59 * 500);
}

#[test]
fn ready_too_late_is_a_timeout() {
    let (result, requests, paused) =
        run_loop(|n| if n >= 61 { ProbeOutcome::Status(200) } else { ProbeOutcome::Unreachable });
    assert_eq!(result, Err("Backend did not become ready within 30 seconds".to_string()));
    assert_eq!(requests, 60);
    assert_eq!(paused, 30_000);
}

#[test]
fn never_ready_is_a_timeout_after_sixty_requests() {
    let (result, requests, paused) = run_loop(|_| ProbeOutcome::Status(500));
    assert_eq!(result, Err("Backend did not become ready within 30 seconds".to_string()));
    assert_eq!(requests, 60);
    assert_eq!(paused, 30_000);
}

#[test]
fn unreachable_backend_is_a_timeout() {
    let (result, requests, paused) = run_loop(|_| ProbeOutcome::Unreachable);
    assert_eq!(result, Err(timeout_message()));
    assert_eq!(requests, 60);
    assert_eq!(paused, 60 * 500);
}

#[test]
fn a_failed_request_is_followed_by_a_pause() {
    let mut prober = ReadinessProber::new();
    prober.step(ProbeEvent::Answered(ProbeOutcome::Status(404)));
    assert_eq!(prober, ReadinessProber { attempt: 1, phase: ProbePhase::Sleeping });
    assert_eq!(prober.pending(), ProbeAction::Sleep { millis: 500 });
    prober.step(ProbeEvent::Slept);
    assert_eq!(prober, ReadinessProber { attempt: 2, phase: ProbePhase::Requesting });
}

#[test]
fn the_last_failure_is_followed_by_a_pause_too() {
    let mut prober = ReadinessProber { attempt: 60, phase: ProbePhase::Requesting };
    prober.step(ProbeEvent::Answered(ProbeOutcome::Unreachable));
    assert_eq!(prober.pending(), ProbeAction::Sleep { millis: 500 });
    prober.step(ProbeEvent::Slept);
    assert_eq!(prober, ReadinessProber { attempt: 60, phase: ProbePhase::TimedOut });
    assert_eq!(prober.pending(), ProbeAction::Finish(Err(timeout_message())));
}

#[test]
fn reports_that_answer_nothing_change_nothing() {
    let mut prober = ReadinessProber::new();
    prober.step(ProbeEvent::Slept);
    assert_eq!(prober, ReadinessProber::new());
    prober.step(ProbeEvent::Answered(ProbeOutcome::Unreachable));
    let sleeping = prober;
    prober.step(ProbeEvent::Answered(ProbeOutcome::Status(200)));
    assert_eq!(prober, sleeping);
}

#[test]
fn a_finished_loop_stays_finished() {
    let mut ready = ReadinessProber::new();
    ready.step(ProbeEvent::Answered(ProbeOutcome::Status(200)));
    let before = ready;
    ready.step(ProbeEvent::Slept);
    ready.step(ProbeEvent::Answered(ProbeOutcome::Unreachable));
    assert_eq!(ready, before);
    assert_eq!(ready.pending(), ProbeAction::Finish(Ok(())));

    let mut timed_out = ReadinessProber { attempt: 60, phase: ProbePhase::TimedOut };
    timed_out.step(ProbeEvent::Answered(ProbeOutcome::Status(200)));
    timed_out.step(ProbeEvent::Slept);
    assert_eq!(timed_out, ReadinessProber { attempt: 60, phase: ProbePhase::TimedOut });
}

#[test]
fn only_success_statuses_end_the_loop_early() {
    for code in [100u16, 199, 300, 301, 404, 500, 999] {
        let mut prober = ReadinessProber::new();
        prober.step(ProbeEvent::Answered(ProbeOutcome::Status(code)));
        assert_eq!(prober.phase, ProbePhase::Sleeping, "status {}", code);
    }
    for code in [200u16, 201, 204, 299] {
        let mut prober = ReadinessProber::new();
        prober.step(ProbeEvent::Answered(ProbeOutcome::Status(code)));
        assert_eq!(prober.phase, ProbePhase::Ready, "status {}", code);
    }
}
