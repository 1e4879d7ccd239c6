use backend_supervisor::bridge::{
    check_backend_health, health_check_request, HEALTH_CHECK_TIMEOUT_SECS,
};
use backend_supervisor::health::{HealthRequest, ProbeOutcome};

#[test]
fn status_200_is_healthy() {
    assert!(check_backend_health(ProbeOutcome::Status(200)));
}

#[test]
fn status_500_is_not_healthy() {
    assert!(!check_backend_health(ProbeOutcome::Status(500)));
}

#[test]
fn refused_connection_is_not_healthy() {
    assert!(!check_backend_health(ProbeOutcome::Unreachable));
}

#[test]
fn every_2xx_status_is_ready() {
    for code in 200..300u16 {
        assert!(ProbeOutcome::Status(code).is_ready(), "status {}", code);
    }
}

#[test]
fn no_other_status_is_ready() {
    for code in 0..=u16::MAX {
        if !(200..300).contains(&code) {
            assert!(!ProbeOutcome::Status(code).is_ready(), "status {}", code);
        }
    }
}

#[test]
fn readiness_at_the_edges_of_the_success_class() {
    assert!(!ProbeOutcome::Status(199).is_ready());
    assert!(ProbeOutcome::Status(200).is_ready());
    assert!(ProbeOutcome::Status(299).is_ready());
    assert!(!ProbeOutcome::Status(300).is_ready());
}

#[test]
fn codes_that_are_no_status_are_not_ready() {
    assert!(!ProbeOutcome::Status(0).is_ready());
    assert!(!ProbeOutcome::Status(99).is_ready());
    assert!(!ProbeOutcome::Status(1000).is_ready());
    assert!(!ProbeOutcome::Status(2000).is_ready());
    assert!(!ProbeOutcome::Status(u16::MAX).is_ready());
}

#[test]
fn redirects_and_client_errors_are_not_ready() {
    assert!(!ProbeOutcome::Status(100).is_ready());
    assert!(!ProbeOutcome::Status(301).is_ready());
    assert!(!ProbeOutcome::Status(404).is_ready());
    assert!(!ProbeOutcome::Status(503).is_ready());
}

#[test]
fn health_check_agrees_with_readiness() {
    for code in [0u16, 100, 199, 200, 204, 299, 300, 404, 500, 999, 1000] {
        let outcome = ProbeOutcome::Status(code);
        assert_eq!(check_backend_health(outcome), outcome.is_ready());
    }
    assert_eq!(
        check_backend_health(ProbeOutcome::Unreachable),
        ProbeOutcome::Unreachable.is_ready()
    );
}

#[test]
fn health_check_asks_the_health_url_for_three_seconds() {
    assert_eq!(HEALTH_CHECK_TIMEOUT_SECS, 3);
    assert_eq!(
        health_check_request(),
        HealthRequest { url: "http://127.0.0.1:8000/health".to_string(), timeout_secs: 3 }
    );
}

#[test]
fn health_requests_go_to_the_health_url() {
    for timeout_secs in [0u64, 1, 2, 3, u64::MAX] {
        let request = HealthRequest::with_timeout(timeout_secs);
        assert_eq!(request.url, "http://127.0.0.1:8000/health");
        assert_eq!(request.timeout_secs, timeout_secs);
        assert_eq!(request.clone(), request);
    }
}

#[test]
fn readiness_agrees_with_the_status_class_of_the_http_client() {
    for code in 0..=u16::MAX {
        let expected = match reqwest::StatusCode::from_u16(code) {
            Ok(status) => status.is_success(),
            Err(_) => false,
        };
        assert_eq!(ProbeOutcome::Status(code).is_ready(), expected, "status {}", code);
    }
}
