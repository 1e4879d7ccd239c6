use backend_supervisor::bridge::get_backend_url;
use backend_supervisor::endpoint::{base_url, health_url, BACKEND_HOST, BACKEND_PORT};
use backend_supervisor::text::decimal_string;

#[test]
fn backend_url_is_fixed() {
    assert_eq!(get_backend_url(), "http://127.0.0.1:8000");
}

#[test]
fn backend_url_is_the_same_every_time() {
    assert_eq!(get_backend_url(), get_backend_url());
}

#[test]
fn backend_url_is_built_from_host_and_port() {
    assert_eq!(BACKEND_HOST, "127.0.0.1");
    assert_eq!(BACKEND_PORT, 8000);
    assert_eq!(get_backend_url(), format!("http://{}:{}", BACKEND_HOST, BACKEND_PORT));
}

#[test]
fn health_url_is_below_the_base_url() {
    assert_eq!(health_url(), "http://127.0.0.1:8000/health");
    assert_eq!(health_url(), format!("{}/health", get_backend_url()));
}

#[test]
fn base_url_of_other_hosts_and_ports() {
    assert_eq!(base_url("localhost", 80), "http://localhost:80");
    assert_eq!(base_url("10.0.0.7", 65535), "http://10.0.0.7:65535");
    assert_eq!(base_url("", 0), "http://:0");
}

#[test]
fn decimal_of_single_digits() {
    for n in 0..10u64 {
        assert_eq!(decimal_string(n), format!("{}", n));
    }
}

#[test]
fn decimal_of_round_numbers() {
    assert_eq!(decimal_string(10), "10");
    assert_eq!(decimal_string(100), "100");
    assert_eq!(decimal_string(8000), "8000");
    assert_eq!(decimal_string(1_000_000), "1000000");
}

#[test]
fn decimal_keeps_inner_zeros() {
    assert_eq!(decimal_string(101), "101");
    assert_eq!(decimal_string(8080), "8080");
    assert_eq!(decimal_string(90_009), "90009");
}

#[test]
fn decimal_of_the_largest_number() {
    assert_eq!(decimal_string(u64::MAX), "18446744073709551615");
}

#[test]
fn decimal_agrees_with_the_standard_numeral() {
    let mut n: u64 = 1;
    while n < u64::MAX / 7 {
        assert_eq!(decimal_string(n), format!("{}", n));
        assert_eq!(decimal_string(n - 1), format!("{}", n - 1));
        n = n * 7 + 3;
    }
}
