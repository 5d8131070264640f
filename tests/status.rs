use vigil_local::config::defaults::{
    metrics_poll_delay_dead, metrics_poll_delay_sick, metrics_poll_http_status_healthy_above,
    metrics_poll_http_status_healthy_below, metrics_poll_interval, metrics_poll_retry,
    metrics_script_interval, server_log_level,
};
use vigil_local::probe::status::{classify, Status};

#[test]
fn unreachable_is_dead_whatever_the_latency() {
    assert_eq!(classify(false, 0, 1000), Status::Dead);
    assert_eq!(classify(false, 5000, 1000), Status::Dead);
    assert_eq!(classify(false, u64::MAX, 0), Status::Dead);
}

#[test]
fn reachable_below_threshold_is_healthy() {
    assert_eq!(classify(true, 0, 1000), Status::Healthy);
    assert_eq!(classify(true, 999, 1000), Status::Healthy);
}

#[test]
fn reachable_at_or_above_threshold_is_sick() {
    assert_eq!(classify(true, 1000, 1000), Status::Sick);
    assert_eq!(classify(true, 1001, 1000), Status::Sick);
    assert_eq!(classify(true, 0, 0), Status::Sick);
}

#[test]
fn status_words() {
    assert_eq!(Status::Healthy.as_str(), "healthy");
    assert_eq!(Status::Sick.as_str(), "sick");
    assert_eq!(Status::Dead.as_str(), "dead");
}

#[test]
fn default_values() {
    assert_eq!(server_log_level(), "error");
    assert_eq!(metrics_poll_interval(), 60);
    assert_eq!(metrics_poll_retry(), 2);
    assert_eq!(metrics_poll_http_status_healthy_above(), 200);
    assert_eq!(metrics_poll_http_status_healthy_below(), 400);
    assert_eq!(metrics_poll_delay_dead(), 10);
    assert_eq!(metrics_poll_delay_sick(), 1);
    assert_eq!(metrics_script_interval(), 180);
}
