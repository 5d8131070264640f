use vigil_local::config::config::{ConfigMetrics, ConfigProbeService, ConfigProbeServiceNode, ConfigReport};
use vigil_local::probe::action::{Action, Event, Step};
use vigil_local::probe::mode::Mode;
use vigil_local::probe::replica::ReplicaURL;
use vigil_local::probe::report::{build_request, generate_url, status, ReportReplica, ReportRun};
use vigil_local::probe::script::{index_text, script_status};
use vigil_local::probe::status::Status;

fn report_config() -> ConfigReport {
    ConfigReport { endpoint: "https://status.example.com".to_string(), token: "abc".to_string() }
}

fn service() -> ConfigProbeService {
    ConfigProbeService { id: "web".to_string(), node: Vec::new() }
}

fn node() -> ConfigProbeServiceNode {
    ConfigProbeServiceNode { id: "api".to_string(), mode: Mode::Poll, replicas: None, scripts: None }
}

#[test]
fn report_url_joins_endpoint_and_path() {
    assert_eq!(generate_url("http://x", "reporter/a/b/"), "http://x/reporter/a/b/");
}

#[test]
fn report_request_wire_format() {
    let replica = ReplicaURL::parse_from("icmp://localhost").unwrap();
    let request = build_request(
        &report_config(),
        &service(),
        &node(),
        ReportReplica::Poll(&replica),
        &Status::Sick,
        120,
    );
    assert_eq!(request.url, "https://status.example.com/reporter/web/api/");
    assert_eq!(request.authorization, "Basic OmFiYw==");
    assert_eq!(
        String::from_utf8(request.body.clone()).unwrap(),
        "{\"replica\":\"icmp://localhost\",\"health\":\"sick\",\"interval\":120}"
    );
    assert_eq!(request.timeout_secs, 10);
    assert_eq!(request.user_agent, "vigil-local/1.2.0");
    assert_eq!(request.content_type, "application/json");
    assert_eq!(request.content_length, request.body.len());
    assert_eq!(request.content_length, 61);
}

#[test]
fn report_body_escapes_the_identity() {
    let request = build_request(
        &report_config(),
        &service(),
        &node(),
        ReportReplica::Script("a\"b"),
        &Status::Dead,
        0,
    );
    assert_eq!(
        String::from_utf8(request.body).unwrap(),
        "{\"replica\":\"a\\\"b\",\"health\":\"dead\",\"interval\":0}"
    );
}

#[test]
fn report_replica_identity() {
    let replica = ReplicaURL::parse_from("tcp://db:5432").unwrap();
    assert_eq!(ReportReplica::Poll(&replica).as_str(), "tcp://db:5432");
    assert_eq!(ReportReplica::Script("3").as_str(), "3");
}

#[test]
fn report_http_500_is_tried_three_times_then_dropped() {
    let (mut run, first) = status(
        &report_config(),
        &service(),
        &node(),
        ReportReplica::Script("0"),
        &Status::Healthy,
        120,
    );
    let mut posts = match first {
        Action::Post { .. } => 1,
        other => panic!("unexpected {:?}", other),
    };
    let mut sleeps = Vec::new();
    let mut event = Event::Responded { code: 500, elapsed_ms: 0 };
    let outcome = loop {
        match run.step(event) {
            Step::Act(Action::Post { request }) => {
                assert_eq!(request.url, "https://status.example.com/reporter/web/api/");
                posts += 1;
                event = Event::Responded { code: 500, elapsed_ms: 0 };
            }
            Step::Act(Action::Sleep { millis }) => {
                sleeps.push(millis);
                event = Event::Done;
            }
            Step::Act(other) => panic!("unexpected {:?}", other),
            Step::Settled(ok) => break ok,
        }
    };
    assert!(!outcome);
    assert_eq!(posts, 3);
    assert_eq!(sleeps, vec![3000, 3000]);
}

#[test]
fn report_2xx_settles_at_once() {
    let request = build_request(
        &report_config(),
        &service(),
        &node(),
        ReportReplica::Script("0"),
        &Status::Healthy,
        60,
    );
    let (mut run, _) = ReportRun::new(request);
    assert!(matches!(run.step(Event::Responded { code: 204, elapsed_ms: 0 }), Step::Settled(true)));
}

#[test]
fn report_transport_failure_is_retried() {
    let request = build_request(
        &report_config(),
        &service(),
        &node(),
        ReportReplica::Script("0"),
        &Status::Healthy,
        60,
    );
    let (mut run, _) = ReportRun::new(request);
    assert!(matches!(run.step(Event::RequestFailed), Step::Act(Action::Sleep { millis: 3000 })));
    assert!(matches!(run.step(Event::Done), Step::Act(Action::Post { .. })));
    assert!(matches!(run.step(Event::Responded { code: 200, elapsed_ms: 0 }), Step::Settled(true)));
}

#[test]
fn script_exit_codes() {
    assert_eq!(script_status(&Event::Exited { exit_code: 0 }), Status::Healthy);
    assert_eq!(script_status(&Event::Exited { exit_code: 1 }), Status::Sick);
    assert_eq!(script_status(&Event::Exited { exit_code: 2 }), Status::Dead);
    assert_eq!(script_status(&Event::Exited { exit_code: -1 }), Status::Dead);
    assert_eq!(script_status(&Event::SpawnFailed), Status::Dead);
}

#[test]
fn index_text_is_decimal() {
    assert_eq!(index_text(0), "0");
    assert_eq!(index_text(7), "7");
    assert_eq!(index_text(123), "123");
}

#[test]
fn metrics_type_is_plain() {
    let m = ConfigMetrics {
        interval: 1,
        poll_retry: 0,
        poll_delay_dead: 1,
        poll_delay_sick: 1,
        poll_http_status_healthy_above: 200,
        poll_http_status_healthy_below: 300,
    };
    assert_eq!(m.poll_http_status_healthy_below, 300);
}
