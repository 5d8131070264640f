use vigil_local::config::config::ConfigMetrics;
use vigil_local::probe::action::{Action, Event, Step};
use vigil_local::probe::poll::{proceed_replica, ProbePhase, ReplicaProbe};
use vigil_local::probe::replica::ReplicaURL;
use vigil_local::probe::retry::Retry;
use vigil_local::probe::status::Status;

fn metrics(poll_retry: u8) -> ConfigMetrics {
    ConfigMetrics {
        interval: 120,
        poll_retry,
        poll_delay_dead: 10,
        poll_delay_sick: 1,
        poll_http_status_healthy_above: 200,
        poll_http_status_healthy_below: 400,
    }
}

fn act(step: Step<Status>) -> Action {
    match step {
        Step::Act(a) => a,
        Step::Settled(s) => panic!("settled early on {:?}", s),
    }
}

fn start(replica: &ReplicaURL, poll_retry: u8) -> ReplicaProbe {
    let (probe, first) = proceed_replica(replica, &metrics(poll_retry));
    assert!(matches!(first, Action::StartClock));
    probe
}

#[test]
fn http_503_is_dead_after_three_attempts_200ms_apart() {
    let replica = ReplicaURL::parse_from("http://example.com/").unwrap();
    let mut probe = start(&replica, 2);
    let mut heads = 0;
    let mut sleeps = Vec::new();
    let mut event = Event::Done;
    let outcome = loop {
        match probe.step(&replica, event) {
            Step::Act(Action::Head { url, user_agent, timeout_secs }) => {
                assert_eq!(url, "http://example.com/");
                assert_eq!(user_agent, "vigil-local/1.2.0");
                assert_eq!(timeout_secs, 10);
                heads += 1;
                event = Event::Responded { code: 503, elapsed_ms: 5 };
            }
            Step::Act(Action::Sleep { millis }) => {
                sleeps.push(millis);
                event = Event::Done;
            }
            Step::Act(Action::StartClock) => event = Event::Done,
            Step::Act(other) => panic!("unexpected {:?}", other),
            Step::Settled(s) => break s,
        }
    };
    assert_eq!(outcome, Status::Dead);
    assert_eq!(heads, 3);
    assert_eq!(sleeps, vec![200, 200]);
}

#[test]
fn http_status_range_is_half_open() {
    let replica = ReplicaURL::parse_from("https://example.com/").unwrap();
    for (code, expected) in [(200u16, Status::Healthy), (399, Status::Healthy), (199, Status::Dead), (400, Status::Dead)] {
        let mut probe = start(&replica, 0);
        act(probe.step(&replica, Event::Done));
        match probe.step(&replica, Event::Responded { code, elapsed_ms: 10 }) {
            Step::Settled(s) => assert_eq!(s, expected, "code {}", code),
            Step::Act(a) => panic!("unexpected {:?}", a),
        }
    }
}

#[test]
fn slow_connection_counts_as_sick() {
    let replica = ReplicaURL::parse_from("tcp://127.0.0.1:22").unwrap();
    let mut probe = start(&replica, 2);
    match act(probe.step(&replica, Event::Done)) {
        Action::Resolve { host, port } => {
            assert_eq!(host, "127.0.0.1");
            assert_eq!(port, 22);
        }
        other => panic!("unexpected {:?}", other),
    }
    match act(probe.step(&replica, Event::Resolved { count: 3 })) {
        Action::Connect { address, timeout_secs } => {
            assert_eq!(address, 0);
            assert_eq!(timeout_secs, 10);
        }
        other => panic!("unexpected {:?}", other),
    }
    assert!(matches!(
        probe.step(&replica, Event::Connected { elapsed_ms: 1500 }),
        Step::Settled(Status::Sick)
    ));
}

#[test]
fn tcp_without_address_is_dead() {
    let replica = ReplicaURL::parse_from("tcp://nowhere.invalid:80").unwrap();
    let mut probe = start(&replica, 0);
    act(probe.step(&replica, Event::Done));
    assert!(matches!(
        probe.step(&replica, Event::Resolved { count: 0 }),
        Step::Settled(Status::Dead)
    ));
}

#[test]
fn icmp_first_address_failing_skips_the_second() {
    let replica = ReplicaURL::parse_from("icmp://group.example.com").unwrap();
    let mut probe = start(&replica, 0);
    match act(probe.step(&replica, Event::Done)) {
        Action::Resolve { host, port } => {
            assert_eq!(host, "group.example.com");
            assert_eq!(port, 0);
        }
        other => panic!("unexpected {:?}", other),
    }
    match act(probe.step(&replica, Event::Resolved { count: 2 })) {
        Action::Ping { address, timeout_ms } => {
            assert_eq!(address, 0);
            assert_eq!(timeout_ms, 1000);
        }
        other => panic!("unexpected {:?}", other),
    }
    assert!(matches!(probe.step(&replica, Event::PingFailed), Step::Settled(Status::Dead)));
}

#[test]
fn icmp_failure_retries_instead_of_pinging_on() {
    let replica = ReplicaURL::parse_from("icmp://group.example.com").unwrap();
    let mut probe = start(&replica, 2);
    act(probe.step(&replica, Event::Done));
    act(probe.step(&replica, Event::Resolved { count: 2 }));
    assert!(matches!(
        probe.step(&replica, Event::PingFailed),
        Step::Act(Action::Sleep { millis: 200 })
    ));
}

fn icmp_with_rtts(rtts: &[u64]) -> (Status, ReplicaProbe) {
    let replica = ReplicaURL::parse_from("icmp://group.example.com").unwrap();
    let mut probe = start(&replica, 0);
    act(probe.step(&replica, Event::Done));
    let mut step = probe.step(&replica, Event::Resolved { count: rtts.len() });
    for (i, rtt) in rtts.iter().enumerate() {
        match step {
            Step::Act(Action::Ping { address, .. }) => assert_eq!(address, i),
            other => panic!("unexpected {:?}", other),
        }
        step = probe.step(&replica, Event::PingReplied { rtt_ms: *rtt });
        if i == 0 && rtts.len() > 1 {
            assert_eq!(probe.phase, ProbePhase::Pinging { next: 1, count: rtts.len(), max_rtt: *rtt });
        }
    }
    match step {
        Step::Settled(s) => (s, probe),
        Step::Act(a) => panic!("unexpected {:?}", a),
    }
}

#[test]
fn icmp_latency_is_the_largest_round_trip() {
    assert_eq!(icmp_with_rtts(&[50, 120]).0, Status::Healthy);
    assert_eq!(icmp_with_rtts(&[50, 1200]).0, Status::Sick);
    assert_eq!(icmp_with_rtts(&[1200, 50]).0, Status::Sick);
    assert_eq!(icmp_with_rtts(&[10, 20, 30]).0, Status::Healthy);
}

#[test]
fn icmp_timeout_follows_a_smaller_dead_delay() {
    let replica = ReplicaURL::parse_from("icmp://localhost").unwrap();
    let mut m = metrics(0);
    m.poll_delay_dead = 0;
    let (mut probe, _) = proceed_replica(&replica, &m);
    act(probe.step(&replica, Event::Done));
    assert!(matches!(
        probe.step(&replica, Event::Resolved { count: 1 }),
        Step::Act(Action::Ping { address: 0, timeout_ms: 0 })
    ));
}

#[test]
fn retry_is_bounded() {
    let mut retry = Retry::new(2, 200);
    assert_eq!(retry.after_failure(), Some(200));
    assert_eq!(retry.attempt, 1);
    assert_eq!(retry.after_failure(), Some(200));
    assert_eq!(retry.after_failure(), None);
    assert_eq!(retry.attempt, 2);
    let mut none = Retry::new(0, 5);
    assert_eq!(none.after_failure(), None);
}
