use vstd::prelude::*;

use super::action::{Action, Event, Step, USER_AGENT};
use super::replica::ReplicaURL;
use super::retry::Retry;
use super::status::{classify, classify_spec, Status};
use super::mode::Mode;
use super::node::NodeRun;
use crate::config::config::{ConfigMetrics, ConfigProbeService, ConfigProbeServiceNode};

verus! {

/// Upper bound of the ICMP echo timeout, in milliseconds.
pub const NODE_ICMP_TIMEOUT_MILLISECONDS: u64 = 1000;

/// Delay before a dead probe attempt is retried.
pub const RETRY_REPLICA_AFTER_MILLISECONDS: u64 = 200;

/// Seconds as milliseconds, saturating at `u64::MAX`.
pub open spec fn millis_of(secs: u64) -> u64 {
    if secs <= u64::MAX / 1000 {
        (secs * 1000) as u64
    } else {
        u64::MAX
    }
}

pub open spec fn min_u64(a: u64, b: u64) -> u64 {
    if a <= b {
        a
    } else {
        b
    }
}

pub open spec fn max_u64(a: u64, b: u64) -> u64 {
    if a >= b {
        a
    } else {
        b
    }
}

fn secs_to_millis(secs: u64) -> (r: u64)
    ensures
        r == millis_of(secs),
{
    if secs <= u64::MAX / 1000 {
        secs * 1000
    } else {
        u64::MAX
    }
}

/// Where one replica probe stands.
#[derive(Debug, PartialEq, Eq, Structural)]
pub enum ProbePhase {
    /// The attempt's clock is being started.
    Starting,
    /// The host is being resolved (ICMP and TCP).
    Resolving,
    /// Address `next` of `count` is being pinged; `max_rtt` is the largest
    /// round trip seen so far in this attempt.
    Pinging { next: usize, count: usize, max_rtt: u64 },
    /// The TCP connection is being opened.
    Connecting,
    /// The HTTP HEAD request is out.
    Heading,
    /// Waiting before the next attempt.
    Waiting,
    Finished(Status),
}

/// Probing one replica: one check per attempt, retried while it finds the
/// replica dead.
#[derive(Debug)]
pub struct ReplicaProbe {
    pub retry: Retry,
    pub dead_secs: u64,
    pub sick_ms: u64,
    pub healthy_above: u16,
    pub healthy_below: u16,
    pub phase: ProbePhase,
}

/// The settings a probe takes from the thresholds.
pub open spec fn probe_for(metrics: &ConfigMetrics, phase: ProbePhase) -> ReplicaProbe {
    ReplicaProbe {
        retry: Retry {
            times: metrics.poll_retry,
            delay_ms: RETRY_REPLICA_AFTER_MILLISECONDS,
            attempt: 0,
        },
        dead_secs: metrics.poll_delay_dead,
        sick_ms: millis_of(metrics.poll_delay_sick),
        healthy_above: metrics.poll_http_status_healthy_above,
        healthy_below: metrics.poll_http_status_healthy_below,
        phase,
    }
}

impl ReplicaProbe {
    pub open spec fn wf(&self) -> bool {
        &&& self.retry.wf()
        &&& self.retry.delay_ms == RETRY_REPLICA_AFTER_MILLISECONDS
        &&& self.phase matches ProbePhase::Pinging { next, count, .. } ==> next < count
    }

    /// The ICMP echo timeout: the dead delay, but at most one second.
    pub open spec fn icmp_timeout(self) -> u64 {
        min_u64(NODE_ICMP_TIMEOUT_MILLISECONDS, millis_of(self.dead_secs))
    }

    pub open spec fn with_phase(self, phase: ProbePhase) -> ReplicaProbe {
        ReplicaProbe { phase, ..self }
    }

    /// A failed (dead) attempt: retried after the delay while retries are
    /// left, else the probe settles on `Dead`.
    pub open spec fn fail(self) -> (ReplicaProbe, Step<Status>) {
        if self.retry.attempt < self.retry.times {
            (
                ReplicaProbe {
                    retry: Retry { attempt: (self.retry.attempt + 1) as u8, ..self.retry },
                    phase: ProbePhase::Waiting,
                    ..self
                },
                Step::Act(Action::Sleep { millis: self.retry.delay_ms }),
            )
        } else {
            (self.with_phase(ProbePhase::Finished(Status::Dead)), Step::Settled(Status::Dead))
        }
    }

    /// A reachable replica, classified by its latency.
    pub open spec fn reach(self, latency_ms: u64) -> (ReplicaProbe, Step<Status>) {
        let s = classify_spec(true, latency_ms as int, self.sick_ms as int);
        (self.with_phase(ProbePhase::Finished(s)), Step::Settled(s))
    }
}

/// The probe's transition on one event.
///
/// ICMP resolves the host and pings every address in order; the first one that
/// does not answer fails the attempt, and the latency is the largest round
/// trip. TCP connects to the first address; HTTP(S) sends HEAD and counts a
/// status in `[healthy_above, healthy_below)` as reachable. TCP and HTTP(S)
/// take the time elapsed since the attempt's clock started as latency.
pub open spec fn probe_step(p: ReplicaProbe, replica: ReplicaURL, event: Event) -> (
    ReplicaProbe,
    Step<Status>,
) {
    match p.phase {
        ProbePhase::Starting => match replica {
            ReplicaURL::ICMP(_, host) => (
                p.with_phase(ProbePhase::Resolving),
                Step::Act(Action::Resolve { host, port: 0 }),
            ),
            ReplicaURL::TCP(_, host, port) => (
                p.with_phase(ProbePhase::Resolving),
                Step::Act(Action::Resolve { host, port }),
            ),
            ReplicaURL::HTTP(_, url) => (
                p.with_phase(ProbePhase::Heading),
                Step::Act(Action::Head { url, user_agent: USER_AGENT, timeout_secs: p.dead_secs }),
            ),
            ReplicaURL::HTTPS(_, url) => (
                p.with_phase(ProbePhase::Heading),
                Step::Act(Action::Head { url, user_agent: USER_AGENT, timeout_secs: p.dead_secs }),
            ),
        },
        ProbePhase::Resolving => match event {
            Event::Resolved { count } => if count == 0 {
                p.fail()
            } else {
                match replica {
                    ReplicaURL::ICMP(_, _) => (
                        p.with_phase(ProbePhase::Pinging { next: 0, count, max_rtt: 0 }),
                        Step::Act(Action::Ping { address: 0, timeout_ms: p.icmp_timeout() }),
                    ),
                    ReplicaURL::TCP(_, _, _) => (
                        p.with_phase(ProbePhase::Connecting),
                        Step::Act(Action::Connect { address: 0, timeout_secs: p.dead_secs }),
                    ),
                    _ => p.fail(),
                }
            },
            _ => p.fail(),
        },
        ProbePhase::Pinging { next, count, max_rtt } => match event {
            Event::PingReplied { rtt_ms } => {
                let m = if next == 0 {
                    rtt_ms
                } else {
                    max_u64(max_rtt, rtt_ms)
                };
                if next + 1 < count {
                    (
                        p.with_phase(
                            ProbePhase::Pinging { next: (next + 1) as usize, count, max_rtt: m },
                        ),
                        Step::Act(
                            Action::Ping { address: (next + 1) as usize, timeout_ms: p.icmp_timeout() },
                        ),
                    )
                } else {
                    p.reach(m)
                }
            },
            _ => p.fail(),
        },
        ProbePhase::Connecting => match event {
            Event::Connected { elapsed_ms } => p.reach(elapsed_ms),
            _ => p.fail(),
        },
        ProbePhase::Heading => match event {
            Event::Responded { code, elapsed_ms } => if p.healthy_above <= code
                && code < p.healthy_below {
                p.reach(elapsed_ms)
            } else {
                p.fail()
            },
            _ => p.fail(),
        },
        ProbePhase::Waiting => (p.with_phase(ProbePhase::Starting), Step::Act(Action::StartClock)),
        ProbePhase::Finished(s) => (p, Step::Settled(s)),
    }
}

impl ReplicaProbe {
    fn fail_now(&mut self) -> (r: Step<Status>)
        requires
            old(self).wf(),
        ensures
            (*final(self), r) == old(self).fail(),
    {
        match self.retry.after_failure() {
            Some(delay) => {
                self.phase = ProbePhase::Waiting;
                Step::Act(Action::Sleep { millis: delay })
            },
            None => {
                self.phase = ProbePhase::Finished(Status::Dead);
                Step::Settled(Status::Dead)
            },
        }
    }

    fn reach_now(&mut self, latency_ms: u64) -> (r: Step<Status>)
        ensures
            (*final(self), r) == old(self).reach(latency_ms),
    {
        let s = classify(true, latency_ms, self.sick_ms);
        self.phase = ProbePhase::Finished(s);
        Step::Settled(s)
    }

    fn icmp_timeout_ms(&self) -> (r: u64)
        ensures
            r == self.icmp_timeout(),
    {
        let dead_ms = secs_to_millis(self.dead_secs);
        if NODE_ICMP_TIMEOUT_MILLISECONDS <= dead_ms {
            NODE_ICMP_TIMEOUT_MILLISECONDS
        } else {
            dead_ms
        }
    }

    /// Takes the outcome of the last action and decides what comes next.
    pub fn step(&mut self, replica: &ReplicaURL, event: Event) -> (r: Step<Status>)
        requires
            old(self).wf(),
        ensures
            final(self).wf(),
            (*final(self), r) == probe_step(*old(self), *replica, event),
    {
        match self.phase {
            ProbePhase::Starting => match replica {
                ReplicaURL::ICMP(_, host) => {
                    self.phase = ProbePhase::Resolving;
                    Step::Act(Action::Resolve { host: host.clone(), port: 0 })
                },
                ReplicaURL::TCP(_, host, port) => {
                    self.phase = ProbePhase::Resolving;
                    Step::Act(Action::Resolve { host: host.clone(), port: *port })
                },
                ReplicaURL::HTTP(_, url) => {
                    self.phase = ProbePhase::Heading;
                    Step::Act(
                        Action::Head {
                            url: url.clone(),
                            user_agent: USER_AGENT,
                            timeout_secs: self.dead_secs,
                        },
                    )
                },
                ReplicaURL::HTTPS(_, url) => {
                    self.phase = ProbePhase::Heading;
                    Step::Act(
                        Action::Head {
                            url: url.clone(),
                            user_agent: USER_AGENT,
                            timeout_secs: self.dead_secs,
                        },
                    )
                },
            },
            ProbePhase::Resolving => match event {
                Event::Resolved { count } => if count == 0 {
                    self.fail_now()
                } else {
                    match replica {
                        ReplicaURL::ICMP(_, _) => {
                            let timeout_ms = self.icmp_timeout_ms();
                            self.phase = ProbePhase::Pinging { next: 0, count, max_rtt: 0 };
                            Step::Act(Action::Ping { address: 0, timeout_ms })
                        },
                        ReplicaURL::TCP(_, _, _) => {
                            self.phase = ProbePhase::Connecting;
                            Step::Act(Action::Connect { address: 0, timeout_secs: self.dead_secs })
                        },
                        _ => self.fail_now(),
                    }
                },
                _ => self.fail_now(),
            },
            ProbePhase::Pinging { next, count, max_rtt } => match event {
                Event::PingReplied { rtt_ms } => {
                    let m = if next == 0 {
                        rtt_ms
                    } else if max_rtt >= rtt_ms {
                        max_rtt
                    } else {
                        rtt_ms
                    };
                    if next + 1 < count {
                        let timeout_ms = self.icmp_timeout_ms();
                        self.phase = ProbePhase::Pinging { next: next + 1, count, max_rtt: m };
                        Step::Act(Action::Ping { address: next + 1, timeout_ms })
                    } else {
                        self.reach_now(m)
                    }
                },
                _ => self.fail_now(),
            },
            ProbePhase::Connecting => match event {
                Event::Connected { elapsed_ms } => self.reach_now(elapsed_ms),
                _ => self.fail_now(),
            },
            ProbePhase::Heading => match event {
                Event::Responded { code, elapsed_ms } => if self.healthy_above <= code && code
                    < self.healthy_below {
                    self.reach_now(elapsed_ms)
                } else {
                    self.fail_now()
                },
                _ => self.fail_now(),
            },
            ProbePhase::Waiting => {
                self.phase = ProbePhase::Starting;
                Step::Act(Action::StartClock)
            },
            ProbePhase::Finished(s) => Step::Settled(s),
        }
    }
}

/// Starts probing a replica with the configured thresholds: the first
/// attempt begins by starting its clock.
pub fn proceed_replica(replica: &ReplicaURL, metrics: &ConfigMetrics) -> (r: (ReplicaProbe, Action))
    ensures
        r.0 == probe_for(metrics, ProbePhase::Starting),
        r.0.wf(),
        r.1 == Action::StartClock,
{
    let probe = ReplicaProbe {
        retry: Retry::new(metrics.poll_retry, RETRY_REPLICA_AFTER_MILLISECONDS),
        dead_secs: metrics.poll_delay_dead,
        sick_ms: secs_to_millis(metrics.poll_delay_sick),
        healthy_above: metrics.poll_http_status_healthy_above,
        healthy_below: metrics.poll_http_status_healthy_below,
        phase: ProbePhase::Starting,
    };
    (probe, Action::StartClock)
}

/// Starts the poll checks of a node: its replicas are probed one after
/// another, and each status reported. A node without replicas has nothing to
/// do: the first action is already `Finish`.
pub fn dispatch(
    metrics: &ConfigMetrics,
    service: &ConfigProbeService,
    node: &ConfigProbeServiceNode,
    interval: u64,
) -> (r: (NodeRun, Action))
    ensures
        r.0.wf(node),
        r.0.mode == Mode::Poll,
        r.0.interval == interval,
        r.0.begins(r.1, metrics, node, 0),
        (node.replicas is None || node.replicas->0.len() == 0) ==> r.1 == Action::Finish
            && r.0.stage is Done,
{
    NodeRun::start(Mode::Poll, metrics, node, interval)
}

/// An ICMP check fails fast: once an address does not answer, no further
/// address of the group is pinged in that attempt.
pub proof fn lemma_icmp_fail_fast(p: ReplicaProbe, replica: ReplicaURL, event: Event)
    requires
        p.wf(),
        p.phase is Pinging,
        !(event is PingReplied),
    ensures
        !(probe_step(p, replica, event).1 matches Step::Act(Action::Ping { .. })),
        !(probe_step(p, replica, event).0.phase is Pinging),
{
}

/// A reachable check is never retried: only a dead attempt leads to another.
pub proof fn lemma_reachable_not_retried(p: ReplicaProbe, replica: ReplicaURL, event: Event)
    requires
        p.wf(),
        probe_step(p, replica, event).0.phase matches ProbePhase::Finished(s) && s != Status::Dead,
    ensures
        probe_step(p, replica, event).0.retry == p.retry,
{
}

/// Attempts are bounded: the attempt index never passes the configured
/// number of retries.
pub proof fn lemma_attempts_bounded(p: ReplicaProbe, replica: ReplicaURL, event: Event)
    requires
        p.wf(),
    ensures
        probe_step(p, replica, event).0.retry.attempt <= p.retry.times,
        probe_step(p, replica, event).0.retry.times == p.retry.times,
        probe_step(p, replica, event).0.retry.attempt <= p.retry.attempt + 1,
{
}

/// The largest of some round trips.
pub open spec fn max_of(rtts: Seq<u64>) -> u64
    decreases rtts.len(),
{
    if rtts.len() <= 1 {
        rtts[0]
    } else {
        max_u64(rtts[0], max_of(rtts.drop_first()))
    }
}

/// A probe's transitions on one echo reply per round trip, in order.
pub open spec fn ping_replies(p: ReplicaProbe, replica: ReplicaURL, rtts: Seq<u64>) -> (
    ReplicaProbe,
    Step<Status>,
)
    decreases rtts.len(),
{
    let (q, out) = probe_step(p, replica, Event::PingReplied { rtt_ms: rtts[0] });
    if rtts.len() <= 1 {
        (q, out)
    } else {
        ping_replies(q, replica, rtts.drop_first())
    }
}

proof fn lemma_ping_replies_from(p: ReplicaProbe, replica: ReplicaURL, rtts: Seq<u64>)
    requires
        p.wf(),
        p.phase matches ProbePhase::Pinging { next, count, .. } && rtts.len() == count - next,
        rtts.len() >= 1,
    ensures
        ping_replies(p, replica, rtts).1 == Step::<Status>::Settled(
            classify_spec(
                true,
                (if p.phase->next == 0 {
                    max_of(rtts)
                } else {
                    max_u64(p.phase->max_rtt, max_of(rtts))
                }) as int,
                p.sick_ms as int,
            ),
        ),
    decreases rtts.len(),
{
    if rtts.len() > 1 {
        let q = probe_step(p, replica, Event::PingReplied { rtt_ms: rtts[0] }).0;
        lemma_ping_replies_from(q, replica, rtts.drop_first());
    }
}

/// When every address of an ICMP group answers, the probe settles on the
/// classification of the largest round trip (the worst case, not an average).
pub proof fn lemma_icmp_latency_is_max(p: ReplicaProbe, replica: ReplicaURL, rtts: Seq<u64>)
    requires
        p.wf(),
        p.phase matches ProbePhase::Pinging { next, count, .. } && next == 0 && count
            == rtts.len(),
        rtts.len() >= 1,
    ensures
        ping_replies(p, replica, rtts).1 == Step::<Status>::Settled(
            classify_spec(true, max_of(rtts) as int, p.sick_ms as int),
        ),
{
    lemma_ping_replies_from(p, replica, rtts);
}

} // verus!
