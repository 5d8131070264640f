use vstd::prelude::*;
use vstd::string::StringSliceAdditionalSpecFns;

use super::action::{Action, Event, Step, USER_AGENT};
use super::replica::ReplicaURL;
use super::retry::Retry;
use super::status::{status_text, Status};
use crate::config::config::{ConfigProbeService, ConfigProbeServiceNode, ConfigReport};

verus! {

/// Connect, read and write timeout of a report request, in seconds.
pub const REPORT_HTTP_CLIENT_TIMEOUT_SECONDS: u64 = 10;

/// Media type of a report body.
pub const CONTENT_TYPE_JSON: &'static str = "application/json";

/// Retries after a failed report (so up to three attempts in all).
pub const RETRY_STATUS_TIMES: u8 = 2;

/// Delay between two report attempts.
pub const RETRY_STATUS_AFTER_MILLISECONDS: u64 = 3000;

/// `base64::encode` (standard alphabet, padded) of the UTF-8 bytes of a text.
pub uninterp spec fn base64_of(text: Seq<char>) -> Seq<char>;

/// `serde_json::to_vec` of a text: the JSON string literal, quoted and escaped.
pub uninterp spec fn json_string_of(text: Seq<char>) -> Seq<u8>;

/// Relies on `base64::encode`, whose result depends on the bytes alone.
#[verifier::external_body]
#[allow(deprecated)]
fn base64_encode(text: &str) -> (r: String)
    ensures
        r@ == base64_of(text@),
{
    base64::encode(text)
}

/// Relies on `serde_json::to_vec` on a `str`, whose output depends on the
/// text alone; writing a string into a `Vec` has no error path.
#[verifier::external_body]
fn json_string(text: &str) -> (r: Option<Vec<u8>>)
    ensures
        r is Some,
        r matches Some(b) ==> b@ == json_string_of(text@),
{
    serde_json::to_vec(text).ok()
}

/// The decimal digits of a number, as ASCII bytes.
pub open spec fn decimal(n: nat) -> Seq<u8>
    decreases n,
{
    if n < 10 {
        seq![(48 + n) as u8]
    } else {
        decimal(n / 10).push((48 + n % 10) as u8)
    }
}

fn push_decimal(buf: &mut Vec<u8>, n: u64)
    ensures
        final(buf)@ == old(buf)@ + decimal(n as nat),
    decreases n,
{
    if n >= 10 {
        push_decimal(buf, n / 10);
    }
    buf.push(48 + (n % 10) as u8);
    assert(final(buf)@ =~= old(buf)@ + decimal(n as nat));
}

fn push_text(buf: &mut Vec<u8>, text: &str)
    ensures
        final(buf)@ == old(buf)@ + text.spec_bytes(),
{
    let bytes = text.as_bytes();
    let ghost buf0 = buf@;
    let mut i: usize = 0;
    while i < bytes.len()
        invariant
            i <= bytes@.len(),
            bytes@ == text.spec_bytes(),
            buf@ == buf0 + bytes@.subrange(0, i as int),
        decreases bytes@.len() - i,
    {
        buf.push(bytes[i]);
        assert(bytes@.subrange(0, i + 1) =~= bytes@.subrange(0, i as int).push(bytes@[i as int]));
        i = i + 1;
    }
    assert(bytes@.subrange(0, i as int) =~= bytes@);
}

fn push_all(buf: &mut Vec<u8>, more: &Vec<u8>)
    ensures
        final(buf)@ == old(buf)@ + more@,
{
    let ghost buf0 = buf@;
    let mut i: usize = 0;
    while i < more.len()
        invariant
            i <= more@.len(),
            buf@ == buf0 + more@.subrange(0, i as int),
        decreases more@.len() - i,
    {
        buf.push(more[i]);
        assert(more@.subrange(0, i + 1) =~= more@.subrange(0, i as int).push(more@[i as int]));
        i = i + 1;
    }
    assert(more@.subrange(0, i as int) =~= more@);
}

/// What a report is about: a replica, or a script by its index.
#[derive(Debug, Clone, Copy)]
pub enum ReportReplica<'a> {
    Poll(&'a ReplicaURL),
    Script(&'a str),
}

impl<'a> ReportReplica<'a> {
    /// The identity of the target in reports.
    pub open spec fn identity(self) -> Seq<char> {
        match self {
            ReportReplica::Poll(replica) => replica@.raw(),
            ReportReplica::Script(replica) => replica@,
        }
    }

    pub fn as_str(&self) -> (r: &str)
        ensures
            r@ == self.identity(),
    {
        match self {
            ReportReplica::Poll(replica) => replica.get_raw(),
            ReportReplica::Script(replica) => replica,
        }
    }
}

/// `<endpoint>/<path>`.
pub fn generate_url(endpoint: &str, path: &str) -> (r: String)
    ensures
        r@ == endpoint@ + "/"@ + path@,
{
    endpoint.to_owned().concat("/").concat(path)
}

/// The path that reports of a node go to.
pub open spec fn report_path(service_id: Seq<char>, node_id: Seq<char>) -> Seq<char> {
    "reporter/"@ + service_id + "/"@ + node_id + "/"@
}

/// The JSON report body: `{"replica":..,"health":..,"interval":..}`.
pub open spec fn report_body(replica: Seq<char>, health: Seq<char>, interval: u64) -> Seq<u8> {
    "{\"replica\":".spec_bytes() + json_string_of(replica) + ",\"health\":".spec_bytes()
        + json_string_of(health) + ",\"interval\":".spec_bytes() + decimal(interval as nat)
        + "}".spec_bytes()
}

/// An authenticated report POST, with a JSON body: the URL, the headers it
/// is sent with, the body and the connect, read and write timeout.
#[derive(Debug)]
pub struct ReportRequest {
    pub url: String,
    pub user_agent: &'static str,
    pub authorization: String,
    pub content_type: &'static str,
    pub content_length: usize,
    pub body: Vec<u8>,
    pub timeout_secs: u64,
}

/// Whether two requests send the same thing.
pub open spec fn same_request(a: ReportRequest, b: ReportRequest) -> bool {
    &&& a.url@ == b.url@
    &&& a.user_agent == b.user_agent
    &&& a.authorization@ == b.authorization@
    &&& a.content_type == b.content_type
    &&& a.content_length == b.content_length
    &&& a.body@ == b.body@
    &&& a.timeout_secs == b.timeout_secs
}

impl ReportRequest {
    pub fn duplicate(&self) -> (r: ReportRequest)
        ensures
            same_request(r, *self),
    {
        let mut body: Vec<u8> = Vec::new();
        push_all(&mut body, &self.body);
        assert(body@ =~= self.body@);
        ReportRequest {
            url: self.url.clone(),
            user_agent: self.user_agent,
            authorization: self.authorization.clone(),
            content_type: self.content_type,
            content_length: self.content_length,
            body,
            timeout_secs: self.timeout_secs,
        }
    }
}

/// The report request for one status of one target.
pub open spec fn is_report_request(
    r: ReportRequest,
    endpoint: Seq<char>,
    token: Seq<char>,
    service_id: Seq<char>,
    node_id: Seq<char>,
    replica: Seq<char>,
    status: Status,
    interval: u64,
) -> bool {
    &&& r.url@ == endpoint + "/"@ + report_path(service_id, node_id)
    &&& r.authorization@ == "Basic "@ + base64_of(":"@ + token)
    &&& r.body@ == report_body(replica, status_text(status), interval)
    &&& r.timeout_secs == REPORT_HTTP_CLIENT_TIMEOUT_SECONDS
    &&& r.user_agent == USER_AGENT
    &&& r.content_type == CONTENT_TYPE_JSON
    &&& r.content_length == r.body@.len()
}

/// Builds the report request.
pub fn build_request(
    report: &ConfigReport,
    service: &ConfigProbeService,
    node: &ConfigProbeServiceNode,
    replica: ReportReplica,
    status: &Status,
    interval: u64,
) -> (r: ReportRequest)
    ensures
        is_report_request(
            r,
            report.endpoint@,
            report.token@,
            service.id@,
            node.id@,
            replica.identity(),
            *status,
            interval,
        ),
{
    let path = "reporter/".to_owned().concat(service.id.as_str()).concat("/").concat(
        node.id.as_str(),
    ).concat("/");
    let url = generate_url(report.endpoint.as_str(), path.as_str());
    let credentials = ":".to_owned().concat(report.token.as_str());
    let authorization = "Basic ".to_owned().concat(base64_encode(credentials.as_str()).as_str());
    let replica_json = json_string(replica.as_str()).unwrap();
    let health_json = json_string(status.as_str()).unwrap();
    let mut body: Vec<u8> = Vec::new();
    push_text(&mut body, "{\"replica\":");
    push_all(&mut body, &replica_json);
    push_text(&mut body, ",\"health\":");
    push_all(&mut body, &health_json);
    push_text(&mut body, ",\"interval\":");
    push_decimal(&mut body, interval);
    push_text(&mut body, "}");
    assert(url@ =~= report.endpoint@ + "/"@ + report_path(service.id@, node.id@));
    let content_length = body.len();
    ReportRequest {
        url,
        user_agent: USER_AGENT,
        authorization,
        content_type: CONTENT_TYPE_JSON,
        content_length,
        body,
        timeout_secs: REPORT_HTTP_CLIENT_TIMEOUT_SECONDS,
    }
}

/// Whether a report response status counts as accepted (2xx).
pub open spec fn accepted(code: u16) -> bool {
    200 <= code < 300
}

#[derive(Debug)]
pub enum ReportPhase {
    Posting,
    Waiting,
    Finished(bool),
}

/// Sending one report, with bounded retries.
#[derive(Debug)]
pub struct ReportRun {
    pub request: ReportRequest,
    pub retry: Retry,
    pub phase: ReportPhase,
}

impl ReportRun {
    pub open spec fn wf(&self) -> bool {
        &&& self.retry.wf()
        &&& self.retry.times == RETRY_STATUS_TIMES
        &&& self.retry.delay_ms == RETRY_STATUS_AFTER_MILLISECONDS
    }

    /// Whether an action posts this run's request.
    pub open spec fn posts(&self, a: Action) -> bool {
        a matches Action::Post { request } && same_request(request, self.request)
    }

    /// Starts a run; its first action posts the request.
    pub fn new(request: ReportRequest) -> (r: (ReportRun, Action))
        ensures
            r.0.wf(),
            r.0.request == request,
            r.0.retry.attempt == 0,
            r.0.phase is Posting,
            r.0.posts(r.1),
    {
        let first = request.duplicate();
        let run = ReportRun {
            request,
            retry: Retry::new(RETRY_STATUS_TIMES, RETRY_STATUS_AFTER_MILLISECONDS),
            phase: ReportPhase::Posting,
        };
        (run, Action::Post { request: first })
    }

    /// Takes the outcome of the last action. A 2xx response settles the run
    /// with `true`; any other outcome of a post is a failure, which is
    /// retried after the delay until the retries are spent and then settles
    /// with `false`.
    pub fn step(&mut self, event: Event) -> (r: Step<bool>)
        requires
            old(self).wf(),
        ensures
            final(self).wf(),
            final(self).request == old(self).request,
            match old(self).phase {
                ReportPhase::Posting => if event matches Event::Responded { code, .. } && accepted(
                    code,
                ) {
                    r == Step::<bool>::Settled(true) && final(self).phase == ReportPhase::Finished(
                        true,
                    ) && final(self).retry == old(self).retry
                } else if old(self).retry.attempt < RETRY_STATUS_TIMES {
                    r == Step::<bool>::Act(Action::Sleep { millis: RETRY_STATUS_AFTER_MILLISECONDS })
                        && final(self).phase is Waiting && final(self).retry.attempt == old(
                        self,
                    ).retry.attempt + 1
                } else {
                    r == Step::<bool>::Settled(false) && final(self).phase == ReportPhase::Finished(
                        false,
                    ) && final(self).retry == old(self).retry
                },
                ReportPhase::Waiting => r matches Step::Act(a) && old(self).posts(a)
                    && final(self).phase is Posting && final(self).retry == old(self).retry,
                ReportPhase::Finished(ok) => r == Step::<bool>::Settled(ok) && final(self).phase
                    == old(self).phase && final(self).retry == old(self).retry,
            },
    {
        match self.phase {
            ReportPhase::Posting => {
                let ok = match event {
                    Event::Responded { code, .. } => 200 <= code && code < 300,
                    _ => false,
                };
                if ok {
                    self.phase = ReportPhase::Finished(true);
                    Step::Settled(true)
                } else {
                    match self.retry.after_failure() {
                        Some(delay) => {
                            self.phase = ReportPhase::Waiting;
                            Step::Act(Action::Sleep { millis: delay })
                        },
                        None => {
                            self.phase = ReportPhase::Finished(false);
                            Step::Settled(false)
                        },
                    }
                }
            },
            ReportPhase::Waiting => {
                self.phase = ReportPhase::Posting;
                Step::Act(Action::Post { request: self.request.duplicate() })
            },
            ReportPhase::Finished(ok) => Step::Settled(ok),
        }
    }
}

/// Starts the report of one status: builds the request and posts it, with
/// bounded retries.
pub fn status(
    report: &ConfigReport,
    service: &ConfigProbeService,
    node: &ConfigProbeServiceNode,
    replica: ReportReplica,
    health: &Status,
    interval: u64,
) -> (r: (ReportRun, Action))
    ensures
        r.0.wf(),
        r.0.retry.attempt == 0,
        r.0.phase is Posting,
        is_report_request(
            r.0.request,
            report.endpoint@,
            report.token@,
            service.id@,
            node.id@,
            replica.identity(),
            *health,
            interval,
        ),
        r.0.posts(r.1),
{
    ReportRun::new(build_request(report, service, node, replica, health, interval))
}

} // verus!
