use vstd::prelude::*;

use super::report::ReportRequest;

verus! {

/// Product name and version, sent as `User-Agent` on every HTTP request.
pub const USER_AGENT: &'static str = "vigil-local/1.2.0";

/// Work that a decision asks the caller to perform. Each one is answered
/// with one `Event`.
#[derive(Debug)]
pub enum Action {
    /// Start the clock of a check attempt; answered with `Done`.
    StartClock,
    /// Resolve `host:port` to addresses; answered with `Resolved` or `Unresolved`.
    Resolve { host: String, port: u16 },
    /// Send one ICMP echo to the resolved address of that index.
    Ping { address: usize, timeout_ms: u64 },
    /// Open a TCP connection to the resolved address of that index.
    Connect { address: usize, timeout_secs: u64 },
    /// Send an HTTP HEAD request with that `User-Agent`, and that connect,
    /// read and write timeout.
    Head { url: String, user_agent: &'static str, timeout_secs: u64 },
    /// Run a shell command, once.
    RunScript { command: String },
    /// Wait before going on; answered with `Done`.
    Sleep { millis: u64 },
    /// POST a report.
    Post { request: ReportRequest },
    /// Nothing is left to do.
    Finish,
}

/// The outcome of an `Action`. Elapsed times count from the last `StartClock`.
#[derive(Debug, Clone, Copy)]
pub enum Event {
    Done,
    Resolved { count: usize },
    Unresolved,
    PingReplied { rtt_ms: u64 },
    PingFailed,
    Connected { elapsed_ms: u64 },
    ConnectFailed,
    Responded { code: u16, elapsed_ms: u64 },
    RequestFailed,
    Exited { exit_code: i32 },
    SpawnFailed,
}

/// What a sub-machine hands back: more work, or its result.
#[derive(Debug)]
pub enum Step<T> {
    Act(Action),
    Settled(T),
}

} // verus!
