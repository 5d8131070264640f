use vstd::prelude::*;

verus! {

/// Log level used when the configuration names none.
pub fn server_log_level() -> (r: String)
    ensures
        r@ == "error"@,
{
    "error".to_owned()
}

/// Seconds between two probe cycles.
pub fn metrics_poll_interval() -> (r: u64)
    ensures
        r == 60,
{
    60
}

/// Retries after a dead probe attempt (so up to three attempts in all).
pub fn metrics_poll_retry() -> (r: u8)
    ensures
        r == 2,
{
    2
}

/// Lowest HTTP status code counted as healthy (inclusive).
pub fn metrics_poll_http_status_healthy_above() -> (r: u16)
    ensures
        r == 200,
{
    200
}

/// HTTP status code from which a response stops counting as healthy (exclusive).
pub fn metrics_poll_http_status_healthy_below() -> (r: u16)
    ensures
        r == 400,
{
    400
}

/// Seconds after which a network check gives up (connect, read and write timeout).
pub fn metrics_poll_delay_dead() -> (r: u64)
    ensures
        r == 10,
{
    10
}

/// Seconds of latency from which a reachable replica counts as sick.
pub fn metrics_poll_delay_sick() -> (r: u64)
    ensures
        r == 1,
{
    1
}

/// Seconds between two script cycles.
pub fn metrics_script_interval() -> (r: u64)
    ensures
        r == 180,
{
    180
}

} // verus!
