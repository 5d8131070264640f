use vstd::prelude::*;

verus! {

/// Health of one replica or script, as found by one check.
#[derive(Debug, Clone, Copy, PartialEq, Eq, Structural)]
pub enum Status {
    Healthy,
    Sick,
    Dead,
}

/// The word that a report carries for a status.
pub open spec fn status_text(s: Status) -> Seq<char> {
    match s {
        Status::Healthy => "healthy"@,
        Status::Sick => "sick"@,
        Status::Dead => "dead"@,
    }
}

/// The classification rule: unreachable is dead whatever the latency; a
/// reachable target is sick from the threshold on, healthy below it.
pub open spec fn classify_spec(reachable: bool, latency: int, sick_at: int) -> Status {
    if !reachable {
        Status::Dead
    } else if latency >= sick_at {
        Status::Sick
    } else {
        Status::Healthy
    }
}

impl Status {
    pub fn as_str(&self) -> (r: &'static str)
        ensures
            r@ == status_text(*self),
    {
        match self {
            Status::Healthy => "healthy",
            Status::Sick => "sick",
            Status::Dead => "dead",
        }
    }
}

/// Classifies a check from its reachability and latency, both durations in
/// milliseconds.
pub fn classify(reachable: bool, latency_ms: u64, sick_at_ms: u64) -> (r: Status)
    ensures
        r == classify_spec(reachable, latency_ms as int, sick_at_ms as int),
        !reachable ==> r == Status::Dead,
        reachable && latency_ms < sick_at_ms ==> r == Status::Healthy,
        reachable && latency_ms >= sick_at_ms ==> r == Status::Sick,
{
    if !reachable {
        Status::Dead
    } else if latency_ms >= sick_at_ms {
        Status::Sick
    } else {
        Status::Healthy
    }
}

} // verus!
