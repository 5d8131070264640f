use vstd::prelude::*;

verus! {

/// Bounded retry with a fixed delay: after a failed attempt another one
/// follows, after `delay_ms`, until `times` retries have been made.
/// Attempts are numbered from 0.
#[derive(Debug)]
pub struct Retry {
    pub times: u8,
    pub delay_ms: u64,
    pub attempt: u8,
}

impl Retry {
    pub open spec fn wf(&self) -> bool {
        self.attempt <= self.times
    }

    pub fn new(times: u8, delay_ms: u64) -> (r: Retry)
        ensures
            r.wf(),
            r.times == times,
            r.delay_ms == delay_ms,
            r.attempt == 0,
    {
        Retry { times, delay_ms, attempt: 0 }
    }

    /// Called after a failed attempt: gives the delay before the next attempt,
    /// or `None` once the retries are spent.
    pub fn after_failure(&mut self) -> (r: Option<u64>)
        requires
            old(self).wf(),
        ensures
            final(self).wf(),
            final(self).times == old(self).times,
            final(self).delay_ms == old(self).delay_ms,
            old(self).attempt < old(self).times ==> r == Some(old(self).delay_ms)
                && final(self).attempt == old(self).attempt + 1,
            old(self).attempt >= old(self).times ==> r is None && final(self).attempt
                == old(self).attempt,
    {
        if self.attempt < self.times {
            self.attempt = self.attempt + 1;
            Some(self.delay_ms)
        } else {
            None
        }
    }
}

} // verus!
