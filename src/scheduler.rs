use vstd::prelude::*;

verus! {

/// Length of the checking period, in seconds.
pub const SECONDS_PER_HOUR: u64 = 3600;

/// Seconds added after each hour boundary to absorb wake-up jitter.
pub const CHECK_MARGIN_SECONDS: u64 = 10;

/// Seconds from `now` until the next check: the start of the next UTC hour, plus the
/// margin.
pub open spec fn delay_to_next_check(now: int) -> int {
    SECONDS_PER_HOUR - now % (SECONDS_PER_HOUR as int) + CHECK_MARGIN_SECONDS
}

/// Seconds to wait from `now` (seconds since the Unix epoch) until the next hourly check.
pub fn seconds_until_next_check(now: i64) -> (r: u64)
    ensures
        r == delay_to_next_check(now as int),
        CHECK_MARGIN_SECONDS < r <= SECONDS_PER_HOUR + CHECK_MARGIN_SECONDS,
        (now + r - CHECK_MARGIN_SECONDS) % (SECONDS_PER_HOUR as int) == 0,
{
    let into_hour: u64 = if now >= 0 {
        (now as u64) % SECONDS_PER_HOUR
    } else {
        let back: u64 = ((-(now + 1)) as u64) % SECONDS_PER_HOUR;
        assert((now as int) % 3600 == 3599 - (-(now + 1)) % 3600) by (nonlinear_arith);
        SECONDS_PER_HOUR - 1 - back
    };
    assert((now + (3600 - (now as int) % 3600)) % 3600 == 0) by (nonlinear_arith);
    SECONDS_PER_HOUR - into_hour + CHECK_MARGIN_SECONDS
}

/// The scheduling loop's control state: the first check runs at once, each later one
/// waits for the next hour boundary.
#[derive(Debug)]
pub struct Scheduler {
    pub first_run: bool,
}

impl Scheduler {
    /// A scheduler whose first check is still to come.
    pub fn new() -> (s: Self)
        ensures
            s.first_run,
    {
        Scheduler { first_run: true }
    }

    /// Arms the scheduler at `now`: the seconds to wait before the next evaluating pass.
    pub fn arm(&mut self, now: i64) -> (wait: u64)
        ensures
            !final(self).first_run,
            old(self).first_run ==> wait == 0,
            !old(self).first_run ==> wait == delay_to_next_check(now as int),
    {
        if self.first_run {
            self.first_run = false;
            0
        } else {
            seconds_until_next_check(now)
        }
    }
}

} // verus!
