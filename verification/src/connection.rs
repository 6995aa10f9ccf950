//! Reconnecting to paired devices.
//!
//! When the connection to a paired device is lost, the next attempt is
//! scheduled after a delay that doubles with every failure up to a ceiling.
//! The schedule is plain data: a single timer scan asks each schedule
//! whether it is due. An announcement from the device cuts the wait short.

use vstd::prelude::*;

verus! {

/// The delay before the first retry, in milliseconds.
pub const BACKOFF_BASE: u64 = 1_000;

/// The longest delay between retries, in milliseconds.
pub const BACKOFF_CEILING: u64 = 64_000;

/// The delay after `failures` failed attempts in a row: the base delay,
/// doubled once per failure before the last, and never above the ceiling.
pub open spec fn backoff_delay(failures: nat) -> u64
    decreases failures,
{
    if failures <= 1 {
        BACKOFF_BASE
    } else {
        let before = backoff_delay((failures - 1) as nat);
        if before * 2 >= BACKOFF_CEILING {
            BACKOFF_CEILING
        } else {
            (before * 2) as u64
        }
    }
}

/// The delay is never shorter than the base, so retries cannot spin, and
/// never longer than the ceiling.
pub proof fn lemma_backoff_bounds(failures: nat)
    ensures
        BACKOFF_BASE <= backoff_delay(failures) <= BACKOFF_CEILING,
    decreases failures,
{
    if failures > 1 {
        lemma_backoff_bounds((failures - 1) as nat);
    }
}

/// Another failure never shortens the delay.
pub proof fn lemma_backoff_grows(failures: nat)
    ensures
        backoff_delay(failures) <= backoff_delay(failures + 1),
    decreases failures,
{
    lemma_backoff_bounds(failures);
    if failures > 1 {
        lemma_backoff_grows((failures - 1) as nat);
    }
}

/// Once at the ceiling the delay stays there.
proof fn lemma_backoff_stays(failures: nat, more: nat)
    requires
        backoff_delay(failures) == BACKOFF_CEILING,
    ensures
        backoff_delay(failures + more) == BACKOFF_CEILING,
    decreases more,
{
    if more > 0 {
        lemma_backoff_stays(failures, (more - 1) as nat);
        assert(failures + more > 1) by {
            if failures <= 1 {
            }
        }
    }
}

/// Computes the delay after a number of failures in a row.
pub fn delay_after(failures: u32) -> (delay: u64)
    ensures
        delay == backoff_delay(failures as nat),
        BACKOFF_BASE <= delay <= BACKOFF_CEILING,
{
    let mut delay: u64 = BACKOFF_BASE;
    let mut counted: u32 = 1;
    proof {
        lemma_backoff_bounds(failures as nat);
    }
    while counted < failures
        invariant
            1 <= counted,
            counted <= failures || failures == 0,
            failures == 0 ==> counted == 1,
            delay == backoff_delay(counted as nat),
            BACKOFF_BASE <= delay <= BACKOFF_CEILING,
        decreases failures - counted,
    {
        if delay >= BACKOFF_CEILING {
            proof {
                lemma_backoff_stays(counted as nat, (failures - counted) as nat);
            }
            return delay;
        }
        counted += 1;
        delay = if delay * 2 >= BACKOFF_CEILING {
            BACKOFF_CEILING
        } else {
            delay * 2
        };
    }
    assert(backoff_delay(0) == backoff_delay(1));
    delay
}

/// When to try next to reach a device whose connection was lost.
#[derive(Debug, Clone, Copy, PartialEq, Eq, Structural)]
pub struct RetrySchedule {
    /// How many attempts have failed in a row.
    pub failures: u32,
    /// When the next attempt is due, in milliseconds.
    pub next_attempt: u64,
}

/// `now + delay`, or the largest time there is if that would pass it.
pub open spec fn after(now: u64, delay: u64) -> u64 {
    if now + delay > u64::MAX {
        u64::MAX
    } else {
        (now + delay) as u64
    }
}

impl RetrySchedule {
    /// The schedule of a connection just lost at `now`: the first attempt is
    /// due after the base delay.
    pub fn lost(now: u64) -> (schedule: RetrySchedule)
        ensures
            schedule.failures == 0,
            schedule.next_attempt == after(now, BACKOFF_BASE),
    {
        RetrySchedule { failures: 0, next_attempt: Self::add_delay(now, BACKOFF_BASE) }
    }

    fn add_delay(now: u64, delay: u64) -> (r: u64)
        ensures
            r == after(now, delay),
    {
        if now > u64::MAX - delay {
            u64::MAX
        } else {
            now + delay
        }
    }

    /// Whether an attempt is due at `now`.
    pub fn is_due(&self, now: u64) -> (r: bool)
        ensures
            r == (now >= self.next_attempt),
    {
        now >= self.next_attempt
    }

    /// An attempt made at `now` failed: the next one is due after the delay
    /// for one more failure.
    pub fn failed(&mut self, now: u64)
        ensures
            final(self).failures == if old(self).failures == u32::MAX {
                u32::MAX
            } else {
                (old(self).failures + 1) as u32
            },
            final(self).next_attempt == after(now, backoff_delay(final(self).failures as nat)),
            final(self).next_attempt >= now,
    {
        if self.failures < u32::MAX {
            self.failures = self.failures + 1;
        }
        self.next_attempt = Self::add_delay(now, delay_after(self.failures));
    }

    /// The device announced itself at `now`: try at once, whatever the
    /// schedule said.
    pub fn announced(&mut self, now: u64)
        ensures
            final(self).failures == old(self).failures,
            final(self).next_attempt == if old(self).next_attempt < now {
                old(self).next_attempt
            } else {
                now
            },
            final(self).next_attempt <= now,
    {
        if self.next_attempt > now {
            self.next_attempt = now;
        }
    }
}

} // verus!
