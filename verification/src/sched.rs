//! The scheduler: decides when the next tone is due, measured on the wall
//! clock rather than a monotonic one, so time the machine spends asleep
//! counts toward the interval.  The daemon loop outside the library polls at
//! a coarse cadence, reads the clock, asks [`Scheduler::is_due`], plays when
//! due, and reports the outcome back through [`Scheduler::record_attempt`].

use vstd::prelude::*;

verus! {

/// How often the daemon loop polls the due condition, in seconds.
pub const POLL_SECS: u64 = 1;

/// How long the daemon waits after a failed playback before the next poll,
/// in seconds.
pub const RETRY_DELAY_SECS: u64 = 5;

/// Scheduler state: the wall-clock second of the last successful playback
/// start and the configured interval between tones.
#[derive(Clone, Copy, Debug, PartialEq, Eq, Structural)]
pub struct Scheduler {
    pub last_play: u64,
    pub interval_secs: u64,
}

impl Scheduler {
    /// The tone is due when at least the interval has elapsed since the last
    /// successful play, measured on the wall clock.  A clock reading earlier
    /// than the last play — the wall clock stepped backwards — counts as a
    /// fully elapsed interval.
    pub open spec fn due_spec(self, now: int) -> bool {
        now < self.last_play || now - self.last_play >= self.interval_secs
    }

    /// The state after a playback attempt at wall-clock second `now`:
    /// success advances the last play time to `now`; failure leaves the
    /// schedule untouched.
    pub open spec fn spec_after_attempt(self, now: int, success: bool) -> Scheduler {
        if success {
            Scheduler { last_play: now as u64, interval_secs: self.interval_secs }
        } else {
            self
        }
    }

    /// Start the schedule from the outcome of the tone played at startup: a
    /// success counts as the last play, a failure leaves the last play at the
    /// epoch so the next poll is due at once.
    pub fn new(interval_secs: u64, now: u64, first_play_succeeded: bool) -> (s: Scheduler)
        ensures
            s.interval_secs == interval_secs,
            s.last_play == if first_play_succeeded {
                now
            } else {
                0u64
            },
    {
        Scheduler {
            last_play: if first_play_succeeded {
                now
            } else {
                0
            },
            interval_secs,
        }
    }

    /// Is the next tone due at wall-clock second `now`?
    pub fn is_due(&self, now: u64) -> (r: bool)
        ensures
            r == self.due_spec(now as int),
    {
        now < self.last_play || now - self.last_play >= self.interval_secs
    }

    /// Record the outcome of a playback attempt.  A failure does not advance
    /// the last play time, so a condition that was due stays due and the next
    /// poll retries.
    pub fn record_attempt(&mut self, now: u64, success: bool)
        ensures
            *final(self) == old(self).spec_after_attempt(now as int, success),
            final(self).interval_secs == old(self).interval_secs,
            success ==> final(self).last_play == now,
            !success ==> final(self).last_play == old(self).last_play,
    {
        if success {
            self.last_play = now;
        }
    }
}

/// Sleep-aware law: whenever the wall clock has advanced by at least the
/// interval since the last successful play — no matter how long the machine
/// slept or how few polls ran meanwhile — the next poll finds the tone due.
pub proof fn lemma_due_after_interval(s: Scheduler, now: int)
    requires
        now >= s.last_play + s.interval_secs,
    ensures
        s.due_spec(now),
{
}

/// After a successful play the tone is not due again until a full interval
/// has passed.
pub proof fn lemma_not_due_until_interval(s: Scheduler, now: int, later: int)
    requires
        s.spec_after_attempt(now, true).last_play <= later < now + s.interval_secs,
        0 <= now <= u64::MAX,
    ensures
        !s.spec_after_attempt(now, true).due_spec(later),
{
}

/// Retry law: a failed attempt leaves the due condition exactly as it was, at
/// every later reading of the clock.
pub proof fn lemma_failure_keeps_due(s: Scheduler, now: int, later: int)
    ensures
        s.spec_after_attempt(now, false).due_spec(later) == s.due_spec(later),
{
}

} // verus!
