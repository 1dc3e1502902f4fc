//! Counts events and says, once per interval, how many there were.

use std::time::Duration;
use std::time::Instant;
use vstd::prelude::*;

verus! {

/// `std::time::Instant`, a point in time, carried as an opaque value.
#[verifier::external_type_specification]
#[verifier::external_body]
pub struct ExInstant(std::time::Instant);

/// Calls `Instant::now`. What comes back is the time of the call: nothing
/// is claimed of it.
#[verifier::external_body]
fn now() -> (r: Instant) {
    Instant::now()
}

/// Calls `Instant::elapsed`. What comes back is the time that has passed
/// since `since`, as the clock has it: nothing is claimed of it.
#[verifier::external_body]
fn elapsed(since: &Instant) -> (r: Duration) {
    since.elapsed()
}

/// Compares two durations with `>=` of `Duration`. Nothing is claimed of
/// the result, since a duration is opaque here.
#[verifier::external_body]
fn at_least(a: &Duration, b: &Duration) -> (r: bool) {
    a >= b
}

/// A counter of events with the time at which it last reported.
pub struct Counter {
    count: usize,
    last_time: Instant,
    interval: Duration,
}

impl Counter {
    /// How many events have been counted since the last report.
    pub closed spec fn spec_count(&self) -> usize {
        self.count
    }

    /// How long the counter gathers events before it reports.
    pub closed spec fn spec_interval(&self) -> Duration {
        self.interval
    }

    /// When the counter last reported.
    pub closed spec fn spec_last_time(&self) -> Instant {
        self.last_time
    }

    /// A counter that has counted nothing yet and reports every `interval`,
    /// starting from now.
    pub fn new(interval: Duration) -> (r: Self)
        ensures
            r.spec_count() == 0,
            r.spec_interval() == interval,
    {
        Counter { count: 0, last_time: now(), interval }
    }

    /// The count after one more event. It stops at the largest number that
    /// fits.
    pub open spec fn spec_bumped(count: usize) -> usize {
        if count == usize::MAX {
            usize::MAX
        } else {
            (count + 1) as usize
        }
    }

    /// Counts one event at a moment at which `elapsed` has passed since the
    /// last report. Where the interval is over (`due`), the result is the
    /// number of events since the last report with the time they took, and
    /// the counter starts again from `now`; else the result is `None`.
    pub fn record(&mut self, due: bool, elapsed: Duration, now: Instant) -> (r: Option<
        (usize, Duration),
    >)
        ensures
            r == if due {
                Some((Self::spec_bumped(old(self).spec_count()), elapsed))
            } else {
                None
            },
            final(self).spec_count() == if due {
                0
            } else {
                Self::spec_bumped(old(self).spec_count())
            },
            final(self).spec_last_time() == if due {
                now
            } else {
                old(self).spec_last_time()
            },
            final(self).spec_interval() == old(self).spec_interval(),
    {
        self.count = self.count.saturating_add(1);
        if due {
            let count = self.count;
            self.count = 0;
            self.last_time = now;
            return Some((count, elapsed));
        }
        None
    }

    /// Counts one event now. Once per interval the result is the number of
    /// events since the last report and the time they took, from which the
    /// rate follows; else it is `None`. Whether the interval is over is for
    /// the clock to say.
    pub fn next(&mut self) -> (r: Option<(usize, Duration)>)
        ensures
            final(self).spec_interval() == old(self).spec_interval(),
            match r {
                Some((count, _)) => count == Self::spec_bumped(old(self).spec_count())
                    && final(self).spec_count() == 0,
                None => final(self).spec_count() == Self::spec_bumped(old(self).spec_count())
                    && final(self).spec_last_time() == old(self).spec_last_time(),
            },
    {
        let passed = elapsed(&self.last_time);
        let due = at_least(&passed, &self.interval);
        let moment = now();
        self.record(due, passed, moment)
    }
}

} // verus!
