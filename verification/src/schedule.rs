//! The poll schedule: how long to leave the buffer alone between two
//! reads, and how long to wait when nothing is ready.

use vstd::prelude::*;
use crate::interval::{representable, Interval};

verus! {

/// Seconds between two polls, for callers that have no need of their own.
pub const SUGGESTED_POLL_SECS: u64 = 10;

/// Milliseconds by which the wait between two polls exceeds the poll
/// interval, so that a poll is due when the wait is over.
pub const SLEEP_MARGIN_MILLIS: u64 = 200;

/// The margin in nanoseconds.
pub open spec fn sleep_margin() -> nat {
    (SLEEP_MARGIN_MILLIS * 1_000_000) as nat
}

/// The poll interval that is suggested to callers: ten seconds.
pub fn suggested_poll_interval() -> (span: Interval)
    ensures
        span.well_formed(),
        span.total_nanos() == SUGGESTED_POLL_SECS * 1_000_000_000,
{
    Interval::from_secs(SUGGESTED_POLL_SECS)
}

/// A poll interval together with the wait that belongs to it.
#[derive(Clone, Copy, Debug)]
pub struct PollSchedule {
    poll_interval: Interval,
    sleep_interval: Interval,
}

impl PollSchedule {
    /// The wait is the poll interval and the margin, and so the longer of
    /// the two.
    #[verifier::type_invariant]
    pub closed spec fn well_formed(self) -> bool {
        &&& self.poll_interval.well_formed()
        &&& self.sleep_interval.well_formed()
        &&& self.sleep_interval.total_nanos() == self.poll_interval.total_nanos() + sleep_margin()
    }

    /// The least time between two reads of the buffer, in nanoseconds.
    pub closed spec fn poll_nanos(self) -> nat {
        self.poll_interval.total_nanos()
    }

    /// The wait when nothing is ready, in nanoseconds.
    pub closed spec fn sleep_nanos(self) -> nat {
        self.sleep_interval.total_nanos()
    }

    /// The wait of a well-formed schedule is its poll interval and the
    /// margin.
    pub proof fn lemma_wait_is_poll_and_margin(self)
        requires
            self.well_formed(),
        ensures
            self.sleep_nanos() == self.poll_nanos() + sleep_margin(),
    {
    }

    /// The schedule for `poll_interval`, or `None` when the poll interval
    /// and the margin do not add up to a span that can be represented.
    pub fn new(poll_interval: Interval) -> (schedule: Option<PollSchedule>)
        ensures
            schedule is Some <==> representable(poll_interval.total_nanos() + sleep_margin()),
            schedule matches Some(s) ==> s.well_formed() && s.poll_nanos()
                == poll_interval.total_nanos() && s.sleep_nanos() == poll_interval.total_nanos()
                + sleep_margin(),
    {
        proof {
            use_type_invariant(&poll_interval);
        }
        match poll_interval.checked_add(&Interval::from_millis(SLEEP_MARGIN_MILLIS)) {
            Some(sleep_interval) => Some(PollSchedule { poll_interval, sleep_interval }),
            None => None,
        }
    }

    /// The least time between two reads of the buffer.
    pub fn poll_interval(&self) -> (span: Interval)
        ensures
            span.well_formed(),
            span.total_nanos() == self.poll_nanos(),
    {
        proof {
            use_type_invariant(self);
        }
        self.poll_interval
    }

    /// The wait when nothing is ready.
    pub fn sleep_interval(&self) -> (span: Interval)
        ensures
            span.well_formed(),
            span.total_nanos() == self.sleep_nanos(),
            span.total_nanos() == self.poll_nanos() + sleep_margin(),
    {
        proof {
            use_type_invariant(self);
        }
        self.sleep_interval
    }

    /// Whether a poll is due when `elapsed` has passed since the last one:
    /// when that is the poll interval or more.
    pub fn is_due(&self, elapsed: &Interval) -> (due: bool)
        ensures
            due == (elapsed.total_nanos() >= self.poll_nanos()),
    {
        elapsed.at_least(&self.poll_interval)
    }
}

} // verus!
