//! Spans of time with nanosecond resolution.
//!
//! An [`Interval`] holds what a poll schedule needs of a duration: a count of
//! whole seconds and a sub-second remainder. Its mathematical value is the
//! total number of nanoseconds, and every contract below is stated over it.

use vstd::prelude::*;

verus! {

/// Nanoseconds in one second.
pub const NANOS_PER_SEC: u32 = 1_000_000_000;

/// Nanoseconds in one millisecond.
pub const NANOS_PER_MILLI: u32 = 1_000_000;

/// Milliseconds in one second.
pub const MILLIS_PER_SEC: u64 = 1_000;

/// A non-negative span of time: whole seconds plus a fraction of a second
/// counted in nanoseconds, the fraction always below one second.
#[derive(Clone, Copy, Debug, PartialEq, Eq, Structural)]
pub struct Interval {
    pub(crate) secs: u64,
    pub(crate) nanos: u32,
}

/// Whether a number of nanoseconds fits an [`Interval`]: its whole seconds
/// must fit in 64 bits.
pub open spec fn representable(nanos: nat) -> bool {
    nanos < 0x1_0000_0000_0000_0000 * 1_000_000_000
}

impl Interval {
    /// The fraction is kept below one second, so that each span has exactly
    /// one representation.
    #[verifier::type_invariant]
    pub closed spec fn well_formed(self) -> bool {
        self.nanos < NANOS_PER_SEC
    }

    /// The length of the span in nanoseconds.
    pub closed spec fn total_nanos(self) -> nat {
        (self.secs * 1_000_000_000 + self.nanos) as nat
    }

    /// The span of `secs` seconds and `nanos` nanoseconds, the nanoseconds
    /// from one second up carried over into the seconds; `None` when the
    /// seconds then no longer fit.
    pub fn new(secs: u64, nanos: u32) -> (span: Option<Interval>)
        ensures
            representable((secs * 1_000_000_000 + nanos) as nat) <==> span is Some,
            span matches Some(s) ==> s.well_formed() && s.total_nanos() == secs * 1_000_000_000
                + nanos,
    {
        let carry: u64 = (nanos / NANOS_PER_SEC) as u64;
        let rest: u32 = nanos % NANOS_PER_SEC;
        match secs.checked_add(carry) {
            Some(total_secs) => Some(Interval { secs: total_secs, nanos: rest }),
            None => None,
        }
    }

    /// The span of `secs` whole seconds.
    pub fn from_secs(secs: u64) -> (span: Interval)
        ensures
            span.well_formed(),
            span.total_nanos() == secs * 1_000_000_000,
    {
        Interval { secs, nanos: 0 }
    }

    /// The span of `millis` milliseconds.
    pub fn from_millis(millis: u64) -> (span: Interval)
        ensures
            span.well_formed(),
            span.total_nanos() == millis * 1_000_000,
    {
        let secs: u64 = millis / MILLIS_PER_SEC;
        let rest: u32 = (millis % MILLIS_PER_SEC) as u32;
        Interval { secs, nanos: rest * NANOS_PER_MILLI }
    }

    /// The whole seconds of the span.
    pub fn as_secs(&self) -> (secs: u64)
        ensures
            secs == self.total_nanos() / 1_000_000_000,
    {
        proof {
            use_type_invariant(self);
        }
        self.secs
    }

    /// The fraction of a second that the span holds beyond its whole
    /// seconds, in nanoseconds.
    pub fn subsec_nanos(&self) -> (nanos: u32)
        ensures
            nanos == self.total_nanos() % 1_000_000_000,
    {
        proof {
            use_type_invariant(self);
        }
        self.nanos
    }

    /// The sum of two spans, or `None` when it is not representable.
    pub fn checked_add(&self, rhs: &Interval) -> (sum: Option<Interval>)
        ensures
            representable(self.total_nanos() + rhs.total_nanos()) <==> sum is Some,
            sum matches Some(s) ==> s.well_formed() && s.total_nanos() == self.total_nanos()
                + rhs.total_nanos(),
    {
        proof {
            use_type_invariant(self);
            use_type_invariant(rhs);
        }
        let fraction: u32 = self.nanos + rhs.nanos;
        let carry: u64 = if fraction >= NANOS_PER_SEC { 1 } else { 0 };
        let rest: u32 = if fraction >= NANOS_PER_SEC { fraction - NANOS_PER_SEC } else { fraction };
        match self.secs.checked_add(rhs.secs) {
            None => None,
            Some(whole) => match whole.checked_add(carry) {
                None => None,
                Some(total_secs) => Some(Interval { secs: total_secs, nanos: rest }),
            },
        }
    }

    /// Whether this span is at least as long as `other`.
    pub fn at_least(&self, other: &Interval) -> (longer: bool)
        ensures
            longer == (self.total_nanos() >= other.total_nanos()),
    {
        proof {
            use_type_invariant(self);
            use_type_invariant(other);
        }
        self.secs > other.secs || (self.secs == other.secs && self.nanos >= other.nanos)
    }
}

} // verus!
