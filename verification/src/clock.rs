//! The system clock, as far as the poll schedule reads it.
//!
//! A reading of the clock is opaque here: it is taken, kept, and handed
//! back to the clock. What the clock answers is not proved. The span
//! between two readings and the reading that lies a span before another
//! are the clock's to compute; each has a name here, so that contracts can
//! say which question was put to the clock.

use std::time::{Duration, SystemTime, SystemTimeError};
use vstd::prelude::*;
use crate::interval::Interval;

verus! {

/// `SystemTime`: a reading of the system clock. Its content is not modelled.
#[verifier::external_type_specification]
#[verifier::external_body]
pub struct ExSystemTime(SystemTime);

/// `SystemTimeError`: what the clock reports when asked for the span between
/// two readings that are the wrong way round. Its content is not modelled.
#[verifier::external_type_specification]
#[verifier::external_body]
pub struct ExSystemTimeError(SystemTimeError);

/// What `SystemTime::duration_since` finds between two readings: the span
/// from `earlier` to `later` in nanoseconds, or the clock's error when
/// `earlier` is the later of the two.
pub uninterp spec fn span_between(later: SystemTime, earlier: SystemTime) -> Result<
    nat,
    SystemTimeError,
>;

/// What `SystemTime::checked_sub` finds `nanos` nanoseconds before `time`:
/// a reading, or `None` when the clock cannot represent a time that early.
pub uninterp spec fn time_earlier(time: SystemTime, nanos: nat) -> Option<SystemTime>;

/// A span that the clock may have failed to give, in nanoseconds.
pub open spec fn nanos_of(elapsed: Result<Interval, SystemTimeError>) -> Result<
    nat,
    SystemTimeError,
> {
    match elapsed {
        Ok(span) => Ok(span.total_nanos()),
        Err(error) => Err(error),
    }
}

/// `SystemTime::now`: the reading of the system clock at the moment of the
/// call. Nothing is claimed of it.
#[verifier::external_body]
pub(crate) fn clock_now() -> (now: SystemTime) {
    SystemTime::now()
}

/// `SystemTime::checked_sub`: the time that lies `span` before `time`, or
/// `None` when the clock cannot represent a time that early. The answer
/// depends on the two arguments alone and is named by `time_earlier`; which
/// of the two it is, is left to the clock. The span is handed over through
/// `Duration::new`, which takes any fraction below one second as it is.
#[verifier::external_body]
pub(crate) fn time_before(time: &SystemTime, span: &Interval) -> (earlier: Option<SystemTime>)
    requires
        span.well_formed(),
    ensures
        earlier == time_earlier(*time, span.total_nanos()),
{
    time.checked_sub(Duration::new(span.secs, span.nanos))
}

/// `SystemTime::duration_since`: the span from `earlier` to `later`, or an
/// error when `earlier` is in fact the later of the two. The answer depends
/// on the two arguments alone and is named by `span_between`. The span
/// comes back as whole seconds and a fraction below one second, which is
/// how the clock's own duration type reports it.
#[verifier::external_body]
pub(crate) fn time_between(later: &SystemTime, earlier: &SystemTime) -> (elapsed: Result<
    Interval,
    SystemTimeError,
>)
    ensures
        elapsed matches Ok(span) ==> span.well_formed(),
        nanos_of(elapsed) == span_between(*later, *earlier),
{
    match later.duration_since(*earlier) {
        Ok(duration) => Ok(Interval { secs: duration.as_secs(), nanos: duration.subsec_nanos() }),
        Err(error) => Err(error),
    }
}

} // verus!
