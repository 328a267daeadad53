//! Points on a monotonic clock and the spans between them, in nanoseconds.

use vstd::prelude::*;

verus! {

/// A span of time.
#[derive(Clone, Copy, Debug, PartialEq, Eq, Structural)]
pub struct Duration {
    pub nanos: u128,
}

/// A point on the host's monotonic clock, counted from an origin the host
/// picks once per process.
#[derive(Clone, Copy, Debug, PartialEq, Eq, Structural)]
pub struct Instant {
    pub nanos: u128,
}

impl View for Duration {
    type V = int;

    open spec fn view(&self) -> int {
        self.nanos as int
    }
}

impl View for Instant {
    type V = int;

    open spec fn view(&self) -> int {
        self.nanos as int
    }
}

/// The span from `earlier` to `later` on the number line, zero when `earlier`
/// is the later of the two.
pub open spec fn elapsed(earlier: int, later: int) -> int {
    if earlier <= later {
        later - earlier
    } else {
        0
    }
}

/// The time that has passed is what was waited: forwards it is the distance on
/// the number line, and backwards nothing.
pub proof fn elapsed_time_is_what_was_waited(at: int, span: int)
    ensures
        span >= 0 ==> elapsed(at, at + span) == span,
        span <= 0 ==> elapsed(at, at + span) == 0,
{
}

/// Instants and spans are seen as their nanoseconds, and an optional one as an
/// optional one.
pub proof fn time_is_seen_in_nanoseconds(at: Instant, span: Duration)
    ensures
        at@ == at.nanos,
        span@ == span.nanos,
        instant_view(Some(at)) == Some(at@) && instant_view(None) is None,
        duration_view(Some(span)) == Some(span@) && duration_view(None) is None,
{
}

/// The view of an optional instant.
pub open spec fn instant_view(at: Option<Instant>) -> Option<int> {
    match at {
        Some(at) => Some(at@),
        None => None,
    }
}

/// The view of an optional span.
pub open spec fn duration_view(span: Option<Duration>) -> Option<int> {
    match span {
        Some(span) => Some(span@),
        None => None,
    }
}

impl Duration {
    pub fn from_secs(secs: u64) -> (span: Duration)
        ensures
            span@ == secs * 1_000_000_000,
    {
        Duration { nanos: secs as u128 * 1_000_000_000 }
    }

    pub fn from_millis(millis: u64) -> (span: Duration)
        ensures
            span@ == millis * 1_000_000,
    {
        Duration { nanos: millis as u128 * 1_000_000 }
    }

    pub fn from_micros(micros: u64) -> (span: Duration)
        ensures
            span@ == micros * 1_000,
    {
        Duration { nanos: micros as u128 * 1_000 }
    }

    /// The shorter of the two spans.
    pub fn min(self, other: Duration) -> (span: Duration)
        ensures
            span@ == if self@ <= other@ { self@ } else { other@ },
    {
        if self.nanos <= other.nanos {
            self
        } else {
            other
        }
    }
}

impl Instant {
    /// The instant `span` after this one.
    pub fn after(self, span: Duration) -> (at: Instant)
        requires
            self@ + span@ <= u128::MAX,
        ensures
            at@ == self@ + span@,
    {
        Instant { nanos: self.nanos + span.nanos }
    }

    /// The time that has passed since `earlier`; zero if `earlier` lies ahead.
    pub fn duration_since(self, earlier: Instant) -> (span: Duration)
        ensures
            span@ == elapsed(earlier@, self@),
    {
        if earlier.nanos <= self.nanos {
            Duration { nanos: self.nanos - earlier.nanos }
        } else {
            Duration { nanos: 0 }
        }
    }

    /// The later of the two instants.
    pub fn max(self, other: Instant) -> (at: Instant)
        ensures
            at@ == if self@ >= other@ { self@ } else { other@ },
    {
        if self.nanos >= other.nanos {
            self
        } else {
            other
        }
    }
}

} // verus!
