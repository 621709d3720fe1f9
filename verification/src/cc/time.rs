//! Time as the controller sees it: plain nanosecond counts supplied by the
//! caller, so that every decision is a function of its arguments.

use vstd::prelude::*;

verus! {

/// A point on the caller's monotonic clock, in nanoseconds since an origin
/// that the caller picks once per path.
#[derive(Clone, Copy, Debug, PartialEq, Eq, Structural)]
pub struct Instant {
    pub nanos: u64,
}

/// A span of time in nanoseconds.
#[derive(Clone, Copy, Debug, PartialEq, Eq, Structural)]
pub struct Duration {
    pub nanos: u64,
}

impl Instant {
    pub fn from_nanos(nanos: u64) -> (t: Instant)
        ensures
            t.nanos == nanos,
    {
        Instant { nanos }
    }

    pub fn as_nanos(&self) -> (n: u64)
        ensures
            n == self.nanos,
    {
        self.nanos
    }

    /// Time elapsed from `earlier` to this instant, or `None` when `earlier`
    /// is in fact later.
    pub fn checked_duration_since(&self, earlier: Instant) -> (r: Option<Duration>)
        ensures
            earlier.nanos <= self.nanos ==> r == Some(Duration { nanos: (self.nanos - earlier.nanos) as u64 }),
            earlier.nanos > self.nanos ==> r.is_none(),
    {
        if earlier.nanos <= self.nanos {
            Some(Duration { nanos: self.nanos - earlier.nanos })
        } else {
            None
        }
    }
}

impl Duration {
    pub fn from_nanos(nanos: u64) -> (d: Duration)
        ensures
            d.nanos == nanos,
    {
        Duration { nanos }
    }

    pub fn as_nanos(&self) -> (n: u64)
        ensures
            n == self.nanos,
    {
        self.nanos
    }

    /// Whether this span is strictly longer than `factor` times `base`. The
    /// product is taken exactly, so no value of `base` overflows.
    pub fn exceeds_multiple(&self, base: Duration, factor: u32) -> (r: bool)
        ensures
            r == (self.nanos > base.nanos * factor),
    {
        assert(base.nanos * factor <= 0xffff_ffff_ffff_ffff * 0xffff_ffff) by (nonlinear_arith)
            requires
                0 <= base.nanos <= 0xffff_ffff_ffff_ffff,
                0 <= factor <= 0xffff_ffff,
        ;
        let limit: u128 = (base.nanos as u128) * (factor as u128);
        (self.nanos as u128) > limit
    }
}

} // verus!
