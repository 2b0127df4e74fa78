use vstd::prelude::*;

use crate::duration::Duration;

verus! {

/// A monotonic point in time with nanosecond resolution, totally ordered.
#[derive(Clone, Copy, Debug, PartialEq, Eq, Structural)]
pub struct Timestamp {
    pub nanos: u64,
}

impl Timestamp {
    pub fn from_nanos(nanos: u64) -> (r: Self)
        ensures
            r.nanos == nanos,
    {
        Self { nanos }
    }

    pub fn nanos(&self) -> (r: u64)
        ensures
            r == self.nanos,
    {
        self.nanos
    }

    pub fn plus(self, span: Duration) -> (r: Self)
        requires
            self.nanos + span.nanos <= u64::MAX,
        ensures
            r.nanos == self.nanos + span.nanos,
    {
        Self { nanos: self.nanos + span.nanos }
    }

    pub fn minus(self, span: Duration) -> (r: Self)
        requires
            span.nanos <= self.nanos,
        ensures
            r.nanos == self.nanos - span.nanos,
    {
        Self { nanos: self.nanos - span.nanos }
    }

    /// The point itself when it lies within `[lo, hi]`, else the nearer bound.
    pub fn clamp(self, lo: Self, hi: Self) -> (r: Self)
        requires
            lo.nanos <= hi.nanos,
        ensures
            r.nanos == if self.nanos < lo.nanos {
                lo.nanos
            } else if self.nanos > hi.nanos {
                hi.nanos
            } else {
                self.nanos
            },
    {
        if self.nanos < lo.nanos {
            lo
        } else if self.nanos > hi.nanos {
            hi
        } else {
            self
        }
    }

    pub fn le(&self, other: &Self) -> (r: bool)
        ensures
            r <==> self.nanos <= other.nanos,
    {
        self.nanos <= other.nanos
    }
}

} // verus!
