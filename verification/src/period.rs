use vstd::prelude::*;

use crate::duration::Duration;
use crate::timestamp::Timestamp;

verus! {

/// A half-open time interval `[start, start + length)`.
#[derive(Clone, Copy, Debug, PartialEq, Eq, Structural)]
pub struct Period {
    pub start: Timestamp,
    pub length: Duration,
}

impl Period {
    /// The end of the interval, as a mathematical value.
    pub open spec fn till_spec(&self) -> int {
        self.start.nanos + self.length.nanos
    }

    /// The interval's end does not overflow the clock.
    pub open spec fn wf(&self) -> bool {
        self.till_spec() <= u64::MAX
    }

    pub fn from_length(start: Timestamp, length: Duration) -> (r: Self)
        requires
            start.nanos + length.nanos <= u64::MAX,
        ensures
            r.start == start,
            r.length == length,
            r.wf(),
    {
        Self { start, length }
    }

    pub fn from_till(start: Timestamp, end: Timestamp) -> (r: Self)
        requires
            start.nanos <= end.nanos,
        ensures
            r.start == start,
            r.length.nanos == end.nanos - start.nanos,
            r.till_spec() == end.nanos,
            r.wf(),
    {
        Self { start, length: Duration::between(start, end) }
    }

    pub fn till_length(end: Timestamp, length: Duration) -> (r: Self)
        requires
            length.nanos <= end.nanos,
        ensures
            r.start.nanos == end.nanos - length.nanos,
            r.length == length,
            r.till_spec() == end.nanos,
            r.wf(),
    {
        Self { start: end.minus(length), length }
    }

    pub fn start(&self) -> (r: Timestamp)
        ensures
            r == self.start,
    {
        self.start
    }

    pub fn length(&self) -> (r: Duration)
        ensures
            r == self.length,
    {
        self.length
    }

    pub fn till(&self) -> (r: Timestamp)
        requires
            self.wf(),
        ensures
            r.nanos == self.till_spec(),
    {
        self.start.plus(self.length)
    }

    pub fn zero_length(&self) -> (r: bool)
        ensures
            r <==> self.length.nanos == 0,
    {
        self.length.is_zero()
    }

    /// The interval rolled forward: the next one of span `length`, starting
    /// where this one ends.
    pub fn next(self, length: Duration) -> (r: Self)
        requires
            self.wf(),
            self.till_spec() + length.nanos <= u64::MAX,
        ensures
            r.start.nanos == self.till_spec(),
            r.length == length,
            r.wf(),
    {
        Self::from_length(self.till(), length)
    }
}

} // verus!
