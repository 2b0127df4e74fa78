use vstd::prelude::*;

use crate::timestamp::Timestamp;

verus! {

/// Nanoseconds in one second.
pub const NANOS_IN_SEC: u64 = 1_000_000_000;

/// Nanoseconds in one hour.
pub const NANOS_IN_HOUR: u64 = 60 * 60 * 1_000_000_000;

/// Nanoseconds in one day.
pub const NANOS_IN_DAY: u64 = 24 * 60 * 60 * 1_000_000_000;

/// Nanoseconds in one (365-day) year: the unit over which annual rates accrue.
pub const NANOS_IN_YEAR: u64 = 365 * 24 * 60 * 60 * 1_000_000_000;

/// The annualized share of `amount` that a span of `dur_nanos` nanoseconds
/// earns: `amount * dur_nanos / NANOS_IN_YEAR`, rounded towards zero.
pub open spec fn annualized(amount: int, dur_nanos: int) -> int {
    amount * dur_nanos / (NANOS_IN_YEAR as int)
}

/// A non-negative span of time with nanosecond resolution.
#[derive(Clone, Copy, Debug, PartialEq, Eq, Structural)]
pub struct Duration {
    pub nanos: u64,
}

impl Duration {
    pub fn from_nanos(nanos: u64) -> (r: Self)
        ensures
            r.nanos == nanos,
    {
        Self { nanos }
    }

    pub fn from_secs(secs: u32) -> (r: Self)
        ensures
            r.nanos == secs * NANOS_IN_SEC,
    {
        Self { nanos: (secs as u64) * NANOS_IN_SEC }
    }

    pub fn from_days(days: u32) -> (r: Self)
        requires
            days * NANOS_IN_DAY <= u64::MAX,
        ensures
            r.nanos == days * NANOS_IN_DAY,
    {
        Self { nanos: (days as u64) * NANOS_IN_DAY }
    }

    pub fn hour() -> (r: Self)
        ensures
            r.nanos == NANOS_IN_HOUR,
    {
        Self { nanos: NANOS_IN_HOUR }
    }

    pub fn year() -> (r: Self)
        ensures
            r.nanos == NANOS_IN_YEAR,
    {
        Self { nanos: NANOS_IN_YEAR }
    }

    /// The span between two points in time, `start` no later than `end`.
    pub fn between(start: Timestamp, end: Timestamp) -> (r: Self)
        requires
            start.nanos <= end.nanos,
        ensures
            r.nanos == end.nanos - start.nanos,
    {
        Self { nanos: end.nanos - start.nanos }
    }

    pub fn plus(self, other: Self) -> (r: Self)
        requires
            self.nanos + other.nanos <= u64::MAX,
        ensures
            r.nanos == self.nanos + other.nanos,
    {
        Self { nanos: self.nanos + other.nanos }
    }

    pub fn minus(self, other: Self) -> (r: Self)
        requires
            other.nanos <= self.nanos,
        ensures
            r.nanos == self.nanos - other.nanos,
    {
        Self { nanos: self.nanos - other.nanos }
    }

    pub fn min(self, other: Self) -> (r: Self)
        ensures
            r.nanos == if self.nanos <= other.nanos {
                self.nanos
            } else {
                other.nanos
            },
    {
        if self.nanos <= other.nanos {
            self
        } else {
            other
        }
    }

    pub fn is_zero(&self) -> (r: bool)
        ensures
            r <==> self.nanos == 0,
    {
        self.nanos == 0
    }

    /// The share of `amount` that this span earns out of a full year's worth:
    /// exact rational scaling, rounded towards zero.
    pub fn annualized_slice_of(&self, amount: u128) -> (r: u128)
        requires
            amount * self.nanos <= u128::MAX,
        ensures
            r == annualized(amount as int, self.nanos as int),
    {
        (amount * (self.nanos as u128)) / (NANOS_IN_YEAR as u128)
    }

    /// The `part / whole` share of this span: used to slice a period by the
    /// fraction of its owed interest that a payment settles.
    pub fn into_slice_per_ratio(self, part: u128, whole: u128) -> (r: Self)
        requires
            0 < whole,
            part <= whole,
            self.nanos * part <= u128::MAX,
        ensures
            r.nanos == self.nanos * part / (whole as int),
    {
        let wide: u128 = ((self.nanos as u128) * part) / whole;
        proof {
            assert(self.nanos * part / (whole as int) <= self.nanos) by (nonlinear_arith)
                requires
                    0 < whole,
                    part <= whole,
                    0 <= self.nanos,
            ;
        }
        Self { nanos: wide as u64 }
    }
}

impl Default for Duration {
    /// The empty span.
    fn default() -> (r: Self)
        ensures
            r.nanos == 0,
    {
        Self { nanos: 0 }
    }
}

} // verus!
