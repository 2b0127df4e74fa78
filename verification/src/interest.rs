use vstd::prelude::*;

use crate::coin::{Coin, Currency};
use crate::duration::{annualized, Duration, NANOS_IN_YEAR};
use crate::percent::{percent_of, Percent};
use crate::period::Period;
use crate::timestamp::Timestamp;

verus! {

/// Interest accrued by `principal` at an annual per-mille rate of `units`
/// over a span of `dur_nanos` nanoseconds: the year's interest, scaled by
/// the span's share of a year. Both scalings round towards zero.
pub open spec fn accrual(units: int, principal: int, dur_nanos: int) -> int {
    annualized(percent_of(units, principal), dur_nanos)
}

/// The machine bound under which a year's interest on `principal` can be
/// sliced by any span without overflowing 128-bit arithmetic.
pub open spec fn annual_fits(units: int, principal: int) -> bool {
    &&& principal * units <= u128::MAX
    &&& percent_of(units, principal) * (u64::MAX as int) <= u128::MAX
}

/// Scaling by a rate keeps the order of spans.
pub proof fn lemma_accrual_monotonic(units: int, principal: int, d1: int, d2: int)
    requires
        0 <= units,
        0 <= principal,
        0 <= d1 <= d2,
    ensures
        0 <= accrual(units, principal, d1) <= accrual(units, principal, d2),
{
    crate::percent::lemma_percent_of_monotonic(units, 0, principal);
    let per_year = percent_of(units, principal);
    assert(per_year * d1 <= per_year * d2 && 0 <= per_year * d1) by (nonlinear_arith)
        requires
            0 <= per_year,
            0 <= d1 <= d2,
    ;
    vstd::arithmetic::div_mod::lemma_div_is_ordered(
        per_year * d1,
        per_year * d2,
        NANOS_IN_YEAR as int,
    );
    vstd::arithmetic::div_mod::lemma_div_pos_is_pos(per_year * d1, NANOS_IN_YEAR as int);
}

/// A time period tagged with a fixed annual interest rate.
///
/// The rate never changes over the value's lifetime; `pay` only ever moves
/// the start of the period forward, so `till()` is invariant under it.
#[derive(Clone, Copy, Debug, PartialEq, Eq, Structural)]
pub struct InterestPeriod {
    pub start: Timestamp,
    pub length: Duration,
    pub interest: Percent,
}

impl InterestPeriod {
    /// The end of the period, as a mathematical value.
    pub open spec fn till_spec(&self) -> int {
        self.start.nanos + self.length.nanos
    }

    /// The period's end does not overflow the clock.
    pub open spec fn wf(&self) -> bool {
        self.till_spec() <= u64::MAX
    }

    /// `t` clamped into the period.
    pub open spec fn clamped_spec(&self, t: int) -> int {
        if t < self.start.nanos {
            self.start.nanos as int
        } else if t > self.till_spec() {
            self.till_spec()
        } else {
            t
        }
    }

    pub fn with_interest(interest: Percent) -> (r: Self)
        ensures
            r.start.nanos == 0,
            r.length.nanos == 0,
            r.interest == interest,
            r.wf(),
    {
        Self {
            start: Timestamp::from_nanos(0),
            length: Duration::from_nanos(0),
            interest,
        }
    }

    /// The same rate and length, anchored at `start`.
    pub fn from(self, start: Timestamp) -> (r: Self)
        requires
            start.nanos + self.length.nanos <= u64::MAX,
        ensures
            r == (Self { start, ..self }),
            r.wf(),
    {
        Self { start, length: self.length, interest: self.interest }
    }

    /// The same rate and start, spanning `length`.
    pub fn spanning(self, length: Duration) -> (r: Self)
        requires
            self.start.nanos + length.nanos <= u64::MAX,
        ensures
            r == (Self { length, ..self }),
            r.wf(),
    {
        Self { start: self.start, length, interest: self.interest }
    }

    /// The same rate over the given period.
    pub fn and_period(self, period: Period) -> (r: Self)
        requires
            period.wf(),
        ensures
            r.start == period.start,
            r.length == period.length,
            r.interest == self.interest,
            r.wf(),
    {
        Self { start: period.start, length: period.length, interest: self.interest }
    }

    /// The underlying time period, without the rate.
    pub fn period(&self) -> (r: Period)
        ensures
            r.start == self.start,
            r.length == self.length,
    {
        Period { start: self.start, length: self.length }
    }

    /// Moves the start forward by `delta`, shrinking the length so that the
    /// end stays where it was.
    pub fn shift_start(self, delta: Duration) -> (r: Self)
        requires
            self.wf(),
            delta.nanos <= self.length.nanos,
        ensures
            r.start.nanos == self.start.nanos + delta.nanos,
            r.length.nanos == self.length.nanos - delta.nanos,
            r.interest == self.interest,
            r.till_spec() == self.till_spec(),
            r.wf(),
    {
        Self {
            start: self.start.plus(delta),
            length: self.length.minus(delta),
            interest: self.interest,
        }
    }

    pub fn zero_length(&self) -> (r: bool)
        ensures
            r <==> self.length.nanos == 0,
    {
        self.length.is_zero()
    }

    pub fn start(&self) -> (r: Timestamp)
        ensures
            r == self.start,
    {
        self.start
    }

    pub fn till(&self) -> (r: Timestamp)
        requires
            self.wf(),
        ensures
            r.nanos == self.till_spec(),
    {
        self.start.plus(self.length)
    }

    pub fn interest_rate(&self) -> (r: Percent)
        ensures
            r == self.interest,
    {
        self.interest
    }

    /// Interest accrued by `principal` over the whole period.
    pub fn interest<C>(&self, principal: Coin<C>) -> (r: Coin<C>)
        where C: Currency,
        requires
            self.wf(),
            annual_fits(self.interest.units as int, principal.amount as int),
        ensures
            r.amount == accrual(
                self.interest.units as int,
                principal.amount as int,
                self.length.nanos as int,
            ),
    {
        let till = self.till();
        self.interest_by(principal, till)
    }

    /// Interest accrued by `principal` from the period's start up to `by`,
    /// which must lie within the period.
    fn interest_by<C>(&self, principal: Coin<C>, by: Timestamp) -> (r: Coin<C>)
        where C: Currency,
        requires
            self.wf(),
            annual_fits(self.interest.units as int, principal.amount as int),
            self.start.nanos <= by.nanos <= self.till_spec(),
        ensures
            r.amount == accrual(
                self.interest.units as int,
                principal.amount as int,
                by.nanos - self.start.nanos,
            ),
    {
        let period = Duration::between(self.start, by);
        let per_year = self.interest.of(principal);
        proof {
            assert(per_year.amount * period.nanos <= u128::MAX) by (nonlinear_arith)
                requires
                    0 <= per_year.amount,
                    per_year.amount * (u64::MAX as int) <= u128::MAX,
                    0 <= period.nanos <= u64::MAX,
            ;
        }
        Coin::new(period.annualized_slice_of(per_year.amount()))
    }

    fn move_within_period(&self, t: Timestamp) -> (r: Timestamp)
        requires
            self.wf(),
        ensures
            r.nanos == self.clamped_spec(t.nanos as int),
    {
        let till = self.till();
        t.clamp(self.start, till)
    }

    /// The core time-slicing law: a payment against the interest owed up to
    /// `by` (clamped into the period) advances the period's start by exactly
    /// the time-fraction the settled amount covers, and the rest of the
    /// payment comes back as change.
    ///
    /// When nothing is owed, nothing is consumed: the period comes back
    /// unchanged and the whole payment becomes change. Either way the
    /// period's end stays where it was.
    pub fn pay<C>(self, principal: Coin<C>, payment: Coin<C>, by: Timestamp) -> (r: (Self, Coin<C>))
        where C: Currency,
        requires
            self.wf(),
            annual_fits(self.interest.units as int, principal.amount as int),
            accrual(
                self.interest.units as int,
                principal.amount as int,
                self.length.nanos as int,
            ) <= u64::MAX,
        ensures
            r.0.interest == self.interest,
            r.0.till_spec() == self.till_spec(),
            r.0.wf(),
            ({
                let byc = self.clamped_spec(by.nanos as int);
                let owed = accrual(
                    self.interest.units as int,
                    principal.amount as int,
                    byc - self.start.nanos,
                );
                &&& owed == 0 ==> r.0 == self && r.1 == payment
                &&& owed > 0 ==> {
                    let settled = vstd::math::min(owed, payment.amount as int);
                    &&& r.1.amount == payment.amount - settled
                    &&& r.0.start.nanos == self.start.nanos + (byc - self.start.nanos) * settled
                        / owed
                    &&& r.0.length.nanos == self.length.nanos - (byc - self.start.nanos) * settled
                        / owed
                }
            }),
    {
        let by_within_period = self.move_within_period(by);
        let interest_due_per_period = self.interest_by(principal, by_within_period);

        if interest_due_per_period.is_zero() {
            (self, payment)
        } else {
            let repayment = interest_due_per_period.min(payment);

            let period = Duration::between(self.start, by_within_period);
            proof {
                lemma_accrual_monotonic(
                    self.interest.units as int,
                    principal.amount as int,
                    by_within_period.nanos - self.start.nanos,
                    self.length.nanos as int,
                );
                assert(period.nanos * repayment.amount <= u128::MAX) by (nonlinear_arith)
                    requires
                        0 <= period.nanos <= u64::MAX,
                        0 <= repayment.amount <= u64::MAX,
                ;
            }
            let period_paid_for = period.into_slice_per_ratio(
                repayment.amount(),
                interest_due_per_period.amount(),
            );

            let change = payment.minus(repayment);
            proof {
                assert(period_paid_for.nanos <= period.nanos) by (nonlinear_arith)
                    requires
                        0 < interest_due_per_period.amount,
                        repayment.amount <= interest_due_per_period.amount,
                        0 <= period.nanos,
                        period_paid_for.nanos == (period.nanos as int) * (repayment.amount as int)
                            / (interest_due_per_period.amount as int),
                ;
            }
            (self.shift_start(period_paid_for), change)
        }
    }
}

} // verus!
