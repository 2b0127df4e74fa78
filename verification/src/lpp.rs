use vstd::prelude::*;

use crate::coin::{Coin, Currency, NlsPlatform};
use crate::duration::{Duration, NANOS_IN_YEAR};
use crate::interest::{accrual, annual_fits, InterestPeriod};
use crate::percent::{percent_of, Percent};
use crate::timestamp::Timestamp;

verus! {

/// A rate whose yearly interest on `principal` stays within one currency
/// unit per nanosecond. Under this bound the accrued interest over any span
/// never outgrows the span itself, so every intermediate product of the
/// ledger's arithmetic fits in 128 bits.
pub open spec fn rate_fits(units: int, principal: int) -> bool {
    &&& principal * units <= u128::MAX
    &&& percent_of(units, principal) <= NANOS_IN_YEAR
}

pub proof fn lemma_rate_fits_implies_annual_fits(units: int, principal: int)
    requires
        0 <= units,
        0 <= principal,
        rate_fits(units, principal),
    ensures
        annual_fits(units, principal),
{
    crate::percent::lemma_percent_of_monotonic(units, 0, principal);
}

/// Under `rate_fits`, accrued interest never outgrows the elapsed span.
pub proof fn lemma_accrual_le_elapsed(units: int, principal: int, dur: int)
    requires
        0 <= units,
        0 <= principal,
        0 <= dur,
        rate_fits(units, principal),
    ensures
        0 <= accrual(units, principal, dur) <= dur,
{
    crate::percent::lemma_percent_of_monotonic(units, 0, principal);
    let per_year = percent_of(units, principal);
    assert(accrual(units, principal, dur) <= dur && 0 <= accrual(units, principal, dur))
        by (nonlinear_arith)
        requires
            0 <= per_year <= NANOS_IN_YEAR,
            0 <= dur,
            accrual(units, principal, dur) == per_year * dur / (NANOS_IN_YEAR as int),
    ;
}

/// The ledger's own split of one posted repayment.
#[derive(Clone, Copy, Debug, PartialEq, Eq)]
pub struct RepayShares<Lpn>
where
    Lpn: Currency,
{
    pub interest: Coin<Lpn>,
    pub principal: Coin<Lpn>,
    pub excess: Coin<Lpn>,
}

/// The loan ledger: the external, authoritative record of principal and
/// base-rate interest for one debt position.
///
/// A ledger value carries a mathematical model: the remaining principal,
/// the base rate and the unpaid interest accrued up to any point in time.
/// Every operation is specified against that model, and a repayment is
/// split interest-first, principal next, the rest handed back.
pub trait LppLoan<Lpn>: Sized where Lpn: Currency {
    /// The machine bounds under which the ledger computes.
    spec fn wf(&self) -> bool;

    /// The remaining principal.
    spec fn principal_model(&self) -> int;

    /// The unpaid base interest accrued up to a point in time (nanoseconds).
    spec fn interest_model(&self, at: int) -> int;

    /// The annual base rate, in per-mille units.
    spec fn rate_model(&self) -> int;

    /// The principal is a quantity: never negative.
    proof fn principal_model_nonneg(&self)
        requires
            self.wf(),
        ensures
            self.principal_model() >= 0,
    ;

    /// Unpaid interest never goes negative and only grows with time.
    proof fn interest_model_ordered(&self, t1: int, t2: int)
        requires
            self.wf(),
            t1 <= t2,
        ensures
            0 <= self.interest_model(t1) <= self.interest_model(t2),
    ;

    fn principal_due(&self) -> (r: Coin<Lpn>)
        requires
            self.wf(),
        ensures
            r.amount == self.principal_model(),
    ;

    /// The total unpaid base interest accrued up to `by`.
    fn interest_due(&self, by: Timestamp) -> (r: Coin<Lpn>)
        requires
            self.wf(),
        ensures
            r.amount == self.interest_model(by.nanos as int),
    ;

    /// Posts a repayment as of `by` and returns the ledger's own split:
    /// interest first, principal next, any rest as excess.
    fn repay(&mut self, by: Timestamp, repayment: Coin<Lpn>) -> (r: RepayShares<Lpn>)
        requires
            old(self).wf(),
        ensures
            final(self).wf(),
            r.interest.amount == vstd::math::min(
                old(self).interest_model(by.nanos as int),
                repayment.amount as int,
            ),
            r.principal.amount == vstd::math::min(
                old(self).principal_model(),
                repayment.amount - r.interest.amount,
            ),
            r.excess.amount == repayment.amount - r.interest.amount - r.principal.amount,
            final(self).principal_model() == old(self).principal_model() - r.principal.amount,
            final(self).rate_model() == old(self).rate_model(),
    ;

    fn annual_interest_rate(&self) -> (r: Percent)
        requires
            self.wf(),
        ensures
            r.units == self.rate_model(),
    ;
}

/// One open loan as the pool reports it: remaining principal, the fixed
/// annual base rate, and the point in time through which interest is paid.
///
/// Interest accrues linearly from `interest_paid`; a partial interest
/// payment advances `interest_paid` by exactly the time-fraction the
/// payment settles, through the same slicing law as [`InterestPeriod::pay`].
#[derive(Clone, Copy, Debug, PartialEq, Eq)]
pub struct LoanResponse<Lpn>
where
    Lpn: Currency,
{
    pub principal_due: Coin<Lpn>,
    pub annual_interest_rate: Percent,
    pub interest_paid: Timestamp,
}

impl<Lpn> LppLoan<Lpn> for LoanResponse<Lpn> where Lpn: Currency {
    open spec fn wf(&self) -> bool {
        rate_fits(self.annual_interest_rate.units as int, self.principal_due.amount as int)
    }

    open spec fn principal_model(&self) -> int {
        self.principal_due.amount as int
    }

    open spec fn interest_model(&self, at: int) -> int {
        if at <= self.interest_paid.nanos {
            0
        } else {
            accrual(
                self.annual_interest_rate.units as int,
                self.principal_due.amount as int,
                at - self.interest_paid.nanos,
            )
        }
    }

    open spec fn rate_model(&self) -> int {
        self.annual_interest_rate.units as int
    }

    proof fn principal_model_nonneg(&self) {
    }

    proof fn interest_model_ordered(&self, t1: int, t2: int) {
        let units = self.annual_interest_rate.units as int;
        let principal = self.principal_due.amount as int;
        let paid = self.interest_paid.nanos as int;
        if t2 > paid {
            lemma_accrual_le_elapsed(units, principal, t2 - paid);
            if t1 > paid {
                crate::interest::lemma_accrual_monotonic(units, principal, t1 - paid, t2 - paid);
            } else {
                crate::interest::lemma_accrual_monotonic(units, principal, 0, t2 - paid);
                assert(accrual(units, principal, 0) == 0);
            }
        }
    }

    fn principal_due(&self) -> (r: Coin<Lpn>) {
        self.principal_due
    }

    fn interest_due(&self, by: Timestamp) -> (r: Coin<Lpn>) {
        if by.nanos() <= self.interest_paid.nanos() {
            Coin::zero()
        } else {
            proof {
                lemma_rate_fits_implies_annual_fits(
                    self.annual_interest_rate.units as int,
                    self.principal_due.amount as int,
                );
            }
            InterestPeriod::with_interest(self.annual_interest_rate)
                .from(self.interest_paid)
                .spanning(Duration::between(self.interest_paid, by))
                .interest(self.principal_due)
        }
    }

    fn repay(&mut self, by: Timestamp, repayment: Coin<Lpn>) -> (r: RepayShares<Lpn>) {
        let ghost units = self.annual_interest_rate.units as int;
        let ghost principal0 = self.principal_due.amount as int;
        if by.nanos() <= self.interest_paid.nanos() {
            let principal_paid = self.principal_due.min(repayment);
            self.principal_due = self.principal_due.minus(principal_paid);
            proof {
                assert(rate_fits(units, self.principal_due.amount as int)) by {
                    lemma_rate_fits_shrinks(units, self.principal_due.amount as int, principal0);
                }
            }
            RepayShares {
                interest: Coin::zero(),
                principal: principal_paid,
                excess: repayment.minus(principal_paid),
            }
        } else {
            proof {
                lemma_rate_fits_implies_annual_fits(units, principal0);
                lemma_accrual_le_elapsed(units, principal0, by.nanos - self.interest_paid.nanos);
            }
            let due_period = InterestPeriod::with_interest(self.annual_interest_rate)
                .from(self.interest_paid)
                .spanning(Duration::between(self.interest_paid, by));
            let (due_period_after, change) = due_period.pay(self.principal_due, repayment, by);
            let interest_paid_amount = repayment.minus(change);
            let principal_paid = self.principal_due.min(change);
            let excess = change.minus(principal_paid);
            self.interest_paid = due_period_after.start();
            self.principal_due = self.principal_due.minus(principal_paid);
            proof {
                assert(rate_fits(units, self.principal_due.amount as int)) by {
                    lemma_rate_fits_shrinks(units, self.principal_due.amount as int, principal0);
                }
            }
            RepayShares { interest: interest_paid_amount, principal: principal_paid, excess }
        }
    }

    fn annual_interest_rate(&self) -> (r: Percent) {
        self.annual_interest_rate
    }
}

/// The machine bounds survive any shrinking of the principal.
pub proof fn lemma_rate_fits_shrinks(units: int, smaller: int, larger: int)
    requires
        0 <= units,
        0 <= smaller <= larger,
        rate_fits(units, larger),
    ensures
        rate_fits(units, smaller),
{
    assert(smaller * units <= larger * units) by (nonlinear_arith)
        requires
            0 <= units,
            0 <= smaller <= larger,
    ;
    crate::percent::lemma_percent_of_monotonic(units, smaller, larger);
}

/// A quote for opening a loan: the rate the pool would charge, or a notice
/// that it lacks the liquidity.
#[derive(Clone, Copy, Debug, PartialEq, Eq)]
pub enum QueryQuoteResponse {
    QuoteInterestRate(Percent),
    NoLiquidity,
}

/// The rewards a lender can claim, in the platform's native currency.
#[derive(Clone, Copy, Debug, PartialEq, Eq)]
pub struct RewardsResponse {
    pub rewards: Coin<NlsPlatform>,
}

} // verus!
