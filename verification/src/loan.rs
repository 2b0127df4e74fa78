use core::marker::PhantomData;

use vstd::prelude::*;

use crate::bank::FixedAddressSender;
use crate::coin::{Coin, Currency};
use crate::duration::Duration;
use crate::error::{ContractError, ContractResult};
use crate::interest::{accrual, lemma_accrual_monotonic, InterestPeriod};
use crate::lpp::{lemma_rate_fits_implies_annual_fits, lemma_rate_fits_shrinks, rate_fits, LppLoan};
use crate::percent::Percent;
use crate::period::Period;
use crate::receipt::RepayReceipt;
use crate::timestamp::Timestamp;

verus! {

/// The billing configuration of a loan: the fixed length of the recurring
/// period over which margin interest falls due, and the additional grace
/// window after a period's end during which its dues are not yet overdue.
#[derive(Clone, Copy, Debug, PartialEq, Eq, Structural)]
pub struct InterestPaymentSpec {
    pub due_period: Duration,
    pub grace_period: Duration,
}

impl InterestPaymentSpec {
    pub fn new(due_period: Duration, grace_period: Duration) -> (r: Self)
        requires
            due_period.nanos > 0,
            due_period.nanos + grace_period.nanos <= u64::MAX,
        ensures
            r.due_period == due_period,
            r.grace_period == grace_period,
    {
        Self { due_period, grace_period }
    }

    pub fn due_period(&self) -> (r: Duration)
        ensures
            r == self.due_period,
    {
        self.due_period
    }

    pub fn grace_period(&self) -> (r: Duration)
        ensures
            r == self.grace_period,
    {
        self.grace_period
    }
}

/// The overdue share of a loan's unpaid interest and margin, recomputed
/// fresh at every query.
///
/// Exactly one shape applies at any instant: either no billing period has
/// fallen overdue yet and the value counts down to the moment one would,
/// or fixed overdue amounts have accrued.
#[derive(Clone, Copy, Debug, PartialEq, Eq)]
pub enum Overdue<Lpn>
where
    Lpn: Currency,
{
    /// The duration until the current period's grace window would expire if
    /// the loan were left unpaid. Always positive.
    StartIn(Duration),
    /// Amounts from elapsed, grace-expired spans, still outstanding.
    Accrued { interest: Coin<Lpn>, margin: Coin<Lpn> },
}

impl<Lpn> Overdue<Lpn> where Lpn: Currency {
    pub open spec fn interest_spec(&self) -> int {
        match *self {
            Overdue::StartIn(_) => 0,
            Overdue::Accrued { interest, .. } => interest.amount as int,
        }
    }

    pub open spec fn margin_spec(&self) -> int {
        match *self {
            Overdue::StartIn(_) => 0,
            Overdue::Accrued { margin, .. } => margin.amount as int,
        }
    }

    /// Partitions the interest and margin that accrued over the elapsed
    /// margin period into overdue and current.
    ///
    /// The current billing period is the trailing `due_period_len` of the
    /// elapsed span; everything before it is overdue once the span outgrows
    /// the period and its grace window. The overdue margin is the margin of
    /// the whole span less the current period's; the overdue base interest
    /// is what the ledger reports as of the current period's start.
    pub fn new<L>(
        due_period_margin: &Period,
        due_period_len: Duration,
        grace_period_len: Duration,
        margin_rate: Percent,
        lpp_loan: &L,
    ) -> (r: Self)
        where L: LppLoan<Lpn>,
        requires
            due_period_margin.wf(),
            due_period_len.nanos + grace_period_len.nanos <= u64::MAX,
            lpp_loan.wf(),
            rate_fits(margin_rate.units as int, lpp_loan.principal_model()),
        ensures
            ({
                let elapsed = due_period_margin.length.nanos as int;
                let threshold = due_period_len.nanos + grace_period_len.nanos;
                &&& (elapsed >= threshold <==> r is Accrued)
                &&& r matches Overdue::StartIn(d) ==> d.nanos == threshold - elapsed
                &&& r matches Overdue::Accrued { interest, margin } ==> {
                    &&& interest.amount == lpp_loan.interest_model(
                        due_period_margin.till_spec() - due_period_len.nanos,
                    )
                    &&& margin.amount == accrual(
                        margin_rate.units as int,
                        lpp_loan.principal_model(),
                        elapsed,
                    ) - accrual(
                        margin_rate.units as int,
                        lpp_loan.principal_model(),
                        due_period_len.nanos as int,
                    )
                }
            }),
    {
        let elapsed = due_period_margin.length();
        let threshold = due_period_len.plus(grace_period_len);
        if elapsed.nanos < threshold.nanos {
            Overdue::StartIn(threshold.minus(elapsed))
        } else {
            let principal = lpp_loan.principal_due();
            proof {
                lpp_loan.principal_model_nonneg();
                lemma_rate_fits_implies_annual_fits(
                    margin_rate.units as int,
                    principal.amount as int,
                );
                lemma_accrual_monotonic(
                    margin_rate.units as int,
                    principal.amount as int,
                    due_period_len.nanos as int,
                    elapsed.nanos as int,
                );
            }
            let margin_period = InterestPeriod::with_interest(margin_rate);
            let total_margin = margin_period.and_period(*due_period_margin).interest(principal);
            let till = due_period_margin.till();
            let current_margin = margin_period
                .and_period(Period::till_length(till, due_period_len))
                .interest(principal);
            let margin = total_margin.minus(current_margin);
            let interest = lpp_loan.interest_due(till.minus(due_period_len));
            Overdue::Accrued { interest, margin }
        }
    }

    /// The overdue base interest; zero while nothing is overdue.
    pub fn interest(&self) -> (r: Coin<Lpn>)
        ensures
            r.amount == self.interest_spec(),
    {
        match self {
            Overdue::StartIn(_) => Coin::zero(),
            Overdue::Accrued { interest, .. } => *interest,
        }
    }

    /// The overdue margin; zero while nothing is overdue.
    pub fn margin(&self) -> (r: Coin<Lpn>)
        ensures
            r.amount == self.margin_spec(),
    {
        match self {
            Overdue::StartIn(_) => Coin::zero(),
            Overdue::Accrued { margin, .. } => *margin,
        }
    }

    /// The countdown to the overdue start; zero once amounts have accrued.
    pub fn start_in(&self) -> (r: Duration)
        ensures
            r.nanos == (match *self {
                Overdue::StartIn(d) => d.nanos as int,
                Overdue::Accrued { .. } => 0,
            }),
    {
        match self {
            Overdue::StartIn(d) => *d,
            Overdue::Accrued { .. } => Duration::from_nanos(0),
        }
    }
}

/// A snapshot of a loan's debt at one instant, split into the five ordered
/// buckets a payment is allocated across.
#[derive(Clone, Copy, Debug, PartialEq, Eq)]
pub struct State<Lpn>
where
    Lpn: Currency,
{
    pub annual_interest: Percent,
    pub annual_interest_margin: Percent,
    pub principal_due: Coin<Lpn>,
    pub due_interest: Coin<Lpn>,
    pub due_margin_interest: Coin<Lpn>,
    pub overdue: Overdue<Lpn>,
}

/// The waterfall allocation of a payment across the five ordered buckets:
/// overdue interest, overdue margin, due interest, due margin, principal.
/// Each step consumes the smaller of its bucket and what is left; the last
/// component is the change.
pub open spec fn waterfall(pay: int, o_i: int, o_m: int, d_i: int, d_m: int, prin: int) -> (
    int,
    int,
    int,
    int,
    int,
    int,
) {
    let p1 = vstd::math::min(o_i, pay);
    let p2 = vstd::math::min(o_m, pay - p1);
    let p3 = vstd::math::min(d_i, pay - p1 - p2);
    let p4 = vstd::math::min(d_m, pay - p1 - p2 - p3);
    let p5 = vstd::math::min(prin, pay - p1 - p2 - p3 - p4);
    (p1, p2, p3, p4, p5, pay - p1 - p2 - p3 - p4 - p5)
}

/// The loan aggregate: the rolling margin period with its fixed margin
/// rate, the billing configuration, and the external loan ledger.
pub struct Loan<Lpn, LppLoanT>
where
    Lpn: Currency,
    LppLoanT: LppLoan<Lpn>,
{
    pub lpn: PhantomData<Lpn>,
    pub lpp_loan: LppLoanT,
    pub interest_payment_spec: InterestPaymentSpec,
    pub due_period: InterestPeriod,
}

impl<Lpn, LppLoanT> Loan<Lpn, LppLoanT>
where
    Lpn: Currency,
    LppLoanT: LppLoan<Lpn>,
{
    /// The margin rate in per-mille units.
    pub open spec fn margin_units(&self) -> int {
        self.due_period.interest.units as int
    }

    /// Well-formedness: the clock and rate bounds under which every
    /// computation of the aggregate stays exact.
    pub open spec fn wf(&self) -> bool {
        &&& self.due_period.wf()
        &&& self.interest_payment_spec.due_period.nanos > 0
        &&& self.interest_payment_spec.due_period.nanos
            + self.interest_payment_spec.grace_period.nanos <= u64::MAX
        &&& self.lpp_loan.wf()
        &&& rate_fits(self.margin_units(), self.lpp_loan.principal_model())
    }

    /// The span from the margin period's start to `now`.
    pub open spec fn elapsed(&self, now: int) -> int {
        now - self.due_period.start.nanos
    }

    /// Whether the overdue classification has flipped to accrued amounts:
    /// exactly when the elapsed span reaches the billing period plus grace.
    pub open spec fn overdue_started(&self, now: int) -> bool {
        self.elapsed(now) >= self.interest_payment_spec.due_period.nanos
            + self.interest_payment_spec.grace_period.nanos
    }

    /// The overdue share of the base interest at `now`.
    pub open spec fn overdue_interest_spec(&self, now: int) -> int {
        if self.overdue_started(now) {
            self.lpp_loan.interest_model(now - self.interest_payment_spec.due_period.nanos)
        } else {
            0
        }
    }

    /// The overdue share of the margin at `now`.
    pub open spec fn overdue_margin_spec(&self, now: int) -> int {
        if self.overdue_started(now) {
            accrual(self.margin_units(), self.lpp_loan.principal_model(), self.elapsed(now))
                - accrual(
                self.margin_units(),
                self.lpp_loan.principal_model(),
                self.interest_payment_spec.due_period.nanos as int,
            )
        } else {
            0
        }
    }

    /// The not-yet-overdue share of the margin at `now`.
    pub open spec fn due_margin_spec(&self, now: int) -> int {
        accrual(self.margin_units(), self.lpp_loan.principal_model(), self.elapsed(now))
            - self.overdue_margin_spec(now)
    }

    /// The not-yet-overdue share of the base interest at `now`.
    pub open spec fn due_interest_spec(&self, now: int) -> int {
        self.lpp_loan.interest_model(now) - self.overdue_interest_spec(now)
    }

    pub fn new(
        start: Timestamp,
        lpp_loan: LppLoanT,
        annual_margin_interest: Percent,
        interest_payment_spec: InterestPaymentSpec,
    ) -> (r: Self)
        requires
            lpp_loan.wf(),
            rate_fits(annual_margin_interest.units as int, lpp_loan.principal_model()),
            interest_payment_spec.due_period.nanos > 0,
            interest_payment_spec.due_period.nanos + interest_payment_spec.grace_period.nanos
                <= u64::MAX,
            start.nanos + interest_payment_spec.due_period.nanos <= u64::MAX,
        ensures
            r.wf(),
            r.lpp_loan == lpp_loan,
            r.interest_payment_spec == interest_payment_spec,
            r.due_period.start == start,
            r.due_period.length == interest_payment_spec.due_period,
            r.due_period.interest == annual_margin_interest,
    {
        let due_period = InterestPeriod::with_interest(annual_margin_interest).and_period(
            Period::from_length(start, interest_payment_spec.due_period()),
        );
        Self { lpn: PhantomData, lpp_loan, interest_payment_spec, due_period }
    }

    /// The debt snapshot at `now`, with every bucket pinned to the model:
    /// the ledger's principal, the margin accrued over the elapsed period
    /// split into due and overdue, and the ledger's unpaid base interest
    /// split the same way.
    pub fn state(&self, now: Timestamp) -> (r: State<Lpn>)
        requires
            self.wf(),
            self.due_period.start.nanos <= now.nanos,
        ensures
            r.annual_interest.units == self.lpp_loan.rate_model(),
            r.annual_interest_margin == self.due_period.interest,
            r.principal_due.amount == self.lpp_loan.principal_model(),
            r.due_interest.amount == self.due_interest_spec(now.nanos as int),
            r.due_margin_interest.amount == self.due_margin_spec(now.nanos as int),
            (self.overdue_started(now.nanos as int) <==> r.overdue is Accrued),
            r.overdue.interest_spec() == self.overdue_interest_spec(now.nanos as int),
            r.overdue.margin_spec() == self.overdue_margin_spec(now.nanos as int),
            r.overdue matches Overdue::StartIn(d) ==> d.nanos
                == self.interest_payment_spec.due_period.nanos
                + self.interest_payment_spec.grace_period.nanos - self.elapsed(now.nanos as int),
    {
        let ghost units = self.margin_units();
        let ghost principal_model = self.lpp_loan.principal_model();
        let due_period_margin = Period::from_till(self.due_period.start(), now);

        let overdue = Overdue::new(
            &due_period_margin,
            self.interest_payment_spec.due_period(),
            self.interest_payment_spec.grace_period(),
            self.due_period.interest_rate(),
            &self.lpp_loan,
        );

        let principal_due = self.lpp_loan.principal_due();
        proof {
            self.lpp_loan.principal_model_nonneg();
            lemma_rate_fits_implies_annual_fits(units, principal_model);
            lemma_accrual_monotonic(units, principal_model, 0, due_period_margin.length.nanos as int);
            self.lpp_loan.interest_model_ordered(
                now.nanos - self.interest_payment_spec.due_period.nanos,
                now.nanos as int,
            );
        }
        let due_margin_interest = InterestPeriod::with_interest(self.due_period.interest_rate())
            .and_period(due_period_margin)
            .interest(principal_due)
            .minus(overdue.margin());
        let due_interest = self.lpp_loan.interest_due(due_period_margin.till()).minus(
            overdue.interest(),
        );

        State {
            annual_interest: self.lpp_loan.annual_interest_rate(),
            annual_interest_margin: self.due_period.interest_rate(),
            principal_due,
            due_interest,
            due_margin_interest,
            overdue,
        }
    }

    /// Repays the loan's interests and principal by the given timestamp.
    ///
    /// The payment runs down the waterfall: overdue interest, overdue
    /// margin, due interest, due margin, principal; what is left comes back
    /// as change, and the six receipt fields sum exactly to the payment.
    /// The margin share goes to the margin recipient, the interest and
    /// principal shares are posted to the loan ledger, and the local margin
    /// period is advanced by exactly the time-fraction the margin share
    /// settles. A ledger split that disagrees with the local one would fail
    /// the whole call; against any lawful ledger that cannot happen, so the
    /// call returns the receipt.
    pub fn repay<Sink>(&mut self, payment: Coin<Lpn>, by: Timestamp, profit: &mut Sink) -> (r:
        ContractResult<RepayReceipt<Lpn>>)
        where Sink: FixedAddressSender<Lpn>,
        requires
            old(self).wf(),
            old(self).due_period.start.nanos <= by.nanos,
        ensures
            final(self).wf(),
            final(self).interest_payment_spec == old(self).interest_payment_spec,
            final(self).due_period.interest == old(self).due_period.interest,
            final(self).lpp_loan.rate_model() == old(self).lpp_loan.rate_model(),
            ({
                let now = by.nanos as int;
                let principal = old(self).lpp_loan.principal_model();
                let alloc = waterfall(
                    payment.amount as int,
                    old(self).overdue_interest_spec(now),
                    old(self).overdue_margin_spec(now),
                    old(self).due_interest_spec(now),
                    old(self).due_margin_spec(now),
                    principal,
                );
                let margin_paid = alloc.1 + alloc.3;
                let margin_owed = accrual(
                    old(self).margin_units(),
                    principal,
                    old(self).elapsed(now),
                );
                &&& r matches Ok(receipt) ==> {
                    &&& receipt.overdue_interest.amount == alloc.0
                    &&& receipt.overdue_margin.amount == alloc.1
                    &&& receipt.due_interest.amount == alloc.2
                    &&& receipt.due_margin.amount == alloc.3
                    &&& receipt.principal.amount == alloc.4
                    &&& receipt.change.amount == alloc.5
                    &&& receipt.total_spec() == payment.amount
                    &&& (receipt.close <==> alloc.4 == principal)
                }
                &&& r is Ok
                &&& final(self).lpp_loan.principal_model() == principal - alloc.4
                &&& final(self).due_period.till_spec() == now
                &&& final(self).due_period.start.nanos == old(self).due_period.start.nanos + (
                if margin_owed == 0 {
                    0
                } else {
                    old(self).elapsed(now) * margin_paid / margin_owed
                })
                &&& final(profit).sent_model() == old(profit).sent_model().push(
                    (Coin { amount: margin_paid as u128, currency: PhantomData }),
                )
            }),
    {
        let ghost units = self.margin_units();
        let ghost principal_model = self.lpp_loan.principal_model();
        let ghost now = by.nanos as int;

        let state = self.state(by);
        let overdue_interest_payment = state.overdue.interest().min(payment);
        let overdue_margin_payment = state.overdue.margin().min(
            payment.minus(overdue_interest_payment),
        );
        let due_interest_payment = state.due_interest.min(
            payment.minus(overdue_interest_payment).minus(overdue_margin_payment),
        );
        let due_margin_payment = state.due_margin_interest.min(
            payment.minus(overdue_interest_payment).minus(overdue_margin_payment).minus(
                due_interest_payment,
            ),
        );

        let interest_paid = overdue_interest_payment.plus(due_interest_payment);
        let margin_paid = overdue_margin_payment.plus(due_margin_payment);
        let principal_paid = state.principal_due.min(
            payment.minus(interest_paid).minus(margin_paid),
        );
        let change = payment.minus(interest_paid).minus(margin_paid).minus(principal_paid);

        {
            proof {
                self.lpp_loan.principal_model_nonneg();
                lemma_rate_fits_implies_annual_fits(units, principal_model);
                crate::lpp::lemma_accrual_le_elapsed(units, principal_model, now
                    - self.due_period.start.nanos);
            }
            let (margin_period_past_payment, margin_payment_change) = InterestPeriod::with_interest(
                self.due_period.interest_rate(),
            ).and_period(Period::from_till(self.due_period.start(), by)).pay(
                state.principal_due,
                margin_paid,
                by,
            );
            if !margin_payment_change.is_zero() {
                return Err(ContractError::RepayInconsistency);
            }
            self.due_period = margin_period_past_payment;
        }

        profit.send(margin_paid);
        {
            let shares = self.lpp_loan.repay(by, interest_paid.plus(principal_paid));
            if shares.interest.amount() != interest_paid.amount() {
                return Err(ContractError::RepayInconsistency);
            }
            if shares.principal.amount() != principal_paid.amount() {
                return Err(ContractError::RepayInconsistency);
            }
            if !shares.excess.is_zero() {
                return Err(ContractError::RepayInconsistency);
            }
        }
        proof {
            lemma_rate_fits_shrinks(
                units,
                self.lpp_loan.principal_model(),
                principal_model,
            );
        }

        let mut receipt = RepayReceipt::default();
        receipt.pay_overdue_interest(overdue_interest_payment);
        receipt.pay_overdue_margin(overdue_margin_payment);
        receipt.pay_due_interest(due_interest_payment);
        receipt.pay_due_margin(due_margin_payment);
        receipt.pay_principal(state.principal_due, principal_paid);
        receipt.keep_change(change);
        assert(receipt.total_spec() == payment.amount);

        Ok(receipt)
    }

    /// The end of the current billing period's grace window.
    pub fn grace_period_end(&self) -> (r: Timestamp)
        requires
            self.wf(),
            self.due_period.till_spec() + self.interest_payment_spec.grace_period.nanos
                <= u64::MAX,
        ensures
            r.nanos == self.due_period.till_spec()
                + self.interest_payment_spec.grace_period.nanos,
    {
        let period = self.due_period.period();
        self.grace_period_end_impl(&period)
    }

    /// The first grace-window end strictly after `after`, found by rolling
    /// the billing period forward as often as needed. Used to schedule the
    /// next liquidation check.
    pub fn next_grace_period_end(&self, after: &Timestamp) -> (r: Timestamp)
        requires
            self.wf(),
            self.due_period.till_spec() + self.interest_payment_spec.grace_period.nanos
                <= u64::MAX,
            after.nanos + self.interest_payment_spec.due_period.nanos
                + self.interest_payment_spec.grace_period.nanos <= u64::MAX,
        ensures
            r.nanos > after.nanos,
            (r.nanos - self.interest_payment_spec.grace_period.nanos
                - self.due_period.till_spec()) % (
            self.interest_payment_spec.due_period.nanos as int) == 0,
            r.nanos >= self.due_period.till_spec()
                + self.interest_payment_spec.grace_period.nanos,
            r.nanos == self.due_period.till_spec()
                + self.interest_payment_spec.grace_period.nanos || r.nanos
                - self.interest_payment_spec.due_period.nanos <= after.nanos,
    {
        let ghost till0 = self.due_period.till_spec();
        let ghost len = self.interest_payment_spec.due_period.nanos as int;
        let ghost grace = self.interest_payment_spec.grace_period.nanos as int;
        let mut current_period = self.due_period.period();
        proof {
            vstd::arithmetic::div_mod::lemma_mod_multiples_basic(0, len);
        }
        while self.grace_period_end_impl(&current_period).nanos() <= after.nanos()
            invariant
                self.wf(),
                current_period.wf(),
                current_period.till_spec() + grace <= u64::MAX,
                current_period.till_spec() >= till0,
                (current_period.till_spec() - till0) % len == 0,
                current_period.till_spec() == till0 || current_period.till_spec() + grace - len
                    <= after.nanos,
                after.nanos + len + grace <= u64::MAX,
                len == self.interest_payment_spec.due_period.nanos,
                grace == self.interest_payment_spec.grace_period.nanos,
            decreases after.nanos + len - current_period.till_spec(),
        {
            let ghost shift = current_period.till_spec() - till0;
            current_period = next_due_period(current_period, &self.interest_payment_spec);
            proof {
                vstd::arithmetic::div_mod::lemma_mod_add_multiples_vanish(shift, len);
            }
        }
        self.grace_period_end_impl(&current_period)
    }

    fn grace_period_end_impl(&self, due_period: &Period) -> (r: Timestamp)
        requires
            due_period.wf(),
            due_period.till_spec() + self.interest_payment_spec.grace_period.nanos <= u64::MAX,
        ensures
            r.nanos == due_period.till_spec() + self.interest_payment_spec.grace_period.nanos,
    {
        due_period.till().plus(self.interest_payment_spec.grace_period())
    }
}

/// Waterfall ordering: a payment smaller than the sum of the first `k`
/// buckets allocates nothing to any bucket after the `k`-th, and leaves no
/// change.
pub proof fn lemma_waterfall_ordering(
    pay: int,
    o_i: int,
    o_m: int,
    d_i: int,
    d_m: int,
    prin: int,
    k: int,
)
    requires
        0 <= pay,
        0 <= o_i,
        0 <= o_m,
        0 <= d_i,
        0 <= d_m,
        0 <= prin,
        1 <= k <= 5,
        pay < (if k == 1 {
            o_i
        } else if k == 2 {
            o_i + o_m
        } else if k == 3 {
            o_i + o_m + d_i
        } else if k == 4 {
            o_i + o_m + d_i + d_m
        } else {
            o_i + o_m + d_i + d_m + prin
        }),
    ensures
        ({
            let alloc = waterfall(pay, o_i, o_m, d_i, d_m, prin);
            &&& k < 2 ==> alloc.1 == 0
            &&& k < 3 ==> alloc.2 == 0
            &&& k < 4 ==> alloc.3 == 0
            &&& k < 5 ==> alloc.4 == 0
            &&& alloc.5 == 0
        }),
{
}

/// The classifier only ever partitions: the overdue share never exceeds
/// the total owed over the same elapsed span, and both it and the due
/// remainder are non-negative.
pub proof fn lemma_overdue_within_total<Lpn, LppLoanT>(loan: &Loan<Lpn, LppLoanT>, now: int)
    where
        Lpn: Currency,
        LppLoanT: LppLoan<Lpn>,
    requires
        loan.wf(),
        loan.due_period.start.nanos <= now,
    ensures
        0 <= loan.overdue_interest_spec(now) <= loan.lpp_loan.interest_model(now),
        0 <= loan.overdue_margin_spec(now) <= accrual(
            loan.margin_units(),
            loan.lpp_loan.principal_model(),
            loan.elapsed(now),
        ),
        0 <= loan.due_interest_spec(now),
        0 <= loan.due_margin_spec(now),
{
    let units = loan.margin_units();
    let principal = loan.lpp_loan.principal_model();
    let len = loan.interest_payment_spec.due_period.nanos as int;
    loan.lpp_loan.principal_model_nonneg();
    loan.lpp_loan.interest_model_ordered(now, now);
    lemma_accrual_monotonic(units, principal, 0, loan.elapsed(now));
    if loan.overdue_started(now) {
        loan.lpp_loan.interest_model_ordered(now - len, now);
        lemma_accrual_monotonic(units, principal, len, loan.elapsed(now));
        lemma_accrual_monotonic(units, principal, 0, len);
    }
}

/// Overdue monotonicity: holding a loan unpaid, the overdue amounts never
/// shrink as time advances, and the classification flips from a countdown
/// to accrued amounts exactly once, the moment the elapsed span reaches the
/// billing period plus its grace window.
pub proof fn lemma_overdue_monotonic<Lpn, LppLoanT>(loan: &Loan<Lpn, LppLoanT>, t1: int, t2: int)
    where
        Lpn: Currency,
        LppLoanT: LppLoan<Lpn>,
    requires
        loan.wf(),
        loan.due_period.start.nanos <= t1 <= t2,
    ensures
        0 <= loan.overdue_interest_spec(t1) <= loan.overdue_interest_spec(t2),
        0 <= loan.overdue_margin_spec(t1) <= loan.overdue_margin_spec(t2),
        loan.overdue_started(t1) ==> loan.overdue_started(t2),
        loan.overdue_started(t1) <==> loan.elapsed(t1)
            >= loan.interest_payment_spec.due_period.nanos
            + loan.interest_payment_spec.grace_period.nanos,
{
    let units = loan.margin_units();
    let principal = loan.lpp_loan.principal_model();
    let len = loan.interest_payment_spec.due_period.nanos as int;
    loan.lpp_loan.principal_model_nonneg();
    if loan.overdue_started(t2) {
        loan.lpp_loan.interest_model_ordered(t2 - len, t2 - len);
        lemma_accrual_monotonic(units, principal, len, loan.elapsed(t2));
        if loan.overdue_started(t1) {
            loan.lpp_loan.interest_model_ordered(t1 - len, t2 - len);
            lemma_accrual_monotonic(units, principal, loan.elapsed(t1), loan.elapsed(t2));
            lemma_accrual_monotonic(units, principal, len, loan.elapsed(t1));
        }
    }
}

/// Full settlement: when nothing is overdue, paying the due interest, the
/// due margin and the whole principal plus a surplus allocates the
/// principal in full, hands the surplus back as change, and — margin being
/// owed at all — advances the margin period's start exactly to the payment
/// time.
pub proof fn lemma_full_settlement<Lpn, LppLoanT>(loan: &Loan<Lpn, LppLoanT>, now: int, surplus: int)
    where
        Lpn: Currency,
        LppLoanT: LppLoan<Lpn>,
    requires
        loan.wf(),
        loan.due_period.start.nanos <= now,
        loan.overdue_interest_spec(now) == 0,
        loan.overdue_margin_spec(now) == 0,
        0 <= surplus,
    ensures
        ({
            let d_i = loan.due_interest_spec(now);
            let d_m = loan.due_margin_spec(now);
            let prin = loan.lpp_loan.principal_model();
            let pay = d_i + d_m + prin + surplus;
            let alloc = waterfall(pay, 0, 0, d_i, d_m, prin);
            let margin_owed = accrual(loan.margin_units(), prin, loan.elapsed(now));
            &&& alloc.0 == 0
            &&& alloc.1 == 0
            &&& alloc.2 == d_i
            &&& alloc.3 == d_m
            &&& alloc.4 == prin
            &&& alloc.5 == surplus
            &&& margin_owed > 0 ==> loan.due_period.start.nanos + loan.elapsed(now) * (alloc.1
                + alloc.3) / margin_owed == now
        }),
{
    let units = loan.margin_units();
    let principal = loan.lpp_loan.principal_model();
    let elapsed = loan.elapsed(now);
    loan.lpp_loan.principal_model_nonneg();
    loan.lpp_loan.interest_model_ordered(now, now);
    lemma_accrual_monotonic(units, principal, 0, elapsed);
    let margin_owed = accrual(units, principal, elapsed);
    if margin_owed > 0 {
        assert(elapsed * margin_owed / margin_owed == elapsed) by (nonlinear_arith)
            requires
                margin_owed > 0,
        ;
    }
}

/// The given billing period rolled forward by one period length.
pub fn next_due_period(due_period: Period, payment_spec: &InterestPaymentSpec) -> (r: Period)
    requires
        due_period.wf(),
        due_period.till_spec() + payment_spec.due_period.nanos <= u64::MAX,
    ensures
        r.start.nanos == due_period.till_spec(),
        r.length == payment_spec.due_period,
        r.wf(),
{
    due_period.next(payment_spec.due_period())
}

} // verus!
