use loan_core::coin::{Coin, StableC1};
use loan_core::duration::Duration;
use loan_core::error::ContractError;
use loan_core::leaser::{CoinDTO, Config, Leaser, Repayment};
use loan_core::loan::{InterestPaymentSpec, Loan, Overdue};
use loan_core::lpp::LoanResponse;
use loan_core::percent::Percent;
use loan_core::profit::Profit;
use loan_core::timestamp::Timestamp;

type Lpn = StableC1;
type TestLoan = Loan<Lpn, LoanResponse<Lpn>>;

fn coin(amount: u128) -> Coin<Lpn> {
    Coin::new(amount)
}

fn open_loan(
    principal: u128,
    margin_rate: Percent,
    loan_rate: Percent,
    start: Timestamp,
    due_period: Duration,
    grace_period: Duration,
) -> TestLoan {
    Loan::new(
        start,
        LoanResponse {
            principal_due: coin(principal),
            annual_interest_rate: loan_rate,
            interest_paid: start,
        },
        margin_rate,
        InterestPaymentSpec::new(due_period, grace_period),
    )
}

/// Principal 1000 at 50.0% p.a. with a 5.0% margin, left unpaid for two
/// years: one full year is overdue, the second year is due; a payment of
/// 490 goes to overdue interest alone and leaves no change.
#[test]
fn two_years_unpaid_then_partial_overdue_payment() {
    let t0 = Timestamp::from_nanos(0);
    let mut loan = open_loan(
        1000,
        Percent::from_permille(50),
        Percent::from_permille(500),
        t0,
        Duration::year(),
        Duration::from_secs(0),
    );
    let now = t0.plus(Duration::year()).plus(Duration::year());

    let before = loan.state(now);
    assert_eq!(
        Overdue::Accrued { interest: coin(500), margin: coin(50) },
        before.overdue
    );
    assert_eq!(coin(500), before.due_interest);
    assert_eq!(coin(50), before.due_margin_interest);
    assert_eq!(coin(1000), before.principal_due);

    let mut profit: Profit<Lpn> = Profit::new();
    let receipt = loan.repay(coin(490), now, &mut profit).unwrap();
    assert_eq!(coin(490), receipt.overdue_interest_paid());
    assert_eq!(coin(0), receipt.overdue_margin_paid());
    assert_eq!(coin(0), receipt.due_interest_paid());
    assert_eq!(coin(0), receipt.due_margin_paid());
    assert_eq!(coin(0), receipt.principal_paid());
    assert_eq!(coin(0), receipt.change());

    let after = loan.state(now);
    assert_eq!(
        Overdue::Accrued { interest: coin(10), margin: coin(50) },
        after.overdue
    );
}

/// A payment smaller than the sum of the first buckets allocates nothing
/// to the buckets after them: 520 against (500, 50, 500, 50, 1000) fills
/// overdue interest and part of overdue margin only.
#[test]
fn waterfall_respects_bucket_order() {
    let t0 = Timestamp::from_nanos(0);
    let mut loan = open_loan(
        1000,
        Percent::from_permille(50),
        Percent::from_permille(500),
        t0,
        Duration::year(),
        Duration::from_secs(0),
    );
    let now = t0.plus(Duration::year()).plus(Duration::year());

    let mut profit: Profit<Lpn> = Profit::new();
    let receipt = loan.repay(coin(520), now, &mut profit).unwrap();
    assert_eq!(coin(500), receipt.overdue_interest_paid());
    assert_eq!(coin(20), receipt.overdue_margin_paid());
    assert_eq!(coin(0), receipt.due_interest_paid());
    assert_eq!(coin(0), receipt.due_margin_paid());
    assert_eq!(coin(0), receipt.principal_paid());
    assert_eq!(coin(0), receipt.change());
    assert!(!receipt.close());
}

/// Paying due interest + due margin + principal + surplus with no overdue
/// settles the loan: principal fully allocated, the surplus handed back,
/// and the margin period advanced to start exactly at the payment time.
#[test]
fn full_settlement_returns_surplus_and_advances_period() {
    let t0 = Timestamp::from_nanos(0);
    let mut loan = open_loan(
        1000,
        Percent::from_permille(50),
        Percent::from_permille(500),
        t0,
        Duration::year(),
        Duration::from_secs(0),
    );
    let now = t0.plus(Duration::year());

    let before = loan.state(now);
    assert_eq!(
        Overdue::Accrued { interest: coin(0), margin: coin(0) },
        before.overdue
    );
    assert_eq!(coin(500), before.due_interest);
    assert_eq!(coin(50), before.due_margin_interest);

    let mut profit: Profit<Lpn> = Profit::new();
    let receipt = loan.repay(coin(500 + 50 + 1000 + 7), now, &mut profit).unwrap();
    assert_eq!(coin(500), receipt.due_interest_paid());
    assert_eq!(coin(50), receipt.due_margin_paid());
    assert_eq!(coin(1000), receipt.principal_paid());
    assert_eq!(coin(7), receipt.change());
    assert!(receipt.close());

    assert_eq!(now, loan.due_period.start());
    let after = loan.state(now);
    assert_eq!(coin(0), after.principal_due);
    assert_eq!(Overdue::StartIn(Duration::year()), after.overdue);
}

/// The overdue classification counts down through the whole grace window
/// and flips to accrued amounts exactly when the window expires.
#[test]
fn overdue_transition_honors_grace_window() {
    let t0 = Timestamp::from_nanos(0);
    let grace = Duration::hour();
    let loan = open_loan(
        1000,
        Percent::from_permille(50),
        Percent::from_permille(500),
        t0,
        Duration::year(),
        grace,
    );

    let in_period = loan.state(t0.plus(Duration::from_days(3)));
    assert_eq!(
        Overdue::StartIn(Duration::year().plus(grace).minus(Duration::from_days(3))),
        in_period.overdue
    );

    let in_grace = loan.state(t0.plus(Duration::year()).plus(Duration::from_nanos(1)));
    assert_eq!(
        Overdue::StartIn(grace.minus(Duration::from_nanos(1))),
        in_grace.overdue
    );

    let at_expiry = loan.state(t0.plus(Duration::year()).plus(grace));
    assert!(matches!(at_expiry.overdue, Overdue::Accrued { .. }));
}

/// The accrued overdue amounts only grow while the loan stays unpaid.
#[test]
fn overdue_amounts_grow_while_unpaid() {
    let t0 = Timestamp::from_nanos(0);
    let loan = open_loan(
        1000,
        Percent::from_permille(50),
        Percent::from_permille(500),
        t0,
        Duration::year(),
        Duration::from_secs(0),
    );
    let s1 = loan.state(t0.plus(Duration::year()).plus(Duration::from_days(40)));
    let s2 = loan.state(t0.plus(Duration::year()).plus(Duration::from_days(300)));
    assert!(s1.overdue.interest().amount() <= s2.overdue.interest().amount());
    assert!(s1.overdue.margin().amount() <= s2.overdue.margin().amount());
    assert_eq!(coin(54), s1.overdue.interest());
    assert_eq!(coin(410), s2.overdue.interest());
    assert_eq!(coin(5), s1.overdue.margin());
    assert_eq!(coin(41), s2.overdue.margin());
}

#[test]
fn grace_period_end_rolls_forward() {
    let t0 = Timestamp::from_nanos(0);
    let grace = Duration::hour();
    let loan = open_loan(
        1000,
        Percent::from_permille(50),
        Percent::from_permille(500),
        t0,
        Duration::year(),
        grace,
    );
    let first_end = t0.plus(Duration::year()).plus(grace);
    assert_eq!(first_end, loan.grace_period_end());
    assert_eq!(first_end, loan.next_grace_period_end(&t0.plus(Duration::from_days(10))));
    assert_eq!(
        first_end.plus(Duration::year()),
        loan.next_grace_period_end(&first_end)
    );
    assert_eq!(
        first_end.plus(Duration::year()).plus(Duration::year()),
        loan.next_grace_period_end(&first_end.plus(Duration::year()))
    );
}

#[test]
fn quote_computes_borrow_from_initial_liability() {
    let config = Config {
        lease_code_id: 7,
        lease_interest_rate_margin: Percent::from_percent(3),
        liability_initial: 40,
        liability_healthy: 50,
        liability_max: 80,
        recalc_hours: 24,
        repayment: Repayment::new(7776000, 864000),
    };
    let downpayment = CoinDTO { amount: 1000, ticker: String::from("UST") };
    let quote = Leaser::quote(&config, downpayment, Percent::from_percent(10)).unwrap();
    assert_eq!(666, quote.borrow.amount);
    assert_eq!(1666, quote.total.amount);
    assert_eq!("UST", quote.borrow.ticker);
    assert_eq!("UST", quote.total.ticker);
    assert_eq!(Percent::from_percent(10), quote.annual_interest_rate);
}

#[test]
fn quote_rejects_zero_downpayment() {
    let config = Config {
        lease_code_id: 7,
        lease_interest_rate_margin: Percent::from_percent(3),
        liability_initial: 40,
        liability_healthy: 50,
        liability_max: 80,
        recalc_hours: 24,
        repayment: Repayment::new(7776000, 864000),
    };
    let downpayment = CoinDTO { amount: 0, ticker: String::from("UST") };
    assert_eq!(
        Err(ContractError::ZeroDownpayment),
        Leaser::quote(&config, downpayment, Percent::from_percent(10))
    );
}

#[test]
fn validate_period_requires_longer_period() {
    assert_eq!(Ok(()), Repayment::new(7776000, 864000).validate_period());
    assert_eq!(
        Err(ContractError::Validation),
        Repayment::new(864000, 7776000).validate_period()
    );
    assert_eq!(
        Err(ContractError::Validation),
        Repayment::new(864000, 864000).validate_period()
    );
}

/// A zero payment consumes nothing, changes nothing, and still conserves:
/// all six receipt buckets are zero.
#[test]
fn zero_payment_is_a_conserving_no_op() {
    let t0 = Timestamp::from_nanos(0);
    let mut loan = open_loan(
        1000,
        Percent::from_permille(50),
        Percent::from_permille(500),
        t0,
        Duration::year(),
        Duration::from_secs(0),
    );
    let now = t0.plus(Duration::from_days(10));
    let before = loan.state(now);
    let mut profit: Profit<Lpn> = Profit::new();
    let receipt = loan.repay(coin(0), now, &mut profit).unwrap();
    assert_eq!(coin(0), receipt.total());
    assert_eq!(before, loan.state(now));
}

/// The state at the origination instant: nothing has accrued yet and the
/// whole first billing period is still to come.
#[test]
fn state_at_origination_instant() {
    let t0 = Timestamp::from_nanos(77);
    let loan = open_loan(
        1000,
        Percent::from_permille(50),
        Percent::from_permille(500),
        t0,
        Duration::year(),
        Duration::from_secs(0),
    );
    let st = loan.state(t0);
    assert_eq!(coin(0), st.due_interest);
    assert_eq!(coin(0), st.due_margin_interest);
    assert_eq!(Overdue::StartIn(Duration::year()), st.overdue);
}

/// The arithmetic stays exact at the largest principal the rate bound
/// admits: a year's interest of one unit per two nanoseconds.
#[test]
fn large_principal_accrues_exactly() {
    let t0 = Timestamp::from_nanos(0);
    let principal: u128 = 31_536_000_000_000_000;
    let loan = open_loan(
        principal,
        Percent::from_permille(50),
        Percent::from_permille(500),
        t0,
        Duration::year(),
        Duration::from_secs(0),
    );
    let st = loan.state(t0.plus(Duration::from_days(73)));
    // one fifth of a year at 50.0% p.a.
    assert_eq!(coin(principal / 10), st.due_interest);
    // one fifth of a year at 5.0% p.a.
    assert_eq!(coin(principal / 100), st.due_margin_interest);
}

#[test]
fn error_messages_name_the_failure() {
    assert!(ContractError::RepayInconsistency.message().contains("ledger"));
    assert!(ContractError::ZeroDownpayment.message().contains("downpayment"));
}
