use loan_core::coin::{Coin, StableC1};
use loan_core::duration::Duration;
use loan_core::interest::InterestPeriod;
use loan_core::loan::{InterestPaymentSpec, Loan, Overdue, State};
use loan_core::lpp::{LoanResponse, LppLoan};
use loan_core::percent::Percent;
use loan_core::period::Period;
use loan_core::timestamp::Timestamp;

type Lpn = StableC1;
type TestLoan = Loan<Lpn, LoanResponse<Lpn>>;

fn margin_interest_rate() -> Percent {
    Percent::from_permille(50)
}

fn lease_start() -> Timestamp {
    Timestamp::from_nanos(100)
}

fn create_loan_custom(
    annual_margin_interest: Percent,
    loan: LoanResponse<Lpn>,
    due_start: Timestamp,
    due_period: Duration,
) -> TestLoan {
    Loan::new(
        due_start,
        loan,
        annual_margin_interest,
        InterestPaymentSpec::new(due_period, Duration::from_secs(0)),
    )
}

fn test_state(interest_paid_by: Timestamp, margin_paid_by: Timestamp, now: Timestamp) {
    let principal_due = Coin::new(10000);
    let due_period_len = Duration::year();
    let annual_interest_margin = margin_interest_rate();
    let annual_interest = Percent::from_permille(145);

    let loan_resp = LoanResponse {
        principal_due,
        annual_interest_rate: annual_interest,
        interest_paid: interest_paid_by,
    };

    let loan = create_loan_custom(annual_interest_margin, loan_resp, margin_paid_by, due_period_len);
    let due_period_margin = Period::from_till(margin_paid_by, now);
    let lpp_loan = loan_resp;
    let overdue = Overdue::new(
        &due_period_margin,
        due_period_len,
        Duration::from_secs(0),
        annual_interest_margin,
        &lpp_loan,
    );
    let due_period = Period::till_length(
        due_period_margin.till(),
        due_period_len.min(due_period_margin.length()),
    );
    let expected_margin_due = interest(due_period, principal_due, annual_interest_margin);
    let expected_interest_due = Coin::new(
        lpp_loan.interest_due(due_period_margin.till()).amount() - overdue.interest().amount(),
    );

    assert_eq!(
        State {
            annual_interest,
            annual_interest_margin,
            principal_due,
            due_interest: expected_interest_due,
            due_margin_interest: expected_margin_due,
            overdue,
        },
        loan.state(now),
        "Got different state than expected!",
    );
}

fn test_states_paid_by(since_paid: Duration) {
    test_state(lease_start(), lease_start(), lease_start().plus(since_paid));
    test_state(
        lease_start(),
        lease_start().plus(since_paid),
        lease_start().plus(since_paid),
    );
    test_state(
        lease_start().plus(since_paid),
        lease_start(),
        lease_start().plus(since_paid),
    );
}

fn interest(period: Period, principal_due: Coin<Lpn>, rate: Percent) -> Coin<Lpn> {
    InterestPeriod::with_interest(rate).and_period(period).interest(principal_due)
}

#[test]
fn state_at_open() {
    test_states_paid_by(Duration::from_nanos(0))
}

#[test]
fn state_in_aday() {
    test_states_paid_by(Duration::from_days(1));
}

#[test]
fn state_in_half_due_period() {
    test_states_paid_by(Duration::from_days(188));
}

#[test]
fn state_year() {
    test_states_paid_by(Duration::year())
}

#[test]
fn state_year_plus_day() {
    test_states_paid_by(Duration::year().plus(Duration::from_days(1)))
}

#[test]
fn state_year_minus_day() {
    test_states_paid_by(Duration::year().minus(Duration::from_days(1)))
}

#[test]
fn state_two_years_plus_day() {
    test_states_paid_by(Duration::year().plus(Duration::year()).plus(Duration::from_days(1)))
}
