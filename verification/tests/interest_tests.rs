use loan_core::coin::{Coin, Usdc};
use loan_core::duration::Duration;
use loan_core::interest::InterestPeriod;
use loan_core::percent::Percent;
use loan_core::timestamp::Timestamp;

type MyCoin = Coin<Usdc>;

fn period_start() -> Timestamp {
    Timestamp::from_nanos(0)
}

fn period_length() -> Duration {
    Duration::year()
}

#[test]
fn pay_zero_principal() {
    let p = Percent::from_percent(10);
    let principal = MyCoin::zero();
    let payment = MyCoin::new(300);
    let by = period_start().plus(period_length());
    pay_impl(p, principal, payment, by, period_start(), period_length(), payment);
}

#[test]
fn pay_zero_payment() {
    let p = Percent::from_percent(10);
    let principal = MyCoin::new(1000);
    let payment = MyCoin::zero();
    let by = period_start().plus(period_length());
    pay_impl(p, principal, payment, by, period_start(), period_length(), payment);
}

#[test]
fn pay_outside_period() {
    let p = Percent::from_percent(10);
    let principal = MyCoin::new(1000);
    let payment = MyCoin::new(345);
    let exp_change = MyCoin::new(payment.amount() - p.of(principal).amount());
    pay_impl(
        p,
        principal,
        payment,
        period_start().plus(period_length()).plus(period_length()),
        period_start().plus(period_length()),
        Duration::from_nanos(0),
        exp_change,
    );

    pay_impl(
        p,
        principal,
        payment,
        period_start(),
        period_start(),
        period_length(),
        payment,
    );
}

#[test]
fn pay_all_due() {
    let p = Percent::from_percent(10);
    let principal = MyCoin::new(1000);
    let payment = MyCoin::new(300);
    let by = period_start().plus(period_length());
    let exp_change = MyCoin::new(payment.amount() - p.of(principal).amount());
    pay_impl(p, principal, payment, by, by, Duration::from_nanos(0), exp_change);
}

#[test]
fn interest_full_period() {
    let p = Percent::from_percent(10);
    let principal = MyCoin::new(1000);
    assert_eq!(MyCoin::new(100), ip(p).interest(principal));
}

#[test]
fn interest_zero_rate() {
    let principal = MyCoin::new(1001);
    assert_eq!(MyCoin::zero(), ip(Percent::from_permille(0)).interest(principal));
}

fn pay_impl(
    p: Percent,
    principal: MyCoin,
    payment: MyCoin,
    by: Timestamp,
    exp_start: Timestamp,
    exp_length: Duration,
    exp_change: MyCoin,
) {
    let ip = ip(p);
    let (ip_res, change) = ip.pay(principal, payment, by);
    let ip_exp = InterestPeriod::with_interest(p).from(exp_start).spanning(exp_length);
    assert_eq!(ip_exp, ip_res);
    assert_eq!(exp_change, change);
}

fn ip(p: Percent) -> InterestPeriod {
    InterestPeriod::with_interest(p).from(period_start()).spanning(period_length())
}
