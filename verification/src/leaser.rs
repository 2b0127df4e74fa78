use vstd::prelude::*;

use crate::error::{ContractError, ContractResult};
use crate::percent::Percent;

verus! {

/// The repayment cadence of a lease: the billing period and its grace
/// window, both in seconds.
#[derive(Clone, Copy, Debug, PartialEq, Eq, Structural)]
pub struct Repayment {
    pub period_sec: u32,
    pub grace_period_sec: u32,
}

impl Repayment {
    pub fn new(period_sec: u32, grace_period_sec: u32) -> (r: Self)
        ensures
            r.period_sec == period_sec,
            r.grace_period_sec == grace_period_sec,
    {
        Repayment { period_sec, grace_period_sec }
    }

    /// A period is valid exactly when it is longer than its grace window.
    pub fn validate_period(&self) -> (r: ContractResult<()>)
        ensures
            r is Ok <==> self.period_sec > self.grace_period_sec,
            r matches Err(e) ==> e == ContractError::Validation,
    {
        if self.period_sec > self.grace_period_sec {
            Ok(())
        } else {
            Err(ContractError::Validation)
        }
    }
}

/// An amount tagged with the ticker of its currency, as carried in
/// queries and their answers.
#[derive(Clone, Debug, PartialEq, Eq)]
pub struct CoinDTO {
    pub amount: u128,
    pub ticker: String,
}

/// The leaser's configuration: what every lease it opens is parameterized
/// with.
#[derive(Clone, Debug, PartialEq, Eq)]
pub struct Config {
    pub lease_code_id: u64,
    pub lease_interest_rate_margin: Percent,
    /// The initial percentage of the amount due versus the collateral.
    pub liability_initial: u8,
    pub liability_healthy: u8,
    pub liability_max: u8,
    pub recalc_hours: u16,
    pub repayment: Repayment,
}

#[derive(Clone, Debug, PartialEq, Eq)]
pub struct ConfigResponse {
    pub config: Config,
}

/// The answer to a borrow quote: how much would be lent against the
/// downpayment, the position's total, and the pool's current rate.
#[derive(Clone, Debug, PartialEq, Eq)]
pub struct QuoteResponse {
    pub total: CoinDTO,
    pub borrow: CoinDTO,
    pub annual_interest_rate: Percent,
}

/// The leaser: computes borrow quotes from its configuration.
pub struct Leaser {

}

impl Leaser {
    /// How much the pool would lend against `downpayment`:
    /// `borrow = initial% * downpayment / (100% - initial%)`, so that the
    /// downpayment is exactly the initial liability share of the total.
    /// An empty downpayment is rejected.
    pub fn quote(config: &Config, downpayment: CoinDTO, annual_interest_rate: Percent) -> (r:
        ContractResult<QuoteResponse>)
        requires
            0 < config.liability_initial < 100,
            downpayment.amount * config.liability_initial <= u128::MAX,
            downpayment.amount * config.liability_initial / (100 - config.liability_initial)
                + downpayment.amount <= u128::MAX,
        ensures
            r is Ok <==> downpayment.amount > 0,
            r matches Err(e) ==> e == ContractError::ZeroDownpayment,
            r matches Ok(q) ==> {
                let borrow = downpayment.amount * config.liability_initial / (100
                    - config.liability_initial);
                &&& q.borrow.amount == borrow
                &&& q.total.amount == borrow + downpayment.amount
                &&& q.borrow.ticker@ == downpayment.ticker@
                &&& q.total.ticker@ == downpayment.ticker@
                &&& q.annual_interest_rate == annual_interest_rate
            },
    {
        if downpayment.amount == 0 {
            return Err(ContractError::ZeroDownpayment);
        }
        let numerator = downpayment.amount * (config.liability_initial as u128);
        let denominator = (100 - config.liability_initial) as u128;
        let borrow_amount = numerator / denominator;
        let total_amount = borrow_amount + downpayment.amount;
        Ok(QuoteResponse {
            total: CoinDTO { amount: total_amount, ticker: downpayment.ticker.clone() },
            borrow: CoinDTO { amount: borrow_amount, ticker: downpayment.ticker },
            annual_interest_rate,
        })
    }
}

} // verus!
