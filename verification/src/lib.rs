//! Loan-accounting core of a lending protocol.
//!
//! The library tracks one borrower's outstanding debt over time and
//! deterministically allocates every payment across interest, margin and
//! principal buckets while rolling a recurring billing period forward.
//!
//! The building blocks, leaf first:
//! - [`duration`], [`timestamp`], [`period`]: fixed-point time primitives;
//! - [`percent`], [`coin`]: per-mille rates and currency-tagged amounts;
//! - [`interest`]: a time period tagged with an interest rate, supporting
//!   partial payment that proportionally shrinks the period;
//! - [`lpp`]: the loan ledger, the authoritative record of principal and
//!   base-rate interest;
//! - [`loan`]: the aggregate that classifies debt into due and overdue and
//!   applies the payment waterfall;
//! - [`receipt`]: the order-preserving breakdown of one payment.

pub mod bank;
pub mod coin;
pub mod duration;
pub mod error;
pub mod interest;
pub mod leaser;
pub mod liability;
pub mod loan;
pub mod lpp;
pub mod market_price;
pub mod percent;
pub mod period;
pub mod profit;
pub mod receipt;
pub mod timestamp;
