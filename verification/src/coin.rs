use core::marker::PhantomData;

use vstd::prelude::*;

use crate::percent::{percent_of, Percent};

verus! {

/// A marker for one currency. Amounts of different currencies cannot meet in
/// any arithmetic: the tag keeps them apart at compile time.
pub trait Currency: Copy {

}

/// A stablecoin used as the loan-pool's native currency in tests.
#[derive(Clone, Copy, Debug, PartialEq, Eq)]
pub struct StableC1;

impl Currency for StableC1 {

}

/// A plain test currency.
#[derive(Clone, Copy, Debug, PartialEq, Eq)]
pub struct Usdc;

impl Currency for Usdc {

}

/// The platform's native currency, in which rewards are paid out.
#[derive(Clone, Copy, Debug, PartialEq, Eq)]
pub struct NlsPlatform;

impl Currency for NlsPlatform {

}

/// A non-negative integer quantity tagged with a currency.
///
/// Arithmetic is defined only between same-currency values; an operation
/// that would go below zero or overflow is ruled out by precondition rather
/// than saturated.
#[derive(Copy, Debug, PartialEq, Eq)]
pub struct Coin<C>
where
    C: Currency,
{
    pub amount: u128,
    pub currency: PhantomData<C>,
}

impl<C> Clone for Coin<C> where C: Currency {
    fn clone(&self) -> (r: Self)
        ensures
            r == *self,
    {
        Self { amount: self.amount, currency: PhantomData }
    }
}

impl<C> Coin<C> where C: Currency {
    pub fn new(amount: u128) -> (r: Self)
        ensures
            r.amount == amount,
    {
        Self { amount, currency: PhantomData }
    }

    pub fn zero() -> (r: Self)
        ensures
            r.amount == 0,
    {
        Self::new(0)
    }

    pub fn amount(&self) -> (r: u128)
        ensures
            r == self.amount,
    {
        self.amount
    }

    pub fn is_zero(&self) -> (r: bool)
        ensures
            r <==> self.amount == 0,
    {
        self.amount == 0
    }

    pub fn plus(self, other: Self) -> (r: Self)
        requires
            self.amount + other.amount <= u128::MAX,
        ensures
            r.amount == self.amount + other.amount,
    {
        Self::new(self.amount + other.amount)
    }

    pub fn minus(self, other: Self) -> (r: Self)
        requires
            other.amount <= self.amount,
        ensures
            r.amount == self.amount - other.amount,
    {
        Self::new(self.amount - other.amount)
    }

    pub fn min(self, other: Self) -> (r: Self)
        ensures
            r.amount == vstd::math::min(self.amount as int, other.amount as int),
    {
        if self.amount <= other.amount {
            self
        } else {
            other
        }
    }
}

impl Percent {
    /// This share of `coin`, rounded towards zero.
    pub fn of<C>(&self, coin: Coin<C>) -> (r: Coin<C>)
        where C: Currency,
        requires
            coin.amount * self.units <= u128::MAX,
        ensures
            r.amount == percent_of(self.units as int, coin.amount as int),
    {
        Coin::new(self.of_amount(coin.amount))
    }
}

impl<C> From<u128> for Coin<C> where C: Currency {
    fn from(amount: u128) -> (r: Self) {
        Self::new(amount)
    }
}

impl<C> vstd::std_specs::convert::FromSpecImpl<u128> for Coin<C> where C: Currency {
    open spec fn obeys_from_spec() -> bool {
        true
    }

    open spec fn from_spec(amount: u128) -> Self {
        Coin { amount, currency: PhantomData }
    }
}

} // verus!
