use vstd::prelude::*;

use crate::coin::{Coin, Currency};

verus! {

/// An immutable, order-preserving breakdown of one payment into buckets:
/// overdue interest, overdue margin, due interest, due margin, principal,
/// and change. The six fields sum exactly to the payment they came from.
#[derive(Clone, Copy, Debug, PartialEq, Eq)]
pub struct RepayReceipt<Lpn>
where
    Lpn: Currency,
{
    pub overdue_interest: Coin<Lpn>,
    pub overdue_margin: Coin<Lpn>,
    pub due_interest: Coin<Lpn>,
    pub due_margin: Coin<Lpn>,
    pub principal: Coin<Lpn>,
    pub change: Coin<Lpn>,
    pub close: bool,
}

impl<Lpn> RepayReceipt<Lpn> where Lpn: Currency {
    /// The sum of all six buckets, as a mathematical value.
    pub open spec fn total_spec(&self) -> int {
        self.overdue_interest.amount + self.overdue_margin.amount + self.due_interest.amount
            + self.due_margin.amount + self.principal.amount + self.change.amount
    }

    pub fn pay_overdue_interest(&mut self, amount: Coin<Lpn>)
        ensures
            *final(self) == (RepayReceipt { overdue_interest: amount, ..*old(self) }),
    {
        self.overdue_interest = amount;
    }

    pub fn pay_overdue_margin(&mut self, amount: Coin<Lpn>)
        ensures
            *final(self) == (RepayReceipt { overdue_margin: amount, ..*old(self) }),
    {
        self.overdue_margin = amount;
    }

    pub fn pay_due_interest(&mut self, amount: Coin<Lpn>)
        ensures
            *final(self) == (RepayReceipt { due_interest: amount, ..*old(self) }),
    {
        self.due_interest = amount;
    }

    pub fn pay_due_margin(&mut self, amount: Coin<Lpn>)
        ensures
            *final(self) == (RepayReceipt { due_margin: amount, ..*old(self) }),
    {
        self.due_margin = amount;
    }

    /// Records the principal bucket. What is assigned to principal never
    /// exceeds the principal due at the time of allocation; the loan closes
    /// exactly when the two are equal.
    pub fn pay_principal(&mut self, principal_due: Coin<Lpn>, paid: Coin<Lpn>)
        requires
            paid.amount <= principal_due.amount,
        ensures
            *final(self) == (RepayReceipt {
                principal: paid,
                close: paid.amount == principal_due.amount,
                ..*old(self)
            }),
    {
        let close = paid.amount() == principal_due.amount();
        self.principal = paid;
        self.close = close;
    }

    pub fn keep_change(&mut self, amount: Coin<Lpn>)
        ensures
            *final(self) == (RepayReceipt { change: amount, ..*old(self) }),
    {
        self.change = amount;
    }

    pub fn overdue_interest_paid(&self) -> (r: Coin<Lpn>)
        ensures
            r == self.overdue_interest,
    {
        self.overdue_interest
    }

    pub fn overdue_margin_paid(&self) -> (r: Coin<Lpn>)
        ensures
            r == self.overdue_margin,
    {
        self.overdue_margin
    }

    pub fn due_interest_paid(&self) -> (r: Coin<Lpn>)
        ensures
            r == self.due_interest,
    {
        self.due_interest
    }

    pub fn due_margin_paid(&self) -> (r: Coin<Lpn>)
        ensures
            r == self.due_margin,
    {
        self.due_margin
    }

    pub fn principal_paid(&self) -> (r: Coin<Lpn>)
        ensures
            r == self.principal,
    {
        self.principal
    }

    pub fn change(&self) -> (r: Coin<Lpn>)
        ensures
            r == self.change,
    {
        self.change
    }

    /// Whether the payment extinguished the whole principal.
    pub fn close(&self) -> (r: bool)
        ensures
            r == self.close,
    {
        self.close
    }

    /// The sum of all six buckets: exactly the payment that produced the
    /// receipt.
    pub fn total(&self) -> (r: Coin<Lpn>)
        requires
            self.total_spec() <= u128::MAX,
        ensures
            r.amount == self.total_spec(),
    {
        self.overdue_interest
            .plus(self.overdue_margin)
            .plus(self.due_interest)
            .plus(self.due_margin)
            .plus(self.principal)
            .plus(self.change)
    }
}

impl<Lpn> Default for RepayReceipt<Lpn> where Lpn: Currency {
    /// The empty receipt: every bucket zero, the loan open.
    fn default() -> (r: Self)
        ensures
            r.overdue_interest.amount == 0,
            r.overdue_margin.amount == 0,
            r.due_interest.amount == 0,
            r.due_margin.amount == 0,
            r.principal.amount == 0,
            r.change.amount == 0,
            !r.close,
    {
        Self {
            overdue_interest: Coin::zero(),
            overdue_margin: Coin::zero(),
            due_interest: Coin::zero(),
            due_margin: Coin::zero(),
            principal: Coin::zero(),
            change: Coin::zero(),
            close: false,
        }
    }
}

} // verus!
