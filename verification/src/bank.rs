use vstd::prelude::*;

use crate::coin::{Coin, Currency};
use crate::error::ContractResult;

verus! {

/// A read-only view of a bank account's balances.
pub trait BankAccountView {
    fn balance<C>(&self) -> ContractResult<Coin<C>> where C: Currency;
}

/// A write-only sink bound to one fixed recipient: queues a transfer of
/// each amount handed to it. Delivery is the recipient's concern; the model
/// records only what was queued, in order.
pub trait FixedAddressSender<Lpn>: Sized where Lpn: Currency {
    /// The amounts queued so far, oldest first.
    spec fn sent_model(&self) -> Seq<Coin<Lpn>>;

    fn send(&mut self, amount: Coin<Lpn>)
        ensures
            final(self).sent_model() == old(self).sent_model().push(amount),
    ;
}

} // verus!
