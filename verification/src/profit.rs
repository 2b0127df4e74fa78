use vstd::prelude::*;

use crate::bank::FixedAddressSender;
use crate::coin::{Coin, Currency};

verus! {

/// The protocol's profit collector: the margin recipient of every loan.
///
/// It queues each margin transfer handed to it, like the batch of bank
/// messages the surrounding contract would flush at the end of a call.
#[derive(Clone, Debug, PartialEq, Eq)]
pub struct Profit<Lpn>
where
    Lpn: Currency,
{
    pub sent: Vec<Coin<Lpn>>,
}

impl<Lpn> Profit<Lpn> where Lpn: Currency {
    /// A collector with nothing queued yet.
    pub fn new() -> (r: Self)
        ensures
            r.sent@ =~= Seq::<Coin<Lpn>>::empty(),
    {
        Self { sent: Vec::new() }
    }
}

impl<Lpn> FixedAddressSender<Lpn> for Profit<Lpn> where Lpn: Currency {
    open spec fn sent_model(&self) -> Seq<Coin<Lpn>> {
        self.sent@
    }

    fn send(&mut self, amount: Coin<Lpn>) {
        self.sent.push(amount);
    }
}

} // verus!
