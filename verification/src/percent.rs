use vstd::prelude::*;

verus! {

/// The units of [`Percent`]: one unit is one per mille.
pub const PERMILLE: u32 = 1000;

/// `amount` scaled by a per-mille rate of `units`, rounded towards zero.
pub open spec fn percent_of(units: int, amount: int) -> int {
    amount * units / (PERMILLE as int)
}

/// A non-negative fraction in per-mille units, applied to monetary amounts.
///
/// A rate is annual: a rate "of" a principal yields the interest the
/// principal earns over one full year.
#[derive(Clone, Copy, Debug, PartialEq, Eq, Structural)]
pub struct Percent {
    pub units: u32,
}

impl Percent {
    pub fn from_percent(percent: u16) -> (r: Self)
        ensures
            r.units == percent * 10,
    {
        Self { units: (percent as u32) * 10 }
    }

    pub fn from_permille(units: u32) -> (r: Self)
        ensures
            r.units == units,
    {
        Self { units }
    }

    pub fn units(&self) -> (r: u32)
        ensures
            r == self.units,
    {
        self.units
    }

    /// This share of a plain amount, rounded towards zero.
    pub fn of_amount(&self, amount: u128) -> (r: u128)
        requires
            amount * self.units <= u128::MAX,
        ensures
            r == percent_of(self.units as int, amount as int),
    {
        (amount * (self.units as u128)) / (PERMILLE as u128)
    }
}

/// Scaling by a rate keeps the order of amounts.
pub proof fn lemma_percent_of_monotonic(units: int, a1: int, a2: int)
    requires
        0 <= units,
        0 <= a1 <= a2,
    ensures
        0 <= percent_of(units, a1) <= percent_of(units, a2),
{
    assert(0 <= a1 * units <= a2 * units) by (nonlinear_arith)
        requires
            0 <= units,
            0 <= a1 <= a2,
    ;
    vstd::arithmetic::div_mod::lemma_div_is_ordered(a1 * units, a2 * units, PERMILLE as int);
    vstd::arithmetic::div_mod::lemma_div_pos_is_pos(a1 * units, PERMILLE as int);
}

} // verus!
