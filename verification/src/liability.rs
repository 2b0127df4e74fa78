use vstd::prelude::*;

use crate::error::{ContractError, ContractResult};

verus! {

/// Seconds in one hour: the smallest allowed recalculation cadence.
pub const SECS_IN_HOUR: u32 = 60 * 60;

/// The liability bounds of a lease: the initial, healthy and maximum
/// percentage of the amount due versus the locked collateral, and the
/// cadence at which the liability is recalculated.
#[derive(Clone, Copy, Debug, PartialEq, Eq, Structural)]
pub struct Liability {
    /// The initial percentage of the amount due versus the locked
    /// collateral. Always positive.
    pub init_percent: u8,
    /// The healthy percentage: never below the initial one.
    pub healthy_percent: u8,
    /// The maximum percentage: always above the healthy one.
    pub max_percent: u8,
    /// The recalculation cadence in seconds: at least one hour.
    pub recalc_secs: u32,
}

impl Liability {
    pub fn new(
        init_percent: u8,
        delta_to_healthy_percent: u8,
        delta_to_max_percent: u8,
        recalc_hours: u16,
    ) -> (r: Self)
        requires
            init_percent > 0,
            delta_to_max_percent > 0,
            init_percent + delta_to_healthy_percent <= u8::MAX,
            init_percent + delta_to_healthy_percent + delta_to_max_percent <= u8::MAX,
            recalc_hours > 0,
        ensures
            r.init_percent == init_percent,
            r.healthy_percent == init_percent + delta_to_healthy_percent,
            r.max_percent == init_percent + delta_to_healthy_percent + delta_to_max_percent,
            r.recalc_secs == recalc_hours * SECS_IN_HOUR,
            r.invariant_spec(),
    {
        let healthy_percent = init_percent + delta_to_healthy_percent;
        let max_percent = healthy_percent + delta_to_max_percent;
        Self {
            init_percent,
            healthy_percent,
            max_percent,
            recalc_secs: (recalc_hours as u32) * SECS_IN_HOUR,
        }
    }

    /// The bounds are ordered and the cadence is at least an hour.
    pub open spec fn invariant_spec(&self) -> bool {
        &&& self.init_percent > 0
        &&& self.healthy_percent >= self.init_percent
        &&& self.max_percent > self.healthy_percent
        &&& self.recalc_secs >= SECS_IN_HOUR
    }

    pub fn invariant_held(&self) -> (r: ContractResult<()>)
        ensures
            r is Ok <==> self.invariant_spec(),
            r matches Err(e) ==> e == ContractError::BrokenInvariant,
    {
        if self.init_percent > 0 && self.healthy_percent >= self.init_percent
            && self.max_percent > self.healthy_percent && self.recalc_secs >= SECS_IN_HOUR {
            Ok(())
        } else {
            Err(ContractError::BrokenInvariant)
        }
    }
}

} // verus!
