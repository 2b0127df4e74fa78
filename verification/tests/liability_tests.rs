use loan_core::error::ContractError;
use loan_core::liability::{Liability, SECS_IN_HOUR};

#[test]
fn new_valid() {
    let obj = Liability::new(10, 0, 5, 20);
    assert_eq!(
        Liability {
            init_percent: 10,
            healthy_percent: 10,
            max_percent: 15,
            recalc_secs: 20 * SECS_IN_HOUR,
        },
        obj,
    );
    assert_eq!(Ok(()), obj.invariant_held());
}

#[test]
fn new_edge_case() {
    let obj = Liability::new(1, 0, 1, 1);
    assert_eq!(
        Liability {
            init_percent: 1,
            healthy_percent: 1,
            max_percent: 2,
            recalc_secs: SECS_IN_HOUR,
        },
        obj,
    );
    assert_eq!(Ok(()), obj.invariant_held());
}

#[test]
fn unordered_bounds_fail_invariant() {
    let broken = Liability {
        init_percent: 40,
        healthy_percent: 30,
        max_percent: 20,
        recalc_secs: 36000,
    };
    assert_eq!(Err(ContractError::BrokenInvariant), broken.invariant_held());
}

#[test]
fn short_recalc_cadence_fails_invariant() {
    let broken = Liability {
        init_percent: 10,
        healthy_percent: 20,
        max_percent: 30,
        recalc_secs: SECS_IN_HOUR - 1,
    };
    assert_eq!(Err(ContractError::BrokenInvariant), broken.invariant_held());
}
