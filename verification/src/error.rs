use vstd::prelude::*;

verus! {

/// The failure classes of the library.
///
/// Precondition violations and arithmetic domain errors are ruled out by the
/// functions' contracts and never reach a caller; the variants here are what
/// a caller can observe.
#[derive(Clone, Copy, Debug, PartialEq, Eq, Structural)]
pub enum ContractError {
    /// A value failed its own invariant.
    BrokenInvariant,
    /// A configuration value failed validation.
    Validation,
    /// A lease cannot open on an empty downpayment.
    ZeroDownpayment,
    /// The loan ledger's repayment split disagrees with the locally computed
    /// one: the two views of the debt have diverged.
    RepayInconsistency,
}

pub type ContractResult<T> = Result<T, ContractError>;

impl ContractError {
    /// A short account of the failure, for surfaces that print errors.
    pub fn message(&self) -> (r: &'static str) {
        match self {
            ContractError::BrokenInvariant => "a value failed its own invariant",
            ContractError::Validation => "a configuration value failed validation",
            ContractError::ZeroDownpayment => "cannot open lease with zero downpayment",
            ContractError::RepayInconsistency => {
                "the loan ledger's repayment split disagrees with the local one"
            },
        }
    }
}

} // verus!
