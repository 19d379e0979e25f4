//! The errors of the staking program.
use vstd::prelude::*;

verus! {

/// Why a staking instruction fails.
#[derive(PartialEq, Eq, Structural, Clone, Copy, Debug)]
pub enum CustomError {
    ExceededMaxStake,
    UnauthError,
    FreezePeriodNotPassed,
}

} // verus!
