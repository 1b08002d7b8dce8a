use vstd::prelude::*;

verus! {

/// Why an operation was rejected.
///
/// Every mutating operation either succeeds completely or returns one of
/// these and leaves all of its arguments unchanged. `CalculationFail` covers
/// every arithmetic failure: an intermediate value of the fixed-point reward
/// arithmetic that does not fit its fixed-width integer domain.
#[derive(Clone, Copy, Debug, PartialEq, Eq, Structural)]
pub enum Errors {
    ProgramIdNotMatch,
    RemainingAccountsNotMatch,
    AdminNotMatch,
    ParamsNotMatch,
    StakeAmountTooLow,
    BalanceNotEnough,
    CalculationFail,
    InvalidUnstakeAccount,
    InvalidStakeAccount,
    UnstakeAccountNotClaimable,
    UnstakeAccountAmountZero,
    PoolBalanceNotEnough,
    UnstakeAmountIsZero,
    TokenMintAccountNotMatch,
    PendingAdminNotMatch,
}

} // verus!
