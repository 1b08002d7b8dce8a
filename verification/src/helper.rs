use vstd::prelude::*;

verus! {

/// Fixed-point scale shared by `reward_per_share` and the per-token reward
/// rate: both carry twelve decimal places of fraction.
pub const REWARD_CALC_BASE: u128 = 1_000_000_000_000;

/// `min_stake_amount` a freshly initialized pool starts with.
pub const DEFAULT_MIN_STAKE_AMOUNT: u64 = 1_000_000_000;

/// The reward, in whole reward units rounded down, that a holding of
/// `amount` stake units is worth at index `reward_per_share`.
///
/// Both the per-depositor reward debt and the settled reward are values of
/// this function; the unbounded integer result is what the executable
/// fixed-width arithmetic is proved against.
pub open spec fn scaled_reward(amount: u64, reward_per_share: u128) -> int {
    amount * reward_per_share / (REWARD_CALC_BASE as int)
}

} // verus!
