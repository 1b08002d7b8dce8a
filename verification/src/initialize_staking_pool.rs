use vstd::prelude::*;

use crate::errors::Errors;
use crate::helper::DEFAULT_MIN_STAKE_AMOUNT;
use crate::states::{pool_wf, RewardAlgorithm, StakingPool};

verus! {

/// Parameters of pool creation. `total_reward` is the budget the creator
/// funds up front; the host moves that many reward units into pool custody
/// when creation succeeds.
#[derive(Clone, Copy, Debug, PartialEq, Eq, Structural)]
pub struct InitializeStakingPoolParams {
    pub reward_rate: u64,
    pub total_reward: u64,
    pub unbonding_seconds: u64,
    pub reward_algorithm: RewardAlgorithm,
}

/// The state a fresh pool starts in: nothing staked, the whole funded budget
/// undistributed, a zero index, and the default minimum stake.
pub open spec fn initialized_pool(
    admin: u64,
    token_mint: u64,
    params: InitializeStakingPoolParams,
) -> StakingPool {
    StakingPool {
        creator: admin,
        admin: admin,
        pending_admin: 0,
        token_mint: token_mint,
        min_stake_amount: DEFAULT_MIN_STAKE_AMOUNT,
        unbonding_seconds: params.unbonding_seconds,
        reward_rate: params.reward_rate,
        reward_algorithm: params.reward_algorithm,
        total_stake: 0,
        total_reward: params.total_reward,
        undistributed_reward: params.total_reward,
        last_reward_timestamp: 0,
        reward_per_share: 0,
    }
}

/// Create a pool for `admin` over the asset `token_mint`. Rejects a zero
/// reward rate or a zero unbonding period with `ParamsNotMatch`.
pub fn initialize_staking_pool(
    admin: u64,
    token_mint: u64,
    params: InitializeStakingPoolParams,
) -> (r: Result<StakingPool, Errors>)
    ensures
        r is Ok <==> params.reward_rate > 0 && params.unbonding_seconds > 0,
        r matches Ok(p) ==> p == initialized_pool(admin, token_mint, params),
        r matches Ok(p) ==> pool_wf(p),
        r is Err ==> r->Err_0 == Errors::ParamsNotMatch,
{
    if params.reward_rate == 0 {
        return Err(Errors::ParamsNotMatch);
    }
    if params.unbonding_seconds == 0 {
        return Err(Errors::ParamsNotMatch);
    }
    Ok(
        StakingPool {
            creator: admin,
            admin: admin,
            pending_admin: 0,
            token_mint: token_mint,
            min_stake_amount: DEFAULT_MIN_STAKE_AMOUNT,
            unbonding_seconds: params.unbonding_seconds,
            reward_rate: params.reward_rate,
            reward_algorithm: params.reward_algorithm,
            total_stake: 0,
            total_reward: params.total_reward,
            undistributed_reward: params.total_reward,
            last_reward_timestamp: 0,
            reward_per_share: 0,
        },
    )
}

} // verus!
