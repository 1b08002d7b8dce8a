use vstd::prelude::*;

use crate::errors::Errors;
use crate::states::{
    pool_settle_ok, pool_settled, pool_wf, same_identity_and_config, RewardAlgorithm, StakingPool,
};

verus! {

/// Optional configuration changes; a `None` field is left as it is.
#[derive(Clone, Copy, Debug, Default, PartialEq)]
pub struct ConfigParams {
    pub min_stake_amount: Option<u64>,
    pub reward_rate: Option<u64>,
    pub unbonding_seconds: Option<u64>,
    pub reward_algorithm: Option<RewardAlgorithm>,
}

/// Whether applying `params` settles the pool: any change to the reward rate
/// or the emission policy does, so that the change holds only for future
/// elapsed time, never retroactively.
pub open spec fn config_needs_settle(params: ConfigParams) -> bool {
    params.reward_rate is Some || params.reward_algorithm is Some
}

/// The pool after a successful reconfiguration: settled first when the
/// emission schedule changes, then the given fields replaced.
pub open spec fn config_applied(pool: StakingPool, params: ConfigParams, now: u64) -> StakingPool {
    let settled = if config_needs_settle(params) {
        pool_settled(pool, now)
    } else {
        pool
    };
    let p1 = match params.min_stake_amount {
        Some(v) => StakingPool { min_stake_amount: v, ..settled },
        None => settled,
    };
    let p2 = match params.reward_rate {
        Some(v) => StakingPool { reward_rate: v, ..p1 },
        None => p1,
    };
    let p3 = match params.unbonding_seconds {
        Some(v) => StakingPool { unbonding_seconds: v, ..p2 },
        None => p2,
    };
    match params.reward_algorithm {
        Some(v) => StakingPool { reward_algorithm: v, ..p3 },
        None => p3,
    }
}

/// Propose a new administrator. Only the current administrator may propose;
/// the proposal takes effect once the proposed identity accepts.
pub fn transfer_admin(pool: &mut StakingPool, caller: u64, new_admin: u64) -> (r: Result<
    (),
    Errors,
>)
    ensures
        r is Ok <==> caller == old(pool).admin,
        r is Ok ==> *final(pool) == (StakingPool { pending_admin: new_admin, ..*old(pool) }),
        r is Err ==> *final(pool) == *old(pool) && r->Err_0 == Errors::AdminNotMatch,
{
    if caller != pool.admin {
        return Err(Errors::AdminNotMatch);
    }
    pool.pending_admin = new_admin;
    Ok(())
}

/// Complete the two-step handoff. Only the pending administrator may accept;
/// accepting clears the pending slot.
pub fn accept_admin(pool: &mut StakingPool, caller: u64) -> (r: Result<(), Errors>)
    ensures
        r is Ok <==> caller == old(pool).pending_admin,
        r is Ok ==> *final(pool) == (StakingPool {
            admin: old(pool).pending_admin,
            pending_admin: 0,
            ..*old(pool)
        }),
        r is Err ==> *final(pool) == *old(pool) && r->Err_0 == Errors::PendingAdminNotMatch,
{
    if caller != pool.pending_admin {
        return Err(Errors::PendingAdminNotMatch);
    }
    pool.admin = pool.pending_admin;
    pool.pending_admin = 0;
    Ok(())
}

/// Reconfigure the pool. Only the administrator may; a change of the reward
/// rate or the emission policy settles the pool first, so the new schedule
/// applies only from `now` on. On an error the pool is unchanged.
pub fn config(pool: &mut StakingPool, caller: u64, params: ConfigParams, now: u64) -> (r: Result<
    (),
    Errors,
>)
    ensures
        r is Ok <==> caller == old(pool).admin && (config_needs_settle(params) ==> pool_settle_ok(
            *old(pool),
            now,
        )),
        r is Ok ==> *final(pool) == config_applied(*old(pool), params, now),
        r is Err ==> *final(pool) == *old(pool),
        r is Err ==> r->Err_0 == (if caller != old(pool).admin {
            Errors::AdminNotMatch
        } else {
            Errors::CalculationFail
        }),
        final(pool).reward_per_share >= old(pool).reward_per_share,
        final(pool).total_stake == old(pool).total_stake,
        pool_wf(*old(pool)) ==> pool_wf(*final(pool)),
{
    if caller != pool.admin {
        return Err(Errors::AdminNotMatch);
    }
    let mut p = *pool;
    if let Some(v) = params.min_stake_amount {
        p.min_stake_amount = v;
    }
    if let Some(v) = params.reward_rate {
        match p.update_pool(now) {
            Ok(()) => {},
            Err(e) => {
                return Err(e);
            },
        }
        p.reward_rate = v;
    }
    if let Some(v) = params.unbonding_seconds {
        p.unbonding_seconds = v;
    }
    if let Some(v) = params.reward_algorithm {
        match p.update_pool(now) {
            Ok(()) => {},
            Err(e) => {
                return Err(e);
            },
        }
        p.reward_algorithm = v;
    }
    *pool = p;
    Ok(())
}

/// Whether funding `amount` at `now` stays inside the fixed-width domain:
/// the settlement fits and both budget counters can take the increase.
pub open spec fn add_rewards_ok(pool: StakingPool, amount: u64, now: u64) -> bool {
    &&& amount > 0
    &&& pool_settle_ok(pool, now)
    &&& pool_settled(pool, now).total_reward + amount <= u64::MAX
    &&& pool_settled(pool, now).undistributed_reward + amount <= u64::MAX
}

/// The pool after a successful top-up: settled at `now` first, so the new
/// budget is not blended into a stale index, then both budget counters
/// raised by `amount`.
pub open spec fn add_rewards_applied(pool: StakingPool, amount: u64, now: u64) -> StakingPool {
    let p = pool_settled(pool, now);
    StakingPool {
        total_reward: (p.total_reward + amount) as u64,
        undistributed_reward: (p.undistributed_reward + amount) as u64,
        ..p
    }
}

/// Fund `amount` more reward units. The host moves the tokens into pool
/// custody when this succeeds; the budget becomes available to the emission
/// schedule from `now` on. Rejects a zero amount with `ParamsNotMatch`.
/// Any identity may fund a pool: funding only ever adds budget.
pub fn add_rewards(pool: &mut StakingPool, amount: u64, now: u64) -> (r: Result<(), Errors>)
    ensures
        r is Ok <==> add_rewards_ok(*old(pool), amount, now),
        r is Ok ==> *final(pool) == add_rewards_applied(*old(pool), amount, now),
        r is Err ==> *final(pool) == *old(pool),
        r is Err ==> r->Err_0 == (if amount == 0 {
            Errors::ParamsNotMatch
        } else {
            Errors::CalculationFail
        }),
        final(pool).reward_per_share >= old(pool).reward_per_share,
        same_identity_and_config(*old(pool), *final(pool)),
        final(pool).total_stake == old(pool).total_stake,
        pool_wf(*old(pool)) ==> pool_wf(*final(pool)),
{
    if amount == 0 {
        return Err(Errors::ParamsNotMatch);
    }
    let mut p = *pool;
    match p.update_pool(now) {
        Ok(()) => {},
        Err(e) => {
            return Err(e);
        },
    }
    let new_total = match p.total_reward.checked_add(amount) {
        Some(v) => v,
        None => {
            return Err(Errors::CalculationFail);
        },
    };
    let new_undistributed = match p.undistributed_reward.checked_add(amount) {
        Some(v) => v,
        None => {
            return Err(Errors::CalculationFail);
        },
    };
    p.total_reward = new_total;
    p.undistributed_reward = new_undistributed;
    *pool = p;
    Ok(())
}

} // verus!
