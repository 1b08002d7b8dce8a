use vstd::prelude::*;

use crate::errors::Errors;
use crate::helper::scaled_reward;
use crate::states::{
    account_settle_ok, account_settled, pool_settle_ok, pool_settled, pool_wf, reward_debt_fits,
    same_identity_and_config, stake_account_matches, StakeAccount, StakingPool,
};

verus! {

/// The outcome of harvesting: the new pool and stake account states and the
/// harvested amount, or the error, in the order the checks are made.
///
/// The pool settles, then the account; the settled reward is the harvest. A
/// zero reward is a silent no-op (the settlements still happen). With
/// `restake` the harvest goes back into the live principal without leaving
/// pool custody; otherwise it must be covered by `pool_balance` and leaves
/// custody. Either way the debt marker re-syncs last.
pub open spec fn claim_spec(
    pool: StakingPool,
    acct: StakeAccount,
    pool_key: u64,
    user: u64,
    restake: bool,
    pool_balance: u64,
    now: u64,
) -> Result<(StakingPool, StakeAccount, u64), Errors> {
    if !stake_account_matches(acct, pool_key, user) {
        Err(Errors::InvalidStakeAccount)
    } else if !pool_settle_ok(pool, now) {
        Err(Errors::CalculationFail)
    } else {
        let p = pool_settled(pool, now);
        if !account_settle_ok(acct, p.reward_per_share) {
            Err(Errors::CalculationFail)
        } else {
            let a1 = account_settled(acct, p.reward_per_share);
            let claim_amount = a1.reward;
            if claim_amount > 0 && restake {
                if a1.amount + claim_amount > u64::MAX || p.total_stake + claim_amount
                    > u64::MAX {
                    Err(Errors::CalculationFail)
                } else {
                    let a2 = StakeAccount {
                        amount: (a1.amount + claim_amount) as u64,
                        reward: 0,
                        ..a1
                    };
                    let p2 = StakingPool {
                        total_stake: (p.total_stake + claim_amount) as u64,
                        ..p
                    };
                    if !reward_debt_fits(a2.amount, p2.reward_per_share) {
                        Err(Errors::CalculationFail)
                    } else {
                        let a3 = StakeAccount {
                            reward_debt: scaled_reward(a2.amount, p2.reward_per_share) as u64,
                            ..a2
                        };
                        Ok((p2, a3, claim_amount))
                    }
                }
            } else if claim_amount > 0 {
                if pool_balance < claim_amount {
                    Err(Errors::PoolBalanceNotEnough)
                } else if !reward_debt_fits(a1.amount, p.reward_per_share) {
                    Err(Errors::CalculationFail)
                } else {
                    let a2 = StakeAccount {
                        reward: 0,
                        reward_debt: scaled_reward(a1.amount, p.reward_per_share) as u64,
                        ..a1
                    };
                    Ok((p, a2, claim_amount))
                }
            } else {
                if !reward_debt_fits(a1.amount, p.reward_per_share) {
                    Err(Errors::CalculationFail)
                } else {
                    let a2 = StakeAccount {
                        reward_debt: scaled_reward(a1.amount, p.reward_per_share) as u64,
                        ..a1
                    };
                    Ok((p, a2, claim_amount))
                }
            }
        }
    }
}

/// Harvest `user`'s settled reward.
///
/// Returns the harvested amount. When `restake` is false the host must
/// transfer that many reward units from pool custody to the depositor;
/// `pool_balance` is the custody balance the host read, checked here before
/// anything is committed. When `restake` is true the harvest is added to the
/// live principal and nothing leaves custody. A zero reward harvests
/// nothing and is not an error. On an error nothing is changed.
pub fn claim(
    pool: &mut StakingPool,
    pool_key: u64,
    stake_account: &mut StakeAccount,
    user: u64,
    restake: bool,
    pool_balance: u64,
    now: u64,
) -> (r: Result<u64, Errors>)
    ensures
        r is Ok <==> claim_spec(
            *old(pool),
            *old(stake_account),
            pool_key,
            user,
            restake,
            pool_balance,
            now,
        ) is Ok,
        r matches Ok(v) ==> ({
            let (p2, a2, c) = claim_spec(
                *old(pool),
                *old(stake_account),
                pool_key,
                user,
                restake,
                pool_balance,
                now,
            )->Ok_0;
            *final(pool) == p2 && *final(stake_account) == a2 && v == c
        }),
        r is Err ==> *final(pool) == *old(pool) && *final(stake_account) == *old(stake_account)
            && r->Err_0 == claim_spec(
            *old(pool),
            *old(stake_account),
            pool_key,
            user,
            restake,
            pool_balance,
            now,
        )->Err_0,
        r matches Ok(v) ==> !restake ==> v <= pool_balance,
        r matches Ok(v) ==> final(pool).total_stake - old(pool).total_stake
            == final(stake_account).amount - old(stake_account).amount,
        r matches Ok(v) ==> restake ==> final(pool).total_stake - old(pool).total_stake == v,
        r is Ok ==> final(stake_account).reward == 0,
        final(pool).reward_per_share >= old(pool).reward_per_share,
        same_identity_and_config(*old(pool), *final(pool)),
        pool_wf(*old(pool)) ==> pool_wf(*final(pool)),
{
    if !(stake_account.user == user && stake_account.staking_pool == pool_key) {
        return Err(Errors::InvalidStakeAccount);
    }
    let mut p = *pool;
    match p.update_pool(now) {
        Ok(()) => {},
        Err(e) => {
            return Err(e);
        },
    }
    let mut a = *stake_account;
    match a.update_reward(p.reward_per_share) {
        Ok(()) => {},
        Err(e) => {
            return Err(e);
        },
    }
    let claim_amount = a.reward;
    if claim_amount > 0 {
        a.reward = 0;
        if restake {
            let new_amount = match a.amount.checked_add(claim_amount) {
                Some(v) => v,
                None => {
                    return Err(Errors::CalculationFail);
                },
            };
            let new_total = match p.total_stake.checked_add(claim_amount) {
                Some(v) => v,
                None => {
                    return Err(Errors::CalculationFail);
                },
            };
            a.amount = new_amount;
            p.total_stake = new_total;
        } else {
            if pool_balance < claim_amount {
                return Err(Errors::PoolBalanceNotEnough);
            }
        }
    }
    match a.update_reward_debt(p.reward_per_share) {
        Ok(()) => {},
        Err(e) => {
            return Err(e);
        },
    }
    *pool = p;
    *stake_account = a;
    Ok(claim_amount)
}

} // verus!
