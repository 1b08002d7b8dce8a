use vstd::prelude::*;

use crate::errors::Errors;
use crate::helper::scaled_reward;
use crate::states::{
    account_settle_ok, account_settled, pool_settle_ok, pool_settled, pool_wf, reward_debt_fits,
    same_identity_and_config, stake_account_matches, stake_account_wf, StakeAccount, StakingPool,
};

verus! {

/// The outcome of depositing `stake_amount`: either the new pool and stake
/// account states, or the error, in the order the checks are made. The pool
/// settles first; a fresh record (null `user`) is created with its debt
/// already synced to the settled index, an existing record settles before
/// its principal grows and re-syncs its debt afterwards.
pub open spec fn stake_spec(
    pool: StakingPool,
    acct: StakeAccount,
    pool_key: u64,
    user: u64,
    stake_amount: u64,
    now: u64,
) -> Result<(StakingPool, StakeAccount), Errors> {
    if !(acct.user == 0 || stake_account_matches(acct, pool_key, user)) {
        Err(Errors::InvalidStakeAccount)
    } else if stake_amount < pool.min_stake_amount {
        Err(Errors::StakeAmountTooLow)
    } else if !pool_settle_ok(pool, now) {
        Err(Errors::CalculationFail)
    } else {
        let p = pool_settled(pool, now);
        if p.total_stake + stake_amount > u64::MAX {
            Err(Errors::CalculationFail)
        } else {
            let p2 = StakingPool { total_stake: (p.total_stake + stake_amount) as u64, ..p };
            if acct.user == 0 {
                if !reward_debt_fits(stake_amount, p2.reward_per_share) {
                    Err(Errors::CalculationFail)
                } else {
                    Ok(
                        (
                            p2,
                            StakeAccount {
                                staking_pool: pool_key,
                                user: user,
                                amount: stake_amount,
                                reward: 0,
                                reward_debt: scaled_reward(
                                    stake_amount,
                                    p2.reward_per_share,
                                ) as u64,
                            },
                        ),
                    )
                }
            } else {
                if !account_settle_ok(acct, p2.reward_per_share) {
                    Err(Errors::CalculationFail)
                } else {
                    let a1 = account_settled(acct, p2.reward_per_share);
                    if a1.amount + stake_amount > u64::MAX {
                        Err(Errors::CalculationFail)
                    } else {
                        let a2 = StakeAccount {
                            amount: (a1.amount + stake_amount) as u64,
                            ..a1
                        };
                        if !reward_debt_fits(a2.amount, p2.reward_per_share) {
                            Err(Errors::CalculationFail)
                        } else {
                            Ok(
                                (
                                    p2,
                                    StakeAccount {
                                        reward_debt: scaled_reward(
                                            a2.amount,
                                            p2.reward_per_share,
                                        ) as u64,
                                        ..a2
                                    },
                                ),
                            )
                        }
                    }
                }
            }
        }
    }
}

/// Deposit `stake_amount` into the pool for `user`.
///
/// The host verifies the depositor's signature, moves `stake_amount` staked
/// units from the depositor into pool custody when this succeeds, and hands
/// in the depositor's stake record: a record whose `user` is the null
/// identity `0` counts as absent and is created here. Rejects a deposit
/// under the pool's minimum with `StakeAmountTooLow`. On an error nothing
/// is changed.
pub fn stake(
    pool: &mut StakingPool,
    pool_key: u64,
    stake_account: &mut StakeAccount,
    user: u64,
    stake_amount: u64,
    now: u64,
) -> (r: Result<(), Errors>)
    requires
        stake_account_wf(*old(stake_account)),
        user != 0,
    ensures
        r is Ok <==> stake_spec(
            *old(pool),
            *old(stake_account),
            pool_key,
            user,
            stake_amount,
            now,
        ) is Ok,
        r is Ok ==> ({
            let (p2, a2) = stake_spec(
                *old(pool),
                *old(stake_account),
                pool_key,
                user,
                stake_amount,
                now,
            )->Ok_0;
            *final(pool) == p2 && *final(stake_account) == a2
        }),
        r is Err ==> *final(pool) == *old(pool) && *final(stake_account) == *old(stake_account)
            && r->Err_0 == stake_spec(
            *old(pool),
            *old(stake_account),
            pool_key,
            user,
            stake_amount,
            now,
        )->Err_0,
        r is Ok ==> final(pool).total_stake - old(pool).total_stake
            == final(stake_account).amount - old(stake_account).amount,
        r is Ok ==> stake_account_wf(*final(stake_account)) && stake_account_matches(
            *final(stake_account),
            pool_key,
            user,
        ),
        final(pool).reward_per_share >= old(pool).reward_per_share,
        same_identity_and_config(*old(pool), *final(pool)),
        pool_wf(*old(pool)) ==> pool_wf(*final(pool)),
{
    if !(stake_account.user == 0 || (stake_account.user == user && stake_account.staking_pool
        == pool_key)) {
        return Err(Errors::InvalidStakeAccount);
    }
    if stake_amount < pool.min_stake_amount {
        return Err(Errors::StakeAmountTooLow);
    }
    let mut p = *pool;
    match p.update_pool(now) {
        Ok(()) => {},
        Err(e) => {
            return Err(e);
        },
    }
    let new_total = match p.total_stake.checked_add(stake_amount) {
        Some(v) => v,
        None => {
            return Err(Errors::CalculationFail);
        },
    };
    p.total_stake = new_total;
    if stake_account.user == 0 {
        let debt = match p.calc_reward_debt(stake_amount) {
            Ok(v) => v,
            Err(e) => {
                return Err(e);
            },
        };
        *pool = p;
        *stake_account = StakeAccount {
            staking_pool: pool_key,
            user: user,
            amount: stake_amount,
            reward: 0,
            reward_debt: debt,
        };
        Ok(())
    } else {
        let mut a = *stake_account;
        match a.update_reward(p.reward_per_share) {
            Ok(()) => {},
            Err(e) => {
                return Err(e);
            },
        }
        let new_amount = match a.amount.checked_add(stake_amount) {
            Some(v) => v,
            None => {
                return Err(Errors::CalculationFail);
            },
        };
        a.amount = new_amount;
        match a.update_reward_debt(p.reward_per_share) {
            Ok(()) => {},
            Err(e) => {
                return Err(e);
            },
        }
        *pool = p;
        *stake_account = a;
        Ok(())
    }
}

} // verus!
