use vstd::prelude::*;

use crate::errors::Errors;
use crate::helper::scaled_reward;
use crate::states::{
    account_settle_ok, account_settled, pool_settle_ok, pool_settled, pool_wf, reward_debt_fits,
    same_identity_and_config, stake_account_matches, stake_account_wf, StakeAccount, StakingPool,
    UnstakeAccount,
};

verus! {

/// The outcome of requesting withdrawal of `unstake_amount`: the new pool
/// and stake account states together with the pending-withdrawal record, or
/// the error, in the order the checks are made. The pool settles first, the
/// account settles before its principal shrinks and re-syncs its debt
/// afterwards; the amount leaves `total_stake` at request time and waits out
/// the unbonding period in the detached record.
pub open spec fn unstake_spec(
    pool: StakingPool,
    acct: StakeAccount,
    pool_key: u64,
    user: u64,
    unstake_amount: u64,
    now: u64,
) -> Result<(StakingPool, StakeAccount, UnstakeAccount), Errors> {
    if !stake_account_matches(acct, pool_key, user) {
        Err(Errors::InvalidStakeAccount)
    } else if unstake_amount == 0 {
        Err(Errors::UnstakeAmountIsZero)
    } else if acct.amount < unstake_amount {
        Err(Errors::BalanceNotEnough)
    } else if !pool_settle_ok(pool, now) {
        Err(Errors::CalculationFail)
    } else {
        let p = pool_settled(pool, now);
        if !account_settle_ok(acct, p.reward_per_share) {
            Err(Errors::CalculationFail)
        } else {
            let a1 = account_settled(acct, p.reward_per_share);
            let a2 = StakeAccount { amount: (a1.amount - unstake_amount) as u64, ..a1 };
            if !reward_debt_fits(a2.amount, p.reward_per_share) {
                Err(Errors::CalculationFail)
            } else if p.total_stake < unstake_amount {
                Err(Errors::CalculationFail)
            } else if now + pool.unbonding_seconds > u64::MAX {
                Err(Errors::CalculationFail)
            } else {
                let a3 = StakeAccount {
                    reward_debt: scaled_reward(a2.amount, p.reward_per_share) as u64,
                    ..a2
                };
                let p2 = StakingPool {
                    total_stake: (p.total_stake - unstake_amount) as u64,
                    ..p
                };
                Ok(
                    (
                        p2,
                        a3,
                        UnstakeAccount {
                            staking_pool: pool_key,
                            user: user,
                            amount: unstake_amount,
                            withdrawable_timestamp: (now + pool.unbonding_seconds) as u64,
                        },
                    ),
                )
            }
        }
    }
}

/// Request withdrawal of `unstake_amount` of `user`'s live stake.
///
/// No funds move yet: the amount is detached from the live position into the
/// returned pending-withdrawal record, payable once the pool's unbonding
/// period has elapsed. The host verifies the depositor's signature and
/// stores the returned record. On an error nothing is changed.
pub fn unstake(
    pool: &mut StakingPool,
    pool_key: u64,
    stake_account: &mut StakeAccount,
    user: u64,
    unstake_amount: u64,
    now: u64,
) -> (r: Result<UnstakeAccount, Errors>)
    ensures
        r is Ok <==> unstake_spec(
            *old(pool),
            *old(stake_account),
            pool_key,
            user,
            unstake_amount,
            now,
        ) is Ok,
        r matches Ok(ua) ==> ({
            let (p2, a2, ua2) = unstake_spec(
                *old(pool),
                *old(stake_account),
                pool_key,
                user,
                unstake_amount,
                now,
            )->Ok_0;
            *final(pool) == p2 && *final(stake_account) == a2 && ua == ua2
        }),
        r is Err ==> *final(pool) == *old(pool) && *final(stake_account) == *old(stake_account)
            && r->Err_0 == unstake_spec(
            *old(pool),
            *old(stake_account),
            pool_key,
            user,
            unstake_amount,
            now,
        )->Err_0,
        r is Ok ==> final(pool).total_stake - old(pool).total_stake
            == final(stake_account).amount - old(stake_account).amount,
        r matches Ok(ua) ==> ua.amount == unstake_amount && ua.user == user && ua.staking_pool
            == pool_key && ua.withdrawable_timestamp == now + old(pool).unbonding_seconds,
        r is Ok ==> stake_account_wf(*old(stake_account)) ==> stake_account_wf(
            *final(stake_account),
        ),
        final(pool).reward_per_share >= old(pool).reward_per_share,
        same_identity_and_config(*old(pool), *final(pool)),
        pool_wf(*old(pool)) ==> pool_wf(*final(pool)),
{
    if !(stake_account.user == user && stake_account.staking_pool == pool_key) {
        return Err(Errors::InvalidStakeAccount);
    }
    if unstake_amount == 0 {
        return Err(Errors::UnstakeAmountIsZero);
    }
    if stake_account.amount < unstake_amount {
        return Err(Errors::BalanceNotEnough);
    }
    let mut p = *pool;
    match p.update_pool(now) {
        Ok(()) => {},
        Err(e) => {
            return Err(e);
        },
    }
    let mut a = *stake_account;
    match a.update_reward(p.reward_per_share) {
        Ok(()) => {},
        Err(e) => {
            return Err(e);
        },
    }
    a.amount = a.amount - unstake_amount;
    match a.update_reward_debt(p.reward_per_share) {
        Ok(()) => {},
        Err(e) => {
            return Err(e);
        },
    }
    if p.total_stake < unstake_amount {
        return Err(Errors::CalculationFail);
    }
    let maturity = match now.checked_add(pool.unbonding_seconds) {
        Some(v) => v,
        None => {
            return Err(Errors::CalculationFail);
        },
    };
    p.total_stake = p.total_stake - unstake_amount;
    *pool = p;
    *stake_account = a;
    Ok(
        UnstakeAccount {
            staking_pool: pool_key,
            user: user,
            amount: unstake_amount,
            withdrawable_timestamp: maturity,
        },
    )
}

} // verus!
