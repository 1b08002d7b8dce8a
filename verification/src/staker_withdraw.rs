use vstd::prelude::*;

use crate::errors::Errors;
use crate::states::{unstake_account_matches, UnstakeAccount};

verus! {

/// The error a withdrawal attempt fails with, in the order the checks are
/// made, or `None` when it succeeds.
pub open spec fn withdraw_err(
    ua: UnstakeAccount,
    pool_key: u64,
    user: u64,
    pool_balance: u64,
    now: u64,
) -> Option<Errors> {
    if !unstake_account_matches(ua, pool_key, user) {
        Some(Errors::InvalidUnstakeAccount)
    } else if ua.amount == 0 {
        Some(Errors::UnstakeAccountAmountZero)
    } else if now < ua.withdrawable_timestamp {
        Some(Errors::UnstakeAccountNotClaimable)
    } else if pool_balance < ua.amount {
        Some(Errors::PoolBalanceNotEnough)
    } else {
        None
    }
}

/// Pay out a matured pending withdrawal.
///
/// `pool_balance` is the staked-asset balance the host reads from pool
/// custody; on success the host transfers the returned amount from pool
/// custody to the depositor and may then discard the record, whose amount is
/// zeroed here so that a second attempt fails with
/// `UnstakeAccountAmountZero`. Before `withdrawable_timestamp` the attempt
/// is rejected with `UnstakeAccountNotClaimable`. The pool's accounting is
/// not touched: the amount already left `total_stake` at request time.
pub fn withdraw(
    unstake_account: &mut UnstakeAccount,
    pool_key: u64,
    user: u64,
    pool_balance: u64,
    now: u64,
) -> (r: Result<u64, Errors>)
    ensures
        r is Ok <==> withdraw_err(*old(unstake_account), pool_key, user, pool_balance, now)
            is None,
        r matches Ok(v) ==> v == old(unstake_account).amount && v > 0 && *final(unstake_account)
            == (UnstakeAccount { amount: 0, ..*old(unstake_account) }),
        r is Err ==> *final(unstake_account) == *old(unstake_account) && Some(r->Err_0)
            == withdraw_err(*old(unstake_account), pool_key, user, pool_balance, now),
        r is Ok ==> now >= old(unstake_account).withdrawable_timestamp,
        r is Ok ==> pool_balance >= old(unstake_account).amount,
{
    if !(unstake_account.user == user && unstake_account.staking_pool == pool_key) {
        return Err(Errors::InvalidUnstakeAccount);
    }
    if unstake_account.amount == 0 {
        return Err(Errors::UnstakeAccountAmountZero);
    }
    if now < unstake_account.withdrawable_timestamp {
        return Err(Errors::UnstakeAccountNotClaimable);
    }
    let withdraw_amount = unstake_account.amount;
    if pool_balance < withdraw_amount {
        return Err(Errors::PoolBalanceNotEnough);
    }
    unstake_account.amount = 0;
    Ok(withdraw_amount)
}

} // verus!
