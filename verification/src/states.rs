use vstd::prelude::*;

use crate::errors::Errors;
use crate::helper::{scaled_reward, REWARD_CALC_BASE};

verus! {

use vstd::arithmetic::div_mod::lemma_div_is_ordered;

/// Emission policy of a pool.
///
/// `FixedPerTokenPerSecond` pays `reward_rate` per staked unit per second,
/// with the rate scaled by `REWARD_CALC_BASE` to allow fractional rates.
/// `FixedTotalPerSecond` pays `reward_rate` reward units per second for the
/// whole pool, unscaled.
#[derive(Clone, Copy, Debug, PartialEq, Eq, Structural)]
pub enum RewardAlgorithm {
    FixedPerTokenPerSecond,
    FixedTotalPerSecond,
}

/// One staking pool: emission policy, reward budget and the global
/// `reward_per_share` index.
///
/// Identity fields (`creator`, `admin`, `pending_admin`, `token_mint`) are
/// opaque tokens chosen by the host; `0` is the null identity, used for an
/// empty `pending_admin` slot.
#[derive(Clone, Copy, Debug, PartialEq, Eq, Structural)]
pub struct StakingPool {
    pub creator: u64,
    pub admin: u64,
    pub pending_admin: u64,
    pub token_mint: u64,
    pub min_stake_amount: u64,
    pub unbonding_seconds: u64,
    pub reward_rate: u64,
    pub reward_algorithm: RewardAlgorithm,
    /// Sum of all live stake account amounts of this pool.
    pub total_stake: u64,
    /// Cumulative reward budget ever funded into the pool.
    pub total_reward: u64,
    /// Funded but not yet emitted reward budget.
    pub undistributed_reward: u64,
    pub last_reward_timestamp: u64,
    /// Cumulative reward per stake unit since pool inception, scaled by
    /// `REWARD_CALC_BASE`. Non-decreasing over the life of the pool.
    pub reward_per_share: u128,
}

/// One depositor's position in a pool. A record whose `user` is the null
/// identity `0` is unused storage and must be all zero.
#[derive(Clone, Copy, Debug, PartialEq, Eq, Structural)]
pub struct StakeAccount {
    pub staking_pool: u64,
    pub user: u64,
    /// Live principal.
    pub amount: u64,
    /// Settled, not yet harvested reward.
    pub reward: u64,
    /// `scaled_reward(amount, reward_per_share)` as of the last settlement;
    /// subtracted on the next settlement to avoid double counting.
    pub reward_debt: u64,
}

/// A pending withdrawal: detached from the live stake account at request
/// time, payable once `withdrawable_timestamp` has been reached.
#[derive(Clone, Copy, Debug, PartialEq, Eq, Structural)]
pub struct UnstakeAccount {
    pub staking_pool: u64,
    pub user: u64,
    pub amount: u64,
    pub withdrawable_timestamp: u64,
}

/// An unused stake record is all zero.
pub open spec fn stake_account_wf(a: StakeAccount) -> bool {
    a.user == 0 ==> a.staking_pool == 0 && a.amount == 0 && a.reward == 0 && a.reward_debt == 0
}

/// The record belongs to this pool and this depositor.
pub open spec fn stake_account_matches(a: StakeAccount, pool_key: u64, user: u64) -> bool {
    a.user == user && a.staking_pool == pool_key
}

/// The pending withdrawal belongs to this pool and this depositor.
pub open spec fn unstake_account_matches(a: UnstakeAccount, pool_key: u64, user: u64) -> bool {
    a.user == user && a.staking_pool == pool_key
}

/// The emission budget never exceeds what was funded.
pub open spec fn pool_wf(p: StakingPool) -> bool {
    p.undistributed_reward <= p.total_reward
}

/// Settlement leaves identity and configuration untouched.
pub open spec fn same_identity_and_config(a: StakingPool, b: StakingPool) -> bool {
    &&& a.creator == b.creator
    &&& a.admin == b.admin
    &&& a.pending_admin == b.pending_admin
    &&& a.token_mint == b.token_mint
    &&& a.min_stake_amount == b.min_stake_amount
    &&& a.unbonding_seconds == b.unbonding_seconds
    &&& a.reward_rate == b.reward_rate
    &&& a.reward_algorithm == b.reward_algorithm
}

/// Reward owed for `elapsed` seconds under the pool's emission policy,
/// before clamping to the budget; unbounded integer mathematics.
pub open spec fn raw_reward_of(p: StakingPool, elapsed: u64) -> int {
    match p.reward_algorithm {
        RewardAlgorithm::FixedPerTokenPerSecond => p.total_stake * elapsed * p.reward_rate / (
        REWARD_CALC_BASE as int),
        RewardAlgorithm::FixedTotalPerSecond => elapsed * p.reward_rate,
    }
}

/// Whether the raw reward computation stays inside its fixed-width domain.
pub open spec fn new_reward_fits(p: StakingPool, elapsed: u64) -> bool {
    match p.reward_algorithm {
        RewardAlgorithm::FixedPerTokenPerSecond => p.total_stake * elapsed * p.reward_rate
            <= u128::MAX && raw_reward_of(p, elapsed) <= u64::MAX,
        RewardAlgorithm::FixedTotalPerSecond => elapsed * p.reward_rate <= u64::MAX,
    }
}

/// What settling the pool at `now` emits: the raw reward clamped to the
/// remaining budget, and nothing when no time has elapsed or nothing is
/// staked.
pub open spec fn emitted_reward(p: StakingPool, now: u64) -> int {
    if now <= p.last_reward_timestamp || p.total_stake == 0 {
        0
    } else {
        let raw = raw_reward_of(p, (now - p.last_reward_timestamp) as u64);
        if raw <= p.undistributed_reward {
            raw
        } else {
            p.undistributed_reward as int
        }
    }
}

/// Whether settling the pool at `now` stays inside the fixed-width domain.
pub open spec fn pool_settle_ok(p: StakingPool, now: u64) -> bool {
    now <= p.last_reward_timestamp || p.total_stake == 0 || {
        &&& new_reward_fits(p, (now - p.last_reward_timestamp) as u64)
        &&& (emitted_reward(p, now) > 0 ==> p.reward_per_share + emitted_reward(p, now)
            * REWARD_CALC_BASE / (p.total_stake as int) <= u128::MAX)
    }
}

/// The pool after settlement at `now`: the emitted reward is taken out of
/// the budget and folded into `reward_per_share`, and `last_reward_timestamp`
/// advances. Meaningful when `pool_settle_ok(p, now)` holds.
pub open spec fn pool_settled(p: StakingPool, now: u64) -> StakingPool {
    if now <= p.last_reward_timestamp {
        p
    } else if p.total_stake == 0 {
        StakingPool { last_reward_timestamp: now, ..p }
    } else {
        let e = emitted_reward(p, now);
        if e > 0 {
            StakingPool {
                undistributed_reward: (p.undistributed_reward - e) as u64,
                reward_per_share: (p.reward_per_share + e * REWARD_CALC_BASE
                    / (p.total_stake as int)) as u128,
                last_reward_timestamp: now,
                ..p
            }
        } else {
            StakingPool { last_reward_timestamp: now, ..p }
        }
    }
}

/// Whether `scaled_reward(amount, reward_per_share)` stays inside its
/// fixed-width domain.
pub open spec fn reward_debt_fits(amount: u64, reward_per_share: u128) -> bool {
    amount * reward_per_share <= u128::MAX && scaled_reward(amount, reward_per_share) <= u64::MAX
}

/// Whether settling a stake account against index `reward_per_share` stays
/// inside its fixed-width domain: the account's debt never exceeds its worth
/// plus what is already settled, and the result fits.
pub open spec fn account_settle_ok(a: StakeAccount, reward_per_share: u128) -> bool {
    &&& a.amount * reward_per_share <= u128::MAX
    &&& scaled_reward(a.amount, reward_per_share) + a.reward >= a.reward_debt
    &&& scaled_reward(a.amount, reward_per_share) + a.reward - a.reward_debt <= u64::MAX
}

/// The account after settlement: its reward becomes its worth at the current
/// index, minus the part already accounted for at the last settlement, plus
/// whatever was left unharvested. Meaningful when `account_settle_ok` holds.
pub open spec fn account_settled(a: StakeAccount, reward_per_share: u128) -> StakeAccount {
    StakeAccount {
        reward: (scaled_reward(a.amount, reward_per_share) + a.reward - a.reward_debt) as u64,
        ..a
    }
}

/// Any product of two `u64` values fits in a `u128`.
pub proof fn lemma_u64_mul_fits_u128(a: u64, b: u64)
    by (nonlinear_arith)
    ensures
        a * b <= u128::MAX,
{
}

impl StakingPool {
    /// The raw reward for `time_diff` elapsed seconds under the active
    /// emission policy, or `CalculationFail` when an intermediate value does
    /// not fit its fixed-width integer domain.
    pub fn calc_new_reward(&self, time_diff: u64) -> (r: Result<u64, Errors>)
        ensures
            r is Ok <==> new_reward_fits(*self, time_diff),
            r matches Ok(v) ==> v == raw_reward_of(*self, time_diff),
            r is Err ==> r->Err_0 == Errors::CalculationFail,
    {
        match self.reward_algorithm {
            RewardAlgorithm::FixedPerTokenPerSecond => {
                proof {
                    lemma_u64_mul_fits_u128(self.total_stake, time_diff);
                }
                let stake_time: u128 = (self.total_stake as u128) * (time_diff as u128);
                match stake_time.checked_mul(self.reward_rate as u128) {
                    Some(prod) => {
                        let raw: u128 = prod / REWARD_CALC_BASE;
                        if raw > u64::MAX as u128 {
                            Err(Errors::CalculationFail)
                        } else {
                            Ok(raw as u64)
                        }
                    },
                    None => Err(Errors::CalculationFail),
                }
            },
            RewardAlgorithm::FixedTotalPerSecond => {
                proof {
                    lemma_u64_mul_fits_u128(time_diff, self.reward_rate);
                }
                let prod: u128 = (time_diff as u128) * (self.reward_rate as u128);
                if prod > u64::MAX as u128 {
                    Err(Errors::CalculationFail)
                } else {
                    Ok(prod as u64)
                }
            },
        }
    }

    /// The index after folding in `reward` emitted units: `reward` scaled by
    /// `REWARD_CALC_BASE`, divided over every staked unit, on top of the
    /// current index. Fails only when the new index would not fit.
    pub fn calc_reward_per_share(&self, reward: u64) -> (r: Result<u128, Errors>)
        requires
            self.total_stake > 0,
        ensures
            r is Ok <==> self.reward_per_share + reward * REWARD_CALC_BASE / (
            self.total_stake as int) <= u128::MAX,
            r matches Ok(v) ==> v == self.reward_per_share + reward * REWARD_CALC_BASE / (
            self.total_stake as int),
            r matches Ok(v) ==> v >= self.reward_per_share,
            r is Err ==> r->Err_0 == Errors::CalculationFail,
    {
        let scaled: u128 = (reward as u128) * REWARD_CALC_BASE;
        let delta: u128 = scaled / (self.total_stake as u128);
        match self.reward_per_share.checked_add(delta) {
            Some(v) => Ok(v),
            None => Err(Errors::CalculationFail),
        }
    }

    /// `scaled_reward(amount, reward_per_share)` as a fixed-width value: the
    /// debt marker recorded when an account settles at the current index.
    pub fn calc_reward_debt(&mut self, amount: u64) -> (r: Result<u64, Errors>)
        ensures
            *final(self) == *old(self),
            r is Ok <==> reward_debt_fits(amount, old(self).reward_per_share),
            r matches Ok(v) ==> v == scaled_reward(amount, old(self).reward_per_share),
            r is Err ==> r->Err_0 == Errors::CalculationFail,
    {
        match self.reward_per_share.checked_mul(amount as u128) {
            Some(prod) => {
                proof {
                    vstd::arithmetic::mul::lemma_mul_is_commutative(
                        self.reward_per_share as int,
                        amount as int,
                    );
                }
                let scaled: u128 = prod / REWARD_CALC_BASE;
                if scaled > u64::MAX as u128 {
                    Err(Errors::CalculationFail)
                } else {
                    Ok(scaled as u64)
                }
            },
            None => Err(Errors::CalculationFail),
        }
    }

    /// Settle the pool at `current_time`: emit the reward owed for the
    /// elapsed time, clamped to the remaining budget, fold it into
    /// `reward_per_share`, and advance `last_reward_timestamp`. A no-op when
    /// no time has elapsed; with nothing staked only the timestamp advances.
    /// On `CalculationFail` the pool is unchanged.
    pub fn update_pool(&mut self, current_time: u64) -> (r: Result<(), Errors>)
        ensures
            r is Ok <==> pool_settle_ok(*old(self), current_time),
            r is Ok ==> *final(self) == pool_settled(*old(self), current_time),
            r is Err ==> *final(self) == *old(self) && r->Err_0 == Errors::CalculationFail,
            final(self).reward_per_share >= old(self).reward_per_share,
            final(self).undistributed_reward <= old(self).undistributed_reward,
            r is Ok ==> old(self).undistributed_reward - final(self).undistributed_reward
                == emitted_reward(*old(self), current_time),
            same_identity_and_config(*old(self), *final(self)),
            final(self).total_stake == old(self).total_stake,
            final(self).total_reward == old(self).total_reward,
            pool_wf(*old(self)) ==> pool_wf(*final(self)),
    {
        if current_time <= self.last_reward_timestamp {
            return Ok(());
        }
        if self.total_stake == 0 {
            self.last_reward_timestamp = current_time;
            return Ok(());
        }
        let time_diff = current_time - self.last_reward_timestamp;
        let raw = match self.calc_new_reward(time_diff) {
            Ok(v) => v,
            Err(e) => {
                return Err(e);
            },
        };
        let reward = if self.undistributed_reward >= raw {
            raw
        } else {
            self.undistributed_reward
        };
        if reward > 0 {
            let new_rps = match self.calc_reward_per_share(reward) {
                Ok(v) => v,
                Err(e) => {
                    return Err(e);
                },
            };
            self.undistributed_reward = self.undistributed_reward - reward;
            self.reward_per_share = new_rps;
        }
        self.last_reward_timestamp = current_time;
        Ok(())
    }
}

impl StakeAccount {
    /// Settle the account against the pool's current index: credit the
    /// reward accrued since the last settlement on top of anything left
    /// unharvested. Must be called before `amount` changes. On
    /// `CalculationFail` (overflow, or an out-of-order call that would
    /// underflow) the account is unchanged.
    pub fn update_reward(&mut self, reward_per_share: u128) -> (r: Result<(), Errors>)
        ensures
            r is Ok <==> account_settle_ok(*old(self), reward_per_share),
            r is Ok ==> *final(self) == account_settled(*old(self), reward_per_share),
            r is Err ==> *final(self) == *old(self) && r->Err_0 == Errors::CalculationFail,
    {
        match (self.amount as u128).checked_mul(reward_per_share) {
            Some(prod) => {
                let scaled: u128 = prod / REWARD_CALC_BASE;
                proof {
                    lemma_div_is_ordered(prod as int, u128::MAX as int, REWARD_CALC_BASE as int);
                }
                let with_unharvested: u128 = scaled + (self.reward as u128);
                if with_unharvested < (self.reward_debt as u128) {
                    return Err(Errors::CalculationFail);
                }
                let v: u128 = with_unharvested - (self.reward_debt as u128);
                if v > u64::MAX as u128 {
                    Err(Errors::CalculationFail)
                } else {
                    self.reward = v as u64;
                    Ok(())
                }
            },
            None => Err(Errors::CalculationFail),
        }
    }

    /// Re-sync the debt marker to the current index, so that the next
    /// settlement counts only new accrual. On `CalculationFail` the account
    /// is unchanged.
    pub fn update_reward_debt(&mut self, reward_per_share: u128) -> (r: Result<(), Errors>)
        ensures
            r is Ok <==> reward_debt_fits(old(self).amount, reward_per_share),
            r is Ok ==> *final(self) == (StakeAccount {
                reward_debt: scaled_reward(old(self).amount, reward_per_share) as u64,
                ..*old(self)
            }),
            r is Err ==> *final(self) == *old(self) && r->Err_0 == Errors::CalculationFail,
    {
        match (self.amount as u128).checked_mul(reward_per_share) {
            Some(prod) => {
                let scaled: u128 = prod / REWARD_CALC_BASE;
                if scaled > u64::MAX as u128 {
                    Err(Errors::CalculationFail)
                } else {
                    self.reward_debt = scaled as u64;
                    Ok(())
                }
            },
            None => Err(Errors::CalculationFail),
        }
    }
}

} // verus!
