use vstd::prelude::*;

use crate::helper::{scaled_reward, REWARD_CALC_BASE};
use crate::staker_claim::claim_spec;
use crate::states::{
    emitted_reward, pool_settle_ok, pool_settled, raw_reward_of, RewardAlgorithm, StakeAccount,
    StakingPool,
};

verus! {

use vstd::arithmetic::div_mod::{
    lemma_div_is_ordered, lemma_div_pos_is_pos, lemma_fundamental_div_mod,
    lemma_hoist_over_denominator,
};
use vstd::arithmetic::mul::{
    lemma_mul_inequality, lemma_mul_is_commutative, lemma_mul_is_distributive_add,
    lemma_mul_nonnegative,
};

/// The pool after a whole sequence of settlement attempts, one per entry of
/// `times`, an attempt that would not fit its integer domain leaving the
/// pool unchanged, exactly as the executable settlement does.
pub open spec fn settled_after(p: StakingPool, times: Seq<u64>) -> StakingPool
    decreases times.len(),
{
    if times.len() == 0 {
        p
    } else {
        let q = if pool_settle_ok(p, times[0]) {
            pool_settled(p, times[0])
        } else {
            p
        };
        settled_after(q, times.skip(1))
    }
}

/// What one settlement emits is never negative.
pub proof fn lemma_emitted_reward_nonneg(p: StakingPool, now: u64)
    ensures
        emitted_reward(p, now) >= 0,
{
    if now > p.last_reward_timestamp && p.total_stake != 0 {
        let elapsed = (now - p.last_reward_timestamp) as u64;
        match p.reward_algorithm {
            RewardAlgorithm::FixedPerTokenPerSecond => {
                lemma_mul_nonnegative(p.total_stake * elapsed, p.reward_rate as int);
                lemma_div_pos_is_pos(
                    p.total_stake * elapsed * p.reward_rate,
                    REWARD_CALC_BASE as int,
                );
            },
            RewardAlgorithm::FixedTotalPerSecond => {
                lemma_mul_nonnegative(elapsed as int, p.reward_rate as int);
            },
        }
        assert(raw_reward_of(p, elapsed) >= 0);
    }
}

/// One fitting settlement never lowers the index.
pub proof fn lemma_settle_monotonic(p: StakingPool, now: u64)
    requires
        pool_settle_ok(p, now),
    ensures
        pool_settled(p, now).reward_per_share >= p.reward_per_share,
{
    if now > p.last_reward_timestamp && p.total_stake != 0 {
        let e = emitted_reward(p, now);
        if e > 0 {
            lemma_div_pos_is_pos(e * REWARD_CALC_BASE, p.total_stake as int);
        }
    }
}

/// Monotonic index: over every sequence of settlements, however the clock
/// moves and whether or not each step fits its integer domain,
/// `reward_per_share` never decreases.
pub proof fn lemma_reward_per_share_monotonic(p: StakingPool, times: Seq<u64>)
    ensures
        settled_after(p, times).reward_per_share >= p.reward_per_share,
    decreases times.len(),
{
    if times.len() > 0 {
        let q = if pool_settle_ok(p, times[0]) {
            pool_settled(p, times[0])
        } else {
            p
        };
        if pool_settle_ok(p, times[0]) {
            lemma_settle_monotonic(p, times[0]);
        }
        lemma_reward_per_share_monotonic(q, times.skip(1));
    }
}

/// The live principal of a pool's stake records, summed.
pub open spec fn total_entry_stake(entries: Seq<StakeAccount>) -> int
    decreases entries.len(),
{
    if entries.len() == 0 {
        0
    } else {
        entries[0].amount + total_entry_stake(entries.skip(1))
    }
}

/// Replacing one record changes the sum by that record's change.
pub proof fn lemma_total_entry_stake_update(entries: Seq<StakeAccount>, i: int, e: StakeAccount)
    requires
        0 <= i < entries.len(),
    ensures
        total_entry_stake(entries.update(i, e)) == total_entry_stake(entries) - entries[i].amount
            + e.amount,
    decreases entries.len(),
{
    if i == 0 {
        assert(entries.update(i, e).skip(1) =~= entries.skip(1));
    } else {
        assert(entries.update(i, e).skip(1) =~= entries.skip(1).update(i - 1, e));
        lemma_total_entry_stake_update(entries.skip(1), i - 1, e);
    }
}

/// Appending a record grows the sum by that record's principal.
pub proof fn lemma_total_entry_stake_push(entries: Seq<StakeAccount>, e: StakeAccount)
    ensures
        total_entry_stake(entries.push(e)) == total_entry_stake(entries) + e.amount,
    decreases entries.len(),
{
    if entries.len() == 0 {
        assert(entries.push(e)[0] == e);
        assert(entries.push(e).skip(1) =~= Seq::<StakeAccount>::empty());
        assert(total_entry_stake(entries.push(e).skip(1)) == 0);
        assert(total_entry_stake(entries.push(e)) == entries.push(e)[0].amount
            + total_entry_stake(entries.push(e).skip(1)));
    } else {
        assert(entries.push(e)[0] == entries[0]);
        assert(entries.push(e).skip(1) =~= entries.skip(1).push(e));
        lemma_total_entry_stake_push(entries.skip(1), e);
        assert(total_entry_stake(entries.push(e)) == entries.push(e)[0].amount
            + total_entry_stake(entries.push(e).skip(1)));
    }
}

/// Conservation: every mutating operation of this library ensures that it
/// moves `total_stake` and the touched record's `amount` by the same delta.
/// So if `total_stake` equalled the summed principal before the operation,
/// it does again after the touched record is written back.
pub proof fn lemma_conservation_preserved(
    entries: Seq<StakeAccount>,
    i: int,
    e: StakeAccount,
    old_total: u64,
    new_total: u64,
)
    requires
        0 <= i < entries.len(),
        total_entry_stake(entries) == old_total,
        new_total - old_total == e.amount - entries[i].amount,
    ensures
        total_entry_stake(entries.update(i, e)) == new_total,
{
    lemma_total_entry_stake_update(entries, i, e);
}

/// Conservation on first deposit: a fresh record enters the sum with
/// exactly the delta that entered `total_stake`.
pub proof fn lemma_conservation_new_entry(
    entries: Seq<StakeAccount>,
    e: StakeAccount,
    old_total: u64,
    new_total: u64,
)
    requires
        total_entry_stake(entries) == old_total,
        new_total - old_total == e.amount,
    ensures
        total_entry_stake(entries.push(e)) == new_total,
{
    lemma_total_entry_stake_push(entries, e);
}

/// Budget bound, pool side: one settlement raises the index by at most what
/// it actually drew from the funded budget — the index increment, spread
/// back over every staked unit, never exceeds the emitted reward.
pub proof fn lemma_index_increment_within_budget(p: StakingPool, now: u64)
    requires
        pool_settle_ok(p, now),
    ensures
        (pool_settled(p, now).reward_per_share - p.reward_per_share) * p.total_stake
            <= emitted_reward(p, now) * REWARD_CALC_BASE,
{
    lemma_emitted_reward_nonneg(p, now);
    let e = emitted_reward(p, now);
    if now > p.last_reward_timestamp && p.total_stake != 0 && e > 0 {
        let ts = p.total_stake as int;
        let delta = e * REWARD_CALC_BASE / ts;
        lemma_fundamental_div_mod(e * REWARD_CALC_BASE, ts);
        lemma_mul_is_commutative(delta, ts);
    } else {
        assert(pool_settled(p, now).reward_per_share == p.reward_per_share);
    }
}

/// Budget bound, account side: what one settlement at `now` adds to the
/// worth of any holding no larger than the whole staked supply is at most
/// the reward that settlement emitted — no account can be credited more
/// than the budget the pool drew for the interval.
pub proof fn lemma_account_accrual_within_emitted(p: StakingPool, now: u64, amount: u64)
    requires
        pool_settle_ok(p, now),
        amount <= p.total_stake,
    ensures
        scaled_reward(amount, pool_settled(p, now).reward_per_share) - scaled_reward(
            amount,
            p.reward_per_share,
        ) <= emitted_reward(p, now),
{
    lemma_emitted_reward_nonneg(p, now);
    let e = emitted_reward(p, now);
    let b = REWARD_CALC_BASE as int;
    let rps = p.reward_per_share as int;
    let rps2 = pool_settled(p, now).reward_per_share as int;
    if now > p.last_reward_timestamp && p.total_stake != 0 && e > 0 {
        let ts = p.total_stake as int;
        let delta = e * b / ts;
        lemma_settle_monotonic(p, now);
        assert(rps2 == rps + delta);
        // the account's slice of the increment is at most the emitted budget
        lemma_fundamental_div_mod(e * b, ts);
        lemma_mul_is_commutative(delta, ts);
        assert(delta * ts <= e * b);
        lemma_mul_inequality(amount as int, ts, delta);
        lemma_mul_is_commutative(amount as int, delta);
        lemma_mul_is_commutative(ts, delta);
        assert(amount * delta <= e * b);
        // hence its worth grows by at most e whole units
        lemma_mul_is_distributive_add(amount as int, rps, delta);
        assert(amount * rps2 == amount * rps + amount * delta);
        lemma_div_is_ordered(amount * rps2, amount * rps + e * b, b);
        lemma_hoist_over_denominator(amount * rps, e, REWARD_CALC_BASE as nat);
        assert((amount * rps + e * b) / b == amount * rps / b + e);
    } else {
        assert(rps2 == rps);
    }
}

/// No double accrual: a second harvest at the same instant, with no deposit
/// or withdrawal in between, finds a fully settled record and yields zero,
/// changing nothing — whatever its `restake` flag and whatever custody
/// balance the host reads.
pub proof fn lemma_no_double_accrual(
    pool: StakingPool,
    acct: StakeAccount,
    pool_key: u64,
    user: u64,
    restake: bool,
    pool_balance: u64,
    restake2: bool,
    pool_balance2: u64,
    now: u64,
)
    requires
        claim_spec(pool, acct, pool_key, user, restake, pool_balance, now) is Ok,
    ensures
        ({
            let (p1, a1, c1) = claim_spec(
                pool,
                acct,
                pool_key,
                user,
                restake,
                pool_balance,
                now,
            )->Ok_0;
            claim_spec(p1, a1, pool_key, user, restake2, pool_balance2, now) == Ok::<
                (StakingPool, StakeAccount, u64),
                crate::errors::Errors,
            >((p1, a1, 0u64))
        }),
{
    let (p1, a1, c1) = claim_spec(pool, acct, pool_key, user, restake, pool_balance, now)->Ok_0;
    assert(now <= p1.last_reward_timestamp);
    assert(pool_settled(p1, now) == p1);
    assert(a1.reward == 0);
    assert(a1.reward_debt == scaled_reward(a1.amount, p1.reward_per_share) as u64);
}

} // verus!
