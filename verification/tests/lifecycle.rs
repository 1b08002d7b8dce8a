use staking_program::admin::{accept_admin, add_rewards, config, transfer_admin, ConfigParams};
use staking_program::errors::Errors;
use staking_program::initialize_staking_pool::{
    initialize_staking_pool, InitializeStakingPoolParams,
};
use staking_program::staker_claim::claim;
use staking_program::staker_stake::stake;
use staking_program::staker_unstake::unstake;
use staking_program::staker_withdraw::withdraw;
use staking_program::states::{RewardAlgorithm, StakeAccount, StakingPool};

const ADMIN: u64 = 7;
const MINT: u64 = 9;
const POOL_KEY: u64 = 1;
const ALICE: u64 = 5;
const BOB: u64 = 6;
const BALANCE: u64 = 1_000_000;

fn fresh_account() -> StakeAccount {
    StakeAccount {
        staking_pool: 0,
        user: 0,
        amount: 0,
        reward: 0,
        reward_debt: 0,
    }
}

fn standard_pool(total_reward: u64) -> StakingPool {
    let params = InitializeStakingPoolParams {
        reward_rate: 1000,
        total_reward,
        unbonding_seconds: 60,
        reward_algorithm: RewardAlgorithm::FixedPerTokenPerSecond,
    };
    initialize_staking_pool(ADMIN, MINT, params).unwrap()
}

#[test]
fn initialize_rejects_zero_rate_and_zero_unbonding() {
    let params = InitializeStakingPoolParams {
        reward_rate: 0,
        total_reward: 10,
        unbonding_seconds: 60,
        reward_algorithm: RewardAlgorithm::FixedPerTokenPerSecond,
    };
    assert_eq!(
        initialize_staking_pool(ADMIN, MINT, params),
        Err(Errors::ParamsNotMatch)
    );
    let params = InitializeStakingPoolParams {
        reward_rate: 1,
        total_reward: 10,
        unbonding_seconds: 0,
        reward_algorithm: RewardAlgorithm::FixedPerTokenPerSecond,
    };
    assert_eq!(
        initialize_staking_pool(ADMIN, MINT, params),
        Err(Errors::ParamsNotMatch)
    );
}

#[test]
fn initialize_funds_whole_budget() {
    let pool = standard_pool(123);
    assert_eq!(pool.total_reward, 123);
    assert_eq!(pool.undistributed_reward, 123);
    assert_eq!(pool.total_stake, 0);
    assert_eq!(pool.reward_per_share, 0);
    assert_eq!(pool.admin, ADMIN);
    assert_eq!(pool.creator, ADMIN);
    assert_eq!(pool.pending_admin, 0);
}

// Scenario A: one depositor stakes 1e9 units at t=0 under a per-unit rate of
// 1000; at t=10 the harvest is total_stake * elapsed * rate / BASE = 10.
#[test]
fn scenario_single_staker_harvest() {
    let mut pool = standard_pool(BALANCE);
    let mut alice = fresh_account();
    assert_eq!(
        stake(&mut pool, POOL_KEY, &mut alice, ALICE, 1_000_000_000, 0),
        Ok(())
    );
    assert_eq!(pool.total_stake, 1_000_000_000);
    assert_eq!(alice.amount, 1_000_000_000);
    assert_eq!(alice.reward_debt, 0);
    let got = claim(&mut pool, POOL_KEY, &mut alice, ALICE, false, BALANCE, 10);
    assert_eq!(got, Ok(10));
    assert_eq!(pool.undistributed_reward, BALANCE - 10);
    assert_eq!(pool.reward_per_share, 10_000);
    assert_eq!(alice.reward, 0);
    assert_eq!(alice.reward_debt, 10);
}

// No double accrual: a second harvest at the same instant yields zero and
// changes nothing.
#[test]
fn harvest_twice_same_instant_yields_zero() {
    let mut pool = standard_pool(BALANCE);
    let mut alice = fresh_account();
    stake(&mut pool, POOL_KEY, &mut alice, ALICE, 1_000_000_000, 0).unwrap();
    assert_eq!(
        claim(&mut pool, POOL_KEY, &mut alice, ALICE, false, BALANCE, 10),
        Ok(10)
    );
    let pool_before = pool;
    let alice_before = alice;
    assert_eq!(
        claim(&mut pool, POOL_KEY, &mut alice, ALICE, false, BALANCE, 10),
        Ok(0)
    );
    assert_eq!(pool, pool_before);
    assert_eq!(alice, alice_before);
}

// A zero-reward harvest is a silent no-op, not an error.
#[test]
fn zero_reward_harvest_is_silent_noop() {
    let mut pool = standard_pool(BALANCE);
    let mut alice = fresh_account();
    stake(&mut pool, POOL_KEY, &mut alice, ALICE, 1_000_000_000, 0).unwrap();
    assert_eq!(
        claim(&mut pool, POOL_KEY, &mut alice, ALICE, false, BALANCE, 0),
        Ok(0)
    );
}

// Settlement order: the engine settles the account before the principal
// changes. Unstaking half at t=10 must leave the full 10 units accrued on
// the original principal, not the 5 a mutate-then-settle ordering would
// attribute.
#[test]
fn settle_before_amount_change() {
    let mut pool = standard_pool(BALANCE);
    let mut alice = fresh_account();
    stake(&mut pool, POOL_KEY, &mut alice, ALICE, 1_000_000_000, 0).unwrap();
    unstake(&mut pool, POOL_KEY, &mut alice, ALICE, 500_000_000, 10).unwrap();
    let wrong_order_reward = 5;
    assert_eq!(alice.reward, 10);
    assert_ne!(alice.reward, wrong_order_reward);
    // the accrued reward survives the principal change unchanged
    assert_eq!(
        claim(&mut pool, POOL_KEY, &mut alice, ALICE, false, BALANCE, 10),
        Ok(10)
    );
}

// Scenario B: equal deposits at different times; the later depositor ends
// with strictly less cumulative reward.
#[test]
fn later_staker_earns_strictly_less() {
    let mut pool = standard_pool(BALANCE);
    let mut alice = fresh_account();
    let mut bob = fresh_account();
    stake(&mut pool, POOL_KEY, &mut alice, ALICE, 1_000_000_000, 0).unwrap();
    stake(&mut pool, POOL_KEY, &mut bob, BOB, 1_000_000_000, 100).unwrap();
    let alice_total = claim(&mut pool, POOL_KEY, &mut alice, ALICE, false, BALANCE, 200).unwrap();
    let bob_total = claim(&mut pool, POOL_KEY, &mut bob, BOB, false, BALANCE, 200).unwrap();
    assert_eq!(alice_total, 200);
    assert_eq!(bob_total, 100);
    assert!(bob_total < alice_total);
}

// Conservation: the summed live principal tracks total_stake through
// deposits, withdrawal requests and restaking harvests.
#[test]
fn total_stake_equals_summed_principal() {
    let mut pool = standard_pool(BALANCE);
    let mut alice = fresh_account();
    let mut bob = fresh_account();
    stake(&mut pool, POOL_KEY, &mut alice, ALICE, 1_000_000_000, 0).unwrap();
    assert_eq!(alice.amount + bob.amount, pool.total_stake);
    stake(&mut pool, POOL_KEY, &mut bob, BOB, 2_000_000_000, 50).unwrap();
    assert_eq!(alice.amount + bob.amount, pool.total_stake);
    unstake(&mut pool, POOL_KEY, &mut alice, ALICE, 250_000_000, 100).unwrap();
    assert_eq!(alice.amount + bob.amount, pool.total_stake);
    claim(&mut pool, POOL_KEY, &mut bob, BOB, true, 0, 150).unwrap();
    assert_eq!(alice.amount + bob.amount, pool.total_stake);
    claim(&mut pool, POOL_KEY, &mut alice, ALICE, false, BALANCE, 200).unwrap();
    assert_eq!(alice.amount + bob.amount, pool.total_stake);
}

// Monotonic index: reward_per_share never decreases across a mixed sequence
// of operations.
#[test]
fn reward_per_share_never_decreases() {
    let mut pool = standard_pool(BALANCE);
    let mut alice = fresh_account();
    let mut last = pool.reward_per_share;
    stake(&mut pool, POOL_KEY, &mut alice, ALICE, 1_000_000_000, 0).unwrap();
    assert!(pool.reward_per_share >= last);
    last = pool.reward_per_share;
    claim(&mut pool, POOL_KEY, &mut alice, ALICE, false, BALANCE, 5).unwrap();
    assert!(pool.reward_per_share >= last);
    last = pool.reward_per_share;
    unstake(&mut pool, POOL_KEY, &mut alice, ALICE, 500_000_000, 10).unwrap();
    assert!(pool.reward_per_share >= last);
    last = pool.reward_per_share;
    add_rewards(&mut pool, 100, 15).unwrap();
    assert!(pool.reward_per_share >= last);
    last = pool.reward_per_share;
    claim(&mut pool, POOL_KEY, &mut alice, ALICE, false, BALANCE, 20).unwrap();
    assert!(pool.reward_per_share >= last);
}

// Scenario C: withdrawal is gated by the unbonding period and pays out
// exactly once.
#[test]
fn withdraw_gated_by_unbonding_and_consumed_once() {
    let mut pool = standard_pool(BALANCE);
    let mut alice = fresh_account();
    stake(&mut pool, POOL_KEY, &mut alice, ALICE, 1_000_000_000, 0).unwrap();
    let mut ua = unstake(&mut pool, POOL_KEY, &mut alice, ALICE, 400_000_000, 10).unwrap();
    assert_eq!(ua.amount, 400_000_000);
    assert_eq!(ua.withdrawable_timestamp, 70);
    assert_eq!(pool.total_stake, 600_000_000);
    assert_eq!(alice.amount, 600_000_000);
    assert_eq!(
        withdraw(&mut ua, POOL_KEY, ALICE, 1_000_000_000, 50),
        Err(Errors::UnstakeAccountNotClaimable)
    );
    assert_eq!(withdraw(&mut ua, POOL_KEY, ALICE, 1_000_000_000, 70), Ok(400_000_000));
    assert_eq!(ua.amount, 0);
    assert_eq!(
        withdraw(&mut ua, POOL_KEY, ALICE, 1_000_000_000, 71),
        Err(Errors::UnstakeAccountAmountZero)
    );
}

// Scenario D: an underfunded pool clamps emission to the budget and
// undistributed_reward reaches exactly zero.
#[test]
fn emission_clamped_to_funded_budget() {
    let mut pool = standard_pool(0);
    add_rewards(&mut pool, 5, 0).unwrap();
    assert_eq!(pool.total_reward, 5);
    assert_eq!(pool.undistributed_reward, 5);
    let mut alice = fresh_account();
    stake(&mut pool, POOL_KEY, &mut alice, ALICE, 1_000_000_000, 0).unwrap();
    // raw emission for the interval would be 10; only 5 are funded
    assert_eq!(
        claim(&mut pool, POOL_KEY, &mut alice, ALICE, false, BALANCE, 10),
        Ok(5)
    );
    assert_eq!(pool.undistributed_reward, 0);
    assert!(pool.undistributed_reward <= pool.total_reward);
}

#[test]
fn restake_compounds_without_leaving_custody() {
    let mut pool = standard_pool(BALANCE);
    let mut alice = fresh_account();
    stake(&mut pool, POOL_KEY, &mut alice, ALICE, 1_000_000_000, 0).unwrap();
    // restaking needs no custody balance at all
    assert_eq!(claim(&mut pool, POOL_KEY, &mut alice, ALICE, true, 0, 10), Ok(10));
    assert_eq!(alice.amount, 1_000_000_010);
    assert_eq!(pool.total_stake, 1_000_000_010);
    assert_eq!(alice.reward, 0);
}

// An incremental deposit settles the account first, so the reward accrued on
// the old principal survives the principal change.
#[test]
fn incremental_deposit_keeps_accrued_reward() {
    let mut pool = standard_pool(BALANCE);
    let mut alice = fresh_account();
    stake(&mut pool, POOL_KEY, &mut alice, ALICE, 1_000_000_000, 0).unwrap();
    stake(&mut pool, POOL_KEY, &mut alice, ALICE, 1_000_000_000, 10).unwrap();
    assert_eq!(alice.amount, 2_000_000_000);
    assert_eq!(alice.reward, 10);
    // debt resynced to the grown principal: 2e9 * 10_000 / 1e12
    assert_eq!(alice.reward_debt, 20);
    assert_eq!(
        claim(&mut pool, POOL_KEY, &mut alice, ALICE, false, BALANCE, 10),
        Ok(10)
    );
}

#[test]
fn claim_wrong_owner_rejected() {
    let mut pool = standard_pool(BALANCE);
    let mut alice = fresh_account();
    stake(&mut pool, POOL_KEY, &mut alice, ALICE, 1_000_000_000, 0).unwrap();
    assert_eq!(
        claim(&mut pool, POOL_KEY, &mut alice, BOB, false, BALANCE, 10),
        Err(Errors::InvalidStakeAccount)
    );
    assert_eq!(
        claim(&mut pool, POOL_KEY + 1, &mut alice, ALICE, false, BALANCE, 10),
        Err(Errors::InvalidStakeAccount)
    );
}

// Budget bound: everything ever harvested stays within what was funded.
#[test]
fn cumulative_harvest_never_exceeds_funding() {
    let mut pool = standard_pool(40);
    let mut alice = fresh_account();
    let mut bob = fresh_account();
    stake(&mut pool, POOL_KEY, &mut alice, ALICE, 1_000_000_000, 0).unwrap();
    stake(&mut pool, POOL_KEY, &mut bob, BOB, 1_000_000_000, 2).unwrap();
    let mut credited: u64 = 0;
    credited += claim(&mut pool, POOL_KEY, &mut alice, ALICE, false, BALANCE, 6).unwrap();
    credited += claim(&mut pool, POOL_KEY, &mut bob, BOB, false, BALANCE, 9).unwrap();
    add_rewards(&mut pool, 10, 12).unwrap();
    credited += claim(&mut pool, POOL_KEY, &mut alice, ALICE, false, BALANCE, 100).unwrap();
    credited += claim(&mut pool, POOL_KEY, &mut bob, BOB, false, BALANCE, 100).unwrap();
    assert!(credited <= pool.total_reward);
    // the budget ran dry along the way: everything funded was emitted
    assert_eq!(pool.undistributed_reward, 0);
    assert_eq!(pool.total_reward, 50);
}

#[test]
fn stake_below_minimum_rejected() {
    let mut pool = standard_pool(BALANCE);
    let mut alice = fresh_account();
    let pool_before = pool;
    assert_eq!(
        stake(&mut pool, POOL_KEY, &mut alice, ALICE, 999_999_999, 0),
        Err(Errors::StakeAmountTooLow)
    );
    assert_eq!(pool, pool_before);
    assert_eq!(alice, fresh_account());
}

#[test]
fn stake_wrong_owner_rejected() {
    let mut pool = standard_pool(BALANCE);
    let mut alice = fresh_account();
    stake(&mut pool, POOL_KEY, &mut alice, ALICE, 1_000_000_000, 0).unwrap();
    assert_eq!(
        stake(&mut pool, POOL_KEY, &mut alice, BOB, 1_000_000_000, 5),
        Err(Errors::InvalidStakeAccount)
    );
}

#[test]
fn unstake_validation_errors() {
    let mut pool = standard_pool(BALANCE);
    let mut alice = fresh_account();
    stake(&mut pool, POOL_KEY, &mut alice, ALICE, 1_000_000_000, 0).unwrap();
    assert_eq!(
        unstake(&mut pool, POOL_KEY, &mut alice, BOB, 1, 5),
        Err(Errors::InvalidStakeAccount)
    );
    assert_eq!(
        unstake(&mut pool, POOL_KEY, &mut alice, ALICE, 0, 5),
        Err(Errors::UnstakeAmountIsZero)
    );
    assert_eq!(
        unstake(&mut pool, POOL_KEY, &mut alice, ALICE, 1_000_000_001, 5),
        Err(Errors::BalanceNotEnough)
    );
}

#[test]
fn withdraw_validation_errors() {
    let mut pool = standard_pool(BALANCE);
    let mut alice = fresh_account();
    stake(&mut pool, POOL_KEY, &mut alice, ALICE, 1_000_000_000, 0).unwrap();
    let mut ua = unstake(&mut pool, POOL_KEY, &mut alice, ALICE, 400_000_000, 10).unwrap();
    assert_eq!(
        withdraw(&mut ua, POOL_KEY + 1, ALICE, 1_000_000_000, 70),
        Err(Errors::InvalidUnstakeAccount)
    );
    assert_eq!(
        withdraw(&mut ua, POOL_KEY, BOB, 1_000_000_000, 70),
        Err(Errors::InvalidUnstakeAccount)
    );
    // custody short of the matured amount
    assert_eq!(
        withdraw(&mut ua, POOL_KEY, ALICE, 399_999_999, 70),
        Err(Errors::PoolBalanceNotEnough)
    );
    assert_eq!(ua.amount, 400_000_000);
}

#[test]
fn claim_needs_custody_balance() {
    let mut pool = standard_pool(BALANCE);
    let mut alice = fresh_account();
    stake(&mut pool, POOL_KEY, &mut alice, ALICE, 1_000_000_000, 0).unwrap();
    let pool_before_settle = pool;
    assert_eq!(
        claim(&mut pool, POOL_KEY, &mut alice, ALICE, false, 9, 10),
        Err(Errors::PoolBalanceNotEnough)
    );
    // the failed harvest left everything untouched
    assert_eq!(pool, pool_before_settle);
    assert_eq!(alice.reward, 0);
    assert_eq!(
        claim(&mut pool, POOL_KEY, &mut alice, ALICE, false, 10, 10),
        Ok(10)
    );
}

#[test]
fn admin_handoff_two_steps() {
    let mut pool = standard_pool(BALANCE);
    let new_admin: u64 = 11;
    assert_eq!(
        transfer_admin(&mut pool, new_admin, new_admin),
        Err(Errors::AdminNotMatch)
    );
    assert_eq!(transfer_admin(&mut pool, ADMIN, new_admin), Ok(()));
    assert_eq!(pool.pending_admin, new_admin);
    assert_eq!(pool.admin, ADMIN);
    assert_eq!(accept_admin(&mut pool, ADMIN), Err(Errors::PendingAdminNotMatch));
    assert_eq!(accept_admin(&mut pool, new_admin), Ok(()));
    assert_eq!(pool.admin, new_admin);
    assert_eq!(pool.pending_admin, 0);
    // the old administrator has lost its authority
    assert_eq!(
        config(&mut pool, ADMIN, ConfigParams::default(), 0),
        Err(Errors::AdminNotMatch)
    );
}

#[test]
fn add_rewards_validation_and_effect() {
    let mut pool = standard_pool(100);
    assert_eq!(add_rewards(&mut pool, 0, 5), Err(Errors::ParamsNotMatch));
    assert_eq!(add_rewards(&mut pool, 40, 5), Ok(()));
    assert_eq!(pool.total_reward, 140);
    assert_eq!(pool.undistributed_reward, 140);
}

// A rate change settles the pool first: the old rate covers the elapsed
// time, the new rate only the future.
#[test]
fn config_rate_change_is_not_retroactive() {
    let mut pool = standard_pool(BALANCE);
    let mut alice = fresh_account();
    stake(&mut pool, POOL_KEY, &mut alice, ALICE, 1_000_000_000, 0).unwrap();
    let params = ConfigParams {
        min_stake_amount: None,
        reward_rate: Some(2000),
        unbonding_seconds: None,
        reward_algorithm: None,
    };
    assert_eq!(config(&mut pool, ADMIN, params, 10), Ok(()));
    assert_eq!(pool.reward_rate, 2000);
    // 10 seconds at rate 1000, then 10 seconds at rate 2000
    assert_eq!(
        claim(&mut pool, POOL_KEY, &mut alice, ALICE, false, BALANCE, 20),
        Ok(30)
    );
}

#[test]
fn config_algorithm_change_is_not_retroactive() {
    let mut pool = standard_pool(BALANCE);
    let mut alice = fresh_account();
    stake(&mut pool, POOL_KEY, &mut alice, ALICE, 1_000_000_000, 0).unwrap();
    let params = ConfigParams {
        min_stake_amount: None,
        reward_rate: Some(7),
        unbonding_seconds: None,
        reward_algorithm: Some(RewardAlgorithm::FixedTotalPerSecond),
    };
    assert_eq!(config(&mut pool, ADMIN, params, 10), Ok(()));
    // 10 seconds per-token at rate 1000 emit 10, then 10 seconds at a flat 7
    // per second emit 70
    assert_eq!(
        claim(&mut pool, POOL_KEY, &mut alice, ALICE, false, BALANCE, 20),
        Ok(80)
    );
}

#[test]
fn config_lowers_minimum_stake() {
    let mut pool = standard_pool(BALANCE);
    let params = ConfigParams {
        min_stake_amount: Some(100),
        reward_rate: None,
        unbonding_seconds: Some(30),
        reward_algorithm: None,
    };
    assert_eq!(config(&mut pool, ADMIN, params, 0), Ok(()));
    assert_eq!(pool.min_stake_amount, 100);
    assert_eq!(pool.unbonding_seconds, 30);
    let mut alice = fresh_account();
    assert_eq!(stake(&mut pool, POOL_KEY, &mut alice, ALICE, 100, 0), Ok(()));
}

// A maturity timestamp that cannot be represented aborts the withdrawal
// request with nothing changed.
#[test]
fn unstake_near_end_of_time_fails_cleanly() {
    let mut pool = StakingPool {
        creator: ADMIN,
        admin: ADMIN,
        pending_admin: 0,
        token_mint: MINT,
        min_stake_amount: 1,
        unbonding_seconds: 60,
        reward_rate: 1,
        reward_algorithm: RewardAlgorithm::FixedPerTokenPerSecond,
        total_stake: 1_000_000_000,
        total_reward: 0,
        undistributed_reward: 0,
        last_reward_timestamp: u64::MAX - 5,
        reward_per_share: 0,
    };
    let mut alice = StakeAccount {
        staking_pool: POOL_KEY,
        user: ALICE,
        amount: 1_000_000_000,
        reward: 0,
        reward_debt: 0,
    };
    let pool_before = pool;
    let alice_before = alice;
    assert_eq!(
        unstake(&mut pool, POOL_KEY, &mut alice, ALICE, 1, u64::MAX - 1),
        Err(Errors::CalculationFail)
    );
    assert_eq!(pool, pool_before);
    assert_eq!(alice, alice_before);
}

#[test]
fn failed_settlement_aborts_whole_operation() {
    let mut pool = standard_pool(BALANCE);
    let mut alice = fresh_account();
    stake(&mut pool, POOL_KEY, &mut alice, ALICE, 1_000_000_000, 0).unwrap();
    // push the rate so far that the next settlement cannot be represented
    let params = ConfigParams {
        min_stake_amount: None,
        reward_rate: Some(u64::MAX),
        unbonding_seconds: None,
        reward_algorithm: Some(RewardAlgorithm::FixedTotalPerSecond),
    };
    assert_eq!(config(&mut pool, ADMIN, params, 0), Ok(()));
    let pool_before = pool;
    let alice_before = alice;
    assert_eq!(
        claim(&mut pool, POOL_KEY, &mut alice, ALICE, false, BALANCE, 5),
        Err(Errors::CalculationFail)
    );
    assert_eq!(pool, pool_before);
    assert_eq!(alice, alice_before);
}
