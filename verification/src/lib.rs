//! A reward-bearing staking ledger.
//!
//! Depositors lock a fungible balance into a shared pool and accrue a
//! proportional share of a continuously emitted reward budget; withdrawal is
//! gated by an unbonding period. The core is the accumulator/debt pattern: a
//! pool-level `reward_per_share` index advanced from elapsed time and the
//! emission policy, combined with a per-depositor settlement that turns index
//! deltas into owed rewards without rescanning all depositors.
//!
//! The library works on plain integer values. Identities (administrators,
//! depositors, pools, asset mints) are opaque `u64` tokens chosen by the host;
//! the host is also responsible for clocks, custody transfers, durable record
//! storage and signature checks, and passes the current time and custody
//! balances in as arguments. Every mutating operation is all-or-nothing: on an
//! error, no argument has been changed.
//!
//! The accounting is single-threaded per pool: each operation settles the
//! pool, then the touched record, then mutates, and that sequence must not
//! interleave with another operation on the same pool. Rust's exclusive
//! borrows enforce this within one call; a host that stores the records is
//! responsible for running at most one mutating operation per pool at a time.

pub mod admin;
pub mod errors;
pub mod helper;
pub mod initialize_staking_pool;
pub mod laws;
pub mod staker_claim;
pub mod staker_stake;
pub mod staker_unstake;
pub mod staker_withdraw;
pub mod states;
