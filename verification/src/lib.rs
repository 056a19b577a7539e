//! TribeChain: a blockchain core with hybrid proof-of-work sealing.
//!
//! Blocks may be sealed by classical Hashcash-style proof-of-work or by a
//! tensor-augmented variant in which the miner additionally executes a
//! tensor-computation task drawn from the chain's task pool.

use vstd::prelude::*;

pub mod ai3;
pub mod block;
pub mod blockchain;
pub mod consensus;
pub mod contracts;
pub mod difficulty;
pub mod encode;
pub mod engine;
pub mod errors;
pub mod esp;
pub mod hashing;
pub mod laws;
pub mod ledger;
pub mod liquidity;
pub mod miner;
pub mod network;
pub mod numfmt;
pub mod ops;
pub mod pool;
pub mod pow;
pub mod runtime;
pub mod staking;
pub mod storage;
pub mod tensor;
pub mod tokens;
pub mod vm;
pub mod transaction;

verus! {

/// Fixed block subsidy credited to the miner of every accepted block,
/// in smallest token units (1 TRIBE = 10^6 units).
pub const MINING_REWARD: u64 = 50_000_000;

/// Balance granted to the `"genesis"` address in the genesis state.
pub const GENESIS_SUPPLY: u64 = 1_000_000_000_000;

} // verus!
