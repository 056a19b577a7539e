//! The mining pool: membership, share accounting and reward policy.

use vstd::prelude::*;
use crate::block::has_zero_prefix;
use crate::errors::{TribeError, TribeResult};
use crate::miner::Miner;
use crate::pow::AI3WorkProof;

verus! {

use vstd::string::{StringExecFns, StrSliceExecFns};

/// How a pool divides block rewards.
#[derive(Debug, Clone)]
pub enum RewardDistribution {
    Proportional,
    PayPerShare,
    PayPerLastNShares(u64),
    ScoreBasedShares,
}

/// Pool configuration.
#[derive(Debug, Clone)]
pub struct PoolConfig {
    pub max_miners: usize,
    pub min_difficulty: u32,
    pub pool_fee_permille: u64,
    pub payout_threshold: u64,
    pub payout_interval_hours: u64,
    pub auto_difficulty_adjustment: bool,
    pub allow_ai3_mining: bool,
    pub require_registration: bool,
}

impl Default for PoolConfig {
    /// The stock pool settings.
    fn default() -> (r: Self)
        ensures
            r.max_miners == 1000,
            r.min_difficulty == 4,
            r.pool_fee_permille == 20,
            r.payout_threshold == 1000000,
            r.payout_interval_hours == 24,
            r.auto_difficulty_adjustment,
            r.allow_ai3_mining,
            !r.require_registration,
    {
        Self {
            max_miners: 1000,
            min_difficulty: 4,
            pool_fee_permille: 20,
            payout_threshold: 1000000,
            payout_interval_hours: 24,
            auto_difficulty_adjustment: true,
            allow_ai3_mining: true,
            require_registration: false,
        }
    }
}

/// Pool statistics.
#[derive(Debug, Clone, Copy)]
pub struct PoolStats {
    pub total_miners: usize,
    pub active_miners: usize,
    pub total_hash_rate: u64,
    pub blocks_found: u64,
    pub total_shares: u64,
    pub valid_shares: u64,
    pub invalid_shares: u64,
    pub last_block_time: Option<u64>,
}

impl Default for PoolStats {
    /// All counters at zero.
    fn default() -> (r: Self)
        ensures
            r.total_miners == 0,
            r.active_miners == 0,
            r.blocks_found == 0,
            r.total_shares == 0,
            r.valid_shares == 0,
            r.invalid_shares == 0,
    {
        Self {
            total_miners: 0,
            active_miners: 0,
            total_hash_rate: 0,
            blocks_found: 0,
            total_shares: 0,
            valid_shares: 0,
            invalid_shares: 0,
            last_block_time: None,
        }
    }
}

/// One share submitted by a pool member.
#[derive(Debug, Clone)]
pub struct MiningShare {
    pub miner_id: String,
    pub block_height: u64,
    pub nonce: u64,
    pub hash: String,
    pub difficulty: u32,
    pub is_valid: bool,
    pub timestamp: u64,
    pub ai3_proof: Option<AI3WorkProof>,
}

/// One member's earnings summary.
#[derive(Debug, Clone)]
pub struct MinerEarnings {
    pub miner_id: String,
    pub total_shares: u64,
    pub valid_shares: u64,
    pub total_earnings: u64,
    pub pending_payout: u64,
    pub last_payout: Option<u64>,
}

/// The miners whose identifier is not `id`, in order.
pub open spec fn keep_miners(s: Seq<Miner>, id: Seq<char>) -> Seq<Miner>
    decreases s.len(),
{
    if s.len() == 0 {
        Seq::empty()
    } else {
        keep_miners(s.drop_last(), id) + if s.last().id@ != id {
            seq![s.last()]
        } else {
            Seq::empty()
        }
    }
}

/// A mining pool.
#[derive(Debug)]
pub struct MiningPool {
    pub pool_id: String,
    pub name: String,
    pub miners: Vec<Miner>,
    pub stats: PoolStats,
    pub config: PoolConfig,
    pub reward_distribution: RewardDistribution,
    pub is_active: bool,
    pub created_at: u64,
}

impl MiningPool {
    /// A fresh, active, empty pool with proportional rewards.
    pub fn new(pool_id: String, name: String, config: PoolConfig) -> (r: Self)
        ensures
            r.pool_id == pool_id,
            r.name == name,
            r.config == config,
            r.miners@.len() == 0,
            r.reward_distribution is Proportional,
            r.is_active,
            r.stats.total_miners == 0,
    {
        Self {
            pool_id,
            name,
            miners: Vec::new(),
            stats: PoolStats::default(),
            config,
            reward_distribution: RewardDistribution::Proportional,
            is_active: true,
            created_at: crate::runtime::now_seconds(),
        }
    }

    /// Admits a miner: rejected when the pool is full, or when
    /// registration is demanded and the miner is inactive.
    pub fn add_miner(&mut self, miner: Miner) -> (r: TribeResult<()>)
        ensures
            r is Ok <==> (old(self).miners@.len() < old(self).config.max_miners && (old(self).config.require_registration ==> miner.is_active)),
            r is Ok ==> final(self).miners@ == old(self).miners@.push(miner),
            r is Ok ==> final(self).stats.total_miners == final(self).miners@.len(),
            r is Err ==> *final(self) == *old(self),
    {
        if self.miners.len() >= self.config.max_miners {
            return Err(TribeError::InvalidOperation(String::from_str("pool is full")));
        }
        if self.config.require_registration && !miner.is_active {
            return Err(TribeError::InvalidOperation(String::from_str(
                "miner must be registered",
            )));
        }
        self.miners.push(miner);
        self.stats.total_miners = self.miners.len();
        Ok(())
    }

    /// Removes every member with the given identifier; the others are
    /// kept in order with their identity, class, capability profile and
    /// statistics intact. Fails when none matches.
    #[verifier::loop_isolation(false)]
    pub fn remove_miner(&mut self, miner_id: &str) -> (r: TribeResult<()>)
        ensures
            forall|i: int|
                0 <= i < final(self).miners@.len() ==> (#[trigger] final(self).miners@[i]).id@ != miner_id@,
            final(self).miners@.len() == keep_miners(old(self).miners@, miner_id@).len(),
            forall|i: int|
                0 <= i < final(self).miners@.len() ==> {
                    let kept = keep_miners(old(self).miners@, miner_id@)[i];
                    &&& (#[trigger] final(self).miners@[i]).id@ == kept.id@
                    &&& final(self).miners@[i].address@ == kept.address@
                    &&& final(self).miners@[i].miner_type == kept.miner_type
                    &&& final(self).miners@[i].capabilities.hash_rate == kept.capabilities.hash_rate
                    &&& final(self).miners@[i].capabilities.supports_ai3
                        == kept.capabilities.supports_ai3
                    &&& final(self).miners@[i].capabilities.max_tensor_size
                        == kept.capabilities.max_tensor_size
                    &&& final(self).miners@[i].stats == kept.stats
                    &&& final(self).miners@[i].is_active == kept.is_active
                },
            final(self).stats.total_miners == final(self).miners@.len(),
            r is Err ==> final(self).miners@.len() == old(self).miners@.len(),
    {
        let id_owned = String::from_str(miner_id);
        let before = self.miners.len();
        let mut kept: Vec<Miner> = Vec::new();
        let n = self.miners.len();
        let mut i: usize = 0;
        while i < n
            invariant
                i <= n,
                n == self.miners@.len(),
                id_owned@ == miner_id@,
                *self == *old(self),
                kept@.len() <= i,
                kept@.len() == keep_miners(self.miners@.take(i as int), miner_id@).len(),
                forall|j: int| 0 <= j < kept@.len() ==> (#[trigger] kept@[j]).id@ != miner_id@,
                forall|j: int|
                    0 <= j < kept@.len() ==> {
                        let want = keep_miners(self.miners@.take(i as int), miner_id@)[j];
                        &&& (#[trigger] kept@[j]).id@ == want.id@
                        &&& kept@[j].address@ == want.address@
                        &&& kept@[j].miner_type == want.miner_type
                        &&& kept@[j].capabilities.hash_rate == want.capabilities.hash_rate
                        &&& kept@[j].capabilities.supports_ai3 == want.capabilities.supports_ai3
                        &&& kept@[j].capabilities.max_tensor_size
                            == want.capabilities.max_tensor_size
                        &&& kept@[j].stats == want.stats
                        &&& kept@[j].is_active == want.is_active
                    },
            decreases n - i,
        {
            proof {
                assert(self.miners@.take(i + 1).drop_last() =~= self.miners@.take(i as int));
                assert(self.miners@.take(i + 1).last() == self.miners@[i as int]);
            }
            if !(self.miners[i].id == id_owned) {
                let m = &self.miners[i];
                kept.push(
                    Miner {
                        id: m.id.clone(),
                        address: m.address.clone(),
                        miner_type: m.miner_type,
                        capabilities: crate::miner::MinerCapabilities {
                            hash_rate: m.capabilities.hash_rate,
                            power_consumption: m.capabilities.power_consumption,
                            supports_ai3: m.capabilities.supports_ai3,
                            max_tensor_size: m.capabilities.max_tensor_size,
                            supported_operations: clone_strings(
                                &m.capabilities.supported_operations,
                            ),
                            memory_limit: m.capabilities.memory_limit,
                            compute_units: m.capabilities.compute_units,
                        },
                        stats: m.stats.clone(),
                        is_active: m.is_active,
                        created_at: m.created_at,
                        last_seen: m.last_seen,
                    },
                );
                proof {
                    assert((kept@[kept@.len() - 1]).id@ == m.id@);
                }
            }
            i = i + 1;
        }
        proof {
            assert(self.miners@.take(n as int) =~= self.miners@);
        }
        let removed_any = kept.len() < before;
        self.miners = kept;
        self.stats.total_miners = self.miners.len();
        if removed_any {
            Ok(())
        } else {
            Err(TribeError::InvalidOperation(String::from_str("miner not found")))
        }
    }

    /// Judges a submitted share: the hash must carry the pool's minimum
    /// zero prefix and name a non-empty miner.
    pub fn validate_share(&self, share: &MiningShare) -> (r: bool)
        ensures
            r == (share.hash@.len() > 0 && share.miner_id@.len() > 0 && has_zero_prefix(
                share.hash@,
                self.config.min_difficulty as int,
            ) && (share.ai3_proof is Some ==> self.config.allow_ai3_mining)),
    {
        if share.hash.as_str().is_empty() || share.miner_id.as_str().is_empty() {
            return false;
        }
        if !crate::block::meets_difficulty(share.hash.as_str(), self.config.min_difficulty as u64) {
            return false;
        }
        match &share.ai3_proof {
            Some(_) => self.config.allow_ai3_mining,
            None => true,
        }
    }

    /// Accepts or rejects a share, updating the counters.
    pub fn submit_share(&mut self, share: MiningShare) -> (r: TribeResult<bool>)
        requires
            old(self).stats.total_shares < u64::MAX,
            old(self).stats.valid_shares < u64::MAX,
            old(self).stats.invalid_shares < u64::MAX,
        ensures
            r matches Ok(accepted) && accepted == (share.hash@.len() > 0 && share.miner_id@.len()
                > 0 && has_zero_prefix(share.hash@, old(self).config.min_difficulty as int) && (
            share.ai3_proof is Some ==> old(self).config.allow_ai3_mining)),
            final(self).stats.total_shares == old(self).stats.total_shares + 1,
            r matches Ok(accepted) && (accepted ==> final(self).stats.valid_shares == old(self).stats.valid_shares + 1),
            r matches Ok(accepted) && (!accepted ==> final(self).stats.invalid_shares == old(self).stats.invalid_shares + 1),
    {
        let accepted = self.validate_share(&share);
        self.stats.total_shares = self.stats.total_shares + 1;
        if accepted {
            self.stats.valid_shares = self.stats.valid_shares + 1;
        } else {
            self.stats.invalid_shares = self.stats.invalid_shares + 1;
        }
        Ok(accepted)
    }

    /// A copy of the statistics.
    pub fn get_stats(&self) -> (r: PoolStats)
        ensures
            r.total_miners == self.stats.total_miners,
            r.total_shares == self.stats.total_shares,
            r.valid_shares == self.stats.valid_shares,
            r.invalid_shares == self.stats.invalid_shares,
    {
        self.stats.clone()
    }

    /// Installs a reward policy.
    pub fn set_reward_distribution(&mut self, distribution: RewardDistribution)
        ensures
            final(self).reward_distribution == distribution,
            final(self).miners == old(self).miners,
    {
        self.reward_distribution = distribution;
    }
}

/// Clones a string list, preserving each text.
pub fn clone_strings(v: &Vec<String>) -> (r: Vec<String>)
    ensures
        r@.len() == v@.len(),
        forall|i: int| 0 <= i < v@.len() ==> (#[trigger] r@[i])@ == v@[i]@,
{
    let mut out: Vec<String> = Vec::new();
    let n = v.len();
    let mut i: usize = 0;
    while i < n
        invariant
            i <= n,
            n == v@.len(),
            out@.len() == i,
            forall|j: int| 0 <= j < i ==> (#[trigger] out@[j])@ == v@[j]@,
        decreases n - i,
    {
        out.push(v[i].clone());
        i = i + 1;
    }
    out
}

} // verus!
