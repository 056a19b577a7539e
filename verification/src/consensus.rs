//! The consensus engine: algorithm selection, block validation against the
//! active algorithm, and validator bookkeeping.

use vstd::prelude::*;
use crate::block::{has_zero_prefix, meets_difficulty, Block};
use crate::errors::{TribeError, TribeResult};

verus! {

use vstd::string::{StringExecFns, StrSliceExecFns};

/// The consensus algorithms a node can run.
#[derive(Debug, Clone, Copy, PartialEq, Eq, Structural)]
pub enum ConsensusType {
    ProofOfWork,
    ProofOfStake,
    DelegatedProofOfStake,
    TensorProofOfWork,
}

/// Consensus statistics.
#[derive(Debug, Clone, Copy)]
pub struct ConsensusStats {
    pub blocks_validated: u64,
    pub transactions_processed: u64,
    pub current_difficulty: u32,
    pub network_hash_rate: u64,
    pub validator_count: usize,
    pub last_block_time: Option<u64>,
}

/// A registered validator.
#[derive(Debug)]
pub struct ValidatorInfo {
    pub address: String,
    pub stake: u64,
    pub voting_power_permille: u64,
    pub is_active: bool,
    pub slash_count: u32,
    pub last_activity: u64,
    pub commission_rate_permille: u64,
}

impl Clone for ValidatorInfo {
    /// A clone agrees with the original in every observable field.
    fn clone(&self) -> (r: Self)
        ensures
            r.address@ == self.address@,
            r.stake == self.stake,
            r.voting_power_permille == self.voting_power_permille,
            r.is_active == self.is_active,
            r.slash_count == self.slash_count,
            r.last_activity == self.last_activity,
            r.commission_rate_permille == self.commission_rate_permille,
    {
        ValidatorInfo {
            address: self.address.clone(),
            stake: self.stake,
            voting_power_permille: self.voting_power_permille,
            is_active: self.is_active,
            slash_count: self.slash_count,
            last_activity: self.last_activity,
            commission_rate_permille: self.commission_rate_permille,
        }
    }
}

impl ValidatorInfo {
    /// A fresh active validator with the stock commission.
    pub fn new(address: String, stake: u64) -> (r: Self)
        ensures
            r.address == address,
            r.stake == stake,
            r.voting_power_permille == 0,
            r.is_active,
            r.slash_count == 0,
            r.commission_rate_permille == 50,
    {
        Self {
            address,
            stake,
            voting_power_permille: 0,
            is_active: true,
            slash_count: 0,
            last_activity: crate::runtime::now_seconds(),
            commission_rate_permille: 50,
        }
    }

    /// Recomputes the validator's share of the total stake, in permille.
    pub fn calculate_voting_power(&mut self, total_stake: u64)
        ensures
            total_stake > 0 ==> final(self).voting_power_permille as int == ({
                let share = (old(self).stake as int) * 1000 / (total_stake as int);
                if share <= u64::MAX as int {
                    share
                } else {
                    u64::MAX as int
                }
            }),
            total_stake == 0 ==> final(self).voting_power_permille == old(self).voting_power_permille,
            final(self).stake == old(self).stake,
            final(self).address == old(self).address,
            final(self).is_active == old(self).is_active,
            final(self).slash_count == old(self).slash_count,
    {
        if total_stake > 0 {
            proof {
                vstd::arithmetic::mul::lemma_mul_upper_bound(
                    self.stake as int,
                    u64::MAX as int,
                    1000,
                    1000,
                );
                vstd::arithmetic::div_mod::lemma_div_is_ordered(
                    (self.stake as int) * 1000,
                    (u64::MAX as int) * 1000,
                    total_stake as int,
                );
                vstd::arithmetic::div_mod::lemma_div_is_ordered_by_denominator(
                    (u64::MAX as int) * 1000,
                    1,
                    total_stake as int,
                );
            }
            let wide = (self.stake as u128) * 1000 / (total_stake as u128);
            if wide > 0xFFFF_FFFF_FFFF_FFFF {
                self.voting_power_permille = u64::MAX;
                proof {
                    vstd::arithmetic::div_mod::lemma_div_is_ordered_by_denominator(
                        (self.stake as int) * 1000,
                        1,
                        total_stake as int,
                    );
                }
            } else {
                self.voting_power_permille = wide as u64;
            }
        }
    }

    /// Slashes the validator by a permille share of its stake; after three
    /// slashes the validator is deactivated.
    pub fn slash(&mut self, percentage_permille: u64)
        requires
            old(self).slash_count < u32::MAX,
        ensures
            final(self).stake as int == old(self).stake - (if (old(self).stake as int)
                * (percentage_permille as int) / 1000 <= old(self).stake {
                (old(self).stake as int) * (percentage_permille as int) / 1000
            } else {
                old(self).stake as int
            }),
            final(self).slash_count == old(self).slash_count + 1,
            final(self).is_active == (old(self).is_active && old(self).slash_count + 1 < 3),
            final(self).address == old(self).address,
    {
        proof {
            vstd::arithmetic::mul::lemma_mul_upper_bound(
                self.stake as int,
                u64::MAX as int,
                percentage_permille as int,
                u64::MAX as int,
            );
        }
        let wide = (self.stake as u128) * (percentage_permille as u128) / 1000;
        let slash_amount: u64 = if wide > self.stake as u128 {
            self.stake
        } else {
            wide as u64
        };
        self.stake = self.stake - slash_amount;
        self.slash_count = self.slash_count + 1;
        if self.slash_count >= 3 {
            self.is_active = false;
        }
    }
}

/// The validators whose address is not `addr`, in order.
pub open spec fn keep_validators(s: Seq<ValidatorInfo>, addr: Seq<char>) -> Seq<ValidatorInfo>
    decreases s.len(),
{
    if s.len() == 0 {
        Seq::empty()
    } else {
        keep_validators(s.drop_last(), addr) + if s.last().address@ != addr {
            seq![s.last()]
        } else {
            Seq::empty()
        }
    }
}

/// Whether some registry entry equals `v`.
pub open spec fn has_validator(s: Seq<ValidatorInfo>, v: ValidatorInfo) -> bool {
    exists|i: int| 0 <= i < s.len() && #[trigger] s[i] == v
}

/// Outcome of a block validation.
#[derive(Debug)]
pub struct ValidationResult {
    pub is_valid: bool,
    pub errors: Vec<String>,
    pub warnings: Vec<String>,
    pub gas_used: u64,
    pub execution_time: u64,
}

/// The consensus engine.
#[derive(Debug)]
pub struct ConsensusEngine {
    pub consensus_type: ConsensusType,
    pub is_running: bool,
    pub stats: ConsensusStats,
    pub validators: Vec<ValidatorInfo>,
    pub current_epoch: u64,
    pub last_finalized_block: Option<String>,
}

impl ConsensusEngine {
    /// A stopped engine for an algorithm.
    pub fn new(consensus_type: ConsensusType) -> (r: TribeResult<Self>)
        ensures
            r matches Ok(e) && {
                &&& e.consensus_type == consensus_type
                &&& !e.is_running
                &&& e.current_epoch == 0
                &&& e.last_finalized_block is None
                &&& e.validators@.len() == 0
                &&& e.stats.blocks_validated == 0
                &&& e.stats.current_difficulty == 4
            },
    {
        Ok(
            Self {
                consensus_type,
                is_running: false,
                stats: ConsensusStats {
                    blocks_validated: 0,
                    transactions_processed: 0,
                    current_difficulty: 4,
                    network_hash_rate: 0,
                    validator_count: 0,
                    last_block_time: None,
                },
                validators: Vec::new(),
                current_epoch: 0,
                last_finalized_block: None,
            },
        )
    }

    /// Starts the engine; rejected while already running. Proof-of-work
    /// starts at difficulty four, the tensor variant at three; the staking
    /// variants open epoch one.
    pub fn start(&mut self) -> (r: TribeResult<()>)
        ensures
            r is Ok <==> !old(self).is_running,
            r is Ok ==> final(self).is_running,
            r is Err ==> *final(self) == *old(self),
    {
        if self.is_running {
            return Err(TribeError::InvalidOperation(String::from_str(
                "consensus already running",
            )));
        }
        match self.consensus_type {
            ConsensusType::ProofOfWork => {
                self.stats.current_difficulty = 4;
            },
            ConsensusType::ProofOfStake => {
                self.current_epoch = 1;
            },
            ConsensusType::DelegatedProofOfStake => {
                self.current_epoch = 1;
            },
            ConsensusType::TensorProofOfWork => {
                self.stats.current_difficulty = 3;
            },
        }
        self.is_running = true;
        Ok(())
    }

    /// Stops the engine.
    pub fn stop(&mut self) -> (r: TribeResult<()>)
        ensures
            r is Ok,
            !final(self).is_running,
    {
        self.is_running = false;
        Ok(())
    }

    /// Whether a carried tensor proof names a task and a digest, as the
    /// tensor algorithm demands.
    pub open spec fn spec_proof_fields_ok(&self, block: &Block) -> bool {
        match self.consensus_type {
            ConsensusType::TensorProofOfWork => match &block.ai3_proof {
                Option::Some(p) => p.task_id@.len() > 0 && p.tensor_hash@.len() > 0,
                Option::None => true,
            },
            _ => true,
        }
    }

    /// Validates a block against the running algorithm: the hash must
    /// match its derivation, under (tensor) proof-of-work it must carry
    /// the algorithm's zero prefix, reduced by one for blocks bearing a
    /// tensor proof, and a carried proof must name its task and digest.
    pub fn validate_block(&self, block: &Block) -> (r: TribeResult<ValidationResult>)
        ensures
            r matches Ok(v) && (v.is_valid ==> block.hash_ok()),
            r matches Ok(v) ==> v.is_valid == (block.hash_ok() && has_zero_prefix(
                block.hash@,
                self.spec_required_prefix(block),
            ) && self.spec_proof_fields_ok(block)),
    {
        let mut errors: Vec<String> = Vec::new();
        let mut warnings: Vec<String> = Vec::new();
        if block.transactions.len() == 0 {
            warnings.push(String::from_str("block has no transactions"));
        }
        let calculated = block.calculate_hash();
        let hash_matches = block.hash == calculated;
        if !hash_matches {
            errors.push(String::from_str("invalid block hash"));
        }
        let required = self.required_prefix(block);
        let prefix_ok = meets_difficulty(block.hash.as_str(), required);
        if !prefix_ok {
            errors.push(String::from_str("insufficient proof of work"));
        }
        let proof_fields_ok = match self.consensus_type {
            ConsensusType::TensorProofOfWork => match &block.ai3_proof {
                Some(p) => {
                    let ok = !p.task_id.as_str().is_empty() && !p.tensor_hash.as_str().is_empty();
                    if !ok {
                        errors.push(String::from_str("tensor proof names no task or digest"));
                    }
                    ok
                },
                None => true,
            },
            _ => true,
        };
        let is_valid = hash_matches && prefix_ok && proof_fields_ok;
        Ok(ValidationResult { is_valid, errors, warnings, gas_used: 0, execution_time: 0 })
    }

    /// The zero-prefix length the algorithm demands of a block.
    pub open spec fn spec_required_prefix(&self, block: &Block) -> int {
        match self.consensus_type {
            ConsensusType::ProofOfWork => self.stats.current_difficulty as int,
            ConsensusType::TensorProofOfWork => {
                if block.ai3_proof is Some {
                    if self.stats.current_difficulty > 1 {
                        self.stats.current_difficulty - 1
                    } else {
                        1
                    }
                } else {
                    self.stats.current_difficulty as int
                }
            },
            _ => 0,
        }
    }

    /// The zero-prefix length the algorithm demands of a block.
    fn required_prefix(&self, block: &Block) -> (r: u64)
        ensures
            r == self.spec_required_prefix(block),
    {
        match self.consensus_type {
            ConsensusType::ProofOfWork => self.stats.current_difficulty as u64,
            ConsensusType::TensorProofOfWork => {
                if matches!(block.ai3_proof, Some(_)) {
                    if self.stats.current_difficulty > 1 {
                        (self.stats.current_difficulty - 1) as u64
                    } else {
                        1
                    }
                } else {
                    self.stats.current_difficulty as u64
                }
            },
            _ => 0,
        }
    }

    /// Registers a validator, replacing any entry with the same address.
    #[verifier::loop_isolation(false)]
    pub fn add_validator(&mut self, validator: ValidatorInfo) -> (r: TribeResult<()>)
        ensures
            r is Ok,
            has_validator(final(self).validators@, validator),
            final(self).stats.validator_count == final(self).validators@.len(),
    {
        let n = self.validators.len();
        let mut i: usize = 0;
        while i < n
            invariant
                i <= n,
                n == self.validators@.len(),
                *self == *old(self),
            decreases n - i,
        {
            if self.validators[i].address == validator.address {
                self.validators.set(i, validator);
                proof {
                    assert(self.validators@[i as int] == validator);
                    assert(has_validator(self.validators@, validator));
                }
                self.stats.validator_count = self.validators.len();
                return Ok(());
            }
            i = i + 1;
        }
        self.validators.push(validator);
        proof {
            assert(self.validators@[n as int] == validator);
            assert(has_validator(self.validators@, validator));
        }
        self.stats.validator_count = self.validators.len();
        Ok(())
    }

    /// Removes every validator with the given address; the others are kept
    /// in order with their fields intact.
    #[verifier::loop_isolation(false)]
    pub fn remove_validator(&mut self, address: &str) -> (r: TribeResult<()>)
        ensures
            r is Ok,
            forall|i: int|
                0 <= i < final(self).validators@.len() ==> final(self).validators@[i].address@ != address@,
            final(self).validators@.len() == keep_validators(old(self).validators@, address@).len(),
            forall|i: int|
                0 <= i < final(self).validators@.len() ==> {
                    let kept = keep_validators(old(self).validators@, address@)[i];
                    &&& (#[trigger] final(self).validators@[i]).address@ == kept.address@
                    &&& final(self).validators@[i].stake == kept.stake
                    &&& final(self).validators@[i].voting_power_permille
                        == kept.voting_power_permille
                    &&& final(self).validators@[i].is_active == kept.is_active
                    &&& final(self).validators@[i].slash_count == kept.slash_count
                    &&& final(self).validators@[i].commission_rate_permille
                        == kept.commission_rate_permille
                },
            final(self).stats.validator_count == final(self).validators@.len(),
    {
        let address_owned = String::from_str(address);
        let mut kept: Vec<ValidatorInfo> = Vec::new();
        let n = self.validators.len();
        let mut i: usize = 0;
        while i < n
            invariant
                i <= n,
                n == self.validators@.len(),
                address_owned@ == address@,
                *self == *old(self),
                kept@.len() == keep_validators(self.validators@.take(i as int), address@).len(),
                forall|j: int| 0 <= j < kept@.len() ==> kept@[j].address@ != address@,
                forall|j: int|
                    0 <= j < kept@.len() ==> {
                        let want = keep_validators(self.validators@.take(i as int), address@)[j];
                        &&& (#[trigger] kept@[j]).address@ == want.address@
                        &&& kept@[j].stake == want.stake
                        &&& kept@[j].voting_power_permille == want.voting_power_permille
                        &&& kept@[j].is_active == want.is_active
                        &&& kept@[j].slash_count == want.slash_count
                        &&& kept@[j].commission_rate_permille == want.commission_rate_permille
                    },
            decreases n - i,
        {
            proof {
                assert(self.validators@.take(i + 1).drop_last() =~= self.validators@.take(
                    i as int,
                ));
                assert(self.validators@.take(i + 1).last() == self.validators@[i as int]);
            }
            if !(self.validators[i].address == address_owned) {
                let ghost pre = kept@;
                kept.push(self.validators[i].clone());
            }
            i = i + 1;
        }
        proof {
            assert(self.validators@.take(n as int) =~= self.validators@);
        }
        self.validators = kept;
        self.stats.validator_count = self.validators.len();
        Ok(())
    }

    /// The observed network hash rate.
    pub fn get_hash_rate(&self) -> (r: u64)
        ensures
            r == self.stats.network_hash_rate,
    {
        self.stats.network_hash_rate
    }

    /// A copy of the statistics.
    pub fn get_stats(&self) -> (r: ConsensusStats)
        ensures
            r == self.stats,
    {
        self.stats.clone()
    }

    /// Installs a new difficulty.
    pub fn update_difficulty(&mut self, new_difficulty: u32)
        ensures
            final(self).stats.current_difficulty == new_difficulty,
    {
        self.stats.current_difficulty = new_difficulty;
    }

    /// Installs a new observed hash rate.
    pub fn update_hash_rate(&mut self, hash_rate: u64)
        ensures
            final(self).stats.network_hash_rate == hash_rate,
    {
        self.stats.network_hash_rate = hash_rate;
    }

    /// Records a finalized block.
    pub fn finalize_block(&mut self, block_hash: String) -> (r: TribeResult<()>)
        requires
            old(self).stats.blocks_validated < u64::MAX,
        ensures
            r is Ok,
            final(self).last_finalized_block matches Some(h) && h == block_hash,
            final(self).stats.blocks_validated == old(self).stats.blocks_validated + 1,
    {
        self.last_finalized_block = Some(block_hash);
        self.stats.blocks_validated = self.stats.blocks_validated + 1;
        Ok(())
    }
}

} // verus!
