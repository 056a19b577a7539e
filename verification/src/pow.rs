//! Classical proof-of-work: target construction, prefix checks, sealing of
//! block templates, and the step difficulty regulator.

use vstd::prelude::*;
use crate::block::{find_nonce, has_zero_prefix, meets_difficulty as block_meets, Block};
use crate::errors::TribeResult;
use crate::hashing::sha256_hex_of;
use crate::tensor::Tensor;

verus! {

use vstd::string::{StringExecFns, StrSliceExecFns};

/// Classical proof-of-work configuration.
#[derive(Debug, Clone)]
pub struct ProofOfWork {
    pub difficulty: u32,
    pub target_block_time: u64,
    pub max_nonce: u64,
    pub ai3_integration: bool,
}

/// A sealed work unit.
#[derive(Debug, Clone)]
pub struct WorkProof {
    pub block_hash: String,
    pub nonce: u64,
    pub timestamp: u64,
    pub difficulty: u32,
    pub miner_id: String,
    pub ai3_proof: Option<AI3WorkProof>,
}

/// The tensor-augmented part of a work proof.
#[derive(Debug, Clone)]
pub struct AI3WorkProof {
    pub task_id: String,
    pub tensor_result: Tensor,
    pub computation_hash: String,
    pub verification_nonce: u64,
}

/// A unit of sealing work: a block template and the nonce range to search.
#[derive(Debug)]
pub struct MiningWork {
    pub block_template: Block,
    pub target: String,
    pub start_nonce: u64,
    pub end_nonce: u64,
}

impl ProofOfWork {
    pub fn new(difficulty: u32, target_block_time: u64) -> (r: Self)
        ensures
            r.difficulty == difficulty,
            r.target_block_time == target_block_time,
            r.max_nonce == u64::MAX,
            r.ai3_integration,
    {
        Self { difficulty, target_block_time, max_nonce: u64::MAX, ai3_integration: true }
    }

    pub fn with_ai3_integration(self, enabled: bool) -> (r: Self)
        ensures
            r.difficulty == self.difficulty,
            r.target_block_time == self.target_block_time,
            r.max_nonce == self.max_nonce,
            r.ai3_integration == enabled,
    {
        let mut pow = self;
        pow.ai3_integration = enabled;
        pow
    }

    /// The difficulty target: one `'0'` per required leading zero.
    pub fn calculate_target(&self) -> (r: String)
        ensures
            r@ == Seq::new(self.difficulty as nat, |i: int| '0'),
    {
        let d = self.difficulty as usize;
        let mut s = String::new();
        let mut i: usize = 0;
        while i < d
            invariant
                i <= d,
                s@ == Seq::new(i as nat, |j: int| '0'),
            decreases d - i,
        {
            s.append("0");
            proof {
                reveal_strlit("0");
                assert("0"@ =~= seq!['0']);
                assert(s@ =~= Seq::new((i + 1) as nat, |j: int| '0'));
            }
            i = i + 1;
        }
        s
    }

    /// Whether `hash` begins with `target`.
    pub fn meets_difficulty(&self, hash: &str, target: &str) -> (r: bool)
        ensures
            r == target@.is_prefix_of(hash@),
    {
        let tlen = target.unicode_len();
        let hlen = hash.unicode_len();
        if tlen > hlen {
            return false;
        }
        let mut i: usize = 0;
        while i < tlen
            invariant
                i <= tlen,
                tlen == target@.len(),
                tlen <= hash@.len(),
                forall|j: int| 0 <= j < i ==> target@[j] == hash@[j],
            decreases tlen - i,
        {
            if target.get_char(i) != hash.get_char(i) {
                proof {
                    assert(!target@.is_prefix_of(hash@));
                }
                return false;
            }
            i = i + 1;
        }
        proof {
            assert(target@ =~= hash@.subrange(0, tlen as int));
        }
        true
    }

    /// Builds a work unit around a block template.
    pub fn create_work(&self, block: Block) -> (r: MiningWork)
        ensures
            r.block_template == (Block { nonce: 0, ..block }),
            r.target@ == Seq::new(self.difficulty as nat, |i: int| '0'),
            r.start_nonce == 0,
            r.end_nonce == self.max_nonce,
    {
        let target = self.calculate_target();
        let mut template = block;
        template.nonce = 0;
        MiningWork { block_template: template, target, start_nonce: 0, end_nonce: self.max_nonce }
    }

    /// Seals a work unit: searches nonces from the work's start, trying at
    /// most `budget` candidates, and reports the proof found, or nothing
    /// when the budget is spent. The outcome is a pure function of the
    /// template, the start nonce and the budget.
    pub fn mine_block(&self, work: &mut MiningWork, miner_id: String, budget: u64) -> (r:
        TribeResult<Option<WorkProof>>)
        ensures
            r matches Ok(p) && (p is Some <==> find_nonce(
                Block { nonce: old(work).start_nonce, ..old(work).block_template },
                self.difficulty as u64,
                old(work).start_nonce,
                budget as nat,
            ) is Some),
            r matches Ok(p) ==> match p {
                Some(wp) => {
                    &&& wp.block_hash@ == final(work).block_template.hash@
                    &&& final(work).block_template.hash_ok()
                    &&& has_zero_prefix(wp.block_hash@, self.difficulty as int)
                    &&& wp.nonce == final(work).block_template.nonce
                    &&& wp.difficulty == self.difficulty
                    &&& wp.miner_id@ == miner_id@
                    &&& wp.ai3_proof is None
                },
                None => true,
            },
    {
        work.block_template.nonce = work.start_nonce;
        match work.block_template.mine_block(self.difficulty as u64, budget) {
            Ok(()) => {
                let proof_out = WorkProof {
                    block_hash: work.block_template.hash.clone(),
                    nonce: work.block_template.nonce,
                    timestamp: work.block_template.timestamp,
                    difficulty: self.difficulty,
                    miner_id,
                    ai3_proof: None,
                };
                Ok(Some(proof_out))
            },
            Err(_) => Ok(None),
        }
    }

    /// Verifies a work proof against a block: the hash must derive from
    /// the block resealed with the proof's nonce and timestamp, and carry
    /// the required zero prefix.
    pub fn verify_proof(&self, work_proof: &WorkProof, block: &Block) -> (r: TribeResult<bool>)
        ensures
            r matches Ok(b) && b == ({
                let resealed = Block {
                    nonce: work_proof.nonce,
                    timestamp: work_proof.timestamp,
                    ..*block
                };
                &&& work_proof.block_hash@ == sha256_hex_of(crate::block::canon_block(&resealed))
                &&& has_zero_prefix(work_proof.block_hash@, self.difficulty as int)
            }),
    {
        let mut test_block = block.clone();
        test_block.nonce = work_proof.nonce;
        test_block.timestamp = work_proof.timestamp;
        let calculated = test_block.calculate_hash();
        proof {
            let resealed = Block { nonce: work_proof.nonce, timestamp: work_proof.timestamp, ..*block };
            assert(crate::block::canon_block(&test_block) =~= crate::block::canon_block(&resealed));
        }
        if !(work_proof.block_hash == calculated) {
            return Ok(false);
        }
        Ok(block_meets(work_proof.block_hash.as_str(), self.difficulty as u64))
    }

    /// One regulation step from an observed block time: a third over target
    /// halves the pace by raising difficulty; twice the target lowers it.
    /// Every step stays within a factor of two of the prior difficulty.
    pub fn adjust_difficulty(&mut self, actual_block_time: u64) -> (r: u32)
        requires
            old(self).target_block_time > 0,
            1 <= old(self).difficulty <= 32,
        ensures
            r == final(self).difficulty,
            final(self).target_block_time == old(self).target_block_time,
            final(self).max_nonce == old(self).max_nonce,
            final(self).ai3_integration == old(self).ai3_integration,
            final(self).difficulty == ({
                if 2 * actual_block_time > 3 * old(self).target_block_time {
                    if old(self).difficulty > 1 {
                        (old(self).difficulty - 1) as u32
                    } else {
                        1u32
                    }
                } else if 2 * actual_block_time < old(self).target_block_time {
                    if old(self).difficulty < 32 {
                        (old(self).difficulty + 1) as u32
                    } else {
                        32u32
                    }
                } else {
                    old(self).difficulty
                }
            }),
            old(self).difficulty / 2 <= final(self).difficulty <= 2 * old(self).difficulty,
            1 <= final(self).difficulty <= 32,
    {
        let t = self.target_block_time;
        if actual_block_time > t && actual_block_time - t > t / 2 {
            if self.difficulty > 1 {
                self.difficulty = self.difficulty - 1;
            }
        } else if actual_block_time <= (t - 1) / 2 {
            if self.difficulty < 32 {
                self.difficulty = self.difficulty + 1;
            }
        }
        self.difficulty
    }
}

} // verus!
