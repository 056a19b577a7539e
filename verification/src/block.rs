//! Blocks: canonical encoding, hash derivation, Merkle root, sealing by
//! nonce search, and structural validation.

use vstd::prelude::*;
use crate::errors::{TribeError, TribeResult};
use crate::hashing::{sha256_hex, sha256_hex_of};
use crate::numfmt::{dec_of, u64_to_string};
use crate::runtime::now_seconds;
use crate::transaction::{canon_tx, Transaction};

verus! {

use vstd::string::{StringExecFns, StrSliceExecFns};

/// Difficulty given to a freshly built (not yet sealed) block.
pub const DEFAULT_DIFFICULTY: u64 = 4;

/// Proof that a tensor task was computed while sealing a block.
/// The claimed optimization factor is held in thousandths, so the
/// admissible interval [0.1, 2.0] is [100, 2000] permille.
#[derive(Debug)]
pub struct AI3Proof {
    pub task_id: String,
    pub optimization_factor_permille: u32,
    pub tensor_hash: String,
    pub computation_time: u64,
    pub miner_signature: String,
}

/// Smallest admissible optimization factor, in permille.
pub const OPTIMIZATION_FACTOR_MIN_PERMILLE: u32 = 100;

/// Largest admissible optimization factor, in permille.
pub const OPTIMIZATION_FACTOR_MAX_PERMILLE: u32 = 2000;

/// Canonical encoding of a tensor proof.
pub open spec fn canon_proof(p: &AI3Proof) -> Seq<char> {
    "{\"task_id\":\""@ + p.task_id@ + "\",\"optimization_factor\":"@ + dec_of(
        p.optimization_factor_permille as nat,
    ) + ",\"tensor_hash\":\""@ + p.tensor_hash@ + "\",\"computation_time\":"@ + dec_of(
        p.computation_time as nat,
    ) + ",\"miner_signature\":\""@ + p.miner_signature@ + "\"}"@
}

/// Canonical encoding of an optional tensor proof.
pub open spec fn canon_proof_opt(p: &Option<AI3Proof>) -> Seq<char> {
    match p {
        Option::None => "null"@,
        Option::Some(pr) => canon_proof(pr),
    }
}

/// A block of the chain.
#[derive(Debug)]
pub struct Block {
    pub index: u64,
    pub timestamp: u64,
    pub previous_hash: String,
    pub hash: String,
    pub nonce: u64,
    pub difficulty: u64,
    pub transactions: Vec<Transaction>,
    pub miner: String,
    pub merkle_root: String,
    pub ai3_proof: Option<AI3Proof>,
}

/// Whether two proofs agree in every observable field.
pub open spec fn proof_equiv(a: &AI3Proof, b: &AI3Proof) -> bool {
    &&& a.task_id@ == b.task_id@
    &&& a.optimization_factor_permille == b.optimization_factor_permille
    &&& a.tensor_hash@ == b.tensor_hash@
    &&& a.computation_time == b.computation_time
    &&& a.miner_signature@ == b.miner_signature@
}

impl Clone for AI3Proof {
    /// A clone agrees with the original in every observable field.
    fn clone(&self) -> (r: Self)
        ensures
            proof_equiv(self, &r),
    {
        AI3Proof {
            task_id: self.task_id.clone(),
            optimization_factor_permille: self.optimization_factor_permille,
            tensor_hash: self.tensor_hash.clone(),
            computation_time: self.computation_time,
            miner_signature: self.miner_signature.clone(),
        }
    }
}

/// Whether two blocks agree in every observable field, transactions
/// compared field by field.
pub open spec fn block_equiv(a: &Block, b: &Block) -> bool {
    &&& a.index == b.index
    &&& a.timestamp == b.timestamp
    &&& a.previous_hash@ == b.previous_hash@
    &&& a.hash@ == b.hash@
    &&& a.nonce == b.nonce
    &&& a.difficulty == b.difficulty
    &&& a.transactions@.len() == b.transactions@.len()
    &&& forall|i: int|
        0 <= i < a.transactions@.len() ==> crate::transaction::tx_equiv(
            #[trigger] &a.transactions@[i],
            &b.transactions@[i],
        )
    &&& a.miner@ == b.miner@
    &&& a.merkle_root@ == b.merkle_root@
    &&& match (&a.ai3_proof, &b.ai3_proof) {
        (Option::None, Option::None) => true,
        (Option::Some(p), Option::Some(q)) => proof_equiv(p, q),
        _ => false,
    }
}

impl Clone for Block {
    /// A clone agrees with the original in every observable field.
    fn clone(&self) -> (r: Self)
        ensures
            block_equiv(self, &r),
    {
        let txs = self.transactions.clone();
        proof {
            assert forall|i: int| 0 <= i < self.transactions@.len() implies
                crate::transaction::tx_equiv(#[trigger] &self.transactions@[i], &txs@[i]) by {
                assert(vstd::pervasive::cloned::<Transaction>(
                    self.transactions@[i],
                    txs@[i],
                ));
            }
        }
        let proof_copy = match &self.ai3_proof {
            None => None,
            Some(p) => Some(p.clone()),
        };
        Block {
            index: self.index,
            timestamp: self.timestamp,
            previous_hash: self.previous_hash.clone(),
            hash: self.hash.clone(),
            nonce: self.nonce,
            difficulty: self.difficulty,
            transactions: txs,
            miner: self.miner.clone(),
            merkle_root: self.merkle_root.clone(),
            ai3_proof: proof_copy,
        }
    }
}

/// Canonical encoding of a block header: everything but the hash itself.
pub open spec fn canon_block(b: &Block) -> Seq<char> {
    dec_of(b.index as nat) + dec_of(b.timestamp as nat) + b.previous_hash@ + dec_of(b.nonce as nat)
        + dec_of(b.difficulty as nat) + b.miner@ + b.merkle_root@ + canon_proof_opt(&b.ai3_proof)
}

/// The hash of the empty Merkle tree: sixty-four `'0'` characters.
pub open spec fn zero_hash64() -> Seq<char> {
    Seq::new(64, |i: int| '0')
}

/// The views of a vector of strings.
pub open spec fn views_of(ss: Seq<String>) -> Seq<Seq<char>> {
    ss.map_values(|s: String| s@)
}

/// The hashes of a sequence of transactions, in order.
pub open spec fn tx_hashes(txs: Seq<Transaction>) -> Seq<Seq<char>> {
    txs.map_values(|t: Transaction| sha256_hex_of(canon_tx(&t)))
}

/// One level of the binary Merkle tree: adjacent hashes are concatenated
/// and hashed; an odd final hash is paired with itself.
pub open spec fn merkle_level(hs: Seq<Seq<char>>) -> Seq<Seq<char>> {
    Seq::new(
        ((hs.len() + 1) / 2) as nat,
        |i: int|
            if 2 * i + 1 < hs.len() {
                sha256_hex_of(hs[2 * i] + hs[2 * i + 1])
            } else {
                sha256_hex_of(hs[2 * i] + hs[2 * i])
            },
    )
}

/// The Merkle root of a sequence of leaf hashes.
pub open spec fn merkle_root_of(hs: Seq<Seq<char>>) -> Seq<char>
    decreases hs.len(),
{
    if hs.len() == 0 {
        zero_hash64()
    } else if hs.len() == 1 {
        hs[0]
    } else {
        merkle_root_of(merkle_level(hs))
    }
}

/// Whether the first `d` characters of `s` exist and are `'0'`.
pub open spec fn has_zero_prefix(s: Seq<char>, d: int) -> bool {
    d <= s.len() && forall|i: int| 0 <= i < d ==> s[i] == '0'
}

/// Builds the sixty-four-zero placeholder hash.
pub fn zero_hash_string() -> (r: String)
    ensures
        r@ == zero_hash64(),
{
    let mut s = String::new();
    let mut i: usize = 0;
    while i < 64
        invariant
            i <= 64,
            s@ == Seq::new(i as nat, |j: int| '0'),
        decreases 64 - i,
    {
        s.append("0");
        proof {
            reveal_strlit("0");
            assert("0"@ =~= seq!['0']);
            assert(s@ =~= Seq::new((i + 1) as nat, |j: int| '0'));
        }
        i = i + 1;
    }
    proof {
        assert(s@ =~= zero_hash64());
    }
    s
}

/// Whether `hash` begins with `difficulty` `'0'` characters.
pub fn meets_difficulty(hash: &str, difficulty: u64) -> (r: bool)
    ensures
        r == has_zero_prefix(hash@, difficulty as int),
{
    let len = hash.unicode_len();
    if difficulty > len as u64 {
        return false;
    }
    let d = difficulty as usize;
    let mut i: usize = 0;
    while i < d
        invariant
            i <= d,
            d <= hash@.len(),
            d == difficulty,
            forall|j: int| 0 <= j < i ==> hash@[j] == '0',
        decreases d - i,
    {
        if hash.get_char(i) != '0' {
            return false;
        }
        i = i + 1;
    }
    true
}

/// Computes the Merkle root over an explicit list of leaf hashes.
pub fn merkle_root_of_hashes(leaves: Vec<String>) -> (r: String)
    ensures
        r@ == merkle_root_of(views_of(leaves@)),
{
    if leaves.len() == 0 {
        let z = zero_hash_string();
        proof {
            assert(views_of(leaves@).len() == 0);
        }
        return z;
    }
    let mut level: Vec<String> = leaves;
    while level.len() > 1
        invariant
            level@.len() >= 1,
            merkle_root_of(views_of(level@)) == merkle_root_of(views_of(leaves@)),
        decreases level@.len(),
    {
        let n = level.len();
        let half = n / 2 + n % 2;
        let mut next: Vec<String> = Vec::new();
        let mut i: usize = 0;
        while i < half
            invariant
                i <= half,
                half == (n + 1) / 2,
                2 <= n == level@.len(),
                next@.len() == i,
                forall|j: int|
                    0 <= j < i ==> #[trigger] next@[j]@ == merkle_level(views_of(level@))[j],
            decreases half - i,
        {
            let ghost prev_next = next@;
            let mut combined = String::new();
            combined.append(level[2 * i].as_str());
            if 2 * i + 1 < n {
                combined.append(level[2 * i + 1].as_str());
                proof {
                    assert(combined@ =~= views_of(level@)[2 * i as int] + views_of(level@)[2 * i
                        + 1]);
                }
            } else {
                combined.append(level[2 * i].as_str());
                proof {
                    assert(combined@ =~= views_of(level@)[2 * i as int] + views_of(level@)[2
                        * i as int]);
                }
            }
            let h = sha256_hex(combined.as_str());
            next.push(h);
            proof {
                assert(next@ =~= prev_next.push(h));
                assert(next@[i as int]@ == merkle_level(views_of(level@))[i as int]);
                assert(forall|j: int|
                    0 <= j < i ==> #[trigger] next@[j]@ == merkle_level(views_of(level@))[j]);
            }
            i = i + 1;
        }
        proof {
            assert(views_of(next@) =~= merkle_level(views_of(level@)));
            assert(merkle_root_of(views_of(next@)) == merkle_root_of(views_of(level@)));
        }
        level = next;
    }
    proof {
        assert(views_of(level@).len() == 1);
        assert(merkle_root_of(views_of(level@)) == views_of(level@)[0]);
    }
    let r = level[0].clone();
    r
}

/// Computes the Merkle root of a transaction list.
pub fn calculate_merkle_root(transactions: &Vec<Transaction>) -> (r: String)
    ensures
        r@ == merkle_root_of(tx_hashes(transactions@)),
{
    let mut leaves: Vec<String> = Vec::new();
    let n = transactions.len();
    let mut i: usize = 0;
    while i < n
        invariant
            i <= n,
            n == transactions@.len(),
            leaves@.len() == i,
            forall|j: int| 0 <= j < i ==> views_of(leaves@)[j] == tx_hashes(transactions@)[j],
        decreases n - i,
    {
        let h = transactions[i].calculate_hash();
        leaves.push(h);
        proof {
            assert(views_of(leaves@)[i as int] == tx_hashes(transactions@)[i as int]);
            assert(forall|j: int|
                0 <= j < i ==> views_of(leaves@)[j] == tx_hashes(transactions@)[j]);
        }
        i = i + 1;
    }
    proof {
        assert(views_of(leaves@) =~= tx_hashes(transactions@));
    }
    merkle_root_of_hashes(leaves)
}

/// The block `b` re-sealed with the given nonce and difficulty, hash aside.
pub open spec fn with_seal(b: Block, difficulty: u64, nonce: u64) -> Block {
    Block { nonce, difficulty, ..b }
}

/// Whether `nonce` seals block `b` at `difficulty`.
pub open spec fn nonce_seals(b: Block, difficulty: u64, nonce: u64) -> bool {
    has_zero_prefix(sha256_hex_of(canon_block(&with_seal(b, difficulty, nonce))), difficulty as int)
}

/// The first nonce from `start` that seals `b` at `difficulty`, trying at
/// most `budget` candidates and never wrapping past `u64::MAX`.
pub open spec fn find_nonce(b: Block, difficulty: u64, start: u64, budget: nat) -> Option<u64>
    decreases budget,
{
    if budget == 0 {
        Option::None
    } else if nonce_seals(b, difficulty, start) {
        Option::Some(start)
    } else if start == u64::MAX {
        Option::None
    } else {
        find_nonce(b, difficulty, (start + 1) as u64, (budget - 1) as nat)
    }
}

impl Block {
    /// The stored hash equals the hash of the canonical encoding.
    pub open spec fn hash_ok(&self) -> bool {
        self.hash@ == sha256_hex_of(canon_block(self))
    }

    /// The stored Merkle root matches the transactions.
    pub open spec fn merkle_ok(&self) -> bool {
        self.merkle_root@ == merkle_root_of(tx_hashes(self.transactions@))
    }

    /// Structural well-formedness of a sealed block.
    pub open spec fn wf(&self) -> bool {
        self.hash_ok() && self.merkle_ok()
    }

    /// Whether this block's hash carries its difficulty's zero prefix.
    pub open spec fn spec_sealed(&self) -> bool {
        self.hash_ok() && has_zero_prefix(self.hash@, self.difficulty as int)
    }

    /// Validity against an optional parent block.
    pub open spec fn spec_valid(&self, previous: Option<&Block>) -> bool {
        &&& self.hash_ok()
        &&& self.merkle_ok()
        &&& self.spec_sealed()
        &&& match previous {
            Option::Some(prev) => {
                &&& self.previous_hash@ == prev.hash@
                &&& self.index == prev.index + 1
            },
            Option::None => true,
        }
    }

    /// Builds an unsealed block at an explicit timestamp: the Merkle root is
    /// derived from the transactions, the hash is left empty for sealing.
    pub fn new_at(
        index: u64,
        previous_hash: String,
        transactions: Vec<Transaction>,
        miner: String,
        timestamp: u64,
    ) -> (r: Block)
        ensures
            r.index == index,
            r.timestamp == timestamp,
            r.previous_hash == previous_hash,
            r.hash@ == Seq::<char>::empty(),
            r.nonce == 0,
            r.difficulty == DEFAULT_DIFFICULTY,
            r.transactions == transactions,
            r.miner == miner,
            r.merkle_ok(),
            r.ai3_proof is None,
    {
        let merkle_root = calculate_merkle_root(&transactions);
        Block {
            index,
            timestamp,
            previous_hash,
            hash: String::new(),
            nonce: 0,
            difficulty: DEFAULT_DIFFICULTY,
            transactions,
            miner,
            merkle_root,
            ai3_proof: None,
        }
    }

    /// Builds an unsealed block stamped with the current wall-clock time.
    pub fn new(
        index: u64,
        previous_hash: String,
        transactions: Vec<Transaction>,
        miner: String,
    ) -> (r: Block)
        ensures
            r.index == index,
            r.previous_hash == previous_hash,
            r.hash@ == Seq::<char>::empty(),
            r.nonce == 0,
            r.difficulty == DEFAULT_DIFFICULTY,
            r.transactions == transactions,
            r.miner == miner,
            r.merkle_ok(),
            r.ai3_proof is None,
    {
        let timestamp = now_seconds();
        Block::new_at(index, previous_hash, transactions, miner, timestamp)
    }

    /// The genesis block: index 0, no transactions, all-zero parent hash.
    pub fn genesis() -> (r: Block)
        ensures
            r.index == 0,
            r.timestamp == 1640995200,
            r.previous_hash@ == zero_hash64(),
            r.nonce == 0,
            r.difficulty == 1,
            r.transactions@.len() == 0,
            r.miner@ == "genesis"@,
            r.merkle_root@ == zero_hash64(),
            r.ai3_proof is None,
            r.wf(),
    {
        let mut genesis = Block {
            index: 0,
            timestamp: 1640995200,
            previous_hash: zero_hash_string(),
            hash: String::new(),
            nonce: 0,
            difficulty: 1,
            transactions: Vec::new(),
            miner: "genesis".to_owned(),
            merkle_root: zero_hash_string(),
            ai3_proof: None,
        };
        genesis.hash = genesis.calculate_hash();
        proof {
            assert(tx_hashes(genesis.transactions@).len() == 0);
        }
        genesis
    }

    /// Recomputes the hash of the canonical encoding.
    pub fn calculate_hash(&self) -> (r: String)
        ensures
            r@ == sha256_hex_of(canon_block(self)),
            r@.len() == 64,
    {
        let mut data = String::new();
        data.append(u64_to_string(self.index).as_str());
        data.append(u64_to_string(self.timestamp).as_str());
        data.append(self.previous_hash.as_str());
        data.append(u64_to_string(self.nonce).as_str());
        data.append(u64_to_string(self.difficulty).as_str());
        data.append(self.miner.as_str());
        data.append(self.merkle_root.as_str());
        match &self.ai3_proof {
            None => {
                data.append("null");
            },
            Some(p) => {
                data.append("{\"task_id\":\"");
                data.append(p.task_id.as_str());
                data.append("\",\"optimization_factor\":");
                data.append(u64_to_string(p.optimization_factor_permille as u64).as_str());
                data.append(",\"tensor_hash\":\"");
                data.append(p.tensor_hash.as_str());
                data.append("\",\"computation_time\":");
                data.append(u64_to_string(p.computation_time).as_str());
                data.append(",\"miner_signature\":\"");
                data.append(p.miner_signature.as_str());
                data.append("\"}");
            },
        }
        proof {
            assert(data@ =~= canon_block(self));
        }
        sha256_hex(data.as_str())
    }

    /// Seals the block: searches nonces from the current one upward, trying
    /// at most `budget` candidates, and installs the first sealing nonce and
    /// its hash. The search is a pure function of the block template, the
    /// starting nonce and the budget.
    #[verifier::loop_isolation(false)]
    pub fn mine_block(&mut self, difficulty: u64, budget: u64) -> (r: TribeResult<()>)
        ensures
            r is Ok <==> find_nonce(*old(self), difficulty, old(self).nonce, budget as nat)
                is Some,
            r is Ok ==> {
                &&& find_nonce(*old(self), difficulty, old(self).nonce, budget as nat) matches
                    Some(n) && final(self).nonce == n
                &&& *final(self) == (Block {
                    nonce: final(self).nonce,
                    difficulty,
                    hash: final(self).hash,
                    ..*old(self)
                })
                &&& final(self).hash_ok()
                &&& has_zero_prefix(final(self).hash@, difficulty as int)
            },
            r is Err ==> {
                &&& *final(self) == (Block {
                    nonce: final(self).nonce,
                    difficulty,
                    hash: final(self).hash,
                    ..*old(self)
                })
            },
            r matches Err(e) ==> e is Mining,
    {
        self.difficulty = difficulty;
        let ghost b0 = *old(self);
        let ghost start = old(self).nonce;
        let mut used: u64 = 0;
        loop
            invariant
                used <= budget,
                *self == (Block { nonce: self.nonce, difficulty, hash: self.hash, ..b0 }),
                self.nonce >= start,
                find_nonce(b0, difficulty, start, budget as nat) == find_nonce(
                    b0,
                    difficulty,
                    self.nonce,
                    (budget - used) as nat,
                ),
            decreases budget - used,
        {
            if used >= budget {
                return Err(TribeError::Mining("no nonce within budget".to_owned()));
            }
            self.hash = self.calculate_hash();
            proof {
                assert(canon_block(&with_seal(b0, difficulty, self.nonce)) =~= canon_block(self));
            }
            if meets_difficulty(self.hash.as_str(), difficulty) {
                proof {
                    assert(nonce_seals(b0, difficulty, self.nonce));
                    assert(find_nonce(b0, difficulty, self.nonce, (budget - used) as nat)
                        == Some(self.nonce));
                }
                return Ok(());
            }
            proof {
                assert(!nonce_seals(b0, difficulty, self.nonce));
            }
            if self.nonce == u64::MAX {
                proof {
                    assert(find_nonce(b0, difficulty, self.nonce, (budget - used) as nat)
                        is None);
                }
                return Err(TribeError::Mining("nonce space exhausted".to_owned()));
            }
            self.nonce = self.nonce + 1;
            used = used + 1;
        }
    }

    /// Seals the block carrying a tensor proof.
    pub fn mine_with_ai3_proof(&mut self, difficulty: u64, ai3_proof: AI3Proof, budget: u64) -> (r:
        TribeResult<()>)
        ensures
            r is Ok ==> {
                &&& final(self).hash_ok()
                &&& has_zero_prefix(final(self).hash@, difficulty as int)
                &&& final(self).difficulty == difficulty
                &&& final(self).ai3_proof == Some(ai3_proof)
                &&& final(self).transactions == old(self).transactions
                &&& final(self).merkle_root == old(self).merkle_root
                &&& final(self).index == old(self).index
                &&& final(self).timestamp == old(self).timestamp
                &&& final(self).previous_hash == old(self).previous_hash
                &&& final(self).miner == old(self).miner
            },
            r is Err ==> *final(self) == (Block {
                nonce: final(self).nonce,
                difficulty,
                hash: final(self).hash,
                ai3_proof: Some(ai3_proof),
                ..*old(self)
            }),
            r is Ok <==> find_nonce(
                Block { ai3_proof: Some(ai3_proof), ..*old(self) },
                difficulty,
                old(self).nonce,
                budget as nat,
            ) is Some,
            r matches Err(e) ==> e is Mining,
    {
        self.ai3_proof = Some(ai3_proof);
        self.mine_block(difficulty, budget)
    }

    /// Whether the stored hash matches the derivation and carries the given
    /// difficulty's zero prefix.
    pub fn is_valid_hash(&self, difficulty: u64) -> (r: bool)
        ensures
            r == (self.hash_ok() && has_zero_prefix(self.hash@, difficulty as int)),
    {
        let computed = self.calculate_hash();
        if !(self.hash == computed) {
            return false;
        }
        meets_difficulty(self.hash.as_str(), difficulty)
    }

    /// Structural validation against the parent: hash derivation, Merkle
    /// root, difficulty prefix, and the parent linkage.
    pub fn validate(&self, previous_block: Option<&Block>) -> (r: TribeResult<bool>)
        ensures
            r matches Ok(b) && b == self.spec_valid(previous_block),
    {
        let computed = self.calculate_hash();
        if !(self.hash == computed) {
            return Ok(false);
        }
        if let Some(prev) = previous_block {
            if !(self.previous_hash == prev.hash) {
                return Ok(false);
            }
            if prev.index == u64::MAX || self.index != prev.index + 1 {
                return Ok(false);
            }
        }
        let calculated_merkle = calculate_merkle_root(&self.transactions);
        if !(self.merkle_root == calculated_merkle) {
            return Ok(false);
        }
        if !meets_difficulty(self.hash.as_str(), self.difficulty) {
            return Ok(false);
        }
        Ok(true)
    }
}

/// Merkle round trip: for any block whose Merkle root matches its
/// transactions, recomputing the root from the transactions yields the
/// stored root.
pub proof fn lemma_merkle_round_trip(b: &Block)
    requires
        b.merkle_ok(),
    ensures
        merkle_root_of(tx_hashes(b.transactions@)) == b.merkle_root@,
{
}

/// Deterministic sealing: two equal templates mined from the same starting
/// nonce with the same budget find the same nonce.
pub proof fn lemma_deterministic_sealing(b1: Block, b2: Block, difficulty: u64, budget: u64)
    requires
        b1 == b2,
    ensures
        find_nonce(b1, difficulty, b1.nonce, budget as nat) == find_nonce(
            b2,
            difficulty,
            b2.nonce,
            budget as nat,
        ),
{
}

} // verus!
