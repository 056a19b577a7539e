//! The ledger state machine: the chain of blocks, the pending-transaction
//! queue, the balance map, the tensor task pool and the miner registry.

use vstd::prelude::*;
use crate::block::{
    block_equiv, canon_block, canon_proof, canon_proof_opt, find_nonce, has_zero_prefix,
    merkle_root_of, proof_equiv, tx_hashes, with_seal, AI3Proof, Block,
    OPTIMIZATION_FACTOR_MAX_PERMILLE, OPTIMIZATION_FACTOR_MIN_PERMILLE,
};
use crate::errors::{TribeError, TribeResult};
use crate::hashing::sha256_hex_of;
use crate::ledger::{bal, BalanceBook};
use crate::numfmt::dec_of;
use crate::storage::Storage;
use crate::transaction::{Transaction, TransactionType};
use crate::{GENESIS_SUPPLY, MINING_REWARD};

verus! {

use vstd::string::{StringExecFns, StrSliceExecFns};

/// Tensor-augmented sealing difficulty, in permille of the classical one.
pub const AI3_DIFFICULTY_MULTIPLIER_PERMILLE: u64 = 1500;

/// Largest difficulty the controller will ever assign.
pub const MAX_DIFFICULTY: u64 = 32;

/// A registered miner.
#[derive(Debug, Clone)]
pub struct MinerInfo {
    pub id: String,
    pub address: String,
    pub hash_rate: u64,
    pub last_seen: u64,
    pub blocks_mined: u64,
    pub ai3_capability: bool,
}

/// A tensor-computation task in the pool. Element data is carried as
/// IEEE-754 bit patterns.
#[derive(Debug)]
pub struct TensorTask {
    pub id: String,
    pub operation: String,
    pub input_data: Vec<u32>,
    pub expected_output_size: usize,
    pub max_computation_time: u64,
    pub reward: u64,
    pub requester: String,
    pub completed: bool,
    pub result: Option<Vec<u32>>,
    pub assigned_miner: Option<String>,
    pub created_at: u64,
}

/// Whether two tasks agree in every observable field.
pub open spec fn task_equiv(a: &TensorTask, b: &TensorTask) -> bool {
    &&& a.id@ == b.id@
    &&& a.operation@ == b.operation@
    &&& a.input_data@ == b.input_data@
    &&& a.expected_output_size == b.expected_output_size
    &&& a.max_computation_time == b.max_computation_time
    &&& a.reward == b.reward
    &&& a.requester@ == b.requester@
    &&& a.completed == b.completed
    &&& match (&a.result, &b.result) {
        (Option::None, Option::None) => true,
        (Option::Some(x), Option::Some(y)) => x@ == y@,
        _ => false,
    }
    &&& match (&a.assigned_miner, &b.assigned_miner) {
        (Option::None, Option::None) => true,
        (Option::Some(x), Option::Some(y)) => x@ == y@,
        _ => false,
    }
    &&& a.created_at == b.created_at
}

impl Clone for TensorTask {
    /// A clone agrees with the original in every observable field.
    fn clone(&self) -> (r: Self)
        ensures
            task_equiv(self, &r),
    {
        let data = self.input_data.clone();
        proof {
            assert(data@ =~= self.input_data@);
        }
        let result_copy = match &self.result {
            None => None,
            Some(v) => {
                let c = v.clone();
                proof {
                    assert(c@ =~= v@);
                }
                Some(c)
            },
        };
        let miner_copy = match &self.assigned_miner {
            None => None,
            Some(m) => Some(m.clone()),
        };
        TensorTask {
            id: self.id.clone(),
            operation: self.operation.clone(),
            input_data: data,
            expected_output_size: self.expected_output_size,
            max_computation_time: self.max_computation_time,
            reward: self.reward,
            requester: self.requester.clone(),
            completed: self.completed,
            result: result_copy,
            assigned_miner: miner_copy,
            created_at: self.created_at,
        }
    }
}

/// What a transaction removes from its sender when applied.
pub open spec fn consumed_of(t: &Transaction) -> int {
    match &t.transaction_type {
        TransactionType::Transfer { amount, .. } => *amount + t.fee,
        TransactionType::TokenCreate { .. } => t.fee as int,
        TransactionType::TokenTransfer { amount, .. } => *amount + t.fee,
        TransactionType::Stake { amount, .. } => *amount + t.fee,
        TransactionType::TensorCompute { reward, .. } => *reward + t.fee,
        TransactionType::ContractDeploy { .. } => t.fee as int,
        TransactionType::ContractCall { value, .. } => *value + t.fee,
    }
}

/// Who a transaction pays, and how much, besides the sender's deduction.
pub open spec fn credit_of(t: &Transaction) -> Option<(Seq<char>, u64)> {
    match &t.transaction_type {
        TransactionType::Transfer { to, amount } => Option::Some((to@, *amount)),
        TransactionType::TokenTransfer { to, amount, .. } => Option::Some((to@, *amount)),
        _ => Option::None,
    }
}

/// The sender can cover what the transaction consumes.
pub open spec fn tx_applicable(m: Map<Seq<char>, u64>, t: &Transaction) -> bool {
    consumed_of(t) <= bal(m, t.from@)
}

/// The balance map after applying one transaction: the sender is debited,
/// then the recipient, if any, is credited.
pub open spec fn apply_tx(m: Map<Seq<char>, u64>, t: &Transaction) -> Map<Seq<char>, u64> {
    let m1 = m.insert(t.from@, (bal(m, t.from@) - consumed_of(t)) as u64);
    match credit_of(t) {
        Option::Some((to, amount)) => m1.insert(to, (bal(m1, to) + amount) as u64),
        Option::None => m1,
    }
}

/// The transaction is applicable and crediting the recipient stays within
/// the machine word.
pub open spec fn tx_fits(m: Map<Seq<char>, u64>, t: &Transaction) -> bool {
    &&& tx_applicable(m, t)
    &&& match credit_of(t) {
        Option::Some((to, amount)) => {
            let m1 = m.insert(t.from@, (bal(m, t.from@) - consumed_of(t)) as u64);
            bal(m1, to) + amount <= u64::MAX
        },
        Option::None => true,
    }
}

/// Every transaction in the sequence fits the state left by its
/// predecessors.
pub open spec fn txs_fit(m: Map<Seq<char>, u64>, txs: Seq<Transaction>) -> bool
    decreases txs.len(),
{
    if txs.len() == 0 {
        true
    } else {
        tx_fits(m, &txs[0]) && txs_fit(apply_tx(m, &txs[0]), txs.drop_first())
    }
}

/// The balance map after applying the whole sequence in order.
pub open spec fn apply_txs(m: Map<Seq<char>, u64>, txs: Seq<Transaction>) -> Map<Seq<char>, u64>
    decreases txs.len(),
{
    if txs.len() == 0 {
        m
    } else {
        apply_txs(apply_tx(m, &txs[0]), txs.drop_first())
    }
}

/// Sum of the fees of a transaction sequence.
pub open spec fn fees_sum(txs: Seq<Transaction>) -> int
    decreases txs.len(),
{
    if txs.len() == 0 {
        0
    } else {
        fees_sum(txs.drop_last()) + txs.last().fee
    }
}

/// The tasks that applying a transaction sequence appends to the pool: one
/// open task per tensor-computation request, in order.
pub open spec fn tasks_from(txs: Seq<Transaction>, created_at: u64) -> Seq<TensorTask>
    decreases txs.len(),
{
    if txs.len() == 0 {
        Seq::empty()
    } else {
        tasks_from(txs.drop_last(), created_at) + match &txs.last().transaction_type {
            TransactionType::TensorCompute {
                operation,
                input_data,
                expected_output_size,
                max_computation_time,
                reward,
            } => seq![
                TensorTask {
                    id: txs.last().id,
                    operation: *operation,
                    input_data: *input_data,
                    expected_output_size: *expected_output_size,
                    max_computation_time: *max_computation_time,
                    reward: *reward,
                    requester: txs.last().from,
                    completed: false,
                    result: Option::None,
                    assigned_miner: Option::None,
                    created_at,
                },
            ],
            _ => Seq::empty(),
        }
    }
}

/// Position of the first task with the given identifier, or the length of
/// the pool when none matches.
pub open spec fn first_task_index(s: Seq<TensorTask>, id: Seq<char>) -> int
    decreases s.len(),
{
    if s.len() == 0 {
        0
    } else if s[0].id@ == id {
        0
    } else {
        1 + first_task_index(s.drop_first(), id)
    }
}

/// The first matching position lies between zero and the pool's length.
pub proof fn lemma_first_task_bounds(s: Seq<TensorTask>, id: Seq<char>)
    ensures
        0 <= first_task_index(s, id) <= s.len(),
    decreases s.len(),
{
    if s.len() > 0 && s[0].id@ != id {
        lemma_first_task_bounds(s.drop_first(), id);
    }
}

/// The first matching position is the first position whose prefix holds no
/// match.
pub proof fn lemma_first_task_found(s: Seq<TensorTask>, id: Seq<char>, i: int)
    requires
        0 <= i < s.len(),
        s[i].id@ == id,
        forall|j: int| 0 <= j < i ==> s[j].id@ != id,
    ensures
        first_task_index(s, id) == i,
    decreases s.len(),
{
    if i > 0 {
        lemma_first_task_found(s.drop_first(), id, i - 1);
    }
}

/// With no match anywhere, the first matching position is the length.
pub proof fn lemma_first_task_absent(s: Seq<TensorTask>, id: Seq<char>)
    requires
        forall|j: int| 0 <= j < s.len() ==> s[j].id@ != id,
    ensures
        first_task_index(s, id) == s.len(),
    decreases s.len(),
{
    if s.len() > 0 {
        lemma_first_task_absent(s.drop_first(), id);
    }
}

/// Appending tasks does not move an existing first match.
pub proof fn lemma_first_task_append(s: Seq<TensorTask>, t: Seq<TensorTask>, id: Seq<char>)
    requires
        first_task_index(s, id) < s.len(),
    ensures
        first_task_index(s + t, id) == first_task_index(s, id),
        (s + t)[first_task_index(s, id)] == s[first_task_index(s, id)],
    decreases s.len(),
{
    if s.len() > 0 {
        if s[0].id@ == id {
            assert((s + t)[0] == s[0]);
        } else {
            lemma_first_task_append(s.drop_first(), t, id);
            lemma_first_task_bounds(s.drop_first(), id);
            let k = first_task_index(s.drop_first(), id);
            assert((s + t)[0] == s[0]);
            assert((s + t).drop_first() =~= s.drop_first() + t);
            assert(first_task_index(s + t, id) == 1 + first_task_index(
                (s + t).drop_first(),
                id,
            ));
            assert(first_task_index((s + t).drop_first(), id) == k);
            assert((s + t).drop_first() =~= (s + t).subrange(1, (s + t).len() as int));
            assert((s + t).subrange(1, (s + t).len() as int)[k] == (s + t)[1 + k]);
            assert(s.drop_first() =~= s.subrange(1, s.len() as int));
            assert(s.subrange(1, s.len() as int)[k] == s[1 + k]);
        }
    }
}

/// Applying one more transaction at the end composes with the prefix.
pub proof fn lemma_apply_txs_snoc(m: Map<Seq<char>, u64>, txs: Seq<Transaction>, t: Transaction)
    ensures
        apply_txs(m, txs.push(t)) == apply_tx(apply_txs(m, txs), &t),
    decreases txs.len(),
{
    if txs.len() == 0 {
        assert(txs.push(t).drop_first() =~= Seq::<Transaction>::empty());
        assert(txs.push(t)[0] == t);
        assert(apply_txs(m, txs.push(t)) == apply_txs(apply_tx(m, &t), txs.push(t).drop_first()));
        assert(apply_txs(m, txs) == m);
    } else {
        lemma_apply_txs_snoc(apply_tx(m, &txs[0]), txs.drop_first(), t);
        assert(txs.push(t).drop_first() =~= txs.drop_first().push(t));
        assert(txs.push(t)[0] == txs[0]);
        assert(apply_txs(m, txs.push(t)) == apply_txs(
            apply_tx(m, &txs[0]),
            txs.push(t).drop_first(),
        ));
        assert(apply_txs(apply_tx(m, &txs[0]), txs.drop_first().push(t)) == apply_tx(
            apply_txs(apply_tx(m, &txs[0]), txs.drop_first()),
            &t,
        ));
        assert(apply_txs(m, txs) == apply_txs(apply_tx(m, &txs[0]), txs.drop_first()));
    }
}

/// Appending one transaction at the end: the longer list fits exactly
/// when the prefix fits and the appended transaction fits the state the
/// prefix leaves behind.
pub proof fn lemma_txs_fit_snoc(m: Map<Seq<char>, u64>, txs: Seq<Transaction>, t: Transaction)
    ensures
        txs_fit(m, txs.push(t)) == (txs_fit(m, txs) && tx_fits(apply_txs(m, txs), &t)),
    decreases txs.len(),
{
    let pushed = txs.push(t);
    if txs.len() == 0 {
        assert(pushed.drop_first() =~= Seq::<Transaction>::empty());
        assert(pushed[0] == t);
        assert(apply_txs(m, txs) == m);
        assert(txs_fit(m, pushed) == (tx_fits(m, &pushed[0]) && txs_fit(
            apply_tx(m, &pushed[0]),
            pushed.drop_first(),
        )));
        assert(txs_fit(apply_tx(m, &pushed[0]), pushed.drop_first()));
    } else {
        lemma_txs_fit_snoc(apply_tx(m, &txs[0]), txs.drop_first(), t);
        assert(pushed.drop_first() =~= txs.drop_first().push(t));
        assert(pushed[0] == txs[0]);
        assert(apply_txs(m, txs) == apply_txs(apply_tx(m, &txs[0]), txs.drop_first()));
        assert(txs_fit(m, pushed) == (tx_fits(m, &pushed[0]) && txs_fit(
            apply_tx(m, &pushed[0]),
            pushed.drop_first(),
        )));
        assert(txs_fit(m, txs) == (tx_fits(m, &txs[0]) && txs_fit(
            apply_tx(m, &txs[0]),
            txs.drop_first(),
        )));
        assert(txs_fit(apply_tx(m, &txs[0]), txs.drop_first().push(t)) == (txs_fit(
            apply_tx(m, &txs[0]),
            txs.drop_first(),
        ) && tx_fits(apply_txs(apply_tx(m, &txs[0]), txs.drop_first()), &t)));
    }
}

/// A fitting sequence keeps fitting from any position onward: after the
/// first `i` transactions are applied, the rest still fit.
pub proof fn lemma_txs_fit_skip(m: Map<Seq<char>, u64>, txs: Seq<Transaction>, i: int)
    requires
        0 <= i <= txs.len(),
        txs_fit(m, txs),
    ensures
        txs_fit(apply_txs(m, txs.take(i)), txs.skip(i)),
    decreases i,
{
    if i == 0 {
        assert(txs.take(0) =~= Seq::<Transaction>::empty());
        assert(txs.skip(0) =~= txs);
    } else {
        lemma_txs_fit_skip(m, txs, i - 1);
        assert(txs.skip(i - 1)[0] == txs[i - 1]);
        assert(txs.skip(i - 1).drop_first() =~= txs.skip(i));
        assert(txs.take(i) =~= txs.take(i - 1).push(txs[i - 1]));
        lemma_apply_txs_snoc(m, txs.take(i - 1), txs[i - 1]);
    }
}

/// Fees are non-negative, so a prefix sum never exceeds the whole sum.
pub proof fn lemma_fees_prefix(txs: Seq<Transaction>, i: int)
    requires
        0 <= i <= txs.len(),
    ensures
        0 <= fees_sum(txs.take(i)) <= fees_sum(txs),
    decreases txs.len() - i,
{
    if i == txs.len() {
        assert(txs.take(i) =~= txs);
        lemma_fees_nonneg(txs);
    } else {
        lemma_fees_prefix(txs, i + 1);
        lemma_fees_nonneg(txs.take(i));
        assert(txs.take(i + 1).drop_last() =~= txs.take(i));
        assert(txs.take(i + 1).last() == txs[i]);
        assert(fees_sum(txs.take(i + 1)) == fees_sum(txs.take(i)) + txs[i].fee);
    }
}

/// A fee sum is never negative.
pub proof fn lemma_fees_nonneg(txs: Seq<Transaction>)
    ensures
        fees_sum(txs) >= 0,
    decreases txs.len(),
{
    if txs.len() > 0 {
        lemma_fees_nonneg(txs.drop_last());
    }
}

/// Chain-level statistics.
#[derive(Debug, Clone)]
pub struct BlockchainStats {
    pub block_count: u64,
    pub transaction_count: u64,
    pub pending_transactions: u64,
    pub difficulty: u64,
    pub mining_reward: u64,
    pub total_supply: u64,
    pub active_addresses: u64,
    pub avg_block_time: u64,
    pub active_miners: u64,
    pub tensor_tasks: u64,
    pub ai3_difficulty_multiplier_permille: u64,
}

/// The node state: blocks, mempool, balances, task pool and miner registry.
#[derive(Debug)]
pub struct TribeChain {
    pub blocks: Vec<Block>,
    pub pending_transactions: Vec<Transaction>,
    pub difficulty: u64,
    pub mining_reward: u64,
    pub balances: BalanceBook,
    pub storage: Option<Storage>,
    pub tensor_tasks: Vec<TensorTask>,
    pub active_miners: Vec<MinerInfo>,
    pub ai3_difficulty_multiplier_permille: u64,
}

impl TribeChain {
    /// Structural invariant: a non-empty chain of well-formed blocks with
    /// consecutive indices and matching parent hashes, a well-formed
    /// balance book, and a difficulty the controller admits.
    pub open spec fn wf(&self) -> bool {
        &&& self.blocks@.len() >= 1
        &&& forall|i: int|
            0 <= i < self.blocks@.len() ==> (#[trigger] self.blocks@[i]).index == i
        &&& forall|i: int| 0 <= i < self.blocks@.len() ==> (#[trigger] self.blocks@[i]).wf()
        &&& forall|i: int|
            1 <= i < self.blocks@.len() ==> (#[trigger] self.blocks@[i]).previous_hash@
                == self.blocks@[i - 1].hash@
        &&& self.balances.wf()
        &&& 1 <= self.difficulty <= MAX_DIFFICULTY
    }

    /// Balance map of the committed state.
    pub open spec fn spec_balances(&self) -> Map<Seq<char>, u64> {
        self.balances.view()
    }

    /// The mempool fits: applied in admission order to the committed
    /// balances, every pending transaction's sender stays covered and no
    /// credit leaves the machine word. Admission preserves this;
    /// committing a foreign block with transactions still pending may
    /// break it, and sealing then demands it afresh.
    pub open spec fn mempool_ok(&self) -> bool {
        txs_fit(self.spec_balances(), self.pending_transactions@)
    }

    /// Starts a fresh chain: genesis block, genesis balance, empty pools.
    pub fn new(storage_path: &str) -> (r: TribeResult<TribeChain>)
        ensures
            r matches Ok(c) && {
                &&& c.wf()
                &&& c.blocks@.len() == 1
                &&& c.blocks@[0].wf()
                &&& c.blocks@[0].index == 0
                &&& c.pending_transactions@.len() == 0
                &&& c.difficulty == 4
                &&& c.mining_reward == MINING_REWARD
                &&& c.spec_balances() == Map::<Seq<char>, u64>::empty().insert(
                    "genesis"@,
                    GENESIS_SUPPLY,
                )
                &&& c.tensor_tasks@.len() == 0
                &&& c.active_miners@.len() == 0
                &&& c.ai3_difficulty_multiplier_permille == AI3_DIFFICULTY_MULTIPLIER_PERMILLE
            },
    {
        let storage = Storage::new(storage_path)?;
        let mut balances = BalanceBook::new();
        balances.set("genesis", GENESIS_SUPPLY);
        let mut blocks: Vec<Block> = Vec::new();
        blocks.push(Block::genesis());
        let chain = TribeChain {
            blocks,
            pending_transactions: Vec::new(),
            difficulty: 4,
            mining_reward: MINING_REWARD,
            balances,
            storage: Some(storage),
            tensor_tasks: Vec::new(),
            active_miners: Vec::new(),
            ai3_difficulty_multiplier_permille: AI3_DIFFICULTY_MULTIPLIER_PERMILLE,
        };
        Ok(chain)
    }

    /// Balance of an address, zero when unknown.
    pub fn get_balance(&self, address: &str) -> (r: u64)
        requires
            self.wf(),
        ensures
            r == bal(self.spec_balances(), address@),
    {
        self.balances.get(address)
    }

    /// The chain head.
    pub fn get_latest_block(&self) -> (r: Option<&Block>)
        ensures
            self.blocks@.len() == 0 ==> r is None,
            self.blocks@.len() > 0 ==> (r matches Some(b) && *b == self.blocks@.last()),
    {
        let n = self.blocks.len();
        if n == 0 {
            None
        } else {
            Some(&self.blocks[n - 1])
        }
    }

    /// The block at an index.
    pub fn get_block(&self, index: u64) -> (r: Option<&Block>)
        ensures
            index < self.blocks@.len() ==> (r matches Some(b) && *b == self.blocks@[index as int]),
            index >= self.blocks@.len() ==> r is None,
    {
        if index < self.blocks.len() as u64 {
            Some(&self.blocks[index as usize])
        } else {
            None
        }
    }

    /// The committed transaction with the given hash, if any block holds
    /// one.
    pub fn get_transaction(&self, hash: &str) -> (r: Option<&Transaction>)
        ensures
            match r {
                Some(t) => t.hash@ == hash@ && exists|b: int, k: int|
                    0 <= b < self.blocks@.len() && 0 <= k
                        < self.blocks@[b].transactions@.len() && *t
                        == self.blocks@[b].transactions@[k],
                None => forall|b: int, k: int|
                    0 <= b < self.blocks@.len() && 0 <= k
                        < self.blocks@[b].transactions@.len()
                        ==> (#[trigger] self.blocks@[b].transactions@[k]).hash@ != hash@,
            },
    {
        let hash_owned = String::from_str(hash);
        let nb = self.blocks.len();
        let mut b: usize = 0;
        while b < nb
            invariant
                b <= nb,
                nb == self.blocks@.len(),
                hash_owned@ == hash@,
                forall|x: int, k: int|
                    0 <= x < b && 0 <= k < self.blocks@[x].transactions@.len()
                        ==> (#[trigger] self.blocks@[x].transactions@[k]).hash@ != hash@,
            decreases nb - b,
        {
            let nt = self.blocks[b].transactions.len();
            let mut k: usize = 0;
            while k < nt
                invariant
                    k <= nt,
                    b < nb,
                    nb == self.blocks@.len(),
                    nt == self.blocks@[b as int].transactions@.len(),
                    hash_owned@ == hash@,
                    forall|x: int, j: int|
                        0 <= x < b && 0 <= j < self.blocks@[x].transactions@.len()
                            ==> (#[trigger] self.blocks@[x].transactions@[j]).hash@ != hash@,
                    forall|j: int|
                        0 <= j < k ==> (#[trigger] self.blocks@[b as int].transactions@[j]).hash@
                            != hash@,
                decreases nt - k,
            {
                if self.blocks[b].transactions[k].hash == hash_owned {
                    return Some(&self.blocks[b].transactions[k]);
                }
                k = k + 1;
            }
            b = b + 1;
        }
        None
    }

    /// Appends a task to the pool.
    pub fn add_tensor_task(&mut self, task: TensorTask) -> (r: TribeResult<()>)
        ensures
            r is Ok,
            final(self).tensor_tasks@ == old(self).tensor_tasks@.push(task),
            final(self).blocks == old(self).blocks,
            final(self).pending_transactions == old(self).pending_transactions,
            final(self).balances == old(self).balances,
            final(self).difficulty == old(self).difficulty,
            final(self).mining_reward == old(self).mining_reward,
            final(self).active_miners == old(self).active_miners,
    {
        self.tensor_tasks.push(task);
        Ok(())
    }

    /// Registers a miner: replaces the entry with the same identifier, or
    /// appends a new one.
    pub fn register_miner(&mut self, miner_info: MinerInfo) -> (r: TribeResult<()>)
        ensures
            r is Ok,
            old(self).active_miners@.len() <= final(self).active_miners@.len() <= old(self).active_miners@.len() + 1,
            exists|i: int|
                0 <= i < final(self).active_miners@.len() && final(self).active_miners@[i]
                    == miner_info,
            forall|j: int|
                0 <= j < old(self).active_miners@.len() && (#[trigger] old(self).active_miners@[j]).id@ != miner_info.id@ ==> final(self).active_miners@[j]
                    == old(self).active_miners@[j],
            final(self).blocks == old(self).blocks,
            final(self).pending_transactions == old(self).pending_transactions,
            final(self).balances == old(self).balances,
            final(self).tensor_tasks == old(self).tensor_tasks,
            final(self).difficulty == old(self).difficulty,
            final(self).mining_reward == old(self).mining_reward,
    {
        let n = self.active_miners.len();
        let mut i: usize = 0;
        while i < n
            invariant
                i <= n,
                n == self.active_miners@.len(),
                *self == *old(self),
            decreases n - i,
        {
            if self.active_miners[i].id == miner_info.id {
                self.active_miners.set(i, miner_info);
                proof {
                    assert(self.active_miners@[i as int] == miner_info);
                }
                return Ok(());
            }
            i = i + 1;
        }
        self.active_miners.push(miner_info);
        proof {
            assert(self.active_miners@[n as int] == miner_info);
        }
        Ok(())
    }

    /// The open (not yet completed) tasks, in pool order.
    pub fn get_pending_tensor_tasks(&self) -> (r: Vec<&TensorTask>)
        ensures
            r@.len() == open_tasks_of(self.tensor_tasks@).len(),
            forall|i: int|
                0 <= i < r@.len() ==> *(#[trigger] r@[i]) == open_tasks_of(self.tensor_tasks@)[i],
            forall|i: int| 0 <= i < r@.len() ==> !(#[trigger] r@[i]).completed,
    {
        let n = self.tensor_tasks.len();
        let mut result: Vec<&TensorTask> = Vec::new();
        let mut i: usize = 0;
        while i < n
            invariant
                i <= n,
                n == self.tensor_tasks@.len(),
                result@.len() == open_tasks_of(self.tensor_tasks@.take(i as int)).len(),
                forall|j: int|
                    0 <= j < result@.len() ==> *(#[trigger] result@[j]) == open_tasks_of(
                        self.tensor_tasks@.take(i as int),
                    )[j],
            decreases n - i,
        {
            proof {
                assert(self.tensor_tasks@.take(i + 1).drop_last() =~= self.tensor_tasks@.take(
                    i as int,
                ));
                assert(self.tensor_tasks@.take(i + 1).last() == self.tensor_tasks@[i as int]);
            }
            if !self.tensor_tasks[i].completed {
                result.push(&self.tensor_tasks[i]);
            }
            i = i + 1;
        }
        proof {
            assert(self.tensor_tasks@.take(n as int) =~= self.tensor_tasks@);
            lemma_open_tasks_open(self.tensor_tasks@);
        }
        result
    }

    /// Marks the first task with the given identifier completed and stores
    /// its result. Fails exactly when no task matches.
    pub fn complete_tensor_task(&mut self, task_id: &str, result: Vec<u32>) -> (r: TribeResult<
        (),
    >)
        ensures
            ({
                let i = first_task_index(old(self).tensor_tasks@, task_id@);
                &&& r is Ok <==> i < old(self).tensor_tasks@.len()
                &&& (r matches Err(e) ==> e is AI3)
                &&& r is Err ==> *final(self) == *old(self)
                &&& r is Ok ==> {
                    &&& final(self).tensor_tasks@.len() == old(self).tensor_tasks@.len()
                    &&& final(self).tensor_tasks@[i].completed
                    &&& final(self).tensor_tasks@[i].result matches Some(v) && v@ == result@
                    &&& final(self).tensor_tasks@[i].id@ == task_id@
                    &&& forall|j: int|
                        0 <= j < old(self).tensor_tasks@.len() && j != i ==> final(self).tensor_tasks@[j] == old(self).tensor_tasks@[j]
                    &&& final(self).blocks == old(self).blocks
                    &&& final(self).pending_transactions == old(self).pending_transactions
                    &&& final(self).balances == old(self).balances
                    &&& final(self).active_miners == old(self).active_miners
                    &&& final(self).difficulty == old(self).difficulty
                    &&& final(self).mining_reward == old(self).mining_reward
                }
                &&& forall|j: int|
                    0 <= j < old(self).tensor_tasks@.len() && old(self).tensor_tasks@[j].completed ==> final(self).tensor_tasks@[j].completed
            }),
    {
        let id_owned = String::from_str(task_id);
        let n = self.tensor_tasks.len();
        let mut i: usize = 0;
        while i < n
            invariant
                i <= n,
                n == self.tensor_tasks@.len(),
                id_owned@ == task_id@,
                *self == *old(self),
                forall|j: int| 0 <= j < i ==> self.tensor_tasks@[j].id@ != task_id@,
            decreases n - i,
        {
            if self.tensor_tasks[i].id == id_owned {
                proof {
                    lemma_first_task_found(self.tensor_tasks@, task_id@, i as int);
                }
                let mut updated = self.tensor_tasks[i].clone();
                updated.completed = true;
                updated.result = Some(result);
                let ghost pre = self.tensor_tasks@;
                self.tensor_tasks.set(i, updated);
                return Ok(());
            }
            i = i + 1;
        }
        proof {
            lemma_first_task_absent(self.tensor_tasks@, task_id@);
        }
        Err(TribeError::AI3(String::from_str("task not found")))
    }

    /// Validates a tensor proof against the pool: fails when the task is
    /// unknown; otherwise reports whether the task is still open, the
    /// claimed optimization factor lies in the admissible interval, and the
    /// computation time is within the task's bound. The tensor digest is
    /// taken at the sealer's word: floating-point kernels are not
    /// bit-reproducible across hosts, so no recomputation happens here.
    pub fn validate_ai3_proof(&self, ai3_proof: &AI3Proof) -> (r: TribeResult<bool>)
        ensures
            ({
                let i = first_task_index(self.tensor_tasks@, ai3_proof.task_id@);
                &&& (r is Err <==> i >= self.tensor_tasks@.len())
                &&& (r matches Err(e) ==> e is AI3)
                &&& (match r {
                    Ok(b) => b == (!self.tensor_tasks@[i].completed
                        && OPTIMIZATION_FACTOR_MIN_PERMILLE
                        <= ai3_proof.optimization_factor_permille
                        && ai3_proof.optimization_factor_permille
                        <= OPTIMIZATION_FACTOR_MAX_PERMILLE && ai3_proof.computation_time
                        <= self.tensor_tasks@[i].max_computation_time),
                    Err(_) => true,
                })
            }),
    {
        let n = self.tensor_tasks.len();
        let mut i: usize = 0;
        while i < n
            invariant
                i <= n,
                n == self.tensor_tasks@.len(),
                forall|j: int| 0 <= j < i ==> self.tensor_tasks@[j].id@ != ai3_proof.task_id@,
            decreases n - i,
        {
            if self.tensor_tasks[i].id == ai3_proof.task_id {
                proof {
                    lemma_first_task_found(self.tensor_tasks@, ai3_proof.task_id@, i as int);
                }
                let task = &self.tensor_tasks[i];
                if task.completed {
                    return Ok(false);
                }
                if ai3_proof.optimization_factor_permille < OPTIMIZATION_FACTOR_MIN_PERMILLE
                    || ai3_proof.optimization_factor_permille > OPTIMIZATION_FACTOR_MAX_PERMILLE {
                    return Ok(false);
                }
                if ai3_proof.computation_time > task.max_computation_time {
                    return Ok(false);
                }
                return Ok(true);
            }
            i = i + 1;
        }
        proof {
            lemma_first_task_absent(self.tensor_tasks@, ai3_proof.task_id@);
        }
        Err(TribeError::AI3(String::from_str("task not found")))
    }
}

/// No position before the first match holds the identifier.
pub proof fn lemma_first_task_no_earlier(s: Seq<TensorTask>, id: Seq<char>)
    ensures
        forall|j: int| 0 <= j < first_task_index(s, id) ==> s[j].id@ != id,
    decreases s.len(),
{
    if s.len() > 0 && s[0].id@ != id {
        lemma_first_task_no_earlier(s.drop_first(), id);
        lemma_first_task_bounds(s.drop_first(), id);
        assert forall|j: int| 0 <= j < first_task_index(s, id) implies s[j].id@ != id by {
            if j > 0 {
                assert(s.drop_first() =~= s.subrange(1, s.len() as int));
                assert(s.subrange(1, s.len() as int)[j - 1] == s[j]);
            }
        }
    }
}

/// Sum of the balances held by a book's entries.
pub open spec fn sum_balances(s: Seq<(String, u64)>) -> int
    decreases s.len(),
{
    if s.len() == 0 {
        0
    } else {
        sum_balances(s.drop_last()) + s.last().1
    }
}

/// Total number of transactions committed in a chain of blocks.
pub open spec fn sum_tx_counts(blocks: Seq<Block>) -> int
    decreases blocks.len(),
{
    if blocks.len() == 0 {
        0
    } else {
        sum_tx_counts(blocks.drop_last()) + blocks.last().transactions@.len()
    }
}

/// The difficulty the controller assigns after a block is appended: every
/// ten blocks the last window's span is compared with the ten-minute
/// target, and the difficulty moves one step, clamped to the admissible
/// interval.
pub open spec fn adjusted_difficulty(blocks: Seq<Block>, d: u64) -> u64 {
    if blocks.len() < 10 {
        d
    } else {
        let last = blocks.last().timestamp;
        let first = blocks[blocks.len() - 10].timestamp;
        let diff = if last >= first {
            last - first
        } else {
            0
        };
        if diff < 300 {
            if d < MAX_DIFFICULTY {
                (d + 1) as u64
            } else {
                d
            }
        } else if diff > 1200 && d > 1 {
            (d - 1) as u64
        } else {
            d
        }
    }
}

impl TribeChain {
    /// What the transaction consumes, or nothing when the sum of its
    /// amount and fee leaves the machine word.
    pub fn consumed_checked(t: &Transaction) -> (r: Option<u64>)
        ensures
            match r {
                Some(c) => c == consumed_of(t),
                None => consumed_of(t) > u64::MAX,
            },
    {
        match &t.transaction_type {
            TransactionType::Transfer { amount, .. } => amount.checked_add(t.fee),
            TransactionType::TokenCreate { .. } => Some(t.fee),
            TransactionType::TokenTransfer { amount, .. } => amount.checked_add(t.fee),
            TransactionType::Stake { amount, .. } => amount.checked_add(t.fee),
            TransactionType::TensorCompute { reward, .. } => reward.checked_add(t.fee),
            TransactionType::ContractDeploy { .. } => Some(t.fee),
            TransactionType::ContractCall { value, .. } => value.checked_add(t.fee),
        }
    }

    /// Whether the sender's committed balance covers the transaction.
    pub fn covers_balance(&self, t: &Transaction) -> (r: bool)
        requires
            self.wf(),
        ensures
            r == tx_applicable(self.spec_balances(), t),
    {
        let sender_balance = self.balances.get(t.from.as_str());
        match Self::consumed_checked(t) {
            Some(c) => c <= sender_balance,
            None => false,
        }
    }

    /// Stateless and balance validation against an explicit clock reading.
    pub fn validate_transaction_at(&self, t: &Transaction, now: u64) -> (r: bool)
        requires
            self.wf(),
        ensures
            r == (t.spec_valid_at(now) && tx_applicable(self.spec_balances(), t)),
    {
        if !t.validate_at(now) {
            return false;
        }
        self.covers_balance(t)
    }

    /// Validation against the wall clock. Whatever the clock read, a
    /// `true` outcome implies structural validity and a covered balance,
    /// and a covered transaction no clock can reject is owed `true`.
    pub fn validate_transaction(&self, t: &Transaction) -> (r: TribeResult<bool>)
        requires
            self.wf(),
        ensures
            r is Ok,
            r matches Ok(b) ==> (b ==> t.spec_structurally_valid() && tx_applicable(
                self.spec_balances(),
                t,
            )),
            r matches Ok(b) ==> ((t.spec_structurally_valid() && t.timestamp
                <= crate::transaction::TIMESTAMP_TOLERANCE && tx_applicable(
                self.spec_balances(),
                t,
            )) ==> b),
    {
        let now = crate::runtime::now_seconds();
        Ok(self.validate_transaction_at(t, now))
    }

    /// Admits a transaction to the mempool, judged at an explicit clock
    /// reading. The balance check runs against the balances left by the
    /// already-pending transactions (validation before application), so an
    /// admitted mempool always fits the committed state in order.
    pub fn add_transaction_at(&mut self, transaction: Transaction, now: u64) -> (r: TribeResult<
        (),
    >)
        requires
            old(self).wf(),
            old(self).mempool_ok(),
        ensures
            final(self).wf(),
            final(self).mempool_ok(),
            r is Ok <==> (transaction.spec_valid_at(now) && tx_fits(
                apply_txs(old(self).spec_balances(), old(self).pending_transactions@),
                &transaction,
            )),
            r is Ok ==> final(self).pending_transactions@ == old(self).pending_transactions@.push(transaction),
            r is Err ==> *final(self) == *old(self),
            r matches Err(e) ==> e is InvalidTransaction,
            final(self).blocks == old(self).blocks,
            final(self).balances == old(self).balances,
            final(self).tensor_tasks == old(self).tensor_tasks,
            final(self).active_miners == old(self).active_miners,
            final(self).difficulty == old(self).difficulty,
            final(self).mining_reward == old(self).mining_reward,
    {
        if !transaction.validate_at(now) {
            return Err(TribeError::InvalidTransaction(String::from_str(
                "transaction validation failed",
            )));
        }
        let projected = self.projected_balances();
        if !Self::tx_fits_book(&projected, &transaction) {
            return Err(TribeError::InvalidTransaction(String::from_str(
                "insufficient balance for the pending queue",
            )));
        }
        let ghost pre_pending = self.pending_transactions@;
        self.pending_transactions.push(transaction);
        proof {
            lemma_txs_fit_snoc(old(self).spec_balances(), pre_pending, transaction);
        }
        Ok(())
    }

    /// Admits a transaction to the mempool against the wall clock.
    /// Whatever the clock read, acceptance implies structural validity and
    /// a fitting balance, and a transaction no clock can reject (its
    /// timestamp within the bare tolerance) that fits the pending queue is
    /// owed acceptance.
    pub fn add_transaction(&mut self, transaction: Transaction) -> (r: TribeResult<()>)
        requires
            old(self).wf(),
            old(self).mempool_ok(),
        ensures
            final(self).wf(),
            final(self).mempool_ok(),
            r is Ok ==> transaction.spec_structurally_valid() && tx_fits(
                apply_txs(old(self).spec_balances(), old(self).pending_transactions@),
                &transaction,
            ) && final(self).pending_transactions@ == old(self).pending_transactions@.push(
                transaction,
            ),
            (transaction.spec_structurally_valid() && transaction.timestamp
                <= crate::transaction::TIMESTAMP_TOLERANCE && tx_fits(
                apply_txs(old(self).spec_balances(), old(self).pending_transactions@),
                &transaction,
            )) ==> r is Ok,
            r is Err ==> *final(self) == *old(self),
            r matches Err(e) ==> e is InvalidTransaction,
            final(self).blocks == old(self).blocks,
            final(self).balances == old(self).balances,
            final(self).tensor_tasks == old(self).tensor_tasks,
            final(self).active_miners == old(self).active_miners,
            final(self).difficulty == old(self).difficulty,
            final(self).mining_reward == old(self).mining_reward,
    {
        let now = crate::runtime::now_seconds();
        self.add_transaction_at(transaction, now)
    }

    /// Applies one transaction to the balance book.
    fn apply_one(&mut self, t: &Transaction)
        requires
            old(self).balances.wf(),
            tx_fits(old(self).balances.view(), t),
        ensures
            final(self).balances.wf(),
            final(self).balances.view() == apply_tx(old(self).balances.view(), t),
            final(self).blocks == old(self).blocks,
            final(self).pending_transactions == old(self).pending_transactions,
            final(self).tensor_tasks == old(self).tensor_tasks,
            final(self).active_miners == old(self).active_miners,
            final(self).difficulty == old(self).difficulty,
            final(self).mining_reward == old(self).mining_reward,
            final(self).storage == old(self).storage,
            final(self).ai3_difficulty_multiplier_permille == old(self).ai3_difficulty_multiplier_permille,
    {
        apply_tx_book(&mut self.balances, t);
    }

    /// Whether a transaction fits a balance state: the sender covers what
    /// it consumes and crediting the recipient stays within the word.
    fn tx_fits_book(book: &BalanceBook, t: &Transaction) -> (r: bool)
        requires
            book.wf(),
        ensures
            r == tx_fits(book.view(), t),
    {
        let sender_balance = book.get(t.from.as_str());
        let consumed = match Self::consumed_checked(t) {
            Some(c) => c,
            None => {
                return false;
            },
        };
        if consumed > sender_balance {
            return false;
        }
        match &t.transaction_type {
            TransactionType::Transfer { to, amount } => {
                let recipient = if *to == t.from {
                    sender_balance - consumed
                } else {
                    book.get(to.as_str())
                };
                match recipient.checked_add(*amount) {
                    Some(_) => true,
                    None => false,
                }
            },
            TransactionType::TokenTransfer { to, amount, .. } => {
                let recipient = if *to == t.from {
                    sender_balance - consumed
                } else {
                    book.get(to.as_str())
                };
                match recipient.checked_add(*amount) {
                    Some(_) => true,
                    None => false,
                }
            },
            _ => true,
        }
    }

    /// The committed balances with the whole mempool applied, in order.
    #[verifier::loop_isolation(false)]
    fn projected_balances(&self) -> (r: BalanceBook)
        requires
            self.wf(),
            self.mempool_ok(),
        ensures
            r.wf(),
            r.view() == apply_txs(self.spec_balances(), self.pending_transactions@),
    {
        let mut book = self.balances.clone();
        let ghost m0 = self.spec_balances();
        proof {
            assert(self.pending_transactions@.skip(0) =~= self.pending_transactions@);
        }
        let n = self.pending_transactions.len();
        let mut i: usize = 0;
        while i < n
            invariant
                i <= n,
                n == self.pending_transactions@.len(),
                book.wf(),
                book.view() == apply_txs(m0, self.pending_transactions@.take(i as int)),
                txs_fit(book.view(), self.pending_transactions@.skip(i as int)),
            decreases n - i,
        {
            proof {
                assert(self.pending_transactions@.skip(i as int)[0]
                    == self.pending_transactions@[i as int]);
                assert(self.pending_transactions@.skip(i as int).drop_first()
                    =~= self.pending_transactions@.skip(i + 1));
                assert(self.pending_transactions@.take(i + 1) =~= self.pending_transactions@.take(
                    i as int,
                ).push(self.pending_transactions@[i as int]));
                lemma_apply_txs_snoc(
                    m0,
                    self.pending_transactions@.take(i as int),
                    self.pending_transactions@[i as int],
                );
            }
            apply_tx_book(&mut book, &self.pending_transactions[i]);
            i = i + 1;
        }
        proof {
            assert(self.pending_transactions@.take(n as int) =~= self.pending_transactions@);
        }
        book
    }

    /// Recomputes the controller's difficulty after a block was appended.
    fn adjust_difficulty(&mut self)
        requires
            old(self).blocks@.len() >= 1,
            1 <= old(self).difficulty <= MAX_DIFFICULTY,
        ensures
            final(self).difficulty == adjusted_difficulty(old(self).blocks@, old(self).difficulty),
            1 <= final(self).difficulty <= MAX_DIFFICULTY,
            old(self).difficulty / 2 <= final(self).difficulty <= 2 * old(self).difficulty,
            final(self).blocks == old(self).blocks,
            final(self).pending_transactions == old(self).pending_transactions,
            final(self).balances == old(self).balances,
            final(self).tensor_tasks == old(self).tensor_tasks,
            final(self).active_miners == old(self).active_miners,
            final(self).mining_reward == old(self).mining_reward,
            final(self).storage == old(self).storage,
            final(self).ai3_difficulty_multiplier_permille == old(self).ai3_difficulty_multiplier_permille,
    {
        let n = self.blocks.len();
        if n < 10 {
            return ;
        }
        let last = self.blocks[n - 1].timestamp;
        let first = self.blocks[n - 10].timestamp;
        let diff = if last >= first {
            last - first
        } else {
            0
        };
        if diff < 300 {
            if self.difficulty < MAX_DIFFICULTY {
                self.difficulty = self.difficulty + 1;
            }
        } else if diff > 1200 && self.difficulty > 1 {
            self.difficulty = self.difficulty - 1;
        }
    }

    /// Sum of the fees of a transaction list.
    pub fn total_fees(txs: &Vec<Transaction>) -> (r: u64)
        requires
            fees_sum(txs@) <= u64::MAX,
        ensures
            r == fees_sum(txs@),
    {
        let n = txs.len();
        let mut acc: u64 = 0;
        let mut i: usize = 0;
        while i < n
            invariant
                i <= n,
                n == txs@.len(),
                fees_sum(txs@) <= u64::MAX,
                acc == fees_sum(txs@.take(i as int)),
            decreases n - i,
        {
            proof {
                lemma_fees_prefix(txs@, i + 1);
                assert(txs@.take(i + 1).drop_last() =~= txs@.take(i as int));
                assert(txs@.take(i + 1).last() == txs@[i as int]);
            }
            acc = acc + txs[i].fee;
            i = i + 1;
        }
        proof {
            assert(txs@.take(n as int) =~= txs@);
        }
        acc
    }

    /// Validates a block against the head and, when it is valid, commits
    /// it: every transaction is applied to the balances, each
    /// tensor-computation request opens a task, the block is appended, and
    /// the difficulty is retargeted.
    #[verifier::loop_isolation(false)]
    #[verifier::rlimit(100)]
    pub fn add_block(&mut self, block: Block) -> (r: TribeResult<()>)
        requires
            old(self).wf(),
            txs_fit(old(self).spec_balances(), block.transactions@),
        ensures
            final(self).wf(),
            r is Ok <==> block.spec_valid(Some(&old(self).blocks@.last())),
            r matches Err(e) ==> e is InvalidBlock,
            r is Err ==> *final(self) == *old(self),
            r is Ok ==> {
                &&& final(self).blocks@ == old(self).blocks@.push(block)
                &&& final(self).spec_balances() == apply_txs(
                    old(self).spec_balances(),
                    block.transactions@,
                )
                &&& final(self).pending_transactions == old(self).pending_transactions
                &&& final(self).active_miners == old(self).active_miners
                &&& final(self).mining_reward == old(self).mining_reward
                &&& final(self).tensor_tasks@.len() == old(self).tensor_tasks@.len() + tasks_from(
                    block.transactions@,
                    block.timestamp,
                ).len()
                &&& forall|j: int|
                    0 <= j < old(self).tensor_tasks@.len() ==> final(self).tensor_tasks@[j] == old(self).tensor_tasks@[j]
                &&& forall|j: int|
                    old(self).tensor_tasks@.len() <= j < final(self).tensor_tasks@.len()
                        ==> task_equiv(
                        &final(self).tensor_tasks@[j],
                        &tasks_from(block.transactions@, block.timestamp)[j - old(self).tensor_tasks@.len()],
                    )
                &&& final(self).difficulty == adjusted_difficulty(
                    final(self).blocks@,
                    old(self).difficulty,
                )
                &&& old(self).difficulty / 2 <= final(self).difficulty <= 2 * old(self).difficulty
            },
            forall|j: int|
                0 <= j < old(self).tensor_tasks@.len() && old(self).tensor_tasks@[j].completed
                    ==> final(self).tensor_tasks@[j].completed,
    {
        let n = self.blocks.len();
        let valid = match block.validate(Some(&self.blocks[n - 1])) {
            Ok(b) => b,
            Err(_) => false,
        };
        if !valid {
            return Err(TribeError::InvalidBlock(String::from_str("block validation failed")));
        }
        self.commit_transactions(&block);
        let ghost pre_push = *self;
        self.blocks.push(block);
        self.adjust_difficulty();
        proof {
            assert forall|i: int|
                0 <= i < self.blocks@.len() implies (#[trigger] self.blocks@[i]).wf() by {
                if i < self.blocks@.len() - 1 {
                    assert(self.blocks@[i] == old(self).blocks@[i]);
                }
            }
        }
        Ok(())
    }

    /// Applies a block's transactions to the balances and opens one task
    /// per tensor-computation request.
    #[verifier::loop_isolation(false)]
    fn commit_transactions(&mut self, block: &Block)
        requires
            old(self).balances.wf(),
            txs_fit(old(self).balances.view(), block.transactions@),
        ensures
            final(self).balances.wf(),
            final(self).balances.view() == apply_txs(
                old(self).balances.view(),
                block.transactions@,
            ),
            final(self).tensor_tasks@.len() == old(self).tensor_tasks@.len() + tasks_from(
                block.transactions@,
                block.timestamp,
            ).len(),
            forall|j: int|
                0 <= j < old(self).tensor_tasks@.len() ==> final(self).tensor_tasks@[j] == old(self).tensor_tasks@[j],
            forall|j: int|
                old(self).tensor_tasks@.len() <= j < final(self).tensor_tasks@.len()
                    ==> task_equiv(
                    &final(self).tensor_tasks@[j],
                    &tasks_from(block.transactions@, block.timestamp)[j - old(self).tensor_tasks@.len()],
                ),
            final(self).blocks == old(self).blocks,
            final(self).pending_transactions == old(self).pending_transactions,
            final(self).active_miners == old(self).active_miners,
            final(self).difficulty == old(self).difficulty,
            final(self).mining_reward == old(self).mining_reward,
            final(self).storage == old(self).storage,
            final(self).ai3_difficulty_multiplier_permille == old(self).ai3_difficulty_multiplier_permille,
    {
        let ghost m0 = self.balances.view();
        let ghost t0 = self.tensor_tasks@;
        let ghost ts = block.timestamp;
        proof {
            assert(block.transactions@.skip(0) =~= block.transactions@);
        }
        let nt = block.transactions.len();
        let mut k: usize = 0;
        while k < nt
            invariant
                k <= nt,
                nt == block.transactions@.len(),
                self.balances.wf(),
                self.balances.view() == apply_txs(m0, block.transactions@.take(k as int)),
                txs_fit(self.balances.view(), block.transactions@.skip(k as int)),
                self.tensor_tasks@.len() == t0.len() + tasks_from(
                    block.transactions@.take(k as int),
                    ts,
                ).len(),
                forall|j: int| 0 <= j < t0.len() ==> self.tensor_tasks@[j] == t0[j],
                forall|j: int|
                    t0.len() <= j < self.tensor_tasks@.len() ==> task_equiv(
                        &self.tensor_tasks@[j],
                        &tasks_from(block.transactions@.take(k as int), ts)[j - t0.len()],
                    ),
                self.blocks == old(self).blocks,
                self.pending_transactions == old(self).pending_transactions,
                self.active_miners == old(self).active_miners,
                self.difficulty == old(self).difficulty,
                self.mining_reward == old(self).mining_reward,
                self.storage == old(self).storage,
                self.ai3_difficulty_multiplier_permille == old(self).ai3_difficulty_multiplier_permille,
            decreases nt - k,
        {
            proof {
                assert(block.transactions@.skip(k as int)[0] == block.transactions@[k as int]);
                assert(block.transactions@.skip(k as int).drop_first() =~= block.transactions@.skip(
                    k + 1,
                ));
                assert(block.transactions@.take(k + 1) =~= block.transactions@.take(
                    k as int,
                ).push(block.transactions@[k as int]));
                lemma_apply_txs_snoc(
                    m0,
                    block.transactions@.take(k as int),
                    block.transactions@[k as int],
                );
            }
            let t = &block.transactions[k];
            self.apply_one(t);
            let ghost pre_tasks = self.tensor_tasks@;
            if let TransactionType::TensorCompute {
                operation,
                input_data,
                expected_output_size,
                max_computation_time,
                reward,
            } = &t.transaction_type {
                let data = input_data.clone();
                proof {
                    assert(data@ =~= input_data@);
                }
                let task = TensorTask {
                    id: t.id.clone(),
                    operation: operation.clone(),
                    input_data: data,
                    expected_output_size: *expected_output_size,
                    max_computation_time: *max_computation_time,
                    reward: *reward,
                    requester: t.from.clone(),
                    completed: false,
                    result: None,
                    assigned_miner: None,
                    created_at: block.timestamp,
                };
                self.tensor_tasks.push(task);
            }
            proof {
                let taken = block.transactions@.take(k + 1);
                assert(taken.drop_last() =~= block.transactions@.take(k as int));
                assert(taken.last() == block.transactions@[k as int]);
                assert(self.tensor_tasks@.len() == t0.len() + tasks_from(taken, ts).len());
                assert forall|j: int|
                    t0.len() <= j < self.tensor_tasks@.len() implies task_equiv(
                    &self.tensor_tasks@[j],
                    &tasks_from(taken, ts)[j - t0.len()],
                ) by {
                    if j < pre_tasks.len() {
                        assert(self.tensor_tasks@[j] == pre_tasks[j]);
                    }
                }
            }
            k = k + 1;
        }
        proof {
            assert(block.transactions@.take(nt as int) =~= block.transactions@);
        }
    }

    /// Seals a block over the pending transactions at an explicit clock
    /// reading and commits it: the miner is credited with the mining
    /// reward plus the sum of the fees. Succeeds exactly when the mempool
    /// is non-empty and some nonce seals the template; failure leaves the
    /// state unchanged.
    #[verifier::rlimit(100)]
    #[verifier::spinoff_prover]
    pub fn mine_block_at(&mut self, miner_address: String, now: u64) -> (r: TribeResult<Block>)
        requires
            old(self).wf(),
            old(self).mempool_ok(),
            bal(
                apply_txs(old(self).spec_balances(), old(self).pending_transactions@),
                miner_address@,
            ) + old(self).mining_reward + fees_sum(old(self).pending_transactions@) <= u64::MAX,
        ensures
            final(self).wf(),
            r is Ok <==> (old(self).pending_transactions@.len() > 0 && spec_find_template_nonce(
                old(self),
                miner_address@,
                now,
                old(self).difficulty,
                "null"@,
                0,
                u64::MAX as nat,
            ) is Some),
            r matches Err(e) ==> e is Mining,
            r is Err ==> *final(self) == *old(self),
            r matches Ok(b) ==> {
                &&& final(self).blocks@.len() == old(self).blocks@.len() + 1
                &&& final(self).blocks@.take(old(self).blocks@.len() as int) == old(self).blocks@
                &&& block_equiv(&b, &final(self).blocks@.last())
                &&& final(self).blocks@.last().index == old(self).blocks@.len()
                &&& final(self).blocks@.last().previous_hash@ == old(self).blocks@.last().hash@
                &&& final(self).blocks@.last().miner@ == miner_address@
                &&& final(self).blocks@.last().transactions@ == old(self).pending_transactions@
                &&& final(self).blocks@.last().difficulty == old(self).difficulty
                &&& final(self).blocks@.last().timestamp == now
                &&& final(self).blocks@.last().spec_sealed()
                &&& final(self).blocks@.last().merkle_ok()
                &&& final(self).pending_transactions@.len() == 0
                &&& final(self).spec_balances() == apply_txs(
                    old(self).spec_balances(),
                    old(self).pending_transactions@,
                ).insert(
                    miner_address@,
                    (bal(
                        apply_txs(old(self).spec_balances(), old(self).pending_transactions@),
                        miner_address@,
                    ) + old(self).mining_reward + fees_sum(
                        old(self).pending_transactions@,
                    )) as u64,
                )
                &&& final(self).mining_reward == old(self).mining_reward
                &&& final(self).active_miners == old(self).active_miners
                &&& forall|j: int|
                    0 <= j < old(self).tensor_tasks@.len() ==> final(self).tensor_tasks@[j]
                        == old(self).tensor_tasks@[j]
            },
            forall|j: int|
                0 <= j < old(self).tensor_tasks@.len() && old(self).tensor_tasks@[j].completed
                    ==> final(self).tensor_tasks@[j].completed,
    {
        if self.pending_transactions.len() == 0 {
            return Err(TribeError::Mining(String::from_str("no pending transactions to mine")));
        }
        let d = self.difficulty;
        let block = match self.seal_pending(&miner_address, None, d, now) {
            Ok(b) => b,
            Err(e) => {
                return Err(e);
            },
        };
        proof {
            lemma_fees_nonneg(block.transactions@);
        }
        let ghost sealed_block = block;
        let ret = self.commit_sealed(block, &miner_address);
        proof {
            assert(self.blocks@.last() == sealed_block);
            assert(self.blocks@.last().timestamp == now);
            assert(tasks_from(sealed_block.transactions@, sealed_block.timestamp) == tasks_from(
                old(self).pending_transactions@,
                now,
            ));
        }
        Ok(ret)
    }

    /// Seals a block over the pending transactions against the wall clock
    /// and commits it. An empty mempool always fails; whatever the clock
    /// read, success carries the sealed head and the miner's credit of
    /// reward plus fees.
    pub fn mine_block(&mut self, miner_address: String) -> (r: TribeResult<Block>)
        requires
            old(self).wf(),
            old(self).mempool_ok(),
            bal(
                apply_txs(old(self).spec_balances(), old(self).pending_transactions@),
                miner_address@,
            ) + old(self).mining_reward + fees_sum(old(self).pending_transactions@) <= u64::MAX,
        ensures
            final(self).wf(),
            old(self).pending_transactions@.len() == 0 ==> r is Err,
            r matches Err(e) ==> e is Mining,
            r is Err ==> *final(self) == *old(self),
            r matches Ok(b) ==> {
                &&& final(self).blocks@.len() == old(self).blocks@.len() + 1
                &&& final(self).blocks@.take(old(self).blocks@.len() as int) == old(self).blocks@
                &&& block_equiv(&b, &final(self).blocks@.last())
                &&& final(self).blocks@.last().index == old(self).blocks@.len()
                &&& final(self).blocks@.last().previous_hash@ == old(self).blocks@.last().hash@
                &&& final(self).blocks@.last().miner@ == miner_address@
                &&& final(self).blocks@.last().transactions@ == old(self).pending_transactions@
                &&& final(self).blocks@.last().difficulty == old(self).difficulty
                &&& final(self).blocks@.last().spec_sealed()
                &&& final(self).blocks@.last().merkle_ok()
                &&& final(self).pending_transactions@.len() == 0
                &&& final(self).spec_balances() == apply_txs(
                    old(self).spec_balances(),
                    old(self).pending_transactions@,
                ).insert(
                    miner_address@,
                    (bal(
                        apply_txs(old(self).spec_balances(), old(self).pending_transactions@),
                        miner_address@,
                    ) + old(self).mining_reward + fees_sum(
                        old(self).pending_transactions@,
                    )) as u64,
                )
                &&& final(self).mining_reward == old(self).mining_reward
                &&& final(self).active_miners == old(self).active_miners
                &&& forall|j: int|
                    0 <= j < old(self).tensor_tasks@.len() ==> final(self).tensor_tasks@[j]
                        == old(self).tensor_tasks@[j]
            },
            forall|j: int|
                0 <= j < old(self).tensor_tasks@.len() && old(self).tensor_tasks@[j].completed
                    ==> final(self).tensor_tasks@[j].completed,
    {
        let now = crate::runtime::now_seconds();
        let r = self.mine_block_at(miner_address, now);
        proof {
            if r is Ok {
                assert(self.blocks@.last().timestamp == now);
                assert(tasks_from(old(self).pending_transactions@, self.blocks@.last().timestamp)
                    == tasks_from(old(self).pending_transactions@, now));
            }
        }
        r
    }

    /// Seals a block carrying a tensor proof at an explicit clock reading,
    /// at the tensor-augmented difficulty, and commits it. Succeeds
    /// exactly when the mempool is non-empty, the referenced task is open
    /// with the claimed factor and time in bounds, and some nonce seals
    /// the template; afterwards the task is completed and assigned to the
    /// miner, whose credit adds the proof bonus, and the task's stored
    /// result is untouched (the host records the executed output through
    /// its own completion call).
    #[verifier::rlimit(100)]
    #[verifier::spinoff_prover]
    pub fn mine_block_with_ai3_at(&mut self, miner_address: String, ai3_proof: AI3Proof, now: u64) -> (r:
        TribeResult<Block>)
        requires
            old(self).wf(),
            old(self).mempool_ok(),
            bal(
                apply_txs(old(self).spec_balances(), old(self).pending_transactions@),
                miner_address@,
            ) + old(self).mining_reward + old(self).mining_reward
                * ai3_proof.optimization_factor_permille / 1000 + fees_sum(
                old(self).pending_transactions@,
            ) <= u64::MAX,
        ensures
            final(self).wf(),
            ({
                let i = first_task_index(old(self).tensor_tasks@, ai3_proof.task_id@);
                r is Ok <==> (old(self).pending_transactions@.len() > 0 && i < old(self).tensor_tasks@.len() && !old(self).tensor_tasks@[i].completed
                    && OPTIMIZATION_FACTOR_MIN_PERMILLE <= ai3_proof.optimization_factor_permille
                    && ai3_proof.optimization_factor_permille <= OPTIMIZATION_FACTOR_MAX_PERMILLE
                    && ai3_proof.computation_time <= old(self).tensor_tasks@[i].max_computation_time && spec_find_template_nonce(
                    old(self),
                    miner_address@,
                    now,
                    (((3 * old(self).difficulty + 1) as u64) / 2) as u64,
                    canon_proof(&ai3_proof),
                    0,
                    u64::MAX as nat,
                ) is Some)
            }),
            old(self).pending_transactions@.len() == 0 ==> (r matches Err(e) && e is Mining),
            ({
                let i = first_task_index(old(self).tensor_tasks@, ai3_proof.task_id@);
                (old(self).pending_transactions@.len() > 0 && !(i < old(self).tensor_tasks@.len() && !old(self).tensor_tasks@[i].completed
                    && OPTIMIZATION_FACTOR_MIN_PERMILLE <= ai3_proof.optimization_factor_permille
                    && ai3_proof.optimization_factor_permille <= OPTIMIZATION_FACTOR_MAX_PERMILLE
                    && ai3_proof.computation_time <= old(self).tensor_tasks@[i].max_computation_time)) ==> (r matches Err(e) && e is AI3)
            }),
            r matches Err(e) ==> (e is Mining || e is AI3),
            r is Err ==> *final(self) == *old(self),
            r matches Ok(b) ==> {
                let i = first_task_index(old(self).tensor_tasks@, ai3_proof.task_id@);
                &&& i < old(self).tensor_tasks@.len()
                &&& !old(self).tensor_tasks@[i].completed
                &&& OPTIMIZATION_FACTOR_MIN_PERMILLE <= ai3_proof.optimization_factor_permille
                &&& ai3_proof.optimization_factor_permille <= OPTIMIZATION_FACTOR_MAX_PERMILLE
                &&& ai3_proof.computation_time <= old(self).tensor_tasks@[i].max_computation_time
                &&& i < final(self).tensor_tasks@.len()
                &&& final(self).tensor_tasks@[i].completed
                &&& (final(self).tensor_tasks@[i].assigned_miner matches Some(m) && m@
                    == miner_address@)
                &&& (match (final(self).tensor_tasks@[i].result, old(self).tensor_tasks@[i].result) {
                    (Option::None, Option::None) => true,
                    (Option::Some(a), Option::Some(b)) => a@ == b@,
                    _ => false,
                })
                &&& final(self).blocks@.len() == old(self).blocks@.len() + 1
                &&& block_equiv(&b, &final(self).blocks@.last())
                &&& final(self).blocks@.last().index == old(self).blocks@.len()
                &&& final(self).blocks@.last().previous_hash@ == old(self).blocks@.last().hash@
                &&& final(self).blocks@.last().miner@ == miner_address@
                &&& final(self).blocks@.last().transactions@ == old(self).pending_transactions@
                &&& final(self).blocks@.last().difficulty == (3 * old(self).difficulty + 1) / 2
                &&& final(self).blocks@.last().timestamp == now
                &&& final(self).blocks@.last().spec_sealed()
                &&& final(self).blocks@.last().merkle_ok()
                &&& (final(self).blocks@.last().ai3_proof matches Some(p) && proof_equiv(
                    &p,
                    &ai3_proof,
                ))
                &&& final(self).pending_transactions@.len() == 0
                &&& final(self).spec_balances() == apply_txs(
                    old(self).spec_balances(),
                    old(self).pending_transactions@,
                ).insert(
                    miner_address@,
                    (bal(
                        apply_txs(old(self).spec_balances(), old(self).pending_transactions@),
                        miner_address@,
                    ) + old(self).mining_reward + old(self).mining_reward
                        * ai3_proof.optimization_factor_permille / 1000 + fees_sum(
                        old(self).pending_transactions@,
                    )) as u64,
                )
                &&& final(self).mining_reward == old(self).mining_reward
                &&& forall|j: int|
                    0 <= j < old(self).tensor_tasks@.len() && j != first_task_index(
                        old(self).tensor_tasks@,
                        ai3_proof.task_id@,
                    ) ==> final(self).tensor_tasks@[j] == old(self).tensor_tasks@[j]
                &&& final(self).tensor_tasks@.len() == old(self).tensor_tasks@.len() + tasks_from(
                    old(self).pending_transactions@,
                    final(self).blocks@.last().timestamp,
                ).len()
                &&& forall|j: int|
                    old(self).tensor_tasks@.len() <= j < final(self).tensor_tasks@.len()
                        ==> task_equiv(
                        &final(self).tensor_tasks@[j],
                        &tasks_from(
                            old(self).pending_transactions@,
                            final(self).blocks@.last().timestamp,
                        )[j - old(self).tensor_tasks@.len()],
                    )
            },
            forall|j: int|
                0 <= j < old(self).tensor_tasks@.len() && old(self).tensor_tasks@[j].completed
                    ==> final(self).tensor_tasks@[j].completed,
    {
        if self.pending_transactions.len() == 0 {
            return Err(TribeError::Mining(String::from_str("no pending transactions to mine")));
        }
        let valid = match self.validate_ai3_proof(&ai3_proof) {
            Ok(b) => b,
            Err(e) => {
                return Err(e);
            },
        };
        if !valid {
            return Err(TribeError::AI3(String::from_str("invalid tensor proof")));
        }
        proof {
            lemma_first_task_bounds(self.tensor_tasks@, ai3_proof.task_id@);
            lemma_first_task_no_earlier(self.tensor_tasks@, ai3_proof.task_id@);
        }
        let ai3_difficulty = (3 * self.difficulty + 1) / 2;
        let sealed_proof = ai3_proof.clone();
        proof {
            assert(canon_proof(&sealed_proof) =~= canon_proof(&ai3_proof));
        }
        let block = match self.seal_pending(
            &miner_address,
            Some(sealed_proof),
            ai3_difficulty,
            now,
        ) {
            Ok(b) => b,
            Err(e) => {
                return Err(e);
            },
        };
        proof {
            lemma_fees_nonneg(block.transactions@);
        }
        let ret = self.commit_sealed_with_proof(block, &miner_address, &ai3_proof, None);
        Ok(ret)
    }

    /// Seals a block carrying a tensor proof against the wall clock. An
    /// empty mempool or an invalid proof always fails; whatever the clock
    /// read, success implies the task was open, the claimed factor and
    /// time lay in bounds, and carries the completion, the assignment and
    /// the bonus credit.
    pub fn mine_block_with_ai3(&mut self, miner_address: String, ai3_proof: AI3Proof) -> (r:
        TribeResult<Block>)
        requires
            old(self).wf(),
            old(self).mempool_ok(),
            bal(
                apply_txs(old(self).spec_balances(), old(self).pending_transactions@),
                miner_address@,
            ) + old(self).mining_reward + old(self).mining_reward
                * ai3_proof.optimization_factor_permille / 1000 + fees_sum(
                old(self).pending_transactions@,
            ) <= u64::MAX,
        ensures
            final(self).wf(),
            old(self).pending_transactions@.len() == 0 ==> (r matches Err(e) && e is Mining),
            ({
                let i = first_task_index(old(self).tensor_tasks@, ai3_proof.task_id@);
                (old(self).pending_transactions@.len() > 0 && !(i < old(self).tensor_tasks@.len() && !old(self).tensor_tasks@[i].completed
                    && OPTIMIZATION_FACTOR_MIN_PERMILLE <= ai3_proof.optimization_factor_permille
                    && ai3_proof.optimization_factor_permille <= OPTIMIZATION_FACTOR_MAX_PERMILLE
                    && ai3_proof.computation_time <= old(self).tensor_tasks@[i].max_computation_time)) ==> (r matches Err(e) && e is AI3)
            }),
            r matches Err(e) ==> (e is Mining || e is AI3),
            r is Err ==> *final(self) == *old(self),
            r matches Ok(b) ==> {
                let i = first_task_index(old(self).tensor_tasks@, ai3_proof.task_id@);
                &&& i < old(self).tensor_tasks@.len()
                &&& !old(self).tensor_tasks@[i].completed
                &&& OPTIMIZATION_FACTOR_MIN_PERMILLE <= ai3_proof.optimization_factor_permille
                &&& ai3_proof.optimization_factor_permille <= OPTIMIZATION_FACTOR_MAX_PERMILLE
                &&& ai3_proof.computation_time <= old(self).tensor_tasks@[i].max_computation_time
                &&& i < final(self).tensor_tasks@.len()
                &&& final(self).tensor_tasks@[i].completed
                &&& (final(self).tensor_tasks@[i].assigned_miner matches Some(m) && m@
                    == miner_address@)
                &&& (match (final(self).tensor_tasks@[i].result, old(self).tensor_tasks@[i].result) {
                    (Option::None, Option::None) => true,
                    (Option::Some(a), Option::Some(b)) => a@ == b@,
                    _ => false,
                })
                &&& final(self).blocks@.len() == old(self).blocks@.len() + 1
                &&& block_equiv(&b, &final(self).blocks@.last())
                &&& final(self).blocks@.last().index == old(self).blocks@.len()
                &&& final(self).blocks@.last().previous_hash@ == old(self).blocks@.last().hash@
                &&& final(self).blocks@.last().miner@ == miner_address@
                &&& final(self).blocks@.last().transactions@ == old(self).pending_transactions@
                &&& final(self).blocks@.last().difficulty == (3 * old(self).difficulty + 1) / 2
                &&& final(self).blocks@.last().spec_sealed()
                &&& final(self).blocks@.last().merkle_ok()
                &&& (final(self).blocks@.last().ai3_proof matches Some(p) && proof_equiv(
                    &p,
                    &ai3_proof,
                ))
                &&& final(self).pending_transactions@.len() == 0
                &&& final(self).spec_balances() == apply_txs(
                    old(self).spec_balances(),
                    old(self).pending_transactions@,
                ).insert(
                    miner_address@,
                    (bal(
                        apply_txs(old(self).spec_balances(), old(self).pending_transactions@),
                        miner_address@,
                    ) + old(self).mining_reward + old(self).mining_reward
                        * ai3_proof.optimization_factor_permille / 1000 + fees_sum(
                        old(self).pending_transactions@,
                    )) as u64,
                )
                &&& final(self).mining_reward == old(self).mining_reward
                &&& forall|j: int|
                    0 <= j < old(self).tensor_tasks@.len() && j != first_task_index(
                        old(self).tensor_tasks@,
                        ai3_proof.task_id@,
                    ) ==> final(self).tensor_tasks@[j] == old(self).tensor_tasks@[j]
                &&& final(self).tensor_tasks@.len() == old(self).tensor_tasks@.len() + tasks_from(
                    old(self).pending_transactions@,
                    final(self).blocks@.last().timestamp,
                ).len()
                &&& forall|j: int|
                    old(self).tensor_tasks@.len() <= j < final(self).tensor_tasks@.len()
                        ==> task_equiv(
                        &final(self).tensor_tasks@[j],
                        &tasks_from(
                            old(self).pending_transactions@,
                            final(self).blocks@.last().timestamp,
                        )[j - old(self).tensor_tasks@.len()],
                    )
            },
            forall|j: int|
                0 <= j < old(self).tensor_tasks@.len() && old(self).tensor_tasks@[j].completed
                    ==> final(self).tensor_tasks@[j].completed,
    {
        let now = crate::runtime::now_seconds();
        self.mine_block_with_ai3_at(miner_address, ai3_proof, now)
    }

    /// Commits a sealed block over an empty mempool and credits the miner
    /// with the mining reward plus the block's fees.
    #[verifier::rlimit(100)]
    #[verifier::spinoff_prover]
    fn commit_sealed(&mut self, block: Block, miner_address: &String) -> (r: Block)
        requires
            old(self).wf(),
            old(self).pending_transactions@.len() == 0,
            txs_fit(old(self).spec_balances(), block.transactions@),
            block.spec_valid(Some(&old(self).blocks@.last())),
            block.index == old(self).blocks@.len(),
            block.miner@ == miner_address@,
            bal(
                apply_txs(old(self).spec_balances(), block.transactions@),
                miner_address@,
            ) + old(self).mining_reward + fees_sum(block.transactions@) <= u64::MAX,
            fees_sum(block.transactions@) >= 0,
        ensures
            final(self).wf(),
            final(self).blocks@.len() == old(self).blocks@.len() + 1,
            final(self).blocks@.take(old(self).blocks@.len() as int) == old(self).blocks@,
            final(self).blocks@.last() == block,
            block_equiv(&r, &final(self).blocks@.last()),
            final(self).pending_transactions@.len() == 0,
            final(self).spec_balances() == apply_txs(
                old(self).spec_balances(),
                block.transactions@,
            ).insert(
                miner_address@,
                (bal(apply_txs(old(self).spec_balances(), block.transactions@), miner_address@)
                    + old(self).mining_reward + fees_sum(block.transactions@)) as u64,
            ),
            final(self).mining_reward == old(self).mining_reward,
            final(self).active_miners == old(self).active_miners,
            forall|j: int|
                0 <= j < old(self).tensor_tasks@.len() ==> final(self).tensor_tasks@[j] == old(self).tensor_tasks@[j],
            final(self).tensor_tasks@.len() >= old(self).tensor_tasks@.len(),
            forall|j: int|
                0 <= j < old(self).tensor_tasks@.len() && old(self).tensor_tasks@[j].completed
                    ==> final(self).tensor_tasks@[j].completed,
    {
        let fees = Self::total_fees(&block.transactions);
        let ret = block.clone();
        match self.add_block(block) {
            Ok(()) => {},
            Err(_) => {
                proof {
                    assert(false);
                }
                return ret;
            },
        }
        let reward = self.mining_reward;
        self.balances.credit(miner_address.as_str(), reward + fees);
        ret
    }

    /// Commits a tensor-sealed block over an empty mempool: the block is
    /// appended, the referenced task is completed and assigned, and the
    /// miner is credited with the reward, the proof bonus and the fees.
    #[verifier::rlimit(100)]
    #[verifier::spinoff_prover]
    fn commit_sealed_with_proof(
        &mut self,
        block: Block,
        miner_address: &String,
        ai3_proof: &AI3Proof,
        result_bits: Option<Vec<u32>>,
    ) -> (r: Block)
        requires
            old(self).wf(),
            old(self).pending_transactions@.len() == 0,
            txs_fit(old(self).spec_balances(), block.transactions@),
            block.spec_valid(Some(&old(self).blocks@.last())),
            block.index == old(self).blocks@.len(),
            block.miner@ == miner_address@,
            first_task_index(old(self).tensor_tasks@, ai3_proof.task_id@) < old(self).tensor_tasks@.len(),
            bal(
                apply_txs(old(self).spec_balances(), block.transactions@),
                miner_address@,
            ) + old(self).mining_reward + old(self).mining_reward
                * ai3_proof.optimization_factor_permille / 1000 + fees_sum(block.transactions@)
                <= u64::MAX,
            fees_sum(block.transactions@) >= 0,
        ensures
            final(self).wf(),
            final(self).blocks@.len() == old(self).blocks@.len() + 1,
            final(self).blocks@.last() == block,
            block_equiv(&r, &final(self).blocks@.last()),
            final(self).pending_transactions@.len() == 0,
            ({
                let i = first_task_index(old(self).tensor_tasks@, ai3_proof.task_id@);
                &&& i < final(self).tensor_tasks@.len()
                &&& final(self).tensor_tasks@[i].completed
                &&& (final(self).tensor_tasks@[i].assigned_miner matches Some(m) && m@
                    == miner_address@)
                &&& (match result_bits {
                    Option::None => (match (
                        final(self).tensor_tasks@[i].result,
                        old(self).tensor_tasks@[i].result,
                    ) {
                        (Option::None, Option::None) => true,
                        (Option::Some(a), Option::Some(b)) => a@ == b@,
                        _ => false,
                    }),
                    Option::Some(v) => (final(self).tensor_tasks@[i].result matches Some(w) && w@
                        == v@),
                })
                &&& forall|j: int|
                    0 <= j < old(self).tensor_tasks@.len() && j != i ==> final(self).tensor_tasks@[j] == old(self).tensor_tasks@[j]
                &&& final(self).tensor_tasks@.len() == old(self).tensor_tasks@.len()
                    + tasks_from(block.transactions@, block.timestamp).len()
                &&& forall|j: int|
                    old(self).tensor_tasks@.len() <= j < final(self).tensor_tasks@.len() && j != i
                        ==> task_equiv(
                        &final(self).tensor_tasks@[j],
                        &tasks_from(block.transactions@, block.timestamp)[j - old(self).tensor_tasks@.len()],
                    )
            }),
            final(self).spec_balances() == apply_txs(
                old(self).spec_balances(),
                block.transactions@,
            ).insert(
                miner_address@,
                (bal(apply_txs(old(self).spec_balances(), block.transactions@), miner_address@)
                    + old(self).mining_reward + old(self).mining_reward
                    * ai3_proof.optimization_factor_permille / 1000 + fees_sum(
                    block.transactions@,
                )) as u64,
            ),
            final(self).mining_reward == old(self).mining_reward,
            forall|j: int|
                0 <= j < old(self).tensor_tasks@.len() && old(self).tensor_tasks@[j].completed
                    ==> final(self).tensor_tasks@[j].completed,
    {
        let fees = Self::total_fees(&block.transactions);
        let ret = block.clone();
        let ghost tasks_before = self.tensor_tasks@;
        match self.add_block(block) {
            Ok(()) => {},
            Err(_) => {
                proof {
                    assert(false);
                }
                return ret;
            },
        }
        let ghost tasks_mid = self.tensor_tasks@;
        proof {
            let len0 = tasks_before.len() as int;
            assert(tasks_mid =~= tasks_before + tasks_mid.skip(len0));
            lemma_first_task_append(tasks_before, tasks_mid.skip(len0), ai3_proof.task_id@);
        }
        let ghost stored = result_bits;
        self.finish_ai3(miner_address, ai3_proof, fees, result_bits);
        proof {
            lemma_first_task_bounds(tasks_before, ai3_proof.task_id@);
            let i = first_task_index(tasks_before, ai3_proof.task_id@);
            assert(first_task_index(tasks_mid, ai3_proof.task_id@) == i);
            assert(0 <= i < tasks_before.len());
            assert(tasks_mid[i] == tasks_before[i]);
            assert(i < self.tensor_tasks@.len());
            assert(self.tensor_tasks@[i].completed);
            assert(self.tensor_tasks@[i].assigned_miner matches Some(m) && m@ == miner_address@);
            match stored {
                Option::None => {
                    assert(match (self.tensor_tasks@[i].result, tasks_mid[i].result) {
                        (Option::None, Option::None) => true,
                        (Option::Some(a), Option::Some(b)) => a@ == b@,
                        _ => false,
                    });
                    assert(match (self.tensor_tasks@[i].result, tasks_before[i].result) {
                        (Option::None, Option::None) => true,
                        (Option::Some(a), Option::Some(b)) => a@ == b@,
                        _ => false,
                    });
                },
                Option::Some(v) => {
                    assert(self.tensor_tasks@[i].result matches Some(w) && w@ == v@);
                },
            }
        }
        ret
    }

    /// Moves the pending transactions into a fresh block stamped `now`
    /// and seals it, optionally carrying a tensor proof, at the given
    /// difficulty: sealed exactly when some nonce clears the template. On
    /// failure the mempool is restored and the state is unchanged.
    fn seal_pending(
        &mut self,
        miner_address: &String,
        ai3: Option<AI3Proof>,
        difficulty: u64,
        now: u64,
    ) -> (r: TribeResult<Block>)
        requires
            old(self).wf(),
            old(self).pending_transactions@.len() > 0,
        ensures
            r is Ok <==> spec_find_template_nonce(
                old(self),
                miner_address@,
                now,
                difficulty,
                match ai3 {
                    Option::None => "null"@,
                    Option::Some(p) => canon_proof(&p),
                },
                0,
                u64::MAX as nat,
            ) is Some,
            r matches Err(e) ==> e is Mining,
            r is Err ==> *final(self) == *old(self),
            r matches Ok(b) ==> {
                &&& final(self).pending_transactions@.len() == 0
                &&& b.index == old(self).blocks@.len()
                &&& b.timestamp == now
                &&& b.previous_hash@ == old(self).blocks@.last().hash@
                &&& b.miner@ == miner_address@
                &&& b.transactions@ == old(self).pending_transactions@
                &&& b.difficulty == difficulty
                &&& b.hash_ok()
                &&& has_zero_prefix(b.hash@, difficulty as int)
                &&& b.merkle_ok()
                &&& b.ai3_proof == ai3
                &&& b.spec_valid(Some(&old(self).blocks@.last()))
                &&& final(self).blocks == old(self).blocks
                &&& final(self).balances == old(self).balances
                &&& final(self).tensor_tasks == old(self).tensor_tasks
                &&& final(self).active_miners == old(self).active_miners
                &&& final(self).difficulty == old(self).difficulty
                &&& final(self).mining_reward == old(self).mining_reward
                &&& final(self).storage == old(self).storage
                &&& final(self).ai3_difficulty_multiplier_permille == old(self).ai3_difficulty_multiplier_permille
            },
    {
        let mut txs: Vec<Transaction> = Vec::new();
        core::mem::swap(&mut txs, &mut self.pending_transactions);
        let n = self.blocks.len();
        let previous_hash = self.blocks[n - 1].hash.clone();
        let mut block = Block::new_at(n as u64, previous_hash, txs, miner_address.clone(), now);
        let ghost template = *&block;
        let sealed = match ai3 {
            None => {
                proof {
                    lemma_template_search(
                        old(self),
                        template,
                        miner_address@,
                        now,
                        difficulty,
                        0,
                        u64::MAX as nat,
                    );
                }
                block.mine_block(difficulty, u64::MAX)
            },
            Some(p) => {
                proof {
                    let sealed_template = Block { ai3_proof: Some(p), ..template };
                    lemma_template_search(
                        old(self),
                        sealed_template,
                        miner_address@,
                        now,
                        difficulty,
                        0,
                        u64::MAX as nat,
                    );
                }
                block.mine_with_ai3_proof(difficulty, p, u64::MAX)
            },
        };
        match sealed {
            Ok(()) => {
                proof {
                    assert(block.spec_valid(Some(&old(self).blocks@.last())));
                }
                Ok(block)
            },
            Err(e) => {
                self.pending_transactions = block.transactions;
                proof {
                    assert(*self == *old(self));
                }
                Err(e)
            },
        }
    }

    /// After a tensor-sealed block is committed: marks the referenced task
    /// completed and assigned, stores the executed output when one is
    /// handed in, and credits the miner with the reward, the proof bonus
    /// and the fees.
    fn finish_ai3(
        &mut self,
        miner_address: &String,
        ai3_proof: &AI3Proof,
        fees: u64,
        result_bits: Option<Vec<u32>>,
    )
        requires
            first_task_index(old(self).tensor_tasks@, ai3_proof.task_id@) < old(self).tensor_tasks@.len(),
            old(self).balances.wf(),
            bal(old(self).balances.view(), miner_address@) + old(self).mining_reward + old(self).mining_reward * ai3_proof.optimization_factor_permille / 1000 + fees <= u64::MAX,
        ensures
            ({
                let i = first_task_index(old(self).tensor_tasks@, ai3_proof.task_id@);
                &&& final(self).tensor_tasks@.len() == old(self).tensor_tasks@.len()
                &&& final(self).tensor_tasks@[i].completed
                &&& (final(self).tensor_tasks@[i].assigned_miner matches Some(m) && m@
                    == miner_address@)
                &&& (match result_bits {
                    Option::None => (match (
                        final(self).tensor_tasks@[i].result,
                        old(self).tensor_tasks@[i].result,
                    ) {
                        (Option::None, Option::None) => true,
                        (Option::Some(a), Option::Some(b)) => a@ == b@,
                        _ => false,
                    }),
                    Option::Some(v) => (final(self).tensor_tasks@[i].result matches Some(w) && w@
                        == v@),
                })
                &&& forall|j: int|
                    0 <= j < old(self).tensor_tasks@.len() && j != i ==> final(self).tensor_tasks@[j] == old(self).tensor_tasks@[j]
            }),
            forall|j: int|
                0 <= j < old(self).tensor_tasks@.len() && old(self).tensor_tasks@[j].completed
                    ==> final(self).tensor_tasks@[j].completed,
            final(self).balances.wf(),
            final(self).balances.view() == old(self).balances.view().insert(
                miner_address@,
                (bal(old(self).balances.view(), miner_address@) + old(self).mining_reward + old(self).mining_reward * ai3_proof.optimization_factor_permille / 1000 + fees) as u64,
            ),
            final(self).blocks == old(self).blocks,
            final(self).pending_transactions == old(self).pending_transactions,
            final(self).active_miners == old(self).active_miners,
            final(self).difficulty == old(self).difficulty,
            final(self).mining_reward == old(self).mining_reward,
            final(self).storage == old(self).storage,
            final(self).ai3_difficulty_multiplier_permille == old(self).ai3_difficulty_multiplier_permille,
    {
        self.assign_task(&ai3_proof.task_id, miner_address, result_bits);
        let reward = self.mining_reward;
        let bonus = Self::bonus_amount(reward, ai3_proof.optimization_factor_permille);
        self.balances.credit(miner_address.as_str(), reward + bonus + fees);
    }

    /// The tensor bonus: the mining reward scaled by the claimed
    /// optimization factor, truncated to whole units.
    pub fn bonus_amount(reward: u64, permille: u32) -> (r: u64)
        requires
            reward * permille / 1000 <= u64::MAX,
        ensures
            r == reward * permille / 1000,
    {
        proof {
            vstd::arithmetic::mul::lemma_mul_upper_bound(
                reward as int,
                u64::MAX as int,
                permille as int,
                u32::MAX as int,
            );
        }
        let wide = (reward as u128) * (permille as u128) / 1000;
        proof {
            assert(wide == reward * permille / 1000);
        }
        wide as u64
    }

    /// Marks the first task with the given identifier as completed by the
    /// given miner, storing the executed output when one is handed in.
    fn assign_task(&mut self, task_id: &String, miner: &String, result_bits: Option<Vec<u32>>)
        requires
            first_task_index(old(self).tensor_tasks@, task_id@) < old(self).tensor_tasks@.len(),
        ensures
            ({
                let i = first_task_index(old(self).tensor_tasks@, task_id@);
                &&& final(self).tensor_tasks@.len() == old(self).tensor_tasks@.len()
                &&& final(self).tensor_tasks@[i].completed
                &&& (final(self).tensor_tasks@[i].assigned_miner matches Some(m) && m@ == miner@)
                &&& (match result_bits {
                    Option::None => (match (
                        final(self).tensor_tasks@[i].result,
                        old(self).tensor_tasks@[i].result,
                    ) {
                        (Option::None, Option::None) => true,
                        (Option::Some(a), Option::Some(b)) => a@ == b@,
                        _ => false,
                    }),
                    Option::Some(v) => (final(self).tensor_tasks@[i].result matches Some(w) && w@
                        == v@),
                })
                &&& final(self).tensor_tasks@[i].id@ == old(self).tensor_tasks@[i].id@
                &&& forall|j: int|
                    0 <= j < old(self).tensor_tasks@.len() && j != i ==> final(self).tensor_tasks@[j]
                        == old(self).tensor_tasks@[j]
            }),
            forall|j: int|
                0 <= j < old(self).tensor_tasks@.len() && old(self).tensor_tasks@[j].completed
                    ==> final(self).tensor_tasks@[j].completed,
            final(self).blocks == old(self).blocks,
            final(self).pending_transactions == old(self).pending_transactions,
            final(self).balances == old(self).balances,
            final(self).active_miners == old(self).active_miners,
            final(self).difficulty == old(self).difficulty,
            final(self).mining_reward == old(self).mining_reward,
            final(self).storage == old(self).storage,
            final(self).ai3_difficulty_multiplier_permille == old(self).ai3_difficulty_multiplier_permille,
    {
        let n = self.tensor_tasks.len();
        let mut i: usize = 0;
        while i < n
            invariant
                i <= n,
                n == self.tensor_tasks@.len(),
                *self == *old(self),
                first_task_index(old(self).tensor_tasks@, task_id@) < old(self).tensor_tasks@.len(),
                forall|j: int| 0 <= j < i ==> self.tensor_tasks@[j].id@ != task_id@,
            decreases n - i,
        {
            if self.tensor_tasks[i].id == *task_id {
                proof {
                    lemma_first_task_found(self.tensor_tasks@, task_id@, i as int);
                }
                let mut updated = self.tensor_tasks[i].clone();
                updated.completed = true;
                updated.assigned_miner = Some(miner.clone());
                if let Some(v) = result_bits {
                    updated.result = Some(v);
                }
                self.tensor_tasks.set(i, updated);
                return ;
            }
            i = i + 1;
        }
        proof {
            lemma_first_task_absent(self.tensor_tasks@, task_id@);
            assert(false);
        }
    }

    /// A snapshot of chain statistics. Sums saturate at the machine word.
    pub fn get_stats(&self) -> (r: BlockchainStats)
        requires
            self.wf(),
        ensures
            r.block_count == self.blocks@.len(),
            r.transaction_count as int == if sum_tx_counts(self.blocks@) <= u64::MAX as int {
                sum_tx_counts(self.blocks@)
            } else {
                u64::MAX as int
            },
            r.pending_transactions == self.pending_transactions@.len(),
            r.difficulty == self.difficulty,
            r.mining_reward == self.mining_reward,
            r.total_supply as int == if sum_balances(self.balances.entries@) <= u64::MAX as int {
                sum_balances(self.balances.entries@)
            } else {
                u64::MAX as int
            },
            r.active_addresses == self.balances.spec_len(),
            r.active_miners == self.active_miners@.len(),
            r.tensor_tasks == self.tensor_tasks@.len(),
            r.ai3_difficulty_multiplier_permille == self.ai3_difficulty_multiplier_permille,
    {
        let total_supply = self.total_supply_saturating();
        let transaction_count = self.transaction_count_saturating();
        let avg_block_time = self.average_block_time();
        BlockchainStats {
            block_count: self.blocks.len() as u64,
            transaction_count,
            pending_transactions: self.pending_transactions.len() as u64,
            difficulty: self.difficulty,
            mining_reward: self.mining_reward,
            total_supply,
            active_addresses: self.balances.len() as u64,
            avg_block_time,
            active_miners: self.active_miners.len() as u64,
            tensor_tasks: self.tensor_tasks.len() as u64,
            ai3_difficulty_multiplier_permille: self.ai3_difficulty_multiplier_permille,
        }
    }

    /// Sum of all balances, saturating at the machine word.
    fn total_supply_saturating(&self) -> (r: u64)
        requires
            self.balances.wf(),
        ensures
            r as int == if sum_balances(self.balances.entries@) <= u64::MAX as int {
                sum_balances(self.balances.entries@)
            } else {
                u64::MAX as int
            },
    {
        let n = self.balances.len();
        let mut acc: u64 = 0;
        let mut i: usize = 0;
        while i < n
            invariant
                i <= n,
                n == self.balances.entries@.len(),
                self.balances.wf(),
                acc as int == if sum_balances(self.balances.entries@.take(i as int)) <= u64::MAX as int {
                    sum_balances(self.balances.entries@.take(i as int))
                } else {
                    u64::MAX as int
                },
            decreases n - i,
        {
            proof {
                lemma_sum_balances_nonneg(self.balances.entries@.take(i as int));
                assert(self.balances.entries@.take(i + 1).drop_last()
                    =~= self.balances.entries@.take(i as int));
                assert(self.balances.entries@.take(i + 1).last()
                    == self.balances.entries@[i as int]);
            }
            let (_, v) = self.balances.entry_at(i);
            acc = match acc.checked_add(v) {
                Some(s) => s,
                None => u64::MAX,
            };
            i = i + 1;
        }
        proof {
            assert(self.balances.entries@.take(n as int) =~= self.balances.entries@);
        }
        acc
    }

    /// Number of committed transactions, saturating at the machine word.
    fn transaction_count_saturating(&self) -> (r: u64)
        ensures
            r as int == if sum_tx_counts(self.blocks@) <= u64::MAX as int {
                sum_tx_counts(self.blocks@)
            } else {
                u64::MAX as int
            },
    {
        let n = self.blocks.len();
        let mut acc: u64 = 0;
        let mut i: usize = 0;
        while i < n
            invariant
                i <= n,
                n == self.blocks@.len(),
                acc as int == if sum_tx_counts(self.blocks@.take(i as int)) <= u64::MAX as int {
                    sum_tx_counts(self.blocks@.take(i as int))
                } else {
                    u64::MAX as int
                },
            decreases n - i,
        {
            proof {
                lemma_sum_tx_counts_nonneg(self.blocks@.take(i as int));
                assert(self.blocks@.take(i + 1).drop_last() =~= self.blocks@.take(i as int));
                assert(self.blocks@.take(i + 1).last() == self.blocks@[i as int]);
            }
            let c = self.blocks[i].transactions.len();
            acc = match acc.checked_add(c as u64) {
                Some(s) => s,
                None => u64::MAX,
            };
            i = i + 1;
        }
        proof {
            assert(self.blocks@.take(n as int) =~= self.blocks@);
        }
        acc
    }

    /// Average seconds between the first and last block, zero for a chain
    /// of one block or non-monotone timestamps.
    fn average_block_time(&self) -> (r: u64)
        requires
            self.blocks@.len() >= 1,
    {
        let n = self.blocks.len();
        if n <= 1 {
            return 0;
        }
        let last = self.blocks[n - 1].timestamp;
        let first = self.blocks[0].timestamp;
        if last >= first {
            (last - first) / (n as u64 - 1)
        } else {
            0
        }
    }
}

/// A balance sum is never negative.
pub proof fn lemma_sum_balances_nonneg(s: Seq<(String, u64)>)
    ensures
        sum_balances(s) >= 0,
    decreases s.len(),
{
    if s.len() > 0 {
        lemma_sum_balances_nonneg(s.drop_last());
    }
}

/// A transaction count is never negative.
pub proof fn lemma_sum_tx_counts_nonneg(blocks: Seq<Block>)
    ensures
        sum_tx_counts(blocks) >= 0,
    decreases blocks.len(),
{
    if blocks.len() > 0 {
        lemma_sum_tx_counts_nonneg(blocks.drop_last());
    }
}

/// Canonical sealing preimage of the block template that sealing builds
/// over a state at clock reading `now`: the next index, the head's hash,
/// the pending transactions' Merkle root, and the given proof text.
pub open spec fn spec_template_canon(
    c: &TribeChain,
    miner: Seq<char>,
    now: u64,
    difficulty: u64,
    nonce: u64,
    proof_text: Seq<char>,
) -> Seq<char> {
    dec_of(c.blocks@.len() as nat) + dec_of(now as nat) + c.blocks@.last().hash@ + dec_of(
        nonce as nat,
    ) + dec_of(difficulty as nat) + miner + merkle_root_of(tx_hashes(c.pending_transactions@))
        + proof_text
}

/// The first nonce that seals a state's template, trying at most
/// `budget` candidates from `start` and never wrapping past the word.
/// Kept opaque: callers relate it to concrete searches through
/// `seal_pending`'s contract alone.
#[verifier::opaque]
pub open spec fn spec_find_template_nonce(
    c: &TribeChain,
    miner: Seq<char>,
    now: u64,
    difficulty: u64,
    proof_text: Seq<char>,
    start: u64,
    budget: nat,
) -> Option<u64>
    decreases budget,
{
    if budget == 0 {
        Option::None
    } else if has_zero_prefix(
        sha256_hex_of(spec_template_canon(c, miner, now, difficulty, start, proof_text)),
        difficulty as int,
    ) {
        Option::Some(start)
    } else if start == u64::MAX {
        Option::None
    } else {
        spec_find_template_nonce(
            c,
            miner,
            now,
            difficulty,
            proof_text,
            (start + 1) as u64,
            (budget - 1) as nat,
        )
    }
}

/// A block whose header fields match a state's template searches the same
/// nonces as the state-level search.
proof fn lemma_template_search(
    c: &TribeChain,
    b: Block,
    miner: Seq<char>,
    now: u64,
    difficulty: u64,
    start: u64,
    budget: nat,
)
    requires
        b.index == c.blocks@.len(),
        b.timestamp == now,
        b.previous_hash@ == c.blocks@.last().hash@,
        b.miner@ == miner,
        b.merkle_root@ == merkle_root_of(tx_hashes(c.pending_transactions@)),
    ensures
        find_nonce(b, difficulty, start, budget) == spec_find_template_nonce(
            c,
            miner,
            now,
            difficulty,
            canon_proof_opt(&b.ai3_proof),
            start,
            budget,
        ),
    decreases budget,
{
    reveal(spec_find_template_nonce);
    if budget > 0 {
        assert(canon_block(&with_seal(b, difficulty, start)) =~= spec_template_canon(
            c,
            miner,
            now,
            difficulty,
            start,
            canon_proof_opt(&b.ai3_proof),
        ));
        if !has_zero_prefix(
            sha256_hex_of(canon_block(&with_seal(b, difficulty, start))),
            difficulty as int,
        ) && start != u64::MAX {
            lemma_template_search(c, b, miner, now, difficulty, (start + 1) as u64, (budget - 1) as nat);
        }
    }
}

/// Applies one transaction to a balance book: the sender is debited,
/// then the recipient, if any, is credited.
fn apply_tx_book(book: &mut BalanceBook, t: &Transaction)
    requires
        old(book).wf(),
        tx_fits(old(book).view(), t),
    ensures
        final(book).wf(),
        final(book).view() == apply_tx(old(book).view(), t),
{
    let consumed = match TribeChain::consumed_checked(t) {
        Some(c) => c,
        None => {
            proof {
                assert(false);
            }
            0
        },
    };
    book.debit(t.from.as_str(), consumed);
    match &t.transaction_type {
        TransactionType::Transfer { to, amount } => {
            book.credit(to.as_str(), *amount);
        },
        TransactionType::TokenTransfer { to, amount, .. } => {
            book.credit(to.as_str(), *amount);
        },
        _ => {},
    }
}

/// The open tasks of a pool, in order.
pub open spec fn open_tasks_of(s: Seq<TensorTask>) -> Seq<TensorTask>
    decreases s.len(),
{
    if s.len() == 0 {
        Seq::empty()
    } else {
        open_tasks_of(s.drop_last()) + if !s.last().completed {
            seq![s.last()]
        } else {
            Seq::empty()
        }
    }
}

/// Every open task of a pool is indeed open.
pub proof fn lemma_open_tasks_open(s: Seq<TensorTask>)
    ensures
        forall|i: int| 0 <= i < open_tasks_of(s).len() ==> !open_tasks_of(s)[i].completed,
    decreases s.len(),
{
    if s.len() > 0 {
        lemma_open_tasks_open(s.drop_last());
    }
}

} // verus!
