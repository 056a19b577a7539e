//! End-to-end ledger scenarios: genesis, transfers, sealing, tensor
//! proofs and the statistics.

use sha2::{Digest, Sha256};
use tribechain::block::AI3Proof;
use tribechain::blockchain::{TensorTask, TribeChain};
use tribechain::errors::TribeError;
use tribechain::transaction::{Transaction, TransactionType};

fn sha256_hex(data: &str) -> String {
    let mut hasher = Sha256::new();
    hasher.update(data.as_bytes());
    hex::encode(hasher.finalize())
}

fn fresh_chain() -> TribeChain {
    let mut chain = TribeChain::new("memory").unwrap();
    // Keep sealing fast for tests.
    chain.difficulty = 2;
    chain
}

fn transfer_tx(from: &str, to: &str, amount: u64, fee: u64, timestamp: u64, nonce: u64) -> Transaction {
    Transaction::with_details(
        format!("tx-{}-{}", to, nonce),
        from.to_string(),
        TransactionType::Transfer { to: to.to_string(), amount },
        fee,
        timestamp,
        nonce,
    )
}

#[test]
fn genesis_state_holds_the_initial_supply() {
    let chain = fresh_chain();
    assert_eq!(chain.blocks.len(), 1);
    assert_eq!(chain.blocks[0].index, 0);
    assert_eq!(chain.get_balance("genesis"), 1_000_000_000_000);
    assert_eq!(chain.get_balance("nobody"), 0);
    assert_eq!(chain.mining_reward, 50_000_000);
}

#[test]
fn genesis_plus_single_transfer() {
    let mut chain = fresh_chain();
    let now = 1_700_000_000;
    let tx = transfer_tx("genesis", "alice", 100, 1, now, 1);
    chain.add_transaction_at(tx, now).unwrap();
    assert_eq!(chain.pending_transactions.len(), 1);

    let genesis_hash = chain.blocks[0].hash.clone();
    let block = chain.mine_block("bob".to_string()).unwrap();

    assert_eq!(chain.get_balance("genesis"), 999_999_999_899);
    assert_eq!(chain.get_balance("alice"), 100);
    assert_eq!(chain.get_balance("bob"), 50_000_000 + 1);
    assert_eq!(block.index, 1);
    assert_eq!(block.previous_hash, genesis_hash);
    assert_eq!(block.transactions.len(), 1);
    assert_eq!(chain.blocks.len(), 2);
    assert!(chain.pending_transactions.is_empty());
}

#[test]
fn merkle_of_three_duplicates_the_odd_leaf() {
    let leaves = vec!["aa".to_string(), "bb".to_string(), "cc".to_string()];
    let root = tribechain::block::merkle_root_of_hashes(leaves);
    let left = sha256_hex("aabb");
    let right = sha256_hex("cccc");
    let expected = sha256_hex(&format!("{}{}", left, right));
    assert_eq!(root, expected);
}

#[test]
fn merkle_of_empty_list_is_all_zeros() {
    let root = tribechain::block::merkle_root_of_hashes(vec![]);
    assert_eq!(root, "0".repeat(64));
}

#[test]
fn insufficient_balance_is_rejected() {
    let mut chain = fresh_chain();
    let now = 1_700_000_000;
    chain.balances.set("alice", 50);
    let tx = transfer_tx("alice", "carol", 60, 1, now, 1);
    // Insufficient balance surfaces as an invalid transaction.
    assert!(matches!(
        chain.add_transaction_at(tx, now),
        Err(TribeError::InvalidTransaction(_))
    ));
    assert!(chain.pending_transactions.is_empty());
    assert_eq!(chain.get_balance("alice"), 50);
    assert_eq!(chain.get_balance("carol"), 0);
}

#[test]
fn zero_amount_transfer_is_rejected() {
    let mut chain = fresh_chain();
    let now = 1_700_000_000;
    let tx = transfer_tx("genesis", "alice", 0, 1, now, 1);
    assert!(chain.add_transaction_at(tx, now).is_err());
}

#[test]
fn far_future_timestamp_is_rejected() {
    let mut chain = fresh_chain();
    let now = 1_700_000_000;
    let tx = transfer_tx("genesis", "alice", 100, 1, now + 301, 1);
    assert!(chain.add_transaction_at(tx, now).is_err());
    let tolerated = transfer_tx("genesis", "alice", 100, 1, now + 300, 2);
    assert!(chain.add_transaction_at(tolerated, now).is_ok());
}

fn open_relu_task(id: &str) -> TensorTask {
    TensorTask {
        id: id.to_string(),
        operation: "relu".to_string(),
        input_data: vec![
            (-1.0f32).to_bits(),
            0.0f32.to_bits(),
            1.0f32.to_bits(),
            2.0f32.to_bits(),
        ],
        expected_output_size: 4,
        max_computation_time: 5000,
        reward: 10,
        requester: "user".to_string(),
        completed: false,
        result: None,
        assigned_miner: None,
        created_at: 1_700_000_000,
    }
}

#[test]
fn tensor_sealed_block_completes_the_task_and_pays_the_bonus() {
    let mut chain = fresh_chain();
    let now = 1_700_000_000;
    chain.add_tensor_task(open_relu_task("task-1")).unwrap();
    let tx = transfer_tx("genesis", "alice", 100, 2, now, 1);
    chain.add_transaction_at(tx, now).unwrap();

    let proof = AI3Proof {
        task_id: "task-1".to_string(),
        optimization_factor_permille: 1500,
        tensor_hash: sha256_hex("tensor-output"),
        computation_time: 100,
        miner_signature: String::new(),
    };
    let block = chain.mine_block_with_ai3("m".to_string(), proof).unwrap();

    // The tensor-augmented seal runs at half again the classical prefix.
    assert_eq!(block.difficulty, (3 * 2 + 1) / 2);
    assert!(block.ai3_proof.is_some());
    let task = &chain.tensor_tasks[0];
    assert!(task.completed);
    assert_eq!(task.assigned_miner.as_deref(), Some("m"));
    // Reward, the 1.5x bonus and the fee.
    assert_eq!(chain.get_balance("m"), 50_000_000 + 75_000_000 + 2);
}

#[test]
fn out_of_range_optimization_factor_is_rejected() {
    let mut chain = fresh_chain();
    let now = 1_700_000_000;
    chain.add_tensor_task(open_relu_task("task-1")).unwrap();
    let tx = transfer_tx("genesis", "alice", 100, 2, now, 1);
    chain.add_transaction_at(tx, now).unwrap();

    let proof = AI3Proof {
        task_id: "task-1".to_string(),
        optimization_factor_permille: 2500,
        tensor_hash: sha256_hex("tensor-output"),
        computation_time: 100,
        miner_signature: String::new(),
    };
    let verdict = chain.validate_ai3_proof(&proof).unwrap();
    assert!(!verdict);
    assert!(chain.mine_block_with_ai3("m".to_string(), proof).is_err());
    assert!(!chain.tensor_tasks[0].completed);
    assert_eq!(chain.get_balance("m"), 0);
    assert_eq!(chain.blocks.len(), 1);
}

#[test]
fn unknown_task_fails_proof_validation() {
    let chain = fresh_chain();
    let proof = AI3Proof {
        task_id: "missing".to_string(),
        optimization_factor_permille: 1000,
        tensor_hash: String::new(),
        computation_time: 0,
        miner_signature: String::new(),
    };
    assert!(matches!(
        chain.validate_ai3_proof(&proof),
        Err(TribeError::AI3(_))
    ));
}

#[test]
fn completing_a_task_is_permanent() {
    let mut chain = fresh_chain();
    chain.add_tensor_task(open_relu_task("task-1")).unwrap();
    assert_eq!(chain.get_pending_tensor_tasks().len(), 1);
    chain
        .complete_tensor_task("task-1", vec![0, 0, 1.0f32.to_bits(), 2.0f32.to_bits()])
        .unwrap();
    assert!(chain.tensor_tasks[0].completed);
    assert!(chain.tensor_tasks[0].result.is_some());
    assert!(chain.get_pending_tensor_tasks().is_empty());
    assert!(chain.complete_tensor_task("task-1", vec![]).is_ok());
    assert!(chain.tensor_tasks[0].completed);
    assert!(chain.complete_tensor_task("other", vec![]).is_err());
}

#[test]
fn mining_with_an_empty_mempool_fails() {
    let mut chain = fresh_chain();
    assert!(matches!(
        chain.mine_block("bob".to_string()),
        Err(TribeError::Mining(_))
    ));
    assert_eq!(chain.blocks.len(), 1);
}

#[test]
fn tensor_compute_transaction_opens_a_task() {
    let mut chain = fresh_chain();
    let now = 1_700_000_000;
    let tx = Transaction::with_details(
        "tx-tensor-1".to_string(),
        "genesis".to_string(),
        TransactionType::TensorCompute {
            operation: "relu".to_string(),
            input_data: vec![1.0f32.to_bits()],
            expected_output_size: 1,
            max_computation_time: 5000,
            reward: 10,
        },
        2,
        now,
        1,
    );
    chain.add_transaction_at(tx, now).unwrap();
    chain.mine_block("bob".to_string()).unwrap();
    assert_eq!(chain.tensor_tasks.len(), 1);
    assert_eq!(chain.tensor_tasks[0].id, "tx-tensor-1");
    assert!(!chain.tensor_tasks[0].completed);
    assert_eq!(chain.tensor_tasks[0].requester, "genesis");
    // The requester paid reward plus fee.
    assert_eq!(chain.get_balance("genesis"), 1_000_000_000_000 - 12);
}

#[test]
fn stats_count_blocks_transactions_and_supply() {
    let mut chain = fresh_chain();
    let now = 1_700_000_000;
    let tx = transfer_tx("genesis", "alice", 100, 1, now, 1);
    chain.add_transaction_at(tx, now).unwrap();
    chain.mine_block("bob".to_string()).unwrap();

    let stats = chain.get_stats();
    assert_eq!(stats.block_count, 2);
    assert_eq!(stats.transaction_count, 1);
    assert_eq!(stats.pending_transactions, 0);
    assert_eq!(stats.mining_reward, 50_000_000);
    assert_eq!(stats.total_supply, 1_000_000_000_000 + 50_000_001 - 1);
    assert_eq!(stats.tensor_tasks, 0);
}

#[test]
fn get_block_and_transaction_lookups() {
    let mut chain = fresh_chain();
    let now = 1_700_000_000;
    let tx = transfer_tx("genesis", "alice", 100, 1, now, 1);
    let tx_hash = tx.hash.clone();
    chain.add_transaction_at(tx, now).unwrap();
    chain.mine_block("bob".to_string()).unwrap();

    assert!(chain.get_block(0).is_some());
    assert!(chain.get_block(1).is_some());
    assert!(chain.get_block(2).is_none());
    let found = chain.get_transaction(&tx_hash).expect("the committed transaction");
    assert_eq!(found.hash, tx_hash);
    assert!(chain.get_transaction("no-such-hash").is_none());
    let head = chain.get_latest_block().unwrap();
    assert_eq!(head.index, 1);
}

#[test]
fn token_create_consumes_the_fee_alone() {
    let mut chain = fresh_chain();
    let now = 1_700_000_000;
    // The creator holds only a little more than the fee.
    chain.balances.set("creator", 10);
    let tx = Transaction::with_details(
        "tx-token-1".to_string(),
        "creator".to_string(),
        TransactionType::TokenCreate {
            name: "Test".to_string(),
            symbol: "TST".to_string(),
            total_supply: 1_000_000,
            decimals: 6,
        },
        1,
        now,
        1,
    );
    chain.add_transaction_at(tx, now).unwrap();
    chain.mine_block("bob".to_string()).unwrap();
    assert_eq!(chain.get_balance("creator"), 9);
}

#[test]
fn admission_checks_the_pending_queue_not_just_the_committed_state() {
    let mut chain = fresh_chain();
    let now = 1_700_000_000;
    chain.balances.set("alice", 100);
    let first = transfer_tx("alice", "bob", 80, 1, now, 1);
    chain.add_transaction_at(first, now).unwrap();
    // A second spend of the same balance no longer fits.
    let second = transfer_tx("alice", "carol", 80, 1, now, 2);
    assert!(chain.add_transaction_at(second, now).is_err());
    assert_eq!(chain.pending_transactions.len(), 1);
    // A spend of what is left is admitted.
    let third = transfer_tx("alice", "carol", 10, 1, now, 3);
    chain.add_transaction_at(third, now).unwrap();
    chain.mine_block("m".to_string()).unwrap();
    assert_eq!(chain.get_balance("alice"), 100 - 81 - 11);
    assert_eq!(chain.get_balance("bob"), 80);
    assert_eq!(chain.get_balance("carol"), 10);
}

#[test]
fn tensor_sealing_leaves_the_task_result_to_the_host() {
    let mut chain = fresh_chain();
    let now = 1_700_000_000;
    chain.add_tensor_task(open_relu_task("task-1")).unwrap();
    let tx = transfer_tx("genesis", "alice", 100, 2, now, 1);
    chain.add_transaction_at(tx, now).unwrap();
    let proof = AI3Proof {
        task_id: "task-1".to_string(),
        optimization_factor_permille: 1000,
        tensor_hash: sha256_hex("out"),
        computation_time: 10,
        miner_signature: String::new(),
    };
    chain.mine_block_with_ai3("m".to_string(), proof).unwrap();
    assert!(chain.tensor_tasks[0].completed);
    // The sealing path never invents an output; the host records it.
    assert!(chain.tensor_tasks[0].result.is_none());
    chain
        .complete_tensor_task("task-1", vec![0, 0, 1.0f32.to_bits(), 2.0f32.to_bits()])
        .unwrap();
    assert!(chain.tensor_tasks[0].result.is_some());
}
