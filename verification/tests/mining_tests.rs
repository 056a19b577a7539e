//! Miners, tensor tasks, the distributor and the difficulty controller.

use tribechain::ai3::{AI3Miner, MiningTask, TaskDistributor};
use tribechain::difficulty::{DifficultyAdjuster, DifficultyAlgorithm};
use tribechain::miner::{Miner, MinerType};
use tribechain::tensor::Tensor;

fn bits(values: &[f32]) -> Vec<u32> {
    values.iter().map(|v| v.to_bits()).collect()
}

#[test]
fn test_mining_task_creation() {
    let input = Tensor::vector(bits(&[1.0, 2.0, 3.0]));
    let task = MiningTask::new(
        "relu".to_string(),
        vec![input],
        4,
        100,
        300,
        "test_requester".to_string(),
    );

    assert_eq!(task.operation_type, "relu");
    assert_eq!(task.difficulty, 4);
    assert_eq!(task.reward, 100);
}

#[test]
fn mining_test_miner_capabilities() {
    let esp_miner = AI3Miner::new("esp1".to_string(), "addr1".to_string(), true);
    let regular_miner = AI3Miner::new("miner1".to_string(), "addr2".to_string(), false);

    assert!(esp_miner.capabilities.is_esp_device);
    assert!(!regular_miner.capabilities.is_esp_device);
    assert!(regular_miner.capabilities.max_tensor_size > esp_miner.capabilities.max_tensor_size);
}

#[test]
fn test_task_assignment() {
    let mut miner = AI3Miner::new("miner1".to_string(), "addr1".to_string(), false);
    let input = Tensor::vector(bits(&[1.0, 2.0, 3.0]));
    let task = MiningTask::new(
        "relu".to_string(),
        vec![input],
        4,
        100,
        300,
        "test_requester".to_string(),
    );

    assert!(miner.can_handle_task(&task));
    assert!(miner.assign_task(task).is_ok());
    assert!(miner.current_task.is_some());
}

#[test]
fn test_difficulty_check() {
    let input = Tensor::vector(bits(&[1.0, 2.0, 3.0]));
    let task = MiningTask::new(
        "relu".to_string(),
        vec![input],
        2,
        100,
        300,
        "test_requester".to_string(),
    );

    assert!(task.meets_difficulty("00abc123"));
    assert!(!task.meets_difficulty("0abc123"));
    assert!(!task.meets_difficulty("abc123"));
}

#[test]
fn unsupported_operation_is_refused() {
    let mut miner = AI3Miner::new("miner1".to_string(), "addr1".to_string(), true);
    let input = Tensor::vector(bits(&[1.0]));
    let task = MiningTask::new(
        "softmax".to_string(),
        vec![input],
        1,
        100,
        300,
        "req".to_string(),
    );
    assert!(!miner.can_handle_task(&task));
    assert!(miner.assign_task(task).is_err());
}

#[test]
fn mine_attempt_seals_at_low_difficulty() {
    let mut miner = AI3Miner::new("miner1".to_string(), "addr1".to_string(), false);
    let input = Tensor::vector(bits(&[1.0]));
    let task = MiningTask::new("relu".to_string(), vec![input], 0, 100, 300, "req".to_string());
    let task_id = task.id.clone();
    miner.assign_task(task).unwrap();
    // Difficulty zero accepts the first attempt.
    let ticket = miner.mine_attempt(7).expect("a zero-difficulty seal");
    assert_eq!(ticket.task_id, task_id);
    assert_eq!(ticket.miner_id, "miner1");
    assert_eq!(ticket.nonce, 7);
    assert!(miner.current_task.is_none());
    assert!(miner.mine_attempt(8).is_none());
}

#[test]
fn distributor_assigns_the_first_capable_idle_miner() {
    let mut distributor = TaskDistributor::new();
    let miners = vec![
        AI3Miner::new("esp".to_string(), "a".to_string(), true),
        AI3Miner::new("full".to_string(), "b".to_string(), false),
    ];
    let input = Tensor::vector(bits(&[1.0]));
    let task = MiningTask::new("softmax".to_string(), vec![input], 1, 10, 300, "req".to_string());
    // The embedded miner does not run softmax, so the full host is picked.
    let assigned = distributor.distribute(task, &miners).unwrap();
    assert_eq!(assigned, vec!["full".to_string()]);
    assert_eq!(distributor.active_tasks.len(), 1);
}

#[test]
fn distributor_queues_a_task_nobody_can_take() {
    let mut distributor = TaskDistributor::new();
    let miners = vec![AI3Miner::new("esp".to_string(), "a".to_string(), true)];
    let input = Tensor::vector(bits(&[1.0]));
    let task = MiningTask::new("softmax".to_string(), vec![input], 1, 10, 300, "req".to_string());
    let assigned = distributor.distribute(task, &miners).unwrap();
    assert!(assigned.is_empty());
    assert_eq!(distributor.pending_tasks.len(), 1);
}

#[test]
fn expired_tasks_are_dropped_from_the_queue() {
    let mut distributor = TaskDistributor::new();
    let input = Tensor::vector(bits(&[1.0]));
    let task = MiningTask::new("relu".to_string(), vec![input], 1, 10, 300, "req".to_string());
    let created_at = task.created_at;
    distributor.add_task(task);
    distributor.cleanup_expired_at(created_at + 100);
    assert_eq!(distributor.pending_tasks.len(), 1);
    distributor.cleanup_expired_at(created_at + 301);
    assert!(distributor.pending_tasks.is_empty());
}

#[test]
fn test_miner_creation() {
    let miner = Miner::new(
        "test_miner".to_string(),
        "test_address".to_string(),
        MinerType::CPU,
    );

    assert_eq!(miner.id, "test_miner");
    assert_eq!(miner.address, "test_address");
    assert!(miner.is_active);
    assert!(miner.capabilities.supports_ai3);
}

#[test]
fn miner_test_miner_capabilities() {
    let gpu_miner = Miner::new("gpu".to_string(), "addr".to_string(), MinerType::GPU);
    let esp32_miner = Miner::new("esp32".to_string(), "addr".to_string(), MinerType::ESP32);

    assert!(gpu_miner.capabilities.hash_rate > esp32_miner.capabilities.hash_rate);
    assert!(gpu_miner.capabilities.max_tensor_size > esp32_miner.capabilities.max_tensor_size);
}

#[test]
fn test_tensor_operation_capability() {
    let miner = Miner::new("test".to_string(), "addr".to_string(), MinerType::CPU);

    assert!(miner.can_handle_tensor_operation("matrix_multiply", 512));
    assert!(!miner.can_handle_tensor_operation("matrix_multiply", 2048));
    assert!(!miner.can_handle_tensor_operation("unsupported_op", 256));
}

#[test]
fn test_miner_stats_update() {
    let mut miner = Miner::new("test".to_string(), "addr".to_string(), MinerType::CPU);

    miner.update_stats(1000, true, 1_700_000_000);
    assert_eq!(miner.stats.total_hash_attempts, 1000);
    assert_eq!(miner.stats.successful_hashes, 1);
    assert_eq!(miner.stats.blocks_mined, 1);
    assert_eq!(miner.stats.last_block_time, Some(1_700_000_000));
}

#[test]
fn test_difficulty_adjuster_creation() {
    let adjuster = DifficultyAdjuster::new(DifficultyAlgorithm::Bitcoin);
    assert_eq!(adjuster.target_block_time, 600);
    assert_eq!(adjuster.adjustment_interval, 2016);
    assert_eq!(adjuster.current_difficulty, 4);
}

#[test]
fn test_should_adjust() {
    let adjuster = DifficultyAdjuster::new(DifficultyAlgorithm::Bitcoin);
    assert!(adjuster.should_adjust(2016));
    assert!(!adjuster.should_adjust(2015));
    assert!(adjuster.should_adjust(4032));
}

#[test]
fn test_add_block_time() {
    let mut adjuster = DifficultyAdjuster::new(DifficultyAlgorithm::AI3Adaptive);
    let base = 1_700_000_000;

    adjuster.add_block_time(1, base, 1000);
    assert_eq!(adjuster.block_times.len(), 1);

    adjuster.add_block_time(2, base + 30, 1100);
    assert_eq!(adjuster.block_times.len(), 2);
}

#[test]
fn test_average_block_time() {
    let mut adjuster = DifficultyAdjuster::new(DifficultyAlgorithm::AI3Adaptive);
    let base = 1_700_000_000;

    adjuster.add_block_time(1, base, 1000);
    adjuster.add_block_time(2, base + 30, 1000);
    adjuster.add_block_time(3, base + 60, 1000);

    let avg = adjuster.get_average_block_time(2).unwrap();
    assert_eq!(avg, 30);
}

#[test]
fn blocks_below_target_time_double_the_difficulty() {
    let mut adjuster = DifficultyAdjuster::new(DifficultyAlgorithm::AI3Adaptive);
    let base = 1_700_000_000;
    // Ten blocks fifteen seconds apart against a thirty-second target.
    for i in 0..10u64 {
        adjuster.add_block_time(i + 1, base + i * 15, 1000);
    }
    let adjustment = adjuster.ai3_adaptive_adjustment(10).unwrap();
    assert_eq!(adjustment.old_difficulty, 4);
    assert_eq!(adjustment.adjustment_factor_permille, 2000);
    assert_eq!(adjustment.new_difficulty, 8);

    adjuster.apply_adjustment(adjustment);
    assert_eq!(adjuster.get_current_difficulty(), 8);
}

#[test]
fn on_target_blocks_keep_the_difficulty() {
    let mut adjuster = DifficultyAdjuster::new(DifficultyAlgorithm::AI3Adaptive);
    let base = 1_700_000_000;
    for i in 0..10u64 {
        adjuster.add_block_time(i + 1, base + i * 30, 1000);
    }
    let adjustment = adjuster.ai3_adaptive_adjustment(10).unwrap();
    assert_eq!(adjustment.adjustment_factor_permille, 1000);
    assert_eq!(adjustment.new_difficulty, 4);
}
