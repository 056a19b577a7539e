//! Network configuration, consensus engine and the mining pool.

use tribechain::consensus::{ConsensusEngine, ConsensusType, ValidatorInfo};
use tribechain::miner::{Miner, MinerType};
use tribechain::network::NetworkConfig;
use tribechain::pool::{MiningPool, PoolConfig, RewardDistribution};

#[test]
fn test_network_config_default() {
    let config = NetworkConfig::default();
    assert_eq!(config.port, 8333);
    assert_eq!(config.rpc_port, 8334);
    assert_eq!(config.max_peers, 50);
    assert!(config.rpc_enabled);
    assert!(!config.mining_enabled);
}

#[test]
fn test_consensus_engine_creation() {
    let engine = ConsensusEngine::new(ConsensusType::ProofOfWork).unwrap();
    assert!(!engine.is_running);
    assert_eq!(engine.current_epoch, 0);
}

#[test]
fn test_consensus_start_stop() {
    let mut engine = ConsensusEngine::new(ConsensusType::ProofOfWork).unwrap();

    engine.start().unwrap();
    assert!(engine.is_running);
    assert!(engine.start().is_err());

    engine.stop().unwrap();
    assert!(!engine.is_running);
}

#[test]
fn consensus_test_validator_management() {
    let mut engine = ConsensusEngine::new(ConsensusType::ProofOfStake).unwrap();
    let validator = ValidatorInfo::new("validator1".to_string(), 1000);

    engine.add_validator(validator).unwrap();
    assert_eq!(engine.stats.validator_count, 1);

    engine.remove_validator("validator1").unwrap();
    assert_eq!(engine.stats.validator_count, 0);
}

#[test]
fn validator_slashing_deactivates_after_three() {
    let mut validator = ValidatorInfo::new("v".to_string(), 1000);
    validator.slash(100);
    assert_eq!(validator.stake, 900);
    assert!(validator.is_active);
    validator.slash(0);
    assert!(validator.is_active);
    validator.slash(0);
    assert!(!validator.is_active);
    assert_eq!(validator.slash_count, 3);
}

#[test]
fn test_mining_pool_creation() {
    let config = PoolConfig::default();
    let pool = MiningPool::new("pool1".to_string(), "Test Pool".to_string(), config);

    assert_eq!(pool.pool_id, "pool1");
    assert_eq!(pool.name, "Test Pool");
    assert!(pool.is_active);
}

#[test]
fn test_add_remove_miner() {
    let config = PoolConfig::default();
    let mut pool = MiningPool::new("pool1".to_string(), "Test Pool".to_string(), config);

    let miner = Miner::new("miner1".to_string(), "addr1".to_string(), MinerType::CPU);

    pool.add_miner(miner).unwrap();
    assert_eq!(pool.stats.total_miners, 1);

    pool.remove_miner("miner1").unwrap();
    assert_eq!(pool.stats.total_miners, 0);
    assert!(pool.remove_miner("miner1").is_err());
}

#[test]
fn test_share_submission() {
    let config = PoolConfig::default();
    let mut pool = MiningPool::new("pool1".to_string(), "Test Pool".to_string(), config);

    let share = tribechain::pool::MiningShare {
        miner_id: "miner1".to_string(),
        block_height: 1,
        nonce: 12345,
        hash: "0000abcd".to_string(),
        difficulty: 4,
        is_valid: true,
        timestamp: 1_700_000_000,
        ai3_proof: None,
    };

    let result = pool.submit_share(share).unwrap();
    assert!(result);
    assert_eq!(pool.stats.valid_shares, 1);

    let weak = tribechain::pool::MiningShare {
        miner_id: "miner1".to_string(),
        block_height: 1,
        nonce: 12346,
        hash: "000abcd".to_string(),
        difficulty: 4,
        is_valid: true,
        timestamp: 1_700_000_000,
        ai3_proof: None,
    };
    assert!(!pool.submit_share(weak).unwrap());
    assert_eq!(pool.stats.invalid_shares, 1);
}

#[test]
fn reward_distribution_policies_install() {
    let config = PoolConfig::default();
    let mut pool = MiningPool::new("pool1".to_string(), "Test Pool".to_string(), config);
    pool.set_reward_distribution(RewardDistribution::PayPerLastNShares(1000));
    assert!(matches!(
        pool.reward_distribution,
        RewardDistribution::PayPerLastNShares(1000)
    ));
}
