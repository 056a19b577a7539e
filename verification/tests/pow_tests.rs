//! Proof-of-work: targets, prefix checks and the step regulator.

use tribechain::block::Block;
use tribechain::pow::ProofOfWork;

#[test]
fn test_proof_of_work_creation() {
    let pow = ProofOfWork::new(4, 600);
    assert_eq!(pow.difficulty, 4);
    assert_eq!(pow.target_block_time, 600);
    assert!(pow.ai3_integration);
}

#[test]
fn test_difficulty_target() {
    let pow = ProofOfWork::new(4, 600);
    let target = pow.calculate_target();
    assert_eq!(target, "0000");
}

#[test]
fn test_meets_difficulty() {
    let pow = ProofOfWork::new(4, 600);
    let target = pow.calculate_target();

    assert!(pow.meets_difficulty("0000abcd", &target));
    assert!(!pow.meets_difficulty("000abcd", &target));
    assert!(!pow.meets_difficulty("1000abcd", &target));
}

#[test]
fn test_difficulty_adjustment() {
    let mut pow = ProofOfWork::new(4, 600);

    let new_difficulty = pow.adjust_difficulty(1200);
    assert_eq!(new_difficulty, 3);

    pow.difficulty = 4;
    let new_difficulty = pow.adjust_difficulty(200);
    assert_eq!(new_difficulty, 5);
}

#[test]
fn test_create_work() {
    let pow = ProofOfWork::new(4, 600);
    let block = Block::new_at(1, "prev_hash".to_string(), vec![], "miner".to_string(), 7);
    let work = pow.create_work(block);
    assert_eq!(work.target, "0000");
    assert_eq!(work.start_nonce, 0);
    assert_eq!(work.end_nonce, u64::MAX);
    assert_eq!(work.block_template.nonce, 0);
}

#[test]
fn test_mine_and_verify_work() {
    let pow = ProofOfWork::new(1, 600);
    let block = Block::new_at(1, "prev_hash".to_string(), vec![], "miner".to_string(), 7);
    let mut work = pow.create_work(block);
    let proof = pow
        .mine_block(&mut work, "test_miner".to_string(), 1_000_000)
        .unwrap()
        .expect("a difficulty-one seal should be found quickly");
    assert!(proof.block_hash.starts_with("0"));
    assert_eq!(proof.miner_id, "test_miner");
    let verdict = pow.verify_proof(&proof, &work.block_template).unwrap();
    assert!(verdict);
}
