//! Tensor shapes, values and the operation catalogue; transactions and
//! blocks as values.

use sha2::{Digest, Sha256};
use tribechain::block::Block;
use tribechain::numfmt::u64_to_string;
use tribechain::ops::{ActivationFunction, Convolution, MatrixMultiply, VectorOp};
use tribechain::tensor::{Tensor, TensorShape};
use tribechain::transaction::{Transaction, TransactionType};

fn bits(values: &[f32]) -> Vec<u32> {
    values.iter().map(|v| v.to_bits()).collect()
}

#[test]
fn test_tensor_creation() {
    let tensor = Tensor::vector(bits(&[1.0, 2.0, 3.0]));
    assert_eq!(tensor.shape.dimensions, vec![3]);
    assert_eq!(tensor.data.len(), 3);
}

#[test]
fn test_matrix_creation() {
    let tensor = Tensor::matrix(bits(&[1.0, 2.0, 3.0, 4.0]), 2, 2).unwrap();
    assert_eq!(tensor.shape.dimensions, vec![2, 2]);
    assert_eq!(tensor.get_2d(0, 1).unwrap(), 2.0f32.to_bits());
    assert_eq!(tensor.get_2d(1, 0).unwrap(), 3.0f32.to_bits());
    assert!(Tensor::matrix(bits(&[1.0, 2.0, 3.0]), 2, 2).is_err());
}

#[test]
fn test_tensor_reshape() {
    let tensor = Tensor::vector(bits(&[1.0, 2.0, 3.0, 4.0]));
    let reshaped = tensor.reshape(TensorShape::matrix(2, 2)).unwrap();
    assert_eq!(reshaped.shape.dimensions, vec![2, 2]);
    assert!(tensor.reshape(TensorShape::matrix(3, 2)).is_err());
}

#[test]
fn test_esp_compatibility() {
    let small_tensor = Tensor::vector(vec![1.0f32.to_bits(); 100]);
    assert!(small_tensor.is_esp_compatible());

    let large_tensor = Tensor::vector(vec![1.0f32.to_bits(); 2000]);
    assert!(!large_tensor.is_esp_compatible());
}

#[test]
fn shape_accessors_report_extents() {
    let shape = TensorShape::tensor_3d(2, 3, 4);
    assert_eq!(shape.rank(), 3);
    assert_eq!(shape.total_elements(), 24);
    let a = TensorShape::matrix(2, 3);
    let b = TensorShape::matrix(3, 5);
    assert!(a.is_compatible_for_matmul(&b));
    assert!(!b.is_compatible_for_matmul(&a));
}

#[test]
fn matmul_validation_honors_transposes() {
    let a = Tensor::matrix(bits(&[1.0; 6]), 2, 3).unwrap();
    let b = Tensor::matrix(bits(&[1.0; 15]), 3, 5).unwrap();
    let op = MatrixMultiply::new();
    assert!(op.validate_inputs(&vec![a, b]).is_ok());

    let a2 = Tensor::matrix(bits(&[1.0; 6]), 3, 2).unwrap();
    let b2 = Tensor::matrix(bits(&[1.0; 15]), 3, 5).unwrap();
    assert!(MatrixMultiply::new().validate_inputs(&vec![
        Tensor::matrix(bits(&[1.0; 6]), 3, 2).unwrap(),
        Tensor::matrix(bits(&[1.0; 15]), 3, 5).unwrap()
    ])
    .is_err());
    let transposing = MatrixMultiply::with_transpose(true, false);
    assert!(transposing.validate_inputs(&vec![a2, b2]).is_ok());
}

#[test]
fn convolution_output_size_formula() {
    let conv = Convolution::new(3);
    assert_eq!(conv.calculate_output_size(5), 3);
    let padded = Convolution::with_params(3, 1, 1, 1);
    assert_eq!(padded.calculate_output_size(5), 5);
    let strided = Convolution::with_params(3, 2, 0, 1);
    assert_eq!(strided.calculate_output_size(7), 3);
}

#[test]
fn vector_op_validation_requires_equal_vectors() {
    let a = Tensor::vector(bits(&[1.0, 2.0, 3.0]));
    let b = Tensor::vector(bits(&[4.0, 5.0, 6.0]));
    let op = VectorOp::dot_product();
    assert!(op.validate_inputs(&vec![a, b]).is_ok());
    assert!(VectorOp::dot_product()
        .validate_inputs(&vec![
            Tensor::vector(bits(&[1.0, 2.0, 3.0])),
            Tensor::vector(bits(&[4.0, 5.0]))
        ])
        .is_err());
    assert!(VectorOp::normalize()
        .validate_inputs(&vec![Tensor::vector(bits(&[1.0, 2.0]))])
        .is_ok());
}

#[test]
fn activation_scores_rank_by_cost() {
    assert_eq!(ActivationFunction::relu().get_complexity_score(), 10);
    assert_eq!(ActivationFunction::softmax().get_complexity_score(), 100);
    assert_eq!(MatrixMultiply::new().get_complexity_score(), 1000);
}

#[test]
fn decimal_rendering_is_exact() {
    assert_eq!(u64_to_string(0), "0");
    assert_eq!(u64_to_string(7), "7");
    assert_eq!(u64_to_string(1234567890), "1234567890");
    assert_eq!(u64_to_string(u64::MAX), "18446744073709551615");
}

#[test]
fn transaction_hash_matches_its_canonical_encoding() {
    let tx = Transaction::with_details(
        "id-1".to_string(),
        "alice".to_string(),
        TransactionType::Transfer { to: "bob".to_string(), amount: 5 },
        1,
        1_700_000_000,
        1,
    );
    let canonical = format!(
        "{}{}{}{}{}{}",
        "id-1",
        "alice",
        "{\"Transfer\":{\"to\":\"bob\",\"amount\":5}}",
        1,
        1_700_000_000u64,
        1
    );
    let mut hasher = Sha256::new();
    hasher.update(canonical.as_bytes());
    let expected = hex::encode(hasher.finalize());
    assert_eq!(tx.hash, expected);
    assert_eq!(tx.calculate_hash(), expected);
}

#[test]
fn equal_details_give_equal_hashes() {
    let a = Transaction::with_details(
        "id-1".to_string(),
        "alice".to_string(),
        TransactionType::Transfer { to: "bob".to_string(), amount: 5 },
        1,
        1_700_000_000,
        1,
    );
    let b = Transaction::with_details(
        "id-1".to_string(),
        "alice".to_string(),
        TransactionType::Transfer { to: "bob".to_string(), amount: 5 },
        1,
        1_700_000_000,
        1,
    );
    assert_eq!(a.hash, b.hash);
    let c = Transaction::with_details(
        "id-1".to_string(),
        "alice".to_string(),
        TransactionType::Transfer { to: "bob".to_string(), amount: 5 },
        1,
        1_700_000_000,
        2,
    );
    assert_ne!(a.hash, c.hash);
}

#[test]
fn signatures_verify_against_the_signing_key() {
    let mut tx = Transaction::with_details(
        "id-1".to_string(),
        "alice".to_string(),
        TransactionType::Transfer { to: "bob".to_string(), amount: 5 },
        1,
        1_700_000_000,
        1,
    );
    tx.sign("secret").unwrap();
    assert!(tx.verify_signature("secret"));
    assert!(!tx.verify_signature("other"));
}

#[test]
fn sealing_is_deterministic_for_equal_templates() {
    let mut a = Block::new_at(1, "0".repeat(64), vec![], "m".to_string(), 1_700_000_000);
    let mut b = Block::new_at(1, "0".repeat(64), vec![], "m".to_string(), 1_700_000_000);
    a.mine_block(1, 1_000_000).unwrap();
    b.mine_block(1, 1_000_000).unwrap();
    assert_eq!(a.nonce, b.nonce);
    assert_eq!(a.hash, b.hash);
    assert!(a.hash.starts_with("0"));
    assert!(a.validate(None).unwrap());
}

#[test]
fn tampered_blocks_fail_validation() {
    let genesis = Block::genesis();
    assert_eq!(genesis.hash, genesis.calculate_hash());
    assert_eq!(genesis.hash.len(), 64);
    let mut child = Block::new_at(
        1,
        genesis.hash.clone(),
        vec![],
        "m".to_string(),
        1_700_000_000,
    );
    child.mine_block(1, 1_000_000).unwrap();
    assert!(child.validate(Some(&genesis)).unwrap());

    let mut wrong_index = child.clone();
    wrong_index.index = 5;
    wrong_index.hash = wrong_index.calculate_hash();
    assert!(!wrong_index.validate(Some(&genesis)).unwrap());

    let mut wrong_parent = child.clone();
    wrong_parent.previous_hash = "1".repeat(64);
    wrong_parent.hash = wrong_parent.calculate_hash();
    assert!(!wrong_parent.validate(Some(&genesis)).unwrap());
}

#[test]
fn storage_is_a_transparent_sink() {
    let storage = tribechain::storage::Storage::new("anywhere").unwrap();
    assert!(storage.save_data("k", &vec![1, 2, 3]).is_ok());
    assert_eq!(storage.load_data("k").unwrap(), None);
    assert!(storage.load_blockchain().is_err());
    assert!(storage.load_block(0).is_err());
    assert!(storage.load_transaction("h").is_err());
    let stats = storage.get_stats().unwrap();
    assert_eq!(stats.total_keys, 0);
}

#[test]
fn fresh_transactions_carry_a_generated_identifier() {
    let tx = Transaction::new(
        "alice".to_string(),
        TransactionType::Transfer { to: "bob".to_string(), amount: 5 },
        1,
        1,
    );
    assert_eq!(tx.id.chars().count(), 36);
    assert_eq!(tx.hash, tx.calculate_hash());
    let other = Transaction::new(
        "alice".to_string(),
        TransactionType::Transfer { to: "bob".to_string(), amount: 5 },
        1,
        1,
    );
    assert_ne!(tx.id, other.id);
}
