//! The chain's standing laws, stated once over the models the contracts
//! use. Each is proved from what the library's own contracts and
//! invariants say.

use vstd::prelude::*;
use crate::block::{has_zero_prefix, merkle_root_of, tx_hashes, Block};
use crate::blockchain::{adjusted_difficulty, TribeChain, MAX_DIFFICULTY};
use crate::hashing::sha256_hex_of;
use crate::ledger::bal;
use crate::transaction::{canon_tx, Transaction};

verus! {

/// Every structurally valid transaction's hash is the SHA-256 of its
/// canonical encoding.
pub proof fn lemma_transaction_hash_derivation(t: &Transaction)
    requires
        t.spec_structurally_valid(),
    ensures
        t.hash@ == sha256_hex_of(canon_tx(t)),
{
}

/// Every sealed block's hash is the SHA-256 of its canonical encoding and
/// begins with its difficulty's worth of zeros.
pub proof fn lemma_block_seal(b: &Block)
    requires
        b.spec_sealed(),
    ensures
        b.hash@ == sha256_hex_of(crate::block::canon_block(b)),
        has_zero_prefix(b.hash@, b.difficulty as int),
{
}

/// Every Merkle-consistent block's root is recomputable from its
/// transactions.
pub proof fn lemma_merkle_recompute(b: &Block)
    requires
        b.merkle_ok(),
    ensures
        merkle_root_of(tx_hashes(b.transactions@)) == b.merkle_root@,
{
}

/// In a well-formed chain, every block after the first extends its
/// parent: consecutive index, matching parent hash.
pub proof fn lemma_chain_linkage(chain: &TribeChain, i: int)
    requires
        chain.wf(),
        1 <= i < chain.blocks@.len(),
    ensures
        chain.blocks@[i].previous_hash@ == chain.blocks@[i - 1].hash@,
        chain.blocks@[i].index == chain.blocks@[i - 1].index + 1,
{
}

/// No committed balance is ever negative: balances live in an unsigned
/// word, and every debit the chain performs is covered by the validator's
/// balance check before it happens.
pub proof fn lemma_balance_nonnegative(chain: &TribeChain, address: Seq<char>)
    ensures
        bal(chain.spec_balances(), address) >= 0,
{
}

/// The difficulty controller never moves by more than a factor of two,
/// and never leaves the admissible interval.
pub proof fn lemma_difficulty_adjustment_clamped(blocks: Seq<Block>, d: u64)
    requires
        1 <= d <= MAX_DIFFICULTY,
    ensures
        d / 2 <= adjusted_difficulty(blocks, d) <= 2 * d,
        1 <= adjusted_difficulty(blocks, d) <= MAX_DIFFICULTY,
{
}

} // verus!
