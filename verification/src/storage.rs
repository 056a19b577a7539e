//! The persistence seam. This build runs the chain purely in memory: every
//! save is accepted and dropped, and every load reports that nothing is
//! stored, exactly as the persistence-less profile of the node behaves.

use vstd::prelude::*;
use crate::errors::{TribeError, TribeResult};

verus! {

use vstd::string::StringExecFns;

/// Handle to the byte store. In the in-memory profile it holds nothing.
#[derive(Debug, Clone)]
pub struct Storage {
    pub path: String,
}

/// Statistics over the byte store.
#[derive(Debug, Clone)]
pub struct StorageStats {
    pub total_keys: usize,
    pub total_size: usize,
}

impl Storage {
    /// Opens the store rooted at `path`.
    pub fn new(path: &str) -> (r: TribeResult<Storage>)
        ensures
            r matches Ok(s) && s.path@ == path@,
    {
        Ok(Storage { path: String::from_str(path) })
    }

    /// Accepts and drops a key-value pair.
    pub fn save_data(&self, _key: &str, _value: &Vec<u8>) -> (r: TribeResult<()>)
        ensures
            r is Ok,
    {
        Ok(())
    }

    /// Nothing is ever stored, so every key is absent.
    pub fn load_data(&self, _key: &str) -> (r: TribeResult<Option<Vec<u8>>>)
        ensures
            r matches Ok(v) && v is None,
    {
        Ok(None)
    }

    /// Accepts and drops a deletion.
    pub fn delete_data(&self, _key: &str) -> (r: TribeResult<()>)
        ensures
            r is Ok,
    {
        Ok(())
    }

    /// Accepts and drops a chain snapshot.
    pub fn save_blockchain(&self, _chain: &crate::blockchain::TribeChain) -> (r: TribeResult<()>)
        ensures
            r is Ok,
    {
        Ok(())
    }

    /// Nothing is ever stored, so no snapshot is found.
    pub fn load_blockchain(&self) -> (r: TribeResult<crate::blockchain::TribeChain>)
        ensures
            r matches Err(e) && e is Storage,
    {
        Err(TribeError::Storage(String::from_str("blockchain not found")))
    }

    /// Accepts and drops a block.
    pub fn save_block(&self, _block: &crate::block::Block, _index: u64) -> (r: TribeResult<()>)
        ensures
            r is Ok,
    {
        Ok(())
    }

    /// Nothing is ever stored, so no block is found.
    pub fn load_block(&self, index: u64) -> (r: TribeResult<crate::block::Block>)
        ensures
            r matches Err(e) && e is Storage,
    {
        Err(TribeError::Storage(String::from_str("block not found")))
    }

    /// Accepts and drops a transaction.
    pub fn save_transaction(&self, _transaction: &crate::transaction::Transaction) -> (r:
        TribeResult<()>)
        ensures
            r is Ok,
    {
        Ok(())
    }

    /// Nothing is ever stored, so no transaction is found.
    pub fn load_transaction(&self, _hash: &str) -> (r: TribeResult<
        crate::transaction::Transaction,
    >)
        ensures
            r matches Err(e) && e is Storage,
    {
        Err(TribeError::Storage(String::from_str("transaction not found")))
    }

    /// The store holds nothing.
    pub fn get_stats(&self) -> (r: TribeResult<StorageStats>)
        ensures
            r matches Ok(s) && s.total_keys == 0 && s.total_size == 0,
    {
        Ok(StorageStats { total_keys: 0, total_size: 0 })
    }
}

} // verus!
