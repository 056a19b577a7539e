//! Error taxonomy shared by every component of the chain.

use vstd::prelude::*;

verus! {

/// Structured error kinds, each carrying a human-readable message.
#[derive(Debug, Clone)]
pub enum TribeError {
    /// Structural or derivation mismatch in a block.
    InvalidBlock(String),
    /// Structural or kind-field violation in a transaction,
    /// including insufficient balance.
    InvalidTransaction(String),
    /// No solution within the sealing budget, or no pending work.
    Mining(String),
    /// Underlying byte-store failure.
    Storage(String),
    /// Peer-to-peer transport failure.
    Network(String),
    /// Token subsystem failure.
    Token(String),
    /// Tensor-mining failure: task not found, proof out of bounds.
    AI3(String),
    /// Chain-level failure.
    Blockchain(String),
    /// Contract subsystem failure.
    Contract(String),
    /// Rejected request on a component's own state machine.
    InvalidOperation(String),
    /// Catch-all.
    Generic(String),
}

/// Result type used across the chain.
pub type TribeResult<T> = Result<T, TribeError>;

impl TribeError {
    /// The message carried by the error.
    pub fn message(&self) -> (r: &String)
        ensures
            r@ == self.spec_message(),
    {
        match self {
            TribeError::InvalidBlock(m) => m,
            TribeError::InvalidTransaction(m) => m,
            TribeError::Mining(m) => m,
            TribeError::Storage(m) => m,
            TribeError::Network(m) => m,
            TribeError::Token(m) => m,
            TribeError::AI3(m) => m,
            TribeError::Blockchain(m) => m,
            TribeError::Contract(m) => m,
            TribeError::InvalidOperation(m) => m,
            TribeError::Generic(m) => m,
        }
    }

    /// The message carried by the error, at the specification level.
    pub open spec fn spec_message(&self) -> Seq<char> {
        match self {
            TribeError::InvalidBlock(m) => m@,
            TribeError::InvalidTransaction(m) => m@,
            TribeError::Mining(m) => m@,
            TribeError::Storage(m) => m@,
            TribeError::Network(m) => m@,
            TribeError::Token(m) => m@,
            TribeError::AI3(m) => m@,
            TribeError::Blockchain(m) => m@,
            TribeError::Contract(m) => m@,
            TribeError::InvalidOperation(m) => m@,
            TribeError::Generic(m) => m@,
        }
    }
}

} // verus!
