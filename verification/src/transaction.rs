//! Transactions: the seven kinds, their canonical encoding, and the hash
//! derivation every well-formed transaction satisfies.

use vstd::prelude::*;
use crate::encode::{dec_list_u32, dec_list_u8, u32_list_string, u8_list_string};
use crate::errors::{TribeError, TribeResult};
use crate::hashing::{sha256_hex, sha256_hex_of};
use crate::numfmt::{dec_of, u64_to_string, usize_to_string};
use crate::runtime::{new_id, now_seconds};

verus! {

use vstd::string::{StringExecFns, StrSliceExecFns};

/// Number of seconds a transaction's timestamp may lie in the future.
pub const TIMESTAMP_TOLERANCE: u64 = 300;

/// The kinds of transaction the chain applies. Tensor element data is
/// carried as IEEE-754 bit patterns (`u32` per single-precision value).
#[derive(Debug)]
pub enum TransactionType {
    /// Regular token transfer.
    Transfer { to: String, amount: u64 },
    /// Creation of a named token.
    TokenCreate { name: String, symbol: String, total_supply: u64, decimals: u8 },
    /// Transfer of a named token.
    TokenTransfer { to: String, amount: u64, token_id: String },
    /// Staking of an amount with a validator.
    Stake { amount: u64, validator: String, duration: u64 },
    /// Request for a tensor computation, rewarded on completion.
    TensorCompute {
        operation: String,
        input_data: Vec<u32>,
        expected_output_size: usize,
        max_computation_time: u64,
        reward: u64,
    },
    /// Contract deployment.
    ContractDeploy { code: Vec<u8>, constructor_args: Vec<u8> },
    /// Contract method call.
    ContractCall { contract_address: String, method: String, args: Vec<u8>, value: u64 },
}

/// Canonical encoding of a transaction kind: an externally tagged record,
/// with every numeric field in decimal.
pub open spec fn canon_kind(k: &TransactionType) -> Seq<char> {
    match k {
        TransactionType::Transfer { to, amount } => {
            "{\"Transfer\":{\"to\":\""@ + to@ + "\",\"amount\":"@ + dec_of(*amount as nat) + "}}"@
        },
        TransactionType::TokenCreate { name, symbol, total_supply, decimals } => {
            "{\"TokenCreate\":{\"name\":\""@ + name@ + "\",\"symbol\":\""@ + symbol@
                + "\",\"total_supply\":"@ + dec_of(*total_supply as nat) + ",\"decimals\":"@
                + dec_of(*decimals as nat) + "}}"@
        },
        TransactionType::TokenTransfer { to, amount, token_id } => {
            "{\"TokenTransfer\":{\"to\":\""@ + to@ + "\",\"amount\":"@ + dec_of(*amount as nat)
                + ",\"token_id\":\""@ + token_id@ + "\"}}"@
        },
        TransactionType::Stake { amount, validator, duration } => {
            "{\"Stake\":{\"amount\":"@ + dec_of(*amount as nat) + ",\"validator\":\""@ + validator@
                + "\",\"duration\":"@ + dec_of(*duration as nat) + "}}"@
        },
        TransactionType::TensorCompute {
            operation,
            input_data,
            expected_output_size,
            max_computation_time,
            reward,
        } => {
            "{\"TensorCompute\":{\"operation\":\""@ + operation@ + "\",\"input_data\":"@
                + dec_list_u32(input_data@) + ",\"expected_output_size\":"@
                + dec_of(*expected_output_size as nat) + ",\"max_computation_time\":"@
                + dec_of(*max_computation_time as nat) + ",\"reward\":"@ + dec_of(*reward as nat)
                + "}}"@
        },
        TransactionType::ContractDeploy { code, constructor_args } => {
            "{\"ContractDeploy\":{\"code\":"@ + dec_list_u8(code@) + ",\"constructor_args\":"@
                + dec_list_u8(constructor_args@) + "}}"@
        },
        TransactionType::ContractCall { contract_address, method, args, value } => {
            "{\"ContractCall\":{\"contract_address\":\""@ + contract_address@ + "\",\"method\":\""@
                + method@ + "\",\"args\":"@ + dec_list_u8(args@) + ",\"value\":"@
                + dec_of(*value as nat) + "}}"@
        },
    }
}

/// Kind-specific positivity rules.
pub open spec fn kind_ok(k: &TransactionType) -> bool {
    match k {
        TransactionType::Transfer { amount, .. } => *amount > 0,
        TransactionType::TokenCreate { total_supply, decimals, .. } => {
            *total_supply > 0 && *decimals <= 18
        },
        TransactionType::TokenTransfer { amount, .. } => *amount > 0,
        TransactionType::Stake { amount, duration, .. } => *amount > 0 && *duration > 0,
        TransactionType::TensorCompute { input_data, expected_output_size, .. } => {
            input_data@.len() > 0 && *expected_output_size > 0
        },
        TransactionType::ContractDeploy { code, .. } => code@.len() > 0,
        TransactionType::ContractCall { contract_address, method, .. } => {
            contract_address@.len() > 0 && method@.len() > 0
        },
    }
}

/// Renders a transaction kind canonically.
pub fn kind_canonical(k: &TransactionType) -> (r: String)
    ensures
        r@ == canon_kind(k),
{
    match k {
        TransactionType::Transfer { to, amount } => {
            let mut s = "{\"Transfer\":{\"to\":\"".to_owned();
            s.append(to.as_str());
            s.append("\",\"amount\":");
            s.append(u64_to_string(*amount).as_str());
            s.append("}}");
            proof {
                assert(s@ =~= canon_kind(k));
            }
            s
        },
        TransactionType::TokenCreate { name, symbol, total_supply, decimals } => {
            let mut s = "{\"TokenCreate\":{\"name\":\"".to_owned();
            s.append(name.as_str());
            s.append("\",\"symbol\":\"");
            s.append(symbol.as_str());
            s.append("\",\"total_supply\":");
            s.append(u64_to_string(*total_supply).as_str());
            s.append(",\"decimals\":");
            s.append(u64_to_string(*decimals as u64).as_str());
            s.append("}}");
            proof {
                assert(s@ =~= canon_kind(k));
            }
            s
        },
        TransactionType::TokenTransfer { to, amount, token_id } => {
            let mut s = "{\"TokenTransfer\":{\"to\":\"".to_owned();
            s.append(to.as_str());
            s.append("\",\"amount\":");
            s.append(u64_to_string(*amount).as_str());
            s.append(",\"token_id\":\"");
            s.append(token_id.as_str());
            s.append("\"}}");
            proof {
                assert(s@ =~= canon_kind(k));
            }
            s
        },
        TransactionType::Stake { amount, validator, duration } => {
            let mut s = "{\"Stake\":{\"amount\":".to_owned();
            s.append(u64_to_string(*amount).as_str());
            s.append(",\"validator\":\"");
            s.append(validator.as_str());
            s.append("\",\"duration\":");
            s.append(u64_to_string(*duration).as_str());
            s.append("}}");
            proof {
                assert(s@ =~= canon_kind(k));
            }
            s
        },
        TransactionType::TensorCompute {
            operation,
            input_data,
            expected_output_size,
            max_computation_time,
            reward,
        } => {
            let mut s = "{\"TensorCompute\":{\"operation\":\"".to_owned();
            s.append(operation.as_str());
            s.append("\",\"input_data\":");
            s.append(u32_list_string(input_data).as_str());
            s.append(",\"expected_output_size\":");
            s.append(usize_to_string(*expected_output_size).as_str());
            s.append(",\"max_computation_time\":");
            s.append(u64_to_string(*max_computation_time).as_str());
            s.append(",\"reward\":");
            s.append(u64_to_string(*reward).as_str());
            s.append("}}");
            proof {
                assert(s@ =~= canon_kind(k));
            }
            s
        },
        TransactionType::ContractDeploy { code, constructor_args } => {
            let mut s = "{\"ContractDeploy\":{\"code\":".to_owned();
            s.append(u8_list_string(code).as_str());
            s.append(",\"constructor_args\":");
            s.append(u8_list_string(constructor_args).as_str());
            s.append("}}");
            proof {
                assert(s@ =~= canon_kind(k));
            }
            s
        },
        TransactionType::ContractCall { contract_address, method, args, value } => {
            let mut s = "{\"ContractCall\":{\"contract_address\":\"".to_owned();
            s.append(contract_address.as_str());
            s.append("\",\"method\":\"");
            s.append(method.as_str());
            s.append("\",\"args\":");
            s.append(u8_list_string(args).as_str());
            s.append(",\"value\":");
            s.append(u64_to_string(*value).as_str());
            s.append("}}");
            proof {
                assert(s@ =~= canon_kind(k));
            }
            s
        },
    }
}

/// Whether two kinds agree in every observable field.
pub open spec fn kind_equiv(a: &TransactionType, b: &TransactionType) -> bool {
    match (a, b) {
        (
            TransactionType::Transfer { to: t1, amount: a1 },
            TransactionType::Transfer { to: t2, amount: a2 },
        ) => t1@ == t2@ && a1 == a2,
        (
            TransactionType::TokenCreate { name: n1, symbol: s1, total_supply: t1, decimals: d1 },
            TransactionType::TokenCreate { name: n2, symbol: s2, total_supply: t2, decimals: d2 },
        ) => n1@ == n2@ && s1@ == s2@ && t1 == t2 && d1 == d2,
        (
            TransactionType::TokenTransfer { to: t1, amount: a1, token_id: k1 },
            TransactionType::TokenTransfer { to: t2, amount: a2, token_id: k2 },
        ) => t1@ == t2@ && a1 == a2 && k1@ == k2@,
        (
            TransactionType::Stake { amount: a1, validator: v1, duration: d1 },
            TransactionType::Stake { amount: a2, validator: v2, duration: d2 },
        ) => a1 == a2 && v1@ == v2@ && d1 == d2,
        (
            TransactionType::TensorCompute {
                operation: o1,
                input_data: i1,
                expected_output_size: e1,
                max_computation_time: m1,
                reward: r1,
            },
            TransactionType::TensorCompute {
                operation: o2,
                input_data: i2,
                expected_output_size: e2,
                max_computation_time: m2,
                reward: r2,
            },
        ) => o1@ == o2@ && i1@ == i2@ && e1 == e2 && m1 == m2 && r1 == r2,
        (
            TransactionType::ContractDeploy { code: c1, constructor_args: a1 },
            TransactionType::ContractDeploy { code: c2, constructor_args: a2 },
        ) => c1@ == c2@ && a1@ == a2@,
        (
            TransactionType::ContractCall {
                contract_address: c1,
                method: m1,
                args: g1,
                value: v1,
            },
            TransactionType::ContractCall {
                contract_address: c2,
                method: m2,
                args: g2,
                value: v2,
            },
        ) => c1@ == c2@ && m1@ == m2@ && g1@ == g2@ && v1 == v2,
        _ => false,
    }
}

impl Clone for TransactionType {
    /// A clone agrees with the original in every observable field.
    fn clone(&self) -> (r: Self)
        ensures
            kind_equiv(self, &r),
    {
        match self {
            TransactionType::Transfer { to, amount } => TransactionType::Transfer {
                to: to.clone(),
                amount: *amount,
            },
            TransactionType::TokenCreate { name, symbol, total_supply, decimals } => {
                TransactionType::TokenCreate {
                    name: name.clone(),
                    symbol: symbol.clone(),
                    total_supply: *total_supply,
                    decimals: *decimals,
                }
            },
            TransactionType::TokenTransfer { to, amount, token_id } => {
                TransactionType::TokenTransfer {
                    to: to.clone(),
                    amount: *amount,
                    token_id: token_id.clone(),
                }
            },
            TransactionType::Stake { amount, validator, duration } => TransactionType::Stake {
                amount: *amount,
                validator: validator.clone(),
                duration: *duration,
            },
            TransactionType::TensorCompute {
                operation,
                input_data,
                expected_output_size,
                max_computation_time,
                reward,
            } => {
                let data = input_data.clone();
                proof {
                    assert(data@ =~= input_data@);
                }
                TransactionType::TensorCompute {
                    operation: operation.clone(),
                    input_data: data,
                    expected_output_size: *expected_output_size,
                    max_computation_time: *max_computation_time,
                    reward: *reward,
                }
            },
            TransactionType::ContractDeploy { code, constructor_args } => {
                let c = code.clone();
                let a = constructor_args.clone();
                proof {
                    assert(c@ =~= code@);
                    assert(a@ =~= constructor_args@);
                }
                TransactionType::ContractDeploy { code: c, constructor_args: a }
            },
            TransactionType::ContractCall { contract_address, method, args, value } => {
                let a = args.clone();
                proof {
                    assert(a@ =~= args@);
                }
                TransactionType::ContractCall {
                    contract_address: contract_address.clone(),
                    method: method.clone(),
                    args: a,
                    value: *value,
                }
            },
        }
    }
}

/// A transaction. Immutable once built; `hash` is filled by the constructor.
#[derive(Debug)]
pub struct Transaction {
    pub id: String,
    pub from: String,
    pub transaction_type: TransactionType,
    pub fee: u64,
    pub timestamp: u64,
    pub nonce: u64,
    pub signature: String,
    pub hash: String,
}

/// Whether two transactions agree in every observable field.
pub open spec fn tx_equiv(a: &Transaction, b: &Transaction) -> bool {
    &&& a.id@ == b.id@
    &&& a.from@ == b.from@
    &&& kind_equiv(&a.transaction_type, &b.transaction_type)
    &&& a.fee == b.fee
    &&& a.timestamp == b.timestamp
    &&& a.nonce == b.nonce
    &&& a.signature@ == b.signature@
    &&& a.hash@ == b.hash@
}

impl Clone for Transaction {
    /// A clone agrees with the original in every observable field.
    fn clone(&self) -> (r: Self)
        ensures
            tx_equiv(self, &r),
    {
        Transaction {
            id: self.id.clone(),
            from: self.from.clone(),
            transaction_type: self.transaction_type.clone(),
            fee: self.fee,
            timestamp: self.timestamp,
            nonce: self.nonce,
            signature: self.signature.clone(),
            hash: self.hash.clone(),
        }
    }
}

/// Equivalent transactions have the same canonical encoding, and so the
/// same derived hash.
pub proof fn lemma_tx_equiv_canon(a: &Transaction, b: &Transaction)
    requires
        tx_equiv(a, b),
    ensures
        canon_tx(a) == canon_tx(b),
        canon_kind(&a.transaction_type) == canon_kind(&b.transaction_type),
{
}

/// Canonical encoding of a whole transaction: the concatenation of id,
/// sender, encoded kind, fee, timestamp and nonce.
pub open spec fn canon_tx(t: &Transaction) -> Seq<char> {
    t.id@ + t.from@ + canon_kind(&t.transaction_type) + dec_of(t.fee as nat) + dec_of(
        t.timestamp as nat,
    ) + dec_of(t.nonce as nat)
}

impl Transaction {
    /// The hash field equals the SHA-256 of the canonical encoding.
    pub open spec fn hash_ok(&self) -> bool {
        self.hash@ == sha256_hex_of(canon_tx(self))
    }

    /// Structural validity, independent of the clock and of chain state.
    pub open spec fn spec_structurally_valid(&self) -> bool {
        self.hash_ok() && kind_ok(&self.transaction_type)
    }

    /// Full stateless validity at wall-clock second `now`.
    pub open spec fn spec_valid_at(&self, now: u64) -> bool {
        self.spec_structurally_valid() && self.timestamp <= now + TIMESTAMP_TOLERANCE
    }

    /// Builds a transaction from every constituent, deriving the hash.
    pub fn with_details(
        id: String,
        from: String,
        transaction_type: TransactionType,
        fee: u64,
        timestamp: u64,
        nonce: u64,
    ) -> (r: Transaction)
        ensures
            r.id == id,
            r.from == from,
            r.transaction_type == transaction_type,
            r.fee == fee,
            r.timestamp == timestamp,
            r.nonce == nonce,
            r.signature@ == Seq::<char>::empty(),
            r.hash_ok(),
    {
        let mut tx = Transaction {
            id,
            from,
            transaction_type,
            fee,
            timestamp,
            nonce,
            signature: String::new(),
            hash: String::new(),
        };
        tx.hash = tx.calculate_hash();
        tx
    }

    /// Builds a transaction with a fresh random identifier and the current
    /// wall-clock time.
    pub fn new(from: String, transaction_type: TransactionType, fee: u64, nonce: u64) -> (r:
        Transaction)
        ensures
            r.from == from,
            r.transaction_type == transaction_type,
            r.fee == fee,
            r.nonce == nonce,
            r.signature@ == Seq::<char>::empty(),
            r.id@.len() == 36,
            r.hash_ok(),
    {
        let id = new_id();
        let timestamp = now_seconds();
        Transaction::with_details(id, from, transaction_type, fee, timestamp, nonce)
    }

    /// Recomputes the hash from the canonical encoding.
    pub fn calculate_hash(&self) -> (r: String)
        ensures
            r@ == sha256_hex_of(canon_tx(self)),
            r@.len() == 64,
    {
        let mut data = String::new();
        data.append(self.id.as_str());
        data.append(self.from.as_str());
        data.append(kind_canonical(&self.transaction_type).as_str());
        data.append(u64_to_string(self.fee).as_str());
        data.append(u64_to_string(self.timestamp).as_str());
        data.append(u64_to_string(self.nonce).as_str());
        proof {
            assert(data@ =~= canon_tx(self));
        }
        sha256_hex(data.as_str())
    }

    /// Signs the transaction: the signature is the hash of the transaction
    /// hash concatenated with the key.
    pub fn sign(&mut self, private_key: &str) -> (r: TribeResult<()>)
        ensures
            r is Ok,
            final(self).signature@ == sha256_hex_of(old(self).hash@ + private_key@),
            final(self).id == old(self).id,
            final(self).from == old(self).from,
            final(self).transaction_type == old(self).transaction_type,
            final(self).fee == old(self).fee,
            final(self).timestamp == old(self).timestamp,
            final(self).nonce == old(self).nonce,
            final(self).hash == old(self).hash,
    {
        let mut message = String::new();
        message.append(self.hash.as_str());
        message.append(private_key);
        proof {
            assert(message@ =~= self.hash@ + private_key@);
        }
        self.signature = sha256_hex(message.as_str());
        Ok(())
    }

    /// Checks the signature against a key.
    pub fn verify_signature(&self, public_key: &str) -> (r: bool)
        ensures
            r == (self.signature@ == sha256_hex_of(self.hash@ + public_key@)),
    {
        let mut message = String::new();
        message.append(self.hash.as_str());
        message.append(public_key);
        proof {
            assert(message@ =~= self.hash@ + public_key@);
        }
        let expected = sha256_hex(message.as_str());
        self.signature == expected
    }

    /// Stateless validation against an explicit clock reading.
    pub fn validate_at(&self, now: u64) -> (r: bool)
        ensures
            r == self.spec_valid_at(now),
    {
        let computed = self.calculate_hash();
        if !(self.hash == computed) {
            return false;
        }
        if self.timestamp > now && self.timestamp - now > TIMESTAMP_TOLERANCE {
            return false;
        }
        self.kind_fields_ok()
    }

    /// Stateless validation against the wall clock. Whatever the clock
    /// read, a `true` outcome implies structural validity, and a
    /// structurally valid transaction whose timestamp no clock can reject
    /// is owed `true`.
    pub fn validate(&self) -> (r: TribeResult<bool>)
        ensures
            r is Ok,
            r matches Ok(b) ==> (b ==> self.spec_structurally_valid()),
            r matches Ok(b) ==> ((self.spec_structurally_valid() && self.timestamp
                <= TIMESTAMP_TOLERANCE) ==> b),
    {
        let now = now_seconds();
        Ok(self.validate_at(now))
    }

    /// Kind-specific positivity checks.
    pub fn kind_fields_ok(&self) -> (r: bool)
        ensures
            r == kind_ok(&self.transaction_type),
    {
        match &self.transaction_type {
            TransactionType::Transfer { amount, .. } => *amount > 0,
            TransactionType::TokenCreate { total_supply, decimals, .. } => {
                *total_supply > 0 && *decimals <= 18
            },
            TransactionType::TokenTransfer { amount, .. } => *amount > 0,
            TransactionType::Stake { amount, duration, .. } => *amount > 0 && *duration > 0,
            TransactionType::TensorCompute { input_data, expected_output_size, .. } => {
                input_data.len() > 0 && *expected_output_size > 0
            },
            TransactionType::ContractDeploy { code, .. } => code.len() > 0,
            TransactionType::ContractCall { contract_address, method, .. } => {
                !contract_address.as_str().is_empty() && !method.as_str().is_empty()
            },
        }
    }

    /// Whether this is a tensor-computation request.
    pub fn is_tensor_compute(&self) -> (r: bool)
        ensures
            r == (self.transaction_type is TensorCompute),
    {
        match &self.transaction_type {
            TransactionType::TensorCompute { .. } => true,
            _ => false,
        }
    }

    /// The tensor-computation fields, when this is such a request.
    pub fn get_tensor_compute_details(&self) -> (r: Option<
        (&String, &Vec<u32>, usize, u64, u64),
    >)
        ensures
            match r {
                Some(d) => self.transaction_type matches TransactionType::TensorCompute {
                    operation,
                    input_data,
                    expected_output_size,
                    max_computation_time,
                    reward,
                } && d.0 == operation && d.1 == input_data && d.2 == expected_output_size && d.3
                    == max_computation_time && d.4 == reward,
                None => !(self.transaction_type is TensorCompute),
            },
    {
        if let TransactionType::TensorCompute {
            operation,
            input_data,
            expected_output_size,
            max_computation_time,
            reward,
        } = &self.transaction_type {
            Some((operation, input_data, *expected_output_size, *max_computation_time, *reward))
        } else {
            None
        }
    }
}

} // verus!
