//! Smart-contract records: contracts, their metadata, method and event
//! signatures, deployments, calls and upgrade proposals.

use vstd::prelude::*;
use crate::errors::{TribeError, TribeResult};

verus! {

use vstd::string::StringExecFns;

/// The contract families the chain hosts.
#[derive(Debug, Clone, Copy, PartialEq, Eq, Structural)]
pub enum ContractType {
    Token,
    Staking,
    Liquidity,
    TensorCompute,
    Custom,
}

/// Parameter types of the ABI.
#[derive(Debug)]
pub enum ParameterType {
    Uint8,
    Uint16,
    Uint32,
    Uint64,
    Uint128,
    Uint256,
    Int8,
    Int16,
    Int32,
    Int64,
    Int128,
    Int256,
    Bool,
    String,
    Bytes,
    Address,
    Array(Box<ParameterType>),
    Tuple(Vec<ParameterType>),
}

/// One ABI parameter.
#[derive(Debug)]
pub struct Parameter {
    pub name: String,
    pub param_type: ParameterType,
    pub indexed: bool,
}

impl Parameter {
    pub fn new(name: String, param_type: ParameterType) -> (r: Self)
        ensures
            r.name == name,
            r.param_type == param_type,
            !r.indexed,
    {
        Self { name, param_type, indexed: false }
    }

    pub fn indexed(self) -> (r: Self)
        ensures
            r.name == self.name,
            r.param_type == self.param_type,
            r.indexed,
    {
        let mut p = self;
        p.indexed = true;
        p
    }
}

/// One ABI method.
#[derive(Debug)]
pub struct MethodSignature {
    pub name: String,
    pub inputs: Vec<Parameter>,
    pub outputs: Vec<Parameter>,
    pub is_payable: bool,
    pub is_view: bool,
    pub gas_estimate: u64,
}

impl MethodSignature {
    pub fn new(name: String, inputs: Vec<Parameter>, outputs: Vec<Parameter>) -> (r: Self)
        ensures
            r.name == name,
            r.inputs == inputs,
            r.outputs == outputs,
            !r.is_payable,
            !r.is_view,
            r.gas_estimate == 21000,
    {
        Self { name, inputs, outputs, is_payable: false, is_view: false, gas_estimate: 21000 }
    }

    pub fn payable(self) -> (r: Self)
        ensures
            r == (MethodSignature { is_payable: true, ..self }),
    {
        let mut m = self;
        m.is_payable = true;
        m
    }

    pub fn view(self) -> (r: Self)
        ensures
            r == (MethodSignature { is_view: true, ..self }),
    {
        let mut m = self;
        m.is_view = true;
        m
    }

    pub fn with_gas_estimate(self, gas: u64) -> (r: Self)
        ensures
            r == (MethodSignature { gas_estimate: gas, ..self }),
    {
        let mut m = self;
        m.gas_estimate = gas;
        m
    }
}

/// One ABI event.
#[derive(Debug)]
pub struct EventSignature {
    pub name: String,
    pub inputs: Vec<Parameter>,
    pub anonymous: bool,
}

impl EventSignature {
    pub fn new(name: String, inputs: Vec<Parameter>) -> (r: Self)
        ensures
            r.name == name,
            r.inputs == inputs,
            !r.anonymous,
    {
        Self { name, inputs, anonymous: false }
    }

    pub fn anonymous(self) -> (r: Self)
        ensures
            r == (EventSignature { anonymous: true, ..self }),
    {
        let mut e = self;
        e.anonymous = true;
        e
    }
}

/// A contract's descriptive metadata and ABI.
#[derive(Debug)]
pub struct ContractMetadata {
    pub name: String,
    pub description: String,
    pub version: String,
    pub author: String,
    pub license: String,
    pub source_url: Option<String>,
    pub abi: Vec<MethodSignature>,
    pub events: Vec<EventSignature>,
}

impl Default for ContractMetadata {
    /// Placeholder metadata for contracts deployed without any.
    fn default() -> (r: Self)
        ensures
            r.name@ == "Unknown"@,
            r.version@ == "1.0.0"@,
            r.license@ == "MIT"@,
            r.source_url is None,
            r.abi@.len() == 0,
            r.events@.len() == 0,
    {
        Self {
            name: String::from_str("Unknown"),
            description: String::from_str("No description provided"),
            version: String::from_str("1.0.0"),
            author: String::from_str("Unknown"),
            license: String::from_str("MIT"),
            source_url: None,
            abi: Vec::new(),
            events: Vec::new(),
        }
    }
}

/// A contract's live state.
#[derive(Debug)]
pub struct ContractState {
    pub is_active: bool,
    pub is_paused: bool,
    pub owner: String,
    pub balance: u64,
    pub storage_size: usize,
    pub last_updated: u64,
    pub execution_count: u64,
    pub gas_consumed: u64,
}

/// A deployed contract.
#[derive(Debug)]
pub struct Contract {
    pub address: String,
    pub contract_type: ContractType,
    pub code: Vec<u8>,
    pub constructor_args: Vec<u8>,
    pub deployer: String,
    pub deployed_at: u64,
    pub version: String,
    pub metadata: ContractMetadata,
    pub state: ContractState,
}

impl Contract {
    /// A fresh active contract owned by its deployer.
    pub fn new(
        address: String,
        contract_type: ContractType,
        code: Vec<u8>,
        constructor_args: Vec<u8>,
        deployer: String,
    ) -> (r: Self)
        ensures
            r.address == address,
            r.contract_type == contract_type,
            r.code == code,
            r.constructor_args == constructor_args,
            r.deployer == deployer,
            r.state.is_active,
            !r.state.is_paused,
            r.state.owner@ == deployer@,
            r.state.balance == 0,
            r.state.execution_count == 0,
            r.state.gas_consumed == 0,
    {
        let owner = deployer.clone();
        let now = crate::runtime::now_seconds();
        Self {
            address,
            contract_type,
            code,
            constructor_args,
            deployer,
            deployed_at: now,
            version: String::from_str("1.0.0"),
            metadata: ContractMetadata::default(),
            state: ContractState {
                is_active: true,
                is_paused: false,
                owner,
                balance: 0,
                storage_size: 0,
                last_updated: now,
                execution_count: 0,
                gas_consumed: 0,
            },
        }
    }

    /// Whether calls are currently accepted.
    pub fn is_callable(&self) -> (r: bool)
        ensures
            r == (self.state.is_active && !self.state.is_paused),
    {
        self.state.is_active && !self.state.is_paused
    }

    /// Pauses the contract; only the owner may.
    pub fn pause(&mut self, caller: &str) -> (r: TribeResult<()>)
        ensures
            r is Ok <==> caller@ == old(self).state.owner@,
            r is Ok ==> final(self).state.is_paused && final(self).state.is_active == old(
                self,
            ).state.is_active && final(self).state.owner == old(self).state.owner,
            r is Err ==> *final(self) == *old(self),
    {
        let caller_owned = String::from_str(caller);
        if !(caller_owned == self.state.owner) {
            return Err(TribeError::InvalidOperation(String::from_str(
                "only the owner can pause a contract",
            )));
        }
        self.state.is_paused = true;
        self.state.last_updated = crate::runtime::now_seconds();
        Ok(())
    }

    /// Resumes the contract; only the owner may.
    pub fn resume(&mut self, caller: &str) -> (r: TribeResult<()>)
        ensures
            r is Ok <==> caller@ == old(self).state.owner@,
            r is Ok ==> !final(self).state.is_paused && final(self).state.is_active == old(
                self,
            ).state.is_active && final(self).state.owner == old(self).state.owner,
            r is Err ==> *final(self) == *old(self),
    {
        let caller_owned = String::from_str(caller);
        if !(caller_owned == self.state.owner) {
            return Err(TribeError::InvalidOperation(String::from_str(
                "only the owner can resume a contract",
            )));
        }
        self.state.is_paused = false;
        self.state.last_updated = crate::runtime::now_seconds();
        Ok(())
    }

    /// Hands ownership to another address; only the current owner may.
    pub fn transfer_ownership(&mut self, current_owner: &str, new_owner: String) -> (r:
        TribeResult<()>)
        ensures
            r is Ok <==> current_owner@ == old(self).state.owner@,
            r is Ok ==> final(self).state.owner == new_owner,
            r is Err ==> *final(self) == *old(self),
    {
        let caller_owned = String::from_str(current_owner);
        if !(caller_owned == self.state.owner) {
            return Err(TribeError::InvalidOperation(String::from_str(
                "only the current owner can transfer ownership",
            )));
        }
        self.state.owner = new_owner;
        self.state.last_updated = crate::runtime::now_seconds();
        Ok(())
    }

    /// Records one execution.
    pub fn update_execution_stats(&mut self, gas_used: u64)
        requires
            old(self).state.execution_count + 1 <= u64::MAX,
            old(self).state.gas_consumed + gas_used <= u64::MAX,
        ensures
            final(self).state.execution_count == old(self).state.execution_count + 1,
            final(self).state.gas_consumed == old(self).state.gas_consumed + gas_used,
    {
        self.state.execution_count = self.state.execution_count + 1;
        self.state.gas_consumed = self.state.gas_consumed + gas_used;
        self.state.last_updated = crate::runtime::now_seconds();
    }

    /// Whether the contract's family answers to a named interface.
    pub fn supports_interface(&self, interface_id: &str) -> (r: bool)
        ensures
            r == ((interface_id@ == "ERC20"@ && self.contract_type is Token) || (interface_id@
                == "Staking"@ && self.contract_type is Staking) || (interface_id@ == "Liquidity"@
                && self.contract_type is Liquidity) || (interface_id@ == "TensorCompute"@
                && self.contract_type is TensorCompute)),
    {
        proof {
            reveal_strlit("ERC20");
            reveal_strlit("Staking");
            reveal_strlit("Liquidity");
            reveal_strlit("TensorCompute");
            assert("ERC20"@.len() == 5);
            assert("Staking"@.len() == 7);
            assert("Liquidity"@.len() == 9);
            assert("TensorCompute"@.len() == 13);
        }
        let id = String::from_str(interface_id);
        if id == String::from_str("ERC20") {
            matches!(self.contract_type, ContractType::Token)
        } else if id == String::from_str("Staking") {
            matches!(self.contract_type, ContractType::Staking)
        } else if id == String::from_str("Liquidity") {
            matches!(self.contract_type, ContractType::Liquidity)
        } else if id == String::from_str("TensorCompute") {
            matches!(self.contract_type, ContractType::TensorCompute)
        } else {
            false
        }
    }
}

/// A request to deploy a contract.
#[derive(Debug)]
pub struct ContractDeployment {
    pub contract_type: ContractType,
    pub code: Vec<u8>,
    pub constructor_args: Vec<u8>,
    pub deployer: String,
    pub gas_limit: Option<u64>,
    pub value: u64,
    pub metadata: ContractMetadata,
    pub salt: Option<Vec<u8>>,
}

impl ContractDeployment {
    pub fn new(contract_type: ContractType, code: Vec<u8>, deployer: String) -> (r: Self)
        ensures
            r.contract_type == contract_type,
            r.code == code,
            r.constructor_args@.len() == 0,
            r.deployer == deployer,
            r.gas_limit is None,
            r.value == 0,
            r.salt is None,
    {
        Self {
            contract_type,
            code,
            constructor_args: Vec::new(),
            deployer,
            gas_limit: None,
            value: 0,
            metadata: ContractMetadata::default(),
            salt: None,
        }
    }

    pub fn with_constructor_args(self, args: Vec<u8>) -> (r: Self)
        ensures
            r == (ContractDeployment { constructor_args: args, ..self }),
    {
        let mut d = self;
        d.constructor_args = args;
        d
    }

    pub fn with_gas_limit(self, gas_limit: u64) -> (r: Self)
        ensures
            r == (ContractDeployment { gas_limit: Some(gas_limit), ..self }),
    {
        let mut d = self;
        d.gas_limit = Some(gas_limit);
        d
    }

    pub fn with_value(self, value: u64) -> (r: Self)
        ensures
            r == (ContractDeployment { value, ..self }),
    {
        let mut d = self;
        d.value = value;
        d
    }

    pub fn with_metadata(self, metadata: ContractMetadata) -> (r: Self)
        ensures
            r == (ContractDeployment { metadata, ..self }),
    {
        let mut d = self;
        d.metadata = metadata;
        d
    }

    pub fn with_salt(self, salt: Vec<u8>) -> (r: Self)
        ensures
            r == (ContractDeployment { salt: Some(salt), ..self }),
    {
        let mut d = self;
        d.salt = Some(salt);
        d
    }

    /// Structural checks: code present, deployer named, code bounded.
    pub fn validate(&self) -> (r: TribeResult<()>)
        ensures
            r is Ok <==> (self.code@.len() > 0 && self.deployer@.len() > 0 && self.code@.len()
                <= 1048576),
    {
        if self.code.len() == 0 {
            return Err(TribeError::InvalidOperation(String::from_str(
                "contract code cannot be empty",
            )));
        }
        if self.deployer.as_str().is_empty() {
            return Err(TribeError::InvalidOperation(String::from_str(
                "deployer address cannot be empty",
            )));
        }
        if self.code.len() > 1048576 {
            return Err(TribeError::InvalidOperation(String::from_str(
                "contract code too large",
            )));
        }
        Ok(())
    }
}

/// A call into a deployed contract.
#[derive(Debug)]
pub struct ContractCall {
    pub contract_address: String,
    pub method: String,
    pub args: Vec<u8>,
    pub caller: String,
    pub value: u64,
    pub gas_limit: Option<u64>,
    pub nonce: u64,
}

impl ContractCall {
    pub fn new(contract_address: String, method: String, args: Vec<u8>, caller: String) -> (r:
        Self)
        ensures
            r.contract_address == contract_address,
            r.method == method,
            r.args == args,
            r.caller == caller,
            r.value == 0,
            r.gas_limit is None,
            r.nonce == 0,
    {
        Self { contract_address, method, args, caller, value: 0, gas_limit: None, nonce: 0 }
    }

    pub fn with_value(self, value: u64) -> (r: Self)
        ensures
            r == (ContractCall { value, ..self }),
    {
        let mut c = self;
        c.value = value;
        c
    }

    pub fn with_gas_limit(self, gas_limit: u64) -> (r: Self)
        ensures
            r == (ContractCall { gas_limit: Some(gas_limit), ..self }),
    {
        let mut c = self;
        c.gas_limit = Some(gas_limit);
        c
    }

    pub fn with_nonce(self, nonce: u64) -> (r: Self)
        ensures
            r == (ContractCall { nonce, ..self }),
    {
        let mut c = self;
        c.nonce = nonce;
        c
    }

    /// Structural checks: address, method and caller all named.
    pub fn validate(&self) -> (r: TribeResult<()>)
        ensures
            r is Ok <==> (self.contract_address@.len() > 0 && self.method@.len() > 0
                && self.caller@.len() > 0),
    {
        if self.contract_address.as_str().is_empty() {
            return Err(TribeError::InvalidOperation(String::from_str(
                "contract address cannot be empty",
            )));
        }
        if self.method.as_str().is_empty() {
            return Err(TribeError::InvalidOperation(String::from_str(
                "method name cannot be empty",
            )));
        }
        if self.caller.as_str().is_empty() {
            return Err(TribeError::InvalidOperation(String::from_str(
                "caller address cannot be empty",
            )));
        }
        Ok(())
    }
}

/// Status of an upgrade proposal.
#[derive(Debug, Clone, Copy, PartialEq, Eq, Structural)]
pub enum UpgradeStatus {
    Proposed,
    Voting,
    Approved,
    Rejected,
    Executed,
    Failed,
}

/// A proposal to replace a contract's code.
#[derive(Debug)]
pub struct ContractUpgrade {
    pub contract_address: String,
    pub new_code: Vec<u8>,
    pub migration_data: Vec<u8>,
    pub proposer: String,
    pub voting_period_seconds: u64,
    pub required_votes: u64,
    pub current_votes: u64,
    pub status: UpgradeStatus,
}

} // verus!
