//! The contract virtual machine: gas accounting, execution dispatch by
//! contract family, and execution statistics.

use vstd::prelude::*;
use crate::contracts::{Contract, ContractCall, ContractDeployment, ContractType};
use crate::errors::{TribeError, TribeResult};
use crate::hashing::sha256_hex_of;

verus! {

use vstd::string::StringExecFns;

/// The machine's execution state.
#[derive(Debug, Clone)]
pub enum VMState {
    Ready,
    Running,
    Paused,
    Completed,
    Error(String),
    OutOfGas,
    Timeout,
}

impl PartialEq for VMState {
    fn eq(&self, other: &Self) -> (r: bool) {
        match (self, other) {
            (VMState::Ready, VMState::Ready) => true,
            (VMState::Running, VMState::Running) => true,
            (VMState::Paused, VMState::Paused) => true,
            (VMState::Completed, VMState::Completed) => true,
            (VMState::Error(a), VMState::Error(b)) => *a == *b,
            (VMState::OutOfGas, VMState::OutOfGas) => true,
            (VMState::Timeout, VMState::Timeout) => true,
            _ => false,
        }
    }
}

impl vstd::std_specs::cmp::PartialEqSpecImpl for VMState {
    open spec fn obeys_eq_spec() -> bool {
        true
    }

    open spec fn eq_spec(&self, other: &Self) -> bool {
        match (self, other) {
            (VMState::Ready, VMState::Ready) => true,
            (VMState::Running, VMState::Running) => true,
            (VMState::Paused, VMState::Paused) => true,
            (VMState::Completed, VMState::Completed) => true,
            (VMState::Error(a), VMState::Error(b)) => a@ == b@,
            (VMState::OutOfGas, VMState::OutOfGas) => true,
            (VMState::Timeout, VMState::Timeout) => true,
            _ => false,
        }
    }
}

/// The machine's failure kinds.
#[derive(Debug, Clone)]
pub enum VMError {
    OutOfGas,
    StackOverflow,
    InvalidOpcode,
    InvalidMemoryAccess,
    InvalidStorageAccess,
    ContractNotFound,
    MethodNotFound,
    InvalidArguments,
    ExecutionTimeout,
    SecurityViolation(String),
    InternalError(String),
}

/// One frame of the call stack.
#[derive(Debug, Clone)]
pub struct ExecutionFrame {
    pub contract_address: String,
    pub method: String,
    pub args: Vec<u8>,
    pub gas_limit: u64,
    pub gas_used: u64,
    pub return_data: Option<Vec<u8>>,
}

/// One emitted event.
#[derive(Debug, Clone)]
pub struct LogEntry {
    pub contract_address: String,
    pub topics: Vec<String>,
    pub data: Vec<u8>,
    pub timestamp: u64,
}

/// Outcome of one execution.
#[derive(Debug, Clone)]
pub struct ExecutionResult {
    pub success: bool,
    pub return_data: Vec<u8>,
    pub gas_used: u64,
    pub error: Option<String>,
    pub logs: Vec<LogEntry>,
    pub execution_time_ms: u64,
}

/// Cumulative statistics.
#[derive(Debug, Clone)]
pub struct VMStats {
    pub total_executions: u64,
    pub successful_executions: u64,
    pub failed_executions: u64,
    pub total_gas_used: u64,
    pub contracts_deployed: u64,
}

/// The address derived for a deployment: named, not spelled out, since it
/// is a digest of the deployer, the code and the deployment counter.
pub uninterp spec fn contract_address_of(deployer: Seq<char>, code: Seq<u8>, counter: u64) -> Seq<
    char,
>;

/// Relies on `sha2::Sha256` and `hex::encode`: the address is the
/// lowercase hex of the first twenty digest bytes of deployer, code and
/// counter, so it has forty characters and depends on those inputs alone.
#[verifier::external_body]
fn derive_contract_address(deployer: &str, code: &Vec<u8>, counter: u64) -> (r: String)
    ensures
        r@ == contract_address_of(deployer@, code@, counter),
        r@.len() == 40,
{
    let mut hasher = <sha2::Sha256 as sha2::Digest>::new();
    sha2::Digest::update(&mut hasher, deployer.as_bytes());
    sha2::Digest::update(&mut hasher, code.as_slice());
    sha2::Digest::update(&mut hasher, &counter.to_le_bytes());
    let digest = sha2::Digest::finalize(hasher);
    hex::encode(&digest[..20])
}

/// The gas one method call of a contract family costs.
pub open spec fn spec_method_gas(contract_type: ContractType, method: Seq<char>, args_len: int) -> int {
    match contract_type {
        ContractType::Token => {
            if method == "transfer"@ {
                21000
            } else if method == "approve"@ {
                15000
            } else if method == "mint"@ {
                30000
            } else if method == "burn"@ {
                25000
            } else {
                10000
            }
        },
        ContractType::Staking => {
            if method == "stake"@ {
                50000
            } else if method == "unstake"@ {
                40000
            } else if method == "claim_rewards"@ {
                30000
            } else if method == "delegate"@ {
                35000
            } else {
                20000
            }
        },
        ContractType::Liquidity => {
            if method == "add_liquidity"@ {
                60000
            } else if method == "remove_liquidity"@ {
                50000
            } else if method == "swap"@ {
                40000
            } else if method == "get_price"@ {
                5000
            } else {
                25000
            }
        },
        ContractType::TensorCompute => {
            if method == "submit_task"@ {
                100000
            } else if method == "validate_result"@ {
                80000
            } else if method == "distribute_rewards"@ {
                60000
            } else if method == "get_task_status"@ {
                10000
            } else {
                50000
            }
        },
        ContractType::Custom => 20000 + args_len * 100,
    }
}

/// The contract virtual machine.
#[derive(Debug)]
pub struct ContractVM {
    pub state: VMState,
    pub gas_limit: u64,
    pub gas_used: u64,
    pub execution_stack: Vec<ExecutionFrame>,
    pub memory: Vec<u8>,
    pub call_depth: usize,
    pub max_call_depth: usize,
    pub execution_timeout_ms: u64,
    pub stats: VMStats,
}

impl ContractVM {
    /// A fresh machine: ready, with the stock gas limit.
    pub fn new() -> (r: Self)
        ensures
            r.state is Ready,
            r.gas_limit == 1000000,
            r.gas_used == 0,
            r.execution_stack@.len() == 0,
            r.call_depth == 0,
            r.max_call_depth == 10,
            r.execution_timeout_ms == 30000,
            r.stats.total_executions == 0,
            r.stats.successful_executions == 0,
            r.stats.failed_executions == 0,
            r.stats.total_gas_used == 0,
            r.stats.contracts_deployed == 0,
    {
        Self {
            state: VMState::Ready,
            gas_limit: 1000000,
            gas_used: 0,
            execution_stack: Vec::new(),
            memory: Vec::new(),
            call_depth: 0,
            max_call_depth: 10,
            execution_timeout_ms: 30000,
            stats: VMStats {
                total_executions: 0,
                successful_executions: 0,
                failed_executions: 0,
                total_gas_used: 0,
                contracts_deployed: 0,
            },
        }
    }

    /// Burns `amount` gas: succeeds, adding it to the meter, exactly when
    /// the limit is not crossed; otherwise the machine enters the
    /// out-of-gas state and the meter is unchanged.
    pub fn consume_gas(&mut self, amount: u64) -> (r: bool)
        ensures
            r == (old(self).gas_used + amount <= old(self).gas_limit),
            r ==> final(self).gas_used == old(self).gas_used + amount && final(self).state == old(
                self,
            ).state,
            !r ==> final(self).gas_used == old(self).gas_used && final(self).state is OutOfGas,
            final(self).gas_limit == old(self).gas_limit,
            final(self).stats == old(self).stats,
            final(self).execution_stack == old(self).execution_stack,
            final(self).call_depth == old(self).call_depth,
    {
        if amount > self.gas_limit || self.gas_used > self.gas_limit - amount {
            self.state = VMState::OutOfGas;
            false
        } else {
            self.gas_used = self.gas_used + amount;
            true
        }
    }

    /// Executes one method call: burns the family's gas price for the
    /// method and reports success exactly when the gas sufficed.
    pub fn call(&mut self, contract: &Contract, call: ContractCall) -> (r: TribeResult<
        ExecutionResult,
    >)
        requires
            old(self).stats.total_executions < u64::MAX,
            old(self).stats.successful_executions < u64::MAX,
            old(self).stats.failed_executions < u64::MAX,
            old(self).stats.total_gas_used + (match call.gas_limit {
                Some(g) => g as int,
                None => 1000000int,
            }) <= u64::MAX,
            spec_method_gas(contract.contract_type, call.method@, call.args@.len() as int)
                <= u64::MAX,
        ensures
            r matches Ok(res) && {
                let budget = match call.gas_limit {
                    Some(g) => g as int,
                    None => 1000000int,
                };
                let cost = spec_method_gas(
                    contract.contract_type,
                    call.method@,
                    call.args@.len() as int,
                );
                &&& res.success == (cost <= budget)
                &&& (res.success ==> res.gas_used == cost)
                &&& final(self).gas_limit == budget
                &&& (res.success ==> final(self).state is Completed)
                &&& (!res.success ==> final(self).state is OutOfGas)
                &&& final(self).stats.total_executions == old(self).stats.total_executions + 1
                &&& (res.success ==> final(self).stats.successful_executions == old(
                    self,
                ).stats.successful_executions + 1)
                &&& (!res.success ==> final(self).stats.failed_executions == old(
                    self,
                ).stats.failed_executions + 1)
            },
    {
        self.state = VMState::Running;
        self.gas_used = 0;
        self.call_depth = 0;
        self.gas_limit = match call.gas_limit {
            Some(g) => g,
            None => 1000000,
        };
        let cost = Self::method_gas(contract, &call);
        let ok = self.consume_gas(cost);
        let now = crate::runtime::now_seconds();
        let mut logs: Vec<LogEntry> = Vec::new();
        let result = if ok {
            let mut topics: Vec<String> = Vec::new();
            topics.push(call.method.clone());
            let data = call.args.clone();
            logs.push(
                LogEntry {
                    contract_address: call.contract_address.clone(),
                    topics,
                    data,
                    timestamp: now,
                },
            );
            let mut return_data: Vec<u8> = Vec::new();
            return_data.push(1);
            ExecutionResult {
                success: true,
                return_data,
                gas_used: self.gas_used,
                error: None,
                logs,
                execution_time_ms: 0,
            }
        } else {
            ExecutionResult {
                success: false,
                return_data: Vec::new(),
                gas_used: self.gas_used,
                error: Some(String::from_str("out of gas")),
                logs,
                execution_time_ms: 0,
            }
        };
        self.stats.total_executions = self.stats.total_executions + 1;
        if result.success {
            self.stats.successful_executions = self.stats.successful_executions + 1;
        } else {
            self.stats.failed_executions = self.stats.failed_executions + 1;
        }
        self.stats.total_gas_used = self.stats.total_gas_used + result.gas_used;
        self.state = if result.success {
            VMState::Completed
        } else {
            VMState::OutOfGas
        };
        Ok(result)
    }

    /// The gas price of one method call.
    fn method_gas(contract: &Contract, call: &ContractCall) -> (r: u64)
        requires
            spec_method_gas(contract.contract_type, call.method@, call.args@.len() as int)
                <= u64::MAX,
        ensures
            r == spec_method_gas(contract.contract_type, call.method@, call.args@.len() as int),
    {
        match contract.contract_type {
            ContractType::Token => {
                if call.method == String::from_str("transfer") {
                    21000
                } else if call.method == String::from_str("approve") {
                    15000
                } else if call.method == String::from_str("mint") {
                    30000
                } else if call.method == String::from_str("burn") {
                    25000
                } else {
                    10000
                }
            },
            ContractType::Staking => {
                if call.method == String::from_str("stake") {
                    50000
                } else if call.method == String::from_str("unstake") {
                    40000
                } else if call.method == String::from_str("claim_rewards") {
                    30000
                } else if call.method == String::from_str("delegate") {
                    35000
                } else {
                    20000
                }
            },
            ContractType::Liquidity => {
                if call.method == String::from_str("add_liquidity") {
                    60000
                } else if call.method == String::from_str("remove_liquidity") {
                    50000
                } else if call.method == String::from_str("swap") {
                    40000
                } else if call.method == String::from_str("get_price") {
                    5000
                } else {
                    25000
                }
            },
            ContractType::TensorCompute => {
                if call.method == String::from_str("submit_task") {
                    100000
                } else if call.method == String::from_str("validate_result") {
                    80000
                } else if call.method == String::from_str("distribute_rewards") {
                    60000
                } else if call.method == String::from_str("get_task_status") {
                    10000
                } else {
                    50000
                }
            },
            ContractType::Custom => {
                20000 + (call.args.len() as u64) * 100
            },
        }
    }

    /// Deploys a contract: validates the request, derives the address and
    /// counts the deployment. Fails exactly when the request is invalid.
    pub fn deploy(&mut self, deployment: ContractDeployment) -> (r: TribeResult<String>)
        requires
            old(self).stats.contracts_deployed < u64::MAX,
            old(self).stats.total_executions < u64::MAX,
            old(self).stats.successful_executions < u64::MAX,
        ensures
            r is Ok <==> (deployment.code@.len() > 0 && deployment.deployer@.len() > 0
                && deployment.code@.len() <= 1048576),
            r matches Ok(addr) ==> {
                &&& addr@ == contract_address_of(
                    deployment.deployer@,
                    deployment.code@,
                    old(self).stats.contracts_deployed,
                )
                &&& addr@.len() == 40
                &&& final(self).stats.contracts_deployed == old(self).stats.contracts_deployed + 1
                &&& final(self).state is Completed
            },
    {
        self.state = VMState::Running;
        self.gas_used = 0;
        match deployment.validate() {
            Ok(()) => {},
            Err(e) => {
                self.state = VMState::Error(String::from_str("invalid deployment"));
                return Err(e);
            },
        }
        let address = derive_contract_address(
            deployment.deployer.as_str(),
            &deployment.code,
            self.stats.contracts_deployed,
        );
        self.stats.contracts_deployed = self.stats.contracts_deployed + 1;
        self.stats.total_executions = self.stats.total_executions + 1;
        self.stats.successful_executions = self.stats.successful_executions + 1;
        self.state = VMState::Completed;
        Ok(address)
    }

    /// The cumulative statistics.
    pub fn get_stats(&self) -> (r: &VMStats)
        ensures
            r == &self.stats,
    {
        &self.stats
    }

    /// Returns the machine to the ready state, clearing the meter, the
    /// stack and the memory; the statistics survive.
    pub fn reset(&mut self)
        ensures
            final(self).state is Ready,
            final(self).gas_used == 0,
            final(self).execution_stack@.len() == 0,
            final(self).memory@.len() == 0,
            final(self).call_depth == 0,
            final(self).stats == old(self).stats,
            final(self).gas_limit == old(self).gas_limit,
            final(self).max_call_depth == old(self).max_call_depth,
            final(self).execution_timeout_ms == old(self).execution_timeout_ms,
    {
        self.state = VMState::Ready;
        self.gas_used = 0;
        self.execution_stack.clear();
        self.memory.clear();
        self.call_depth = 0;
    }

    /// Sets the gas limit for subsequent executions.
    pub fn set_gas_limit(&mut self, limit: u64)
        ensures
            final(self).gas_limit == limit,
            final(self).gas_used == old(self).gas_used,
            final(self).state == old(self).state,
            final(self).stats == old(self).stats,
    {
        self.gas_limit = limit;
    }

    /// Sets the execution timeout, in milliseconds.
    pub fn set_execution_timeout(&mut self, timeout_ms: u64)
        ensures
            final(self).execution_timeout_ms == timeout_ms,
            final(self).gas_limit == old(self).gas_limit,
            final(self).gas_used == old(self).gas_used,
            final(self).state == old(self).state,
            final(self).stats == old(self).stats,
    {
        self.execution_timeout_ms = timeout_ms;
    }

    /// Gas burned across every execution.
    pub fn total_gas_used(&self) -> (r: u64)
        ensures
            r == self.stats.total_gas_used,
    {
        self.stats.total_gas_used
    }

    /// Number of successful executions.
    pub fn successful_executions(&self) -> (r: u64)
        ensures
            r == self.stats.successful_executions,
    {
        self.stats.successful_executions
    }

    /// Number of failed executions.
    pub fn failed_executions(&self) -> (r: u64)
        ensures
            r == self.stats.failed_executions,
    {
        self.stats.failed_executions
    }
}

} // verus!
