//! Miner records: hardware classes, their capability profiles and running
//! statistics.

use vstd::prelude::*;
use crate::errors::{TribeError, TribeResult};

verus! {

use vstd::string::StringExecFns;

/// The supported miner hardware classes.
#[derive(Debug, Clone, Copy, PartialEq, Eq, Structural)]
pub enum MinerType {
    CPU,
    GPU,
    ASIC,
    ESP32,
    ESP8266,
    AI3Tensor,
}

/// What a miner can do.
#[derive(Debug)]
pub struct MinerCapabilities {
    pub hash_rate: u64,
    pub power_consumption: u32,
    pub supports_ai3: bool,
    pub max_tensor_size: usize,
    pub supported_operations: Vec<String>,
    pub memory_limit: usize,
    pub compute_units: u32,
}

/// A miner's running statistics.
#[derive(Debug, Clone, Copy)]
pub struct MinerStats {
    pub blocks_mined: u64,
    pub total_hash_attempts: u64,
    pub successful_hashes: u64,
    pub uptime: u64,
    pub last_block_time: Option<u64>,
    pub earnings: u64,
}

impl Default for MinerStats {
    /// All counters at zero.
    fn default() -> (r: Self)
        ensures
            r.blocks_mined == 0,
            r.total_hash_attempts == 0,
            r.successful_hashes == 0,
            r.uptime == 0,
            r.last_block_time is None,
            r.earnings == 0,
    {
        Self {
            blocks_mined: 0,
            total_hash_attempts: 0,
            successful_hashes: 0,
            uptime: 0,
            last_block_time: None,
            earnings: 0,
        }
    }
}

/// A miner.
#[derive(Debug)]
pub struct Miner {
    pub id: String,
    pub address: String,
    pub miner_type: MinerType,
    pub capabilities: MinerCapabilities,
    pub stats: MinerStats,
    pub is_active: bool,
    pub created_at: u64,
    pub last_seen: u64,
}

/// The hash rate a hardware class is assumed to sustain.
pub open spec fn spec_class_hash_rate(t: MinerType) -> int {
    match t {
        MinerType::CPU => 1000,
        MinerType::GPU => 50000,
        MinerType::ASIC => 100000,
        MinerType::ESP32 => 10,
        MinerType::ESP8266 => 5,
        MinerType::AI3Tensor => 25000,
    }
}

/// The largest tensor a hardware class accepts.
pub open spec fn spec_class_max_tensor(t: MinerType) -> int {
    match t {
        MinerType::CPU => 1024,
        MinerType::GPU => 16384,
        MinerType::ASIC => 0,
        MinerType::ESP32 => 256,
        MinerType::ESP8266 => 128,
        MinerType::AI3Tensor => 32768,
    }
}

impl Miner {
    /// A fresh active miner with its hardware class's capability profile:
    /// every class but the fixed-function one supports tensor work.
    pub fn new(id: String, address: String, miner_type: MinerType) -> (r: Self)
        ensures
            r.id == id,
            r.address == address,
            r.miner_type == miner_type,
            r.is_active,
            r.capabilities.hash_rate == spec_class_hash_rate(miner_type),
            r.capabilities.max_tensor_size == spec_class_max_tensor(miner_type),
            r.capabilities.supports_ai3 == !(miner_type is ASIC),
            r.stats.blocks_mined == 0,
            r.stats.total_hash_attempts == 0,
    {
        let capabilities = match miner_type {
            MinerType::CPU => {
                let mut ops: Vec<String> = Vec::new();
                ops.push(String::from_str("matrix_multiply"));
                ops.push(String::from_str("convolution"));
                ops.push(String::from_str("neural_forward"));
                MinerCapabilities {
                    hash_rate: 1000,
                    power_consumption: 100,
                    supports_ai3: true,
                    max_tensor_size: 1024,
                    supported_operations: ops,
                    memory_limit: 8192,
                    compute_units: 4,
                }
            },
            MinerType::GPU => {
                let mut ops: Vec<String> = Vec::new();
                ops.push(String::from_str("matrix_multiply"));
                ops.push(String::from_str("convolution"));
                ops.push(String::from_str("neural_forward"));
                ops.push(String::from_str("tensor_add"));
                ops.push(String::from_str("tensor_multiply"));
                MinerCapabilities {
                    hash_rate: 50000,
                    power_consumption: 300,
                    supports_ai3: true,
                    max_tensor_size: 16384,
                    supported_operations: ops,
                    memory_limit: 65536,
                    compute_units: 2048,
                }
            },
            MinerType::ASIC => {
                MinerCapabilities {
                    hash_rate: 100000,
                    power_consumption: 1500,
                    supports_ai3: false,
                    max_tensor_size: 0,
                    supported_operations: Vec::new(),
                    memory_limit: 1024,
                    compute_units: 1,
                }
            },
            MinerType::ESP32 => {
                let mut ops: Vec<String> = Vec::new();
                ops.push(String::from_str("matrix_multiply"));
                ops.push(String::from_str("tensor_add"));
                MinerCapabilities {
                    hash_rate: 10,
                    power_consumption: 5,
                    supports_ai3: true,
                    max_tensor_size: 256,
                    supported_operations: ops,
                    memory_limit: 512,
                    compute_units: 2,
                }
            },
            MinerType::ESP8266 => {
                let mut ops: Vec<String> = Vec::new();
                ops.push(String::from_str("tensor_add"));
                MinerCapabilities {
                    hash_rate: 5,
                    power_consumption: 3,
                    supports_ai3: true,
                    max_tensor_size: 128,
                    supported_operations: ops,
                    memory_limit: 160,
                    compute_units: 1,
                }
            },
            MinerType::AI3Tensor => {
                let mut ops: Vec<String> = Vec::new();
                ops.push(String::from_str("matrix_multiply"));
                ops.push(String::from_str("convolution"));
                ops.push(String::from_str("neural_forward"));
                ops.push(String::from_str("tensor_add"));
                ops.push(String::from_str("tensor_multiply"));
                ops.push(String::from_str("activation_functions"));
                MinerCapabilities {
                    hash_rate: 25000,
                    power_consumption: 200,
                    supports_ai3: true,
                    max_tensor_size: 32768,
                    supported_operations: ops,
                    memory_limit: 131072,
                    compute_units: 1024,
                }
            },
        };
        let now = crate::runtime::now_seconds();
        Self {
            id,
            address,
            miner_type,
            capabilities,
            stats: MinerStats::default(),
            is_active: true,
            created_at: now,
            last_seen: now,
        }
    }

    /// Records a batch of hash attempts and, on success, a mined block.
    pub fn update_stats(&mut self, hash_attempts: u64, successful: bool, now: u64)
        requires
            old(self).stats.total_hash_attempts + hash_attempts <= u64::MAX,
            old(self).stats.successful_hashes < u64::MAX,
            old(self).stats.blocks_mined < u64::MAX,
        ensures
            final(self).stats.total_hash_attempts == old(self).stats.total_hash_attempts
                + hash_attempts,
            successful ==> final(self).stats.successful_hashes == old(self).stats.successful_hashes + 1,
            successful ==> final(self).stats.blocks_mined == old(self).stats.blocks_mined + 1,
            !successful ==> final(self).stats.successful_hashes == old(self).stats.successful_hashes,
            !successful ==> final(self).stats.blocks_mined == old(self).stats.blocks_mined,
            final(self).last_seen == now,
    {
        self.stats.total_hash_attempts = self.stats.total_hash_attempts + hash_attempts;
        if successful {
            self.stats.successful_hashes = self.stats.successful_hashes + 1;
            self.stats.blocks_mined = self.stats.blocks_mined + 1;
            self.stats.last_block_time = Some(now);
        }
        self.last_seen = now;
    }

    /// Whether some supported-operation entry reads `op`.
    pub open spec fn spec_supports_operation(&self, op: Seq<char>) -> bool {
        exists|i: int|
            0 <= i < self.capabilities.supported_operations@.len() && (
            #[trigger] self.capabilities.supported_operations@[i])@ == op
    }

    /// Whether the miner can run the operation on a tensor of the given
    /// size: tensor support, a supported operation name, and a size within
    /// the class's bound.
    #[verifier::loop_isolation(false)]
    pub fn can_handle_tensor_operation(&self, operation: &str, tensor_size: usize) -> (r: bool)
        ensures
            r == (self.capabilities.supports_ai3 && self.spec_supports_operation(operation@)
                && tensor_size <= self.capabilities.max_tensor_size),
    {
        if !self.capabilities.supports_ai3 {
            return false;
        }
        if tensor_size > self.capabilities.max_tensor_size {
            return false;
        }
        let op = String::from_str(operation);
        let n = self.capabilities.supported_operations.len();
        let mut i: usize = 0;
        while i < n
            invariant
                i <= n,
                n == self.capabilities.supported_operations@.len(),
                op@ == operation@,
                forall|j: int|
                    0 <= j < i ==> self.capabilities.supported_operations@[j]@ != operation@,
            decreases n - i,
        {
            if self.capabilities.supported_operations[i] == op {
                proof {
                    assert((self.capabilities.supported_operations@[i as int])@ == operation@);
                    assert(self.spec_supports_operation(operation@));
                }
                return true;
            }
            i = i + 1;
        }
        false
    }

    /// Whether the miner reported in within the last five minutes.
    pub fn is_online_at(&self, now: u64) -> (r: bool)
        ensures
            r == (now <= self.last_seen + 300),
    {
        now <= self.last_seen || now - self.last_seen <= 300
    }

    /// Marks the miner active and freshly seen.
    pub fn activate(&mut self)
        ensures
            final(self).is_active,
            final(self).stats == old(self).stats,
    {
        self.is_active = true;
        self.last_seen = crate::runtime::now_seconds();
    }

    /// Marks the miner inactive.
    pub fn deactivate(&mut self)
        ensures
            !final(self).is_active,
            final(self).stats == old(self).stats,
            final(self).last_seen == old(self).last_seen,
    {
        self.is_active = false;
    }
}

} // verus!
