//! Network-facing configuration and status records. The transport itself
//! is an external collaborator; the chain only keeps its settings and the
//! synchronization state.

use vstd::prelude::*;

verus! {

use vstd::string::StringExecFns;

/// Node network configuration.
#[derive(Debug, Clone)]
pub struct NetworkConfig {
    pub node_id: String,
    pub listen_address: String,
    pub port: u16,
    pub bootstrap_nodes: Vec<String>,
    pub max_peers: usize,
    pub consensus_type: crate::consensus::ConsensusType,
    pub mining_enabled: bool,
    pub rpc_enabled: bool,
    pub rpc_port: u16,
}

impl Default for NetworkConfig {
    /// The stock configuration: gossip on 8333, RPC on 8334, at most
    /// fifty peers, mining off. The node identifier is left for the host
    /// to fill.
    fn default() -> (r: Self)
        ensures
            r.node_id@.len() == 0,
            r.listen_address@ == "0.0.0.0"@,
            r.port == 8333,
            r.bootstrap_nodes@.len() == 0,
            r.max_peers == 50,
            r.consensus_type is ProofOfWork,
            !r.mining_enabled,
            r.rpc_enabled,
            r.rpc_port == 8334,
    {
        Self {
            node_id: String::new(),
            listen_address: String::from_str("0.0.0.0"),
            port: 8333,
            bootstrap_nodes: Vec::new(),
            max_peers: 50,
            consensus_type: crate::consensus::ConsensusType::ProofOfWork,
            mining_enabled: false,
            rpc_enabled: true,
            rpc_port: 8334,
        }
    }
}

/// Synchronization state against the network.
#[derive(Debug, Clone)]
pub enum SyncStatus {
    Synced,
    Syncing { current_block: u64, target_block: u64 },
    NotSynced,
    Error(String),
}

/// Network statistics.
#[derive(Debug, Clone)]
pub struct NetworkStats {
    pub connected_peers: usize,
    pub total_transactions: u64,
    pub blocks_processed: u64,
    pub network_hash_rate: u64,
    pub uptime_seconds: u64,
    pub sync_status: SyncStatus,
}

/// Network health summary.
#[derive(Debug, Clone)]
pub struct NetworkHealth {
    pub is_healthy: bool,
    pub connected_peers: usize,
    pub sync_status: SyncStatus,
    pub last_block_time: Option<u64>,
    pub mempool_size: usize,
}

} // verus!
