//! Tensor-engine configuration and statistics records.

use vstd::prelude::*;

verus! {

/// Configuration of the tensor-mining engine.
#[derive(Debug, Clone)]
pub struct EngineConfig {
    pub max_concurrent_tasks: usize,
    pub task_timeout_ms: u64,
    pub enable_esp_support: bool,
    pub auto_optimize_tensors: bool,
    pub performance_monitoring: bool,
}

impl Default for EngineConfig {
    /// The stock engine configuration.
    fn default() -> (r: Self)
        ensures
            r.max_concurrent_tasks == 10,
            r.task_timeout_ms == 30000,
            r.enable_esp_support,
            r.auto_optimize_tensors,
            r.performance_monitoring,
    {
        Self {
            max_concurrent_tasks: 10,
            task_timeout_ms: 30000,
            enable_esp_support: true,
            auto_optimize_tensors: true,
            performance_monitoring: true,
        }
    }
}

/// Running statistics of the tensor-mining engine.
#[derive(Debug, Clone)]
pub struct EngineStats {
    pub total_tasks_processed: u64,
    pub successful_tasks: u64,
    pub failed_tasks: u64,
    pub average_task_time_ms: u64,
    pub active_miners: usize,
    pub total_compute_time_ms: u64,
    pub uptime_seconds: u64,
}

impl Default for EngineStats {
    /// All counters at zero.
    fn default() -> (r: Self)
        ensures
            r.total_tasks_processed == 0,
            r.successful_tasks == 0,
            r.failed_tasks == 0,
            r.average_task_time_ms == 0,
            r.active_miners == 0,
            r.total_compute_time_ms == 0,
            r.uptime_seconds == 0,
    {
        Self {
            total_tasks_processed: 0,
            successful_tasks: 0,
            failed_tasks: 0,
            average_task_time_ms: 0,
            active_miners: 0,
            total_compute_time_ms: 0,
            uptime_seconds: 0,
        }
    }
}

} // verus!
