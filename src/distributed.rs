//! Settings of the multi-node mode and the states of a node.
use vstd::prelude::*;

verus! {

/// Multi-node settings.
#[derive(Clone, Debug)]
pub struct DistributedConfig {
    pub enabled: bool,
    pub redis_url: String,
    /// This node's id; generated when absent.
    pub node_id: Option<String>,
    /// Seconds between heartbeats.
    pub heartbeat_interval: u64,
    /// Seconds without heartbeat after which a node counts as dead.
    pub node_timeout: u64,
}

impl Default for DistributedConfig {
    fn default() -> (r: DistributedConfig)
        ensures
            !r.enabled,
            r.redis_url@ == "redis://127.0.0.1:6379"@,
            r.node_id is None,
            r.heartbeat_interval == 5,
            r.node_timeout == 30,
    {
        DistributedConfig {
            enabled: false,
            redis_url: "redis://127.0.0.1:6379".to_string(),
            node_id: None,
            heartbeat_interval: 5,
            node_timeout: 30,
        }
    }
}

/// Health of a node.
#[derive(Clone, Copy, Debug, PartialEq, Eq, Structural)]
pub enum NodeStatus {
    Active,
    Degraded,
    Dead,
}

} // verus!
