use vstd::prelude::*;

verus! {

/// Why a single check failed: the authentication step, the network
/// retrieval, or the decoding of the fetched document.
#[derive(Clone, Copy, Debug, PartialEq, Eq, Structural)]
pub enum CheckError {
    Auth,
    Fetch,
    Decode,
}

/// One process instance of a service on a node, as reported by the
/// cluster-status document.
pub struct InstanceStatus {
    pub code: Option<String>,
    pub process_status: String,
    pub instance_id: String,
    pub message: Option<String>,
    pub timestamp_utc: u64,
    pub current_deployment_state: String,
}

/// One service on a node, with its instances in document order.
pub struct ServiceStatus {
    pub service_name: String,
    pub instances: Vec<InstanceStatus>,
}

/// One node of the cluster, with its services in document order.
pub struct NodeStatus {
    pub services: Vec<ServiceStatus>,
    pub node_id: String,
    pub rollup_status: String,
    pub rollup_requested_deployment_state: String,
}

/// The root of the cluster-status tree: an immutable snapshot decoded
/// freshly for each poll cycle.
pub struct ClusterStatus {
    pub nodes: Vec<NodeStatus>,
    pub rollup_status: String,
    pub rollup_requested_deployment_state: String,
}

/// One node of the diagnostics tree: a tag name, the two attributes the
/// walker reads, and the children in document order.
pub struct DiagnosticsNode {
    pub tag_name: String,
    pub status: Option<String>,
    pub worker: Option<String>,
    pub children: Vec<DiagnosticsNode>,
}

} // verus!
