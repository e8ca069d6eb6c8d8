//! The failure taxonomy of an upgrade run. Every failure is fatal: the run
//! stops at the first error, leaving already-processed nodes upgraded and the
//! remainder untouched.

use vstd::prelude::*;

verus! {

/// Why an upgrade run failed, with the identifiers a caller needs to report
/// the failure (node id, instance name, selector, namespace).
#[derive(Debug)]
pub enum UpgradeError {
    /// A workload listing under `label` failed.
    ListFailed { label: String, namespace: String },
    /// A workload listing under `label`, restricted to `node`, failed.
    NodeListFailed { label: String, node: String, namespace: String },
    /// An instance carries no scheduling spec.
    MissingInstanceSpec { name: String, namespace: String },
    /// An instance's scheduling spec names no node.
    MissingInstanceNodeName { name: String, namespace: String },
    /// Fetching a node through the control-plane API failed.
    NodeFetchFailed { node_id: String },
    /// The control plane reported a node without a spec.
    MissingNodeSpec { node_id: String },
    /// The drain request for a node was rejected.
    DrainRequestFailed { node_id: String },
    /// The request to remove the drain label from a node was rejected.
    UncordonRequestFailed { node_id: String },
    /// Deleting a workload instance failed.
    InstanceDeleteFailed { name: String, node: String },
    /// Querying the cluster-wide rebuild flag failed.
    RebuildQueryFailed { node_id: String },
    /// More than one instance matched (node, target version): a consistency
    /// violation, never retried.
    MultipleMatchingInstances { node: String },
}

} // verus!
