//! Drain controller: drives a node's cordon/drain state to "drained under the
//! orchestrator's label" before its data-plane instance is restarted.

use vstd::prelude::*;
use crate::error::UpgradeError;
use crate::model::{labels_contain, DrainStatus, NodeObservation};

verus! {

/// What the drain controller does next after observing a node's state.
#[derive(PartialEq, Eq, Structural, Clone, Copy, Debug)]
pub enum DrainDecision {
    /// The node is draining under our label: wait and re-check.
    Wait,
    /// The node is drained under our label: the drain stage is complete.
    Finished,
    /// Anything else — uncordoned, or cordoned/drained under a different or
    /// absent label: issue a drain request tagged with our label, then
    /// re-check immediately. Idempotent against repeated invocation, but it
    /// does not guard against a conflicting drain held by another actor.
    Request,
}

/// The drain controller's decision for an observed state under `label`.
pub open spec fn drain_decision(status: DrainStatus, label: Seq<char>) -> DrainDecision {
    if status.is_draining_with(label) {
        DrainDecision::Wait
    } else if status.is_drained_with(label) {
        DrainDecision::Finished
    } else {
        DrainDecision::Request
    }
}

/// Decide the drain controller's next step from one observed drain status.
pub fn decide_drain(status: &DrainStatus, label: &String) -> (d: DrainDecision)
    ensures
        d == drain_decision(*status, label@),
{
    match status {
        DrainStatus::Uncordoned => DrainDecision::Request,
        DrainStatus::Draining { labels } => {
            if labels_contain(labels, label) {
                DrainDecision::Wait
            } else {
                DrainDecision::Request
            }
        },
        DrainStatus::Drained { labels } => {
            if labels_contain(labels, label) {
                DrainDecision::Finished
            } else {
                DrainDecision::Request
            }
        },
    }
}

/// Decide the drain controller's next step from one node fetch; a node
/// reported without a spec is malformed and fails the run.
pub fn drain_step(
    node_id: &String,
    obs: &NodeObservation,
    label: &String,
) -> (r: Result<DrainDecision, UpgradeError>)
    ensures
        obs is MissingSpec ==> r == Err::<DrainDecision, UpgradeError>(
            UpgradeError::MissingNodeSpec { node_id: *node_id },
        ),
        obs matches NodeObservation::Reported { status } ==> r
            == Ok::<DrainDecision, UpgradeError>(drain_decision(*status, label@)),
{
    match obs {
        NodeObservation::MissingSpec => Err(
            UpgradeError::MissingNodeSpec { node_id: node_id.clone() },
        ),
        NodeObservation::Reported { status } => Ok(decide_drain(status, label)),
    }
}

} // verus!
