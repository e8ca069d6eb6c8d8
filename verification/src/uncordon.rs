//! Uncordon controller: removes the orchestrator's drain label once the node
//! is safely drained and its data-plane instance has been replaced.

use vstd::prelude::*;
use crate::error::UpgradeError;
use crate::model::{labels_contain, DrainStatus, NodeObservation};

verus! {

/// What the uncordon controller does next after observing a node's state.
#[derive(PartialEq, Eq, Structural, Clone, Copy, Debug)]
pub enum UncordonDecision {
    /// The node is drained under our label: issue a remove-drain-label
    /// request, then sleep and re-check, to observe the label actually gone.
    RemoveLabel,
    /// Anything else — including still draining, or already uncordoned:
    /// return success immediately without issuing any removal. When the node
    /// is not in the exact drained-under-our-label state this silently
    /// no-ops, an open behavioral question left as it stands.
    Finished,
}

/// The uncordon controller's decision for an observed state under `label`.
pub open spec fn uncordon_decision(status: DrainStatus, label: Seq<char>) -> UncordonDecision {
    if status.is_drained_with(label) {
        UncordonDecision::RemoveLabel
    } else {
        UncordonDecision::Finished
    }
}

/// Decide the uncordon controller's next step from one observed drain status.
pub fn decide_uncordon(status: &DrainStatus, label: &String) -> (d: UncordonDecision)
    ensures
        d == uncordon_decision(*status, label@),
{
    match status {
        DrainStatus::Drained { labels } => {
            if labels_contain(labels, label) {
                UncordonDecision::RemoveLabel
            } else {
                UncordonDecision::Finished
            }
        },
        _ => UncordonDecision::Finished,
    }
}

/// Decide the uncordon controller's next step from one node fetch; a node
/// reported without a spec is malformed and fails the run.
pub fn uncordon_step(
    node_id: &String,
    obs: &NodeObservation,
    label: &String,
) -> (r: Result<UncordonDecision, UpgradeError>)
    ensures
        obs is MissingSpec ==> r == Err::<UncordonDecision, UpgradeError>(
            UpgradeError::MissingNodeSpec { node_id: *node_id },
        ),
        obs matches NodeObservation::Reported { status } ==> r
            == Ok::<UncordonDecision, UpgradeError>(uncordon_decision(*status, label@)),
{
    match obs {
        NodeObservation::MissingSpec => Err(
            UpgradeError::MissingNodeSpec { node_id: node_id.clone() },
        ),
        NodeObservation::Reported { status } => Ok(decide_uncordon(status, label)),
    }
}

/// Once the uncordon loop stops, the observed drain state no longer carries
/// the orchestrator's drain label — provided the node was not still draining
/// under that label, the one state in which the loop stops without acting.
pub proof fn lemma_uncordon_finished_label_gone(status: DrainStatus, label: Seq<char>)
    requires
        !(status is Draining && status.has_label(label)),
    ensures
        uncordon_decision(status, label) == UncordonDecision::Finished ==> !status.has_label(
            label,
        ),
{
}

} // verus!
