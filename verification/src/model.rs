//! Data model: what the orchestrator reads from the cluster workload API and
//! the storage control-plane API, held as plain values.

use vstd::prelude::*;

verus! {

/// The views of a list of labels, for use in contracts.
pub open spec fn views_of(labels: Seq<String>) -> Seq<Seq<char>> {
    labels.map_values(|s: String| s@)
}

/// The cordon/drain condition of a storage node, as the storage control plane
/// reports it. The labels record which actors asked for the cordon or drain.
pub enum DrainStatus {
    Uncordoned,
    Draining { labels: Vec<String> },
    Drained { labels: Vec<String> },
}

impl DrainStatus {
    /// The drain labels attached to the node; none when it is uncordoned.
    pub open spec fn labels_view(self) -> Seq<Seq<char>> {
        match self {
            DrainStatus::Uncordoned => Seq::empty(),
            DrainStatus::Draining { labels } => views_of(labels@),
            DrainStatus::Drained { labels } => views_of(labels@),
        }
    }

    /// Whether the node's drain labels include `label`.
    pub open spec fn has_label(self, label: Seq<char>) -> bool {
        self.labels_view().contains(label)
    }

    /// A drain is in progress under `label`.
    pub open spec fn is_draining_with(self, label: Seq<char>) -> bool {
        self is Draining && self.has_label(label)
    }

    /// The drain under `label` has completed.
    pub open spec fn is_drained_with(self, label: Seq<char>) -> bool {
        self is Drained && self.has_label(label)
    }
}

/// One fetch of a node through the control-plane API: the node may lack a
/// spec entirely, which is a malformed-state error for the orchestrator.
pub enum NodeObservation {
    MissingSpec,
    Reported { status: DrainStatus },
}

/// Where the cluster reports a workload instance to be scheduled. A missing
/// scheduling spec or a missing node name are distinct malformed states.
pub enum InstancePlacement {
    MissingSpec,
    MissingNodeName,
    OnNode { node: String },
}

impl InstancePlacement {
    /// An equal copy of the placement.
    pub fn dup(&self) -> (r: InstancePlacement)
        ensures
            r == *self,
    {
        match self {
            InstancePlacement::MissingSpec => InstancePlacement::MissingSpec,
            InstancePlacement::MissingNodeName => InstancePlacement::MissingNodeName,
            InstancePlacement::OnNode { node } => InstancePlacement::OnNode {
                node: node.clone(),
            },
        }
    }
}

/// A data-plane workload instance: its name, where it is scheduled, and
/// whether its readiness condition currently holds.
pub struct Instance {
    pub name: String,
    pub placement: InstancePlacement,
    pub ready: bool,
}

/// Whether some label in `labels` reads exactly as `label`.
pub fn labels_contain(labels: &Vec<String>, label: &String) -> (r: bool)
    ensures
        r == views_of(labels@).contains(label@),
{
    let mut i: usize = 0;
    while i < labels.len()
        invariant
            0 <= i <= labels@.len(),
            forall|j: int| 0 <= j < i ==> views_of(labels@)[j] != label@,
        decreases labels@.len() - i,
    {
        if labels[i] == *label {
            proof {
                assert(views_of(labels@)[i as int] == labels@[i as int]@);
            }
            return true;
        }
        proof {
            assert(views_of(labels@)[i as int] == labels@[i as int]@);
        }
        i = i + 1;
    }
    assert(forall|j: int| 0 <= j < labels@.len() ==> views_of(labels@)[j] != label@);
    false
}

} // verus!
