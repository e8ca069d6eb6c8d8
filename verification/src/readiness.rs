//! Readiness verifier: is a component group running at the target version?
//! Answers for the data-plane instance on a given node and for the three
//! control-plane component groups.

use vstd::prelude::*;
use crate::error::UpgradeError;
use crate::model::Instance;

verus! {

/// A component group is ready when it has at least one instance and every
/// instance reports ready. An empty group is never ready.
pub open spec fn group_ready(list: Seq<Instance>) -> bool {
    list.len() > 0 && forall|i: int| 0 <= i < list.len() ==> list[i].ready
}

/// Whether `list` is non-empty and every instance in it reports ready.
pub fn all_instances_ready(list: &Vec<Instance>) -> (r: bool)
    ensures
        r == group_ready(list@),
{
    if list.len() == 0 {
        return false;
    }
    let mut i: usize = 0;
    while i < list.len()
        invariant
            0 <= i <= list@.len(),
            forall|j: int| 0 <= j < i ==> list@[j].ready,
        decreases list@.len() - i,
    {
        if !list[i].ready {
            return false;
        }
        i = i + 1;
    }
    true
}

/// The control plane is ready when all three component groups — core agent,
/// API gateway, metadata store — are ready.
pub open spec fn control_plane_ready_view(
    core: Seq<Instance>,
    gateway: Seq<Instance>,
    store: Seq<Instance>,
) -> bool {
    group_ready(core) && group_ready(gateway) && group_ready(store)
}

/// Evaluate control-plane readiness from the three group listings.
pub fn control_plane_ready(
    core: &Vec<Instance>,
    gateway: &Vec<Instance>,
    store: &Vec<Instance>,
) -> (r: bool)
    ensures
        r == control_plane_ready_view(core@, gateway@, store@),
{
    let core_ready = all_instances_ready(core);
    let gateway_ready = all_instances_ready(gateway);
    let store_ready = all_instances_ready(store);
    core_ready && gateway_ready && store_ready
}

/// An empty component group blocks control-plane readiness, however ready the
/// other two groups are.
pub proof fn lemma_empty_group_blocks_control_plane(
    core: Seq<Instance>,
    gateway: Seq<Instance>,
    store: Seq<Instance>,
)
    requires
        core.len() == 0 || gateway.len() == 0 || store.len() == 0,
    ensures
        !control_plane_ready_view(core, gateway, store),
{
}

/// Evaluate data-plane readiness on a node from the listing of instances
/// matching (node, target version): zero matches is "not ready yet" (the
/// caller polls), exactly one match answers with that instance's readiness,
/// and two or more matches violate the one-instance-per-node invariant and
/// abort the run.
pub fn data_plane_ready(node: &String, list: &Vec<Instance>) -> (r: Result<bool, UpgradeError>)
    ensures
        list@.len() == 0 ==> r == Ok::<bool, UpgradeError>(false),
        list@.len() == 1 ==> r == Ok::<bool, UpgradeError>(list@[0].ready),
        list@.len() >= 2 ==> (r matches Err(e)
            && e == (UpgradeError::MultipleMatchingInstances { node: *node })),
{
    if list.len() == 0 {
        Ok(false)
    } else if list.len() == 1 {
        Ok(list[0].ready)
    } else {
        Err(UpgradeError::MultipleMatchingInstances { node: node.clone() })
    }
}

} // verus!
