//! Upgrade orchestrator: a sequential state machine that drives every
//! data-plane instance still on the source version through drain,
//! rebuild-wait, restart, uncordon and the two readiness checks, one node at
//! a time, in snapshot order.
//!
//! The machine never performs an API call or a sleep itself: `step` maps the
//! outcome of the previous action to the next action, and a driver performs
//! each action and feeds its outcome back as the next event. Any collaborator
//! failure is fatal: the run stops at the first error.

use vstd::prelude::*;
use crate::error::UpgradeError;
use crate::model::{Instance, InstancePlacement, NodeObservation};
use crate::drain::{decide_drain, drain_decision, DrainDecision};
use crate::readiness::{control_plane_ready, control_plane_ready_view, data_plane_ready};
use crate::selector::{selector_view, version_selector};
use crate::uncordon::{decide_uncordon, uncordon_decision, UncordonDecision};

verus! {

/// Seconds between control-plane readiness polls.
pub const CONTROL_PLANE_POLL_SECONDS: u64 = 3;

/// Seconds between drain-state polls while a node drains under our label.
pub const DRAIN_POLL_SECONDS: u64 = 5;

/// Grace period before the first rebuild poll: rebuilds triggered by the
/// drain may not appear instantly.
pub const REBUILD_GRACE_SECONDS: u64 = 60;

/// Seconds between rebuild polls while a rebuild is in progress.
pub const REBUILD_POLL_SECONDS: u64 = 10;

/// Seconds between node-state polls after a remove-drain-label request.
pub const UNCORDON_POLL_SECONDS: u64 = 1;

/// Seconds between data-plane readiness polls after a restart.
pub const DATA_PLANE_POLL_SECONDS: u64 = 5;

/// The fixed labels and identifiers of one upgrade run, passed explicitly
/// rather than held as global state.
pub struct UpgradeConfig {
    /// Namespace the workloads live in.
    pub namespace: String,
    /// Version the data plane is upgraded from.
    pub from_version: String,
    /// Version the data plane is upgraded to.
    pub to_version: String,
    /// The drain-reason token identifying drains issued by this run.
    pub drain_label: String,
    /// Role label of the data-plane workload.
    pub data_plane_label: String,
    /// Role label of the core-agent control-plane group.
    pub core_agent_label: String,
    /// Role label of the API-gateway control-plane group.
    pub api_gateway_label: String,
    /// Role label of the metadata-store group, which is not versioned by the
    /// same release artifact and is filtered by role alone.
    pub metadata_store_label: String,
    /// Key of the version label the deployment tooling writes.
    pub version_label_key: String,
}

/// Where the run stands. Phases carrying `idx` process the instance at that
/// position of the snapshot.
#[derive(PartialEq, Eq, Structural, Clone, Copy, Debug)]
pub enum Phase {
    /// Waiting for the control-plane listings of the pre-check.
    InitialControlPlaneCheck,
    /// Sleeping before retrying the pre-check.
    InitialControlPlaneSleep,
    /// Waiting for the snapshot listing of instances on the source version.
    SnapshotListing,
    /// Waiting for the node fetch of the drain controller.
    DrainCheck { idx: usize },
    /// Waiting for the acknowledgement of a drain request.
    DrainRequest { idx: usize },
    /// Sleeping before the drain controller re-checks the node.
    DrainSleep { idx: usize },
    /// Sleeping through the rebuild grace period.
    RebuildGrace { idx: usize },
    /// Waiting for the cluster-wide rebuild flag.
    RebuildCheck { idx: usize },
    /// Sleeping before the next rebuild poll.
    RebuildSleep { idx: usize },
    /// Waiting for the acknowledgement of the instance delete.
    InstanceDelete { idx: usize },
    /// Waiting for the node fetch of the uncordon controller.
    UncordonCheck { idx: usize },
    /// Waiting for the acknowledgement of a remove-drain-label request.
    UncordonRequest { idx: usize },
    /// Sleeping before the uncordon controller re-checks the node.
    UncordonSleep { idx: usize },
    /// Waiting for the listing of instances on (node, target version).
    DataPlaneCheck { idx: usize },
    /// Sleeping before the next data-plane readiness poll.
    DataPlaneSleep { idx: usize },
    /// Waiting for the control-plane listings after a node's restart.
    ControlPlaneCheck { idx: usize },
    /// Sleeping before retrying the post-restart control-plane check.
    ControlPlaneSleep { idx: usize },
    /// Every snapshotted node was processed.
    Complete,
    /// The run stopped at a fatal error.
    Failed,
}

/// An opaque failure reported by a collaborator API call.
#[derive(Debug)]
pub struct ApiFault {
    pub message: String,
}

/// What the driver observed while performing the last action.
#[allow(inconsistent_fields)]
pub enum Event {
    /// The three control-plane group listings, each on its own selector.
    ControlPlaneListed {
        core: Result<Vec<Instance>, ApiFault>,
        gateway: Result<Vec<Instance>, ApiFault>,
        store: Result<Vec<Instance>, ApiFault>,
    },
    /// The snapshot listing of instances on the source version.
    SnapshotListed { result: Result<Vec<Instance>, ApiFault> },
    /// One node fetch through the control-plane API.
    NodeFetched { result: Result<NodeObservation, ApiFault> },
    /// Acknowledgement of a drain request.
    DrainRequested { result: Result<(), ApiFault> },
    /// The cluster-wide rebuild-in-progress flag.
    RebuildChecked { result: Result<bool, ApiFault> },
    /// Acknowledgement of an instance delete.
    InstanceDeleted { result: Result<(), ApiFault> },
    /// Acknowledgement of a remove-drain-label request.
    DrainLabelRemoved { result: Result<(), ApiFault> },
    /// The listing of instances on (current node, target version).
    NodeInstancesListed { result: Result<Vec<Instance>, ApiFault> },
    /// The requested sleep elapsed.
    Slept,
}

/// What the driver must do next.
#[derive(Debug)]
pub enum Action {
    /// List the three control-plane groups: core agent and API gateway under
    /// their role label plus the target-version label, the metadata store
    /// under its role label alone.
    ListControlPlane,
    /// List the data-plane instances still on the source version.
    ListSnapshot,
    /// Fetch `node` through the control-plane API.
    FetchNode { node: String },
    /// Request a drain of `node` tagged with the run's drain label.
    RequestDrain { node: String },
    /// Query the cluster-wide rebuild-in-progress flag.
    CheckRebuild,
    /// Delete the workload instance `name`.
    DeleteInstance { name: String },
    /// Remove the run's drain label from `node`.
    RemoveDrainLabel { node: String },
    /// List the data-plane instances on (`node`, target version).
    ListNodeInstances { node: String },
    /// Sleep for `seconds`, then report back.
    Sleep { seconds: u64 },
    /// The run finished: every snapshotted node was processed.
    Complete,
    /// The run failed; no further node is processed.
    Fail { error: UpgradeError },
}

/// The orchestrator's whole state: configuration, composed selectors, the
/// snapshot of pending instances, the phase, and the node under work.
pub struct Orchestrator {
    pub cfg: UpgradeConfig,
    /// Selector matching data-plane instances on the source version.
    pub from_selector: String,
    /// Selector matching data-plane instances on the target version.
    pub to_selector: String,
    /// Selector matching the core-agent group on the target version.
    pub core_selector: String,
    /// Selector matching the API-gateway group on the target version.
    pub gateway_selector: String,
    pub phase: Phase,
    /// The snapshot of instances captured once at start; instances that
    /// begin matching the selector later are not added.
    pub pending: Vec<Instance>,
    /// Node of the instance under work, valid in phases that carry an index.
    pub node: String,
}

/// The snapshot position a phase works on, or -1 outside the per-node stages.
pub open spec fn phase_index(p: Phase) -> int {
    match p {
        Phase::DrainCheck { idx } => idx as int,
        Phase::DrainRequest { idx } => idx as int,
        Phase::DrainSleep { idx } => idx as int,
        Phase::RebuildGrace { idx } => idx as int,
        Phase::RebuildCheck { idx } => idx as int,
        Phase::RebuildSleep { idx } => idx as int,
        Phase::InstanceDelete { idx } => idx as int,
        Phase::UncordonCheck { idx } => idx as int,
        Phase::UncordonRequest { idx } => idx as int,
        Phase::UncordonSleep { idx } => idx as int,
        Phase::DataPlaneCheck { idx } => idx as int,
        Phase::DataPlaneSleep { idx } => idx as int,
        Phase::ControlPlaneCheck { idx } => idx as int,
        Phase::ControlPlaneSleep { idx } => idx as int,
        _ => -1,
    }
}

/// Whether a phase belongs to the per-node stages.
pub open spec fn is_node_phase(p: Phase) -> bool {
    phase_index(p) >= 0
}

/// The event kind each phase waits for.
pub open spec fn expected_event(p: Phase, ev: Event) -> bool {
    match p {
        Phase::InitialControlPlaneCheck => ev is ControlPlaneListed,
        Phase::ControlPlaneCheck { .. } => ev is ControlPlaneListed,
        Phase::SnapshotListing => ev is SnapshotListed,
        Phase::DrainCheck { .. } => ev is NodeFetched,
        Phase::UncordonCheck { .. } => ev is NodeFetched,
        Phase::DrainRequest { .. } => ev is DrainRequested,
        Phase::RebuildCheck { .. } => ev is RebuildChecked,
        Phase::InstanceDelete { .. } => ev is InstanceDeleted,
        Phase::UncordonRequest { .. } => ev is DrainLabelRemoved,
        Phase::DataPlaneCheck { .. } => ev is NodeInstancesListed,
        Phase::InitialControlPlaneSleep => ev is Slept,
        Phase::DrainSleep { .. } => ev is Slept,
        Phase::RebuildGrace { .. } => ev is Slept,
        Phase::RebuildSleep { .. } => ev is Slept,
        Phase::UncordonSleep { .. } => ev is Slept,
        Phase::DataPlaneSleep { .. } => ev is Slept,
        Phase::ControlPlaneSleep { .. } => ev is Slept,
        Phase::Complete => false,
        Phase::Failed => false,
    }
}

impl Orchestrator {
    /// The state is well formed: in a per-node phase the index lies in the
    /// snapshot, the instance there is scheduled on `node`, and the composed
    /// selectors agree with the configuration.
    pub open spec fn wf(self) -> bool {
        &&& (is_node_phase(self.phase) ==> {
            let i = phase_index(self.phase);
            &&& i < self.pending@.len()
            &&& (self.pending@[i].placement matches InstancePlacement::OnNode { node }
                && node == self.node)
        })
        &&& self.from_selector@ == selector_view(
            self.cfg.data_plane_label@,
            self.cfg.version_label_key@,
            self.cfg.from_version@,
        )
        &&& self.to_selector@ == selector_view(
            self.cfg.data_plane_label@,
            self.cfg.version_label_key@,
            self.cfg.to_version@,
        )
        &&& self.core_selector@ == selector_view(
            self.cfg.core_agent_label@,
            self.cfg.version_label_key@,
            self.cfg.to_version@,
        )
        &&& self.gateway_selector@ == selector_view(
            self.cfg.api_gateway_label@,
            self.cfg.version_label_key@,
            self.cfg.to_version@,
        )
    }
}

/// Abort the run with `e`.
pub open spec fn fail_to(s: Orchestrator, e: UpgradeError) -> (Orchestrator, Action) {
    (Orchestrator { phase: Phase::Failed, ..s }, Action::Fail { error: e })
}

/// Begin the per-node stages for the instance at position `i` of the
/// snapshot: resolve its node and ask for the drain controller's first node
/// fetch. An instance without a scheduling spec or node name is malformed
/// and fails the run.
pub open spec fn start_node(s: Orchestrator, i: int) -> (Orchestrator, Action) {
    let inst = s.pending@[i];
    match inst.placement {
        InstancePlacement::MissingSpec => fail_to(
            s,
            UpgradeError::MissingInstanceSpec { name: inst.name, namespace: s.cfg.namespace },
        ),
        InstancePlacement::MissingNodeName => fail_to(
            s,
            UpgradeError::MissingInstanceNodeName { name: inst.name, namespace: s.cfg.namespace },
        ),
        InstancePlacement::OnNode { node } => (
            Orchestrator { phase: Phase::DrainCheck { idx: i as usize }, node, ..s },
            Action::FetchNode { node },
        ),
    }
}

/// After the post-restart control-plane check of position `i`: move to the
/// next snapshot position, or complete the run.
pub open spec fn finish_node(s: Orchestrator, i: int) -> (Orchestrator, Action) {
    if i + 1 < s.pending@.len() {
        start_node(s, i + 1)
    } else {
        (Orchestrator { phase: Phase::Complete, ..s }, Action::Complete)
    }
}

/// The outcome of one control-plane check: the first failed group listing,
/// in evaluation order, or the joint readiness of the three groups.
#[derive(PartialEq, Eq, Structural, Clone, Copy, Debug)]
pub enum GroupsOutcome {
    CoreListFailed,
    GatewayListFailed,
    StoreListFailed,
    Ready,
    NotReady,
}

/// Evaluate one control-plane check from the three group listings.
pub open spec fn groups_outcome(
    core: Result<Vec<Instance>, ApiFault>,
    gateway: Result<Vec<Instance>, ApiFault>,
    store: Result<Vec<Instance>, ApiFault>,
) -> GroupsOutcome {
    match core {
        Result::Err(_) => GroupsOutcome::CoreListFailed,
        Result::Ok(core_list) => match gateway {
            Result::Err(_) => GroupsOutcome::GatewayListFailed,
            Result::Ok(gateway_list) => match store {
                Result::Err(_) => GroupsOutcome::StoreListFailed,
                Result::Ok(store_list) => if control_plane_ready_view(
                    core_list@,
                    gateway_list@,
                    store_list@,
                ) {
                    GroupsOutcome::Ready
                } else {
                    GroupsOutcome::NotReady
                },
            },
        },
    }
}

/// One control-plane check: a failed listing is fatal under the failed
/// group's role label; readiness continues with `ready_next`; otherwise the
/// machine sleeps in `sleep_phase` and retries.
pub open spec fn control_plane_step(
    s: Orchestrator,
    core: Result<Vec<Instance>, ApiFault>,
    gateway: Result<Vec<Instance>, ApiFault>,
    store: Result<Vec<Instance>, ApiFault>,
    ready_next: (Orchestrator, Action),
    sleep_phase: Phase,
) -> (Orchestrator, Action) {
    match groups_outcome(core, gateway, store) {
        GroupsOutcome::CoreListFailed => fail_to(
            s,
            UpgradeError::ListFailed { label: s.cfg.core_agent_label, namespace: s.cfg.namespace },
        ),
        GroupsOutcome::GatewayListFailed => fail_to(
            s,
            UpgradeError::ListFailed {
                label: s.cfg.api_gateway_label,
                namespace: s.cfg.namespace,
            },
        ),
        GroupsOutcome::StoreListFailed => fail_to(
            s,
            UpgradeError::ListFailed {
                label: s.cfg.metadata_store_label,
                namespace: s.cfg.namespace,
            },
        ),
        GroupsOutcome::Ready => ready_next,
        GroupsOutcome::NotReady => (
            Orchestrator { phase: sleep_phase, ..s },
            Action::Sleep { seconds: CONTROL_PLANE_POLL_SECONDS },
        ),
    }
}

/// The transition relation of the orchestrator: from a well-formed state and
/// the event its phase waits for, the successor state and the next action.
pub open spec fn transition(s: Orchestrator, ev: Event) -> (Orchestrator, Action)
    recommends
        s.wf(),
        expected_event(s.phase, ev),
{
    match s.phase {
        Phase::InitialControlPlaneCheck => match ev {
            Event::ControlPlaneListed { core, gateway, store } => control_plane_step(
                s,
                core,
                gateway,
                store,
                (Orchestrator { phase: Phase::SnapshotListing, ..s }, Action::ListSnapshot),
                Phase::InitialControlPlaneSleep,
            ),
            _ => arbitrary(),
        },
        Phase::InitialControlPlaneSleep => (
            Orchestrator { phase: Phase::InitialControlPlaneCheck, ..s },
            Action::ListControlPlane,
        ),
        Phase::SnapshotListing => match ev {
            Event::SnapshotListed { result } => match result {
                Result::Err(_) => fail_to(
                    s,
                    UpgradeError::ListFailed {
                        label: s.from_selector,
                        namespace: s.cfg.namespace,
                    },
                ),
                Result::Ok(list) => {
                    let s2 = Orchestrator { pending: list, ..s };
                    if list@.len() == 0 {
                        (Orchestrator { phase: Phase::Complete, ..s2 }, Action::Complete)
                    } else {
                        start_node(s2, 0)
                    }
                },
            },
            _ => arbitrary(),
        },
        Phase::DrainCheck { idx } => match ev {
            Event::NodeFetched { result } => match result {
                Result::Err(_) => fail_to(s, UpgradeError::NodeFetchFailed { node_id: s.node }),
                Result::Ok(obs) => match obs {
                    NodeObservation::MissingSpec => fail_to(
                        s,
                        UpgradeError::MissingNodeSpec { node_id: s.node },
                    ),
                    NodeObservation::Reported { status } => match drain_decision(
                        status,
                        s.cfg.drain_label@,
                    ) {
                        DrainDecision::Wait => (
                            Orchestrator { phase: Phase::DrainSleep { idx }, ..s },
                            Action::Sleep { seconds: DRAIN_POLL_SECONDS },
                        ),
                        DrainDecision::Finished => (
                            Orchestrator { phase: Phase::RebuildGrace { idx }, ..s },
                            Action::Sleep { seconds: REBUILD_GRACE_SECONDS },
                        ),
                        DrainDecision::Request => (
                            Orchestrator { phase: Phase::DrainRequest { idx }, ..s },
                            Action::RequestDrain { node: s.node },
                        ),
                    },
                },
            },
            _ => arbitrary(),
        },
        Phase::DrainRequest { idx } => match ev {
            Event::DrainRequested { result } => match result {
                Result::Err(_) => fail_to(
                    s,
                    UpgradeError::DrainRequestFailed { node_id: s.node },
                ),
                Result::Ok(_) => (
                    Orchestrator { phase: Phase::DrainCheck { idx }, ..s },
                    Action::FetchNode { node: s.node },
                ),
            },
            _ => arbitrary(),
        },
        Phase::DrainSleep { idx } => (
            Orchestrator { phase: Phase::DrainCheck { idx }, ..s },
            Action::FetchNode { node: s.node },
        ),
        Phase::RebuildGrace { idx } => (
            Orchestrator { phase: Phase::RebuildCheck { idx }, ..s },
            Action::CheckRebuild,
        ),
        Phase::RebuildCheck { idx } => match ev {
            Event::RebuildChecked { result } => match result {
                Result::Err(_) => fail_to(
                    s,
                    UpgradeError::RebuildQueryFailed { node_id: s.node },
                ),
                Result::Ok(rebuilding) => if rebuilding {
                    (
                        Orchestrator { phase: Phase::RebuildSleep { idx }, ..s },
                        Action::Sleep { seconds: REBUILD_POLL_SECONDS },
                    )
                } else {
                    (
                        Orchestrator { phase: Phase::InstanceDelete { idx }, ..s },
                        Action::DeleteInstance { name: s.pending@[idx as int].name },
                    )
                },
            },
            _ => arbitrary(),
        },
        Phase::RebuildSleep { idx } => (
            Orchestrator { phase: Phase::RebuildCheck { idx }, ..s },
            Action::CheckRebuild,
        ),
        Phase::InstanceDelete { idx } => match ev {
            Event::InstanceDeleted { result } => match result {
                Result::Err(_) => fail_to(
                    s,
                    UpgradeError::InstanceDeleteFailed {
                        name: s.pending@[idx as int].name,
                        node: s.node,
                    },
                ),
                Result::Ok(_) => (
                    Orchestrator { phase: Phase::UncordonCheck { idx }, ..s },
                    Action::FetchNode { node: s.node },
                ),
            },
            _ => arbitrary(),
        },
        Phase::UncordonCheck { idx } => match ev {
            Event::NodeFetched { result } => match result {
                Result::Err(_) => fail_to(s, UpgradeError::NodeFetchFailed { node_id: s.node }),
                Result::Ok(obs) => match obs {
                    NodeObservation::MissingSpec => fail_to(
                        s,
                        UpgradeError::MissingNodeSpec { node_id: s.node },
                    ),
                    NodeObservation::Reported { status } => match uncordon_decision(
                        status,
                        s.cfg.drain_label@,
                    ) {
                        UncordonDecision::RemoveLabel => (
                            Orchestrator { phase: Phase::UncordonRequest { idx }, ..s },
                            Action::RemoveDrainLabel { node: s.node },
                        ),
                        UncordonDecision::Finished => (
                            Orchestrator { phase: Phase::DataPlaneCheck { idx }, ..s },
                            Action::ListNodeInstances { node: s.node },
                        ),
                    },
                },
            },
            _ => arbitrary(),
        },
        Phase::UncordonRequest { idx } => match ev {
            Event::DrainLabelRemoved { result } => match result {
                Result::Err(_) => fail_to(
                    s,
                    UpgradeError::UncordonRequestFailed { node_id: s.node },
                ),
                Result::Ok(_) => (
                    Orchestrator { phase: Phase::UncordonSleep { idx }, ..s },
                    Action::Sleep { seconds: UNCORDON_POLL_SECONDS },
                ),
            },
            _ => arbitrary(),
        },
        Phase::UncordonSleep { idx } => (
            Orchestrator { phase: Phase::UncordonCheck { idx }, ..s },
            Action::FetchNode { node: s.node },
        ),
        Phase::DataPlaneCheck { idx } => match ev {
            Event::NodeInstancesListed { result } => match result {
                Result::Err(_) => fail_to(
                    s,
                    UpgradeError::NodeListFailed {
                        label: s.to_selector,
                        node: s.node,
                        namespace: s.cfg.namespace,
                    },
                ),
                Result::Ok(list) => if list@.len() >= 2 {
                    fail_to(s, UpgradeError::MultipleMatchingInstances { node: s.node })
                } else if list@.len() == 1 && list@[0].ready {
                    (
                        Orchestrator { phase: Phase::ControlPlaneCheck { idx }, ..s },
                        Action::ListControlPlane,
                    )
                } else {
                    (
                        Orchestrator { phase: Phase::DataPlaneSleep { idx }, ..s },
                        Action::Sleep { seconds: DATA_PLANE_POLL_SECONDS },
                    )
                },
            },
            _ => arbitrary(),
        },
        Phase::DataPlaneSleep { idx } => (
            Orchestrator { phase: Phase::DataPlaneCheck { idx }, ..s },
            Action::ListNodeInstances { node: s.node },
        ),
        Phase::ControlPlaneCheck { idx } => match ev {
            Event::ControlPlaneListed { core, gateway, store } => control_plane_step(
                s,
                core,
                gateway,
                store,
                finish_node(s, idx as int),
                Phase::ControlPlaneSleep { idx },
            ),
            _ => arbitrary(),
        },
        Phase::ControlPlaneSleep { idx } => (
            Orchestrator { phase: Phase::ControlPlaneCheck { idx }, ..s },
            Action::ListControlPlane,
        ),
        Phase::Complete => arbitrary(),
        Phase::Failed => arbitrary(),
    }
}

impl Orchestrator {
    /// Start a run: compose the selectors once and ask for the control-plane
    /// pre-check, which gates the very start of the run.
    pub fn new(cfg: UpgradeConfig) -> (r: (Orchestrator, Action))
        ensures
            r.0.wf(),
            r.0.phase == Phase::InitialControlPlaneCheck,
            r.0.cfg == cfg,
            r.0.pending@.len() == 0,
            r.1 == Action::ListControlPlane,
    {
        let from_selector = version_selector(
            &cfg.data_plane_label,
            &cfg.version_label_key,
            &cfg.from_version,
        );
        let to_selector = version_selector(
            &cfg.data_plane_label,
            &cfg.version_label_key,
            &cfg.to_version,
        );
        let core_selector = version_selector(
            &cfg.core_agent_label,
            &cfg.version_label_key,
            &cfg.to_version,
        );
        let gateway_selector = version_selector(
            &cfg.api_gateway_label,
            &cfg.version_label_key,
            &cfg.to_version,
        );
        let orchestrator = Orchestrator {
            cfg,
            from_selector,
            to_selector,
            core_selector,
            gateway_selector,
            phase: Phase::InitialControlPlaneCheck,
            pending: Vec::new(),
            node: String::new(),
        };
        (orchestrator, Action::ListControlPlane)
    }

    /// Abort the run with `e`.
    fn fail_with(&mut self, e: UpgradeError) -> (a: Action)
        ensures
            (*final(self), a) == fail_to(*old(self), e),
    {
        self.phase = Phase::Failed;
        Action::Fail { error: e }
    }

    /// Begin the per-node stages for snapshot position `i`.
    fn start_node_at(&mut self, i: usize) -> (a: Action)
        requires
            i < old(self).pending@.len(),
        ensures
            (*final(self), a) == start_node(*old(self), i as int),
    {
        let name = self.pending[i].name.clone();
        let placement = self.pending[i].placement.dup();
        match placement {
            InstancePlacement::MissingSpec => {
                let namespace = self.cfg.namespace.clone();
                self.fail_with(UpgradeError::MissingInstanceSpec { name, namespace })
            },
            InstancePlacement::MissingNodeName => {
                let namespace = self.cfg.namespace.clone();
                self.fail_with(UpgradeError::MissingInstanceNodeName { name, namespace })
            },
            InstancePlacement::OnNode { node } => {
                self.node = node.clone();
                self.phase = Phase::DrainCheck { idx: i };
                Action::FetchNode { node }
            },
        }
    }

    /// Evaluate one control-plane check and either abort on a failed
    /// listing or record readiness.
    fn evaluate_groups(
        core: &Result<Vec<Instance>, ApiFault>,
        gateway: &Result<Vec<Instance>, ApiFault>,
        store: &Result<Vec<Instance>, ApiFault>,
    ) -> (r: GroupsOutcome)
        ensures
            r == groups_outcome(*core, *gateway, *store),
    {
        match core {
            Result::Err(_) => GroupsOutcome::CoreListFailed,
            Result::Ok(core_list) => match gateway {
                Result::Err(_) => GroupsOutcome::GatewayListFailed,
                Result::Ok(gateway_list) => match store {
                    Result::Err(_) => GroupsOutcome::StoreListFailed,
                    Result::Ok(store_list) => {
                        if control_plane_ready(core_list, gateway_list, store_list) {
                            GroupsOutcome::Ready
                        } else {
                            GroupsOutcome::NotReady
                        }
                    },
                },
            },
        }
    }

    /// Drive the machine by one step: from the outcome of the last action,
    /// the next action. The driver performs exactly the action asked and
    /// reports its outcome as the next event.
    pub fn step(&mut self, ev: Event) -> (a: Action)
        requires
            old(self).wf(),
            expected_event(old(self).phase, ev),
        ensures
            (*final(self), a) == transition(*old(self), ev),
            final(self).wf(),
    {
        let p = self.phase;
        match p {
            Phase::InitialControlPlaneCheck => match ev {
                Event::ControlPlaneListed { core, gateway, store } => {
                    match Self::evaluate_groups(&core, &gateway, &store) {
                        GroupsOutcome::CoreListFailed => {
                            let label = self.cfg.core_agent_label.clone();
                            let namespace = self.cfg.namespace.clone();
                            self.fail_with(UpgradeError::ListFailed { label, namespace })
                        },
                        GroupsOutcome::GatewayListFailed => {
                            let label = self.cfg.api_gateway_label.clone();
                            let namespace = self.cfg.namespace.clone();
                            self.fail_with(UpgradeError::ListFailed { label, namespace })
                        },
                        GroupsOutcome::StoreListFailed => {
                            let label = self.cfg.metadata_store_label.clone();
                            let namespace = self.cfg.namespace.clone();
                            self.fail_with(UpgradeError::ListFailed { label, namespace })
                        },
                        GroupsOutcome::Ready => {
                            self.phase = Phase::SnapshotListing;
                            Action::ListSnapshot
                        },
                        GroupsOutcome::NotReady => {
                            self.phase = Phase::InitialControlPlaneSleep;
                            Action::Sleep { seconds: CONTROL_PLANE_POLL_SECONDS }
                        },
                    }
                },
                _ => unreached(),
            },
            Phase::InitialControlPlaneSleep => match ev {
                Event::Slept => {
                    self.phase = Phase::InitialControlPlaneCheck;
                    Action::ListControlPlane
                },
                _ => unreached(),
            },
            Phase::SnapshotListing => match ev {
                Event::SnapshotListed { result } => match result {
                    Result::Err(_) => {
                        let label = self.from_selector.clone();
                        let namespace = self.cfg.namespace.clone();
                        self.fail_with(UpgradeError::ListFailed { label, namespace })
                    },
                    Result::Ok(list) => {
                        self.pending = list;
                        if self.pending.len() == 0 {
                            self.phase = Phase::Complete;
                            Action::Complete
                        } else {
                            self.start_node_at(0)
                        }
                    },
                },
                _ => unreached(),
            },
            Phase::DrainCheck { idx } => match ev {
                Event::NodeFetched { result } => match result {
                    Result::Err(_) => {
                        let node_id = self.node.clone();
                        self.fail_with(UpgradeError::NodeFetchFailed { node_id })
                    },
                    Result::Ok(obs) => match obs {
                        NodeObservation::MissingSpec => {
                            let node_id = self.node.clone();
                            self.fail_with(UpgradeError::MissingNodeSpec { node_id })
                        },
                        NodeObservation::Reported { status } => {
                            match decide_drain(&status, &self.cfg.drain_label) {
                                DrainDecision::Wait => {
                                    self.phase = Phase::DrainSleep { idx };
                                    Action::Sleep { seconds: DRAIN_POLL_SECONDS }
                                },
                                DrainDecision::Finished => {
                                    self.phase = Phase::RebuildGrace { idx };
                                    Action::Sleep { seconds: REBUILD_GRACE_SECONDS }
                                },
                                DrainDecision::Request => {
                                    self.phase = Phase::DrainRequest { idx };
                                    Action::RequestDrain { node: self.node.clone() }
                                },
                            }
                        },
                    },
                },
                _ => unreached(),
            },
            Phase::DrainRequest { idx } => match ev {
                Event::DrainRequested { result } => match result {
                    Result::Err(_) => {
                        let node_id = self.node.clone();
                        self.fail_with(UpgradeError::DrainRequestFailed { node_id })
                    },
                    Result::Ok(_) => {
                        self.phase = Phase::DrainCheck { idx };
                        Action::FetchNode { node: self.node.clone() }
                    },
                },
                _ => unreached(),
            },
            Phase::DrainSleep { idx } => match ev {
                Event::Slept => {
                    self.phase = Phase::DrainCheck { idx };
                    Action::FetchNode { node: self.node.clone() }
                },
                _ => unreached(),
            },
            Phase::RebuildGrace { idx } => match ev {
                Event::Slept => {
                    self.phase = Phase::RebuildCheck { idx };
                    Action::CheckRebuild
                },
                _ => unreached(),
            },
            Phase::RebuildCheck { idx } => match ev {
                Event::RebuildChecked { result } => match result {
                    Result::Err(_) => {
                        let node_id = self.node.clone();
                        self.fail_with(UpgradeError::RebuildQueryFailed { node_id })
                    },
                    Result::Ok(rebuilding) => {
                        if rebuilding {
                            self.phase = Phase::RebuildSleep { idx };
                            Action::Sleep { seconds: REBUILD_POLL_SECONDS }
                        } else {
                            let name = self.pending[idx].name.clone();
                            self.phase = Phase::InstanceDelete { idx };
                            Action::DeleteInstance { name }
                        }
                    },
                },
                _ => unreached(),
            },
            Phase::RebuildSleep { idx } => match ev {
                Event::Slept => {
                    self.phase = Phase::RebuildCheck { idx };
                    Action::CheckRebuild
                },
                _ => unreached(),
            },
            Phase::InstanceDelete { idx } => match ev {
                Event::InstanceDeleted { result } => match result {
                    Result::Err(_) => {
                        let name = self.pending[idx].name.clone();
                        let node = self.node.clone();
                        self.fail_with(UpgradeError::InstanceDeleteFailed { name, node })
                    },
                    Result::Ok(_) => {
                        self.phase = Phase::UncordonCheck { idx };
                        Action::FetchNode { node: self.node.clone() }
                    },
                },
                _ => unreached(),
            },
            Phase::UncordonCheck { idx } => match ev {
                Event::NodeFetched { result } => match result {
                    Result::Err(_) => {
                        let node_id = self.node.clone();
                        self.fail_with(UpgradeError::NodeFetchFailed { node_id })
                    },
                    Result::Ok(obs) => match obs {
                        NodeObservation::MissingSpec => {
                            let node_id = self.node.clone();
                            self.fail_with(UpgradeError::MissingNodeSpec { node_id })
                        },
                        NodeObservation::Reported { status } => {
                            match decide_uncordon(&status, &self.cfg.drain_label) {
                                UncordonDecision::RemoveLabel => {
                                    self.phase = Phase::UncordonRequest { idx };
                                    Action::RemoveDrainLabel { node: self.node.clone() }
                                },
                                UncordonDecision::Finished => {
                                    self.phase = Phase::DataPlaneCheck { idx };
                                    Action::ListNodeInstances { node: self.node.clone() }
                                },
                            }
                        },
                    },
                },
                _ => unreached(),
            },
            Phase::UncordonRequest { idx } => match ev {
                Event::DrainLabelRemoved { result } => match result {
                    Result::Err(_) => {
                        let node_id = self.node.clone();
                        self.fail_with(UpgradeError::UncordonRequestFailed { node_id })
                    },
                    Result::Ok(_) => {
                        self.phase = Phase::UncordonSleep { idx };
                        Action::Sleep { seconds: UNCORDON_POLL_SECONDS }
                    },
                },
                _ => unreached(),
            },
            Phase::UncordonSleep { idx } => match ev {
                Event::Slept => {
                    self.phase = Phase::UncordonCheck { idx };
                    Action::FetchNode { node: self.node.clone() }
                },
                _ => unreached(),
            },
            Phase::DataPlaneCheck { idx } => match ev {
                Event::NodeInstancesListed { result } => match result {
                    Result::Err(_) => {
                        let label = self.to_selector.clone();
                        let node = self.node.clone();
                        let namespace = self.cfg.namespace.clone();
                        self.fail_with(UpgradeError::NodeListFailed { label, node, namespace })
                    },
                    Result::Ok(list) => match data_plane_ready(&self.node, &list) {
                        Result::Err(e) => self.fail_with(e),
                        Result::Ok(ready) => {
                            if ready {
                                self.phase = Phase::ControlPlaneCheck { idx };
                                Action::ListControlPlane
                            } else {
                                self.phase = Phase::DataPlaneSleep { idx };
                                Action::Sleep { seconds: DATA_PLANE_POLL_SECONDS }
                            }
                        },
                    },
                },
                _ => unreached(),
            },
            Phase::DataPlaneSleep { idx } => match ev {
                Event::Slept => {
                    self.phase = Phase::DataPlaneCheck { idx };
                    Action::ListNodeInstances { node: self.node.clone() }
                },
                _ => unreached(),
            },
            Phase::ControlPlaneCheck { idx } => match ev {
                Event::ControlPlaneListed { core, gateway, store } => {
                    match Self::evaluate_groups(&core, &gateway, &store) {
                        GroupsOutcome::CoreListFailed => {
                            let label = self.cfg.core_agent_label.clone();
                            let namespace = self.cfg.namespace.clone();
                            self.fail_with(UpgradeError::ListFailed { label, namespace })
                        },
                        GroupsOutcome::GatewayListFailed => {
                            let label = self.cfg.api_gateway_label.clone();
                            let namespace = self.cfg.namespace.clone();
                            self.fail_with(UpgradeError::ListFailed { label, namespace })
                        },
                        GroupsOutcome::StoreListFailed => {
                            let label = self.cfg.metadata_store_label.clone();
                            let namespace = self.cfg.namespace.clone();
                            self.fail_with(UpgradeError::ListFailed { label, namespace })
                        },
                        GroupsOutcome::Ready => {
                            let pending_len: usize = self.pending.len();
                            assert(idx < pending_len);
                            if idx + 1 < pending_len {
                                self.start_node_at(idx + 1)
                            } else {
                                self.phase = Phase::Complete;
                                Action::Complete
                            }
                        },
                        GroupsOutcome::NotReady => {
                            self.phase = Phase::ControlPlaneSleep { idx };
                            Action::Sleep { seconds: CONTROL_PLANE_POLL_SECONDS }
                        },
                    }
                },
                _ => unreached(),
            },
            Phase::ControlPlaneSleep { idx } => match ev {
                Event::Slept => {
                    self.phase = Phase::ControlPlaneCheck { idx };
                    Action::ListControlPlane
                },
                _ => unreached(),
            },
            Phase::Complete => unreached(),
            Phase::Failed => unreached(),
        }
    }
}

/// The per-node stage a phase belongs to — drain, rebuild-wait, restart,
/// uncordon, data-plane readiness, post-restart control-plane readiness —
/// or -1 outside the per-node stages.
pub open spec fn stage_rank(p: Phase) -> int {
    match p {
        Phase::DrainCheck { .. } => 0,
        Phase::DrainRequest { .. } => 0,
        Phase::DrainSleep { .. } => 0,
        Phase::RebuildGrace { .. } => 1,
        Phase::RebuildCheck { .. } => 1,
        Phase::RebuildSleep { .. } => 1,
        Phase::InstanceDelete { .. } => 2,
        Phase::UncordonCheck { .. } => 3,
        Phase::UncordonRequest { .. } => 3,
        Phase::UncordonSleep { .. } => 3,
        Phase::DataPlaneCheck { .. } => 4,
        Phase::DataPlaneSleep { .. } => 4,
        Phase::ControlPlaneCheck { .. } => 5,
        Phase::ControlPlaneSleep { .. } => 5,
        _ => -1,
    }
}

/// The stages run in order, each exactly once per node, in snapshot order: a
/// step taken inside the per-node stages either stays at the same snapshot
/// position and stage, moves to the next stage of the same position, or —
/// only from the last stage — moves to the first stage of the next position;
/// the snapshot and the configuration never change. Together with
/// `lemma_run_enters_at_first_node`, no stage is ever skipped or repeated
/// for a position once the machine has moved past it.
#[verifier::rlimit(50)]
pub proof fn lemma_stages_in_snapshot_order(s: Orchestrator, ev: Event)
    requires
        s.wf(),
        expected_event(s.phase, ev),
        is_node_phase(s.phase),
    ensures
        ({
            let (s2, a) = transition(s, ev);
            &&& s2.pending == s.pending
            &&& s2.cfg == s.cfg
            &&& (!is_node_phase(s2.phase) ==> s2.phase is Complete || s2.phase is Failed)
            &&& (is_node_phase(s2.phase) ==> {
                let i = phase_index(s.phase);
                let i2 = phase_index(s2.phase);
                let r = stage_rank(s.phase);
                let r2 = stage_rank(s2.phase);
                ||| (i2 == i && (r2 == r || r2 == r + 1))
                ||| (i2 == i + 1 && r == 5 && r2 == 0)
            })
        }),
{
    broadcast use vstd::std_specs::vec::axiom_spec_len;

    assert(s.pending.len() == s.pending@.len());
}

/// A run enters the per-node stages only at the first snapshot position and
/// at the drain stage: every node's processing begins with the drain.
pub proof fn lemma_run_enters_at_first_node(s: Orchestrator, ev: Event)
    requires
        s.wf(),
        expected_event(s.phase, ev),
        !is_node_phase(s.phase),
    ensures
        ({
            let (s2, a) = transition(s, ev);
            is_node_phase(s2.phase) ==> phase_index(s2.phase) == 0 && stage_rank(s2.phase) == 0
        }),
{
}

/// Progress of a per-node phase: the snapshot position, weighted past every
/// stage, plus the stage reached at that position.
pub open spec fn progress_of(p: Phase) -> int {
    6 * phase_index(p) + stage_rank(p)
}

/// A run trace, starting anywhere: `states[k + 1]` is reached from
/// `states[k]` by the event `evs[k]`, every state is well formed, and every
/// event is the one its phase waits for.
pub open spec fn trace_ok(states: Seq<Orchestrator>, evs: Seq<Event>) -> bool {
    &&& states.len() == evs.len() + 1
    &&& (forall|k: int|
        0 <= k < evs.len() ==> {
            &&& (#[trigger] states[k]).wf()
            &&& expected_event(states[k].phase, evs[k])
            &&& states[k + 1] == transition(states[k], evs[k]).0
        })
}

/// Across any whole run, the five-stage sequence happens in snapshot order,
/// each stage exactly once per node: between two per-node points of a trace,
/// progress never decreases, gains at most one stage per step — so no stage
/// is skipped and none is repeated once passed — and the snapshot itself
/// never changes.
pub proof fn lemma_trace_stage_order(states: Seq<Orchestrator>, evs: Seq<Event>, k: int, m: int)
    requires
        trace_ok(states, evs),
        0 <= k <= m < states.len(),
        is_node_phase(states[k].phase),
        is_node_phase(states[m].phase),
    ensures
        progress_of(states[k].phase) <= progress_of(states[m].phase),
        progress_of(states[m].phase) - progress_of(states[k].phase) <= m - k,
        states[m].pending == states[k].pending,
    decreases m - k,
{
    if k < m {
        assert(states[k].wf());
        lemma_stages_in_snapshot_order(states[k], evs[k]);
        if k + 1 < m && !is_node_phase(states[k + 1].phase) {
            // The step out of states[k + 1] would need an event that neither
            // a complete nor a failed run waits for.
            assert(expected_event(states[k + 1].phase, evs[k + 1]));
            assert(false);
        }
        lemma_trace_stage_order(states, evs, k + 1, m);
    }
}

/// Two or more instances matching (node, target version) abort the run at
/// once with the multiple-instance violation: the machine fails before any
/// further stage runs for that node.
pub proof fn lemma_multiple_instances_abort(s: Orchestrator, list: Vec<Instance>, idx: usize)
    requires
        s.wf(),
        s.phase == (Phase::DataPlaneCheck { idx }),
        list@.len() >= 2,
    ensures
        ({
            let (s2, a) = transition(
                s,
                Event::NodeInstancesListed { result: Result::Ok(list) },
            );
            &&& s2.phase is Failed
            &&& a == (Action::Fail {
                error: UpgradeError::MultipleMatchingInstances { node: s.node },
            })
        }),
{
}

} // verus!
