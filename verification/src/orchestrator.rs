//! The upgrade of the data plane, one node after the other.
//!
//! For every data-plane pod that it finds at the start, the upgrade
//!
//! 1. finds the pod's node,
//! 2. notes whether the storage node is cordoned already,
//! 3. drains the storage node,
//! 4. waits until no storage node of the cluster is draining,
//! 5. lets a grace period pass and waits until no volume is rebuilding,
//! 6. deletes the pod, so that its controller starts the new version,
//! 7. removes the cordon again, unless step 2 found the node cordoned,
//! 8. waits until the new pod on the node is ready, and
//! 9. checks that the control plane is healthy,
//!
//! and only then turns to the next pod. The first failure ends the upgrade:
//! nothing is retried and nothing is rolled back.
//!
//! An [`UpgradeOrchestrator`] is the state of this procedure. It asks for one
//! request at a time with [`UpgradeOrchestrator::action`] and moves on when
//! it is told the outcome with [`UpgradeOrchestrator::handle`].

use crate::constants::{
    DRAIN_FOR_UPGRADE, FIRST_PAGE_TOKEN, IO_ENGINE_LABEL, POLL_INTERVAL_SECS, REBUILD_GRACE_SECS,
    VOLUME_PAGE_SIZE,
};
use crate::drain::{cluster_is_draining, is_draining, is_node_cordoned};
use crate::error::{UpgradeError, UpgradeErrorView};
use crate::health::{component_verdict, verify_component, Component};
use crate::opts::CliArgs;
use crate::pod::{pod_views, Pod, PodView};
use crate::protocol::{Action, ActionView, Event, EventView};
use crate::rebuild::ScanStep;
use crate::replacer::{data_plane_pod_running, is_data_plane_pod_running};
use crate::waiter::{QuiescenceWaiter, WaitAction};
use vstd::prelude::*;

verus! {

/// The step of the procedure whose request is under way.
#[derive(Debug, PartialEq, Eq)]
pub enum Phase {
    /// The data-plane pods are being listed.
    ListingInstances,
    /// The storage node is being fetched, to see whether it is cordoned.
    RecordingCordonState,
    /// The drain of the storage node is being requested.
    Draining,
    /// The upgrade waits until no storage node is draining.
    AwaitingDrain { waiter: QuiescenceWaiter },
    /// The upgrade waits until no volume is rebuilding. While the volume
    /// inventory is being read, `starting_token` asks for the page that is due.
    AwaitingRebuild { waiter: QuiescenceWaiter, starting_token: isize },
    /// The pod is being deleted.
    Replacing,
    /// The cordon is being removed from the storage node.
    Uncordoning,
    /// The upgrade waits until the new pod on the node is ready.
    AwaitingReady { waiter: QuiescenceWaiter },
    /// The pods of a component of the control plane are being listed.
    Verifying { component: Component },
    /// Every pod has been upgraded.
    Finished,
    /// The upgrade has failed.
    Failed { error: UpgradeError },
}

/// The mathematical value of a [`Phase`].
pub enum PhaseView {
    ListingInstances,
    RecordingCordonState,
    Draining,
    AwaitingDrain { waiter: QuiescenceWaiter },
    AwaitingRebuild { waiter: QuiescenceWaiter, starting_token: isize },
    Replacing,
    Uncordoning,
    AwaitingReady { waiter: QuiescenceWaiter },
    Verifying { component: Component },
    Finished,
    Failed { error: UpgradeErrorView },
}

impl View for Phase {
    type V = PhaseView;

    open spec fn view(&self) -> PhaseView {
        match self {
            Phase::ListingInstances => PhaseView::ListingInstances,
            Phase::RecordingCordonState => PhaseView::RecordingCordonState,
            Phase::Draining => PhaseView::Draining,
            Phase::AwaitingDrain { waiter } => PhaseView::AwaitingDrain { waiter: *waiter },
            Phase::AwaitingRebuild { waiter, starting_token } => PhaseView::AwaitingRebuild {
                waiter: *waiter,
                starting_token: *starting_token,
            },
            Phase::Replacing => PhaseView::Replacing,
            Phase::Uncordoning => PhaseView::Uncordoning,
            Phase::AwaitingReady { waiter } => PhaseView::AwaitingReady { waiter: *waiter },
            Phase::Verifying { component } => PhaseView::Verifying { component: *component },
            Phase::Finished => PhaseView::Finished,
            Phase::Failed { error } => PhaseView::Failed { error: error@ },
        }
    }
}

/// The state of an upgrade of the data plane.
#[derive(Debug, PartialEq, Eq)]
pub struct UpgradeOrchestrator {
    /// The namespace of the storage product.
    pub namespace: String,
    /// The data-plane pods as they were found at the start, in the order in
    /// which they are upgraded.
    pub instances: Vec<Pod>,
    /// The index of the pod that is being upgraded.
    pub position: usize,
    /// The name of the pod that is being upgraded.
    pub pod_name: String,
    /// The node of the pod that is being upgraded.
    pub node_name: String,
    /// Whether that node was cordoned before the upgrade touched it.
    pub was_cordoned: bool,
    /// The step that is under way.
    pub phase: Phase,
}

/// The mathematical value of an [`UpgradeOrchestrator`].
pub struct OrchestratorView {
    pub namespace: Seq<char>,
    pub instances: Seq<PodView>,
    pub position: nat,
    pub pod_name: Seq<char>,
    pub node_name: Seq<char>,
    pub was_cordoned: bool,
    pub phase: PhaseView,
}

impl View for UpgradeOrchestrator {
    type V = OrchestratorView;

    open spec fn view(&self) -> OrchestratorView {
        OrchestratorView {
            namespace: self.namespace@,
            instances: pod_views(self.instances@),
            position: self.position as nat,
            pod_name: self.pod_name@,
            node_name: self.node_name@,
            was_cordoned: self.was_cordoned,
            phase: self.phase@,
        }
    }
}

/// The wait for the drains of the cluster to end: no grace period.
pub open spec fn drain_wait() -> QuiescenceWaiter {
    QuiescenceWaiter::starting(POLL_INTERVAL_SECS, 0)
}

/// The wait for the rebuilds of the cluster to end. It begins with a grace
/// period, for the rebuilds that the drain sets off to show.
pub open spec fn rebuild_wait() -> QuiescenceWaiter {
    QuiescenceWaiter::starting(POLL_INTERVAL_SECS, REBUILD_GRACE_SECS)
}

/// The wait for the new pod to become ready: no grace period.
pub open spec fn ready_wait() -> QuiescenceWaiter {
    QuiescenceWaiter::starting(POLL_INTERVAL_SECS, 0)
}

impl OrchestratorView {
    /// The upgrade before anything has happened.
    pub open spec fn initial(namespace: Seq<char>) -> OrchestratorView {
        OrchestratorView {
            namespace,
            instances: Seq::empty(),
            position: 0,
            pod_name: Seq::empty(),
            node_name: Seq::empty(),
            was_cordoned: false,
            phase: PhaseView::ListingInstances,
        }
    }

    /// The same upgrade in another phase.
    pub open spec fn in_phase(self, phase: PhaseView) -> OrchestratorView {
        OrchestratorView { phase, ..self }
    }

    /// The upgrade, failed.
    pub open spec fn failed(self, error: UpgradeErrorView) -> OrchestratorView {
        self.in_phase(PhaseView::Failed { error })
    }

    /// Turns to the pod at `position`: the upgrade is finished if there is
    /// none, fails if the pod's node cannot be told, and else begins with
    /// the pod's storage node.
    pub open spec fn begin_round(self) -> OrchestratorView {
        if self.position < self.instances.len() {
            let pod = self.instances[self.position as int];
            match pod.resolve_node(self.namespace) {
                Err(error) => self.failed(error),
                Ok(node_name) => OrchestratorView {
                    pod_name: pod.name,
                    node_name,
                    phase: PhaseView::RecordingCordonState,
                    ..self
                },
            }
        } else {
            self.in_phase(PhaseView::Finished)
        }
    }

    /// Turns to the pod after the one at `position`.
    pub open spec fn next_round(self) -> OrchestratorView {
        if self.position < self.instances.len() {
            OrchestratorView { position: self.position + 1, ..self }.begin_round()
        } else {
            self.in_phase(PhaseView::Finished)
        }
    }

    /// The request that a wait has due, where `look` is how it looks at the cluster.
    pub open spec fn wait_request(waiter: QuiescenceWaiter, look: ActionView) -> ActionView {
        match waiter.due() {
            WaitAction::Sleep { seconds } => ActionView::Sleep { seconds },
            WaitAction::Poll => look,
            WaitAction::Return => ActionView::Fail(UpgradeErrorView::UnexpectedEvent),
        }
    }

    /// The request that the upgrade has under way in this state.
    pub open spec fn pending(self) -> ActionView {
        match self.phase {
            PhaseView::ListingInstances => ActionView::ListPods {
                label: IO_ENGINE_LABEL@,
                namespace: self.namespace,
            },
            PhaseView::RecordingCordonState => ActionView::GetStorageNode {
                node_name: self.node_name,
            },
            PhaseView::Draining => ActionView::DrainStorageNode {
                node_name: self.node_name,
                label: DRAIN_FOR_UPGRADE@,
            },
            PhaseView::AwaitingDrain { waiter } => Self::wait_request(
                waiter,
                ActionView::ListStorageNodes,
            ),
            PhaseView::AwaitingRebuild { waiter, starting_token } => Self::wait_request(
                waiter,
                ActionView::ListVolumes { max_entries: VOLUME_PAGE_SIZE, starting_token },
            ),
            PhaseView::Replacing => ActionView::DeletePod {
                name: self.pod_name,
                namespace: self.namespace,
            },
            PhaseView::Uncordoning => ActionView::UncordonStorageNode {
                node_name: self.node_name,
                label: DRAIN_FOR_UPGRADE@,
            },
            PhaseView::AwaitingReady { waiter } => Self::wait_request(
                waiter,
                ActionView::ListPods { label: IO_ENGINE_LABEL@, namespace: self.namespace },
            ),
            PhaseView::Verifying { component } => ActionView::ListPods {
                label: component.selector(),
                namespace: self.namespace,
            },
            PhaseView::Finished => ActionView::Finish,
            PhaseView::Failed { error } => ActionView::Fail(error),
        }
    }

    /// The error that stands for the failure of the request under way.
    pub open spec fn request_failure(self) -> UpgradeErrorView {
        match self.pending() {
            ActionView::ListPods { label, namespace } => UpgradeErrorView::ListPodsWithLabel {
                label,
                namespace,
            },
            ActionView::GetStorageNode { node_name } => UpgradeErrorView::GetStorageNode { node_name },
            ActionView::ListStorageNodes => UpgradeErrorView::ListStorageNodes,
            ActionView::DrainStorageNode { node_name, .. } => UpgradeErrorView::DrainStorageNode {
                node_name,
            },
            ActionView::UncordonStorageNode { node_name, .. } => UpgradeErrorView::StorageNodeUncordon {
                node_name,
            },
            ActionView::ListVolumes { .. } => UpgradeErrorView::ListStorageVolumes,
            ActionView::DeletePod { name, .. } => UpgradeErrorView::PodDeleteError {
                name,
                node: self.node_name,
            },
            ActionView::Sleep { .. } => UpgradeErrorView::UnexpectedEvent,
            ActionView::Finish => UpgradeErrorView::UnexpectedEvent,
            ActionView::Fail(error) => error,
        }
    }

    /// The state after the storage node of the round has been fetched.
    pub open spec fn after_storage_node(self, cordoned: Result<bool, UpgradeErrorView>) -> OrchestratorView {
        match cordoned {
            Err(error) => self.failed(error),
            Ok(was_cordoned) => OrchestratorView {
                was_cordoned,
                phase: PhaseView::Draining,
                ..self
            },
        }
    }

    /// The state after a look at the drains of the cluster.
    pub open spec fn after_drain_reading(
        self,
        waiter: QuiescenceWaiter,
        draining: Result<bool, UpgradeErrorView>,
    ) -> OrchestratorView {
        match draining {
            Err(error) => self.failed(error),
            Ok(busy) => {
                let waiter = waiter.after_poll(busy);
                if waiter.stage is Quiescent {
                    self.in_phase(
                        PhaseView::AwaitingRebuild {
                            waiter: rebuild_wait(),
                            starting_token: FIRST_PAGE_TOKEN,
                        },
                    )
                } else {
                    self.in_phase(PhaseView::AwaitingDrain { waiter })
                }
            },
        }
    }

    /// The state after a page of the volume inventory.
    pub open spec fn after_volumes(self, waiter: QuiescenceWaiter, step: ScanStep) -> OrchestratorView {
        match step {
            ScanStep::NextPage { starting_token } => self.in_phase(
                PhaseView::AwaitingRebuild { waiter, starting_token },
            ),
            ScanStep::Rebuilding => self.in_phase(
                PhaseView::AwaitingRebuild {
                    waiter: waiter.after_poll(true),
                    starting_token: FIRST_PAGE_TOKEN,
                },
            ),
            ScanStep::Quiescent => {
                let waiter = waiter.after_poll(false);
                if waiter.stage is Quiescent {
                    self.in_phase(PhaseView::Replacing)
                } else {
                    self.in_phase(
                        PhaseView::AwaitingRebuild { waiter, starting_token: FIRST_PAGE_TOKEN },
                    )
                }
            },
        }
    }

    /// The state after the pod has been deleted: the cordon is removed,
    /// unless it was there before the upgrade came to the node.
    pub open spec fn after_replacement(self) -> OrchestratorView {
        if self.was_cordoned {
            self.in_phase(PhaseView::AwaitingReady { waiter: ready_wait() })
        } else {
            self.in_phase(PhaseView::Uncordoning)
        }
    }

    /// The state after a look at the new pod.
    pub open spec fn after_ready_reading(
        self,
        waiter: QuiescenceWaiter,
        running: Result<bool, UpgradeErrorView>,
    ) -> OrchestratorView {
        match running {
            Err(error) => self.failed(error),
            Ok(running) => {
                let waiter = waiter.after_poll(!running);
                if waiter.stage is Quiescent {
                    self.in_phase(PhaseView::Verifying { component: Component::Core })
                } else {
                    self.in_phase(PhaseView::AwaitingReady { waiter })
                }
            },
        }
    }

    /// The state after the pods of a component have been listed.
    pub open spec fn after_component(
        self,
        component: Component,
        verdict: Result<(), UpgradeErrorView>,
    ) -> OrchestratorView {
        match verdict {
            Err(error) => self.failed(error),
            Ok(()) => match component.following() {
                Some(component) => self.in_phase(PhaseView::Verifying { component }),
                None => self.next_round(),
            },
        }
    }

    /// The state after a sleep of a wait has passed, in the phase `resumed`.
    pub open spec fn after_sleep(self, event: EventView, resumed: PhaseView) -> OrchestratorView {
        match event {
            EventView::Completed => self.in_phase(resumed),
            _ => self.failed(UpgradeErrorView::UnexpectedEvent),
        }
    }

    /// The state after the answer to the request of the wait for drains.
    pub open spec fn next_awaiting_drain(
        self,
        waiter: QuiescenceWaiter,
        event: EventView,
    ) -> OrchestratorView {
        match waiter.due() {
            WaitAction::Sleep { .. } => self.after_sleep(
                event,
                PhaseView::AwaitingDrain { waiter: waiter.after_sleep() },
            ),
            WaitAction::Poll => match event {
                EventView::StorageNodes(nodes) => self.after_drain_reading(
                    waiter,
                    cluster_is_draining(nodes),
                ),
                EventView::Failed => self.failed(self.request_failure()),
                _ => self.failed(UpgradeErrorView::UnexpectedEvent),
            },
            WaitAction::Return => self.failed(UpgradeErrorView::UnexpectedEvent),
        }
    }

    /// The state after the answer to the request of the wait for rebuilds.
    /// After a pause the volume inventory is read from its first page again.
    pub open spec fn next_awaiting_rebuild(
        self,
        waiter: QuiescenceWaiter,
        event: EventView,
    ) -> OrchestratorView {
        match waiter.due() {
            WaitAction::Sleep { .. } => self.after_sleep(
                event,
                PhaseView::AwaitingRebuild {
                    waiter: waiter.after_sleep(),
                    starting_token: FIRST_PAGE_TOKEN,
                },
            ),
            WaitAction::Poll => match event {
                EventView::Volumes(page) => self.after_volumes(waiter, page.scan_step()),
                EventView::Failed => self.failed(self.request_failure()),
                _ => self.failed(UpgradeErrorView::UnexpectedEvent),
            },
            WaitAction::Return => self.failed(UpgradeErrorView::UnexpectedEvent),
        }
    }

    /// The state after the answer to the request of the wait for the new pod.
    pub open spec fn next_awaiting_ready(
        self,
        waiter: QuiescenceWaiter,
        event: EventView,
    ) -> OrchestratorView {
        match waiter.due() {
            WaitAction::Sleep { .. } => self.after_sleep(
                event,
                PhaseView::AwaitingReady { waiter: waiter.after_sleep() },
            ),
            WaitAction::Poll => match event {
                EventView::Pods(pods) => self.after_ready_reading(
                    waiter,
                    data_plane_pod_running(self.node_name, self.namespace, pods),
                ),
                EventView::Failed => self.failed(self.request_failure()),
                _ => self.failed(UpgradeErrorView::UnexpectedEvent),
            },
            WaitAction::Return => self.failed(UpgradeErrorView::UnexpectedEvent),
        }
    }

    /// The state after the answer to the request under way.
    ///
    /// An upgrade that has finished or failed stays as it is. A request that
    /// failed fails the upgrade with [`OrchestratorView::request_failure`].
    /// An answer that does not fit the request fails the upgrade with
    /// [`UpgradeErrorView::UnexpectedEvent`].
    pub open spec fn next(self, event: EventView) -> OrchestratorView {
        match self.phase {
            PhaseView::Finished | PhaseView::Failed { .. } => self,
            PhaseView::ListingInstances => match event {
                EventView::Pods(pods) => OrchestratorView {
                    instances: pods,
                    position: 0,
                    ..self
                }.begin_round(),
                EventView::Failed => self.failed(self.request_failure()),
                _ => self.failed(UpgradeErrorView::UnexpectedEvent),
            },
            PhaseView::RecordingCordonState => match event {
                EventView::StorageNode(node) => self.after_storage_node(node.is_cordoned()),
                EventView::Failed => self.failed(self.request_failure()),
                _ => self.failed(UpgradeErrorView::UnexpectedEvent),
            },
            PhaseView::Draining => match event {
                EventView::Completed => self.in_phase(
                    PhaseView::AwaitingDrain { waiter: drain_wait() },
                ),
                EventView::Failed => self.failed(self.request_failure()),
                _ => self.failed(UpgradeErrorView::UnexpectedEvent),
            },
            PhaseView::AwaitingDrain { waiter } => self.next_awaiting_drain(waiter, event),
            PhaseView::AwaitingRebuild { waiter, .. } => self.next_awaiting_rebuild(waiter, event),
            PhaseView::Replacing => match event {
                EventView::Completed => self.after_replacement(),
                EventView::Failed => self.failed(self.request_failure()),
                _ => self.failed(UpgradeErrorView::UnexpectedEvent),
            },
            PhaseView::Uncordoning => match event {
                EventView::Completed => self.in_phase(
                    PhaseView::AwaitingReady { waiter: ready_wait() },
                ),
                EventView::Failed => self.failed(self.request_failure()),
                _ => self.failed(UpgradeErrorView::UnexpectedEvent),
            },
            PhaseView::AwaitingReady { waiter } => self.next_awaiting_ready(waiter, event),
            PhaseView::Verifying { component } => match event {
                EventView::Pods(pods) => self.after_component(component, component_verdict(pods)),
                EventView::Failed => self.failed(self.request_failure()),
                _ => self.failed(UpgradeErrorView::UnexpectedEvent),
            },
        }
    }
}

/// Begins the upgrade of the data plane of the storage product in `namespace`.
pub fn upgrade_data_plane(namespace: String) -> (upgrade: UpgradeOrchestrator)
    ensures
        upgrade@ == OrchestratorView::initial(namespace@),
{
    let instances: Vec<Pod> = Vec::new();
    assert(pod_views(instances@) =~= Seq::empty());
    UpgradeOrchestrator {
        namespace,
        instances,
        position: 0,
        pod_name: String::new(),
        node_name: String::new(),
        was_cordoned: false,
        phase: Phase::ListingInstances,
    }
}

/// Begins the upgrade of the data plane if the arguments ask for it. The
/// data plane is only restarted on request: without it, the upgrade ends
/// with the upgrade of the control plane.
pub fn data_plane_upgrade(opts: &CliArgs) -> (upgrade: Option<UpgradeOrchestrator>)
    ensures
        match upgrade {
            Some(upgrade) => opts@.restart_data_plane && upgrade@ == OrchestratorView::initial(
                opts@.namespace,
            ),
            None => !opts@.restart_data_plane,
        },
{
    if opts.restart_data_plane() {
        Some(upgrade_data_plane(opts.namespace()))
    } else {
        None
    }
}

/// The request of a wait: the sleep that is due, or `look`.
fn wait_request(waiter: &QuiescenceWaiter, look: Action) -> (action: Action)
    ensures
        action@ == OrchestratorView::wait_request(*waiter, look@),
{
    match waiter.action() {
        WaitAction::Sleep { seconds } => Action::Sleep { seconds },
        WaitAction::Poll => look,
        WaitAction::Return => Action::Fail(UpgradeError::UnexpectedEvent),
    }
}

impl UpgradeOrchestrator {
    fn in_phase(self, phase: Phase) -> (next: Self)
        ensures
            next@ == self@.in_phase(phase@),
    {
        UpgradeOrchestrator { phase, ..self }
    }

    fn fail(self, error: UpgradeError) -> (next: Self)
        ensures
            next@ == self@.failed(error@),
    {
        self.in_phase(Phase::Failed { error })
    }

    fn unexpected(self) -> (next: Self)
        ensures
            next@ == self@.failed(UpgradeErrorView::UnexpectedEvent),
    {
        self.fail(UpgradeError::UnexpectedEvent)
    }

    fn request_failed(self) -> (next: Self)
        ensures
            next@ == self@.failed(self@.request_failure()),
    {
        let error = self.request_failure();
        self.fail(error)
    }

    fn begin_round(self) -> (next: Self)
        ensures
            next@ == self@.begin_round(),
    {
        if self.position < self.instances.len() {
            let pod = &self.instances[self.position];
            assert(pod@ == self@.instances[self.position as int]);
            match pod.resolve_node(&self.namespace) {
                Err(error) => self.fail(error),
                Ok(node_name) => {
                    let pod_name = pod.name.clone();
                    UpgradeOrchestrator {
                        pod_name,
                        node_name,
                        phase: Phase::RecordingCordonState,
                        ..self
                    }
                },
            }
        } else {
            self.in_phase(Phase::Finished)
        }
    }

    fn next_round(self) -> (next: Self)
        ensures
            next@ == self@.next_round(),
    {
        if self.position < self.instances.len() {
            let position = self.position + 1;
            UpgradeOrchestrator { position, ..self }.begin_round()
        } else {
            self.in_phase(Phase::Finished)
        }
    }

    /// The request that the caller has to carry out next. It stays the same
    /// until [`UpgradeOrchestrator::handle`] is told what came of it.
    pub fn action(&self) -> (action: Action)
        ensures
            action@ == self@.pending(),
    {
        match &self.phase {
            Phase::ListingInstances => Action::ListPods {
                label: String::from_str(IO_ENGINE_LABEL),
                namespace: self.namespace.clone(),
            },
            Phase::RecordingCordonState => Action::GetStorageNode {
                node_name: self.node_name.clone(),
            },
            Phase::Draining => Action::DrainStorageNode {
                node_name: self.node_name.clone(),
                label: String::from_str(DRAIN_FOR_UPGRADE),
            },
            Phase::AwaitingDrain { waiter } => wait_request(waiter, Action::ListStorageNodes),
            Phase::AwaitingRebuild { waiter, starting_token } => wait_request(
                waiter,
                Action::ListVolumes {
                    max_entries: VOLUME_PAGE_SIZE,
                    starting_token: *starting_token,
                },
            ),
            Phase::Replacing => Action::DeletePod {
                name: self.pod_name.clone(),
                namespace: self.namespace.clone(),
            },
            Phase::Uncordoning => Action::UncordonStorageNode {
                node_name: self.node_name.clone(),
                label: String::from_str(DRAIN_FOR_UPGRADE),
            },
            Phase::AwaitingReady { waiter } => wait_request(
                waiter,
                Action::ListPods {
                    label: String::from_str(IO_ENGINE_LABEL),
                    namespace: self.namespace.clone(),
                },
            ),
            Phase::Verifying { component } => Action::ListPods {
                label: component.label(),
                namespace: self.namespace.clone(),
            },
            Phase::Finished => Action::Finish,
            Phase::Failed { error } => Action::Fail(error.clone()),
        }
    }

    /// The error that stands for the failure of the request under way.
    pub fn request_failure(&self) -> (error: UpgradeError)
        ensures
            error@ == self@.request_failure(),
    {
        match self.action() {
            Action::ListPods { label, namespace } => UpgradeError::ListPodsWithLabel { label, namespace },
            Action::GetStorageNode { node_name } => UpgradeError::GetStorageNode { node_name },
            Action::ListStorageNodes => UpgradeError::ListStorageNodes,
            Action::DrainStorageNode { node_name, .. } => UpgradeError::DrainStorageNode { node_name },
            Action::UncordonStorageNode { node_name, .. } => UpgradeError::StorageNodeUncordon {
                node_name,
            },
            Action::ListVolumes { .. } => UpgradeError::ListStorageVolumes,
            Action::DeletePod { name, .. } => UpgradeError::PodDeleteError {
                name,
                node: self.node_name.clone(),
            },
            Action::Sleep { .. } => UpgradeError::UnexpectedEvent,
            Action::Finish => UpgradeError::UnexpectedEvent,
            Action::Fail(error) => error,
        }
    }

    fn after_sleep(self, event: Event, resumed: Phase) -> (next: Self)
        ensures
            next@ == self@.after_sleep(event@, resumed@),
    {
        match event {
            Event::Completed => self.in_phase(resumed),
            _ => self.unexpected(),
        }
    }

    fn after_drain_reading(self, waiter: QuiescenceWaiter, draining: Result<bool, UpgradeError>) -> (next:
        Self)
        ensures
            next@ == self@.after_drain_reading(waiter, crate::error::flag_view(draining)),
    {
        match draining {
            Err(error) => self.fail(error),
            Ok(busy) => {
                let waiter = waiter.observed(busy);
                if waiter.is_quiescent() {
                    self.in_phase(
                        Phase::AwaitingRebuild {
                            waiter: QuiescenceWaiter::new(POLL_INTERVAL_SECS, REBUILD_GRACE_SECS),
                            starting_token: FIRST_PAGE_TOKEN,
                        },
                    )
                } else {
                    self.in_phase(Phase::AwaitingDrain { waiter })
                }
            },
        }
    }

    fn after_volumes(self, waiter: QuiescenceWaiter, step: ScanStep) -> (next: Self)
        ensures
            next@ == self@.after_volumes(waiter, step),
    {
        match step {
            ScanStep::NextPage { starting_token } => self.in_phase(
                Phase::AwaitingRebuild { waiter, starting_token },
            ),
            ScanStep::Rebuilding => self.in_phase(
                Phase::AwaitingRebuild {
                    waiter: waiter.observed(true),
                    starting_token: FIRST_PAGE_TOKEN,
                },
            ),
            ScanStep::Quiescent => {
                let waiter = waiter.observed(false);
                if waiter.is_quiescent() {
                    self.in_phase(Phase::Replacing)
                } else {
                    self.in_phase(
                        Phase::AwaitingRebuild { waiter, starting_token: FIRST_PAGE_TOKEN },
                    )
                }
            },
        }
    }

    fn after_ready_reading(self, waiter: QuiescenceWaiter, running: Result<bool, UpgradeError>) -> (next:
        Self)
        ensures
            next@ == self@.after_ready_reading(waiter, crate::error::flag_view(running)),
    {
        match running {
            Err(error) => self.fail(error),
            Ok(running) => {
                let waiter = waiter.observed(!running);
                if waiter.is_quiescent() {
                    self.in_phase(Phase::Verifying { component: Component::first() })
                } else {
                    self.in_phase(Phase::AwaitingReady { waiter })
                }
            },
        }
    }

    fn after_component(self, component: Component, verdict: Result<(), UpgradeError>) -> (next: Self)
        ensures
            next@ == self@.after_component(component, crate::error::check_view(verdict)),
    {
        match verdict {
            Err(error) => self.fail(error),
            Ok(()) => match component.next() {
                Some(component) => self.in_phase(Phase::Verifying { component }),
                None => self.next_round(),
            },
        }
    }

    fn next_awaiting_drain(self, waiter: QuiescenceWaiter, event: Event) -> (next: Self)
        ensures
            next@ == self@.next_awaiting_drain(waiter, event@),
    {
        match waiter.action() {
            WaitAction::Sleep { .. } => self.after_sleep(
                event,
                Phase::AwaitingDrain { waiter: waiter.elapsed() },
            ),
            WaitAction::Poll => match event {
                Event::StorageNodes(nodes) => {
                    let draining = is_draining(&nodes);
                    self.after_drain_reading(waiter, draining)
                },
                Event::Failed => self.request_failed(),
                _ => self.unexpected(),
            },
            WaitAction::Return => self.unexpected(),
        }
    }

    fn next_awaiting_rebuild(self, waiter: QuiescenceWaiter, event: Event) -> (next: Self)
        ensures
            next@ == self@.next_awaiting_rebuild(waiter, event@),
    {
        match waiter.action() {
            WaitAction::Sleep { .. } => self.after_sleep(
                event,
                Phase::AwaitingRebuild {
                    waiter: waiter.elapsed(),
                    starting_token: FIRST_PAGE_TOKEN,
                },
            ),
            WaitAction::Poll => match event {
                Event::Volumes(page) => {
                    let step = page.scan_step();
                    self.after_volumes(waiter, step)
                },
                Event::Failed => self.request_failed(),
                _ => self.unexpected(),
            },
            WaitAction::Return => self.unexpected(),
        }
    }

    fn next_awaiting_ready(self, waiter: QuiescenceWaiter, event: Event) -> (next: Self)
        ensures
            next@ == self@.next_awaiting_ready(waiter, event@),
    {
        match waiter.action() {
            WaitAction::Sleep { .. } => self.after_sleep(
                event,
                Phase::AwaitingReady { waiter: waiter.elapsed() },
            ),
            WaitAction::Poll => match event {
                Event::Pods(pods) => {
                    let running = is_data_plane_pod_running(
                        &self.node_name,
                        &self.namespace,
                        &pods,
                    );
                    self.after_ready_reading(waiter, running)
                },
                Event::Failed => self.request_failed(),
                _ => self.unexpected(),
            },
            WaitAction::Return => self.unexpected(),
        }
    }

    /// Takes the answer to the request under way and moves on to the next request.
    ///
    /// An upgrade that has finished or failed stays as it is, whatever the
    /// event. [`Event::Failed`] fails the upgrade with the error that names
    /// the request. An event that is no answer to the request under way
    /// fails the upgrade with [`UpgradeError::UnexpectedEvent`].
    pub fn handle(self, event: Event) -> (next: Self)
        ensures
            next@ == self@.next(event@),
    {
        match &self.phase {
            Phase::Finished => self,
            Phase::Failed { .. } => self,
            Phase::ListingInstances => match event {
                Event::Pods(pods) => UpgradeOrchestrator {
                    instances: pods,
                    position: 0,
                    ..self
                }.begin_round(),
                Event::Failed => self.request_failed(),
                _ => self.unexpected(),
            },
            Phase::RecordingCordonState => match event {
                Event::StorageNode(node) => match is_node_cordoned(&node) {
                    Err(error) => self.fail(error),
                    Ok(was_cordoned) => UpgradeOrchestrator {
                        was_cordoned,
                        phase: Phase::Draining,
                        ..self
                    },
                },
                Event::Failed => self.request_failed(),
                _ => self.unexpected(),
            },
            Phase::Draining => match event {
                Event::Completed => self.in_phase(
                    Phase::AwaitingDrain { waiter: QuiescenceWaiter::new(POLL_INTERVAL_SECS, 0) },
                ),
                Event::Failed => self.request_failed(),
                _ => self.unexpected(),
            },
            Phase::AwaitingDrain { waiter } => {
                let waiter = *waiter;
                self.next_awaiting_drain(waiter, event)
            },
            Phase::AwaitingRebuild { waiter, .. } => {
                let waiter = *waiter;
                self.next_awaiting_rebuild(waiter, event)
            },
            Phase::Replacing => match event {
                Event::Completed => {
                    if self.was_cordoned {
                        self.in_phase(
                            Phase::AwaitingReady {
                                waiter: QuiescenceWaiter::new(POLL_INTERVAL_SECS, 0),
                            },
                        )
                    } else {
                        self.in_phase(Phase::Uncordoning)
                    }
                },
                Event::Failed => self.request_failed(),
                _ => self.unexpected(),
            },
            Phase::Uncordoning => match event {
                Event::Completed => self.in_phase(
                    Phase::AwaitingReady { waiter: QuiescenceWaiter::new(POLL_INTERVAL_SECS, 0) },
                ),
                Event::Failed => self.request_failed(),
                _ => self.unexpected(),
            },
            Phase::AwaitingReady { waiter } => {
                let waiter = *waiter;
                self.next_awaiting_ready(waiter, event)
            },
            Phase::Verifying { component } => {
                let component = *component;
                match event {
                    Event::Pods(pods) => {
                        let verdict = verify_component(&pods);
                        self.after_component(component, verdict)
                    },
                    Event::Failed => self.request_failed(),
                    _ => self.unexpected(),
                }
            },
        }
    }
}

} // verus!
