//! What the upgrade asks of its caller, and what the caller answers.
//!
//! The upgrade decides; its caller acts. An [`Action`] is one request to the
//! cluster, to the storage control plane, or to the clock. The caller carries
//! it out and reports what came of it as an [`Event`]. When a request fails,
//! the caller keeps the cause and reports [`Event::Failed`]; the upgrade
//! answers with the [`UpgradeError`] that names the operation and its target.

use crate::drain::{node_views, StorageNode, StorageNodeView};
use crate::error::{UpgradeError, UpgradeErrorView};
use crate::pod::{pod_views, Pod, PodView};
use crate::rebuild::{Volumes, VolumesView};
use vstd::prelude::*;

verus! {

/// A request of the upgrade to its caller.
#[derive(Debug, PartialEq, Eq)]
pub enum Action {
    /// List the pods of the namespace that carry the label.
    /// Answer: [`Event::Pods`].
    ListPods { label: String, namespace: String },
    /// Fetch one storage node. Answer: [`Event::StorageNode`].
    GetStorageNode { node_name: String },
    /// Fetch all storage nodes. Answer: [`Event::StorageNodes`].
    ListStorageNodes,
    /// Drain the storage node under the label. Answer: [`Event::Completed`].
    DrainStorageNode { node_name: String, label: String },
    /// Remove the cordon that the label put on the storage node.
    /// Answer: [`Event::Completed`].
    UncordonStorageNode { node_name: String, label: String },
    /// Fetch one page of the volume inventory, of at most `max_entries`
    /// volumes, from the token on. Answer: [`Event::Volumes`].
    ListVolumes { max_entries: isize, starting_token: isize },
    /// Delete the pod, for its controller to create it anew.
    /// Answer: [`Event::Completed`].
    DeletePod { name: String, namespace: String },
    /// Let the seconds pass. Answer: [`Event::Completed`].
    Sleep { seconds: u64 },
    /// Nothing is left to do: the upgrade has succeeded.
    Finish,
    /// Nothing can be done any more: the upgrade has failed.
    Fail(UpgradeError),
}

/// The mathematical value of an [`Action`].
pub enum ActionView {
    ListPods { label: Seq<char>, namespace: Seq<char> },
    GetStorageNode { node_name: Seq<char> },
    ListStorageNodes,
    DrainStorageNode { node_name: Seq<char>, label: Seq<char> },
    UncordonStorageNode { node_name: Seq<char>, label: Seq<char> },
    ListVolumes { max_entries: isize, starting_token: isize },
    DeletePod { name: Seq<char>, namespace: Seq<char> },
    Sleep { seconds: u64 },
    Finish,
    Fail(UpgradeErrorView),
}

impl View for Action {
    type V = ActionView;

    open spec fn view(&self) -> ActionView {
        match self {
            Action::ListPods { label, namespace } => ActionView::ListPods {
                label: label@,
                namespace: namespace@,
            },
            Action::GetStorageNode { node_name } => ActionView::GetStorageNode {
                node_name: node_name@,
            },
            Action::ListStorageNodes => ActionView::ListStorageNodes,
            Action::DrainStorageNode { node_name, label } => ActionView::DrainStorageNode {
                node_name: node_name@,
                label: label@,
            },
            Action::UncordonStorageNode { node_name, label } => ActionView::UncordonStorageNode {
                node_name: node_name@,
                label: label@,
            },
            Action::ListVolumes { max_entries, starting_token } => ActionView::ListVolumes {
                max_entries: *max_entries,
                starting_token: *starting_token,
            },
            Action::DeletePod { name, namespace } => ActionView::DeletePod {
                name: name@,
                namespace: namespace@,
            },
            Action::Sleep { seconds } => ActionView::Sleep { seconds: *seconds },
            Action::Finish => ActionView::Finish,
            Action::Fail(error) => ActionView::Fail(error@),
        }
    }
}

/// What came of a request.
#[derive(Debug, PartialEq, Eq)]
pub enum Event {
    /// The pods that were listed.
    Pods(Vec<Pod>),
    /// The storage node that was fetched.
    StorageNode(StorageNode),
    /// The storage nodes that were fetched.
    StorageNodes(Vec<StorageNode>),
    /// The page of the volume inventory that was fetched.
    Volumes(Volumes),
    /// The request was carried out and has nothing to return.
    Completed,
    /// The request failed.
    Failed,
}

/// The mathematical value of an [`Event`].
pub enum EventView {
    Pods(Seq<PodView>),
    StorageNode(StorageNodeView),
    StorageNodes(Seq<StorageNodeView>),
    Volumes(VolumesView),
    Completed,
    Failed,
}

impl View for Event {
    type V = EventView;

    open spec fn view(&self) -> EventView {
        match self {
            Event::Pods(pods) => EventView::Pods(pod_views(pods@)),
            Event::StorageNode(node) => EventView::StorageNode(node@),
            Event::StorageNodes(nodes) => EventView::StorageNodes(node_views(nodes@)),
            Event::Volumes(page) => EventView::Volumes(page@),
            Event::Completed => EventView::Completed,
            Event::Failed => EventView::Failed,
        }
    }
}

} // verus!
