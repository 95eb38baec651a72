//! Workload instances: what the upgrade reads of a pod.
//!
//! A [`Pod`] is a snapshot. It is taken anew before every decision and never
//! kept from one look at the cluster to the next.

use crate::constants::{CONDITION_TRUE, READY_CONDITION};
use crate::error::{text_view, UpgradeError, UpgradeErrorView};
use vstd::prelude::*;

verus! {

/// One named condition of a pod's status.
#[derive(Debug, PartialEq, Eq)]
pub struct PodCondition {
    /// The condition's name, such as `Ready`.
    pub type_: String,
    /// `True`, `False` or `Unknown`.
    pub status: String,
}

/// The mathematical value of a [`PodCondition`].
pub struct PodConditionView {
    pub type_: Seq<char>,
    pub status: Seq<char>,
}

impl PodConditionView {
    /// This is the `Ready` condition, and it holds.
    pub open spec fn reports_ready(self) -> bool {
        self.type_ == READY_CONDITION@ && self.status == CONDITION_TRUE@
    }
}

impl View for PodCondition {
    type V = PodConditionView;

    open spec fn view(&self) -> PodConditionView {
        PodConditionView { type_: self.type_@, status: self.status@ }
    }
}

impl Clone for PodCondition {
    fn clone(&self) -> (copy: Self)
        ensures
            copy@ == self@,
    {
        PodCondition { type_: self.type_.clone(), status: self.status.clone() }
    }
}

impl PodCondition {
    /// Whether this is the `Ready` condition with status `True`.
    pub fn reports_ready(&self) -> (ready: bool)
        ensures
            ready == self@.reports_ready(),
    {
        self.type_ == String::from_str(READY_CONDITION) && self.status == String::from_str(
            CONDITION_TRUE,
        )
    }
}

/// Where a pod runs, as far as its record says.
#[derive(Debug, PartialEq, Eq)]
pub enum NodeAssignment {
    /// The record has no spec at all.
    MissingSpec,
    /// The pod has a spec but no node yet.
    Unscheduled,
    /// The pod runs on the named node.
    Node(String),
}

/// The mathematical value of a [`NodeAssignment`].
pub enum NodeAssignmentView {
    MissingSpec,
    Unscheduled,
    Node(Seq<char>),
}

impl View for NodeAssignment {
    type V = NodeAssignmentView;

    open spec fn view(&self) -> NodeAssignmentView {
        match self {
            NodeAssignment::MissingSpec => NodeAssignmentView::MissingSpec,
            NodeAssignment::Unscheduled => NodeAssignmentView::Unscheduled,
            NodeAssignment::Node(name) => NodeAssignmentView::Node(name@),
        }
    }
}

impl Clone for NodeAssignment {
    fn clone(&self) -> (copy: Self)
        ensures
            copy@ == self@,
    {
        match self {
            NodeAssignment::MissingSpec => NodeAssignment::MissingSpec,
            NodeAssignment::Unscheduled => NodeAssignment::Unscheduled,
            NodeAssignment::Node(name) => NodeAssignment::Node(name.clone()),
        }
    }
}

/// A workload instance.
#[derive(Debug, PartialEq, Eq)]
pub struct Pod {
    /// The pod's name; empty where the record has none.
    pub name: String,
    /// The namespace that the record itself names, if any.
    pub namespace: Option<String>,
    /// The node that hosts the pod.
    pub node: NodeAssignment,
    /// The conditions of the pod's status; `None` where the record has no
    /// status or the status has no conditions.
    pub conditions: Option<Vec<PodCondition>>,
}

/// The mathematical value of a [`Pod`].
pub struct PodView {
    pub name: Seq<char>,
    pub namespace: Option<Seq<char>>,
    pub node: NodeAssignmentView,
    pub conditions: Option<Seq<PodConditionView>>,
}

/// The values of a sequence of conditions.
pub open spec fn condition_views(conditions: Seq<PodCondition>) -> Seq<PodConditionView> {
    Seq::new(conditions.len(), |i: int| conditions[i]@)
}

/// The values of a sequence of pods.
pub open spec fn pod_views(pods: Seq<Pod>) -> Seq<PodView> {
    Seq::new(pods.len(), |i: int| pods[i]@)
}

impl View for Pod {
    type V = PodView;

    open spec fn view(&self) -> PodView {
        PodView {
            name: self.name@,
            namespace: match self.namespace {
                Some(namespace) => Some(namespace@),
                None => None,
            },
            node: self.node@,
            conditions: match self.conditions {
                Some(conditions) => Some(condition_views(conditions@)),
                None => None,
            },
        }
    }
}

impl PodView {
    /// The pod is ready: its status lists the `Ready` condition as `True`.
    pub open spec fn is_ready(self) -> bool {
        self.conditions matches Some(conditions) && exists|i: int|
            0 <= i < conditions.len() && (#[trigger] conditions[i]).reports_ready()
    }

    /// The namespace that the record names, or the empty string.
    pub open spec fn namespace_or_default(self) -> Seq<char> {
        match self.namespace {
            Some(namespace) => namespace,
            None => Seq::empty(),
        }
    }

    /// The node that hosts the pod, or the reason why it cannot be told.
    /// `namespace` is the namespace that the pod was listed in.
    pub open spec fn resolve_node(self, namespace: Seq<char>) -> Result<Seq<char>, UpgradeErrorView> {
        match self.node {
            NodeAssignmentView::MissingSpec => Err(
                UpgradeErrorView::EmptyPodSpec { name: self.name, namespace },
            ),
            NodeAssignmentView::Unscheduled => Err(
                UpgradeErrorView::EmptyPodNodeName { name: self.name, namespace },
            ),
            NodeAssignmentView::Node(node_name) => Ok(node_name),
        }
    }
}

/// Whether one of the conditions is the `Ready` condition with status `True`.
fn any_reports_ready(conditions: &Vec<PodCondition>) -> (ready: bool)
    ensures
        ready == exists|i: int|
            0 <= i < condition_views(conditions@).len() && (#[trigger] condition_views(
                conditions@,
            )[i]).reports_ready(),
{
    let mut i: usize = 0;
    while i < conditions.len()
        invariant
            i <= conditions.len(),
            forall|j: int|
                0 <= j < i ==> !(#[trigger] condition_views(conditions@)[j]).reports_ready(),
        decreases conditions.len() - i,
    {
        if conditions[i].reports_ready() {
            assert(condition_views(conditions@)[i as int].reports_ready());
            return true;
        }
        i += 1;
    }
    false
}

impl Pod {
    /// Whether the pod is ready.
    pub fn is_ready(&self) -> (ready: bool)
        ensures
            ready == self@.is_ready(),
    {
        match &self.conditions {
            None => false,
            Some(conditions) => {
                let ready = any_reports_ready(conditions);
                assert(self@.conditions == Some(condition_views(conditions@)));
                ready
            },
        }
    }

    /// The namespace that the record names, or the empty string.
    pub fn namespace_or_default(&self) -> (namespace: String)
        ensures
            namespace@ == self@.namespace_or_default(),
    {
        match &self.namespace {
            Some(namespace) => namespace.clone(),
            None => String::new(),
        }
    }

    /// Finds the node that hosts the pod. `namespace` is the namespace that
    /// the pod was listed in; it is named in the error.
    ///
    /// A pod without a spec, or without a node, is a fault of the cluster's
    /// records and not a passing state: the caller must not retry.
    pub fn resolve_node(&self, namespace: &String) -> (node: Result<String, UpgradeError>)
        ensures
            text_view(node) == self@.resolve_node(namespace@),
    {
        match &self.node {
            NodeAssignment::MissingSpec => Err(
                UpgradeError::EmptyPodSpec { name: self.name.clone(), namespace: namespace.clone() },
            ),
            NodeAssignment::Unscheduled => Err(
                UpgradeError::EmptyPodNodeName { name: self.name.clone(), namespace: namespace.clone() },
            ),
            NodeAssignment::Node(node_name) => Ok(node_name.clone()),
        }
    }
}

impl Clone for Pod {
    fn clone(&self) -> (copy: Self)
        ensures
            copy@ == self@,
    {
        let conditions = match &self.conditions {
            None => None,
            Some(conditions) => {
                let mut copies: Vec<PodCondition> = Vec::new();
                let mut i: usize = 0;
                while i < conditions.len()
                    invariant
                        i <= conditions.len(),
                        copies@.len() == i,
                        forall|j: int| 0 <= j < i ==> (#[trigger] copies@[j])@ == conditions@[j]@,
                    decreases conditions.len() - i,
                {
                    copies.push(conditions[i].clone());
                    i += 1;
                }
                assert(condition_views(copies@) =~= condition_views(conditions@));
                Some(copies)
            },
        };
        let namespace = match &self.namespace {
            Some(namespace) => Some(namespace.clone()),
            None => None,
        };
        Pod { name: self.name.clone(), namespace, node: self.node.clone(), conditions }
    }
}

} // verus!
