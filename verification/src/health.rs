//! The health of the control plane: every pod of every component is ready.

use crate::constants::{AGENT_CORE_LABEL, API_REST_LABEL, ETCD_LABEL};
use crate::error::{check_view, UpgradeError, UpgradeErrorView};
use crate::pod::{pod_views, Pod, PodView};
use crate::search::{first, is_first, lemma_first_absent, lemma_first_found};
use vstd::prelude::*;

verus! {

/// The components that must be healthy before the upgrade moves on, in the
/// order in which they are looked at.
#[derive(Debug, PartialEq, Eq, Clone, Copy, Structural)]
pub enum Component {
    /// The core of the storage control plane.
    Core,
    /// The REST gateway of the storage control plane.
    ApiGateway,
    /// The coordination store.
    Store,
}

impl Component {
    /// The label selector that finds the component's pods.
    pub open spec fn selector(self) -> Seq<char> {
        match self {
            Component::Core => AGENT_CORE_LABEL@,
            Component::ApiGateway => API_REST_LABEL@,
            Component::Store => ETCD_LABEL@,
        }
    }

    /// The component that is looked at after this one, if any.
    pub open spec fn following(self) -> Option<Component> {
        match self {
            Component::Core => Some(Component::ApiGateway),
            Component::ApiGateway => Some(Component::Store),
            Component::Store => None,
        }
    }

    /// The component that is looked at first.
    pub fn first() -> (component: Component)
        ensures
            component == Component::Core,
    {
        Component::Core
    }

    /// The label selector that finds the component's pods.
    pub fn label(&self) -> (label: String)
        ensures
            label@ == self.selector(),
    {
        match self {
            Component::Core => String::from_str(AGENT_CORE_LABEL),
            Component::ApiGateway => String::from_str(API_REST_LABEL),
            Component::Store => String::from_str(ETCD_LABEL),
        }
    }

    /// The component that is looked at after this one, if any.
    pub fn next(&self) -> (next: Option<Component>)
        ensures
            next == self.following(),
    {
        match self {
            Component::Core => Some(Component::ApiGateway),
            Component::ApiGateway => Some(Component::Store),
            Component::Store => None,
        }
    }
}

/// The pods that are not ready.
pub open spec fn unready() -> spec_fn(PodView) -> bool {
    |pod: PodView| !pod.is_ready()
}

/// Whether all the pods are ready and, if not, the name and the namespace of
/// the first one that is not. Where all are ready, both strings are empty.
pub open spec fn readiness_report(pods: Seq<PodView>) -> (bool, Seq<char>, Seq<char>) {
    match first(pods, unready()) {
        None => (true, Seq::empty(), Seq::empty()),
        Some(k) => (false, pods[k].name, pods[k].namespace_or_default()),
    }
}

/// The verdict on one component, from its pods.
pub open spec fn component_verdict(pods: Seq<PodView>) -> Result<(), UpgradeErrorView> {
    let report = readiness_report(pods);
    if report.0 {
        Ok(())
    } else {
        Err(UpgradeErrorView::ValidatingPodRunningStatus { name: report.1, namespace: report.2 })
    }
}

/// Tells whether all the pods are ready. If one is not, the second and third
/// part of the answer name the first such pod and its namespace.
pub fn all_pods_are_ready(pod_list: &Vec<Pod>) -> (report: (bool, String, String))
    ensures
        (report.0, report.1@, report.2@) == readiness_report(pod_views(pod_list@)),
{
    let ghost views = pod_views(pod_list@);
    let mut i: usize = 0;
    while i < pod_list.len()
        invariant
            i <= pod_list.len(),
            views == pod_views(pod_list@),
            forall|j: int| 0 <= j < i ==> !#[trigger] unready()(views[j]),
        decreases pod_list.len() - i,
    {
        let pod = &pod_list[i];
        assert(pod@ == views[i as int]);
        if !pod.is_ready() {
            proof {
                assert(is_first(views, unready(), i as int));
                lemma_first_found(views, unready(), i as int);
            }
            return (false, pod.name.clone(), pod.namespace_or_default());
        }
        i += 1;
    }
    proof {
        lemma_first_absent(views, unready());
    }
    (true, String::new(), String::new())
}

/// Passes a component whose pods are all ready, and fails it with the first
/// pod that is not.
pub fn verify_component(pod_list: &Vec<Pod>) -> (verdict: Result<(), UpgradeError>)
    ensures
        check_view(verdict) == component_verdict(pod_views(pod_list@)),
{
    let report = all_pods_are_ready(pod_list);
    if report.0 {
        Ok(())
    } else {
        Err(UpgradeError::ValidatingPodRunningStatus { name: report.1, namespace: report.2 })
    }
}

} // verus!
