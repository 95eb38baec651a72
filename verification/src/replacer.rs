//! Whether the replacement of a data-plane pod has come up on its node.

use crate::error::{flag_view, UpgradeError, UpgradeErrorView};
use crate::pod::{pod_views, NodeAssignment, NodeAssignmentView, Pod, PodView};
use crate::search::{
    first, is_first, is_last, last, lemma_first_absent, lemma_first_found, lemma_last_absent,
    lemma_last_found,
};
use vstd::prelude::*;

verus! {

/// The pods whose node cannot be told.
pub open spec fn unresolved() -> spec_fn(PodView) -> bool {
    |pod: PodView| !(pod.node is Node)
}

/// The pods that run on `node`.
pub open spec fn hosted_on(node: Seq<char>) -> spec_fn(PodView) -> bool {
    |pod: PodView| pod.node == NodeAssignmentView::Node(node)
}

/// Whether the data-plane pod on `node` is ready, among the data-plane pods
/// `pods` that were listed in `namespace`.
///
/// Every pod of the list must have a node: the first one that has none fails
/// the whole look. Otherwise the last pod of the list that runs on `node`
/// decides. While a pod is being replaced, two pods may show on its node for
/// a moment; the answer then goes by the later one alone. With no pod on the
/// node the answer is no.
pub open spec fn data_plane_pod_running(
    node: Seq<char>,
    namespace: Seq<char>,
    pods: Seq<PodView>,
) -> Result<bool, UpgradeErrorView> {
    match first(pods, unresolved()) {
        Some(k) => match pods[k].resolve_node(namespace) {
            Err(error) => Err(error),
            Ok(_) => Ok(false),
        },
        None => match last(pods, hosted_on(node)) {
            Some(k) => Ok(pods[k].is_ready()),
            None => Ok(false),
        },
    }
}

/// Whether the data-plane pod on `node` is ready. `pod_list` holds the
/// data-plane pods as they were just listed in `namespace`.
pub fn is_data_plane_pod_running(node: &String, namespace: &String, pod_list: &Vec<Pod>) -> (running:
    Result<bool, UpgradeError>)
    ensures
        flag_view(running) == data_plane_pod_running(node@, namespace@, pod_views(pod_list@)),
{
    let ghost views = pod_views(pod_list@);
    let ghost on_node = hosted_on(node@);
    let ghost latest: Option<int> = None;
    let mut data_plane_pod_running = false;
    let mut i: usize = 0;
    while i < pod_list.len()
        invariant
            i <= pod_list.len(),
            views == pod_views(pod_list@),
            on_node == hosted_on(node@),
            forall|j: int| 0 <= j < i ==> !#[trigger] unresolved()(views[j]),
            match latest {
                Some(k) => {
                    &&& 0 <= k < i
                    &&& on_node(views[k])
                    &&& forall|j: int| k < j < i ==> !#[trigger] on_node(views[j])
                    &&& data_plane_pod_running == views[k].is_ready()
                },
                None => {
                    &&& forall|j: int| 0 <= j < i ==> !#[trigger] on_node(views[j])
                    &&& !data_plane_pod_running
                },
            },
        decreases pod_list.len() - i,
    {
        let pod = &pod_list[i];
        assert(pod@ == views[i as int]);
        match &pod.node {
            NodeAssignment::Node(node_name) => {
                if *node_name == *node {
                    data_plane_pod_running = pod.is_ready();
                    proof {
                        latest = Some(i as int);
                    }
                }
            },
            _ => {
                proof {
                    assert(is_first(views, unresolved(), i as int));
                    lemma_first_found(views, unresolved(), i as int);
                }
                return match pod.resolve_node(namespace) {
                    Err(error) => Err(error),
                    Ok(_) => Ok(false),
                };
            },
        }
        i += 1;
    }
    proof {
        lemma_first_absent(views, unresolved());
        match latest {
            Some(k) => {
                assert(is_last(views, on_node, k));
                lemma_last_found(views, on_node, k);
            },
            None => {
                lemma_last_absent(views, on_node);
            },
        }
    }
    Ok(data_plane_pod_running)
}

} // verus!
