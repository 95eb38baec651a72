//! Storage nodes and their drain state, as the storage control plane reports them.

use crate::error::{flag_view, UpgradeError, UpgradeErrorView};
use crate::search::{any, first, is_first, lemma_first, lemma_first_absent, lemma_first_found};
use vstd::prelude::*;

verus! {

/// What the control plane says of a storage node's scheduling.
#[derive(Debug, PartialEq, Eq, Clone, Copy)]
pub enum NodeDrainState {
    /// New work is kept off the node; what runs there stays.
    Cordoned,
    /// The node's work is being moved away. The only state worth waiting on.
    Draining,
    /// The node's work has been moved away.
    Drained,
    /// The node takes work as usual.
    Uncordoned,
}

/// A storage node.
#[derive(Debug, PartialEq, Eq)]
pub struct StorageNode {
    /// The node's name in the storage control plane.
    pub id: String,
    /// The drain state of the node's spec; `None` where the node has no spec.
    pub drain_state: Option<NodeDrainState>,
}

/// The mathematical value of a [`StorageNode`].
pub struct StorageNodeView {
    pub id: Seq<char>,
    pub drain_state: Option<NodeDrainState>,
}

impl View for StorageNode {
    type V = StorageNodeView;

    open spec fn view(&self) -> StorageNodeView {
        StorageNodeView { id: self.id@, drain_state: self.drain_state }
    }
}

/// The values of a sequence of storage nodes.
pub open spec fn node_views(nodes: Seq<StorageNode>) -> Seq<StorageNodeView> {
    Seq::new(nodes.len(), |i: int| nodes[i]@)
}

impl StorageNodeView {
    /// The node is being drained.
    pub open spec fn is_draining(self) -> bool {
        self.drain_state == Some(NodeDrainState::Draining)
    }

    /// Whether the node is cordoned; a node without a spec cannot tell.
    pub open spec fn is_cordoned(self) -> Result<bool, UpgradeErrorView> {
        match self.drain_state {
            None => Err(UpgradeErrorView::EmptyStorageNodeSpec { node_id: self.id }),
            Some(state) => Ok(state is Cordoned),
        }
    }
}

/// The nodes at which a look for drains stops: one that drains, or one
/// without a spec.
pub open spec fn stops_drain_search() -> spec_fn(StorageNodeView) -> bool {
    |node: StorageNodeView| node.drain_state is None || node.is_draining()
}

/// Whether any storage node of the cluster is being drained.
///
/// The nodes are looked at in order. The look stops at the first node that
/// drains, with `true`, or at the first node without a spec, with an error,
/// whichever comes first.
pub open spec fn cluster_is_draining(nodes: Seq<StorageNodeView>) -> Result<bool, UpgradeErrorView> {
    match first(nodes, stops_drain_search()) {
        None => Ok(false),
        Some(k) => match nodes[k].drain_state {
            None => Err(UpgradeErrorView::EmptyStorageNodeSpec { node_id: nodes[k].id }),
            Some(_) => Ok(true),
        },
    }
}

/// Where every node has a spec, the cluster drains exactly when one of its
/// nodes does.
pub proof fn lemma_draining_iff_some_node_drains(nodes: Seq<StorageNodeView>)
    requires
        forall|i: int| 0 <= i < nodes.len() ==> (#[trigger] nodes[i]).drain_state is Some,
    ensures
        cluster_is_draining(nodes) == Ok::<bool, UpgradeErrorView>(
            exists|i: int| 0 <= i < nodes.len() && (#[trigger] nodes[i]).is_draining(),
        ),
{
    lemma_first(nodes, stops_drain_search());
    if exists|i: int| 0 <= i < nodes.len() && (#[trigger] nodes[i]).is_draining() {
        let i = choose|i: int| 0 <= i < nodes.len() && (#[trigger] nodes[i]).is_draining();
        assert(stops_drain_search()(nodes[i]));
        assert(any(nodes, stops_drain_search()));
    } else {
        if first(nodes, stops_drain_search()) is Some {
            let k = first(nodes, stops_drain_search())->0;
            assert(stops_drain_search()(nodes[k]));
            assert(nodes[k].is_draining());
        }
    }
}

/// Whether any storage node of the cluster is being drained.
///
/// The answer is for the whole cluster and not for one node: the upgrade
/// waits until no drain at all is under way.
pub fn is_draining(nodes: &Vec<StorageNode>) -> (draining: Result<bool, UpgradeError>)
    ensures
        flag_view(draining) == cluster_is_draining(node_views(nodes@)),
{
    let ghost views = node_views(nodes@);
    let mut i: usize = 0;
    while i < nodes.len()
        invariant
            i <= nodes.len(),
            views == node_views(nodes@),
            forall|j: int| 0 <= j < i ==> !#[trigger] stops_drain_search()(views[j]),
        decreases nodes.len() - i,
    {
        match nodes[i].drain_state {
            None => {
                proof {
                    assert(is_first(views, stops_drain_search(), i as int));
                    lemma_first_found(views, stops_drain_search(), i as int);
                }
                return Err(UpgradeError::EmptyStorageNodeSpec { node_id: nodes[i].id.clone() });
            },
            Some(NodeDrainState::Draining) => {
                proof {
                    assert(is_first(views, stops_drain_search(), i as int));
                    lemma_first_found(views, stops_drain_search(), i as int);
                }
                return Ok(true);
            },
            Some(_) => {},
        }
        i += 1;
    }
    proof {
        lemma_first_absent(views, stops_drain_search());
    }
    Ok(false)
}

/// Whether the storage node is cordoned.
pub fn is_node_cordoned(node: &StorageNode) -> (cordoned: Result<bool, UpgradeError>)
    ensures
        flag_view(cordoned) == node@.is_cordoned(),
{
    match node.drain_state {
        None => Err(UpgradeError::EmptyStorageNodeSpec { node_id: node.id.clone() }),
        Some(NodeDrainState::Cordoned) => Ok(true),
        Some(_) => Ok(false),
    }
}

} // verus!
