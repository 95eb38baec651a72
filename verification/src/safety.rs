//! What holds of every upgrade, whatever the cluster answers.
//!
//! The laws here speak of [`OrchestratorView::next`], the one transition
//! function of the upgrade, and of [`run`], which applies it to a whole
//! history of answers. Every [`crate::orchestrator::UpgradeOrchestrator`]
//! moves as that function says, so the laws hold of every execution.

use crate::drain::cluster_is_draining;
use crate::error::UpgradeErrorView;
use crate::health::{component_verdict, Component};
use crate::orchestrator::{OrchestratorView, PhaseView};
use crate::pod::PodView;
use crate::protocol::{ActionView, EventView};
use crate::rebuild::ScanStep;
use crate::search::{first, is_first, lemma_first};
use vstd::prelude::*;

verus! {

/// The state that the upgrade is in after the events, one after the other,
/// have answered its requests, beginning in state `from`.
pub open spec fn run(from: OrchestratorView, events: Seq<EventView>) -> OrchestratorView
    decreases events.len(),
{
    if events.len() == 0 {
        from
    } else {
        run(from, events.drop_last()).next(events.last())
    }
}

/// The phases of one round that come after the cordon state of the round's
/// node has been noted.
pub open spec fn knows_cordon_state(phase: PhaseView) -> bool {
    phase is Draining || phase is AwaitingDrain || phase is AwaitingRebuild || phase is Replacing
        || phase is Uncordoning || phase is AwaitingReady || phase is Verifying
}

/// After `j` events the upgrade asked for the storage node `node_name`, to
/// note its cordon state; the answer was a node that is cordoned, or not, as
/// `cordoned` says; and the upgrade has not asked for a cordon state since.
pub open spec fn noted_cordon_state(
    from: OrchestratorView,
    events: Seq<EventView>,
    j: int,
    node_name: Seq<char>,
    cordoned: bool,
) -> bool {
    &&& 0 <= j < events.len()
    &&& run(from, events.take(j)).pending() == (ActionView::GetStorageNode { node_name })
    &&& events[j] matches EventView::StorageNode(node) && node.is_cordoned() == Ok::<
        bool,
        UpgradeErrorView,
    >(cordoned)
    &&& forall|k: int|
        j < k <= events.len() ==> !(#[trigger] run(from, events.take(k)).pending()
            is GetStorageNode)
}

/// An upgrade that has finished or failed stays as it is.
pub proof fn lemma_final_state_is_kept(from: OrchestratorView, events: Seq<EventView>)
    requires
        from.phase is Finished || from.phase is Failed,
    ensures
        run(from, events) == from,
    decreases events.len(),
{
    if events.len() > 0 {
        lemma_final_state_is_kept(from, events.drop_last());
    }
}

/// The request under way ends the upgrade exactly in the two final phases.
pub proof fn lemma_final_requests(state: OrchestratorView)
    ensures
        state.phase is Finished ==> state.pending() == ActionView::Finish,
        state.phase is Failed ==> state.pending() is Fail,
        state.pending() is Finish ==> state.phase is Finished,
{
}

/// The cordon is removed only in a round that found the node not cordoned.
///
/// The upgrade comes to remove a cordon only from the deletion of the pod,
/// only where the round's note says that the node was not cordoned, and it
/// removes the cordon from the node of that round.
pub proof fn lemma_uncordon_needs_clear_note(state: OrchestratorView, event: EventView)
    ensures
        state.next(event).phase is Uncordoning ==> {
            &&& state.phase is Replacing
            &&& event is Completed
            &&& !state.was_cordoned
            &&& state.next(event).was_cordoned == state.was_cordoned
            &&& state.next(event).node_name == state.node_name
        },
        state.next(event).pending() is UncordonStorageNode ==> state.next(event).phase
            is Uncordoning && state.next(event).pending()->UncordonStorageNode_node_name
            == state.next(event).node_name,
{
}

/// Within a round, the note on the cordon state and the node are kept.
pub proof fn lemma_note_is_kept_within_round(state: OrchestratorView, event: EventView)
    requires
        knows_cordon_state(state.phase),
        knows_cordon_state(state.next(event).phase),
    ensures
        state.next(event).was_cordoned == state.was_cordoned,
        state.next(event).node_name == state.node_name,
{
}

/// A round learns the cordon state from the storage node itself, and only
/// from there.
pub proof fn lemma_round_begins_with_note(state: OrchestratorView, event: EventView)
    requires
        !knows_cordon_state(state.phase),
        knows_cordon_state(state.next(event).phase),
    ensures
        state.phase is RecordingCordonState,
        state.next(event).phase is Draining,
        state.next(event).node_name == state.node_name,
        event matches EventView::StorageNode(node) && node.is_cordoned() == Ok::<bool, UpgradeErrorView>(
            state.next(event).was_cordoned,
        ),
{
}

/// The upgrade is in a round: it has turned to a pod and has not yet
/// turned to the next.
pub open spec fn in_round(phase: PhaseView) -> bool {
    phase is RecordingCordonState || knows_cordon_state(phase)
}

/// In a round, the upgrade works on the pod at `position` of the list that
/// it made at the start, and on the node of that pod.
pub open spec fn works_on_listed_pod(state: OrchestratorView) -> bool {
    in_round(state.phase) ==> {
        &&& state.position < state.instances.len()
        &&& state.pod_name == state.instances[state.position as int].name
        &&& state.instances[state.position as int].node
            == crate::pod::NodeAssignmentView::Node(state.node_name)
    }
}

/// Every round of an upgrade works on one pod of the list that the upgrade
/// made at the start, and on the node of that pod: the pods are taken in the
/// order of the list, and what is drained, deleted and uncordoned in a round
/// is that pod and its node, and nothing else.
pub proof fn lemma_round_works_on_listed_pod(namespace: Seq<char>, events: Seq<EventView>)
    ensures
        works_on_listed_pod(run(OrchestratorView::initial(namespace), events)),
    decreases events.len(),
{
    if events.len() > 0 {
        lemma_round_works_on_listed_pod(namespace, events.drop_last());
    }
}

/// A storage node is drained once in a round, right after its cordon state
/// has been noted, and it is the node that was asked about.
pub proof fn lemma_drain_follows_note(state: OrchestratorView, event: EventView)
    ensures
        state.next(event).pending() matches ActionView::DrainStorageNode { node_name, .. } ==> {
            &&& state.pending() == (ActionView::GetStorageNode { node_name })
            &&& event matches EventView::StorageNode(node) && node.is_cordoned() is Ok
        },
{
}

/// Taking no more events than all but the last sees nothing of the last.
proof fn lemma_run_prefix(from: OrchestratorView, events: Seq<EventView>, k: int)
    requires
        0 <= k < events.len(),
    ensures
        run(from, events.take(k)) == run(from, events.drop_last().take(k)),
        run(from, events.take(events.len() as int)) == run(from, events),
{
    assert(events.take(k) =~= events.drop_last().take(k));
    assert(events.take(events.len() as int) =~= events);
}

/// While a round knows the cordon state of its node, the note goes back to
/// what the storage control plane said of that node in this very round.
pub proof fn lemma_note_is_what_the_node_said(from: OrchestratorView, events: Seq<EventView>)
    requires
        !knows_cordon_state(from.phase),
    ensures
        knows_cordon_state(run(from, events).phase) ==> exists|j: int|
            noted_cordon_state(
                from,
                events,
                j,
                run(from, events).node_name,
                run(from, events).was_cordoned,
            ),
    decreases events.len(),
{
    if events.len() > 0 {
        let earlier = events.drop_last();
        let before = run(from, earlier);
        let after = run(from, events);
        assert(after == before.next(events.last()));
        if knows_cordon_state(after.phase) {
            if knows_cordon_state(before.phase) {
                lemma_note_is_what_the_node_said(from, earlier);
                lemma_note_is_kept_within_round(before, events.last());
                let j = choose|j: int|
                    noted_cordon_state(from, earlier, j, before.node_name, before.was_cordoned);
                assert(events.take(j) =~= earlier.take(j));
                assert(events[j] == earlier[j]);
                assert forall|k: int| j < k <= events.len() implies !(#[trigger] run(
                    from,
                    events.take(k),
                ).pending() is GetStorageNode) by {
                    if k < events.len() {
                        lemma_run_prefix(from, events, k);
                    } else {
                        assert(events.take(k) =~= events);
                    }
                }
                assert(noted_cordon_state(from, events, j, after.node_name, after.was_cordoned));
            } else {
                lemma_round_begins_with_note(before, events.last());
                let j = events.len() - 1;
                assert(events.take(j) =~= earlier);
                assert forall|k: int| j < k <= events.len() implies !(#[trigger] run(
                    from,
                    events.take(k),
                ).pending() is GetStorageNode) by {
                    assert(events.take(k) =~= events);
                }
                assert(noted_cordon_state(from, events, j, after.node_name, after.was_cordoned));
            }
        }
    }
}

/// The cordon is removed only where the round's note says "not cordoned".
proof fn lemma_uncordoning_means_clear_note(from: OrchestratorView, events: Seq<EventView>)
    requires
        !(from.phase is Uncordoning),
    ensures
        run(from, events).phase is Uncordoning ==> !run(from, events).was_cordoned,
    decreases events.len(),
{
    if events.len() > 0 {
        let before = run(from, events.drop_last());
        lemma_uncordoning_means_clear_note(from, events.drop_last());
        lemma_uncordon_needs_clear_note(before, events.last());
    }
}

/// The upgrade never removes the cordon from a node that was cordoned
/// before the upgrade came to it.
///
/// Whenever an upgrade asks to uncordon a storage node, it has, earlier in
/// the same round, fetched that very node, and the control plane reported it
/// as not cordoned.
pub proof fn lemma_never_uncordons_a_node_found_cordoned(
    namespace: Seq<char>,
    events: Seq<EventView>,
)
    ensures
        run(OrchestratorView::initial(namespace), events).pending() matches ActionView::UncordonStorageNode {
            node_name,
            ..
        } ==> exists|j: int|
            noted_cordon_state(OrchestratorView::initial(namespace), events, j, node_name, false),
{
    let from = OrchestratorView::initial(namespace);
    let state = run(from, events);
    if state.pending() is UncordonStorageNode {
        assert(state.phase is Uncordoning);
        lemma_uncordoning_means_clear_note(from, events);
        lemma_note_is_what_the_node_said(from, events);
        let j = choose|j: int|
            noted_cordon_state(from, events, j, state.node_name, state.was_cordoned);
        assert(noted_cordon_state(
            from,
            events,
            j,
            state.pending()->UncordonStorageNode_node_name,
            false,
        ));
    }
}

/// The wait for the drains goes on while a storage node drains.
///
/// When the look at the storage nodes finds one draining, the upgrade stays
/// in the wait and asks for a pause; it does not go on to the rebuilds.
pub proof fn lemma_drain_wait_goes_on_while_draining(
    state: OrchestratorView,
    nodes: Seq<crate::drain::StorageNodeView>,
)
    requires
        state.phase matches PhaseView::AwaitingDrain { waiter } && waiter.stage is Polling,
        cluster_is_draining(nodes) == Ok::<bool, UpgradeErrorView>(true),
    ensures
        state.next(EventView::StorageNodes(nodes)).phase is AwaitingDrain,
        state.next(EventView::StorageNodes(nodes)).pending() == (ActionView::Sleep {
            seconds: state.phase->AwaitingDrain_waiter.interval,
        }),
{
}

/// The wait for the drains ends only when no storage node drains.
///
/// The upgrade leaves the wait, other than by failing, only on a list of the
/// storage nodes in which none is draining; it then turns to the rebuilds.
pub proof fn lemma_drain_wait_ends_only_when_nothing_drains(
    state: OrchestratorView,
    event: EventView,
)
    requires
        state.phase is AwaitingDrain,
        !(state.next(event).phase is AwaitingDrain),
        !(state.next(event).phase is Failed),
    ensures
        event matches EventView::StorageNodes(nodes) && cluster_is_draining(nodes) == Ok::<
            bool,
            UpgradeErrorView,
        >(false),
        state.next(event).phase is AwaitingRebuild,
{
}

/// The wait for the rebuilds goes on while a volume rebuilds.
///
/// When a page of the inventory shows a rebuild, the upgrade stays in the
/// wait and asks for a pause, whatever pages may follow.
pub proof fn lemma_rebuild_wait_goes_on_while_rebuilding(
    state: OrchestratorView,
    page: crate::rebuild::VolumesView,
)
    requires
        state.phase matches PhaseView::AwaitingRebuild { waiter, .. } && waiter.stage is Polling,
        page.is_rebuilding(),
    ensures
        state.next(EventView::Volumes(page)).phase is AwaitingRebuild,
        state.next(EventView::Volumes(page)).pending() == (ActionView::Sleep {
            seconds: state.phase->AwaitingRebuild_waiter.interval,
        }),
{
}

/// The wait for the rebuilds ends only on the last page of the inventory,
/// and only if that page shows no rebuild.
pub proof fn lemma_rebuild_wait_ends_only_on_clean_last_page(
    state: OrchestratorView,
    event: EventView,
)
    requires
        state.phase is AwaitingRebuild,
        !(state.next(event).phase is AwaitingRebuild),
        !(state.next(event).phase is Failed),
    ensures
        event matches EventView::Volumes(page) && !page.is_rebuilding() && page.next_token
            is None,
        state.next(event).phase is Replacing,
{
}

/// The wait for the new pod ends only when the pod on the node is ready.
pub proof fn lemma_ready_wait_ends_only_when_pod_runs(state: OrchestratorView, event: EventView)
    requires
        state.phase is AwaitingReady,
        !(state.next(event).phase is AwaitingReady),
        !(state.next(event).phase is Failed),
    ensures
        event matches EventView::Pods(pods) && crate::replacer::data_plane_pod_running(
            state.node_name,
            state.namespace,
            pods,
        ) == Ok::<bool, UpgradeErrorView>(true),
        state.next(event).phase == (PhaseView::Verifying { component: Component::Core }),
{
}

/// After the events from `a` on, the upgrade has walked through the whole
/// volume inventory and found no rebuild: the events are pages, none shows a
/// rebuild, the first was asked for from the start of the inventory and
/// every other from where the page before it left off, and the last page
/// names no further page.
pub open spec fn walked_clean_inventory(
    from: OrchestratorView,
    events: Seq<EventView>,
    a: int,
) -> bool {
    &&& 0 <= a < events.len()
    &&& forall|k: int|
        a <= k < events.len() ==> (#[trigger] events[k]) is Volumes
            && !events[k]->Volumes_0.is_rebuilding()
    &&& forall|k: int|
        a <= k < events.len() - 1 ==> (#[trigger] events[k])->Volumes_0.next_token is Some
    &&& events.last()->Volumes_0.next_token is None
    &&& forall|k: int|
        a <= k < events.len() ==> #[trigger] run(from, events.take(k)).pending()
            == page_request(events, a, k)
}

/// The request for the page that answers as event `k` of a walk that began
/// at event `a`.
pub open spec fn page_request(events: Seq<EventView>, a: int, k: int) -> ActionView {
    ActionView::ListVolumes {
        max_entries: crate::constants::VOLUME_PAGE_SIZE,
        starting_token: if k == a {
            crate::constants::FIRST_PAGE_TOKEN
        } else {
            events[k - 1]->Volumes_0.next_token->0
        },
    }
}

/// A walk through the inventory that has found no rebuild so far and whose
/// next page is due: as [`walked_clean_inventory`], but for the last page.
pub open spec fn walking_clean_inventory(
    from: OrchestratorView,
    events: Seq<EventView>,
    a: int,
) -> bool {
    &&& 0 <= a <= events.len()
    &&& forall|k: int|
        a <= k < events.len() ==> (#[trigger] events[k]) is Volumes
            && !events[k]->Volumes_0.is_rebuilding() && events[k]->Volumes_0.next_token is Some
    &&& forall|k: int|
        a <= k <= events.len() ==> #[trigger] run(from, events.take(k)).pending()
            == page_request(events, a, k)
}

/// A page of the inventory is due.
pub open spec fn page_is_due(phase: PhaseView) -> bool {
    phase matches PhaseView::AwaitingRebuild { waiter, .. } && waiter.stage is Polling
}

/// While a page of the inventory is due, the pages read since the last
/// pause are the beginning of a walk through the inventory, and none of
/// them shows a rebuild.
proof fn lemma_walk_in_progress(from: OrchestratorView, events: Seq<EventView>)
    requires
        !(from.phase is AwaitingRebuild),
    ensures
        page_is_due(run(from, events).phase) ==> exists|a: int|
            walking_clean_inventory(from, events, a),
    decreases events.len(),
{
    if events.len() > 0 {
        let earlier = events.drop_last();
        let before = run(from, earlier);
        let after = run(from, events);
        assert(after == before.next(events.last()));
        assert(events.take(events.len() as int) =~= events);
        if page_is_due(after.phase) {
            if page_is_due(before.phase) {
                lemma_walk_in_progress(from, earlier);
                let a = choose|a: int| walking_clean_inventory(from, earlier, a);
                assert forall|k: int| a <= k < events.len() implies (#[trigger] events[k])
                    is Volumes && !events[k]->Volumes_0.is_rebuilding()
                    && events[k]->Volumes_0.next_token is Some by {
                    if k < earlier.len() {
                        assert(events[k] == earlier[k]);
                    }
                }
                assert forall|k: int| a <= k <= events.len() implies #[trigger] run(
                    from,
                    events.take(k),
                ).pending() == page_request(events, a, k) by {
                    if k < events.len() {
                        lemma_run_prefix(from, events, k);
                        assert(run(from, earlier.take(k)).pending() == page_request(
                            earlier,
                            a,
                            k,
                        ));
                        if k > a {
                            assert(events[k - 1] == earlier[k - 1]);
                        }
                    }
                }
                assert(walking_clean_inventory(from, events, a));
            } else {
                let a = events.len() as int;
                assert(walking_clean_inventory(from, events, a));
            }
        }
    }
}

/// The pod of a node is deleted only after a walk through the whole volume
/// inventory has found no rebuild.
///
/// Whenever an upgrade asks to delete a pod, the answers just before were
/// the pages of one complete walk through the inventory, from its start to
/// its last page, and no page showed a rebuild.
pub proof fn lemma_deletes_only_after_clean_inventory(
    namespace: Seq<char>,
    events: Seq<EventView>,
)
    ensures
        run(OrchestratorView::initial(namespace), events).pending() is DeletePod ==> exists|
            a: int,
        | walked_clean_inventory(OrchestratorView::initial(namespace), events, a),
{
    let from = OrchestratorView::initial(namespace);
    let after = run(from, events);
    if after.pending() is DeletePod {
        assert(after.phase is Replacing);
        assert(events.len() > 0);
        let earlier = events.drop_last();
        let before = run(from, earlier);
        assert(after == before.next(events.last()));
        assert(page_is_due(before.phase));
        lemma_walk_in_progress(from, earlier);
        let a = choose|a: int| walking_clean_inventory(from, earlier, a);
        assert forall|k: int| a <= k < events.len() implies (#[trigger] events[k]) is Volumes
            && !events[k]->Volumes_0.is_rebuilding() by {
            if k < earlier.len() {
                assert(events[k] == earlier[k]);
            }
        }
        assert forall|k: int| a <= k < events.len() - 1 implies (#[trigger] events[k])->Volumes_0.next_token
            is Some by {
            assert(events[k] == earlier[k]);
        }
        assert forall|k: int| a <= k < events.len() implies #[trigger] run(
            from,
            events.take(k),
        ).pending() == page_request(events, a, k) by {
            lemma_run_prefix(from, events, k);
            assert(run(from, earlier.take(k)).pending() == page_request(earlier, a, k));
            if k > a {
                assert(events[k - 1] == earlier[k - 1]);
            }
        }
        assert(walked_clean_inventory(from, events, a));
    }
}

/// The listings of pods that hold a pod that is not ready.
pub open spec fn unhealthy() -> spec_fn(Seq<PodView>) -> bool {
    |pods: Seq<PodView>| component_verdict(pods) is Err
}

/// The component that is looked at as the `k`-th.
pub open spec fn component_at(k: int) -> Component {
    if k <= 0 {
        Component::Core
    } else if k == 1 {
        Component::ApiGateway
    } else {
        Component::Store
    }
}

/// The answers to the three listings of the health check.
pub open spec fn listing_events(listings: Seq<Seq<PodView>>) -> Seq<EventView> {
    Seq::new(listings.len(), |i: int| EventView::Pods(listings[i]))
}

/// The health check fails the upgrade at the first component with a pod
/// that is not ready.
pub proof fn lemma_unhealthy_component_fails_the_upgrade(
    state: OrchestratorView,
    pods: Seq<PodView>,
)
    requires
        state.phase is Verifying,
        component_verdict(pods) is Err,
    ensures
        state.next(EventView::Pods(pods)).phase == (PhaseView::Failed {
            error: component_verdict(pods)->Err_0,
        }),
        state.next(EventView::Pods(pods)).pending() == ActionView::Fail(
            component_verdict(pods)->Err_0,
        ),
{
}

/// The health check looks at the components in order, and stops at the
/// first one that is not healthy.
///
/// Let the upgrade begin the health check, and let `listings` be what the
/// cluster would list for the core, the gateway and the store. Before the
/// first unhealthy listing, each answer is followed by the request for the
/// next component. From the first unhealthy listing on, the upgrade has
/// failed with that listing's verdict, and asks for nothing any more.
/// Where all three are healthy, the upgrade turns to the next pod.
pub proof fn lemma_health_check_fails_fast(state: OrchestratorView, listings: Seq<Seq<PodView>>)
    requires
        state.phase == (PhaseView::Verifying { component: Component::Core }),
        listings.len() == 3,
    ensures
        forall|m: int|
            0 <= m < 3 && (first(listings, unhealthy()) matches Some(k) ==> m <= k) ==> (
            #[trigger] run(state, listing_events(listings).take(m))).pending()
                == (ActionView::ListPods {
                label: component_at(m).selector(),
                namespace: state.namespace,
            }),
        first(listings, unhealthy()) matches Some(k) ==> forall|m: int|
            k < m <= 3 ==> (#[trigger] run(state, listing_events(listings).take(m))).phase == (
            PhaseView::Failed { error: component_verdict(listings[k])->Err_0 }),
        first(listings, unhealthy()) is None ==> run(state, listing_events(listings))
            == state.next_round(),
{
    let events = listing_events(listings);
    let bad = unhealthy();
    lemma_first(listings, bad);
    let s0 = run(state, events.take(0));
    let s1 = run(state, events.take(1));
    let s2 = run(state, events.take(2));
    let s3 = run(state, events.take(3));
    assert(events.take(0).len() == 0);
    assert(s0 == state);
    assert(events.take(1).drop_last() =~= events.take(0));
    assert(events.take(2).drop_last() =~= events.take(1));
    assert(events.take(3).drop_last() =~= events.take(2));
    assert(events.take(3) =~= events);
    assert(s1 == s0.next(EventView::Pods(listings[0])));
    assert(s2 == s1.next(EventView::Pods(listings[1])));
    assert(s3 == s2.next(EventView::Pods(listings[2])));
    assert(bad(listings[0]) == (component_verdict(listings[0]) is Err));
    assert(bad(listings[1]) == (component_verdict(listings[1]) is Err));
    assert(bad(listings[2]) == (component_verdict(listings[2]) is Err));
    if first(listings, bad) is Some {
        let k = first(listings, bad)->0;
        assert(is_first(listings, bad, k));
        assert(bad(listings[k]));
        if k >= 1 {
            assert(!bad(listings[0]));
        }
        if k >= 2 {
            assert(!bad(listings[1]));
        }
        assert forall|m: int| k < m <= 3 implies (#[trigger] run(state, events.take(m))).phase
            == (PhaseView::Failed { error: component_verdict(listings[k])->Err_0 }) by {
            assert(m == 1 || m == 2 || m == 3);
        }
        assert forall|m: int| 0 <= m < 3 && m <= k implies (#[trigger] run(
            state,
            events.take(m),
        )).pending() == (ActionView::ListPods {
            label: component_at(m).selector(),
            namespace: state.namespace,
        }) by {
            assert(m == 0 || m == 1 || m == 2);
        }
    } else {
        assert(!bad(listings[0]));
        assert(!bad(listings[1]));
        assert(!bad(listings[2]));
        assert forall|m: int| 0 <= m < 3 implies (#[trigger] run(state, events.take(m))).pending()
            == (ActionView::ListPods {
            label: component_at(m).selector(),
            namespace: state.namespace,
        }) by {
            assert(m == 0 || m == 1 || m == 2);
        }
    }
}

/// The steps of a round follow one another in the one fixed order.
///
/// From each phase the upgrade can only stay in the same wait, go on to the
/// phase that comes next in the procedure, or fail. No step is skipped but
/// the removal of the cordon, and that one only for a node that was found
/// cordoned. The upgrade turns to the next pod only from the health check of
/// the last component, and it then is one pod further in the list that it
/// made at the start.
pub proof fn lemma_steps_follow_the_procedure(state: OrchestratorView, event: EventView)
    ensures
        ({
            let next = state.next(event);
            match state.phase {
                PhaseView::ListingInstances => next.phase is RecordingCordonState || next.phase
                    is Finished || next.phase is Failed,
                PhaseView::RecordingCordonState => next.phase is Draining || next.phase is Failed,
                PhaseView::Draining => next.phase is AwaitingDrain || next.phase is Failed,
                PhaseView::AwaitingDrain { .. } => next.phase is AwaitingDrain || next.phase
                    is AwaitingRebuild || next.phase is Failed,
                PhaseView::AwaitingRebuild { .. } => next.phase is AwaitingRebuild || next.phase
                    is Replacing || next.phase is Failed,
                PhaseView::Replacing => (next.phase is Uncordoning && !state.was_cordoned) || (
                next.phase is AwaitingReady && state.was_cordoned) || next.phase is Failed,
                PhaseView::Uncordoning => next.phase is AwaitingReady || next.phase is Failed,
                PhaseView::AwaitingReady { .. } => next.phase is AwaitingReady || next.phase
                    is Verifying || next.phase is Failed,
                PhaseView::Verifying { component } => next.phase is Failed || (match component.following() {
                    Some(following) => next.phase == (PhaseView::Verifying {
                        component: following,
                    }),
                    None => (next.phase is RecordingCordonState || next.phase is Finished)
                        && next.position == state.position + 1,
                }) || (next.phase is Finished && state.position >= state.instances.len()),
                PhaseView::Finished => next == state,
                PhaseView::Failed { .. } => next == state,
            }
        }),
        !(state.phase is ListingInstances) ==> state.next(event).instances == state.instances
            && state.next(event).namespace == state.namespace,
        !(state.phase is Verifying) && !(state.phase is ListingInstances) ==> state.next(
            event,
        ).position == state.position,
{
}

/// After `n` events the upgrade asked for the storage nodes, the answer
/// showed none of them draining, and the upgrade has been waiting for the
/// rebuilds to end ever since.
pub open spec fn drains_had_ended(from: OrchestratorView, events: Seq<EventView>, n: int) -> bool {
    &&& 0 <= n < events.len()
    &&& run(from, events.take(n)).pending() == ActionView::ListStorageNodes
    &&& events[n] matches EventView::StorageNodes(nodes) && cluster_is_draining(nodes) == Ok::<
        bool,
        UpgradeErrorView,
    >(false)
    &&& forall|k: int|
        n < k < events.len() ==> (#[trigger] run(from, events.take(k))).phase is AwaitingRebuild
}

/// While the upgrade waits for the rebuilds, the wait for the drains has
/// ended on a look that found no storage node draining.
proof fn lemma_rebuild_wait_follows_drain_wait(from: OrchestratorView, events: Seq<EventView>)
    requires
        !(from.phase is AwaitingRebuild),
    ensures
        run(from, events).phase is AwaitingRebuild ==> exists|n: int|
            drains_had_ended(from, events, n),
    decreases events.len(),
{
    if events.len() > 0 {
        let earlier = events.drop_last();
        let before = run(from, earlier);
        let after = run(from, events);
        assert(after == before.next(events.last()));
        if after.phase is AwaitingRebuild {
            lemma_steps_follow_the_procedure(before, events.last());
            if before.phase is AwaitingRebuild {
                lemma_rebuild_wait_follows_drain_wait(from, earlier);
                let n = choose|n: int| drains_had_ended(from, earlier, n);
                assert(events.take(n) =~= earlier.take(n));
                assert(events[n] == earlier[n]);
                assert forall|k: int| n < k < events.len() implies (#[trigger] run(
                    from,
                    events.take(k),
                )).phase is AwaitingRebuild by {
                    lemma_run_prefix(from, events, k);
                    if k == earlier.len() {
                        assert(earlier.take(k) =~= earlier);
                    }
                }
                assert(drains_had_ended(from, events, n));
            } else {
                lemma_drain_wait_ends_only_when_nothing_drains(before, events.last());
                let n = events.len() - 1;
                assert(events.take(n) =~= earlier);
                assert(drains_had_ended(from, events, n));
            }
        }
    }
}

/// The pod of a node is deleted only after the drains of the cluster have
/// ended.
///
/// Whenever an upgrade asks to delete a pod, it has looked at the storage
/// nodes and found none draining, and has done nothing since but wait for
/// the rebuilds to end.
pub proof fn lemma_deletes_only_after_drains_ended(namespace: Seq<char>, events: Seq<EventView>)
    ensures
        run(OrchestratorView::initial(namespace), events).pending() is DeletePod ==> exists|
            n: int,
        | drains_had_ended(OrchestratorView::initial(namespace), events.drop_last(), n),
{
    let from = OrchestratorView::initial(namespace);
    let after = run(from, events);
    if after.pending() is DeletePod {
        assert(after.phase is Replacing);
        assert(events.len() > 0);
        let before = run(from, events.drop_last());
        assert(after == before.next(events.last()));
        lemma_steps_follow_the_procedure(before, events.last());
        lemma_rebuild_wait_follows_drain_wait(from, events.drop_last());
    }
}

/// Taking the events one by one from the front gives the same state as
/// taking them one by one up to the last.
pub proof fn lemma_run_from_the_front(from: OrchestratorView, events: Seq<EventView>)
    requires
        events.len() > 0,
    ensures
        run(from, events) == run(from.next(events[0]), events.drop_first()),
    decreases events.len(),
{
    if events.len() == 1 {
        assert(events.drop_last().len() == 0);
        assert(events.drop_first().len() == 0);
    } else {
        lemma_run_from_the_front(from, events.drop_last());
        assert(events.drop_last().drop_first() =~= events.drop_first().drop_last());
        assert(events.drop_last()[0] == events[0]);
        assert(events.drop_first().last() == events.last());
    }
}

/// The answers that hand the pages of the inventory to the upgrade.
pub open spec fn page_events(pages: Seq<crate::rebuild::VolumesView>) -> Seq<EventView> {
    Seq::new(pages.len(), |i: int| EventView::Volumes(pages[i]))
}

/// The upgrade looks for rebuilds exactly as [`crate::rebuild::scan`] does.
///
/// Let a page of the inventory be due, and let `pages` be a walk through the
/// inventory. The upgrade reads as many of them as the scan does. Where the
/// scan finds a rebuild, the upgrade then pauses, to look again from the
/// first page; where it finds none, the upgrade goes on to delete the pod.
pub proof fn lemma_rebuild_look_is_the_scan(
    state: OrchestratorView,
    pages: Seq<crate::rebuild::VolumesView>,
)
    requires
        page_is_due(state.phase),
        crate::rebuild::is_pagination(pages),
    ensures
        ({
            let outcome = crate::rebuild::scan(pages);
            let waiter = state.phase->AwaitingRebuild_waiter;
            let after = run(state, page_events(pages).take(outcome.pages_read as int));
            &&& 1 <= outcome.pages_read <= pages.len()
            &&& outcome.rebuilding ==> after == state.in_phase(
                PhaseView::AwaitingRebuild {
                    waiter: waiter.after_poll(true),
                    starting_token: crate::constants::FIRST_PAGE_TOKEN,
                },
            )
            &&& !outcome.rebuilding ==> after == state.in_phase(PhaseView::Replacing)
        }),
    decreases pages.len(),
{
    let outcome = crate::rebuild::scan(pages);
    let events = page_events(pages);
    let first = events.take(1);
    assert(first.drop_last().len() == 0);
    assert(run(state, first.drop_last()) == state);
    assert(first.last() == EventView::Volumes(pages[0]));
    assert(run(state, first) == state.next(EventView::Volumes(pages[0])));
    match pages[0].scan_step() {
        ScanStep::NextPage { starting_token } => {
            let rest = pages.drop_first();
            let resumed = state.next(EventView::Volumes(pages[0]));
            assert(pages.len() > 1);
            assert forall|i: int| 0 <= i < rest.len() - 1 implies (#[trigger] rest[i]).next_token
                is Some by {
                assert(rest[i] == pages[i + 1]);
            }
            assert(rest.last() == pages.last());
            lemma_rebuild_look_is_the_scan(resumed, rest);
            let read = crate::rebuild::scan(rest).pages_read as int;
            let taken = events.take(read + 1);
            lemma_run_from_the_front(state, taken);
            assert(taken[0] == EventView::Volumes(pages[0]));
            assert(taken.drop_first() =~= page_events(rest).take(read));
        },
        _ => {},
    }
}

/// What the looks of a wait for the drains find: one reading for every
/// list of storage nodes, `true` where a node drains.
pub open spec fn drain_readings(listings: Seq<Seq<crate::drain::StorageNodeView>>) -> Seq<bool> {
    Seq::new(listings.len(), |i: int| cluster_is_draining(listings[i]) == Ok::<bool, UpgradeErrorView>(true))
}

/// The answers that a wait for the drains gets when the storage nodes are,
/// look after look, as `listings` says: each list, and after each list that
/// shows a drain, the end of the pause. The answers end with the first list
/// that shows no drain.
pub open spec fn drain_wait_events(listings: Seq<Seq<crate::drain::StorageNodeView>>) -> Seq<
    EventView,
>
    decreases listings.len(),
{
    if listings.len() == 0 {
        Seq::empty()
    } else if cluster_is_draining(listings[0]) == Ok::<bool, UpgradeErrorView>(true) {
        seq![EventView::StorageNodes(listings[0]), EventView::Completed] + drain_wait_events(
            listings.drop_first(),
        )
    } else {
        seq![EventView::StorageNodes(listings[0])]
    }
}

/// The wait for the drains is the wait of a [`crate::waiter::QuiescenceWaiter`].
///
/// Let the upgrade be due to look at the storage nodes, and let every look
/// succeed. The upgrade then takes as many looks and pauses as the waiter
/// takes on the same readings. If a list shows no drain, the upgrade goes on
/// to the rebuilds after the first such list; otherwise it is due to look
/// once more.
pub proof fn lemma_drain_wait_is_the_waiters(
    state: OrchestratorView,
    listings: Seq<Seq<crate::drain::StorageNodeView>>,
)
    requires
        state.phase matches PhaseView::AwaitingDrain { waiter } && waiter.stage is Polling,
        forall|i: int| 0 <= i < listings.len() ==> cluster_is_draining(#[trigger] listings[i]) is Ok,
    ensures
        ({
            let waiter = state.phase->AwaitingDrain_waiter;
            let wait = crate::waiter::run(waiter, drain_readings(listings));
            let after = run(state, drain_wait_events(listings));
            &&& drain_wait_events(listings).len() == wait.polls + wait.sleeps.len()
            &&& wait.returned ==> after == state.in_phase(
                PhaseView::AwaitingRebuild {
                    waiter: crate::orchestrator::rebuild_wait(),
                    starting_token: crate::constants::FIRST_PAGE_TOKEN,
                },
            )
            &&& !wait.returned ==> after == state
        }),
    decreases listings.len(),
{
    let waiter = state.phase->AwaitingDrain_waiter;
    let readings = drain_readings(listings);
    let events = drain_wait_events(listings);
    if listings.len() == 0 {
    } else {
        let listed = EventView::StorageNodes(listings[0]);
        let rest = listings.drop_first();
        assert(drain_readings(rest) =~= readings.drop_first());
        assert forall|i: int| 0 <= i < rest.len() implies cluster_is_draining(
            #[trigger] rest[i],
        ) is Ok by {
            assert(rest[i] == listings[i + 1]);
        }
        if readings[0] {
            let pausing = state.next(listed);
            let resumed = pausing.next(EventView::Completed);
            assert(resumed == state);
            lemma_drain_wait_is_the_waiters(state, rest);
            lemma_run_from_the_front(state, events);
            assert(events.drop_first() =~= seq![EventView::Completed] + drain_wait_events(rest));
            lemma_run_from_the_front(pausing, events.drop_first());
            assert(events.drop_first().drop_first() =~= drain_wait_events(rest));
            let paused = waiter.after_poll(true);
            assert(crate::waiter::run(paused, readings.drop_first()).sleeps == seq![
                waiter.interval,
            ] + crate::waiter::run(waiter, readings.drop_first()).sleeps);
        } else {
            assert(cluster_is_draining(listings[0]) == Ok::<bool, UpgradeErrorView>(false));
            assert(events.drop_last().len() == 0);
            assert(run(state, events.drop_last()) == state);
            assert(events.last() == listed);
            let over = waiter.after_poll(false);
            assert(crate::waiter::run(over, readings.drop_first()).returned);
        }
    }
}

} // verus!
