use upgrade_job::drain::{NodeDrainState, StorageNode};
use upgrade_job::error::UpgradeError;
use upgrade_job::orchestrator::{upgrade_data_plane, Phase, UpgradeOrchestrator};
use upgrade_job::pod::{NodeAssignment, Pod, PodCondition};
use upgrade_job::protocol::{Action, Event};
use upgrade_job::rebuild::{Child, Nexus, Volume, Volumes};

const NAMESPACE: &str = "storage";

fn pod(name: &str, node: NodeAssignment, ready: bool) -> Pod {
    Pod {
        name: name.to_string(),
        namespace: Some(NAMESPACE.to_string()),
        node,
        conditions: Some(vec![PodCondition {
            type_: "Ready".to_string(),
            status: if ready { "True".to_string() } else { "False".to_string() },
        }]),
    }
}

fn pod_on(name: &str, node: &str, ready: bool) -> Pod {
    pod(name, NodeAssignment::Node(node.to_string()), ready)
}

fn node(id: &str, state: NodeDrainState) -> StorageNode {
    StorageNode { id: id.to_string(), drain_state: Some(state) }
}

fn clean_page(next_token: Option<isize>) -> Volumes {
    Volumes {
        entries: vec![Volume {
            target: Some(Nexus { children: vec![Child { rebuild_progress: None }] }),
        }],
        next_token,
    }
}

fn rebuilding_page(next_token: Option<isize>) -> Volumes {
    Volumes {
        entries: vec![Volume {
            target: Some(Nexus {
                children: vec![Child { rebuild_progress: None }, Child { rebuild_progress: Some(40) }],
            }),
        }],
        next_token,
    }
}

/// Carries the upgrade through: every request goes to `respond`, until the
/// upgrade ends. Gives back the requests in order and how the upgrade ended.
fn drive(mut respond: impl FnMut(&Action) -> Event) -> (Vec<Action>, Result<(), UpgradeError>) {
    let mut upgrade = upgrade_data_plane(NAMESPACE.to_string());
    let mut requests: Vec<Action> = Vec::new();
    for _ in 0..10_000 {
        let action = upgrade.action();
        match action {
            Action::Finish => return (requests, Ok(())),
            Action::Fail(error) => return (requests, Err(error)),
            _ => {}
        }
        let event = respond(&action);
        requests.push(action);
        upgrade = upgrade.handle(event);
    }
    panic!("the upgrade did not end");
}

/// A cluster in which nothing drains, nothing rebuilds and every pod is ready.
fn quiet(action: &Action, instances: &[Pod], cordoned: bool) -> Event {
    match action {
        Action::ListPods { label, .. } if label == "app=io-engine" => Event::Pods(copies(instances)),
        Action::ListPods { .. } => Event::Pods(vec![pod_on("component", "node-x", true)]),
        Action::GetStorageNode { node_name } => Event::StorageNode(node(
            node_name,
            if cordoned { NodeDrainState::Cordoned } else { NodeDrainState::Uncordoned },
        )),
        Action::ListStorageNodes => Event::StorageNodes(vec![node("node-1", NodeDrainState::Drained)]),
        Action::ListVolumes { .. } => Event::Volumes(clean_page(None)),
        Action::DrainStorageNode { .. }
        | Action::UncordonStorageNode { .. }
        | Action::DeletePod { .. }
        | Action::Sleep { .. } => Event::Completed,
        Action::Finish | Action::Fail(_) => unreachable!(),
    }
}

fn copies(pods: &[Pod]) -> Vec<Pod> {
    pods.iter().map(|pod| pod.clone()).collect()
}

fn count(requests: &[Action], wanted: impl Fn(&Action) -> bool) -> usize {
    requests.iter().filter(|action| wanted(action)).count()
}

fn list_pods(label: &str) -> Action {
    Action::ListPods { label: label.to_string(), namespace: NAMESPACE.to_string() }
}

fn sleep(seconds: u64) -> Action {
    Action::Sleep { seconds }
}

fn list_volumes(starting_token: isize) -> Action {
    Action::ListVolumes { max_entries: 200, starting_token }
}

#[test]
fn single_node_upgrade_runs_every_step_once() {
    let instances = vec![pod_on("io-engine-a", "node-1", true)];
    let (requests, outcome) = drive(|action| quiet(action, &instances, false));
    assert_eq!(outcome, Ok(()));
    assert_eq!(
        requests,
        vec![
            list_pods("app=io-engine"),
            Action::GetStorageNode { node_name: "node-1".to_string() },
            Action::DrainStorageNode {
                node_name: "node-1".to_string(),
                label: "mayastor-upgrade".to_string(),
            },
            Action::ListStorageNodes,
            sleep(60),
            list_volumes(0),
            Action::DeletePod { name: "io-engine-a".to_string(), namespace: NAMESPACE.to_string() },
            Action::UncordonStorageNode {
                node_name: "node-1".to_string(),
                label: "mayastor-upgrade".to_string(),
            },
            list_pods("app=io-engine"),
            list_pods("app=agent-core"),
            list_pods("app=api-rest"),
            list_pods("app=etcd"),
        ]
    );
    assert_eq!(count(&requests, |a| matches!(a, Action::DrainStorageNode { .. })), 1);
    assert_eq!(count(&requests, |a| matches!(a, Action::UncordonStorageNode { .. })), 1);
}

#[test]
fn node_found_cordoned_is_left_cordoned() {
    let instances = vec![pod_on("io-engine-a", "node-1", true)];
    let (requests, outcome) = drive(|action| quiet(action, &instances, true));
    assert_eq!(outcome, Ok(()));
    assert_eq!(count(&requests, |a| matches!(a, Action::UncordonStorageNode { .. })), 0);
    assert_eq!(count(&requests, |a| matches!(a, Action::DrainStorageNode { .. })), 1);
    assert_eq!(count(&requests, |a| matches!(a, Action::DeletePod { .. })), 1);
    assert_eq!(requests.len(), 11);
}

#[test]
fn draining_and_drained_nodes_are_uncordoned_afterwards() {
    for state in [NodeDrainState::Draining, NodeDrainState::Drained, NodeDrainState::Uncordoned] {
        let instances = vec![pod_on("io-engine-a", "node-1", true)];
        let (requests, outcome) = drive(|action| match action {
            Action::GetStorageNode { node_name } => Event::StorageNode(node(node_name, state)),
            other => quiet(other, &instances, false),
        });
        assert_eq!(outcome, Ok(()));
        assert_eq!(count(&requests, |a| matches!(a, Action::UncordonStorageNode { .. })), 1);
    }
}

#[test]
fn no_instances_means_nothing_to_do() {
    let (requests, outcome) = drive(|action| quiet(action, &[], false));
    assert_eq!(outcome, Ok(()));
    assert_eq!(requests, vec![list_pods("app=io-engine")]);
}

#[test]
fn nodes_are_upgraded_one_after_the_other() {
    let instances = vec![
        pod_on("io-engine-a", "node-1", true),
        pod_on("io-engine-b", "node-2", true),
        pod_on("io-engine-c", "node-3", true),
    ];
    let (requests, outcome) = drive(|action| quiet(action, &instances, false));
    assert_eq!(outcome, Ok(()));
    assert_eq!(requests.len(), 1 + 3 * 11);
    let disruptive: Vec<String> = requests
        .iter()
        .filter_map(|action| match action {
            Action::DrainStorageNode { node_name, .. } => Some(format!("drain {}", node_name)),
            Action::DeletePod { name, .. } => Some(format!("delete {}", name)),
            Action::UncordonStorageNode { node_name, .. } => Some(format!("uncordon {}", node_name)),
            _ => None,
        })
        .collect();
    assert_eq!(
        disruptive,
        vec![
            "drain node-1",
            "delete io-engine-a",
            "uncordon node-1",
            "drain node-2",
            "delete io-engine-b",
            "uncordon node-2",
            "drain node-3",
            "delete io-engine-c",
            "uncordon node-3",
        ]
    );
    // The health of all three components is checked at the end of every round.
    assert_eq!(count(&requests, |a| *a == list_pods("app=etcd")), 3);
}

#[test]
fn instance_without_node_aborts_before_any_drain() {
    let instances = vec![
        pod("io-engine-a", NodeAssignment::Unscheduled, true),
        pod_on("io-engine-b", "node-1", true),
    ];
    let (requests, outcome) = drive(|action| quiet(action, &instances, false));
    assert_eq!(
        outcome,
        Err(UpgradeError::EmptyPodNodeName {
            name: "io-engine-a".to_string(),
            namespace: NAMESPACE.to_string(),
        })
    );
    assert_eq!(requests, vec![list_pods("app=io-engine")]);
    assert_eq!(count(&requests, |a| matches!(a, Action::DrainStorageNode { .. })), 0);
}

#[test]
fn instance_without_spec_aborts_before_any_drain() {
    let instances = vec![pod("io-engine-a", NodeAssignment::MissingSpec, true)];
    let (requests, outcome) = drive(|action| quiet(action, &instances, false));
    assert_eq!(
        outcome,
        Err(UpgradeError::EmptyPodSpec {
            name: "io-engine-a".to_string(),
            namespace: NAMESPACE.to_string(),
        })
    );
    assert_eq!(requests.len(), 1);
}

#[test]
fn later_instance_without_node_aborts_when_its_turn_comes() {
    let instances = vec![
        pod_on("io-engine-a", "node-1", true),
        pod("io-engine-b", NodeAssignment::Unscheduled, true),
    ];
    let scheduled = vec![pod_on("io-engine-a", "node-1", true)];
    let mut listings = 0;
    let (requests, outcome) = drive(|action| match action {
        Action::ListPods { label, .. } if label == "app=io-engine" => {
            listings += 1;
            // Only the listing at the start shows the pod without a node.
            quiet(action, if listings == 1 { &instances } else { &scheduled }, false)
        }
        other => quiet(other, &instances, false),
    });
    assert_eq!(
        outcome,
        Err(UpgradeError::EmptyPodNodeName {
            name: "io-engine-b".to_string(),
            namespace: NAMESPACE.to_string(),
        })
    );
    assert_eq!(requests.len(), 12);
    assert_eq!(count(&requests, |a| matches!(a, Action::DrainStorageNode { .. })), 1);
}

#[test]
fn drain_wait_polls_until_no_node_drains() {
    let instances = vec![pod_on("io-engine-a", "node-1", true)];
    let mut looks = 0;
    let (requests, outcome) = drive(|action| match action {
        Action::ListStorageNodes => {
            looks += 1;
            let state = if looks <= 3 { NodeDrainState::Draining } else { NodeDrainState::Drained };
            Event::StorageNodes(vec![node("node-0", NodeDrainState::Uncordoned), node("node-1", state)])
        }
        other => quiet(other, &instances, false),
    });
    assert_eq!(outcome, Ok(()));
    assert_eq!(looks, 4);
    assert_eq!(
        requests[3..11],
        [
            Action::ListStorageNodes,
            sleep(10),
            Action::ListStorageNodes,
            sleep(10),
            Action::ListStorageNodes,
            sleep(10),
            Action::ListStorageNodes,
            sleep(60),
        ]
    );
}

#[test]
fn rebuild_wait_reads_every_page_before_it_deletes() {
    let instances = vec![pod_on("io-engine-a", "node-1", true)];
    let (requests, outcome) = drive(|action| match action {
        Action::ListVolumes { starting_token, .. } => Event::Volumes(match *starting_token {
            0 => clean_page(Some(200)),
            200 => clean_page(Some(400)),
            _ => clean_page(None),
        }),
        other => quiet(other, &instances, false),
    });
    assert_eq!(outcome, Ok(()));
    assert_eq!(
        requests[4..9],
        [
            sleep(60),
            list_volumes(0),
            list_volumes(200),
            list_volumes(400),
            Action::DeletePod { name: "io-engine-a".to_string(), namespace: NAMESPACE.to_string() },
        ]
    );
}

#[test]
fn rebuild_on_a_later_page_holds_the_upgrade_back() {
    let instances = vec![pod_on("io-engine-a", "node-1", true)];
    let mut scans = 0;
    let (requests, outcome) = drive(|action| match action {
        Action::ListVolumes { starting_token, .. } => {
            if *starting_token == 0 {
                scans += 1;
                Event::Volumes(clean_page(Some(7)))
            } else if scans < 3 {
                Event::Volumes(rebuilding_page(Some(9)))
            } else {
                Event::Volumes(clean_page(None))
            }
        }
        other => quiet(other, &instances, false),
    });
    assert_eq!(outcome, Ok(()));
    assert_eq!(
        requests[4..14],
        [
            sleep(60),
            list_volumes(0),
            list_volumes(7),
            sleep(10),
            list_volumes(0),
            list_volumes(7),
            sleep(10),
            list_volumes(0),
            list_volumes(7),
            Action::DeletePod { name: "io-engine-a".to_string(), namespace: NAMESPACE.to_string() },
        ]
    );
}

#[test]
fn ready_wait_polls_until_the_new_pod_is_ready() {
    let instances = vec![pod_on("io-engine-a", "node-1", true)];
    let mut listings = 0;
    let (requests, outcome) = drive(|action| match action {
        Action::ListPods { label, .. } if label == "app=io-engine" => {
            listings += 1;
            match listings {
                1 => Event::Pods(vec![pod_on("io-engine-a", "node-1", true)]),
                // The old pod is gone and the new one has not shown yet.
                2 => Event::Pods(vec![]),
                3 => Event::Pods(vec![pod_on("io-engine-z", "node-1", false)]),
                _ => Event::Pods(vec![pod_on("io-engine-z", "node-1", true)]),
            }
        }
        other => quiet(other, &instances, false),
    });
    assert_eq!(outcome, Ok(()));
    assert_eq!(
        requests[8..14],
        [
            list_pods("app=io-engine"),
            sleep(10),
            list_pods("app=io-engine"),
            sleep(10),
            list_pods("app=io-engine"),
            list_pods("app=agent-core"),
        ]
    );
}

#[test]
fn ready_wait_fails_on_a_pod_without_node() {
    let instances = vec![pod_on("io-engine-a", "node-1", true)];
    let mut listings = 0;
    let (_, outcome) = drive(|action| match action {
        Action::ListPods { label, .. } if label == "app=io-engine" => {
            listings += 1;
            if listings == 1 {
                Event::Pods(vec![pod_on("io-engine-a", "node-1", true)])
            } else {
                Event::Pods(vec![
                    pod_on("io-engine-z", "node-1", true),
                    pod("io-engine-y", NodeAssignment::MissingSpec, true),
                ])
            }
        }
        other => quiet(other, &instances, false),
    });
    assert_eq!(
        outcome,
        Err(UpgradeError::EmptyPodSpec {
            name: "io-engine-y".to_string(),
            namespace: NAMESPACE.to_string(),
        })
    );
}

#[test]
fn unhealthy_core_stops_the_health_check_at_once() {
    let instances = vec![pod_on("io-engine-a", "node-1", true)];
    let (requests, outcome) = drive(|action| match action {
        Action::ListPods { label, .. } if label == "app=agent-core" => Event::Pods(vec![
            pod_on("agent-core-1", "node-7", true),
            pod_on("agent-core-2", "node-8", false),
        ]),
        other => quiet(other, &instances, false),
    });
    assert_eq!(
        outcome,
        Err(UpgradeError::ValidatingPodRunningStatus {
            name: "agent-core-2".to_string(),
            namespace: NAMESPACE.to_string(),
        })
    );
    assert_eq!(count(&requests, |a| *a == list_pods("app=agent-core")), 1);
    assert_eq!(count(&requests, |a| *a == list_pods("app=api-rest")), 0);
    assert_eq!(count(&requests, |a| *a == list_pods("app=etcd")), 0);
    assert_eq!(requests.last(), Some(&list_pods("app=agent-core")));
}

#[test]
fn unhealthy_gateway_stops_before_the_store() {
    let instances = vec![pod_on("io-engine-a", "node-1", true)];
    let (requests, outcome) = drive(|action| match action {
        Action::ListPods { label, .. } if label == "app=api-rest" => Event::Pods(vec![Pod {
            name: "api-rest-1".to_string(),
            namespace: None,
            node: NodeAssignment::Unscheduled,
            conditions: None,
        }]),
        other => quiet(other, &instances, false),
    });
    assert_eq!(
        outcome,
        Err(UpgradeError::ValidatingPodRunningStatus {
            name: "api-rest-1".to_string(),
            namespace: String::new(),
        })
    );
    assert_eq!(count(&requests, |a| *a == list_pods("app=etcd")), 0);
}

#[test]
fn unhealthy_store_fails_the_upgrade() {
    let instances = vec![
        pod_on("io-engine-a", "node-1", true),
        pod_on("io-engine-b", "node-2", true),
    ];
    let (requests, outcome) = drive(|action| match action {
        Action::ListPods { label, .. } if label == "app=etcd" => {
            Event::Pods(vec![pod_on("etcd-0", "node-7", false)])
        }
        other => quiet(other, &instances, false),
    });
    assert_eq!(
        outcome,
        Err(UpgradeError::ValidatingPodRunningStatus {
            name: "etcd-0".to_string(),
            namespace: NAMESPACE.to_string(),
        })
    );
    // The second node is never touched.
    assert_eq!(count(&requests, |a| matches!(a, Action::DrainStorageNode { .. })), 1);
    assert_eq!(requests.len(), 12);
}

fn failing_at(fails: impl Fn(&Action) -> bool) -> (Vec<Action>, Result<(), UpgradeError>) {
    let instances = vec![pod_on("io-engine-a", "node-1", true)];
    drive(|action| if fails(action) { Event::Failed } else { quiet(action, &instances, false) })
}

#[test]
fn failed_listing_of_instances_is_reported() {
    let (requests, outcome) = failing_at(|a| matches!(a, Action::ListPods { .. }));
    assert_eq!(
        outcome,
        Err(UpgradeError::ListPodsWithLabel {
            label: "app=io-engine".to_string(),
            namespace: NAMESPACE.to_string(),
        })
    );
    assert_eq!(requests.len(), 1);
}

#[test]
fn failed_fetch_of_storage_node_is_reported() {
    let (_, outcome) = failing_at(|a| matches!(a, Action::GetStorageNode { .. }));
    assert_eq!(outcome, Err(UpgradeError::GetStorageNode { node_name: "node-1".to_string() }));
}

#[test]
fn failed_drain_is_reported() {
    let (requests, outcome) = failing_at(|a| matches!(a, Action::DrainStorageNode { .. }));
    assert_eq!(outcome, Err(UpgradeError::DrainStorageNode { node_name: "node-1".to_string() }));
    assert_eq!(requests.len(), 3);
}

#[test]
fn failed_listing_of_storage_nodes_is_reported() {
    let (_, outcome) = failing_at(|a| matches!(a, Action::ListStorageNodes));
    assert_eq!(outcome, Err(UpgradeError::ListStorageNodes));
}

#[test]
fn failed_page_aborts_the_whole_look_for_rebuilds() {
    let instances = vec![pod_on("io-engine-a", "node-1", true)];
    let (requests, outcome) = drive(|action| match action {
        Action::ListVolumes { starting_token: 0, .. } => Event::Volumes(clean_page(Some(5))),
        Action::ListVolumes { .. } => Event::Failed,
        other => quiet(other, &instances, false),
    });
    assert_eq!(outcome, Err(UpgradeError::ListStorageVolumes));
    assert_eq!(count(&requests, |a| matches!(a, Action::DeletePod { .. })), 0);
}

#[test]
fn failed_delete_is_reported_with_pod_and_node() {
    let (_, outcome) = failing_at(|a| matches!(a, Action::DeletePod { .. }));
    assert_eq!(
        outcome,
        Err(UpgradeError::PodDeleteError {
            name: "io-engine-a".to_string(),
            node: "node-1".to_string(),
        })
    );
}

#[test]
fn failed_uncordon_is_reported() {
    let (_, outcome) = failing_at(|a| matches!(a, Action::UncordonStorageNode { .. }));
    assert_eq!(outcome, Err(UpgradeError::StorageNodeUncordon { node_name: "node-1".to_string() }));
}

#[test]
fn failed_listing_of_a_component_is_reported() {
    let instances = vec![pod_on("io-engine-a", "node-1", true)];
    let (_, outcome) = drive(|action| match action {
        Action::ListPods { label, .. } if label == "app=api-rest" => Event::Failed,
        other => quiet(other, &instances, false),
    });
    assert_eq!(
        outcome,
        Err(UpgradeError::ListPodsWithLabel {
            label: "app=api-rest".to_string(),
            namespace: NAMESPACE.to_string(),
        })
    );
}

#[test]
fn storage_node_without_spec_fails_the_upgrade() {
    let instances = vec![pod_on("io-engine-a", "node-1", true)];
    let (requests, outcome) = drive(|action| match action {
        Action::GetStorageNode { node_name } => {
            Event::StorageNode(StorageNode { id: node_name.clone(), drain_state: None })
        }
        other => quiet(other, &instances, false),
    });
    assert_eq!(outcome, Err(UpgradeError::EmptyStorageNodeSpec { node_id: "node-1".to_string() }));
    assert_eq!(count(&requests, |a| matches!(a, Action::DrainStorageNode { .. })), 0);
}

#[test]
fn answer_to_another_request_fails_the_upgrade() {
    let upgrade = upgrade_data_plane(NAMESPACE.to_string());
    let upgrade = upgrade.handle(Event::Completed);
    assert_eq!(upgrade.action(), Action::Fail(UpgradeError::UnexpectedEvent));

    let instances = vec![pod_on("io-engine-a", "node-1", true)];
    let (_, outcome) = drive(|action| match action {
        Action::Sleep { .. } => Event::Failed,
        other => quiet(other, &instances, false),
    });
    assert_eq!(outcome, Err(UpgradeError::UnexpectedEvent));
}

#[test]
fn ended_upgrade_stays_as_it_is() {
    let upgrade = upgrade_data_plane(NAMESPACE.to_string()).handle(Event::Pods(vec![]));
    assert_eq!(upgrade.phase, Phase::Finished);
    let upgrade = upgrade.handle(Event::Failed);
    assert_eq!(upgrade.action(), Action::Finish);

    let failed = upgrade_data_plane(NAMESPACE.to_string()).handle(Event::Failed);
    let error = UpgradeError::ListPodsWithLabel {
        label: "app=io-engine".to_string(),
        namespace: NAMESPACE.to_string(),
    };
    assert_eq!(failed.action(), Action::Fail(error.clone()));
    let failed: UpgradeOrchestrator = failed.handle(Event::Pods(vec![]));
    assert_eq!(failed.action(), Action::Fail(error));
}

#[test]
fn request_stays_the_same_until_it_is_answered() {
    let upgrade = upgrade_data_plane(NAMESPACE.to_string());
    assert_eq!(upgrade.action(), upgrade.action());
    assert_eq!(upgrade.action(), list_pods("app=io-engine"));
    assert_eq!(
        upgrade.request_failure(),
        UpgradeError::ListPodsWithLabel {
            label: "app=io-engine".to_string(),
            namespace: NAMESPACE.to_string(),
        }
    );
}

#[test]
fn data_plane_is_only_restarted_on_request() {
    let mut opts = upgrade_job::opts::CliArgs {
        release_name: "mayastor".to_string(),
        namespace: NAMESPACE.to_string(),
        rest_endpoint: "http://api-rest:8081".to_string(),
        pod_name: "upgrade-job-x".to_string(),
        umbrella_chart_dir: None,
        core_chart_dir: None,
        restart_data_plane: false,
    };
    assert_eq!(upgrade_job::orchestrator::data_plane_upgrade(&opts), None);
    opts.restart_data_plane = true;
    assert_eq!(
        upgrade_job::orchestrator::data_plane_upgrade(&opts),
        Some(upgrade_data_plane(NAMESPACE.to_string()))
    );
}
