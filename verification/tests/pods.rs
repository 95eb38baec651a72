use upgrade_job::error::UpgradeError;
use upgrade_job::health::{all_pods_are_ready, verify_component, Component};
use upgrade_job::pod::{NodeAssignment, Pod, PodCondition};
use upgrade_job::replacer::is_data_plane_pod_running;

fn condition(type_: &str, status: &str) -> PodCondition {
    PodCondition { type_: type_.to_string(), status: status.to_string() }
}

fn pod(name: &str, node: NodeAssignment, conditions: Option<Vec<PodCondition>>) -> Pod {
    Pod { name: name.to_string(), namespace: Some("storage".to_string()), node, conditions }
}

fn on(node: &str) -> NodeAssignment {
    NodeAssignment::Node(node.to_string())
}

fn ready(name: &str, node: &str) -> Pod {
    pod(name, on(node), Some(vec![condition("Ready", "True")]))
}

fn unready(name: &str, node: &str) -> Pod {
    pod(name, on(node), Some(vec![condition("Ready", "False")]))
}

fn running(node: &str, pods: &Vec<Pod>) -> Result<bool, UpgradeError> {
    is_data_plane_pod_running(&node.to_string(), &"storage".to_string(), pods)
}

#[test]
fn pod_is_ready_when_its_ready_condition_is_true() {
    assert!(ready("p", "n").is_ready());
    assert!(pod(
        "p",
        on("n"),
        Some(vec![
            condition("Initialized", "True"),
            condition("Ready", "True"),
            condition("ContainersReady", "True"),
            condition("PodScheduled", "True"),
        ])
    )
    .is_ready());
    assert!(condition("Ready", "True").reports_ready());
}

#[test]
fn pod_is_not_ready_without_a_true_ready_condition() {
    assert!(!unready("p", "n").is_ready());
    assert!(!pod("p", on("n"), None).is_ready());
    assert!(!pod("p", on("n"), Some(vec![])).is_ready());
    assert!(!pod("p", on("n"), Some(vec![condition("Ready", "Unknown")])).is_ready());
    assert!(!pod("p", on("n"), Some(vec![condition("ready", "True")])).is_ready());
    assert!(!pod("p", on("n"), Some(vec![condition("Ready", "true")])).is_ready());
    assert!(!pod(
        "p",
        on("n"),
        Some(vec![condition("Initialized", "True"), condition("PodScheduled", "True")])
    )
    .is_ready());
    assert!(!condition("Ready", "False").reports_ready());
    assert!(!condition("PodScheduled", "True").reports_ready());
}

#[test]
fn resolve_node_gives_the_node_of_a_scheduled_pod() {
    assert_eq!(ready("p", "node-4").resolve_node(&"storage".to_string()), Ok("node-4".to_string()));
}

#[test]
fn resolve_node_fails_on_a_pod_without_node() {
    assert_eq!(
        pod("p", NodeAssignment::Unscheduled, None).resolve_node(&"ns".to_string()),
        Err(UpgradeError::EmptyPodNodeName { name: "p".to_string(), namespace: "ns".to_string() })
    );
}

#[test]
fn resolve_node_fails_on_a_pod_without_spec() {
    assert_eq!(
        pod("p", NodeAssignment::MissingSpec, None).resolve_node(&"ns".to_string()),
        Err(UpgradeError::EmptyPodSpec { name: "p".to_string(), namespace: "ns".to_string() })
    );
}

#[test]
fn namespace_defaults_to_the_empty_string() {
    assert_eq!(ready("p", "n").namespace_or_default(), "storage");
    let nameless = Pod { namespace: None, ..ready("p", "n") };
    assert_eq!(nameless.namespace_or_default(), "");
}

#[test]
fn copy_of_a_pod_equals_the_pod() {
    let pod_with_conditions = pod(
        "p",
        on("n"),
        Some(vec![condition("Ready", "True"), condition("PodScheduled", "False")]),
    );
    assert_eq!(pod_with_conditions.clone(), pod_with_conditions);
    let bare = Pod { name: String::new(), namespace: None, node: NodeAssignment::MissingSpec, conditions: None };
    assert_eq!(bare.clone(), bare);
}

#[test]
fn all_pods_are_ready_names_the_first_that_is_not() {
    assert_eq!(all_pods_are_ready(&vec![]), (true, String::new(), String::new()));
    assert_eq!(
        all_pods_are_ready(&vec![ready("a", "n1"), ready("b", "n2")]),
        (true, String::new(), String::new())
    );
    assert_eq!(
        all_pods_are_ready(&vec![ready("a", "n1"), unready("b", "n2"), unready("c", "n3")]),
        (false, "b".to_string(), "storage".to_string())
    );
    let nameless = Pod { namespace: None, conditions: None, ..ready("d", "n1") };
    assert_eq!(all_pods_are_ready(&vec![nameless]), (false, "d".to_string(), String::new()));
}

#[test]
fn component_verdict_names_the_unready_pod() {
    assert_eq!(verify_component(&vec![ready("a", "n1")]), Ok(()));
    assert_eq!(verify_component(&vec![]), Ok(()));
    assert_eq!(
        verify_component(&vec![unready("a", "n1"), unready("b", "n1")]),
        Err(UpgradeError::ValidatingPodRunningStatus {
            name: "a".to_string(),
            namespace: "storage".to_string(),
        })
    );
}

#[test]
fn components_are_checked_core_gateway_store() {
    let core = Component::first();
    assert_eq!(core, Component::Core);
    assert_eq!(core.label(), "app=agent-core");
    let gateway = core.next().unwrap();
    assert_eq!(gateway, Component::ApiGateway);
    assert_eq!(gateway.label(), "app=api-rest");
    let store = gateway.next().unwrap();
    assert_eq!(store, Component::Store);
    assert_eq!(store.label(), "app=etcd");
    assert_eq!(store.next(), None);
}

#[test]
fn data_plane_pod_runs_when_the_pod_on_the_node_is_ready() {
    assert_eq!(running("n1", &vec![ready("a", "n1")]), Ok(true));
    assert_eq!(running("n1", &vec![ready("b", "n2"), ready("a", "n1"), unready("c", "n3")]), Ok(true));
    assert_eq!(running("n1", &vec![unready("a", "n1")]), Ok(false));
}

#[test]
fn data_plane_pod_does_not_run_without_a_pod_on_the_node() {
    assert_eq!(running("n1", &vec![]), Ok(false));
    assert_eq!(running("n1", &vec![ready("b", "n2"), ready("c", "n3")]), Ok(false));
}

#[test]
fn last_pod_on_the_node_decides() {
    assert_eq!(running("n1", &vec![ready("old", "n1"), unready("new", "n1")]), Ok(false));
    assert_eq!(running("n1", &vec![unready("old", "n1"), ready("new", "n1")]), Ok(true));
    assert_eq!(
        running("n1", &vec![unready("old", "n1"), ready("new", "n1"), unready("other", "n2")]),
        Ok(true)
    );
}

#[test]
fn data_plane_look_fails_on_the_first_pod_without_node() {
    assert_eq!(
        running(
            "n1",
            &vec![
                ready("a", "n1"),
                pod("b", NodeAssignment::Unscheduled, None),
                pod("c", NodeAssignment::MissingSpec, None),
            ]
        ),
        Err(UpgradeError::EmptyPodNodeName { name: "b".to_string(), namespace: "storage".to_string() })
    );
    assert_eq!(
        running("n1", &vec![pod("c", NodeAssignment::MissingSpec, None), ready("a", "n1")]),
        Err(UpgradeError::EmptyPodSpec { name: "c".to_string(), namespace: "storage".to_string() })
    );
}
