use upgrade_job::error::UpgradeError;
use upgrade_job::job_owner::{job_owner, JobReference, OwnerReference};

fn owner(kind: &str, name: &str) -> OwnerReference {
    OwnerReference {
        api_version: "batch/v1".to_string(),
        kind: kind.to_string(),
        name: name.to_string(),
        uid: "0b5f3c".to_string(),
    }
}

fn find(owners: Option<Vec<OwnerReference>>) -> Result<JobReference, UpgradeError> {
    job_owner(owners, "upgrade-x".to_string(), "storage".to_string())
}

#[test]
fn job_that_owns_the_pod_is_found() {
    assert_eq!(
        find(Some(vec![owner("Job", "upgrade")])),
        Ok(JobReference {
            api_version: "batch/v1".to_string(),
            kind: "Job".to_string(),
            name: "upgrade".to_string(),
            namespace: "storage".to_string(),
            uid: "0b5f3c".to_string(),
        })
    );
}

#[test]
fn pod_without_owner_references_has_no_owner() {
    let missing = Err(UpgradeError::JobPodOwnerNotFound {
        pod_name: "upgrade-x".to_string(),
        pod_namespace: "storage".to_string(),
    });
    assert_eq!(find(None), missing);
    assert_eq!(find(Some(vec![])), missing);
}

#[test]
fn pod_with_two_owners_has_too_many() {
    assert_eq!(
        find(Some(vec![owner("Job", "upgrade"), owner("Job", "other")])),
        Err(UpgradeError::JobPodHasTooManyOwners {
            pod_name: "upgrade-x".to_string(),
            pod_namespace: "storage".to_string(),
        })
    );
}

#[test]
fn owner_that_is_no_job_is_refused() {
    for kind in ["ReplicaSet", "job", "CronJob", ""] {
        assert_eq!(
            find(Some(vec![owner(kind, "upgrade")])),
            Err(UpgradeError::JobPodOwnerIsNotJob {
                pod_name: "upgrade-x".to_string(),
                pod_namespace: "storage".to_string(),
            })
        );
    }
}
