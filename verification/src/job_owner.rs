//! The Job that owns the pod in which the upgrade runs.
//!
//! The upgrade reports its progress as events on the Job that started it.
//! That Job is found through the owner references of the upgrade's own pod,
//! which must name exactly one owner, and that owner must be a Job.

use crate::constants::JOB_KIND;
use crate::error::{UpgradeError, UpgradeErrorView};
use vstd::prelude::*;

verus! {

/// One owner reference of a pod.
#[derive(Debug, PartialEq, Eq)]
pub struct OwnerReference {
    pub api_version: String,
    pub kind: String,
    pub name: String,
    pub uid: String,
}

/// The mathematical value of an [`OwnerReference`].
pub struct OwnerReferenceView {
    pub api_version: Seq<char>,
    pub kind: Seq<char>,
    pub name: Seq<char>,
    pub uid: Seq<char>,
}

impl View for OwnerReference {
    type V = OwnerReferenceView;

    open spec fn view(&self) -> OwnerReferenceView {
        OwnerReferenceView {
            api_version: self.api_version@,
            kind: self.kind@,
            name: self.name@,
            uid: self.uid@,
        }
    }
}

/// The object that the upgrade's events are recorded on.
#[derive(Debug, PartialEq, Eq)]
pub struct JobReference {
    pub api_version: String,
    pub kind: String,
    pub name: String,
    pub namespace: String,
    pub uid: String,
}

/// The mathematical value of a [`JobReference`].
pub struct JobReferenceView {
    pub api_version: Seq<char>,
    pub kind: Seq<char>,
    pub name: Seq<char>,
    pub namespace: Seq<char>,
    pub uid: Seq<char>,
}

impl View for JobReference {
    type V = JobReferenceView;

    open spec fn view(&self) -> JobReferenceView {
        JobReferenceView {
            api_version: self.api_version@,
            kind: self.kind@,
            name: self.name@,
            namespace: self.namespace@,
            uid: self.uid@,
        }
    }
}

/// The owner references of a pod, if its record has any.
pub open spec fn owner_views(owners: Option<Vec<OwnerReference>>) -> Option<
    Seq<OwnerReferenceView>,
> {
    match owners {
        Some(owners) => Some(Seq::new(owners@.len(), |i: int| owners@[i]@)),
        None => None,
    }
}

/// The Job that owns the pod `pod_name` of `namespace`, from the pod's owner
/// references.
///
/// A pod without owner references, or with an empty list of them, has no
/// owner. A pod with more than one has too many. The one owner must be of
/// kind `Job`; the reference to it is completed with the pod's namespace.
pub open spec fn owning_job(
    owners: Option<Seq<OwnerReferenceView>>,
    pod_name: Seq<char>,
    namespace: Seq<char>,
) -> Result<JobReferenceView, UpgradeErrorView> {
    match owners {
        None => Err(
            UpgradeErrorView::JobPodOwnerNotFound { pod_name, pod_namespace: namespace },
        ),
        Some(owners) => if owners.len() == 0 {
            Err(UpgradeErrorView::JobPodOwnerNotFound { pod_name, pod_namespace: namespace })
        } else if owners.len() > 1 {
            Err(UpgradeErrorView::JobPodHasTooManyOwners { pod_name, pod_namespace: namespace })
        } else if owners[0].kind != JOB_KIND@ {
            Err(UpgradeErrorView::JobPodOwnerIsNotJob { pod_name, pod_namespace: namespace })
        } else {
            Ok(
                JobReferenceView {
                    api_version: owners[0].api_version,
                    kind: owners[0].kind,
                    name: owners[0].name,
                    namespace,
                    uid: owners[0].uid,
                },
            )
        },
    }
}

/// The value of a reference or of the reason why there is none.
pub open spec fn reference_view(outcome: Result<JobReference, UpgradeError>) -> Result<
    JobReferenceView,
    UpgradeErrorView,
> {
    match outcome {
        Ok(reference) => Ok(reference@),
        Err(error) => Err(error@),
    }
}

/// Finds the Job that owns the pod in which the upgrade runs, from the owner
/// references of that pod.
pub fn job_owner(
    owner_references: Option<Vec<OwnerReference>>,
    pod_name: String,
    namespace: String,
) -> (owner: Result<JobReference, UpgradeError>)
    ensures
        reference_view(owner) == owning_job(owner_views(owner_references), pod_name@, namespace@),
{
    match owner_references {
        None => Err(UpgradeError::JobPodOwnerNotFound { pod_name, pod_namespace: namespace }),
        Some(mut owners) => {
            if owners.len() == 0 {
                Err(UpgradeError::JobPodOwnerNotFound { pod_name, pod_namespace: namespace })
            } else if owners.len() > 1 {
                Err(UpgradeError::JobPodHasTooManyOwners { pod_name, pod_namespace: namespace })
            } else {
                let ghost listed = owners@;
                let pod_owner = owners.remove(0);
                assert(pod_owner == listed[0]);
                if pod_owner.kind != String::from_str(JOB_KIND) {
                    Err(UpgradeError::JobPodOwnerIsNotJob { pod_name, pod_namespace: namespace })
                } else {
                    Ok(
                        JobReference {
                            api_version: pod_owner.api_version,
                            kind: pod_owner.kind,
                            name: pod_owner.name,
                            namespace,
                            uid: pod_owner.uid,
                        },
                    )
                }
            }
        },
    }
}

} // verus!
