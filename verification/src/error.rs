//! The failures that the upgrade logic can report.
//!
//! The logic itself never talks to the cluster: when a request that it asked
//! for fails, it is told so and answers with the matching [`UpgradeError`], which
//! names the operation and its target. The low-level cause stays with the
//! caller that made the request.

use vstd::prelude::*;

verus! {

/// A failure of the upgrade, with the identity of what it concerns.
#[derive(Debug, PartialEq, Eq)]
pub enum UpgradeError {
    /// The REST endpoint is not a URL.
    RestUrlParse { rest_endpoint: String },
    /// A regular expression did not compile.
    RegexCompile { expression: String },
    /// The Helm binary on the path is not a v3 release.
    HelmVersion { version: Vec<u8> },
    /// No deployed Helm release of that name exists in the namespace.
    HelmRelease { name: String, namespace: String },
    /// The chart that has to be upgraded has no chart directory to upgrade from.
    NoInputHelmChartDir { chart_name: String },
    /// The upgrade job's pod has no owner.
    JobPodOwnerNotFound { pod_name: String, pod_namespace: String },
    /// The upgrade job's pod has more than one owner.
    JobPodHasTooManyOwners { pod_name: String, pod_namespace: String },
    /// The upgrade job's pod is owned by something that is not a Job.
    JobPodOwnerIsNotJob { pod_name: String, pod_namespace: String },
    /// A YAML file of a chart could not be parsed.
    YamlParseFromFile { filepath: String },
    /// A path of a chart directory could not be inspected as a directory.
    ValidateDirPath { path: String },
    /// A path of a chart directory could not be inspected as a file.
    ValidateFilePath { path: String },
    /// A path of a chart directory exists but is not a directory.
    NotADirectory { path: String },
    /// A path of a chart directory exists but is not a file.
    NotAFile { path: String },
    /// A file of a chart directory could not be opened.
    OpeningFile { filepath: String },
    /// The directory holds a chart, but not the expected one.
    FindingHelmChart { path: String },
    /// Listing the pods that carry a label failed.
    ListPodsWithLabel { label: String, namespace: String },
    /// A pod has no spec.
    EmptyPodSpec { name: String, namespace: String },
    /// A pod has not been assigned to a node.
    EmptyPodNodeName { name: String, namespace: String },
    /// Removing the upgrade cordon from a storage node failed.
    StorageNodeUncordon { node_name: String },
    /// Deleting a pod failed.
    PodDeleteError { name: String, node: String },
    /// Listing the storage nodes failed.
    ListStorageNodes,
    /// Fetching one storage node failed.
    GetStorageNode { node_name: String },
    /// A storage node has no spec.
    EmptyStorageNodeSpec { node_id: String },
    /// Listing a page of storage volumes failed.
    ListStorageVolumes,
    /// Draining a storage node failed.
    DrainStorageNode { node_name: String },
    /// A pod of a component is not ready.
    ValidatingPodRunningStatus { name: String, namespace: String },
    /// A value is missing at a path of a YAML document, or is not a string.
    YamlStructure { yaml_path: String },
    /// The upgrade was handed an answer to a request that it had not made.
    UnexpectedEvent,
}

/// The mathematical value of an [`UpgradeError`].
pub enum UpgradeErrorView {
    RestUrlParse { rest_endpoint: Seq<char> },
    RegexCompile { expression: Seq<char> },
    HelmVersion { version: Seq<u8> },
    HelmRelease { name: Seq<char>, namespace: Seq<char> },
    NoInputHelmChartDir { chart_name: Seq<char> },
    JobPodOwnerNotFound { pod_name: Seq<char>, pod_namespace: Seq<char> },
    JobPodHasTooManyOwners { pod_name: Seq<char>, pod_namespace: Seq<char> },
    JobPodOwnerIsNotJob { pod_name: Seq<char>, pod_namespace: Seq<char> },
    YamlParseFromFile { filepath: Seq<char> },
    ValidateDirPath { path: Seq<char> },
    ValidateFilePath { path: Seq<char> },
    NotADirectory { path: Seq<char> },
    NotAFile { path: Seq<char> },
    OpeningFile { filepath: Seq<char> },
    FindingHelmChart { path: Seq<char> },
    ListPodsWithLabel { label: Seq<char>, namespace: Seq<char> },
    EmptyPodSpec { name: Seq<char>, namespace: Seq<char> },
    EmptyPodNodeName { name: Seq<char>, namespace: Seq<char> },
    StorageNodeUncordon { node_name: Seq<char> },
    PodDeleteError { name: Seq<char>, node: Seq<char> },
    ListStorageNodes,
    GetStorageNode { node_name: Seq<char> },
    EmptyStorageNodeSpec { node_id: Seq<char> },
    ListStorageVolumes,
    DrainStorageNode { node_name: Seq<char> },
    ValidatingPodRunningStatus { name: Seq<char>, namespace: Seq<char> },
    YamlStructure { yaml_path: Seq<char> },
    UnexpectedEvent,
}

impl View for UpgradeError {
    type V = UpgradeErrorView;

    open spec fn view(&self) -> UpgradeErrorView {
        match self {
            UpgradeError::RestUrlParse { rest_endpoint } => UpgradeErrorView::RestUrlParse {
                rest_endpoint: rest_endpoint@,
            },
            UpgradeError::RegexCompile { expression } => UpgradeErrorView::RegexCompile {
                expression: expression@,
            },
            UpgradeError::HelmVersion { version } => UpgradeErrorView::HelmVersion { version: version@ },
            UpgradeError::HelmRelease { name, namespace } => UpgradeErrorView::HelmRelease {
                name: name@,
                namespace: namespace@,
            },
            UpgradeError::NoInputHelmChartDir { chart_name } => UpgradeErrorView::NoInputHelmChartDir {
                chart_name: chart_name@,
            },
            UpgradeError::JobPodOwnerNotFound { pod_name, pod_namespace } => {
                UpgradeErrorView::JobPodOwnerNotFound {
                    pod_name: pod_name@,
                    pod_namespace: pod_namespace@,
                }
            },
            UpgradeError::JobPodHasTooManyOwners { pod_name, pod_namespace } => {
                UpgradeErrorView::JobPodHasTooManyOwners {
                    pod_name: pod_name@,
                    pod_namespace: pod_namespace@,
                }
            },
            UpgradeError::JobPodOwnerIsNotJob { pod_name, pod_namespace } => {
                UpgradeErrorView::JobPodOwnerIsNotJob {
                    pod_name: pod_name@,
                    pod_namespace: pod_namespace@,
                }
            },
            UpgradeError::YamlParseFromFile { filepath } => UpgradeErrorView::YamlParseFromFile {
                filepath: filepath@,
            },
            UpgradeError::ValidateDirPath { path } => UpgradeErrorView::ValidateDirPath { path: path@ },
            UpgradeError::ValidateFilePath { path } => UpgradeErrorView::ValidateFilePath { path: path@ },
            UpgradeError::NotADirectory { path } => UpgradeErrorView::NotADirectory { path: path@ },
            UpgradeError::NotAFile { path } => UpgradeErrorView::NotAFile { path: path@ },
            UpgradeError::OpeningFile { filepath } => UpgradeErrorView::OpeningFile { filepath: filepath@ },
            UpgradeError::FindingHelmChart { path } => UpgradeErrorView::FindingHelmChart { path: path@ },
            UpgradeError::ListPodsWithLabel { label, namespace } => UpgradeErrorView::ListPodsWithLabel {
                label: label@,
                namespace: namespace@,
            },
            UpgradeError::EmptyPodSpec { name, namespace } => UpgradeErrorView::EmptyPodSpec {
                name: name@,
                namespace: namespace@,
            },
            UpgradeError::EmptyPodNodeName { name, namespace } => UpgradeErrorView::EmptyPodNodeName {
                name: name@,
                namespace: namespace@,
            },
            UpgradeError::StorageNodeUncordon { node_name } => UpgradeErrorView::StorageNodeUncordon {
                node_name: node_name@,
            },
            UpgradeError::PodDeleteError { name, node } => UpgradeErrorView::PodDeleteError {
                name: name@,
                node: node@,
            },
            UpgradeError::ListStorageNodes => UpgradeErrorView::ListStorageNodes,
            UpgradeError::GetStorageNode { node_name } => UpgradeErrorView::GetStorageNode {
                node_name: node_name@,
            },
            UpgradeError::EmptyStorageNodeSpec { node_id } => UpgradeErrorView::EmptyStorageNodeSpec {
                node_id: node_id@,
            },
            UpgradeError::ListStorageVolumes => UpgradeErrorView::ListStorageVolumes,
            UpgradeError::DrainStorageNode { node_name } => UpgradeErrorView::DrainStorageNode {
                node_name: node_name@,
            },
            UpgradeError::ValidatingPodRunningStatus { name, namespace } => {
                UpgradeErrorView::ValidatingPodRunningStatus { name: name@, namespace: namespace@ }
            },
            UpgradeError::YamlStructure { yaml_path } => UpgradeErrorView::YamlStructure {
                yaml_path: yaml_path@,
            },
            UpgradeError::UnexpectedEvent => UpgradeErrorView::UnexpectedEvent,
        }
    }
}

impl Clone for UpgradeError {
    fn clone(&self) -> (copy: Self)
        ensures
            copy@ == self@,
    {
        match self {
            UpgradeError::RestUrlParse { rest_endpoint } => UpgradeError::RestUrlParse {
                rest_endpoint: rest_endpoint.clone(),
            },
            UpgradeError::RegexCompile { expression } => UpgradeError::RegexCompile {
                expression: expression.clone(),
            },
            UpgradeError::HelmVersion { version } => UpgradeError::HelmVersion { version: version.clone() },
            UpgradeError::HelmRelease { name, namespace } => UpgradeError::HelmRelease {
                name: name.clone(),
                namespace: namespace.clone(),
            },
            UpgradeError::NoInputHelmChartDir { chart_name } => UpgradeError::NoInputHelmChartDir {
                chart_name: chart_name.clone(),
            },
            UpgradeError::JobPodOwnerNotFound { pod_name, pod_namespace } => UpgradeError::JobPodOwnerNotFound {
                pod_name: pod_name.clone(),
                pod_namespace: pod_namespace.clone(),
            },
            UpgradeError::JobPodHasTooManyOwners { pod_name, pod_namespace } => {
                UpgradeError::JobPodHasTooManyOwners {
                    pod_name: pod_name.clone(),
                    pod_namespace: pod_namespace.clone(),
                }
            },
            UpgradeError::JobPodOwnerIsNotJob { pod_name, pod_namespace } => UpgradeError::JobPodOwnerIsNotJob {
                pod_name: pod_name.clone(),
                pod_namespace: pod_namespace.clone(),
            },
            UpgradeError::YamlParseFromFile { filepath } => UpgradeError::YamlParseFromFile {
                filepath: filepath.clone(),
            },
            UpgradeError::ValidateDirPath { path } => UpgradeError::ValidateDirPath { path: path.clone() },
            UpgradeError::ValidateFilePath { path } => UpgradeError::ValidateFilePath { path: path.clone() },
            UpgradeError::NotADirectory { path } => UpgradeError::NotADirectory { path: path.clone() },
            UpgradeError::NotAFile { path } => UpgradeError::NotAFile { path: path.clone() },
            UpgradeError::OpeningFile { filepath } => UpgradeError::OpeningFile { filepath: filepath.clone() },
            UpgradeError::FindingHelmChart { path } => UpgradeError::FindingHelmChart { path: path.clone() },
            UpgradeError::ListPodsWithLabel { label, namespace } => UpgradeError::ListPodsWithLabel {
                label: label.clone(),
                namespace: namespace.clone(),
            },
            UpgradeError::EmptyPodSpec { name, namespace } => UpgradeError::EmptyPodSpec {
                name: name.clone(),
                namespace: namespace.clone(),
            },
            UpgradeError::EmptyPodNodeName { name, namespace } => UpgradeError::EmptyPodNodeName {
                name: name.clone(),
                namespace: namespace.clone(),
            },
            UpgradeError::StorageNodeUncordon { node_name } => UpgradeError::StorageNodeUncordon {
                node_name: node_name.clone(),
            },
            UpgradeError::PodDeleteError { name, node } => UpgradeError::PodDeleteError {
                name: name.clone(),
                node: node.clone(),
            },
            UpgradeError::ListStorageNodes => UpgradeError::ListStorageNodes,
            UpgradeError::GetStorageNode { node_name } => UpgradeError::GetStorageNode {
                node_name: node_name.clone(),
            },
            UpgradeError::EmptyStorageNodeSpec { node_id } => UpgradeError::EmptyStorageNodeSpec {
                node_id: node_id.clone(),
            },
            UpgradeError::ListStorageVolumes => UpgradeError::ListStorageVolumes,
            UpgradeError::DrainStorageNode { node_name } => UpgradeError::DrainStorageNode {
                node_name: node_name.clone(),
            },
            UpgradeError::ValidatingPodRunningStatus { name, namespace } => {
                UpgradeError::ValidatingPodRunningStatus {
                    name: name.clone(),
                    namespace: namespace.clone(),
                }
            },
            UpgradeError::YamlStructure { yaml_path } => UpgradeError::YamlStructure {
                yaml_path: yaml_path.clone(),
            },
            UpgradeError::UnexpectedEvent => UpgradeError::UnexpectedEvent,
        }
    }
}

/// The mathematical value of a decision that yields a flag or fails.
pub open spec fn flag_view(outcome: Result<bool, UpgradeError>) -> Result<bool, UpgradeErrorView> {
    match outcome {
        Ok(flag) => Ok(flag),
        Err(error) => Err(error@),
    }
}

/// The mathematical value of a decision that yields a string or fails.
pub open spec fn text_view(outcome: Result<String, UpgradeError>) -> Result<Seq<char>, UpgradeErrorView> {
    match outcome {
        Ok(text) => Ok(text@),
        Err(error) => Err(error@),
    }
}

/// The mathematical value of a check that passes or fails.
pub open spec fn check_view(outcome: Result<(), UpgradeError>) -> Result<(), UpgradeErrorView> {
    match outcome {
        Ok(()) => Ok(()),
        Err(error) => Err(error@),
    }
}

} // verus!
