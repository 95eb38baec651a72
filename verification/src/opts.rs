//! The arguments of an upgrade, after the command line has been parsed.

use vstd::prelude::*;

verus! {

/// The arguments of an upgrade.
#[derive(Debug, PartialEq, Eq)]
pub struct CliArgs {
    /// The name of the Helm release of the storage product.
    pub release_name: String,
    /// The namespace of the storage product.
    pub namespace: String,
    /// The URL of the storage control plane's REST API.
    pub rest_endpoint: String,
    /// The name of the pod that runs the upgrade.
    pub pod_name: String,
    /// The directory of the umbrella chart to upgrade to, if one was given.
    pub umbrella_chart_dir: Option<String>,
    /// The directory of the core chart to upgrade to, if one was given.
    pub core_chart_dir: Option<String>,
    /// Whether the data plane is to be restarted after the Helm upgrade.
    pub restart_data_plane: bool,
}

/// The mathematical value of [`CliArgs`].
pub struct CliArgsView {
    pub release_name: Seq<char>,
    pub namespace: Seq<char>,
    pub rest_endpoint: Seq<char>,
    pub pod_name: Seq<char>,
    pub umbrella_chart_dir: Option<Seq<char>>,
    pub core_chart_dir: Option<Seq<char>>,
    pub restart_data_plane: bool,
}

/// The value of a string that may be missing.
pub open spec fn optional_text(text: Option<String>) -> Option<Seq<char>> {
    match text {
        Some(text) => Some(text@),
        None => None,
    }
}

impl View for CliArgs {
    type V = CliArgsView;

    open spec fn view(&self) -> CliArgsView {
        CliArgsView {
            release_name: self.release_name@,
            namespace: self.namespace@,
            rest_endpoint: self.rest_endpoint@,
            pod_name: self.pod_name@,
            umbrella_chart_dir: optional_text(self.umbrella_chart_dir),
            core_chart_dir: optional_text(self.core_chart_dir),
            restart_data_plane: self.restart_data_plane,
        }
    }
}

/// A copy of a string that may be missing.
pub fn copy_optional_text(text: &Option<String>) -> (copy: Option<String>)
    ensures
        optional_text(copy) == optional_text(*text),
{
    match text {
        Some(text) => Some(text.clone()),
        None => None,
    }
}

impl CliArgs {
    /// The name of the Helm release of the storage product.
    pub fn release_name(&self) -> (release_name: String)
        ensures
            release_name@ == self@.release_name,
    {
        self.release_name.clone()
    }

    /// The namespace of the storage product.
    pub fn namespace(&self) -> (namespace: String)
        ensures
            namespace@ == self@.namespace,
    {
        self.namespace.clone()
    }

    /// The URL of the storage control plane's REST API.
    pub fn rest_endpoint(&self) -> (rest_endpoint: String)
        ensures
            rest_endpoint@ == self@.rest_endpoint,
    {
        self.rest_endpoint.clone()
    }

    /// The name of the pod that runs the upgrade.
    pub fn pod_name(&self) -> (pod_name: String)
        ensures
            pod_name@ == self@.pod_name,
    {
        self.pod_name.clone()
    }

    /// The directory of the umbrella chart to upgrade to, if one was given.
    pub fn umbrella_chart_dir(&self) -> (dir: Option<String>)
        ensures
            optional_text(dir) == self@.umbrella_chart_dir,
    {
        copy_optional_text(&self.umbrella_chart_dir)
    }

    /// The directory of the core chart to upgrade to, if one was given.
    pub fn core_chart_dir(&self) -> (dir: Option<String>)
        ensures
            optional_text(dir) == self@.core_chart_dir,
    {
        copy_optional_text(&self.core_chart_dir)
    }

    /// Whether the data plane is to be restarted after the Helm upgrade.
    pub fn restart_data_plane(&self) -> (restart: bool)
        ensures
            restart == self@.restart_data_plane,
    {
        self.restart_data_plane
    }
}

} // verus!
