//! The checks on the arguments of an upgrade that need a look outside:
//! at Helm, and at the chart directories.
//!
//! Nothing here runs Helm or touches a file. The checks say what is to be
//! looked at and judge what was found.

use crate::error::{check_view, UpgradeError, UpgradeErrorView};
use crate::helm::upgrade::HelmChartVariant;
use crate::pattern::{bytes_match, search_bytes, search_outcome};
use crate::text::{push_text, string_views};
use crate::yaml::{read_text, required_text, yaml_text_at};
use vstd::prelude::*;

verus! {

/// The arguments with which `helm` prints the names of the deployed releases
/// of `namespace`, one to a line.
pub open spec fn release_names_args(namespace: Seq<char>) -> Seq<Seq<char>> {
    seq!["list"@, "-n"@, namespace, "--deployed"@, "--short"@]
}

/// The arguments with which `helm` prints its version.
pub open spec fn version_args() -> Seq<Seq<char>> {
    seq!["version"@, "--short"@]
}

/// The regular expression that finds the release `name` in the output of
/// `helm list --short`.
pub open spec fn release_expression(name: Seq<char>) -> Seq<char> {
    "(\n)?"@ + name + "(\n)?"@
}

/// The regular expression that the version of a Helm v3 begins with.
pub open spec fn helm_v3_expression() -> Seq<char> {
    "^(v3\\.[0-9]+\\.[0-9])"@
}

/// A search that has to find something: an expression that does not
/// compile fails with its own error, and one that finds nothing fails with
/// `missing`.
pub open spec fn required(found: Result<bool, UpgradeErrorView>, missing: UpgradeErrorView) -> Result<
    (),
    UpgradeErrorView,
> {
    match found {
        Err(error) => Err(error),
        Ok(true) => Ok(()),
        Ok(false) => Err(missing),
    }
}

/// Whether the release `name` is among the names that `helm list --short`
/// printed for `namespace`.
pub open spec fn release_is_deployed(name: Seq<char>, namespace: Seq<char>, listed: Seq<u8>) -> Result<
    (),
    UpgradeErrorView,
> {
    required(
        search_outcome(release_expression(name), bytes_match(release_expression(name), listed)),
        UpgradeErrorView::HelmRelease { name, namespace },
    )
}

/// Whether what `helm version --short` printed is the version of a Helm v3.
pub open spec fn helm_is_v3(version: Seq<u8>) -> Result<(), UpgradeErrorView> {
    required(
        search_outcome(helm_v3_expression(), bytes_match(helm_v3_expression(), version)),
        UpgradeErrorView::HelmVersion { version },
    )
}

/// The arguments with which `helm` prints the names of the deployed releases
/// of `namespace`.
pub fn helm_release_names_args(namespace: &str) -> (args: Vec<String>)
    ensures
        string_views(args@) == release_names_args(namespace@),
{
    let mut args: Vec<String> = Vec::new();
    assert(string_views(args@) =~= Seq::empty());
    push_text(&mut args, "list");
    push_text(&mut args, "-n");
    push_text(&mut args, namespace);
    push_text(&mut args, "--deployed");
    push_text(&mut args, "--short");
    assert(string_views(args@) =~= release_names_args(namespace@));
    args
}

/// The arguments with which `helm` prints its version.
pub fn helm_version_args() -> (args: Vec<String>)
    ensures
        string_views(args@) == version_args(),
{
    let mut args: Vec<String> = Vec::new();
    assert(string_views(args@) =~= Seq::empty());
    push_text(&mut args, "version");
    push_text(&mut args, "--short");
    assert(string_views(args@) =~= version_args());
    args
}

/// Judges a search that has to find something.
pub fn require(found: Result<bool, UpgradeError>, missing: UpgradeError) -> (verdict: Result<
    (),
    UpgradeError,
>)
    ensures
        check_view(verdict) == required(crate::error::flag_view(found), missing@),
{
    match found {
        Err(error) => Err(error),
        Ok(true) => Ok(()),
        Ok(false) => Err(missing),
    }
}

/// Checks that the release `name` is deployed in `namespace`. `listed` is
/// what `helm` printed when called with [`helm_release_names_args`].
pub fn validate_helm_release(name: String, namespace: String, listed: &[u8]) -> (verdict: Result<
    (),
    UpgradeError,
>)
    ensures
        check_view(verdict) == release_is_deployed(name@, namespace@, listed@),
{
    let expression = String::from_str("(\n)?").concat(name.as_str()).concat("(\n)?");
    let found = search_bytes(expression, listed);
    require(found, UpgradeError::HelmRelease { name, namespace })
}

/// Checks that the Helm on the path is a Helm v3. `version` is what `helm`
/// printed when called with [`helm_version_args`].
pub fn validate_helmv3_in_path(version: Vec<u8>) -> (verdict: Result<(), UpgradeError>)
    ensures
        check_view(verdict) == helm_is_v3(version@),
{
    let found = search_bytes(String::from_str("^(v3\\.[0-9]+\\.[0-9])"), version.as_slice());
    require(found, UpgradeError::HelmVersion { version })
}

/// What a chart directory must hold.
#[derive(Debug, PartialEq, Eq, Clone, Copy, Structural)]
pub enum ChartDirCheck {
    /// The chart directory is a directory.
    Root,
    /// `Chart.yaml` is a file.
    ChartYaml,
    /// `Chart.yaml` names the expected chart.
    ChartName,
    /// `charts` is a directory: the chart's dependencies have been fetched.
    Charts,
    /// `values.yaml` is a file.
    ValuesYaml,
    /// `README.md` is a file.
    Readme,
    /// `crds` is a directory.
    Crds,
    /// `templates` is a directory.
    Templates,
}

/// What the caller has to find out for a check.
#[derive(Debug, PartialEq, Eq, Clone, Copy, Structural)]
pub enum Probe {
    /// Whether the path exists and is a directory.
    IsDirectory,
    /// Whether the path exists and is a file.
    IsFile,
    /// The content of the file at the path.
    Content,
}

impl ChartDirCheck {
    /// The check that comes after this one, if any.
    pub open spec fn following(self) -> Option<ChartDirCheck> {
        match self {
            ChartDirCheck::Root => Some(ChartDirCheck::ChartYaml),
            ChartDirCheck::ChartYaml => Some(ChartDirCheck::ChartName),
            ChartDirCheck::ChartName => Some(ChartDirCheck::Charts),
            ChartDirCheck::Charts => Some(ChartDirCheck::ValuesYaml),
            ChartDirCheck::ValuesYaml => Some(ChartDirCheck::Readme),
            ChartDirCheck::Readme => Some(ChartDirCheck::Crds),
            ChartDirCheck::Crds => Some(ChartDirCheck::Templates),
            ChartDirCheck::Templates => None,
        }
    }

    /// What the caller has to find out.
    pub open spec fn probe(self) -> Probe {
        match self {
            ChartDirCheck::Root | ChartDirCheck::Charts | ChartDirCheck::Crds
            | ChartDirCheck::Templates => Probe::IsDirectory,
            ChartDirCheck::ChartYaml | ChartDirCheck::ValuesYaml | ChartDirCheck::Readme => {
                Probe::IsFile
            },
            ChartDirCheck::ChartName => Probe::Content,
        }
    }

    /// The name under the chart directory that the check looks at; `None`
    /// for the chart directory itself.
    pub open spec fn entry(self) -> Option<Seq<char>> {
        match self {
            ChartDirCheck::Root => None,
            ChartDirCheck::ChartYaml | ChartDirCheck::ChartName => Some("Chart.yaml"@),
            ChartDirCheck::Charts => Some("charts"@),
            ChartDirCheck::ValuesYaml => Some("values.yaml"@),
            ChartDirCheck::Readme => Some("README.md"@),
            ChartDirCheck::Crds => Some("crds"@),
            ChartDirCheck::Templates => Some("templates"@),
        }
    }

    /// The check that comes after this one, if any.
    pub fn next(&self) -> (next: Option<ChartDirCheck>)
        ensures
            next == self.following(),
    {
        match self {
            ChartDirCheck::Root => Some(ChartDirCheck::ChartYaml),
            ChartDirCheck::ChartYaml => Some(ChartDirCheck::ChartName),
            ChartDirCheck::ChartName => Some(ChartDirCheck::Charts),
            ChartDirCheck::Charts => Some(ChartDirCheck::ValuesYaml),
            ChartDirCheck::ValuesYaml => Some(ChartDirCheck::Readme),
            ChartDirCheck::Readme => Some(ChartDirCheck::Crds),
            ChartDirCheck::Crds => Some(ChartDirCheck::Templates),
            ChartDirCheck::Templates => None,
        }
    }

    /// What the caller has to find out.
    pub fn what(&self) -> (probe: Probe)
        ensures
            probe == self.probe(),
    {
        match self {
            ChartDirCheck::Root | ChartDirCheck::Charts | ChartDirCheck::Crds
            | ChartDirCheck::Templates => Probe::IsDirectory,
            ChartDirCheck::ChartYaml | ChartDirCheck::ValuesYaml | ChartDirCheck::Readme => {
                Probe::IsFile
            },
            ChartDirCheck::ChartName => Probe::Content,
        }
    }

    /// The name under the chart directory that the check looks at; `None`
    /// for the chart directory itself.
    pub fn entry_name(&self) -> (entry: Option<String>)
        ensures
            crate::opts::optional_text(entry) == self.entry(),
    {
        match self {
            ChartDirCheck::Root => None,
            ChartDirCheck::ChartYaml | ChartDirCheck::ChartName => Some(
                String::from_str("Chart.yaml"),
            ),
            ChartDirCheck::Charts => Some(String::from_str("charts")),
            ChartDirCheck::ValuesYaml => Some(String::from_str("values.yaml")),
            ChartDirCheck::Readme => Some(String::from_str("README.md")),
            ChartDirCheck::Crds => Some(String::from_str("crds")),
            ChartDirCheck::Templates => Some(String::from_str("templates")),
        }
    }
}

/// What the caller found.
#[derive(Debug, PartialEq, Eq)]
pub enum Finding {
    /// The path exists; it is of the kind that was asked for, or not.
    Kind(bool),
    /// The path could not be inspected.
    Inaccessible,
    /// The file could not be opened.
    Unopened,
    /// The bytes that the file holds.
    Content(Vec<u8>),
}

/// The mathematical value of a [`Finding`].
pub enum FindingView {
    Kind(bool),
    Inaccessible,
    Unopened,
    Content(Seq<u8>),
}

impl View for Finding {
    type V = FindingView;

    open spec fn view(&self) -> FindingView {
        match self {
            Finding::Kind(found) => FindingView::Kind(*found),
            Finding::Inaccessible => FindingView::Inaccessible,
            Finding::Unopened => FindingView::Unopened,
            Finding::Content(bytes) => FindingView::Content(bytes@),
        }
    }
}

/// How far the validation of a chart directory has come.
#[derive(Debug, PartialEq, Eq)]
pub enum Progress {
    /// The check is due.
    Checking(ChartDirCheck),
    /// Every check has passed.
    Valid,
    /// A check has failed.
    Invalid(UpgradeError),
}

/// The mathematical value of a [`Progress`].
pub enum ProgressView {
    Checking(ChartDirCheck),
    Valid,
    Invalid(UpgradeErrorView),
}

impl View for Progress {
    type V = ProgressView;

    open spec fn view(&self) -> ProgressView {
        match self {
            Progress::Checking(check) => ProgressView::Checking(*check),
            Progress::Valid => ProgressView::Valid,
            Progress::Invalid(error) => ProgressView::Invalid(error@),
        }
    }
}

/// The validation of one chart directory.
#[derive(Debug, PartialEq, Eq)]
pub struct ChartDirValidation {
    /// The chart that the directory must hold.
    pub chart_variant: HelmChartVariant,
    /// The chart directory.
    pub dir_path: String,
    /// How far the validation has come.
    pub progress: Progress,
}

/// The mathematical value of a [`ChartDirValidation`].
pub struct ChartDirValidationView {
    pub chart_variant: HelmChartVariant,
    pub dir_path: Seq<char>,
    pub progress: ProgressView,
}

impl View for ChartDirValidation {
    type V = ChartDirValidationView;

    open spec fn view(&self) -> ChartDirValidationView {
        ChartDirValidationView {
            chart_variant: self.chart_variant,
            dir_path: self.dir_path@,
            progress: self.progress@,
        }
    }
}

/// The key of a chart's name in its `Chart.yaml`.
pub const CHART_NAME_KEY: &'static str = "name";

impl ChartDirValidationView {
    /// The validation before any check.
    pub open spec fn initial(chart_variant: HelmChartVariant, dir_path: Seq<char>) -> Self {
        ChartDirValidationView {
            chart_variant,
            dir_path,
            progress: ProgressView::Checking(ChartDirCheck::Root),
        }
    }

    /// The error of a check that did not pass, or `None` where it passed.
    /// `path` is the path that was looked at. A finding that does not
    /// answer the check's question is an error too.
    pub open spec fn failure(self, check: ChartDirCheck, finding: FindingView, path: Seq<char>) -> Option<
        UpgradeErrorView,
    > {
        match (check.probe(), finding) {
            (Probe::IsDirectory, FindingView::Kind(true)) => None,
            (Probe::IsDirectory, FindingView::Kind(false)) => Some(
                UpgradeErrorView::NotADirectory { path },
            ),
            (Probe::IsDirectory, FindingView::Inaccessible) => Some(
                UpgradeErrorView::ValidateDirPath { path },
            ),
            (Probe::IsFile, FindingView::Kind(true)) => None,
            (Probe::IsFile, FindingView::Kind(false)) => Some(UpgradeErrorView::NotAFile { path }),
            (Probe::IsFile, FindingView::Inaccessible) => Some(
                UpgradeErrorView::ValidateFilePath { path },
            ),
            (Probe::Content, FindingView::Unopened) => Some(
                UpgradeErrorView::OpeningFile { filepath: path },
            ),
            (Probe::Content, FindingView::Content(chart_yaml)) => match required_text(
                path,
                CHART_NAME_KEY@,
                yaml_text_at(chart_yaml, seq![CHART_NAME_KEY@]),
            ) {
                Err(error) => Some(error),
                Ok(name) => if name == self.chart_variant.chart_name() {
                    None
                } else {
                    Some(UpgradeErrorView::FindingHelmChart { path: self.dir_path })
                },
            },
            _ => Some(UpgradeErrorView::UnexpectedEvent),
        }
    }

    /// The validation after the check that was due has been answered. A
    /// validation that has passed or failed stays as it is.
    pub open spec fn next(self, finding: FindingView, path: Seq<char>) -> Self {
        match self.progress {
            ProgressView::Checking(check) => match self.failure(check, finding, path) {
                Some(error) => ChartDirValidationView {
                    progress: ProgressView::Invalid(error),
                    ..self
                },
                None => match check.following() {
                    Some(next) => ChartDirValidationView {
                        progress: ProgressView::Checking(next),
                        ..self
                    },
                    None => ChartDirValidationView { progress: ProgressView::Valid, ..self },
                },
            },
            _ => self,
        }
    }
}

/// The value of an error that may be missing.
pub open spec fn optional_error(error: Option<UpgradeError>) -> Option<UpgradeErrorView> {
    match error {
        Some(error) => Some(error@),
        None => None,
    }
}

impl ChartDirValidation {
    /// Begins the validation of the directory `dir_path`, which must hold
    /// the chart `chart_variant`.
    pub fn new(chart_variant: HelmChartVariant, dir_path: String) -> (validation: Self)
        ensures
            validation@ == ChartDirValidationView::initial(chart_variant, dir_path@),
    {
        ChartDirValidation {
            chart_variant,
            dir_path,
            progress: Progress::Checking(ChartDirCheck::Root),
        }
    }

    fn failure(&self, check: ChartDirCheck, finding: Finding, path: String) -> (error: Option<
        UpgradeError,
    >)
        ensures
            optional_error(error) == self@.failure(check, finding@, path@),
    {
        match check.what() {
            Probe::IsDirectory => match finding {
                Finding::Kind(true) => None,
                Finding::Kind(false) => Some(UpgradeError::NotADirectory { path }),
                Finding::Inaccessible => Some(UpgradeError::ValidateDirPath { path }),
                _ => Some(UpgradeError::UnexpectedEvent),
            },
            Probe::IsFile => match finding {
                Finding::Kind(true) => None,
                Finding::Kind(false) => Some(UpgradeError::NotAFile { path }),
                Finding::Inaccessible => Some(UpgradeError::ValidateFilePath { path }),
                _ => Some(UpgradeError::UnexpectedEvent),
            },
            Probe::Content => match finding {
                Finding::Unopened => Some(UpgradeError::OpeningFile { filepath: path }),
                Finding::Content(chart_yaml) => {
                    let mut keys: Vec<String> = Vec::new();
                    assert(string_views(keys@) =~= Seq::empty());
                    push_text(&mut keys, CHART_NAME_KEY);
                    assert(string_views(keys@) =~= seq![CHART_NAME_KEY@]);
                    match read_text(
                        path,
                        String::from_str(CHART_NAME_KEY),
                        chart_yaml.as_slice(),
                        &keys,
                    ) {
                        Err(error) => Some(error),
                        Ok(name) => {
                            if self.chart_variant.is_name(&name) {
                                None
                            } else {
                                Some(
                                    UpgradeError::FindingHelmChart { path: self.dir_path.clone() },
                                )
                            }
                        },
                    }
                },
                _ => Some(UpgradeError::UnexpectedEvent),
            },
        }
    }

    /// Takes what the caller found for the check that is due. `path` is the
    /// path that the caller looked at; the errors name it.
    pub fn handle(self, finding: Finding, path: String) -> (next: Self)
        ensures
            next@ == self@.next(finding@, path@),
    {
        match &self.progress {
            Progress::Checking(check) => {
                let check = *check;
                let progress = match self.failure(check, finding, path) {
                    Some(error) => Progress::Invalid(error),
                    None => match check.next() {
                        Some(next) => Progress::Checking(next),
                        None => Progress::Valid,
                    },
                };
                ChartDirValidation { progress, ..self }
            },
            _ => self,
        }
    }
}

/// The validations that the chart directories call for: that of the
/// umbrella chart first, where its directory was given, and that of the
/// core chart second, where its directory was given.
pub open spec fn chart_dir_validations(
    umbrella_dir: Option<Seq<char>>,
    core_dir: Option<Seq<char>>,
) -> Seq<ChartDirValidationView> {
    let umbrella = match umbrella_dir {
        Some(dir) => seq![ChartDirValidationView::initial(HelmChartVariant::Umbrella, dir)],
        None => Seq::empty(),
    };
    let core = match core_dir {
        Some(dir) => seq![ChartDirValidationView::initial(HelmChartVariant::Core, dir)],
        None => Seq::empty(),
    };
    umbrella + core
}

/// The values of a sequence of validations.
pub open spec fn validation_views(validations: Seq<ChartDirValidation>) -> Seq<
    ChartDirValidationView,
> {
    Seq::new(validations.len(), |i: int| validations[i]@)
}

/// Lists the validations of the chart directories that were given, in the
/// order in which they are to be carried out. The first one that fails
/// decides; a directory that was not given is not validated.
pub fn validate_helm_chart_dirs(umbrella_dir: Option<String>, core_dir: Option<String>) -> (validations:
    Vec<ChartDirValidation>)
    ensures
        validation_views(validations@) == chart_dir_validations(
            crate::opts::optional_text(umbrella_dir),
            crate::opts::optional_text(core_dir),
        ),
{
    let mut validations: Vec<ChartDirValidation> = Vec::new();
    if let Some(path) = umbrella_dir {
        validations.push(validate_helm_chart_variant_in_dir(HelmChartVariant::Umbrella, path));
    }
    if let Some(path) = core_dir {
        validations.push(validate_helm_chart_variant_in_dir(HelmChartVariant::Core, path));
    }
    assert(validation_views(validations@) =~= chart_dir_validations(
        crate::opts::optional_text(umbrella_dir),
        crate::opts::optional_text(core_dir),
    ));
    validations
}

/// Begins the validation of the directory `dir_path` as the directory of
/// the chart `chart_variant`.
pub fn validate_helm_chart_variant_in_dir(chart_variant: HelmChartVariant, dir_path: String) -> (validation:
    ChartDirValidation)
    ensures
        validation@ == ChartDirValidationView::initial(chart_variant, dir_path@),
{
    ChartDirValidation::new(chart_variant, dir_path)
}

} // verus!
