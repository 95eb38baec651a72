//! The Helm upgrade of the control plane: which chart, which image tag,
//! which command line.
//!
//! The release of the storage product was installed from one of two charts:
//! the umbrella chart, which brings the product's dependencies with it and
//! holds the product as its `core` sub-chart, or the core chart alone. The
//! upgrade keeps every value of the release but the image tag, which it
//! takes from the `values.yaml` of the chart it upgrades to.

use crate::constants::{CORE_CHART_NAME, UMBRELLA_CHART_NAME};
use crate::error::{flag_view, text_view, UpgradeError, UpgradeErrorView};
use crate::helm::client::{
    named, release_views, HelmClient, HelmClientView, HelmReleaseElement,
};
use crate::opts::{optional_text, CliArgs};
use crate::pattern::{search_outcome, search_text, text_match};
use crate::search::{any, first};
use crate::text::{push_text, string_views};
use crate::yaml::{read_text, required_text, yaml_text_at};
use vstd::prelude::*;

verus! {

/// The chart that a release was installed from.
#[derive(Debug, PartialEq, Eq, Clone, Copy, Structural)]
pub enum HelmChartVariant {
    /// The chart that bundles the product with what it depends on.
    Umbrella,
    /// The chart of the product alone.
    Core,
}

impl HelmChartVariant {
    /// The name of the chart.
    pub open spec fn chart_name(self) -> Seq<char> {
        match self {
            HelmChartVariant::Umbrella => UMBRELLA_CHART_NAME@,
            HelmChartVariant::Core => CORE_CHART_NAME@,
        }
    }

    /// The keys that lead to the image tag in the chart's `values.yaml`,
    /// from the top of the document down.
    pub open spec fn image_tag_keys(self) -> Seq<Seq<char>> {
        match self {
            HelmChartVariant::Umbrella => seq![CORE_CHART_NAME@, "image"@, "tag"@],
            HelmChartVariant::Core => seq!["image"@, "tag"@],
        }
    }

    /// The same path written with dots, as Helm and the errors name it.
    pub open spec fn image_tag_path(self) -> Seq<char> {
        match self {
            HelmChartVariant::Umbrella => "."@ + CORE_CHART_NAME@ + ".image.tag"@,
            HelmChartVariant::Core => ".image.tag"@,
        }
    }

    /// The argument that sets the image tag of the release.
    pub open spec fn image_tag_arg(self, image_tag: Seq<char>) -> Seq<char> {
        match self {
            HelmChartVariant::Umbrella => "--set "@ + CORE_CHART_NAME@ + ".image.tag="@
                + image_tag,
            HelmChartVariant::Core => "--set "@ + "image.tag="@ + image_tag,
        }
    }

    /// The name of the chart.
    pub fn name(&self) -> (name: String)
        ensures
            name@ == self.chart_name(),
    {
        match self {
            HelmChartVariant::Umbrella => String::from_str(UMBRELLA_CHART_NAME),
            HelmChartVariant::Core => String::from_str(CORE_CHART_NAME),
        }
    }

    /// Whether a chart called `chart_name` is this chart.
    pub fn is_name(&self, chart_name: &String) -> (same: bool)
        ensures
            same == (chart_name@ == self.chart_name()),
    {
        *chart_name == self.name()
    }

    /// The keys that lead to the image tag in the chart's `values.yaml`.
    pub fn image_tag_keys_list(&self) -> (keys: Vec<String>)
        ensures
            string_views(keys@) == self.image_tag_keys(),
    {
        let mut keys: Vec<String> = Vec::new();
        assert(string_views(keys@) =~= Seq::empty());
        match self {
            HelmChartVariant::Umbrella => {
                push_text(&mut keys, CORE_CHART_NAME);
            },
            HelmChartVariant::Core => {},
        }
        push_text(&mut keys, "image");
        push_text(&mut keys, "tag");
        assert(string_views(keys@) =~= self.image_tag_keys());
        keys
    }

    /// The path of the image tag in the chart's `values.yaml`, with dots.
    pub fn image_tag_path_text(&self) -> (path: String)
        ensures
            path@ == self.image_tag_path(),
    {
        match self {
            HelmChartVariant::Umbrella => String::from_str(".").concat(CORE_CHART_NAME).concat(
                ".image.tag",
            ),
            HelmChartVariant::Core => String::from_str(".image.tag"),
        }
    }
}

/// The regular expression that the `chart` field of a release matches when
/// the release was installed from the chart called `chart_name`: the name, a
/// hyphen and a version of three numbers, and nothing else.
pub open spec fn chart_expression(chart_name: Seq<char>) -> Seq<char> {
    "^("@ + chart_name + "-[0-9]+\\.[0-9]+\\.[0-9]+)$"@
}

/// Whether the `chart` field of a release says that it was installed from
/// the chart called `chart_name`.
pub open spec fn is_chart_of(chart_name: Seq<char>, chart: Seq<char>) -> Result<
    bool,
    UpgradeErrorView,
> {
    search_outcome(
        chart_expression(chart_name),
        text_match(chart_expression(chart_name), chart),
    )
}

/// The chart that the `chart` field of a release names.
///
/// The umbrella chart is tried first and the core chart second. A field
/// that names neither has no chart directory to be upgraded from.
pub open spec fn variant_of_chart(chart: Seq<char>) -> Result<HelmChartVariant, UpgradeErrorView> {
    match is_chart_of(UMBRELLA_CHART_NAME@, chart) {
        Err(error) => Err(error),
        Ok(true) => Ok(HelmChartVariant::Umbrella),
        Ok(false) => match is_chart_of(CORE_CHART_NAME@, chart) {
            Err(error) => Err(error),
            Ok(true) => Ok(HelmChartVariant::Core),
            Ok(false) => Err(UpgradeErrorView::NoInputHelmChartDir { chart_name: chart }),
        },
    }
}

/// The value of a chart variant or of the reason why there is none.
pub open spec fn variant_view(outcome: Result<HelmChartVariant, UpgradeError>) -> Result<
    HelmChartVariant,
    UpgradeErrorView,
> {
    match outcome {
        Ok(variant) => Ok(variant),
        Err(error) => Err(error@),
    }
}

/// Whether the `chart` field of a release names the chart `variant`.
pub fn chart_is(variant: HelmChartVariant, chart: &str) -> (found: Result<bool, UpgradeError>)
    ensures
        flag_view(found) == is_chart_of(variant.chart_name(), chart@),
{
    let expression = String::from_str("^(").concat(variant.name().as_str()).concat(
        "-[0-9]+\\.[0-9]+\\.[0-9]+)$",
    );
    search_text(expression, chart)
}

/// Decides the chart from what the two searches found. `core` is only
/// looked at where the umbrella chart was searched for and not found.
pub fn variant_from(
    chart: &str,
    umbrella: Result<bool, UpgradeError>,
    core: Result<bool, UpgradeError>,
) -> (variant: Result<HelmChartVariant, UpgradeError>)
    ensures
        variant_view(variant) == match flag_view(umbrella) {
            Err(error) => Err::<HelmChartVariant, UpgradeErrorView>(error),
            Ok(true) => Ok(HelmChartVariant::Umbrella),
            Ok(false) => match flag_view(core) {
                Err(error) => Err(error),
                Ok(true) => Ok(HelmChartVariant::Core),
                Ok(false) => Err(UpgradeErrorView::NoInputHelmChartDir { chart_name: chart@ }),
            },
        },
{
    match umbrella {
        Err(error) => Err(error),
        Ok(true) => Ok(HelmChartVariant::Umbrella),
        Ok(false) => match core {
            Err(error) => Err(error),
            Ok(true) => Ok(HelmChartVariant::Core),
            Ok(false) => Err(
                UpgradeError::NoInputHelmChartDir { chart_name: String::from_str(chart) },
            ),
        },
    }
}

/// The chart that the `chart` field of a release names.
pub fn chart_variant(chart: &str) -> (variant: Result<HelmChartVariant, UpgradeError>)
    ensures
        variant_view(variant) == variant_of_chart(chart@),
{
    match chart_is(HelmChartVariant::Umbrella, chart) {
        Err(error) => Err(error),
        Ok(true) => Ok(HelmChartVariant::Umbrella),
        Ok(false) => {
            let core = chart_is(HelmChartVariant::Core, chart);
            variant_from(chart, Ok(false), core)
        },
    }
}

/// A Helm upgrade of one release.
#[derive(Debug, PartialEq, Eq)]
pub struct HelmUpgrade {
    /// The chart that the release was installed from.
    pub chart_variant: HelmChartVariant,
    /// The name of the release.
    pub release_name: String,
    /// Helm, for the namespace of the release.
    pub client: HelmClient,
}

/// The mathematical value of a [`HelmUpgrade`].
pub struct HelmUpgradeView {
    pub chart_variant: HelmChartVariant,
    pub release_name: Seq<char>,
    pub client: HelmClientView,
}

impl View for HelmUpgrade {
    type V = HelmUpgradeView;

    open spec fn view(&self) -> HelmUpgradeView {
        HelmUpgradeView {
            chart_variant: self.chart_variant,
            release_name: self.release_name@,
            client: self.client@,
        }
    }
}

impl HelmUpgradeView {
    /// The directory of the chart to upgrade to: the one that was given for
    /// the chart of the release.
    pub open spec fn chart_dir(
        self,
        umbrella_chart_dir: Option<Seq<char>>,
        core_chart_dir: Option<Seq<char>>,
    ) -> Result<Seq<char>, UpgradeErrorView> {
        let given = match self.chart_variant {
            HelmChartVariant::Umbrella => umbrella_chart_dir,
            HelmChartVariant::Core => core_chart_dir,
        };
        match given {
            Some(dir) => Ok(dir),
            None => Err(
                UpgradeErrorView::NoInputHelmChartDir {
                    chart_name: self.chart_variant.chart_name(),
                },
            ),
        }
    }

    /// The image tag that the `values.yaml` of the chart sets. `filepath` is
    /// where the document was read from.
    pub open spec fn image_tag(self, filepath: Seq<char>, values_yaml: Seq<u8>) -> Result<
        Seq<char>,
        UpgradeErrorView,
    > {
        required_text(
            filepath,
            self.chart_variant.image_tag_path(),
            yaml_text_at(values_yaml, self.chart_variant.image_tag_keys()),
        )
    }

    /// The flags of the upgrade: every value of the release is kept, except
    /// for the image tag, and Helm waits until the release is up.
    pub open spec fn upgrade_flags(self, image_tag: Seq<char>) -> Seq<Seq<char>> {
        seq![self.chart_variant.image_tag_arg(image_tag), "--reuse-values"@, "--wait"@]
    }

    /// The arguments of the `helm upgrade`, or the reason why the release
    /// cannot be upgraded.
    pub open spec fn run(
        self,
        umbrella_chart_dir: Option<Seq<char>>,
        core_chart_dir: Option<Seq<char>>,
        values_yaml_path: Seq<char>,
        values_yaml: Seq<u8>,
    ) -> Result<Seq<Seq<char>>, UpgradeErrorView> {
        match self.chart_dir(umbrella_chart_dir, core_chart_dir) {
            Err(error) => Err(error),
            Ok(chart_dir) => match self.image_tag(values_yaml_path, values_yaml) {
                Err(error) => Err(error),
                Ok(image_tag) => Ok(
                    self.client.upgrade_args(
                        self.release_name,
                        chart_dir,
                        self.upgrade_flags(image_tag),
                    ),
                ),
            },
        }
    }
}

/// The value of a command line or of the reason why there is none.
pub open spec fn args_view(outcome: Result<Vec<String>, UpgradeError>) -> Result<
    Seq<Seq<char>>,
    UpgradeErrorView,
> {
    match outcome {
        Ok(args) => Ok(string_views(args@)),
        Err(error) => Err(error@),
    }
}

impl HelmUpgrade {
    /// The upgrade of the release that the arguments name, taken to be of
    /// the umbrella chart until [`HelmUpgrade::build`] has looked.
    pub fn default(opts: &CliArgs) -> (upgrade: Self)
        ensures
            upgrade@ == (HelmUpgradeView {
                chart_variant: HelmChartVariant::Umbrella,
                release_name: opts@.release_name,
                client: HelmClientView { namespace: opts@.namespace },
            }),
    {
        HelmUpgrade {
            chart_variant: HelmChartVariant::Umbrella,
            release_name: opts.release_name(),
            client: HelmClient::default(opts),
        }
    }

    /// Finds out which chart the release was installed from. `release_list`
    /// holds the deployed releases of the namespace, and the release must be
    /// among them.
    pub fn build(self, release_list: Vec<HelmReleaseElement>) -> (built: Result<Self, UpgradeError>)
        requires
            any(release_views(release_list@), named(self@.release_name)),
        ensures
            first(release_views(release_list@), named(self@.release_name)) matches Some(k) && (
            match variant_of_chart(release_list@[k]@.chart) {
                Ok(variant) => built matches Ok(upgrade) && upgrade@ == (HelmUpgradeView {
                    chart_variant: variant,
                    ..self@
                }),
                Err(error) => built matches Err(failure) && failure@ == error,
            }),
    {
        let release_name = self.release_name.clone();
        let chart = self.client.release_info(release_list, release_name).chart();
        match chart_variant(chart.as_str()) {
            Ok(chart_variant) => Ok(
                HelmUpgrade {
                    chart_variant,
                    release_name: self.release_name,
                    client: self.client,
                },
            ),
            Err(error) => Err(error),
        }
    }

    /// The directory of the chart to upgrade to.
    pub fn chart_dir(&self, umbrella_chart_dir: Option<String>, core_chart_dir: Option<String>) -> (dir:
        Result<String, UpgradeError>)
        ensures
            text_view(dir) == self@.chart_dir(
                optional_text(umbrella_chart_dir),
                optional_text(core_chart_dir),
            ),
    {
        let given = match self.chart_variant {
            HelmChartVariant::Umbrella => umbrella_chart_dir,
            HelmChartVariant::Core => core_chart_dir,
        };
        match given {
            Some(dir) => Ok(dir),
            None => Err(
                UpgradeError::NoInputHelmChartDir { chart_name: self.chart_variant.name() },
            ),
        }
    }

    /// The image tag to upgrade to: the string at
    /// [`HelmChartVariant::image_tag_keys`] in `values_yaml`, the content
    /// of the chart's `values.yaml`, which was read from `filepath`.
    pub fn image_tag(&self, filepath: String, values_yaml: &[u8]) -> (image_tag: Result<
        String,
        UpgradeError,
    >)
        ensures
            text_view(image_tag) == self@.image_tag(filepath@, values_yaml@),
    {
        read_text(
            filepath,
            self.chart_variant.image_tag_path_text(),
            values_yaml,
            &self.chart_variant.image_tag_keys_list(),
        )
    }

    /// The flags of the upgrade to `image_tag`.
    pub fn upgrade_flags(&self, image_tag: &str) -> (flags: Vec<String>)
        ensures
            string_views(flags@) == self@.upgrade_flags(image_tag@),
    {
        let mut image_tag_arg = String::from_str("--set ");
        match self.chart_variant {
            HelmChartVariant::Umbrella => {
                image_tag_arg.append(CORE_CHART_NAME);
                image_tag_arg.append(".image.tag=");
            },
            HelmChartVariant::Core => {
                image_tag_arg.append("image.tag=");
            },
        }
        image_tag_arg.append(image_tag);
        let mut flags: Vec<String> = Vec::new();
        assert(string_views(flags@) =~= Seq::empty());
        push_text(&mut flags, image_tag_arg.as_str());
        push_text(&mut flags, "--reuse-values");
        push_text(&mut flags, "--wait");
        assert(string_views(flags@) =~= self@.upgrade_flags(image_tag@));
        flags
    }

    /// The arguments with which `helm` upgrades the release.
    ///
    /// `umbrella_chart_dir` and `core_chart_dir` are the chart directories
    /// that were given. `values_yaml` is the content of the `values.yaml`
    /// in the directory that [`HelmUpgrade::chart_dir`] picks, and
    /// `values_yaml_path` is where it was read from. Where no directory can
    /// be picked, neither of the two is looked at.
    pub fn run(
        &self,
        umbrella_chart_dir: Option<String>,
        core_chart_dir: Option<String>,
        values_yaml_path: String,
        values_yaml: &[u8],
    ) -> (args: Result<Vec<String>, UpgradeError>)
        ensures
            args_view(args) == self@.run(
                optional_text(umbrella_chart_dir),
                optional_text(core_chart_dir),
                values_yaml_path@,
                values_yaml@,
            ),
    {
        let chart_dir = match self.chart_dir(umbrella_chart_dir, core_chart_dir) {
            Ok(chart_dir) => chart_dir,
            Err(error) => {
                return Err(error);
            },
        };
        let image_tag = match self.image_tag(values_yaml_path, values_yaml) {
            Ok(image_tag) => image_tag,
            Err(error) => {
                return Err(error);
            },
        };
        let flags = self.upgrade_flags(image_tag.as_str());
        Ok(self.client.upgrade_args(self.release_name.clone(), chart_dir, Some(flags)))
    }
}

} // verus!
