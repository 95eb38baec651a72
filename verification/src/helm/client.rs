//! The Helm command lines of a namespace, and the releases that `helm list` reports.
//!
//! Nothing here runs Helm. A [`HelmClient`] says which arguments a call takes
//! and reads what a call has printed, once that has been parsed.

use crate::opts::CliArgs;
use crate::search::{any, first, is_first, lemma_first, lemma_first_found};
use crate::text::{extend_with_copies, push_text, string_views};
use vstd::prelude::*;

verus! {

/// The name of the Helm binary.
pub const HELM_COMMAND: &'static str = "helm";

/// One release of the output of `helm list`.
#[derive(Debug, PartialEq, Eq)]
pub struct HelmReleaseElement {
    /// The name of the release.
    pub name: String,
    /// The chart of the release: the chart's name, a hyphen, and its version.
    pub chart: String,
}

/// The mathematical value of a [`HelmReleaseElement`].
pub struct HelmReleaseElementView {
    pub name: Seq<char>,
    pub chart: Seq<char>,
}

impl View for HelmReleaseElement {
    type V = HelmReleaseElementView;

    open spec fn view(&self) -> HelmReleaseElementView {
        HelmReleaseElementView { name: self.name@, chart: self.chart@ }
    }
}

impl Clone for HelmReleaseElement {
    fn clone(&self) -> (copy: Self)
        ensures
            copy@ == self@,
    {
        HelmReleaseElement { name: self.name.clone(), chart: self.chart.clone() }
    }
}

impl HelmReleaseElement {
    /// The name of the release.
    pub fn name(&self) -> (name: String)
        ensures
            name@ == self@.name,
    {
        self.name.clone()
    }

    /// The chart of the release.
    pub fn chart(&self) -> (chart: String)
        ensures
            chart@ == self@.chart,
    {
        self.chart.clone()
    }
}

/// The values of a sequence of releases.
pub open spec fn release_views(releases: Seq<HelmReleaseElement>) -> Seq<HelmReleaseElementView> {
    Seq::new(releases.len(), |i: int| releases[i]@)
}

/// The releases that are called `release_name`.
pub open spec fn named(release_name: Seq<char>) -> spec_fn(HelmReleaseElementView) -> bool {
    |release: HelmReleaseElementView| release.name == release_name
}

/// Helm, for the releases of one namespace.
#[derive(Debug, PartialEq, Eq)]
pub struct HelmClient {
    /// The namespace whose releases the client acts on.
    pub namespace: String,
}

/// The mathematical value of a [`HelmClient`].
pub struct HelmClientView {
    pub namespace: Seq<char>,
}

impl View for HelmClient {
    type V = HelmClientView;

    open spec fn view(&self) -> HelmClientView {
        HelmClientView { namespace: self.namespace@ }
    }
}

impl HelmClientView {
    /// The arguments of the `helm list` that reports the deployed releases of
    /// the namespace as YAML. The output format comes last: it has to, for
    /// Helm to heed it.
    pub open spec fn list_args(self, extra_args: Seq<Seq<char>>) -> Seq<Seq<char>> {
        seq!["list"@, "-n"@, self.namespace, "--deployed"@] + extra_args + seq!["-o"@, "yaml"@]
    }

    /// The arguments of the `helm upgrade` of a release to the chart in a directory.
    pub open spec fn upgrade_args(
        self,
        release_name: Seq<char>,
        chart_dir: Seq<char>,
        extra_args: Seq<Seq<char>>,
    ) -> Seq<Seq<char>> {
        seq!["upgrade"@, release_name, chart_dir, "-n"@, self.namespace] + extra_args
    }
}

/// The arguments that may or may not have been given.
pub open spec fn optional_args(args: Option<Vec<String>>) -> Seq<Seq<char>> {
    match args {
        Some(args) => string_views(args@),
        None => Seq::empty(),
    }
}

impl HelmClient {
    /// Helm for the namespace that the arguments name.
    pub fn default(opts: &CliArgs) -> (client: Self)
        ensures
            client@.namespace == opts@.namespace,
    {
        HelmClient { namespace: opts.namespace() }
    }

    /// The arguments with which `helm` lists the deployed releases of the namespace.
    pub fn list_args(&self, maybe_extra_args: Option<Vec<String>>) -> (args: Vec<String>)
        ensures
            string_views(args@) == self@.list_args(optional_args(maybe_extra_args)),
    {
        let mut args: Vec<String> = Vec::new();
        assert(string_views(args@) =~= Seq::empty());
        push_text(&mut args, "list");
        push_text(&mut args, "-n");
        push_text(&mut args, self.namespace.as_str());
        push_text(&mut args, "--deployed");
        assert(string_views(args@) =~= seq!["list"@, "-n"@, self@.namespace, "--deployed"@]);
        if let Some(extra_args) = &maybe_extra_args {
            extend_with_copies(&mut args, extra_args);
        } else {
            assert(string_views(args@) + Seq::<Seq<char>>::empty() =~= string_views(args@));
        }
        let ghost so_far = string_views(args@);
        push_text(&mut args, "-o");
        push_text(&mut args, "yaml");
        assert(string_views(args@) =~= so_far + seq!["-o"@, "yaml"@]);
        args
    }

    /// The arguments with which `helm` upgrades the release to the chart in `chart_dir`.
    pub fn upgrade_args(
        &self,
        release_name: String,
        chart_dir: String,
        maybe_extra_args: Option<Vec<String>>,
    ) -> (args: Vec<String>)
        ensures
            string_views(args@) == self@.upgrade_args(
                release_name@,
                chart_dir@,
                optional_args(maybe_extra_args),
            ),
    {
        let mut args: Vec<String> = Vec::new();
        assert(string_views(args@) =~= Seq::empty());
        push_text(&mut args, "upgrade");
        push_text(&mut args, release_name.as_str());
        push_text(&mut args, chart_dir.as_str());
        push_text(&mut args, "-n");
        push_text(&mut args, self.namespace.as_str());
        assert(string_views(args@) =~= seq![
            "upgrade"@,
            release_name@,
            chart_dir@,
            "-n"@,
            self@.namespace,
        ]);
        if let Some(extra_args) = &maybe_extra_args {
            extend_with_copies(&mut args, extra_args);
        } else {
            assert(string_views(args@) + Seq::<Seq<char>>::empty() =~= string_views(args@));
        }
        args
    }

    /// Where the release called `release_name` stands in the list, if it is there.
    pub fn find_release(release_list: &Vec<HelmReleaseElement>, release_name: &String) -> (found:
        Option<usize>)
        ensures
            match found {
                Some(k) => first(release_views(release_list@), named(release_name@)) == Some(
                    k as int,
                ),
                None => first(release_views(release_list@), named(release_name@)) is None,
            },
    {
        let ghost views = release_views(release_list@);
        let ghost wanted = named(release_name@);
        let mut i: usize = 0;
        while i < release_list.len()
            invariant
                i <= release_list.len(),
                views == release_views(release_list@),
                wanted == named(release_name@),
                forall|j: int| 0 <= j < i ==> !#[trigger] wanted(views[j]),
            decreases release_list.len() - i,
        {
            assert(release_list@[i as int]@ == views[i as int]);
            if release_list[i].name == *release_name {
                proof {
                    assert(is_first(views, wanted, i as int));
                    lemma_first_found(views, wanted, i as int);
                }
                return Some(i);
            }
            i += 1;
        }
        proof {
            crate::search::lemma_first_absent(views, wanted);
        }
        None
    }

    /// The release called `release_name`, out of the releases that
    /// `helm list` has reported for the namespace: the first one of that name.
    ///
    /// The release must be in the list. That it is deployed is checked when
    /// the arguments are validated, long before this is called.
    pub fn release_info(
        &self,
        release_list: Vec<HelmReleaseElement>,
        release_name: String,
    ) -> (release: HelmReleaseElement)
        requires
            any(release_views(release_list@), named(release_name@)),
        ensures
            first(release_views(release_list@), named(release_name@)) matches Some(k)
                && release@ == release_list@[k]@,
    {
        proof {
            lemma_first(release_views(release_list@), named(release_name@));
        }
        let found = Self::find_release(&release_list, &release_name);
        release_list[found.unwrap()].clone()
    }
}

} // verus!
