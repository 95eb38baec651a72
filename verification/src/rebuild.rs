//! The volume inventory, and the look for rebuilds in it.
//!
//! When a replica of a volume becomes unavailable, the storage system copies
//! the data anew: a rebuild. While one runs, no further node may be
//! disturbed. The control plane hands out its volumes page by page, and a
//! rebuild may show on any page, so "no rebuild" can only be said once the
//! last page has been read.

use crate::search::{any, first, is_first, lemma_first_absent, lemma_first_found};
use vstd::prelude::*;

verus! {

/// One replica behind a volume's target.
#[derive(Debug, PartialEq, Eq, Clone, Copy)]
pub struct Child {
    /// How far the rebuild of this replica has come; `None` where none runs.
    pub rebuild_progress: Option<usize>,
}

/// The target through which a volume is served.
#[derive(Debug, PartialEq, Eq)]
pub struct Nexus {
    /// The replicas that the target writes to.
    pub children: Vec<Child>,
}

/// A storage volume.
#[derive(Debug, PartialEq, Eq)]
pub struct Volume {
    /// The volume's target, where it has one.
    pub target: Option<Nexus>,
}

/// One page of the volume inventory.
#[derive(Debug, PartialEq, Eq)]
pub struct Volumes {
    /// The volumes on this page.
    pub entries: Vec<Volume>,
    /// The token that asks for the next page; `None` on the last page.
    pub next_token: Option<isize>,
}

/// The mathematical value of a [`Nexus`].
pub struct NexusView {
    pub children: Seq<Child>,
}

/// The mathematical value of a [`Volume`].
pub struct VolumeView {
    pub target: Option<NexusView>,
}

/// The mathematical value of a page of [`Volumes`].
pub struct VolumesView {
    pub entries: Seq<VolumeView>,
    pub next_token: Option<isize>,
}

impl View for Nexus {
    type V = NexusView;

    open spec fn view(&self) -> NexusView {
        NexusView { children: self.children@ }
    }
}

impl View for Volume {
    type V = VolumeView;

    open spec fn view(&self) -> VolumeView {
        VolumeView {
            target: match self.target {
                Some(nexus) => Some(nexus@),
                None => None,
            },
        }
    }
}

/// The values of a sequence of volumes.
pub open spec fn volume_views(volumes: Seq<Volume>) -> Seq<VolumeView> {
    Seq::new(volumes.len(), |i: int| volumes[i]@)
}

impl View for Volumes {
    type V = VolumesView;

    open spec fn view(&self) -> VolumesView {
        VolumesView { entries: volume_views(self.entries@), next_token: self.next_token }
    }
}

impl NexusView {
    /// One of the target's replicas is being rebuilt.
    pub open spec fn is_rebuilding(self) -> bool {
        exists|i: int|
            0 <= i < self.children.len() && (#[trigger] self.children[i]).rebuild_progress
                is Some
    }
}

impl VolumeView {
    /// The volume has a target, and one of its replicas is being rebuilt.
    pub open spec fn is_rebuilding(self) -> bool {
        self.target matches Some(nexus) && nexus.is_rebuilding()
    }
}

impl VolumesView {
    /// One of the volumes on the page is being rebuilt.
    pub open spec fn is_rebuilding(self) -> bool {
        exists|i: int| 0 <= i < self.entries.len() && (#[trigger] self.entries[i]).is_rebuilding()
    }

    /// What the look for rebuilds does once it has read this page.
    pub open spec fn scan_step(self) -> ScanStep {
        if self.is_rebuilding() {
            ScanStep::Rebuilding
        } else {
            match self.next_token {
                Some(token) => ScanStep::NextPage { starting_token: token },
                None => ScanStep::Quiescent,
            }
        }
    }
}

/// What the look for rebuilds does after a page of the inventory.
#[derive(Debug, PartialEq, Eq, Clone, Copy)]
pub enum ScanStep {
    /// A rebuild shows on the page: the look ends, the answer is yes.
    Rebuilding,
    /// No rebuild shows on the page, and the inventory goes on at the token.
    NextPage { starting_token: isize },
    /// No rebuild shows on the page, and it was the last: the answer is no.
    Quiescent,
}

impl Nexus {
    /// Whether one of the target's replicas is being rebuilt.
    pub fn is_rebuilding(&self) -> (rebuilding: bool)
        ensures
            rebuilding == self@.is_rebuilding(),
    {
        let mut i: usize = 0;
        while i < self.children.len()
            invariant
                i <= self.children.len(),
                forall|j: int| 0 <= j < i ==> (#[trigger] self.children@[j]).rebuild_progress is None,
            decreases self.children.len() - i,
        {
            if self.children[i].rebuild_progress.is_some() {
                return true;
            }
            i += 1;
        }
        false
    }
}

impl Volume {
    /// Whether the volume is being rebuilt.
    pub fn is_rebuilding(&self) -> (rebuilding: bool)
        ensures
            rebuilding == self@.is_rebuilding(),
    {
        match &self.target {
            Some(nexus) => nexus.is_rebuilding(),
            None => false,
        }
    }
}

impl Volumes {
    /// Whether a volume on this page is being rebuilt.
    pub fn is_rebuilding(&self) -> (rebuilding: bool)
        ensures
            rebuilding == self@.is_rebuilding(),
    {
        let mut i: usize = 0;
        while i < self.entries.len()
            invariant
                i <= self.entries.len(),
                forall|j: int| 0 <= j < i ==> !(#[trigger] self@.entries[j]).is_rebuilding(),
            decreases self.entries.len() - i,
        {
            if self.entries[i].is_rebuilding() {
                assert(self@.entries[i as int].is_rebuilding());
                return true;
            }
            i += 1;
        }
        false
    }

    /// Decides how the look for rebuilds goes on after this page: it ends
    /// with "yes" at the first page that shows a rebuild, asks for the next
    /// page while there is one, and ends with "no" only on the last page.
    pub fn scan_step(&self) -> (step: ScanStep)
        ensures
            step == self@.scan_step(),
    {
        if self.is_rebuilding() {
            ScanStep::Rebuilding
        } else {
            match self.next_token {
                Some(token) => ScanStep::NextPage { starting_token: token },
                None => ScanStep::Quiescent,
            }
        }
    }
}

/// The pages of one walk through the inventory, in the order in which the
/// control plane hands them out: every page but the last names a next page.
pub open spec fn is_pagination(pages: Seq<VolumesView>) -> bool {
    &&& pages.len() > 0
    &&& forall|i: int| 0 <= i < pages.len() - 1 ==> (#[trigger] pages[i]).next_token is Some
    &&& pages.last().next_token is None
}

/// The outcome of a look for rebuilds.
pub struct ScanOutcome {
    /// Whether a rebuild was found.
    pub rebuilding: bool,
    /// How many pages were read.
    pub pages_read: nat,
}

/// The look for rebuilds over the pages that the control plane would hand
/// out one after the other, each step decided by [`VolumesView::scan_step`].
pub open spec fn scan(pages: Seq<VolumesView>) -> ScanOutcome
    decreases pages.len(),
{
    if pages.len() == 0 {
        ScanOutcome { rebuilding: false, pages_read: 0 }
    } else {
        match pages[0].scan_step() {
            ScanStep::Rebuilding => ScanOutcome { rebuilding: true, pages_read: 1 },
            ScanStep::Quiescent => ScanOutcome { rebuilding: false, pages_read: 1 },
            ScanStep::NextPage { .. } => {
                let rest = scan(pages.drop_first());
                ScanOutcome { rebuilding: rest.rebuilding, pages_read: rest.pages_read + 1 }
            },
        }
    }
}

/// The pages that show a rebuild.
pub open spec fn shows_rebuild() -> spec_fn(VolumesView) -> bool {
    |page: VolumesView| page.is_rebuilding()
}

/// The look for rebuilds is exhaustive.
///
/// Over any walk through the inventory it answers "yes" exactly when some
/// page shows a rebuild, and then it has read the pages up to the first such
/// page and no further. It answers "no" only after it has read every page.
pub proof fn lemma_scan_is_exhaustive(pages: Seq<VolumesView>)
    requires
        is_pagination(pages),
    ensures
        scan(pages).rebuilding <==> any(pages, shows_rebuild()),
        scan(pages).rebuilding ==> first(pages, shows_rebuild()) == Some(
            scan(pages).pages_read - 1,
        ),
        !scan(pages).rebuilding ==> scan(pages).pages_read == pages.len(),
    decreases pages.len(),
{
    let pred = shows_rebuild();
    match pages[0].scan_step() {
        ScanStep::Rebuilding => {
            assert(pred(pages[0]));
            assert(is_first(pages, pred, 0));
            lemma_first_found(pages, pred, 0);
        },
        ScanStep::Quiescent => {
            assert(pages.len() == 1);
            assert(!pred(pages[0]));
            lemma_first_absent(pages, pred);
        },
        ScanStep::NextPage { .. } => {
            let rest = pages.drop_first();
            assert(pages.len() > 1);
            assert forall|i: int| 0 <= i < rest.len() - 1 implies (#[trigger] rest[i]).next_token
                is Some by {
                assert(rest[i] == pages[i + 1]);
            }
            assert(rest.last() == pages.last());
            lemma_scan_is_exhaustive(rest);
            assert(!pred(pages[0]));
            if scan(rest).rebuilding {
                let k = scan(rest).pages_read - 1;
                crate::search::lemma_first(rest, pred);
                assert(is_first(rest, pred, k));
                assert(pred(rest[k]));
                assert(rest[k] == pages[k + 1]);
                assert forall|j: int| 0 <= j < k + 1 implies !#[trigger] pred(pages[j]) by {
                    if j > 0 {
                        assert(pages[j] == rest[j - 1]);
                        assert(!pred(rest[j - 1]));
                    }
                }
                assert(is_first(pages, pred, k + 1));
                lemma_first_found(pages, pred, k + 1);
            } else {
                assert forall|i: int| 0 <= i < pages.len() implies !#[trigger] pred(pages[i]) by {
                    if i > 0 {
                        assert(pages[i] == rest[i - 1]);
                        assert(!pred(rest[i - 1]));
                    }
                }
                lemma_first_absent(pages, pred);
            }
        },
    }
}

} // verus!
