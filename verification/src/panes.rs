//! Snapshots of the host's tabs and panes, and the search for the helper pane.

use vstd::prelude::*;
use crate::text::same_text;

verus! {

/// A tab as the host lists it.
#[derive(Clone, Copy, Debug, PartialEq, Eq, Structural)]
pub struct TabInfo {
    pub position: usize,
    pub active: bool,
}

/// A pane as the host lists it.
#[derive(Clone, Debug, PartialEq, Eq)]
pub struct PaneInfo {
    pub id: u32,
    pub is_plugin: bool,
    pub title: String,
}

/// The value of a [`PaneInfo`].
pub struct PaneModel {
    pub id: u32,
    pub is_plugin: bool,
    pub title: Seq<char>,
}

impl View for PaneInfo {
    type V = PaneModel;

    open spec fn view(&self) -> PaneModel {
        PaneModel { id: self.id, is_plugin: self.is_plugin, title: self.title@ }
    }
}

/// The panes of one tab.
#[derive(Clone, Debug, PartialEq, Eq)]
pub struct TabPanes {
    pub position: usize,
    pub panes: Vec<PaneInfo>,
}

/// The value of a [`TabPanes`].
pub struct TabPanesModel {
    pub position: usize,
    pub panes: Seq<PaneModel>,
}

/// The values of some panes, in their order.
pub open spec fn panes_view(panes: Seq<PaneInfo>) -> Seq<PaneModel> {
    Seq::new(panes.len(), |i: int| panes[i]@)
}

impl View for TabPanes {
    type V = TabPanesModel;

    open spec fn view(&self) -> TabPanesModel {
        TabPanesModel { position: self.position, panes: panes_view(self.panes@) }
    }
}

/// The values of the tabs of a pane listing, in their order.
pub open spec fn listing_view(tabs: Seq<TabPanes>) -> Seq<TabPanesModel> {
    Seq::new(tabs.len(), |i: int| tabs[i]@)
}

/// The position of the first tab that is marked active.
pub open spec fn active_position(tabs: Seq<TabInfo>) -> Option<usize>
    decreases tabs.len(),
{
    if tabs.len() == 0 {
        None
    } else if tabs[0].active {
        Some(tabs[0].position)
    } else {
        active_position(tabs.drop_first())
    }
}

/// The panes listed for the tab at `position`: those of the first entry for it.
pub open spec fn panes_at(listing: Seq<TabPanesModel>, position: usize) -> Option<
    Seq<PaneModel>,
>
    decreases listing.len(),
{
    if listing.len() == 0 {
        None
    } else if listing[0].position == position {
        Some(listing[0].panes)
    } else {
        panes_at(listing.drop_first(), position)
    }
}

/// A pane is the helper where it is no plugin and its title is exactly `name`.
pub open spec fn is_helper(pane: PaneModel, name: Seq<char>) -> bool {
    !pane.is_plugin && pane.title == name
}

/// The first helper pane among `panes`.
pub open spec fn first_helper(panes: Seq<PaneModel>, name: Seq<char>) -> Option<u32>
    decreases panes.len(),
{
    if panes.len() == 0 {
        None
    } else if is_helper(panes[0], name) {
        Some(panes[0].id)
    } else {
        first_helper(panes.drop_first(), name)
    }
}

/// The helper pane of the tab at `position`, as a pane listing shows it.
pub open spec fn helper_in(listing: Seq<TabPanesModel>, position: usize, name: Seq<char>) -> Option<
    u32,
> {
    match panes_at(listing, position) {
        Some(panes) => first_helper(panes, name),
        None => None,
    }
}

proof fn lemma_active_skip(tabs: Seq<TabInfo>, n: int)
    requires
        0 <= n <= tabs.len(),
        forall|i: int| 0 <= i < n ==> !(#[trigger] tabs[i]).active,
    ensures
        active_position(tabs) == active_position(tabs.skip(n)),
    decreases n,
{
    if n == 0 {
        assert(tabs.skip(0) =~= tabs);
    } else {
        let rest = tabs.drop_first();
        assert forall|i: int| 0 <= i < n - 1 implies !(#[trigger] rest[i]).active by {
            assert(rest[i] == tabs[i + 1]);
        }
        lemma_active_skip(rest, n - 1);
        assert(rest.skip(n - 1) =~= tabs.skip(n));
    }
}

proof fn lemma_panes_at_skip(listing: Seq<TabPanesModel>, position: usize, n: int)
    requires
        0 <= n <= listing.len(),
        forall|i: int| 0 <= i < n ==> (#[trigger] listing[i]).position != position,
    ensures
        panes_at(listing, position) == panes_at(listing.skip(n), position),
    decreases n,
{
    if n == 0 {
        assert(listing.skip(0) =~= listing);
    } else {
        let rest = listing.drop_first();
        assert forall|i: int| 0 <= i < n - 1 implies (#[trigger] rest[i]).position
            != position by {
            assert(rest[i] == listing[i + 1]);
        }
        lemma_panes_at_skip(rest, position, n - 1);
        assert(rest.skip(n - 1) =~= listing.skip(n));
    }
}

proof fn lemma_first_helper_skip(panes: Seq<PaneModel>, name: Seq<char>, n: int)
    requires
        0 <= n <= panes.len(),
        forall|i: int| 0 <= i < n ==> !is_helper(#[trigger] panes[i], name),
    ensures
        first_helper(panes, name) == first_helper(panes.skip(n), name),
    decreases n,
{
    if n == 0 {
        assert(panes.skip(0) =~= panes);
    } else {
        let rest = panes.drop_first();
        assert forall|i: int| 0 <= i < n - 1 implies !is_helper(#[trigger] rest[i], name) by {
            assert(rest[i] == panes[i + 1]);
        }
        lemma_first_helper_skip(rest, name, n - 1);
        assert(rest.skip(n - 1) =~= panes.skip(n));
    }
}

/// The position of the tab that has the focus, if the snapshot marks one.
pub fn focused_position(tabs: &Vec<TabInfo>) -> (r: Option<usize>)
    ensures
        r == active_position(tabs@),
{
    let mut i: usize = 0;
    while i < tabs.len()
        invariant
            i <= tabs.len(),
            forall|j: int| 0 <= j < i ==> !(#[trigger] tabs[j]).active,
        decreases tabs.len() - i,
    {
        if tabs[i].active {
            proof {
                lemma_active_skip(tabs@, i as int);
                assert(tabs@.skip(i as int)[0] == tabs[i as int]);
            }
            return Some(tabs[i].position);
        }
        i = i + 1;
    }
    proof {
        lemma_active_skip(tabs@, i as int);
        assert(tabs@.skip(i as int).len() == 0);
    }
    None
}

/// The first pane among `panes` that is no plugin and bears the title `name`.
pub fn find_helper(panes: &Vec<PaneInfo>, name: &str) -> (r: Option<u32>)
    ensures
        r == first_helper(panes_view(panes@), name@),
{
    let ghost model = panes_view(panes@);
    let mut i: usize = 0;
    while i < panes.len()
        invariant
            i <= panes.len(),
            model == panes_view(panes@),
            forall|j: int| 0 <= j < i ==> !is_helper(#[trigger] model[j], name@),
        decreases panes.len() - i,
    {
        if !panes[i].is_plugin && same_text(panes[i].title.as_str(), name) {
            proof {
                lemma_first_helper_skip(model, name@, i as int);
                assert(model.skip(i as int)[0] == model[i as int]);
            }
            return Some(panes[i].id);
        }
        assert(!is_helper(model[i as int], name@));
        i = i + 1;
    }
    proof {
        lemma_first_helper_skip(model, name@, i as int);
        assert(model.skip(i as int).len() == 0);
    }
    None
}

/// The helper pane of the tab at `position`, if the listing shows one.
pub fn locate_helper(listing: &Vec<TabPanes>, position: usize, name: &str) -> (r: Option<u32>)
    ensures
        r == helper_in(listing_view(listing@), position, name@),
{
    let ghost model = listing_view(listing@);
    let mut i: usize = 0;
    while i < listing.len()
        invariant
            i <= listing.len(),
            model == listing_view(listing@),
            forall|j: int| 0 <= j < i ==> (#[trigger] model[j]).position != position,
        decreases listing.len() - i,
    {
        if listing[i].position == position {
            proof {
                lemma_panes_at_skip(model, position, i as int);
                assert(model.skip(i as int)[0] == model[i as int]);
            }
            return find_helper(&listing[i].panes, name);
        }
        assert(model[i as int].position != position);
        i = i + 1;
    }
    proof {
        lemma_panes_at_skip(model, position, i as int);
        assert(model.skip(i as int).len() == 0);
    }
    None
}

} // verus!
