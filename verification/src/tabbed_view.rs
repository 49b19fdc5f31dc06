//! A view with a bar of tabs: only the child whose tab is selected is shown.

use vstd::prelude::*;
use crate::text::{owned, str_eq};

verus! {

/// The tab selected to be viewed - Should be put on the tabbed view entity.
#[derive(Debug)]
pub enum SelectedTab {
    /// The first child (also the default displayed)
    Default,
    /// A specific tab (the String is the [`Tab`]'s header)
    Tab(String),
}

impl Default for SelectedTab {
    fn default() -> (s: Self)
        ensures
            s is Default,
    {
        SelectedTab::Default
    }
}

/// This child of a tabbed view will only be shown if the tab with this name is selected
#[derive(Debug, Clone)]
pub struct Tab {
    header: String,
}

impl Tab {
    /// The header the tab shows.
    pub closed spec fn spec_header(&self) -> Seq<char> {
        self.header@
    }

    /// This child of a tabbed view will only be shown if the tab with this name is selected
    pub fn new(header: &str) -> (t: Self)
        ensures
            t.spec_header() == header@,
    {
        Tab { header: owned(header) }
    }

    /// The header the tab shows.
    pub fn header(&self) -> (h: &str)
        ensures
            h@ == self.spec_header(),
    {
        self.header.as_str()
    }

    /// The selection made by clicking on this tab.
    pub fn select(&self) -> (s: SelectedTab)
        ensures
            s matches SelectedTab::Tab(h) && h@ == self.spec_header(),
    {
        SelectedTab::Tab(owned(self.header.as_str()))
    }
}

/// Whether the tab at `index` among the view's tabs, with this header, is
/// the one shown.
pub open spec fn spec_is_shown(selected: SelectedTab, index: int, header: Seq<char>) -> bool {
    match selected {
        SelectedTab::Default => index == 0,
        SelectedTab::Tab(h) => h@ == header,
    }
}

/// Whether the tab at `index` among the view's tabs is the one shown: under
/// [`SelectedTab::Default`] the first one, otherwise the one whose header is
/// the selected name.
pub fn is_shown(selected: &SelectedTab, index: usize, tab: &Tab) -> (r: bool)
    ensures
        r == spec_is_shown(*selected, index as int, tab.spec_header()),
{
    match selected {
        SelectedTab::Default => index == 0,
        SelectedTab::Tab(h) => str_eq(h.as_str(), tab.header.as_str()),
    }
}

/// For each of the view's tabs, in order, whether it is shown.
pub fn shown_tabs(selected: &SelectedTab, tabs: &Vec<Tab>) -> (shown: Vec<bool>)
    ensures
        shown.len() == tabs.len(),
        forall|i: int|
            0 <= i < tabs.len() ==> shown[i] == spec_is_shown(*selected, i, #[trigger] tabs[i].spec_header()),
{
    let mut shown: Vec<bool> = Vec::new();
    let mut i: usize = 0;
    while i < tabs.len()
        invariant
            i <= tabs.len(),
            shown.len() == i,
            forall|j: int|
                0 <= j < i ==> shown[j] == spec_is_shown(*selected, j, #[trigger] tabs[j].spec_header()),
        decreases tabs.len() - i,
    {
        let b = is_shown(selected, i, &tabs[i]);
        shown.push(b);
        i = i + 1;
    }
    shown
}

/// The order in which a tabbed view's systems run.
#[derive(Debug, Hash, PartialEq, Eq, Clone, Copy, Structural)]
pub enum UiTabViewSystemSet {
    /// Creates the window
    CreateTabView,
    /// Events such as closing and moving the window are performed
    SendTabViewEvents,
}

/// Under the default selection exactly the first tab is shown; after a
/// click on a tab, exactly the tabs with its header are shown, the clicked
/// one among them.
pub proof fn law_selection_shows_its_tab(tabs: Seq<Tab>, clicked: int, selection: SelectedTab)
    requires
        0 <= clicked < tabs.len(),
        selection matches SelectedTab::Tab(h) && h@ == tabs[clicked].spec_header(),
    ensures
        forall|i: int| 0 <= i < tabs.len() ==> (spec_is_shown(SelectedTab::Default, i, tabs[i].spec_header()) <==> i == 0),
        spec_is_shown(selection, clicked, tabs[clicked].spec_header()),
        forall|i: int|
            0 <= i < tabs.len() ==> (spec_is_shown(selection, i, tabs[i].spec_header()) <==> tabs[i].spec_header() == tabs[clicked].spec_header()),
{
}

} // verus!
