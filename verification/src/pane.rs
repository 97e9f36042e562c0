//! Panes, the split tree that lays them out inside a tab, and its flattening.

use vstd::prelude::*;

verus! {

/// One pane, as the session service reports it.
#[derive(Clone, Debug, PartialEq, Eq)]
pub struct PaneEntry {
    /// Handle that the service assigned to the pane.
    pub pane_id: usize,
    /// Text currently shown as the pane's title.
    pub title: String,
    /// Name of the workspace that the pane's tab belongs to.
    pub workspace: String,
}

/// What a pane is in contracts: its handle, and the characters of its title
/// and of its workspace's name.
pub struct PaneView {
    pub pane_id: usize,
    pub title: Seq<char>,
    pub workspace: Seq<char>,
}

impl View for PaneEntry {
    type V = PaneView;

    open spec fn view(&self) -> PaneView {
        PaneView { pane_id: self.pane_id, title: self.title@, workspace: self.workspace@ }
    }
}

/// Layout of a tab: panes at the leaves, splits in between.
#[derive(Debug, PartialEq, Eq)]
pub enum PaneTree {
    /// No pane at all.
    Empty,
    /// Two layouts side by side; `left` comes before `right`.
    Split { left: Box<PaneTree>, right: Box<PaneTree> },
    /// A single pane.
    Leaf(PaneEntry),
}

impl PaneTree {
    /// The panes of the tree, depth first, each left subtree before its right
    /// sibling.
    pub open spec fn leaves(self) -> Seq<PaneEntry>
        decreases self,
    {
        match self {
            PaneTree::Empty => Seq::empty(),
            PaneTree::Split { left, right } => left.leaves() + right.leaves(),
            PaneTree::Leaf(entry) => seq![entry],
        }
    }
}

impl View for PaneTree {
    type V = Seq<PaneView>;

    /// The views of the leaves, in the order of [`PaneTree::leaves`].
    open spec fn view(&self) -> Seq<PaneView> {
        self.leaves().map_values(|entry: PaneEntry| entry@)
    }
}

/// A tab of the session: a layout and a title.
#[derive(Debug, PartialEq, Eq)]
pub struct Tab {
    /// The layout of the tab's panes.
    pub root: PaneTree,
    /// The title of the tab.
    pub title: String,
}

/// What a tab is in contracts: its title and its panes in layout order.
pub struct TabView {
    pub title: Seq<char>,
    pub panes: Seq<PaneView>,
}

impl View for Tab {
    type V = TabView;

    open spec fn view(&self) -> TabView {
        TabView { title: self.title@, panes: self.root@ }
    }
}

/// The entries that a sequence of borrowed panes points at.
pub open spec fn pointees(panes: Seq<&PaneEntry>) -> Seq<PaneEntry> {
    panes.map_values(|pane: &PaneEntry| *pane)
}

/// Appends the panes of `node` to `result`, in layout order.
pub fn flatten_panes<'a>(node: &'a PaneTree, result: &mut Vec<&'a PaneEntry>)
    ensures
        pointees(final(result)@) == pointees(old(result)@) + node.leaves(),
    decreases node,
{
    match node {
        PaneTree::Empty => {},
        PaneTree::Split { left, right } => {
            flatten_panes(left, result);
            flatten_panes(right, result);
        },
        PaneTree::Leaf(entry) => {
            result.push(entry);
        },
    }
}

} // verus!
