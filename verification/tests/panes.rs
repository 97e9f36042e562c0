use pane_nav::pane::{flatten_panes, PaneEntry, PaneTree, Tab};

fn entry(pane_id: usize, title: &str, workspace: &str) -> PaneEntry {
    PaneEntry { pane_id, title: title.to_string(), workspace: workspace.to_string() }
}

fn split(left: PaneTree, right: PaneTree) -> PaneTree {
    PaneTree::Split { left: Box::new(left), right: Box::new(right) }
}

#[test]
fn flatten_visits_left_before_right() {
    let a = entry(1, "A", "w");
    let b = entry(2, "B", "w");
    let c = entry(3, "C", "w");
    let tree = split(
        split(PaneTree::Leaf(a.clone()), PaneTree::Leaf(b.clone())),
        PaneTree::Leaf(c.clone()),
    );
    let mut panes = Vec::new();
    flatten_panes(&tree, &mut panes);
    assert_eq!(panes, vec![&a, &b, &c]);
}

#[test]
fn flatten_of_right_leaning_tree_keeps_order() {
    let a = entry(1, "A", "w");
    let b = entry(2, "B", "w");
    let c = entry(3, "C", "w");
    let tree = split(
        PaneTree::Leaf(a.clone()),
        split(PaneTree::Leaf(b.clone()), PaneTree::Leaf(c.clone())),
    );
    let mut panes = Vec::new();
    flatten_panes(&tree, &mut panes);
    assert_eq!(panes, vec![&a, &b, &c]);
}

#[test]
fn flatten_of_empty_tree_adds_nothing() {
    let mut panes: Vec<&PaneEntry> = Vec::new();
    flatten_panes(&PaneTree::Empty, &mut panes);
    assert!(panes.is_empty());
}

#[test]
fn flatten_skips_empty_subtrees() {
    let a = entry(7, "A", "w");
    let b = entry(8, "B", "w");
    let tree = split(
        split(PaneTree::Empty, PaneTree::Leaf(a.clone())),
        split(PaneTree::Empty, split(PaneTree::Leaf(b.clone()), PaneTree::Empty)),
    );
    let mut panes = Vec::new();
    flatten_panes(&tree, &mut panes);
    assert_eq!(panes, vec![&a, &b]);
}

#[test]
fn flatten_appends_to_what_is_there() {
    let before = entry(1, "before", "w");
    let a = entry(2, "A", "w");
    let tree = PaneTree::Leaf(a.clone());
    let mut panes = vec![&before];
    flatten_panes(&tree, &mut panes);
    assert_eq!(panes, vec![&before, &a]);
}

#[test]
fn flatten_gives_the_same_order_every_time() {
    let tree = split(
        PaneTree::Leaf(entry(1, "A", "w")),
        split(PaneTree::Leaf(entry(2, "B", "w")), PaneTree::Leaf(entry(3, "C", "w"))),
    );
    let mut first = Vec::new();
    flatten_panes(&tree, &mut first);
    let mut second = Vec::new();
    flatten_panes(&tree, &mut second);
    assert_eq!(first, second);
    let ids: Vec<usize> = first.iter().map(|pane| pane.pane_id).collect();
    assert_eq!(ids, vec![1, 2, 3]);
}

#[test]
fn tab_pairs_layout_and_title() {
    let tab = Tab { root: PaneTree::Leaf(entry(4, "shell", "default")), title: "main".to_string() };
    assert_eq!(tab.title, "main");
    assert_eq!(tab.root, PaneTree::Leaf(entry(4, "shell", "default")));
}
