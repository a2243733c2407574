use sway_tabs::error::IpcError;
use sway_tabs::model::{Border, Layout, NodeType, Orientation, Rectangle, Tree};
use sway_tabs::resolver::focused_tabbed_siblings;

fn rect() -> Rectangle {
    Rectangle { x: 0, y: 0, width: 100, height: 50 }
}

fn node(id: u64, name: Option<&str>, layout: Layout, focus: Vec<u64>, nodes: Vec<Tree>) -> Tree {
    Tree {
        id,
        name: name.map(|n| n.to_string()),
        type_: NodeType::Container,
        border: Border::Normal,
        current_border_width: 2,
        layout,
        orientation: Orientation::NoOrientation,
        rect: rect(),
        window_rect: rect(),
        deco_rect: rect(),
        geometry: rect(),
        urgent: false,
        sticky: false,
        marks: Vec::new(),
        focused: false,
        focus,
        nodes,
        floating_nodes: Vec::new(),
        representation: None,
        fullscreen_mode: None,
        app_id: None,
        pid: None,
        visible: None,
        shell: None,
        inhibit_idle: None,
        idle_inhibitors: None,
        window: None,
    }
}

fn sample(a_layout: Layout) -> Tree {
    let d = node(4, Some("D"), Layout::NoLayout, vec![], vec![]);
    let b = node(2, Some("B"), Layout::SplitH, vec![4], vec![d]);
    let c = node(3, Some("C"), Layout::NoLayout, vec![], vec![]);
    let a = node(1, Some("A"), a_layout, vec![2], vec![b, c]);
    node(0, None, Layout::SplitV, vec![1], vec![a])
}

#[test]
fn nearest_tabbed_ancestor_children() {
    let root = sample(Layout::Tabbed);
    let s = focused_tabbed_siblings(&root).unwrap();
    let ids: Vec<u64> = s.iter().map(|t| t.id).collect();
    assert_eq!(ids, vec![2, 3]);
}

#[test]
fn deeper_tabbed_node_wins() {
    let e = node(6, Some("E"), Layout::NoLayout, vec![], vec![]);
    let f = node(7, Some("F"), Layout::NoLayout, vec![], vec![]);
    let inner = node(5, None, Layout::Tabbed, vec![7], vec![e, f]);
    let other = node(8, Some("G"), Layout::NoLayout, vec![], vec![]);
    let outer = node(1, None, Layout::Tabbed, vec![5], vec![other, inner]);
    let root = node(0, None, Layout::SplitV, vec![1], vec![outer]);
    let ids: Vec<u64> = focused_tabbed_siblings(&root).unwrap().iter().map(|t| t.id).collect();
    assert_eq!(ids, vec![6, 7]);
}

#[test]
fn tabbed_leaf_is_not_an_ancestor() {
    let leaf = node(2, Some("L"), Layout::Tabbed, vec![], vec![]);
    let root = node(0, None, Layout::SplitH, vec![2], vec![leaf]);
    assert_eq!(focused_tabbed_siblings(&root), Err(IpcError::NoFocusedTabbedAncestor));
}

#[test]
fn no_tabbed_on_path() {
    let root = sample(Layout::Stacked);
    assert_eq!(focused_tabbed_siblings(&root), Err(IpcError::NoFocusedTabbedAncestor));
}

#[test]
fn lone_root_has_no_tabbed_ancestor() {
    let root = node(0, None, Layout::Tabbed, vec![], vec![]);
    assert_eq!(focused_tabbed_siblings(&root), Err(IpcError::NoFocusedTabbedAncestor));
}

#[test]
fn dangling_focus_reference() {
    let c = node(3, Some("C"), Layout::NoLayout, vec![], vec![]);
    let a = node(1, None, Layout::Tabbed, vec![99], vec![c]);
    let root = node(0, None, Layout::SplitV, vec![1], vec![a]);
    assert_eq!(focused_tabbed_siblings(&root), Err(IpcError::DanglingFocusReference));
}
