//! Walks the focus path of a tree down to the focused leaf and finds the
//! siblings under the nearest tabbed container on the way.
use vstd::prelude::*;

use crate::error::IpcError;
use crate::model::{Layout, Tree};

verus! {

broadcast use vstd::std_specs::vec::group_vec_axioms;

/// The position of the first node of `nodes` at or after `from` whose id is
/// `id`.
pub open spec fn find_child(nodes: Seq<Tree>, id: u64, from: int) -> Option<int>
    decreases nodes.len() - from,
{
    if from < 0 || from >= nodes.len() {
        None
    } else if nodes[from].id == id {
        Some(from)
    } else {
        find_child(nodes, id, from + 1)
    }
}

proof fn lemma_find_child_in_range(nodes: Seq<Tree>, id: u64, from: int)
    requires
        0 <= from,
    ensures
        find_child(nodes, id, from) matches Some(i) ==> from <= i < nodes.len() && nodes[i].id
            == id,
    decreases nodes.len() - from,
{
    if from < nodes.len() && nodes[from].id != id {
        lemma_find_child_in_range(nodes, id, from + 1);
    }
}

/// The children of the tabbed container that is nearest to the focused leaf
/// on the focus path that starts at `node`, where `last_tabbed` holds the
/// children of the nearest one above `node`.
pub open spec fn tabbed_siblings(node: Tree, last_tabbed: Option<Seq<Tree>>) -> Result<
    Seq<Tree>,
    IpcError,
>
    decreases node,
{
    if node.focus@.len() == 0 {
        match last_tabbed {
            Some(s) => Ok(s),
            None => Err(IpcError::NoFocusedTabbedAncestor),
        }
    } else {
        let last = if node.layout == Layout::Tabbed {
            Some(node.nodes@)
        } else {
            last_tabbed
        };
        match find_child(node.nodes@, node.focus@[0], 0) {
            None => Err(IpcError::DanglingFocusReference),
            Some(i) => if 0 <= i < node.nodes@.len() {
                tabbed_siblings(node.nodes@[i], last)
            } else {
                Err(IpcError::DanglingFocusReference)
            },
        }
    }
}

/// The candidates that the focus path of a whole tree leads to.
pub open spec fn focused_siblings(root: Tree) -> Result<Seq<Tree>, IpcError> {
    tabbed_siblings(root, None)
}

fn find_child_index(nodes: &Vec<Tree>, id: u64) -> (r: Option<usize>)
    ensures
        match r {
            Some(i) => find_child(nodes@, id, 0) == Some(i as int),
            None => find_child(nodes@, id, 0) is None,
        },
{
    let mut i: usize = 0;
    while i < nodes.len()
        invariant
            0 <= i <= nodes@.len(),
            find_child(nodes@, id, 0) == find_child(nodes@, id, i as int),
        decreases nodes@.len() - i,
    {
        if nodes[i].id == id {
            return Some(i);
        }
        i = i + 1;
    }
    None
}

fn siblings_from<'a>(node: &'a Tree, last_tabbed: Option<&'a Vec<Tree>>) -> (r: Result<
    &'a Vec<Tree>,
    IpcError,
>)
    ensures
        match r {
            Ok(v) => tabbed_siblings(
                *node,
                match last_tabbed {
                    Some(t) => Some(t@),
                    None => None,
                },
            ) == Ok::<Seq<Tree>, IpcError>(v@),
            Err(e) => tabbed_siblings(
                *node,
                match last_tabbed {
                    Some(t) => Some(t@),
                    None => None,
                },
            ) == Err::<Seq<Tree>, IpcError>(e),
        },
    decreases *node,
{
    if node.focus.len() == 0 {
        return match last_tabbed {
            Some(t) => Ok(t),
            None => Err(IpcError::NoFocusedTabbedAncestor),
        };
    }
    let last = if node.layout == Layout::Tabbed {
        Some(&node.nodes)
    } else {
        last_tabbed
    };
    match find_child_index(&node.nodes, node.focus[0]) {
        None => Err(IpcError::DanglingFocusReference),
        Some(i) => {
            proof {
                lemma_find_child_in_range(node.nodes@, node.focus@[0], 0);
            }
            siblings_from(&node.nodes[i], last)
        },
    }
}

/// Follows the first entry of each node's `focus` list from the root to the
/// focused leaf, and gives the children of the last node with a tabbed
/// layout passed on the way. Fails when no such node is passed, or when a
/// `focus` entry names no child.
pub fn focused_tabbed_siblings(root: &Tree) -> (r: Result<&Vec<Tree>, IpcError>)
    ensures
        match r {
            Ok(v) => focused_siblings(*root) == Ok::<Seq<Tree>, IpcError>(v@),
            Err(e) => focused_siblings(*root) == Err::<Seq<Tree>, IpcError>(e),
        },
{
    siblings_from(root, None)
}

/// Whether the focus path from `node` reaches a leaf through children that
/// exist, passing no node with a tabbed layout.
pub open spec fn path_without_tabbed(node: Tree) -> bool
    decreases node,
{
    if node.focus@.len() == 0 {
        true
    } else {
        node.layout != Layout::Tabbed && match find_child(node.nodes@, node.focus@[0], 0) {
            None => false,
            Some(i) => if 0 <= i < node.nodes@.len() {
                path_without_tabbed(node.nodes@[i])
            } else {
                false
            },
        }
    }
}

proof fn lemma_untabbed_keeps_last(node: Tree, last_tabbed: Option<Seq<Tree>>)
    requires
        path_without_tabbed(node),
    ensures
        tabbed_siblings(node, last_tabbed) == match last_tabbed {
            Some(s) => Ok::<Seq<Tree>, IpcError>(s),
            None => Err(IpcError::NoFocusedTabbedAncestor),
        },
    decreases node,
{
    if node.focus@.len() != 0 {
        let i = find_child(node.nodes@, node.focus@[0], 0)->Some_0;
        lemma_untabbed_keeps_last(node.nodes@[i], last_tabbed);
    }
}

/// A tree whose focus path reaches its leaf without passing a tabbed node
/// has no candidates: the walk fails with `NoFocusedTabbedAncestor`.
pub proof fn lemma_no_tabbed_on_path(root: Tree)
    requires
        path_without_tabbed(root),
    ensures
        focused_siblings(root) == Err::<Seq<Tree>, IpcError>(IpcError::NoFocusedTabbedAncestor),
{
    lemma_untabbed_keeps_last(root, None);
}

/// A node whose first `focus` entry names no child stops the walk with
/// `DanglingFocusReference`, whatever tabbed container was passed before it.
pub proof fn lemma_dangling_focus(node: Tree, last_tabbed: Option<Seq<Tree>>)
    requires
        node.focus@.len() > 0,
        forall|i: int| 0 <= i < node.nodes@.len() ==> #[trigger] node.nodes@[i].id != node.focus@[0],
    ensures
        tabbed_siblings(node, last_tabbed) == Err::<Seq<Tree>, IpcError>(
            IpcError::DanglingFocusReference,
        ),
{
    lemma_find_child_in_range(node.nodes@, node.focus@[0], 0);
}

} // verus!
