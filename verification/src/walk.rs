//! Walks over the graph: a node and all that stands below it, depth first.
//!
//! A node does not list its children: each child refers back to its parent.
//! The children of a node are therefore the nodes alive whose parent it is,
//! taken in store order. A walk first lists the children of every node, in
//! one pass over the store, and then goes down from the root.

use crate::hub::Hub;
use crate::node::Node;
use crate::store::{holds, NodePointer, Slot};
use vstd::prelude::*;

verus! {

/// Whether the node in slot `child` is alive and has the node in slot
/// `parent` as its parent, alive as well.
pub open spec fn is_child(nodes: Seq<Slot<Node>>, child: int, parent: int) -> bool {
    &&& 0 <= child < nodes.len()
    &&& nodes[child].live
    &&& match nodes[child].value.parent {
        Some(weak) => weak.slot() == parent && holds(nodes, weak.slot(), weak.epoch()),
        None => false,
    }
}

/// The children of the node in slot `parent` that stand in the first `upto`
/// slots, in store order.
pub open spec fn children(nodes: Seq<Slot<Node>>, parent: usize, upto: nat) -> Seq<usize>
    decreases upto,
{
    if upto == 0 {
        Seq::empty()
    } else {
        let before = children(nodes, parent, (upto - 1) as nat);
        if is_child(nodes, upto - 1, parent as int) {
            before.push((upto - 1) as usize)
        } else {
            before
        }
    }
}

/// The slots of the subtree under `root`, depth first: the root, then the
/// subtree of each of its children in store order. `depth` bounds how far down
/// the walk goes, so that it ends where parents form a ring.
pub open spec fn subtree(nodes: Seq<Slot<Node>>, root: usize, depth: nat) -> Seq<usize>
    decreases depth, 0nat,
{
    if depth == 0 {
        Seq::empty()
    } else {
        seq![root] + subtrees(nodes, children(nodes, root, nodes.len()), (depth - 1) as nat)
    }
}

/// The subtrees under each of `roots`, one after the other.
pub open spec fn subtrees(nodes: Seq<Slot<Node>>, roots: Seq<usize>, depth: nat) -> Seq<usize>
    decreases depth, roots.len(),
{
    if roots.len() == 0 {
        Seq::empty()
    } else {
        subtrees(nodes, roots.drop_last(), depth) + subtree(nodes, roots.last(), depth)
    }
}

/// The slots of all subtrees under the nodes of the list that starts at
/// `first`: the walk from a scene's top-level nodes.
pub open spec fn forest(nodes: Seq<Slot<Node>>, first: Option<NodePointer>, fuel: nat) -> Seq<usize>
    decreases fuel,
{
    match first {
        Some(pointer) => if fuel > 0 && holds(nodes, pointer.slot(), pointer.epoch()) {
            subtree(nodes, pointer.slot() as usize, nodes.len()) + forest(
                nodes,
                nodes[pointer.slot()].value.next_sibling,
                (fuel - 1) as nat,
            )
        } else {
            Seq::empty()
        },
        None => Seq::empty(),
    }
}

/// Whether `lists` holds, for every slot of the store, the children of the
/// node in it.
pub open spec fn lists_children(nodes: Seq<Slot<Node>>, lists: Seq<Vec<usize>>) -> bool {
    &&& lists.len() == nodes.len()
    &&& forall|parent: int|
        0 <= parent < lists.len() ==> (#[trigger] lists[parent])@ == children(
            nodes,
            parent as usize,
            nodes.len(),
        )
}

/// A slot that does not exist is no parent.
proof fn lemma_no_children_beyond(nodes: Seq<Slot<Node>>, parent: usize, upto: nat)
    requires
        parent >= nodes.len(),
    ensures
        children(nodes, parent, upto) == Seq::<usize>::empty(),
    decreases upto,
{
    if upto > 0 {
        lemma_no_children_beyond(nodes, parent, (upto - 1) as nat);
    }
}

/// Whether the node in slot `child` is alive and a child of the node in slot
/// `parent`.
pub fn child_of(hub: &Hub, child: usize, parent: usize) -> (r: bool)
    ensures
        r == is_child(hub@.nodes, child as int, parent as int),
{
    if !hub.is_alive(child) {
        return false;
    }
    match hub.node_at(child).parent {
        Some(weak) => weak.index() == parent && hub.is_current(&weak),
        None => false,
    }
}

/// The children of every node, in one pass over the store: the list at
/// index `p` holds the children of the node in slot `p`, in store order.
pub fn list_children(hub: &Hub) -> (lists: Vec<Vec<usize>>)
    ensures
        lists_children(hub@.nodes, lists@),
{
    let count = hub.len();
    let mut lists: Vec<Vec<usize>> = Vec::new();
    let mut p: usize = 0;
    while p < count
        invariant
            p <= count,
            lists@.len() == p,
            forall|q: int| 0 <= q < p ==> (#[trigger] lists@[q])@ == Seq::<usize>::empty(),
        decreases count - p,
    {
        lists.push(Vec::new());
        p = p + 1;
    }
    let mut i: usize = 0;
    while i < count
        invariant
            i <= count,
            count == hub@.nodes.len(),
            lists@.len() == count,
            forall|q: int|
                0 <= q < count ==> (#[trigger] lists@[q])@ == children(
                    hub@.nodes,
                    q as usize,
                    i as nat,
                ),
        decreases count - i,
    {
        if hub.is_alive(i) {
            match hub.node_at(i).parent {
                Some(weak) => {
                    if hub.is_current(&weak) {
                        let parent = weak.index();
                        lists[parent].push(i);
                    }
                },
                None => {},
            }
        }
        i = i + 1;
    }
    lists
}

/// Appends the subtree under `root` to `out`, depth first, going down at
/// most `depth` levels. `lists` holds the children of every node of `hub`.
pub fn descend(hub: &Hub, lists: &Vec<Vec<usize>>, root: usize, depth: usize, out: &mut Vec<usize>)
    requires
        lists_children(hub@.nodes, lists@),
    ensures
        final(out)@ == old(out)@ + subtree(hub@.nodes, root, depth as nat),
    decreases depth,
{
    if depth == 0 {
        return ;
    }
    out.push(root);
    if root < lists.len() {
        let kids = &lists[root];
        let mut j: usize = 0;
        while j < kids.len()
            invariant
                lists_children(hub@.nodes, lists@),
                j <= kids@.len(),
                depth > 0,
                out@ == old(out)@ + seq![root] + subtrees(
                    hub@.nodes,
                    kids@.take(j as int),
                    (depth - 1) as nat,
                ),
            decreases kids.len() - j,
        {
            descend(hub, lists, kids[j], depth - 1, out);
            proof {
                assert(kids@.take(j + 1).drop_last() =~= kids@.take(j as int));
            }
            j = j + 1;
        }
        assert(kids@.take(j as int) =~= kids@);
    } else {
        proof {
            lemma_no_children_beyond(hub@.nodes, root, hub@.nodes.len());
        }
    }
}

/// The subtree under `root`, depth first.
pub fn walk(hub: &Hub, root: usize) -> (out: Vec<usize>)
    ensures
        out@ == subtree(hub@.nodes, root, hub@.nodes.len()),
{
    let lists = list_children(hub);
    let mut out: Vec<usize> = Vec::new();
    descend(hub, &lists, root, hub.len(), &mut out);
    out
}

/// Whether `slot` occurs in `slots`.
pub fn occurs(slots: &Vec<usize>, slot: usize) -> (r: bool)
    ensures
        r == slots@.contains(slot),
{
    let mut i: usize = 0;
    while i < slots.len()
        invariant
            i <= slots@.len(),
            forall|j: int| 0 <= j < i ==> slots@[j] != slot,
        decreases slots.len() - i,
    {
        if slots[i] == slot {
            return true;
        }
        i = i + 1;
    }
    false
}

} // verus!
