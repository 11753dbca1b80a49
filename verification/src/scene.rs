//! Scenes: the list of top-level nodes that each one holds.

use crate::hub::{made_scene, Hub, HubState};
use crate::node::{Color, Node, SceneId, Texture};
use crate::object::Object;
use crate::store::{count_up, holds, NodePointer, Slot};
use crate::walk::{descend, forest, list_children, lists_children};
use vstd::prelude::*;

verus! {

/// Six images on the faces of a cube, held by the renderer.
#[derive(Clone, Copy, Debug, PartialEq, Eq)]
pub struct CubeMap {
    /// The renderer's name for the images.
    pub id: u64,
}

/// What is drawn behind a scene.
#[derive(Clone, Copy, Debug, PartialEq, Eq)]
pub enum Background {
    /// One colour.
    Color(Color),
    /// An image that covers the whole screen.
    Texture(Texture),
    /// A sky box.
    Skybox(CubeMap),
}

/// A scene: a node of its own, under which nodes can be put as children, and
/// a list of top-level nodes, linked from one to the next. The scene holds
/// one reference to each node in its list.
#[derive(Debug)]
pub struct Scene {
    unique_id: SceneId,
    object: Object,
    first_child: Option<NodePointer>,
    /// What is drawn behind the scene.
    pub background: Background,
}

/// The slots on the list that starts at `first` and goes on from each node
/// to its next sibling. The list ends where there is no next sibling, where a
/// link names a node that has been reclaimed, or after `fuel` nodes.
pub open spec fn siblings(nodes: Seq<Slot<Node>>, first: Option<NodePointer>, fuel: nat) -> Seq<int>
    decreases fuel,
{
    match first {
        Some(pointer) => if fuel > 0 && holds(nodes, pointer.slot(), pointer.epoch()) {
            seq![pointer.slot()] + siblings(
                nodes,
                nodes[pointer.slot()].value.next_sibling,
                (fuel - 1) as nat,
            )
        } else {
            Seq::empty()
        },
        None => Seq::empty(),
    }
}

/// The slot of the first node, on the list that starts at `first`, whose
/// next sibling is `target`; `None` where the list has no such node among
/// its first `fuel`.
pub open spec fn predecessor(
    nodes: Seq<Slot<Node>>,
    first: Option<NodePointer>,
    target: NodePointer,
    fuel: nat,
) -> Option<int>
    decreases fuel,
{
    match first {
        Some(pointer) => if fuel > 0 && holds(nodes, pointer.slot(), pointer.epoch()) {
            if nodes[pointer.slot()].value.next_sibling == Some(target) {
                Some(pointer.slot())
            } else {
                predecessor(
                    nodes,
                    nodes[pointer.slot()].value.next_sibling,
                    target,
                    (fuel - 1) as nat,
                )
            }
        } else {
            None
        },
        None => None,
    }
}

/// The hub after `child` is put at the head of a list whose head was `first`:
/// one more reference to it is counted, and its next sibling is the old head.
/// Where the child had a next sibling already, that link is overwritten, and
/// the reference that it stood for is given up.
pub open spec fn linked(hub: HubState, first: Option<NodePointer>, child: NodePointer) -> HubState {
    let set = hub.with_count(child.slot(), count_up(hub.nodes[child.slot()].count)).with_link(
        child.slot(),
        first,
    );
    match hub.node(child.slot()).next_sibling {
        Some(overwritten) => set.released(overwritten),
        None => set,
    }
}

/// Whether `child` can be taken from the list that starts at `first`: it is
/// the head, or a node of the list has it as its next sibling.
pub open spec fn on_list(hub: HubState, first: Option<NodePointer>, child: NodePointer) -> bool {
    first == Some(child) || predecessor(hub.nodes, first, child, hub.nodes.len()) is Some
}

/// The head of the list after `child` is taken from it.
pub open spec fn head_without(
    hub: HubState,
    first: Option<NodePointer>,
    child: NodePointer,
) -> Option<NodePointer> {
    if first == Some(child) {
        hub.node(child.slot()).next_sibling
    } else {
        first
    }
}

/// The hub after `child` is taken from the list that starts at `first`: the
/// node before it, if there is one, is linked to the one after it, the child
/// is left without a next sibling, and the scene's reference to it is given
/// up. Where the child is not on the list, nothing changes.
pub open spec fn unlinked(hub: HubState, first: Option<NodePointer>, child: NodePointer) -> HubState {
    if first == Some(child) {
        hub.with_link(child.slot(), None).released(child)
    } else {
        match predecessor(hub.nodes, first, child, hub.nodes.len()) {
            Some(before) => hub.with_link(before, hub.node(child.slot()).next_sibling).with_link(
                child.slot(),
                None,
            ).released(child),
            None => hub,
        }
    }
}

/// The hub after the list that starts at `first` is taken apart, node by
/// node: each node is left without a next sibling, and one reference to it
/// is given up. The list ends where there is no next sibling, where a link
/// names a node that has been reclaimed, or after `fuel` nodes.
pub open spec fn dissolved(hub: HubState, first: Option<NodePointer>, fuel: nat) -> HubState
    decreases fuel,
{
    match first {
        Some(pointer) => if fuel > 0 && hub.contains(pointer) {
            dissolved(
                hub.with_link(pointer.slot(), None).released(pointer),
                hub.node(pointer.slot()).next_sibling,
                (fuel - 1) as nat,
            )
        } else {
            hub
        },
        None => hub,
    }
}

/// A second value of a link, not counted.
fn alias_link(link: &Option<NodePointer>) -> (copy: Option<NodePointer>)
    ensures
        copy == *link,
{
    match link {
        Some(pointer) => Some(pointer.alias()),
        None => None,
    }
}

/// Whether a link names `target`.
fn names(link: &Option<NodePointer>, target: &NodePointer) -> (r: bool)
    ensures
        r == (*link == Some(*target)),
{
    match link {
        Some(pointer) => pointer.same(target),
        None => false,
    }
}

impl Scene {
    /// The number of the scene.
    pub closed spec fn id(&self) -> SceneId {
        self.unique_id
    }

    /// The handle to the scene's own node.
    pub closed spec fn root(&self) -> Object {
        self.object
    }

    /// The head of the list of top-level nodes.
    pub closed spec fn first_child(&self) -> Option<NodePointer> {
        self.first_child
    }

    /// What is drawn behind the scene: the field `background`.
    pub closed spec fn backdrop(&self) -> Background {
        self.background
    }

    /// The slots of the top-level nodes, from the head of the list on.
    pub open spec fn members(&self, hub: HubState) -> Seq<int> {
        siblings(hub.nodes, self.first_child(), hub.nodes.len())
    }

    /// A new scene with a black background and no top-level node. Its own
    /// node is put in the hub.
    pub fn new(hub: &mut Hub) -> (scene: Scene)
        requires
            old(hub).wf(),
            old(hub)@.next_scene < u64::MAX,
        ensures
            final(hub).wf(),
            scene.first_child() is None,
            scene.backdrop() == Background::Color(0),
            made_scene(old(hub)@, final(hub)@, scene.root(), scene.id()),
    {
        let (object, unique_id) = hub.spawn_scene();
        Scene { unique_id, object, first_child: None, background: Background::Color(0) }
    }

    /// The number of the scene.
    pub fn unique_id(&self) -> (id: SceneId)
        ensures
            id == self.id(),
    {
        self.unique_id
    }

    /// The handle to the scene's own node: the parent to give a node that is
    /// to stand in this scene.
    pub fn object(&self) -> (object: &Object)
        ensures
            *object == self.root(),
    {
        &self.object
    }

    /// Whether the scene has a top-level node.
    pub fn has_children(&self) -> (r: bool)
        ensures
            r == self.first_child() is Some,
    {
        self.first_child.is_some()
    }

    /// The slots of all nodes that stand under the scene's top-level nodes:
    /// the subtree of each, depth first, in the order of the list.
    pub fn walk(&self, hub: &Hub) -> (out: Vec<usize>)
        ensures
            out@ == forest(hub@.nodes, self.first_child(), hub@.nodes.len()),
    {
        let lists = list_children(hub);
        let mut out: Vec<usize> = Vec::new();
        let mut current = alias_link(&self.first_child);
        let count = hub.len();
        let mut fuel = count;
        while fuel > 0
            invariant
                lists_children(hub@.nodes, lists@),
                count == hub@.nodes.len(),
                fuel <= count,
                out@ + forest(hub@.nodes, current, fuel as nat) == forest(
                    hub@.nodes,
                    self.first_child(),
                    count as nat,
                ),
            decreases fuel,
        {
            let pointer = match current {
                Some(pointer) => pointer,
                None => {
                    return out;
                },
            };
            if !hub.holds(&pointer) {
                return out;
            }
            descend(hub, &lists, pointer.index(), count, &mut out);
            current = alias_link(&hub.node_of(&pointer).next_sibling);
            fuel = fuel - 1;
        }
        out
    }

    /// Gives the scene up: its list is taken apart, each top-level node being
    /// left without a next sibling and with one reference less, and then the
    /// handle to the scene's own node is given up. The nodes are reclaimed by
    /// a sweep where nothing else refers to them.
    pub fn release(self, hub: &mut Hub)
        ensures
            final(hub).wf() == old(hub).wf(),
            final(hub)@ == dissolved(
                old(hub)@,
                self.first_child(),
                old(hub)@.nodes.len(),
            ).released(self.root().pointer()),
    {
        let count = hub.len();
        let mut current = alias_link(&self.first_child);
        let mut fuel = count;
        while fuel > 0
            invariant
                fuel <= count,
                hub.wf() == old(hub).wf(),
                dissolved(hub@, current, fuel as nat) == dissolved(
                    old(hub)@,
                    self.first_child(),
                    count as nat,
                ),
            ensures
                hub.wf() == old(hub).wf(),
                hub@ == dissolved(old(hub)@, self.first_child(), count as nat),
            decreases fuel,
        {
            let pointer = match current {
                Some(pointer) => pointer,
                None => {
                    break ;
                },
            };
            if !hub.holds(&pointer) {
                break ;
            }
            let node = hub.node_mut(&pointer);
            current = node.next_sibling.take();
            hub.release(Object::new(pointer));
            fuel = fuel - 1;
        }
        hub.release(self.object);
    }

    /// Puts `child` at the head of the list of top-level nodes, at once and
    /// not through the queue: its next sibling becomes the old head.
    ///
    /// Returns whether the child had a next sibling already, which means that
    /// it stands on a list and was not taken from it. The link is overwritten
    /// all the same: the nodes behind the child on that list are cut off from
    /// it, and the reference that the link stood for is given up.
    pub fn add(&mut self, hub: &mut Hub, child: &Object) -> (relinked: bool)
        requires
            old(hub)@.contains(child.pointer()),
        ensures
            relinked == old(hub)@.node(child.pointer().slot()).next_sibling is Some,
            final(self).first_child() == Some(child.pointer()),
            final(self).id() == old(self).id(),
            final(self).root() == old(self).root(),
            final(self).backdrop() == old(self).backdrop(),
            final(hub)@ == linked(old(hub)@, old(self).first_child(), child.pointer()),
            final(hub).wf() == old(hub).wf(),
    {
        let pointer = hub.instance(child).into_node();
        let node = hub.node_mut(child.node());
        let overwritten = node.next_sibling.take();
        node.next_sibling = self.first_child.take();
        self.first_child = Some(pointer);
        match overwritten {
            Some(link) => {
                hub.release(Object::new(link));
                true
            },
            None => false,
        }
    }

    /// Takes `child` from the list of top-level nodes, at once and not
    /// through the queue. The list is walked from its head, over at most as
    /// many nodes as the store has slots.
    ///
    /// Returns whether the child was found. A child that was found is left
    /// without a next sibling; where it was not found, nothing changes.
    pub fn remove(&mut self, hub: &mut Hub, child: &Object) -> (found: bool)
        requires
            old(hub)@.contains(child.pointer()),
        ensures
            found == on_list(old(hub)@, old(self).first_child(), child.pointer()),
            final(self).first_child() == head_without(
                old(hub)@,
                old(self).first_child(),
                child.pointer(),
            ),
            final(self).id() == old(self).id(),
            final(self).root() == old(self).root(),
            final(self).backdrop() == old(self).backdrop(),
            final(hub)@ == unlinked(old(hub)@, old(self).first_child(), child.pointer()),
            final(hub).wf() == old(hub).wf(),
    {
        let target = child.node();
        let next = alias_link(&hub.node_of(target).next_sibling);
        if names(&self.first_child, target) {
            self.first_child = next;
            hub.node_mut(target).next_sibling = None;
            hub.release(Object::new(target.alias()));
            return true;
        }
        let mut current = alias_link(&self.first_child);
        let mut fuel = hub.len();
        while fuel > 0
            invariant
                *hub == *old(hub),
                *self == *old(self),
                *target == child.pointer(),
                self.first_child() != Some(*target),
                hub@.contains(*target),
                next == hub@.node(target.slot()).next_sibling,
                fuel <= hub@.nodes.len(),
                predecessor(hub@.nodes, current, *target, fuel as nat) == predecessor(
                    hub@.nodes,
                    self.first_child(),
                    *target,
                    hub@.nodes.len(),
                ),
            decreases fuel,
        {
            let pointer = match current {
                Some(pointer) => pointer,
                None => {
                    return false;
                },
            };
            if !hub.holds(&pointer) {
                return false;
            }
            if names(&hub.node_of(&pointer).next_sibling, target) {
                hub.node_mut(&pointer).next_sibling = next;
                hub.node_mut(target).next_sibling = None;
                hub.release(Object::new(target.alias()));
                return true;
            }
            current = alias_link(&hub.node_of(&pointer).next_sibling);
            fuel = fuel - 1;
        }
        false
    }
}

} // verus!
