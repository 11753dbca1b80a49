//! The view through which a scene's nodes are read and searched, once the
//! messages that wait have been applied.

use crate::hub::{Hub, HubState};
use crate::node::{Material, Node, OperationError, SubNode, Transform};
use crate::object::{kind_of, DowncastObject, Group, Object, ObjectType};
use crate::scene::Scene;
use crate::store::{count_up, Slot};
use crate::walk::{forest, occurs, subtree, walk};
use vstd::prelude::*;

verus! {

/// What is read of a node: in its own space or in the world.
#[derive(Debug)]
pub struct NodeInfo {
    /// Whether the node is shown.
    pub visible: bool,
    /// The node's name.
    pub name: Option<String>,
    /// The node's transform.
    pub transform: Transform,
    /// The material, where the node is drawn.
    pub material: Option<Material>,
}

/// The material of a visual node.
pub open spec fn material_of(node: Node) -> Option<Material> {
    match node.sub_node {
        SubNode::Visual(material, _) => Some(material),
        _ => None,
    }
}

/// What is read of `node` in its own space.
pub open spec fn local_info(node: Node) -> NodeInfo {
    NodeInfo {
        visible: node.visible,
        name: node.name,
        transform: node.transform,
        material: material_of(node),
    }
}

/// What is read of `node` in the world, as the last resolution pass left it.
pub open spec fn world_info(node: Node) -> NodeInfo {
    NodeInfo {
        visible: node.world_visible,
        name: node.name,
        transform: node.world_transform,
        material: material_of(node),
    }
}

/// Which slots a search keeps: those of nodes alive that bear `name`, where
/// one is asked for, and that can be held as `T`, where `typed` says so.
pub open spec fn wanted<T: DowncastObject>(
    nodes: Seq<Slot<Node>>,
    name: Option<Seq<char>>,
    typed: bool,
) -> spec_fn(usize) -> bool {
    |slot: usize|
        {
            &&& slot < nodes.len()
            &&& nodes[slot as int].live
            &&& match name {
                Some(asked) => match nodes[slot as int].value.name {
                    Some(own) => own@ == asked,
                    None => false,
                },
                None => true,
            }
            &&& typed ==> T::admits(kind_of(nodes[slot as int].value))
        }
}

/// The hub after one reference to each of `slots` is counted, a slot that
/// occurs twice being counted twice.
pub open spec fn pinned(hub: HubState, slots: Seq<usize>) -> HubState
    decreases slots.len(),
{
    if slots.len() == 0 {
        hub
    } else {
        let before = pinned(hub, slots.drop_last());
        before.with_count(
            slots.last() as int,
            count_up(before.nodes[slots.last() as int].count),
        )
    }
}

/// A view of a scene and its hub for reading and searching. It holds the hub
/// for as long as it lives; making it applies the messages that wait.
pub struct SyncGuard<'a> {
    /// The scene that is read.
    pub scene: &'a Scene,
    /// The hub that holds the nodes.
    pub hub: &'a mut Hub,
}

impl Scene {
    /// Applies the messages that wait and returns the view for reading and
    /// searching, or the error of the message that was refused.
    pub fn sync_guard<'a>(&'a self, hub: &'a mut Hub) -> (r: Result<SyncGuard<'a>, OperationError>)
        requires
            old(hub).wf(),
        ensures
            r is Ok <==> old(hub)@.deliverable(),
            match r {
                Ok(guard) => {
                    &&& guard.scene == self
                    &&& guard.hub.wf()
                    &&& guard.hub@ == old(hub)@.processed()
                    &&& *final(hub) == *final(guard.hub)
                },
                Err(error) => {
                    &&& Some(error) == old(hub)@.refused()
                    &&& final(hub).wf()
                    &&& final(hub)@ == old(hub)@.processed()
                },
            },
    {
        match hub.process_messages() {
            Ok(()) => Ok(SyncGuard { scene: self, hub }),
            Err(error) => Err(error),
        }
    }
}

/// The slots of `walk` that a search keeps, in the order of the walk.
fn select<T: DowncastObject>(
    hub: &Hub,
    walk: &Vec<usize>,
    name: Option<&String>,
    typed: bool,
) -> (kept: Vec<usize>)
    ensures
        kept@ == walk@.filter(
            wanted::<T>(
                hub@.nodes,
                match name {
                    Some(asked) => Some(asked@),
                    None => None,
                },
                typed,
            ),
        ),
{
    let ghost asked: Option<Seq<char>> = match name {
        Some(asked) => Some(asked@),
        None => None,
    };
    let ghost keep = wanted::<T>(hub@.nodes, asked, typed);
    let mut kept: Vec<usize> = Vec::new();
    let mut i: usize = 0;
    while i < walk.len()
        invariant
            i <= walk@.len(),
            asked == match name {
                Some(asked) => Some(asked@),
                None => None,
            },
            keep == wanted::<T>(hub@.nodes, asked, typed),
            kept@ == walk@.take(i as int).filter(keep),
        decreases walk.len() - i,
    {
        let slot = walk[i];
        let mut fits = hub.is_alive(slot);
        if fits {
            let node = hub.node_at(slot);
            if let Some(asked_name) = name {
                fits = match &node.name {
                    Some(own) => *own == *asked_name,
                    None => false,
                };
            }
            if fits && typed {
                fits = T::accepts(&node.object_type());
            }
        }
        proof {
            assert(walk@.take(i + 1) =~= walk@.take(i as int).push(slot));
            Seq::lemma_filter_push(walk@.take(i as int), slot, keep);
        }
        if fits {
            kept.push(slot);
        }
        i = i + 1;
    }
    assert(walk@.take(i as int) =~= walk@);
    kept
}

/// Counting a reference leaves every slot claimed or not as it was, at its
/// epoch.
proof fn lemma_pinned_frame(hub: HubState, slots: Seq<usize>)
    requires
        forall|k: int| 0 <= k < slots.len() ==> slots[k] < hub.nodes.len(),
    ensures
        pinned(hub, slots).nodes.len() == hub.nodes.len(),
        forall|j: int|
            0 <= j < hub.nodes.len() ==> (#[trigger] pinned(hub, slots).nodes[j]).live
                == hub.nodes[j].live && pinned(hub, slots).nodes[j].epoch == hub.nodes[j].epoch
                && pinned(hub, slots).nodes[j].value == hub.nodes[j].value,
    decreases slots.len(),
{
    if slots.len() > 0 {
        lemma_pinned_frame(hub, slots.drop_last());
    }
}

/// A counted handle, held as `T`, to each of `slots`, which are alive.
fn pin_all<T: DowncastObject>(hub: &mut Hub, slots: &Vec<usize>) -> (handles: Vec<T>)
    requires
        forall|k: int|
            0 <= k < slots@.len() ==> slots@[k] < old(hub)@.nodes.len() && old(
                hub,
            )@.nodes[slots@[k] as int].live,
    ensures
        final(hub).wf() == old(hub).wf(),
        final(hub)@ == pinned(old(hub)@, slots@),
        handles@.len() == slots@.len(),
        forall|k: int|
            0 <= k < slots@.len() ==> (#[trigger] handles@[k]).handle().pointer().slot()
                == slots@[k] && old(hub)@.contains(handles@[k].handle().pointer()),
{
    let mut handles: Vec<T> = Vec::new();
    let mut i: usize = 0;
    while i < slots.len()
        invariant
            i <= slots@.len(),
            hub.wf() == old(hub).wf(),
            forall|k: int|
                0 <= k < slots@.len() ==> slots@[k] < old(hub)@.nodes.len() && old(
                    hub,
                )@.nodes[slots@[k] as int].live,
            hub@ == pinned(old(hub)@, slots@.take(i as int)),
            handles@.len() == i,
            forall|k: int|
                0 <= k < i ==> (#[trigger] handles@[k]).handle().pointer().slot() == slots@[k]
                    && old(hub)@.contains(handles@[k].handle().pointer()),
        decreases slots.len() - i,
    {
        let slot = slots[i];
        proof {
            lemma_pinned_frame(old(hub)@, slots@.take(i as int));
            assert(slots@.take(i + 1).drop_last() =~= slots@.take(i as int));
        }
        if let Some(object) = hub.pin(slot) {
            handles.push(T::wrap(object));
        }
        i = i + 1;
    }
    assert(slots@.take(i as int) =~= slots@);
    handles
}

impl<'a> SyncGuard<'a> {
    /// What the hub holds.
    pub open spec fn state(&self) -> HubState {
        self.hub@
    }

    /// The slots of the subtree under `root` that a search keeps, in the
    /// order of the walk: depth first, the root itself at the head.
    pub open spec fn found<T: DowncastObject>(
        &self,
        root: Object,
        name: Option<Seq<char>>,
        typed: bool,
    ) -> Seq<usize> {
        subtree(self.hub@.nodes, root.pointer().slot() as usize, self.hub@.nodes.len()).filter(
            wanted::<T>(self.hub@.nodes, name, typed),
        )
    }

    /// Whether `object` stands under one of the scene's top-level nodes.
    pub open spec fn in_scene(&self, object: Object) -> bool {
        forest(self.hub@.nodes, self.scene.first_child(), self.hub@.nodes.len()).contains(
            object.pointer().slot() as usize,
        )
    }

    /// What the node of `object` is in its own space.
    pub fn resolve(&self, object: &Object) -> (info: NodeInfo)
        requires
            self.state().contains(object.pointer()),
        ensures
            info == local_info(self.state().node(object.pointer().slot())),
    {
        let node = self.hub.node(object);
        NodeInfo {
            visible: node.visible,
            name: match &node.name {
                Some(name) => Some(name.clone()),
                None => None,
            },
            transform: node.transform,
            material: match node.sub_node {
                SubNode::Visual(material, _) => Some(material),
                _ => None,
            },
        }
    }

    /// Whether `object` is found by the walk from the scene's top-level
    /// nodes, each with the subtree under it.
    pub fn is_in_scene(&self, object: &Object) -> (r: bool)
        ensures
            r == self.in_scene(*object),
    {
        let slots = self.scene.walk(&*self.hub);
        occurs(&slots, object.node().index())
    }

    /// What the node of `object` is in the world, as the last resolution
    /// pass left it. The node has to stand under one of the scene's
    /// top-level nodes.
    pub fn resolve_world(&self, object: &Object) -> (info: NodeInfo)
        requires
            self.state().contains(object.pointer()),
            self.in_scene(*object),
        ensures
            info == world_info(self.state().node(object.pointer().slot())),
    {
        let node = self.hub.node(object);
        NodeInfo {
            visible: node.world_visible,
            name: match &node.name {
                Some(name) => Some(name.clone()),
                None => None,
            },
            transform: node.world_transform,
            material: match node.sub_node {
                SubNode::Visual(material, _) => Some(material),
                _ => None,
            },
        }
    }

    /// What the node of `object` is in the world, where the walk from the
    /// scene's top-level nodes finds it, and `None` where it does not.
    pub fn find_world(&self, object: &Object) -> (r: Option<NodeInfo>)
        ensures
            match r {
                Some(info) => self.state().contains(object.pointer()) && self.in_scene(*object)
                    && info == world_info(self.state().node(object.pointer().slot())),
                None => !(self.state().contains(object.pointer()) && self.in_scene(*object)),
            },
    {
        if self.hub.contains(object) && self.is_in_scene(object) {
            Some(self.resolve_world(object))
        } else {
            None
        }
    }

    /// The kind of the node of `object`.
    pub fn resolve_data(&self, object: &Object) -> (r: ObjectType)
        requires
            self.state().contains(object.pointer()),
        ensures
            r == kind_of(self.state().node(object.pointer().slot())),
    {
        self.hub.node(object).object_type()
    }

    /// Holds the node of `base` as a `T`, where its kind allows it: the new
    /// handle is counted. `None` where the kind does not.
    pub fn downcast<T: DowncastObject>(&mut self, base: &Object) -> (r: Option<T>)
        requires
            old(self).hub@.contains(base.pointer()),
        ensures
            final(self).scene == old(self).scene,
            *final(final(self).hub) == *final(old(self).hub),
            final(self).hub.wf() == old(self).hub.wf(),
            r is Some <==> T::admits(kind_of(old(self).hub@.node(base.pointer().slot()))),
            match r {
                Some(typed) => typed.handle().pointer() == base.pointer() && final(self).hub@
                    == old(self).hub@.with_count(
                    base.pointer().slot(),
                    count_up(old(self).hub@.nodes[base.pointer().slot()].count),
                ),
                None => final(self).hub@ == old(self).hub@,
            },
    {
        let object_type = self.resolve_data(base);
        if T::accepts(&object_type) {
            Some(T::wrap(self.hub.instance(base)))
        } else {
            None
        }
    }

    /// Searches the subtree under `root`, depth first and the root first,
    /// and returns a counted handle to every node that is kept, in the order
    /// of the walk.
    fn gather<T: DowncastObject>(&mut self, root: &Group, name: Option<&String>, typed: bool) -> (r:
        Vec<T>)
        ensures
            final(self).scene == old(self).scene,
            *final(final(self).hub) == *final(old(self).hub),
            final(self).hub.wf() == old(self).hub.wf(),
            final(self).hub@ == pinned(
                old(self).hub@,
                old(self).found::<T>(
                    root.object,
                    match name {
                        Some(asked) => Some(asked@),
                        None => None,
                    },
                    typed,
                ),
            ),
            r@.len() == old(self).found::<T>(
                root.object,
                match name {
                    Some(asked) => Some(asked@),
                    None => None,
                },
                typed,
            ).len(),
            forall|k: int|
                0 <= k < r@.len() ==> (#[trigger] r@[k]).handle().pointer().slot() == old(
                    self,
                ).found::<T>(
                    root.object,
                    match name {
                        Some(asked) => Some(asked@),
                        None => None,
                    },
                    typed,
                )[k] && old(self).hub@.contains(r@[k].handle().pointer()),
    {
        let slots = walk(&*self.hub, root.object.node().index());
        let kept = select::<T>(&*self.hub, &slots, name, typed);
        pin_all::<T>(&mut *self.hub, &kept)
    }

    /// Searches the subtree under `root`, depth first and the root first,
    /// and returns a counted handle to the first node that is kept.
    fn first<T: DowncastObject>(&mut self, root: &Group, name: Option<&String>, typed: bool) -> (r:
        Option<T>)
        ensures
            final(self).scene == old(self).scene,
            *final(final(self).hub) == *final(old(self).hub),
            final(self).hub.wf() == old(self).hub.wf(),
            r is Some <==> old(self).found::<T>(
                root.object,
                match name {
                    Some(asked) => Some(asked@),
                    None => None,
                },
                typed,
            ).len() > 0,
            match r {
                Some(handle) => {
                    let slot = old(self).found::<T>(
                        root.object,
                        match name {
                            Some(asked) => Some(asked@),
                            None => None,
                        },
                        typed,
                    )[0];
                    &&& handle.handle().pointer().slot() == slot
                    &&& old(self).hub@.contains(handle.handle().pointer())
                    &&& final(self).hub@ == old(self).hub@.with_count(
                        slot as int,
                        count_up(old(self).hub@.nodes[slot as int].count),
                    )
                },
                None => final(self).hub@ == old(self).hub@,
            },
    {
        let slots = walk(&*self.hub, root.object.node().index());
        let kept = select::<T>(&*self.hub, &slots, name, typed);
        if kept.len() == 0 {
            return None;
        }
        match self.hub.pin(kept[0]) {
            Some(object) => Some(T::wrap(object)),
            None => None,
        }
    }

    /// The first node named `name` in the subtree under `root`, searched
    /// depth first and the root first, as a counted handle.
    pub fn find_child_by_name(&mut self, root: &Group, name: &str) -> (r: Option<Object>)
        ensures
            final(self).scene == old(self).scene,
            *final(final(self).hub) == *final(old(self).hub),
            final(self).hub.wf() == old(self).hub.wf(),
            r is Some <==> old(self).found::<Object>(root.object, Some(name@), false).len() > 0,
            match r {
                Some(object) => {
                    let slot = old(self).found::<Object>(root.object, Some(name@), false)[0];
                    &&& object.pointer().slot() == slot
                    &&& old(self).hub@.contains(object.pointer())
                    &&& final(self).hub@ == old(self).hub@.with_count(
                        slot as int,
                        count_up(old(self).hub@.nodes[slot as int].count),
                    )
                },
                None => final(self).hub@ == old(self).hub@,
            },
    {
        let asked = name.to_owned();
        self.first::<Object>(root, Some(&asked), false)
    }

    /// All nodes named `name` in the subtree under `root`, in the order of
    /// the walk, each as a counted handle.
    pub fn find_children_by_name(&mut self, root: &Group, name: &str) -> (r: Vec<Object>)
        ensures
            final(self).scene == old(self).scene,
            *final(final(self).hub) == *final(old(self).hub),
            final(self).hub.wf() == old(self).hub.wf(),
            final(self).hub@ == pinned(
                old(self).hub@,
                old(self).found::<Object>(root.object, Some(name@), false),
            ),
            r@.len() == old(self).found::<Object>(root.object, Some(name@), false).len(),
            forall|k: int|
                0 <= k < r@.len() ==> (#[trigger] r@[k]).pointer().slot() == old(
                    self,
                ).found::<Object>(root.object, Some(name@), false)[k] && old(self).hub@.contains(
                    r@[k].pointer(),
                ),
    {
        let asked = name.to_owned();
        self.gather::<Object>(root, Some(&asked), false)
    }

    /// The first node of kind `T` named `name` in the subtree under `root`.
    pub fn find_child_of_type_by_name<T: DowncastObject>(&mut self, root: &Group, name: &str) -> (r:
        Option<T>)
        ensures
            final(self).scene == old(self).scene,
            *final(final(self).hub) == *final(old(self).hub),
            final(self).hub.wf() == old(self).hub.wf(),
            r is Some <==> old(self).found::<T>(root.object, Some(name@), true).len() > 0,
            match r {
                Some(handle) => {
                    let slot = old(self).found::<T>(root.object, Some(name@), true)[0];
                    &&& handle.handle().pointer().slot() == slot
                    &&& old(self).hub@.contains(handle.handle().pointer())
                    &&& final(self).hub@ == old(self).hub@.with_count(
                        slot as int,
                        count_up(old(self).hub@.nodes[slot as int].count),
                    )
                },
                None => final(self).hub@ == old(self).hub@,
            },
    {
        let asked = name.to_owned();
        self.first::<T>(root, Some(&asked), true)
    }

    /// All nodes of kind `T` named `name` in the subtree under `root`, in
    /// the order of the walk.
    pub fn find_children_of_type_by_name<T: DowncastObject>(
        &mut self,
        root: &Group,
        name: &str,
    ) -> (r: Vec<T>)
        ensures
            final(self).scene == old(self).scene,
            *final(final(self).hub) == *final(old(self).hub),
            final(self).hub.wf() == old(self).hub.wf(),
            final(self).hub@ == pinned(
                old(self).hub@,
                old(self).found::<T>(root.object, Some(name@), true),
            ),
            r@.len() == old(self).found::<T>(root.object, Some(name@), true).len(),
            forall|k: int|
                0 <= k < r@.len() ==> (#[trigger] r@[k]).handle().pointer().slot() == old(
                    self,
                ).found::<T>(root.object, Some(name@), true)[k] && old(self).hub@.contains(
                    r@[k].handle().pointer(),
                ),
    {
        let asked = name.to_owned();
        self.gather::<T>(root, Some(&asked), true)
    }

    /// All nodes of kind `T` in the subtree under `root`, in the order of the
    /// walk.
    pub fn find_children_of_type<T: DowncastObject>(&mut self, root: &Group) -> (r: Vec<T>)
        ensures
            final(self).scene == old(self).scene,
            *final(final(self).hub) == *final(old(self).hub),
            final(self).hub.wf() == old(self).hub.wf(),
            final(self).hub@ == pinned(
                old(self).hub@,
                old(self).found::<T>(root.object, None, true),
            ),
            r@.len() == old(self).found::<T>(root.object, None, true).len(),
            forall|k: int|
                0 <= k < r@.len() ==> (#[trigger] r@[k]).handle().pointer().slot() == old(
                    self,
                ).found::<T>(root.object, None, true)[k] && old(self).hub@.contains(
                    r@[k].handle().pointer(),
                ),
    {
        self.gather::<T>(root, None, true)
    }

    /// The first node of kind `T` in the subtree under `root`.
    pub fn find_child_of_type<T: DowncastObject>(&mut self, root: &Group) -> (r: Option<T>)
        ensures
            final(self).scene == old(self).scene,
            *final(final(self).hub) == *final(old(self).hub),
            final(self).hub.wf() == old(self).hub.wf(),
            r is Some <==> old(self).found::<T>(root.object, None, true).len() > 0,
            match r {
                Some(handle) => {
                    let slot = old(self).found::<T>(root.object, None, true)[0];
                    &&& handle.handle().pointer().slot() == slot
                    &&& old(self).hub@.contains(handle.handle().pointer())
                    &&& final(self).hub@ == old(self).hub@.with_count(
                        slot as int,
                        count_up(old(self).hub@.nodes[slot as int].count),
                    )
                },
                None => final(self).hub@ == old(self).hub@,
            },
    {
        self.first::<T>(root, None, true)
    }
}

} // verus!
