//! The hub: it owns the node store and the queue of operations, and runs
//! the pass that drains the queue, reclaims dead nodes and resolves the
//! graph.

use crate::node::{
    accepts, applied, is_fresh, refusal, DynamicData, GpuData, LightData, Material, Message, Node, Operation,
    OperationError, SceneId, SubNode, Transform,
};
use crate::object::Object;
use crate::store::{
    count_down, count_up, holds, reclaimed, swept, NodePointer, Slot, Storage, WeakPointer,
};
use std::collections::VecDeque;
use vstd::prelude::*;

verus! {

/// The owner of all nodes and of the operations that wait for them.
pub struct Hub {
    nodes: Storage<Node>,
    queue: VecDeque<Message>,
    next_scene: SceneId,
}

/// What a hub holds, as mathematics.
pub struct HubState {
    /// The slots of the store.
    pub nodes: Seq<Slot<Node>>,
    /// The slots that can be claimed again; the last one is claimed first.
    pub vacant: Seq<usize>,
    /// The operations that wait, oldest first.
    pub queue: Seq<Message>,
    /// The number that the next scene gets.
    pub next_scene: SceneId,
}

impl HubState {
    /// Whether the weak handle names a node that has not been reclaimed.
    pub open spec fn is_current(self, weak: WeakPointer) -> bool {
        holds(self.nodes, weak.slot(), weak.epoch())
    }

    /// Whether the strong handle names a node that has not been reclaimed.
    pub open spec fn contains(self, pointer: NodePointer) -> bool {
        holds(self.nodes, pointer.slot(), pointer.epoch())
    }

    /// The node in slot `slot`.
    pub open spec fn node(self, slot: int) -> Node {
        self.nodes[slot].value
    }

    /// The slot that the next node is put in.
    pub open spec fn next_slot(self) -> int {
        if self.vacant.len() > 0 {
            self.vacant.last() as int
        } else {
            self.nodes.len() as int
        }
    }

    /// The state with `node` put in slot `slot`.
    pub open spec fn with_node(self, slot: int, node: Node) -> HubState {
        HubState { nodes: self.nodes.update(slot, Slot { value: node, ..self.nodes[slot] }), ..self }
    }

    /// The state with the reference count of slot `slot` set to `count`.
    pub open spec fn with_count(self, slot: int, count: u64) -> HubState {
        HubState { nodes: self.nodes.update(slot, Slot { count, ..self.nodes[slot] }), ..self }
    }

    /// The state with the next sibling of the node in slot `slot` set to
    /// `link`.
    pub open spec fn with_link(self, slot: int, link: Option<NodePointer>) -> HubState {
        self.with_node(slot, Node { next_sibling: link, ..self.node(slot) })
    }

    /// The state after the reference that `pointer` stands for is given up:
    /// one reference less is counted for its node. Where the handle names no
    /// node, nothing changes.
    pub open spec fn released(self, pointer: NodePointer) -> HubState {
        if self.contains(pointer) {
            self.with_count(pointer.slot(), count_down(self.nodes[pointer.slot()].count))
        } else {
            self
        }
    }

    /// The state after a node is spawned: it takes the next slot, with one
    /// reference counted.
    pub open spec fn spawned(self, node: Node) -> HubState {
        if self.vacant.len() > 0 {
            HubState {
                nodes: self.nodes.update(
                    self.next_slot(),
                    Slot {
                        value: node,
                        count: 1,
                        epoch: self.nodes[self.next_slot()].epoch,
                        live: true,
                    },
                ),
                vacant: self.vacant.drop_last(),
                ..self
            }
        } else {
            HubState {
                nodes: self.nodes.push(Slot { value: node, count: 1, epoch: 0, live: true }),
                ..self
            }
        }
    }

    /// The state with `message` at the end of the queue.
    pub open spec fn sent(self, message: Message) -> HubState {
        HubState { queue: self.queue.push(message), ..self }
    }

    /// Whether `message` is refused: its node is there and cannot take the
    /// operation.
    pub open spec fn rejects(self, message: Message) -> bool {
        self.is_current(message.target) && !accepts(
            self.node(message.target.slot()),
            message.operation,
        )
    }

    /// The state after `message` is delivered: the operation is applied to
    /// its node, or, where the node has been reclaimed or refuses it, nothing
    /// changes.
    pub open spec fn delivered(self, message: Message) -> HubState {
        if self.is_current(message.target) && !self.rejects(message) {
            self.with_node(
                message.target.slot(),
                applied(self.node(message.target.slot()), message.operation),
            )
        } else {
            self
        }
    }

    /// The state after the first message of the queue is taken from it and
    /// delivered.
    pub open spec fn stepped(self) -> HubState
        recommends
            self.queue.len() > 0,
    {
        HubState { queue: self.queue.drop_first(), ..self.delivered(self.queue[0]) }
    }

    /// Whether the whole queue can be delivered, each message to the state
    /// that the ones before it left, without one being refused.
    pub open spec fn deliverable(self) -> bool
        decreases self.queue.len(),
    {
        if self.queue.len() == 0 {
            true
        } else if self.rejects(self.queue[0]) {
            false
        } else {
            self.stepped().deliverable()
        }
    }

    /// The error of the first message of the queue that is refused, each
    /// message being delivered to the state that the ones before it left;
    /// `None` where the whole queue can be delivered.
    pub open spec fn refused(self) -> Option<OperationError>
        decreases self.queue.len(),
    {
        if self.queue.len() == 0 {
            None
        } else if self.rejects(self.queue[0]) {
            refusal(self.node(self.queue[0].target.slot()), self.queue[0].operation)
        } else {
            self.stepped().refused()
        }
    }

    /// The state after the queue is drained in order. Draining stops behind
    /// the first message that is refused: that message is dropped, and those
    /// after it stay in the queue.
    pub open spec fn drained(self) -> HubState
        decreases self.queue.len(),
    {
        if self.queue.len() == 0 {
            self
        } else if self.rejects(self.queue[0]) {
            self.stepped()
        } else {
            self.stepped().drained()
        }
    }

    /// The state after a sweep: every node without a reference is reclaimed.
    pub open spec fn swept(self) -> HubState {
        HubState {
            nodes: swept(self.nodes),
            vacant: self.vacant + reclaimed(self.nodes, self.nodes.len()),
            ..self
        }
    }

    /// The state after the messages are processed: the queue is drained and,
    /// where no message was refused, the store is swept.
    pub open spec fn processed(self) -> HubState {
        if self.deliverable() {
            self.drained().swept()
        } else {
            self.drained()
        }
    }
}

/// What a holder of handles hands to the owner of the hub.
#[derive(Debug)]
pub enum Event {
    /// An operation for a node.
    Message(Message),
    /// A handle that its holder has given up.
    Release(Object),
}

/// The state after the hub has taken `event`: a message waits at the end of
/// the queue, and a handle that was given up is counted no more.
pub open spec fn taken(hub: HubState, event: Event) -> HubState {
    match event {
        Event::Message(message) => hub.sent(message),
        Event::Release(object) => hub.released(object.pointer()),
    }
}

/// The state after the hub has taken `events`, one after the other.
pub open spec fn received(hub: HubState, events: Seq<Event>) -> HubState
    decreases events.len(),
{
    if events.len() == 0 {
        hub
    } else {
        received(taken(hub, events[0]), events.drop_first())
    }
}

/// A mesh whose vertex data is written on the CPU side.
#[derive(Debug)]
pub struct DynamicMesh {
    /// The handle to the mesh's node.
    pub object: Object,
    /// The buffer that the vertex data is written to.
    pub dynamic: DynamicData,
}

/// Whether `after` is `before` with one more node, new and carrying
/// `sub_node`, in the next slot, and `object` is the handle to it.
pub open spec fn made(before: HubState, after: HubState, object: Object, sub_node: SubNode) -> bool {
    &&& object.pointer().slot() == before.next_slot()
    &&& after.contains(object.pointer())
    &&& after == before.spawned(after.node(object.pointer().slot()))
    &&& is_fresh(after.node(object.pointer().slot()), sub_node)
}

/// Whether `after` is `before` with one more node, the node of a new scene
/// with the number `id`, and `object` is the handle to it. The node is new
/// and carries nothing, but for the scene that it stands in.
pub open spec fn made_scene(before: HubState, after: HubState, object: Object, id: SceneId) -> bool {
    &&& id == before.next_scene
    &&& object.pointer().slot() == before.next_slot()
    &&& after.contains(object.pointer())
    &&& after == (HubState {
        next_scene: (before.next_scene + 1) as SceneId,
        ..before.spawned(after.node(object.pointer().slot()))
    })
    &&& is_fresh(Node { scene_id: None, ..after.node(object.pointer().slot()) }, SubNode::Empty)
    &&& after.node(object.pointer().slot()).scene_id == Some(id)
}

/// The slot of the parent from which the node in slot `slot` takes its world
/// state: the parent is alive and stands before the node. `None` where the
/// node has no parent, or the parent has been reclaimed or stands behind it.
pub open spec fn resolved_parent(nodes: Seq<Slot<Node>>, slot: int) -> Option<int> {
    match nodes[slot].value.parent {
        Some(weak) => if weak.slot() < slot && holds(nodes, weak.slot(), weak.epoch()) {
            Some(weak.slot())
        } else {
            None
        },
        None => None,
    }
}

/// Whether the node in slot `slot` is alive and has a parent from which it
/// cannot take its world state.
pub open spec fn is_orphan(nodes: Seq<Slot<Node>>, slot: int) -> bool {
    nodes[slot].live && nodes[slot].value.parent is Some && resolved_parent(nodes, slot) is None
}

/// The number of orphans among the first `n` slots.
pub open spec fn orphans(nodes: Seq<Slot<Node>>, n: nat) -> nat
    decreases n,
{
    if n == 0 || n > nodes.len() {
        0
    } else {
        orphans(nodes, (n - 1) as nat) + if is_orphan(nodes, n - 1) {
            1nat
        } else {
            0nat
        }
    }
}

/// Whether `after` is `before` with its world state resolved against
/// `parent`, the resolved state of the parent it takes it from, or against
/// nothing. Only the world visibility, the world transform and the scene
/// differ from `before`.
pub open spec fn resolves<F: Fn(Transform, Transform) -> Transform>(
    before: Node,
    after: Node,
    parent: Option<Node>,
    compose: F,
) -> bool {
    &&& after == Node {
        world_visible: after.world_visible,
        world_transform: after.world_transform,
        scene_id: after.scene_id,
        ..before
    }
    &&& match parent {
        Some(above) => {
            &&& after.world_visible == (before.visible && above.world_visible)
            &&& compose.ensures((above.world_transform, before.transform), after.world_transform)
            &&& after.scene_id == above.scene_id
        },
        None => {
            &&& after.world_visible == before.visible
            &&& after.world_transform == before.transform
            &&& after.scene_id == before.scene_id
        },
    }
}

/// Whether `after` is the store `before` with the graph resolved: every
/// node that is alive is resolved against the resolved state of its parent,
/// and nothing else has changed.
pub open spec fn graph_resolved<F: Fn(Transform, Transform) -> Transform>(
    before: Seq<Slot<Node>>,
    after: Seq<Slot<Node>>,
    compose: F,
) -> bool {
    &&& after.len() == before.len()
    &&& forall|i: int|
        0 <= i < before.len() ==> {
            &&& (#[trigger] after[i]).count == before[i].count
            &&& after[i].epoch == before[i].epoch
            &&& after[i].live == before[i].live
            &&& if before[i].live {
                resolves(
                    before[i].value,
                    after[i].value,
                    match resolved_parent(before, i) {
                        Some(p) => Some(after[p].value),
                        None => None,
                    },
                    compose,
                )
            } else {
                after[i].value == before[i].value
            }
        }
}

impl View for Hub {
    type V = HubState;

    closed spec fn view(&self) -> HubState {
        HubState {
            nodes: self.nodes@,
            vacant: self.nodes.vacant(),
            queue: self.queue@,
            next_scene: self.next_scene,
        }
    }
}

impl Hub {
    /// The invariant of the store inside.
    pub closed spec fn wf(&self) -> bool {
        self.nodes.wf()
    }

    /// A hub with no node and no message.
    pub fn new() -> (hub: Hub)
        ensures
            hub.wf(),
            hub@.nodes.len() == 0,
            hub@.vacant.len() == 0,
            hub@.queue.len() == 0,
            hub@.next_scene == 0,
    {
        Hub { nodes: Storage::new(), queue: VecDeque::new(), next_scene: 0 }
    }

    /// The number of slots in the store, alive or not.
    pub fn len(&self) -> (n: usize)
        ensures
            n == self@.nodes.len(),
    {
        self.nodes.len()
    }

    /// The number that the next scene gets.
    pub fn next_scene(&self) -> (id: SceneId)
        ensures
            id == self@.next_scene,
    {
        self.next_scene
    }

    /// The number of messages that wait.
    pub fn pending(&self) -> (n: usize)
        ensures
            n == self@.queue.len(),
    {
        self.queue.len()
    }

    /// The first node alive in slot `from` or after it, in store order.
    pub fn next_alive(&self, from: usize) -> (r: Option<usize>)
        ensures
            match r {
                Some(i) => from <= i < self@.nodes.len() && self@.nodes[i as int].live
                    && forall|j: int| from <= j < i ==> !self@.nodes[j].live,
                None => forall|j: int| from <= j < self@.nodes.len() ==> !self@.nodes[j].live,
            },
    {
        self.nodes.next_live(from)
    }

    /// Whether the object's node has not been reclaimed.
    pub fn contains(&self, object: &Object) -> (r: bool)
        ensures
            r == self@.contains(object.pointer()),
    {
        self.nodes.has(object.node())
    }

    /// Whether the weak handle's node has not been reclaimed.
    pub fn is_current(&self, weak: &WeakPointer) -> (r: bool)
        ensures
            r == self@.is_current(*weak),
    {
        self.nodes.has_weak(weak)
    }

    /// The object's node.
    pub fn node(&self, object: &Object) -> (node: &Node)
        requires
            self@.contains(object.pointer()),
        ensures
            *node == self@.node(object.pointer().slot()),
    {
        self.nodes.get(object.node())
    }

    /// The node in slot `index`, alive or not.
    pub fn node_at(&self, index: usize) -> (node: &Node)
        requires
            index < self@.nodes.len(),
        ensures
            *node == self@.node(index as int),
    {
        &self.nodes.slot(index).value
    }

    /// The number of references counted for the object's node.
    pub fn strong_count(&self, object: &Object) -> (n: u64)
        requires
            self@.contains(object.pointer()),
        ensures
            n == self@.nodes[object.pointer().slot()].count,
    {
        self.nodes.slot(object.node().index()).count
    }

    /// Whether slot `index` holds a node that is alive.
    pub fn is_alive(&self, index: usize) -> (r: bool)
        ensures
            r == (index < self@.nodes.len() && self@.nodes[index as int].live),
    {
        self.nodes.is_live(index)
    }

    /// A handle to the node alive in slot `index`, with the reference
    /// counted, or `None` where the slot holds none.
    pub fn pin(&mut self, index: usize) -> (r: Option<Object>)
        ensures
            final(self).wf() == old(self).wf(),
            r is Some <==> index < old(self)@.nodes.len() && old(self)@.nodes[index as int].live,
            match r {
                Some(object) => object.pointer().slot() == index && object.pointer().epoch() == old(
                    self,
                )@.nodes[index as int].epoch && final(self)@ == old(self)@.with_count(
                    index as int,
                    count_up(old(self)@.nodes[index as int].count),
                ),
                None => final(self)@ == old(self)@,
            },
    {
        match self.nodes.weak_at(index) {
            Some(weak) => self.upgrade(&weak),
            None => None,
        }
    }

    /// A weak handle to the node alive in slot `index`, or `None` where the
    /// slot holds none.
    pub fn weak_of(&self, index: usize) -> (r: Option<WeakPointer>)
        ensures
            match r {
                Some(weak) => weak.slot() == index && self@.is_current(weak),
                None => !(index < self@.nodes.len() && self@.nodes[index as int].live),
            },
    {
        self.nodes.weak_at(index)
    }

    /// Whether the strong handle's node has not been reclaimed.
    pub fn holds(&self, pointer: &NodePointer) -> (r: bool)
        ensures
            r == self@.contains(*pointer),
    {
        self.nodes.has(pointer)
    }

    /// The node of a strong handle.
    pub fn node_of(&self, pointer: &NodePointer) -> (node: &Node)
        requires
            self@.contains(*pointer),
        ensures
            *node == self@.node(pointer.slot()),
    {
        self.nodes.get(pointer)
    }

    /// The node of a strong handle, to be changed in place: for the edits
    /// that are made at once and not through the queue.
    pub(crate) fn node_mut(&mut self, pointer: &NodePointer) -> (node: &mut Node)
        requires
            old(self)@.contains(*pointer),
        ensures
            *node == old(self)@.node(pointer.slot()),
            final(self)@ == old(self)@.with_node(pointer.slot(), *final(node)),
            final(self).wf() == old(self).wf(),
    {
        self.nodes.get_mut(pointer)
    }

    /// Puts a node that carries `sub_node` in the store and returns the
    /// handle to it.
    pub fn spawn(&mut self, sub_node: SubNode) -> (object: Object)
        requires
            old(self).wf(),
        ensures
            final(self).wf(),
            made(old(self)@, final(self)@, object, sub_node),
    {
        let node = Node::new(sub_node);
        let pointer = self.nodes.create(node);
        Object::new(pointer)
    }

    /// A node that carries nothing.
    pub fn spawn_empty(&mut self) -> (object: Object)
        requires
            old(self).wf(),
        ensures
            final(self).wf(),
            made(old(self)@, final(self)@, object, SubNode::Empty),
    {
        self.spawn(SubNode::Empty)
    }

    /// A node that is drawn.
    pub fn spawn_visual(&mut self, material: Material, gpu_data: GpuData) -> (object: Object)
        requires
            old(self).wf(),
        ensures
            final(self).wf(),
            made(old(self)@, final(self)@, object, SubNode::Visual(material, gpu_data)),
    {
        self.spawn(SubNode::Visual(material, gpu_data))
    }

    /// A node that is a light.
    pub fn spawn_light(&mut self, data: LightData) -> (object: Object)
        requires
            old(self).wf(),
        ensures
            final(self).wf(),
            made(old(self)@, final(self)@, object, SubNode::Light(data)),
    {
        self.spawn(SubNode::Light(data))
    }

    /// Puts `operation` for the node of `target` at the end of the queue.
    /// Nothing is checked and nothing changes until the queue is drained.
    pub fn send(&mut self, target: WeakPointer, operation: Operation)
        ensures
            final(self)@ == old(self)@.sent(Message { target, operation }),
            final(self).wf() == old(self).wf(),
    {
        self.queue.push_back(Message { target, operation });
    }

    /// Takes what holders of handles have handed in, in the order in which it
    /// came: messages are put in the queue, and handles that were given up
    /// are released.
    pub fn receive(&mut self, events: VecDeque<Event>)
        ensures
            final(self).wf() == old(self).wf(),
            final(self)@ == received(old(self)@, events@),
    {
        let ghost all = events@;
        let mut events = events;
        loop
            invariant
                self.wf() == old(self).wf(),
                received(self@, events@) == received(old(self)@, all),
            ensures
                events@.len() == 0,
            decreases events@.len(),
        {
            let ghost before = events@;
            match events.pop_front() {
                Some(Event::Message(message)) => {
                    self.send(message.target, message.operation);
                },
                Some(Event::Release(object)) => {
                    self.release(object);
                },
                None => {
                    break ;
                },
            }
            assert(events@ =~= before.drop_first());
        }
    }

    /// Another handle to the object's node, with the reference counted: the
    /// two handles are independent and the node is shared.
    pub fn instance(&mut self, object: &Object) -> (copy: Object)
        ensures
            copy.pointer() == object.pointer(),
            final(self).wf() == old(self).wf(),
            old(self)@.contains(object.pointer()) ==> final(self)@ == old(self)@.with_count(
                object.pointer().slot(),
                count_up(old(self)@.nodes[object.pointer().slot()].count),
            ),
            !old(self)@.contains(object.pointer()) ==> final(self)@ == old(self)@,
    {
        let pointer = self.nodes.retain(object.node());
        Object::new(pointer)
    }

    /// Gives a handle up. The node stays until the next sweep, which
    /// reclaims it where this was the last reference to it.
    pub fn release(&mut self, object: Object)
        ensures
            final(self).wf() == old(self).wf(),
            final(self)@ == old(self)@.released(object.pointer()),
    {
        self.nodes.release(object.into_node());
    }

    /// A handle to the node of a weak handle, with the reference counted, or
    /// `None` where the node has been reclaimed.
    pub fn upgrade(&mut self, weak: &WeakPointer) -> (r: Option<Object>)
        ensures
            final(self).wf() == old(self).wf(),
            r is Some <==> old(self)@.is_current(*weak),
            match r {
                Some(object) => object.pointer().slot() == weak.slot() && object.pointer().epoch()
                    == weak.epoch() && final(self)@ == old(self)@.with_count(
                    weak.slot(),
                    count_up(old(self)@.nodes[weak.slot()].count),
                ),
                None => final(self)@ == old(self)@,
            },
    {
        let r = self.nodes.upgrade(weak);
        match r {
            Some(pointer) => Some(Object::new(pointer)),
            None => None,
        }
    }

    /// The node of a new scene: it carries nothing and stands in the scene
    /// whose number is returned with it.
    pub fn spawn_scene(&mut self) -> (r: (Object, SceneId))
        requires
            old(self).wf(),
            old(self)@.next_scene < u64::MAX,
        ensures
            final(self).wf(),
            made_scene(old(self)@, final(self)@, r.0, r.1),
    {
        let id = self.next_scene;
        let mut node = Node::new(SubNode::Empty);
        node.scene_id = Some(id);
        let pointer = self.nodes.create(node);
        self.next_scene = id + 1;
        (Object::new(pointer), id)
    }

    /// Drains the queue, oldest message first, and then sweeps the store.
    ///
    /// A message whose node has been reclaimed is passed over. A message that
    /// its node refuses, because what the node carries cannot take the
    /// operation, stops the draining: it is dropped, the messages after it
    /// stay in the queue, the store is not swept, and the error is returned.
    pub fn process_messages(&mut self) -> (r: Result<(), OperationError>)
        requires
            old(self).wf(),
        ensures
            final(self).wf(),
            final(self)@ == old(self)@.processed(),
            r is Ok <==> old(self)@.deliverable(),
            r == match old(self)@.refused() {
                Some(error) => Err::<(), OperationError>(error),
                None => Ok::<(), OperationError>(()),
            },
    {
        loop
            invariant
                self.wf(),
                self@.drained() == old(self)@.drained(),
                self@.deliverable() == old(self)@.deliverable(),
                self@.refused() == old(self)@.refused(),
            ensures
                self@.queue.len() == 0,
            decreases self@.queue.len(),
        {
            let ghost before = self@;
            match self.queue.pop_front() {
                None => {
                    break ;
                },
                Some(message) => {
                    if self.nodes.has_weak(&message.target) {
                        let node = self.nodes.value_mut(message.target.index());
                        if let Err(error) = node.apply(message.operation) {
                            assert(self.nodes@ =~= before.nodes);
                            return Err(error);
                        }
                    }
                },
            }
        }
        self.nodes.sweep();
        Ok(())
    }

    /// Resolves the graph: one pass over the nodes that are alive, in store
    /// order, which sets what each is in the world.
    ///
    /// A node without a parent is in the world what it is by itself. A node
    /// whose parent is alive and stands before it takes the parent's resolved
    /// state: it is visible where both are, its transform is `compose` of the
    /// parent's world transform and its own, and its scene is the parent's.
    /// A node whose parent is not there, or stands behind it, is resolved as
    /// if it had none; the number of such nodes is returned.
    pub fn update_graph<F: Fn(Transform, Transform) -> Transform>(&mut self, compose: F) -> (orphaned:
        usize)
        requires
            forall|parent: Transform, child: Transform| compose.requires((parent, child)),
        ensures
            final(self).wf() == old(self).wf(),
            graph_resolved(old(self)@.nodes, final(self)@.nodes, compose),
            final(self)@ == (HubState { nodes: final(self)@.nodes, ..old(self)@ }),
            orphaned == orphans(old(self)@.nodes, old(self)@.nodes.len()),
    {
        let ghost start = self.nodes;
        let count = self.nodes.len();
        let mut orphaned: usize = 0;
        let mut i: usize = 0;
        while i < count
            invariant
                forall|parent: Transform, child: Transform| compose.requires((parent, child)),
                count == start@.len(),
                self.nodes@.len() == count,
                i <= count,
                self.nodes.vacant() == start.vacant(),
                self.queue == old(self).queue,
                self.next_scene == old(self).next_scene,
                orphaned == orphans(start@, i as nat),
                orphaned <= i,
                forall|j: int|
                    0 <= j < count ==> (#[trigger] self.nodes@[j]).count == start@[j].count
                        && self.nodes@[j].epoch == start@[j].epoch && self.nodes@[j].live
                        == start@[j].live,
                forall|j: int| i <= j < count ==> #[trigger] self.nodes@[j] == start@[j],
                forall|j: int|
                    0 <= j < i ==> if start@[j].live {
                        resolves(
                            start@[j].value,
                            (#[trigger] self.nodes@[j]).value,
                            match resolved_parent(start@, j) {
                                Some(p) => Some(self.nodes@[p].value),
                                None => None,
                            },
                            compose,
                        )
                    } else {
                        self.nodes@[j].value == start@[j].value
                    },
            decreases count - i,
        {
            if self.nodes.is_live(i) {
                let node = &self.nodes.slot(i).value;
                let visible = node.visible;
                let local = node.transform;
                let own_scene = node.scene_id;
                let parent: Option<usize> = match node.parent {
                    Some(weak) => {
                        if weak.index() < i && self.nodes.has_weak(&weak) {
                            Some(weak.index())
                        } else {
                            orphaned = orphaned + 1;
                            None
                        }
                    },
                    None => None,
                };
                let (world_visible, world_transform, scene_id) = match parent {
                    Some(p) => {
                        let above = &self.nodes.slot(p).value;
                        (
                            visible && above.world_visible,
                            compose(above.world_transform, local),
                            above.scene_id,
                        )
                    },
                    None => (visible, local, own_scene),
                };
                let node = self.nodes.value_mut(i);
                node.world_visible = world_visible;
                node.world_transform = world_transform;
                node.scene_id = scene_id;
            }
            i = i + 1;
        }
        orphaned
    }

    /// One resolution pass: the messages are processed and then the graph is
    /// resolved. The number of nodes that could not take their world state
    /// from their parent is returned. Where a message is refused, the graph
    /// is left as the messages before it made it, and is not resolved.
    pub fn resolve<F: Fn(Transform, Transform) -> Transform>(&mut self, compose: F) -> (r: Result<
        usize,
        OperationError,
    >)
        requires
            old(self).wf(),
            forall|parent: Transform, child: Transform| compose.requires((parent, child)),
        ensures
            final(self).wf(),
            r is Ok <==> old(self)@.deliverable(),
            match r {
                Ok(orphaned) => {
                    &&& graph_resolved(old(self)@.processed().nodes, final(self)@.nodes, compose)
                    &&& final(self)@ == (HubState {
                        nodes: final(self)@.nodes,
                        ..old(self)@.processed()
                    })
                    &&& orphaned == orphans(
                        old(self)@.processed().nodes,
                        old(self)@.processed().nodes.len(),
                    )
                },
                Err(error) => {
                    &&& Some(error) == old(self)@.refused()
                    &&& final(self)@ == old(self)@.processed()
                },
            },
    {
        match self.process_messages() {
            Ok(()) => Ok(self.update_graph(compose)),
            Err(error) => Err(error),
        }
    }

    /// Marks the vertex data of a dynamic mesh as waiting to be uploaded.
    pub fn update_mesh(&mut self, mesh: &DynamicMesh)
        requires
            old(self)@.contains(mesh.object.pointer()),
            old(self)@.node(mesh.object.pointer().slot()).sub_node is Visual,
        ensures
            final(self).wf() == old(self).wf(),
            final(self)@ == old(self)@.with_node(
                mesh.object.pointer().slot(),
                Node {
                    sub_node: SubNode::Visual(
                        old(self)@.node(mesh.object.pointer().slot()).sub_node->Visual_0,
                        GpuData {
                            pending: Some(mesh.dynamic),
                            ..old(self)@.node(mesh.object.pointer().slot()).sub_node->Visual_1
                        },
                    ),
                    ..old(self)@.node(mesh.object.pointer().slot())
                },
            ),
    {
        let node = self.nodes.get_mut(mesh.object.node());
        if let SubNode::Visual(material, gpu_data) = node.sub_node {
            node.sub_node = SubNode::Visual(
                material,
                GpuData { pending: Some(mesh.dynamic), ..gpu_data },
            );
        }
    }
}

} // verus!
