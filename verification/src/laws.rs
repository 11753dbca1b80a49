//! What holds of the graph across calls, stated over the mathematics that
//! the contracts of the hub and of the scene use.

use crate::hub::{graph_resolved, is_orphan, resolved_parent, HubState};
use crate::node::{refusal, Message, Node, Operation, Transform};
use crate::scene::{head_without, linked, on_list, predecessor, siblings, unlinked};
use crate::store::{count_down, holds, NodePointer, Slot, WeakPointer};
use vstd::prelude::*;

verus! {

/// Draining the queue changes what nodes hold and nothing else of a slot:
/// no node is claimed or reclaimed, and no reference is counted.
pub proof fn lemma_drained_frame(hub: HubState)
    ensures
        hub.drained().nodes.len() == hub.nodes.len(),
        hub.drained().vacant == hub.vacant,
        hub.drained().next_scene == hub.next_scene,
        forall|slot: int|
            0 <= slot < hub.nodes.len() ==> (#[trigger] hub.drained().nodes[slot]).live
                == hub.nodes[slot].live && hub.drained().nodes[slot].epoch == hub.nodes[slot].epoch
                && hub.drained().nodes[slot].count == hub.nodes[slot].count,
        hub.deliverable() ==> hub.drained().queue.len() == 0,
    decreases hub.queue.len(),
{
    if hub.queue.len() > 0 {
        lemma_drained_frame(hub.stepped());
    }
}

/// A queue can be delivered exactly where no message of it is refused.
pub proof fn lemma_deliverable_is_unrefused(hub: HubState)
    ensures
        hub.deliverable() == hub.refused() is None,
    decreases hub.queue.len(),
{
    if hub.queue.len() > 0 && !hub.rejects(hub.queue[0]) {
        lemma_deliverable_is_unrefused(hub.stepped());
    }
}

/// A message sent behind a queue that can be delivered is delivered last, to
/// the state that the queue leaves. Behind a queue that cannot, it waits with
/// the messages that are left.
pub proof fn lemma_sent_is_delivered_last(hub: HubState, message: Message)
    ensures
        hub.deliverable() ==> hub.sent(message).drained() == hub.drained().delivered(message),
        hub.deliverable() ==> hub.sent(message).deliverable() == !hub.drained().rejects(message),
        !hub.deliverable() ==> hub.sent(message).drained() == hub.drained().sent(message),
        !hub.deliverable() ==> !hub.sent(message).deliverable(),
        !hub.deliverable() ==> hub.sent(message).refused() == hub.refused(),
        hub.deliverable() ==> hub.refused() is None && hub.sent(message).refused() == if hub.drained().rejects(
            message,
        ) {
            refusal(hub.drained().node(message.target.slot()), message.operation)
        } else {
            None
        },
    decreases hub.queue.len(),
{
    let sent = hub.sent(message);
    if hub.queue.len() == 0 {
        assert(sent.queue.drop_first() =~= Seq::<Message>::empty());
        assert(hub.queue =~= Seq::<Message>::empty());
        assert(sent.stepped().drained() == sent.stepped());
        assert(sent.stepped().deliverable());
        assert(sent.stepped().refused() is None);
        assert(sent.queue[0] == message);
        assert(sent.rejects(message) == hub.rejects(message));
    } else {
        assert(sent.queue.drop_first() =~= hub.queue.drop_first().push(message));
        if !hub.rejects(hub.queue[0]) {
            lemma_sent_is_delivered_last(hub.stepped(), message);
        }
    }
}

/// After a resolution pass, a node that is alive and takes its world state
/// from its parent is visible in the world exactly where it is visible itself
/// and its parent is visible in the world; a node without a parent is
/// visible in the world exactly where it is visible itself.
pub proof fn law_world_visibility<F: Fn(Transform, Transform) -> Transform>(
    before: Seq<Slot<Node>>,
    after: Seq<Slot<Node>>,
    compose: F,
    slot: int,
)
    requires
        graph_resolved(before, after, compose),
        0 <= slot < after.len(),
        after[slot].live,
        !is_orphan(after, slot),
    ensures
        after[slot].value.world_visible == (after[slot].value.visible && (
        after[slot].value.parent is None
            || after[after[slot].value.parent->0.slot()].value.world_visible)),
{
}

/// After a resolution pass, the world transform of a node that is alive and
/// takes its world state from its parent is `compose` of the parent's world
/// transform and its own transform; that of a node without a parent is its
/// own transform.
pub proof fn law_world_transform<F: Fn(Transform, Transform) -> Transform>(
    before: Seq<Slot<Node>>,
    after: Seq<Slot<Node>>,
    compose: F,
    slot: int,
)
    requires
        graph_resolved(before, after, compose),
        0 <= slot < after.len(),
        after[slot].live,
        !is_orphan(after, slot),
    ensures
        match after[slot].value.parent {
            Some(parent) => compose.ensures(
                (after[parent.slot()].value.world_transform, after[slot].value.transform),
                after[slot].value.world_transform,
            ),
            None => after[slot].value.world_transform == after[slot].value.transform,
        },
{
}

/// After a resolution pass, a node that is alive and has a parent from which
/// it cannot take its world state, because the parent has been reclaimed or
/// stands behind it in the store, is in the world what it is by itself.
pub proof fn law_orphan_is_its_own_root<F: Fn(Transform, Transform) -> Transform>(
    before: Seq<Slot<Node>>,
    after: Seq<Slot<Node>>,
    compose: F,
    slot: int,
)
    requires
        graph_resolved(before, after, compose),
        0 <= slot < after.len(),
        is_orphan(after, slot),
    ensures
        after[slot].value.world_visible == after[slot].value.visible,
        after[slot].value.world_transform == after[slot].value.transform,
        after[slot].value.scene_id == before[slot].value.scene_id,
{
}

/// The node that stands `steps` parents above the node in slot `slot`, going
/// from each node to the parent it takes its world state from.
pub open spec fn resolved_ancestor(nodes: Seq<Slot<Node>>, slot: int, steps: nat) -> Option<int>
    decreases steps,
{
    if steps == 0 {
        Some(slot)
    } else {
        match resolved_parent(nodes, slot) {
            Some(parent) => resolved_ancestor(nodes, parent, (steps - 1) as nat),
            None => None,
        }
    }
}

/// After a resolution pass, a node is hidden in the world where it or any
/// node above it is hidden, however far above.
pub proof fn law_hidden_ancestor_hides<F: Fn(Transform, Transform) -> Transform>(
    before: Seq<Slot<Node>>,
    after: Seq<Slot<Node>>,
    compose: F,
    slot: int,
    steps: nat,
)
    requires
        graph_resolved(before, after, compose),
        0 <= slot < after.len(),
        after[slot].live,
        resolved_ancestor(after, slot, steps) is Some,
        !after[resolved_ancestor(after, slot, steps)->0].value.visible,
    ensures
        !after[slot].value.world_visible,
    decreases steps,
{
    if steps > 0 {
        let parent = resolved_parent(after, slot)->0;
        law_hidden_ancestor_hides(before, after, compose, parent, (steps - 1) as nat);
    }
}

/// A node to which no reference is counted is gone after the messages are
/// processed: it is not alive, and no handle made before names it. This is
/// what becomes of a node once every handle to it has been given up.
pub proof fn law_unreferenced_is_reclaimed(hub: HubState, slot: int, epoch: u64)
    requires
        hub.deliverable(),
        holds(hub.nodes, slot, epoch),
        hub.nodes[slot].count == 0,
    ensures
        !hub.processed().nodes[slot].live,
        !holds(hub.processed().nodes, slot, epoch),
{
    lemma_drained_frame(hub);
}

/// The count of references to a node is no matter to the delivery of
/// messages: with another count the queue is drained to the same state, but
/// for that count.
pub proof fn lemma_count_is_no_matter(hub: HubState, slot: int, count: u64)
    requires
        0 <= slot < hub.nodes.len(),
    ensures
        hub.with_count(slot, count).deliverable() == hub.deliverable(),
        hub.with_count(slot, count).drained() == hub.drained().with_count(slot, count),
    decreases hub.queue.len(),
{
    let other = hub.with_count(slot, count);
    if hub.queue.len() > 0 {
        let message = hub.queue[0];
        assert(other.delivered(message).nodes =~= hub.delivered(message).with_count(
            slot,
            count,
        ).nodes);
        lemma_count_is_no_matter(hub.stepped(), slot, count);
    }
}

/// Giving up the only handle to a node and processing the messages removes
/// the node: it is not alive afterwards, and the handle no longer names it.
pub proof fn law_last_release_removes(hub: HubState, pointer: NodePointer)
    requires
        hub.deliverable(),
        hub.contains(pointer),
        hub.nodes[pointer.slot()].count == 1,
    ensures
        !hub.with_count(pointer.slot(), count_down(1)).processed().nodes[pointer.slot()].live,
        !hub.with_count(pointer.slot(), count_down(1)).processed().contains(pointer),
{
    let released = hub.with_count(pointer.slot(), count_down(1));
    lemma_count_is_no_matter(hub, pointer.slot(), count_down(1));
    law_unreferenced_is_reclaimed(released, pointer.slot(), pointer.epoch());
}

/// A node to which a reference is counted outlives the processing of the
/// messages, and every handle to it stays good.
pub proof fn law_referenced_is_kept(hub: HubState, slot: int, epoch: u64)
    requires
        holds(hub.nodes, slot, epoch),
        hub.nodes[slot].count > 0,
    ensures
        holds(hub.processed().nodes, slot, epoch),
        hub.processed().nodes[slot].count == hub.nodes[slot].count,
{
    lemma_drained_frame(hub);
}

/// Of two messages sent one after the other to a node, the later one wins:
/// a node told to be visible and then to be hidden is hidden once the
/// messages are processed, whatever was in the queue before.
pub proof fn law_last_write_wins(hub: HubState, target: WeakPointer)
    requires
        hub.deliverable(),
        hub.is_current(target),
    ensures
        hub.sent(Message { target, operation: Operation::SetVisible(true) }).sent(
            Message { target, operation: Operation::SetVisible(false) },
        ).deliverable(),
        !hub.sent(Message { target, operation: Operation::SetVisible(true) }).sent(
            Message { target, operation: Operation::SetVisible(false) },
        ).processed().node(target.slot()).visible,
{
    let show = Message { target, operation: Operation::SetVisible(true) };
    let hide = Message { target, operation: Operation::SetVisible(false) };
    lemma_sent_is_delivered_last(hub, show);
    lemma_sent_is_delivered_last(hub.sent(show), hide);
    lemma_drained_frame(hub.sent(show).sent(hide));
}

/// The later of two messages still wins after the graph is resolved: the
/// resolution pass leaves what the messages set as it is.
pub proof fn law_last_write_wins_resolved<F: Fn(Transform, Transform) -> Transform>(
    hub: HubState,
    target: WeakPointer,
    after: Seq<Slot<Node>>,
    compose: F,
)
    requires
        hub.deliverable(),
        hub.is_current(target),
        graph_resolved(
            hub.sent(Message { target, operation: Operation::SetVisible(true) }).sent(
                Message { target, operation: Operation::SetVisible(false) },
            ).processed().nodes,
            after,
            compose,
        ),
    ensures
        !after[target.slot()].value.visible,
        !after[target.slot()].value.world_visible || !after[target.slot()].live,
{
    let show = Message { target, operation: Operation::SetVisible(true) };
    let hide = Message { target, operation: Operation::SetVisible(false) };
    law_last_write_wins(hub, target);
    lemma_drained_frame(hub.sent(show).sent(hide));
}

/// A message for a node that has been reclaimed is passed over: it is not
/// refused, and the messages are processed to the same nodes, alive and
/// reclaimed, as without it. Where no message is refused, the whole state is
/// the same as without it.
pub proof fn law_stale_message_is_passed_over(hub: HubState, message: Message)
    requires
        !hub.is_current(message.target),
    ensures
        hub.sent(message).deliverable() == hub.deliverable(),
        hub.sent(message).refused() == hub.refused(),
        hub.sent(message).processed().nodes == hub.processed().nodes,
        hub.sent(message).processed().vacant == hub.processed().vacant,
        hub.deliverable() ==> hub.sent(message).processed() == hub.processed(),
{
    lemma_drained_frame(hub);
    lemma_sent_is_delivered_last(hub, message);
}

/// The list from `first` does not change where a node that is not on it is
/// given another next sibling, or where references are counted anew.
proof fn lemma_siblings_skip(
    nodes: Seq<Slot<Node>>,
    changed: Seq<Slot<Node>>,
    first: Option<NodePointer>,
    fuel: nat,
    slot: int,
)
    requires
        changed.len() == nodes.len(),
        forall|j: int|
            0 <= j < nodes.len() ==> (#[trigger] changed[j]).live == nodes[j].live
                && changed[j].epoch == nodes[j].epoch,
        forall|j: int|
            0 <= j < nodes.len() && j != slot ==> (#[trigger] changed[j]).value == nodes[j].value,
        !siblings(nodes, first, fuel).contains(slot),
    ensures
        siblings(changed, first, fuel) == siblings(nodes, first, fuel),
    decreases fuel,
{
    match first {
        Some(pointer) => {
            if fuel > 0 && holds(nodes, pointer.slot(), pointer.epoch()) {
                let rest = siblings(
                    nodes,
                    nodes[pointer.slot()].value.next_sibling,
                    (fuel - 1) as nat,
                );
                assert(siblings(nodes, first, fuel)[0] == pointer.slot());
                assert forall|k: int| 0 <= k < rest.len() implies rest[k] != slot by {
                    assert(siblings(nodes, first, fuel)[k + 1] == rest[k]);
                }
                lemma_siblings_skip(
                    nodes,
                    changed,
                    nodes[pointer.slot()].value.next_sibling,
                    (fuel - 1) as nat,
                    slot,
                );
            }
        },
        None => {},
    }
}

/// Putting a node at the head of a scene's list and taking it from the list
/// at once leaves the list as it was: the same head, and the same nodes in
/// the same order. The node is left without a next sibling, so that putting
/// it on a list again is no overwriting. The node must not have been on the
/// list before.
pub proof fn law_add_then_remove(hub: HubState, first: Option<NodePointer>, child: NodePointer)
    requires
        hub.contains(child),
        !siblings(hub.nodes, first, hub.nodes.len()).contains(child.slot()),
    ensures
        on_list(linked(hub, first, child), Some(child), child),
        head_without(linked(hub, first, child), Some(child), child) == first,
        siblings(
            unlinked(linked(hub, first, child), Some(child), child).nodes,
            first,
            hub.nodes.len(),
        ) == siblings(hub.nodes, first, hub.nodes.len()),
        unlinked(linked(hub, first, child), Some(child), child).node(
            child.slot(),
        ).next_sibling is None,
{
    let added = linked(hub, first, child);
    let removed = unlinked(added, Some(child), child);
    lemma_siblings_skip(hub.nodes, removed.nodes, first, hub.nodes.len(), child.slot());
}

/// The node before another on a list is a node of the store.
proof fn lemma_predecessor_exists(
    nodes: Seq<Slot<Node>>,
    first: Option<NodePointer>,
    target: NodePointer,
    fuel: nat,
)
    ensures
        predecessor(nodes, first, target, fuel) matches Some(before) ==> 0 <= before < nodes.len(),
    decreases fuel,
{
    match first {
        Some(pointer) => {
            if fuel > 0 && holds(nodes, pointer.slot(), pointer.epoch()) {
                lemma_predecessor_exists(
                    nodes,
                    nodes[pointer.slot()].value.next_sibling,
                    target,
                    (fuel - 1) as nat,
                );
            }
        },
        None => {},
    }
}

/// A node that has been taken from a scene's list has no next sibling.
pub proof fn law_removed_has_no_link(hub: HubState, first: Option<NodePointer>, child: NodePointer)
    requires
        hub.contains(child),
        on_list(hub, first, child),
    ensures
        unlinked(hub, first, child).node(child.slot()).next_sibling is None,
{
    lemma_predecessor_exists(hub.nodes, first, child, hub.nodes.len());
}

} // verus!
