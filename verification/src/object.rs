//! The handles that client code holds to nodes.

use crate::hub::Hub;
use crate::node::{
    Material, Message, Node, Operation, Scalar, ShadowMap, ShadowProjection, SubLight, SubNode,
};
use crate::store::{NodePointer, WeakPointer};
use vstd::prelude::*;

verus! {

/// A handle to a node: one counted reference to it.
///
/// Every method that changes the node puts an operation in the hub's queue
/// and returns; the node changes when the queue is drained. Another handle
/// to the same node comes from [`Hub::instance`], and a handle is given up
/// through [`Hub::release`].
#[derive(Debug)]
pub struct Object {
    node: NodePointer,
}

/// The kind of a node, as what it carries tells.
#[derive(Clone, Copy, Debug, PartialEq, Eq)]
pub enum ObjectType {
    /// A node that carries nothing.
    Group,
    /// A visual node whose material is no sprite.
    Mesh,
    /// A visual node whose material is a sprite.
    Sprite,
    /// A light, with its kind.
    Light(SubLight),
}

/// The kind of `node`.
pub open spec fn kind_of(node: Node) -> ObjectType {
    match node.sub_node {
        SubNode::Empty => ObjectType::Group,
        SubNode::Visual(material, _) => if material is Sprite {
            ObjectType::Sprite
        } else {
            ObjectType::Mesh
        },
        SubNode::Light(data) => ObjectType::Light(data.sub_light),
    }
}

/// The message that asks for `operation` on the node of `pointer`.
pub open spec fn request(pointer: NodePointer, operation: Operation) -> Message {
    Message { target: pointer.weak(), operation }
}

impl Object {
    /// The strong handle inside.
    pub closed spec fn pointer(&self) -> NodePointer {
        self.node
    }

    /// Wraps a strong handle.
    pub fn new(node: NodePointer) -> (object: Object)
        ensures
            object.pointer() == node,
    {
        Object { node }
    }

    /// The strong handle inside.
    pub fn node(&self) -> (p: &NodePointer)
        ensures
            *p == self.pointer(),
    {
        &self.node
    }

    /// Unwraps the strong handle.
    pub fn into_node(self) -> (p: NodePointer)
        ensures
            p == self.pointer(),
    {
        self.node
    }

    /// A weak handle to the node.
    pub fn downgrade(&self) -> (w: WeakPointer)
        ensures
            w == self.pointer().weak(),
            w.slot() == self.pointer().slot(),
            w.epoch() == self.pointer().epoch(),
    {
        self.node.downgrade()
    }

    /// Asks for `operation` on the node.
    pub fn send(&self, hub: &mut Hub, operation: Operation)
        ensures
            final(hub)@ == old(hub)@.sent(request(self.pointer(), operation)),
            final(hub).wf() == old(hub).wf(),
    {
        hub.send(self.node.downgrade(), operation);
    }

    /// Asks for the node to be shown or hidden.
    pub fn set_visible(&self, hub: &mut Hub, visible: bool)
        ensures
            final(hub)@ == old(hub)@.sent(request(self.pointer(), Operation::SetVisible(visible))),
            final(hub).wf() == old(hub).wf(),
    {
        self.send(hub, Operation::SetVisible(visible));
    }

    /// Asks for the node to be named.
    pub fn set_name(&self, hub: &mut Hub, name: String)
        ensures
            final(hub)@ == old(hub)@.sent(request(self.pointer(), Operation::SetName(name))),
            final(hub).wf() == old(hub).wf(),
    {
        self.send(hub, Operation::SetName(name));
    }

    /// Asks for the node to be put under `parent`, in place of the parent it
    /// has.
    pub fn set_parent(&self, hub: &mut Hub, parent: &Object)
        ensures
            final(hub)@ == old(hub)@.sent(
                request(self.pointer(), Operation::SetParent(parent.pointer().weak())),
            ),
            final(hub).wf() == old(hub).wf(),
    {
        self.send(hub, Operation::SetParent(parent.downgrade()));
    }

    /// Asks for the position, the orientation and the scale to be set.
    pub fn set_transform(
        &self,
        hub: &mut Hub,
        position: [Scalar; 3],
        orientation: [Scalar; 4],
        scale: Scalar,
    )
        ensures
            final(hub)@ == old(hub)@.sent(
                request(
                    self.pointer(),
                    Operation::SetTransform(Some(position), Some(orientation), Some(scale)),
                ),
            ),
            final(hub).wf() == old(hub).wf(),
    {
        self.send(hub, Operation::SetTransform(Some(position), Some(orientation), Some(scale)));
    }

    /// Asks for the position to be set.
    pub fn set_position(&self, hub: &mut Hub, position: [Scalar; 3])
        ensures
            final(hub)@ == old(hub)@.sent(
                request(self.pointer(), Operation::SetTransform(Some(position), None, None)),
            ),
            final(hub).wf() == old(hub).wf(),
    {
        self.send(hub, Operation::SetTransform(Some(position), None, None));
    }

    /// Asks for the orientation to be set.
    pub fn set_orientation(&self, hub: &mut Hub, orientation: [Scalar; 4])
        ensures
            final(hub)@ == old(hub)@.sent(
                request(self.pointer(), Operation::SetTransform(None, Some(orientation), None)),
            ),
            final(hub).wf() == old(hub).wf(),
    {
        self.send(hub, Operation::SetTransform(None, Some(orientation), None));
    }

    /// Asks for the scale to be set.
    pub fn set_scale(&self, hub: &mut Hub, scale: Scalar)
        ensures
            final(hub)@ == old(hub)@.sent(
                request(self.pointer(), Operation::SetTransform(None, None, Some(scale))),
            ),
            final(hub).wf() == old(hub).wf(),
    {
        self.send(hub, Operation::SetTransform(None, None, Some(scale)));
    }
}

/// A handle that stands for one kind of node.
pub trait DowncastObject: Sized {
    /// Whether a node of kind `object_type` can be held as `Self`.
    spec fn admits(object_type: ObjectType) -> bool;

    /// The handle inside.
    spec fn handle(&self) -> Object;

    /// Whether a node of kind `object_type` can be held as `Self`.
    fn accepts(object_type: &ObjectType) -> (r: bool)
        ensures
            r == Self::admits(*object_type),
    ;

    /// Holds `object` as `Self`.
    fn wrap(object: Object) -> (r: Self)
        ensures
            r.handle() == object,
    ;
}

impl DowncastObject for Object {
    open spec fn admits(object_type: ObjectType) -> bool {
        true
    }

    open spec fn handle(&self) -> Object {
        *self
    }

    fn accepts(object_type: &ObjectType) -> (r: bool) {
        true
    }

    fn wrap(object: Object) -> (r: Self) {
        object
    }
}

/// A node that carries nothing and serves to group others.
#[derive(Debug)]
pub struct Group {
    pub object: Object,
}

/// A visual node with a material.
#[derive(Debug)]
pub struct Mesh {
    pub object: Object,
}

/// A textured rectangle that faces the camera.
#[derive(Debug)]
pub struct Sprite {
    pub object: Object,
}

/// A light of any kind.
#[derive(Debug)]
pub struct Light {
    pub object: Object,
}

impl DowncastObject for Group {
    open spec fn admits(object_type: ObjectType) -> bool {
        object_type is Group
    }

    open spec fn handle(&self) -> Object {
        self.object
    }

    fn accepts(object_type: &ObjectType) -> (r: bool) {
        match object_type {
            ObjectType::Group => true,
            _ => false,
        }
    }

    fn wrap(object: Object) -> (r: Self) {
        Group { object }
    }
}

impl DowncastObject for Mesh {
    open spec fn admits(object_type: ObjectType) -> bool {
        object_type is Mesh
    }

    open spec fn handle(&self) -> Object {
        self.object
    }

    fn accepts(object_type: &ObjectType) -> (r: bool) {
        match object_type {
            ObjectType::Mesh => true,
            _ => false,
        }
    }

    fn wrap(object: Object) -> (r: Self) {
        Mesh { object }
    }
}

impl DowncastObject for Sprite {
    open spec fn admits(object_type: ObjectType) -> bool {
        object_type is Sprite
    }

    open spec fn handle(&self) -> Object {
        self.object
    }

    fn accepts(object_type: &ObjectType) -> (r: bool) {
        match object_type {
            ObjectType::Sprite => true,
            _ => false,
        }
    }

    fn wrap(object: Object) -> (r: Self) {
        Sprite { object }
    }
}

impl DowncastObject for Light {
    open spec fn admits(object_type: ObjectType) -> bool {
        object_type is Light
    }

    open spec fn handle(&self) -> Object {
        self.object
    }

    fn accepts(object_type: &ObjectType) -> (r: bool) {
        match object_type {
            ObjectType::Light(_) => true,
            _ => false,
        }
    }

    fn wrap(object: Object) -> (r: Self) {
        Light { object }
    }
}

impl Mesh {
    /// Asks for the material to be replaced.
    pub fn set_material(&self, hub: &mut Hub, material: Material)
        ensures
            final(hub)@ == old(hub)@.sent(
                request(self.object.pointer(), Operation::SetMaterial(material)),
            ),
            final(hub).wf() == old(hub).wf(),
    {
        self.object.send(hub, Operation::SetMaterial(material));
    }
}

impl Sprite {
    /// Asks for a part of the texture to be shown: `base` is its corner and
    /// `size` its extent, in texels.
    pub fn set_texel_range(&self, hub: &mut Hub, base: [i16; 2], size: [u16; 2])
        ensures
            final(hub)@ == old(hub)@.sent(
                request(self.object.pointer(), Operation::SetTexelRange(base, size)),
            ),
            final(hub).wf() == old(hub).wf(),
    {
        self.object.send(hub, Operation::SetTexelRange(base, size));
    }
}

impl Light {
    /// Asks for the light to cast a shadow.
    pub fn set_shadow(&self, hub: &mut Hub, map: ShadowMap, projection: ShadowProjection)
        ensures
            final(hub)@ == old(hub)@.sent(
                request(self.object.pointer(), Operation::SetShadow(map, projection)),
            ),
            final(hub).wf() == old(hub).wf(),
    {
        self.object.send(hub, Operation::SetShadow(map, projection));
    }
}

impl Node {
    /// The kind of the node.
    pub fn object_type(&self) -> (r: ObjectType)
        ensures
            r == kind_of(*self),
    {
        match self.sub_node {
            SubNode::Empty => ObjectType::Group,
            SubNode::Visual(material, _) => match material {
                Material::Sprite { .. } => ObjectType::Sprite,
                _ => ObjectType::Mesh,
            },
            SubNode::Light(data) => ObjectType::Light(data.sub_light),
        }
    }
}

} // verus!
