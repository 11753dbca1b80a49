//! Nodes of the graph, what they carry, and the operations that change them.

use crate::store::{NodePointer, WeakPointer};
use vstd::prelude::*;

verus! {

/// A single-precision number, held as its IEEE 754 bit pattern. The graph
/// stores and copies such numbers and never does arithmetic on them.
pub type Scalar = u32;

/// The bit pattern of `0.0`.
pub const ZERO: Scalar = 0;

/// The bit pattern of `1.0`.
pub const ONE: Scalar = 0x3F80_0000;

/// A colour as `0xRRGGBB`.
pub type Color = u32;

/// The number by which a scene is told from the others.
pub type SceneId = u64;

/// Scale, then rotation, then translation.
#[derive(Clone, Copy, Debug, PartialEq, Eq)]
pub struct Transform {
    /// The translation, as `[x, y, z]`.
    pub position: [Scalar; 3],
    /// The rotation, as the quaternion `[x, y, z, w]`.
    pub orientation: [Scalar; 4],
    /// The uniform scale.
    pub scale: Scalar,
}

/// A rectangle of texels: its corner and its extent.
#[derive(Clone, Copy, Debug, PartialEq, Eq)]
pub struct TexelRange {
    /// The corner, as `[x, y]`.
    pub base: [i16; 2],
    /// The extent, as `[width, height]`.
    pub size: [u16; 2],
}

/// A texture held by the renderer.
#[derive(Clone, Copy, Debug, PartialEq, Eq)]
pub struct Texture {
    /// The renderer's name for the image.
    pub id: u64,
    /// The part of the image that is shown; `None` is all of it.
    pub range: Option<TexelRange>,
}

/// How a visual node is shaded.
#[allow(inconsistent_fields)]
#[derive(Clone, Copy, Debug, PartialEq, Eq)]
pub enum Material {
    /// A plain colour, with a texture or without.
    Basic { color: Color, map: Option<Texture> },
    /// Diffuse shading.
    Lambert { color: Color, flat: bool },
    /// Diffuse and specular shading.
    Phong { color: Color, glossiness: Scalar },
    /// A textured rectangle that faces the camera.
    Sprite { map: Texture },
}

/// How many morph targets a mesh can be displaced by.
pub const MAX_TARGETS: usize = 8;

/// What a morph target displaces.
#[derive(Clone, Copy, Debug, PartialEq, Eq)]
pub enum Target {
    Position,
    Normal,
    Tangent,
    Unused,
}

/// How much one morph target adds to the position, the normal and the
/// tangent of each vertex.
#[derive(Clone, Copy, Debug, PartialEq, Eq)]
pub struct DisplacementContribution {
    pub position: Scalar,
    pub normal: Scalar,
    pub tangent: Scalar,
}

/// The geometry of a visual node, as the renderer holds it.
#[derive(Clone, Copy, Debug, PartialEq, Eq)]
pub struct GpuData {
    /// The renderer's name for the vertex data, which instances share.
    pub vertices: u64,
    /// The renderer's name for the constants of this one node.
    pub constants: u64,
    /// New vertex data that waits to be uploaded.
    pub pending: Option<DynamicData>,
    /// What each morph target adds.
    pub displacement_contributions: [DisplacementContribution; MAX_TARGETS],
}

/// Vertex data that is written on the CPU side.
#[derive(Clone, Copy, Debug, PartialEq, Eq)]
pub struct DynamicData {
    /// How many vertices the buffer holds.
    pub num_vertices: usize,
    /// The renderer's name for the upload buffer.
    pub buffer: u64,
}

/// The kind of a light.
#[derive(Clone, Copy, Debug, PartialEq, Eq)]
pub enum SubLight {
    Ambient,
    Directional,
    Hemisphere { ground: Color },
    Point,
}

/// A depth target held by the renderer.
#[derive(Clone, Copy, Debug, PartialEq, Eq)]
pub struct ShadowMap {
    /// The renderer's name for the target.
    pub id: u64,
}

/// An orthographic projection.
#[derive(Clone, Copy, Debug, PartialEq, Eq)]
pub struct Orthographic {
    /// The centre of the view, as `[x, y]`.
    pub center: [Scalar; 2],
    /// Half the height of the view.
    pub extent_y: Scalar,
    /// The near and far planes.
    pub range: [Scalar; 2],
}

/// How a light's shadow is projected.
#[derive(Clone, Copy, Debug, PartialEq, Eq)]
pub enum ShadowProjection {
    Ortho(Orthographic),
}

/// What a light node carries.
#[derive(Clone, Copy, Debug, PartialEq, Eq)]
pub struct LightData {
    pub color: Color,
    pub intensity: Scalar,
    pub sub_light: SubLight,
    pub shadow: Option<(ShadowMap, ShadowProjection)>,
}

/// What a node carries besides its place in the graph.
#[derive(Clone, Copy, Debug, PartialEq, Eq)]
pub enum SubNode {
    /// Nothing: a group, a camera, a scene.
    Empty,
    /// Something that is drawn.
    Visual(Material, GpuData),
    /// A light.
    Light(LightData),
}

/// A node of the graph.
///
/// The world fields are derived: they are as of the last resolution pass.
#[derive(Debug)]
pub struct Node {
    /// Whether the node itself is shown.
    pub visible: bool,
    /// Whether the node is shown, its ancestors taken into account.
    pub world_visible: bool,
    /// The node's place relative to its parent.
    pub transform: Transform,
    /// The node's place in the world.
    pub world_transform: Transform,
    /// The parent: a reference back, which keeps nothing alive.
    pub parent: Option<WeakPointer>,
    /// The next node in the list of a scene's top-level nodes.
    pub next_sibling: Option<NodePointer>,
    /// The scene in whose subtree the node stands.
    pub scene_id: Option<SceneId>,
    /// The name by which the node is searched for.
    pub name: Option<String>,
    /// What the node carries.
    pub sub_node: SubNode,
}

/// A change to one node, made when the queue is drained. Each variant holds
/// what it sets and nothing of the state before.
#[derive(Debug)]
pub enum Operation {
    /// Gives the node a parent, in place of the one it had.
    SetParent(WeakPointer),
    /// Shows or hides the node.
    SetVisible(bool),
    /// Sets the position, the orientation and the scale, each where given.
    SetTransform(Option<[Scalar; 3]>, Option<[Scalar; 4]>, Option<Scalar>),
    /// Names the node.
    SetName(String),
    /// Replaces the material of a visual node.
    SetMaterial(Material),
    /// Shows a part of a sprite's texture: the corner and the extent.
    SetTexelRange([i16; 2], [u16; 2]),
    /// Gives a light a shadow.
    SetShadow(ShadowMap, ShadowProjection),
}

/// An operation and the node it is meant for.
#[derive(Debug)]
pub struct Message {
    pub target: WeakPointer,
    pub operation: Operation,
}

/// Why an operation was refused: what the node carries cannot take it.
#[derive(Clone, Copy, Debug, PartialEq, Eq)]
pub enum OperationError {
    /// A material was set on a node that is not drawn.
    NotVisual,
    /// A texel range was set on a node that is no sprite: it is not drawn, or
    /// its material is another.
    UnsupportedMaterial,
    /// A shadow was set on a node that is no light.
    NotLight,
}

impl OperationError {
    /// The error in words.
    pub fn message(&self) -> (text: &'static str)
        ensures
            text@ == match *self {
                OperationError::NotVisual => "Material request for a node that is not drawn"@,
                OperationError::UnsupportedMaterial => "Unsupported material for texel range request"@,
                OperationError::NotLight => "Shadow request for a node that is no light"@,
            },
    {
        match self {
            OperationError::NotVisual => "Material request for a node that is not drawn",
            OperationError::UnsupportedMaterial => "Unsupported material for texel range request",
            OperationError::NotLight => "Shadow request for a node that is no light",
        }
    }
}

/// What a morph target of the given kind adds: all of what it displaces and
/// nothing of the rest.
pub open spec fn contribution_of(target: Target) -> DisplacementContribution {
    DisplacementContribution {
        position: if target is Position {
            ONE
        } else {
            ZERO
        },
        normal: if target is Normal {
            ONE
        } else {
            ZERO
        },
        tangent: if target is Tangent {
            ONE
        } else {
            ZERO
        },
    }
}

impl DisplacementContribution {
    /// What a morph target of the given kind adds.
    pub fn of(target: Target) -> (contribution: DisplacementContribution)
        ensures
            contribution == contribution_of(target),
    {
        let mut contribution = DisplacementContribution { position: ZERO, normal: ZERO, tangent: ZERO };
        match target {
            Target::Position => {
                contribution.position = ONE;
            },
            Target::Normal => {
                contribution.normal = ONE;
            },
            Target::Tangent => {
                contribution.tangent = ONE;
            },
            Target::Unused => {},
        }
        contribution
    }
}

/// Whether `gpu_data` is geometry that the given morph targets displace,
/// each adding all of what it displaces, and that waits for no upload.
pub open spec fn targeted(
    gpu_data: GpuData,
    vertices: u64,
    constants: u64,
    targets: [Target; MAX_TARGETS],
) -> bool {
    &&& gpu_data.vertices == vertices
    &&& gpu_data.constants == constants
    &&& gpu_data.pending is None
    &&& forall|i: int|
        0 <= i < MAX_TARGETS ==> #[trigger] gpu_data.displacement_contributions[i]
            == contribution_of(targets[i])
}

/// Whether `gpu_data` is geometry that no morph target displaces and that
/// waits for no upload.
pub open spec fn untargeted(gpu_data: GpuData, vertices: u64, constants: u64) -> bool {
    &&& gpu_data.vertices == vertices
    &&& gpu_data.constants == constants
    &&& gpu_data.pending is None
    &&& forall|i: int|
        0 <= i < MAX_TARGETS ==> #[trigger] gpu_data.displacement_contributions[i]
            == contribution_of(Target::Unused)
}

impl GpuData {
    /// Geometry that no morph target displaces and that waits for no upload.
    pub fn new(vertices: u64, constants: u64) -> (gpu_data: GpuData)
        ensures
            untargeted(gpu_data, vertices, constants),
    {
        let targets = [Target::Unused; MAX_TARGETS];
        GpuData::with_targets(vertices, constants, targets)
    }

    /// Geometry that the given morph targets displace and that waits for no
    /// upload.
    pub fn with_targets(vertices: u64, constants: u64, targets: [Target; MAX_TARGETS]) -> (gpu_data:
        GpuData)
        ensures
            targeted(gpu_data, vertices, constants, targets),
    {
        let mut contributions = [DisplacementContribution::of(Target::Unused); MAX_TARGETS];
        let mut i: usize = 0;
        while i < MAX_TARGETS
            invariant
                i <= MAX_TARGETS,
                forall|j: int| 0 <= j < i ==> contributions[j] == contribution_of(targets[j]),
            decreases MAX_TARGETS - i,
        {
            contributions[i] = DisplacementContribution::of(targets[i]);
            i = i + 1;
        }
        GpuData { vertices, constants, pending: None, displacement_contributions: contributions }
    }
}

impl Transform {
    /// The transform that changes nothing: no translation, no rotation,
    /// scale one.
    pub fn identity() -> (t: Transform)
        ensures
            is_identity(t),
    {
        Transform { position: [ZERO, ZERO, ZERO], orientation: [ZERO, ZERO, ZERO, ONE], scale: ONE }
    }
}

/// Why `node` refuses `operation`, or `None` where it takes it. An operation
/// on what a node carries is refused by every node that carries something
/// else: a material by a node that is not drawn, a texel range by a node that
/// is no sprite, a shadow by a node that is no light. Every other operation
/// is taken by every node.
pub open spec fn refusal(node: Node, operation: Operation) -> Option<OperationError> {
    match operation {
        Operation::SetMaterial(_) => if node.sub_node is Visual {
            None
        } else {
            Some(OperationError::NotVisual)
        },
        Operation::SetTexelRange(_, _) => match node.sub_node {
            SubNode::Visual(Material::Sprite { .. }, _) => None,
            _ => Some(OperationError::UnsupportedMaterial),
        },
        Operation::SetShadow(_, _) => if node.sub_node is Light {
            None
        } else {
            Some(OperationError::NotLight)
        },
        _ => None,
    }
}

/// Whether `node` takes `operation`.
pub open spec fn accepts(node: Node, operation: Operation) -> bool {
    refusal(node, operation) is None
}

/// The transform with the given parts put in place of its own.
pub open spec fn patched(
    transform: Transform,
    position: Option<[Scalar; 3]>,
    orientation: Option<[Scalar; 4]>,
    scale: Option<Scalar>,
) -> Transform {
    Transform {
        position: match position {
            Some(p) => p,
            None => transform.position,
        },
        orientation: match orientation {
            Some(o) => o,
            None => transform.orientation,
        },
        scale: match scale {
            Some(s) => s,
            None => transform.scale,
        },
    }
}

/// What a node carries after an operation that it takes: a material goes to
/// a visual node, a texel range to a sprite, a shadow to a light.
pub open spec fn applied_sub_node(sub_node: SubNode, operation: Operation) -> SubNode {
    match (operation, sub_node) {
        (Operation::SetMaterial(material), SubNode::Visual(_, gpu_data)) => SubNode::Visual(
            material,
            gpu_data,
        ),
        (
            Operation::SetTexelRange(base, size),
            SubNode::Visual(Material::Sprite { map }, gpu_data),
        ) => SubNode::Visual(
            Material::Sprite {
                map: Texture { id: map.id, range: Some(TexelRange { base, size }) },
            },
            gpu_data,
        ),
        (Operation::SetShadow(map, projection), SubNode::Light(data)) => SubNode::Light(
            LightData { shadow: Some((map, projection)), ..data },
        ),
        _ => sub_node,
    }
}

/// The node after `operation`. The world fields and the sibling link are
/// never touched.
pub open spec fn applied(node: Node, operation: Operation) -> Node {
    match operation {
        Operation::SetParent(parent) => Node { parent: Some(parent), ..node },
        Operation::SetVisible(visible) => Node { visible, ..node },
        Operation::SetTransform(position, orientation, scale) => Node {
            transform: patched(node.transform, position, orientation, scale),
            ..node
        },
        Operation::SetName(name) => Node { name: Some(name), ..node },
        _ => Node { sub_node: applied_sub_node(node.sub_node, operation), ..node },
    }
}

/// Whether `transform` changes nothing: no translation, no rotation, scale
/// one.
pub open spec fn is_identity(transform: Transform) -> bool {
    &&& transform.position@ == seq![ZERO, ZERO, ZERO]
    &&& transform.orientation@ == seq![ZERO, ZERO, ZERO, ONE]
    &&& transform.scale == ONE
}

/// Whether `node` is as a new node that carries `sub_node`: visible, not yet
/// resolved, in place, with no parent, no sibling, no scene and no name.
pub open spec fn is_fresh(node: Node, sub_node: SubNode) -> bool {
    &&& node.visible
    &&& !node.world_visible
    &&& is_identity(node.transform)
    &&& node.world_transform == node.transform
    &&& node.parent is None
    &&& node.next_sibling is None
    &&& node.scene_id is None
    &&& node.name is None
    &&& node.sub_node == sub_node
}

impl Node {
    /// A new node that carries `sub_node`.
    pub fn new(sub_node: SubNode) -> (node: Node)
        ensures
            is_fresh(node, sub_node),
    {
        let transform = Transform::identity();
        Node {
            visible: true,
            world_visible: false,
            transform,
            world_transform: transform,
            parent: None,
            next_sibling: None,
            scene_id: None,
            name: None,
            sub_node,
        }
    }

    /// Applies `operation` to the node, or refuses it and leaves the node as
    /// it was.
    pub fn apply(&mut self, operation: Operation) -> (r: Result<(), OperationError>)
        ensures
            r == match refusal(*old(self), operation) {
                Some(error) => Err::<(), OperationError>(error),
                None => Ok::<(), OperationError>(()),
            },
            r is Ok ==> *final(self) == applied(*old(self), operation),
            r is Err ==> *final(self) == *old(self),
    {
        match operation {
            Operation::SetParent(parent) => {
                self.parent = Some(parent);
            },
            Operation::SetVisible(visible) => {
                self.visible = visible;
            },
            Operation::SetTransform(position, orientation, scale) => {
                if let Some(p) = position {
                    self.transform.position = p;
                }
                if let Some(o) = orientation {
                    self.transform.orientation = o;
                }
                if let Some(s) = scale {
                    self.transform.scale = s;
                }
            },
            Operation::SetName(name) => {
                self.name = Some(name);
            },
            Operation::SetMaterial(material) => {
                match self.sub_node {
                    SubNode::Visual(_, gpu_data) => {
                        self.sub_node = SubNode::Visual(material, gpu_data);
                    },
                    _ => {
                        return Err(OperationError::NotVisual);
                    },
                }
            },
            Operation::SetTexelRange(base, size) => {
                match self.sub_node {
                    SubNode::Visual(Material::Sprite { map }, gpu_data) => {
                        self.sub_node = SubNode::Visual(
                            Material::Sprite {
                                map: Texture { id: map.id, range: Some(TexelRange { base, size }) },
                            },
                            gpu_data,
                        );
                    },
                    _ => {
                        return Err(OperationError::UnsupportedMaterial);
                    },
                }
            },
            Operation::SetShadow(map, projection) => {
                match self.sub_node {
                    SubNode::Light(data) => {
                        self.sub_node = SubNode::Light(
                            LightData { shadow: Some((map, projection)), ..data },
                        );
                    },
                    _ => {
                        return Err(OperationError::NotLight);
                    },
                }
            },
        }
        Ok(())
    }
}

} // verus!
