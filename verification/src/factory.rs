//! The maker of nodes: it owns the hub and puts a node of each kind in it.
//!
//! What the renderer holds for a node (vertex data, constants, textures) is
//! made elsewhere and named here by number.

use crate::hub::{made, made_scene, DynamicMesh, Hub};
use crate::node::{
    targeted, untargeted, Color, DynamicData, GpuData, LightData, Material, Node, Orthographic,
    Scalar, SubLight, SubNode, Target, Texture, MAX_TARGETS,
};
use crate::object::{Group, Light, Mesh, Object, Sprite};
use crate::path::{concat_path, is_concat};
use crate::scene::{Background, Scene};
use crate::texture::{
    extension, format_of_extension, to_lowercase, told_by, FormatError, ImageFormat,
};
use std::borrow::Cow;
use std::path::Path;
use vstd::prelude::*;

verus! {

/// The maker of nodes.
pub struct Factory {
    /// The hub that the nodes are put in.
    pub hub: Hub,
}

/// A projection with perspective.
#[derive(Clone, Copy, Debug, PartialEq, Eq)]
pub struct Perspective {
    /// The vertical field of view, in degrees.
    pub fov_y: Scalar,
    /// The near and far planes.
    pub range: [Scalar; 2],
}

/// A node from which a scene is looked at, with its projection.
#[derive(Debug)]
pub struct Camera<P> {
    pub object: Object,
    /// The settings of the projection.
    pub projection: P,
}

/// A bone of a skeleton: a node that carries nothing.
#[derive(Debug)]
pub struct Bone {
    pub object: Object,
}

/// A material as a Wavefront material file describes it.
#[derive(Debug)]
pub struct ObjMaterial {
    /// The diffuse colour.
    pub kd: Option<Color>,
    /// The glossiness.
    pub ns: Option<Scalar>,
    /// The name of the file that holds the diffuse texture.
    pub map_kd: Option<String>,
}

/// What a light carries when it is made: no shadow.
pub open spec fn light_of(color: Color, intensity: Scalar, sub_light: SubLight) -> SubNode {
    SubNode::Light(LightData { color, intensity, sub_light, shadow: None })
}

impl Factory {
    /// A factory with a hub of its own, without nodes.
    pub fn new() -> (factory: Factory)
        ensures
            factory.hub.wf(),
            factory.hub@.nodes.len() == 0,
            factory.hub@.vacant.len() == 0,
            factory.hub@.queue.len() == 0,
            factory.hub@.next_scene == 0,
    {
        Factory { hub: Hub::new() }
    }

    /// A new scene with a black background and no top-level node.
    pub fn scene(&mut self) -> (scene: Scene)
        requires
            old(self).hub.wf(),
            old(self).hub@.next_scene < u64::MAX,
        ensures
            final(self).hub.wf(),
            scene.first_child() is None,
            scene.backdrop() == Background::Color(0),
            made_scene(old(self).hub@, final(self).hub@, scene.root(), scene.id()),
    {
        Scene::new(&mut self.hub)
    }

    /// A bone of a skeleton.
    pub fn bone(&mut self) -> (bone: Bone)
        requires
            old(self).hub.wf(),
        ensures
            final(self).hub.wf(),
            made(old(self).hub@, final(self).hub@, bone.object, SubNode::Empty),
    {
        Bone { object: self.hub.spawn_empty() }
    }

    /// A node that carries nothing and serves to group others.
    pub fn group(&mut self) -> (group: Group)
        requires
            old(self).hub.wf(),
        ensures
            final(self).hub.wf(),
            made(old(self).hub@, final(self).hub@, group.object, SubNode::Empty),
    {
        Group { object: self.hub.spawn_empty() }
    }

    /// A camera for flat scenes.
    pub fn orthographic_camera(&mut self, projection: Orthographic) -> (camera: Camera<Orthographic>)
        requires
            old(self).hub.wf(),
        ensures
            final(self).hub.wf(),
            camera.projection == projection,
            made(old(self).hub@, final(self).hub@, camera.object, SubNode::Empty),
    {
        Camera { object: self.hub.spawn_empty(), projection }
    }

    /// A camera with perspective.
    pub fn perspective_camera(&mut self, projection: Perspective) -> (camera: Camera<Perspective>)
        requires
            old(self).hub.wf(),
        ensures
            final(self).hub.wf(),
            camera.projection == projection,
            made(old(self).hub@, final(self).hub@, camera.object, SubNode::Empty),
    {
        Camera { object: self.hub.spawn_empty(), projection }
    }

    /// A mesh with the geometry that the renderer holds as `vertices`, and
    /// with constants of its own. No morph target displaces it.
    pub fn mesh(&mut self, vertices: u64, constants: u64, material: Material) -> (mesh: Mesh)
        requires
            old(self).hub.wf(),
        ensures
            final(self).hub.wf(),
            made(
                old(self).hub@,
                final(self).hub@,
                mesh.object,
                final(self).hub@.node(mesh.object.pointer().slot()).sub_node,
            ),
            final(self).hub@.node(mesh.object.pointer().slot()).sub_node matches SubNode::Visual(
                shading,
                gpu_data,
            ) && shading == material && untargeted(gpu_data, vertices, constants),
    {
        let gpu_data = GpuData::new(vertices, constants);
        Mesh { object: self.hub.spawn_visual(material, gpu_data) }
    }

    /// A mesh with the geometry that the renderer holds as `vertices`, with
    /// constants of its own, and displaced by the given morph targets: each
    /// adds all of what it displaces.
    pub fn mesh_with_targets(
        &mut self,
        vertices: u64,
        constants: u64,
        material: Material,
        targets: [Target; MAX_TARGETS],
    ) -> (mesh: Mesh)
        requires
            old(self).hub.wf(),
        ensures
            final(self).hub.wf(),
            made(
                old(self).hub@,
                final(self).hub@,
                mesh.object,
                final(self).hub@.node(mesh.object.pointer().slot()).sub_node,
            ),
            final(self).hub@.node(mesh.object.pointer().slot()).sub_node matches SubNode::Visual(
                shading,
                gpu_data,
            ) && shading == material && targeted(gpu_data, vertices, constants, targets),
    {
        let gpu_data = GpuData::with_targets(vertices, constants, targets);
        Mesh { object: self.hub.spawn_visual(material, gpu_data) }
    }

    /// A mesh whose vertex data is written on the CPU side, to `dynamic`. No
    /// morph target displaces it.
    pub fn mesh_dynamic(&mut self, vertices: u64, constants: u64, material: Material, dynamic: DynamicData) -> (mesh:
        DynamicMesh)
        requires
            old(self).hub.wf(),
        ensures
            final(self).hub.wf(),
            mesh.dynamic == dynamic,
            made(
                old(self).hub@,
                final(self).hub@,
                mesh.object,
                final(self).hub@.node(mesh.object.pointer().slot()).sub_node,
            ),
            final(self).hub@.node(mesh.object.pointer().slot()).sub_node matches SubNode::Visual(
                shading,
                gpu_data,
            ) && shading == material && untargeted(gpu_data, vertices, constants),
    {
        let gpu_data = GpuData::new(vertices, constants);
        DynamicMesh { object: self.hub.spawn_visual(material, gpu_data), dynamic }
    }

    /// A mesh that shares the geometry of `template` and has a copy of its
    /// material; `constants` names the constants of the new node.
    pub fn mesh_instance(&mut self, template: &Mesh, constants: u64) -> (mesh: Mesh)
        requires
            old(self).hub.wf(),
            old(self).hub@.contains(template.object.pointer()),
            old(self).hub@.node(template.object.pointer().slot()).sub_node is Visual,
        ensures
            final(self).hub.wf(),
            made(
                old(self).hub@,
                final(self).hub@,
                mesh.object,
                SubNode::Visual(
                    old(self).hub@.node(template.object.pointer().slot()).sub_node->Visual_0,
                    GpuData {
                        constants,
                        ..old(self).hub@.node(template.object.pointer().slot()).sub_node->Visual_1
                    },
                ),
            ),
    {
        match self.hub.node(&template.object).sub_node {
            SubNode::Visual(material, gpu_data) => Mesh {
                object: self.hub.spawn_visual(
                    material,
                    GpuData { constants, ..gpu_data },
                ),
            },
            _ => vstd::pervasive::unreached(),
        }
    }

    /// A mesh that shares the geometry of `template` and has the given
    /// material; `constants` names the constants of the new node.
    pub fn mesh_instance_with_material(
        &mut self,
        template: &Mesh,
        material: Material,
        constants: u64,
    ) -> (mesh: Mesh)
        requires
            old(self).hub.wf(),
            old(self).hub@.contains(template.object.pointer()),
            old(self).hub@.node(template.object.pointer().slot()).sub_node is Visual,
        ensures
            final(self).hub.wf(),
            made(
                old(self).hub@,
                final(self).hub@,
                mesh.object,
                SubNode::Visual(
                    material,
                    GpuData {
                        constants,
                        ..old(self).hub@.node(template.object.pointer().slot()).sub_node->Visual_1
                    },
                ),
            ),
    {
        match self.hub.node(&template.object).sub_node {
            SubNode::Visual(_, gpu_data) => Mesh {
                object: self.hub.spawn_visual(
                    material,
                    GpuData { constants, ..gpu_data },
                ),
            },
            _ => vstd::pervasive::unreached(),
        }
    }

    /// A sprite that shows `map` on the rectangle that the renderer holds as
    /// `quad`, with constants of its own.
    pub fn sprite(&mut self, map: Texture, quad: u64, constants: u64) -> (sprite: Sprite)
        requires
            old(self).hub.wf(),
        ensures
            final(self).hub.wf(),
            made(
                old(self).hub@,
                final(self).hub@,
                sprite.object,
                final(self).hub@.node(sprite.object.pointer().slot()).sub_node,
            ),
            final(self).hub@.node(sprite.object.pointer().slot()).sub_node matches SubNode::Visual(
                shading,
                gpu_data,
            ) && shading == (Material::Sprite { map }) && untargeted(gpu_data, quad, constants),
    {
        let gpu_data = GpuData::new(quad, constants);
        Sprite { object: self.hub.spawn_visual(Material::Sprite { map }, gpu_data) }
    }

    /// A light that shines from everywhere.
    pub fn ambient_light(&mut self, color: Color, intensity: Scalar) -> (light: Light)
        requires
            old(self).hub.wf(),
        ensures
            final(self).hub.wf(),
            made(
                old(self).hub@,
                final(self).hub@,
                light.object,
                light_of(color, intensity, SubLight::Ambient),
            ),
    {
        Light {
            object: self.hub.spawn_light(
                LightData { color, intensity, sub_light: SubLight::Ambient, shadow: None },
            ),
        }
    }

    /// A light that shines in one direction.
    pub fn directional_light(&mut self, color: Color, intensity: Scalar) -> (light: Light)
        requires
            old(self).hub.wf(),
        ensures
            final(self).hub.wf(),
            made(
                old(self).hub@,
                final(self).hub@,
                light.object,
                light_of(color, intensity, SubLight::Directional),
            ),
    {
        Light {
            object: self.hub.spawn_light(
                LightData { color, intensity, sub_light: SubLight::Directional, shadow: None },
            ),
        }
    }

    /// A light of the sky above and the ground below.
    pub fn hemisphere_light(&mut self, sky_color: Color, ground_color: Color, intensity: Scalar) -> (light:
        Light)
        requires
            old(self).hub.wf(),
        ensures
            final(self).hub.wf(),
            made(
                old(self).hub@,
                final(self).hub@,
                light.object,
                light_of(sky_color, intensity, SubLight::Hemisphere { ground: ground_color }),
            ),
    {
        Light {
            object: self.hub.spawn_light(
                LightData {
                    color: sky_color,
                    intensity,
                    sub_light: SubLight::Hemisphere { ground: ground_color },
                    shadow: None,
                },
            ),
        }
    }

    /// A light that shines from one point.
    pub fn point_light(&mut self, color: Color, intensity: Scalar) -> (light: Light)
        requires
            old(self).hub.wf(),
        ensures
            final(self).hub.wf(),
            made(
                old(self).hub@,
                final(self).hub@,
                light.object,
                light_of(color, intensity, SubLight::Point),
            ),
    {
        Light {
            object: self.hub.spawn_light(
                LightData { color, intensity, sub_light: SubLight::Point, shadow: None },
            ),
        }
    }

    /// The format of the image file at `path`, as the extension of its name
    /// tells, whatever the case it is written in; or why the name tells none:
    /// it has no extension, or one that stands for no format that can be
    /// loaded.
    pub fn parse_texture_format(path: &Path) -> (r: Result<ImageFormat, FormatError>)
        ensures
            told_by(path, r),
    {
        match extension(path) {
            Some(part) => {
                let lowered = to_lowercase(part.as_str());
                match format_of_extension(lowered.as_str()) {
                    Some(format) => Ok(format),
                    None => Err(FormatError::Unrecognized(lowered)),
                }
            },
            None => Err(FormatError::NoExtension),
        }
    }

    /// The material for a mesh that a Wavefront file describes.
    ///
    /// A mesh with normals is shaded: with a glossiness by Phong's model and
    /// without one by Lambert's. A mesh without normals has the plain colour,
    /// and, where it has texture coordinates and the material names a texture
    /// file, the texture that `request_texture` returns for the path of that
    /// file, the name being taken relative to `obj_dir`. A material without a
    /// diffuse colour leaves the mesh plain white.
    pub fn load_obj_material<F: FnOnce(Cow<Path>) -> Texture>(
        mat: &ObjMaterial,
        has_normals: bool,
        has_uv: bool,
        obj_dir: Option<&Path>,
        request_texture: F,
    ) -> (material: Material)
        requires
            forall|path: Cow<Path>| request_texture.requires((path,)),
        ensures
            match mat.kd {
                Some(color) => if has_normals {
                    match mat.ns {
                        Some(glossiness) => material == (Material::Phong { color, glossiness }),
                        None => material == (Material::Lambert { color, flat: false }),
                    }
                } else {
                    match mat.map_kd {
                        Some(name) if has_uv => exists|path: Cow<Path>, texture: Texture|
                            is_concat(obj_dir, name@, path) && #[trigger] request_texture.ensures(
                                (path,),
                                texture,
                            ) && material == (Material::Basic { color, map: Some(texture) }),
                        _ => material == (Material::Basic { color, map: None }),
                    }
                },
                None => material == (Material::Basic { color: 0xffffff, map: None }),
            },
    {
        match mat.kd {
            Some(color) => {
                if has_normals {
                    match mat.ns {
                        Some(glossiness) => Material::Phong { color, glossiness },
                        None => Material::Lambert { color, flat: false },
                    }
                } else {
                    match &mat.map_kd {
                        Some(name) if has_uv => {
                            let path = concat_path(obj_dir, name.as_str());
                            Material::Basic { color, map: Some(request_texture(path)) }
                        },
                        _ => Material::Basic { color, map: None },
                    }
                }
            },
            None => Material::Basic { color: 0xffffff, map: None },
        }
    }

    /// Marks the vertex data of `mesh` as waiting to be uploaded, before the
    /// caller writes to its buffer.
    pub fn map_vertices(&mut self, mesh: &DynamicMesh)
        requires
            old(self).hub@.contains(mesh.object.pointer()),
            old(self).hub@.node(mesh.object.pointer().slot()).sub_node is Visual,
        ensures
            final(self).hub.wf() == old(self).hub.wf(),
            final(self).hub@ == old(self).hub@.with_node(
                mesh.object.pointer().slot(),
                Node {
                    sub_node: SubNode::Visual(
                        old(self).hub@.node(mesh.object.pointer().slot()).sub_node->Visual_0,
                        GpuData {
                            pending: Some(mesh.dynamic),
                            ..old(self).hub@.node(mesh.object.pointer().slot()).sub_node->Visual_1
                        },
                    ),
                    ..old(self).hub@.node(mesh.object.pointer().slot())
                },
            ),
    {
        self.hub.update_mesh(mesh);
    }
}

} // verus!
