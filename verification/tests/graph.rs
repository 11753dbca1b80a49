use cgmath::Transform as _;
use std::collections::VecDeque;
use three::hub::{DynamicMesh, Event, Hub};
use three::node::Message;
use three::node::{
    DynamicData, GpuData, LightData, Material, Operation, OperationError, Orthographic,
    ShadowMap, ShadowProjection, SubLight, SubNode, TexelRange, Texture, Transform, ONE, ZERO,
};
use three::object::{Light, Mesh, Object, Sprite};

type Decomposed = cgmath::Decomposed<cgmath::Vector3<f32>, cgmath::Quaternion<f32>>;

fn unpack(t: Transform) -> Decomposed {
    cgmath::Decomposed {
        scale: f32::from_bits(t.scale),
        rot: cgmath::Quaternion::new(
            f32::from_bits(t.orientation[3]),
            f32::from_bits(t.orientation[0]),
            f32::from_bits(t.orientation[1]),
            f32::from_bits(t.orientation[2]),
        ),
        disp: cgmath::Vector3::new(
            f32::from_bits(t.position[0]),
            f32::from_bits(t.position[1]),
            f32::from_bits(t.position[2]),
        ),
    }
}

fn pack(d: Decomposed) -> Transform {
    Transform {
        position: [d.disp.x.to_bits(), d.disp.y.to_bits(), d.disp.z.to_bits()],
        orientation: [d.rot.v.x.to_bits(), d.rot.v.y.to_bits(), d.rot.v.z.to_bits(), d.rot.s.to_bits()],
        scale: d.scale.to_bits(),
    }
}

fn compose(parent: Transform, child: Transform) -> Transform {
    pack(unpack(parent).concat(&unpack(child)))
}

fn position(x: f32, y: f32, z: f32) -> [u32; 3] {
    [x.to_bits(), y.to_bits(), z.to_bits()]
}

fn no_rotation() -> [u32; 4] {
    [ZERO, ZERO, ZERO, ONE]
}

fn resolve(hub: &mut Hub) -> usize {
    hub.process_messages().unwrap();
    hub.update_graph(compose)
}

fn sprite_material() -> Material {
    Material::Sprite { map: Texture { id: 4, range: None } }
}

fn gpu() -> GpuData {
    GpuData::new(11, 12)
}

fn point_light() -> LightData {
    LightData { color: 0xFFFFFF, intensity: 0.5f32.to_bits(), sub_light: SubLight::Point, shadow: None }
}

#[test]
fn new_hub_is_empty() {
    let hub = Hub::new();
    assert_eq!(hub.len(), 0);
    assert_eq!(hub.pending(), 0);
    assert_eq!(hub.next_alive(0), None);
}

#[test]
fn identity_is_one_and_zeros() {
    let t = Transform::identity();
    assert_eq!(t.position, [0, 0, 0]);
    assert_eq!(t.orientation, [0, 0, 0, 1.0f32.to_bits()]);
    assert_eq!(t.scale, 1.0f32.to_bits());
    assert_eq!(ONE, 1.0f32.to_bits());
    assert_eq!(ZERO, 0.0f32.to_bits());
}

#[test]
fn spawned_node_is_fresh() {
    let mut hub = Hub::new();
    let object = hub.spawn_empty();
    assert!(hub.contains(&object));
    let node = hub.node(&object);
    assert!(node.visible);
    assert!(!node.world_visible);
    assert_eq!(node.transform, Transform::identity());
    assert_eq!(node.world_transform, Transform::identity());
    assert!(node.parent.is_none());
    assert!(node.next_sibling.is_none());
    assert!(node.scene_id.is_none());
    assert!(node.name.is_none());
    assert_eq!(node.sub_node, SubNode::Empty);
    assert_eq!(hub.strong_count(&object), 1);
}

#[test]
fn spawn_keeps_the_payload() {
    let mut hub = Hub::new();
    let visual = hub.spawn_visual(sprite_material(), gpu());
    let light = hub.spawn_light(point_light());
    assert_eq!(hub.node(&visual).sub_node, SubNode::Visual(sprite_material(), gpu()));
    assert_eq!(hub.node(&light).sub_node, SubNode::Light(point_light()));
    assert_eq!(visual.node().index(), 0);
    assert_eq!(light.node().index(), 1);
}

#[test]
fn spawn_scene_numbers_scenes() {
    let mut hub = Hub::new();
    let (first, first_id) = hub.spawn_scene();
    let (second, second_id) = hub.spawn_scene();
    assert_eq!(first_id, 0);
    assert_eq!(second_id, 1);
    assert_eq!(hub.node(&first).scene_id, Some(0));
    assert_eq!(hub.node(&second).scene_id, Some(1));
    assert_eq!(hub.node(&first).sub_node, SubNode::Empty);
}

#[test]
fn send_changes_nothing_until_processed() {
    let mut hub = Hub::new();
    let object = hub.spawn_empty();
    object.set_visible(&mut hub, false);
    assert_eq!(hub.pending(), 1);
    assert!(hub.node(&object).visible);
    hub.process_messages().unwrap();
    assert_eq!(hub.pending(), 0);
    assert!(!hub.node(&object).visible);
}

#[test]
fn later_message_wins() {
    let mut hub = Hub::new();
    let object = hub.spawn_empty();
    object.set_visible(&mut hub, true);
    object.set_visible(&mut hub, false);
    resolve(&mut hub);
    assert!(!hub.node(&object).visible);
    assert!(!hub.node(&object).world_visible);

    object.set_visible(&mut hub, false);
    object.set_visible(&mut hub, true);
    resolve(&mut hub);
    assert!(hub.node(&object).visible);
    assert!(hub.node(&object).world_visible);
}

#[test]
fn transform_is_set_part_by_part() {
    let mut hub = Hub::new();
    let object = hub.spawn_empty();
    object.set_transform(&mut hub, position(1.0, 2.0, 3.0), no_rotation(), 2.0f32.to_bits());
    hub.process_messages().unwrap();
    let expected = Transform {
        position: position(1.0, 2.0, 3.0),
        orientation: no_rotation(),
        scale: 2.0f32.to_bits(),
    };
    assert_eq!(hub.node(&object).transform, expected);

    object.set_position(&mut hub, position(4.0, 5.0, 6.0));
    hub.process_messages().unwrap();
    assert_eq!(hub.node(&object).transform, Transform { position: position(4.0, 5.0, 6.0), ..expected });

    let turned = [0.5f32.to_bits(), 0.5f32.to_bits(), 0.5f32.to_bits(), 0.5f32.to_bits()];
    object.set_orientation(&mut hub, turned);
    object.set_scale(&mut hub, 3.0f32.to_bits());
    hub.process_messages().unwrap();
    assert_eq!(
        hub.node(&object).transform,
        Transform { position: position(4.0, 5.0, 6.0), orientation: turned, scale: 3.0f32.to_bits() }
    );
}

#[test]
fn empty_transform_message_changes_nothing() {
    let mut hub = Hub::new();
    let object = hub.spawn_empty();
    object.send(&mut hub, Operation::SetTransform(None, None, None));
    hub.process_messages().unwrap();
    assert_eq!(hub.node(&object).transform, Transform::identity());
}

#[test]
fn name_is_set() {
    let mut hub = Hub::new();
    let object = hub.spawn_empty();
    object.set_name(&mut hub, String::from("wheel"));
    hub.process_messages().unwrap();
    assert_eq!(hub.node(&object).name, Some(String::from("wheel")));
}

#[test]
fn parent_is_overwritten_not_merged() {
    let mut hub = Hub::new();
    let a = hub.spawn_empty();
    let b = hub.spawn_empty();
    let child = hub.spawn_empty();
    child.set_parent(&mut hub, &a);
    child.set_parent(&mut hub, &b);
    hub.process_messages().unwrap();
    assert_eq!(hub.node(&child).parent, Some(b.downgrade()));
}

#[test]
fn material_goes_to_visual_nodes() {
    let mut hub = Hub::new();
    let mesh = Mesh { object: hub.spawn_visual(Material::Lambert { color: 1, flat: false }, gpu()) };
    let phong = Material::Phong { color: 2, glossiness: 30.0f32.to_bits() };
    mesh.set_material(&mut hub, phong);
    assert_eq!(hub.process_messages(), Ok(()));
    assert_eq!(hub.node(&mesh.object).sub_node, SubNode::Visual(phong, gpu()));
}

#[test]
fn material_is_refused_by_what_is_not_drawn() {
    let phong = Material::Phong { color: 2, glossiness: 30.0f32.to_bits() };
    let mut hub = Hub::new();
    let group = Mesh { object: hub.spawn_empty() };
    group.set_material(&mut hub, phong);
    let result = hub.process_messages();
    assert_eq!(result, Err(OperationError::NotVisual));
    assert_eq!(result.unwrap_err().message(), "Material request for a node that is not drawn");
    assert_eq!(hub.node(&group.object).sub_node, SubNode::Empty);

    let light = Mesh { object: hub.spawn_light(point_light()) };
    light.set_material(&mut hub, phong);
    assert_eq!(hub.process_messages(), Err(OperationError::NotVisual));
    assert_eq!(hub.node(&light.object).sub_node, SubNode::Light(point_light()));
    assert_eq!(hub.process_messages(), Ok(()));
}

#[test]
fn texel_range_goes_to_sprites() {
    let mut hub = Hub::new();
    let sprite = Sprite { object: hub.spawn_visual(sprite_material(), gpu()) };
    sprite.set_texel_range(&mut hub, [1, 2], [16, 32]);
    assert_eq!(hub.process_messages(), Ok(()));
    let expected = Material::Sprite {
        map: Texture { id: 4, range: Some(TexelRange { base: [1, 2], size: [16, 32] }) },
    };
    assert_eq!(hub.node(&sprite.object).sub_node, SubNode::Visual(expected, gpu()));
}

#[test]
fn texel_range_is_refused_by_what_is_not_drawn() {
    let mut hub = Hub::new();
    let light = Sprite { object: hub.spawn_light(point_light()) };
    let group = Sprite { object: hub.spawn_empty() };
    light.set_texel_range(&mut hub, [1, 2], [16, 32]);
    group.set_texel_range(&mut hub, [1, 2], [16, 32]);
    assert_eq!(hub.process_messages(), Err(OperationError::UnsupportedMaterial));
    assert_eq!(hub.pending(), 1);
    assert_eq!(hub.process_messages(), Err(OperationError::UnsupportedMaterial));
    assert_eq!(hub.pending(), 0);
    assert_eq!(hub.process_messages(), Ok(()));
    assert_eq!(hub.node(&light.object).sub_node, SubNode::Light(point_light()));
    assert_eq!(hub.node(&group.object).sub_node, SubNode::Empty);
}

#[test]
fn texel_range_on_another_material_is_refused() {
    let mut hub = Hub::new();
    let mesh = hub.spawn_visual(Material::Basic { color: 1, map: None }, gpu());
    let other = hub.spawn_empty();
    let lost = hub.spawn_empty();
    other.set_visible(&mut hub, false);
    mesh.send(&mut hub, Operation::SetTexelRange([0, 0], [1, 1]));
    other.set_visible(&mut hub, true);
    other.set_name(&mut hub, String::from("late"));
    hub.release(lost);

    let result = hub.process_messages();
    assert_eq!(result, Err(OperationError::UnsupportedMaterial));
    assert_eq!(result.unwrap_err().message(), "Unsupported material for texel range request");
    // What came before the refused message is applied, the node is untouched,
    // what came after waits, and nothing is swept.
    assert!(!hub.node(&other).visible);
    assert_eq!(hub.node(&mesh).sub_node, SubNode::Visual(Material::Basic { color: 1, map: None }, gpu()));
    assert_eq!(hub.pending(), 2);
    assert!(hub.is_alive(2));

    assert_eq!(hub.process_messages(), Ok(()));
    assert!(hub.node(&other).visible);
    assert_eq!(hub.node(&other).name, Some(String::from("late")));
    assert_eq!(hub.pending(), 0);
    assert!(!hub.is_alive(2));
}

#[test]
fn material_change_decides_what_comes_after_it() {
    let mut hub = Hub::new();
    let object = hub.spawn_visual(Material::Basic { color: 1, map: None }, gpu());
    object.send(&mut hub, Operation::SetMaterial(sprite_material()));
    object.send(&mut hub, Operation::SetTexelRange([3, 4], [5, 6]));
    assert_eq!(hub.process_messages(), Ok(()));
    let expected = Material::Sprite {
        map: Texture { id: 4, range: Some(TexelRange { base: [3, 4], size: [5, 6] }) },
    };
    assert_eq!(hub.node(&object).sub_node, SubNode::Visual(expected, gpu()));
}

#[test]
fn shadow_goes_to_lights() {
    let mut hub = Hub::new();
    let light = Light { object: hub.spawn_light(point_light()) };
    let map = ShadowMap { id: 8 };
    let projection = ShadowProjection::Ortho(Orthographic {
        center: [ZERO, ZERO],
        extent_y: ONE,
        range: [ONE, 10.0f32.to_bits()],
    });
    light.set_shadow(&mut hub, map, projection);
    assert_eq!(hub.process_messages(), Ok(()));
    let expected = LightData { shadow: Some((map, projection)), ..point_light() };
    assert_eq!(hub.node(&light.object).sub_node, SubNode::Light(expected));
}

#[test]
fn shadow_is_refused_by_what_is_no_light() {
    let mut hub = Hub::new();
    let mesh = Light { object: hub.spawn_visual(sprite_material(), gpu()) };
    let group = Light { object: hub.spawn_empty() };
    let map = ShadowMap { id: 8 };
    let projection = ShadowProjection::Ortho(Orthographic {
        center: [ZERO, ZERO],
        extent_y: ONE,
        range: [ONE, 10.0f32.to_bits()],
    });
    mesh.set_shadow(&mut hub, map, projection);
    group.set_shadow(&mut hub, map, projection);
    let result = hub.process_messages();
    assert_eq!(result, Err(OperationError::NotLight));
    assert_eq!(result.unwrap_err().message(), "Shadow request for a node that is no light");
    assert_eq!(hub.process_messages(), Err(OperationError::NotLight));
    assert_eq!(hub.process_messages(), Ok(()));
    assert_eq!(hub.node(&mesh.object).sub_node, SubNode::Visual(sprite_material(), gpu()));
    assert_eq!(hub.node(&group.object).sub_node, SubNode::Empty);
}

#[test]
fn message_for_a_reclaimed_node_is_passed_over() {
    let mut hub = Hub::new();
    let gone = hub.spawn_empty();
    let weak = gone.downgrade();
    hub.release(gone);
    hub.process_messages().unwrap();
    assert!(!hub.is_current(&weak));

    // The slot is claimed again by another node, which the message must not reach.
    let other = hub.spawn_empty();
    assert_eq!(other.node().index(), weak.index());
    hub.send(weak, Operation::SetVisible(false));
    hub.send(weak, Operation::SetTexelRange([0, 0], [1, 1]));
    assert_eq!(hub.process_messages(), Ok(()));
    assert_eq!(hub.pending(), 0);
    assert!(hub.node(&other).visible);
}

#[test]
fn message_in_flight_for_a_released_node_is_harmless() {
    let mut hub = Hub::new();
    let object = hub.spawn_empty();
    let keep = hub.spawn_empty();
    object.set_visible(&mut hub, false);
    hub.release(object);
    assert_eq!(resolve(&mut hub), 0);
    assert_eq!(hub.next_alive(0), Some(1));
    assert!(hub.contains(&keep));
}

#[test]
fn released_node_is_gone_after_one_pass() {
    let mut hub = Hub::new();
    let a = hub.spawn_empty();
    let b = hub.spawn_empty();
    let c = hub.instance(&a);
    assert_eq!(hub.strong_count(&a), 2);
    hub.release(a);
    resolve(&mut hub);
    // One handle is left: the node stays.
    assert!(hub.contains(&c));
    assert_eq!(hub.next_alive(0), Some(0));
    hub.release(c);
    // Given up, but not yet swept.
    assert!(hub.is_alive(0));
    resolve(&mut hub);
    assert!(!hub.is_alive(0));
    assert_eq!(hub.next_alive(0), Some(1));
    assert!(hub.contains(&b));
    assert_eq!(hub.pin(0).map(|_| ()), None);
}

#[test]
fn hidden_parent_hides_the_child() {
    let mut hub = Hub::new();
    let (scene, id) = hub.spawn_scene();
    let a = hub.spawn_empty();
    let b = hub.spawn_empty();
    a.set_parent(&mut hub, &scene);
    b.set_parent(&mut hub, &a);
    a.set_visible(&mut hub, false);
    assert_eq!(resolve(&mut hub), 0);
    assert!(hub.node(&b).visible);
    assert!(!hub.node(&b).world_visible);
    assert!(!hub.node(&a).world_visible);
    assert!(hub.node(&scene).world_visible);
    assert_eq!(hub.node(&a).scene_id, Some(id));
    assert_eq!(hub.node(&b).scene_id, Some(id));

    a.set_visible(&mut hub, true);
    resolve(&mut hub);
    assert!(hub.node(&a).world_visible);
    assert!(hub.node(&b).world_visible);
}

#[test]
fn handles_share_the_node() {
    let mut hub = Hub::new();
    let h1 = hub.spawn_visual(Material::Lambert { color: 7, flat: true }, gpu());
    let h2 = hub.instance(&h1);
    assert!(h1.node().same(h2.node()));
    h1.set_transform(&mut hub, position(1.0, 2.0, 3.0), no_rotation(), 2.0f32.to_bits());
    resolve(&mut hub);
    let expected = Transform {
        position: position(1.0, 2.0, 3.0),
        orientation: no_rotation(),
        scale: 2.0f32.to_bits(),
    };
    assert_eq!(hub.node(&h2).transform, expected);
    assert_eq!(hub.node(&h2).world_transform, expected);
    hub.release(h1);
    resolve(&mut hub);
    assert_eq!(hub.node(&h2).transform, expected);
}

#[test]
fn root_is_in_the_world_what_it_is_by_itself() {
    let mut hub = Hub::new();
    let root = hub.spawn_empty();
    root.set_transform(&mut hub, position(1.0, 0.0, -1.0), no_rotation(), 0.5f32.to_bits());
    resolve(&mut hub);
    let node = hub.node(&root);
    assert_eq!(node.world_transform, node.transform);
    assert!(node.world_visible);
    assert_eq!(node.scene_id, None);
}

#[test]
fn world_transform_is_composed_parent_outermost() {
    let mut hub = Hub::new();
    let parent = hub.spawn_empty();
    let child = hub.spawn_empty();
    let grandchild = hub.spawn_empty();
    child.set_parent(&mut hub, &parent);
    grandchild.set_parent(&mut hub, &child);
    // A quarter turn about z: x goes to y.
    let h = std::f32::consts::FRAC_1_SQRT_2;
    let quarter_turn = [ZERO, ZERO, h.to_bits(), h.to_bits()];
    parent.set_transform(&mut hub, position(10.0, 0.0, 0.0), quarter_turn, 2.0f32.to_bits());
    child.set_position(&mut hub, position(1.0, 0.0, 0.0));
    grandchild.set_position(&mut hub, position(0.0, 0.0, 3.0));
    resolve(&mut hub);

    let world = unpack(hub.node(&child).world_transform);
    assert!((world.disp.x - 10.0).abs() < 1e-5);
    assert!((world.disp.y - 2.0).abs() < 1e-5);
    assert!(world.disp.z.abs() < 1e-5);
    assert_eq!(world.scale, 2.0);

    let parent_world = hub.node(&parent).world_transform;
    assert_eq!(parent_world, hub.node(&parent).transform);
    assert_eq!(hub.node(&child).world_transform, compose(parent_world, hub.node(&child).transform));
    assert_eq!(
        hub.node(&grandchild).world_transform,
        compose(hub.node(&child).world_transform, hub.node(&grandchild).transform)
    );
    let deep = unpack(hub.node(&grandchild).world_transform);
    assert!((deep.disp.z - 6.0).abs() < 1e-5);
}

#[test]
fn parent_made_after_the_child_is_not_followed() {
    let mut hub = Hub::new();
    let (scene, _) = hub.spawn_scene();
    let child = hub.spawn_empty();
    let parent = hub.spawn_empty();
    parent.set_parent(&mut hub, &scene);
    parent.set_visible(&mut hub, false);
    parent.set_position(&mut hub, position(5.0, 0.0, 0.0));
    child.set_parent(&mut hub, &parent);
    child.set_position(&mut hub, position(1.0, 0.0, 0.0));
    assert_eq!(resolve(&mut hub), 1);
    let node = hub.node(&child);
    // Resolved as if it had no parent.
    assert!(node.world_visible);
    assert_eq!(node.world_transform, node.transform);
    assert_eq!(node.scene_id, None);
    assert!(!hub.node(&parent).world_visible);
}

#[test]
fn reclaimed_parent_is_not_followed() {
    let mut hub = Hub::new();
    let parent = hub.spawn_empty();
    let child = hub.spawn_empty();
    child.set_parent(&mut hub, &parent);
    parent.set_visible(&mut hub, false);
    assert_eq!(resolve(&mut hub), 0);
    assert!(!hub.node(&child).world_visible);
    hub.release(parent);
    assert_eq!(resolve(&mut hub), 1);
    assert!(hub.node(&child).world_visible);
    // Another node in the parent's slot is no parent of the child.
    let other = hub.spawn_empty();
    assert_eq!(other.node().index(), 0);
    other.set_visible(&mut hub, false);
    assert_eq!(resolve(&mut hub), 1);
    assert!(hub.node(&child).world_visible);
}

#[test]
fn resolution_leaves_local_state_alone() {
    let mut hub = Hub::new();
    let parent = hub.spawn_light(point_light());
    let child = hub.spawn_visual(sprite_material(), gpu());
    child.set_parent(&mut hub, &parent);
    child.set_name(&mut hub, String::from("child"));
    child.set_position(&mut hub, position(1.0, 1.0, 1.0));
    parent.set_position(&mut hub, position(2.0, 2.0, 2.0));
    resolve(&mut hub);
    let node = hub.node(&child);
    assert_eq!(node.transform.position, position(1.0, 1.0, 1.0));
    assert_eq!(node.world_transform.position, position(3.0, 3.0, 3.0));
    assert_eq!(node.name, Some(String::from("child")));
    assert_eq!(node.parent, Some(parent.downgrade()));
    assert_eq!(node.sub_node, SubNode::Visual(sprite_material(), gpu()));
    assert_eq!(hub.strong_count(&child), 1);
    assert_eq!(hub.pending(), 0);
}

#[test]
fn update_mesh_marks_the_upload() {
    let mut hub = Hub::new();
    let object = hub.spawn_visual(Material::Lambert { color: 1, flat: false }, gpu());
    let dynamic = DynamicData { num_vertices: 24, buffer: 99 };
    let mesh = DynamicMesh { object, dynamic };
    hub.update_mesh(&mesh);
    assert_eq!(
        hub.node(&mesh.object).sub_node,
        SubNode::Visual(
            Material::Lambert { color: 1, flat: false },
            GpuData { pending: Some(dynamic), ..GpuData::new(11, 12) }
        )
    );
}

#[test]
fn upgrade_gives_a_counted_handle() {
    let mut hub = Hub::new();
    let object = hub.spawn_empty();
    let weak = object.downgrade();
    let again: Object = hub.upgrade(&weak).unwrap();
    assert_eq!(hub.strong_count(&object), 2);
    hub.release(again);
    hub.release(object);
    hub.process_messages().unwrap();
    assert!(hub.upgrade(&weak).is_none());
}

#[test]
fn pin_gives_a_counted_handle() {
    let mut hub = Hub::new();
    let object = hub.spawn_empty();
    let pinned = hub.pin(0).unwrap();
    assert!(pinned.node().same(object.node()));
    assert_eq!(hub.strong_count(&object), 2);
    assert!(hub.pin(1).is_none());
    assert!(hub.holds(pinned.node()));
    assert_eq!(hub.node_of(pinned.node()).visible, hub.node_at(0).visible);
}

#[test]
fn one_pass_processes_and_resolves() {
    let mut hub = Hub::new();
    let parent = hub.spawn_empty();
    let child = hub.spawn_empty();
    let gone = hub.spawn_empty();
    child.set_parent(&mut hub, &parent);
    parent.set_position(&mut hub, position(1.0, 0.0, 0.0));
    child.set_position(&mut hub, position(0.0, 1.0, 0.0));
    hub.release(gone);
    assert_eq!(hub.resolve(compose), Ok(0));
    assert_eq!(hub.pending(), 0);
    assert!(!hub.is_alive(2));
    assert_eq!(hub.node(&child).world_transform.position, position(1.0, 1.0, 0.0));
    assert!(hub.node(&child).world_visible);
}

#[test]
fn one_pass_stops_at_a_refused_message() {
    let mut hub = Hub::new();
    let mesh = hub.spawn_visual(Material::Basic { color: 1, map: None }, gpu());
    let parent = hub.spawn_empty();
    mesh.set_parent(&mut hub, &parent);
    mesh.send(&mut hub, Operation::SetTexelRange([0, 0], [1, 1]));
    assert_eq!(hub.resolve(compose), Err(OperationError::UnsupportedMaterial));
    // Not resolved: the world state is still that of a new node.
    assert!(!hub.node(&mesh).world_visible);
    assert_eq!(hub.resolve(compose), Ok(1));
    assert!(hub.node(&mesh).world_visible);
}

#[test]
fn events_are_taken_in_order() {
    let mut hub = Hub::new();
    let a = hub.spawn_empty();
    let b = hub.spawn_empty();
    let b_again = hub.instance(&b);
    let target = a.downgrade();
    let mut events = VecDeque::new();
    events.push_back(Event::Message(Message { target, operation: Operation::SetVisible(false) }));
    events.push_back(Event::Release(b));
    events.push_back(Event::Message(Message { target, operation: Operation::SetVisible(true) }));
    events.push_back(Event::Message(Message {
        target,
        operation: Operation::SetName(String::from("a")),
    }));
    hub.receive(events);
    assert_eq!(hub.pending(), 3);
    assert_eq!(hub.strong_count(&b_again), 1);
    assert!(hub.node(&a).name.is_none());
    hub.process_messages().unwrap();
    assert!(hub.node(&a).visible);
    assert_eq!(hub.node(&a).name, Some(String::from("a")));

    hub.receive(VecDeque::new());
    assert_eq!(hub.pending(), 0);
    let mut last = VecDeque::new();
    last.push_back(Event::Release(b_again));
    hub.receive(last);
    hub.process_messages().unwrap();
    assert!(!hub.is_alive(1));
}
