use three::hub::Hub;
use three::node::{Operation, Transform};
use three::object::Object;
use three::scene::Scene;

/// A small generator of numbers that look random and are the same on every
/// run.
struct Numbers(u64);

impl Numbers {
    fn next(&mut self, below: usize) -> usize {
        self.0 = self.0.wrapping_mul(6364136223846793005).wrapping_add(1442695040888963407);
        ((self.0 >> 33) as usize) % below
    }
}

fn shift(parent: Transform, child: Transform) -> Transform {
    Transform {
        position: [
            parent.position[0].wrapping_add(child.position[0]),
            parent.position[1].wrapping_add(child.position[1]),
            parent.position[2].wrapping_add(child.position[2]),
        ],
        orientation: child.orientation,
        scale: parent.scale.wrapping_mul(child.scale),
    }
}

/// Holds every node that is alive to what the pass has to make of it.
fn check_resolved(hub: &Hub, scenes_before: &[Option<u64>], orphaned: usize) {
    let mut orphans = 0;
    let mut from = 0;
    while let Some(i) = hub.next_alive(from) {
        from = i + 1;
        let node = hub.node_at(i);
        let parent = match node.parent {
            Some(weak) if hub.is_current(&weak) && weak.index() < i => Some(hub.node_at(weak.index())),
            Some(_) => {
                orphans += 1;
                None
            }
            None => None,
        };
        match parent {
            Some(above) => {
                assert_eq!(node.world_visible, node.visible && above.world_visible);
                assert_eq!(node.world_transform, shift(above.world_transform, node.transform));
                assert_eq!(node.scene_id, above.scene_id);
            }
            None => {
                assert_eq!(node.world_visible, node.visible);
                assert_eq!(node.world_transform, node.transform);
                assert_eq!(node.scene_id, scenes_before[i]);
            }
        }
    }
    assert_eq!(orphans, orphaned);
}

#[test]
fn every_pass_resolves_every_node() {
    let mut numbers = Numbers(7);
    let mut hub = Hub::new();
    let (scene, _) = hub.spawn_scene();
    let mut handles: Vec<Object> = vec![scene];
    for step in 0..3000 {
        match numbers.next(8) {
            0 | 1 => handles.push(hub.spawn_empty()),
            2 | 3 => {
                let child = numbers.next(handles.len());
                let parent = numbers.next(handles.len());
                handles[child].set_parent(&mut hub, &handles[parent]);
            }
            4 => {
                let i = numbers.next(handles.len());
                handles[i].set_visible(&mut hub, numbers.next(2) == 0);
            }
            5 => {
                let i = numbers.next(handles.len());
                let p = [numbers.next(10) as u32, numbers.next(10) as u32, numbers.next(10) as u32];
                handles[i].send(&mut hub, Operation::SetTransform(Some(p), None, Some(numbers.next(3) as u32)));
            }
            6 => {
                if handles.len() > 1 {
                    let i = 1 + numbers.next(handles.len() - 1);
                    let gone = handles.swap_remove(i);
                    let weak = gone.downgrade();
                    hub.release(gone);
                    hub.process_messages().unwrap();
                    assert!(!hub.is_current(&weak));
                    assert!(!hub.is_alive(weak.index()) || hub.weak_of(weak.index()) != Some(weak));
                }
            }
            _ => {
                let scenes: Vec<Option<u64>> = (0..hub.len()).map(|i| hub.node_at(i).scene_id).collect();
                hub.process_messages().unwrap();
                let scenes: Vec<Option<u64>> = (0..hub.len())
                    .map(|i| if i < scenes.len() { hub.node_at(i).scene_id } else { None })
                    .collect();
                let orphaned = hub.update_graph(shift);
                check_resolved(&hub, &scenes, orphaned);
            }
        }
        assert!(handles.iter().all(|handle| hub.contains(handle)), "step {}", step);
    }
    // What is alive is what has a handle.
    hub.process_messages().unwrap();
    let mut alive = 0;
    let mut from = 0;
    while let Some(i) = hub.next_alive(from) {
        from = i + 1;
        alive += 1;
    }
    assert_eq!(alive, handles.len());
}

#[test]
fn lists_survive_any_adding_and_removing() {
    let mut numbers = Numbers(11);
    let mut hub = Hub::new();
    let mut scene = Scene::new(&mut hub);
    let nodes: Vec<Object> = (0..12).map(|_| hub.spawn_empty()).collect();
    let mut listed: Vec<usize> = Vec::new();
    for _ in 0..2000 {
        let i = numbers.next(nodes.len());
        let on_list = listed.contains(&i);
        if numbers.next(2) == 0 {
            if !on_list {
                scene.add(&mut hub, &nodes[i]);
                listed.insert(0, i);
            }
        } else {
            assert_eq!(scene.remove(&mut hub, &nodes[i]), on_list);
            listed.retain(|&j| j != i);
        }
        let expected: Vec<usize> = listed.iter().map(|&j| nodes[j].node().index()).collect();
        assert_eq!(scene.walk(&hub), expected);
        for (j, node) in nodes.iter().enumerate() {
            assert_eq!(hub.strong_count(node), if listed.contains(&j) { 2 } else { 1 });
        }
    }
}
