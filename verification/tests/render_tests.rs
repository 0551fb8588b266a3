//! Tests of the frame planner: the light snapshot, the skip policy, the
//! camera requirement, capacity truncation and the draw list.

use neothauma::camera::Camera;
use neothauma::ecs::ECS;
use neothauma::light::{Light, MAX_LIGHTS};
use neothauma::math::{Quat, Vec3};
use neothauma::mesh::Mesh;
use neothauma::objects;
use neothauma::render::{face_directions, plan_frame, RenderError, SHADOW_FACES};
use neothauma::transform::Transform;

fn bits(x: f32) -> u32 {
    x.to_bits()
}

fn vec3(x: f32, y: f32, z: f32) -> Vec3 {
    Vec3::new(bits(x), bits(y), bits(z))
}

#[test]
fn frame_with_one_cube_and_one_light_draws_once() {
    let mut store = ECS::new();

    let cube = store.create_entity();
    store.add_transform(
        cube,
        Transform::new(vec3(0.0, 0.0, 0.0), Quat::identity(), vec3(1.0, 1.0, 1.0)),
    );
    store.add_mesh(cube, Mesh::cube());

    let lamp = store.create_entity();
    store.add_transform(lamp, Transform::new(vec3(0.0, 5.0, 0.0), Quat::identity(), Vec3::ones()));
    store.add_light(lamp, Light::default());

    store.camera = Some(Camera::new(
        vec3(0.0, 0.0, 5.0),
        Quat::identity(),
        bits(90.0),
        bits(0.1),
        bits(100.0),
    ));

    let plan = plan_frame(&store).unwrap();
    assert!(plan.draw);
    assert_eq!(plan.light_count, 1);
    assert_eq!(plan.lights.len(), 1);
    assert_eq!(plan.light_pos, vec3(0.0, 5.0, 0.0));
    assert_eq!(plan.draws.len(), 1);
    assert_eq!(plan.draws[0].entity, cube);
    assert_eq!(plan.draws[0].index_count, 36);
    assert!(plan.draws[0].indexed);
    assert_eq!(plan.draws[0].transform.position, vec3(0.0, 0.0, 0.0));
    assert_eq!(plan.camera.unwrap().position, vec3(0.0, 0.0, 5.0));
}

#[test]
fn frame_without_lights_uploads_and_skips() {
    let mut store = ECS::new();
    let cube = store.create_entity();
    store.add_transform(cube, Transform::default());
    store.add_mesh(cube, Mesh::cube());
    store.camera = Some(Camera::new(
        vec3(0.0, 0.0, 5.0),
        Quat::identity(),
        bits(90.0),
        bits(0.1),
        bits(100.0),
    ));

    let plan = plan_frame(&store).unwrap();
    assert!(!plan.draw);
    assert_eq!(plan.light_count, 0);
    assert!(plan.lights.is_empty());
    assert!(plan.draws.is_empty());
}

#[test]
fn frame_with_lights_but_no_camera_fails() {
    let mut store = ECS::new();
    store.camera = None;
    let lamp = store.create_entity();
    store.add_light(lamp, Light::default());

    let err = plan_frame(&store).unwrap_err();
    assert!(matches!(err, RenderError::NoCamera));
}

#[test]
fn frame_without_lights_needs_no_camera() {
    let mut store = ECS::new();
    store.camera = None;
    assert!(plan_frame(&store).is_ok());
}

#[test]
fn renderables_without_transform_are_not_drawn() {
    let mut store = ECS::new();
    let lamp = store.create_entity();
    store.add_light(lamp, Light::default());

    let bare = store.create_entity();
    store.add_mesh(bare, Mesh::cube());

    let placed = store.create_entity();
    store.add_transform(placed, Transform::default());
    store.add_mesh(placed, Mesh::cube());

    let plan = plan_frame(&store).unwrap();
    assert_eq!(plan.draws.len(), 1);
    assert_eq!(plan.draws[0].entity, placed);
}

#[test]
fn light_snapshot_is_truncated_at_capacity() {
    let mut store = ECS::new();
    let over: usize = MAX_LIGHTS + 3;
    for i in 0..over {
        let e = store.create_entity();
        let mut light = Light::default();
        light.intensity = bits(i as f32);
        store.add_light(e, light);
    }

    let plan = plan_frame(&store).unwrap();
    assert_eq!(plan.lights.len(), MAX_LIGHTS);
    assert_eq!(plan.light_count as usize, MAX_LIGHTS);
    // the first lights in table order survive
    assert_eq!(plan.lights[0].intensity, bits(0.0));
    assert_eq!(plan.lights[MAX_LIGHTS - 1].intensity, bits((MAX_LIGHTS - 1) as f32));
}

#[test]
fn factories_spawn_complete_objects() {
    let mut store = ECS::new();
    let cube = objects::cube(&mut store);
    let lamp = objects::light(&mut store);

    let r = store.get_renderable(cube).unwrap();
    assert_eq!(r.index_count, 36);
    assert!(r.indexed);
    assert_eq!(
        store.get_transform(cube).unwrap().position,
        vec3(0.0, 0.0, 0.0)
    );

    let l = store.get_light(lamp).unwrap();
    assert_eq!(l.intensity, bits(1.0));
    assert_eq!(l.range, bits(100.0));
    assert!(store.get_transform(lamp).is_some());
    assert!(!store.has_mesh(lamp));
}

#[test]
fn shadow_faces_cover_all_six_directions() {
    let faces = face_directions();
    assert_eq!(faces.len(), SHADOW_FACES);
    // +X face looks along +X with -Y up
    assert_eq!(faces[0].0, vec3(1.0, 0.0, 0.0));
    assert_eq!(faces[0].1, vec3(0.0, -1.0, 0.0));
    // the ±Y faces use ±Z as up to avoid a degenerate up vector
    assert_eq!(faces[2].0, vec3(0.0, 1.0, 0.0));
    assert_eq!(faces[2].1, vec3(0.0, 0.0, 1.0));
    assert_eq!(faces[3].0, vec3(0.0, -1.0, 0.0));
    assert_eq!(faces[3].1, vec3(0.0, 0.0, -1.0));
    // the remaining faces all use -Y as up
    assert_eq!(faces[1].1, vec3(0.0, -1.0, 0.0));
    assert_eq!(faces[4].1, vec3(0.0, -1.0, 0.0));
    assert_eq!(faces[5].1, vec3(0.0, -1.0, 0.0));
}
