//! Tests of the entity store: id allocation, component lifecycle, light
//! editing and the synchronized light snapshot.

use neothauma::ecs::ECS;
use neothauma::light::Light;
use neothauma::math::{Quat, Vec3};
use neothauma::mesh::Mesh;
use neothauma::transform::Transform;

fn bits(x: f32) -> u32 {
    x.to_bits()
}

fn vec3(x: f32, y: f32, z: f32) -> Vec3 {
    Vec3::new(bits(x), bits(y), bits(z))
}

fn transform_at(x: f32, y: f32, z: f32) -> Transform {
    Transform::new(vec3(x, y, z), Quat::identity(), Vec3::ones())
}

#[test]
fn create_entity_returns_strictly_increasing_ids() {
    let mut store = ECS::new();
    let a = store.create_entity();
    let b = store.create_entity();
    let c = store.create_entity();
    assert!(a < b);
    assert!(b < c);
    assert_eq!(a, 0);
    assert_eq!(b, 1);
    assert_eq!(c, 2);
}

#[test]
fn deleted_ids_are_never_reused() {
    let mut store = ECS::new();
    let a = store.create_entity();
    let b = store.create_entity();
    store.delete_entity(a);
    store.delete_entity(b);
    let c = store.create_entity();
    assert!(c > b);
}

#[test]
fn delete_entity_removes_every_component() {
    let mut store = ECS::new();
    let keep = store.create_entity();
    store.add_transform(keep, transform_at(7.0, 0.0, 0.0));

    let gone = store.create_entity();
    store.add_transform(gone, transform_at(1.0, 2.0, 3.0));
    store.add_mesh(gone, Mesh::cube());
    store.add_light(gone, Light::default());

    store.delete_entity(gone);

    assert!(store.get_transform(gone).is_none());
    assert!(!store.has_mesh(gone));
    assert!(store.get_renderable(gone).is_none());
    assert!(store.get_light(gone).is_none());

    // the other entity is untouched
    let t = store.get_transform(keep).unwrap();
    assert_eq!(t.position.x, bits(7.0));
}

#[test]
fn delete_entity_without_components_is_a_noop() {
    let mut store = ECS::new();
    let a = store.create_entity();
    store.delete_entity(a);
    assert!(store.get_transform(a).is_none());
}

#[test]
fn add_transform_replaces_in_place() {
    let mut store = ECS::new();
    let a = store.create_entity();
    store.add_transform(a, transform_at(1.0, 0.0, 0.0));
    store.add_transform(a, transform_at(2.0, 0.0, 0.0));
    let t = store.get_transform(a).unwrap();
    assert_eq!(t.position.x, bits(2.0));
}

#[test]
fn transform_updates_only_existing_entries() {
    let mut store = ECS::new();
    let a = store.create_entity();
    let b = store.create_entity();
    store.add_transform(a, transform_at(1.0, 0.0, 0.0));

    store.transform(&a, transform_at(4.0, 0.0, 0.0));
    store.transform(&b, transform_at(9.0, 0.0, 0.0));

    assert_eq!(store.get_transform(a).unwrap().position.x, bits(4.0));
    assert!(store.get_transform(b).is_none());
}

#[test]
fn add_mesh_records_a_renderable() {
    let mut store = ECS::new();
    let a = store.create_entity();
    store.add_mesh(a, Mesh::cube());
    let r = store.get_renderable(a).unwrap();
    assert_eq!(r.index_count, 36);
    assert!(r.indexed);
    assert!(store.has_mesh(a));
}

#[test]
fn edit_light_rewrites_colour_intensity_and_range() {
    let mut store = ECS::new();
    let a = store.create_entity();
    store.add_light(a, Light::default());

    store.edit_light(&a, vec3(0.2, 0.4, 0.6), bits(10.0), bits(1000.0));

    let l = store.get_light(a).unwrap();
    assert_eq!(l.color, vec3(0.2, 0.4, 0.6));
    assert_eq!(l.intensity, bits(10.0));
    assert_eq!(l.range, bits(1000.0));
    // kind and position are untouched
    assert_eq!(l.light_type, 0);
    assert_eq!(l.position, vec3(0.0, 0.0, 0.0));
}

#[test]
fn edit_light_without_light_is_a_noop() {
    let mut store = ECS::new();
    let a = store.create_entity();
    store.edit_light(&a, vec3(1.0, 1.0, 1.0), bits(2.0), bits(3.0));
    assert!(store.get_light(a).is_none());
}

#[test]
fn collect_lights_counts_every_lit_entity() {
    let mut store = ECS::new();
    for i in 0..3u32 {
        let e = store.create_entity();
        let mut light = Light::default();
        light.intensity = bits(i as f32);
        store.add_light(e, light);
    }
    let unlit = store.create_entity();
    store.add_transform(unlit, transform_at(0.0, 0.0, 0.0));

    let lights = store.collect_lights();
    assert_eq!(lights.len(), 3);
    // insertion order is kept
    assert_eq!(lights[0].intensity, bits(0.0));
    assert_eq!(lights[1].intensity, bits(1.0));
    assert_eq!(lights[2].intensity, bits(2.0));
}

#[test]
fn collect_lights_syncs_position_from_transform() {
    let mut store = ECS::new();
    let e = store.create_entity();
    store.add_transform(e, transform_at(0.0, 5.0, 0.0));
    store.add_light(e, Light::new(0, Vec3::ones(), bits(10.0), bits(1000.0)));

    let lights = store.collect_lights();
    assert_eq!(lights.len(), 1);
    assert_eq!(lights[0].position, vec3(0.0, 5.0, 0.0));
    assert_eq!(lights[0].intensity, bits(10.0));
    assert_eq!(lights[0].range, bits(1000.0));
}

#[test]
fn collect_lights_keeps_stored_position_without_transform() {
    let mut store = ECS::new();
    let e = store.create_entity();
    let mut light = Light::default();
    light.position = vec3(1.0, 2.0, 3.0);
    store.add_light(e, light);

    let lights = store.collect_lights();
    assert_eq!(lights.len(), 1);
    assert_eq!(lights[0].position, vec3(1.0, 2.0, 3.0));
}

#[test]
fn camera_defaults_and_mutation() {
    let mut store = ECS::new();
    let cam = store.get_camera().unwrap();
    assert_eq!(cam.fov, bits(90.0));
    assert_eq!(cam.near, bits(0.1));
    assert_eq!(cam.far, bits(100.0));
    assert_eq!(cam.rotation, Quat::identity());

    let cam_mut = store.get_camera_mut();
    cam_mut.position = vec3(0.0, 0.0, 5.0);
    assert_eq!(store.get_camera().unwrap().position, vec3(0.0, 0.0, 5.0));
}
