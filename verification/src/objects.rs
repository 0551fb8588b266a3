//! Scene factories: create an entity and attach the components of one
//! primitive object in a single step.

use vstd::prelude::*;
use crate::ecs::{Entity, ECS};
use crate::light::Light;
use crate::mesh::{
    cone_apex_vertex, cone_base_ok, cone_base_vertex, cone_ring_vertex, cone_side_ok,
    cylinder_cap_bottom_ok, cylinder_cap_top_ok, cylinder_rings_ok, cylinder_side_ok,
    sphere_cell_ok, Mesh, Vertex,
};
use crate::math::Vec3;
use crate::render::RenderableMesh;
use crate::transform::Transform;

verus! {

/// What every factory guarantees besides its own mesh: a fresh id with a
/// default transform, no light, and untouched other entities.
pub open spec fn spawned(pre: ECS, post: ECS, id: Entity) -> bool {
    &&& id == pre.next_entity
    &&& post.next_entity == pre.next_entity + 1
    &&& post.wf()
    &&& post.camera == pre.camera
    &&& post.transforms.spec_get(id) == Some(Transform::spec_default())
    &&& post.lights.spec_get(id) == None::<Light>
    &&& forall|e: Entity|
        e != id ==> {
            &&& post.transforms.spec_get(e) == pre.transforms.spec_get(e)
            &&& post.meshes.spec_get(e) == pre.meshes.spec_get(e)
            &&& post.renderables.spec_get(e) == pre.renderables.spec_get(e)
            &&& post.lights.spec_get(e) == pre.lights.spec_get(e)
        }
}

/// A new entity with a default transform and the unit cube mesh.
pub fn cube(store: &mut ECS) -> (id: Entity)
    requires
        old(store).wf(),
        old(store).next_entity < usize::MAX,
    ensures
        spawned(*old(store), *final(store), id),
        final(store).meshes.spec_get(id) is Some,
        final(store).meshes.spec_get(id)->Some_0.vertices@ == Mesh::cube_vertices_spec(),
        final(store).meshes.spec_get(id)->Some_0.indices@ == Mesh::cube_indices_spec(),
        final(store).renderables.spec_get(id) == Some(
            RenderableMesh { index_count: 36, indexed: true },
        ),
{
    let id = store.create_entity();
    store.add_transform(id, Transform::default());
    store.add_mesh(id, Mesh::cube());
    id
}

/// A new entity with a default transform and a cone mesh built on `ring`
/// (see [`Mesh::cone`]).
pub fn cone(store: &mut ECS, segments: u16, ring: &Vec<(u32, u32)>) -> (id: Entity)
    requires
        old(store).wf(),
        old(store).next_entity < usize::MAX,
        ring@.len() == segments as int,
        segments <= 65534,
    ensures
        spawned(*old(store), *final(store), id),
        final(store).meshes.spec_get(id) is Some,
        ({
            let m = final(store).meshes.spec_get(id)->Some_0;
            &&& m.vertices@.len() == 2 + segments as int
            &&& m.vertices@[0] == cone_apex_vertex()
            &&& m.vertices@[1] == cone_base_vertex()
            &&& forall|i: int| 0 <= i < segments ==> m.vertices@[2 + i] == cone_ring_vertex(ring@[i])
            &&& m.indices@.len() == 6 * segments as int
            &&& forall|i: int| 0 <= i < segments ==> cone_side_ok(m.indices@, segments as int, i)
            &&& forall|i: int| 0 <= i < segments ==> cone_base_ok(m.indices@, segments as int, i)
            &&& forall|k: int|
                0 <= k < m.indices@.len() ==> (#[trigger] m.indices@[k]) < 2 + segments as int
        }),
        final(store).renderables.spec_get(id) == Some(
            RenderableMesh { index_count: (6 * segments as int) as u32, indexed: segments > 0 },
        ),
{
    let id = store.create_entity();
    store.add_transform(id, Transform::default());
    store.add_mesh(id, Mesh::cone(segments, ring));
    id
}

/// A new entity with a default transform and a cylinder mesh built on the
/// `outer` and `inner` profiles (see [`Mesh::cylinder`]).
pub fn cylinder(
    store: &mut ECS,
    segments: u16,
    outer: &Vec<(u32, u32)>,
    inner: &Vec<(u32, u32)>,
) -> (id: Entity)
    requires
        old(store).wf(),
        old(store).next_entity < usize::MAX,
        outer@.len() == segments as int,
        inner@.len() == segments as int,
        segments <= 16384,
    ensures
        spawned(*old(store), *final(store), id),
        final(store).meshes.spec_get(id) is Some,
        ({
            let m = final(store).meshes.spec_get(id)->Some_0;
            &&& m.vertices@.len() == 4 * segments as int
            &&& forall|i: int|
                0 <= i < segments ==> cylinder_rings_ok(
                    m.vertices@,
                    outer@,
                    inner@,
                    segments as int,
                    i,
                )
            &&& m.indices@.len() == 24 * segments as int
            &&& forall|i: int|
                0 <= i < segments ==> cylinder_cap_bottom_ok(m.indices@, segments as int, i)
            &&& forall|i: int|
                0 <= i < segments ==> cylinder_cap_top_ok(m.indices@, segments as int, i)
            &&& forall|i: int| 0 <= i < segments ==> cylinder_side_ok(m.indices@, segments as int, i)
            &&& forall|k: int|
                0 <= k < m.indices@.len() ==> (#[trigger] m.indices@[k]) < 4 * segments as int
        }),
        final(store).renderables.spec_get(id) == Some(
            RenderableMesh { index_count: (24 * segments as int) as u32, indexed: segments > 0 },
        ),
{
    let id = store.create_entity();
    store.add_transform(id, Transform::default());
    store.add_mesh(id, Mesh::cylinder(segments, outer, inner));
    id
}

/// A new entity with a default transform and a sphere mesh on the given
/// grid of positions (see [`Mesh::sphere`]).
pub fn sphere(store: &mut ECS, segments: u16, grid: &Vec<Vec3>) -> (id: Entity)
    requires
        old(store).wf(),
        old(store).next_entity < usize::MAX,
        grid@.len() == (segments as int + 1) * (segments as int + 1),
        segments <= 255,
    ensures
        spawned(*old(store), *final(store), id),
        final(store).meshes.spec_get(id) is Some,
        ({
            let m = final(store).meshes.spec_get(id)->Some_0;
            &&& m.vertices@.len() == (segments as int + 1) * (segments as int + 1)
            &&& forall|k: int|
                0 <= k < grid@.len() ==> m.vertices@[k] == (Vertex {
                    position: grid@[k],
                    normal: grid@[k],
                })
            &&& m.indices@.len() == 6 * (segments as int * segments as int)
            &&& forall|y: int, x: int|
                0 <= y < segments && 0 <= x < segments ==> sphere_cell_ok(
                    m.indices@,
                    segments as int,
                    y,
                    x,
                )
            &&& forall|k: int|
                0 <= k < m.indices@.len() ==> (#[trigger] m.indices@[k]) < (segments as int + 1)
                    * (segments as int + 1)
        }),
{
    let id = store.create_entity();
    store.add_transform(id, Transform::default());
    let mesh = Mesh::sphere(segments, grid);
    proof {
        assert(segments as int * segments as int <= 255 * 255) by (nonlinear_arith)
            requires
                0 <= segments as int <= 255,
        ;
    }
    store.add_mesh(id, mesh);
    id
}

/// A new entity with a default transform and a default light.
pub fn light(store: &mut ECS) -> (id: Entity)
    requires
        old(store).wf(),
        old(store).next_entity < usize::MAX,
    ensures
        id == old(store).next_entity,
        final(store).next_entity == old(store).next_entity + 1,
        final(store).wf(),
        final(store).camera == old(store).camera,
        final(store).transforms.spec_get(id) == Some(Transform::spec_default()),
        final(store).lights.spec_get(id) == Some(Light::spec_default()),
        final(store).meshes.spec_get(id) == None::<Mesh>,
        final(store).renderables.spec_get(id) == None::<RenderableMesh>,
        forall|e: Entity|
            e != id ==> {
                &&& final(store).transforms.spec_get(e) == old(store).transforms.spec_get(e)
                &&& final(store).meshes.spec_get(e) == old(store).meshes.spec_get(e)
                &&& final(store).renderables.spec_get(e) == old(store).renderables.spec_get(e)
                &&& final(store).lights.spec_get(e) == old(store).lights.spec_get(e)
            },
{
    let id = store.create_entity();
    store.add_transform(id, Transform::default());
    store.add_light(id, Light::default());
    id
}

} // verus!
