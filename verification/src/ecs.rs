//! The entity store: central ownership of all per-entity data.
//!
//! One insertion-ordered table per component kind, keyed by entity id, plus
//! the single active camera. Entity ids are handed out monotonically and
//! never reused within one store. All lookups are `Option`-style: an id
//! with no component of some kind is an ordinary state, never an error.

use vstd::prelude::*;
use crate::camera::Camera;
use crate::light::Light;
use crate::math::Vec3;
use crate::mesh::Mesh;
use crate::render::RenderableMesh;
use crate::table::{first_index_of, lemma_first_index_of, Table};
use crate::transform::Transform;

verus! {

/// An entity is an opaque numeric identifier.
pub type Entity = usize;

pub struct ECS {
    /// The id the next `create_entity` call hands out.
    pub next_entity: Entity,
    /// The single active camera, if any.
    pub camera: Option<Camera>,
    pub transforms: Table<Transform>,
    pub meshes: Table<Mesh>,
    pub renderables: Table<RenderableMesh>,
    pub lights: Table<Light>,
}

impl ECS {
    /// Well-formedness: every table has pairwise-distinct ids, and every id
    /// in a table was handed out by `create_entity` (so a fresh id never
    /// collides with an existing component).
    pub open spec fn wf(self) -> bool {
        &&& self.transforms.wf()
        &&& self.meshes.wf()
        &&& self.renderables.wf()
        &&& self.lights.wf()
        &&& self.transforms.keys_below(self.next_entity)
        &&& self.meshes.keys_below(self.next_entity)
        &&& self.renderables.keys_below(self.next_entity)
        &&& self.lights.keys_below(self.next_entity)
    }

    /// A fresh store: no entities, no components, the default camera
    /// active.
    pub fn new() -> (r: ECS)
        ensures
            r.wf(),
            r.next_entity == 0,
            r.camera == Some(Camera::spec_default()),
            r.transforms@.len() == 0,
            r.meshes@.len() == 0,
            r.renderables@.len() == 0,
            r.lights@.len() == 0,
    {
        ECS {
            next_entity: 0,
            camera: Some(Camera::default()),
            transforms: Table::new(),
            meshes: Table::new(),
            renderables: Table::new(),
            lights: Table::new(),
        }
    }

    /// One `create_entity` step: `id` is the id handed out, and nothing
    /// else about the store changes.
    pub open spec fn created(pre: ECS, post: ECS, id: Entity) -> bool {
        &&& id == pre.next_entity
        &&& post.next_entity == pre.next_entity + 1
        &&& post.camera == pre.camera
        &&& post.transforms == pre.transforms
        &&& post.meshes == pre.meshes
        &&& post.renderables == pre.renderables
        &&& post.lights == pre.lights
    }

    /// Allocate the next entity id; otherwise side-effect-free.
    pub fn create_entity(&mut self) -> (id: Entity)
        requires
            old(self).next_entity < usize::MAX,
        ensures
            ECS::created(*old(self), *final(self), id),
            old(self).wf() ==> final(self).wf(),
            old(self).wf() ==> {
                &&& final(self).transforms.spec_get(id) == None::<Transform>
                &&& final(self).meshes.spec_get(id) == None::<Mesh>
                &&& final(self).renderables.spec_get(id) == None::<RenderableMesh>
                &&& final(self).lights.spec_get(id) == None::<Light>
            },
    {
        let id = self.next_entity;
        self.next_entity = self.next_entity + 1;
        proof {
            if old(self).wf() {
                lemma_absent_above_bound(old(self).transforms, old(self).next_entity, id);
                lemma_absent_above_bound(old(self).meshes, old(self).next_entity, id);
                lemma_absent_above_bound(old(self).renderables, old(self).next_entity, id);
                lemma_absent_above_bound(old(self).lights, old(self).next_entity, id);
            }
        }
        id
    }

    /// Remove every component of this entity; a no-op for components it
    /// does not have. The id itself is never reused.
    pub fn delete_entity(&mut self, entity: Entity)
        ensures
            final(self).next_entity == old(self).next_entity,
            final(self).camera == old(self).camera,
            old(self).wf() ==> final(self).wf(),
            old(self).wf() ==> {
                &&& final(self).transforms.spec_get(entity) == None::<Transform>
                &&& final(self).meshes.spec_get(entity) == None::<Mesh>
                &&& final(self).renderables.spec_get(entity) == None::<RenderableMesh>
                &&& final(self).lights.spec_get(entity) == None::<Light>
            },
            forall|e: Entity|
                e != entity ==> {
                    &&& final(self).transforms.spec_get(e) == old(self).transforms.spec_get(e)
                    &&& final(self).meshes.spec_get(e) == old(self).meshes.spec_get(e)
                    &&& final(self).renderables.spec_get(e) == old(self).renderables.spec_get(e)
                    &&& final(self).lights.spec_get(e) == old(self).lights.spec_get(e)
                },
            final(self).transforms@ == removed_entry(old(self).transforms@, entity),
            final(self).meshes@ == removed_entry(old(self).meshes@, entity),
            final(self).renderables@ == removed_entry(old(self).renderables@, entity),
            final(self).lights@ == removed_entry(old(self).lights@, entity),
    {
        self.transforms.remove(entity);
        self.meshes.remove(entity);
        self.renderables.remove(entity);
        self.lights.remove(entity);
    }

    /// Insert or replace the transform of a created entity.
    pub fn add_transform(&mut self, entity: Entity, transform: Transform)
        requires
            old(self).wf(),
            entity < old(self).next_entity,
        ensures
            final(self).wf(),
            final(self).transforms.spec_get(entity) == Some(transform),
            forall|e: Entity|
                e != entity ==> final(self).transforms.spec_get(e) == old(
                    self,
                ).transforms.spec_get(e),
            final(self).transforms@ == (if old(self).transforms.spec_contains(entity) {
                old(self).transforms@.update(
                    first_index_of(old(self).transforms@, entity),
                    (entity, transform),
                )
            } else {
                old(self).transforms@.push((entity, transform))
            }),
            final(self).next_entity == old(self).next_entity,
            final(self).camera == old(self).camera,
            final(self).meshes == old(self).meshes,
            final(self).renderables == old(self).renderables,
            final(self).lights == old(self).lights,
    {
        self.transforms.insert(entity, transform);
    }

    /// Replace the transform of an entity that already has one; a no-op
    /// otherwise.
    pub fn transform(&mut self, entity: &Entity, transform: Transform)
        requires
            old(self).wf(),
        ensures
            final(self).wf(),
            old(self).transforms.spec_contains(*entity) ==> final(self).transforms.spec_get(
                *entity,
            ) == Some(transform),
            old(self).transforms.spec_contains(*entity) ==> final(self).transforms@ == old(
                self,
            ).transforms@.update(
                first_index_of(old(self).transforms@, *entity),
                (*entity, transform),
            ),
            !old(self).transforms.spec_contains(*entity) ==> final(self).transforms == old(
                self,
            ).transforms,
            forall|e: Entity|
                e != *entity ==> final(self).transforms.spec_get(e) == old(
                    self,
                ).transforms.spec_get(e),
            final(self).next_entity == old(self).next_entity,
            final(self).camera == old(self).camera,
            final(self).meshes == old(self).meshes,
            final(self).renderables == old(self).renderables,
            final(self).lights == old(self).lights,
    {
        if self.transforms.contains(*entity) {
            proof {
                lemma_first_index_of(self.transforms@, *entity);
            }
            self.transforms.insert(*entity, transform);
        }
    }

    /// Insert or replace the mesh of a created entity, and record the
    /// renderable that the GPU backend builds its buffers from.
    pub fn add_mesh(&mut self, entity: Entity, mesh: Mesh)
        requires
            old(self).wf(),
            entity < old(self).next_entity,
            mesh.indices@.len() <= u32::MAX,
        ensures
            final(self).wf(),
            final(self).meshes.spec_get(entity) == Some(mesh),
            final(self).renderables.spec_get(entity) == Some(
                RenderableMesh::spec_from_mesh(mesh),
            ),
            forall|e: Entity|
                e != entity ==> {
                    &&& final(self).meshes.spec_get(e) == old(self).meshes.spec_get(e)
                    &&& final(self).renderables.spec_get(e) == old(self).renderables.spec_get(e)
                },
            final(self).renderables@ == (if old(self).renderables.spec_contains(entity) {
                old(self).renderables@.update(
                    first_index_of(old(self).renderables@, entity),
                    (entity, RenderableMesh::spec_from_mesh(mesh)),
                )
            } else {
                old(self).renderables@.push((entity, RenderableMesh::spec_from_mesh(mesh)))
            }),
            final(self).next_entity == old(self).next_entity,
            final(self).camera == old(self).camera,
            final(self).transforms == old(self).transforms,
            final(self).lights == old(self).lights,
    {
        let renderable = RenderableMesh::from_mesh(&mesh);
        self.meshes.insert(entity, mesh);
        self.renderables.insert(entity, renderable);
    }

    /// Insert or replace the light of a created entity.
    pub fn add_light(&mut self, entity: Entity, light: Light)
        requires
            old(self).wf(),
            entity < old(self).next_entity,
        ensures
            final(self).wf(),
            final(self).lights.spec_get(entity) == Some(light),
            forall|e: Entity|
                e != entity ==> final(self).lights.spec_get(e) == old(self).lights.spec_get(e),
            final(self).lights@ == (if old(self).lights.spec_contains(entity) {
                old(self).lights@.update(
                    first_index_of(old(self).lights@, entity),
                    (entity, light),
                )
            } else {
                old(self).lights@.push((entity, light))
            }),
            final(self).next_entity == old(self).next_entity,
            final(self).camera == old(self).camera,
            final(self).transforms == old(self).transforms,
            final(self).meshes == old(self).meshes,
            final(self).renderables == old(self).renderables,
    {
        self.lights.insert(entity, light);
    }

    /// Rewrite the colour, intensity and range of an entity's light in
    /// place; a no-op if the entity has no light. Position and kind stay.
    pub fn edit_light(&mut self, entity: &Entity, color: Vec3, intensity: u32, range: u32)
        requires
            old(self).wf(),
        ensures
            final(self).wf(),
            forall|l: Light|
                old(self).lights.spec_get(*entity) == Some(l) ==> final(self).lights.spec_get(
                    *entity,
                ) == Some(
                    Light {
                        position: l.position,
                        light_type: l.light_type,
                        color,
                        intensity,
                        range,
                    },
                ),
            !old(self).lights.spec_contains(*entity) ==> final(self).lights == old(self).lights,
            forall|l: Light|
                old(self).lights.spec_get(*entity) == Some(l) ==> final(self).lights@ == old(
                    self,
                ).lights@.update(
                    first_index_of(old(self).lights@, *entity),
                    (
                        *entity,
                        Light {
                            position: l.position,
                            light_type: l.light_type,
                            color,
                            intensity,
                            range,
                        },
                    ),
                ),
            forall|e: Entity|
                e != *entity ==> final(self).lights.spec_get(e) == old(self).lights.spec_get(e),
            final(self).next_entity == old(self).next_entity,
            final(self).camera == old(self).camera,
            final(self).transforms == old(self).transforms,
            final(self).meshes == old(self).meshes,
            final(self).renderables == old(self).renderables,
    {
        match self.lights.index_of(*entity) {
            Some(i) => {
                let cur = self.lights.entries[i].1;
                self.lights.insert(
                    *entity,
                    Light {
                        position: cur.position,
                        light_type: cur.light_type,
                        color,
                        intensity,
                        range,
                    },
                );
            },
            None => {},
        }
    }

    /// The active camera, if any.
    pub fn get_camera(&self) -> (r: Option<Camera>)
        ensures
            r == self.camera,
    {
        self.camera
    }

    /// Mutable access to the active camera; the caller must know one is
    /// set.
    pub fn get_camera_mut(&mut self) -> (cam: &mut Camera)
        requires
            old(self).camera is Some,
        ensures
            *cam == old(self).camera->Some_0,
            final(self).camera == Some(*final(cam)),
            final(self).next_entity == old(self).next_entity,
            final(self).transforms == old(self).transforms,
            final(self).meshes == old(self).meshes,
            final(self).renderables == old(self).renderables,
            final(self).lights == old(self).lights,
    {
        match &mut self.camera {
            Some(c) => c,
            None => unreached(),
        }
    }

    /// The transform of this entity, if it has one.
    pub fn get_transform(&self, entity: Entity) -> (r: Option<Transform>)
        ensures
            r == self.transforms.spec_get(entity),
    {
        match self.transforms.index_of(entity) {
            Some(i) => Some(self.transforms.entries[i].1),
            None => None,
        }
    }

    /// The light of this entity, if it has one.
    pub fn get_light(&self, entity: Entity) -> (r: Option<Light>)
        ensures
            r == self.lights.spec_get(entity),
    {
        match self.lights.index_of(entity) {
            Some(i) => Some(self.lights.entries[i].1),
            None => None,
        }
    }

    /// The renderable record of this entity, if it has one.
    pub fn get_renderable(&self, entity: Entity) -> (r: Option<RenderableMesh>)
        ensures
            r == self.renderables.spec_get(entity),
    {
        match self.renderables.index_of(entity) {
            Some(i) => Some(self.renderables.entries[i].1),
            None => None,
        }
    }

    /// Whether this entity has a mesh component.
    pub fn has_mesh(&self, entity: Entity) -> (b: bool)
        ensures
            b == self.meshes.spec_contains(entity),
    {
        self.meshes.contains(entity)
    }

    /// Entry `i` of the light table after synchronisation: the stored
    /// light, its position overwritten from the owning entity's transform
    /// when the entity has one.
    pub open spec fn synced_light(self, i: int) -> Light {
        let e = self.lights@[i].0;
        let l = self.lights@[i].1;
        match self.transforms.spec_get(e) {
            Some(t) => Light {
                position: t.position,
                light_type: l.light_type,
                color: l.color,
                intensity: l.intensity,
                range: l.range,
            },
            None => l,
        }
    }

    /// Snapshot all lights in table order, copying each light's position
    /// from its entity's transform first, so light and transform positions
    /// never drift apart.
    pub fn collect_lights(&self) -> (r: Vec<Light>)
        ensures
            r@.len() == self.lights@.len(),
            forall|i: int| 0 <= i < r@.len() ==> r@[i] == self.synced_light(i),
    {
        let mut out: Vec<Light> = Vec::new();
        let n = self.lights.entries.len();
        let mut i: usize = 0;
        while i < n
            invariant
                n == self.lights@.len(),
                i <= n,
                out@.len() == i,
                forall|j: int| 0 <= j < i ==> out@[j] == self.synced_light(j),
            decreases n - i,
        {
            let entry = self.lights.entries[i];
            let light = match self.transforms.index_of(entry.0) {
                Some(j) => {
                    let t = self.transforms.entries[j].1;
                    Light {
                        position: t.position,
                        light_type: entry.1.light_type,
                        color: entry.1.color,
                        intensity: entry.1.intensity,
                        range: entry.1.range,
                    }
                },
                None => entry.1,
            };
            out.push(light);
            i = i + 1;
        }
        out
    }
}

/// A table's entries after removing the first entry with this id, if any.
pub open spec fn removed_entry<T>(s: Seq<(usize, T)>, key: usize) -> Seq<(usize, T)> {
    let fi = first_index_of(s, key);
    if fi >= 0 {
        s.remove(fi)
    } else {
        s
    }
}

/// Entity ids strictly increase across `create_entity` calls within one
/// store: a later call returns a greater id than any earlier one, because
/// every id handed out equals the id counter at the time of the call, the
/// call raises the counter, and no other operation ever lowers it.
pub proof fn lemma_entity_ids_strictly_increase(
    s0: ECS,
    s1: ECS,
    sm: ECS,
    s2: ECS,
    id1: Entity,
    id2: Entity,
)
    requires
        ECS::created(s0, s1, id1),
        s1.next_entity <= sm.next_entity,
        ECS::created(sm, s2, id2),
    ensures
        id2 > id1,
{
}

/// A collected light's position equals the owning entity's transform
/// position: synchronisation at collection time keeps the two from
/// drifting apart.
pub proof fn lemma_collected_light_position_synced(s: ECS, i: int, t: Transform)
    requires
        0 <= i < s.lights@.len(),
        s.transforms.spec_get(s.lights@[i].0) == Some(t),
    ensures
        s.synced_light(i).position == t.position,
{
}

/// An id at or above a table's key bound has no entry.
pub proof fn lemma_absent_above_bound<T>(t: Table<T>, bound: usize, key: usize)
    requires
        t.keys_below(bound),
        key >= bound,
    ensures
        !t.spec_contains(key),
        t.spec_get(key) == None::<T>,
{
    lemma_first_index_of(t@, key);
    let fi = first_index_of(t@, key);
    if fi >= 0 {
        assert(t@[fi].0 < bound);
    }
}

} // verus!
