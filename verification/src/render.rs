//! The GPU-facing side of the core: the per-entity renderable record and
//! the per-frame render plan.
//!
//! The engine core never talks to a graphics device. Instead it derives,
//! once per frame, a complete plan — which lights to upload, whether the
//! frame draws at all, and the exact draw list both the shadow passes and
//! the main pass walk — and the host's GPU backend executes that plan
//! verbatim: one depth-only pass per cubemap face, then one colour pass,
//! with the same draw list bound to each.

use vstd::prelude::*;
use crate::camera::Camera;
use crate::ecs::{Entity, ECS};
use crate::light::{Light, MAX_LIGHTS};
use crate::math::{Vec3, BITS_NEG_ONE, BITS_ONE, BITS_ZERO};
use crate::mesh::Mesh;
use crate::transform::Transform;

verus! {

/// CPU-side record of an entity's GPU-resident mesh: what the draw call
/// needs to know. The buffers and bind groups themselves live in the GPU
/// backend, keyed by the same entity id.
#[derive(Clone, Copy, Debug, PartialEq, Eq, Structural)]
pub struct RenderableMesh {
    /// Number of indices to draw.
    pub index_count: u32,
    /// Whether an index buffer exists (an empty index list means a
    /// non-indexed draw).
    pub indexed: bool,
}

impl RenderableMesh {
    pub open spec fn spec_from_mesh(mesh: Mesh) -> RenderableMesh {
        RenderableMesh {
            index_count: mesh.indices@.len() as u32,
            indexed: mesh.indices@.len() > 0,
        }
    }

    pub fn from_mesh(mesh: &Mesh) -> (r: RenderableMesh)
        requires
            mesh.indices@.len() <= u32::MAX,
        ensures
            r == RenderableMesh::spec_from_mesh(*mesh),
    {
        RenderableMesh {
            index_count: mesh.index_count(),
            indexed: !mesh.indices.is_empty(),
        }
    }
}

/// Number of faces of the shadow cubemap.
pub const SHADOW_FACES: usize = 6;

/// Why a frame cannot be planned.
#[derive(Clone, Copy, Debug, PartialEq, Eq, Structural)]
pub enum RenderError {
    /// Lights are present but no camera is set, so the main pass has no
    /// viewpoint to shade from.
    NoCamera,
}

/// One draw of one entity's mesh, as both the shadow passes and the main
/// pass record it: the model matrix is rederived from `transform`, then
/// `index_count` indices are drawn (or that many raw vertices when not
/// indexed).
#[derive(Clone, Copy, Debug, PartialEq, Eq, Structural)]
pub struct DrawCall {
    pub entity: Entity,
    pub transform: Transform,
    pub index_count: u32,
    pub indexed: bool,
}

/// Everything one frame does, derived from the store up front. The GPU
/// backend uploads `lights` and `light_count`, and — when `draw` holds —
/// runs six depth-only shadow passes and then the main pass, each walking
/// `draws` in order.
#[derive(Debug)]
pub struct FramePlan {
    /// The synchronized light snapshot, truncated to [`MAX_LIGHTS`].
    pub lights: Vec<Light>,
    /// Number of lights uploaded; always `lights.len()`.
    pub light_count: u32,
    /// Whether the frame draws at all. A frame with no lights uploads the
    /// empty light buffer and stops: nothing would be shadowed or lit.
    pub draw: bool,
    /// Position of the shadow-casting light (the first light) when `draw`
    /// holds; the origin otherwise.
    pub light_pos: Vec3,
    /// The camera the main pass shades from.
    pub camera: Option<Camera>,
    /// The ordered draw list shared by every pass of the frame.
    pub draws: Vec<DrawCall>,
}

/// All lights of the store after position synchronisation, in table order.
pub open spec fn synced_lights_seq(s: ECS) -> Seq<Light> {
    Seq::new(s.lights@.len(), |i: int| s.synced_light(i))
}

/// The draw list over the first `n` renderable entries: one call per entry
/// whose entity also has a transform, in table order.
pub open spec fn draw_seq_upto(s: ECS, n: int) -> Seq<DrawCall>
    decreases n,
{
    if n <= 0 {
        Seq::empty()
    } else {
        let prefix = draw_seq_upto(s, n - 1);
        let e = s.renderables@[n - 1].0;
        let r = s.renderables@[n - 1].1;
        match s.transforms.spec_get(e) {
            Some(t) => prefix.push(
                DrawCall { entity: e, transform: t, index_count: r.index_count, indexed: r.indexed },
            ),
            None => prefix,
        }
    }
}

/// The full draw list of the store.
pub open spec fn draw_seq(s: ECS) -> Seq<DrawCall> {
    draw_seq_upto(s, s.renderables@.len() as int)
}

/// What `plan_frame` promises of a returned plan.
pub open spec fn frame_plan_matches(s: ECS, p: FramePlan) -> bool {
    let all = synced_lights_seq(s);
    &&& p.lights@ == (if all.len() <= MAX_LIGHTS {
        all
    } else {
        all.subrange(0, MAX_LIGHTS as int)
    })
    &&& p.light_count as int == p.lights@.len()
    &&& p.draw == (all.len() > 0)
    &&& p.camera == s.camera
    &&& (p.draw ==> p.light_pos == all[0].position)
    &&& (!p.draw ==> p.light_pos == Vec3::spec_zero())
    &&& p.draws@ == (if p.draw {
        draw_seq(s)
    } else {
        Seq::<DrawCall>::empty()
    })
}

/// Derive the plan for one frame.
///
/// The light snapshot is taken first (positions synchronized, truncated to
/// capacity) and is uploaded even when empty. A frame with lights but no
/// camera fails with [`RenderError::NoCamera`] instead of shading from
/// nowhere; that is the only error.
pub fn plan_frame(store: &ECS) -> (r: Result<FramePlan, RenderError>)
    requires
        store.wf(),
    ensures
        match r {
            Ok(p) => frame_plan_matches(*store, p),
            Err(e) => e == RenderError::NoCamera,
        },
        r is Err <==> (store.lights@.len() > 0 && store.camera is None),
{
    let mut lights = store.collect_lights();
    proof {
        assert(lights@ =~= synced_lights_seq(*store));
    }
    if lights.len() > MAX_LIGHTS {
        lights.truncate(MAX_LIGHTS);
    }
    let light_count = lights.len() as u32;

    if lights.is_empty() {
        return Ok(
            FramePlan {
                lights,
                light_count,
                draw: false,
                light_pos: Vec3::zero(),
                camera: store.get_camera(),
                draws: Vec::new(),
            },
        );
    }

    if store.camera.is_none() {
        return Err(RenderError::NoCamera);
    }

    let light_pos = lights[0].position;

    let mut draws: Vec<DrawCall> = Vec::new();
    let n = store.renderables.entries.len();
    let mut i: usize = 0;
    while i < n
        invariant
            store.wf(),
            n == store.renderables@.len(),
            i <= n,
            draws@ == draw_seq_upto(*store, i as int),
        decreases n - i,
    {
        let entry = store.renderables.entries[i];
        match store.get_transform(entry.0) {
            Some(t) => {
                draws.push(
                    DrawCall {
                        entity: entry.0,
                        transform: t,
                        index_count: entry.1.index_count,
                        indexed: entry.1.indexed,
                    },
                );
            },
            None => {},
        }
        i = i + 1;
    }

    Ok(
        FramePlan {
            lights,
            light_count,
            draw: true,
            light_pos,
            camera: store.get_camera(),
            draws,
        },
    )
}

/// The light count a plan uploads equals the number of entities with a
/// light component, whenever that number is within the buffer capacity —
/// so the shadow pass and the shader agree on how many lights exist.
pub proof fn lemma_light_count_matches_store(s: ECS, p: FramePlan)
    requires
        frame_plan_matches(s, p),
        s.lights@.len() <= MAX_LIGHTS,
    ensures
        p.light_count as int == s.lights@.len(),
        p.lights@.len() == s.lights@.len(),
{
}

/// The looking direction and matching up vector of each shadow-cubemap
/// face, in face order +X, -X, +Y, -Y, +Z, -Z. The up vector is -Y except
/// at the ±Y faces, where ±Z avoids a degenerate up.
pub open spec fn face_directions_spec() -> Seq<(Vec3, Vec3)> {
    seq![
        (
            Vec3 { x: BITS_ONE, y: BITS_ZERO, z: BITS_ZERO },
            Vec3 { x: BITS_ZERO, y: BITS_NEG_ONE, z: BITS_ZERO },
        ),
        (
            Vec3 { x: BITS_NEG_ONE, y: BITS_ZERO, z: BITS_ZERO },
            Vec3 { x: BITS_ZERO, y: BITS_NEG_ONE, z: BITS_ZERO },
        ),
        (
            Vec3 { x: BITS_ZERO, y: BITS_ONE, z: BITS_ZERO },
            Vec3 { x: BITS_ZERO, y: BITS_ZERO, z: BITS_ONE },
        ),
        (
            Vec3 { x: BITS_ZERO, y: BITS_NEG_ONE, z: BITS_ZERO },
            Vec3 { x: BITS_ZERO, y: BITS_ZERO, z: BITS_NEG_ONE },
        ),
        (
            Vec3 { x: BITS_ZERO, y: BITS_ZERO, z: BITS_ONE },
            Vec3 { x: BITS_ZERO, y: BITS_NEG_ONE, z: BITS_ZERO },
        ),
        (
            Vec3 { x: BITS_ZERO, y: BITS_ZERO, z: BITS_NEG_ONE },
            Vec3 { x: BITS_ZERO, y: BITS_NEG_ONE, z: BITS_ZERO },
        ),
    ]
}

/// The six shadow-pass view directions with their up vectors.
pub fn face_directions() -> (r: Vec<(Vec3, Vec3)>)
    ensures
        r@ == face_directions_spec(),
        r@.len() == SHADOW_FACES,
{
    let r: Vec<(Vec3, Vec3)> = vec![
        (Vec3::axis_x(), Vec3::new(BITS_ZERO, BITS_NEG_ONE, BITS_ZERO)),
        (
            Vec3::new(BITS_NEG_ONE, BITS_ZERO, BITS_ZERO),
            Vec3::new(BITS_ZERO, BITS_NEG_ONE, BITS_ZERO),
        ),
        (Vec3::axis_y(), Vec3::axis_z()),
        (
            Vec3::new(BITS_ZERO, BITS_NEG_ONE, BITS_ZERO),
            Vec3::new(BITS_ZERO, BITS_ZERO, BITS_NEG_ONE),
        ),
        (Vec3::axis_z(), Vec3::new(BITS_ZERO, BITS_NEG_ONE, BITS_ZERO)),
        (
            Vec3::new(BITS_ZERO, BITS_ZERO, BITS_NEG_ONE),
            Vec3::new(BITS_ZERO, BITS_NEG_ONE, BITS_ZERO),
        ),
    ];
    proof {
        assert(r@ =~= face_directions_spec());
    }
    r
}

} // verus!
