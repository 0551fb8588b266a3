//! Polygon meshes and the primitive-shape generators.
//!
//! A mesh is a vertex list (position and normal per vertex) plus a `u16`
//! triangle index list. The shape of each primitive — which vertex every
//! index slot names, how many vertices and triangles come out — is integer
//! logic and is specified exactly here. The positions on a circle or a
//! sphere involve trigonometry, so the curved generators take those
//! profiles as arguments (see [`Mesh::cone`], [`Mesh::cylinder`],
//! [`Mesh::sphere`]); the host's numeric layer computes them and also owns
//! the floating-point smooth-normal pass for the flat-shaded shapes.

use vstd::prelude::*;
use crate::math::{Vec3, BITS_HALF, BITS_NEG_HALF, BITS_ZERO};

verus! {

/// A mesh vertex: position and normal, as bit-pattern vectors.
#[derive(Clone, Copy, Debug, PartialEq, Eq, Structural)]
pub struct Vertex {
    pub position: Vec3,
    pub normal: Vec3,
}

impl Vertex {
    pub fn new(position: Vec3, normal: Vec3) -> (r: Vertex)
        ensures
            r == (Vertex { position, normal }),
    {
        Vertex { position, normal }
    }
}

/// A triangle mesh.
pub struct Mesh {
    pub vertices: Vec<Vertex>,
    pub indices: Vec<u16>,
}

impl Default for Mesh {
    /// The empty mesh.
    fn default() -> (r: Mesh)
        ensures
            r.vertices@.len() == 0,
            r.indices@.len() == 0,
    {
        Mesh { vertices: Vec::new(), indices: Vec::new() }
    }
}

impl Mesh {
    pub fn new(vertices: Vec<Vertex>, indices: Vec<u16>) -> (r: Mesh)
        ensures
            r.vertices@ == vertices@,
            r.indices@ == indices@,
    {
        Mesh { vertices, indices }
    }

    pub fn index_count(&self) -> (n: u32)
        requires
            self.indices@.len() <= u32::MAX,
        ensures
            n == self.indices@.len(),
    {
        self.indices.len() as u32
    }

    /// The vertices of the unit cube: the eight corners at (±0.5, ±0.5,
    /// ±0.5), each carrying its precomputed smooth normal (the normalized
    /// sum of the unit normals of the adjacent triangles).
    pub open spec fn cube_vertices_spec() -> Seq<Vertex> {
        seq![
            Vertex {
                position: Vec3 { x: BITS_NEG_HALF, y: BITS_NEG_HALF, z: BITS_HALF },
                normal: Vec3 { x: 0xBED0_E560, y: 0xBED0_E560, z: 0x3F50_E560 },
            },
            Vertex {
                position: Vec3 { x: BITS_HALF, y: BITS_NEG_HALF, z: BITS_HALF },
                normal: Vec3 { x: 0x3F2A_C083, y: 0xBF2A_C083, z: 0x3EAA_7EFA },
            },
            Vertex {
                position: Vec3 { x: BITS_HALF, y: BITS_HALF, z: BITS_HALF },
                normal: Vec3 { x: 0x3ED0_E560, y: 0x3ED0_E560, z: 0x3F50_E560 },
            },
            Vertex {
                position: Vec3 { x: BITS_NEG_HALF, y: BITS_HALF, z: BITS_HALF },
                normal: Vec3 { x: 0xBF2A_C083, y: 0x3F2A_C083, z: 0x3EAA_7EFA },
            },
            Vertex {
                position: Vec3 { x: BITS_NEG_HALF, y: BITS_NEG_HALF, z: BITS_NEG_HALF },
                normal: Vec3 { x: 0xBF2A_C083, y: 0xBF2A_C083, z: 0xBEAA_7EFA },
            },
            Vertex {
                position: Vec3 { x: BITS_HALF, y: BITS_NEG_HALF, z: BITS_NEG_HALF },
                normal: Vec3 { x: 0x3ED0_E560, y: 0xBED0_E560, z: 0xBF50_E560 },
            },
            Vertex {
                position: Vec3 { x: BITS_HALF, y: BITS_HALF, z: BITS_NEG_HALF },
                normal: Vec3 { x: 0x3F2A_C083, y: 0x3F2A_C083, z: 0xBEAA_7EFA },
            },
            Vertex {
                position: Vec3 { x: BITS_NEG_HALF, y: BITS_HALF, z: BITS_NEG_HALF },
                normal: Vec3 { x: 0xBED0_E560, y: 0x3ED0_E560, z: 0xBF50_E560 },
            },
        ]
    }

    /// The 36 indices of the cube: two triangles per face, outward winding.
    pub open spec fn cube_indices_spec() -> Seq<u16> {
        seq![
            0u16, 1, 2, 2, 3, 0,
            5, 4, 7, 7, 6, 5,
            4, 0, 3, 3, 7, 4,
            1, 5, 6, 6, 2, 1,
            3, 2, 6, 6, 7, 3,
            4, 5, 1, 1, 0, 4,
        ]
    }

    /// The unit cube: 8 vertices, 12 triangles.
    pub fn cube() -> (r: Mesh)
        ensures
            r.vertices@ == Mesh::cube_vertices_spec(),
            r.indices@ == Mesh::cube_indices_spec(),
            r.vertices@.len() == 8,
            r.indices@.len() == 36,
            forall|i: int| 0 <= i < 36 ==> #[trigger] r.indices@[i] < 8,
    {
        let vertices: Vec<Vertex> = vec![
            Vertex::new(
                Vec3::new(BITS_NEG_HALF, BITS_NEG_HALF, BITS_HALF),
                Vec3::new(0xBED0_E560, 0xBED0_E560, 0x3F50_E560),
            ),
            Vertex::new(
                Vec3::new(BITS_HALF, BITS_NEG_HALF, BITS_HALF),
                Vec3::new(0x3F2A_C083, 0xBF2A_C083, 0x3EAA_7EFA),
            ),
            Vertex::new(
                Vec3::new(BITS_HALF, BITS_HALF, BITS_HALF),
                Vec3::new(0x3ED0_E560, 0x3ED0_E560, 0x3F50_E560),
            ),
            Vertex::new(
                Vec3::new(BITS_NEG_HALF, BITS_HALF, BITS_HALF),
                Vec3::new(0xBF2A_C083, 0x3F2A_C083, 0x3EAA_7EFA),
            ),
            Vertex::new(
                Vec3::new(BITS_NEG_HALF, BITS_NEG_HALF, BITS_NEG_HALF),
                Vec3::new(0xBF2A_C083, 0xBF2A_C083, 0xBEAA_7EFA),
            ),
            Vertex::new(
                Vec3::new(BITS_HALF, BITS_NEG_HALF, BITS_NEG_HALF),
                Vec3::new(0x3ED0_E560, 0xBED0_E560, 0xBF50_E560),
            ),
            Vertex::new(
                Vec3::new(BITS_HALF, BITS_HALF, BITS_NEG_HALF),
                Vec3::new(0x3F2A_C083, 0x3F2A_C083, 0xBEAA_7EFA),
            ),
            Vertex::new(
                Vec3::new(BITS_NEG_HALF, BITS_HALF, BITS_NEG_HALF),
                Vec3::new(0xBED0_E560, 0x3ED0_E560, 0xBF50_E560),
            ),
        ];

        let indices: Vec<u16> = vec![
            0, 1, 2, 2, 3, 0,
            5, 4, 7, 7, 6, 5,
            4, 0, 3, 3, 7, 4,
            1, 5, 6, 6, 2, 1,
            3, 2, 6, 6, 7, 3,
            4, 5, 1, 1, 0, 4,
        ];

        proof {
            assert(vertices@ =~= Mesh::cube_vertices_spec());
            assert(indices@ =~= Mesh::cube_indices_spec());
        }

        Mesh { vertices, indices }
    }

    /// The unit cone: apex and base-centre vertices, then `segments` ring
    /// vertices whose x/z coordinates come from `ring` (the circle profile
    /// computed by the numeric layer); side triangles fan from the apex,
    /// base triangles from the base centre.
    pub fn cone(segments: u16, ring: &Vec<(u32, u32)>) -> (r: Mesh)
        requires
            ring@.len() == segments as int,
            segments <= 65534,
        ensures
            r.vertices@.len() == 2 + segments as int,
            r.vertices@[0] == cone_apex_vertex(),
            r.vertices@[1] == cone_base_vertex(),
            forall|i: int|
                0 <= i < segments ==> r.vertices@[2 + i] == cone_ring_vertex(ring@[i]),
            r.indices@.len() == 6 * segments as int,
            forall|i: int| 0 <= i < segments ==> cone_side_ok(r.indices@, segments as int, i),
            forall|i: int| 0 <= i < segments ==> cone_base_ok(r.indices@, segments as int, i),
            forall|k: int|
                0 <= k < r.indices@.len() ==> (#[trigger] r.indices@[k]) < 2 + segments as int,
    {
        let mut vertices: Vec<Vertex> = Vec::new();
        let mut indices: Vec<u16> = Vec::new();

        vertices.push(Vertex::new(Vec3::new(BITS_ZERO, BITS_HALF, BITS_ZERO), Vec3::zero()));
        vertices.push(Vertex::new(Vec3::new(BITS_ZERO, BITS_NEG_HALF, BITS_ZERO), Vec3::zero()));

        let mut i: u16 = 0;
        while i < segments
            invariant
                ring@.len() == segments as int,
                i <= segments,
                vertices@.len() == 2 + i as int,
                vertices@[0] == cone_apex_vertex(),
                vertices@[1] == cone_base_vertex(),
                forall|j: int| 0 <= j < i ==> vertices@[2 + j] == cone_ring_vertex(ring@[j]),
            decreases segments - i,
        {
            let p = ring[i as usize];
            vertices.push(Vertex::new(Vec3::new(p.0, BITS_NEG_HALF, p.1), Vec3::zero()));
            i = i + 1;
        }

        let mut i: u16 = 0;
        while i < segments
            invariant
                segments <= 65534,
                i <= segments,
                indices@.len() == 3 * i as int,
                forall|j: int| 0 <= j < i ==> cone_side_ok(indices@, segments as int, j),
                forall|k: int|
                    0 <= k < indices@.len() ==> (#[trigger] indices@[k]) < 2 + segments as int,
            decreases segments - i,
        {
            let next: u16 = if i + 1 < segments {
                i + 1
            } else {
                0
            };
            let ghost before = indices@;
            indices.push(0);
            indices.push(2 + next);
            indices.push(2 + i);
            proof {
                assert forall|j: int| 0 <= j < i + 1 implies cone_side_ok(
                    indices@,
                    segments as int,
                    j,
                ) by {
                    if j < i {
                        assert(cone_side_ok(before, segments as int, j));
                        assert(indices@[3 * j] == before[3 * j]);
                        assert(indices@[3 * j + 1] == before[3 * j + 1]);
                        assert(indices@[3 * j + 2] == before[3 * j + 2]);
                    } else {
                        assert(indices@[3 * j] == 0);
                    }
                }
            }
            i = i + 1;
        }

        let mut i: u16 = 0;
        while i < segments
            invariant
                segments <= 65534,
                i <= segments,
                indices@.len() == 3 * segments as int + 3 * i as int,
                forall|j: int| 0 <= j < segments ==> cone_side_ok(indices@, segments as int, j),
                forall|j: int| 0 <= j < i ==> cone_base_ok(indices@, segments as int, j),
                forall|k: int|
                    0 <= k < indices@.len() ==> (#[trigger] indices@[k]) < 2 + segments as int,
            decreases segments - i,
        {
            let next: u16 = if i + 1 < segments {
                i + 1
            } else {
                0
            };
            let ghost before = indices@;
            indices.push(1);
            indices.push(2 + i);
            indices.push(2 + next);
            proof {
                let s = segments as int;
                assert forall|j: int| 0 <= j < s implies cone_side_ok(indices@, s, j) by {
                    assert(cone_side_ok(before, s, j));
                    assert(indices@[3 * j] == before[3 * j]);
                    assert(indices@[3 * j + 1] == before[3 * j + 1]);
                    assert(indices@[3 * j + 2] == before[3 * j + 2]);
                }
                assert forall|j: int| 0 <= j < i + 1 implies cone_base_ok(indices@, s, j) by {
                    if j < i {
                        assert(cone_base_ok(before, s, j));
                        assert(indices@[3 * s + 3 * j] == before[3 * s + 3 * j]);
                        assert(indices@[3 * s + 3 * j + 1] == before[3 * s + 3 * j + 1]);
                        assert(indices@[3 * s + 3 * j + 2] == before[3 * s + 3 * j + 2]);
                    } else {
                        assert(indices@[3 * s + 3 * j] == 1);
                    }
                }
            }
            i = i + 1;
        }

        Mesh { vertices, indices }
    }

    /// The unit cylinder. Vertices come in four rings of `segments`: the
    /// bottom and top circles at the outer profile, each paired with a
    /// degenerate inner ring at the axis (`inner`, radius zero), which the
    /// cap triangles fan against. `outer` and `inner` are the circle
    /// profiles from the numeric layer.
    pub fn cylinder(segments: u16, outer: &Vec<(u32, u32)>, inner: &Vec<(u32, u32)>) -> (r: Mesh)
        requires
            outer@.len() == segments as int,
            inner@.len() == segments as int,
            segments <= 16384,
        ensures
            r.vertices@.len() == 4 * segments as int,
            forall|i: int|
                0 <= i < segments ==> cylinder_rings_ok(
                    r.vertices@,
                    outer@,
                    inner@,
                    segments as int,
                    i,
                ),
            r.indices@.len() == 24 * segments as int,
            forall|i: int|
                0 <= i < segments ==> cylinder_cap_bottom_ok(r.indices@, segments as int, i),
            forall|i: int|
                0 <= i < segments ==> cylinder_cap_top_ok(r.indices@, segments as int, i),
            forall|i: int|
                0 <= i < segments ==> cylinder_side_ok(r.indices@, segments as int, i),
            forall|k: int|
                0 <= k < r.indices@.len() ==> (#[trigger] r.indices@[k]) < 4 * segments as int,
    {
        let mut vertices: Vec<Vertex> = Vec::new();
        let mut indices: Vec<u16> = Vec::new();

        push_ring(&mut vertices, outer, BITS_NEG_HALF);
        push_ring(&mut vertices, inner, BITS_NEG_HALF);
        push_ring(&mut vertices, outer, BITS_HALF);
        push_ring(&mut vertices, inner, BITS_HALF);
        proof {
            let s = segments as int;
            assert forall|i: int| 0 <= i < s implies cylinder_rings_ok(
                vertices@,
                outer@,
                inner@,
                s,
                i,
            ) by {
                assert(vertices@[i] == ring_vertex(outer@[i], BITS_NEG_HALF));
                assert(vertices@[s + i] == ring_vertex(inner@[i], BITS_NEG_HALF));
                assert(vertices@[2 * s + i] == ring_vertex(outer@[i], BITS_HALF));
                assert(vertices@[3 * s + i] == ring_vertex(inner@[i], BITS_HALF));
            }
        }

        let mut i: u16 = 0;
        while i < segments
            invariant
                segments <= 16384,
                i <= segments,
                indices@.len() == 6 * i as int,
                forall|j: int| 0 <= j < i ==> cylinder_cap_bottom_ok(indices@, segments as int, j),
                forall|k: int|
                    0 <= k < indices@.len() ==> (#[trigger] indices@[k]) < 4 * segments as int,
            decreases segments - i,
        {
            let next: u16 = (i + 1) % segments;
            proof {
                if i + 1 < segments {
                    vstd::arithmetic::div_mod::lemma_small_mod((i + 1) as nat, segments as nat);
                } else {
                    vstd::arithmetic::div_mod::lemma_mod_self_0(segments as int);
                }
                assert(next as int == ring_next(segments as int, i as int));
            }
            let ghost before = indices@;
            indices.push(i);
            indices.push(segments + next);
            indices.push(segments + i);
            indices.push(i);
            indices.push(next);
            indices.push(segments + next);
            proof {
                let s = segments as int;
                assert(forall|k: int| 0 <= k < before.len() ==> indices@[k] == before[k]);
                assert forall|j: int| 0 <= j < i + 1 implies cylinder_cap_bottom_ok(
                    indices@,
                    s,
                    j,
                ) by {
                    if j < i {
                        assert(cylinder_cap_bottom_ok(before, s, j));
                    }
                }
            }
            i = i + 1;
        }

        let mut i: u16 = 0;
        while i < segments
            invariant
                segments <= 16384,
                i <= segments,
                indices@.len() == 6 * segments as int + 6 * i as int,
                forall|j: int| 0 <= j < segments ==> cylinder_cap_bottom_ok(indices@, segments as int, j),
                forall|j: int| 0 <= j < i ==> cylinder_cap_top_ok(indices@, segments as int, j),
                forall|k: int|
                    0 <= k < indices@.len() ==> (#[trigger] indices@[k]) < 4 * segments as int,
            decreases segments - i,
        {
            let next: u16 = (i + 1) % segments;
            proof {
                if i + 1 < segments {
                    vstd::arithmetic::div_mod::lemma_small_mod((i + 1) as nat, segments as nat);
                } else {
                    vstd::arithmetic::div_mod::lemma_mod_self_0(segments as int);
                }
                assert(next as int == ring_next(segments as int, i as int));
            }
            let base: u16 = 2 * segments;
            let ghost before = indices@;
            indices.push(base + i);
            indices.push(base + segments + i);
            indices.push(base + segments + next);
            indices.push(base + i);
            indices.push(base + segments + next);
            indices.push(base + next);
            proof {
                let s = segments as int;
                assert(forall|k: int| 0 <= k < before.len() ==> indices@[k] == before[k]);
                assert forall|j: int| 0 <= j < segments implies cylinder_cap_bottom_ok(
                    indices@,
                    s,
                    j,
                ) by {
                    assert(cylinder_cap_bottom_ok(before, s, j));
                }
                assert forall|j: int| 0 <= j < i + 1 implies cylinder_cap_top_ok(
                    indices@,
                    s,
                    j,
                ) by {
                    if j < i {
                        assert(cylinder_cap_top_ok(before, s, j));
                    }
                }
            }
            i = i + 1;
        }

        let mut i: u16 = 0;
        while i < segments
            invariant
                segments <= 16384,
                i <= segments,
                indices@.len() == 12 * segments as int + 12 * i as int,
                forall|j: int| 0 <= j < segments ==> cylinder_cap_bottom_ok(indices@, segments as int, j),
                forall|j: int| 0 <= j < segments ==> cylinder_cap_top_ok(indices@, segments as int, j),
                forall|j: int| 0 <= j < i ==> cylinder_side_ok(indices@, segments as int, j),
                forall|k: int|
                    0 <= k < indices@.len() ==> (#[trigger] indices@[k]) < 4 * segments as int,
            decreases segments - i,
        {
            let next: u16 = (i + 1) % segments;
            proof {
                if i + 1 < segments {
                    vstd::arithmetic::div_mod::lemma_small_mod((i + 1) as nat, segments as nat);
                } else {
                    vstd::arithmetic::div_mod::lemma_mod_self_0(segments as int);
                }
                assert(next as int == ring_next(segments as int, i as int));
            }
            let base: u16 = 2 * segments;
            let ghost before = indices@;
            indices.push(i);
            indices.push(base + i);
            indices.push(base + next);
            indices.push(i);
            indices.push(base + next);
            indices.push(next);
            indices.push(segments + i);
            indices.push(base + segments + next);
            indices.push(base + segments + i);
            indices.push(segments + i);
            indices.push(segments + next);
            indices.push(base + segments + next);
            proof {
                let s = segments as int;
                assert(forall|k: int| 0 <= k < before.len() ==> indices@[k] == before[k]);
                assert forall|j: int| 0 <= j < segments implies cylinder_cap_bottom_ok(
                    indices@,
                    s,
                    j,
                ) by {
                    assert(cylinder_cap_bottom_ok(before, s, j));
                }
                assert forall|j: int| 0 <= j < segments implies cylinder_cap_top_ok(
                    indices@,
                    s,
                    j,
                ) by {
                    assert(cylinder_cap_top_ok(before, s, j));
                }
                assert forall|j: int| 0 <= j < i + 1 implies cylinder_side_ok(
                    indices@,
                    s,
                    j,
                ) by {
                    if j < i {
                        assert(cylinder_side_ok(before, s, j));
                    }
                }
            }
            i = i + 1;
        }

        Mesh { vertices, indices }
    }

    /// The unit sphere on a `(segments+1) x (segments+1)` latitude/longitude
    /// grid. `grid` holds the grid positions in row-major order (computed by
    /// the numeric layer); each vertex's normal is its position, which on a
    /// unit sphere is already the outward unit normal, so no separate
    /// normal pass is needed.
    pub fn sphere(segments: u16, grid: &Vec<Vec3>) -> (r: Mesh)
        requires
            grid@.len() == (segments as int + 1) * (segments as int + 1),
            segments <= 255,
        ensures
            r.vertices@.len() == (segments as int + 1) * (segments as int + 1),
            forall|k: int|
                0 <= k < grid@.len() ==> r.vertices@[k] == (Vertex {
                    position: grid@[k],
                    normal: grid@[k],
                }),
            r.indices@.len() == 6 * (segments as int * segments as int),
            forall|y: int, x: int|
                0 <= y < segments && 0 <= x < segments ==> sphere_cell_ok(
                    r.indices@,
                    segments as int,
                    y,
                    x,
                ),
            forall|k: int|
                0 <= k < r.indices@.len() ==> (#[trigger] r.indices@[k]) < (segments as int + 1)
                    * (segments as int + 1),
    {
        let mut vertices: Vec<Vertex> = Vec::new();
        let mut indices: Vec<u16> = Vec::new();

        let total = grid.len();
        let mut k: usize = 0;
        while k < total
            invariant
                total == grid@.len(),
                k <= total,
                vertices@.len() == k,
                forall|j: int|
                    0 <= j < k ==> vertices@[j] == (Vertex {
                        position: grid@[j],
                        normal: grid@[j],
                    }),
            decreases total - k,
        {
            let p = grid[k];
            vertices.push(Vertex::new(p, p));
            k = k + 1;
        }

        let ring: u16 = segments + 1;
        let mut y: u16 = 0;
        while y < segments
            invariant
                segments <= 255,
                ring == segments + 1,
                y <= segments,
                indices@.len() == 6 * (y as int * segments as int),
                forall|a: int, b: int|
                    0 <= a < y && 0 <= b < segments ==> sphere_cell_ok(
                        indices@,
                        segments as int,
                        a,
                        b,
                    ),
                forall|k: int|
                    0 <= k < indices@.len() ==> (#[trigger] indices@[k]) < (segments as int + 1)
                        * (segments as int + 1),
            decreases segments - y,
        {
            let mut x: u16 = 0;
            while x < segments
                invariant
                    segments <= 255,
                    ring == segments + 1,
                    y < segments,
                    x <= segments,
                    indices@.len() == 6 * (y as int * segments as int + x as int),
                    forall|a: int, b: int|
                        0 <= a < y && 0 <= b < segments ==> sphere_cell_ok(
                            indices@,
                            segments as int,
                            a,
                            b,
                        ),
                    forall|b: int|
                        0 <= b < x ==> sphere_cell_ok(indices@, segments as int, y as int, b),
                    forall|k: int|
                        0 <= k < indices@.len() ==> (#[trigger] indices@[k]) < (segments as int
                            + 1) * (segments as int + 1),
                decreases segments - x,
            {
                proof {
                    assert(y as int * ring as int <= 254 * 256) by (nonlinear_arith)
                        requires
                            y as int <= 254,
                            ring as int <= 256,
                            0 <= y as int,
                            0 <= ring as int,
                    ;
                }
                let i: u16 = y * ring + x;
                let ghost before = indices@;
                indices.push(i);
                indices.push(i + 1);
                indices.push(i + ring);
                indices.push(i + 1);
                indices.push(i + ring + 1);
                indices.push(i + ring);
                proof {
                    let s = segments as int;
                    assert(forall|c: int| 0 <= c < before.len() ==> indices@[c] == before[c]);
                    assert(i as int == y as int * (s + 1) + x as int) by (nonlinear_arith)
                        requires
                            ring as int == s + 1,
                            i as int == y as int * ring as int + x as int,
                    ;
                    assert(i as int + s + 2 < (s + 1) * (s + 1)) by (nonlinear_arith)
                        requires
                            i as int == y as int * (s + 1) + x as int,
                            0 <= y as int <= s - 1,
                            0 <= x as int <= s - 1,
                    ;
                    assert forall|a: int, b: int|
                        0 <= a < y && 0 <= b < segments implies sphere_cell_ok(
                        indices@,
                        s,
                        a,
                        b,
                    ) by {
                        assert(sphere_cell_ok(before, s, a, b));
                        assert(a * s + b < y as int * s) by (nonlinear_arith)
                            requires
                                0 <= a,
                                a < y as int,
                                0 <= b < s,
                        ;
                    }
                    assert forall|b: int| 0 <= b < x + 1 implies sphere_cell_ok(
                        indices@,
                        s,
                        y as int,
                        b,
                    ) by {
                        if b < x {
                            assert(sphere_cell_ok(before, s, y as int, b));
                        } else {
                            assert(indices@[6 * (y as int * s + b)] == i);
                        }
                    }
                }
                x = x + 1;
            }
            proof {
                assert(6 * (y as int * segments as int + segments as int) == 6 * ((y as int + 1)
                    * segments as int)) by (nonlinear_arith);
            }
            y = y + 1;
        }

        Mesh { vertices, indices }
    }
}

/// Append one ring of vertices on the circle profile at height `y`.
fn push_ring(vertices: &mut Vec<Vertex>, profile: &Vec<(u32, u32)>, y: u32)
    ensures
        final(vertices)@.len() == old(vertices)@.len() + profile@.len(),
        forall|k: int| 0 <= k < old(vertices)@.len() ==> final(vertices)@[k] == old(vertices)@[k],
        forall|j: int|
            0 <= j < profile@.len() ==> final(vertices)@[old(vertices)@.len() + j] == ring_vertex(
                profile@[j],
                y,
            ),
{
    let ghost base = vertices@.len();
    let n = profile.len();
    let mut i: usize = 0;
    while i < n
        invariant
            n == profile@.len(),
            i <= n,
            vertices@.len() == base + i,
            forall|k: int| 0 <= k < base ==> vertices@[k] == old(vertices)@[k],
            forall|j: int| 0 <= j < i ==> vertices@[base + j] == ring_vertex(profile@[j], y),
        decreases n - i,
    {
        let p = profile[i];
        vertices.push(Vertex::new(Vec3::new(p.0, y, p.1), Vec3::zero()));
        i = i + 1;
    }
}

/// Successor of `i` on a ring of `s` vertices, wrapping to 0.
pub open spec fn ring_next(s: int, i: int) -> int {
    if i + 1 < s {
        i + 1
    } else {
        0
    }
}

/// The apex of the unit cone, at (0, 0.5, 0), normal not yet generated.
pub open spec fn cone_apex_vertex() -> Vertex {
    Vertex {
        position: Vec3 { x: BITS_ZERO, y: BITS_HALF, z: BITS_ZERO },
        normal: Vec3::spec_zero(),
    }
}

/// The base centre of the unit cone, at (0, -0.5, 0).
pub open spec fn cone_base_vertex() -> Vertex {
    Vertex {
        position: Vec3 { x: BITS_ZERO, y: BITS_NEG_HALF, z: BITS_ZERO },
        normal: Vec3::spec_zero(),
    }
}

/// A ring vertex on the circle profile `p` = (x, z) at height `y`, normal
/// not yet generated.
pub open spec fn ring_vertex(p: (u32, u32), y: u32) -> Vertex {
    Vertex {
        position: Vec3 { x: p.0, y, z: p.1 },
        normal: Vec3::spec_zero(),
    }
}

/// A cone base-ring vertex on the circle profile `p` = (x, z), at height
/// -0.5.
pub open spec fn cone_ring_vertex(p: (u32, u32)) -> Vertex {
    ring_vertex(p, BITS_NEG_HALF)
}

/// Side triangle `i` of the cone: apex, next ring vertex, ring vertex `i`.
pub open spec fn cone_side_ok(ind: Seq<u16>, s: int, i: int) -> bool {
    &&& ind[3 * i] as int == 0
    &&& ind[3 * i + 1] as int == 2 + ring_next(s, i)
    &&& ind[3 * i + 2] as int == 2 + i
}

/// Base triangle `i` of the cone: base centre, ring vertex `i`, next ring
/// vertex.
pub open spec fn cone_base_ok(ind: Seq<u16>, s: int, i: int) -> bool {
    &&& ind[3 * s + 3 * i] as int == 1
    &&& ind[3 * s + 3 * i + 1] as int == 2 + i
    &&& ind[3 * s + 3 * i + 2] as int == 2 + ring_next(s, i)
}

/// Slot `i` of the four cylinder vertex rings: bottom outer at `i`, bottom
/// inner at `s + i`, top outer at `2s + i`, top inner at `3s + i`.
pub open spec fn cylinder_rings_ok(
    v: Seq<Vertex>,
    outer: Seq<(u32, u32)>,
    inner: Seq<(u32, u32)>,
    s: int,
    i: int,
) -> bool {
    &&& v[i] == ring_vertex(outer[i], BITS_NEG_HALF)
    &&& v[s + i] == ring_vertex(inner[i], BITS_NEG_HALF)
    &&& v[2 * s + i] == ring_vertex(outer[i], BITS_HALF)
    &&& v[3 * s + i] == ring_vertex(inner[i], BITS_HALF)
}

/// Cap quad `i` of the bottom ring (two triangles between the outer ring
/// and the degenerate inner ring), at index offset `6i`.
pub open spec fn cylinder_cap_bottom_ok(ind: Seq<u16>, s: int, i: int) -> bool {
    &&& ind[6 * i] as int == i
    &&& ind[6 * i + 1] as int == s + ring_next(s, i)
    &&& ind[6 * i + 2] as int == s + i
    &&& ind[6 * i + 3] as int == i
    &&& ind[6 * i + 4] as int == ring_next(s, i)
    &&& ind[6 * i + 5] as int == s + ring_next(s, i)
}

/// Cap quad `i` of the top ring, at index offset `6s + 6i`.
pub open spec fn cylinder_cap_top_ok(ind: Seq<u16>, s: int, i: int) -> bool {
    &&& ind[6 * s + 6 * i] as int == 2 * s + i
    &&& ind[6 * s + 6 * i + 1] as int == 3 * s + i
    &&& ind[6 * s + 6 * i + 2] as int == 3 * s + ring_next(s, i)
    &&& ind[6 * s + 6 * i + 3] as int == 2 * s + i
    &&& ind[6 * s + 6 * i + 4] as int == 3 * s + ring_next(s, i)
    &&& ind[6 * s + 6 * i + 5] as int == 2 * s + ring_next(s, i)
}

/// Grid cell `(y, x)` of the sphere: two triangles between latitude rows
/// `y` and `y + 1`, at index offset `6(ys + x)`; vertex `i` is grid point
/// `(y, x)` and the row stride is `s + 1`.
pub open spec fn sphere_cell_ok(ind: Seq<u16>, s: int, y: int, x: int) -> bool {
    let q = 6 * (y * s + x);
    let i = y * (s + 1) + x;
    &&& ind[q] as int == i
    &&& ind[q + 1] as int == i + 1
    &&& ind[q + 2] as int == i + s + 1
    &&& ind[q + 3] as int == i + 1
    &&& ind[q + 4] as int == i + s + 2
    &&& ind[q + 5] as int == i + s + 1
}

/// Side quads `i`: outer wall and inner wall between the bottom and top
/// rings, at index offset `12s + 12i`.
pub open spec fn cylinder_side_ok(ind: Seq<u16>, s: int, i: int) -> bool {
    &&& ind[12 * s + 12 * i] as int == i
    &&& ind[12 * s + 12 * i + 1] as int == 2 * s + i
    &&& ind[12 * s + 12 * i + 2] as int == 2 * s + ring_next(s, i)
    &&& ind[12 * s + 12 * i + 3] as int == i
    &&& ind[12 * s + 12 * i + 4] as int == 2 * s + ring_next(s, i)
    &&& ind[12 * s + 12 * i + 5] as int == ring_next(s, i)
    &&& ind[12 * s + 12 * i + 6] as int == s + i
    &&& ind[12 * s + 12 * i + 7] as int == 3 * s + ring_next(s, i)
    &&& ind[12 * s + 12 * i + 8] as int == 3 * s + i
    &&& ind[12 * s + 12 * i + 9] as int == s + i
    &&& ind[12 * s + 12 * i + 10] as int == s + ring_next(s, i)
    &&& ind[12 * s + 12 * i + 11] as int == 3 * s + ring_next(s, i)
}

} // verus!
