//! Tests of the primitive-shape generators: counts, index topology and the
//! numeric properties of the generated normals.

use neothauma::math::Vec3;
use neothauma::mesh::Mesh;

fn bits(x: f32) -> u32 {
    x.to_bits()
}

/// The rounding step of the numeric layer: values are snapped to three
/// decimals and tiny magnitudes to zero before they are stored.
fn clean(value: f32) -> f32 {
    if value.abs() < 1e-3 {
        0.0
    } else {
        (value * 1000.0).round() / 1000.0
    }
}

/// Circle profile of radius `radius`: the x/z bit patterns of `segments`
/// points, as the numeric layer feeds them to the cone and cylinder
/// builders.
fn circle_profile(segments: u16, radius: f32) -> Vec<(u32, u32)> {
    let mut out: Vec<(u32, u32)> = Vec::new();
    for i in 0..segments {
        let theta: f32 = i as f32 / segments as f32 * std::f32::consts::TAU;
        let x: f32 = clean(radius * theta.cos());
        let z: f32 = clean(radius * theta.sin());
        out.push((bits(x), bits(z)));
    }
    out
}

/// Latitude/longitude grid of the unit sphere, row-major, as the numeric
/// layer feeds it to the sphere builder.
fn sphere_grid(segments: u16) -> Vec<Vec3> {
    let mut out: Vec<Vec3> = Vec::new();
    for y in 0..=segments {
        let v: f32 = y as f32 / segments as f32;
        let theta: f32 = v * std::f32::consts::PI;
        for x in 0..=segments {
            let u: f32 = x as f32 / segments as f32;
            let phi: f32 = u * std::f32::consts::TAU;
            out.push(Vec3::new(
                bits(theta.sin() * phi.cos()),
                bits(theta.cos()),
                bits(theta.sin() * phi.sin()),
            ));
        }
    }
    out
}

fn length_of(v: &Vec3) -> f32 {
    let x = f32::from_bits(v.x);
    let y = f32::from_bits(v.y);
    let z = f32::from_bits(v.z);
    (x * x + y * y + z * z).sqrt()
}

#[test]
fn cube_has_eight_vertices_and_twelve_triangles() {
    let mesh = Mesh::cube();
    assert_eq!(mesh.vertices.len(), 8);
    assert_eq!(mesh.indices.len(), 36);
    let expected: Vec<u16> = vec![
        0, 1, 2, 2, 3, 0, 5, 4, 7, 7, 6, 5, 4, 0, 3, 3, 7, 4, 1, 5, 6, 6, 2, 1, 3, 2, 6, 6, 7, 3,
        4, 5, 1, 1, 0, 4,
    ];
    assert_eq!(mesh.indices, expected);
    for &i in &mesh.indices {
        assert!(i < 8);
    }
    assert_eq!(mesh.vertices[0].position.x, bits(-0.5));
    assert_eq!(mesh.vertices[0].position.y, bits(-0.5));
    assert_eq!(mesh.vertices[0].position.z, bits(0.5));
    assert_eq!(mesh.vertices[6].position.x, bits(0.5));
    assert_eq!(mesh.vertices[6].position.y, bits(0.5));
    assert_eq!(mesh.vertices[6].position.z, bits(-0.5));
}

#[test]
fn cube_normals_have_unit_length() {
    let mesh = Mesh::cube();
    for vertex in &mesh.vertices {
        let len = length_of(&vertex.normal);
        assert!((len - 1.0).abs() < 5e-3, "normal length {}", len);
    }
}

#[test]
fn cube_index_count_matches_index_buffer() {
    let mesh = Mesh::cube();
    assert_eq!(mesh.index_count(), 36);
}

#[test]
fn cone_counts_and_fan_topology() {
    let segments: u16 = 8;
    let ring = circle_profile(segments, 0.5);
    let mesh = Mesh::cone(segments, &ring);

    assert_eq!(mesh.vertices.len(), 10);
    assert_eq!(mesh.indices.len(), 48);

    // apex and base centre
    assert_eq!(mesh.vertices[0].position.y, bits(0.5));
    assert_eq!(mesh.vertices[1].position.y, bits(-0.5));
    // ring vertices carry the profile at the base height
    for i in 0..segments as usize {
        let v = &mesh.vertices[2 + i];
        assert_eq!(v.position.x, ring[i].0);
        assert_eq!(v.position.y, bits(-0.5));
        assert_eq!(v.position.z, ring[i].1);
    }
    // side fan from the apex
    assert_eq!(&mesh.indices[0..3], &[0u16, 3, 2][..]);
    assert_eq!(&mesh.indices[21..24], &[0u16, 2, 9][..]);
    // base fan from the base centre
    assert_eq!(&mesh.indices[24..27], &[1u16, 2, 3][..]);
    assert_eq!(&mesh.indices[45..48], &[1u16, 9, 2][..]);
    // every index names an existing vertex
    for &i in &mesh.indices {
        assert!((i as usize) < mesh.vertices.len());
    }
}

#[test]
fn cone_with_zero_segments_is_degenerate() {
    let ring: Vec<(u32, u32)> = Vec::new();
    let mesh = Mesh::cone(0, &ring);
    assert_eq!(mesh.vertices.len(), 2);
    assert_eq!(mesh.indices.len(), 0);
}

#[test]
fn cylinder_counts_and_topology() {
    let segments: u16 = 4;
    let outer = circle_profile(segments, 1.0);
    let inner = circle_profile(segments, 0.0);
    let mesh = Mesh::cylinder(segments, &outer, &inner);

    assert_eq!(mesh.vertices.len(), 16);
    assert_eq!(mesh.indices.len(), 96);

    // ring blocks: bottom outer, bottom inner, top outer, top inner
    for i in 0..segments as usize {
        assert_eq!(mesh.vertices[i].position.x, outer[i].0);
        assert_eq!(mesh.vertices[i].position.y, bits(-0.5));
        assert_eq!(mesh.vertices[4 + i].position.x, inner[i].0);
        assert_eq!(mesh.vertices[8 + i].position.x, outer[i].0);
        assert_eq!(mesh.vertices[8 + i].position.y, bits(0.5));
        assert_eq!(mesh.vertices[12 + i].position.x, inner[i].0);
    }

    // bottom cap, first quad
    assert_eq!(&mesh.indices[0..6], &[0u16, 5, 4, 0, 1, 5][..]);
    // top cap, first quad (offset 6s = 24; base 2s = 8)
    assert_eq!(&mesh.indices[24..30], &[8u16, 12, 13, 8, 13, 9][..]);
    // walls, last quad wraps the ring (offset 12s + 12i = 48 + 36 = 84)
    assert_eq!(&mesh.indices[84..96], &[3u16, 11, 8, 3, 8, 0, 7, 12, 15, 7, 4, 12][..]);

    for &i in &mesh.indices {
        assert!((i as usize) < mesh.vertices.len());
    }
}

#[test]
fn sphere_vertex_count_is_grid_squared() {
    let segments: u16 = 4;
    let grid = sphere_grid(segments);
    let mesh = Mesh::sphere(segments, &grid);
    assert_eq!(mesh.vertices.len(), 25);
    assert_eq!(mesh.indices.len(), 96);
}

#[test]
fn sphere_normals_equal_positions_and_are_unit() {
    let segments: u16 = 6;
    let grid = sphere_grid(segments);
    let mesh = Mesh::sphere(segments, &grid);
    assert_eq!(mesh.vertices.len(), 49);
    for vertex in &mesh.vertices {
        assert_eq!(vertex.normal, vertex.position);
        let len = length_of(&vertex.normal);
        assert!((len - 1.0).abs() < 1e-5, "normal length {}", len);
    }
}

#[test]
fn sphere_at_largest_supported_size() {
    let segments: u16 = 255;
    let grid = sphere_grid(segments);
    let mesh = Mesh::sphere(segments, &grid);
    assert_eq!(mesh.vertices.len(), 256 * 256);
    assert_eq!(mesh.indices.len(), 6 * 255 * 255);
    // the final cell touches the last grid point, index 65535
    assert_eq!(mesh.indices[mesh.indices.len() - 2], u16::MAX);
    for &i in &mesh.indices {
        assert!((i as usize) < mesh.vertices.len());
    }
}

#[test]
fn cylinder_at_largest_supported_size() {
    let segments: u16 = 16384;
    let outer = circle_profile(segments, 1.0);
    let inner = circle_profile(segments, 0.0);
    let mesh = Mesh::cylinder(segments, &outer, &inner);
    assert_eq!(mesh.vertices.len(), 4 * 16384);
    assert_eq!(mesh.indices.len(), 24 * 16384);
    for &i in &mesh.indices {
        assert!((i as usize) < mesh.vertices.len());
    }
}

#[test]
fn sphere_cell_topology() {
    let segments: u16 = 4;
    let grid = sphere_grid(segments);
    let mesh = Mesh::sphere(segments, &grid);
    // first cell: grid point 0, its right neighbour, and the row below
    // (row stride 5)
    assert_eq!(&mesh.indices[0..6], &[0u16, 1, 5, 1, 6, 5][..]);
    // last cell: y = 3, x = 3, offset 6*(3*4+3) = 90, i = 3*5+3 = 18
    assert_eq!(&mesh.indices[90..96], &[18u16, 19, 23, 19, 24, 23][..]);
    for &i in &mesh.indices {
        assert!((i as usize) < mesh.vertices.len());
    }
}
