use painterly::mesh::{gen_buffers, Corners, Mesh, Vertex};
use painterly::scalar::{Scalar, Vector2, Vector3};

fn s(x: f32) -> Scalar {
    Scalar::from_bits(x.to_bits())
}

fn flat(xs: &[f32]) -> Vec<Scalar> {
    xs.iter().map(|&x| s(x)).collect()
}

fn v3(x: f32, y: f32, z: f32) -> Vector3 {
    Vector3 { x: s(x), y: s(y), z: s(z) }
}

fn v2(x: f32, y: f32) -> Vector2 {
    Vector2 { x: s(x), y: s(y) }
}

/// A unit quad in the plane z = 0, split into two triangles.
fn quad() -> Mesh {
    Mesh {
        positions: flat(&[0., 0., 0., 1., 0., 0., 1., 1., 0., 0., 1., 0.]),
        normals: flat(&[0., 0., 1., 0., 0., 1., 0., 0., 1., 0., 0., 1.]),
        texcoords: flat(&[0., 0., 1., 0., 1., 1., 0., 1.]),
        indices: vec![0, 1, 2, 0, 2, 3],
    }
}

#[test]
fn triangles_are_counted_in_threes() {
    let mut mesh = quad();
    assert_eq!(mesh.triangle_count(), 2);
    assert_eq!(mesh.stray_indices(), 0);
    mesh.indices.push(1);
    assert_eq!(mesh.triangle_count(), 2);
    assert_eq!(mesh.stray_indices(), 1);
    mesh.indices.push(2);
    assert_eq!(mesh.triangle_count(), 2);
    assert_eq!(mesh.stray_indices(), 2);
    mesh.indices.push(3);
    assert_eq!(mesh.triangle_count(), 3);
    assert_eq!(mesh.stray_indices(), 0);
    mesh.indices.clear();
    assert_eq!(mesh.triangle_count(), 0);
}

#[test]
fn corners_are_fetched_through_the_indices() {
    let mesh = quad();
    assert!(mesh.is_well_indexed());
    assert_eq!(
        mesh.corners(1),
        Corners {
            a: v3(0., 0., 0.),
            b: v3(1., 1., 0.),
            c: v3(0., 1., 0.),
            a_normal: v3(0., 0., 1.),
            b_normal: v3(0., 0., 1.),
            c_normal: v3(0., 0., 1.),
            a_uv: v2(0., 0.),
            b_uv: v2(1., 1.),
            c_uv: v2(0., 1.),
        }
    );
    assert_eq!(mesh.corners(0).b, v3(1., 0., 0.));
    assert_eq!(mesh.corners(0).c_uv, v2(1., 1.));
}

#[test]
fn an_index_out_of_range_is_found() {
    let mut mesh = quad();
    mesh.indices[4] = 4;
    assert!(!mesh.is_well_indexed());
    let mut mesh = quad();
    mesh.normals.pop();
    assert!(!mesh.is_well_indexed());
    let mut mesh = quad();
    mesh.texcoords.truncate(6);
    assert!(!mesh.is_well_indexed());
    let mut mesh = quad();
    mesh.indices[0] = u32::MAX;
    assert!(!mesh.is_well_indexed());
}

#[test]
fn stray_indices_need_not_be_in_range() {
    let mut mesh = quad();
    mesh.indices.push(1000);
    mesh.indices.push(u32::MAX);
    assert!(mesh.is_well_indexed());
}

#[test]
fn buffers_hold_every_vertex_and_the_index_list() {
    let mesh = quad();
    assert!(mesh.has_agreeing_attributes());
    let (vertices, indices) = gen_buffers(&mesh);
    assert_eq!(indices, vec![0, 1, 2, 0, 2, 3]);
    assert_eq!(
        vertices,
        vec![
            Vertex { position: v3(0., 0., 0.), normal: v3(0., 0., 1.), tex_coords: v2(0., 0.) },
            Vertex { position: v3(1., 0., 0.), normal: v3(0., 0., 1.), tex_coords: v2(1., 0.) },
            Vertex { position: v3(1., 1., 0.), normal: v3(0., 0., 1.), tex_coords: v2(1., 1.) },
            Vertex { position: v3(0., 1., 0.), normal: v3(0., 0., 1.), tex_coords: v2(0., 1.) },
        ]
    );
}

#[test]
fn missing_attributes_are_zero() {
    let mesh = Mesh {
        positions: flat(&[1., 2., 3., 4., 5., 6., 7.]),
        normals: vec![],
        texcoords: vec![],
        indices: vec![0, 1],
    };
    assert!(mesh.has_agreeing_attributes());
    let (vertices, indices) = gen_buffers(&mesh);
    assert_eq!(indices, vec![0, 1]);
    assert_eq!(
        vertices,
        vec![
            Vertex { position: v3(1., 2., 3.), normal: Vector3::zero(), tex_coords: Vector2::zero() },
            Vertex { position: v3(4., 5., 6.), normal: Vector3::zero(), tex_coords: Vector2::zero() },
        ]
    );
}

#[test]
fn attribute_arrays_of_other_lengths_disagree() {
    let mut mesh = quad();
    mesh.normals.truncate(9);
    assert!(!mesh.has_agreeing_attributes());
    let mut mesh = quad();
    mesh.texcoords.truncate(2);
    assert!(!mesh.has_agreeing_attributes());
    let mut mesh = quad();
    mesh.normals.clear();
    assert!(mesh.has_agreeing_attributes());
    let (vertices, _) = gen_buffers(&mesh);
    assert_eq!(vertices[2].normal, Vector3::zero());
    assert_eq!(vertices[2].tex_coords, v2(1., 1.));
}
