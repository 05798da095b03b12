use lighthouse::mesh::{attribute_offsets, stride, Mesh, MeshError, Triangle};

fn words(vals: &[f32]) -> Vec<u32> {
    vals.iter().map(|v| v.to_bits()).collect()
}

fn pyramid_vertices() -> Vec<Vec<u32>> {
    vec![
        words(&[0.5, -0.5, 0.5, 1.0, 0.0]),
        words(&[-0.5, -0.5, 0.5, 0.0, 0.0]),
        words(&[-0.5, -0.5, -0.5, 1.0, 0.0]),
        words(&[0.5, -0.5, -0.5, 0.0, 0.0]),
        words(&[0.0, 0.5, 0.0, 0.5, 1.5]),
    ]
}

fn pyramid_indices() -> Vec<Triangle> {
    vec![
        Triangle { a: 0, b: 1, c: 4 },
        Triangle { a: 1, b: 2, c: 4 },
        Triangle { a: 2, b: 3, c: 4 },
        Triangle { a: 0, b: 3, c: 4 },
    ]
}

#[test]
fn attribute_sum_mismatch_reported() {
    let r = Mesh::new(pyramid_vertices(), vec![3, 1], pyramid_indices());
    assert_eq!(
        r.err(),
        Some(MeshError::AttributeSumMismatch { expected: 5, actual: 4 })
    );
}

#[test]
fn attribute_sum_mismatch_names_first_offending_vertex() {
    let mut vertices = pyramid_vertices();
    vertices[2] = words(&[1.0, 2.0, 3.0]);
    let r = Mesh::new(vertices, vec![3, 2], pyramid_indices());
    assert_eq!(
        r.err(),
        Some(MeshError::AttributeSumMismatch { expected: 3, actual: 5 })
    );
}

#[test]
fn index_out_of_range_reported() {
    let mut indices = pyramid_indices();
    indices.push(Triangle { a: 0, b: 1, c: 5 });
    let r = Mesh::new(pyramid_vertices(), vec![3, 2], indices);
    assert_eq!(
        r.err(),
        Some(MeshError::IndexOutOfRange { triangle_index: 4, vertex_index: 5, vertex_count: 5 })
    );
}

#[test]
fn index_equal_to_vertex_count_is_rejected() {
    let vertices = vec![words(&[1.0]), words(&[2.0])];
    let indices = vec![Triangle { a: 0, b: 1, c: 2 }];
    let r = Mesh::new(vertices, vec![1], indices);
    assert_eq!(
        r.err(),
        Some(MeshError::IndexOutOfRange { triangle_index: 0, vertex_index: 2, vertex_count: 2 })
    );
}

#[test]
fn vertex_size_check_takes_precedence_over_index_check() {
    let vertices = vec![words(&[1.0, 2.0])];
    let indices = vec![Triangle { a: 9, b: 9, c: 9 }];
    let r = Mesh::new(vertices, vec![3], indices);
    assert_eq!(
        r.err(),
        Some(MeshError::AttributeSumMismatch { expected: 2, actual: 3 })
    );
}

#[test]
fn construction_keeps_the_three_inputs() {
    let m = Mesh::new(pyramid_vertices(), vec![3, 2], pyramid_indices()).unwrap();
    assert_eq!(m.vertices, pyramid_vertices());
    assert_eq!(m.vert_attr, vec![3, 2]);
    assert_eq!(m.indices, pyramid_indices());
    assert_eq!(m.vertex_count(), 5);
    assert_eq!(m.components_per_vertex(), 5);
}

#[test]
fn offsets_for_position_texcoord_layout() {
    let offs = attribute_offsets(&vec![3, 2]);
    assert_eq!(offs, vec![(0, 3), (12, 2)]);
    assert_eq!(stride(&vec![3, 2]), 20);
}

#[test]
fn offsets_for_longer_layout() {
    let offs = attribute_offsets(&vec![3, 3, 2, 1]);
    assert_eq!(offs, vec![(0, 3), (12, 3), (24, 2), (32, 1)]);
    assert_eq!(stride(&vec![3, 3, 2, 1]), 36);
}

#[test]
fn offsets_for_empty_layout() {
    assert_eq!(attribute_offsets(&vec![]), vec![]);
    assert_eq!(stride(&vec![]), 0);
}

#[test]
fn flat_vertices_concatenates_in_order() {
    let m = Mesh::new(pyramid_vertices(), vec![3, 2], pyramid_indices()).unwrap();
    let flat = m.flat_vertices();
    assert_eq!(flat.len(), 5 * 5);
    let expected: Vec<u32> = pyramid_vertices().concat();
    assert_eq!(flat, expected);
}

#[test]
fn flat_indices_identical_to_input() {
    let m = Mesh::new(pyramid_vertices(), vec![3, 2], pyramid_indices()).unwrap();
    assert_eq!(m.flat_indices(), vec![0, 1, 4, 1, 2, 4, 2, 3, 4, 0, 3, 4]);
}
