use lighthouse::mesh::{Mesh, Triangle};
use lighthouse::pose::{Pose, Vec3Words};

fn to_words(vals: &[f32]) -> Vec<u32> {
    vals.iter().map(|v| v.to_bits()).collect()
}

fn to_floats(words: &[u32]) -> Vec<f32> {
    words.iter().map(|w| f32::from_bits(*w)).collect()
}

fn vec3_words(x: f32, y: f32, z: f32) -> Vec3Words {
    Vec3Words { x: x.to_bits(), y: y.to_bits(), z: z.to_bits() }
}

fn make_pose(angle: f32, axis: [f32; 3], position: [f32; 3]) -> Pose {
    Pose {
        position: vec3_words(position[0], position[1], position[2]),
        axis: vec3_words(axis[0], axis[1], axis[2]),
        angle: angle.to_bits(),
    }
}

fn pyramid_mesh() -> Mesh {
    Mesh::new(
        vec![
            to_words(&[0.5, -0.5, 0.5, 1.0, 0.0]),
            to_words(&[-0.5, -0.5, 0.5, 0.0, 0.0]),
            to_words(&[-0.5, -0.5, -0.5, 1.0, 0.0]),
            to_words(&[0.5, -0.5, -0.5, 0.0, 0.0]),
            to_words(&[0.0, 0.5, 0.0, 0.5, 1.5]),
        ],
        vec![3, 2],
        vec![
            Triangle { a: 0, b: 1, c: 4 },
            Triangle { a: 1, b: 2, c: 4 },
            Triangle { a: 2, b: 3, c: 4 },
            Triangle { a: 0, b: 3, c: 4 },
        ],
    )
    .unwrap()
}

#[test]
fn zero_pose_reproduces_base_buffer() {
    let m = pyramid_mesh();
    let base = to_floats(&m.flat_vertices());
    let out = to_floats(&m.transformed_vertices(&make_pose(0.0, [0.0, 1.0, 0.0], [0.0, 0.0, 0.0])));
    assert_eq!(out.len(), base.len());
    for (o, b) in out.iter().zip(base.iter()) {
        assert_eq!(o, b);
    }
}

#[test]
fn translation_only_shifts_x_by_one() {
    let m = pyramid_mesh();
    let base = m.flat_vertices();
    let out = m.transformed_vertices(&make_pose(0.0, [0.0, 1.0, 0.0], [1.0, 0.0, 0.0]));
    for v in 0..5 {
        let b = to_floats(&base[v * 5..v * 5 + 3]);
        let o = to_floats(&out[v * 5..v * 5 + 3]);
        assert_eq!(o[0], b[0] + 1.0);
        assert_eq!(o[1], b[1]);
        assert_eq!(o[2], b[2]);
        // non-position components come through word-identical
        assert_eq!(&out[v * 5 + 3..v * 5 + 5], &base[v * 5 + 3..v * 5 + 5]);
    }
}

#[test]
fn rotation_quarter_turn_about_y() {
    let m = Mesh::new(vec![to_words(&[1.0, 0.0, 0.0])], vec![3], vec![]).unwrap();
    let out = to_floats(&m.transformed_vertices(&make_pose(
        std::f32::consts::FRAC_PI_2,
        [0.0, 1.0, 0.0],
        [0.0, 0.0, 0.0],
    )));
    assert!((out[0] - 0.0).abs() < 1e-5);
    assert!((out[1] - 0.0).abs() < 1e-5);
    assert!((out[2] - -1.0).abs() < 1e-5);
}

#[test]
fn rotation_comes_before_translation() {
    let m = Mesh::new(vec![to_words(&[1.0, 0.0, 0.0])], vec![3], vec![]).unwrap();
    let out = to_floats(&m.transformed_vertices(&make_pose(
        std::f32::consts::FRAC_PI_2,
        [0.0, 1.0, 0.0],
        [1.0, 0.0, 0.0],
    )));
    // rotating (1,0,0) a quarter turn about y gives (0,0,-1); translating
    // afterwards by (1,0,0) gives (1,0,-1), not the (0,0,-2) of the other
    // order
    assert!((out[0] - 1.0).abs() < 1e-5);
    assert!((out[1] - 0.0).abs() < 1e-5);
    assert!((out[2] - -1.0).abs() < 1e-5);
}

#[test]
fn output_shape_is_count_times_components() {
    let m = pyramid_mesh();
    let pose = make_pose(0.7, [0.0, 1.0, 0.0], [0.2, 0.3, 0.4]);
    let out = m.transformed_vertices(&pose);
    assert_eq!(out.len(), m.vertex_count() * m.components_per_vertex());
    assert_eq!(m.flat_indices(), vec![0, 1, 4, 1, 2, 4, 2, 3, 4, 0, 3, 4]);
}

#[test]
fn accumulated_angle_is_applied_to_base_each_time() {
    // the transform reads only the base vertices: transforming twice with
    // the same pose gives the same buffer both times
    let m = pyramid_mesh();
    let pose = make_pose(0.31, [0.0, 1.0, 0.0], [0.1, 0.0, 0.0]);
    let first = m.transformed_vertices(&pose);
    let second = m.transformed_vertices(&pose);
    assert_eq!(first, second);
}
