use rigged_character::geometry::{MeshPoint, Normal, Point3};
use rigged_character::mesh::CharacterMeshBuilder;

fn sub(a: MeshPoint, b: MeshPoint) -> [i128; 3] {
    [(a.x - b.x) as i128, (a.y - b.y) as i128, (a.z - b.z) as i128]
}

fn cross(a: [i128; 3], b: [i128; 3]) -> [i128; 3] {
    [a[1] * b[2] - a[2] * b[1], a[2] * b[0] - a[0] * b[2], a[0] * b[1] - a[1] * b[0]]
}

fn nvec(n: Normal) -> [i128; 3] {
    [n.x as i128, n.y as i128, n.z as i128]
}

fn dot(a: [i128; 3], b: [i128; 3]) -> i128 {
    a[0] * b[0] + a[1] * b[1] + a[2] * b[2]
}

fn same_direction(a: [i128; 3], n: [i128; 3]) -> bool {
    cross(a, n) == [0, 0, 0] && dot(a, n) > 0
}

/// Checks that every triangle of the builder is wound counter-clockwise
/// around its vertices' normal.
fn assert_front_facing(b: &CharacterMeshBuilder) {
    for t in b.indices.chunks(3) {
        let (i0, i1, i2) = (t[0] as usize, t[1] as usize, t[2] as usize);
        let n = nvec(b.normals[i0]);
        assert_eq!(b.normals[i1], b.normals[i0]);
        assert_eq!(b.normals[i2], b.normals[i0]);
        let c = cross(sub(b.positions[i1], b.positions[i0]), sub(b.positions[i2], b.positions[i0]));
        assert!(same_direction(c, n), "triangle {:?} is not front facing", t);
    }
}

/// Checks that no vertex lies beyond any face's plane along its normal.
fn assert_encloses(b: &CharacterMeshBuilder) {
    for f in 0..b.positions.len() / 4 {
        let n = nvec(b.normals[4 * f]);
        let plane = dot([b.positions[4 * f].x as i128, b.positions[4 * f].y as i128, b.positions[4 * f].z as i128], n);
        for j in 0..4 {
            let p = b.positions[4 * f + j];
            assert_eq!(dot([p.x as i128, p.y as i128, p.z as i128], n), plane);
        }
        for p in &b.positions {
            assert!(dot([p.x as i128, p.y as i128, p.z as i128], n) <= plane);
        }
    }
}

fn mp(x: i64, y: i64, z: i64) -> MeshPoint {
    MeshPoint { x, y, z }
}

#[test]
fn add_face_appends_two_triangles() {
    let mut b = CharacterMeshBuilder::new();
    let w = [100u8, 0, 0, 0];
    b.add_face(mp(0, 0, 0), mp(2, 0, 0), mp(2, 2, 0), mp(0, 2, 0), Normal::pos_z(), [3, 0, 0, 0], w, [3, 0, 0, 0], w, [4, 0, 0, 0], w, [4, 0, 0, 0], w);
    assert_eq!(b.positions, vec![mp(0, 0, 0), mp(2, 0, 0), mp(2, 2, 0), mp(0, 2, 0)]);
    assert_eq!(b.normals, vec![Normal::pos_z(); 4]);
    assert_eq!(b.joint_indices, vec![[3, 0, 0, 0], [3, 0, 0, 0], [4, 0, 0, 0], [4, 0, 0, 0]]);
    assert_eq!(b.joint_weights, vec![w; 4]);
    assert_eq!(b.indices, vec![0, 1, 2, 2, 3, 0]);
    b.add_face(mp(0, 0, 0), mp(2, 0, 0), mp(2, 2, 0), mp(0, 2, 0), Normal::pos_z(), [3, 0, 0, 0], w, [3, 0, 0, 0], w, [4, 0, 0, 0], w, [4, 0, 0, 0], w);
    assert_eq!(b.positions.len(), 8);
    assert_eq!(b.indices, vec![0, 1, 2, 2, 3, 0, 4, 5, 6, 6, 7, 4]);
}

#[test]
fn new_and_default_are_empty() {
    let a = CharacterMeshBuilder::new();
    let b = CharacterMeshBuilder::default();
    for m in [a, b] {
        assert!(m.positions.is_empty() && m.normals.is_empty() && m.indices.is_empty());
        assert!(m.joint_indices.is_empty() && m.joint_weights.is_empty());
    }
}

#[test]
fn add_box_corners_and_faces() {
    let mut b = CharacterMeshBuilder::new();
    b.add_box(Point3::new(0, 500, 0), Point3::new(600, 1000, 400), 1);
    assert_eq!(b.positions.len(), 24);
    assert_eq!(b.indices.len(), 36);
    // Front face: corners 0 (-,-,+), 1 (+,-,+), 2 (+,+,+), 3 (-,+,+), in half-millimetres.
    assert_eq!(&b.positions[0..4], &[mp(-600, 0, 400), mp(600, 0, 400), mp(600, 2000, 400), mp(-600, 2000, 400)]);
    // Back face starts at corner 5 (+,-,-).
    assert_eq!(b.positions[4], mp(600, 0, -400));
    let normals: Vec<Normal> = (0..6).map(|f| b.normals[4 * f]).collect();
    assert_eq!(normals, vec![Normal::pos_z(), Normal::neg_z(), Normal::pos_x(), Normal::neg_x(), Normal::pos_y(), Normal::neg_y()]);
    for k in 0..24 {
        assert_eq!(b.joint_indices[k], [1, 0, 0, 0]);
        assert_eq!(b.joint_weights[k], [100, 0, 0, 0]);
    }
}

#[test]
fn box_faces_wind_outward() {
    let mut b = CharacterMeshBuilder::new();
    b.add_box(Point3::new(7, -3, 11), Point3::new(5, 9, 1), 2);
    assert_front_facing(&b);
    assert_encloses(&b);
}

#[test]
fn box_with_odd_size_is_exact() {
    let mut b = CharacterMeshBuilder::new();
    b.add_box(Point3::new(0, 0, 0), Point3::new(1, 3, 5), 0);
    // Half of 1 mm is one half-millimetre.
    assert_eq!(b.positions[0], mp(-1, -3, 5));
}

#[test]
fn add_limb_levels_and_weights() {
    let mut b = CharacterMeshBuilder::new();
    b.add_limb(Point3::new(-400, 900, 0), Point3::new(-400, 450, 0), Point3::new(-400, 0, 0), 200, 200, 3, 4);
    assert_eq!(b.positions.len(), 40);
    assert_eq!(b.indices.len(), 60);
    for (k, p) in b.positions.iter().enumerate() {
        let (j, w) = (b.joint_indices[k], b.joint_weights[k]);
        match p.y {
            1800 => assert!(j == [3, 0, 0, 0] && w == [100, 0, 0, 0]),
            900 => assert!(j == [3, 4, 0, 0] && w == [50, 50, 0, 0]),
            0 => assert!(j == [4, 0, 0, 0] && w == [100, 0, 0, 0]),
            y => panic!("unexpected height {}", y),
        }
        assert!(p.x == -1000 || p.x == -600);
        assert!(p.z == -200 || p.z == 200);
    }
    // The front upper quad.
    assert_eq!(&b.positions[0..4], &[mp(-1000, 900, 200), mp(-600, 900, 200), mp(-600, 1800, 200), mp(-1000, 1800, 200)]);
    assert_front_facing(&b);
    assert_encloses(&b);
}

#[test]
fn limb_uses_top_position_for_x_and_z() {
    let mut b = CharacterMeshBuilder::new();
    b.add_limb(Point3::new(10, 100, 20), Point3::new(999, 50, 999), Point3::new(-999, 0, -999), 4, 6, 7, 8);
    for p in &b.positions {
        assert!(p.x == 16 || p.x == 24);
        assert!(p.z == 34 || p.z == 46);
    }
}

#[test]
fn indices_stay_in_range() {
    let mut b = CharacterMeshBuilder::new();
    b.add_box(Point3::new(0, 0, 0), Point3::new(2, 2, 2), 0);
    b.add_limb(Point3::new(0, 10, 0), Point3::new(0, 5, 0), Point3::new(0, 0, 0), 2, 2, 1, 2);
    assert_eq!(b.positions.len(), 64);
    assert!(b.indices.iter().all(|&i| (i as usize) < b.positions.len()));
    assert_eq!(b.indices[36..42], [24, 25, 26, 26, 27, 24]);
}

/// Checks that every quad edge is run the other way by another quad.
fn assert_closed(b: &CharacterMeshBuilder) {
    let quads = b.positions.len() / 4;
    for f in 0..quads {
        for j in 0..4 {
            let from = b.positions[4 * f + j];
            let to = b.positions[4 * f + (j + 1) % 4];
            let twins = (0..quads)
                .filter(|&g| g != f)
                .flat_map(|g| (0..4).map(move |k| (g, k)))
                .filter(|&(g, k)| b.positions[4 * g + k] == to && b.positions[4 * g + (k + 1) % 4] == from)
                .count();
            assert_eq!(twins, 1, "edge {} of quad {} has {} twins", j, f, twins);
        }
    }
}

#[test]
fn box_and_limb_are_closed() {
    let mut b = CharacterMeshBuilder::new();
    b.add_box(Point3::new(1, 2, 3), Point3::new(10, 20, 30), 0);
    assert_closed(&b);
    let mut l = CharacterMeshBuilder::new();
    l.add_limb(Point3::new(5, 90, -5), Point3::new(5, 40, -5), Point3::new(5, 0, -5), 8, 12, 1, 2);
    assert_closed(&l);
}
