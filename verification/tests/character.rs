use rigged_character::character::{build_character_mesh, STANDING_HEIGHT_MM};
use rigged_character::skeleton::{bone_bind_position, BONE_COUNT};

#[test]
fn character_mesh_sizes() {
    let m = build_character_mesh();
    assert_eq!(m.positions.len(), 208);
    assert_eq!(m.normals.len(), 208);
    assert_eq!(m.joint_indices.len(), 208);
    assert_eq!(m.joint_weights.len(), 208);
    assert_eq!(m.indices.len(), 312);
    assert!(m.indices.iter().all(|&i| (i as usize) < 208));
}

#[test]
fn character_skinning_is_normalised() {
    let m = build_character_mesh();
    for k in 0..m.positions.len() {
        let w = m.joint_weights[k];
        assert_eq!(w.iter().map(|&x| x as u32).sum::<u32>(), 100);
        assert!(m.joint_indices[k].iter().all(|&j| (j as usize) < BONE_COUNT));
    }
}

#[test]
fn feet_touch_the_ground() {
    let m = build_character_mesh();
    let lowest = m.positions.iter().map(|p| p.y).min().unwrap();
    assert_eq!(lowest, -2 * STANDING_HEIGHT_MM as i64);
    assert_eq!(STANDING_HEIGHT_MM, 1000);
}

#[test]
fn joint_rings_sit_at_lower_bones() {
    // Every vertex blended half and half between two bones lies at the height
    // of the second bone's bind position (the elbow or knee).
    let m = build_character_mesh();
    let mut rings = 0;
    for k in 0..m.positions.len() {
        if m.joint_weights[k] == [50, 50, 0, 0] {
            let lower = m.joint_indices[k][1];
            let bind = bone_bind_position(lower);
            assert_eq!(m.positions[k].y, 2 * bind.y as i64);
            rings += 1;
        }
    }
    // Four limbs, eight side quads each with two ring corners.
    assert_eq!(rings, 4 * 8 * 2);
}

#[test]
fn torso_and_head_rest_on_their_bones() {
    let m = build_character_mesh();
    // Torso: first 24 vertices, lowest at its bone (the origin).
    let torso_min = m.positions[0..24].iter().map(|p| p.y).min().unwrap();
    assert_eq!(torso_min, 2 * bone_bind_position(1).y as i64);
    let head_min = m.positions[24..48].iter().map(|p| p.y).min().unwrap();
    assert_eq!(head_min, 2 * bone_bind_position(2).y as i64);
}
