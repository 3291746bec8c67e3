use rigged_character::geometry::Point3;
use rigged_character::skeleton::{
    bone_bind_position, bone_children, bone_local_offset, bone_parent, BONE_ARM_L_LOWER,
    BONE_ARM_L_UPPER, BONE_ARM_R_LOWER, BONE_ARM_R_UPPER, BONE_COUNT, BONE_HEAD, BONE_LEG_L_LOWER,
    BONE_LEG_L_UPPER, BONE_LEG_R_LOWER, BONE_LEG_R_UPPER, BONE_PELVIS, BONE_TORSO,
};

#[test]
fn bone_constants_are_dense() {
    let all = [
        BONE_PELVIS,
        BONE_TORSO,
        BONE_HEAD,
        BONE_ARM_L_UPPER,
        BONE_ARM_L_LOWER,
        BONE_ARM_R_UPPER,
        BONE_ARM_R_LOWER,
        BONE_LEG_L_UPPER,
        BONE_LEG_L_LOWER,
        BONE_LEG_R_UPPER,
        BONE_LEG_R_LOWER,
    ];
    assert_eq!(all.len(), BONE_COUNT);
    for (i, b) in all.iter().enumerate() {
        assert_eq!(*b as usize, i);
    }
}

#[test]
fn parents_match_attachment() {
    assert_eq!(bone_parent(BONE_PELVIS), None);
    assert_eq!(bone_parent(BONE_TORSO), Some(BONE_PELVIS));
    assert_eq!(bone_parent(BONE_LEG_L_UPPER), Some(BONE_PELVIS));
    assert_eq!(bone_parent(BONE_LEG_R_UPPER), Some(BONE_PELVIS));
    assert_eq!(bone_parent(BONE_HEAD), Some(BONE_TORSO));
    assert_eq!(bone_parent(BONE_ARM_L_UPPER), Some(BONE_TORSO));
    assert_eq!(bone_parent(BONE_ARM_R_UPPER), Some(BONE_TORSO));
    assert_eq!(bone_parent(BONE_ARM_L_LOWER), Some(BONE_ARM_L_UPPER));
    assert_eq!(bone_parent(BONE_ARM_R_LOWER), Some(BONE_ARM_R_UPPER));
    assert_eq!(bone_parent(BONE_LEG_L_LOWER), Some(BONE_LEG_L_UPPER));
    assert_eq!(bone_parent(BONE_LEG_R_LOWER), Some(BONE_LEG_R_UPPER));
}

#[test]
fn children_in_attachment_order() {
    assert_eq!(bone_children(BONE_PELVIS), vec![BONE_TORSO, BONE_LEG_L_UPPER, BONE_LEG_R_UPPER]);
    assert_eq!(bone_children(BONE_TORSO), vec![BONE_HEAD, BONE_ARM_L_UPPER, BONE_ARM_R_UPPER]);
    assert_eq!(bone_children(BONE_ARM_L_UPPER), vec![BONE_ARM_L_LOWER]);
    assert_eq!(bone_children(BONE_LEG_R_UPPER), vec![BONE_LEG_R_LOWER]);
    assert!(bone_children(BONE_HEAD).is_empty());
    assert!(bone_children(BONE_LEG_L_LOWER).is_empty());
}

#[test]
fn children_and_parents_agree() {
    for p in 0..BONE_COUNT as u16 {
        for c in 0..BONE_COUNT as u16 {
            assert_eq!(bone_children(p).contains(&c), bone_parent(c) == Some(p));
        }
    }
}

#[test]
fn every_bone_reaches_the_pelvis() {
    for b in 0..BONE_COUNT as u16 {
        let mut cur = b;
        let mut steps = 0;
        while let Some(p) = bone_parent(cur) {
            assert!(p < cur);
            cur = p;
            steps += 1;
            assert!(steps <= BONE_COUNT);
        }
        assert_eq!(cur, BONE_PELVIS);
    }
}

#[test]
fn bind_pose_is_sum_of_offsets() {
    for b in 0..BONE_COUNT as u16 {
        let mut sum = Point3 { x: 0, y: 0, z: 0 };
        let mut cur = Some(b);
        while let Some(c) = cur {
            let o = bone_local_offset(c);
            sum = Point3 { x: sum.x + o.x, y: sum.y + o.y, z: sum.z + o.z };
            cur = bone_parent(c);
        }
        assert_eq!(bone_bind_position(b), sum);
    }
}

#[test]
fn bind_positions_in_millimetres() {
    assert_eq!(bone_bind_position(BONE_PELVIS), Point3 { x: 0, y: 0, z: 0 });
    assert_eq!(bone_bind_position(BONE_HEAD), Point3 { x: 0, y: 1000, z: 0 });
    assert_eq!(bone_bind_position(BONE_ARM_L_LOWER), Point3 { x: -400, y: 450, z: 0 });
    assert_eq!(bone_bind_position(BONE_LEG_R_LOWER), Point3 { x: 150, y: -500, z: 0 });
    assert_eq!(bone_local_offset(BONE_ARM_R_LOWER), Point3 { x: 0, y: -450, z: 0 });
    assert_eq!(bone_local_offset(BONE_LEG_L_UPPER), Point3 { x: -150, y: 0, z: 0 });
}
