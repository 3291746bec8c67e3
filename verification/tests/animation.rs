use rigged_character::animation::{idle_motion, IdleMotion, Oscillation, Wave};
use rigged_character::skeleton::{
    BONE_ARM_L_LOWER, BONE_ARM_L_UPPER, BONE_ARM_R_LOWER, BONE_ARM_R_UPPER, BONE_HEAD,
    BONE_LEG_L_LOWER, BONE_LEG_L_UPPER, BONE_LEG_R_LOWER, BONE_LEG_R_UPPER, BONE_PELVIS, BONE_TORSO,
};

fn osc(offset_milli: i32, amplitude_milli: i32, frequency_milli: u32, wave: Wave) -> Oscillation {
    Oscillation { offset_milli, amplitude_milli, frequency_milli, wave }
}

#[test]
fn idle_motions_per_bone() {
    assert_eq!(idle_motion(BONE_TORSO), IdleMotion::BreatheY(osc(1000, 20, 2000, Wave::Sine)));
    assert_eq!(idle_motion(BONE_ARM_L_UPPER), IdleMotion::RotateX(osc(0, 100, 2000, Wave::Sine)));
    assert_eq!(idle_motion(BONE_ARM_R_UPPER), IdleMotion::RotateX(osc(0, -100, 2000, Wave::Sine)));
    assert_eq!(idle_motion(BONE_ARM_L_LOWER), IdleMotion::RotateX(osc(-200, 50, 3000, Wave::Sine)));
    assert_eq!(idle_motion(BONE_ARM_R_LOWER), IdleMotion::RotateX(osc(-200, 50, 3000, Wave::Sine)));
    assert_eq!(idle_motion(BONE_LEG_L_UPPER), IdleMotion::RotateX(osc(0, -50, 2000, Wave::Sine)));
    assert_eq!(idle_motion(BONE_LEG_R_UPPER), IdleMotion::RotateX(osc(0, 50, 2000, Wave::Sine)));
    assert_eq!(idle_motion(BONE_LEG_L_LOWER), IdleMotion::RotateX(osc(100, 50, 3000, Wave::Cosine)));
    assert_eq!(idle_motion(BONE_LEG_R_LOWER), IdleMotion::RotateX(osc(100, 50, 3000, Wave::Cosine)));
    assert_eq!(idle_motion(BONE_HEAD), IdleMotion::RotateY(osc(0, 100, 1500, Wave::Sine)));
}

#[test]
fn pelvis_and_unknown_bones_stay_still() {
    assert_eq!(idle_motion(BONE_PELVIS), IdleMotion::Still);
    assert_eq!(idle_motion(11), IdleMotion::Still);
    assert_eq!(idle_motion(u16::MAX), IdleMotion::Still);
}

#[test]
fn idle_sway_is_mirrored() {
    let amp = |b: u16| match idle_motion(b) {
        IdleMotion::RotateX(o) => o.amplitude_milli,
        _ => panic!("not a swing"),
    };
    assert_eq!(amp(BONE_ARM_L_UPPER), -amp(BONE_ARM_R_UPPER));
    assert_eq!(amp(BONE_LEG_L_UPPER), -amp(BONE_LEG_R_UPPER));
    assert!(amp(BONE_ARM_L_UPPER) * amp(BONE_LEG_L_UPPER) < 0);
    assert!(amp(BONE_ARM_R_UPPER) * amp(BONE_LEG_R_UPPER) < 0);
}
