//! The idle animation: which motion each bone plays while the character stands.
use vstd::prelude::*;
use crate::skeleton::{
    BONE_ARM_L_LOWER, BONE_ARM_L_UPPER, BONE_ARM_R_LOWER, BONE_ARM_R_UPPER, BONE_HEAD,
    BONE_LEG_L_LOWER, BONE_LEG_L_UPPER, BONE_LEG_R_LOWER, BONE_LEG_R_UPPER, BONE_TORSO,
};

verus! {

#[derive(Clone, Copy, Debug, PartialEq, Eq, Structural)]
pub enum Wave {
    Sine,
    Cosine,
}

/// The periodic value `offset + wave(frequency * t) * amplitude` at time `t`
/// in seconds, every number in thousandths (of a radian, of a scale factor,
/// of a hertz-like angular rate).
#[derive(Clone, Copy, Debug, PartialEq, Eq, Structural)]
pub struct Oscillation {
    pub offset_milli: i32,
    pub amplitude_milli: i32,
    pub frequency_milli: u32,
    pub wave: Wave,
}

/// What a bone does while idle.
#[derive(Clone, Copy, Debug, PartialEq, Eq, Structural)]
pub enum IdleMotion {
    /// The bone is left alone.
    Still,
    /// The bone's scale is (1, value, 1): breathing.
    BreatheY(Oscillation),
    /// The bone's rotation is `value` radians about the x axis.
    RotateX(Oscillation),
    /// The bone's rotation is `value` radians about the y axis.
    RotateY(Oscillation),
}

pub open spec fn osc(offset: int, amplitude: int, frequency: int, wave: Wave) -> Oscillation {
    Oscillation {
        offset_milli: offset as i32,
        amplitude_milli: amplitude as i32,
        frequency_milli: frequency as u32,
        wave,
    }
}

/// The idle motion of each bone.
pub open spec fn idle_motion_of(bone: u16) -> IdleMotion {
    if bone == BONE_TORSO {
        IdleMotion::BreatheY(osc(1000, 20, 2000, Wave::Sine))
    } else if bone == BONE_ARM_L_UPPER {
        IdleMotion::RotateX(osc(0, 100, 2000, Wave::Sine))
    } else if bone == BONE_ARM_R_UPPER {
        IdleMotion::RotateX(osc(0, -100, 2000, Wave::Sine))
    } else if bone == BONE_ARM_L_LOWER || bone == BONE_ARM_R_LOWER {
        IdleMotion::RotateX(osc(-200, 50, 3000, Wave::Sine))
    } else if bone == BONE_LEG_L_UPPER {
        IdleMotion::RotateX(osc(0, -50, 2000, Wave::Sine))
    } else if bone == BONE_LEG_R_UPPER {
        IdleMotion::RotateX(osc(0, 50, 2000, Wave::Sine))
    } else if bone == BONE_LEG_L_LOWER || bone == BONE_LEG_R_LOWER {
        IdleMotion::RotateX(osc(100, 50, 3000, Wave::Cosine))
    } else if bone == BONE_HEAD {
        IdleMotion::RotateY(osc(0, 100, 1500, Wave::Sine))
    } else {
        IdleMotion::Still
    }
}

fn oscillation(offset_milli: i32, amplitude_milli: i32, frequency_milli: u32, wave: Wave) -> (o: Oscillation)
    ensures
        o == (Oscillation { offset_milli, amplitude_milli, frequency_milli, wave }),
{
    Oscillation { offset_milli, amplitude_milli, frequency_milli, wave }
}

/// The idle motion of a bone: the torso breathes, the arms and legs sway
/// about x, the forearms and shins bend, the head turns about y; any other
/// bone stays still.
pub fn idle_motion(bone: u16) -> (motion: IdleMotion)
    ensures
        motion == idle_motion_of(bone),
{
    if bone == BONE_TORSO {
        IdleMotion::BreatheY(oscillation(1000, 20, 2000, Wave::Sine))
    } else if bone == BONE_ARM_L_UPPER {
        IdleMotion::RotateX(oscillation(0, 100, 2000, Wave::Sine))
    } else if bone == BONE_ARM_R_UPPER {
        IdleMotion::RotateX(oscillation(0, -100, 2000, Wave::Sine))
    } else if bone == BONE_ARM_L_LOWER || bone == BONE_ARM_R_LOWER {
        IdleMotion::RotateX(oscillation(-200, 50, 3000, Wave::Sine))
    } else if bone == BONE_LEG_L_UPPER {
        IdleMotion::RotateX(oscillation(0, -50, 2000, Wave::Sine))
    } else if bone == BONE_LEG_R_UPPER {
        IdleMotion::RotateX(oscillation(0, 50, 2000, Wave::Sine))
    } else if bone == BONE_LEG_L_LOWER || bone == BONE_LEG_R_LOWER {
        IdleMotion::RotateX(oscillation(100, 50, 3000, Wave::Cosine))
    } else if bone == BONE_HEAD {
        IdleMotion::RotateY(oscillation(0, 100, 1500, Wave::Sine))
    } else {
        IdleMotion::Still
    }
}

/// `a` and `b` are the same swing about x in opposite phase.
pub open spec fn mirrored_swing(a: IdleMotion, b: IdleMotion) -> bool {
    &&& a matches IdleMotion::RotateX(oa)
    &&& b matches IdleMotion::RotateX(ob)
    &&& oa.offset_milli == ob.offset_milli
    &&& oa.frequency_milli == ob.frequency_milli
    &&& oa.wave == ob.wave
    &&& oa.amplitude_milli == -ob.amplitude_milli
    &&& oa.amplitude_milli != 0
}

/// The idle sway is symmetric: the left and right upper arms swing in
/// opposite phase, as do the left and right thighs, and each arm swings
/// against the thigh on its own side; the two forearms bend alike, as do the
/// two shins; the pelvis, and any bone outside the skeleton, stays still.
pub proof fn lemma_idle_symmetry(bone: u16)
    ensures
        mirrored_swing(idle_motion_of(BONE_ARM_L_UPPER), idle_motion_of(BONE_ARM_R_UPPER)),
        mirrored_swing(idle_motion_of(BONE_LEG_L_UPPER), idle_motion_of(BONE_LEG_R_UPPER)),
        idle_motion_of(BONE_ARM_L_UPPER)->RotateX_0.amplitude_milli * idle_motion_of(
            BONE_LEG_L_UPPER,
        )->RotateX_0.amplitude_milli < 0,
        idle_motion_of(BONE_ARM_R_UPPER)->RotateX_0.amplitude_milli * idle_motion_of(
            BONE_LEG_R_UPPER,
        )->RotateX_0.amplitude_milli < 0,
        idle_motion_of(BONE_ARM_L_LOWER) == idle_motion_of(BONE_ARM_R_LOWER),
        idle_motion_of(BONE_LEG_L_LOWER) == idle_motion_of(BONE_LEG_R_LOWER),
        bone == 0 || bone > BONE_LEG_R_LOWER ==> idle_motion_of(bone) == IdleMotion::Still,
{
}

} // verus!
