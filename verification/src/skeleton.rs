//! The character's bone hierarchy and its bind pose.
use vstd::prelude::*;
use crate::geometry::Point3;

verus! {

pub const BONE_PELVIS: u16 = 0;
pub const BONE_TORSO: u16 = 1;
pub const BONE_HEAD: u16 = 2;
pub const BONE_ARM_L_UPPER: u16 = 3;
pub const BONE_ARM_L_LOWER: u16 = 4;
pub const BONE_ARM_R_UPPER: u16 = 5;
pub const BONE_ARM_R_LOWER: u16 = 6;
pub const BONE_LEG_L_UPPER: u16 = 7;
pub const BONE_LEG_L_LOWER: u16 = 8;
pub const BONE_LEG_R_UPPER: u16 = 9;
pub const BONE_LEG_R_LOWER: u16 = 10;
pub const BONE_COUNT: usize = 11;

/// The parent of each bone in the hierarchy; the pelvis is the root.
pub open spec fn parent_of(bone: u16) -> Option<u16> {
    if bone == BONE_TORSO || bone == BONE_LEG_L_UPPER || bone == BONE_LEG_R_UPPER {
        Some(BONE_PELVIS)
    } else if bone == BONE_HEAD || bone == BONE_ARM_L_UPPER || bone == BONE_ARM_R_UPPER {
        Some(BONE_TORSO)
    } else if bone == BONE_ARM_L_LOWER {
        Some(BONE_ARM_L_UPPER)
    } else if bone == BONE_ARM_R_LOWER {
        Some(BONE_ARM_R_UPPER)
    } else if bone == BONE_LEG_L_LOWER {
        Some(BONE_LEG_L_UPPER)
    } else if bone == BONE_LEG_R_LOWER {
        Some(BONE_LEG_R_UPPER)
    } else {
        None
    }
}

/// The children of each bone, in the order in which they are attached.
pub open spec fn children_of(bone: u16) -> Seq<u16> {
    if bone == BONE_PELVIS {
        seq![BONE_TORSO, BONE_LEG_L_UPPER, BONE_LEG_R_UPPER]
    } else if bone == BONE_TORSO {
        seq![BONE_HEAD, BONE_ARM_L_UPPER, BONE_ARM_R_UPPER]
    } else if bone == BONE_ARM_L_UPPER {
        seq![BONE_ARM_L_LOWER]
    } else if bone == BONE_ARM_R_UPPER {
        seq![BONE_ARM_R_LOWER]
    } else if bone == BONE_LEG_L_UPPER {
        seq![BONE_LEG_L_LOWER]
    } else if bone == BONE_LEG_R_UPPER {
        seq![BONE_LEG_R_LOWER]
    } else {
        Seq::empty()
    }
}

/// Where each bone sits relative to its parent (the pelvis: relative to the character).
pub open spec fn local_offset_of(bone: u16) -> (int, int, int) {
    if bone == BONE_HEAD {
        (0int, 1000int, 0int)
    } else if bone == BONE_ARM_L_UPPER {
        (-400int, 900int, 0int)
    } else if bone == BONE_ARM_R_UPPER {
        (400int, 900int, 0int)
    } else if bone == BONE_ARM_L_LOWER || bone == BONE_ARM_R_LOWER {
        (0int, -450int, 0int)
    } else if bone == BONE_LEG_L_UPPER {
        (-150int, 0int, 0int)
    } else if bone == BONE_LEG_R_UPPER {
        (150int, 0int, 0int)
    } else if bone == BONE_LEG_L_LOWER || bone == BONE_LEG_R_LOWER {
        (0int, -500int, 0int)
    } else {
        (0int, 0int, 0int)
    }
}

/// The bind-pose position of each bone in character space, from which its
/// inverse bind matrix (a pure translation) is made.
pub open spec fn bind_position_of(bone: u16) -> (int, int, int) {
    if bone == BONE_HEAD {
        (0int, 1000int, 0int)
    } else if bone == BONE_ARM_L_UPPER {
        (-400int, 900int, 0int)
    } else if bone == BONE_ARM_L_LOWER {
        (-400int, 450int, 0int)
    } else if bone == BONE_ARM_R_UPPER {
        (400int, 900int, 0int)
    } else if bone == BONE_ARM_R_LOWER {
        (400int, 450int, 0int)
    } else if bone == BONE_LEG_L_UPPER {
        (-150int, 0int, 0int)
    } else if bone == BONE_LEG_L_LOWER {
        (-150int, -500int, 0int)
    } else if bone == BONE_LEG_R_UPPER {
        (150int, 0int, 0int)
    } else if bone == BONE_LEG_R_LOWER {
        (150int, -500int, 0int)
    } else {
        (0int, 0int, 0int)
    }
}

/// The bone at the top of `bone`'s chain of parents.
pub open spec fn root_of(bone: u16) -> u16
    decreases bone,
{
    match parent_of(bone) {
        Some(p) => if p < bone { root_of(p) } else { bone },
        None => bone,
    }
}

/// Sum of the local offsets along the chain from `bone` up to the root.
pub open spec fn chained_offset(bone: u16) -> (int, int, int)
    decreases bone,
{
    match parent_of(bone) {
        Some(p) => if p < bone {
            let up = chained_offset(p);
            let off = local_offset_of(bone);
            (up.0 + off.0, up.1 + off.1, up.2 + off.2)
        } else {
            local_offset_of(bone)
        },
        None => local_offset_of(bone),
    }
}

pub fn bone_parent(bone: u16) -> (parent: Option<u16>)
    requires
        bone < BONE_COUNT,
    ensures
        parent == parent_of(bone),
{
    if bone == BONE_TORSO || bone == BONE_LEG_L_UPPER || bone == BONE_LEG_R_UPPER {
        Some(BONE_PELVIS)
    } else if bone == BONE_HEAD || bone == BONE_ARM_L_UPPER || bone == BONE_ARM_R_UPPER {
        Some(BONE_TORSO)
    } else if bone == BONE_ARM_L_LOWER {
        Some(BONE_ARM_L_UPPER)
    } else if bone == BONE_ARM_R_LOWER {
        Some(BONE_ARM_R_UPPER)
    } else if bone == BONE_LEG_L_LOWER {
        Some(BONE_LEG_L_UPPER)
    } else if bone == BONE_LEG_R_LOWER {
        Some(BONE_LEG_R_UPPER)
    } else {
        None
    }
}

/// The bones attached directly below `bone`, in attachment order.
pub fn bone_children(bone: u16) -> (children: Vec<u16>)
    requires
        bone < BONE_COUNT,
    ensures
        children@ == children_of(bone),
        children@.no_duplicates(),
        forall|c: u16| c < BONE_COUNT ==> (children@.contains(c) <==> parent_of(c) == Some(bone)),
{
    let mut children: Vec<u16> = Vec::new();
    if bone == BONE_PELVIS {
        children.push(BONE_TORSO);
        children.push(BONE_LEG_L_UPPER);
        children.push(BONE_LEG_R_UPPER);
    } else if bone == BONE_TORSO {
        children.push(BONE_HEAD);
        children.push(BONE_ARM_L_UPPER);
        children.push(BONE_ARM_R_UPPER);
    } else if bone == BONE_ARM_L_UPPER {
        children.push(BONE_ARM_L_LOWER);
    } else if bone == BONE_ARM_R_UPPER {
        children.push(BONE_ARM_R_LOWER);
    } else if bone == BONE_LEG_L_UPPER {
        children.push(BONE_LEG_L_LOWER);
    } else if bone == BONE_LEG_R_UPPER {
        children.push(BONE_LEG_R_LOWER);
    }
    proof {
        assert(children@ =~= children_of(bone));
        assert forall|c: u16| c < BONE_COUNT implies (children@.contains(c) <==> parent_of(c) == Some(bone)) by {
            lemma_children_match_parents(bone, c);
        }
    }
    children
}

/// Where a bone is placed relative to its parent when the rig is spawned.
pub fn bone_local_offset(bone: u16) -> (offset: Point3)
    requires
        bone < BONE_COUNT,
    ensures
        offset.vec() == local_offset_of(bone),
{
    if bone == BONE_HEAD {
        Point3::new(0, 1000, 0)
    } else if bone == BONE_ARM_L_UPPER {
        Point3::new(-400, 900, 0)
    } else if bone == BONE_ARM_R_UPPER {
        Point3::new(400, 900, 0)
    } else if bone == BONE_ARM_L_LOWER || bone == BONE_ARM_R_LOWER {
        Point3::new(0, -450, 0)
    } else if bone == BONE_LEG_L_UPPER {
        Point3::new(-150, 0, 0)
    } else if bone == BONE_LEG_R_UPPER {
        Point3::new(150, 0, 0)
    } else if bone == BONE_LEG_L_LOWER || bone == BONE_LEG_R_LOWER {
        Point3::new(0, -500, 0)
    } else {
        Point3::new(0, 0, 0)
    }
}

/// The bind-pose position of a bone; its inverse bind matrix is the
/// translation by the negated position.
pub fn bone_bind_position(bone: u16) -> (position: Point3)
    requires
        bone < BONE_COUNT,
    ensures
        position.vec() == bind_position_of(bone),
{
    if bone == BONE_HEAD {
        Point3::new(0, 1000, 0)
    } else if bone == BONE_ARM_L_UPPER {
        Point3::new(-400, 900, 0)
    } else if bone == BONE_ARM_L_LOWER {
        Point3::new(-400, 450, 0)
    } else if bone == BONE_ARM_R_UPPER {
        Point3::new(400, 900, 0)
    } else if bone == BONE_ARM_R_LOWER {
        Point3::new(400, 450, 0)
    } else if bone == BONE_LEG_L_UPPER {
        Point3::new(-150, 0, 0)
    } else if bone == BONE_LEG_L_LOWER {
        Point3::new(-150, -500, 0)
    } else if bone == BONE_LEG_R_UPPER {
        Point3::new(150, 0, 0)
    } else if bone == BONE_LEG_R_LOWER {
        Point3::new(150, -500, 0)
    } else {
        Point3::new(0, 0, 0)
    }
}

/// The bones form one tree rooted at the pelvis: the pelvis alone has no
/// parent, every other bone's parent comes before it, and following parents
/// from any bone ends at the pelvis.
pub proof fn lemma_skeleton_is_tree(bone: u16)
    requires
        bone < BONE_COUNT,
    ensures
        parent_of(bone) is None <==> bone == BONE_PELVIS,
        parent_of(bone) matches Some(p) ==> p < bone,
        root_of(bone) == BONE_PELVIS,
    decreases bone,
{
    if let Some(p) = parent_of(bone) {
        lemma_skeleton_is_tree(p);
    }
}

/// A bone is listed among a bone's children exactly when that bone is its parent.
pub proof fn lemma_children_match_parents(parent: u16, child: u16)
    requires
        parent < BONE_COUNT,
        child < BONE_COUNT,
    ensures
        children_of(parent).contains(child) <==> parent_of(child) == Some(parent),
        children_of(parent).no_duplicates(),
        forall|i: int| 0 <= i < children_of(parent).len() ==> #[trigger] children_of(parent)[i] < BONE_COUNT,
{
    if parent_of(child) == Some(parent) {
        assert(children_of(parent).contains(child)) by {
            if child == BONE_LEG_L_UPPER || child == BONE_ARM_L_UPPER {
                assert(children_of(parent)[1] == child);
            } else if child == BONE_LEG_R_UPPER || child == BONE_ARM_R_UPPER {
                assert(children_of(parent)[2] == child);
            } else {
                assert(children_of(parent)[0] == child);
            }
        }
    }
}

/// The bind pose agrees with the spawned hierarchy: every bone's bind position
/// is the sum of the local offsets along its chain to the root, so the pelvis
/// binds at the character's origin and every other bone at its parent's bind
/// position moved by its own offset.
pub proof fn lemma_bind_pose_matches_hierarchy(bone: u16)
    requires
        bone < BONE_COUNT,
    ensures
        bind_position_of(bone) == chained_offset(bone),
        bone == BONE_PELVIS ==> bind_position_of(bone) == (0int, 0int, 0int),
        parent_of(bone) matches Some(p) ==> bind_position_of(bone) == (
            bind_position_of(p).0 + local_offset_of(bone).0,
            bind_position_of(p).1 + local_offset_of(bone).1,
            bind_position_of(p).2 + local_offset_of(bone).2,
        ),
    decreases bone,
{
    if let Some(p) = parent_of(bone) {
        lemma_bind_pose_matches_hierarchy(p);
    }
}


/// `b` is `a` reflected in the body's midplane x = 0.
pub open spec fn mirrored(a: (int, int, int), b: (int, int, int)) -> bool {
    b == (-a.0, a.1, a.2)
}

/// The rig is mirror symmetric: each right-side bone's bind position and
/// local offset are its left counterpart's reflected in x = 0, the left
/// shoulder and hip lie at negative x and the right ones at positive x, and
/// the pelvis, torso and head lie on the midplane.
pub proof fn lemma_rig_is_mirror_symmetric()
    ensures
        mirrored(bind_position_of(BONE_ARM_L_UPPER), bind_position_of(BONE_ARM_R_UPPER)),
        mirrored(bind_position_of(BONE_ARM_L_LOWER), bind_position_of(BONE_ARM_R_LOWER)),
        mirrored(bind_position_of(BONE_LEG_L_UPPER), bind_position_of(BONE_LEG_R_UPPER)),
        mirrored(bind_position_of(BONE_LEG_L_LOWER), bind_position_of(BONE_LEG_R_LOWER)),
        mirrored(local_offset_of(BONE_ARM_L_UPPER), local_offset_of(BONE_ARM_R_UPPER)),
        mirrored(local_offset_of(BONE_ARM_L_LOWER), local_offset_of(BONE_ARM_R_LOWER)),
        mirrored(local_offset_of(BONE_LEG_L_UPPER), local_offset_of(BONE_LEG_R_UPPER)),
        mirrored(local_offset_of(BONE_LEG_L_LOWER), local_offset_of(BONE_LEG_R_LOWER)),
        bind_position_of(BONE_ARM_L_UPPER).0 < 0 && bind_position_of(BONE_ARM_L_LOWER).0 < 0,
        bind_position_of(BONE_LEG_L_UPPER).0 < 0 && bind_position_of(BONE_LEG_L_LOWER).0 < 0,
        bind_position_of(BONE_ARM_R_UPPER).0 > 0 && bind_position_of(BONE_ARM_R_LOWER).0 > 0,
        bind_position_of(BONE_LEG_R_UPPER).0 > 0 && bind_position_of(BONE_LEG_R_LOWER).0 > 0,
        bind_position_of(BONE_PELVIS).0 == 0 && bind_position_of(BONE_TORSO).0 == 0 && bind_position_of(BONE_HEAD).0 == 0,
        parent_of(BONE_ARM_R_UPPER) == parent_of(BONE_ARM_L_UPPER),
        parent_of(BONE_LEG_R_UPPER) == parent_of(BONE_LEG_L_UPPER),
{
}

} // verus!
