//! The character: two boxes and four limbs, skinned to the skeleton.
use vstd::prelude::*;
use crate::geometry::{MeshPoint, Normal, Point3};
use crate::mesh::{
    CharacterMeshBuilder, Limb, MeshModel, Quad, all_front_facing, box_quads, closed, encloses,
    lemma_box_quads, lemma_concat_quads, lemma_limb_quads, lemma_skinned_within_wider,
    lemma_with_quads_concat, lemma_with_quads_contains, lemma_with_quads_satisfy,
    lemma_with_quads_wf, lemma_with_quads_index, limb_quads, limb_skinned_by_level, quads_satisfy, quads_shaped,
    skinned_within, vertices_satisfy, weight_sum,
};
use crate::skeleton::{
    BONE_ARM_L_LOWER, BONE_ARM_L_UPPER, BONE_ARM_R_LOWER, BONE_ARM_R_UPPER, BONE_COUNT, BONE_HEAD,
    BONE_LEG_L_LOWER, BONE_LEG_L_UPPER, BONE_LEG_R_LOWER, BONE_LEG_R_UPPER, BONE_TORSO,
    bind_position_of, BONE_PELVIS,
};

verus! {

/// Height of the character's origin above the ground when it stands, in
/// millimetres: the feet are this far below the origin.
pub const STANDING_HEIGHT_MM: i32 = 1000;

/// A box-shaped body part bound to one bone (millimetres).
#[derive(Clone, Copy, Debug, PartialEq, Eq, Structural)]
pub struct BoxPart {
    pub center: Point3,
    pub size: Point3,
    pub bone: u16,
}

pub open spec fn torso_part() -> BoxPart {
    BoxPart {
        center: Point3 { x: 0, y: 500, z: 0 },
        size: Point3 { x: 600, y: 1000, z: 400 },
        bone: BONE_TORSO,
    }
}

pub open spec fn head_part() -> BoxPart {
    BoxPart {
        center: Point3 { x: 0, y: 1200, z: 0 },
        size: Point3 { x: 400, y: 400, z: 400 },
        bone: BONE_HEAD,
    }
}

pub open spec fn limb_part(x: i32, top_y: i32, joint_y: i32, bottom_y: i32, top_bone: u16, bottom_bone: u16) -> Limb {
    Limb {
        top: Point3 { x: x, y: top_y, z: 0 },
        joint: Point3 { x: x, y: joint_y, z: 0 },
        bottom: Point3 { x: x, y: bottom_y, z: 0 },
        width: 200,
        depth: 200,
        top_bone,
        bottom_bone,
    }
}

pub open spec fn left_arm_part() -> Limb {
    limb_part(-400i32, 900, 450, 0, BONE_ARM_L_UPPER, BONE_ARM_L_LOWER)
}

pub open spec fn right_arm_part() -> Limb {
    limb_part(400, 900, 450, 0, BONE_ARM_R_UPPER, BONE_ARM_R_LOWER)
}

pub open spec fn left_leg_part() -> Limb {
    limb_part(-150i32, 0, -500i32, -1000i32, BONE_LEG_L_UPPER, BONE_LEG_L_LOWER)
}

pub open spec fn right_leg_part() -> Limb {
    limb_part(150, 0, -500i32, -1000i32, BONE_LEG_R_UPPER, BONE_LEG_R_LOWER)
}

pub open spec fn character_boxes() -> Seq<BoxPart> {
    seq![torso_part(), head_part()]
}

pub open spec fn character_limbs() -> Seq<Limb> {
    seq![left_arm_part(), right_arm_part(), left_leg_part(), right_leg_part()]
}

pub open spec fn part_box_quads(b: BoxPart) -> Seq<Quad> {
    box_quads(b.center, b.size, b.bone)
}

/// The quads of the character, in build order: torso, head, left arm,
/// right arm, left leg, right leg.
pub open spec fn character_quads() -> Seq<Quad> {
    part_box_quads(torso_part()) + part_box_quads(head_part()) + limb_quads(left_arm_part())
        + limb_quads(right_arm_part()) + limb_quads(left_leg_part()) + limb_quads(right_leg_part())
}

/// The character's mesh.
pub open spec fn character_mesh() -> MeshModel {
    MeshModel::empty().with_quads(character_quads())
}

/// A box part's base centre is its bone's bind position (in half-millimetres,
/// so that half the height is exact).
pub open spec fn box_rests_on_bone(b: BoxPart) -> bool {
    let bind = bind_position_of(b.bone);
    &&& 2 * b.center.x == 2 * bind.0
    &&& 2 * b.center.y - b.size.y == 2 * bind.1
    &&& 2 * b.center.z == 2 * bind.2
}

/// A limb's top is its upper bone's bind position and its joint its lower
/// bone's.
pub open spec fn limb_hangs_from_bones(l: Limb) -> bool {
    &&& l.top.vec() == bind_position_of(l.top_bone)
    &&& l.joint.vec() == bind_position_of(l.bottom_bone)
}

/// Builds the character's mesh: the torso and head boxes and the two arms
/// and two legs, each limb with a loop cut at its elbow or knee.
pub fn build_character_mesh() -> (builder: CharacterMeshBuilder)
    ensures
        builder@ == character_mesh(),
        builder@.wf(),
{
    let mut builder = CharacterMeshBuilder::new();

    // Torso
    builder.add_box(Point3::new(0, 500, 0), Point3::new(600, 1000, 400), BONE_TORSO);
    // Head
    builder.add_box(Point3::new(0, 1200, 0), Point3::new(400, 400, 400), BONE_HEAD);

    // Left arm (with elbow loop cut)
    builder.add_limb(
        Point3::new(-400, 900, 0),
        Point3::new(-400, 450, 0),
        Point3::new(-400, 0, 0),
        200,
        200,
        BONE_ARM_L_UPPER,
        BONE_ARM_L_LOWER,
    );
    // Right arm
    builder.add_limb(
        Point3::new(400, 900, 0),
        Point3::new(400, 450, 0),
        Point3::new(400, 0, 0),
        200,
        200,
        BONE_ARM_R_UPPER,
        BONE_ARM_R_LOWER,
    );
    // Left leg (with knee loop cut)
    builder.add_limb(
        Point3::new(-150, 0, 0),
        Point3::new(-150, -500, 0),
        Point3::new(-150, -1000, 0),
        200,
        200,
        BONE_LEG_L_UPPER,
        BONE_LEG_L_LOWER,
    );
    // Right leg
    builder.add_limb(
        Point3::new(150, 0, 0),
        Point3::new(150, -500, 0),
        Point3::new(150, -1000, 0),
        200,
        200,
        BONE_LEG_R_UPPER,
        BONE_LEG_R_LOWER,
    );
    proof {
        let e = MeshModel::empty();
        let t = part_box_quads(torso_part());
        let h = part_box_quads(head_part());
        let al = limb_quads(left_arm_part());
        let ar = limb_quads(right_arm_part());
        let ll = limb_quads(left_leg_part());
        let lr = limb_quads(right_leg_part());
        lemma_with_quads_concat(e, t, h);
        lemma_with_quads_concat(e, t + h, al);
        lemma_with_quads_concat(e, t + h + al, ar);
        lemma_with_quads_concat(e, t + h + al + ar, ll);
        lemma_with_quads_concat(e, t + h + al + ar + ll, lr);
    }
    builder
}


/// A vertex follows bones of the skeleton only, with weights summing to one.
pub open spec fn vertex_skinned(joints: [u16; 4], weights: [u8; 4]) -> bool {
    &&& weight_sum(weights) == 100
    &&& joints[0] < BONE_COUNT
    &&& joints[1] < BONE_COUNT
    &&& joints[2] < BONE_COUNT
    &&& joints[3] < BONE_COUNT
}

pub open spec fn skinned_corner() -> spec_fn(MeshPoint, Normal, [u16; 4], [u8; 4]) -> bool {
    |p: MeshPoint, n: Normal, j: [u16; 4], w: [u8; 4]| vertex_skinned(j, w)
}

/// A point no lower than the feet of a standing character, which are
/// `STANDING_HEIGHT_MM` below its origin (half-millimetres).
pub open spec fn not_below_feet() -> spec_fn(MeshPoint, Normal, [u16; 4], [u8; 4]) -> bool {
    |p: MeshPoint, n: Normal, j: [u16; 4], w: [u8; 4]| p.y >= -2 * STANDING_HEIGHT_MM
}

proof fn lemma_part_laws(qs: Seq<Quad>)
    requires
        quads_shaped(qs),
        skinned_within(qs, BONE_COUNT as int),
        forall|f: int, j: int| 0 <= f < qs.len() && 0 <= j < 4 ==> (#[trigger] qs[f].corners[j]).y >= -2 * STANDING_HEIGHT_MM,
    ensures
        quads_satisfy(qs, skinned_corner()),
        quads_satisfy(qs, not_below_feet()),
{
    assert forall|f: int, j: int| 0 <= f < qs.len() && 0 <= j < 4 implies #[trigger] skinned_corner()(
        qs[f].corners[j],
        qs[f].normal,
        qs[f].joints[j],
        qs[f].weights[j],
    ) by {
        assert(weight_sum(qs[f].weights[j]) == 100);
    }
    assert forall|f: int, j: int| 0 <= f < qs.len() && 0 <= j < 4 implies #[trigger] not_below_feet()(
        qs[f].corners[j],
        qs[f].normal,
        qs[f].joints[j],
        qs[f].weights[j],
    ) by {
        assert(qs[f].corners[j].y >= -2 * STANDING_HEIGHT_MM);
    }
}

proof fn lemma_box_part(b: BoxPart)
    requires
        b.size.x > 0,
        b.size.y > 0,
        b.size.z > 0,
        b.bone < BONE_COUNT,
        2 * b.center.y - b.size.y >= -2 * STANDING_HEIGHT_MM,
    ensures
        quads_shaped(part_box_quads(b)),
        all_front_facing(part_box_quads(b)),
        encloses(part_box_quads(b)),
        closed(part_box_quads(b)),
        quads_satisfy(part_box_quads(b), skinned_corner()),
        quads_satisfy(part_box_quads(b), not_below_feet()),
        part_box_quads(b).len() == 6,
{
    lemma_box_quads(b.center, b.size, b.bone);
    lemma_skinned_within_wider(part_box_quads(b), b.bone + 1, BONE_COUNT as int);
    lemma_part_laws(part_box_quads(b));
}

proof fn lemma_limb_part(l: Limb)
    requires
        l.width > 0,
        l.depth > 0,
        l.bottom.y < l.joint.y < l.top.y,
        l.top_bone < BONE_COUNT,
        l.bottom_bone < BONE_COUNT,
        l.bottom.y >= -STANDING_HEIGHT_MM,
    ensures
        quads_shaped(limb_quads(l)),
        all_front_facing(limb_quads(l)),
        encloses(limb_quads(l)),
        closed(limb_quads(l)),
        limb_skinned_by_level(l, limb_quads(l)),
        quads_satisfy(limb_quads(l), skinned_corner()),
        quads_satisfy(limb_quads(l), not_below_feet()),
        limb_quads(l).len() == 10,
{
    let qs = limb_quads(l);
    lemma_limb_quads(l);
    lemma_skinned_within_wider(
        qs,
        if l.top_bone < l.bottom_bone { l.bottom_bone + 1 } else { l.top_bone + 1 },
        BONE_COUNT as int,
    );
    assert forall|f: int, j: int| 0 <= f < qs.len() && 0 <= j < 4 implies (#[trigger] qs[f].corners[j]).y >= -2
        * STANDING_HEIGHT_MM by {
        assert(limb_skinned_by_level(l, qs));
    }
    lemma_part_laws(qs);
}

/// The character's quads: 52 of them, each wound counter-clockwise seen from
/// outside its part; each part (each box, each limb) is a closed surface that
/// encloses its solid with outward normals; every corner follows skeleton bones only, with weights
/// summing to one, and none lies below the feet.
pub proof fn lemma_character_quads()
    ensures
        character_quads().len() == 52,
        quads_shaped(character_quads()),
        all_front_facing(character_quads()),
        quads_satisfy(character_quads(), skinned_corner()),
        quads_satisfy(character_quads(), not_below_feet()),
        encloses(part_box_quads(torso_part())),
        closed(part_box_quads(torso_part())),
        encloses(part_box_quads(head_part())),
        closed(part_box_quads(head_part())),
        encloses(limb_quads(left_arm_part())),
        closed(limb_quads(left_arm_part())),
        encloses(limb_quads(right_arm_part())),
        closed(limb_quads(right_arm_part())),
        encloses(limb_quads(left_leg_part())),
        closed(limb_quads(left_leg_part())),
        encloses(limb_quads(right_leg_part())),
        closed(limb_quads(right_leg_part())),
{
    let t = part_box_quads(torso_part());
    let h = part_box_quads(head_part());
    let al = limb_quads(left_arm_part());
    let ar = limb_quads(right_arm_part());
    let ll = limb_quads(left_leg_part());
    let lr = limb_quads(right_leg_part());
    lemma_box_part(torso_part());
    lemma_box_part(head_part());
    lemma_limb_part(left_arm_part());
    lemma_limb_part(right_arm_part());
    lemma_limb_part(left_leg_part());
    lemma_limb_part(right_leg_part());
    let sk = skinned_corner();
    let nf = not_below_feet();
    let n = BONE_COUNT as int;
    lemma_concat_quads(t, h, sk, n);
    lemma_concat_quads(t, h, nf, n);
    lemma_concat_quads(t + h, al, sk, n);
    lemma_concat_quads(t + h, al, nf, n);
    lemma_concat_quads(t + h + al, ar, sk, n);
    lemma_concat_quads(t + h + al, ar, nf, n);
    lemma_concat_quads(t + h + al + ar, ll, sk, n);
    lemma_concat_quads(t + h + al + ar, ll, nf, n);
    lemma_concat_quads(t + h + al + ar + ll, lr, sk, n);
    lemma_concat_quads(t + h + al + ar + ll, lr, nf, n);
}

/// Laws of the character mesh: it is a well-formed mesh of 208 vertices and
/// 312 indices; every vertex follows skeleton bones only, with weights
/// summing to one; no vertex lies below the feet.
pub proof fn lemma_character_mesh()
    ensures
        character_mesh().wf(),
        character_mesh().positions.len() == 208,
        character_mesh().indices.len() == 312,
        forall|i: int|
            0 <= i < character_mesh().positions.len() ==> vertex_skinned(
                #[trigger] character_mesh().joint_indices[i],
                character_mesh().joint_weights[i],
            ),
        forall|i: int|
            0 <= i < character_mesh().positions.len() ==> (#[trigger] character_mesh().positions[i]).y
                >= -2 * STANDING_HEIGHT_MM,
{
    lemma_character_quads();
    let qs = character_quads();
    let sk = skinned_corner();
    let nf = not_below_feet();
    let e = MeshModel::empty();
    assert(e.wf());
    lemma_with_quads_wf(e, qs);
    assert(vertices_satisfy(e, sk));
    assert(vertices_satisfy(e, nf));
    lemma_with_quads_satisfy(e, qs, sk);
    lemma_with_quads_satisfy(e, qs, nf);
    let m = character_mesh();
    assert forall|i: int| 0 <= i < m.positions.len() implies vertex_skinned(
        #[trigger] m.joint_indices[i],
        m.joint_weights[i],
    ) by {
        assert(sk(m.positions[i], m.normals[i], m.joint_indices[i], m.joint_weights[i]));
    }
    assert forall|i: int| 0 <= i < m.positions.len() implies (#[trigger] m.positions[i]).y >= -2
        * STANDING_HEIGHT_MM by {
        assert(nf(m.positions[i], m.normals[i], m.joint_indices[i], m.joint_weights[i]));
    }
}

/// Both soles touch the ground: each leg ends `STANDING_HEIGHT_MM` below the
/// origin, and the four corners of each leg's bottom cap (vertices 164 to 167
/// for the left leg, 204 to 207 for the right) lie exactly there; by
/// `lemma_character_mesh` no vertex lies lower.
pub proof fn lemma_character_soles()
    ensures
        left_leg_part().bottom.y == -STANDING_HEIGHT_MM,
        right_leg_part().bottom.y == -STANDING_HEIGHT_MM,
        forall|j: int| 0 <= j < 4 ==> (#[trigger] limb_quads(left_leg_part())[9].corners[j]).y == -2 * STANDING_HEIGHT_MM,
        forall|j: int| 0 <= j < 4 ==> (#[trigger] limb_quads(right_leg_part())[9].corners[j]).y == -2 * STANDING_HEIGHT_MM,
        forall|i: int|
            (164 <= i < 168 || 204 <= i < 208) ==> (#[trigger] character_mesh().positions[i]).y == -2 * STANDING_HEIGHT_MM,
        exists|i: int|
            0 <= i < character_mesh().positions.len() && (#[trigger] character_mesh().positions[i]).y
                == -2 * STANDING_HEIGHT_MM,
{
    lemma_character_quads();
    let qs = character_quads();
    let e = MeshModel::empty();
    let m = character_mesh();
    let t = part_box_quads(torso_part());
    let h = part_box_quads(head_part());
    let al = limb_quads(left_arm_part());
    let ar = limb_quads(right_arm_part());
    let ll = limb_quads(left_leg_part());
    let lr = limb_quads(right_leg_part());
    assert(qs[41] == ll[9] && qs[51] == lr[9]) by {
        lemma_box_part(torso_part());
        lemma_box_part(head_part());
        lemma_limb_part(left_arm_part());
        lemma_limb_part(right_arm_part());
        lemma_limb_part(left_leg_part());
        lemma_limb_part(right_leg_part());
        assert((t + h + al + ar + ll)[41] == ll[9]);
        assert(qs[41] == (t + h + al + ar + ll)[41]);
    }
    assert forall|j: int| 0 <= j < 4 implies (#[trigger] ll[9].corners[j]).y == -2 * STANDING_HEIGHT_MM by {}
    assert forall|j: int| 0 <= j < 4 implies (#[trigger] lr[9].corners[j]).y == -2 * STANDING_HEIGHT_MM by {}
    assert forall|i: int| (164 <= i < 168 || 204 <= i < 208) implies (#[trigger] m.positions[i]).y == -2
        * STANDING_HEIGHT_MM by {
        if i < 168 {
            lemma_with_quads_index(e, qs, 41, i - 164);
        } else {
            lemma_with_quads_index(e, qs, 51, i - 204);
        }
    }
    lemma_with_quads_index(e, qs, 41, 0);
    assert(m.positions[164].y == -2 * STANDING_HEIGHT_MM);
}

/// `r` is the limb `l` reflected in the body's midplane x = 0: same heights,
/// same size, opposite side.
pub open spec fn mirrored_limb(l: Limb, r: Limb) -> bool {
    &&& r.top.x == -l.top.x && r.joint.x == -l.joint.x && r.bottom.x == -l.bottom.x
    &&& r.top.y == l.top.y && r.joint.y == l.joint.y && r.bottom.y == l.bottom.y
    &&& r.top.z == l.top.z && r.joint.z == l.joint.z && r.bottom.z == l.bottom.z
    &&& r.width == l.width && r.depth == l.depth
}

/// The character is mirror symmetric: the right arm and leg are the left
/// ones reflected in x = 0 (the left ones at negative x), the boxes are
/// centred on the midplane, and each right limb follows the right-side bones
/// that mirror the left limb's bones.
pub proof fn lemma_character_is_mirror_symmetric()
    ensures
        mirrored_limb(left_arm_part(), right_arm_part()),
        mirrored_limb(left_leg_part(), right_leg_part()),
        left_arm_part().top.x < 0 && left_leg_part().top.x < 0,
        torso_part().center.x == 0 && head_part().center.x == 0,
        limb_hangs_from_bones(left_arm_part()) && limb_hangs_from_bones(right_arm_part()),
        limb_hangs_from_bones(left_leg_part()) && limb_hangs_from_bones(right_leg_part()),
{
}

/// The body parts are joined: the torso runs from its bone (at the hips) up
/// to the head's bone, on which the head box rests; each arm's top lies
/// within the torso's height and its inner side lies against the torso's
/// side; each leg starts at the torso's base and lies within its width; and
/// every limb lies within the torso's depth.
pub proof fn lemma_character_parts_joined()
    ensures
        2 * torso_part().center.y - torso_part().size.y == 2 * bind_position_of(BONE_TORSO).1,
        2 * torso_part().center.y + torso_part().size.y == 2 * bind_position_of(BONE_HEAD).1,
        2 * head_part().center.y - head_part().size.y == 2 * bind_position_of(BONE_HEAD).1,
        bind_position_of(BONE_TORSO) == bind_position_of(BONE_PELVIS),
        forall|a: Limb| a == left_arm_part() || a == right_arm_part() ==> {
            &&& 2 * torso_part().center.y - torso_part().size.y <= 2 * a.top.y
            &&& 2 * a.top.y <= 2 * torso_part().center.y + torso_part().size.y
        },
        2 * left_arm_part().top.x + left_arm_part().width == 2 * torso_part().center.x - torso_part().size.x,
        2 * right_arm_part().top.x - right_arm_part().width == 2 * torso_part().center.x + torso_part().size.x,
        forall|l: Limb| l == left_leg_part() || l == right_leg_part() ==> {
            &&& 2 * l.top.y == 2 * torso_part().center.y - torso_part().size.y
            &&& 2 * torso_part().center.x - torso_part().size.x <= 2 * l.top.x - l.width
            &&& 2 * l.top.x + l.width <= 2 * torso_part().center.x + torso_part().size.x
        },
        forall|l: Limb| #![trigger character_limbs().contains(l)] character_limbs().contains(l) ==> {
            &&& 2 * torso_part().center.z - torso_part().size.z <= 2 * l.top.z - l.depth
            &&& 2 * l.top.z + l.depth <= 2 * torso_part().center.z + torso_part().size.z
        },
{
    assert forall|l: Limb| #![trigger character_limbs().contains(l)] character_limbs().contains(l) implies {
        &&& 2 * torso_part().center.z - torso_part().size.z <= 2 * l.top.z - l.depth
        &&& 2 * l.top.z + l.depth <= 2 * torso_part().center.z + torso_part().size.z
    } by {
        let i = choose|i: int| 0 <= i < character_limbs().len() && character_limbs()[i] == l;
    }
}

/// Every body part hangs from the bind pose of its bones: each box's base
/// centre is its bone's bind position, and each limb's top is its upper
/// bone's bind position and its elbow or knee its lower bone's. So in the
/// rest pose the mesh and the skeleton agree.
pub proof fn lemma_parts_hang_from_bind_pose()
    ensures
        forall|i: int| 0 <= i < character_boxes().len() ==> box_rests_on_bone(#[trigger] character_boxes()[i]),
        forall|i: int| 0 <= i < character_limbs().len() ==> limb_hangs_from_bones(#[trigger] character_limbs()[i]),
        character_quads() == part_box_quads(character_boxes()[0]) + part_box_quads(character_boxes()[1])
            + limb_quads(character_limbs()[0]) + limb_quads(character_limbs()[1])
            + limb_quads(character_limbs()[2]) + limb_quads(character_limbs()[3]),
{
    assert(character_boxes()[0] == torso_part());
    assert(character_boxes()[1] == head_part());
    assert(character_limbs()[0] == left_arm_part());
    assert(character_limbs()[1] == right_arm_part());
    assert(character_limbs()[2] == left_leg_part());
    assert(character_limbs()[3] == right_leg_part());
}

} // verus!
