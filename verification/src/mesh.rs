//! The procedural, skinned mesh builder: every surface is a list of quads,
//! each stored as four vertices and two triangles.
use vstd::prelude::*;
use crate::geometry::{MeshPoint, Normal, Point3, Vec3, vcross, vdot, vsub, same_direction};

verus! {

/// Weight (in hundredths) of a vertex that follows one bone only.
pub const FULL_WEIGHT: u8 = 100;

/// Weight (in hundredths) of each of the two bones at a joint.
pub const HALF_WEIGHT: u8 = 50;

/// One quad as the builder records it: four corners, one normal shared by
/// the corners, and each corner's four joint indices and joint weights
/// (weights in hundredths).
pub ghost struct Quad {
    pub corners: Seq<MeshPoint>,
    pub normal: Normal,
    pub joints: Seq<[u16; 4]>,
    pub weights: Seq<[u8; 4]>,
}

/// What a builder holds, as sequences.
#[verifier::ext_equal]
pub ghost struct MeshModel {
    pub positions: Seq<MeshPoint>,
    pub normals: Seq<Normal>,
    pub joint_indices: Seq<[u16; 4]>,
    pub joint_weights: Seq<[u8; 4]>,
    pub indices: Seq<u32>,
}

pub open spec fn make_quad(
    v0: MeshPoint,
    v1: MeshPoint,
    v2: MeshPoint,
    v3: MeshPoint,
    n: Normal,
    b0: [u16; 4],
    w0: [u8; 4],
    b1: [u16; 4],
    w1: [u8; 4],
    b2: [u16; 4],
    w2: [u8; 4],
    b3: [u16; 4],
    w3: [u8; 4],
) -> Quad {
    Quad {
        corners: seq![v0, v1, v2, v3],
        normal: n,
        joints: seq![b0, b1, b2, b3],
        weights: seq![w0, w1, w2, w3],
    }
}

/// The two triangles of a quad whose first vertex has index `base`:
/// (0, 1, 2) and (2, 3, 0), counted from `base`.
pub open spec fn quad_indices(base: nat) -> Seq<u32> {
    seq![
        base as u32,
        (base + 1) as u32,
        (base + 2) as u32,
        (base + 2) as u32,
        (base + 3) as u32,
        base as u32,
    ]
}

pub open spec fn joints_rigid(bone: u16) -> [u16; 4] {
    [bone, 0, 0, 0]
}

pub open spec fn weights_rigid() -> [u8; 4] {
    [100, 0, 0, 0]
}

pub open spec fn joints_blend(first: u16, second: u16) -> [u16; 4] {
    [first, second, 0, 0]
}

pub open spec fn weights_blend() -> [u8; 4] {
    [50, 50, 0, 0]
}

pub open spec fn weight_sum(w: [u8; 4]) -> int {
    w[0] + w[1] + w[2] + w[3]
}


/// A mesh point from integer coordinates (half-millimetres).
pub open spec fn mp(x: int, y: int, z: int) -> MeshPoint {
    MeshPoint { x: x as i64, y: y as i64, z: z as i64 }
}

/// The corner of a box on side `sx`, `sy`, `sz` (each -1 or 1) of its centre:
/// the centre moved by half the size along each axis, in half-millimetres.
pub open spec fn box_corner(center: Point3, size: Point3, sx: int, sy: int, sz: int) -> MeshPoint {
    mp(2 * center.x + sx * size.x, 2 * center.y + sy * size.y, 2 * center.z + sz * size.z)
}

pub open spec fn rigid_quad(c0: MeshPoint, c1: MeshPoint, c2: MeshPoint, c3: MeshPoint, n: Normal, bone: u16) -> Quad {
    Quad {
        corners: seq![c0, c1, c2, c3],
        normal: n,
        joints: seq![joints_rigid(bone), joints_rigid(bone), joints_rigid(bone), joints_rigid(bone)],
        weights: seq![weights_rigid(), weights_rigid(), weights_rigid(), weights_rigid()],
    }
}

/// The six faces of a box, front (+z), back (-z), right (+x), left (-x),
/// top (+y), bottom (-y), all bound to `bone` alone. With corners numbered
/// 0 (-,-,+), 1 (+,-,+), 2 (+,+,+), 3 (-,+,+), 4 (-,-,-), 5 (+,-,-), 6 (+,+,-),
/// 7 (-,+,-), the faces are 0 1 2 3, 5 4 7 6, 1 5 6 2, 4 0 3 7, 3 2 6 7, 4 5 1 0.
pub open spec fn box_quads(center: Point3, size: Point3, bone: u16) -> Seq<Quad> {
    let p0 = box_corner(center, size, -1, -1, 1);
    let p1 = box_corner(center, size, 1, -1, 1);
    let p2 = box_corner(center, size, 1, 1, 1);
    let p3 = box_corner(center, size, -1, 1, 1);
    let p4 = box_corner(center, size, -1, -1, -1);
    let p5 = box_corner(center, size, 1, -1, -1);
    let p6 = box_corner(center, size, 1, 1, -1);
    let p7 = box_corner(center, size, -1, 1, -1);
    seq![
        rigid_quad(p0, p1, p2, p3, Normal::pos_z_spec(), bone),
        rigid_quad(p5, p4, p7, p6, Normal::neg_z_spec(), bone),
        rigid_quad(p1, p5, p6, p2, Normal::pos_x_spec(), bone),
        rigid_quad(p4, p0, p3, p7, Normal::neg_x_spec(), bone),
        rigid_quad(p3, p2, p6, p7, Normal::pos_y_spec(), bone),
        rigid_quad(p4, p5, p1, p0, Normal::neg_y_spec(), bone),
    ]
}


/// The parameters of a limb: a prism from `top` down to `bottom`, centred on
/// `top`'s x and z, `width` by `depth` millimetres, cut by a ring at
/// `joint`'s height; the upper part follows `top_bone`, the lower part
/// `bottom_bone`, and the ring at the joint follows both, half and half.
#[derive(Clone, Copy, Debug, PartialEq, Eq, Structural)]
pub struct Limb {
    pub top: Point3,
    pub joint: Point3,
    pub bottom: Point3,
    pub width: i32,
    pub depth: i32,
    pub top_bone: u16,
    pub bottom_bone: u16,
}

/// Height (half-millimetres) of a limb level: 0 bottom, 1 joint, 2 top.
pub open spec fn limb_level_y(l: Limb, level: int) -> int {
    if level == 2 {
        2 * l.top.y
    } else if level == 1 {
        2 * l.joint.y
    } else {
        2 * l.bottom.y
    }
}

/// The limb corner `c` = (x side, level, z side): on side `c.0` of the
/// x extent and `c.2` of the z extent (each -1 or 1), at level `c.1`.
pub open spec fn limb_vertex(l: Limb, c: (int, int, int)) -> MeshPoint {
    mp(
        if c.0 < 0 { 2 * l.top.x - l.width } else { 2 * l.top.x + l.width },
        limb_level_y(l, c.1),
        if c.2 < 0 { 2 * l.top.z - l.depth } else { 2 * l.top.z + l.depth },
    )
}

/// The joints of a corner at a level: the top bone at the top, the bottom
/// bone at the bottom, both at the joint.
pub open spec fn level_joints(l: Limb, level: int) -> [u16; 4] {
    if level == 2 {
        joints_rigid(l.top_bone)
    } else if level == 1 {
        joints_blend(l.top_bone, l.bottom_bone)
    } else {
        joints_rigid(l.bottom_bone)
    }
}

pub open spec fn level_weights(level: int) -> [u8; 4] {
    if level == 1 {
        weights_blend()
    } else {
        weights_rigid()
    }
}

pub open spec fn limb_quad(
    l: Limb,
    c0: (int, int, int),
    c1: (int, int, int),
    c2: (int, int, int),
    c3: (int, int, int),
    n: Normal,
) -> Quad {
    make_quad(
        limb_vertex(l, c0),
        limb_vertex(l, c1),
        limb_vertex(l, c2),
        limb_vertex(l, c3),
        n,
        level_joints(l, c0.1),
        level_weights(c0.1),
        level_joints(l, c1.1),
        level_weights(c1.1),
        level_joints(l, c2.1),
        level_weights(c2.1),
        level_joints(l, c3.1),
        level_weights(c3.1),
    )
}

/// The ten faces of a limb: front (+z), back (-z), right (+x) and left (-x),
/// each as an upper and a lower quad, then the top and bottom caps.
pub open spec fn limb_quads(l: Limb) -> Seq<Quad> {
    seq![
        limb_quad(l, (-1int, 1int, 1int), (1int, 1int, 1int), (1int, 2int, 1int), (-1int, 2int, 1int), Normal::pos_z_spec()),
        limb_quad(l, (-1int, 0int, 1int), (1int, 0int, 1int), (1int, 1int, 1int), (-1int, 1int, 1int), Normal::pos_z_spec()),
        limb_quad(l, (1int, 1int, -1int), (-1int, 1int, -1int), (-1int, 2int, -1int), (1int, 2int, -1int), Normal::neg_z_spec()),
        limb_quad(l, (1int, 0int, -1int), (-1int, 0int, -1int), (-1int, 1int, -1int), (1int, 1int, -1int), Normal::neg_z_spec()),
        limb_quad(l, (1int, 1int, 1int), (1int, 1int, -1int), (1int, 2int, -1int), (1int, 2int, 1int), Normal::pos_x_spec()),
        limb_quad(l, (1int, 0int, 1int), (1int, 0int, -1int), (1int, 1int, -1int), (1int, 1int, 1int), Normal::pos_x_spec()),
        limb_quad(l, (-1int, 1int, -1int), (-1int, 1int, 1int), (-1int, 2int, 1int), (-1int, 2int, -1int), Normal::neg_x_spec()),
        limb_quad(l, (-1int, 0int, -1int), (-1int, 0int, 1int), (-1int, 1int, 1int), (-1int, 1int, -1int), Normal::neg_x_spec()),
        limb_quad(l, (-1int, 2int, 1int), (1int, 2int, 1int), (1int, 2int, -1int), (-1int, 2int, -1int), Normal::pos_y_spec()),
        limb_quad(l, (-1int, 0int, -1int), (1int, 0int, -1int), (1int, 0int, 1int), (-1int, 0int, 1int), Normal::neg_y_spec()),
    ]
}

/// Both triangles of the quad, (0, 1, 2) and (2, 3, 0), are wound
/// counter-clockwise when seen from the side its normal points to: each
/// triangle's geometric normal points exactly along the quad's normal.
pub open spec fn front_facing(q: Quad) -> bool {
    let c = q.corners;
    let n = q.normal.vec();
    &&& same_direction(vcross(vsub(c[1].vec(), c[0].vec()), vsub(c[2].vec(), c[0].vec())), n)
    &&& same_direction(vcross(vsub(c[3].vec(), c[2].vec()), vsub(c[0].vec(), c[2].vec())), n)
}

/// Every quad of the surface is front facing.
pub open spec fn all_front_facing(qs: Seq<Quad>) -> bool {
    forall|f: int| 0 <= f < qs.len() ==> front_facing(#[trigger] qs[f])
}

/// Every quad lies in a supporting plane of the whole surface and its normal
/// points away from it: no corner of any quad lies further along a quad's
/// normal than that quad's own corners. So the surface bounds a convex
/// solid and every normal points outward.
pub open spec fn encloses(qs: Seq<Quad>) -> bool {
    forall|f: int, j: int, g: int, k: int|
        0 <= f < qs.len() && 0 <= j < 4 && 0 <= g < qs.len() && 0 <= k < 4 ==> #[trigger] vdot(
            qs[g].corners[k].vec(),
            qs[f].normal.vec(),
        ) <= #[trigger] vdot(qs[f].corners[j].vec(), qs[f].normal.vec())
}


pub open spec fn next_corner(j: int) -> int {
    if j == 3 {
        0
    } else {
        j + 1
    }
}

/// Edge `j` of quad `f` (from corner `j` to the next) is edge `k` of another
/// quad `g`, traversed the other way.
pub open spec fn edge_twin(qs: Seq<Quad>, f: int, j: int, g: int, k: int) -> bool {
    &&& 0 <= g < qs.len()
    &&& 0 <= k < 4
    &&& g != f
    &&& qs[g].corners[k] == qs[f].corners[next_corner(j)]
    &&& qs[g].corners[next_corner(k)] == qs[f].corners[j]
}

/// Every edge of every quad is shared with another quad that runs it the
/// other way: the surface is closed, with no holes, and consistently
/// oriented.
pub open spec fn closed(qs: Seq<Quad>) -> bool {
    forall|f: int, j: int| 0 <= f < qs.len() && 0 <= j < 4 ==> #[trigger] has_twin(qs, f, j)
}

pub open spec fn has_twin(qs: Seq<Quad>, f: int, j: int) -> bool {
    exists|g: int, k: int| #[trigger] edge_twin(qs, f, j, g, k)
}

/// Every corner of every quad is bound to bones below `bone_count`, with
/// weights summing to one (a hundred hundredths).
pub open spec fn skinned_within(qs: Seq<Quad>, bone_count: int) -> bool {
    forall|f: int, j: int|
        0 <= f < qs.len() && 0 <= j < 4 ==> {
            &&& weight_sum(#[trigger] qs[f].weights[j]) == 100
            &&& qs[f].joints[j][0] < bone_count
            &&& qs[f].joints[j][1] < bone_count
            &&& qs[f].joints[j][2] < bone_count
            &&& qs[f].joints[j][3] < bone_count
        }
}

impl MeshModel {
    pub open spec fn empty() -> MeshModel {
        MeshModel {
            positions: Seq::empty(),
            normals: Seq::empty(),
            joint_indices: Seq::empty(),
            joint_weights: Seq::empty(),
            indices: Seq::empty(),
        }
    }

    /// The mesh after one more quad: its corners become four new vertices and
    /// its two triangles index them.
    pub open spec fn with_quad(self, q: Quad) -> MeshModel {
        MeshModel {
            positions: self.positions + q.corners,
            normals: self.normals + seq![q.normal, q.normal, q.normal, q.normal],
            joint_indices: self.joint_indices + q.joints,
            joint_weights: self.joint_weights + q.weights,
            indices: self.indices + quad_indices(self.positions.len()),
        }
    }

    /// The mesh after the quads of `qs`, in order.
    pub open spec fn with_quads(self, qs: Seq<Quad>) -> MeshModel
        decreases qs.len(),
    {
        if qs.len() == 0 {
            self
        } else {
            self.with_quads(qs.drop_last()).with_quad(qs.last())
        }
    }

    /// Every vertex has one position, normal, joint set and weight set, there
    /// are three indices for every two vertices, every index names a vertex,
    /// and the vertex count fits the 32-bit index type.
    pub open spec fn wf(self) -> bool {
        &&& self.normals.len() == self.positions.len()
        &&& self.joint_indices.len() == self.positions.len()
        &&& self.joint_weights.len() == self.positions.len()
        &&& self.indices.len() * 2 == self.positions.len() * 3
        &&& self.positions.len() <= u32::MAX + 1
        &&& forall|k: int| 0 <= k < self.indices.len() ==> self.indices[k] < self.positions.len()
    }
}

/// Each quad has four corners and four joint and weight sets.
pub open spec fn quads_shaped(qs: Seq<Quad>) -> bool {
    forall|f: int|
        0 <= f < qs.len() ==> {
            &&& (#[trigger] qs[f]).corners.len() == 4
            &&& qs[f].joints.len() == 4
            &&& qs[f].weights.len() == 4
        }
}

/// The mesh builder. Vertex positions are in half-millimetres, weights in
/// hundredths; texture coordinates are all zero and left to the renderer.
pub struct CharacterMeshBuilder {
    pub positions: Vec<MeshPoint>,
    pub normals: Vec<Normal>,
    pub joint_indices: Vec<[u16; 4]>,
    pub joint_weights: Vec<[u8; 4]>,
    pub indices: Vec<u32>,
}

impl View for CharacterMeshBuilder {
    type V = MeshModel;

    open spec fn view(&self) -> MeshModel {
        MeshModel {
            positions: self.positions@,
            normals: self.normals@,
            joint_indices: self.joint_indices@,
            joint_weights: self.joint_weights@,
            indices: self.indices@,
        }
    }
}

/// Adding a quad keeps a well-formed mesh well formed.
pub proof fn lemma_with_quad_wf(m: MeshModel, q: Quad)
    requires
        m.wf(),
        q.corners.len() == 4,
        q.joints.len() == 4,
        q.weights.len() == 4,
        m.positions.len() + 4 <= u32::MAX + 1,
    ensures
        m.with_quad(q).wf(),
{
    let r = m.with_quad(q);
    let base = m.positions.len();
    assert forall|k: int| 0 <= k < r.indices.len() implies r.indices[k] < r.positions.len() by {
        if k >= m.indices.len() {
            assert(r.indices[k] == quad_indices(base)[k - m.indices.len()]);
        }
    }
}

/// Adding a sequence of quads is adding them one after another.
pub proof fn lemma_with_quads_push(m: MeshModel, qs: Seq<Quad>, q: Quad)
    ensures
        m.with_quads(qs.push(q)) == m.with_quads(qs).with_quad(q),
{
    assert(qs.push(q).drop_last() =~= qs);
}

/// Adding `a` then `b` is adding `a + b`.
pub proof fn lemma_with_quads_concat(m: MeshModel, a: Seq<Quad>, b: Seq<Quad>)
    ensures
        m.with_quads(a).with_quads(b) == m.with_quads(a + b),
    decreases b.len(),
{
    if b.len() == 0 {
        assert(a + b =~= a);
    } else {
        lemma_with_quads_concat(m, a, b.drop_last());
        assert((a + b).drop_last() =~= a + b.drop_last());
        assert((a + b).last() == b.last());
    }
}


/// Each quad adds four vertices and six indices.
pub proof fn lemma_with_quads_len(m: MeshModel, qs: Seq<Quad>)
    requires
        quads_shaped(qs),
    ensures
        m.with_quads(qs).positions.len() == m.positions.len() + 4 * qs.len(),
        m.with_quads(qs).indices.len() == m.indices.len() + 6 * qs.len(),
    decreases qs.len(),
{
    if qs.len() > 0 {
        let init = qs.drop_last();
        assert(quads_shaped(init)) by {
            assert forall|f: int| 0 <= f < init.len() implies {
                &&& (#[trigger] init[f]).corners.len() == 4
                &&& init[f].joints.len() == 4
                &&& init[f].weights.len() == 4
            } by {
                assert(init[f] == qs[f]);
            }
        }
        lemma_with_quads_len(m, init);
        assert(qs.last() == qs[qs.len() - 1]);
    }
}

/// The vertex count after some quads, and well-formedness kept throughout.
pub proof fn lemma_with_quads_wf(m: MeshModel, qs: Seq<Quad>)
    requires
        m.wf(),
        quads_shaped(qs),
        m.positions.len() + 4 * qs.len() <= u32::MAX + 1,
    ensures
        m.with_quads(qs).wf(),
        m.with_quads(qs).positions.len() == m.positions.len() + 4 * qs.len(),
        m.with_quads(qs).indices.len() == m.indices.len() + 6 * qs.len(),
    decreases qs.len(),
{
    if qs.len() > 0 {
        let init = qs.drop_last();
        assert(quads_shaped(init)) by {
            assert forall|f: int| 0 <= f < init.len() implies {
                &&& (#[trigger] init[f]).corners.len() == 4
                &&& init[f].joints.len() == 4
                &&& init[f].weights.len() == 4
            } by {
                assert(init[f] == qs[f]);
            }
        }
        lemma_with_quads_wf(m, init);
        assert(qs.last() == qs[qs.len() - 1]);
        lemma_with_quad_wf(m.with_quads(init), qs.last());
    }
}


proof fn lemma_cross_shear(a: Vec3, v: Vec3)
    by (nonlinear_arith)
    ensures
        vcross(a, (a.0 + v.0, a.1 + v.1, a.2 + v.2)) == vcross(a, v),
{
}

proof fn lemma_cross_neg(a: Vec3, b: Vec3)
    by (nonlinear_arith)
    ensures
        vcross((-a.0, -a.1, -a.2), (-b.0, -b.1, -b.2)) == vcross(a, b),
{
}

/// A quad whose corners form a parallelogram, with the cross product of its
/// two edges from corner 0 along its normal, is front facing.
pub proof fn lemma_parallelogram_front_facing(q: Quad)
    requires
        q.corners.len() == 4,
        q.corners[2].vec() == (
            q.corners[1].x + q.corners[3].x - q.corners[0].x,
            q.corners[1].y + q.corners[3].y - q.corners[0].y,
            q.corners[1].z + q.corners[3].z - q.corners[0].z,
        ),
        same_direction(
            vcross(
                vsub(q.corners[1].vec(), q.corners[0].vec()),
                vsub(q.corners[3].vec(), q.corners[0].vec()),
            ),
            q.normal.vec(),
        ),
    ensures
        front_facing(q),
{
    let c = q.corners;
    let u = vsub(c[1].vec(), c[0].vec());
    let v = vsub(c[3].vec(), c[0].vec());
    let w: Vec3 = (u.0 + v.0, u.1 + v.1, u.2 + v.2);
    lemma_cross_shear(u, v);
    assert(vsub(c[2].vec(), c[0].vec()) == w);
    lemma_cross_neg(u, w);
    assert(vsub(c[3].vec(), c[2].vec()) == (-u.0, -u.1, -u.2));
    assert(vsub(c[0].vec(), c[2].vec()) == (-w.0, -w.1, -w.2));
}

/// The largest value of `vdot(p, n)` over the axis-aligned box `lo..hi`, for
/// an axis direction `n`.
pub open spec fn axis_support(lo: Vec3, hi: Vec3, n: Vec3) -> int {
    if n == (1int, 0int, 0int) {
        hi.0
    } else if n == (-1int, 0int, 0int) {
        -lo.0
    } else if n == (0int, 1int, 0int) {
        hi.1
    } else if n == (0int, -1int, 0int) {
        -lo.1
    } else if n == (0int, 0int, 1int) {
        hi.2
    } else {
        -lo.2
    }
}

pub open spec fn is_axis(n: Vec3) -> bool {
    ||| n == (1int, 0int, 0int)
    ||| n == (-1int, 0int, 0int)
    ||| n == (0int, 1int, 0int)
    ||| n == (0int, -1int, 0int)
    ||| n == (0int, 0int, 1int)
    ||| n == (0int, 0int, -1int)
}

pub open spec fn in_box(p: Vec3, lo: Vec3, hi: Vec3) -> bool {
    &&& lo.0 <= p.0 <= hi.0
    &&& lo.1 <= p.1 <= hi.1
    &&& lo.2 <= p.2 <= hi.2
}

proof fn lemma_axis_support(p: Vec3, lo: Vec3, hi: Vec3, n: Vec3)
    requires
        in_box(p, lo, hi),
        is_axis(n),
    ensures
        vdot(p, n) <= axis_support(lo, hi, n),
{
    if n == (1int, 0int, 0int) {
        assert(vdot(p, n) == p.0) by (nonlinear_arith) requires n == (1int, 0int, 0int);
    } else if n == (-1int, 0int, 0int) {
        assert(vdot(p, n) == -p.0) by (nonlinear_arith) requires n == (-1int, 0int, 0int);
    } else if n == (0int, 1int, 0int) {
        assert(vdot(p, n) == p.1) by (nonlinear_arith) requires n == (0int, 1int, 0int);
    } else if n == (0int, -1int, 0int) {
        assert(vdot(p, n) == -p.1) by (nonlinear_arith) requires n == (0int, -1int, 0int);
    } else if n == (0int, 0int, 1int) {
        assert(vdot(p, n) == p.2) by (nonlinear_arith) requires n == (0int, 0int, 1int);
    } else {
        assert(vdot(p, n) == -p.2) by (nonlinear_arith) requires n == (0int, 0int, -1int);
    }
}

proof fn lemma_axis_dot(p: Vec3, n: Vec3)
    requires
        is_axis(n),
    ensures
        vdot(p, n) == axis_support(p, p, n),
{
    if n == (1int, 0int, 0int) {
        assert(vdot(p, n) == p.0) by (nonlinear_arith) requires n == (1int, 0int, 0int);
    } else if n == (-1int, 0int, 0int) {
        assert(vdot(p, n) == -p.0) by (nonlinear_arith) requires n == (-1int, 0int, 0int);
    } else if n == (0int, 1int, 0int) {
        assert(vdot(p, n) == p.1) by (nonlinear_arith) requires n == (0int, 1int, 0int);
    } else if n == (0int, -1int, 0int) {
        assert(vdot(p, n) == -p.1) by (nonlinear_arith) requires n == (0int, -1int, 0int);
    } else if n == (0int, 0int, 1int) {
        assert(vdot(p, n) == p.2) by (nonlinear_arith) requires n == (0int, 0int, 1int);
    } else {
        assert(vdot(p, n) == -p.2) by (nonlinear_arith) requires n == (0int, 0int, -1int);
    }
}

/// A surface whose corners all lie in the box `lo..hi`, whose normals are
/// axis directions, and whose quads each lie on the box side their normal
/// points to, encloses its solid.
pub proof fn lemma_box_sides_enclose(qs: Seq<Quad>, lo: Vec3, hi: Vec3)
    requires
        quads_shaped(qs),
        forall|g: int, k: int|
            0 <= g < qs.len() && 0 <= k < 4 ==> in_box(#[trigger] qs[g].corners[k].vec(), lo, hi),
        forall|f: int| 0 <= f < qs.len() ==> is_axis(#[trigger] qs[f].normal.vec()),
        forall|f: int, j: int|
            0 <= f < qs.len() && 0 <= j < 4 ==> axis_support(
                #[trigger] qs[f].corners[j].vec(),
                qs[f].corners[j].vec(),
                qs[f].normal.vec(),
            ) == axis_support(lo, hi, qs[f].normal.vec()),
    ensures
        encloses(qs),
{
    assert forall|f: int, j: int, g: int, k: int|
        0 <= f < qs.len() && 0 <= j < 4 && 0 <= g < qs.len() && 0 <= k < 4 implies #[trigger] vdot(
            qs[g].corners[k].vec(),
            qs[f].normal.vec(),
        ) <= #[trigger] vdot(qs[f].corners[j].vec(), qs[f].normal.vec()) by {
        let n = qs[f].normal.vec();
        lemma_axis_support(qs[g].corners[k].vec(), lo, hi, n);
        lemma_axis_dot(qs[f].corners[j].vec(), n);
    }
}

/// The faces of a box form a closed surface.
pub proof fn lemma_box_closed(center: Point3, size: Point3, bone: u16)
    ensures
        closed(box_quads(center, size, bone)),
{
    let qs = box_quads(center, size, bone);
    assert forall|f: int, j: int| 0 <= f < qs.len() && 0 <= j < 4 implies #[trigger] has_twin(qs, f, j) by {
        if f == 0 && j == 0 {
            assert(edge_twin(qs, 0, 0, 5, 2));
        } else if f == 0 && j == 1 {
            assert(edge_twin(qs, 0, 1, 2, 3));
        } else if f == 0 && j == 2 {
            assert(edge_twin(qs, 0, 2, 4, 0));
        } else if f == 0 && j == 3 {
            assert(edge_twin(qs, 0, 3, 3, 1));
        } else if f == 1 && j == 0 {
            assert(edge_twin(qs, 1, 0, 5, 0));
        } else if f == 1 && j == 1 {
            assert(edge_twin(qs, 1, 1, 3, 3));
        } else if f == 1 && j == 2 {
            assert(edge_twin(qs, 1, 2, 4, 2));
        } else if f == 1 && j == 3 {
            assert(edge_twin(qs, 1, 3, 2, 1));
        } else if f == 2 && j == 0 {
            assert(edge_twin(qs, 2, 0, 5, 1));
        } else if f == 2 && j == 1 {
            assert(edge_twin(qs, 2, 1, 1, 3));
        } else if f == 2 && j == 2 {
            assert(edge_twin(qs, 2, 2, 4, 1));
        } else if f == 2 && j == 3 {
            assert(edge_twin(qs, 2, 3, 0, 1));
        } else if f == 3 && j == 0 {
            assert(edge_twin(qs, 3, 0, 5, 3));
        } else if f == 3 && j == 1 {
            assert(edge_twin(qs, 3, 1, 0, 3));
        } else if f == 3 && j == 2 {
            assert(edge_twin(qs, 3, 2, 4, 3));
        } else if f == 3 && j == 3 {
            assert(edge_twin(qs, 3, 3, 1, 1));
        } else if f == 4 && j == 0 {
            assert(edge_twin(qs, 4, 0, 0, 2));
        } else if f == 4 && j == 1 {
            assert(edge_twin(qs, 4, 1, 2, 2));
        } else if f == 4 && j == 2 {
            assert(edge_twin(qs, 4, 2, 1, 2));
        } else if f == 4 && j == 3 {
            assert(edge_twin(qs, 4, 3, 3, 2));
        } else if f == 5 && j == 0 {
            assert(edge_twin(qs, 5, 0, 1, 0));
        } else if f == 5 && j == 1 {
            assert(edge_twin(qs, 5, 1, 2, 0));
        } else if f == 5 && j == 2 {
            assert(edge_twin(qs, 5, 2, 0, 0));
        } else if f == 5 && j == 3 {
            assert(edge_twin(qs, 5, 3, 3, 0));
        }
    }
}

/// The faces of a limb form a closed surface.
pub proof fn lemma_limb_closed(l: Limb)
    ensures
        closed(limb_quads(l)),
{
    let qs = limb_quads(l);
    assert forall|f: int, j: int| 0 <= f < qs.len() && 0 <= j < 4 implies #[trigger] has_twin(qs, f, j) by {
        if f == 0 && j == 0 {
            assert(edge_twin(qs, 0, 0, 1, 2));
        } else if f == 0 && j == 1 {
            assert(edge_twin(qs, 0, 1, 4, 3));
        } else if f == 0 && j == 2 {
            assert(edge_twin(qs, 0, 2, 8, 0));
        } else if f == 0 && j == 3 {
            assert(edge_twin(qs, 0, 3, 6, 1));
        } else if f == 1 && j == 0 {
            assert(edge_twin(qs, 1, 0, 9, 2));
        } else if f == 1 && j == 1 {
            assert(edge_twin(qs, 1, 1, 5, 3));
        } else if f == 1 && j == 2 {
            assert(edge_twin(qs, 1, 2, 0, 0));
        } else if f == 1 && j == 3 {
            assert(edge_twin(qs, 1, 3, 7, 1));
        } else if f == 2 && j == 0 {
            assert(edge_twin(qs, 2, 0, 3, 2));
        } else if f == 2 && j == 1 {
            assert(edge_twin(qs, 2, 1, 6, 3));
        } else if f == 2 && j == 2 {
            assert(edge_twin(qs, 2, 2, 8, 2));
        } else if f == 2 && j == 3 {
            assert(edge_twin(qs, 2, 3, 4, 1));
        } else if f == 3 && j == 0 {
            assert(edge_twin(qs, 3, 0, 9, 0));
        } else if f == 3 && j == 1 {
            assert(edge_twin(qs, 3, 1, 7, 3));
        } else if f == 3 && j == 2 {
            assert(edge_twin(qs, 3, 2, 2, 0));
        } else if f == 3 && j == 3 {
            assert(edge_twin(qs, 3, 3, 5, 1));
        } else if f == 4 && j == 0 {
            assert(edge_twin(qs, 4, 0, 5, 2));
        } else if f == 4 && j == 1 {
            assert(edge_twin(qs, 4, 1, 2, 3));
        } else if f == 4 && j == 2 {
            assert(edge_twin(qs, 4, 2, 8, 1));
        } else if f == 4 && j == 3 {
            assert(edge_twin(qs, 4, 3, 0, 1));
        } else if f == 5 && j == 0 {
            assert(edge_twin(qs, 5, 0, 9, 1));
        } else if f == 5 && j == 1 {
            assert(edge_twin(qs, 5, 1, 3, 3));
        } else if f == 5 && j == 2 {
            assert(edge_twin(qs, 5, 2, 4, 0));
        } else if f == 5 && j == 3 {
            assert(edge_twin(qs, 5, 3, 1, 1));
        } else if f == 6 && j == 0 {
            assert(edge_twin(qs, 6, 0, 7, 2));
        } else if f == 6 && j == 1 {
            assert(edge_twin(qs, 6, 1, 0, 3));
        } else if f == 6 && j == 2 {
            assert(edge_twin(qs, 6, 2, 8, 3));
        } else if f == 6 && j == 3 {
            assert(edge_twin(qs, 6, 3, 2, 1));
        } else if f == 7 && j == 0 {
            assert(edge_twin(qs, 7, 0, 9, 3));
        } else if f == 7 && j == 1 {
            assert(edge_twin(qs, 7, 1, 1, 3));
        } else if f == 7 && j == 2 {
            assert(edge_twin(qs, 7, 2, 6, 0));
        } else if f == 7 && j == 3 {
            assert(edge_twin(qs, 7, 3, 3, 1));
        } else if f == 8 && j == 0 {
            assert(edge_twin(qs, 8, 0, 0, 2));
        } else if f == 8 && j == 1 {
            assert(edge_twin(qs, 8, 1, 4, 2));
        } else if f == 8 && j == 2 {
            assert(edge_twin(qs, 8, 2, 2, 2));
        } else if f == 8 && j == 3 {
            assert(edge_twin(qs, 8, 3, 6, 2));
        } else if f == 9 && j == 0 {
            assert(edge_twin(qs, 9, 0, 3, 0));
        } else if f == 9 && j == 1 {
            assert(edge_twin(qs, 9, 1, 5, 0));
        } else if f == 9 && j == 2 {
            assert(edge_twin(qs, 9, 2, 1, 0));
        } else if f == 9 && j == 3 {
            assert(edge_twin(qs, 9, 3, 7, 0));
        }
    }
}



/// Adding quads leaves the earlier vertices as they were.
pub proof fn lemma_with_quads_prefix(m: MeshModel, qs: Seq<Quad>)
    requires
        quads_shaped(qs),
    ensures
        m.with_quads(qs).positions.subrange(0, m.positions.len() as int) == m.positions,
    decreases qs.len(),
{
    lemma_with_quads_len(m, qs);
    if qs.len() > 0 {
        let init = qs.drop_last();
        assert(quads_shaped(init)) by {
            assert forall|g: int| 0 <= g < init.len() implies {
                &&& (#[trigger] init[g]).corners.len() == 4
                &&& init[g].joints.len() == 4
                &&& init[g].weights.len() == 4
            } by {
                assert(init[g] == qs[g]);
            }
        }
        lemma_with_quads_prefix(m, init);
        lemma_with_quads_len(m, init);
        let a = m.with_quads(init);
        assert(a.with_quad(qs.last()).positions.subrange(0, m.positions.len() as int) =~= a.positions.subrange(0, m.positions.len() as int));
    }
    assert(m.with_quads(qs).positions.subrange(0, m.positions.len() as int) =~= m.positions);
}

/// The vertices that quad `f` adds sit at positions `4 * f` to `4 * f + 3`
/// after the mesh's earlier vertices.
pub proof fn lemma_with_quads_index(m: MeshModel, qs: Seq<Quad>, f: int, j: int)
    requires
        quads_shaped(qs),
        0 <= f < qs.len(),
        0 <= j < 4,
    ensures
        m.with_quads(qs).positions.len() == m.positions.len() + 4 * qs.len(),
        m.with_quads(qs).positions[m.positions.len() + 4 * f + j] == qs[f].corners[j],
    decreases qs.len(),
{
    let init = qs.drop_last();
    assert(quads_shaped(init)) by {
        assert forall|g: int| 0 <= g < init.len() implies {
            &&& (#[trigger] init[g]).corners.len() == 4
            &&& init[g].joints.len() == 4
            &&& init[g].weights.len() == 4
        } by {
            assert(init[g] == qs[g]);
        }
    }
    lemma_with_quads_len(m, init);
    lemma_with_quads_len(m, qs);
    let a = m.with_quads(init);
    let q = qs.last();
    assert(q == qs[qs.len() - 1]);
    if f < qs.len() - 1 {
        assert(init[f] == qs[f]);
        lemma_with_quads_index(m, init, f, j);
    }
    assert(a.with_quad(q).positions == a.positions + q.corners);
}

/// Each coordinate of `p` is the centre's moved by half the size, one way or
/// the other (half-millimetres).
pub open spec fn on_box_corner(p: MeshPoint, center: Point3, size: Point3) -> bool {
    &&& p.x == 2 * center.x - size.x || p.x == 2 * center.x + size.x
    &&& p.y == 2 * center.y - size.y || p.y == 2 * center.y + size.y
    &&& p.z == 2 * center.z - size.z || p.z == 2 * center.z + size.z
}

/// `ps` are the vertices of the box of the given centre and size: each lies on
/// a corner of the box, and they reach both ends of the box along every axis.
pub open spec fn box_vertices(ps: Seq<MeshPoint>, center: Point3, size: Point3) -> bool {
    &&& forall|i: int| 0 <= i < ps.len() ==> on_box_corner(#[trigger] ps[i], center, size)
    &&& exists|i: int| 0 <= i < ps.len() && (#[trigger] ps[i]).x == 2 * center.x - size.x
    &&& exists|i: int| 0 <= i < ps.len() && (#[trigger] ps[i]).x == 2 * center.x + size.x
    &&& exists|i: int| 0 <= i < ps.len() && (#[trigger] ps[i]).y == 2 * center.y - size.y
    &&& exists|i: int| 0 <= i < ps.len() && (#[trigger] ps[i]).y == 2 * center.y + size.y
    &&& exists|i: int| 0 <= i < ps.len() && (#[trigger] ps[i]).z == 2 * center.z - size.z
    &&& exists|i: int| 0 <= i < ps.len() && (#[trigger] ps[i]).z == 2 * center.z + size.z
}

/// The corners of a box's faces are its corners: every coordinate is the
/// centre's moved by half the size, and both ends of every axis are reached.
pub proof fn lemma_box_corner_coords(center: Point3, size: Point3, bone: u16)
    ensures
        forall|f: int, j: int|
            0 <= f < 6 && 0 <= j < 4 ==> on_box_corner(#[trigger] box_quads(center, size, bone)[f].corners[j], center, size),
        box_quads(center, size, bone)[0].corners[0].vec() == (2 * center.x - size.x, 2 * center.y - size.y, 2 * center.z + size.z),
        box_quads(center, size, bone)[0].corners[2].vec() == (2 * center.x + size.x, 2 * center.y + size.y, 2 * center.z + size.z),
        box_quads(center, size, bone)[1].corners[0].vec() == (2 * center.x + size.x, 2 * center.y - size.y, 2 * center.z - size.z),
{
    let qs = box_quads(center, size, bone);
    assert forall|f: int, j: int| 0 <= f < 6 && 0 <= j < 4 implies on_box_corner(#[trigger] qs[f].corners[j], center, size) by {}
}

/// The vertices a box adds are exactly on its corners and span it.
pub proof fn lemma_box_adds_box_vertices(m: MeshModel, center: Point3, size: Point3, bone: u16)
    ensures
        box_vertices(
            m.with_quads(box_quads(center, size, bone)).positions.subrange(
                m.positions.len() as int,
                m.positions.len() as int + 24,
            ),
            center,
            size,
        ),
{
    let qs = box_quads(center, size, bone);
    let n = m.positions.len() as int;
    lemma_box_quads_shaped(center, size, bone);
    lemma_box_corner_coords(center, size, bone);
    lemma_with_quads_len(m, qs);
    let ps = m.with_quads(qs).positions.subrange(n, n + 24);
    assert forall|i: int| 0 <= i < ps.len() implies on_box_corner(#[trigger] ps[i], center, size) by {
        let f = i / 4;
        let j = i % 4;
        lemma_with_quads_index(m, qs, f, j);
        assert(ps[i] == m.with_quads(qs).positions[n + 4 * f + j]);
    }
    lemma_with_quads_index(m, qs, 0, 0);
    lemma_with_quads_index(m, qs, 0, 2);
    lemma_with_quads_index(m, qs, 1, 0);
    assert(ps[0] == qs[0].corners[0]);
    assert(ps[2] == qs[0].corners[2]);
    assert(ps[4] == qs[1].corners[0]);
}

/// The faces of a box each have four corners and four joint and weight sets.
pub proof fn lemma_box_quads_shaped(center: Point3, size: Point3, bone: u16)
    ensures
        box_quads(center, size, bone).len() == 6,
        quads_shaped(box_quads(center, size, bone)),
{
}


/// `p` is a corner of the limb: on either side of the top's x and z by half
/// the width and depth, at the top's, the joint's or the bottom's height
/// (half-millimetres).
pub open spec fn on_limb_corner(p: MeshPoint, l: Limb) -> bool {
    &&& p.x == 2 * l.top.x - l.width || p.x == 2 * l.top.x + l.width
    &&& p.y == 2 * l.top.y || p.y == 2 * l.joint.y || p.y == 2 * l.bottom.y
    &&& p.z == 2 * l.top.z - l.depth || p.z == 2 * l.top.z + l.depth
}

/// `ps` are the vertices of the limb: each lies on one of its corners, and
/// together they reach both sides in x and z and all three heights.
pub open spec fn limb_vertices(ps: Seq<MeshPoint>, l: Limb) -> bool {
    &&& forall|i: int| 0 <= i < ps.len() ==> on_limb_corner(#[trigger] ps[i], l)
    &&& exists|i: int| 0 <= i < ps.len() && (#[trigger] ps[i]).x == 2 * l.top.x - l.width
    &&& exists|i: int| 0 <= i < ps.len() && (#[trigger] ps[i]).x == 2 * l.top.x + l.width
    &&& exists|i: int| 0 <= i < ps.len() && (#[trigger] ps[i]).z == 2 * l.top.z - l.depth
    &&& exists|i: int| 0 <= i < ps.len() && (#[trigger] ps[i]).z == 2 * l.top.z + l.depth
    &&& exists|i: int| 0 <= i < ps.len() && (#[trigger] ps[i]).y == 2 * l.top.y
    &&& exists|i: int| 0 <= i < ps.len() && (#[trigger] ps[i]).y == 2 * l.joint.y
    &&& exists|i: int| 0 <= i < ps.len() && (#[trigger] ps[i]).y == 2 * l.bottom.y
}

/// The faces of a limb each have four corners and four joint and weight sets.
pub proof fn lemma_limb_quads_shaped(l: Limb)
    ensures
        limb_quads(l).len() == 10,
        quads_shaped(limb_quads(l)),
{
}

/// The vertices a limb adds are exactly on its corners and span it.
pub proof fn lemma_limb_adds_limb_vertices(m: MeshModel, l: Limb)
    ensures
        limb_vertices(
            m.with_quads(limb_quads(l)).positions.subrange(m.positions.len() as int, m.positions.len() as int + 40),
            l,
        ),
{
    let qs = limb_quads(l);
    let n = m.positions.len() as int;
    lemma_limb_quads_shaped(l);
    lemma_with_quads_len(m, qs);
    let ps = m.with_quads(qs).positions.subrange(n, n + 40);
    assert forall|f: int, j: int| 0 <= f < 10 && 0 <= j < 4 implies on_limb_corner(#[trigger] qs[f].corners[j], l) by {}
    assert forall|i: int| 0 <= i < ps.len() implies on_limb_corner(#[trigger] ps[i], l) by {
        let f = i / 4;
        let j = i % 4;
        lemma_with_quads_index(m, qs, f, j);
        assert(ps[i] == m.with_quads(qs).positions[n + 4 * f + j]);
    }
    // Front upper: corners 0 (left, joint, front) and 2 (right, top, front);
    // front lower: corner 0 (left, bottom, front); back upper: corner 0 (right, joint, back).
    lemma_with_quads_index(m, qs, 0, 0);
    lemma_with_quads_index(m, qs, 0, 2);
    lemma_with_quads_index(m, qs, 1, 0);
    lemma_with_quads_index(m, qs, 2, 0);
    assert(ps[0] == qs[0].corners[0]);
    assert(ps[2] == qs[0].corners[2]);
    assert(ps[4] == qs[1].corners[0]);
    assert(ps[8] == qs[2].corners[0]);
}

/// Laws of `box_quads`: for a box of positive size, every face is wound
/// counter-clockwise seen from outside, the faces form a closed surface that
/// encloses the box with outward normals, every corner lies within the box's
/// height, and every corner follows the box's bone alone with full weight.
pub proof fn lemma_box_quads(center: Point3, size: Point3, bone: u16)
    requires
        size.x > 0,
        size.y > 0,
        size.z > 0,
    ensures
        box_quads(center, size, bone).len() == 6,
        quads_shaped(box_quads(center, size, bone)),
        all_front_facing(box_quads(center, size, bone)),
        encloses(box_quads(center, size, bone)),
        closed(box_quads(center, size, bone)),
        skinned_within(box_quads(center, size, bone), bone + 1),
        forall|g: int, k: int|
            0 <= g < 6 && 0 <= k < 4 ==> 2 * center.y - size.y <= (#[trigger] box_quads(
                center,
                size,
                bone,
            )[g].corners[k]).y <= 2 * center.y + size.y,
{
    let qs = box_quads(center, size, bone);
    let sx = size.x as int;
    let sy = size.y as int;
    let sz = size.z as int;
    let xl = 2 * center.x - sx;
    let xh = 2 * center.x + sx;
    let yl = 2 * center.y - sy;
    let yh = 2 * center.y + sy;
    let zl = 2 * center.z - sz;
    let zh = 2 * center.z + sz;
    let lo: Vec3 = (xl, yl, zl);
    let hi: Vec3 = (xh, yh, zh);
    assert(quads_shaped(qs));
    assert forall|f: int| 0 <= f < qs.len() implies front_facing(#[trigger] qs[f]) by {
        let c = qs[f].corners;
        let u = vsub(c[1].vec(), c[0].vec());
        let v = vsub(c[3].vec(), c[0].vec());
        let n = qs[f].normal.vec();
        if f == 0 {
            assert(same_direction(vcross(u, v), n)) by (nonlinear_arith)
                requires u == (2 * sx, 0int, 0int), v == (0int, 2 * sy, 0int), n == (0int, 0int, 1int), sx > 0, sy > 0;
        } else if f == 1 {
            assert(same_direction(vcross(u, v), n)) by (nonlinear_arith)
                requires u == (-2 * sx, 0int, 0int), v == (0int, 2 * sy, 0int), n == (0int, 0int, -1int), sx > 0, sy > 0;
        } else if f == 2 {
            assert(same_direction(vcross(u, v), n)) by (nonlinear_arith)
                requires u == (0int, 0int, -2 * sz), v == (0int, 2 * sy, 0int), n == (1int, 0int, 0int), sz > 0, sy > 0;
        } else if f == 3 {
            assert(same_direction(vcross(u, v), n)) by (nonlinear_arith)
                requires u == (0int, 0int, 2 * sz), v == (0int, 2 * sy, 0int), n == (-1int, 0int, 0int), sz > 0, sy > 0;
        } else if f == 4 {
            assert(same_direction(vcross(u, v), n)) by (nonlinear_arith)
                requires u == (2 * sx, 0int, 0int), v == (0int, 0int, -2 * sz), n == (0int, 1int, 0int), sx > 0, sz > 0;
        } else {
            assert(same_direction(vcross(u, v), n)) by (nonlinear_arith)
                requires u == (2 * sx, 0int, 0int), v == (0int, 0int, 2 * sz), n == (0int, -1int, 0int), sx > 0, sz > 0;
        }
        lemma_parallelogram_front_facing(qs[f]);
    }
    assert forall|g: int, k: int| 0 <= g < qs.len() && 0 <= k < 4 implies in_box(
        #[trigger] qs[g].corners[k].vec(),
        lo,
        hi,
    ) by {}
    assert forall|f: int| 0 <= f < qs.len() implies is_axis(#[trigger] qs[f].normal.vec()) by {}
    assert forall|f: int, j: int| 0 <= f < qs.len() && 0 <= j < 4 implies axis_support(
        #[trigger] qs[f].corners[j].vec(),
        qs[f].corners[j].vec(),
        qs[f].normal.vec(),
    ) == axis_support(lo, hi, qs[f].normal.vec()) by {}
    lemma_box_sides_enclose(qs, lo, hi);
    lemma_box_closed(center, size, bone);
    assert forall|g: int, k: int| 0 <= g < 6 && 0 <= k < 4 implies 2 * center.y - size.y <= (
    #[trigger] box_quads(center, size, bone)[g].corners[k]).y <= 2 * center.y + size.y by {
        assert(in_box(qs[g].corners[k].vec(), lo, hi));
    }
}


/// Every corner of a limb follows the bones of its level: the top bone alone
/// at the top, both bones half and half at the joint, the bottom bone alone
/// at the bottom.
pub open spec fn limb_skinned_by_level(l: Limb, qs: Seq<Quad>) -> bool {
    forall|f: int, j: int|
        0 <= f < qs.len() && 0 <= j < 4 ==> {
            let y = (#[trigger] qs[f].corners[j]).y as int;
            &&& y == limb_level_y(l, 2) || y == limb_level_y(l, 1) || y == limb_level_y(l, 0)
            &&& y == limb_level_y(l, 2) ==> qs[f].joints[j] == joints_rigid(l.top_bone)
                && qs[f].weights[j] == weights_rigid()
            &&& y == limb_level_y(l, 1) ==> qs[f].joints[j] == joints_blend(l.top_bone, l.bottom_bone)
                && qs[f].weights[j] == weights_blend()
            &&& y == limb_level_y(l, 0) ==> qs[f].joints[j] == joints_rigid(l.bottom_bone)
                && qs[f].weights[j] == weights_rigid()
        }
}

/// Laws of `limb_quads`: for a limb of positive width and depth whose joint
/// lies strictly between its bottom and its top, every face is wound
/// counter-clockwise seen from outside, the faces form a closed surface that
/// encloses the limb with outward normals, every corner follows the bones of
/// its level, and all weights sum to one.
pub proof fn lemma_limb_quads(l: Limb)
    requires
        l.width > 0,
        l.depth > 0,
        l.bottom.y < l.joint.y < l.top.y,
    ensures
        limb_quads(l).len() == 10,
        quads_shaped(limb_quads(l)),
        all_front_facing(limb_quads(l)),
        encloses(limb_quads(l)),
        closed(limb_quads(l)),
        limb_skinned_by_level(l, limb_quads(l)),
        skinned_within(limb_quads(l), if l.top_bone < l.bottom_bone { l.bottom_bone + 1 } else { l.top_bone + 1 }),
{
    let qs = limb_quads(l);
    let w = l.width as int;
    let dp = l.depth as int;
    let yt = limb_level_y(l, 2);
    let ym = limb_level_y(l, 1);
    let yb = limb_level_y(l, 0);
    let lo: Vec3 = (2 * l.top.x - w, yb, 2 * l.top.z - dp);
    let hi: Vec3 = (2 * l.top.x + w, yt, 2 * l.top.z + dp);
    assert(quads_shaped(qs));
    assert forall|f: int| 0 <= f < qs.len() implies front_facing(#[trigger] qs[f]) by {
        let c = qs[f].corners;
        let u = vsub(c[1].vec(), c[0].vec());
        let v = vsub(c[3].vec(), c[0].vec());
        let n = qs[f].normal.vec();
        if f == 0 {
            assert(same_direction(vcross(u, v), n)) by (nonlinear_arith)
                requires u == (2 * w, 0int, 0int), v == (0int, yt - ym, 0int), n == (0int, 0int, 1int), w > 0, dp > 0, yb < ym, ym < yt;
        } else if f == 1 {
            assert(same_direction(vcross(u, v), n)) by (nonlinear_arith)
                requires u == (2 * w, 0int, 0int), v == (0int, ym - yb, 0int), n == (0int, 0int, 1int), w > 0, dp > 0, yb < ym, ym < yt;
        } else if f == 2 {
            assert(same_direction(vcross(u, v), n)) by (nonlinear_arith)
                requires u == (-2 * w, 0int, 0int), v == (0int, yt - ym, 0int), n == (0int, 0int, -1int), w > 0, dp > 0, yb < ym, ym < yt;
        } else if f == 3 {
            assert(same_direction(vcross(u, v), n)) by (nonlinear_arith)
                requires u == (-2 * w, 0int, 0int), v == (0int, ym - yb, 0int), n == (0int, 0int, -1int), w > 0, dp > 0, yb < ym, ym < yt;
        } else if f == 4 {
            assert(same_direction(vcross(u, v), n)) by (nonlinear_arith)
                requires u == (0int, 0int, -2 * dp), v == (0int, yt - ym, 0int), n == (1int, 0int, 0int), w > 0, dp > 0, yb < ym, ym < yt;
        } else if f == 5 {
            assert(same_direction(vcross(u, v), n)) by (nonlinear_arith)
                requires u == (0int, 0int, -2 * dp), v == (0int, ym - yb, 0int), n == (1int, 0int, 0int), w > 0, dp > 0, yb < ym, ym < yt;
        } else if f == 6 {
            assert(same_direction(vcross(u, v), n)) by (nonlinear_arith)
                requires u == (0int, 0int, 2 * dp), v == (0int, yt - ym, 0int), n == (-1int, 0int, 0int), w > 0, dp > 0, yb < ym, ym < yt;
        } else if f == 7 {
            assert(same_direction(vcross(u, v), n)) by (nonlinear_arith)
                requires u == (0int, 0int, 2 * dp), v == (0int, ym - yb, 0int), n == (-1int, 0int, 0int), w > 0, dp > 0, yb < ym, ym < yt;
        } else if f == 8 {
            assert(same_direction(vcross(u, v), n)) by (nonlinear_arith)
                requires u == (2 * w, 0int, 0int), v == (0int, 0int, -2 * dp), n == (0int, 1int, 0int), w > 0, dp > 0, yb < ym, ym < yt;
        } else {
            assert(same_direction(vcross(u, v), n)) by (nonlinear_arith)
                requires u == (2 * w, 0int, 0int), v == (0int, 0int, 2 * dp), n == (0int, -1int, 0int), w > 0, dp > 0, yb < ym, ym < yt;
        }
        lemma_parallelogram_front_facing(qs[f]);
    }
    assert forall|g: int, k: int| 0 <= g < qs.len() && 0 <= k < 4 implies in_box(
        #[trigger] qs[g].corners[k].vec(),
        lo,
        hi,
    ) by {}
    assert forall|f: int| 0 <= f < qs.len() implies is_axis(#[trigger] qs[f].normal.vec()) by {}
    assert forall|f: int, j: int| 0 <= f < qs.len() && 0 <= j < 4 implies axis_support(
        #[trigger] qs[f].corners[j].vec(),
        qs[f].corners[j].vec(),
        qs[f].normal.vec(),
    ) == axis_support(lo, hi, qs[f].normal.vec()) by {}
    lemma_box_sides_enclose(qs, lo, hi);
    lemma_limb_closed(l);
}


/// The vertices of `m` all satisfy `p` (given position, normal, joints and weights).
pub open spec fn vertices_satisfy(m: MeshModel, p: spec_fn(MeshPoint, Normal, [u16; 4], [u8; 4]) -> bool) -> bool {
    forall|i: int|
        0 <= i < m.positions.len() ==> #[trigger] p(
            m.positions[i],
            m.normals[i],
            m.joint_indices[i],
            m.joint_weights[i],
        )
}

/// The corners of the quads all satisfy `p`.
pub open spec fn quads_satisfy(qs: Seq<Quad>, p: spec_fn(MeshPoint, Normal, [u16; 4], [u8; 4]) -> bool) -> bool {
    forall|f: int, j: int|
        0 <= f < qs.len() && 0 <= j < 4 ==> #[trigger] p(
            qs[f].corners[j],
            qs[f].normal,
            qs[f].joints[j],
            qs[f].weights[j],
        )
}

/// A property of every vertex of a mesh and of every corner of some quads
/// holds of every vertex of the mesh with those quads added.
pub proof fn lemma_with_quads_satisfy(
    m: MeshModel,
    qs: Seq<Quad>,
    p: spec_fn(MeshPoint, Normal, [u16; 4], [u8; 4]) -> bool,
)
    requires
        m.wf(),
        quads_shaped(qs),
        vertices_satisfy(m, p),
        quads_satisfy(qs, p),
    ensures
        vertices_satisfy(m.with_quads(qs), p),
        m.with_quads(qs).normals.len() == m.with_quads(qs).positions.len(),
        m.with_quads(qs).joint_indices.len() == m.with_quads(qs).positions.len(),
        m.with_quads(qs).joint_weights.len() == m.with_quads(qs).positions.len(),
    decreases qs.len(),
{
    if qs.len() > 0 {
        let init = qs.drop_last();
        let q = qs.last();
        assert(quads_shaped(init)) by {
            assert forall|f: int| 0 <= f < init.len() implies {
                &&& (#[trigger] init[f]).corners.len() == 4
                &&& init[f].joints.len() == 4
                &&& init[f].weights.len() == 4
            } by {
                assert(init[f] == qs[f]);
            }
        }
        assert(quads_satisfy(init, p)) by {
            assert forall|f: int, j: int| 0 <= f < init.len() && 0 <= j < 4 implies #[trigger] p(
                init[f].corners[j],
                init[f].normal,
                init[f].joints[j],
                init[f].weights[j],
            ) by {
                assert(init[f] == qs[f]);
            }
        }
        lemma_with_quads_satisfy(m, init, p);
        let a = m.with_quads(init);
        let r = a.with_quad(q);
        assert(q == qs[qs.len() - 1]);
        assert(q.corners.len() == 4 && q.joints.len() == 4 && q.weights.len() == 4);
        assert forall|i: int| 0 <= i < r.positions.len() implies #[trigger] p(
            r.positions[i],
            r.normals[i],
            r.joint_indices[i],
            r.joint_weights[i],
        ) by {
            if i >= a.positions.len() {
                let j = i - a.positions.len();
                assert(p(q.corners[j], q.normal, q.joints[j], q.weights[j]));
                assert(r.positions[i] == q.corners[j]);
                assert(r.normals[i] == q.normal);
                assert(r.joint_indices[i] == q.joints[j]);
                assert(r.joint_weights[i] == q.weights[j]);
            } else {
                assert(p(a.positions[i], a.normals[i], a.joint_indices[i], a.joint_weights[i]));
            }
        }
    }
}

/// Every corner of every added quad is a vertex of the resulting mesh.
pub proof fn lemma_with_quads_contains(m: MeshModel, qs: Seq<Quad>, f: int, j: int)
    requires
        quads_shaped(qs),
        0 <= f < qs.len(),
        0 <= j < 4,
    ensures
        m.with_quads(qs).positions.contains(qs[f].corners[j]),
    decreases qs.len(),
{
    let init = qs.drop_last();
    let a = m.with_quads(init);
    let q = qs.last();
    assert(q == qs[qs.len() - 1]);
    if f == qs.len() - 1 {
        assert(a.with_quad(q).positions[a.positions.len() + j] == q.corners[j]);
    } else {
        assert(quads_shaped(init)) by {
            assert forall|g: int| 0 <= g < init.len() implies {
                &&& (#[trigger] init[g]).corners.len() == 4
                &&& init[g].joints.len() == 4
                &&& init[g].weights.len() == 4
            } by {
                assert(init[g] == qs[g]);
            }
        }
        assert(init[f] == qs[f]);
        lemma_with_quads_contains(m, init, f, j);
        let k = choose|k: int| 0 <= k < a.positions.len() && a.positions[k] == qs[f].corners[j];
        assert(a.with_quad(q).positions[k] == qs[f].corners[j]);
    }
}


/// Shape, winding, skinning and any per-corner property of two surfaces
/// carry over to the two together.
pub proof fn lemma_concat_quads(
    a: Seq<Quad>,
    b: Seq<Quad>,
    p: spec_fn(MeshPoint, Normal, [u16; 4], [u8; 4]) -> bool,
    bone_count: int,
)
    ensures
        quads_shaped(a) && quads_shaped(b) ==> quads_shaped(a + b),
        all_front_facing(a) && all_front_facing(b) ==> all_front_facing(a + b),
        skinned_within(a, bone_count) && skinned_within(b, bone_count) ==> skinned_within(a + b, bone_count),
        quads_satisfy(a, p) && quads_satisfy(b, p) ==> quads_satisfy(a + b, p),
{
    let c = a + b;
    assert forall|f: int| 0 <= f < c.len() implies c[f] == (if f < a.len() { a[f] } else { b[f - a.len()] }) by {}
    if quads_shaped(a) && quads_shaped(b) {
        assert forall|f: int| 0 <= f < c.len() implies {
            &&& (#[trigger] c[f]).corners.len() == 4
            &&& c[f].joints.len() == 4
            &&& c[f].weights.len() == 4
        } by {
            if f >= a.len() {
                assert(c[f] == b[f - a.len()]);
            }
        }
    }
    if all_front_facing(a) && all_front_facing(b) {
        assert forall|f: int| 0 <= f < c.len() implies front_facing(#[trigger] c[f]) by {
            if f >= a.len() {
                assert(c[f] == b[f - a.len()]);
            }
        }
    }
    if skinned_within(a, bone_count) && skinned_within(b, bone_count) {
        assert forall|f: int, j: int| 0 <= f < c.len() && 0 <= j < 4 implies {
            &&& weight_sum(#[trigger] c[f].weights[j]) == 100
            &&& c[f].joints[j][0] < bone_count
            &&& c[f].joints[j][1] < bone_count
            &&& c[f].joints[j][2] < bone_count
            &&& c[f].joints[j][3] < bone_count
        } by {
            if f >= a.len() {
                assert(c[f] == b[f - a.len()]);
            } else {
                assert(c[f] == a[f]);
            }
        }
    }
    if quads_satisfy(a, p) && quads_satisfy(b, p) {
        assert forall|f: int, j: int| 0 <= f < c.len() && 0 <= j < 4 implies #[trigger] p(
            c[f].corners[j],
            c[f].normal,
            c[f].joints[j],
            c[f].weights[j],
        ) by {
            if f >= a.len() {
                assert(c[f] == b[f - a.len()]);
                assert(p(b[f - a.len()].corners[j], b[f - a.len()].normal, b[f - a.len()].joints[j], b[f - a.len()].weights[j]));
            } else {
                assert(c[f] == a[f]);
                assert(p(a[f].corners[j], a[f].normal, a[f].joints[j], a[f].weights[j]));
            }
        }
    }
}

/// A skinning bound holds of every larger bound.
pub proof fn lemma_skinned_within_wider(qs: Seq<Quad>, narrow: int, wide: int)
    requires
        skinned_within(qs, narrow),
        narrow <= wide,
    ensures
        skinned_within(qs, wide),
{
    assert forall|f: int, j: int| 0 <= f < qs.len() && 0 <= j < 4 implies {
        &&& weight_sum(#[trigger] qs[f].weights[j]) == 100
        &&& qs[f].joints[j][0] < wide
        &&& qs[f].joints[j][1] < wide
        &&& qs[f].joints[j][2] < wide
        &&& qs[f].joints[j][3] < wide
    } by {
        assert(weight_sum(qs[f].weights[j]) == 100);
    }
}

impl CharacterMeshBuilder {
    /// An empty builder.
    pub fn new() -> (b: CharacterMeshBuilder)
        ensures
            b@ == MeshModel::empty(),
            b@.wf(),
    {
        CharacterMeshBuilder {
            positions: Vec::new(),
            normals: Vec::new(),
            joint_indices: Vec::new(),
            joint_weights: Vec::new(),
            indices: Vec::new(),
        }
    }

    /// Appends the quad `v0 v1 v2 v3` with normal `n` and the given joints and
    /// weights per corner, and the two triangles (v0, v1, v2) and (v2, v3, v0).
    pub fn add_face(
        &mut self,
        v0: MeshPoint,
        v1: MeshPoint,
        v2: MeshPoint,
        v3: MeshPoint,
        n: Normal,
        b0: [u16; 4],
        w0: [u8; 4],
        b1: [u16; 4],
        w1: [u8; 4],
        b2: [u16; 4],
        w2: [u8; 4],
        b3: [u16; 4],
        w3: [u8; 4],
    )
        requires
            old(self).positions.len() + 4 <= u32::MAX + 1,
        ensures
            final(self)@ == old(self)@.with_quad(
                make_quad(v0, v1, v2, v3, n, b0, w0, b1, w1, b2, w2, b3, w3),
            ),
            old(self)@.wf() ==> final(self)@.wf(),
    {
        let i = self.positions.len() as u32;
        self.positions.push(v0);
        self.positions.push(v1);
        self.positions.push(v2);
        self.positions.push(v3);
        self.normals.push(n);
        self.normals.push(n);
        self.normals.push(n);
        self.normals.push(n);
        self.joint_indices.push(b0);
        self.joint_indices.push(b1);
        self.joint_indices.push(b2);
        self.joint_indices.push(b3);
        self.joint_weights.push(w0);
        self.joint_weights.push(w1);
        self.joint_weights.push(w2);
        self.joint_weights.push(w3);
        self.indices.push(i);
        self.indices.push(i + 1);
        self.indices.push(i + 2);
        self.indices.push(i + 2);
        self.indices.push(i + 3);
        self.indices.push(i);
        proof {
            let q = make_quad(v0, v1, v2, v3, n, b0, w0, b1, w1, b2, w2, b3, w3);
            let m = old(self)@;
            assert(self@.positions =~= m.with_quad(q).positions);
            assert(self@.normals =~= m.with_quad(q).normals);
            assert(self@.joint_indices =~= m.with_quad(q).joint_indices);
            assert(self@.joint_weights =~= m.with_quad(q).joint_weights);
            assert(self@.indices =~= m.with_quad(q).indices);
            if m.wf() {
                lemma_with_quad_wf(m, q);
            }
        }
    }

    /// Appends the six faces of the box of the given centre and size
    /// (millimetres), all bound to `bone` with full weight.
    pub fn add_box(&mut self, center: Point3, size: Point3, bone: u16)
        requires
            old(self).positions.len() + 24 <= u32::MAX + 1,
        ensures
            final(self)@ == old(self)@.with_quads(box_quads(center, size, bone)),
            final(self).positions.len() == old(self).positions.len() + 24,
            final(self).positions@.subrange(0, old(self).positions.len() as int) == old(self).positions@,
            box_vertices(
                final(self).positions@.subrange(old(self).positions.len() as int, old(self).positions.len() as int + 24),
                center,
                size,
            ),
            old(self)@.wf() ==> final(self)@.wf(),
    {
        let cx = 2 * (center.x as i64);
        let cy = 2 * (center.y as i64);
        let cz = 2 * (center.z as i64);
        let hw = size.x as i64;
        let hh = size.y as i64;
        let hd = size.z as i64;
        let b: [u16; 4] = [bone, 0, 0, 0];
        let w: [u8; 4] = [FULL_WEIGHT, 0, 0, 0];

        let p0 = MeshPoint { x: cx - hw, y: cy - hh, z: cz + hd };
        let p1 = MeshPoint { x: cx + hw, y: cy - hh, z: cz + hd };
        let p2 = MeshPoint { x: cx + hw, y: cy + hh, z: cz + hd };
        let p3 = MeshPoint { x: cx - hw, y: cy + hh, z: cz + hd };
        let p4 = MeshPoint { x: cx - hw, y: cy - hh, z: cz - hd };
        let p5 = MeshPoint { x: cx + hw, y: cy - hh, z: cz - hd };
        let p6 = MeshPoint { x: cx + hw, y: cy + hh, z: cz - hd };
        let p7 = MeshPoint { x: cx - hw, y: cy + hh, z: cz - hd };

        let ghost m = old(self)@;
        let ghost qs = box_quads(center, size, bone);
        proof {
            assert(p0 == qs[0].corners[0]);
            assert(p1 == qs[0].corners[1]);
            assert(p2 == qs[0].corners[2]);
            assert(p3 == qs[0].corners[3]);
            assert(p4 == qs[1].corners[1]);
            assert(p5 == qs[1].corners[0]);
            assert(p6 == qs[1].corners[3]);
            assert(p7 == qs[1].corners[2]);
        }
        // Front, back, right, left, top, bottom.
        self.add_face(p0, p1, p2, p3, Normal::pos_z(), b, w, b, w, b, w, b, w);
        self.add_face(p5, p4, p7, p6, Normal::neg_z(), b, w, b, w, b, w, b, w);
        self.add_face(p1, p5, p6, p2, Normal::pos_x(), b, w, b, w, b, w, b, w);
        self.add_face(p4, p0, p3, p7, Normal::neg_x(), b, w, b, w, b, w, b, w);
        self.add_face(p3, p2, p6, p7, Normal::pos_y(), b, w, b, w, b, w, b, w);
        self.add_face(p4, p5, p1, p0, Normal::neg_y(), b, w, b, w, b, w, b, w);
        proof {
            let q5 = qs.drop_last();
            let q4 = q5.drop_last();
            let q3 = q4.drop_last();
            let q2 = q3.drop_last();
            let q1 = q2.drop_last();
            let q0 = q1.drop_last();
            assert(q0 =~= Seq::<Quad>::empty());
            assert(make_quad(p0, p1, p2, p3, Normal::pos_z_spec(), b, w, b, w, b, w, b, w) =~= qs[0]);
            assert(make_quad(p5, p4, p7, p6, Normal::neg_z_spec(), b, w, b, w, b, w, b, w) =~= qs[1]);
            assert(make_quad(p1, p5, p6, p2, Normal::pos_x_spec(), b, w, b, w, b, w, b, w) =~= qs[2]);
            assert(make_quad(p4, p0, p3, p7, Normal::neg_x_spec(), b, w, b, w, b, w, b, w) =~= qs[3]);
            assert(make_quad(p3, p2, p6, p7, Normal::pos_y_spec(), b, w, b, w, b, w, b, w) =~= qs[4]);
            assert(make_quad(p4, p5, p1, p0, Normal::neg_y_spec(), b, w, b, w, b, w, b, w) =~= qs[5]);
            assert(m.with_quads(q0) == m);
            assert(q1.last() == qs[0]);
            assert(q2.last() == qs[1]);
            assert(q3.last() == qs[2]);
            assert(q4.last() == qs[3]);
            assert(q5.last() == qs[4]);
            assert(qs.last() == qs[5]);
            assert(m.with_quads(q1) == m.with_quads(q0).with_quad(q1.last()));
            assert(m.with_quads(q2) == m.with_quads(q1).with_quad(q2.last()));
            assert(m.with_quads(q3) == m.with_quads(q2).with_quad(q3.last()));
            assert(m.with_quads(q4) == m.with_quads(q3).with_quad(q4.last()));
            assert(m.with_quads(q5) == m.with_quads(q4).with_quad(q5.last()));
            assert(m.with_quads(qs) == m.with_quads(q5).with_quad(qs.last()));
            lemma_with_quads_len(m, qs);
            lemma_box_adds_box_vertices(m, center, size, bone);
            lemma_with_quads_prefix(m, qs);
            if m.wf() {
                lemma_with_quads_wf(m, qs);
            }
        }
    }

    /// Appends a limb from `top_pos` down to `bottom_pos` with a loop cut at
    /// `joint_pos`'s height (see `Limb`): upper corners follow `top_bone`,
    /// lower corners `bottom_bone`, and the ring at the joint both, half and
    /// half. Only `top_pos`'s x and z place the limb.
    pub fn add_limb(
        &mut self,
        top_pos: Point3,
        joint_pos: Point3,
        bottom_pos: Point3,
        width: i32,
        depth: i32,
        top_bone: u16,
        bottom_bone: u16,
    )
        requires
            old(self).positions.len() + 40 <= u32::MAX + 1,
        ensures
            final(self)@ == old(self)@.with_quads(
                limb_quads(Limb { top: top_pos, joint: joint_pos, bottom: bottom_pos, width, depth, top_bone, bottom_bone }),
            ),
            final(self).positions.len() == old(self).positions.len() + 40,
            final(self).positions@.subrange(0, old(self).positions.len() as int) == old(self).positions@,
            limb_vertices(
                final(self).positions@.subrange(old(self).positions.len() as int, old(self).positions.len() as int + 40),
                Limb { top: top_pos, joint: joint_pos, bottom: bottom_pos, width, depth, top_bone, bottom_bone },
            ),
            old(self)@.wf() ==> final(self)@.wf(),
    {
        let ghost l = Limb { top: top_pos, joint: joint_pos, bottom: bottom_pos, width, depth, top_bone, bottom_bone };
        let ghost m = old(self)@;
        let ghost qs = limb_quads(l);
        let ghost mut done: Seq<Quad> = Seq::empty();

        let hw = width as i64;
        let hd = depth as i64;
        let y_top = 2 * (top_pos.y as i64);
        let y_mid = 2 * (joint_pos.y as i64);
        let y_bot = 2 * (bottom_pos.y as i64);
        let cx = 2 * (top_pos.x as i64);
        let cz = 2 * (top_pos.z as i64);

        let b_top: [u16; 4] = [top_bone, 0, 0, 0];
        let w_top: [u8; 4] = [FULL_WEIGHT, 0, 0, 0];
        let b_bot: [u16; 4] = [bottom_bone, 0, 0, 0];
        let w_bot: [u8; 4] = [FULL_WEIGHT, 0, 0, 0];
        // Half and half at the joint.
        let b_mid: [u16; 4] = [top_bone, bottom_bone, 0, 0];
        let w_mid: [u8; 4] = [HALF_WEIGHT, HALF_WEIGHT, 0, 0];
        proof {
            assert(b_top == level_joints(l, 2) && w_top == level_weights(2));
            assert(b_mid == level_joints(l, 1) && w_mid == level_weights(1));
            assert(b_bot == level_joints(l, 0) && w_bot == level_weights(0));
            assert(m.with_quads(done) == m);
        }

        // Front upper.
        let v0 = MeshPoint { x: cx - hw, y: y_mid, z: cz + hd };
        assert(v0 == limb_vertex(l, (-1int, 1int, 1int)));
        let v1 = MeshPoint { x: cx + hw, y: y_mid, z: cz + hd };
        assert(v1 == limb_vertex(l, (1int, 1int, 1int)));
        let v2 = MeshPoint { x: cx + hw, y: y_top, z: cz + hd };
        assert(v2 == limb_vertex(l, (1int, 2int, 1int)));
        let v3 = MeshPoint { x: cx - hw, y: y_top, z: cz + hd };
        assert(v3 == limb_vertex(l, (-1int, 2int, 1int)));
        proof { lemma_with_quads_push(m, done, qs[0]); }
        self.add_face(v0, v1, v2, v3, Normal::pos_z(), b_mid, w_mid, b_mid, w_mid, b_top, w_top, b_top, w_top);
        proof { done = done.push(qs[0]); }

        // Front lower.
        let v0 = MeshPoint { x: cx - hw, y: y_bot, z: cz + hd };
        assert(v0 == limb_vertex(l, (-1int, 0int, 1int)));
        let v1 = MeshPoint { x: cx + hw, y: y_bot, z: cz + hd };
        assert(v1 == limb_vertex(l, (1int, 0int, 1int)));
        let v2 = MeshPoint { x: cx + hw, y: y_mid, z: cz + hd };
        assert(v2 == limb_vertex(l, (1int, 1int, 1int)));
        let v3 = MeshPoint { x: cx - hw, y: y_mid, z: cz + hd };
        assert(v3 == limb_vertex(l, (-1int, 1int, 1int)));
        proof { lemma_with_quads_push(m, done, qs[1]); }
        self.add_face(v0, v1, v2, v3, Normal::pos_z(), b_bot, w_bot, b_bot, w_bot, b_mid, w_mid, b_mid, w_mid);
        proof { done = done.push(qs[1]); }

        // Back upper.
        let v0 = MeshPoint { x: cx + hw, y: y_mid, z: cz - hd };
        assert(v0 == limb_vertex(l, (1int, 1int, -1int)));
        let v1 = MeshPoint { x: cx - hw, y: y_mid, z: cz - hd };
        assert(v1 == limb_vertex(l, (-1int, 1int, -1int)));
        let v2 = MeshPoint { x: cx - hw, y: y_top, z: cz - hd };
        assert(v2 == limb_vertex(l, (-1int, 2int, -1int)));
        let v3 = MeshPoint { x: cx + hw, y: y_top, z: cz - hd };
        assert(v3 == limb_vertex(l, (1int, 2int, -1int)));
        proof { lemma_with_quads_push(m, done, qs[2]); }
        self.add_face(v0, v1, v2, v3, Normal::neg_z(), b_mid, w_mid, b_mid, w_mid, b_top, w_top, b_top, w_top);
        proof { done = done.push(qs[2]); }

        // Back lower.
        let v0 = MeshPoint { x: cx + hw, y: y_bot, z: cz - hd };
        assert(v0 == limb_vertex(l, (1int, 0int, -1int)));
        let v1 = MeshPoint { x: cx - hw, y: y_bot, z: cz - hd };
        assert(v1 == limb_vertex(l, (-1int, 0int, -1int)));
        let v2 = MeshPoint { x: cx - hw, y: y_mid, z: cz - hd };
        assert(v2 == limb_vertex(l, (-1int, 1int, -1int)));
        let v3 = MeshPoint { x: cx + hw, y: y_mid, z: cz - hd };
        assert(v3 == limb_vertex(l, (1int, 1int, -1int)));
        proof { lemma_with_quads_push(m, done, qs[3]); }
        self.add_face(v0, v1, v2, v3, Normal::neg_z(), b_bot, w_bot, b_bot, w_bot, b_mid, w_mid, b_mid, w_mid);
        proof { done = done.push(qs[3]); }

        // Right upper.
        let v0 = MeshPoint { x: cx + hw, y: y_mid, z: cz + hd };
        assert(v0 == limb_vertex(l, (1int, 1int, 1int)));
        let v1 = MeshPoint { x: cx + hw, y: y_mid, z: cz - hd };
        assert(v1 == limb_vertex(l, (1int, 1int, -1int)));
        let v2 = MeshPoint { x: cx + hw, y: y_top, z: cz - hd };
        assert(v2 == limb_vertex(l, (1int, 2int, -1int)));
        let v3 = MeshPoint { x: cx + hw, y: y_top, z: cz + hd };
        assert(v3 == limb_vertex(l, (1int, 2int, 1int)));
        proof { lemma_with_quads_push(m, done, qs[4]); }
        self.add_face(v0, v1, v2, v3, Normal::pos_x(), b_mid, w_mid, b_mid, w_mid, b_top, w_top, b_top, w_top);
        proof { done = done.push(qs[4]); }

        // Right lower.
        let v0 = MeshPoint { x: cx + hw, y: y_bot, z: cz + hd };
        assert(v0 == limb_vertex(l, (1int, 0int, 1int)));
        let v1 = MeshPoint { x: cx + hw, y: y_bot, z: cz - hd };
        assert(v1 == limb_vertex(l, (1int, 0int, -1int)));
        let v2 = MeshPoint { x: cx + hw, y: y_mid, z: cz - hd };
        assert(v2 == limb_vertex(l, (1int, 1int, -1int)));
        let v3 = MeshPoint { x: cx + hw, y: y_mid, z: cz + hd };
        assert(v3 == limb_vertex(l, (1int, 1int, 1int)));
        proof { lemma_with_quads_push(m, done, qs[5]); }
        self.add_face(v0, v1, v2, v3, Normal::pos_x(), b_bot, w_bot, b_bot, w_bot, b_mid, w_mid, b_mid, w_mid);
        proof { done = done.push(qs[5]); }

        // Left upper.
        let v0 = MeshPoint { x: cx - hw, y: y_mid, z: cz - hd };
        assert(v0 == limb_vertex(l, (-1int, 1int, -1int)));
        let v1 = MeshPoint { x: cx - hw, y: y_mid, z: cz + hd };
        assert(v1 == limb_vertex(l, (-1int, 1int, 1int)));
        let v2 = MeshPoint { x: cx - hw, y: y_top, z: cz + hd };
        assert(v2 == limb_vertex(l, (-1int, 2int, 1int)));
        let v3 = MeshPoint { x: cx - hw, y: y_top, z: cz - hd };
        assert(v3 == limb_vertex(l, (-1int, 2int, -1int)));
        proof { lemma_with_quads_push(m, done, qs[6]); }
        self.add_face(v0, v1, v2, v3, Normal::neg_x(), b_mid, w_mid, b_mid, w_mid, b_top, w_top, b_top, w_top);
        proof { done = done.push(qs[6]); }

        // Left lower.
        let v0 = MeshPoint { x: cx - hw, y: y_bot, z: cz - hd };
        assert(v0 == limb_vertex(l, (-1int, 0int, -1int)));
        let v1 = MeshPoint { x: cx - hw, y: y_bot, z: cz + hd };
        assert(v1 == limb_vertex(l, (-1int, 0int, 1int)));
        let v2 = MeshPoint { x: cx - hw, y: y_mid, z: cz + hd };
        assert(v2 == limb_vertex(l, (-1int, 1int, 1int)));
        let v3 = MeshPoint { x: cx - hw, y: y_mid, z: cz - hd };
        assert(v3 == limb_vertex(l, (-1int, 1int, -1int)));
        proof { lemma_with_quads_push(m, done, qs[7]); }
        self.add_face(v0, v1, v2, v3, Normal::neg_x(), b_bot, w_bot, b_bot, w_bot, b_mid, w_mid, b_mid, w_mid);
        proof { done = done.push(qs[7]); }

        // Top cap.
        let v0 = MeshPoint { x: cx - hw, y: y_top, z: cz + hd };
        assert(v0 == limb_vertex(l, (-1int, 2int, 1int)));
        let v1 = MeshPoint { x: cx + hw, y: y_top, z: cz + hd };
        assert(v1 == limb_vertex(l, (1int, 2int, 1int)));
        let v2 = MeshPoint { x: cx + hw, y: y_top, z: cz - hd };
        assert(v2 == limb_vertex(l, (1int, 2int, -1int)));
        let v3 = MeshPoint { x: cx - hw, y: y_top, z: cz - hd };
        assert(v3 == limb_vertex(l, (-1int, 2int, -1int)));
        proof { lemma_with_quads_push(m, done, qs[8]); }
        self.add_face(v0, v1, v2, v3, Normal::pos_y(), b_top, w_top, b_top, w_top, b_top, w_top, b_top, w_top);
        proof { done = done.push(qs[8]); }

        // Bottom cap.
        let v0 = MeshPoint { x: cx - hw, y: y_bot, z: cz - hd };
        assert(v0 == limb_vertex(l, (-1int, 0int, -1int)));
        let v1 = MeshPoint { x: cx + hw, y: y_bot, z: cz - hd };
        assert(v1 == limb_vertex(l, (1int, 0int, -1int)));
        let v2 = MeshPoint { x: cx + hw, y: y_bot, z: cz + hd };
        assert(v2 == limb_vertex(l, (1int, 0int, 1int)));
        let v3 = MeshPoint { x: cx - hw, y: y_bot, z: cz + hd };
        assert(v3 == limb_vertex(l, (-1int, 0int, 1int)));
        proof { lemma_with_quads_push(m, done, qs[9]); }
        self.add_face(v0, v1, v2, v3, Normal::neg_y(), b_bot, w_bot, b_bot, w_bot, b_bot, w_bot, b_bot, w_bot);
        proof { done = done.push(qs[9]); }

        proof {
            assert(done =~= qs);
            lemma_with_quads_len(m, qs);
            lemma_limb_adds_limb_vertices(m, l);
            lemma_with_quads_prefix(m, qs);
            if m.wf() {
                lemma_with_quads_wf(m, qs);
            }
        }
    }
}

impl Default for CharacterMeshBuilder {
    /// An empty builder.
    fn default() -> (b: CharacterMeshBuilder)
        ensures
            b@ == MeshModel::empty(),
    {
        CharacterMeshBuilder::new()
    }
}

} // verus!
