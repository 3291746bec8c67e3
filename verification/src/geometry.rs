use vstd::prelude::*;

verus! {

/// A point or offset of the rig, in whole millimetres.
#[derive(Clone, Copy, Debug, PartialEq, Eq, Structural)]
pub struct Point3 {
    pub x: i32,
    pub y: i32,
    pub z: i32,
}

/// A mesh vertex position, in whole half-millimetres.
#[derive(Clone, Copy, Debug, PartialEq, Eq, Structural)]
pub struct MeshPoint {
    pub x: i64,
    pub y: i64,
    pub z: i64,
}

/// A vertex normal with integer components (the builders only use unit axes).
#[derive(Clone, Copy, Debug, PartialEq, Eq, Structural)]
pub struct Normal {
    pub x: i8,
    pub y: i8,
    pub z: i8,
}

/// A mathematical integer vector, used by the specifications.
pub type Vec3 = (int, int, int);

pub open spec fn vsub(a: Vec3, b: Vec3) -> Vec3 {
    (a.0 - b.0, a.1 - b.1, a.2 - b.2)
}

pub open spec fn vdot(a: Vec3, b: Vec3) -> int {
    a.0 * b.0 + a.1 * b.1 + a.2 * b.2
}

pub open spec fn vcross(a: Vec3, b: Vec3) -> Vec3 {
    (a.1 * b.2 - a.2 * b.1, a.2 * b.0 - a.0 * b.2, a.0 * b.1 - a.1 * b.0)
}

/// `a` points exactly in the direction of `n` (parallel and with positive projection).
pub open spec fn same_direction(a: Vec3, n: Vec3) -> bool {
    &&& vcross(a, n) == (0int, 0int, 0int)
    &&& vdot(a, n) > 0
}

impl Point3 {
    pub open spec fn vec(self) -> Vec3 {
        (self.x as int, self.y as int, self.z as int)
    }

    pub open spec fn plus(self, other: Point3) -> Vec3 {
        (self.x + other.x, self.y + other.y, self.z + other.z)
    }

    pub fn new(x: i32, y: i32, z: i32) -> (p: Point3)
        ensures
            p.x == x && p.y == y && p.z == z,
    {
        Point3 { x, y, z }
    }
}

impl MeshPoint {
    pub open spec fn vec(self) -> Vec3 {
        (self.x as int, self.y as int, self.z as int)
    }
}

impl Normal {
    pub open spec fn vec(self) -> Vec3 {
        (self.x as int, self.y as int, self.z as int)
    }

    pub open spec fn pos_x_spec() -> Normal {
        Normal { x: 1, y: 0, z: 0 }
    }

    pub fn pos_x() -> (n: Normal)
        ensures
            n == Self::pos_x_spec(),
    {
        Normal { x: 1, y: 0, z: 0 }
    }

    pub open spec fn neg_x_spec() -> Normal {
        Normal { x: -1i8, y: 0, z: 0 }
    }

    pub fn neg_x() -> (n: Normal)
        ensures
            n == Self::neg_x_spec(),
    {
        Normal { x: -1, y: 0, z: 0 }
    }

    pub open spec fn pos_y_spec() -> Normal {
        Normal { x: 0, y: 1, z: 0 }
    }

    pub fn pos_y() -> (n: Normal)
        ensures
            n == Self::pos_y_spec(),
    {
        Normal { x: 0, y: 1, z: 0 }
    }

    pub open spec fn neg_y_spec() -> Normal {
        Normal { x: 0, y: -1i8, z: 0 }
    }

    pub fn neg_y() -> (n: Normal)
        ensures
            n == Self::neg_y_spec(),
    {
        Normal { x: 0, y: -1, z: 0 }
    }

    pub open spec fn pos_z_spec() -> Normal {
        Normal { x: 0, y: 0, z: 1 }
    }

    pub fn pos_z() -> (n: Normal)
        ensures
            n == Self::pos_z_spec(),
    {
        Normal { x: 0, y: 0, z: 1 }
    }

    pub open spec fn neg_z_spec() -> Normal {
        Normal { x: 0, y: 0, z: -1i8 }
    }

    pub fn neg_z() -> (n: Normal)
        ensures
            n == Self::neg_z_spec(),
    {
        Normal { x: 0, y: 0, z: -1 }
    }
}

} // verus!
