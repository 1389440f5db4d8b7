use vstd::prelude::*;

use crate::model::{fits, COORD_LIMIT};
use crate::point::Point;

verus! {

/// A displacement in space: homogeneous coordinates with `w` = 0.
///
/// Two vectors are equal when their x, y and z agree; `w` is not compared.
#[derive(Debug, Clone, Copy)]
pub struct Vector {
    pub x: i64,
    pub y: i64,
    pub z: i64,
    pub w: i64,
}

impl PartialEq for Vector {
    fn eq(&self, other: &Vector) -> (r: bool) {
        self.x == other.x && self.y == other.y && self.z == other.z
    }
}

impl vstd::std_specs::cmp::PartialEqSpecImpl for Vector {
    open spec fn obeys_eq_spec() -> bool {
        true
    }

    open spec fn eq_spec(&self, other: &Vector) -> bool {
        self.same(*other)
    }
}

/// x·x' + y·y' + z·z'.
pub open spec fn dot_of(a: Vector, b: Vector) -> int {
    a.x * b.x + a.y * b.y + a.z * b.z
}

impl Vector {
    /// Every coordinate, `w` included, lies within `[-COORD_LIMIT, COORD_LIMIT]`.
    pub open spec fn in_range(self) -> bool {
        &&& -COORD_LIMIT <= self.x <= COORD_LIMIT
        &&& -COORD_LIMIT <= self.y <= COORD_LIMIT
        &&& -COORD_LIMIT <= self.z <= COORD_LIMIT
        &&& -COORD_LIMIT <= self.w <= COORD_LIMIT
    }

    /// Equality as the `==` of this type sees it: x, y and z agree.
    pub open spec fn same(self, other: Vector) -> bool {
        self.x == other.x && self.y == other.y && self.z == other.z
    }

    /// The vector pointing the other way.
    pub open spec fn negated(self) -> Vector {
        Vector { x: -self.x as i64, y: -self.y as i64, z: -self.z as i64, w: 0 }
    }

    /// The right-handed cross product.
    pub open spec fn crossed(self, v: Vector) -> Vector {
        Vector {
            x: (self.y * v.z - self.z * v.y) as i64,
            y: (self.z * v.x - self.x * v.z) as i64,
            z: (self.x * v.y - self.y * v.x) as i64,
            w: 0,
        }
    }

    /// The products and differences that `cross` computes all fit in an `i64`.
    pub open spec fn cross_fits(self, v: Vector) -> bool {
        &&& fits(self.y * v.z)
        &&& fits(self.z * v.y)
        &&& fits(self.z * v.x)
        &&& fits(self.x * v.z)
        &&& fits(self.x * v.y)
        &&& fits(self.y * v.x)
        &&& fits(self.y * v.z - self.z * v.y)
        &&& fits(self.z * v.x - self.x * v.z)
        &&& fits(self.x * v.y - self.y * v.x)
    }

    pub fn new(x: i64, y: i64, z: i64) -> (r: Vector)
        ensures
            r == (Vector { x, y, z, w: 0 }),
    {
        Vector { x, y, z, w: 0 }
    }

    pub fn add_vector(&self, v: &Vector) -> (r: Vector)
        requires
            fits(self.x + v.x),
            fits(self.y + v.y),
            fits(self.z + v.z),
        ensures
            r == (Vector {
                x: (self.x + v.x) as i64,
                y: (self.y + v.y) as i64,
                z: (self.z + v.z) as i64,
                w: 0,
            }),
    {
        Vector { x: self.x + v.x, y: self.y + v.y, z: self.z + v.z, w: 0 }
    }

    /// The point `p` moved by this vector.
    pub fn add_point(&self, p: &Point) -> (r: Point)
        requires
            fits(self.x + p.x),
            fits(self.y + p.y),
            fits(self.z + p.z),
        ensures
            r == (Point {
                x: (self.x + p.x) as i64,
                y: (self.y + p.y) as i64,
                z: (self.z + p.z) as i64,
                w: 1,
            }),
    {
        Point { x: self.x + p.x, y: self.y + p.y, z: self.z + p.z, w: 1 }
    }

    pub fn sub_vector(&self, v: &Vector) -> (r: Vector)
        requires
            fits(self.x - v.x),
            fits(self.y - v.y),
            fits(self.z - v.z),
        ensures
            r == (Vector {
                x: (self.x - v.x) as i64,
                y: (self.y - v.y) as i64,
                z: (self.z - v.z) as i64,
                w: 0,
            }),
    {
        Vector { x: self.x - v.x, y: self.y - v.y, z: self.z - v.z, w: 0 }
    }

    pub fn neg(&self) -> (r: Vector)
        requires
            fits(-self.x),
            fits(-self.y),
            fits(-self.z),
        ensures
            r == self.negated(),
    {
        Vector { x: -self.x, y: -self.y, z: -self.z, w: 0 }
    }

    pub fn scale(&self, s: i64) -> (r: Vector)
        requires
            fits(self.x * s),
            fits(self.y * s),
            fits(self.z * s),
        ensures
            r == (Vector {
                x: (self.x * s) as i64,
                y: (self.y * s) as i64,
                z: (self.z * s) as i64,
                w: 0,
            }),
    {
        Vector { x: self.x * s, y: self.y * s, z: self.z * s, w: 0 }
    }

    /// The dot product, summed from x to z.
    pub fn dot(&self, v: &Vector) -> (r: i64)
        requires
            fits(self.x * v.x),
            fits(self.y * v.y),
            fits(self.z * v.z),
            fits(self.x * v.x + self.y * v.y),
            fits(dot_of(*self, *v)),
        ensures
            r == dot_of(*self, *v),
    {
        self.x * v.x + self.y * v.y + self.z * v.z
    }

    /// The right-handed cross product.
    pub fn cross(&self, v: &Vector) -> (r: Vector)
        requires
            self.cross_fits(*v),
        ensures
            r == self.crossed(*v),
    {
        Vector {
            x: self.y * v.z - self.z * v.y,
            y: self.z * v.x - self.x * v.z,
            z: self.x * v.y - self.y * v.x,
            w: 0,
        }
    }
}

/// The cross product is anti-commutative: `b × a` is `-(a × b)`.
pub proof fn lemma_cross_anticommutative(a: Vector, b: Vector)
    requires
        a.cross_fits(b),
        b.cross_fits(a),
    ensures
        b.crossed(a) == a.crossed(b).negated(),
{
    assert(b.y * a.z - b.z * a.y == -(a.y * b.z - a.z * b.y)) by (nonlinear_arith);
    assert(b.z * a.x - b.x * a.z == -(a.z * b.x - a.x * b.z)) by (nonlinear_arith);
    assert(b.x * a.y - b.y * a.x == -(a.x * b.y - a.y * b.x)) by (nonlinear_arith);
}

} // verus!
